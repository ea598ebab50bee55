//! The in-memory form of a parsed bitcode module.
//!
//! The loader (outside this library) turns a parsed module into these plain
//! data types.  Construct that a dispatch site does not handle is represented
//! by an explicit `Unsupported` variant, so that the interpreter itself
//! decides, and reports, what lies outside the covered subset.
//!
//! Names (of registers, blocks, functions and globals) are byte strings.
//! Floating-point constants are carried as their raw IEEE-754 bit patterns;
//! the library never performs floating-point arithmetic itself.

use vstd::prelude::*;

use crate::bytes::copy_bytes;

verus! {

/// A fatal interpretation error.  Any of these aborts the run.
#[derive(Clone, Copy, Debug, PartialEq, Eq, Structural)]
pub enum Error {
    /// The module has no function named `main`.
    MissingMain,
    /// An opcode, type, operand form, terminator, callee or global
    /// initialiser outside the covered subset.
    Unsupported,
    /// A read of a register that has no current binding (or a cyclic
    /// chain of register references, which never yields a value).
    UndefinedValue,
    /// Integer division or remainder by zero, or signed division overflow.
    ArithmeticTrap,
    /// A malformed `printf` call: the format reference does not name a
    /// string global, a `%` ends the format, or the arguments ran out.
    MalformedPrintf,
    /// A conditional branch whose condition is neither 0 nor 1.
    BadBranchCondition,
}

/// A scalar type annotation on an operand.
#[derive(Clone, Copy, Debug)]
pub enum Ty {
    /// An integer type with its bit width (i1, i8, i32, ...).
    Int(u32),
    /// IEEE-754 single precision.
    Single,
    /// IEEE-754 double precision.
    Double,
    /// Any type outside the covered subset (pointers, aggregates, ...).
    Other,
}

/// A value reference: a local virtual register or a constant.
#[derive(Debug)]
pub enum Operand {
    /// A local virtual register with its declared type.
    Local { name: Vec<u8>, ty: Ty },
    /// An integer constant.  `val` is the `width`-bit pattern zero-extended
    /// to 64 bits.
    ConstInt { width: u32, val: u64 },
    /// A single-precision float constant, as its raw bit pattern.
    ConstSingle { bits: u32 },
    /// A double-precision float constant, as its raw bit pattern.
    ConstDouble { bits: u64 },
    /// A constant `getelementptr` into a named global (a string literal).
    ConstStr { global: Vec<u8> },
    /// Any operand form outside the covered subset.
    Unsupported,
}

/// The specification-level form of an [`Operand`].
pub enum OpV {
    Local { name: Seq<u8>, ty: Ty },
    ConstInt { width: u32, val: u64 },
    ConstSingle { bits: u32 },
    ConstDouble { bits: u64 },
    ConstStr { global: Seq<u8> },
    Unsupported,
}

impl View for Operand {
    type V = OpV;

    open spec fn view(&self) -> OpV {
        match self {
            Operand::Local { name, ty } => OpV::Local { name: name@, ty: *ty },
            Operand::ConstInt { width, val } => OpV::ConstInt { width: *width, val: *val },
            Operand::ConstSingle { bits } => OpV::ConstSingle { bits: *bits },
            Operand::ConstDouble { bits } => OpV::ConstDouble { bits: *bits },
            Operand::ConstStr { global } => OpV::ConstStr { global: global@ },
            Operand::Unsupported => OpV::Unsupported,
        }
    }
}

/// An integer arithmetic opcode.
#[derive(Clone, Copy, Debug, PartialEq, Eq, Structural)]
pub enum IntOp {
    Add,
    Sub,
    Mul,
    UDiv,
    SDiv,
    URem,
    SRem,
}

/// A floating-point arithmetic opcode.  The host carries these out.
#[derive(Clone, Copy, Debug, PartialEq, Eq, Structural)]
pub enum FloatOp {
    Add,
    Sub,
    Mul,
    Div,
}

/// An `icmp` predicate.
#[derive(Clone, Copy, Debug, PartialEq, Eq, Structural)]
pub enum Pred {
    Eq,
    Ne,
    Ugt,
    Uge,
    Ult,
    Ule,
    Sgt,
    Sge,
    Slt,
    Sle,
}

/// The callee of a `call` instruction: the name of a global function
/// reference, or a form outside the covered subset.
#[derive(Debug)]
pub enum Callee {
    Name(Vec<u8>),
    Unsupported,
}

/// One SSA instruction of the covered subset.
#[derive(Debug)]
pub enum Inst {
    /// Reserves a register; no value is stored yet.
    Alloca { dest: Vec<u8> },
    /// Binds the register named by `addr` to the value of `value`.
    Store { addr: Operand, value: Operand },
    /// Binds `dest` to the current value of the register named by `addr`.
    Load { dest: Vec<u8>, addr: Operand },
    /// Calls a function; suspends the current block.
    Call { dest: Option<Vec<u8>>, callee: Callee, args: Vec<Operand> },
    /// Integer arithmetic; the width comes from `a`'s declared type.
    IntBin { op: IntOp, dest: Vec<u8>, a: Operand, b: Operand },
    /// Floating-point arithmetic; the precision comes from `a`'s declared
    /// type.  The host computes the result bits.
    FloatBin { op: FloatOp, dest: Vec<u8>, a: Operand, b: Operand },
    /// Integer comparison; writes 0 or 1 as an i8.
    Icmp { pred: Pred, dest: Vec<u8>, a: Operand, b: Operand },
    /// Sign-extension to a wider integer type.
    Sext { dest: Vec<u8>, src: Operand, to_ty: Ty },
    /// Zero-extension to a wider integer type.
    Zext { dest: Vec<u8>, src: Operand, to_ty: Ty },
    /// Float extension (single to double).  The host converts.
    Fpext { dest: Vec<u8>, src: Operand, to_ty: Ty },
    /// Any instruction outside the covered subset.
    Unsupported,
}

/// One case of a `switch` terminator.
#[derive(Debug)]
pub struct SwitchCase {
    /// The case key: an integer constant, or `None` for a constant form
    /// outside the covered subset.
    pub key: Option<u64>,
    /// The block to jump to on a match.
    pub target: Vec<u8>,
}

/// The terminator of a basic block.
#[derive(Debug)]
pub enum Term {
    /// Return, with an optional operand handed up to the caller unevaluated.
    Ret { val: Option<Operand> },
    /// Unconditional branch.
    Br { target: Vec<u8> },
    /// Conditional branch on an integer condition (expected 0 or 1).
    CondBr { cond: Operand, then_dest: Vec<u8>, else_dest: Vec<u8> },
    /// Multi-way branch: the first case whose key equals the value wins.
    Switch { val: Operand, cases: Vec<SwitchCase>, default_dest: Vec<u8> },
    /// Any terminator outside the covered subset.
    Unsupported,
}

/// A basic block: straight-line instructions and one terminator.
#[derive(Debug)]
pub struct Block {
    pub name: Vec<u8>,
    pub instrs: Vec<Inst>,
    pub term: Term,
}

/// A named function: ordered parameters and basic blocks (the first block is
/// the entry block).
#[derive(Debug)]
pub struct Function {
    pub name: Vec<u8>,
    pub params: Vec<Vec<u8>>,
    pub blocks: Vec<Block>,
}

/// The initialiser of a global variable.
#[derive(Debug)]
pub enum GInit {
    /// A constant byte array (a C string literal, trailing NUL included).
    Bytes(Vec<u8>),
    /// Any initialiser outside the covered subset.
    Unsupported,
}

/// The specification-level form of a [`GInit`].
pub enum GInitV {
    Bytes(Seq<u8>),
    Unsupported,
}

impl View for GInit {
    type V = GInitV;

    open spec fn view(&self) -> GInitV {
        match self {
            GInit::Bytes(b) => GInitV::Bytes(b@),
            GInit::Unsupported => GInitV::Unsupported,
        }
    }
}

/// A module-level global variable.
#[derive(Debug)]
pub struct Global {
    pub name: Vec<u8>,
    /// `None` when the global has no initialiser, which the interpreter
    /// reports as an error before execution starts.
    pub init: Option<GInit>,
}

/// A parsed module: functions and initialised globals.  Read-only during
/// execution.
#[derive(Debug)]
pub struct Module {
    pub functions: Vec<Function>,
    pub globals: Vec<Global>,
}

/// The view of an optional register name.
pub open spec fn opt_bytes_view(d: Option<Vec<u8>>) -> Option<Seq<u8>> {
    match d {
        Some(v) => Some(v@),
        None => None,
    }
}

/// The views of a sequence of operands.
pub open spec fn ops_view(s: Seq<Operand>) -> Seq<OpV> {
    s.map_values(|o: Operand| o@)
}

/// A fresh copy of an operand.
pub fn copy_operand(op: &Operand) -> (r: Operand)
    ensures
        r@ == op@,
{
    match op {
        Operand::Local { name, ty } => Operand::Local { name: copy_bytes(name), ty: *ty },
        Operand::ConstInt { width, val } => Operand::ConstInt { width: *width, val: *val },
        Operand::ConstSingle { bits } => Operand::ConstSingle { bits: *bits },
        Operand::ConstDouble { bits } => Operand::ConstDouble { bits: *bits },
        Operand::ConstStr { global } => Operand::ConstStr { global: copy_bytes(global) },
        Operand::Unsupported => Operand::Unsupported,
    }
}

/// A fresh copy of an optional register name.
pub fn copy_opt_bytes(d: &Option<Vec<u8>>) -> (r: Option<Vec<u8>>)
    ensures
        opt_bytes_view(r) == opt_bytes_view(*d),
{
    match d {
        Some(v) => Some(copy_bytes(v)),
        None => None,
    }
}

/// A fresh copy of an operand list.
pub fn copy_operands(v: &Vec<Operand>) -> (r: Vec<Operand>)
    ensures
        ops_view(r@) == ops_view(v@),
{
    let mut r: Vec<Operand> = Vec::new();
    let n: usize = v.len();
    let mut i: usize = 0;
    while i < n
        invariant
            n == v.len(),
            i <= n,
            ops_view(r@) =~= ops_view(v@.subrange(0, i as int)),
        decreases n - i,
    {
        let ghost r0 = r@;
        let c = copy_operand(&v[i]);
        let ghost cop = c;
        r.push(c);
        proof {
            assert(ops_view(r0.push(cop)) =~= ops_view(r0).push(cop@));
            assert(v@.subrange(0, i as int + 1) =~= v@.subrange(0, i as int).push(v@[i as int]));
            assert(ops_view(v@.subrange(0, i as int).push(v@[i as int])) =~= ops_view(
                v@.subrange(0, i as int),
            ).push(v@[i as int]@));
        }
        i += 1;
    }
    proof {
        assert(v@.subrange(0, n as int) =~= v@);
    }
    r
}

} // verus!
