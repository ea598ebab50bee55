//! The small-step specification of the interpreter.
//!
//! A machine state holds the suspended frames, the active value store, the
//! current position (function, block, instruction index), a status, and the
//! output produced so far.  `sstep` defines what one step of the machine does
//! on a given module; the executable interpreter is proved to follow it
//! exactly.  Floating-point work suspends the machine in a `NeedFloat...`
//! status; `float_resumed` and `text_resumed` define how a host answer is
//! taken up.

use vstd::prelude::*;

use crate::arith::{eval_int, icmp_holds, int_traps, sext_val, zext_val};
use crate::fmt::dec_signed;
use crate::ir::{
    opt_bytes_view, ops_view, Block, Callee, Error, FloatOp, Function, GInitV, Global, Inst,
    Module, OpV, Operand, Term, Ty,
};
use crate::store::lookup;

verus! {

/// A suspended activation record: the caller's value store and where to
/// resume (function, block, next instruction, destination register of the
/// call).
#[verifier::ext_equal]
pub struct SFrame {
    pub store: Seq<(Seq<u8>, OpV)>,
    pub func: int,
    pub block: int,
    pub inst: int,
    pub dest: Option<Seq<u8>>,
}

/// What the machine is doing.
#[verifier::ext_equal]
pub enum SStatus {
    /// Freshly constructed; `interpret` has not run yet.
    Idle,
    /// Executing instructions.
    Running,
    /// Waiting for the host to carry out float arithmetic on the given raw
    /// bit patterns and answer with the result bits.
    NeedFloatBin { op: FloatOp, wide: bool, a: u64, b: u64, dest: Seq<u8> },
    /// Waiting for the host to extend single-precision bits to double
    /// precision.
    NeedFloatExt { a: u32, dest: Seq<u8> },
    /// Waiting for the host to render float bits as text, in the middle of a
    /// `printf` whose progress is carried along.
    NeedFloatText {
        wide: bool,
        bits: u64,
        line: Seq<u8>,
        fmt: Seq<u8>,
        pos: int,
        argi: int,
        args: Seq<OpV>,
    },
    /// `main` returned; the output is complete.
    Done,
    /// A fatal error ended the run.
    Fatal(Error),
}

/// A machine state.
#[verifier::ext_equal]
pub struct SState {
    pub frames: Seq<SFrame>,
    pub store: Seq<(Seq<u8>, OpV)>,
    pub func: int,
    pub block: int,
    pub inst: int,
    pub status: SStatus,
    pub output: Seq<u8>,
}

/// What a blocked machine asks of its host (or reports).
#[derive(Clone, Copy, Debug, PartialEq, Eq, Structural)]
pub enum Outcome {
    /// The step budget ran out before the machine blocked: run it further.
    Working,
    /// `main` returned; read the output.
    Done,
    /// A fatal error.
    Fatal(Error),
    /// Compute `a op b` on float bit patterns (single precision in the low
    /// 32 bits when `wide` is false) and call `resume_float` with the result
    /// bits.
    FloatBin { op: FloatOp, wide: bool, a: u64, b: u64 },
    /// Extend single-precision bits to double precision and call
    /// `resume_float`.
    FloatExt { a: u32 },
    /// Render the float bits as decimal text and call `resume_text`.
    FloatText { wide: bool, bits: u64 },
}

/// The fuel for chasing register-to-register references: a chain longer than
/// the store itself can only be a cycle, which never yields a value.
pub open spec fn chase_fuel(st: Seq<(Seq<u8>, OpV)>) -> nat {
    st.len() + 1
}

/// Resolves an operand to an integer payload by chasing register
/// indirection through the store.
pub open spec fn resolve_int(st: Seq<(Seq<u8>, OpV)>, op: OpV, fuel: nat) -> Result<u64, Error>
    decreases fuel,
{
    match op {
        OpV::ConstInt { width, val } => Ok(val),
        OpV::Local { name, ty } => {
            if fuel == 0 {
                Err(Error::UndefinedValue)
            } else {
                match lookup(st, name) {
                    None => Err(Error::UndefinedValue),
                    Some(o) => resolve_int(st, o, (fuel - 1) as nat),
                }
            }
        },
        _ => Err(Error::Unsupported),
    }
}

/// Resolves an operand to single-precision float bits.
pub open spec fn resolve_single(st: Seq<(Seq<u8>, OpV)>, op: OpV, fuel: nat) -> Result<u32, Error>
    decreases fuel,
{
    match op {
        OpV::ConstSingle { bits } => Ok(bits),
        OpV::Local { name, ty } => {
            if fuel == 0 {
                Err(Error::UndefinedValue)
            } else {
                match lookup(st, name) {
                    None => Err(Error::UndefinedValue),
                    Some(o) => resolve_single(st, o, (fuel - 1) as nat),
                }
            }
        },
        _ => Err(Error::Unsupported),
    }
}

/// Resolves an operand to double-precision float bits.
pub open spec fn resolve_double(st: Seq<(Seq<u8>, OpV)>, op: OpV, fuel: nat) -> Result<u64, Error>
    decreases fuel,
{
    match op {
        OpV::ConstDouble { bits } => Ok(bits),
        OpV::Local { name, ty } => {
            if fuel == 0 {
                Err(Error::UndefinedValue)
            } else {
                match lookup(st, name) {
                    None => Err(Error::UndefinedValue),
                    Some(o) => resolve_double(st, o, (fuel - 1) as nat),
                }
            }
        },
        _ => Err(Error::Unsupported),
    }
}

/// Chases register indirection until a constant operand remains.  This is
/// how a `ret` operand is evaluated against the returning frame's store
/// before that store is discarded.
pub open spec fn chase_op(st: Seq<(Seq<u8>, OpV)>, op: OpV, fuel: nat) -> Result<OpV, Error>
    decreases fuel,
{
    match op {
        OpV::Local { name, ty } => {
            if fuel == 0 {
                Err(Error::UndefinedValue)
            } else {
                match lookup(st, name) {
                    None => Err(Error::UndefinedValue),
                    Some(o) => chase_op(st, o, (fuel - 1) as nat),
                }
            }
        },
        _ => Ok(op),
    }
}

/// The initialiser of the global named `name` (the latest definition wins,
/// matching insertion order into the global table).
pub open spec fn glob_lookup(gs: Seq<Global>, name: Seq<u8>) -> Option<GInitV>
    decreases gs.len(),
{
    if gs.len() == 0 {
        None
    } else if gs.last().name@ == name {
        match gs.last().init {
            Some(gi) => Some(gi@),
            None => None,
        }
    } else {
        glob_lookup(gs.drop_last(), name)
    }
}

/// The index of the first function at or after `i` with the given name, or
/// -1.
pub open spec fn fn_index_from(fs: Seq<Function>, name: Seq<u8>, i: int) -> int
    decreases fs.len() - i,
{
    if i < 0 || i >= fs.len() {
        -1
    } else if fs[i].name@ == name {
        i
    } else {
        fn_index_from(fs, name, i + 1)
    }
}

/// The index of the first function with the given name, or -1.
pub open spec fn fn_index(fs: Seq<Function>, name: Seq<u8>) -> int {
    fn_index_from(fs, name, 0)
}

/// The index of the first block at or after `i` with the given name, or -1.
pub open spec fn blk_index_from(bs: Seq<Block>, name: Seq<u8>, i: int) -> int
    decreases bs.len() - i,
{
    if i < 0 || i >= bs.len() {
        -1
    } else if bs[i].name@ == name {
        i
    } else {
        blk_index_from(bs, name, i + 1)
    }
}

/// The index of the first block with the given name, or -1.
pub open spec fn blk_index(bs: Seq<Block>, name: Seq<u8>) -> int {
    blk_index_from(bs, name, 0)
}

/// The name of the builtin `printf`.
pub open spec fn printf_name() -> Seq<u8> {
    seq![112u8, 114u8, 105u8, 110u8, 116u8, 102u8]
}

/// The name of the entry function `main`.
pub open spec fn main_name() -> Seq<u8> {
    seq![109u8, 97u8, 105u8, 110u8]
}

/// Whether a global's name starts with `.str` (a string literal).
pub open spec fn has_str_prefix(name: Seq<u8>) -> bool {
    name.len() >= 4 && name[0] == 46u8 && name[1] == 115u8 && name[2] == 116u8 && name[3] == 114u8
}

/// A byte array with its NUL bytes removed.
pub open spec fn strip_nuls(bs: Seq<u8>) -> Seq<u8>
    decreases bs.len(),
{
    if bs.len() == 0 {
        Seq::empty()
    } else if bs.last() == 0 {
        strip_nuls(bs.drop_last())
    } else {
        strip_nuls(bs.drop_last()).push(bs.last())
    }
}

/// What rendering one `printf` argument yields.
pub enum RaRes {
    /// Rendered text.
    Text(Seq<u8>),
    /// Float bits that the host must render.
    NeedF { wide: bool, bits: u64 },
    /// A fatal error.
    Fail(Error),
}

/// Renders one positional `printf` argument according to its declared type.
pub open spec fn render_arg(m: Module, st: Seq<(Seq<u8>, OpV)>, a: OpV) -> RaRes {
    match a {
        OpV::Local { name, ty } => match ty {
            Ty::Int(w) => {
                if w == 32 || w == 64 {
                    match resolve_int(st, a, chase_fuel(st)) {
                        Err(e) => RaRes::Fail(e),
                        Ok(v) => RaRes::Text(dec_signed(w as nat, v)),
                    }
                } else {
                    RaRes::Fail(Error::Unsupported)
                }
            },
            Ty::Single => match resolve_single(st, a, chase_fuel(st)) {
                Err(e) => RaRes::Fail(e),
                Ok(bits) => RaRes::NeedF { wide: false, bits: bits as u64 },
            },
            Ty::Double => match resolve_double(st, a, chase_fuel(st)) {
                Err(e) => RaRes::Fail(e),
                Ok(bits) => RaRes::NeedF { wide: true, bits },
            },
            Ty::Other => RaRes::Fail(Error::Unsupported),
        },
        OpV::ConstInt { width, val } => {
            if width == 32 || width == 64 {
                RaRes::Text(dec_signed(width as nat, val))
            } else {
                RaRes::Fail(Error::Unsupported)
            }
        },
        OpV::ConstSingle { bits } => RaRes::NeedF { wide: false, bits: bits as u64 },
        OpV::ConstDouble { bits } => RaRes::NeedF { wide: true, bits },
        OpV::ConstStr { global } => match glob_lookup(m.globals@, global) {
            Some(GInitV::Bytes(bs)) => {
                if has_str_prefix(global) {
                    RaRes::Text(strip_nuls(bs))
                } else {
                    RaRes::Fail(Error::MalformedPrintf)
                }
            },
            _ => RaRes::Fail(Error::MalformedPrintf),
        },
        OpV::Unsupported => RaRes::Fail(Error::Unsupported),
    }
}

/// What walking a format string yields.
pub enum WalkRes {
    /// The rendered line is complete.
    Out(Seq<u8>),
    /// The walk paused at a float argument: the host must render `bits`; the
    /// walk resumes at `pos + 2` with the text appended to `line`.
    NeedF { wide: bool, bits: u64, line: Seq<u8>, pos: int, argi: int },
    /// A fatal error.
    Fail(Error),
}

/// Walks the format bytes from `pos`: a `%` consumes one conversion
/// character and renders argument `argi` by its declared type, NUL bytes are
/// skipped, and every other byte is emitted verbatim.
pub open spec fn printf_walk(
    m: Module,
    st: Seq<(Seq<u8>, OpV)>,
    fmt: Seq<u8>,
    args: Seq<OpV>,
    line: Seq<u8>,
    pos: int,
    argi: int,
) -> WalkRes
    decreases fmt.len() - pos,
{
    if pos < 0 || pos >= fmt.len() {
        WalkRes::Out(line)
    } else {
        let c = fmt[pos];
        if c == 37 {
            if pos + 1 >= fmt.len() {
                WalkRes::Fail(Error::MalformedPrintf)
            } else if argi < 0 || argi >= args.len() {
                WalkRes::Fail(Error::MalformedPrintf)
            } else {
                match render_arg(m, st, args[argi]) {
                    RaRes::Fail(e) => WalkRes::Fail(e),
                    RaRes::Text(t) => printf_walk(m, st, fmt, args, line + t, pos + 2, argi + 1),
                    RaRes::NeedF { wide, bits } => WalkRes::NeedF { wide, bits, line, pos, argi },
                }
            }
        } else if c == 0 {
            printf_walk(m, st, fmt, args, line, pos + 1, argi)
        } else {
            printf_walk(m, st, fmt, args, line.push(c), pos + 1, argi)
        }
    }
}

/// The state with a fatal status.
pub open spec fn fatal(s: SState, e: Error) -> SState {
    SState { status: SStatus::Fatal(e), ..s }
}

/// The state advanced past the current instruction.
pub open spec fn adv(s: SState) -> SState {
    SState { inst: s.inst + 1, ..s }
}

/// The state with one more binding, advanced past the current instruction.
pub open spec fn bind_adv(s: SState, name: Seq<u8>, op: OpV) -> SState {
    SState { store: s.store.push((name, op)), inst: s.inst + 1, ..s }
}

/// The callee's initial store: each formal parameter bound to the
/// corresponding argument operand, verbatim.
pub open spec fn bind_params(ps: Seq<Vec<u8>>, args: Seq<Operand>) -> Seq<(Seq<u8>, OpV)> {
    let n = if ps.len() <= args.len() {
        ps.len()
    } else {
        args.len()
    };
    Seq::new(n, |i: int| (ps[i]@, args[i]@))
}

/// One step on a `call` that resolved to the builtin `printf`: render the
/// format, or pause at the first float argument.
pub open spec fn step_printf(m: Module, s: SState, args: Seq<Operand>) -> SState {
    if args.len() < 1 {
        fatal(s, Error::MalformedPrintf)
    } else {
        match args[0]@ {
            OpV::ConstStr { global } => match glob_lookup(m.globals@, global) {
                Some(GInitV::Bytes(fmt)) => match printf_walk(
                    m,
                    s.store,
                    fmt,
                    ops_view(args),
                    Seq::empty(),
                    0,
                    1,
                ) {
                    WalkRes::Out(line) => SState {
                        output: s.output + line.push(10u8),
                        inst: s.inst + 1,
                        ..s
                    },
                    WalkRes::NeedF { wide, bits, line, pos, argi } => SState {
                        status: SStatus::NeedFloatText {
                            wide,
                            bits,
                            line,
                            fmt,
                            pos,
                            argi,
                            args: ops_view(args),
                        },
                        inst: s.inst + 1,
                        ..s
                    },
                    WalkRes::Fail(e) => fatal(s, e),
                },
                _ => fatal(s, Error::MalformedPrintf),
            },
            _ => fatal(s, Error::MalformedPrintf),
        }
    }
}

/// One step on a `call` instruction: push a frame and enter a known
/// function's entry block, hand the call to the builtin `printf`, or fail on
/// an unresolved external name.
pub open spec fn step_call(
    m: Module,
    s: SState,
    dest: Option<Vec<u8>>,
    callee: Callee,
    args: Seq<Operand>,
) -> SState {
    match callee {
        Callee::Unsupported => fatal(s, Error::Unsupported),
        Callee::Name(nm) => {
            let fi = fn_index(m.functions@, nm@);
            if fi >= 0 {
                let f2 = m.functions@[fi];
                if f2.blocks@.len() == 0 {
                    fatal(s, Error::Unsupported)
                } else {
                    SState {
                        frames: s.frames.push(
                            SFrame {
                                store: s.store,
                                func: s.func,
                                block: s.block,
                                inst: s.inst + 1,
                                dest: opt_bytes_view(dest),
                            },
                        ),
                        store: bind_params(f2.params@, args),
                        func: fi,
                        block: 0,
                        inst: 0,
                        status: SStatus::Running,
                        output: s.output,
                    }
                }
            } else if nm@ == printf_name() {
                step_printf(m, s, args)
            } else {
                fatal(s, Error::Unsupported)
            }
        },
    }
}

/// One step on a non-terminator instruction.
pub open spec fn step_inst(m: Module, s: SState, inst: Inst) -> SState {
    match inst {
        Inst::Alloca { dest } => adv(s),
        Inst::Store { addr, value } => match addr@ {
            OpV::Local { name, ty } => match value@ {
                OpV::Local { name: vn, ty: vt } => match lookup(s.store, vn) {
                    None => fatal(s, Error::UndefinedValue),
                    Some(op) => bind_adv(s, name, op),
                },
                OpV::Unsupported => fatal(s, Error::Unsupported),
                _ => bind_adv(s, name, value@),
            },
            _ => fatal(s, Error::Unsupported),
        },
        Inst::Load { dest, addr } => match addr@ {
            OpV::Local { name, ty } => match lookup(s.store, name) {
                None => fatal(s, Error::UndefinedValue),
                Some(op) => bind_adv(s, dest@, op),
            },
            _ => fatal(s, Error::Unsupported),
        },
        Inst::Call { dest, callee, args } => step_call(m, s, dest, callee, args@),
        Inst::IntBin { op, dest, a, b } => match a@ {
            OpV::Local { name, ty: Ty::Int(w) } => {
                if w == 32 || w == 64 {
                    match resolve_int(s.store, a@, chase_fuel(s.store)) {
                        Err(e) => fatal(s, e),
                        Ok(va) => match resolve_int(s.store, b@, chase_fuel(s.store)) {
                            Err(e) => fatal(s, e),
                            Ok(vb) => {
                                if int_traps(op, w as nat, va, vb) {
                                    fatal(s, Error::ArithmeticTrap)
                                } else {
                                    bind_adv(
                                        s,
                                        dest@,
                                        OpV::ConstInt {
                                            width: w,
                                            val: eval_int(op, w as nat, va, vb),
                                        },
                                    )
                                }
                            },
                        },
                    }
                } else {
                    fatal(s, Error::Unsupported)
                }
            },
            _ => fatal(s, Error::Unsupported),
        },
        Inst::FloatBin { op, dest, a, b } => match a@ {
            OpV::Local { name, ty: Ty::Single } => match resolve_single(
                s.store,
                a@,
                chase_fuel(s.store),
            ) {
                Err(e) => fatal(s, e),
                Ok(va) => match resolve_single(s.store, b@, chase_fuel(s.store)) {
                    Err(e) => fatal(s, e),
                    Ok(vb) => SState {
                        status: SStatus::NeedFloatBin {
                            op,
                            wide: false,
                            a: va as u64,
                            b: vb as u64,
                            dest: dest@,
                        },
                        inst: s.inst + 1,
                        ..s
                    },
                },
            },
            OpV::Local { name, ty: Ty::Double } => match resolve_double(
                s.store,
                a@,
                chase_fuel(s.store),
            ) {
                Err(e) => fatal(s, e),
                Ok(va) => match resolve_double(s.store, b@, chase_fuel(s.store)) {
                    Err(e) => fatal(s, e),
                    Ok(vb) => SState {
                        status: SStatus::NeedFloatBin { op, wide: true, a: va, b: vb, dest: dest@ },
                        inst: s.inst + 1,
                        ..s
                    },
                },
            },
            _ => fatal(s, Error::Unsupported),
        },
        Inst::Icmp { pred, dest, a, b } => match a@ {
            OpV::Local { name, ty: Ty::Int(w) } => {
                if 1 <= w <= 64 {
                    match resolve_int(s.store, a@, chase_fuel(s.store)) {
                        Err(e) => fatal(s, e),
                        Ok(va) => match resolve_int(s.store, b@, chase_fuel(s.store)) {
                            Err(e) => fatal(s, e),
                            Ok(vb) => bind_adv(
                                s,
                                dest@,
                                OpV::ConstInt {
                                    width: 8,
                                    val: if icmp_holds(pred, w as nat, va, vb) {
                                        1
                                    } else {
                                        0
                                    },
                                },
                            ),
                        },
                    }
                } else {
                    fatal(s, Error::Unsupported)
                }
            },
            _ => fatal(s, Error::Unsupported),
        },
        Inst::Sext { dest, src, to_ty } => match src@ {
            OpV::Local { name, ty: Ty::Int(sw) } => match to_ty {
                Ty::Int(dw) => {
                    if (dw == 32 || dw == 64) && 1 <= sw < dw {
                        match resolve_int(s.store, src@, chase_fuel(s.store)) {
                            Err(e) => fatal(s, e),
                            Ok(v) => bind_adv(
                                s,
                                dest@,
                                OpV::ConstInt {
                                    width: dw,
                                    val: sext_val(sw as nat, dw as nat, v),
                                },
                            ),
                        }
                    } else {
                        fatal(s, Error::Unsupported)
                    }
                },
                _ => fatal(s, Error::Unsupported),
            },
            _ => fatal(s, Error::Unsupported),
        },
        Inst::Zext { dest, src, to_ty } => match src@ {
            OpV::Local { name, ty: Ty::Int(sw) } => match to_ty {
                Ty::Int(dw) => {
                    if (dw == 32 || dw == 64) && 1 <= sw < dw {
                        match resolve_int(s.store, src@, chase_fuel(s.store)) {
                            Err(e) => fatal(s, e),
                            Ok(v) => bind_adv(
                                s,
                                dest@,
                                OpV::ConstInt { width: dw, val: zext_val(sw as nat, v) },
                            ),
                        }
                    } else {
                        fatal(s, Error::Unsupported)
                    }
                },
                _ => fatal(s, Error::Unsupported),
            },
            _ => fatal(s, Error::Unsupported),
        },
        Inst::Fpext { dest, src, to_ty } => match src@ {
            OpV::Local { name, ty: Ty::Single } => match to_ty {
                Ty::Double => match resolve_single(s.store, src@, chase_fuel(s.store)) {
                    Err(e) => fatal(s, e),
                    Ok(v) => SState {
                        status: SStatus::NeedFloatExt { a: v, dest: dest@ },
                        inst: s.inst + 1,
                        ..s
                    },
                },
                _ => fatal(s, Error::Unsupported),
            },
            _ => fatal(s, Error::Unsupported),
        },
        Inst::Unsupported => fatal(s, Error::Unsupported),
    }
}

/// The first switch case at or after `i` whose key equals the value, or the
/// default.
pub open spec fn switch_pick_from(
    cases: Seq<crate::ir::SwitchCase>,
    v: u64,
    dflt: Seq<u8>,
    i: int,
) -> Result<Seq<u8>, Error>
    decreases cases.len() - i,
{
    if i < 0 || i >= cases.len() {
        Ok(dflt)
    } else {
        match cases[i].key {
            None => Err(Error::Unsupported),
            Some(k) => {
                if k == v {
                    Ok(cases[i].target@)
                } else {
                    switch_pick_from(cases, v, dflt, i + 1)
                }
            },
        }
    }
}

/// The first switch case whose key equals the value, or the default.
pub open spec fn switch_pick(
    cases: Seq<crate::ir::SwitchCase>,
    v: u64,
    dflt: Seq<u8>,
) -> Result<Seq<u8>, Error> {
    switch_pick_from(cases, v, dflt, 0)
}

/// The state transferred to the named block of the current function, or a
/// fatal state when no block has that name.
pub open spec fn goto_block(m: Module, s: SState, name: Seq<u8>) -> SState {
    let bi = blk_index(m.functions@[s.func].blocks@, name);
    if bi >= 0 {
        SState { block: bi, inst: 0, ..s }
    } else {
        fatal(s, Error::Unsupported)
    }
}

/// One step on the block's terminator.
pub open spec fn step_term(m: Module, s: SState, t: Term) -> SState {
    match t {
        Term::Ret { val } => {
            if s.frames.len() == 0 {
                SState { status: SStatus::Done, ..s }
            } else {
                let fr = s.frames.last();
                match val {
                    None => SState {
                        frames: s.frames.drop_last(),
                        store: fr.store,
                        func: fr.func,
                        block: fr.block,
                        inst: fr.inst,
                        status: SStatus::Running,
                        output: s.output,
                    },
                    Some(v) => match chase_op(s.store, v@, chase_fuel(s.store)) {
                        Err(e) => fatal(s, e),
                        Ok(rv) => match fr.dest {
                            // a returned value with nowhere to go: the
                            // caller's state is restored, then the run ends
                            None => SState {
                                frames: s.frames.drop_last(),
                                store: fr.store,
                                func: fr.func,
                                block: fr.block,
                                inst: fr.inst,
                                status: SStatus::Fatal(Error::Unsupported),
                                output: s.output,
                            },
                            Some(d) => SState {
                                frames: s.frames.drop_last(),
                                store: fr.store.push((d, rv)),
                                func: fr.func,
                                block: fr.block,
                                inst: fr.inst,
                                status: SStatus::Running,
                                output: s.output,
                            },
                        },
                    },
                }
            }
        },
        Term::Br { target } => goto_block(m, s, target@),
        Term::CondBr { cond, then_dest, else_dest } => match cond@ {
            OpV::Local { name, ty } => match resolve_int(s.store, cond@, chase_fuel(s.store)) {
                Err(e) => fatal(s, e),
                Ok(v) => {
                    if v == 1 {
                        goto_block(m, s, then_dest@)
                    } else if v == 0 {
                        goto_block(m, s, else_dest@)
                    } else {
                        fatal(s, Error::BadBranchCondition)
                    }
                },
            },
            _ => fatal(s, Error::Unsupported),
        },
        Term::Switch { val, cases, default_dest } => match val@ {
            OpV::Local { name, ty } => match resolve_int(s.store, val@, chase_fuel(s.store)) {
                Err(e) => fatal(s, e),
                Ok(v) => match switch_pick(cases@, v, default_dest@) {
                    Err(e) => fatal(s, e),
                    Ok(target) => goto_block(m, s, target),
                },
            },
            _ => fatal(s, Error::Unsupported),
        },
        Term::Unsupported => fatal(s, Error::Unsupported),
    }
}

/// One step of the machine.  A state that is not running is left unchanged;
/// a running state with an impossible position is fatal (the executable
/// interpreter never reaches one).
pub open spec fn sstep(m: Module, s: SState) -> SState {
    if !(s.status is Running) {
        s
    } else if !(0 <= s.func < m.functions@.len()) {
        fatal(s, Error::Unsupported)
    } else {
        let f = m.functions@[s.func];
        if !(0 <= s.block < f.blocks@.len()) {
            fatal(s, Error::Unsupported)
        } else {
            let b = f.blocks@[s.block];
            if 0 <= s.inst < b.instrs@.len() {
                step_inst(m, s, b.instrs@[s.inst])
            } else if s.inst == b.instrs@.len() {
                step_term(m, s, b.term)
            } else {
                fatal(s, Error::Unsupported)
            }
        }
    }
}

/// `n` steps of the machine.
pub open spec fn ssteps(m: Module, s: SState, n: nat) -> SState
    decreases n,
{
    if n == 0 {
        s
    } else {
        sstep(m, ssteps(m, s, (n - 1) as nat))
    }
}

/// A machine that is not running: it is waiting for the host or has ended.
pub open spec fn blocked(s: SState) -> bool {
    !(s.status is Running)
}

/// What a state asks of the host.
pub open spec fn outcome_of(s: SState) -> Outcome {
    match s.status {
        SStatus::Done => Outcome::Done,
        SStatus::Fatal(e) => Outcome::Fatal(e),
        SStatus::NeedFloatBin { op, wide, a, b, dest } => Outcome::FloatBin { op, wide, a, b },
        SStatus::NeedFloatExt { a, dest } => Outcome::FloatExt { a },
        SStatus::NeedFloatText { wide, bits, .. } => Outcome::FloatText { wide, bits },
        SStatus::Idle => Outcome::Working,
        SStatus::Running => Outcome::Working,
    }
}

/// Whether every global carries an initialiser.
pub open spec fn globals_ok(m: Module) -> bool {
    forall|i: int| 0 <= i < m.globals@.len() ==> (#[trigger] m.globals@[i]).init is Some
}

/// The freshly constructed, not yet started state.
pub open spec fn idle_state() -> SState {
    SState {
        frames: Seq::empty(),
        store: Seq::empty(),
        func: 0,
        block: 0,
        inst: 0,
        status: SStatus::Idle,
        output: Seq::empty(),
    }
}

/// The state in which interpretation of a module begins: at `main`'s entry
/// block, after checking the global table, with everything else empty.
pub open spec fn boot_state(m: Module) -> SState {
    let base = SState {
        frames: Seq::empty(),
        store: Seq::empty(),
        func: 0,
        block: 0,
        inst: 0,
        status: SStatus::Running,
        output: Seq::empty(),
    };
    if !globals_ok(m) {
        SState { status: SStatus::Fatal(Error::Unsupported), ..base }
    } else {
        let fi = fn_index(m.functions@, main_name());
        if fi < 0 {
            SState { status: SStatus::Fatal(Error::MissingMain), ..base }
        } else if m.functions@[fi].blocks@.len() == 0 {
            SState { status: SStatus::Fatal(Error::Unsupported), ..base }
        } else {
            SState { func: fi, ..base }
        }
    }
}

/// The state after the host answers a float-arithmetic or float-extension
/// request with result bits: the destination register is bound and the
/// machine runs on.  (For a single-precision result the low 32 bits count.)
pub open spec fn float_resumed(s: SState, bits: u64) -> SState {
    match s.status {
        SStatus::NeedFloatBin { op, wide, a, b, dest } => SState {
            store: s.store.push(
                (
                    dest,
                    if wide {
                        OpV::ConstDouble { bits }
                    } else {
                        OpV::ConstSingle { bits: (bits % 0x1_0000_0000) as u32 }
                    },
                ),
            ),
            status: SStatus::Running,
            ..s
        },
        SStatus::NeedFloatExt { a, dest } => SState {
            store: s.store.push((dest, OpV::ConstDouble { bits })),
            status: SStatus::Running,
            ..s
        },
        _ => s,
    }
}

/// The state after the host answers a float-rendering request with text:
/// the text joins the line and the format walk continues after the
/// conversion character.
pub open spec fn text_resumed(m: Module, s: SState, t: Seq<u8>) -> SState {
    match s.status {
        SStatus::NeedFloatText { wide, bits, line, fmt, pos, argi, args } => match printf_walk(
            m,
            s.store,
            fmt,
            args,
            line + t,
            if pos + 2 <= fmt.len() {
                pos + 2
            } else {
                fmt.len() as int
            },
            if argi + 1 <= args.len() {
                argi + 1
            } else {
                args.len() as int
            },
        ) {
            WalkRes::Out(full) => SState {
                output: s.output + full.push(10u8),
                status: SStatus::Running,
                ..s
            },
            WalkRes::NeedF { wide: w2, bits: b2, line: l2, pos: p2, argi: a2 } => SState {
                status: SStatus::NeedFloatText {
                    wide: w2,
                    bits: b2,
                    line: l2,
                    fmt,
                    pos: p2,
                    argi: a2,
                    args,
                },
                ..s
            },
            WalkRes::Fail(e) => fatal(s, e),
        },
        _ => s,
    }
}

/// A machine that has blocked stays put: stepping it further changes
/// nothing.
pub proof fn lemma_ssteps_stutter(m: Module, s: SState, k: nat, n: nat)
    requires
        k <= n,
        blocked(ssteps(m, s, k)),
    ensures
        ssteps(m, s, n) == ssteps(m, s, k),
    decreases n,
{
    if n > k {
        lemma_ssteps_stutter(m, s, k, (n - 1) as nat);
        assert(ssteps(m, s, n) == sstep(m, ssteps(m, s, (n - 1) as nat)));
    }
}

} // verus!
