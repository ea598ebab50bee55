//! The interpreter: an explicit machine that follows the small-step
//! specification in [`crate::semantics`] exactly.
//!
//! `interpret` seeds execution at `main`'s entry block and steps the machine
//! within a caller-chosen budget, until it finishes (`Done`), fails
//! (`Fatal`), or needs the host for floating-point work (`FloatBin`,
//! `FloatExt`, `FloatText`).  The host answers with `resume_float` or
//! `resume_text`, or grants more steps with `run_more`; each call reports
//! the machine's next request the same way.

use vstd::prelude::*;

use crate::arith::{eval_int_exec, icmp_exec, int_traps_exec, sext_exec, zext_exec};
use crate::bytes::{bytes_eq, copy_bytes};
use crate::ir::{
    copy_operand, copy_operands, copy_opt_bytes, ops_view, opt_bytes_view, Block, Callee, Error,
    FloatOp, Function, GInit, Inst, Module, Operand, SwitchCase, Term, Ty,
};
use crate::printf::{glob_lookup_exec, printf_walk_exec, push_all, WalkResE};
use crate::resolve::{chase_op_exec, resolve_double_exec, resolve_int_exec, resolve_single_exec};
use crate::semantics::{
    blk_index, blk_index_from, boot_state, fn_index, fn_index_from, float_resumed, globals_ok,
    idle_state, lemma_ssteps_stutter, main_name, outcome_of, printf_name, ssteps, sstep,
    switch_pick, switch_pick_from, text_resumed, Outcome, SFrame, SState, SStatus,
};
use crate::store::Store;

verus! {

/// What the machine is doing (executable form of [`SStatus`]).
enum Status {
    Idle,
    Running,
    NeedFloatBin { op: FloatOp, wide: bool, a: u64, b: u64, dest: Vec<u8> },
    NeedFloatExt { a: u32, dest: Vec<u8> },
    NeedFloatText {
        wide: bool,
        bits: u64,
        line: Vec<u8>,
        fmt: Vec<u8>,
        pos: usize,
        argi: usize,
        args: Vec<Operand>,
    },
    Done,
    Fatal(Error),
}

spec fn status_view(st: Status) -> SStatus {
    match st {
        Status::Idle => SStatus::Idle,
        Status::Running => SStatus::Running,
        Status::NeedFloatBin { op, wide, a, b, dest } => SStatus::NeedFloatBin {
            op,
            wide,
            a,
            b,
            dest: dest@,
        },
        Status::NeedFloatExt { a, dest } => SStatus::NeedFloatExt { a, dest: dest@ },
        Status::NeedFloatText { wide, bits, line, fmt, pos, argi, args } => {
            SStatus::NeedFloatText {
                wide,
                bits,
                line: line@,
                fmt: fmt@,
                pos: pos as int,
                argi: argi as int,
                args: ops_view(args@),
            }
        },
        Status::Done => SStatus::Done,
        Status::Fatal(e) => SStatus::Fatal(e),
    }
}

/// A suspended activation record (executable form of [`SFrame`]).
struct Frame {
    store: Store,
    func: usize,
    block: usize,
    inst: usize,
    dest: Option<Vec<u8>>,
}

spec fn frame_view(f: Frame) -> SFrame {
    SFrame {
        store: f.store@,
        func: f.func as int,
        block: f.block as int,
        inst: f.inst as int,
        dest: opt_bytes_view(f.dest),
    }
}

/// The index of the first function with the given name.
fn fn_index_exec(fs: &Vec<Function>, name: &Vec<u8>) -> (r: Option<usize>)
    ensures
        match r {
            Some(i) => 0 <= i < fs@.len() && fn_index(fs@, name@) == i as int,
            None => fn_index(fs@, name@) == -1,
        },
{
    let n: usize = fs.len();
    let mut i: usize = 0;
    while i < n
        invariant
            n == fs@.len(),
            i <= n,
            fn_index_from(fs@, name@, 0) == fn_index_from(fs@, name@, i as int),
        decreases n - i,
    {
        if bytes_eq(&fs[i].name, name) {
            return Some(i);
        }
        i += 1;
    }
    None
}

/// The index of the first block with the given name.
fn blk_index_exec(bs: &Vec<Block>, name: &Vec<u8>) -> (r: Option<usize>)
    ensures
        match r {
            Some(i) => 0 <= i < bs@.len() && blk_index(bs@, name@) == i as int,
            None => blk_index(bs@, name@) == -1,
        },
{
    let n: usize = bs.len();
    let mut i: usize = 0;
    while i < n
        invariant
            n == bs@.len(),
            i <= n,
            blk_index_from(bs@, name@, 0) == blk_index_from(bs@, name@, i as int),
        decreases n - i,
    {
        if bytes_eq(&bs[i].name, name) {
            return Some(i);
        }
        i += 1;
    }
    None
}

/// The target of the first matching switch case, or the default.
fn switch_pick_exec<'a>(cases: &'a Vec<SwitchCase>, v: u64, dflt: &'a Vec<u8>) -> (r: Result<
    &'a Vec<u8>,
    Error,
>)
    ensures
        match r {
            Ok(t) => switch_pick(cases@, v, dflt@) == Ok::<Seq<u8>, Error>(t@),
            Err(e) => switch_pick(cases@, v, dflt@) == Err::<Seq<u8>, Error>(e),
        },
{
    let n: usize = cases.len();
    let mut i: usize = 0;
    while i < n
        invariant
            n == cases@.len(),
            i <= n,
            switch_pick_from(cases@, v, dflt@, 0) == switch_pick_from(cases@, v, dflt@, i as int),
        decreases n - i,
    {
        match &cases[i].key {
            None => {
                return Err(Error::Unsupported);
            },
            Some(k) => {
                if *k == v {
                    return Ok(&cases[i].target);
                }
            },
        }
        i += 1;
    }
    Ok(dflt)
}

/// Whether every global carries an initialiser.
fn globals_ok_exec(m: &Module) -> (r: bool)
    ensures
        r == globals_ok(*m),
{
    let n: usize = m.globals.len();
    let mut i: usize = 0;
    while i < n
        invariant
            n == m.globals@.len(),
            i <= n,
            forall|j: int| 0 <= j < i ==> (#[trigger] m.globals@[j]).init is Some,
        decreases n - i,
    {
        match &m.globals[i].init {
            None => {
                return false;
            },
            Some(g) => {},
        }
        i += 1;
    }
    true
}

/// The byte name of the builtin `printf`.
fn printf_name_exec() -> (r: Vec<u8>)
    ensures
        r@ == printf_name(),
{
    let r: Vec<u8> = vec![112u8, 114u8, 105u8, 110u8, 116u8, 102u8];
    proof {
        assert(r@ =~= printf_name());
    }
    r
}

/// The byte name of the entry function `main`.
fn main_name_exec() -> (r: Vec<u8>)
    ensures
        r@ == main_name(),
{
    let r: Vec<u8> = vec![109u8, 97u8, 105u8, 110u8];
    proof {
        assert(r@ =~= main_name());
    }
    r
}

/// The interpreter: a module and the machine state that runs it.
pub struct LLVMIRInterpreter {
    module: Module,
    frames: Vec<Frame>,
    store: Store,
    func: usize,
    block: usize,
    inst: usize,
    status: Status,
    output: Vec<u8>,
}

impl LLVMIRInterpreter {
    /// The module being interpreted (never changed by execution).
    pub closed spec fn m(&self) -> Module {
        self.module
    }

    /// The machine state, in specification form.
    pub closed spec fn st(&self) -> SState {
        SState {
            frames: self.frames@.map_values(|f: Frame| frame_view(f)),
            store: self.store@,
            func: self.func as int,
            block: self.block as int,
            inst: self.inst as int,
            status: status_view(self.status),
            output: self.output@,
        }
    }

    /// A fresh interpreter holding the module, not yet started.
    pub fn new(module: Module) -> (r: LLVMIRInterpreter)
        ensures
            r.m() == module,
            r.st() == idle_state(),
    {
        let r = LLVMIRInterpreter {
            module,
            frames: Vec::new(),
            store: Store::new(),
            func: 0,
            block: 0,
            inst: 0,
            status: Status::Idle,
            output: Vec::new(),
        };
        proof {
            assert(r.st() =~~= idle_state());
        }
        r
    }

    /// The output produced so far: each `printf` contributes its rendered
    /// text and one newline.
    pub fn output(&self) -> (r: &Vec<u8>)
        ensures
            r@ == self.st().output,
    {
        &self.output
    }

    /// One step of the machine, following `sstep` exactly.
    #[verifier::loop_isolation(false)]
    #[verifier::rlimit(100)]
    fn step(&mut self)
        requires
            old(self).st().status is Running,
        ensures
            final(self).m() == old(self).m(),
            final(self).st() == sstep(old(self).m(), old(self).st()),
    {
        let ghost m0 = self.module;
        let ghost s0 = self.st();
        let fi = self.func;
        if fi >= self.module.functions.len() {
            self.status = Status::Fatal(Error::Unsupported);
            proof {
                assert(self.st() =~~= sstep(m0, s0));
            }
            return;
        }
        let bi = self.block;
        if bi >= self.module.functions[fi].blocks.len() {
            self.status = Status::Fatal(Error::Unsupported);
            proof {
                assert(self.st() =~~= sstep(m0, s0));
            }
            return;
        }
        let ii = self.inst;
        let ninst = self.module.functions[fi].blocks[bi].instrs.len();
        if ii > ninst {
            self.status = Status::Fatal(Error::Unsupported);
            proof {
                assert(self.st() =~~= sstep(m0, s0));
            }
            return;
        }
        if ii == ninst {
            self.step_term(Ghost(m0), Ghost(s0));
            return;
        }
        let inst = &self.module.functions[fi].blocks[bi].instrs[ii];
        proof {
            assert(*inst == m0.functions@[fi as int].blocks@[bi as int].instrs@[ii as int]);
        }
        match inst {
            Inst::Alloca { dest } => {
                self.inst = ii + 1;
                proof {
                    assert(self.st() =~~= sstep(m0, s0));
                }
            },
            Inst::Store { addr, value } => {
                match addr {
                    Operand::Local { name: addr_name, ty: _addr_ty } => {
                        match value {
                            Operand::Local { name: vn, ty: _vty } => {
                                match self.store.get(vn) {
                                    None => {
                                        self.status = Status::Fatal(Error::UndefinedValue);
                                    },
                                    Some(o) => {
                                        let o2 = copy_operand(o);
                                        self.store.put(copy_bytes(addr_name), o2);
                                        self.inst = ii + 1;
                                    },
                                }
                            },
                            Operand::Unsupported => {
                                self.status = Status::Fatal(Error::Unsupported);
                            },
                            _ => {
                                self.store.put(copy_bytes(addr_name), copy_operand(value));
                                self.inst = ii + 1;
                            },
                        }
                    },
                    _ => {
                        self.status = Status::Fatal(Error::Unsupported);
                    },
                }
                proof {
                    assert(self.st() =~~= sstep(m0, s0));
                }
            },
            Inst::Load { dest, addr } => {
                match addr {
                    Operand::Local { name, ty: _ty } => {
                        match self.store.get(name) {
                            None => {
                                self.status = Status::Fatal(Error::UndefinedValue);
                            },
                            Some(o) => {
                                let o2 = copy_operand(o);
                                self.store.put(copy_bytes(dest), o2);
                                self.inst = ii + 1;
                            },
                        }
                    },
                    _ => {
                        self.status = Status::Fatal(Error::Unsupported);
                    },
                }
                proof {
                    assert(self.st() =~~= sstep(m0, s0));
                }
            },
            Inst::IntBin { op, dest, a, b } => {
                let mut handled = false;
                if let Operand::Local { name: _n, ty: Ty::Int(w) } = a {
                    let w = *w;
                    if w == 32 || w == 64 {
                        handled = true;
                        match resolve_int_exec(&self.store, a) {
                            Err(e) => {
                                self.status = Status::Fatal(e);
                            },
                            Ok(va) => match resolve_int_exec(&self.store, b) {
                                Err(e) => {
                                    self.status = Status::Fatal(e);
                                },
                                Ok(vb) => {
                                    if int_traps_exec(*op, w, va, vb) {
                                        self.status = Status::Fatal(Error::ArithmeticTrap);
                                    } else {
                                        let val = eval_int_exec(*op, w, va, vb);
                                        self.store.put(
                                            copy_bytes(dest),
                                            Operand::ConstInt { width: w, val },
                                        );
                                        self.inst = ii + 1;
                                    }
                                },
                            },
                        }
                    }
                }
                if !handled {
                    self.status = Status::Fatal(Error::Unsupported);
                }
                proof {
                    assert(self.st() =~~= sstep(m0, s0));
                }
            },
            Inst::FloatBin { op, dest, a, b } => {
                match a {
                    Operand::Local { name: _n, ty: Ty::Single } => {
                        match resolve_single_exec(&self.store, a) {
                            Err(e) => {
                                self.status = Status::Fatal(e);
                            },
                            Ok(va) => match resolve_single_exec(&self.store, b) {
                                Err(e) => {
                                    self.status = Status::Fatal(e);
                                },
                                Ok(vb) => {
                                    self.status = Status::NeedFloatBin {
                                        op: *op,
                                        wide: false,
                                        a: va as u64,
                                        b: vb as u64,
                                        dest: copy_bytes(dest),
                                    };
                                    self.inst = ii + 1;
                                },
                            },
                        }
                    },
                    Operand::Local { name: _n, ty: Ty::Double } => {
                        match resolve_double_exec(&self.store, a) {
                            Err(e) => {
                                self.status = Status::Fatal(e);
                            },
                            Ok(va) => match resolve_double_exec(&self.store, b) {
                                Err(e) => {
                                    self.status = Status::Fatal(e);
                                },
                                Ok(vb) => {
                                    self.status = Status::NeedFloatBin {
                                        op: *op,
                                        wide: true,
                                        a: va,
                                        b: vb,
                                        dest: copy_bytes(dest),
                                    };
                                    self.inst = ii + 1;
                                },
                            },
                        }
                    },
                    _ => {
                        self.status = Status::Fatal(Error::Unsupported);
                    },
                }
                proof {
                    assert(self.st() =~~= sstep(m0, s0));
                }
            },
            Inst::Icmp { pred, dest, a, b } => {
                let mut handled = false;
                if let Operand::Local { name: _n, ty: Ty::Int(w) } = a {
                    let w = *w;
                    if 1 <= w && w <= 64 {
                        handled = true;
                        match resolve_int_exec(&self.store, a) {
                            Err(e) => {
                                self.status = Status::Fatal(e);
                            },
                            Ok(va) => match resolve_int_exec(&self.store, b) {
                                Err(e) => {
                                    self.status = Status::Fatal(e);
                                },
                                Ok(vb) => {
                                    let holds = icmp_exec(*pred, w, va, vb);
                                    self.store.put(
                                        copy_bytes(dest),
                                        Operand::ConstInt {
                                            width: 8,
                                            val: if holds {
                                                1
                                            } else {
                                                0
                                            },
                                        },
                                    );
                                    self.inst = ii + 1;
                                },
                            },
                        }
                    }
                }
                if !handled {
                    self.status = Status::Fatal(Error::Unsupported);
                }
                proof {
                    assert(self.st() =~~= sstep(m0, s0));
                }
            },
            Inst::Sext { dest, src, to_ty } => {
                let mut handled = false;
                if let Operand::Local { name: _n, ty: Ty::Int(sw) } = src {
                    if let Ty::Int(dw) = to_ty {
                        let sw = *sw;
                        let dw = *dw;
                        if (dw == 32 || dw == 64) && 1 <= sw && sw < dw {
                            handled = true;
                            match resolve_int_exec(&self.store, src) {
                                Err(e) => {
                                    self.status = Status::Fatal(e);
                                },
                                Ok(v) => {
                                    let val = sext_exec(sw, dw, v);
                                    self.store.put(
                                        copy_bytes(dest),
                                        Operand::ConstInt { width: dw, val },
                                    );
                                    self.inst = ii + 1;
                                },
                            }
                        }
                    }
                }
                if !handled {
                    self.status = Status::Fatal(Error::Unsupported);
                }
                proof {
                    assert(self.st() =~~= sstep(m0, s0));
                }
            },
            Inst::Zext { dest, src, to_ty } => {
                let mut handled = false;
                if let Operand::Local { name: _n, ty: Ty::Int(sw) } = src {
                    if let Ty::Int(dw) = to_ty {
                        let sw = *sw;
                        let dw = *dw;
                        if (dw == 32 || dw == 64) && 1 <= sw && sw < dw {
                            handled = true;
                            match resolve_int_exec(&self.store, src) {
                                Err(e) => {
                                    self.status = Status::Fatal(e);
                                },
                                Ok(v) => {
                                    let val = zext_exec(sw, v);
                                    self.store.put(
                                        copy_bytes(dest),
                                        Operand::ConstInt { width: dw, val },
                                    );
                                    self.inst = ii + 1;
                                },
                            }
                        }
                    }
                }
                if !handled {
                    self.status = Status::Fatal(Error::Unsupported);
                }
                proof {
                    assert(self.st() =~~= sstep(m0, s0));
                }
            },
            Inst::Fpext { dest, src, to_ty } => {
                let mut handled = false;
                if let Operand::Local { name: _n, ty: Ty::Single } = src {
                    if let Ty::Double = to_ty {
                        handled = true;
                        match resolve_single_exec(&self.store, src) {
                            Err(e) => {
                                self.status = Status::Fatal(e);
                            },
                            Ok(v) => {
                                self.status = Status::NeedFloatExt {
                                    a: v,
                                    dest: copy_bytes(dest),
                                };
                                self.inst = ii + 1;
                            },
                        }
                    }
                }
                if !handled {
                    self.status = Status::Fatal(Error::Unsupported);
                }
                proof {
                    assert(self.st() =~~= sstep(m0, s0));
                }
            },
            Inst::Call { dest, callee, args } => {
                match callee {
                    Callee::Unsupported => {
                        self.status = Status::Fatal(Error::Unsupported);
                        proof {
                            assert(self.st() =~~= sstep(m0, s0));
                        }
                    },
                    Callee::Name(nm) => {
                        match fn_index_exec(&self.module.functions, nm) {
                            Some(fi2) => {
                                if self.module.functions[fi2].blocks.len() == 0 {
                                    self.status = Status::Fatal(Error::Unsupported);
                                    proof {
                                        assert(self.st() =~~= sstep(m0, s0));
                                    }
                                } else {
                                    // bind the formal parameters to the
                                    // argument operands, verbatim
                                    let ghost ps = self.module.functions@[fi2 as int].params@;
                                    let ghost avs = args@;
                                    let nparams = self.module.functions[fi2].params.len();
                                    let nargs = args.len();
                                    let n = if nparams <= nargs {
                                        nparams
                                    } else {
                                        nargs
                                    };
                                    let mut newstore = Store::new();
                                    let mut k: usize = 0;
                                    while k < n
                                        invariant
                                            k <= n,
                                            newstore@ =~= Seq::new(
                                                k as nat,
                                                |i2: int| (ps[i2]@, avs[i2]@),
                                            ),
                                        decreases n - k,
                                    {
                                        newstore.put(
                                            copy_bytes(&self.module.functions[fi2].params[k]),
                                            copy_operand(&args[k]),
                                        );
                                        proof {
                                            assert(newstore@ =~= Seq::new(
                                                k as nat + 1,
                                                |i2: int| (ps[i2]@, avs[i2]@),
                                            ));
                                        }
                                        k += 1;
                                    }
                                    proof {
                                        assert(newstore@ =~= crate::semantics::bind_params(
                                            ps,
                                            avs,
                                        ));
                                    }
                                    let dest2 = copy_opt_bytes(dest);
                                    let mut saved = newstore;
                                    core::mem::swap(&mut self.store, &mut saved);
                                    let fr = Frame {
                                        store: saved,
                                        func: fi,
                                        block: bi,
                                        inst: ii + 1,
                                        dest: dest2,
                                    };
                                    let ghost frv = frame_view(fr);
                                    self.frames.push(fr);
                                    self.func = fi2;
                                    self.block = 0;
                                    self.inst = 0;
                                    proof {
                                        assert(self.frames@.map_values(|f: Frame| frame_view(f))
                                            =~= s0.frames.push(frv));
                                        assert(self.st() =~~= sstep(m0, s0));
                                    }
                                }
                            },
                            None => {
                                let pf = printf_name_exec();
                                if bytes_eq(nm, &pf) {
                                    let args2 = copy_operands(args);
                                    self.step_printf_call(Ghost(m0), Ghost(s0), args2, ii);
                                } else {
                                    self.status = Status::Fatal(Error::Unsupported);
                                    proof {
                                        assert(self.st() =~~= sstep(m0, s0));
                                    }
                                }
                            },
                        }
                    },
                }
            },
            Inst::Unsupported => {
                self.status = Status::Fatal(Error::Unsupported);
                proof {
                    assert(self.st() =~~= sstep(m0, s0));
                }
            },
        }
    }

    /// Handles a `call` that resolved to the builtin `printf`.  `args` is a
    /// copy (operand for operand) of the call's argument list.
    #[verifier::rlimit(100)]
    fn step_printf_call(
        &mut self,
        Ghost(m0): Ghost<Module>,
        Ghost(s0): Ghost<SState>,
        args: Vec<Operand>,
        ii: usize,
    )
        requires
            old(self).m() == m0,
            old(self).st() == s0,
            s0.status is Running,
            0 <= s0.func < m0.functions@.len(),
            0 <= s0.block < m0.functions@[s0.func].blocks@.len(),
            s0.inst == ii < m0.functions@[s0.func].blocks@[s0.block].instrs@.len(),
            ii < usize::MAX,
            ({
                let inst0 = m0.functions@[s0.func].blocks@[s0.block].instrs@[s0.inst];
                inst0 matches Inst::Call { dest, callee, args: cargs } && (callee matches
                    Callee::Name(nm) && fn_index(m0.functions@, nm@) == -1 && nm@ == printf_name()
                    && ops_view(cargs@) == ops_view(args@))
            }),
        ensures
            final(self).m() == m0,
            final(self).st() == sstep(m0, s0),
    {
        proof {
            assert(ops_view(args@).len() == args@.len());
        }
        if args.len() < 1 {
            self.status = Status::Fatal(Error::MalformedPrintf);
            proof {
                assert(self.st() =~~= sstep(m0, s0));
            }
            return;
        }
        proof {
            assert(ops_view(args@)[0] == args@[0]@);
        }
        match &args[0] {
            Operand::ConstStr { global } => {
                match glob_lookup_exec(&self.module, global) {
                    Some(gi) => match gi {
                        GInit::Bytes(fmtb) => {
                            let res = printf_walk_exec(
                                &self.module,
                                &self.store,
                                fmtb,
                                &args,
                                Vec::new(),
                                0,
                                1,
                            );
                            match res {
                                WalkResE::Out(line) => {
                                    push_all(&mut self.output, &line);
                                    self.output.push(10);
                                    self.inst = ii + 1;
                                    proof {
                                        assert(self.st() =~~= sstep(m0, s0));
                                    }
                                },
                                WalkResE::NeedF { wide, bits, line, pos, argi } => {
                                    let fmt2 = copy_bytes(fmtb);
                                    self.status = Status::NeedFloatText {
                                        wide,
                                        bits,
                                        line,
                                        fmt: fmt2,
                                        pos,
                                        argi,
                                        args,
                                    };
                                    self.inst = ii + 1;
                                    proof {
                                        assert(self.st() =~~= sstep(m0, s0));
                                    }
                                },
                                WalkResE::Fail(e) => {
                                    self.status = Status::Fatal(e);
                                    proof {
                                        assert(self.st() =~~= sstep(m0, s0));
                                    }
                                },
                            }
                        },
                        GInit::Unsupported => {
                            self.status = Status::Fatal(Error::MalformedPrintf);
                            proof {
                                assert(self.st() =~~= sstep(m0, s0));
                            }
                        },
                    },
                    None => {
                        self.status = Status::Fatal(Error::MalformedPrintf);
                        proof {
                            assert(self.st() =~~= sstep(m0, s0));
                        }
                    },
                }
            },
            _ => {
                self.status = Status::Fatal(Error::MalformedPrintf);
                proof {
                    assert(self.st() =~~= sstep(m0, s0));
                }
            },
        }
    }

    /// Handles the terminator of the current block.
    #[verifier::rlimit(100)]
    fn step_term(&mut self, Ghost(m0): Ghost<Module>, Ghost(s0): Ghost<SState>)
        requires
            old(self).m() == m0,
            old(self).st() == s0,
            s0.status is Running,
            0 <= s0.func < m0.functions@.len(),
            0 <= s0.block < m0.functions@[s0.func].blocks@.len(),
            s0.inst == m0.functions@[s0.func].blocks@[s0.block].instrs@.len(),
        ensures
            final(self).m() == m0,
            final(self).st() == sstep(m0, s0),
    {
        let fi = self.func;
        let bi = self.block;
        let term = &self.module.functions[fi].blocks[bi].term;
        proof {
            assert(*term == m0.functions@[fi as int].blocks@[bi as int].term);
        }
        match term {
            Term::Ret { val } => {
                if self.frames.len() == 0 {
                    self.status = Status::Done;
                    proof {
                        assert(self.st() =~~= sstep(m0, s0));
                    }
                } else {
                    // evaluate the returned operand against the returning
                    // frame's store before that store goes away
                    let mut chased: Option<Operand> = None;
                    let mut failed = false;
                    match val {
                        None => {},
                        Some(v) => {
                            match chase_op_exec(&self.store, v) {
                                Ok(rv) => {
                                    chased = Some(rv);
                                },
                                Err(e) => {
                                    self.status = Status::Fatal(e);
                                    failed = true;
                                },
                            }
                        },
                    }
                    if failed {
                        proof {
                            assert(self.st() =~~= sstep(m0, s0));
                        }
                        return;
                    }
                    let frop = self.frames.pop();
                    match frop {
                        None => {
                            proof {
                                assert(false);
                            }
                        },
                        Some(fr) => {
                            let ghost frv = frame_view(fr);
                            proof {
                                assert(s0.frames.last() == frv);
                                assert(self.frames@.map_values(|f: Frame| frame_view(f))
                                    =~= s0.frames.drop_last());
                            }
                            let Frame {
                                store: fstore,
                                func: ffunc,
                                block: fblock,
                                inst: finst,
                                dest: fdest,
                            } = fr;
                            self.store = fstore;
                            self.func = ffunc;
                            self.block = fblock;
                            self.inst = finst;
                            match chased {
                                None => {
                                    proof {
                                        assert(self.st() =~~= sstep(m0, s0));
                                    }
                                },
                                Some(rv) => {
                                    match fdest {
                                        None => {
                                            self.status = Status::Fatal(Error::Unsupported);
                                            proof {
                                                assert(self.st() =~~= sstep(m0, s0));
                                            }
                                        },
                                        Some(d) => {
                                            self.store.put(d, rv);
                                            proof {
                                                assert(self.st() =~~= sstep(m0, s0));
                                            }
                                        },
                                    }
                                },
                            }
                        },
                    }
                }
            },
            Term::Br { target } => {
                match blk_index_exec(&self.module.functions[fi].blocks, target) {
                    Some(bi2) => {
                        self.block = bi2;
                        self.inst = 0;
                    },
                    None => {
                        self.status = Status::Fatal(Error::Unsupported);
                    },
                }
                proof {
                    assert(self.st() =~~= sstep(m0, s0));
                }
            },
            Term::CondBr { cond, then_dest, else_dest } => {
                match cond {
                    Operand::Local { name: _n, ty: _t } => {
                        match resolve_int_exec(&self.store, cond) {
                            Err(e) => {
                                self.status = Status::Fatal(e);
                            },
                            Ok(v) => {
                                if v == 1 {
                                    match blk_index_exec(
                                        &self.module.functions[fi].blocks,
                                        then_dest,
                                    ) {
                                        Some(bi2) => {
                                            self.block = bi2;
                                            self.inst = 0;
                                        },
                                        None => {
                                            self.status = Status::Fatal(Error::Unsupported);
                                        },
                                    }
                                } else if v == 0 {
                                    match blk_index_exec(
                                        &self.module.functions[fi].blocks,
                                        else_dest,
                                    ) {
                                        Some(bi2) => {
                                            self.block = bi2;
                                            self.inst = 0;
                                        },
                                        None => {
                                            self.status = Status::Fatal(Error::Unsupported);
                                        },
                                    }
                                } else {
                                    self.status = Status::Fatal(Error::BadBranchCondition);
                                }
                            },
                        }
                    },
                    _ => {
                        self.status = Status::Fatal(Error::Unsupported);
                    },
                }
                proof {
                    assert(self.st() =~~= sstep(m0, s0));
                }
            },
            Term::Switch { val, cases, default_dest } => {
                match val {
                    Operand::Local { name: _n, ty: _t } => {
                        match resolve_int_exec(&self.store, val) {
                            Err(e) => {
                                self.status = Status::Fatal(e);
                            },
                            Ok(v) => {
                                match switch_pick_exec(cases, v, default_dest) {
                                    Err(e) => {
                                        self.status = Status::Fatal(e);
                                    },
                                    Ok(target) => {
                                        match blk_index_exec(
                                            &self.module.functions[fi].blocks,
                                            target,
                                        ) {
                                            Some(bi2) => {
                                                self.block = bi2;
                                                self.inst = 0;
                                            },
                                            None => {
                                                self.status = Status::Fatal(Error::Unsupported);
                                            },
                                        }
                                    },
                                }
                            },
                        }
                    },
                    _ => {
                        self.status = Status::Fatal(Error::Unsupported);
                    },
                }
                proof {
                    assert(self.st() =~~= sstep(m0, s0));
                }
            },
            Term::Unsupported => {
                self.status = Status::Fatal(Error::Unsupported);
                proof {
                    assert(self.st() =~~= sstep(m0, s0));
                }
            },
        }
    }

    /// Whether the machine is running (has instructions to execute).
    fn running(&self) -> (r: bool)
        ensures
            r == (self.st().status is Running),
    {
        match &self.status {
            Status::Running => true,
            _ => false,
        }
    }

    /// What the blocked machine asks of the host.
    fn current_outcome(&self) -> (r: Outcome)
        ensures
            r == outcome_of(self.st()),
    {
        match &self.status {
            Status::Done => Outcome::Done,
            Status::Fatal(e) => Outcome::Fatal(*e),
            Status::NeedFloatBin { op, wide, a, b, dest: _d } => Outcome::FloatBin {
                op: *op,
                wide: *wide,
                a: *a,
                b: *b,
            },
            Status::NeedFloatExt { a, dest: _d } => Outcome::FloatExt { a: *a },
            Status::NeedFloatText { wide, bits, .. } => Outcome::FloatText {
                wide: *wide,
                bits: *bits,
            },
            Status::Idle => Outcome::Working,
            Status::Running => Outcome::Working,
        }
    }

    /// Steps the machine `fuel` times.  A blocked machine stays put, so the
    /// result is the machine run until it blocks, or for `fuel` steps,
    /// whichever comes first.
    #[verifier::loop_isolation(false)]
    fn run_bounded(&mut self, fuel: u64)
        ensures
            final(self).m() == old(self).m(),
            final(self).st() == ssteps(old(self).m(), old(self).st(), fuel as nat),
    {
        let ghost m0 = self.module;
        let ghost s0 = self.st();
        let mut used: u64 = 0;
        while used < fuel
            invariant
                used <= fuel,
                self.m() == m0,
                self.st() == ssteps(m0, s0, used as nat),
            decreases fuel - used,
        {
            if !self.running() {
                proof {
                    lemma_ssteps_stutter(m0, s0, used as nat, fuel as nat);
                }
                return;
            }
            self.step();
            used = used + 1;
            proof {
                assert(ssteps(m0, s0, used as nat) == sstep(
                    m0,
                    ssteps(m0, s0, (used - 1) as nat),
                ));
            }
        }
    }

    /// Interprets the module from the start: checks the global table, seeds
    /// execution at `main`'s entry block, and steps the machine up to `fuel`
    /// times.  The returned outcome says whether the run finished, failed,
    /// needs the host's floating-point help, or merely ran out of budget
    /// (`Working`: call `run_more`).
    pub fn interpret(&mut self, fuel: u64) -> (r: Outcome)
        ensures
            final(self).m() == old(self).m(),
            final(self).st() == ssteps(
                final(self).m(),
                boot_state(final(self).m()),
                fuel as nat,
            ),
            r == outcome_of(final(self).st()),
    {
        let ghost m0 = self.module;
        self.frames = Vec::new();
        self.store = Store::new();
        self.func = 0;
        self.block = 0;
        self.inst = 0;
        self.status = Status::Running;
        self.output = Vec::new();
        if !globals_ok_exec(&self.module) {
            self.status = Status::Fatal(Error::Unsupported);
            proof {
                assert(self.st() =~~= boot_state(m0));
                lemma_ssteps_stutter(m0, self.st(), 0, fuel as nat);
            }
            return self.current_outcome();
        }
        let mn = main_name_exec();
        match fn_index_exec(&self.module.functions, &mn) {
            None => {
                self.status = Status::Fatal(Error::MissingMain);
                proof {
                    assert(self.st() =~~= boot_state(m0));
                    lemma_ssteps_stutter(m0, self.st(), 0, fuel as nat);
                }
                self.current_outcome()
            },
            Some(fi) => {
                if self.module.functions[fi].blocks.len() == 0 {
                    self.status = Status::Fatal(Error::Unsupported);
                    proof {
                        assert(self.st() =~~= boot_state(m0));
                        lemma_ssteps_stutter(m0, self.st(), 0, fuel as nat);
                    }
                    self.current_outcome()
                } else {
                    self.func = fi;
                    proof {
                        assert(self.st() =~~= boot_state(m0));
                    }
                    self.run_bounded(fuel);
                    self.current_outcome()
                }
            },
        }
    }

    /// Steps a machine that ran out of budget (`Working`) up to `fuel`
    /// times more.
    pub fn run_more(&mut self, fuel: u64) -> (r: Outcome)
        ensures
            final(self).m() == old(self).m(),
            final(self).st() == ssteps(final(self).m(), old(self).st(), fuel as nat),
            r == outcome_of(final(self).st()),
    {
        self.run_bounded(fuel);
        self.current_outcome()
    }

    /// Answers a `FloatBin` or `FloatExt` request with the result bits (for
    /// a single-precision result, the low 32 bits count), binds the
    /// destination register, and steps the machine up to `fuel` times more.
    pub fn resume_float(&mut self, bits: u64, fuel: u64) -> (r: Outcome)
        requires
            old(self).st().status is NeedFloatBin || old(self).st().status is NeedFloatExt,
        ensures
            final(self).m() == old(self).m(),
            final(self).st() == ssteps(
                final(self).m(),
                float_resumed(old(self).st(), bits),
                fuel as nat,
            ),
            r == outcome_of(final(self).st()),
    {
        let ghost m0 = self.module;
        let ghost s0 = self.st();
        let mut taken = Status::Running;
        core::mem::swap(&mut self.status, &mut taken);
        match taken {
            Status::NeedFloatBin { op: _op, wide, a: _a, b: _b, dest } => {
                let res = if wide {
                    Operand::ConstDouble { bits }
                } else {
                    Operand::ConstSingle { bits: (bits % 0x1_0000_0000) as u32 }
                };
                self.store.put(dest, res);
                proof {
                    assert(self.st() =~~= float_resumed(s0, bits));
                }
            },
            Status::NeedFloatExt { a: _a, dest } => {
                self.store.put(dest, Operand::ConstDouble { bits });
                proof {
                    assert(self.st() =~~= float_resumed(s0, bits));
                }
            },
            _ => {
                proof {
                    assert(false);
                }
            },
        }
        self.run_bounded(fuel);
        self.current_outcome()
    }

    /// Answers a `FloatText` request with the rendered text: the text joins
    /// the pending `printf` line, the format walk continues, and the machine
    /// is stepped up to `fuel` times more.
    pub fn resume_text(&mut self, text: Vec<u8>, fuel: u64) -> (r: Outcome)
        requires
            old(self).st().status is NeedFloatText,
        ensures
            final(self).m() == old(self).m(),
            final(self).st() == ssteps(
                final(self).m(),
                text_resumed(final(self).m(), old(self).st(), text@),
                fuel as nat,
            ),
            r == outcome_of(final(self).st()),
    {
        let ghost m0 = self.module;
        let ghost s0 = self.st();
        let mut taken = Status::Running;
        core::mem::swap(&mut self.status, &mut taken);
        match taken {
            Status::NeedFloatText { wide: _w, bits: _b, line, fmt, pos, argi, args } => {
                let mut line2 = line;
                push_all(&mut line2, &text);
                let n = fmt.len();
                let pos2: usize = if pos >= n {
                    n
                } else if n - pos >= 2 {
                    pos + 2
                } else {
                    n
                };
                let argi2: usize = if argi >= args.len() {
                    args.len()
                } else {
                    argi + 1
                };
                let res = printf_walk_exec(&self.module, &self.store, &fmt, &args, line2, pos2, argi2);
                match res {
                    WalkResE::Out(full) => {
                        push_all(&mut self.output, &full);
                        self.output.push(10);
                        proof {
                            assert(self.st() =~~= text_resumed(m0, s0, text@));
                        }
                    },
                    WalkResE::NeedF { wide, bits, line, pos, argi } => {
                        self.status = Status::NeedFloatText {
                            wide,
                            bits,
                            line,
                            fmt,
                            pos,
                            argi,
                            args,
                        };
                        proof {
                            assert(self.st() =~~= text_resumed(m0, s0, text@));
                        }
                    },
                    WalkResE::Fail(e) => {
                        self.status = Status::Fatal(e);
                        proof {
                            assert(self.st() =~~= text_resumed(m0, s0, text@));
                        }
                    },
                }
            },
            _ => {
                proof {
                    assert(false);
                }
            },
        }
        self.run_bounded(fuel);
        self.current_outcome()
    }
}

} // verus!
