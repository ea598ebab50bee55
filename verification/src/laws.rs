//! The laws of the machine, stated over the small-step semantics and
//! proved from it.

use vstd::prelude::*;
use vstd::arithmetic::power2::pow2;

use crate::arith::{enc, eval_int, int_traps, lo, tdiv, to_signed, trem, zext_val};
use crate::ir::{Callee, Error, Inst, IntOp, Module, OpV, Term, Ty};
use crate::semantics::{
    chase_fuel, printf_walk, resolve_int, sstep, strip_nuls, SFrame, SState, SStatus, WalkRes,
};
use crate::store::lookup;

verus! {

/// The mathematical result of an integer opcode on two 32-bit operands:
/// unsigned opcodes work on the operands' unsigned values, signed division
/// and remainder on their two's-complement values.
pub open spec fn math_result_32(op: IntOp, a: u64, b: u64) -> int {
    match op {
        IntOp::Add => lo(32, a) + lo(32, b),
        IntOp::Sub => lo(32, a) - lo(32, b),
        IntOp::Mul => lo(32, a) * lo(32, b),
        IntOp::UDiv => lo(32, a) / lo(32, b),
        IntOp::URem => lo(32, a) % lo(32, b),
        IntOp::SDiv => tdiv(to_signed(32, a), to_signed(32, b)),
        IntOp::SRem => trem(to_signed(32, a), to_signed(32, b)),
    }
}

/// Arithmetic width law: for 32-bit operands and any supported integer
/// opcode, the machine binds the destination to the mathematical result of
/// the opcode truncated to 32 bits, stored as a 32-bit value.
pub proof fn lemma_arith_width(m: Module, s: SState, op: IntOp, va: u64, vb: u64)
    requires
        s.status is Running,
        0 <= s.func < m.functions@.len(),
        0 <= s.block < m.functions@[s.func].blocks@.len(),
        0 <= s.inst < m.functions@[s.func].blocks@[s.block].instrs@.len(),
        ({
            let inst0 = m.functions@[s.func].blocks@[s.block].instrs@[s.inst];
            inst0 matches Inst::IntBin { op: o2, dest, a, b } && (o2 == op && (a@ matches
                OpV::Local { name, ty } && ty == Ty::Int(32)) && resolve_int(
                s.store,
                a@,
                chase_fuel(s.store),
            ) == Ok::<u64, Error>(va) && resolve_int(s.store, b@, chase_fuel(s.store)) == Ok::<
                u64,
                Error,
            >(vb))
        }),
        !int_traps(op, 32, va, vb),
    ensures
        ({
            let inst0 = m.functions@[s.func].blocks@[s.block].instrs@[s.inst];
            let dest = inst0->IntBin_dest;
            lookup(sstep(m, s).store, dest@) == Some(
                OpV::ConstInt { width: 32, val: enc(32, math_result_32(op, va, vb)) },
            )
        }),
{
    let s2 = sstep(m, s);
    let inst0 = m.functions@[s.func].blocks@[s.block].instrs@[s.inst];
    let dest = inst0->IntBin_dest;
    assert(s2.store == s.store.push(
        (dest@, OpV::ConstInt { width: 32, val: eval_int(op, 32, va, vb) }),
    ));
    assert(eval_int(op, 32, va, vb) == enc(32, math_result_32(op, va, vb)));
}

/// Sign-extension law: `sext` from i32 to i64 of a value binds the
/// destination to the source's two's-complement 32-bit value sign-extended
/// to 64 bits.
pub proof fn lemma_sext(m: Module, s: SState, v: u64)
    requires
        s.status is Running,
        0 <= s.func < m.functions@.len(),
        0 <= s.block < m.functions@[s.func].blocks@.len(),
        0 <= s.inst < m.functions@[s.func].blocks@[s.block].instrs@.len(),
        ({
            let inst0 = m.functions@[s.func].blocks@[s.block].instrs@[s.inst];
            inst0 matches Inst::Sext { dest, src, to_ty } && ((src@ matches OpV::Local {
                name,
                ty,
            } && ty == Ty::Int(32)) && to_ty == Ty::Int(64) && resolve_int(
                s.store,
                src@,
                chase_fuel(s.store),
            ) == Ok::<u64, Error>(v))
        }),
    ensures
        ({
            let inst0 = m.functions@[s.func].blocks@[s.block].instrs@[s.inst];
            let dest = inst0->Sext_dest;
            lookup(sstep(m, s).store, dest@) == Some(
                OpV::ConstInt { width: 64, val: enc(64, to_signed(32, v)) },
            )
        }),
{
    let s2 = sstep(m, s);
}

/// Zero-extension law: `zext` binds the destination to the source value
/// treated as an unsigned integer — its unsigned value at the target width
/// equals its unsigned value at the source width.
pub proof fn lemma_zext(m: Module, s: SState, v: u64, sw: u32, dw: u32)
    requires
        s.status is Running,
        0 <= s.func < m.functions@.len(),
        0 <= s.block < m.functions@[s.func].blocks@.len(),
        0 <= s.inst < m.functions@[s.func].blocks@[s.block].instrs@.len(),
        ({
            let inst0 = m.functions@[s.func].blocks@[s.block].instrs@[s.inst];
            inst0 matches Inst::Zext { dest, src, to_ty } && ((src@ matches OpV::Local {
                name,
                ty,
            } && ty == Ty::Int(sw)) && to_ty == Ty::Int(dw) && (dw == 32 || dw == 64) && 1 <= sw
                < dw && resolve_int(s.store, src@, chase_fuel(s.store)) == Ok::<u64, Error>(v))
        }),
    ensures
        ({
            let inst0 = m.functions@[s.func].blocks@[s.block].instrs@[s.inst];
            let dest = inst0->Zext_dest;
            &&& lookup(sstep(m, s).store, dest@) == Some(
                OpV::ConstInt { width: dw, val: zext_val(sw as nat, v) },
            )
            &&& lo(dw as nat, zext_val(sw as nat, v)) == lo(sw as nat, v)
        }),
{
    let s2 = sstep(m, s);
    vstd::arithmetic::power2::lemma2_to64_rest();
    vstd::arithmetic::power2::lemma_pow2_pos(sw as nat);
    vstd::arithmetic::power2::lemma_pow2_pos(dw as nat);
    vstd::arithmetic::power2::lemma_pow2_strictly_increases(sw as nat, dw as nat);
    vstd::arithmetic::power2::lemma_pow2_strictly_increases(sw as nat, 64);
    vstd::arithmetic::div_mod::lemma_mod_bound(v as int, pow2(sw as nat) as int);
    assert(0 <= lo(sw as nat, v) < pow2(sw as nat));
    vstd::arithmetic::div_mod::lemma_small_mod(
        lo(sw as nat, v) as nat,
        pow2(dw as nat) as nat,
    );
}

/// icmp range law: the result of any `icmp` is either 0 or 1, stored as an
/// 8-bit value.
pub proof fn lemma_icmp_range(m: Module, s: SState)
    requires
        s.status is Running,
        0 <= s.func < m.functions@.len(),
        0 <= s.block < m.functions@[s.func].blocks@.len(),
        0 <= s.inst < m.functions@[s.func].blocks@[s.block].instrs@.len(),
        m.functions@[s.func].blocks@[s.block].instrs@[s.inst] is Icmp,
        sstep(m, s).status is Running,
    ensures
        ({
            let inst0 = m.functions@[s.func].blocks@[s.block].instrs@[s.inst];
            let dest = inst0->Icmp_dest;
            &&& lookup(sstep(m, s).store, dest@) matches Some(r)
            &&& lookup(sstep(m, s).store, dest@) matches Some(r) ==> (r matches OpV::ConstInt {
                width,
                val,
            } && width == 8 && (val == 0 || val == 1))
        }),
{
    let s2 = sstep(m, s);
}

/// Terminator totality law: a step taken at the end of a block — at its
/// terminator — either transfers control to the start of a block of the
/// same function, returns (to the caller, or finishing the run when the
/// call stack is empty), or fails; it never runs past the block's end.
pub proof fn lemma_terminator_totality(m: Module, s: SState)
    requires
        s.status is Running,
        0 <= s.func < m.functions@.len(),
        0 <= s.block < m.functions@[s.func].blocks@.len(),
        s.inst == m.functions@[s.func].blocks@[s.block].instrs@.len(),
    ensures
        ({
            let s2 = sstep(m, s);
            let nblocks = m.functions@[s.func].blocks@.len();
            ||| (s2.status is Running && s2.func == s.func && 0 <= s2.block < nblocks
                && s2.inst == 0)
            ||| (s2.status is Running && s.frames.len() > 0 && s2.frames
                == s.frames.drop_last())
            ||| (s2.status is Done && s.frames.len() == 0)
            ||| s2.status is Fatal
        }),
{
    let blocks = m.functions@[s.func].blocks@;
    match m.functions@[s.func].blocks@[s.block].term {
        Term::Ret { val } => {},
        Term::Br { target } => {
            lemma_blk_index_range(blocks, target@, 0);
        },
        Term::CondBr { cond, then_dest, else_dest } => {
            lemma_blk_index_range(blocks, then_dest@, 0);
            lemma_blk_index_range(blocks, else_dest@, 0);
        },
        Term::Switch { val, cases, default_dest } => {
            match val@ {
                OpV::Local { name, ty } => {
                    match resolve_int(s.store, val@, chase_fuel(s.store)) {
                        Ok(v) => {
                            match crate::semantics::switch_pick(cases@, v, default_dest@) {
                                Ok(t) => {
                                    lemma_blk_index_range(blocks, t, 0);
                                },
                                Err(e) => {},
                            }
                        },
                        Err(e) => {},
                    }
                },
                _ => {},
            }
        },
        Term::Unsupported => {},
    }
}

/// A found block index lies within the block list.
proof fn lemma_blk_index_range(bs: Seq<crate::ir::Block>, name: Seq<u8>, i: int)
    requires
        0 <= i,
    ensures
        crate::semantics::blk_index_from(bs, name, i) == -1 || i
            <= crate::semantics::blk_index_from(bs, name, i) < bs.len(),
    decreases bs.len() - i,
{
    if i < bs.len() && bs[i].name@ != name {
        lemma_blk_index_range(bs, name, i + 1);
    }
}

/// Call/return symmetry, the call half: a `call` that resolves to a known
/// function suspends exactly the caller's current store, with resume
/// coordinates pointing just past the call.
pub proof fn lemma_call_saves_store(m: Module, s: SState)
    requires
        s.status is Running,
        0 <= s.func < m.functions@.len(),
        0 <= s.block < m.functions@[s.func].blocks@.len(),
        0 <= s.inst < m.functions@[s.func].blocks@[s.block].instrs@.len(),
        ({
            let inst0 = m.functions@[s.func].blocks@[s.block].instrs@[s.inst];
            inst0 matches Inst::Call { dest, callee, args } && (callee matches Callee::Name(nm)
                && ({
                let fi2 = crate::semantics::fn_index(m.functions@, nm@);
                fi2 >= 0 && m.functions@[fi2].blocks@.len() > 0
            }))
        }),
    ensures
        ({
            let inst0 = m.functions@[s.func].blocks@[s.block].instrs@[s.inst];
            sstep(m, s).frames == s.frames.push(
                SFrame {
                    store: s.store,
                    func: s.func,
                    block: s.block,
                    inst: s.inst + 1,
                    dest: crate::ir::opt_bytes_view(inst0->Call_dest),
                },
            )
        }),
{
    let s2 = sstep(m, s);
}

/// Call/return symmetry, the return half: after a `call` returns, the
/// caller's store is exactly the store that was saved at the call site,
/// plus at most one binding — the call's destination register, bound to the
/// returned value, when the callee returned one.
pub proof fn lemma_return_restores_store(m: Module, s: SState)
    requires
        s.status is Running,
        0 <= s.func < m.functions@.len(),
        0 <= s.block < m.functions@[s.func].blocks@.len(),
        s.inst == m.functions@[s.func].blocks@[s.block].instrs@.len(),
        m.functions@[s.func].blocks@[s.block].term is Ret,
        s.frames.len() > 0,
        sstep(m, s).status is Running,
    ensures
        ({
            let fr = s.frames.last();
            let s2 = sstep(m, s);
            ||| s2.store == fr.store
            ||| (m.functions@[s.func].blocks@[s.block].term->Ret_val matches Some(v)
                && fr.dest matches Some(d) && crate::semantics::chase_op(
                s.store,
                v@,
                chase_fuel(s.store),
            ) matches Ok(rv) && s2.store == fr.store.push((d, rv)))
        }),
{
    let s2 = sstep(m, s);
}

/// printf idempotence on non-format bytes: a format string containing no
/// `%` is rendered verbatim (NUL bytes aside), whatever the store and the
/// arguments; the machine then appends that text and one newline to the
/// output.
pub proof fn lemma_printf_verbatim(
    m: Module,
    st: Seq<(Seq<u8>, OpV)>,
    fmt: Seq<u8>,
    args: Seq<OpV>,
)
    requires
        forall|i: int| 0 <= i < fmt.len() ==> fmt[i] != 37,
    ensures
        printf_walk(m, st, fmt, args, Seq::empty(), 0, 1) == WalkRes::Out(strip_nuls(fmt)),
{
    lemma_printf_walk_verbatim(m, st, fmt, args, Seq::empty(), 0, 1);
    assert(fmt.skip(0) =~= fmt);
    assert(Seq::empty() + strip_nuls(fmt) =~= strip_nuls(fmt));
}

/// printf idempotence at the machine level: a `printf` call whose format
/// string contains no `%` appends exactly that text (NUL bytes aside) and
/// one newline to the output, and execution continues.
pub proof fn lemma_printf_verbatim_step(m: Module, s: SState, fmt: Seq<u8>)
    requires
        s.status is Running,
        0 <= s.func < m.functions@.len(),
        0 <= s.block < m.functions@[s.func].blocks@.len(),
        0 <= s.inst < m.functions@[s.func].blocks@[s.block].instrs@.len(),
        ({
            let inst0 = m.functions@[s.func].blocks@[s.block].instrs@[s.inst];
            inst0 matches Inst::Call { dest, callee, args } && (callee matches Callee::Name(nm)
                && crate::semantics::fn_index(m.functions@, nm@) == -1 && nm@
                == crate::semantics::printf_name() && args@.len() >= 1 && (args@[0]@ matches
                OpV::ConstStr { global } && crate::semantics::glob_lookup(m.globals@, global)
                == Some(crate::ir::GInitV::Bytes(fmt))))
        }),
        forall|i: int| 0 <= i < fmt.len() ==> fmt[i] != 37,
    ensures
        sstep(m, s).output == s.output + strip_nuls(fmt) + seq![10u8],
        sstep(m, s).status is Running,
{
    let inst0 = m.functions@[s.func].blocks@[s.block].instrs@[s.inst];
    let args = inst0->Call_args;
    lemma_printf_verbatim(m, s.store, fmt, crate::ir::ops_view(args@));
    assert(crate::ir::ops_view(args@).len() == args@.len());
    assert(crate::ir::ops_view(args@)[0] == args@[0]@);
    assert(s.output + strip_nuls(fmt).push(10u8) =~= s.output + strip_nuls(fmt) + seq![10u8]);
}

/// The format walk, from any position, on a format with no `%` at or after
/// that position, emits the remaining non-NUL bytes verbatim.
proof fn lemma_printf_walk_verbatim(
    m: Module,
    st: Seq<(Seq<u8>, OpV)>,
    fmt: Seq<u8>,
    args: Seq<OpV>,
    line: Seq<u8>,
    pos: int,
    argi: int,
)
    requires
        0 <= pos <= fmt.len(),
        forall|i: int| pos <= i < fmt.len() ==> fmt[i] != 37,
    ensures
        printf_walk(m, st, fmt, args, line, pos, argi) == WalkRes::Out(
            line + strip_nuls(fmt.skip(pos)),
        ),
    decreases fmt.len() - pos,
{
    if pos >= fmt.len() {
        assert(fmt.skip(pos) =~= Seq::<u8>::empty());
        assert(line + strip_nuls(fmt.skip(pos)) =~= line);
    } else {
        let c = fmt[pos];
        let rest = fmt.skip(pos);
        lemma_strip_nuls_front(rest);
        assert(rest.drop_first() =~= fmt.skip(pos + 1));
        if c == 0 {
            lemma_printf_walk_verbatim(m, st, fmt, args, line, pos + 1, argi);
        } else {
            lemma_printf_walk_verbatim(m, st, fmt, args, line.push(c), pos + 1, argi);
            assert(line.push(c) + strip_nuls(fmt.skip(pos + 1)) =~= line + (seq![c] + strip_nuls(
                fmt.skip(pos + 1),
            )));
        }
    }
}

/// `strip_nuls` unfolded at the front.
proof fn lemma_strip_nuls_front(bs: Seq<u8>)
    requires
        bs.len() > 0,
    ensures
        strip_nuls(bs) == if bs.first() == 0 {
            strip_nuls(bs.drop_first())
        } else {
            seq![bs.first()] + strip_nuls(bs.drop_first())
        },
    decreases bs.len(),
{
    if bs.len() == 1 {
        assert(bs.drop_last() =~= Seq::<u8>::empty());
        assert(bs.drop_first() =~= Seq::<u8>::empty());
        assert(bs.last() == bs.first());
        if bs.first() != 0 {
            assert(strip_nuls(bs) =~= seq![bs.first()] + strip_nuls(bs.drop_first()));
        }
    } else {
        let dl = bs.drop_last();
        let df = bs.drop_first();
        lemma_strip_nuls_front(dl);
        assert(dl.first() == bs.first());
        assert(df.drop_last() =~= dl.drop_first());
        assert(df.last() == bs.last());
        if bs.last() == 0 {
            if bs.first() != 0 {
                assert(strip_nuls(bs) =~= seq![bs.first()] + strip_nuls(df));
            }
        } else {
            if bs.first() == 0 {
                assert(strip_nuls(bs) =~= strip_nuls(df));
            } else {
                assert(strip_nuls(dl).push(bs.last()) =~= seq![bs.first()] + strip_nuls(
                    dl.drop_first(),
                ).push(bs.last()));
                assert(strip_nuls(bs) =~= seq![bs.first()] + strip_nuls(df));
            }
        }
    }
}

} // verus!
