//! The executable `printf` renderer.
//!
//! The format walk mirrors the specification's `printf_walk`: NUL bytes are
//! skipped, `%` consumes one conversion character and renders the next
//! positional argument by its declared type, and every other byte is emitted
//! verbatim.  A float argument pauses the walk so that the host can render
//! the bits.

use vstd::prelude::*;

use crate::bytes::bytes_eq;
use crate::fmt::push_dec_signed;
use crate::ir::{Error, GInit, Module, Operand, Ty};
use crate::resolve::{resolve_double_exec, resolve_int_exec, resolve_single_exec};
use crate::semantics::{
    glob_lookup, has_str_prefix, printf_walk, render_arg, strip_nuls, RaRes, WalkRes,
};
use crate::store::Store;

verus! {

/// Appends all of `src` to `dst`.
pub fn push_all(dst: &mut Vec<u8>, src: &Vec<u8>)
    ensures
        final(dst)@ == old(dst)@ + src@,
{
    let n: usize = src.len();
    let mut i: usize = 0;
    while i < n
        invariant
            n == src.len(),
            i <= n,
            dst@ =~= old(dst)@ + src@.subrange(0, i as int),
        decreases n - i,
    {
        dst.push(src[i]);
        proof {
            assert(dst@ =~= old(dst)@ + src@.subrange(0, i as int + 1));
        }
        i += 1;
    }
    proof {
        assert(dst@ =~= old(dst)@ + src@);
    }
}

/// Looks up the initialiser of the global named `name`.
pub fn glob_lookup_exec<'a>(m: &'a Module, name: &Vec<u8>) -> (r: Option<&'a GInit>)
    ensures
        match r {
            Some(gi) => glob_lookup(m.globals@, name@) == Some(gi@),
            None => glob_lookup(m.globals@, name@) is None,
        },
{
    let mut i: usize = m.globals.len();
    proof {
        assert(m.globals@.take(i as int) =~= m.globals@);
    }
    while i > 0
        invariant
            i <= m.globals@.len(),
            glob_lookup(m.globals@, name@) == glob_lookup(m.globals@.take(i as int), name@),
        decreases i,
    {
        let g = &m.globals[i - 1];
        proof {
            assert(m.globals@.take(i as int).last() == m.globals@[i - 1]);
            assert(m.globals@.take(i as int).drop_last() =~= m.globals@.take(i - 1));
        }
        if bytes_eq(&g.name, name) {
            return match &g.init {
                Some(gi) => Some(gi),
                None => None,
            };
        }
        i = i - 1;
    }
    proof {
        assert(m.globals@.take(0) =~= Seq::<crate::ir::Global>::empty());
    }
    None
}

/// Whether the global's name begins with `.str`.
pub fn str_prefix_exec(name: &Vec<u8>) -> (r: bool)
    ensures
        r == has_str_prefix(name@),
{
    name.len() >= 4 && name[0] == 46 && name[1] == 115 && name[2] == 116 && name[3] == 114
}

/// The bytes of `bs` with NUL bytes removed.
pub fn strip_nuls_exec(bs: &Vec<u8>) -> (r: Vec<u8>)
    ensures
        r@ == strip_nuls(bs@),
{
    let n: usize = bs.len();
    let mut r: Vec<u8> = Vec::new();
    let mut i: usize = 0;
    proof {
        assert(bs@.subrange(0, 0) =~= Seq::<u8>::empty());
    }
    while i < n
        invariant
            n == bs.len(),
            i <= n,
            r@ == strip_nuls(bs@.subrange(0, i as int)),
        decreases n - i,
    {
        proof {
            assert(bs@.subrange(0, i as int + 1).drop_last() =~= bs@.subrange(0, i as int));
            assert(bs@.subrange(0, i as int + 1).last() == bs@[i as int]);
        }
        if bs[i] != 0 {
            r.push(bs[i]);
        }
        i += 1;
    }
    proof {
        assert(bs@.subrange(0, n as int) =~= bs@);
    }
    r
}

/// What rendering one argument yielded (executable form).
pub enum RaResE {
    Text(Vec<u8>),
    NeedF { wide: bool, bits: u64 },
    Fail(Error),
}

/// The specification view of a [`RaResE`].
pub open spec fn ra_view(r: RaResE) -> RaRes {
    match r {
        RaResE::Text(t) => RaRes::Text(t@),
        RaResE::NeedF { wide, bits } => RaRes::NeedF { wide, bits },
        RaResE::Fail(e) => RaRes::Fail(e),
    }
}

/// Renders one positional argument according to its declared type.
pub fn render_arg_exec(m: &Module, st: &Store, a: &Operand) -> (r: RaResE)
    ensures
        ra_view(r) == render_arg(*m, st@, a@),
{
    match a {
        Operand::Local { name, ty } => match ty {
            Ty::Int(w) => {
                if *w == 32 || *w == 64 {
                    match resolve_int_exec(st, a) {
                        Err(e) => RaResE::Fail(e),
                        Ok(v) => {
                            let mut out: Vec<u8> = Vec::new();
                            push_dec_signed(*w, v, &mut out);
                            RaResE::Text(out)
                        },
                    }
                } else {
                    RaResE::Fail(Error::Unsupported)
                }
            },
            Ty::Single => match resolve_single_exec(st, a) {
                Err(e) => RaResE::Fail(e),
                Ok(bits) => RaResE::NeedF { wide: false, bits: bits as u64 },
            },
            Ty::Double => match resolve_double_exec(st, a) {
                Err(e) => RaResE::Fail(e),
                Ok(bits) => RaResE::NeedF { wide: true, bits },
            },
            Ty::Other => RaResE::Fail(Error::Unsupported),
        },
        Operand::ConstInt { width, val } => {
            if *width == 32 || *width == 64 {
                let mut out: Vec<u8> = Vec::new();
                push_dec_signed(*width, *val, &mut out);
                RaResE::Text(out)
            } else {
                RaResE::Fail(Error::Unsupported)
            }
        },
        Operand::ConstSingle { bits } => RaResE::NeedF { wide: false, bits: *bits as u64 },
        Operand::ConstDouble { bits } => RaResE::NeedF { wide: true, bits: *bits },
        Operand::ConstStr { global } => match glob_lookup_exec(m, global) {
            Some(gi) => match gi {
                GInit::Bytes(bs) => {
                    if str_prefix_exec(global) {
                        RaResE::Text(strip_nuls_exec(bs))
                    } else {
                        RaResE::Fail(Error::MalformedPrintf)
                    }
                },
                GInit::Unsupported => RaResE::Fail(Error::MalformedPrintf),
            },
            None => RaResE::Fail(Error::MalformedPrintf),
        },
        Operand::Unsupported => RaResE::Fail(Error::Unsupported),
    }
}

/// What walking the format yielded (executable form).
pub enum WalkResE {
    Out(Vec<u8>),
    NeedF { wide: bool, bits: u64, line: Vec<u8>, pos: usize, argi: usize },
    Fail(Error),
}

/// The specification view of a [`WalkResE`].
pub open spec fn walk_view(r: WalkResE) -> WalkRes {
    match r {
        WalkResE::Out(l) => WalkRes::Out(l@),
        WalkResE::NeedF { wide, bits, line, pos, argi } => WalkRes::NeedF {
            wide,
            bits,
            line: line@,
            pos: pos as int,
            argi: argi as int,
        },
        WalkResE::Fail(e) => WalkRes::Fail(e),
    }
}

/// Walks the format bytes from `pos`, rendering arguments from `argi` on,
/// with `line` holding what is already rendered.
#[verifier::loop_isolation(false)]
pub fn printf_walk_exec(
    m: &Module,
    st: &Store,
    fmt: &Vec<u8>,
    args: &Vec<Operand>,
    line: Vec<u8>,
    pos: usize,
    argi: usize,
) -> (r: WalkResE)
    ensures
        walk_view(r) == printf_walk(
            *m,
            st@,
            fmt@,
            crate::ir::ops_view(args@),
            line@,
            pos as int,
            argi as int,
        ),
{
    let ghost target = printf_walk(
        *m,
        st@,
        fmt@,
        crate::ir::ops_view(args@),
        line@,
        pos as int,
        argi as int,
    );
    let n: usize = fmt.len();
    let mut line = line;
    let mut pos = pos;
    let mut argi = argi;
    loop
        invariant
            n == fmt.len(),
            printf_walk(
                *m,
                st@,
                fmt@,
                crate::ir::ops_view(args@),
                line@,
                pos as int,
                argi as int,
            ) == target,
        decreases n - pos,
    {
        if pos >= n {
            proof {
                assert(printf_walk(*m, st@, fmt@, crate::ir::ops_view(args@), line@, pos as int, argi as int)
                    == WalkRes::Out(line@));
            }
            return WalkResE::Out(line);
        }
        let c = fmt[pos];
        if c == 37 {
            if pos + 1 >= n {
                proof {
                    assert(printf_walk(*m, st@, fmt@, crate::ir::ops_view(args@), line@, pos as int, argi as int)
                        == WalkRes::Fail(Error::MalformedPrintf));
                }
                return WalkResE::Fail(Error::MalformedPrintf);
            }
            if argi >= args.len() {
                proof {
                    assert(printf_walk(*m, st@, fmt@, crate::ir::ops_view(args@), line@, pos as int, argi as int)
                        == WalkRes::Fail(Error::MalformedPrintf));
                }
                return WalkResE::Fail(Error::MalformedPrintf);
            }
            proof {
                assert(crate::ir::ops_view(args@)[argi as int] == args@[argi as int]@);
            }
            match render_arg_exec(m, st, &args[argi]) {
                RaResE::Fail(e) => {
                    proof {
                        assert(printf_walk(*m, st@, fmt@, crate::ir::ops_view(args@), line@, pos as int, argi as int)
                            == WalkRes::Fail(e));
                    }
                    return WalkResE::Fail(e);
                },
                RaResE::NeedF { wide, bits } => {
                    proof {
                        assert(printf_walk(*m, st@, fmt@, crate::ir::ops_view(args@), line@, pos as int, argi as int)
                            == (WalkRes::NeedF { wide, bits, line: line@, pos: pos as int, argi: argi as int }));
                    }
                    return WalkResE::NeedF { wide, bits, line, pos, argi };
                },
                RaResE::Text(t) => {
                    push_all(&mut line, &t);
                    argi = argi + 1;
                    if pos + 2 <= n {
                        pos = pos + 2;
                    } else {
                        pos = n;
                    }
                },
            }
        } else if c == 0 {
            pos = pos + 1;
        } else {
            line.push(c);
            pos = pos + 1;
        }
    }
}

} // verus!
