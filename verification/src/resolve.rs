//! Executable operand resolution: chasing register indirection through the
//! store, exactly as the specification's `resolve_*` functions do.

use vstd::prelude::*;

use crate::ir::{copy_operand, Error, Operand};
use crate::semantics::{chase_fuel, chase_op, resolve_double, resolve_int, resolve_single};
use crate::store::Store;

verus! {

/// Chases register indirection until a constant operand remains, and
/// returns a copy of it.
pub fn chase_op_exec(st: &Store, op: &Operand) -> (r: Result<Operand, Error>)
    ensures
        match r {
            Ok(o) => chase_op(st@, op@, chase_fuel(st@)) == Ok::<crate::ir::OpV, Error>(o@),
            Err(e) => chase_op(st@, op@, chase_fuel(st@)) == Err::<crate::ir::OpV, Error>(e),
        },
{
    let mut cur: &Operand = op;
    let mut rem: usize = st.len();
    loop
        invariant
            rem <= st@.len(),
            chase_op(st@, cur@, (rem + 1) as nat) == chase_op(st@, op@, chase_fuel(st@)),
        decreases rem,
    {
        match cur {
            Operand::Local { name, ty } => {
                match st.get(name) {
                    None => {
                        return Err(Error::UndefinedValue);
                    },
                    Some(o) => {
                        proof {
                            assert(chase_op(st@, cur@, (rem + 1) as nat) == chase_op(
                                st@,
                                o@,
                                rem as nat,
                            ));
                        }
                        if rem == 0 {
                            match o {
                                Operand::Local { .. } => {
                                    return Err(Error::UndefinedValue);
                                },
                                _ => {
                                    return Ok(copy_operand(o));
                                },
                            }
                        } else {
                            cur = o;
                            rem = rem - 1;
                        }
                    },
                }
            },
            _ => {
                return Ok(copy_operand(cur));
            },
        }
    }
}

/// Resolves an operand to an integer payload.
pub fn resolve_int_exec(st: &Store, op: &Operand) -> (r: Result<u64, Error>)
    ensures
        r == resolve_int(st@, op@, chase_fuel(st@)),
{
    let mut cur: &Operand = op;
    let mut rem: usize = st.len();
    loop
        invariant
            rem <= st@.len(),
            resolve_int(st@, cur@, (rem + 1) as nat) == resolve_int(st@, op@, chase_fuel(st@)),
        decreases rem,
    {
        match cur {
            Operand::ConstInt { width, val } => {
                return Ok(*val);
            },
            Operand::Local { name, ty } => {
                match st.get(name) {
                    None => {
                        return Err(Error::UndefinedValue);
                    },
                    Some(o) => {
                        proof {
                            assert(resolve_int(st@, cur@, (rem + 1) as nat) == resolve_int(
                                st@,
                                o@,
                                rem as nat,
                            ));
                        }
                        if rem == 0 {
                            // the chain is longer than the store: a cycle
                            match o {
                                Operand::ConstInt { width, val } => {
                                    return Ok(*val);
                                },
                                Operand::Local { .. } => {
                                    return Err(Error::UndefinedValue);
                                },
                                _ => {
                                    return Err(Error::Unsupported);
                                },
                            }
                        } else {
                            cur = o;
                            rem = rem - 1;
                        }
                    },
                }
            },
            _ => {
                return Err(Error::Unsupported);
            },
        }
    }
}

/// Resolves an operand to single-precision float bits.
pub fn resolve_single_exec(st: &Store, op: &Operand) -> (r: Result<u32, Error>)
    ensures
        r == resolve_single(st@, op@, chase_fuel(st@)),
{
    let mut cur: &Operand = op;
    let mut rem: usize = st.len();
    loop
        invariant
            rem <= st@.len(),
            resolve_single(st@, cur@, (rem + 1) as nat) == resolve_single(
                st@,
                op@,
                chase_fuel(st@),
            ),
        decreases rem,
    {
        match cur {
            Operand::ConstSingle { bits } => {
                return Ok(*bits);
            },
            Operand::Local { name, ty } => {
                match st.get(name) {
                    None => {
                        return Err(Error::UndefinedValue);
                    },
                    Some(o) => {
                        proof {
                            assert(resolve_single(st@, cur@, (rem + 1) as nat) == resolve_single(
                                st@,
                                o@,
                                rem as nat,
                            ));
                        }
                        if rem == 0 {
                            match o {
                                Operand::ConstSingle { bits } => {
                                    return Ok(*bits);
                                },
                                Operand::Local { .. } => {
                                    return Err(Error::UndefinedValue);
                                },
                                _ => {
                                    return Err(Error::Unsupported);
                                },
                            }
                        } else {
                            cur = o;
                            rem = rem - 1;
                        }
                    },
                }
            },
            _ => {
                return Err(Error::Unsupported);
            },
        }
    }
}

/// Resolves an operand to double-precision float bits.
pub fn resolve_double_exec(st: &Store, op: &Operand) -> (r: Result<u64, Error>)
    ensures
        r == resolve_double(st@, op@, chase_fuel(st@)),
{
    let mut cur: &Operand = op;
    let mut rem: usize = st.len();
    loop
        invariant
            rem <= st@.len(),
            resolve_double(st@, cur@, (rem + 1) as nat) == resolve_double(
                st@,
                op@,
                chase_fuel(st@),
            ),
        decreases rem,
    {
        match cur {
            Operand::ConstDouble { bits } => {
                return Ok(*bits);
            },
            Operand::Local { name, ty } => {
                match st.get(name) {
                    None => {
                        return Err(Error::UndefinedValue);
                    },
                    Some(o) => {
                        proof {
                            assert(resolve_double(st@, cur@, (rem + 1) as nat) == resolve_double(
                                st@,
                                o@,
                                rem as nat,
                            ));
                        }
                        if rem == 0 {
                            match o {
                                Operand::ConstDouble { bits } => {
                                    return Ok(*bits);
                                },
                                Operand::Local { .. } => {
                                    return Err(Error::UndefinedValue);
                                },
                                _ => {
                                    return Err(Error::Unsupported);
                                },
                            }
                        } else {
                            cur = o;
                            rem = rem - 1;
                        }
                    },
                }
            },
            _ => {
                return Err(Error::Unsupported);
            },
        }
    }
}

} // verus!
