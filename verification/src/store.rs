//! The value store of the active frame.
//!
//! Registers are bound by appending; a later binding for the same name
//! shadows an earlier one.  The store is viewed as the sequence of its
//! bindings, and `lookup` finds the most recent binding of a name.

use vstd::prelude::*;

use crate::bytes::bytes_eq;
use crate::ir::{OpV, Operand};

verus! {

/// The most recent binding of `name`, if any.
pub open spec fn lookup(st: Seq<(Seq<u8>, OpV)>, name: Seq<u8>) -> Option<OpV>
    decreases st.len(),
{
    if st.len() == 0 {
        None
    } else if st.last().0 == name {
        Some(st.last().1)
    } else {
        lookup(st.drop_last(), name)
    }
}

/// A register map: names bound to the operands that hold their values.
#[derive(Debug)]
pub struct Store {
    entries: Vec<(Vec<u8>, Operand)>,
}

impl View for Store {
    type V = Seq<(Seq<u8>, OpV)>;

    closed spec fn view(&self) -> Seq<(Seq<u8>, OpV)> {
        self.entries@.map_values(|p: (Vec<u8>, Operand)| (p.0@, p.1@))
    }
}

impl Store {
    /// An empty store.
    pub fn new() -> (r: Store)
        ensures
            r@ == Seq::<(Seq<u8>, OpV)>::empty(),
    {
        let r = Store { entries: Vec::new() };
        proof {
            assert(r@ =~= Seq::<(Seq<u8>, OpV)>::empty());
        }
        r
    }

    /// Binds `name` to `op`, shadowing any earlier binding.
    pub fn put(&mut self, name: Vec<u8>, op: Operand)
        ensures
            final(self)@ == old(self)@.push((name@, op@)),
    {
        let ghost nv = name@;
        let ghost ov = op@;
        self.entries.push((name, op));
        proof {
            assert(self@ =~= old(self)@.push((nv, ov)));
        }
    }

    /// The current value of `name`: the most recent binding, if any.
    pub fn get<'a>(&'a self, name: &Vec<u8>) -> (r: Option<&'a Operand>)
        ensures
            match r {
                Some(op) => lookup(self@, name@) == Some(op@),
                None => lookup(self@, name@) is None,
            },
    {
        let mut i: usize = self.entries.len();
        proof {
            assert(self@.take(i as int) =~= self@);
        }
        while i > 0
            invariant
                i <= self.entries.len(),
                lookup(self@, name@) == lookup(self@.take(i as int), name@),
            decreases i,
        {
            let e = &self.entries[i - 1];
            proof {
                assert(self@.take(i as int).last() == (e.0@, e.1@));
                assert(self@.take(i as int).drop_last() =~= self@.take(i - 1));
            }
            if bytes_eq(&e.0, name) {
                return Some(&e.1);
            }
            i = i - 1;
        }
        proof {
            assert(self@.take(0) =~= Seq::<(Seq<u8>, OpV)>::empty());
        }
        None
    }

    /// The number of bindings.
    pub fn len(&self) -> (r: usize)
        ensures
            r == self@.len(),
    {
        self.entries.len()
    }
}

} // verus!
