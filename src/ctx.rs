//! The context of definitions that normalization reads.
use vstd::prelude::*;
use crate::ast::{IdxTm, Type};

verus! {

/// User definitions of types and index terms, and the reduction budget.
///
/// A later definition of a name hides an earlier one. The budget bounds
/// how many definition unfoldings and beta steps one normalization may
/// take along any path of its recursion; it stands in for the
/// well-formedness checks that make definitions acyclic and reductions
/// terminating.
pub struct Ctx {
    pub type_defs: Vec<(String, Type)>,
    pub idx_defs: Vec<(String, IdxTm)>,
    pub fuel: u64,
}

/// The most recent definition of `name` among `defs`.
pub open spec fn lookup_type(defs: Seq<(String, Type)>, name: Seq<char>) -> Option<Type>
    decreases defs.len(),
{
    if defs.len() == 0 {
        None
    } else if defs.last().0@ == name {
        Some(defs.last().1)
    } else {
        lookup_type(defs.drop_last(), name)
    }
}

/// The most recent definition of `name` among `defs`.
pub open spec fn lookup_idx(defs: Seq<(String, IdxTm)>, name: Seq<char>) -> Option<IdxTm>
    decreases defs.len(),
{
    if defs.len() == 0 {
        None
    } else if defs.last().0@ == name {
        Some(defs.last().1)
    } else {
        lookup_idx(defs.drop_last(), name)
    }
}

impl Ctx {
    /// An empty context with the given reduction budget.
    pub fn new(fuel: u64) -> (r: Ctx)
        ensures
            r.type_defs@.len() == 0,
            r.idx_defs@.len() == 0,
            r.fuel == fuel,
    {
        Ctx { type_defs: Vec::new(), idx_defs: Vec::new(), fuel }
    }

    pub fn define_type(&mut self, name: String, t: Type)
        ensures
            final(self).type_defs@ == old(self).type_defs@.push((name, t)),
            final(self).idx_defs@ == old(self).idx_defs@,
            final(self).fuel == old(self).fuel,
    {
        self.type_defs.push((name, t));
    }

    pub fn define_idx(&mut self, name: String, i: IdxTm)
        ensures
            final(self).idx_defs@ == old(self).idx_defs@.push((name, i)),
            final(self).type_defs@ == old(self).type_defs@,
            final(self).fuel == old(self).fuel,
    {
        self.idx_defs.push((name, i));
    }

    pub fn lookup_type_def(&self, name: &String) -> (r: Option<Type>)
        ensures
            r == lookup_type(self.type_defs@, name@),
    {
        let mut k: usize = self.type_defs.len();
        assert(self.type_defs@.subrange(0, k as int) =~= self.type_defs@);
        while k > 0
            invariant
                k <= self.type_defs@.len(),
                lookup_type(self.type_defs@, name@) == lookup_type(self.type_defs@.subrange(0, k as int), name@),
            decreases k,
        {
            let ghost pre = self.type_defs@.subrange(0, k as int);
            assert(pre.drop_last() =~= self.type_defs@.subrange(0, k - 1));
            if self.type_defs[k - 1].0 == *name {
                return Some(self.type_defs[k - 1].1.dup());
            }
            k = k - 1;
        }
        None
    }

    pub fn lookup_idx_def(&self, name: &String) -> (r: Option<IdxTm>)
        ensures
            r == lookup_idx(self.idx_defs@, name@),
    {
        let mut k: usize = self.idx_defs.len();
        assert(self.idx_defs@.subrange(0, k as int) =~= self.idx_defs@);
        while k > 0
            invariant
                k <= self.idx_defs@.len(),
                lookup_idx(self.idx_defs@, name@) == lookup_idx(self.idx_defs@.subrange(0, k as int), name@),
            decreases k,
        {
            let ghost pre = self.idx_defs@.subrange(0, k as int);
            assert(pre.drop_last() =~= self.idx_defs@.subrange(0, k - 1));
            if self.idx_defs[k - 1].0 == *name {
                return Some(self.idx_defs[k - 1].1.dup());
            }
            k = k - 1;
        }
        None
    }
}

} // verus!
