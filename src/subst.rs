//! Capture-avoiding substitution for name terms, index terms and types.
//!
//! Substituting `r` for `x` in a term replaces the free occurrences of
//! `x`. Under a binder `y` that would capture a free variable of `r`, the
//! binder is first renamed to a variable with the same name and a tag
//! larger than every tag in `r` and in the binder's body. This covers an
//! index binder (`foralli`, `exists`) under which a type is substituted,
//! when the replacement type mentions that index variable free. Only when that
//! largest tag is already `u64::MAX` is the binder kept as it is.
use vstd::prelude::*;
use crate::ast::{IdxTm, NameTm, Type, Var};

verus! {

pub open spec fn max_nat(a: nat, b: nat) -> nat {
    if a >= b { a } else { b }
}

fn max_u64(a: u64, b: u64) -> (r: u64)
    ensures
        r as nat == max_nat(a as nat, b as nat),
{
    if a >= b { a } else { b }
}

/// The variable that a binder `y` is renamed to when its body and the
/// replacement carry tags up to `m`; none when no larger tag exists.
pub open spec fn fresh_for(y: Var, m: nat) -> Option<Var> {
    if m < u64::MAX {
        Some(Var { name: y.name, tag: (m + 1) as u64 })
    } else {
        None
    }
}

fn make_fresh(y: &Var, m: u64) -> (r: Option<Var>)
    ensures
        r == fresh_for(*y, m as nat),
{
    if m < u64::MAX {
        Some(Var { name: y.name.clone(), tag: m + 1 })
    } else {
        None
    }
}

// ---------------------------------------------------------------- name terms

pub open spec fn nm_size(n: NameTm) -> nat
    decreases n,
{
    match n {
        NameTm::Bin(a, b) => 1 + nm_size(*a) + nm_size(*b),
        NameTm::App(a, b) => 1 + nm_size(*a) + nm_size(*b),
        NameTm::Lam(_, _, b) => 1 + nm_size(*b),
        _ => 1,
    }
}

/// Whether `v` occurs free in `n`.
pub open spec fn nm_free(v: Var, n: NameTm) -> bool
    decreases n,
{
    match n {
        NameTm::Var(y) => y.same(&v),
        NameTm::Bin(a, b) => nm_free(v, *a) || nm_free(v, *b),
        NameTm::App(a, b) => nm_free(v, *a) || nm_free(v, *b),
        NameTm::Lam(y, _, b) => !y.same(&v) && nm_free(v, *b),
        _ => false,
    }
}

/// The largest tag of any variable in `n`, bound or free.
pub open spec fn nm_max_tag(n: NameTm) -> nat
    decreases n,
{
    match n {
        NameTm::Var(y) => y.tag as nat,
        NameTm::Bin(a, b) => max_nat(nm_max_tag(*a), nm_max_tag(*b)),
        NameTm::App(a, b) => max_nat(nm_max_tag(*a), nm_max_tag(*b)),
        NameTm::Lam(y, _, b) => max_nat(y.tag as nat, nm_max_tag(*b)),
        _ => 0,
    }
}

/// Replaces the free occurrences of `y` in `n` by `z`, where `z` is fresh.
pub open spec fn nm_rename(y: Var, z: Var, n: NameTm) -> NameTm
    decreases n,
{
    match n {
        NameTm::Var(w) => if w.same(&y) { NameTm::Var(z) } else { n },
        NameTm::Bin(a, b) => NameTm::Bin(Box::new(nm_rename(y, z, *a)), Box::new(nm_rename(y, z, *b))),
        NameTm::App(a, b) => NameTm::App(Box::new(nm_rename(y, z, *a)), Box::new(nm_rename(y, z, *b))),
        NameTm::Lam(w, g, b) => if w.same(&y) { n } else { NameTm::Lam(w, g, Box::new(nm_rename(y, z, *b))) },
        _ => n,
    }
}

pub proof fn lemma_nm_rename_size(y: Var, z: Var, n: NameTm)
    ensures
        nm_size(nm_rename(y, z, n)) == nm_size(n),
    decreases n,
{
    match n {
        NameTm::Bin(a, b) => {
            lemma_nm_rename_size(y, z, *a);
            lemma_nm_rename_size(y, z, *b);
        },
        NameTm::App(a, b) => {
            lemma_nm_rename_size(y, z, *a);
            lemma_nm_rename_size(y, z, *b);
        },
        NameTm::Lam(_, _, b) => lemma_nm_rename_size(y, z, *b),
        _ => {},
    }
}

/// `[r/x]n`: capture-avoiding substitution of the name term `r` for `x`.
pub open spec fn nm_subst(r: NameTm, x: Var, n: NameTm) -> NameTm
    decreases nm_size(n),
    via nm_subst_decreases
{
    match n {
        NameTm::Var(y) => if y.same(&x) { r } else { n },
        NameTm::Bin(a, b) => NameTm::Bin(Box::new(nm_subst(r, x, *a)), Box::new(nm_subst(r, x, *b))),
        NameTm::App(a, b) => NameTm::App(Box::new(nm_subst(r, x, *a)), Box::new(nm_subst(r, x, *b))),
        NameTm::Lam(y, g, b) => {
            if y.same(&x) {
                n
            } else if nm_free(y, r) && nm_free(x, *b) {
                match fresh_for(y, max_nat(nm_max_tag(r), nm_max_tag(*b))) {
                    Some(z) => NameTm::Lam(z, g, Box::new(nm_subst(r, x, nm_rename(y, z, *b)))),
                    None => NameTm::Lam(y, g, Box::new(nm_subst(r, x, *b))),
                }
            } else {
                NameTm::Lam(y, g, Box::new(nm_subst(r, x, *b)))
            }
        },
        _ => n,
    }
}

#[via_fn]
proof fn nm_subst_decreases(r: NameTm, x: Var, n: NameTm) {
    if let NameTm::Lam(y, g, b) = n {
        if let Some(z) = fresh_for(y, max_nat(nm_max_tag(r), nm_max_tag(*b))) {
            lemma_nm_rename_size(y, z, *b);
        }
    }
}

pub fn occurs_free_nmtm(v: &Var, n: &NameTm) -> (r: bool)
    ensures
        r == nm_free(*v, *n),
    decreases n,
{
    match n {
        NameTm::Var(y) => y.eq_var(v),
        NameTm::Bin(a, b) => occurs_free_nmtm(v, a) || occurs_free_nmtm(v, b),
        NameTm::App(a, b) => occurs_free_nmtm(v, a) || occurs_free_nmtm(v, b),
        NameTm::Lam(y, _, b) => !y.eq_var(v) && occurs_free_nmtm(v, b),
        _ => false,
    }
}

pub fn max_tag_nmtm(n: &NameTm) -> (r: u64)
    ensures
        r as nat == nm_max_tag(*n),
    decreases n,
{
    match n {
        NameTm::Var(y) => y.tag,
        NameTm::Bin(a, b) => max_u64(max_tag_nmtm(a), max_tag_nmtm(b)),
        NameTm::App(a, b) => max_u64(max_tag_nmtm(a), max_tag_nmtm(b)),
        NameTm::Lam(y, _, b) => max_u64(y.tag, max_tag_nmtm(b)),
        _ => 0,
    }
}

pub fn rename_nmtm(y: &Var, z: &Var, n: &NameTm) -> (r: NameTm)
    ensures
        r == nm_rename(*y, *z, *n),
    decreases n,
{
    match n {
        NameTm::Var(w) => if w.eq_var(y) { NameTm::Var(z.dup()) } else { n.dup() },
        NameTm::Bin(a, b) => NameTm::Bin(Box::new(rename_nmtm(y, z, a)), Box::new(rename_nmtm(y, z, b))),
        NameTm::App(a, b) => NameTm::App(Box::new(rename_nmtm(y, z, a)), Box::new(rename_nmtm(y, z, b))),
        NameTm::Lam(w, g, b) => {
            if w.eq_var(y) {
                n.dup()
            } else {
                NameTm::Lam(w.dup(), g.dup(), Box::new(rename_nmtm(y, z, b)))
            }
        },
        _ => n.dup(),
    }
}

/// Substitutes the name term `r` for the variable `x` in `n`.
pub fn subst_nmtm(r: &NameTm, x: &Var, n: &NameTm) -> (res: NameTm)
    ensures
        res == nm_subst(*r, *x, *n),
    decreases nm_size(*n),
{
    match n {
        NameTm::Var(y) => if y.eq_var(x) { r.dup() } else { n.dup() },
        NameTm::Bin(a, b) => NameTm::Bin(Box::new(subst_nmtm(r, x, a)), Box::new(subst_nmtm(r, x, b))),
        NameTm::App(a, b) => NameTm::App(Box::new(subst_nmtm(r, x, a)), Box::new(subst_nmtm(r, x, b))),
        NameTm::Lam(y, g, b) => {
            if y.eq_var(x) {
                n.dup()
            } else if occurs_free_nmtm(y, r) && occurs_free_nmtm(x, b) {
                let m = max_u64(max_tag_nmtm(r), max_tag_nmtm(b));
                match make_fresh(y, m) {
                    Some(z) => {
                        let b2 = rename_nmtm(y, &z, b);
                        proof {
                            lemma_nm_rename_size(*y, z, **b);
                        }
                        NameTm::Lam(z, g.dup(), Box::new(subst_nmtm(r, x, &b2)))
                    },
                    None => NameTm::Lam(y.dup(), g.dup(), Box::new(subst_nmtm(r, x, b))),
                }
            } else {
                NameTm::Lam(y.dup(), g.dup(), Box::new(subst_nmtm(r, x, b)))
            }
        },
        _ => n.dup(),
    }
}

// --------------------------------------------------------------- index terms

pub open spec fn idx_size(i: IdxTm) -> nat
    decreases i,
{
    match i {
        IdxTm::Apart(a, b) => 1 + idx_size(*a) + idx_size(*b),
        IdxTm::Union(a, b) => 1 + idx_size(*a) + idx_size(*b),
        IdxTm::Bin(a, b) => 1 + idx_size(*a) + idx_size(*b),
        IdxTm::Pair(a, b) => 1 + idx_size(*a) + idx_size(*b),
        IdxTm::App(a, b) => 1 + idx_size(*a) + idx_size(*b),
        IdxTm::FlatMap(a, b) => 1 + idx_size(*a) + idx_size(*b),
        IdxTm::FlatMapStar(a, b) => 1 + idx_size(*a) + idx_size(*b),
        IdxTm::Proj1(a) => 1 + idx_size(*a),
        IdxTm::Proj2(a) => 1 + idx_size(*a),
        IdxTm::Lam(_, _, b) => 1 + idx_size(*b),
        IdxTm::NmMap(_, b) => 1 + idx_size(*b),
        _ => 1,
    }
}

/// Whether `v` occurs free in `i`, including inside its name terms.
pub open spec fn idx_free(v: Var, i: IdxTm) -> bool
    decreases i,
{
    match i {
        IdxTm::Apart(a, b) => idx_free(v, *a) || idx_free(v, *b),
        IdxTm::Union(a, b) => idx_free(v, *a) || idx_free(v, *b),
        IdxTm::Bin(a, b) => idx_free(v, *a) || idx_free(v, *b),
        IdxTm::Pair(a, b) => idx_free(v, *a) || idx_free(v, *b),
        IdxTm::App(a, b) => idx_free(v, *a) || idx_free(v, *b),
        IdxTm::FlatMap(a, b) => idx_free(v, *a) || idx_free(v, *b),
        IdxTm::FlatMapStar(a, b) => idx_free(v, *a) || idx_free(v, *b),
        IdxTm::Proj1(a) => idx_free(v, *a),
        IdxTm::Proj2(a) => idx_free(v, *a),
        IdxTm::Var(y) => y.same(&v),
        IdxTm::Sing(m) => nm_free(v, m),
        IdxTm::NmTm(m) => nm_free(v, m),
        IdxTm::NmMap(m, b) => nm_free(v, *m) || idx_free(v, *b),
        IdxTm::Lam(y, _, b) => !y.same(&v) && idx_free(v, *b),
        _ => false,
    }
}

/// The largest tag of any variable in `i`, bound or free.
pub open spec fn idx_max_tag(i: IdxTm) -> nat
    decreases i,
{
    match i {
        IdxTm::Apart(a, b) => max_nat(idx_max_tag(*a), idx_max_tag(*b)),
        IdxTm::Union(a, b) => max_nat(idx_max_tag(*a), idx_max_tag(*b)),
        IdxTm::Bin(a, b) => max_nat(idx_max_tag(*a), idx_max_tag(*b)),
        IdxTm::Pair(a, b) => max_nat(idx_max_tag(*a), idx_max_tag(*b)),
        IdxTm::App(a, b) => max_nat(idx_max_tag(*a), idx_max_tag(*b)),
        IdxTm::FlatMap(a, b) => max_nat(idx_max_tag(*a), idx_max_tag(*b)),
        IdxTm::FlatMapStar(a, b) => max_nat(idx_max_tag(*a), idx_max_tag(*b)),
        IdxTm::Proj1(a) => idx_max_tag(*a),
        IdxTm::Proj2(a) => idx_max_tag(*a),
        IdxTm::Var(y) => y.tag as nat,
        IdxTm::Sing(m) => nm_max_tag(m),
        IdxTm::NmTm(m) => nm_max_tag(m),
        IdxTm::NmMap(m, b) => max_nat(nm_max_tag(*m), idx_max_tag(*b)),
        IdxTm::Lam(y, _, b) => max_nat(y.tag as nat, idx_max_tag(*b)),
        _ => 0,
    }
}

/// Replaces the free occurrences of `y` in `i` by `z`, where `z` is fresh.
pub open spec fn idx_rename(y: Var, z: Var, i: IdxTm) -> IdxTm
    decreases i,
{
    match i {
        IdxTm::Apart(a, b) => IdxTm::Apart(Box::new(idx_rename(y, z, *a)), Box::new(idx_rename(y, z, *b))),
        IdxTm::Union(a, b) => IdxTm::Union(Box::new(idx_rename(y, z, *a)), Box::new(idx_rename(y, z, *b))),
        IdxTm::Bin(a, b) => IdxTm::Bin(Box::new(idx_rename(y, z, *a)), Box::new(idx_rename(y, z, *b))),
        IdxTm::Pair(a, b) => IdxTm::Pair(Box::new(idx_rename(y, z, *a)), Box::new(idx_rename(y, z, *b))),
        IdxTm::App(a, b) => IdxTm::App(Box::new(idx_rename(y, z, *a)), Box::new(idx_rename(y, z, *b))),
        IdxTm::FlatMap(a, b) => IdxTm::FlatMap(Box::new(idx_rename(y, z, *a)), Box::new(idx_rename(y, z, *b))),
        IdxTm::FlatMapStar(a, b) => IdxTm::FlatMapStar(Box::new(idx_rename(y, z, *a)), Box::new(idx_rename(y, z, *b))),
        IdxTm::Proj1(a) => IdxTm::Proj1(Box::new(idx_rename(y, z, *a))),
        IdxTm::Proj2(a) => IdxTm::Proj2(Box::new(idx_rename(y, z, *a))),
        IdxTm::Var(w) => if w.same(&y) { IdxTm::Var(z) } else { i },
        IdxTm::Sing(m) => IdxTm::Sing(nm_rename(y, z, m)),
        IdxTm::NmTm(m) => IdxTm::NmTm(nm_rename(y, z, m)),
        IdxTm::NmMap(m, b) => IdxTm::NmMap(Box::new(nm_rename(y, z, *m)), Box::new(idx_rename(y, z, *b))),
        IdxTm::Lam(w, g, b) => if w.same(&y) { i } else { IdxTm::Lam(w, g, Box::new(idx_rename(y, z, *b))) },
        _ => i,
    }
}

pub proof fn lemma_idx_rename_size(y: Var, z: Var, i: IdxTm)
    ensures
        idx_size(idx_rename(y, z, i)) == idx_size(i),
    decreases i,
{
    match i {
        IdxTm::Apart(a, b) => {
            lemma_idx_rename_size(y, z, *a);
            lemma_idx_rename_size(y, z, *b);
        },
        IdxTm::Union(a, b) => {
            lemma_idx_rename_size(y, z, *a);
            lemma_idx_rename_size(y, z, *b);
        },
        IdxTm::Bin(a, b) => {
            lemma_idx_rename_size(y, z, *a);
            lemma_idx_rename_size(y, z, *b);
        },
        IdxTm::Pair(a, b) => {
            lemma_idx_rename_size(y, z, *a);
            lemma_idx_rename_size(y, z, *b);
        },
        IdxTm::App(a, b) => {
            lemma_idx_rename_size(y, z, *a);
            lemma_idx_rename_size(y, z, *b);
        },
        IdxTm::FlatMap(a, b) => {
            lemma_idx_rename_size(y, z, *a);
            lemma_idx_rename_size(y, z, *b);
        },
        IdxTm::FlatMapStar(a, b) => {
            lemma_idx_rename_size(y, z, *a);
            lemma_idx_rename_size(y, z, *b);
        },
        IdxTm::Proj1(a) => lemma_idx_rename_size(y, z, *a),
        IdxTm::Proj2(a) => lemma_idx_rename_size(y, z, *a),
        IdxTm::Lam(_, _, b) => lemma_idx_rename_size(y, z, *b),
        IdxTm::NmMap(_, b) => lemma_idx_rename_size(y, z, *b),
        _ => {},
    }
}

/// An index variable stands for a name inside a name term where the
/// replacement is a name term (`nmtm M`) or another variable; a
/// replacement of any other shape cannot stand in a name term.
pub open spec fn nm_subst_in(r: IdxTm, x: Var, m: NameTm) -> NameTm {
    match r {
        IdxTm::NmTm(rm) => nm_subst(rm, x, m),
        IdxTm::Var(z) => nm_subst(NameTm::Var(z), x, m),
        _ => m,
    }
}

/// `[r/x]i`: capture-avoiding substitution of the index term `r` for `x`.
pub open spec fn idx_subst(r: IdxTm, x: Var, i: IdxTm) -> IdxTm
    decreases idx_size(i),
    via idx_subst_decreases
{
    match i {
        IdxTm::Apart(a, b) => IdxTm::Apart(Box::new(idx_subst(r, x, *a)), Box::new(idx_subst(r, x, *b))),
        IdxTm::Union(a, b) => IdxTm::Union(Box::new(idx_subst(r, x, *a)), Box::new(idx_subst(r, x, *b))),
        IdxTm::Bin(a, b) => IdxTm::Bin(Box::new(idx_subst(r, x, *a)), Box::new(idx_subst(r, x, *b))),
        IdxTm::Pair(a, b) => IdxTm::Pair(Box::new(idx_subst(r, x, *a)), Box::new(idx_subst(r, x, *b))),
        IdxTm::App(a, b) => IdxTm::App(Box::new(idx_subst(r, x, *a)), Box::new(idx_subst(r, x, *b))),
        IdxTm::FlatMap(a, b) => IdxTm::FlatMap(Box::new(idx_subst(r, x, *a)), Box::new(idx_subst(r, x, *b))),
        IdxTm::FlatMapStar(a, b) => IdxTm::FlatMapStar(Box::new(idx_subst(r, x, *a)), Box::new(idx_subst(r, x, *b))),
        IdxTm::Proj1(a) => IdxTm::Proj1(Box::new(idx_subst(r, x, *a))),
        IdxTm::Proj2(a) => IdxTm::Proj2(Box::new(idx_subst(r, x, *a))),
        IdxTm::Var(y) => if y.same(&x) { r } else { i },
        IdxTm::Sing(m) => IdxTm::Sing(nm_subst_in(r, x, m)),
        IdxTm::NmTm(m) => IdxTm::NmTm(nm_subst_in(r, x, m)),
        IdxTm::NmMap(m, b) => IdxTm::NmMap(Box::new(nm_subst_in(r, x, *m)), Box::new(idx_subst(r, x, *b))),
        IdxTm::Lam(y, g, b) => {
            if y.same(&x) {
                i
            } else if idx_free(y, r) && idx_free(x, *b) {
                match fresh_for(y, max_nat(idx_max_tag(r), idx_max_tag(*b))) {
                    Some(z) => IdxTm::Lam(z, g, Box::new(idx_subst(r, x, idx_rename(y, z, *b)))),
                    None => IdxTm::Lam(y, g, Box::new(idx_subst(r, x, *b))),
                }
            } else {
                IdxTm::Lam(y, g, Box::new(idx_subst(r, x, *b)))
            }
        },
        _ => i,
    }
}

#[via_fn]
proof fn idx_subst_decreases(r: IdxTm, x: Var, i: IdxTm) {
    if let IdxTm::Lam(y, g, b) = i {
        if let Some(z) = fresh_for(y, max_nat(idx_max_tag(r), idx_max_tag(*b))) {
            lemma_idx_rename_size(y, z, *b);
        }
    }
}

pub fn occurs_free_idxtm(v: &Var, i: &IdxTm) -> (r: bool)
    ensures
        r == idx_free(*v, *i),
    decreases i,
{
    match i {
        IdxTm::Apart(a, b) => occurs_free_idxtm(v, a) || occurs_free_idxtm(v, b),
        IdxTm::Union(a, b) => occurs_free_idxtm(v, a) || occurs_free_idxtm(v, b),
        IdxTm::Bin(a, b) => occurs_free_idxtm(v, a) || occurs_free_idxtm(v, b),
        IdxTm::Pair(a, b) => occurs_free_idxtm(v, a) || occurs_free_idxtm(v, b),
        IdxTm::App(a, b) => occurs_free_idxtm(v, a) || occurs_free_idxtm(v, b),
        IdxTm::FlatMap(a, b) => occurs_free_idxtm(v, a) || occurs_free_idxtm(v, b),
        IdxTm::FlatMapStar(a, b) => occurs_free_idxtm(v, a) || occurs_free_idxtm(v, b),
        IdxTm::Proj1(a) => occurs_free_idxtm(v, a),
        IdxTm::Proj2(a) => occurs_free_idxtm(v, a),
        IdxTm::Var(y) => y.eq_var(v),
        IdxTm::Sing(m) => occurs_free_nmtm(v, m),
        IdxTm::NmTm(m) => occurs_free_nmtm(v, m),
        IdxTm::NmMap(m, b) => occurs_free_nmtm(v, m) || occurs_free_idxtm(v, b),
        IdxTm::Lam(y, _, b) => !y.eq_var(v) && occurs_free_idxtm(v, b),
        _ => false,
    }
}

pub fn max_tag_idxtm(i: &IdxTm) -> (r: u64)
    ensures
        r as nat == idx_max_tag(*i),
    decreases i,
{
    match i {
        IdxTm::Apart(a, b) => max_u64(max_tag_idxtm(a), max_tag_idxtm(b)),
        IdxTm::Union(a, b) => max_u64(max_tag_idxtm(a), max_tag_idxtm(b)),
        IdxTm::Bin(a, b) => max_u64(max_tag_idxtm(a), max_tag_idxtm(b)),
        IdxTm::Pair(a, b) => max_u64(max_tag_idxtm(a), max_tag_idxtm(b)),
        IdxTm::App(a, b) => max_u64(max_tag_idxtm(a), max_tag_idxtm(b)),
        IdxTm::FlatMap(a, b) => max_u64(max_tag_idxtm(a), max_tag_idxtm(b)),
        IdxTm::FlatMapStar(a, b) => max_u64(max_tag_idxtm(a), max_tag_idxtm(b)),
        IdxTm::Proj1(a) => max_tag_idxtm(a),
        IdxTm::Proj2(a) => max_tag_idxtm(a),
        IdxTm::Var(y) => y.tag,
        IdxTm::Sing(m) => max_tag_nmtm(m),
        IdxTm::NmTm(m) => max_tag_nmtm(m),
        IdxTm::NmMap(m, b) => max_u64(max_tag_nmtm(m), max_tag_idxtm(b)),
        IdxTm::Lam(y, _, b) => max_u64(y.tag, max_tag_idxtm(b)),
        _ => 0,
    }
}

pub fn rename_idxtm(y: &Var, z: &Var, i: &IdxTm) -> (r: IdxTm)
    ensures
        r == idx_rename(*y, *z, *i),
    decreases i,
{
    match i {
        IdxTm::Apart(a, b) => IdxTm::Apart(Box::new(rename_idxtm(y, z, a)), Box::new(rename_idxtm(y, z, b))),
        IdxTm::Union(a, b) => IdxTm::Union(Box::new(rename_idxtm(y, z, a)), Box::new(rename_idxtm(y, z, b))),
        IdxTm::Bin(a, b) => IdxTm::Bin(Box::new(rename_idxtm(y, z, a)), Box::new(rename_idxtm(y, z, b))),
        IdxTm::Pair(a, b) => IdxTm::Pair(Box::new(rename_idxtm(y, z, a)), Box::new(rename_idxtm(y, z, b))),
        IdxTm::App(a, b) => IdxTm::App(Box::new(rename_idxtm(y, z, a)), Box::new(rename_idxtm(y, z, b))),
        IdxTm::FlatMap(a, b) => IdxTm::FlatMap(Box::new(rename_idxtm(y, z, a)), Box::new(rename_idxtm(y, z, b))),
        IdxTm::FlatMapStar(a, b) => IdxTm::FlatMapStar(Box::new(rename_idxtm(y, z, a)), Box::new(rename_idxtm(y, z, b))),
        IdxTm::Proj1(a) => IdxTm::Proj1(Box::new(rename_idxtm(y, z, a))),
        IdxTm::Proj2(a) => IdxTm::Proj2(Box::new(rename_idxtm(y, z, a))),
        IdxTm::Var(w) => if w.eq_var(y) { IdxTm::Var(z.dup()) } else { i.dup() },
        IdxTm::Sing(m) => IdxTm::Sing(rename_nmtm(y, z, m)),
        IdxTm::NmTm(m) => IdxTm::NmTm(rename_nmtm(y, z, m)),
        IdxTm::NmMap(m, b) => IdxTm::NmMap(Box::new(rename_nmtm(y, z, m)), Box::new(rename_idxtm(y, z, b))),
        IdxTm::Lam(w, g, b) => {
            if w.eq_var(y) {
                i.dup()
            } else {
                IdxTm::Lam(w.dup(), g.dup(), Box::new(rename_idxtm(y, z, b)))
            }
        },
        _ => i.dup(),
    }
}

fn subst_nmtm_in(r: &IdxTm, x: &Var, m: &NameTm) -> (res: NameTm)
    ensures
        res == nm_subst_in(*r, *x, *m),
{
    match r {
        IdxTm::NmTm(rm) => subst_nmtm(rm, x, m),
        IdxTm::Var(z) => subst_nmtm(&NameTm::Var(z.dup()), x, m),
        _ => m.dup(),
    }
}

/// Substitutes the index term `r` for the variable `x` in `i`.
pub fn subst_idxtm(r: &IdxTm, x: &Var, i: &IdxTm) -> (res: IdxTm)
    ensures
        res == idx_subst(*r, *x, *i),
    decreases idx_size(*i),
{
    match i {
        IdxTm::Apart(a, b) => IdxTm::Apart(Box::new(subst_idxtm(r, x, a)), Box::new(subst_idxtm(r, x, b))),
        IdxTm::Union(a, b) => IdxTm::Union(Box::new(subst_idxtm(r, x, a)), Box::new(subst_idxtm(r, x, b))),
        IdxTm::Bin(a, b) => IdxTm::Bin(Box::new(subst_idxtm(r, x, a)), Box::new(subst_idxtm(r, x, b))),
        IdxTm::Pair(a, b) => IdxTm::Pair(Box::new(subst_idxtm(r, x, a)), Box::new(subst_idxtm(r, x, b))),
        IdxTm::App(a, b) => IdxTm::App(Box::new(subst_idxtm(r, x, a)), Box::new(subst_idxtm(r, x, b))),
        IdxTm::FlatMap(a, b) => IdxTm::FlatMap(Box::new(subst_idxtm(r, x, a)), Box::new(subst_idxtm(r, x, b))),
        IdxTm::FlatMapStar(a, b) => IdxTm::FlatMapStar(Box::new(subst_idxtm(r, x, a)), Box::new(subst_idxtm(r, x, b))),
        IdxTm::Proj1(a) => IdxTm::Proj1(Box::new(subst_idxtm(r, x, a))),
        IdxTm::Proj2(a) => IdxTm::Proj2(Box::new(subst_idxtm(r, x, a))),
        IdxTm::Var(y) => if y.eq_var(x) { r.dup() } else { i.dup() },
        IdxTm::Sing(m) => IdxTm::Sing(subst_nmtm_in(r, x, m)),
        IdxTm::NmTm(m) => IdxTm::NmTm(subst_nmtm_in(r, x, m)),
        IdxTm::NmMap(m, b) => IdxTm::NmMap(Box::new(subst_nmtm_in(r, x, m)), Box::new(subst_idxtm(r, x, b))),
        IdxTm::Lam(y, g, b) => {
            if y.eq_var(x) {
                i.dup()
            } else if occurs_free_idxtm(y, r) && occurs_free_idxtm(x, b) {
                let m = max_u64(max_tag_idxtm(r), max_tag_idxtm(b));
                match make_fresh(y, m) {
                    Some(z) => {
                        let b2 = rename_idxtm(y, &z, b);
                        proof {
                            lemma_idx_rename_size(*y, z, **b);
                        }
                        IdxTm::Lam(z, g.dup(), Box::new(subst_idxtm(r, x, &b2)))
                    },
                    None => IdxTm::Lam(y.dup(), g.dup(), Box::new(subst_idxtm(r, x, b))),
                }
            } else {
                IdxTm::Lam(y.dup(), g.dup(), Box::new(subst_idxtm(r, x, b)))
            }
        },
        _ => i.dup(),
    }
}

// --------------------------------------------------------------------- types

pub open spec fn ty_size(t: Type) -> nat
    decreases t,
{
    match t {
        Type::Sum(a, b) => 1 + ty_size(*a) + ty_size(*b),
        Type::Prod(a, b) => 1 + ty_size(*a) + ty_size(*b),
        Type::TypeApp(a, b) => 1 + ty_size(*a) + ty_size(*b),
        Type::Ref(_, a) => 1 + ty_size(*a),
        Type::Thk(_, a) => 1 + ty_size(*a),
        Type::IdxApp(a, _) => 1 + ty_size(*a),
        Type::TypeFn(_, _, a) => 1 + ty_size(*a),
        Type::IdxFn(_, _, a) => 1 + ty_size(*a),
        Type::Rec(_, a) => 1 + ty_size(*a),
        Type::Exists(_, _, a) => 1 + ty_size(*a),
        _ => 1,
    }
}

/// The largest tag of any variable in `t`, of any sort, bound or free.
pub open spec fn ty_max_tag(t: Type) -> nat
    decreases t,
{
    match t {
        Type::Sum(a, b) => max_nat(ty_max_tag(*a), ty_max_tag(*b)),
        Type::Prod(a, b) => max_nat(ty_max_tag(*a), ty_max_tag(*b)),
        Type::TypeApp(a, b) => max_nat(ty_max_tag(*a), ty_max_tag(*b)),
        Type::Ref(i, a) => max_nat(idx_max_tag(i), ty_max_tag(*a)),
        Type::Thk(i, a) => max_nat(idx_max_tag(i), ty_max_tag(*a)),
        Type::IdxApp(a, i) => max_nat(idx_max_tag(i), ty_max_tag(*a)),
        Type::Nm(i) => idx_max_tag(i),
        Type::NmFn(n) => nm_max_tag(n),
        Type::TypeFn(y, _, a) => max_nat(y.tag as nat, ty_max_tag(*a)),
        Type::IdxFn(y, _, a) => max_nat(y.tag as nat, ty_max_tag(*a)),
        Type::Rec(y, a) => max_nat(y.tag as nat, ty_max_tag(*a)),
        Type::Exists(y, _, a) => max_nat(y.tag as nat, ty_max_tag(*a)),
        Type::Var(y) => y.tag as nat,
        _ => 0,
    }
}

/// Whether the type variable `v` occurs free in `t`.
pub open spec fn ty_free(v: Var, t: Type) -> bool
    decreases t,
{
    match t {
        Type::Sum(a, b) => ty_free(v, *a) || ty_free(v, *b),
        Type::Prod(a, b) => ty_free(v, *a) || ty_free(v, *b),
        Type::TypeApp(a, b) => ty_free(v, *a) || ty_free(v, *b),
        Type::Ref(_, a) => ty_free(v, *a),
        Type::Thk(_, a) => ty_free(v, *a),
        Type::IdxApp(a, _) => ty_free(v, *a),
        Type::TypeFn(y, _, a) => !y.same(&v) && ty_free(v, *a),
        Type::Rec(y, a) => !y.same(&v) && ty_free(v, *a),
        Type::IdxFn(_, _, a) => ty_free(v, *a),
        Type::Exists(_, _, a) => ty_free(v, *a),
        Type::Var(y) => y.same(&v),
        _ => false,
    }
}

/// Whether the index variable `v` occurs free in `t`.
pub open spec fn ty_idx_free(v: Var, t: Type) -> bool
    decreases t,
{
    match t {
        Type::Sum(a, b) => ty_idx_free(v, *a) || ty_idx_free(v, *b),
        Type::Prod(a, b) => ty_idx_free(v, *a) || ty_idx_free(v, *b),
        Type::TypeApp(a, b) => ty_idx_free(v, *a) || ty_idx_free(v, *b),
        Type::Ref(i, a) => idx_free(v, i) || ty_idx_free(v, *a),
        Type::Thk(i, a) => idx_free(v, i) || ty_idx_free(v, *a),
        Type::IdxApp(a, i) => idx_free(v, i) || ty_idx_free(v, *a),
        Type::Nm(i) => idx_free(v, i),
        Type::NmFn(n) => nm_free(v, n),
        Type::IdxFn(y, _, a) => !y.same(&v) && ty_idx_free(v, *a),
        Type::Exists(y, _, a) => !y.same(&v) && ty_idx_free(v, *a),
        Type::TypeFn(_, _, a) => ty_idx_free(v, *a),
        Type::Rec(_, a) => ty_idx_free(v, *a),
        _ => false,
    }
}

/// Renames the free type variable `y` of `t` to the fresh `z`.
pub open spec fn ty_rename(y: Var, z: Var, t: Type) -> Type
    decreases t,
{
    match t {
        Type::Sum(a, b) => Type::Sum(Box::new(ty_rename(y, z, *a)), Box::new(ty_rename(y, z, *b))),
        Type::Prod(a, b) => Type::Prod(Box::new(ty_rename(y, z, *a)), Box::new(ty_rename(y, z, *b))),
        Type::TypeApp(a, b) => Type::TypeApp(Box::new(ty_rename(y, z, *a)), Box::new(ty_rename(y, z, *b))),
        Type::Ref(i, a) => Type::Ref(i, Box::new(ty_rename(y, z, *a))),
        Type::Thk(i, a) => Type::Thk(i, Box::new(ty_rename(y, z, *a))),
        Type::IdxApp(a, i) => Type::IdxApp(Box::new(ty_rename(y, z, *a)), i),
        Type::TypeFn(w, k, a) => if w.same(&y) { t } else { Type::TypeFn(w, k, Box::new(ty_rename(y, z, *a))) },
        Type::Rec(w, a) => if w.same(&y) { t } else { Type::Rec(w, Box::new(ty_rename(y, z, *a))) },
        Type::IdxFn(w, g, a) => Type::IdxFn(w, g, Box::new(ty_rename(y, z, *a))),
        Type::Exists(w, g, a) => Type::Exists(w, g, Box::new(ty_rename(y, z, *a))),
        Type::Var(w) => if w.same(&y) { Type::Var(z) } else { t },
        _ => t,
    }
}

/// Renames the free index variable `y` of `t` to the fresh `z`.
pub open spec fn ty_idx_rename(y: Var, z: Var, t: Type) -> Type
    decreases t,
{
    match t {
        Type::Sum(a, b) => Type::Sum(Box::new(ty_idx_rename(y, z, *a)), Box::new(ty_idx_rename(y, z, *b))),
        Type::Prod(a, b) => Type::Prod(Box::new(ty_idx_rename(y, z, *a)), Box::new(ty_idx_rename(y, z, *b))),
        Type::TypeApp(a, b) => Type::TypeApp(Box::new(ty_idx_rename(y, z, *a)), Box::new(ty_idx_rename(y, z, *b))),
        Type::Ref(i, a) => Type::Ref(idx_rename(y, z, i), Box::new(ty_idx_rename(y, z, *a))),
        Type::Thk(i, a) => Type::Thk(idx_rename(y, z, i), Box::new(ty_idx_rename(y, z, *a))),
        Type::IdxApp(a, i) => Type::IdxApp(Box::new(ty_idx_rename(y, z, *a)), idx_rename(y, z, i)),
        Type::Nm(i) => Type::Nm(idx_rename(y, z, i)),
        Type::NmFn(n) => Type::NmFn(nm_rename(y, z, n)),
        Type::IdxFn(w, g, a) => if w.same(&y) { t } else { Type::IdxFn(w, g, Box::new(ty_idx_rename(y, z, *a))) },
        Type::Exists(w, g, a) => if w.same(&y) { t } else { Type::Exists(w, g, Box::new(ty_idx_rename(y, z, *a))) },
        Type::TypeFn(w, k, a) => Type::TypeFn(w, k, Box::new(ty_idx_rename(y, z, *a))),
        Type::Rec(w, a) => Type::Rec(w, Box::new(ty_idx_rename(y, z, *a))),
        _ => t,
    }
}

pub proof fn lemma_ty_rename_size(y: Var, z: Var, t: Type)
    ensures
        ty_size(ty_rename(y, z, t)) == ty_size(t),
    decreases t,
{
    match t {
        Type::Sum(a, b) => {
            lemma_ty_rename_size(y, z, *a);
            lemma_ty_rename_size(y, z, *b);
        },
        Type::Prod(a, b) => {
            lemma_ty_rename_size(y, z, *a);
            lemma_ty_rename_size(y, z, *b);
        },
        Type::TypeApp(a, b) => {
            lemma_ty_rename_size(y, z, *a);
            lemma_ty_rename_size(y, z, *b);
        },
        Type::Ref(_, a) => lemma_ty_rename_size(y, z, *a),
        Type::Thk(_, a) => lemma_ty_rename_size(y, z, *a),
        Type::IdxApp(a, _) => lemma_ty_rename_size(y, z, *a),
        Type::TypeFn(_, _, a) => lemma_ty_rename_size(y, z, *a),
        Type::IdxFn(_, _, a) => lemma_ty_rename_size(y, z, *a),
        Type::Rec(_, a) => lemma_ty_rename_size(y, z, *a),
        Type::Exists(_, _, a) => lemma_ty_rename_size(y, z, *a),
        _ => {},
    }
}

pub proof fn lemma_ty_idx_rename_size(y: Var, z: Var, t: Type)
    ensures
        ty_size(ty_idx_rename(y, z, t)) == ty_size(t),
    decreases t,
{
    match t {
        Type::Sum(a, b) => {
            lemma_ty_idx_rename_size(y, z, *a);
            lemma_ty_idx_rename_size(y, z, *b);
        },
        Type::Prod(a, b) => {
            lemma_ty_idx_rename_size(y, z, *a);
            lemma_ty_idx_rename_size(y, z, *b);
        },
        Type::TypeApp(a, b) => {
            lemma_ty_idx_rename_size(y, z, *a);
            lemma_ty_idx_rename_size(y, z, *b);
        },
        Type::Ref(_, a) => lemma_ty_idx_rename_size(y, z, *a),
        Type::Thk(_, a) => lemma_ty_idx_rename_size(y, z, *a),
        Type::IdxApp(a, _) => lemma_ty_idx_rename_size(y, z, *a),
        Type::TypeFn(_, _, a) => lemma_ty_idx_rename_size(y, z, *a),
        Type::IdxFn(_, _, a) => lemma_ty_idx_rename_size(y, z, *a),
        Type::Rec(_, a) => lemma_ty_idx_rename_size(y, z, *a),
        Type::Exists(_, _, a) => lemma_ty_idx_rename_size(y, z, *a),
        _ => {},
    }
}

/// `[r/x]t`: capture-avoiding substitution of the type `r` for the type variable `x`.
pub open spec fn ty_subst(r: Type, x: Var, t: Type) -> Type
    decreases ty_size(t),
    via ty_subst_decreases
{
    match t {
        Type::Sum(a, b) => Type::Sum(Box::new(ty_subst(r, x, *a)), Box::new(ty_subst(r, x, *b))),
        Type::Prod(a, b) => Type::Prod(Box::new(ty_subst(r, x, *a)), Box::new(ty_subst(r, x, *b))),
        Type::TypeApp(a, b) => Type::TypeApp(Box::new(ty_subst(r, x, *a)), Box::new(ty_subst(r, x, *b))),
        Type::Ref(i, a) => Type::Ref(i, Box::new(ty_subst(r, x, *a))),
        Type::Thk(i, a) => Type::Thk(i, Box::new(ty_subst(r, x, *a))),
        Type::IdxApp(a, i) => Type::IdxApp(Box::new(ty_subst(r, x, *a)), i),
        Type::IdxFn(y, g, a) => {
            if ty_idx_free(y, r) && ty_free(x, *a) {
                match fresh_for(y, max_nat(ty_max_tag(r), ty_max_tag(*a))) {
                    Some(z) => Type::IdxFn(z, g, Box::new(ty_subst(r, x, ty_idx_rename(y, z, *a)))),
                    None => Type::IdxFn(y, g, Box::new(ty_subst(r, x, *a))),
                }
            } else {
                Type::IdxFn(y, g, Box::new(ty_subst(r, x, *a)))
            }
        },
        Type::Exists(y, g, a) => {
            if ty_idx_free(y, r) && ty_free(x, *a) {
                match fresh_for(y, max_nat(ty_max_tag(r), ty_max_tag(*a))) {
                    Some(z) => Type::Exists(z, g, Box::new(ty_subst(r, x, ty_idx_rename(y, z, *a)))),
                    None => Type::Exists(y, g, Box::new(ty_subst(r, x, *a))),
                }
            } else {
                Type::Exists(y, g, Box::new(ty_subst(r, x, *a)))
            }
        },
        Type::Var(y) => if y.same(&x) { r } else { t },
        Type::TypeFn(y, k, a) => {
            if y.same(&x) {
                t
            } else if ty_free(y, r) && ty_free(x, *a) {
                match fresh_for(y, max_nat(ty_max_tag(r), ty_max_tag(*a))) {
                    Some(z) => Type::TypeFn(z, k, Box::new(ty_subst(r, x, ty_rename(y, z, *a)))),
                    None => Type::TypeFn(y, k, Box::new(ty_subst(r, x, *a))),
                }
            } else {
                Type::TypeFn(y, k, Box::new(ty_subst(r, x, *a)))
            }
        },
        Type::Rec(y, a) => {
            if y.same(&x) {
                t
            } else if ty_free(y, r) && ty_free(x, *a) {
                match fresh_for(y, max_nat(ty_max_tag(r), ty_max_tag(*a))) {
                    Some(z) => Type::Rec(z, Box::new(ty_subst(r, x, ty_rename(y, z, *a)))),
                    None => Type::Rec(y, Box::new(ty_subst(r, x, *a))),
                }
            } else {
                Type::Rec(y, Box::new(ty_subst(r, x, *a)))
            }
        },
        _ => t,
    }
}

#[via_fn]
proof fn ty_subst_decreases(r: Type, x: Var, t: Type) {
    match t {
        Type::IdxFn(y, _, a) => {
            if let Some(z) = fresh_for(y, max_nat(ty_max_tag(r), ty_max_tag(*a))) {
                lemma_ty_idx_rename_size(y, z, *a);
            }
        },
        Type::Exists(y, _, a) => {
            if let Some(z) = fresh_for(y, max_nat(ty_max_tag(r), ty_max_tag(*a))) {
                lemma_ty_idx_rename_size(y, z, *a);
            }
        },
        Type::TypeFn(y, _, a) => {
            if let Some(z) = fresh_for(y, max_nat(ty_max_tag(r), ty_max_tag(*a))) {
                lemma_ty_rename_size(y, z, *a);
            }
        },
        Type::Rec(y, a) => {
            if let Some(z) = fresh_for(y, max_nat(ty_max_tag(r), ty_max_tag(*a))) {
                lemma_ty_rename_size(y, z, *a);
            }
        },
        _ => {},
    }
}

/// `[r/x]t`: capture-avoiding substitution of the index term `r` for the index variable `x`.
pub open spec fn ty_idx_subst(r: IdxTm, x: Var, t: Type) -> Type
    decreases ty_size(t),
    via ty_idx_subst_decreases
{
    match t {
        Type::Sum(a, b) => Type::Sum(Box::new(ty_idx_subst(r, x, *a)), Box::new(ty_idx_subst(r, x, *b))),
        Type::Prod(a, b) => Type::Prod(Box::new(ty_idx_subst(r, x, *a)), Box::new(ty_idx_subst(r, x, *b))),
        Type::TypeApp(a, b) => Type::TypeApp(Box::new(ty_idx_subst(r, x, *a)), Box::new(ty_idx_subst(r, x, *b))),
        Type::Ref(i, a) => Type::Ref(idx_subst(r, x, i), Box::new(ty_idx_subst(r, x, *a))),
        Type::Thk(i, a) => Type::Thk(idx_subst(r, x, i), Box::new(ty_idx_subst(r, x, *a))),
        Type::IdxApp(a, i) => Type::IdxApp(Box::new(ty_idx_subst(r, x, *a)), idx_subst(r, x, i)),
        Type::Nm(i) => Type::Nm(idx_subst(r, x, i)),
        Type::NmFn(n) => Type::NmFn(nm_subst_in(r, x, n)),
        Type::TypeFn(w, k, a) => Type::TypeFn(w, k, Box::new(ty_idx_subst(r, x, *a))),
        Type::Rec(w, a) => Type::Rec(w, Box::new(ty_idx_subst(r, x, *a))),
        Type::IdxFn(y, g, a) => {
            if y.same(&x) {
                t
            } else if idx_free(y, r) && ty_idx_free(x, *a) {
                match fresh_for(y, max_nat(idx_max_tag(r), ty_max_tag(*a))) {
                    Some(z) => Type::IdxFn(z, g, Box::new(ty_idx_subst(r, x, ty_idx_rename(y, z, *a)))),
                    None => Type::IdxFn(y, g, Box::new(ty_idx_subst(r, x, *a))),
                }
            } else {
                Type::IdxFn(y, g, Box::new(ty_idx_subst(r, x, *a)))
            }
        },
        Type::Exists(y, g, a) => {
            if y.same(&x) {
                t
            } else if idx_free(y, r) && ty_idx_free(x, *a) {
                match fresh_for(y, max_nat(idx_max_tag(r), ty_max_tag(*a))) {
                    Some(z) => Type::Exists(z, g, Box::new(ty_idx_subst(r, x, ty_idx_rename(y, z, *a)))),
                    None => Type::Exists(y, g, Box::new(ty_idx_subst(r, x, *a))),
                }
            } else {
                Type::Exists(y, g, Box::new(ty_idx_subst(r, x, *a)))
            }
        },
        _ => t,
    }
}

#[via_fn]
proof fn ty_idx_subst_decreases(r: IdxTm, x: Var, t: Type) {
    match t {
        Type::IdxFn(y, _, a) => {
            if let Some(z) = fresh_for(y, max_nat(idx_max_tag(r), ty_max_tag(*a))) {
                lemma_ty_idx_rename_size(y, z, *a);
            }
        },
        Type::Exists(y, _, a) => {
            if let Some(z) = fresh_for(y, max_nat(idx_max_tag(r), ty_max_tag(*a))) {
                lemma_ty_idx_rename_size(y, z, *a);
            }
        },
        _ => {},
    }
}

pub fn max_tag_type(t: &Type) -> (r: u64)
    ensures
        r as nat == ty_max_tag(*t),
    decreases t,
{
    match t {
        Type::Sum(a, b) => max_u64(max_tag_type(a), max_tag_type(b)),
        Type::Prod(a, b) => max_u64(max_tag_type(a), max_tag_type(b)),
        Type::TypeApp(a, b) => max_u64(max_tag_type(a), max_tag_type(b)),
        Type::Ref(i, a) => max_u64(max_tag_idxtm(i), max_tag_type(a)),
        Type::Thk(i, a) => max_u64(max_tag_idxtm(i), max_tag_type(a)),
        Type::IdxApp(a, i) => max_u64(max_tag_idxtm(i), max_tag_type(a)),
        Type::Nm(i) => max_tag_idxtm(i),
        Type::NmFn(n) => max_tag_nmtm(n),
        Type::TypeFn(y, _, a) => max_u64(y.tag, max_tag_type(a)),
        Type::IdxFn(y, _, a) => max_u64(y.tag, max_tag_type(a)),
        Type::Rec(y, a) => max_u64(y.tag, max_tag_type(a)),
        Type::Exists(y, _, a) => max_u64(y.tag, max_tag_type(a)),
        Type::Var(y) => y.tag,
        _ => 0,
    }
}

pub fn occurs_free_type(v: &Var, t: &Type) -> (r: bool)
    ensures
        r == ty_free(*v, *t),
    decreases t,
{
    match t {
        Type::Sum(a, b) => occurs_free_type(v, a) || occurs_free_type(v, b),
        Type::Prod(a, b) => occurs_free_type(v, a) || occurs_free_type(v, b),
        Type::TypeApp(a, b) => occurs_free_type(v, a) || occurs_free_type(v, b),
        Type::Ref(_, a) => occurs_free_type(v, a),
        Type::Thk(_, a) => occurs_free_type(v, a),
        Type::IdxApp(a, _) => occurs_free_type(v, a),
        Type::TypeFn(y, _, a) => !y.eq_var(v) && occurs_free_type(v, a),
        Type::Rec(y, a) => !y.eq_var(v) && occurs_free_type(v, a),
        Type::IdxFn(_, _, a) => occurs_free_type(v, a),
        Type::Exists(_, _, a) => occurs_free_type(v, a),
        Type::Var(y) => y.eq_var(v),
        _ => false,
    }
}

pub fn occurs_free_idx_type(v: &Var, t: &Type) -> (r: bool)
    ensures
        r == ty_idx_free(*v, *t),
    decreases t,
{
    match t {
        Type::Sum(a, b) => occurs_free_idx_type(v, a) || occurs_free_idx_type(v, b),
        Type::Prod(a, b) => occurs_free_idx_type(v, a) || occurs_free_idx_type(v, b),
        Type::TypeApp(a, b) => occurs_free_idx_type(v, a) || occurs_free_idx_type(v, b),
        Type::Ref(i, a) => occurs_free_idxtm(v, i) || occurs_free_idx_type(v, a),
        Type::Thk(i, a) => occurs_free_idxtm(v, i) || occurs_free_idx_type(v, a),
        Type::IdxApp(a, i) => occurs_free_idxtm(v, i) || occurs_free_idx_type(v, a),
        Type::Nm(i) => occurs_free_idxtm(v, i),
        Type::NmFn(n) => occurs_free_nmtm(v, n),
        Type::IdxFn(y, _, a) => !y.eq_var(v) && occurs_free_idx_type(v, a),
        Type::Exists(y, _, a) => !y.eq_var(v) && occurs_free_idx_type(v, a),
        Type::TypeFn(_, _, a) => occurs_free_idx_type(v, a),
        Type::Rec(_, a) => occurs_free_idx_type(v, a),
        _ => false,
    }
}

pub fn rename_type(y: &Var, z: &Var, t: &Type) -> (r: Type)
    ensures
        r == ty_rename(*y, *z, *t),
    decreases t,
{
    match t {
        Type::Sum(a, b) => Type::Sum(Box::new(rename_type(y, z, a)), Box::new(rename_type(y, z, b))),
        Type::Prod(a, b) => Type::Prod(Box::new(rename_type(y, z, a)), Box::new(rename_type(y, z, b))),
        Type::TypeApp(a, b) => Type::TypeApp(Box::new(rename_type(y, z, a)), Box::new(rename_type(y, z, b))),
        Type::Ref(i, a) => Type::Ref(i.dup(), Box::new(rename_type(y, z, a))),
        Type::Thk(i, a) => Type::Thk(i.dup(), Box::new(rename_type(y, z, a))),
        Type::IdxApp(a, i) => Type::IdxApp(Box::new(rename_type(y, z, a)), i.dup()),
        Type::TypeFn(w, k, a) => if w.eq_var(y) { t.dup() } else { Type::TypeFn(w.dup(), k.dup(), Box::new(rename_type(y, z, a))) },
        Type::Rec(w, a) => if w.eq_var(y) { t.dup() } else { Type::Rec(w.dup(), Box::new(rename_type(y, z, a))) },
        Type::IdxFn(w, g, a) => Type::IdxFn(w.dup(), g.dup(), Box::new(rename_type(y, z, a))),
        Type::Exists(w, g, a) => Type::Exists(w.dup(), Box::new(g.dup()), Box::new(rename_type(y, z, a))),
        Type::Var(w) => if w.eq_var(y) { Type::Var(z.dup()) } else { t.dup() },
        _ => t.dup(),
    }
}

pub fn rename_idx_type(y: &Var, z: &Var, t: &Type) -> (r: Type)
    ensures
        r == ty_idx_rename(*y, *z, *t),
    decreases t,
{
    match t {
        Type::Sum(a, b) => Type::Sum(Box::new(rename_idx_type(y, z, a)), Box::new(rename_idx_type(y, z, b))),
        Type::Prod(a, b) => Type::Prod(Box::new(rename_idx_type(y, z, a)), Box::new(rename_idx_type(y, z, b))),
        Type::TypeApp(a, b) => Type::TypeApp(Box::new(rename_idx_type(y, z, a)), Box::new(rename_idx_type(y, z, b))),
        Type::Ref(i, a) => Type::Ref(rename_idxtm(y, z, i), Box::new(rename_idx_type(y, z, a))),
        Type::Thk(i, a) => Type::Thk(rename_idxtm(y, z, i), Box::new(rename_idx_type(y, z, a))),
        Type::IdxApp(a, i) => Type::IdxApp(Box::new(rename_idx_type(y, z, a)), rename_idxtm(y, z, i)),
        Type::Nm(i) => Type::Nm(rename_idxtm(y, z, i)),
        Type::NmFn(n) => Type::NmFn(rename_nmtm(y, z, n)),
        Type::IdxFn(w, g, a) => if w.eq_var(y) { t.dup() } else { Type::IdxFn(w.dup(), g.dup(), Box::new(rename_idx_type(y, z, a))) },
        Type::Exists(w, g, a) => if w.eq_var(y) { t.dup() } else { Type::Exists(w.dup(), Box::new(g.dup()), Box::new(rename_idx_type(y, z, a))) },
        Type::TypeFn(w, k, a) => Type::TypeFn(w.dup(), k.dup(), Box::new(rename_idx_type(y, z, a))),
        Type::Rec(w, a) => Type::Rec(w.dup(), Box::new(rename_idx_type(y, z, a))),
        _ => t.dup(),
    }
}

/// Substitutes the type `r` for the type variable `x` in `t`.
pub fn subst_type_type(r: &Type, x: &Var, t: &Type) -> (res: Type)
    ensures
        res == ty_subst(*r, *x, *t),
    decreases ty_size(*t),
{
    match t {
        Type::Sum(a, b) => Type::Sum(Box::new(subst_type_type(r, x, a)), Box::new(subst_type_type(r, x, b))),
        Type::Prod(a, b) => Type::Prod(Box::new(subst_type_type(r, x, a)), Box::new(subst_type_type(r, x, b))),
        Type::TypeApp(a, b) => Type::TypeApp(Box::new(subst_type_type(r, x, a)), Box::new(subst_type_type(r, x, b))),
        Type::Ref(i, a) => Type::Ref(i.dup(), Box::new(subst_type_type(r, x, a))),
        Type::Thk(i, a) => Type::Thk(i.dup(), Box::new(subst_type_type(r, x, a))),
        Type::IdxApp(a, i) => Type::IdxApp(Box::new(subst_type_type(r, x, a)), i.dup()),
        Type::IdxFn(y, g, a) => {
            if occurs_free_idx_type(y, r) && occurs_free_type(x, a) {
                let m = max_u64(max_tag_type(r), max_tag_type(a));
                match make_fresh(y, m) {
                    Some(z) => {
                        let a2 = rename_idx_type(y, &z, a);
                        proof {
                            lemma_ty_idx_rename_size(*y, z, **a);
                        }
                        Type::IdxFn(z, g.dup(), Box::new(subst_type_type(r, x, &a2)))
                    },
                    None => Type::IdxFn(y.dup(), g.dup(), Box::new(subst_type_type(r, x, a))),
                }
            } else {
                Type::IdxFn(y.dup(), g.dup(), Box::new(subst_type_type(r, x, a)))
            }
        },
        Type::Exists(y, g, a) => {
            if occurs_free_idx_type(y, r) && occurs_free_type(x, a) {
                let m = max_u64(max_tag_type(r), max_tag_type(a));
                match make_fresh(y, m) {
                    Some(z) => {
                        let a2 = rename_idx_type(y, &z, a);
                        proof {
                            lemma_ty_idx_rename_size(*y, z, **a);
                        }
                        Type::Exists(z, Box::new(g.dup()), Box::new(subst_type_type(r, x, &a2)))
                    },
                    None => Type::Exists(y.dup(), Box::new(g.dup()), Box::new(subst_type_type(r, x, a))),
                }
            } else {
                Type::Exists(y.dup(), Box::new(g.dup()), Box::new(subst_type_type(r, x, a)))
            }
        },
        Type::Var(y) => if y.eq_var(x) { r.dup() } else { t.dup() },
        Type::TypeFn(y, k, a) => {
            if y.eq_var(x) {
                t.dup()
            } else if occurs_free_type(y, r) && occurs_free_type(x, a) {
                let m = max_u64(max_tag_type(r), max_tag_type(a));
                match make_fresh(y, m) {
                    Some(z) => {
                        let a2 = rename_type(y, &z, a);
                        proof {
                            lemma_ty_rename_size(*y, z, **a);
                        }
                        Type::TypeFn(z, k.dup(), Box::new(subst_type_type(r, x, &a2)))
                    },
                    None => Type::TypeFn(y.dup(), k.dup(), Box::new(subst_type_type(r, x, a))),
                }
            } else {
                Type::TypeFn(y.dup(), k.dup(), Box::new(subst_type_type(r, x, a)))
            }
        },
        Type::Rec(y, a) => {
            if y.eq_var(x) {
                t.dup()
            } else if occurs_free_type(y, r) && occurs_free_type(x, a) {
                let m = max_u64(max_tag_type(r), max_tag_type(a));
                match make_fresh(y, m) {
                    Some(z) => {
                        let a2 = rename_type(y, &z, a);
                        proof {
                            lemma_ty_rename_size(*y, z, **a);
                        }
                        Type::Rec(z, Box::new(subst_type_type(r, x, &a2)))
                    },
                    None => Type::Rec(y.dup(), Box::new(subst_type_type(r, x, a))),
                }
            } else {
                Type::Rec(y.dup(), Box::new(subst_type_type(r, x, a)))
            }
        },
        _ => t.dup(),
    }
}

/// Substitutes the index term `r` for the index variable `x` in `t`.
pub fn subst_idxtm_type(r: &IdxTm, x: &Var, t: &Type) -> (res: Type)
    ensures
        res == ty_idx_subst(*r, *x, *t),
    decreases ty_size(*t),
{
    match t {
        Type::Sum(a, b) => Type::Sum(Box::new(subst_idxtm_type(r, x, a)), Box::new(subst_idxtm_type(r, x, b))),
        Type::Prod(a, b) => Type::Prod(Box::new(subst_idxtm_type(r, x, a)), Box::new(subst_idxtm_type(r, x, b))),
        Type::TypeApp(a, b) => Type::TypeApp(Box::new(subst_idxtm_type(r, x, a)), Box::new(subst_idxtm_type(r, x, b))),
        Type::Ref(i, a) => Type::Ref(subst_idxtm(r, x, i), Box::new(subst_idxtm_type(r, x, a))),
        Type::Thk(i, a) => Type::Thk(subst_idxtm(r, x, i), Box::new(subst_idxtm_type(r, x, a))),
        Type::IdxApp(a, i) => Type::IdxApp(Box::new(subst_idxtm_type(r, x, a)), subst_idxtm(r, x, i)),
        Type::Nm(i) => Type::Nm(subst_idxtm(r, x, i)),
        Type::NmFn(n) => Type::NmFn(subst_nmtm_in(r, x, n)),
        Type::TypeFn(w, k, a) => Type::TypeFn(w.dup(), k.dup(), Box::new(subst_idxtm_type(r, x, a))),
        Type::Rec(w, a) => Type::Rec(w.dup(), Box::new(subst_idxtm_type(r, x, a))),
        Type::IdxFn(y, g, a) => {
            if y.eq_var(x) {
                t.dup()
            } else if occurs_free_idxtm(y, r) && occurs_free_idx_type(x, a) {
                let m = max_u64(max_tag_idxtm(r), max_tag_type(a));
                match make_fresh(y, m) {
                    Some(z) => {
                        let a2 = rename_idx_type(y, &z, a);
                        proof {
                            lemma_ty_idx_rename_size(*y, z, **a);
                        }
                        Type::IdxFn(z, g.dup(), Box::new(subst_idxtm_type(r, x, &a2)))
                    },
                    None => Type::IdxFn(y.dup(), g.dup(), Box::new(subst_idxtm_type(r, x, a))),
                }
            } else {
                Type::IdxFn(y.dup(), g.dup(), Box::new(subst_idxtm_type(r, x, a)))
            }
        },
        Type::Exists(y, g, a) => {
            if y.eq_var(x) {
                t.dup()
            } else if occurs_free_idxtm(y, r) && occurs_free_idx_type(x, a) {
                let m = max_u64(max_tag_idxtm(r), max_tag_type(a));
                match make_fresh(y, m) {
                    Some(z) => {
                        let a2 = rename_idx_type(y, &z, a);
                        proof {
                            lemma_ty_idx_rename_size(*y, z, **a);
                        }
                        Type::Exists(z, Box::new(g.dup()), Box::new(subst_idxtm_type(r, x, &a2)))
                    },
                    None => Type::Exists(y.dup(), Box::new(g.dup()), Box::new(subst_idxtm_type(r, x, a))),
                }
            } else {
                Type::Exists(y.dup(), Box::new(g.dup()), Box::new(subst_idxtm_type(r, x, a)))
            }
        },
        _ => t.dup(),
    }
}

// ------------------------------------------------------------------ freshness

proof fn lemma_nm_free_tag(v: Var, n: NameTm)
    ensures
        nm_free(v, n) ==> v.tag <= nm_max_tag(n),
    decreases n,
{
    match n {
        NameTm::Bin(a, b) => {
            lemma_nm_free_tag(v, *a);
            lemma_nm_free_tag(v, *b);
        },
        NameTm::App(a, b) => {
            lemma_nm_free_tag(v, *a);
            lemma_nm_free_tag(v, *b);
        },
        NameTm::Lam(_, _, b) => lemma_nm_free_tag(v, *b),
        _ => {},
    }
}

proof fn lemma_idx_free_tag(v: Var, i: IdxTm)
    ensures
        idx_free(v, i) ==> v.tag <= idx_max_tag(i),
    decreases i,
{
    match i {
        IdxTm::Apart(a, b) => {
            lemma_idx_free_tag(v, *a);
            lemma_idx_free_tag(v, *b);
        },
        IdxTm::Union(a, b) => {
            lemma_idx_free_tag(v, *a);
            lemma_idx_free_tag(v, *b);
        },
        IdxTm::Bin(a, b) => {
            lemma_idx_free_tag(v, *a);
            lemma_idx_free_tag(v, *b);
        },
        IdxTm::Pair(a, b) => {
            lemma_idx_free_tag(v, *a);
            lemma_idx_free_tag(v, *b);
        },
        IdxTm::App(a, b) => {
            lemma_idx_free_tag(v, *a);
            lemma_idx_free_tag(v, *b);
        },
        IdxTm::FlatMap(a, b) => {
            lemma_idx_free_tag(v, *a);
            lemma_idx_free_tag(v, *b);
        },
        IdxTm::FlatMapStar(a, b) => {
            lemma_idx_free_tag(v, *a);
            lemma_idx_free_tag(v, *b);
        },
        IdxTm::Proj1(a) => lemma_idx_free_tag(v, *a),
        IdxTm::Proj2(a) => lemma_idx_free_tag(v, *a),
        IdxTm::Lam(_, _, b) => lemma_idx_free_tag(v, *b),
        IdxTm::Sing(m) => lemma_nm_free_tag(v, m),
        IdxTm::NmTm(m) => lemma_nm_free_tag(v, m),
        IdxTm::NmMap(m, b) => {
            lemma_nm_free_tag(v, *m);
            lemma_idx_free_tag(v, *b);
        },
        _ => {},
    }
}

proof fn lemma_ty_free_tag(v: Var, t: Type)
    ensures
        ty_free(v, t) ==> v.tag <= ty_max_tag(t),
        ty_idx_free(v, t) ==> v.tag <= ty_max_tag(t),
    decreases t,
{
    match t {
        Type::Sum(a, b) => {
            lemma_ty_free_tag(v, *a);
            lemma_ty_free_tag(v, *b);
        },
        Type::Prod(a, b) => {
            lemma_ty_free_tag(v, *a);
            lemma_ty_free_tag(v, *b);
        },
        Type::TypeApp(a, b) => {
            lemma_ty_free_tag(v, *a);
            lemma_ty_free_tag(v, *b);
        },
        Type::Ref(i, a) => {
            lemma_idx_free_tag(v, i);
            lemma_ty_free_tag(v, *a);
        },
        Type::Thk(i, a) => {
            lemma_idx_free_tag(v, i);
            lemma_ty_free_tag(v, *a);
        },
        Type::IdxApp(a, i) => {
            lemma_idx_free_tag(v, i);
            lemma_ty_free_tag(v, *a);
        },
        Type::Nm(i) => lemma_idx_free_tag(v, i),
        Type::NmFn(n) => lemma_nm_free_tag(v, n),
        Type::TypeFn(_, _, a) => lemma_ty_free_tag(v, *a),
        Type::IdxFn(_, _, a) => lemma_ty_free_tag(v, *a),
        Type::Rec(_, a) => lemma_ty_free_tag(v, *a),
        Type::Exists(_, _, a) => lemma_ty_free_tag(v, *a),
        _ => {},
    }
}

/// The variable that a capturing binder of a name term is renamed to
/// occurs free neither in the replacement nor in the binder's body.
pub proof fn law_nm_rename_fresh(y: Var, r: NameTm, b: NameTm)
    ensures
        fresh_for(y, max_nat(nm_max_tag(r), nm_max_tag(b))) matches Some(z) ==> !nm_free(z, r) && !nm_free(z, b),
{
    if let Some(z) = fresh_for(y, max_nat(nm_max_tag(r), nm_max_tag(b))) {
        lemma_nm_free_tag(z, r);
        lemma_nm_free_tag(z, b);
    }
}

/// The variable that a capturing binder of an index term is renamed to
/// occurs free neither in the replacement nor in the binder's body.
pub proof fn law_idx_rename_fresh(y: Var, r: IdxTm, b: IdxTm)
    ensures
        fresh_for(y, max_nat(idx_max_tag(r), idx_max_tag(b))) matches Some(z) ==> !idx_free(z, r) && !idx_free(z, b),
{
    if let Some(z) = fresh_for(y, max_nat(idx_max_tag(r), idx_max_tag(b))) {
        lemma_idx_free_tag(z, r);
        lemma_idx_free_tag(z, b);
    }
}

/// The variable that a capturing binder of a type is renamed to occurs
/// free neither in the replacement (a type or an index term) nor in the
/// binder's body.
pub proof fn law_ty_rename_fresh(y: Var, r: Type, ri: IdxTm, b: Type)
    ensures
        fresh_for(y, max_nat(ty_max_tag(r), ty_max_tag(b))) matches Some(z) ==> !ty_free(z, r) && !ty_free(z, b)
            && !ty_idx_free(z, r) && !ty_idx_free(z, b),
        fresh_for(y, max_nat(idx_max_tag(ri), ty_max_tag(b))) matches Some(z) ==> !idx_free(z, ri) && !ty_idx_free(z, b),
{
    if let Some(z) = fresh_for(y, max_nat(ty_max_tag(r), ty_max_tag(b))) {
        lemma_ty_free_tag(z, r);
        lemma_ty_free_tag(z, b);
    }
    if let Some(z) = fresh_for(y, max_nat(idx_max_tag(ri), ty_max_tag(b))) {
        lemma_idx_free_tag(z, ri);
        lemma_ty_free_tag(z, b);
    }
}

} // verus!
