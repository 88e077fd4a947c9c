//! Static (typing-time) term reduction and normalization.
use vstd::prelude::*;
use crate::ast::{IdxTm, NameTm, Name, Sort, Type, Var};
use crate::ctx::{Ctx, lookup_idx, lookup_type};
use crate::subst::{
    idx_subst, nm_subst, subst_idxtm, subst_idxtm_type, subst_nmtm, subst_type_type, ty_idx_subst,
    ty_subst,
};

verus! {

// --------------------------------------------------------------------- types

/// Why a type does not normalize.
#[derive(Debug, PartialEq, Eq)]
pub enum TypeNormErr {
    /// a user-defined type name with no definition in the context
    Undefined(String),
    /// a type-type application whose head normalizes to this non-function
    NotTypeFn(Type),
    /// a type-index application whose head normalizes to this non-function
    NotIdxFn(Type),
    /// the context's reduction budget ran out
    OutOfFuel,
}

/// The primitive type names, which have no definition.
pub open spec fn is_builtin_type(s: Seq<char>) -> bool {
    s == "Nat"@ || s == "Bool"@ || s == "String"@
}

/// `unroll(rec x. A) = [rec x. A / x] A`; other types are left alone.
pub open spec fn unroll(t: Type) -> Type {
    match t {
        Type::Rec(x, a) => ty_subst(t, x, *a),
        _ => t,
    }
}

/// Head-normal types: no definition to expand and no application at the root.
pub open spec fn is_normal_type(t: Type) -> bool {
    match t {
        Type::Ident(s) => is_builtin_type(s@),
        Type::TypeApp(_, _) => false,
        Type::IdxApp(_, _) => false,
        _ => true,
    }
}

/// Normalization of `t` under the type definitions `defs`, with `fuel`
/// definition unfoldings and beta steps along each path.
pub open spec fn type_norm(defs: Seq<(String, Type)>, t: Type, fuel: nat) -> Result<Type, TypeNormErr>
    decreases fuel, t,
{
    match t {
        Type::Ident(s) => {
            if is_builtin_type(s@) {
                Ok(t)
            } else {
                match lookup_type(defs, s@) {
                    Some(a) => if fuel == 0 { Err(TypeNormErr::OutOfFuel) } else { type_norm(defs, a, (fuel - 1) as nat) },
                    None => Err(TypeNormErr::Undefined(s)),
                }
            }
        },
        Type::TypeApp(a, b) => {
            match type_norm(defs, *a, fuel) {
                Err(e) => Err(e),
                Ok(a1) => {
                    match unroll(a1) {
                        Type::TypeFn(x, _, body) => {
                            if fuel == 0 {
                                Err(TypeNormErr::OutOfFuel)
                            } else {
                                type_norm(defs, ty_subst(*b, x, *body), (fuel - 1) as nat)
                            }
                        },
                        h => Err(TypeNormErr::NotTypeFn(h)),
                    }
                },
            }
        },
        Type::IdxApp(a, i) => {
            match type_norm(defs, *a, fuel) {
                Err(e) => Err(e),
                Ok(a1) => {
                    match unroll(a1) {
                        Type::IdxFn(x, _, body) => {
                            if fuel == 0 {
                                Err(TypeNormErr::OutOfFuel)
                            } else {
                                type_norm(defs, ty_idx_subst(i, x, *body), (fuel - 1) as nat)
                            }
                        },
                        h => Err(TypeNormErr::NotIdxFn(h)),
                    }
                },
            }
        },
        _ => Ok(t),
    }
}

fn is_builtin_type_name(s: &String) -> (r: bool)
    ensures
        r == is_builtin_type(s@),
{
    let nat_s = "Nat".to_string();
    let bool_s = "Bool".to_string();
    let string_s = "String".to_string();
    *s == nat_s || *s == bool_s || *s == string_s
}

/// Unroll a `rec` type one step, exposing its body with the recursive
/// type substituted for the bound variable. Any other type is returned
/// unchanged.
pub fn unroll_type(typ: &Type) -> (r: Type)
    ensures
        r == unroll(*typ),
        !(typ is Rec) ==> r == *typ,
{
    match typ {
        Type::Rec(x, a) => subst_type_type(typ, x, a),
        _ => typ.dup(),
    }
}

fn normal_type_fuel(ctx: &Ctx, typ: &Type, fuel: u64) -> (r: Result<Type, TypeNormErr>)
    ensures
        r == type_norm(ctx.type_defs@, *typ, fuel as nat),
    decreases fuel, typ,
{
    match typ {
        Type::Ident(s) => {
            if is_builtin_type_name(s) {
                Ok(typ.dup())
            } else {
                match ctx.lookup_type_def(s) {
                    Some(a) => {
                        if fuel == 0 {
                            Err(TypeNormErr::OutOfFuel)
                        } else {
                            normal_type_fuel(ctx, &a, fuel - 1)
                        }
                    },
                    None => Err(TypeNormErr::Undefined(s.clone())),
                }
            }
        },
        Type::TypeApp(a, b) => {
            let a1 = match normal_type_fuel(ctx, a, fuel) {
                Ok(a1) => a1,
                Err(e) => { return Err(e); },
            };
            let h = unroll_type(&a1);
            match h {
                Type::TypeFn(x, _, body) => {
                    if fuel == 0 {
                        Err(TypeNormErr::OutOfFuel)
                    } else {
                        let t2 = subst_type_type(b, &x, &body);
                        normal_type_fuel(ctx, &t2, fuel - 1)
                    }
                },
                h => Err(TypeNormErr::NotTypeFn(h)),
            }
        },
        Type::IdxApp(a, i) => {
            let a1 = match normal_type_fuel(ctx, a, fuel) {
                Ok(a1) => a1,
                Err(e) => { return Err(e); },
            };
            let h = unroll_type(&a1);
            match h {
                Type::IdxFn(x, _, body) => {
                    if fuel == 0 {
                        Err(TypeNormErr::OutOfFuel)
                    } else {
                        let t2 = subst_idxtm_type(i, &x, &body);
                        normal_type_fuel(ctx, &t2, fuel - 1)
                    }
                },
                h => Err(TypeNormErr::NotIdxFn(h)),
            }
        },
        _ => Ok(typ.dup()),
    }
}

/// Normalize a type: expand definitions of user-defined type names and
/// reduce type-type and type-index applications, unrolling a recursive
/// head one step, until the head is normal. The argument of an
/// application is substituted as given and normalized only as part of
/// the result.
///
/// The primitives `Nat`, `Bool` and `String` are normal. A name with no
/// definition, an application whose head is not a function of the right
/// kind, and an exhausted reduction budget are reported as errors.
pub fn normal_type(ctx: &Ctx, typ: &Type) -> (r: Result<Type, TypeNormErr>)
    ensures
        r == type_norm(ctx.type_defs@, *typ, ctx.fuel as nat),
        r matches Ok(t) ==> is_normal_type(t),
        is_normal_type(*typ) ==> r == Ok::<Type, TypeNormErr>(*typ),
{
    proof {
        lemma_type_norm_is_normal(ctx.type_defs@, *typ, ctx.fuel as nat);
    }
    normal_type_fuel(ctx, typ, ctx.fuel)
}

/// Unrolling a recursive type whose body is head-normal, and headed by
/// neither a variable nor another `rec`, gives a type that normalizes to
/// itself and that a second unroll leaves unchanged: nothing unrolls
/// again without an explicit call.
pub proof fn law_unroll_then_normalize_stable(defs: Seq<(String, Type)>, x: Var, a: Type, fuel: nat)
    requires
        is_normal_type(a),
        !(a is Var),
        !(a is Rec),
    ensures
        is_normal_type(unroll(Type::Rec(x, Box::new(a)))),
        type_norm(defs, unroll(Type::Rec(x, Box::new(a))), fuel) == Ok::<Type, TypeNormErr>(unroll(Type::Rec(x, Box::new(a)))),
        unroll(unroll(Type::Rec(x, Box::new(a)))) == unroll(Type::Rec(x, Box::new(a))),
{
    let t = Type::Rec(x, Box::new(a));
    assert(unroll(t) == ty_subst(t, x, a));
    lemma_type_norm_is_normal(defs, unroll(t), fuel);
}

/// A successful normalization ends at a head-normal type.
pub proof fn lemma_type_norm_is_normal(defs: Seq<(String, Type)>, t: Type, fuel: nat)
    ensures
        type_norm(defs, t, fuel) matches Ok(b) ==> is_normal_type(b),
    decreases fuel, t,
{
    match t {
        Type::Ident(s) => {
            if !is_builtin_type(s@) {
                if let Some(a) = lookup_type(defs, s@) {
                    if fuel > 0 {
                        lemma_type_norm_is_normal(defs, a, (fuel - 1) as nat);
                    }
                }
            }
        },
        Type::TypeApp(a, b) => {
            lemma_type_norm_is_normal(defs, *a, fuel);
            if let Ok(a1) = type_norm(defs, *a, fuel) {
                if let Type::TypeFn(x, _, body) = unroll(a1) {
                    if fuel > 0 {
                        lemma_type_norm_is_normal(defs, ty_subst(*b, x, *body), (fuel - 1) as nat);
                    }
                }
            }
        },
        Type::IdxApp(a, i) => {
            lemma_type_norm_is_normal(defs, *a, fuel);
            if let Ok(a1) = type_norm(defs, *a, fuel) {
                if let Type::IdxFn(x, _, body) = unroll(a1) {
                    if fuel > 0 {
                        lemma_type_norm_is_normal(defs, ty_idx_subst(i, x, *body), (fuel - 1) as nat);
                    }
                }
            }
        },
        _ => {},
    }
}

/// A type whose normalization does not run out of budget normalizes to
/// the same result, or fails with the same error, under any larger budget.
pub proof fn law_type_norm_budget(defs: Seq<(String, Type)>, t: Type, fuel: nat, fuel2: nat)
    requires
        type_norm(defs, t, fuel) != Err::<Type, TypeNormErr>(TypeNormErr::OutOfFuel),
        fuel <= fuel2,
    ensures
        type_norm(defs, t, fuel2) == type_norm(defs, t, fuel),
    decreases fuel2 - fuel,
{
    if fuel < fuel2 {
        lemma_type_norm_step(defs, t, fuel);
        law_type_norm_budget(defs, t, fuel + 1, fuel2);
    }
}

proof fn lemma_type_norm_step(defs: Seq<(String, Type)>, t: Type, fuel: nat)
    requires
        type_norm(defs, t, fuel) != Err::<Type, TypeNormErr>(TypeNormErr::OutOfFuel),
    ensures
        type_norm(defs, t, fuel + 1) == type_norm(defs, t, fuel),
    decreases fuel, t,
{
    match t {
        Type::Ident(s) => {
            if !is_builtin_type(s@) {
                if let Some(a) = lookup_type(defs, s@) {
                    lemma_type_norm_step(defs, a, (fuel - 1) as nat);
                }
            }
        },
        Type::TypeApp(a, b) => {
            lemma_type_norm_step(defs, *a, fuel);
            if let Ok(a1) = type_norm(defs, *a, fuel) {
                if let Type::TypeFn(x, _, body) = unroll(a1) {
                    lemma_type_norm_step(defs, ty_subst(*b, x, *body), (fuel - 1) as nat);
                }
            }
        },
        Type::IdxApp(a, i) => {
            lemma_type_norm_step(defs, *a, fuel);
            if let Ok(a1) = type_norm(defs, *a, fuel) {
                if let Type::IdxFn(x, _, body) = unroll(a1) {
                    lemma_type_norm_step(defs, ty_idx_subst(i, x, *body), (fuel - 1) as nat);
                }
            }
        },
        _ => {},
    }
}

/// Normalizing a type twice gives what normalizing it once gave: when
/// `t` normalizes to `b`, `b` normalizes to itself under any context
/// and budget.
pub proof fn law_normal_type_idempotent(
    defs: Seq<(String, Type)>,
    t: Type,
    fuel: nat,
    defs2: Seq<(String, Type)>,
    fuel2: nat,
)
    requires
        type_norm(defs, t, fuel) is Ok,
    ensures
        type_norm(defs2, type_norm(defs, t, fuel)->Ok_0, fuel2) == type_norm(defs, t, fuel),
{
    lemma_type_norm_is_normal(defs, t, fuel);
}

// ---------------------------------------------------------------- name terms

/// Variables, literals and lambdas are normal; applications, binary
/// combinations, the write scope and unparsed fragments are not.
pub open spec fn is_normal_nm(n: NameTm) -> bool {
    n is Var || n is Name || n is Lam
}

/// Why a name term does not normalize.
#[derive(Debug, PartialEq, Eq)]
pub enum NmNormErr {
    /// the context's reduction budget ran out before a beta step
    OutOfFuel,
}

/// Normalization of a name term with `fuel` beta steps along each path.
/// A combination or application that does not reduce is returned as it
/// was given; a beta step that the budget cannot pay for is an error.
pub open spec fn nm_norm(n: NameTm, fuel: nat) -> Result<NameTm, NmNormErr>
    decreases fuel, n,
{
    if is_normal_nm(n) {
        Ok(n)
    } else {
        match n {
            NameTm::Bin(a, b) => {
                match (nm_norm(*a, fuel), nm_norm(*b, fuel)) {
                    (Err(e), _) => Err(e),
                    (_, Err(e)) => Err(e),
                    (Ok(NameTm::Name(p)), Ok(NameTm::Name(q))) => Ok(NameTm::Name(Name::Bin(Box::new(p), Box::new(q)))),
                    _ => Ok(n),
                }
            },
            NameTm::App(a, b) => {
                match nm_norm(*a, fuel) {
                    Err(e) => Err(e),
                    Ok(NameTm::Lam(x, _, body)) => {
                        if fuel == 0 {
                            Err(NmNormErr::OutOfFuel)
                        } else {
                            match nm_norm(*b, fuel) {
                                Err(e) => Err(e),
                                Ok(b1) => nm_norm(nm_subst(b1, x, *body), (fuel - 1) as nat),
                            }
                        }
                    },
                    Ok(_) => Ok(n),
                }
            },
            _ => Ok(n),
        }
    }
}

pub fn is_normal_nmtm(ctx: &Ctx, n: &NameTm) -> (r: bool)
    ensures
        r == is_normal_nm(*n),
{
    match n {
        NameTm::Var(_) | NameTm::Name(_) | NameTm::Lam(_, _, _) => true,
        NameTm::Bin(_, _) | NameTm::App(_, _) => false,
        NameTm::NoParse(_) | NameTm::WriteScope => false,
    }
}

fn normal_nmtm_fuel(ctx: &Ctx, n: &NameTm, fuel: u64) -> (r: Result<NameTm, NmNormErr>)
    ensures
        r == nm_norm(*n, fuel as nat),
    decreases fuel, n,
{
    if is_normal_nmtm(ctx, n) {
        return Ok(n.dup());
    }
    match n {
        NameTm::Bin(a, b) => {
            let a1 = normal_nmtm_fuel(ctx, a, fuel);
            let b1 = normal_nmtm_fuel(ctx, b, fuel);
            match (a1, b1) {
                (Err(e), _) => Err(e),
                (_, Err(e)) => Err(e),
                (Ok(NameTm::Name(p)), Ok(NameTm::Name(q))) => Ok(NameTm::Name(Name::Bin(Box::new(p), Box::new(q)))),
                _ => Ok(n.dup()),
            }
        },
        NameTm::App(a, b) => {
            match normal_nmtm_fuel(ctx, a, fuel) {
                Err(e) => Err(e),
                Ok(NameTm::Lam(x, _, body)) => {
                    if fuel == 0 {
                        Err(NmNormErr::OutOfFuel)
                    } else {
                        let b1 = normal_nmtm_fuel(ctx, b, fuel)?;
                        let m = subst_nmtm(&b1, &x, &body);
                        normal_nmtm_fuel(ctx, &m, fuel - 1)
                    }
                },
                Ok(_) => Ok(n.dup()),
            }
        },
        _ => Ok(n.dup()),
    }
}

/// Normalize a name term: a binary combination of two literal names
/// becomes the literal of their combination, and an application whose
/// function normalizes to a lambda is beta-reduced to normal form. A
/// term that does not reduce comes back as it was given. Each path may
/// take at most the context's budget of beta steps; a step beyond it
/// gives `OutOfFuel`.
pub fn normal_nmtm(ctx: &Ctx, n: NameTm) -> (r: Result<NameTm, NmNormErr>)
    ensures
        r == nm_norm(n, ctx.fuel as nat),
        is_normal_nm(n) ==> r == Ok::<NameTm, NmNormErr>(n),
{
    normal_nmtm_fuel(ctx, &n, ctx.fuel)
}

pub fn normal_nmtm_rec(ctx: &Ctx, n: Box<NameTm>) -> (r: Result<Box<NameTm>, NmNormErr>)
    ensures
        r matches Ok(m) ==> nm_norm(*n, ctx.fuel as nat) == Ok::<NameTm, NmNormErr>(*m),
        r matches Err(e) ==> nm_norm(*n, ctx.fuel as nat) == Err::<NameTm, NmNormErr>(e),
{
    let m = normal_nmtm(ctx, *n)?;
    Ok(Box::new(m))
}

/// A name term that normalizes within a budget normalizes to the same
/// term within any larger budget.
pub proof fn law_nm_norm_budget(n: NameTm, fuel: nat, fuel2: nat)
    requires
        nm_norm(n, fuel) is Ok,
        fuel <= fuel2,
    ensures
        nm_norm(n, fuel2) == nm_norm(n, fuel),
    decreases fuel2 - fuel,
{
    if fuel < fuel2 {
        lemma_nm_norm_step(n, fuel);
        law_nm_norm_budget(n, fuel + 1, fuel2);
    }
}

proof fn lemma_nm_norm_step(n: NameTm, fuel: nat)
    requires
        nm_norm(n, fuel) is Ok,
    ensures
        nm_norm(n, fuel + 1) == nm_norm(n, fuel),
    decreases fuel, n,
{
    if !is_normal_nm(n) {
        match n {
            NameTm::Bin(a, b) => {
                if nm_norm(*a, fuel) is Ok {
                    lemma_nm_norm_step(*a, fuel);
                }
                if nm_norm(*b, fuel) is Ok {
                    lemma_nm_norm_step(*b, fuel);
                }
            },
            NameTm::App(a, b) => {
                lemma_nm_norm_step(*a, fuel);
                if let Ok(NameTm::Lam(x, _, body)) = nm_norm(*a, fuel) {
                    lemma_nm_norm_step(*b, fuel);
                    let b1 = nm_norm(*b, fuel)->Ok_0;
                    lemma_nm_norm_step(nm_subst(b1, x, *body), (fuel - 1) as nat);
                }
            },
            _ => {},
        }
    }
}

// ----------------------------------------------------------- apart-normal form

/// One piece of an apart-normal name set.
#[derive(Debug, PartialEq, Eq)]
pub enum NmSetTm {
    /// the singleton set of a name term
    Single(NameTm),
    /// a set that does not decompose further, as an index term
    Subset(IdxTm),
}

impl NmSetTm {
    pub fn dup(&self) -> (r: NmSetTm)
        ensures
            r == *self,
    {
        match self {
            NmSetTm::Single(m) => NmSetTm::Single(m.dup()),
            NmSetTm::Subset(i) => NmSetTm::Subset(i.dup()),
        }
    }
}

/// A flat-mapped function `f`, whose value is `fv`, applied to one piece.
/// When `f` evaluates to a lambda (written out, or through definitions),
/// the lambda's body is applied to a singleton's name term. A symbolic
/// piece, or any piece under a function that is not known to be a lambda,
/// keeps `f` wrapped around it.
pub open spec fn flat_map_piece(f: IdxTm, fv: Result<IdxVal, IdxEvalErr>, p: NmSetTm) -> NmSetTm {
    match p {
        NmSetTm::Single(m) => match fv {
            Ok(IdxVal::Lam(y, _, body)) => NmSetTm::Subset(idx_subst(IdxTm::NmTm(m), y, *body)),
            _ => NmSetTm::Subset(IdxTm::FlatMap(Box::new(f), Box::new(IdxTm::Sing(m)))),
        },
        NmSetTm::Subset(j) => NmSetTm::Subset(IdxTm::FlatMap(Box::new(f), Box::new(j))),
    }
}

/// A mapped name function `g` applied to one piece: a singleton's name is
/// replaced by the normal form of `g` applied to it (by that application
/// itself where the budget runs out); a symbolic piece keeps `g` wrapped
/// around it.
pub open spec fn map_piece(g: NameTm, p: NmSetTm, fuel: nat) -> NmSetTm {
    match p {
        NmSetTm::Single(m) => {
            let app = NameTm::App(Box::new(g), Box::new(m));
            match nm_norm(app, fuel) {
                Ok(n) => NmSetTm::Single(n),
                Err(_) => NmSetTm::Single(app),
            }
        },
        NmSetTm::Subset(j) => NmSetTm::Subset(IdxTm::NmMap(Box::new(g), Box::new(j))),
    }
}

/// The apart-normal form of a name-set index term under the index
/// definitions `defs`: the list of pieces whose disjoint union, in order,
/// is the set. A named set is expanded through its definition, which
/// spends one unit of `fuel`; a name without a definition, or one that
/// the budget cannot expand, stays one symbolic piece.
pub open spec fn decomp(defs: Seq<(String, IdxTm)>, i: IdxTm, fuel: nat) -> Seq<NmSetTm>
    decreases fuel, i,
{
    match i {
        IdxTm::Empty => Seq::empty(),
        IdxTm::Apart(a, b) => decomp(defs, *a, fuel) + decomp(defs, *b, fuel),
        IdxTm::Sing(m) => seq![NmSetTm::Single(m)],
        IdxTm::Ident(s) => match lookup_idx(defs, s@) {
            Some(d) => if fuel == 0 { seq![NmSetTm::Subset(i)] } else { decomp(defs, d, (fuel - 1) as nat) },
            None => seq![NmSetTm::Subset(i)],
        },
        IdxTm::FlatMap(f, x) => {
            let fv = idx_eval(defs, *f, fuel);
            decomp(defs, *x, fuel).map_values(|p: NmSetTm| flat_map_piece(*f, fv, p))
        },
        IdxTm::NmMap(g, x) => decomp(defs, *x, fuel).map_values(|p: NmSetTm| map_piece(*g, p, fuel)),
        _ => seq![NmSetTm::Subset(i)],
    }
}

/// The index term of one piece.
pub open spec fn piece_tm(p: NmSetTm) -> IdxTm {
    match p {
        NmSetTm::Single(m) => IdxTm::Sing(m),
        NmSetTm::Subset(i) => i,
    }
}

/// The pieces folded from the right into nested disjoint unions ending in
/// the empty set.
pub open spec fn reconstruct(s: Seq<NmSetTm>) -> IdxTm
    decreases s.len(),
{
    if s.len() == 0 {
        IdxTm::Empty
    } else {
        IdxTm::Apart(Box::new(piece_tm(s[0])), Box::new(reconstruct(s.drop_first())))
    }
}

fn flat_map_one(f: &IdxTm, fv: &Result<IdxVal, IdxEvalErr>, p: &NmSetTm) -> (r: NmSetTm)
    ensures
        r == flat_map_piece(*f, *fv, *p),
{
    match p {
        NmSetTm::Single(m) => match fv {
            Ok(IdxVal::Lam(y, _, body)) => NmSetTm::Subset(subst_idxtm(&IdxTm::NmTm(m.dup()), y, body)),
            _ => NmSetTm::Subset(IdxTm::FlatMap(Box::new(f.dup()), Box::new(IdxTm::Sing(m.dup())))),
        },
        NmSetTm::Subset(j) => NmSetTm::Subset(IdxTm::FlatMap(Box::new(f.dup()), Box::new(j.dup()))),
    }
}

fn map_one(ctx: &Ctx, g: &NameTm, p: &NmSetTm, fuel: u64) -> (r: NmSetTm)
    ensures
        r == map_piece(*g, *p, fuel as nat),
{
    match p {
        NmSetTm::Single(m) => {
            let app = NameTm::App(Box::new(g.dup()), Box::new(m.dup()));
            match normal_nmtm_fuel(ctx, &app, fuel) {
                Ok(n) => NmSetTm::Single(n),
                Err(_) => NmSetTm::Single(app),
            }
        },
        NmSetTm::Subset(j) => NmSetTm::Subset(IdxTm::NmMap(Box::new(g.dup()), Box::new(j.dup()))),
    }
}

fn decompose_into(ctx: &Ctx, i: &IdxTm, fuel: u64, out: &mut Vec<NmSetTm>)
    ensures
        final(out)@ == old(out)@ + decomp(ctx.idx_defs@, *i, fuel as nat),
    decreases fuel, i,
{
    let ghost start = out@;
    let ghost defs = ctx.idx_defs@;
    match i {
        IdxTm::Empty => {
            assert(start + decomp(defs, *i, fuel as nat) =~= start);
        },
        IdxTm::Apart(a, b) => {
            decompose_into(ctx, a, fuel, out);
            decompose_into(ctx, b, fuel, out);
            assert(out@ =~= start + decomp(defs, *i, fuel as nat));
        },
        IdxTm::Sing(m) => {
            out.push(NmSetTm::Single(m.dup()));
            assert(out@ =~= start + decomp(defs, *i, fuel as nat));
        },
        IdxTm::Ident(s) => {
            match ctx.lookup_idx_def(s) {
                Some(d) => {
                    if fuel == 0 {
                        out.push(NmSetTm::Subset(i.dup()));
                    } else {
                        decompose_into(ctx, &d, fuel - 1, out);
                    }
                },
                None => {
                    out.push(NmSetTm::Subset(i.dup()));
                },
            }
            assert(out@ =~= start + decomp(defs, *i, fuel as nat));
        },
        IdxTm::FlatMap(f, x) => {
            let fv = idxtm_eval_fuel(ctx, f, fuel);
            let mut parts: Vec<NmSetTm> = Vec::new();
            decompose_into(ctx, x, fuel, &mut parts);
            assert(parts@ =~= decomp(defs, **x, fuel as nat));
            let mut k: usize = 0;
            while k < parts.len()
                invariant
                    k <= parts@.len(),
                    out@ == start + parts@.subrange(0, k as int).map_values(|p: NmSetTm| flat_map_piece(**f, fv, p)),
                decreases parts@.len() - k,
            {
                let p = flat_map_one(f, &fv, &parts[k]);
                out.push(p);
                k = k + 1;
                assert(parts@.subrange(0, k as int).map_values(|p: NmSetTm| flat_map_piece(**f, fv, p)) =~= parts@.subrange(0, k - 1).map_values(|p: NmSetTm| flat_map_piece(**f, fv, p)).push(flat_map_piece(**f, fv, parts@[k - 1])));
            }
            assert(parts@.subrange(0, k as int) =~= parts@);
            assert(out@ =~= start + decomp(defs, *i, fuel as nat));
        },
        IdxTm::NmMap(g, x) => {
            let mut parts: Vec<NmSetTm> = Vec::new();
            decompose_into(ctx, x, fuel, &mut parts);
            assert(parts@ =~= decomp(defs, **x, fuel as nat));
            let mut k: usize = 0;
            while k < parts.len()
                invariant
                    k <= parts@.len(),
                    out@ == start + parts@.subrange(0, k as int).map_values(|p: NmSetTm| map_piece(**g, p, fuel as nat)),
                decreases parts@.len() - k,
            {
                let p = map_one(ctx, g, &parts[k], fuel);
                out.push(p);
                k = k + 1;
                assert(parts@.subrange(0, k as int).map_values(|p: NmSetTm| map_piece(**g, p, fuel as nat)) =~= parts@.subrange(0, k - 1).map_values(|p: NmSetTm| map_piece(**g, p, fuel as nat)).push(map_piece(**g, parts@[k - 1], fuel as nat)));
            }
            assert(parts@.subrange(0, k as int) =~= parts@);
            assert(out@ =~= start + decomp(defs, *i, fuel as nat));
        },
        _ => {
            out.push(NmSetTm::Subset(i.dup()));
            assert(out@ =~= start + decomp(defs, *i, fuel as nat));
        },
    }
}

/// Decompose a name-set index term into its apart-normal form: `0` gives
/// no pieces, `X % Y` the pieces of `X` followed by those of `Y`, `{M}`
/// one singleton, and a named set the pieces of its definition. Under a
/// flat-map `(f) X` whose function evaluates to a lambda, directly or
/// through definitions, each singleton piece of `X` becomes the lambda's
/// body applied to its name, in place; each symbolic piece `S` becomes
/// `(f) S`, unevaluated. Under a name mapping `[g] X`, each singleton
/// `{M}` becomes the singleton of the normal form of `g M`, and each
/// symbolic piece `S` becomes `[g] S`. Any other term is one symbolic
/// piece.
pub fn nmsettms_of_idxtm(ctx: &Ctx, i: &IdxTm) -> (r: Vec<NmSetTm>)
    ensures
        r@ == decomp(ctx.idx_defs@, *i, ctx.fuel as nat),
{
    let mut out: Vec<NmSetTm> = Vec::new();
    decompose_into(ctx, i, ctx.fuel, &mut out);
    assert(out@ =~= decomp(ctx.idx_defs@, *i, ctx.fuel as nat));
    out
}

/// Convert apart-normal pieces back into one index term, nesting disjoint
/// unions to the right and ending in `0`.
pub fn idxtm_of_nmsettms(tms: &Vec<NmSetTm>) -> (r: IdxTm)
    ensures
        r == reconstruct(tms@),
{
    let mut i: IdxTm = IdxTm::Empty;
    let mut k: usize = tms.len();
    assert(tms@.subrange(k as int, tms@.len() as int) =~= Seq::<NmSetTm>::empty());
    while k > 0
        invariant
            k <= tms@.len(),
            i == reconstruct(tms@.subrange(k as int, tms@.len() as int)),
        decreases k,
    {
        let piece = match &tms[k - 1] {
            NmSetTm::Single(m) => IdxTm::Sing(m.dup()),
            NmSetTm::Subset(j) => j.dup(),
        };
        assert(tms@.subrange(k - 1, tms@.len() as int).drop_first() =~= tms@.subrange(k as int, tms@.len() as int));
        i = IdxTm::Apart(Box::new(piece), Box::new(i));
        k = k - 1;
    }
    assert(tms@.subrange(0, tms@.len() as int) =~= tms@);
    i
}

/// Normalize a name-set index term to the disjoint-union list of its
/// apart-normal pieces.
pub fn normal_idxtm(ctx: &Ctx, i: &IdxTm) -> (r: IdxTm)
    ensures
        r == reconstruct(decomp(ctx.idx_defs@, *i, ctx.fuel as nat)),
{
    let tms = nmsettms_of_idxtm(ctx, i);
    idxtm_of_nmsettms(&tms)
}

/// Selective distribution: when the flat-mapped function evaluates to a
/// lambda, the pieces of `(f) X` are those of `X`, in order, with each
/// singleton `{M}` replaced by the lambda's body applied to `M` and each
/// symbolic piece `S` replaced by `(f) S`, unevaluated.
pub proof fn law_flat_map_selective(
    defs: Seq<(String, IdxTm)>,
    f: IdxTm,
    x: IdxTm,
    fuel: nat,
    y: Var,
    g: Sort,
    body: IdxTm,
)
    requires
        idx_eval(defs, f, fuel) == Ok::<IdxVal, IdxEvalErr>(IdxVal::Lam(y, g, Box::new(body))),
    ensures
        decomp(defs, IdxTm::FlatMap(Box::new(f), Box::new(x)), fuel).len() == decomp(defs, x, fuel).len(),
        forall|k: int| 0 <= k < decomp(defs, x, fuel).len() ==> {
            let p = #[trigger] decomp(defs, x, fuel)[k];
            let q = decomp(defs, IdxTm::FlatMap(Box::new(f), Box::new(x)), fuel)[k];
            &&& (p matches NmSetTm::Single(m) ==> q == NmSetTm::Subset(idx_subst(IdxTm::NmTm(m), y, body)))
            &&& (p matches NmSetTm::Subset(j) ==> q == NmSetTm::Subset(IdxTm::FlatMap(Box::new(f), Box::new(j))))
        },
{
}

/// When the flat-mapped function is not known to be a lambda, it is kept
/// around every piece: nothing is applied and nothing is dropped.
pub proof fn law_flat_map_kept(defs: Seq<(String, IdxTm)>, f: IdxTm, x: IdxTm, fuel: nat)
    requires
        !(idx_eval(defs, f, fuel) matches Ok(IdxVal::Lam(_, _, _))),
    ensures
        decomp(defs, IdxTm::FlatMap(Box::new(f), Box::new(x)), fuel)
            == decomp(defs, x, fuel).map_values(|p: NmSetTm| NmSetTm::Subset(IdxTm::FlatMap(Box::new(f), Box::new(piece_tm(p))))),
{
    assert(decomp(defs, IdxTm::FlatMap(Box::new(f), Box::new(x)), fuel)
        =~= decomp(defs, x, fuel).map_values(|p: NmSetTm| NmSetTm::Subset(IdxTm::FlatMap(Box::new(f), Box::new(piece_tm(p))))));
}

/// Terms built only from `0`, `%` and singletons.
pub open spec fn is_apart_tree(i: IdxTm) -> bool
    decreases i,
{
    match i {
        IdxTm::Empty => true,
        IdxTm::Sing(_) => true,
        IdxTm::Apart(a, b) => is_apart_tree(*a) && is_apart_tree(*b),
        _ => false,
    }
}

/// The singleton name terms of such a term, from left to right.
pub open spec fn apart_elems(i: IdxTm) -> Seq<NameTm>
    decreases i,
{
    match i {
        IdxTm::Sing(m) => seq![m],
        IdxTm::Apart(a, b) => apart_elems(*a) + apart_elems(*b),
        _ => Seq::empty(),
    }
}

pub open spec fn singles(s: Seq<NameTm>) -> Seq<NmSetTm> {
    s.map_values(|m: NameTm| NmSetTm::Single(m))
}

proof fn lemma_decomp_apart_tree(defs: Seq<(String, IdxTm)>, i: IdxTm, fuel: nat)
    requires
        is_apart_tree(i),
    ensures
        decomp(defs, i, fuel) == singles(apart_elems(i)),
    decreases i,
{
    match i {
        IdxTm::Apart(a, b) => {
            lemma_decomp_apart_tree(defs, *a, fuel);
            lemma_decomp_apart_tree(defs, *b, fuel);
            assert(singles(apart_elems(*a) + apart_elems(*b)) =~= singles(apart_elems(*a)) + singles(apart_elems(*b)));
        },
        IdxTm::Empty => {
            assert(singles(apart_elems(i)) =~= Seq::empty());
        },
        _ => {
            assert(singles(apart_elems(i)) =~= decomp(defs, i, fuel));
        },
    }
}

proof fn lemma_reconstruct_singles(s: Seq<NameTm>)
    ensures
        is_apart_tree(reconstruct(singles(s))),
        apart_elems(reconstruct(singles(s))) == s,
    decreases s.len(),
{
    if s.len() > 0 {
        assert(singles(s).drop_first() =~= singles(s.drop_first()));
        lemma_reconstruct_singles(s.drop_first());
        let rest = reconstruct(singles(s.drop_first()));
        assert(singles(s)[0] == NmSetTm::Single(s[0]));
        assert(reconstruct(singles(s)) == IdxTm::Apart(Box::new(IdxTm::Sing(s[0])), Box::new(rest)));
        assert(apart_elems(IdxTm::Sing(s[0])) == seq![s[0]]);
        assert(is_apart_tree(IdxTm::Sing(s[0])));
        assert(seq![s[0]] + s.drop_first() =~= s);
    } else {
        assert(s =~= Seq::empty());
        assert(singles(s).len() == 0);
        assert(reconstruct(singles(s)) == IdxTm::Empty);
    }
}

/// Decomposing a term built only from `0`, `%` and singletons and
/// reconstructing the result gives such a term again, with the same
/// singletons in the same order.
pub proof fn law_apart_round_trip(defs: Seq<(String, IdxTm)>, i: IdxTm, fuel: nat)
    requires
        is_apart_tree(i),
    ensures
        is_apart_tree(reconstruct(decomp(defs, i, fuel))),
        apart_elems(reconstruct(decomp(defs, i, fuel))) == apart_elems(i),
{
    lemma_decomp_apart_tree(defs, i, fuel);
    lemma_reconstruct_singles(apart_elems(i));
}

// ------------------------------------------------------------ index evaluation

/// Index term values, which may be symbolic (the `Var` case).
#[derive(Debug, PartialEq, Eq)]
pub enum IdxVal {
    /// a variable: harmless until a value is eliminated
    Var(Var),
    /// a name set, as one apart-normal piece
    NmSet(NmSetTm),
    Unit,
    Pair(Box<IdxVal>, Box<IdxVal>),
    Lam(Var, Sort, Box<IdxTm>),
    NoParse(String),
}

/// Why an index term does not evaluate.
#[derive(Debug, PartialEq, Eq)]
pub enum IdxEvalErr {
    /// the value to be eliminated (a pair or a function) is this abstract
    /// variable, so the elimination cannot reduce
    AbsIntroForm(Var),
    /// the elimination form and the value it eliminates disagree on sort
    SortError,
    /// a reference to an index definition that the context lacks
    Undefined(String),
    /// the context's reduction budget ran out
    OutOfFuel,
}

/// The index term that a value stands for.
pub open spec fn idx_of_val(v: IdxVal) -> IdxTm
    decreases v,
{
    match v {
        IdxVal::Var(x) => IdxTm::Var(x),
        IdxVal::NmSet(p) => piece_tm(p),
        IdxVal::Unit => IdxTm::Unit,
        IdxVal::Pair(a, b) => IdxTm::Pair(Box::new(idx_of_val(*a)), Box::new(idx_of_val(*b))),
        IdxVal::Lam(x, g, b) => IdxTm::Lam(x, g, b),
        IdxVal::NoParse(s) => IdxTm::NoParse(s),
    }
}

/// The first (`first`) or second component of a pair value, or why
/// there is none.
pub open spec fn proj(v: IdxVal, first: bool) -> Result<IdxVal, IdxEvalErr> {
    match v {
        IdxVal::Pair(a, b) => if first { Ok(*a) } else { Ok(*b) },
        IdxVal::Var(x) => Err(IdxEvalErr::AbsIntroForm(x)),
        _ => Err(IdxEvalErr::SortError),
    }
}

/// A name-set operation on two evaluated operands, kept as a set value.
pub open spec fn set_op(i: IdxTm, a: IdxTm, b: IdxTm) -> IdxVal {
    let t = match i {
        IdxTm::Apart(_, _) => IdxTm::Apart(Box::new(a), Box::new(b)),
        IdxTm::Union(_, _) => IdxTm::Union(Box::new(a), Box::new(b)),
        IdxTm::Bin(_, _) => IdxTm::Bin(Box::new(a), Box::new(b)),
        IdxTm::FlatMap(_, _) => IdxTm::FlatMap(Box::new(a), Box::new(b)),
        _ => IdxTm::FlatMapStar(Box::new(a), Box::new(b)),
    };
    IdxVal::NmSet(NmSetTm::Subset(t))
}

/// Call-by-value evaluation of `i` under the index definitions `defs`,
/// with `fuel` definition unfoldings and beta steps along each path.
pub open spec fn idx_eval(defs: Seq<(String, IdxTm)>, i: IdxTm, fuel: nat) -> Result<IdxVal, IdxEvalErr>
    decreases fuel, i,
{
    match i {
        IdxTm::Var(x) => Ok(IdxVal::Var(x)),
        IdxTm::Ident(s) => match lookup_idx(defs, s@) {
            Some(d) => if fuel == 0 { Err(IdxEvalErr::OutOfFuel) } else { idx_eval(defs, d, (fuel - 1) as nat) },
            None => Err(IdxEvalErr::Undefined(s)),
        },
        IdxTm::Sing(m) => Ok(IdxVal::NmSet(NmSetTm::Single(m))),
        IdxTm::Unit => Ok(IdxVal::Unit),
        IdxTm::Lam(x, g, b) => Ok(IdxVal::Lam(x, g, b)),
        IdxTm::NoParse(s) => Ok(IdxVal::NoParse(s)),
        IdxTm::Pair(a, b) => match idx_eval(defs, *a, fuel) {
            Err(e) => Err(e),
            Ok(va) => match idx_eval(defs, *b, fuel) {
                Err(e) => Err(e),
                Ok(vb) => Ok(IdxVal::Pair(Box::new(va), Box::new(vb))),
            },
        },
        IdxTm::Proj1(a) => match idx_eval(defs, *a, fuel) {
            Err(e) => Err(e),
            Ok(v) => proj(v, true),
        },
        IdxTm::Proj2(a) => match idx_eval(defs, *a, fuel) {
            Err(e) => Err(e),
            Ok(v) => proj(v, false),
        },
        IdxTm::App(f, a) => match idx_eval(defs, *f, fuel) {
            Err(e) => Err(e),
            Ok(IdxVal::Lam(x, _, body)) => match idx_eval(defs, *a, fuel) {
                Err(e) => Err(e),
                Ok(va) => {
                    if fuel == 0 {
                        Err(IdxEvalErr::OutOfFuel)
                    } else {
                        idx_eval(defs, idx_subst(idx_of_val(va), x, *body), (fuel - 1) as nat)
                    }
                },
            },
            Ok(IdxVal::Var(x)) => Err(IdxEvalErr::AbsIntroForm(x)),
            Ok(_) => Err(IdxEvalErr::SortError),
        },
        IdxTm::Apart(a, b) | IdxTm::Union(a, b) | IdxTm::Bin(a, b) | IdxTm::FlatMap(a, b) | IdxTm::FlatMapStar(a, b) => {
            match idx_eval(defs, *a, fuel) {
                Err(e) => Err(e),
                Ok(va) => match idx_eval(defs, *b, fuel) {
                    Err(e) => Err(e),
                    Ok(vb) => Ok(set_op(i, idx_of_val(va), idx_of_val(vb))),
                },
            }
        },
        IdxTm::NmMap(g, a) => match idx_eval(defs, *a, fuel) {
            Err(e) => Err(e),
            Ok(va) => Ok(IdxVal::NmSet(NmSetTm::Subset(IdxTm::NmMap(g, Box::new(idx_of_val(va)))))),
        },
        _ => Ok(IdxVal::NmSet(NmSetTm::Subset(i))),
    }
}

/// Convert an index value back into the (less restrictive) index term syntax.
pub fn idxtm_of_idxval(i: &IdxVal) -> (r: IdxTm)
    ensures
        r == idx_of_val(*i),
    decreases i,
{
    match i {
        IdxVal::Var(x) => IdxTm::Var(x.dup()),
        IdxVal::NmSet(NmSetTm::Single(m)) => IdxTm::Sing(m.dup()),
        IdxVal::NmSet(NmSetTm::Subset(j)) => j.dup(),
        IdxVal::Unit => IdxTm::Unit,
        IdxVal::Pair(a, b) => IdxTm::Pair(Box::new(idxtm_of_idxval(a)), Box::new(idxtm_of_idxval(b))),
        IdxVal::Lam(x, g, b) => IdxTm::Lam(x.dup(), g.dup(), Box::new(b.dup())),
        IdxVal::NoParse(s) => IdxTm::NoParse(s.clone()),
    }
}

fn project(v: IdxVal, first: bool) -> (r: Result<IdxVal, IdxEvalErr>)
    ensures
        r == proj(v, first),
{
    match v {
        IdxVal::Pair(a, b) => if first { Ok(*a) } else { Ok(*b) },
        IdxVal::Var(x) => Err(IdxEvalErr::AbsIntroForm(x)),
        _ => Err(IdxEvalErr::SortError),
    }
}

fn set_value(i: &IdxTm, a: IdxTm, b: IdxTm) -> (r: IdxVal)
    ensures
        r == set_op(*i, a, b),
{
    let t = match i {
        IdxTm::Apart(_, _) => IdxTm::Apart(Box::new(a), Box::new(b)),
        IdxTm::Union(_, _) => IdxTm::Union(Box::new(a), Box::new(b)),
        IdxTm::Bin(_, _) => IdxTm::Bin(Box::new(a), Box::new(b)),
        IdxTm::FlatMap(_, _) => IdxTm::FlatMap(Box::new(a), Box::new(b)),
        _ => IdxTm::FlatMapStar(Box::new(a), Box::new(b)),
    };
    IdxVal::NmSet(NmSetTm::Subset(t))
}

fn idxtm_eval_fuel(ctx: &Ctx, i: &IdxTm, fuel: u64) -> (r: Result<IdxVal, IdxEvalErr>)
    ensures
        r == idx_eval(ctx.idx_defs@, *i, fuel as nat),
    decreases fuel, i,
{
    match i {
        IdxTm::Var(x) => Ok(IdxVal::Var(x.dup())),
        IdxTm::Ident(s) => match ctx.lookup_idx_def(s) {
            Some(d) => if fuel == 0 { Err(IdxEvalErr::OutOfFuel) } else { idxtm_eval_fuel(ctx, &d, fuel - 1) },
            None => Err(IdxEvalErr::Undefined(s.clone())),
        },
        IdxTm::Sing(m) => Ok(IdxVal::NmSet(NmSetTm::Single(m.dup()))),
        IdxTm::Unit => Ok(IdxVal::Unit),
        IdxTm::Lam(x, g, b) => Ok(IdxVal::Lam(x.dup(), g.dup(), Box::new(b.dup()))),
        IdxTm::NoParse(s) => Ok(IdxVal::NoParse(s.clone())),
        IdxTm::Pair(a, b) => {
            let va = idxtm_eval_fuel(ctx, a, fuel)?;
            let vb = idxtm_eval_fuel(ctx, b, fuel)?;
            Ok(IdxVal::Pair(Box::new(va), Box::new(vb)))
        },
        IdxTm::Proj1(a) => {
            let v = idxtm_eval_fuel(ctx, a, fuel)?;
            project(v, true)
        },
        IdxTm::Proj2(a) => {
            let v = idxtm_eval_fuel(ctx, a, fuel)?;
            project(v, false)
        },
        IdxTm::App(f, a) => {
            let vf = idxtm_eval_fuel(ctx, f, fuel)?;
            match vf {
                IdxVal::Lam(x, _, body) => {
                    let va = idxtm_eval_fuel(ctx, a, fuel)?;
                    if fuel == 0 {
                        Err(IdxEvalErr::OutOfFuel)
                    } else {
                        let arg = idxtm_of_idxval(&va);
                        let j = subst_idxtm(&arg, &x, &body);
                        idxtm_eval_fuel(ctx, &j, fuel - 1)
                    }
                },
                IdxVal::Var(x) => Err(IdxEvalErr::AbsIntroForm(x)),
                _ => Err(IdxEvalErr::SortError),
            }
        },
        IdxTm::Apart(a, b) | IdxTm::Union(a, b) | IdxTm::Bin(a, b) | IdxTm::FlatMap(a, b) | IdxTm::FlatMapStar(a, b) => {
            let va = idxtm_eval_fuel(ctx, a, fuel)?;
            let vb = idxtm_eval_fuel(ctx, b, fuel)?;
            Ok(set_value(i, idxtm_of_idxval(&va), idxtm_of_idxval(&vb)))
        },
        IdxTm::NmMap(g, a) => {
            let va = idxtm_eval_fuel(ctx, a, fuel)?;
            Ok(IdxVal::NmSet(NmSetTm::Subset(IdxTm::NmMap(Box::new(g.dup()), Box::new(idxtm_of_idxval(&va))))))
        },
        _ => Ok(IdxVal::NmSet(NmSetTm::Subset(i.dup()))),
    }
}

/// Evaluate an index term. Projections of pairs and applications of
/// lambdas reduce; name-set operations evaluate their operands and stay
/// name-set values. Eliminating an abstract variable gives
/// `AbsIntroForm`, eliminating a value of the wrong shape gives
/// `SortError`.
pub fn idxtm_eval(ctx: &Ctx, i: IdxTm) -> (r: Result<IdxVal, IdxEvalErr>)
    ensures
        r == idx_eval(ctx.idx_defs@, i, ctx.fuel as nat),
{
    idxtm_eval_fuel(ctx, &i, ctx.fuel)
}

/// An index term whose evaluation does not run out of budget evaluates to
/// the same value, or fails with the same error, under any larger budget.
pub proof fn law_idx_eval_budget(defs: Seq<(String, IdxTm)>, i: IdxTm, fuel: nat, fuel2: nat)
    requires
        idx_eval(defs, i, fuel) != Err::<IdxVal, IdxEvalErr>(IdxEvalErr::OutOfFuel),
        fuel <= fuel2,
    ensures
        idx_eval(defs, i, fuel2) == idx_eval(defs, i, fuel),
    decreases fuel2 - fuel,
{
    if fuel < fuel2 {
        lemma_idx_eval_step(defs, i, fuel);
        law_idx_eval_budget(defs, i, fuel + 1, fuel2);
    }
}

proof fn lemma_idx_eval_step(defs: Seq<(String, IdxTm)>, i: IdxTm, fuel: nat)
    requires
        idx_eval(defs, i, fuel) != Err::<IdxVal, IdxEvalErr>(IdxEvalErr::OutOfFuel),
    ensures
        idx_eval(defs, i, fuel + 1) == idx_eval(defs, i, fuel),
    decreases fuel, i,
{
    match i {
        IdxTm::Ident(s) => {
            if let Some(d) = lookup_idx(defs, s@) {
                lemma_idx_eval_step(defs, d, (fuel - 1) as nat);
            }
        },
        IdxTm::Pair(a, b) => {
            lemma_idx_eval_step(defs, *a, fuel);
            if idx_eval(defs, *a, fuel) is Ok {
                lemma_idx_eval_step(defs, *b, fuel);
            }
        },
        IdxTm::Proj1(a) => lemma_idx_eval_step(defs, *a, fuel),
        IdxTm::Proj2(a) => lemma_idx_eval_step(defs, *a, fuel),
        IdxTm::App(f, a) => {
            lemma_idx_eval_step(defs, *f, fuel);
            if let Ok(IdxVal::Lam(x, _, body)) = idx_eval(defs, *f, fuel) {
                lemma_idx_eval_step(defs, *a, fuel);
                if let Ok(va) = idx_eval(defs, *a, fuel) {
                    lemma_idx_eval_step(defs, idx_subst(idx_of_val(va), x, *body), (fuel - 1) as nat);
                }
            }
        },
        IdxTm::Apart(a, b) | IdxTm::Union(a, b) | IdxTm::Bin(a, b) | IdxTm::FlatMap(a, b) | IdxTm::FlatMapStar(a, b) => {
            lemma_idx_eval_step(defs, *a, fuel);
            if idx_eval(defs, *a, fuel) is Ok {
                lemma_idx_eval_step(defs, *b, fuel);
            }
        },
        IdxTm::NmMap(_, a) => lemma_idx_eval_step(defs, *a, fuel),
        _ => {},
    }
}

} // verus!
