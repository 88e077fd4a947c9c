use fungi_normal::ast::{IdxTm, Kind, Name, NameTm, Sort, Type, Var};
use fungi_normal::ctx::Ctx;
use fungi_normal::normal::{
    idxtm_eval, idxtm_of_idxval, idxtm_of_nmsettms, is_normal_nmtm, nmsettms_of_idxtm,
    normal_idxtm, normal_nmtm, normal_nmtm_rec, normal_type, unroll_type, IdxEvalErr, IdxVal,
    NmNormErr, NmSetTm, TypeNormErr,
};

fn v(s: &str) -> Var {
    Var::new(s)
}

fn num(n: usize) -> NameTm {
    NameTm::Name(Name::Num(n))
}

fn nbin(a: NameTm, b: NameTm) -> NameTm {
    NameTm::Bin(Box::new(a), Box::new(b))
}

fn sing(m: NameTm) -> IdxTm {
    IdxTm::Sing(m)
}

fn apart(a: IdxTm, b: IdxTm) -> IdxTm {
    IdxTm::Apart(Box::new(a), Box::new(b))
}

fn ctx() -> Ctx {
    Ctx::new(100)
}

// ---------------------------------------------------------------- name terms

#[test]
fn nmtm_beta_reduces_to_literal() {
    let lam = NameTm::Lam(v("x"), Sort::Nm, Box::new(nbin(NameTm::Name(Name::Leaf), NameTm::Var(v("x")))));
    let n = NameTm::App(Box::new(lam), Box::new(NameTm::Name(Name::Num(5))));
    let r = normal_nmtm(&ctx(), n);
    assert_eq!(r, Ok(NameTm::Name(Name::Bin(Box::new(Name::Leaf), Box::new(Name::Num(5))))));
}

#[test]
fn nmtm_bin_of_literals() {
    let r = normal_nmtm(&ctx(), nbin(num(1), num(2)));
    assert_eq!(r, Ok(NameTm::Name(Name::Bin(Box::new(Name::Num(1)), Box::new(Name::Num(2))))));
}

#[test]
fn nmtm_bin_with_variable_is_stuck() {
    let n = nbin(NameTm::Var(v("z")), num(1));
    let r = normal_nmtm(&ctx(), n.dup());
    assert_eq!(r, Ok(n));
}

#[test]
fn nmtm_app_of_variable_is_stuck() {
    let n = NameTm::App(Box::new(NameTm::Var(v("f"))), Box::new(num(1)));
    let r = normal_nmtm(&ctx(), n.dup());
    assert_eq!(r, Ok(n));
}

#[test]
fn nmtm_normal_forms() {
    let c = ctx();
    assert!(is_normal_nmtm(&c, &NameTm::Var(v("x"))));
    assert!(is_normal_nmtm(&c, &num(3)));
    assert!(is_normal_nmtm(&c, &NameTm::Lam(v("x"), Sort::Nm, Box::new(NameTm::Var(v("x"))))));
    assert!(!is_normal_nmtm(&c, &nbin(num(1), num(2))));
    assert!(!is_normal_nmtm(&c, &NameTm::App(Box::new(num(1)), Box::new(num(2)))));
    assert!(!is_normal_nmtm(&c, &NameTm::WriteScope));
    assert!(!is_normal_nmtm(&c, &NameTm::NoParse("?".to_string())));
    let lam = NameTm::Lam(v("x"), Sort::Nm, Box::new(nbin(num(1), num(2))));
    assert_eq!(normal_nmtm(&c, lam.dup()), Ok(lam));
}

#[test]
fn nmtm_substitution_avoids_capture() {
    // (#x. #y. x * y) y  ~~>  #y'. y * y'
    let inner = NameTm::Lam(v("y"), Sort::Nm, Box::new(nbin(NameTm::Var(v("x")), NameTm::Var(v("y")))));
    let f = NameTm::Lam(v("x"), Sort::Nm, Box::new(inner));
    let n = NameTm::App(Box::new(f), Box::new(NameTm::Var(v("y"))));
    let r = normal_nmtm(&ctx(), n).unwrap();
    let y1 = Var { name: "y".to_string(), tag: 1 };
    let expect = NameTm::Lam(y1.dup(), Sort::Nm, Box::new(nbin(NameTm::Var(v("y")), NameTm::Var(y1))));
    assert_eq!(r, expect);
}

#[test]
fn nmtm_nested_beta() {
    // ((#x. #y. x * y) @1) @2  ~~>  @1 * @2 as a literal
    let inner = NameTm::Lam(v("y"), Sort::Nm, Box::new(nbin(NameTm::Var(v("x")), NameTm::Var(v("y")))));
    let f = NameTm::Lam(v("x"), Sort::Nm, Box::new(inner));
    let n = NameTm::App(Box::new(NameTm::App(Box::new(f), Box::new(num(1)))), Box::new(num(2)));
    let r = normal_nmtm_rec(&ctx(), Box::new(n)).unwrap();
    assert_eq!(*r, NameTm::Name(Name::Bin(Box::new(Name::Num(1)), Box::new(Name::Num(2)))));
}

#[test]
fn nmtm_budget_bounds_self_application() {
    // (#x. x x) (#x. x x) fails when the budget runs out
    let xx = NameTm::App(Box::new(NameTm::Var(v("x"))), Box::new(NameTm::Var(v("x"))));
    let w = NameTm::Lam(v("x"), Sort::Nm, Box::new(xx));
    let n = NameTm::App(Box::new(w.dup()), Box::new(w));
    let r = normal_nmtm(&Ctx::new(5), n);
    assert_eq!(r, Err(NmNormErr::OutOfFuel));
}

// ----------------------------------------------------------- apart-normal form

fn bin_fn() -> IdxTm {
    // #x:Nm. {x * @1} % {x * @2}
    IdxTm::Lam(
        v("x"),
        Sort::Nm,
        Box::new(apart(sing(nbin(NameTm::Var(v("x")), num(1))), sing(nbin(NameTm::Var(v("x")), num(2))))),
    )
}

#[test]
fn decompose_selective_distribution() {
    // (bin) (({@3} % Y) % (X % {z}))
    let set = apart(apart(sing(num(3)), IdxTm::Var(v("Y"))), apart(IdxTm::Var(v("X")), sing(NameTm::Var(v("z")))));
    let i = IdxTm::FlatMap(Box::new(bin_fn()), Box::new(set));
    let r = nmsettms_of_idxtm(&ctx(), &i);
    let expect = vec![
        NmSetTm::Subset(apart(sing(nbin(num(3), num(1))), sing(nbin(num(3), num(2))))),
        NmSetTm::Subset(IdxTm::FlatMap(Box::new(bin_fn()), Box::new(IdxTm::Var(v("Y"))))),
        NmSetTm::Subset(IdxTm::FlatMap(Box::new(bin_fn()), Box::new(IdxTm::Var(v("X"))))),
        NmSetTm::Subset(apart(
            sing(nbin(NameTm::Var(v("z")), num(1))),
            sing(nbin(NameTm::Var(v("z")), num(2))),
        )),
    ];
    assert_eq!(r, expect);
}

#[test]
fn decompose_flatmap_without_lambda_keeps_function() {
    let f = IdxTm::Ident("Bin".to_string());
    let i = IdxTm::FlatMap(Box::new(f.dup()), Box::new(sing(num(3))));
    let r = nmsettms_of_idxtm(&ctx(), &i);
    assert_eq!(r, vec![NmSetTm::Subset(IdxTm::FlatMap(Box::new(f), Box::new(sing(num(3)))))]);
}

#[test]
fn decompose_name_map() {
    // [#x. x * @1] ({@2} % X)
    let g = NameTm::Lam(v("x"), Sort::Nm, Box::new(nbin(NameTm::Var(v("x")), num(1))));
    let i = IdxTm::NmMap(Box::new(g.dup()), Box::new(apart(sing(num(2)), IdxTm::Var(v("X")))));
    let r = nmsettms_of_idxtm(&ctx(), &i);
    let expect = vec![
        NmSetTm::Single(NameTm::Name(Name::Bin(Box::new(Name::Num(2)), Box::new(Name::Num(1))))),
        NmSetTm::Subset(IdxTm::NmMap(Box::new(g), Box::new(IdxTm::Var(v("X"))))),
    ];
    assert_eq!(r, expect);
}

#[test]
fn decompose_union_is_opaque() {
    let u = IdxTm::Union(Box::new(sing(num(1))), Box::new(sing(num(2))));
    let r = nmsettms_of_idxtm(&ctx(), &u);
    assert_eq!(r, vec![NmSetTm::Subset(u)]);
}

#[test]
fn decompose_empty_and_flattening() {
    let c = ctx();
    assert_eq!(nmsettms_of_idxtm(&c, &IdxTm::Empty), vec![]);
    let i = apart(apart(sing(num(1)), IdxTm::Empty), apart(IdxTm::Var(v("X")), sing(num(2))));
    let r = nmsettms_of_idxtm(&c, &i);
    assert_eq!(r, vec![NmSetTm::Single(num(1)), NmSetTm::Subset(IdxTm::Var(v("X"))), NmSetTm::Single(num(2))]);
}

#[test]
fn reconstruct_folds_to_the_right() {
    assert_eq!(idxtm_of_nmsettms(&vec![]), IdxTm::Empty);
    let tms = vec![NmSetTm::Single(num(1)), NmSetTm::Subset(IdxTm::Var(v("X"))), NmSetTm::Single(num(2))];
    let r = idxtm_of_nmsettms(&tms);
    let expect = apart(sing(num(1)), apart(IdxTm::Var(v("X")), apart(sing(num(2)), IdxTm::Empty)));
    assert_eq!(r, expect);
}

#[test]
fn apart_round_trip_keeps_order() {
    let i = apart(apart(sing(num(1)), sing(num(2))), apart(IdxTm::Empty, sing(num(3))));
    let r = normal_idxtm(&ctx(), &i);
    let expect = apart(sing(num(1)), apart(sing(num(2)), apart(sing(num(3)), IdxTm::Empty)));
    assert_eq!(r, expect);
}

// ------------------------------------------------------------ index evaluation

#[test]
fn eval_projection_of_pair() {
    let c = ctx();
    let p = IdxTm::Pair(Box::new(sing(num(1))), Box::new(sing(num(2))));
    let r1 = idxtm_eval(&c, IdxTm::Proj1(Box::new(p.dup())));
    assert_eq!(r1, Ok(IdxVal::NmSet(NmSetTm::Single(num(1)))));
    let r2 = idxtm_eval(&c, IdxTm::Proj2(Box::new(p)));
    assert_eq!(r2, Ok(IdxVal::NmSet(NmSetTm::Single(num(2)))));
}

#[test]
fn eval_projection_of_variable_is_abstract() {
    let r = idxtm_eval(&ctx(), IdxTm::Proj1(Box::new(IdxTm::Var(v("x")))));
    assert_eq!(r, Err(IdxEvalErr::AbsIntroForm(v("x"))));
}

#[test]
fn eval_projection_of_name_is_sort_error() {
    let r = idxtm_eval(&ctx(), IdxTm::Proj1(Box::new(sing(num(1)))));
    assert_eq!(r, Err(IdxEvalErr::SortError));
    let r2 = idxtm_eval(&ctx(), IdxTm::App(Box::new(IdxTm::Unit), Box::new(IdxTm::Unit)));
    assert_eq!(r2, Err(IdxEvalErr::SortError));
}

#[test]
fn eval_application_of_lambda() {
    // (#a. (a, ())) {@7}  ~~>  ({@7}, ())
    let f = IdxTm::Lam(v("a"), Sort::NmSet, Box::new(IdxTm::Pair(Box::new(IdxTm::Var(v("a"))), Box::new(IdxTm::Unit))));
    let r = idxtm_eval(&ctx(), IdxTm::App(Box::new(f), Box::new(sing(num(7)))));
    let expect = IdxVal::Pair(Box::new(IdxVal::NmSet(NmSetTm::Single(num(7)))), Box::new(IdxVal::Unit));
    assert_eq!(r, Ok(expect));
}

#[test]
fn eval_application_of_variable_is_abstract() {
    let r = idxtm_eval(&ctx(), IdxTm::App(Box::new(IdxTm::Var(v("f"))), Box::new(IdxTm::Unit)));
    assert_eq!(r, Err(IdxEvalErr::AbsIntroForm(v("f"))));
}

#[test]
fn eval_set_operations_stay_sets() {
    let i = apart(sing(num(1)), IdxTm::Var(v("X")));
    let r = idxtm_eval(&ctx(), i.dup());
    assert_eq!(r, Ok(IdxVal::NmSet(NmSetTm::Subset(i))));
}

#[test]
fn eval_definitions_and_errors() {
    let mut c = Ctx::new(10);
    c.define_idx("P".to_string(), IdxTm::Pair(Box::new(IdxTm::Unit), Box::new(IdxTm::Empty)));
    let r = idxtm_eval(&c, IdxTm::Proj2(Box::new(IdxTm::Ident("P".to_string()))));
    assert_eq!(r, Ok(IdxVal::NmSet(NmSetTm::Subset(IdxTm::Empty))));
    let r2 = idxtm_eval(&c, IdxTm::Ident("Q".to_string()));
    assert_eq!(r2, Err(IdxEvalErr::Undefined("Q".to_string())));
    let r3 = idxtm_eval(&Ctx::new(0), IdxTm::Ident("P".to_string()));
    assert_eq!(r3, Err(IdxEvalErr::Undefined("P".to_string())));
    let mut c0 = Ctx::new(0);
    c0.define_idx("P".to_string(), IdxTm::Unit);
    assert_eq!(idxtm_eval(&c0, IdxTm::Ident("P".to_string())), Err(IdxEvalErr::OutOfFuel));
}

#[test]
fn value_back_to_term() {
    let val = IdxVal::Pair(Box::new(IdxVal::NmSet(NmSetTm::Single(num(1)))), Box::new(IdxVal::Var(v("X"))));
    let r = idxtm_of_idxval(&val);
    assert_eq!(r, IdxTm::Pair(Box::new(sing(num(1))), Box::new(IdxTm::Var(v("X")))));
}

// --------------------------------------------------------------------- types

fn tvar(s: &str) -> Type {
    Type::Var(v(s))
}

fn rec_tree() -> Type {
    // rec a. Unit + (a x a)
    Type::Rec(
        v("a"),
        Box::new(Type::Sum(Box::new(Type::Unit), Box::new(Type::Prod(Box::new(tvar("a")), Box::new(tvar("a")))))),
    )
}

#[test]
fn unroll_then_normalize_is_stable() {
    let t = rec_tree();
    let u = unroll_type(&t);
    let expect = Type::Sum(Box::new(Type::Unit), Box::new(Type::Prod(Box::new(rec_tree()), Box::new(rec_tree()))));
    assert_eq!(u, expect);
    let n = normal_type(&ctx(), &u).unwrap();
    assert_eq!(n, expect);
    assert_eq!(unroll_type(&n), expect);
}

#[test]
fn unroll_other_types_unchanged() {
    let t = Type::Prod(Box::new(Type::Unit), Box::new(tvar("a")));
    assert_eq!(unroll_type(&t), t);
}

#[test]
fn normal_type_expands_definitions() {
    let mut c = ctx();
    c.define_type("Pt".to_string(), Type::Prod(Box::new(Type::Ident("Nat".to_string())), Box::new(Type::Ident("Nat".to_string()))));
    c.define_type("Alias".to_string(), Type::Ident("Pt".to_string()));
    let r = normal_type(&c, &Type::Ident("Alias".to_string()));
    let expect = Type::Prod(Box::new(Type::Ident("Nat".to_string())), Box::new(Type::Ident("Nat".to_string())));
    assert_eq!(r, Ok(expect));
    assert_eq!(normal_type(&c, &Type::Ident("Bool".to_string())), Ok(Type::Ident("Bool".to_string())));
}

#[test]
fn normal_type_latest_definition_wins() {
    let mut c = ctx();
    c.define_type("T".to_string(), Type::Unit);
    c.define_type("T".to_string(), Type::Ident("String".to_string()));
    assert_eq!(normal_type(&c, &Type::Ident("T".to_string())), Ok(Type::Ident("String".to_string())));
}

#[test]
fn normal_type_undefined_is_reported() {
    let r = normal_type(&ctx(), &Type::Ident("Missing".to_string()));
    assert_eq!(r, Err(TypeNormErr::Undefined("Missing".to_string())));
}

#[test]
fn normal_type_index_application() {
    // NmOp := foralli X:NmSet. 1 + Nm[X];  NmOp[{@1}]  ~~>  1 + Nm[{@1}]
    let mut c = ctx();
    let body = Type::Sum(Box::new(Type::Unit), Box::new(Type::Nm(IdxTm::Var(v("X")))));
    c.define_type("NmOp".to_string(), Type::IdxFn(v("X"), Sort::NmSet, Box::new(body)));
    let t = Type::IdxApp(Box::new(Type::Ident("NmOp".to_string())), sing(num(1)));
    let r = normal_type(&c, &t);
    assert_eq!(r, Ok(Type::Sum(Box::new(Type::Unit), Box::new(Type::Nm(sing(num(1)))))));
}

#[test]
fn normal_type_type_application() {
    // (forallt a. a x a) Unit  ~~>  Unit x Unit
    let f = Type::TypeFn(v("a"), Kind::Type, Box::new(Type::Prod(Box::new(tvar("a")), Box::new(tvar("a")))));
    let t = Type::TypeApp(Box::new(f), Box::new(Type::Unit));
    let r = normal_type(&ctx(), &t);
    assert_eq!(r, Ok(Type::Prod(Box::new(Type::Unit), Box::new(Type::Unit))));
}

#[test]
fn normal_type_unrolls_recursive_head() {
    // (rec r. forallt b. b + Unit) Unit  ~~>  Unit + Unit
    let f = Type::Rec(v("r"), Box::new(Type::TypeFn(v("b"), Kind::Type, Box::new(Type::Sum(Box::new(tvar("b")), Box::new(Type::Unit))))));
    let t = Type::TypeApp(Box::new(f), Box::new(Type::Unit));
    assert_eq!(normal_type(&ctx(), &t), Ok(Type::Sum(Box::new(Type::Unit), Box::new(Type::Unit))));
}

#[test]
fn normal_type_substitution_avoids_capture() {
    // (forallt a. forallt b. a x b) b  ~~>  forallt b'. b x b'
    let inner = Type::TypeFn(v("b"), Kind::Type, Box::new(Type::Prod(Box::new(tvar("a")), Box::new(tvar("b")))));
    let f = Type::TypeFn(v("a"), Kind::Type, Box::new(inner));
    let t = Type::TypeApp(Box::new(f), Box::new(tvar("b")));
    let b1 = Var { name: "b".to_string(), tag: 1 };
    let expect = Type::TypeFn(b1.dup(), Kind::Type, Box::new(Type::Prod(Box::new(tvar("b")), Box::new(Type::Var(b1)))));
    assert_eq!(normal_type(&ctx(), &t), Ok(expect));
}

#[test]
fn normal_type_sort_errors() {
    let t = Type::TypeApp(Box::new(Type::Unit), Box::new(Type::Unit));
    assert_eq!(normal_type(&ctx(), &t), Err(TypeNormErr::NotTypeFn(Type::Unit)));
    let t2 = Type::IdxApp(Box::new(Type::Unit), IdxTm::Empty);
    assert_eq!(normal_type(&ctx(), &t2), Err(TypeNormErr::NotIdxFn(Type::Unit)));
}

#[test]
fn normal_type_budget_and_idempotence() {
    let mut c = Ctx::new(3);
    c.define_type("Loop".to_string(), Type::Ident("Loop".to_string()));
    assert_eq!(normal_type(&c, &Type::Ident("Loop".to_string())), Err(TypeNormErr::OutOfFuel));
    let mut d = ctx();
    d.define_type("Pt".to_string(), Type::Prod(Box::new(Type::Unit), Box::new(Type::Unit)));
    let once = normal_type(&d, &Type::Ident("Pt".to_string())).unwrap();
    let twice = normal_type(&d, &once).unwrap();
    assert_eq!(once, twice);
}

#[test]
fn decompose_named_function_and_set() {
    // Bin := #x:Nm. {x * @1} % {x * @2};  S := {@3} % X;  (Bin) S
    let mut c = ctx();
    c.define_idx("Bin".to_string(), bin_fn());
    c.define_idx("S".to_string(), apart(sing(num(3)), IdxTm::Var(v("X"))));
    let f = IdxTm::Ident("Bin".to_string());
    let i = IdxTm::FlatMap(Box::new(f.dup()), Box::new(IdxTm::Ident("S".to_string())));
    let r = nmsettms_of_idxtm(&c, &i);
    let expect = vec![
        NmSetTm::Subset(apart(sing(nbin(num(3), num(1))), sing(nbin(num(3), num(2))))),
        NmSetTm::Subset(IdxTm::FlatMap(Box::new(f), Box::new(IdxTm::Var(v("X"))))),
    ];
    assert_eq!(r, expect);
}

#[test]
fn decompose_undefined_name_is_one_piece() {
    let i = IdxTm::Ident("Nowhere".to_string());
    assert_eq!(nmsettms_of_idxtm(&ctx(), &i), vec![NmSetTm::Subset(i)]);
}

#[test]
fn normal_type_substitutes_argument_as_given() {
    // Alias := Unit;  (forallt a. a x a) Alias  ~~>  Alias x Alias
    let mut c = ctx();
    c.define_type("Alias".to_string(), Type::Unit);
    let f = Type::TypeFn(v("a"), Kind::Type, Box::new(Type::Prod(Box::new(tvar("a")), Box::new(tvar("a")))));
    let t = Type::TypeApp(Box::new(f), Box::new(Type::Ident("Alias".to_string())));
    let alias = || Type::Ident("Alias".to_string());
    assert_eq!(normal_type(&c, &t), Ok(Type::Prod(Box::new(alias()), Box::new(alias()))));
}

#[test]
fn normal_type_ignored_argument_need_not_normalize() {
    // (forallt a. Unit) Missing  ~~>  Unit
    let f = Type::TypeFn(v("a"), Kind::Type, Box::new(Type::Unit));
    let t = Type::TypeApp(Box::new(f), Box::new(Type::Ident("Missing".to_string())));
    assert_eq!(normal_type(&ctx(), &t), Ok(Type::Unit));
}

#[test]
fn eval_application_of_non_function_is_sort_error_before_argument() {
    // () (prj1 x): the head is no function, whatever the argument does
    let arg = IdxTm::Proj1(Box::new(IdxTm::Var(v("x"))));
    let r = idxtm_eval(&ctx(), IdxTm::App(Box::new(IdxTm::Unit), Box::new(arg)));
    assert_eq!(r, Err(IdxEvalErr::SortError));
}

#[test]
fn eval_application_to_variable_reaches_name_terms() {
    // (#x:Nm. {x}) z  ~~>  {z}
    let f = IdxTm::Lam(v("x"), Sort::Nm, Box::new(sing(NameTm::Var(v("x")))));
    let r = idxtm_eval(&ctx(), IdxTm::App(Box::new(f), Box::new(IdxTm::Var(v("z")))));
    assert_eq!(r, Ok(IdxVal::NmSet(NmSetTm::Single(NameTm::Var(v("z"))))));
}
