use fungi_normal::ast::{IdxTm, Name, NameTm, Sort, Type, Var};
use fungi_normal::subst::{subst_idxtm, subst_idxtm_type, subst_nmtm, subst_type_type};

fn v(s: &str) -> Var {
    Var::new(s)
}

fn tagged(s: &str, tag: u64) -> Var {
    Var { name: s.to_string(), tag }
}

#[test]
fn subst_nmtm_replaces_free_and_respects_shadowing() {
    let n = NameTm::Bin(
        Box::new(NameTm::Var(v("x"))),
        Box::new(NameTm::Lam(v("x"), Sort::Nm, Box::new(NameTm::Var(v("x"))))),
    );
    let r = subst_nmtm(&NameTm::Name(Name::Leaf), &v("x"), &n);
    let expect = NameTm::Bin(
        Box::new(NameTm::Name(Name::Leaf)),
        Box::new(NameTm::Lam(v("x"), Sort::Nm, Box::new(NameTm::Var(v("x"))))),
    );
    assert_eq!(r, expect);
}

#[test]
fn subst_idxtm_renames_capturing_binder() {
    // [y4/x] (#y4. x)  =  #y5. y4, the binder renamed above every tag in sight
    let body = IdxTm::Pair(Box::new(IdxTm::Var(v("x"))), Box::new(IdxTm::Var(v("y"))));
    let i = IdxTm::Lam(v("y"), Sort::NmSet, Box::new(body));
    let r = subst_idxtm(&IdxTm::Var(tagged("y", 4)), &v("x"), &IdxTm::Lam(tagged("y", 4), Sort::NmSet, Box::new(IdxTm::Var(v("x")))));
    let expect = IdxTm::Lam(tagged("y", 5), Sort::NmSet, Box::new(IdxTm::Var(tagged("y", 4))));
    assert_eq!(r, expect);
    // [()/x] (#y. (x, y))  =  #y. ((), y): nothing to capture
    let r2 = subst_idxtm(&IdxTm::Unit, &v("x"), &i);
    let expect2 = IdxTm::Lam(v("y"), Sort::NmSet, Box::new(IdxTm::Pair(Box::new(IdxTm::Unit), Box::new(IdxTm::Var(v("y"))))));
    assert_eq!(r2, expect2);
}

#[test]
fn subst_idxtm_reaches_name_terms() {
    // [nmtm @4 / x] {x * @1}  =  {@4 * @1}
    let i = IdxTm::Sing(NameTm::Bin(Box::new(NameTm::Var(v("x"))), Box::new(NameTm::Name(Name::Num(1)))));
    let r = subst_idxtm(&IdxTm::NmTm(NameTm::Name(Name::Num(4))), &v("x"), &i);
    let expect = IdxTm::Sing(NameTm::Bin(Box::new(NameTm::Name(Name::Num(4))), Box::new(NameTm::Name(Name::Num(1)))));
    assert_eq!(r, expect);
    // a set-valued replacement does not enter name terms
    let r2 = subst_idxtm(&IdxTm::Empty, &v("x"), &i);
    assert_eq!(r2, i);
}

#[test]
fn subst_idxtm_type_renames_index_binder() {
    // [X/Y] (foralli X:NmSet. Nm[Y % X])  =  foralli X'. Nm[X % X']
    let t = Type::IdxFn(
        v("X"),
        Sort::NmSet,
        Box::new(Type::Nm(IdxTm::Apart(Box::new(IdxTm::Var(v("Y"))), Box::new(IdxTm::Var(v("X")))))),
    );
    let r = subst_idxtm_type(&IdxTm::Var(v("X")), &v("Y"), &t);
    let expect = Type::IdxFn(
        tagged("X", 1),
        Sort::NmSet,
        Box::new(Type::Nm(IdxTm::Apart(Box::new(IdxTm::Var(v("X"))), Box::new(IdxTm::Var(tagged("X", 1)))))),
    );
    assert_eq!(r, expect);
}

#[test]
fn subst_type_type_leaves_index_binders_alone() {
    // [Unit/a] (foralli a:Nm. a)  =  foralli a:Nm. Unit  (index and type binders differ)
    let t = Type::IdxFn(v("a"), Sort::Nm, Box::new(Type::Var(v("a"))));
    let r = subst_type_type(&Type::Unit, &v("a"), &t);
    assert_eq!(r, Type::IdxFn(v("a"), Sort::Nm, Box::new(Type::Unit)));
    let rec = Type::Rec(v("a"), Box::new(Type::Var(v("a"))));
    assert_eq!(subst_type_type(&Type::Unit, &v("a"), &rec), Type::Rec(v("a"), Box::new(Type::Var(v("a")))));
}

#[test]
fn subst_type_type_renames_capturing_index_binder() {
    // [Nm[X]/a] (foralli X:NmSet. a)  =  foralli X'. Nm[X]
    let t = Type::IdxFn(v("X"), Sort::NmSet, Box::new(Type::Var(v("a"))));
    let r = subst_type_type(&Type::Nm(IdxTm::Var(v("X"))), &v("a"), &t);
    let expect = Type::IdxFn(tagged("X", 1), Sort::NmSet, Box::new(Type::Nm(IdxTm::Var(v("X")))));
    assert_eq!(r, expect);
}
