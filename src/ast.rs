//! The term model: names, sorts, kinds, name terms, index terms and types.
use vstd::prelude::*;

verus! {

/// A bound or free variable. Two variables are the same when both the
/// written name and the tag agree; renaming keeps the name and picks a
/// tag that no other variable in scope carries.
#[derive(Debug, PartialEq, Eq)]
pub struct Var {
    pub name: String,
    pub tag: u64,
}

/// Name literals.
#[derive(Debug, PartialEq, Eq)]
pub enum Name {
    Leaf,
    Bin(Box<Name>, Box<Name>),
    Num(usize),
    Sym(String),
    NoParse(String),
}

/// Sorts of index and name terms.
#[derive(Debug, PartialEq, Eq)]
pub enum Sort {
    Nm,
    NmSet,
    NmArrow(Box<Sort>, Box<Sort>),
    IdxArrow(Box<Sort>, Box<Sort>),
    Unit,
    Prod(Box<Sort>, Box<Sort>),
    NoParse(String),
}

/// Kinds of type-level functions.
#[derive(Debug, PartialEq, Eq)]
pub enum Kind {
    Type,
    TypeParam(Box<Kind>),
    IdxParam(Sort, Box<Kind>),
    NoParse(String),
}

/// Name terms: expressions that denote a name.
#[derive(Debug, PartialEq, Eq)]
pub enum NameTm {
    Var(Var),
    Name(Name),
    Bin(Box<NameTm>, Box<NameTm>),
    Lam(Var, Sort, Box<NameTm>),
    App(Box<NameTm>, Box<NameTm>),
    WriteScope,
    NoParse(String),
}

/// Index terms: name sets, products, functions, and embedded name terms.
#[derive(Debug, PartialEq, Eq)]
pub enum IdxTm {
    /// a bound variable, or a free (unknown) set variable
    Var(Var),
    /// a reference to a named definition
    Ident(String),
    /// singleton name set
    Sing(NameTm),
    /// empty name set
    Empty,
    /// disjoint union
    Apart(Box<IdxTm>, Box<IdxTm>),
    /// general union
    Union(Box<IdxTm>, Box<IdxTm>),
    /// pairwise name combination of two sets
    Bin(Box<IdxTm>, Box<IdxTm>),
    Unit,
    Pair(Box<IdxTm>, Box<IdxTm>),
    Proj1(Box<IdxTm>),
    Proj2(Box<IdxTm>),
    Lam(Var, Sort, Box<IdxTm>),
    App(Box<IdxTm>, Box<IdxTm>),
    /// apply a name function to every element of a set
    NmMap(Box<NameTm>, Box<IdxTm>),
    /// apply a set-valued function to every element and join the results
    FlatMap(Box<IdxTm>, Box<IdxTm>),
    /// iterated flat-map (transitive closure)
    FlatMapStar(Box<IdxTm>, Box<IdxTm>),
    /// a name term used as an index term
    NmTm(NameTm),
    /// the write-scope function, lifted to name sets
    WriteScope,
    Unknown,
    NoParse(String),
}

/// Value types. A named thunk carries the type of the value it produces.
#[derive(Debug, PartialEq, Eq)]
pub enum Type {
    Unit,
    /// a user-defined type, or a built-in primitive (`Nat`, `Bool`, `String`)
    Ident(String),
    Sum(Box<Type>, Box<Type>),
    Prod(Box<Type>, Box<Type>),
    Ref(IdxTm, Box<Type>),
    Thk(IdxTm, Box<Type>),
    IdxApp(Box<Type>, IdxTm),
    TypeApp(Box<Type>, Box<Type>),
    Nm(IdxTm),
    NmFn(NameTm),
    TypeFn(Var, Kind, Box<Type>),
    IdxFn(Var, Sort, Box<Type>),
    Rec(Var, Box<Type>),
    Exists(Var, Box<Sort>, Box<Type>),
    /// a type variable, bound by `TypeFn` or `Rec`
    Var(Var),
    NoParse(String),
}

impl Var {
    /// A variable with the given name and tag zero.
    pub fn new(name: &str) -> (r: Var)
        ensures
            r.name@ == name@,
            r.tag == 0,
    {
        Var { name: name.to_string(), tag: 0 }
    }

    pub open spec fn same(&self, other: &Var) -> bool {
        self.name@ == other.name@ && self.tag == other.tag
    }

    pub fn eq_var(&self, other: &Var) -> (r: bool)
        ensures
            r == self.same(other),
    {
        self.tag == other.tag && self.name == other.name
    }

    pub fn dup(&self) -> (r: Var)
        ensures
            r == *self,
    {
        Var { name: self.name.clone(), tag: self.tag }
    }
}

impl Name {
    pub fn dup(&self) -> (r: Name)
        ensures
            r == *self,
        decreases self,
    {
        match self {
            Name::Leaf => Name::Leaf,
            Name::Bin(a, b) => Name::Bin(Box::new(a.dup()), Box::new(b.dup())),
            Name::Num(k) => Name::Num(*k),
            Name::Sym(s) => Name::Sym(s.clone()),
            Name::NoParse(s) => Name::NoParse(s.clone()),
        }
    }
}

impl Sort {
    pub fn dup(&self) -> (r: Sort)
        ensures
            r == *self,
        decreases self,
    {
        match self {
            Sort::Nm => Sort::Nm,
            Sort::NmSet => Sort::NmSet,
            Sort::NmArrow(a, b) => Sort::NmArrow(Box::new(a.dup()), Box::new(b.dup())),
            Sort::IdxArrow(a, b) => Sort::IdxArrow(Box::new(a.dup()), Box::new(b.dup())),
            Sort::Unit => Sort::Unit,
            Sort::Prod(a, b) => Sort::Prod(Box::new(a.dup()), Box::new(b.dup())),
            Sort::NoParse(s) => Sort::NoParse(s.clone()),
        }
    }
}

impl Kind {
    pub fn dup(&self) -> (r: Kind)
        ensures
            r == *self,
        decreases self,
    {
        match self {
            Kind::Type => Kind::Type,
            Kind::TypeParam(k) => Kind::TypeParam(Box::new(k.dup())),
            Kind::IdxParam(g, k) => Kind::IdxParam(g.dup(), Box::new(k.dup())),
            Kind::NoParse(s) => Kind::NoParse(s.clone()),
        }
    }
}

impl NameTm {
    pub fn dup(&self) -> (r: NameTm)
        ensures
            r == *self,
        decreases self,
    {
        match self {
            NameTm::Var(x) => NameTm::Var(x.dup()),
            NameTm::Name(n) => NameTm::Name(n.dup()),
            NameTm::Bin(a, b) => NameTm::Bin(Box::new(a.dup()), Box::new(b.dup())),
            NameTm::Lam(x, g, b) => NameTm::Lam(x.dup(), g.dup(), Box::new(b.dup())),
            NameTm::App(a, b) => NameTm::App(Box::new(a.dup()), Box::new(b.dup())),
            NameTm::WriteScope => NameTm::WriteScope,
            NameTm::NoParse(s) => NameTm::NoParse(s.clone()),
        }
    }
}

impl IdxTm {
    pub fn dup(&self) -> (r: IdxTm)
        ensures
            r == *self,
        decreases self,
    {
        match self {
            IdxTm::Var(x) => IdxTm::Var(x.dup()),
            IdxTm::Ident(s) => IdxTm::Ident(s.clone()),
            IdxTm::Sing(m) => IdxTm::Sing(m.dup()),
            IdxTm::Empty => IdxTm::Empty,
            IdxTm::Apart(a, b) => IdxTm::Apart(Box::new(a.dup()), Box::new(b.dup())),
            IdxTm::Union(a, b) => IdxTm::Union(Box::new(a.dup()), Box::new(b.dup())),
            IdxTm::Bin(a, b) => IdxTm::Bin(Box::new(a.dup()), Box::new(b.dup())),
            IdxTm::Unit => IdxTm::Unit,
            IdxTm::Pair(a, b) => IdxTm::Pair(Box::new(a.dup()), Box::new(b.dup())),
            IdxTm::Proj1(a) => IdxTm::Proj1(Box::new(a.dup())),
            IdxTm::Proj2(a) => IdxTm::Proj2(Box::new(a.dup())),
            IdxTm::Lam(x, g, b) => IdxTm::Lam(x.dup(), g.dup(), Box::new(b.dup())),
            IdxTm::App(a, b) => IdxTm::App(Box::new(a.dup()), Box::new(b.dup())),
            IdxTm::NmMap(m, b) => IdxTm::NmMap(Box::new(m.dup()), Box::new(b.dup())),
            IdxTm::FlatMap(a, b) => IdxTm::FlatMap(Box::new(a.dup()), Box::new(b.dup())),
            IdxTm::FlatMapStar(a, b) => IdxTm::FlatMapStar(Box::new(a.dup()), Box::new(b.dup())),
            IdxTm::NmTm(m) => IdxTm::NmTm(m.dup()),
            IdxTm::WriteScope => IdxTm::WriteScope,
            IdxTm::Unknown => IdxTm::Unknown,
            IdxTm::NoParse(s) => IdxTm::NoParse(s.clone()),
        }
    }
}

impl Type {
    pub fn dup(&self) -> (r: Type)
        ensures
            r == *self,
        decreases self,
    {
        match self {
            Type::Unit => Type::Unit,
            Type::Ident(s) => Type::Ident(s.clone()),
            Type::Sum(a, b) => Type::Sum(Box::new(a.dup()), Box::new(b.dup())),
            Type::Prod(a, b) => Type::Prod(Box::new(a.dup()), Box::new(b.dup())),
            Type::Ref(i, a) => Type::Ref(i.dup(), Box::new(a.dup())),
            Type::Thk(i, a) => Type::Thk(i.dup(), Box::new(a.dup())),
            Type::IdxApp(a, i) => Type::IdxApp(Box::new(a.dup()), i.dup()),
            Type::TypeApp(a, b) => Type::TypeApp(Box::new(a.dup()), Box::new(b.dup())),
            Type::Nm(i) => Type::Nm(i.dup()),
            Type::NmFn(m) => Type::NmFn(m.dup()),
            Type::TypeFn(x, k, a) => Type::TypeFn(x.dup(), k.dup(), Box::new(a.dup())),
            Type::IdxFn(x, g, a) => Type::IdxFn(x.dup(), g.dup(), Box::new(a.dup())),
            Type::Rec(x, a) => Type::Rec(x.dup(), Box::new(a.dup())),
            Type::Exists(x, g, a) => Type::Exists(x.dup(), Box::new(g.dup()), Box::new(a.dup())),
            Type::Var(x) => Type::Var(x.dup()),
            Type::NoParse(s) => Type::NoParse(s.clone()),
        }
    }
}

} // verus!
