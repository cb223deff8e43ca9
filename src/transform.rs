//! The hook through which a caller rewrites or suppresses each leaf predicate.
use vstd::prelude::*;
use crate::expr::{opt_pred, Expr, Pred};

verus! {

/// Classification of a leaf predicate, fixed by its kind.
#[derive(Debug, Clone, Copy, PartialEq, Eq, Structural)]
pub enum FilterType {
    Selective,
    NonSelective,
}

/// A strategy applied to every leaf that holds a value while a filter
/// compiles; leaves without one yield no constraint before it is asked.
///
/// Its decision depends on the candidate expression and the classification
/// alone, which `spec_transform` states.
pub trait Transformator {
    /// What the hook makes of a candidate of the given classification.
    spec fn spec_transform(&self, candidate: Option<Pred>, class: FilterType) -> Option<Pred>;

    fn transform(&self, candidate: Option<Expr>, class: FilterType) -> (r: Option<Expr>)
        ensures
            opt_pred(r) == self.spec_transform(opt_pred(candidate), class),
    ;
}

/// The identity hook: every candidate passes unchanged.
#[derive(Debug, Clone, Copy, Default)]
pub struct NoTransformator;

impl Transformator for NoTransformator {
    open spec fn spec_transform(&self, candidate: Option<Pred>, class: FilterType) -> Option<Pred> {
        candidate
    }

    fn transform(&self, candidate: Option<Expr>, class: FilterType) -> (r: Option<Expr>) {
        candidate
    }
}

/// A hook that drops every predicate of one classification and passes the
/// others unchanged.
#[derive(Debug, Clone, Copy)]
pub struct SuppressClass {
    pub class: FilterType,
}

impl SuppressClass {
    pub fn new(class: FilterType) -> (r: Self)
        ensures
            r.class == class,
    {
        SuppressClass { class }
    }
}

impl Transformator for SuppressClass {
    open spec fn spec_transform(&self, candidate: Option<Pred>, class: FilterType) -> Option<Pred> {
        if class == self.class {
            None
        } else {
            candidate
        }
    }

    fn transform(&self, candidate: Option<Expr>, class: FilterType) -> (r: Option<Expr>) {
        if class == self.class {
            None
        } else {
            candidate
        }
    }
}

/// Whether `c` is one of `names`.
pub open spec fn names_contain(names: Seq<String>, c: Seq<char>) -> bool {
    exists|i: int| 0 <= i < names.len() && (#[trigger] names[i])@ == c
}

fn contains_name(names: &Vec<String>, c: &String) -> (r: bool)
    ensures
        r == names_contain(names@, c@),
{
    let mut i: usize = 0;
    while i < names.len()
        invariant
            i <= names@.len(),
            forall|k: int| 0 <= k < i ==> (#[trigger] names@[k])@ != c@,
        decreases names.len() - i,
    {
        if names[i] == *c {
            return true;
        }
        i = i + 1;
    }
    false
}

/// A hook configuration that names a column the schema does not have.
#[derive(Debug, Clone, PartialEq)]
pub enum ConfigError {
    UnknownColumn(String),
}

/// A hook that drops every leaf on one of a set of columns and passes the
/// others unchanged.
#[derive(Debug, Clone)]
pub struct DenyColumns {
    denied: Vec<String>,
}

impl DenyColumns {
    /// The columns whose leaves are dropped.
    pub closed spec fn denied(&self) -> Seq<String> {
        self.denied@
    }

    /// Builds the hook after checking each denied name against the columns
    /// of the schema; the first unknown name is the error.
    pub fn new(denied: Vec<String>, columns: &Vec<String>) -> (r: Result<
        DenyColumns,
        ConfigError,
    >)
        ensures
            r is Ok <==> forall|i: int|
                0 <= i < denied@.len() ==> names_contain(columns@, (#[trigger] denied@[i])@),
            r matches Ok(h) ==> h.denied() == denied@,
            r matches Err(ConfigError::UnknownColumn(c)) ==> exists|i: int|
                0 <= i < denied@.len() && (#[trigger] denied@[i])@ == c@ && !names_contain(
                    columns@,
                    c@,
                ) && forall|k: int|
                    0 <= k < i ==> names_contain(columns@, (#[trigger] denied@[k])@),
    {
        let mut i: usize = 0;
        while i < denied.len()
            invariant
                i <= denied@.len(),
                forall|k: int| 0 <= k < i ==> names_contain(columns@, (#[trigger] denied@[k])@),
            decreases denied.len() - i,
        {
            if !contains_name(columns, &denied[i]) {
                let c = denied[i].clone();
                return Err(ConfigError::UnknownColumn(c));
            }
            i = i + 1;
        }
        Ok(DenyColumns { denied })
    }
}

/// The column of a leaf candidate; combined candidates have none.
pub open spec fn leaf_column(p: Pred) -> Option<Seq<char>> {
    match p {
        Pred::Eq(c, _) => Some(c),
        Pred::Like(c, _) => Some(c),
        _ => None,
    }
}

fn expr_column(e: &Expr) -> (r: Option<&String>)
    ensures
        match r {
            Some(c) => leaf_column(e@) == Some(c@),
            None => leaf_column(e@) is None,
        },
{
    match e {
        Expr::Eq(c, _) => Some(c),
        Expr::Like(c, _) => Some(c),
        _ => None,
    }
}

impl Transformator for DenyColumns {
    open spec fn spec_transform(&self, candidate: Option<Pred>, class: FilterType) -> Option<Pred> {
        match candidate {
            Some(p) => match leaf_column(p) {
                Some(c) => if names_contain(self.denied(), c) {
                    None
                } else {
                    candidate
                },
                None => candidate,
            },
            None => None,
        }
    }

    fn transform(&self, candidate: Option<Expr>, class: FilterType) -> (r: Option<Expr>) {
        let drop = match &candidate {
            Some(e) => match expr_column(e) {
                Some(c) => contains_name(&self.denied, c),
                None => false,
            },
            None => false,
        };
        if drop {
            None
        } else {
            candidate
        }
    }
}

} // verus!
