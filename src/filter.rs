//! Leaf predicates, logical combinators and the protocol they share.
use vstd::prelude::*;
use core::marker::PhantomData;
use crate::expr::{
    and_filters, and_opt, not_filter, not_opt, opt_pred, or_filters, or_opt, Expr, Pred,
};
use crate::input::{FilterValue, InputModel, InputValue};
use crate::transform::{FilterType, NoTransformator, Transformator};

verus! {

/// A column of an entity's backing relation, known by its name and by the
/// type of its relation.
pub trait Column {
    /// The relation that the column belongs to.
    type Table;

    spec fn spec_name() -> Seq<char>;

    fn name() -> (r: String)
        ensures
            r@ == Self::spec_name(),
    ;
}

/// A column that holds text, on which a pattern match applies.
pub trait TextColumn: Column {}

/// A column whose values compare with values of type `T`.
pub trait ColumnOf<T>: Column {}

/// A node of a filter tree that compiles into an optional expression over
/// the columns of one relation.
pub trait BuildFilter<F: Transformator>: Sized {
    /// The relation whose columns the node compares.
    type Table;

    /// What the node compiles to under the hook `t`.
    spec fn spec_filter(&self, t: &F) -> Option<Pred>;

    /// Whether every leaf of the node is classified as selective.
    spec fn selective_only(&self) -> bool;

    fn into_filter(self, t: &F) -> (r: Option<Expr>)
        ensures
            opt_pred(r) == self.spec_filter(t),
    ;

    /// A hook that drops every selective candidate leaves nothing of a node
    /// whose leaves are all selective.
    proof fn lemma_selective_suppressed(&self, t: &F)
        requires
            self.selective_only(),
            forall|c: Option<Pred>| #[trigger] t.spec_transform(c, FilterType::Selective) is None,
        ensures
            self.spec_filter(t) is None,
    ;
}

/// Compiles a filter tree or record under a hook into one optional
/// expression; `None` means that no filtering applies.
pub fn compile<B: BuildFilter<F>, F: Transformator>(filter: B, hook: &F) -> (r: Option<Expr>)
    ensures
        opt_pred(r) == filter.spec_filter(hook),
{
    filter.into_filter(hook)
}

/// The model of an optional value.
pub open spec fn opt_model<T: View>(v: Option<T>) -> Option<T::V> {
    match v {
        Some(x) => Some(x@),
        None => None,
    }
}

/// The external representation of a leaf's optional value.
pub open spec fn leaf_input_of<T: FilterValue>(v: Option<T::V>) -> InputModel {
    match v {
        Some(x) => T::input_of(x),
        None => InputModel::Null,
    }
}

/// The optional value that an external representation reads as, if any.
pub open spec fn leaf_read<T: FilterValue>(i: InputModel) -> Option<Option<T::V>> {
    match i {
        InputModel::Null => Some(None),
        _ => match T::read_input(i) {
            Some(x) => Some(Some(x)),
            None => None,
        },
    }
}

fn leaf_to_input<T: FilterValue>(v: &Option<T>) -> (r: InputValue)
    ensures
        r@ == leaf_input_of::<T>(opt_model(*v)),
{
    match v {
        Some(x) => x.to_input_value(),
        None => InputValue::Null,
    }
}

fn leaf_from_input<T: FilterValue>(i: &InputValue) -> (r: Option<Option<T>>)
    ensures
        match r {
            None => leaf_read::<T>(i@) is None,
            Some(x) => leaf_read::<T>(i@) == Some(opt_model(x)),
        },
{
    match i {
        InputValue::Null => Some(None),
        _ => match T::from_input_value(i) {
            Some(x) => Some(Some(x)),
            None => None,
        },
    }
}

/// Reading back the external representation of a leaf's value yields that
/// value, present or absent.
pub proof fn lemma_leaf_round_trip<T: FilterValue>(v: Option<T::V>)
    ensures
        leaf_read::<T>(leaf_input_of::<T>(v)) == Some(v),
{
    if let Some(x) = v {
        T::lemma_input_round_trip(x);
    }
}

/// Equality of column `C` with an optional value of type `T`; `C` must
/// compare with `T` ([`ColumnOf<T>`]).
#[derive(Debug)]
pub struct Eq<T, C>(Option<T>, PhantomData<C>);

impl<T: View, C> View for Eq<T, C> {
    type V = Option<T::V>;

    closed spec fn view(&self) -> Option<T::V> {
        opt_model(self.0)
    }
}

impl<T: FilterValue, C: ColumnOf<T>> Eq<T, C> {
    pub fn new(v: Option<T>) -> (r: Self)
        ensures
            r@ == opt_model(v),
    {
        Eq(v, PhantomData)
    }

    pub fn to_input_value(&self) -> (r: InputValue)
        ensures
            r@ == leaf_input_of::<T>(self@),
    {
        leaf_to_input(&self.0)
    }

    /// Reads a leaf back from its external representation.
    pub fn from_input_value(i: &InputValue) -> (r: Option<Self>)
        ensures
            match r {
                None => leaf_read::<T>(i@) is None,
                Some(x) => leaf_read::<T>(i@) == Some(x@),
            },
    {
        match leaf_from_input::<T>(i) {
            Some(v) => Some(Eq(v, PhantomData)),
            None => None,
        }
    }
}

impl<T: FilterValue, C> Clone for Eq<T, C> {
    fn clone(&self) -> (r: Self)
        ensures
            r@ == self@,
    {
        let v = match &self.0 {
            Some(x) => Some(x.copy_value()),
            None => None,
        };
        Eq(v, PhantomData)
    }
}

impl<T: FilterValue, C: ColumnOf<T>, F: Transformator> BuildFilter<F> for Eq<T, C> {
    type Table = C::Table;

    open spec fn spec_filter(&self, t: &F) -> Option<Pred> {
        match self@ {
            None => None,
            Some(v) => t.spec_transform(
                Some(Pred::Eq(C::spec_name(), T::sql_of(v))),
                FilterType::Selective,
            ),
        }
    }

    open spec fn selective_only(&self) -> bool {
        true
    }

    fn into_filter(self, t: &F) -> (r: Option<Expr>) {
        let Eq(filter, _) = self;
        match filter {
            None => None,
            Some(v) => t.transform(
                Some(Expr::Eq(C::name(), v.to_sql_value())),
                FilterType::Selective,
            ),
        }
    }

    proof fn lemma_selective_suppressed(&self, t: &F) {
        if let Some(v) = self@ {
            let c = Some(Pred::Eq(C::spec_name(), T::sql_of(v)));
            assert(t.spec_transform(c, FilterType::Selective) is None);
        }
    }
}

/// Pattern match of the text column `C` against an optional pattern, passed
/// to the backend as it stands; `C` must be a [`TextColumn`].
#[derive(Debug)]
pub struct Like<C>(Option<String>, PhantomData<C>);

impl<C> View for Like<C> {
    type V = Option<Seq<char>>;

    closed spec fn view(&self) -> Option<Seq<char>> {
        opt_model(self.0)
    }
}

impl<C: TextColumn> Like<C> {
    pub fn new(v: Option<String>) -> (r: Self)
        ensures
            r@ == opt_model(v),
    {
        Like(v, PhantomData)
    }

    pub fn to_input_value(&self) -> (r: InputValue)
        ensures
            r@ == leaf_input_of::<String>(self@),
    {
        leaf_to_input(&self.0)
    }

    /// Reads a leaf back from its external representation.
    pub fn from_input_value(i: &InputValue) -> (r: Option<Self>)
        ensures
            match r {
                None => leaf_read::<String>(i@) is None,
                Some(x) => leaf_read::<String>(i@) == Some(x@),
            },
    {
        match leaf_from_input::<String>(i) {
            Some(v) => Some(Like(v, PhantomData)),
            None => None,
        }
    }
}

impl<C> Clone for Like<C> {
    fn clone(&self) -> (r: Self)
        ensures
            r@ == self@,
    {
        let v = match &self.0 {
            Some(x) => Some(x.clone()),
            None => None,
        };
        Like(v, PhantomData)
    }
}

impl<C: TextColumn, F: Transformator> BuildFilter<F> for Like<C> {
    type Table = C::Table;

    open spec fn spec_filter(&self, t: &F) -> Option<Pred> {
        match self@ {
            None => None,
            Some(p) => t.spec_transform(Some(Pred::Like(C::spec_name(), p)), FilterType::Selective),
        }
    }

    open spec fn selective_only(&self) -> bool {
        true
    }

    fn into_filter(self, t: &F) -> (r: Option<Expr>) {
        let Like(filter, _) = self;
        match filter {
            None => None,
            Some(p) => t.transform(Some(Expr::Like(C::name(), p)), FilterType::Selective),
        }
    }

    proof fn lemma_selective_suppressed(&self, t: &F) {
        if let Some(p) = self@ {
            let c = Some(Pred::Like(C::spec_name(), p));
            assert(t.spec_transform(c, FilterType::Selective) is None);
        }
    }
}

/// Conjunction of two filter nodes; nested to the left it folds a sequence.
#[derive(Debug, Clone)]
pub struct And<A, B>(pub A, pub B);

/// Disjunction of two filter nodes.
#[derive(Debug, Clone)]
pub struct Or<A, B>(pub A, pub B);

/// Negation of a filter node.
#[derive(Debug, Clone)]
pub struct Not<A>(pub A);

impl<
    A: BuildFilter<F>,
    B: BuildFilter<F, Table = A::Table>,
    F: Transformator,
> BuildFilter<F> for And<A, B> {
    type Table = A::Table;

    open spec fn spec_filter(&self, t: &F) -> Option<Pred> {
        and_opt(self.0.spec_filter(t), self.1.spec_filter(t))
    }

    open spec fn selective_only(&self) -> bool {
        self.0.selective_only() && self.1.selective_only()
    }

    fn into_filter(self, t: &F) -> (r: Option<Expr>) {
        let And(a, b) = self;
        let ra = a.into_filter(t);
        let rb = b.into_filter(t);
        and_filters(ra, rb)
    }

    proof fn lemma_selective_suppressed(&self, t: &F) {
        self.0.lemma_selective_suppressed(t);
        self.1.lemma_selective_suppressed(t);
    }
}

impl<
    A: BuildFilter<F>,
    B: BuildFilter<F, Table = A::Table>,
    F: Transformator,
> BuildFilter<F> for Or<A, B> {
    type Table = A::Table;

    open spec fn spec_filter(&self, t: &F) -> Option<Pred> {
        or_opt(self.0.spec_filter(t), self.1.spec_filter(t))
    }

    open spec fn selective_only(&self) -> bool {
        self.0.selective_only() && self.1.selective_only()
    }

    fn into_filter(self, t: &F) -> (r: Option<Expr>) {
        let Or(a, b) = self;
        let ra = a.into_filter(t);
        let rb = b.into_filter(t);
        or_filters(ra, rb)
    }

    proof fn lemma_selective_suppressed(&self, t: &F) {
        self.0.lemma_selective_suppressed(t);
        self.1.lemma_selective_suppressed(t);
    }
}

impl<A: BuildFilter<F>, F: Transformator> BuildFilter<F> for Not<A> {
    type Table = A::Table;

    open spec fn spec_filter(&self, t: &F) -> Option<Pred> {
        not_opt(self.0.spec_filter(t))
    }

    open spec fn selective_only(&self) -> bool {
        self.0.selective_only()
    }

    fn into_filter(self, t: &F) -> (r: Option<Expr>) {
        let Not(a) = self;
        let ra = a.into_filter(t);
        not_filter(ra)
    }

    proof fn lemma_selective_suppressed(&self, t: &F) {
        self.0.lemma_selective_suppressed(t);
    }
}

/// An equality leaf without a value compiles to no constraint, whatever the
/// hook.
pub proof fn lemma_absent_eq_inert<T: FilterValue, C: ColumnOf<T>, F: Transformator>(
    e: Eq<T, C>,
    t: F,
)
    requires
        e@ is None,
    ensures
        e.spec_filter(&t) is None,
{
}

/// A pattern leaf without a value compiles to no constraint, whatever the
/// hook.
pub proof fn lemma_absent_like_inert<C: TextColumn, F: Transformator>(e: Like<C>, t: F)
    requires
        e@ is None,
    ensures
        e.spec_filter(&t) is None,
{
}

/// Under the identity hook, an equality leaf holding `v` compiles to
/// `column = v`.
pub proof fn lemma_present_eq<T: FilterValue, C: ColumnOf<T>>(e: Eq<T, C>, v: T::V)
    requires
        e@ == Some(v),
    ensures
        BuildFilter::<NoTransformator>::spec_filter(&e, &NoTransformator) == Some(
            Pred::Eq(C::spec_name(), T::sql_of(v)),
        ),
{
}

/// Under the identity hook, a pattern leaf holding `p` compiles to
/// `column LIKE p`.
pub proof fn lemma_present_like<C: TextColumn>(e: Like<C>, p: Seq<char>)
    requires
        e@ == Some(p),
    ensures
        BuildFilter::<NoTransformator>::spec_filter(&e, &NoTransformator) == Some(
            Pred::Like(C::spec_name(), p),
        ),
{
}

/// A conjunction or disjunction whose children all compile to no constraint
/// compiles to no constraint.
pub proof fn lemma_combinators_inert<
    A: BuildFilter<F>,
    B: BuildFilter<F, Table = A::Table>,
    F: Transformator,
>(
    a: A,
    b: B,
    t: F,
)
    requires
        a.spec_filter(&t) is None,
        b.spec_filter(&t) is None,
    ensures
        And(a, b).spec_filter(&t) is None,
        Or(a, b).spec_filter(&t) is None,
{
}

/// A conjunction or disjunction with exactly one child that compiles to an
/// expression compiles to that expression alone.
pub proof fn lemma_combinators_single<
    A: BuildFilter<F>,
    B: BuildFilter<F, Table = A::Table>,
    F: Transformator,
>(
    a: A,
    b: B,
    t: F,
)
    requires
        a.spec_filter(&t) is None != b.spec_filter(&t) is None,
    ensures
        a.spec_filter(&t) is Some ==> And(a, b).spec_filter(&t) == a.spec_filter(&t)
            && Or(a, b).spec_filter(&t) == a.spec_filter(&t),
        b.spec_filter(&t) is Some ==> And(a, b).spec_filter(&t) == b.spec_filter(&t)
            && Or(a, b).spec_filter(&t) == b.spec_filter(&t),
{
}

/// A negation compiles to no constraint exactly when its child does, and to
/// the negated child otherwise.
pub proof fn lemma_not<A: BuildFilter<F>, F: Transformator>(a: A, t: F)
    ensures
        Not(a).spec_filter(&t) is None <==> a.spec_filter(&t) is None,
        a.spec_filter(&t) matches Some(x) ==> Not(a).spec_filter(&t) == Some(
            Pred::Not(Box::new(x)),
        ),
{
}

/// The results of compiling each node of `s` under the hook `t`.
pub open spec fn filters_of<N: BuildFilter<F>, F: Transformator>(s: Seq<N>, t: &F) -> Seq<
    Option<Pred>,
> {
    s.map_values(|c: N| c.spec_filter(t))
}

/// Left-to-right conjunction of optional predicates, dropping absent ones.
pub open spec fn and_all(s: Seq<Option<Pred>>) -> Option<Pred>
    decreases s.len(),
{
    if s.len() == 0 {
        None
    } else {
        and_opt(and_all(s.drop_last()), s.last())
    }
}

/// Left-to-right disjunction of optional predicates, dropping absent ones.
pub open spec fn or_all(s: Seq<Option<Pred>>) -> Option<Pred>
    decreases s.len(),
{
    if s.len() == 0 {
        None
    } else {
        or_opt(or_all(s.drop_last()), s.last())
    }
}

/// Conjunction of a sequence of filter nodes of one type.
#[derive(Debug, Clone)]
pub struct AndAll<N>(pub Vec<N>);

/// Disjunction of a sequence of filter nodes of one type.
#[derive(Debug, Clone)]
pub struct OrAll<N>(pub Vec<N>);

proof fn lemma_filters_of_prefix<N: BuildFilter<F>, F: Transformator>(s: Seq<N>, k: int, t: &F)
    requires
        0 <= k < s.len(),
    ensures
        filters_of(s.subrange(0, k + 1), t).drop_last() == filters_of(s.subrange(0, k), t),
        filters_of(s.subrange(0, k + 1), t).last() == s[k].spec_filter(t),
        filters_of(s.subrange(0, k + 1), t).len() == k + 1,
{
    assert(filters_of(s.subrange(0, k + 1), t).drop_last() =~= filters_of(s.subrange(0, k), t));
}

impl<N: BuildFilter<F>, F: Transformator> BuildFilter<F> for AndAll<N> {
    type Table = N::Table;

    open spec fn spec_filter(&self, t: &F) -> Option<Pred> {
        and_all(filters_of(self.0@, t))
    }

    open spec fn selective_only(&self) -> bool {
        forall|i: int| 0 <= i < self.0@.len() ==> #[trigger] self.0@[i].selective_only()
    }

    fn into_filter(self, t: &F) -> (r: Option<Expr>) {
        let AndAll(mut v) = self;
        let ghost orig = v@;
        let mut acc: Option<Expr> = None;
        while v.len() > 0
            invariant
                v@.len() <= orig.len(),
                v@ == orig.subrange(orig.len() - v@.len(), orig.len() as int),
                opt_pred(acc) == and_all(filters_of(orig.subrange(0, orig.len() - v@.len()), t)),
            decreases v.len(),
        {
            let ghost k = orig.len() - v@.len();
            let c = v.remove(0);
            proof {
                assert(c == orig[k]);
                lemma_filters_of_prefix(orig, k, t);
                assert(v@ =~= orig.subrange(orig.len() - v@.len(), orig.len() as int));
            }
            let rc = c.into_filter(t);
            acc = and_filters(acc, rc);
        }
        proof {
            assert(orig.subrange(0, orig.len() as int) =~= orig);
        }
        acc
    }

    proof fn lemma_selective_suppressed(&self, t: &F) {
        lemma_all_suppressed(self.0@, t);
        lemma_and_all_inert(filters_of(self.0@, t));
    }
}

impl<N: BuildFilter<F>, F: Transformator> BuildFilter<F> for OrAll<N> {
    type Table = N::Table;

    open spec fn spec_filter(&self, t: &F) -> Option<Pred> {
        or_all(filters_of(self.0@, t))
    }

    open spec fn selective_only(&self) -> bool {
        forall|i: int| 0 <= i < self.0@.len() ==> #[trigger] self.0@[i].selective_only()
    }

    fn into_filter(self, t: &F) -> (r: Option<Expr>) {
        let OrAll(mut v) = self;
        let ghost orig = v@;
        let mut acc: Option<Expr> = None;
        while v.len() > 0
            invariant
                v@.len() <= orig.len(),
                v@ == orig.subrange(orig.len() - v@.len(), orig.len() as int),
                opt_pred(acc) == or_all(filters_of(orig.subrange(0, orig.len() - v@.len()), t)),
            decreases v.len(),
        {
            let ghost k = orig.len() - v@.len();
            let c = v.remove(0);
            proof {
                assert(c == orig[k]);
                lemma_filters_of_prefix(orig, k, t);
                assert(v@ =~= orig.subrange(orig.len() - v@.len(), orig.len() as int));
            }
            let rc = c.into_filter(t);
            acc = or_filters(acc, rc);
        }
        proof {
            assert(orig.subrange(0, orig.len() as int) =~= orig);
        }
        acc
    }

    proof fn lemma_selective_suppressed(&self, t: &F) {
        lemma_all_suppressed(self.0@, t);
        lemma_or_all_inert(filters_of(self.0@, t));
    }
}

proof fn lemma_all_suppressed<N: BuildFilter<F>, F: Transformator>(s: Seq<N>, t: &F)
    requires
        forall|i: int| 0 <= i < s.len() ==> #[trigger] s[i].selective_only(),
        forall|c: Option<Pred>| #[trigger] t.spec_transform(c, FilterType::Selective) is None,
    ensures
        forall|i: int| 0 <= i < s.len() ==> (#[trigger] filters_of(s, t)[i]) is None,
{
    assert forall|i: int| 0 <= i < s.len() implies (#[trigger] filters_of(s, t)[i]) is None by {
        s[i].lemma_selective_suppressed(t);
    }
}

/// A conjunction of children that all compile to no constraint compiles to no
/// constraint.
pub proof fn lemma_and_all_inert(s: Seq<Option<Pred>>)
    requires
        forall|i: int| 0 <= i < s.len() ==> (#[trigger] s[i]) is None,
    ensures
        and_all(s) is None,
    decreases s.len(),
{
    if s.len() > 0 {
        lemma_and_all_inert(s.drop_last());
    }
}

/// A disjunction of children that all compile to no constraint compiles to no
/// constraint.
pub proof fn lemma_or_all_inert(s: Seq<Option<Pred>>)
    requires
        forall|i: int| 0 <= i < s.len() ==> (#[trigger] s[i]) is None,
    ensures
        or_all(s) is None,
    decreases s.len(),
{
    if s.len() > 0 {
        lemma_or_all_inert(s.drop_last());
    }
}

/// A conjunction or disjunction in which only the child at `k` compiles to an
/// expression compiles to that expression alone.
pub proof fn lemma_all_single(s: Seq<Option<Pred>>, k: int)
    requires
        0 <= k < s.len(),
        s[k] is Some,
        forall|i: int| 0 <= i < s.len() && i != k ==> (#[trigger] s[i]) is None,
    ensures
        and_all(s) == s[k],
        or_all(s) == s[k],
    decreases s.len(),
{
    let p = s.drop_last();
    if k == s.len() - 1 {
        assert forall|i: int| 0 <= i < p.len() implies (#[trigger] p[i]) is None by {
            assert(p[i] == s[i]);
        }
        lemma_and_all_inert(p);
        lemma_or_all_inert(p);
    } else {
        assert forall|i: int| 0 <= i < p.len() && i != k implies (#[trigger] p[i]) is None by {
            assert(p[i] == s[i]);
        }
        lemma_all_single(p, k);
        assert(s.last() == s[s.len() - 1]);
    }
}

} // verus!
