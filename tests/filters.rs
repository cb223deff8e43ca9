use wundergraph::entities::{AppearsInFilter, HeroFilter, SpeciesFilter};
use wundergraph::episode::Episode;
use wundergraph::expr::{and_filters, not_filter, or_filters, Expr, SqlValue};
use wundergraph::filter::{compile, And, AndAll, BuildFilter, Like, Not, Or, OrAll};
use wundergraph::schema::{AppearsInEpisode, HerosId, HerosName, HerosSpecies};
use wundergraph::transform::{FilterType, NoTransformator, SuppressClass, Transformator};

type HeroIdEq = wundergraph::filter::Eq<i32, HerosId>;
type HeroSpeciesEq = wundergraph::filter::Eq<i32, HerosSpecies>;

fn species_eq(v: i32) -> Expr {
    Expr::Eq("species".to_string(), SqlValue::Integer(v))
}

fn name_like(p: &str) -> Expr {
    Expr::Like("name".to_string(), p.to_string())
}

fn hero_filter(name: Option<&str>, species: Option<i32>) -> HeroFilter {
    HeroFilter {
        id: HeroIdEq::new(None),
        name: Like::new(name.map(|s| s.to_string())),
        hair_color: Like::new(None),
        species: HeroSpeciesEq::new(species),
        home_world: wundergraph::filter::Eq::new(None),
    }
}

#[test]
fn absent_eq_compiles_to_none() {
    assert_eq!(HeroIdEq::new(None).into_filter(&NoTransformator), None);
}

#[test]
fn absent_like_compiles_to_none() {
    assert_eq!(Like::<HerosName>::new(None).into_filter(&NoTransformator), None);
}

#[test]
fn present_eq_compiles_to_equality() {
    assert_eq!(
        HeroSpeciesEq::new(Some(7)).into_filter(&NoTransformator),
        Some(species_eq(7))
    );
}

#[test]
fn present_like_passes_pattern_unchanged() {
    assert_eq!(
        Like::<HerosName>::new(Some("Sky%_\\".to_string())).into_filter(&NoTransformator),
        Some(name_like("Sky%_\\"))
    );
}

#[test]
fn episode_eq_compiles_to_small_int() {
    let e = wundergraph::filter::Eq::<Episode, AppearsInEpisode>::new(Some(Episode::JEDI));
    assert_eq!(
        e.into_filter(&NoTransformator),
        Some(Expr::Eq("episode".to_string(), SqlValue::SmallInt(3)))
    );
}

#[test]
fn and_of_absent_children_is_none() {
    let f = And(HeroIdEq::new(None), Like::<HerosName>::new(None));
    assert_eq!(f.into_filter(&NoTransformator), None);
    let g = Or(HeroIdEq::new(None), Like::<HerosName>::new(None));
    assert_eq!(g.into_filter(&NoTransformator), None);
}

#[test]
fn combinator_with_one_child_is_that_child() {
    let f = And(HeroIdEq::new(None), HeroSpeciesEq::new(Some(2)));
    assert_eq!(f.into_filter(&NoTransformator), Some(species_eq(2)));
    let g = Or(HeroSpeciesEq::new(Some(2)), HeroIdEq::new(None));
    assert_eq!(g.into_filter(&NoTransformator), Some(species_eq(2)));
}

#[test]
fn and_of_two_children_joins_them() {
    let f = And(HeroSpeciesEq::new(Some(1)), Like::<HerosName>::new(Some("L%".to_string())));
    assert_eq!(
        f.into_filter(&NoTransformator),
        Some(Expr::And(Box::new(species_eq(1)), Box::new(name_like("L%"))))
    );
    let g = Or(HeroSpeciesEq::new(Some(1)), HeroSpeciesEq::new(Some(2)));
    assert_eq!(
        g.into_filter(&NoTransformator),
        Some(Expr::Or(Box::new(species_eq(1)), Box::new(species_eq(2))))
    );
}

#[test]
fn not_of_absent_is_none() {
    assert_eq!(Not(HeroSpeciesEq::new(None)).into_filter(&NoTransformator), None);
}

#[test]
fn not_of_present_negates() {
    assert_eq!(
        Not(HeroSpeciesEq::new(Some(4))).into_filter(&NoTransformator),
        Some(Expr::Not(Box::new(species_eq(4))))
    );
}

#[test]
fn and_all_folds_left_to_right() {
    let f = AndAll(vec![
        HeroSpeciesEq::new(Some(1)),
        HeroSpeciesEq::new(None),
        HeroSpeciesEq::new(Some(2)),
        HeroSpeciesEq::new(Some(3)),
    ]);
    let expected = Expr::And(
        Box::new(Expr::And(Box::new(species_eq(1)), Box::new(species_eq(2)))),
        Box::new(species_eq(3)),
    );
    assert_eq!(f.into_filter(&NoTransformator), Some(expected));
}

#[test]
fn or_all_folds_left_to_right() {
    let f = OrAll(vec![HeroSpeciesEq::new(Some(5)), HeroSpeciesEq::new(Some(6))]);
    assert_eq!(
        f.into_filter(&NoTransformator),
        Some(Expr::Or(Box::new(species_eq(5)), Box::new(species_eq(6))))
    );
}

#[test]
fn sequence_combinators_with_no_constraint() {
    let empty: Vec<HeroIdEq> = Vec::new();
    assert_eq!(AndAll(empty).into_filter(&NoTransformator), None);
    let absent = OrAll(vec![HeroIdEq::new(None), HeroIdEq::new(None)]);
    assert_eq!(absent.into_filter(&NoTransformator), None);
}

#[test]
fn sequence_combinators_with_single_child() {
    let f = AndAll(vec![HeroIdEq::new(None), HeroIdEq::new(Some(9)), HeroIdEq::new(None)]);
    let expected = Some(Expr::Eq("id".to_string(), SqlValue::Integer(9)));
    assert_eq!(f.into_filter(&NoTransformator), expected);
    let g = OrAll(vec![HeroIdEq::new(None), HeroIdEq::new(Some(9))]);
    assert_eq!(
        g.into_filter(&NoTransformator),
        Some(Expr::Eq("id".to_string(), SqlValue::Integer(9)))
    );
}

#[test]
fn record_with_one_field_compiles_to_that_field() {
    assert_eq!(
        hero_filter(None, Some(7)).into_filter(&NoTransformator),
        Some(species_eq(7))
    );
}

#[test]
fn record_with_two_fields_compiles_to_conjunction() {
    assert_eq!(
        hero_filter(Some("Sky%"), Some(7)).into_filter(&NoTransformator),
        Some(Expr::And(Box::new(name_like("Sky%")), Box::new(species_eq(7))))
    );
}

#[test]
fn empty_record_compiles_to_none() {
    assert_eq!(hero_filter(None, None).into_filter(&NoTransformator), None);
    assert_eq!(compile(hero_filter(None, None), &NoTransformator), None);
}

#[test]
fn compile_entry_point_matches_record() {
    assert_eq!(
        compile(hero_filter(None, Some(7)), &NoTransformator),
        Some(species_eq(7))
    );
    let hook = SuppressClass::new(FilterType::Selective);
    assert_eq!(compile(hero_filter(Some("Sky%"), Some(7)), &hook), None);
}

#[test]
fn suppressed_selective_pattern_is_none() {
    let hook = SuppressClass::new(FilterType::Selective);
    assert_eq!(hero_filter(Some("Sky%"), None).into_filter(&hook), None);
}

#[test]
fn suppressed_selective_record_is_none() {
    let hook = SuppressClass::new(FilterType::Selective);
    assert_eq!(hero_filter(Some("Sky%"), Some(7)).into_filter(&hook), None);
    let s = SpeciesFilter {
        id: wundergraph::filter::Eq::new(Some(1)),
        name: Like::new(Some("Wook%".to_string())),
    };
    assert_eq!(s.into_filter(&hook), None);
    let combined = Or(
        Not(hero_filter(None, Some(1))),
        AndAll(vec![hero_filter(Some("A%"), None)]),
    );
    assert_eq!(combined.into_filter(&hook), None);
}

#[test]
fn suppressing_other_class_keeps_record() {
    let hook = SuppressClass::new(FilterType::NonSelective);
    assert_eq!(
        hero_filter(None, Some(7)).into_filter(&hook),
        Some(species_eq(7))
    );
}

#[test]
fn hooks_on_direct_candidates() {
    assert_eq!(
        NoTransformator.transform(Some(species_eq(1)), FilterType::Selective),
        Some(species_eq(1))
    );
    assert_eq!(NoTransformator.transform(None, FilterType::NonSelective), None);
    let hook = SuppressClass::new(FilterType::Selective);
    assert_eq!(hook.transform(Some(species_eq(1)), FilterType::Selective), None);
    assert_eq!(
        hook.transform(Some(species_eq(1)), FilterType::NonSelective),
        Some(species_eq(1))
    );
}

#[test]
fn appears_in_record_filters_on_episode() {
    let f = AppearsInFilter {
        episode: wundergraph::filter::Eq::new(Some(Episode::EMPIRE)),
    };
    assert_eq!(
        f.into_filter(&NoTransformator),
        Some(Expr::Eq("episode".to_string(), SqlValue::SmallInt(2)))
    );
}

#[test]
fn expression_helpers() {
    assert_eq!(and_filters(None, None), None);
    assert_eq!(or_filters(Some(species_eq(1)), None), Some(species_eq(1)));
    assert_eq!(not_filter(None), None);
    assert_eq!(
        and_filters(Some(species_eq(1)), Some(species_eq(2))),
        Some(Expr::And(Box::new(species_eq(1)), Box::new(species_eq(2))))
    );
}
