use wundergraph::episode::Episode;
use wundergraph::expr::SqlValue;
use wundergraph::filter::Like;
use wundergraph::input::{FilterValue, InputValue};
use wundergraph::schema::{AppearsInEpisode, HerosId, HerosName};

type HeroIdEq = wundergraph::filter::Eq<i32, HerosId>;
type EpisodeEq = wundergraph::filter::Eq<Episode, AppearsInEpisode>;

#[test]
fn int_leaf_round_trip() {
    let iv = HeroIdEq::new(Some(42)).to_input_value();
    assert_eq!(iv, InputValue::Int(42));
    let back = HeroIdEq::from_input_value(&iv).unwrap();
    assert_eq!(back.to_input_value(), InputValue::Int(42));
}

#[test]
fn absent_leaf_round_trip() {
    let iv = HeroIdEq::new(None).to_input_value();
    assert_eq!(iv, InputValue::Null);
    let back = HeroIdEq::from_input_value(&iv).unwrap();
    assert_eq!(back.to_input_value(), InputValue::Null);
}

#[test]
fn text_leaf_round_trip() {
    let iv = Like::<HerosName>::new(Some("Sky%".to_string())).to_input_value();
    assert_eq!(iv, InputValue::String("Sky%".to_string()));
    let back = Like::<HerosName>::from_input_value(&iv).unwrap();
    assert_eq!(back.to_input_value(), iv);
}

#[test]
fn enum_leaf_round_trip() {
    let iv = EpisodeEq::new(Some(Episode::NEWHOPE)).to_input_value();
    assert_eq!(iv, InputValue::Enum("NEWHOPE".to_string()));
    let back = EpisodeEq::from_input_value(&iv).unwrap();
    assert_eq!(back.to_input_value(), iv);
}

#[test]
fn leaf_rejects_wrong_representation() {
    assert!(HeroIdEq::from_input_value(&InputValue::String("4".to_string())).is_none());
    assert!(Like::<HerosName>::from_input_value(&InputValue::Int(4)).is_none());
    assert!(EpisodeEq::from_input_value(&InputValue::Enum("PHANTOM".to_string())).is_none());
    assert!(EpisodeEq::from_input_value(&InputValue::String("JEDI".to_string())).is_none());
}

#[test]
fn scalar_conversions() {
    assert_eq!(7i32.to_sql_value(), SqlValue::Integer(7));
    assert_eq!(7i32.to_input_value(), InputValue::Int(7));
    assert_eq!(<i32 as FilterValue>::from_input_value(&InputValue::Int(-3)), Some(-3));
    assert_eq!("x".to_string().to_sql_value(), SqlValue::Text("x".to_string()));
    assert_eq!(
        <String as FilterValue>::from_input_value(&InputValue::String("y".to_string())),
        Some("y".to_string())
    );
    assert_eq!(<String as FilterValue>::from_input_value(&InputValue::Null), None);
}

#[test]
fn episode_codes() {
    assert_eq!(Episode::NEWHOPE.to_sql(), 1);
    assert_eq!(Episode::EMPIRE.to_sql(), 2);
    assert_eq!(Episode::JEDI.to_sql(), 3);
    assert_eq!(Episode::from_sql(1), Some(Episode::NEWHOPE));
    assert_eq!(Episode::from_sql(2), Some(Episode::EMPIRE));
    assert_eq!(Episode::from_sql(3), Some(Episode::JEDI));
    assert_eq!(Episode::from_sql(0), None);
    assert_eq!(Episode::from_sql(4), None);
}

#[test]
fn episode_names() {
    assert_eq!(Episode::EMPIRE.name(), "EMPIRE");
    assert_eq!(Episode::from_name(&"JEDI".to_string()), Some(Episode::JEDI));
    assert_eq!(Episode::from_name(&"jedi".to_string()), None);
    assert_eq!(Episode::JEDI.to_input_value(), InputValue::Enum("JEDI".to_string()));
    assert_eq!(Episode::JEDI.to_sql_value(), SqlValue::SmallInt(3));
    assert_eq!(
        <Episode as FilterValue>::from_input_value(&InputValue::Enum("EMPIRE".to_string())),
        Some(Episode::EMPIRE)
    );
}

#[test]
fn cloned_leaves_keep_their_values() {
    let e = EpisodeEq::new(Some(Episode::EMPIRE));
    let c = e.clone();
    assert_eq!(c.to_input_value(), e.to_input_value());
    let n = HeroIdEq::new(Some(5)).clone();
    assert_eq!(n.to_input_value(), InputValue::Int(5));
    let l = Like::<HerosName>::new(Some("Sky%".to_string()));
    assert_eq!(l.clone().to_input_value(), l.to_input_value());
    let absent = Like::<HerosName>::new(None).clone();
    assert_eq!(absent.to_input_value(), InputValue::Null);
    assert_eq!(SqlValue::Integer(1), 1i32.copy_value().to_sql_value());
}
