use amdb_parser::error::FormatError;
use amdb_parser::identifiers::{HoldingPointTarget, RunwayId, SEPARATOR};
use amdb_parser::text::find_char;

#[test]
fn runway_id_splits_on_the_separator() {
    let id = RunwayId::parse(String::from("RWY1.RWY2")).unwrap();
    assert_eq!(id, RunwayId(String::from("RWY1"), String::from("RWY2")));
}

#[test]
fn runway_id_of_real_runway_ends() {
    let id = RunwayId::parse(String::from("09L.27R")).unwrap();
    assert_eq!(id.0, "09L");
    assert_eq!(id.1, "27R");
}

#[test]
fn runway_id_without_separator_is_refused() {
    assert_eq!(RunwayId::parse(String::from("RWY1")), Err(FormatError::MissingSeparator));
    assert_eq!(RunwayId::parse(String::new()), Err(FormatError::MissingSeparator));
}

#[test]
fn runway_id_with_more_parts_is_refused() {
    assert_eq!(RunwayId::parse(String::from("A.B.C")), Err(FormatError::ExtraSeparator));
    assert_eq!(RunwayId::parse(String::from("A..B")), Err(FormatError::ExtraSeparator));
    assert_eq!(RunwayId::parse(String::from("..")), Err(FormatError::ExtraSeparator));
}

#[test]
fn runway_id_with_an_empty_part_is_refused() {
    assert_eq!(RunwayId::parse(String::from("A.")), Err(FormatError::EmptyPart));
    assert_eq!(RunwayId::parse(String::from(".B")), Err(FormatError::EmptyPart));
    assert_eq!(RunwayId::parse(String::from(".")), Err(FormatError::EmptyPart));
}

#[test]
fn runway_id_counts_characters_not_bytes() {
    let id = RunwayId::parse(String::from("Zürich.Genève")).unwrap();
    assert_eq!(id, RunwayId(String::from("Zürich"), String::from("Genève")));
    let id = RunwayId::parse(String::from("東.西")).unwrap();
    assert_eq!(id, RunwayId(String::from("東"), String::from("西")));
}

#[test]
fn runway_id_to_string_joins_the_parts() {
    let id = RunwayId(String::from("09L"), String::from("27R"));
    assert_eq!(id.to_string(), "09L.27R");
}

#[test]
fn runway_id_round_trip() {
    let text = String::from("04.22");
    let id = RunwayId::parse(text.clone()).unwrap();
    assert_eq!(id.to_string(), text);
    assert_eq!(RunwayId::parse(id.to_string()), Ok(id));
}

#[test]
fn separator_is_the_full_stop() {
    assert_eq!(SEPARATOR, '.');
}

#[test]
fn target_with_separator_is_a_runway() {
    let target = HoldingPointTarget::parse(String::from("RWY1.RWY2")).unwrap();
    assert_eq!(
        target,
        HoldingPointTarget::Runway(RunwayId(String::from("RWY1"), String::from("RWY2")))
    );
}

#[test]
fn target_without_separator_is_a_taxiway() {
    let target = HoldingPointTarget::parse(String::from("B")).unwrap();
    assert_eq!(target, HoldingPointTarget::Taxiway(String::from("B")));
    let target = HoldingPointTarget::parse(String::from("Alpha 7")).unwrap();
    assert_eq!(target, HoldingPointTarget::Taxiway(String::from("Alpha 7")));
}

#[test]
fn empty_target_is_a_taxiway_without_a_name() {
    assert_eq!(
        HoldingPointTarget::parse(String::new()),
        Ok(HoldingPointTarget::Taxiway(String::new()))
    );
}

#[test]
fn target_with_a_malformed_runway_is_refused() {
    assert_eq!(HoldingPointTarget::parse(String::from("A.B.C")), Err(FormatError::ExtraSeparator));
    assert_eq!(HoldingPointTarget::parse(String::from("A.")), Err(FormatError::EmptyPart));
    assert_eq!(HoldingPointTarget::parse(String::from(".")), Err(FormatError::EmptyPart));
}

#[test]
fn find_char_gives_the_first_index() {
    assert_eq!(find_char("a.b.c", '.'), Some(1));
    assert_eq!(find_char(".", '.'), Some(0));
    assert_eq!(find_char("abc", '.'), None);
    assert_eq!(find_char("", '.'), None);
    assert_eq!(find_char("abc.", '.'), Some(3));
}

#[test]
fn find_char_counts_in_characters() {
    assert_eq!(find_char("éé.x", '.'), Some(2));
    assert_eq!(find_char("東京x", 'x'), Some(2));
}
