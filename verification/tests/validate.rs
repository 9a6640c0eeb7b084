use fleet_check::check::{check_content, Outcome};
use fleet_check::decode::{decode_root, decode_roster};
use fleet_check::json::{Json, Shape};
use fleet_check::schema::{Diag, ErrKind, Seg};

fn key(s: &str) -> Seg {
    Seg::Key(String::from(s))
}

fn field(name: &str, v: Json) -> (String, Json) {
    (String::from(name), v)
}

fn text(s: &str) -> Json {
    Json::Text(String::from(s))
}

const EXAMPLE: &str = "{\"vehicles\":[{\"manufacturer\":\"Acme\",\"model\":\"X1\",\"roster\":[{\"fleet_selection\":{\"use_numeric_sorting\":true,\"start_number\":100,\"end_number\":120},\"division\":\"North\"}]}]}";

#[test]
fn example_document_is_valid() {
    assert_eq!(check_content(EXAMPLE), Outcome::Valid);
}

#[test]
fn example_without_sorting_flag_is_invalid() {
    let without = EXAMPLE.replace("\"use_numeric_sorting\":true,", "");
    let expected = Diag {
        path: vec![key("vehicles"), Seg::Idx(0), key("roster"), Seg::Idx(0), key(
            "fleet_selection",
        )],
        kind: ErrKind::Missing(String::from("use_numeric_sorting")),
    };
    assert_eq!(check_content(&without), Outcome::Invalid(expected));
}

#[test]
fn unknown_fields_are_tolerated_at_every_level() {
    let doc = "{\"comment\":\"extra\",\"vehicles\":[{\"manufacturer\":\"Acme\",\"sold\":false,\"model\":\"X1\",\"roster\":[{\"fleet_selection\":{\"use_numeric_sorting\":false,\"hint\":[1,2],\"start_text\":\"A1\"},\"engine\":\"V8\",\"color\":{\"r\":1}}]}]}";
    assert_eq!(check_content(doc), Outcome::Valid);
}

#[test]
fn missing_manufacturer_is_reported() {
    let doc = "{\"vehicles\":[{\"model\":\"X1\",\"roster\":[]}]}";
    let expected = Diag {
        path: vec![key("vehicles"), Seg::Idx(0)],
        kind: ErrKind::Missing(String::from("manufacturer")),
    };
    assert_eq!(check_content(doc), Outcome::Invalid(expected));
}

#[test]
fn non_boolean_sorting_flag_is_a_type_mismatch() {
    let doc = EXAMPLE.replace("\"use_numeric_sorting\":true", "\"use_numeric_sorting\":\"yes\"");
    let expected = Diag {
        path: vec![
            key("vehicles"),
            Seg::Idx(0),
            key("roster"),
            Seg::Idx(0),
            key("fleet_selection"),
            key("use_numeric_sorting"),
        ],
        kind: ErrKind::Mismatch { expected: Shape::Boolean, found: Shape::Text },
    };
    assert_eq!(check_content(&doc), Outcome::Invalid(expected));
}

#[test]
fn empty_vehicles_sequence_is_valid() {
    assert_eq!(check_content("{\"vehicles\":[]}"), Outcome::Valid);
}

#[test]
fn empty_roster_sequence_is_valid() {
    let doc = "{\"vehicles\":[{\"manufacturer\":\"Acme\",\"model\":\"X1\",\"roster\":[]}]}";
    assert_eq!(check_content(doc), Outcome::Valid);
}

#[test]
fn checking_twice_gives_identical_outcomes() {
    let bad = EXAMPLE.replace("\"model\":\"X1\",", "");
    assert_eq!(check_content(EXAMPLE), check_content(EXAMPLE));
    assert_eq!(check_content(&bad), check_content(&bad));
}

#[test]
fn unparseable_text_is_invalid() {
    let expected = Diag { path: vec![], kind: ErrKind::Unparseable };
    assert_eq!(check_content("not json at all {"), Outcome::Invalid(expected));
}

#[test]
fn root_must_be_an_object() {
    let expected = Diag {
        path: vec![],
        kind: ErrKind::Mismatch { expected: Shape::Object, found: Shape::Sequence },
    };
    assert_eq!(check_content("[1,2]"), Outcome::Invalid(expected));
}

#[test]
fn vehicles_must_be_a_sequence() {
    let expected = Diag {
        path: vec![key("vehicles")],
        kind: ErrKind::Mismatch { expected: Shape::Sequence, found: Shape::Number },
    };
    assert_eq!(check_content("{\"vehicles\":7}"), Outcome::Invalid(expected));
}

#[test]
fn negative_fleet_number_is_rejected() {
    let doc = EXAMPLE.replace("\"start_number\":100", "\"start_number\":-5");
    let expected = Diag {
        path: vec![
            key("vehicles"),
            Seg::Idx(0),
            key("roster"),
            Seg::Idx(0),
            key("fleet_selection"),
            key("start_number"),
        ],
        kind: ErrKind::Mismatch { expected: Shape::Unsigned32, found: Shape::Number },
    };
    assert_eq!(check_content(&doc), Outcome::Invalid(expected));
}

#[test]
fn fleet_number_beyond_32_bits_is_rejected() {
    let doc = EXAMPLE.replace("\"start_number\":100", "\"start_number\":5000000000");
    let expected = Diag {
        path: vec![
            key("vehicles"),
            Seg::Idx(0),
            key("roster"),
            Seg::Idx(0),
            key("fleet_selection"),
            key("start_number"),
        ],
        kind: ErrKind::Mismatch { expected: Shape::Unsigned32, found: Shape::Number },
    };
    assert_eq!(check_content(&doc), Outcome::Invalid(expected));
}

#[test]
fn bad_year_element_is_located_by_index() {
    let doc = EXAMPLE.replace("\"division\":\"North\"", "\"years\":[1999,\"x\"]");
    let expected = Diag {
        path: vec![
            key("vehicles"),
            Seg::Idx(0),
            key("roster"),
            Seg::Idx(0),
            key("years"),
            Seg::Idx(1),
        ],
        kind: ErrKind::Mismatch { expected: Shape::Unsigned16, found: Shape::Text },
    };
    assert_eq!(check_content(&doc), Outcome::Invalid(expected));
}

#[test]
fn year_beyond_16_bits_is_rejected() {
    let doc = EXAMPLE.replace("\"division\":\"North\"", "\"years\":[70000]");
    let expected = Diag {
        path: vec![
            key("vehicles"),
            Seg::Idx(0),
            key("roster"),
            Seg::Idx(0),
            key("years"),
            Seg::Idx(0),
        ],
        kind: ErrKind::Mismatch { expected: Shape::Unsigned16, found: Shape::Number },
    };
    assert_eq!(check_content(&doc), Outcome::Invalid(expected));
}

#[test]
fn decoded_document_carries_the_field_values() {
    let selector = Json::Object(vec![
        field("use_numeric_sorting", Json::Boolean(true)),
        field("start_number", Json::UintNumber(100)),
        field("end_number", Json::UintNumber(120)),
    ]);
    let roster = Json::Object(vec![
        field("fleet_selection", selector),
        field("division", text("North")),
        field("years", Json::Sequence(vec![Json::UintNumber(1999), Json::UintNumber(2003)])),
    ]);
    let vehicle = Json::Object(vec![
        field("manufacturer", text("Acme")),
        field("model", text("X1")),
        field("roster", Json::Sequence(vec![roster])),
    ]);
    let root = Json::Object(vec![field("vehicles", Json::Sequence(vec![vehicle]))]);

    let doc = decode_root(&root).expect("document should decode");
    assert_eq!(doc.vehicles.len(), 1);
    let vt = &doc.vehicles[0];
    assert_eq!(vt.manufacturer, "Acme");
    assert_eq!(vt.model, "X1");
    assert_eq!(vt.roster.len(), 1);
    let entry = &vt.roster[0];
    assert_eq!(entry.fleet_selection.start_number, Some(100));
    assert_eq!(entry.fleet_selection.end_number, Some(120));
    assert_eq!(entry.fleet_selection.start_text, None);
    assert_eq!(entry.fleet_selection.end_text, None);
    assert!(entry.fleet_selection.use_numeric_sorting);
    assert_eq!(entry.engine, None);
    assert_eq!(entry.transmission, None);
    assert_eq!(entry.notes, None);
    assert_eq!(entry.years, Some(vec![1999, 2003]));
    assert_eq!(entry.division, Some(String::from("North")));
}

#[test]
fn absent_and_empty_optional_fields_differ() {
    let with_empty = Json::Object(vec![
        field(
            "fleet_selection",
            Json::Object(vec![field("use_numeric_sorting", Json::Boolean(false))]),
        ),
        field("engine", text("")),
    ]);
    let entry = decode_roster(&with_empty).expect("entry should decode");
    assert_eq!(entry.engine, Some(String::from("")));
    assert_eq!(entry.transmission, None);
}

#[test]
fn duplicate_keys_resolve_to_the_last_occurrence() {
    // serde_json's map keeps one value per key: the later occurrence wins.
    let doc = "{\"vehicles\":[],\"vehicles\":7}";
    let expected = Diag {
        path: vec![key("vehicles")],
        kind: ErrKind::Mismatch { expected: Shape::Sequence, found: Shape::Number },
    };
    assert_eq!(check_content(doc), Outcome::Invalid(expected));
}
