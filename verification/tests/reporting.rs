use fleet_check::check::{check_content, Outcome};
use fleet_check::report::{format_u64, report_lines};
use fleet_check::schema::{Diag, ErrKind, Seg};

#[test]
fn numbers_render_in_decimal() {
    assert_eq!(format_u64(0), "0");
    assert_eq!(format_u64(7), "7");
    assert_eq!(format_u64(42), "42");
    assert_eq!(format_u64(1999), "1999");
    assert_eq!(format_u64(4294967295), "4294967295");
}

#[test]
fn a_missing_field_describes_its_path() {
    let diag = Diag {
        path: vec![
            Seg::Key(String::from("vehicles")),
            Seg::Idx(0),
            Seg::Key(String::from("roster")),
            Seg::Idx(12),
            Seg::Key(String::from("fleet_selection")),
        ],
        kind: ErrKind::Missing(String::from("use_numeric_sorting")),
    };
    assert_eq!(
        diag.describe(),
        "missing field `use_numeric_sorting` at $.vehicles[0].roster[12].fleet_selection"
    );
}

#[test]
fn report_lines_announce_and_judge() {
    let path = String::from("vehicles/north/acme.json");

    let (announce, verdict) = report_lines(&path, &Outcome::Valid);
    assert_eq!(announce, "Checking file vehicles/north/acme.json");
    assert_eq!(verdict, "File vehicles/north/acme.json is valid");

    let outcome = check_content("{\"vehicles\":0}");
    let (_, verdict) = report_lines(&path, &outcome);
    assert_eq!(
        verdict,
        "File vehicles/north/acme.json is invalid: expected a sequence but found a number at $.vehicles"
    );
}

#[test]
fn an_unparseable_file_is_said_so() {
    let diag = Diag { path: vec![], kind: ErrKind::Unparseable };
    assert_eq!(diag.describe(), "content is not valid JSON");
}
