//! Decoding a parsed JSON value into the typed document model.
//!
//! Each decoder returns the decoded record exactly when the value
//! conforms to the schema of [`crate::schema`], and otherwise the
//! diagnostic for the first offending field in declaration order.

use vstd::prelude::*;
use vstd::string::StringExecFns;

use crate::json::{find_field, seq_elems, shape, shape_of, Json, Shape};
use crate::model::{FleetSelector, Roster, RootOfVehicleFile, VehicleType};
use crate::schema::{
    conforms_roster, conforms_root, conforms_selector, conforms_vehicle, diag_at_key, diag_here,
    err_root, err_roster, err_selector, err_vehicle, first_bad_u16, is_u16_elem,
    lemma_first_bad_roster, lemma_first_bad_u16, lemma_first_bad_vehicle, opt_str_err, opt_str_ok,
    opt_str_val, opt_u16s_err, opt_u16s_ok, opt_u16s_val, opt_u32_err, opt_u32_ok, opt_u32_val,
    opt_view, prefixed, req_bool_err, req_bool_ok, req_bool_val, req_str_err, req_str_ok,
    req_str_val, root_matches, roster_matches, selector_matches, vehicle_matches, Diag,
    ErrKind, KindV, Seg, SegV,
};

verus! {

/// A diagnostic one field deep, at the given key.
fn diag_key(name: &String, kind: ErrKind) -> (d: Diag)
    ensures
        d@ == diag_at_key(name@, kind@),
{
    let path = vec![Seg::Key(name.clone())];
    let d = Diag { path, kind };
    proof {
        assert(d@.path =~= seq![SegV::Key(name@)]);
    }
    d
}

/// A diagnostic for a required field absent from the current object.
fn diag_missing(name: &String) -> (d: Diag)
    ensures
        d@ == diag_here(KindV::Missing(name@)),
{
    let d = Diag { path: Vec::new(), kind: ErrKind::Missing(name.clone()) };
    proof {
        assert(d@.path =~= Seq::<SegV>::empty());
    }
    d
}

/// A diagnostic for a value that should have been an object.
fn diag_not_object(j: &Json) -> (d: Diag)
    ensures
        d@ == diag_here(KindV::Mismatch { expected: Shape::Object, found: shape_of(*j) }),
{
    let kind = ErrKind::Mismatch { expected: Shape::Object, found: shape(j) };
    let d = Diag { path: Vec::new(), kind };
    proof {
        assert(d@.path =~= Seq::<SegV>::empty());
    }
    d
}

/// Relocates a sub-record's diagnostic below one path segment.
fn prefix1(seg: Seg, d: Diag) -> (r: Diag)
    ensures
        r@ == prefixed(seq![seg@], d@),
{
    let ghost d0 = d;
    let mut d = d;
    let mut path: Vec<Seg> = Vec::new();
    path.push(seg);
    path.append(&mut d.path);
    let r = Diag { path, kind: d.kind };
    proof {
        assert(r@.path =~= seq![seg@] + d0@.path);
    }
    r
}

/// Relocates a sub-record's diagnostic below two path segments.
fn prefix2(seg0: Seg, seg1: Seg, d: Diag) -> (r: Diag)
    ensures
        r@ == prefixed(seq![seg0@, seg1@], d@),
{
    let ghost d0 = d;
    let mut d = d;
    let mut path: Vec<Seg> = Vec::new();
    path.push(seg0);
    path.push(seg1);
    path.append(&mut d.path);
    let r = Diag { path, kind: d.kind };
    proof {
        assert(r@.path =~= seq![seg0@, seg1@] + d0@.path);
    }
    r
}

/// Reads an optional string field.
fn get_opt_str(fields: &Vec<(String, Json)>, name: &String) -> (r: Result<Option<String>, Diag>)
    ensures
        r is Ok <==> opt_str_ok(fields@, name@),
        r matches Ok(o) ==> opt_view(o) == opt_str_val(fields@, name@),
        r matches Err(e) ==> e@ == opt_str_err(fields@, name@),
{
    match find_field(fields, name) {
        None => Ok(None),
        Some(v) => match v {
            Json::Text(s) => Ok(Some(s.clone())),
            _ => Err(
                diag_key(name, ErrKind::Mismatch { expected: Shape::Text, found: shape(v) }),
            ),
        },
    }
}

/// Reads a required string field.
fn get_req_str(fields: &Vec<(String, Json)>, name: &String) -> (r: Result<String, Diag>)
    ensures
        r is Ok <==> req_str_ok(fields@, name@),
        r matches Ok(s) ==> s@ == req_str_val(fields@, name@),
        r matches Err(e) ==> e@ == req_str_err(fields@, name@),
{
    match find_field(fields, name) {
        None => Err(diag_missing(name)),
        Some(v) => match v {
            Json::Text(s) => Ok(s.clone()),
            _ => Err(
                diag_key(name, ErrKind::Mismatch { expected: Shape::Text, found: shape(v) }),
            ),
        },
    }
}

/// Reads a required boolean field.
fn get_req_bool(fields: &Vec<(String, Json)>, name: &String) -> (r: Result<bool, Diag>)
    ensures
        r is Ok <==> req_bool_ok(fields@, name@),
        r matches Ok(b) ==> b == req_bool_val(fields@, name@),
        r matches Err(e) ==> e@ == req_bool_err(fields@, name@),
{
    match find_field(fields, name) {
        None => Err(diag_missing(name)),
        Some(v) => match v {
            Json::Boolean(b) => Ok(*b),
            _ => Err(
                diag_key(name, ErrKind::Mismatch { expected: Shape::Boolean, found: shape(v) }),
            ),
        },
    }
}

/// Reads an optional 32-bit unsigned integer field.
fn get_opt_u32(fields: &Vec<(String, Json)>, name: &String) -> (r: Result<Option<u32>, Diag>)
    ensures
        r is Ok <==> opt_u32_ok(fields@, name@),
        r matches Ok(o) ==> o == opt_u32_val(fields@, name@),
        r matches Err(e) ==> e@ == opt_u32_err(fields@, name@),
{
    match find_field(fields, name) {
        None => Ok(None),
        Some(v) => match v {
            Json::UintNumber(n) => {
                if *n <= 0xFFFF_FFFFu64 {
                    Ok(Some(*n as u32))
                } else {
                    Err(
                        diag_key(
                            name,
                            ErrKind::Mismatch { expected: Shape::Unsigned32, found: shape(v) },
                        ),
                    )
                }
            },
            _ => Err(
                diag_key(name, ErrKind::Mismatch { expected: Shape::Unsigned32, found: shape(v) }),
            ),
        },
    }
}

/// Reads an optional field holding a sequence of 16-bit unsigned integers.
#[verifier::loop_isolation(false)]
fn get_opt_u16s(fields: &Vec<(String, Json)>, name: &String) -> (r: Result<
    Option<Vec<u16>>,
    Diag,
>)
    ensures
        r is Ok <==> opt_u16s_ok(fields@, name@),
        r matches Ok(o) ==> o.deep_view() == opt_u16s_val(fields@, name@),
        r matches Err(e) ==> e@ == opt_u16s_err(fields@, name@),
{
    match find_field(fields, name) {
        None => Ok(None),
        Some(v) => match v {
            Json::Sequence(elems) => {
                let n = elems.len();
                let mut out: Vec<u16> = Vec::new();
                for i in 0..n
                    invariant
                        n == elems.len(),
                        out@.len() == i,
                        forall|k: int| 0 <= k < i ==> is_u16_elem(#[trigger] elems@[k]),
                        forall|k: int|
                            0 <= k < i ==> out@[k] == crate::schema::u16_elem_val(elems@[k]),
                {
                    let year: Option<u16> = match &elems[i] {
                        Json::UintNumber(u) => if *u <= 0xFFFFu64 {
                            Some(*u as u16)
                        } else {
                            None
                        },
                        _ => None,
                    };
                    match year {
                        Some(y) => out.push(y),
                        None => {
                            proof {
                                lemma_first_bad_u16(elems@, i as int);
                                assert(seq_elems(*v) == elems@);
                            }
                            let found = shape(&elems[i]);
                            let mut path: Vec<Seg> = Vec::new();
                            path.push(Seg::Key(name.clone()));
                            path.push(Seg::Idx(i));
                            let d = Diag {
                                path,
                                kind: ErrKind::Mismatch { expected: Shape::Unsigned16, found },
                            };
                            proof {
                                assert(d@.path =~= seq![
                                    SegV::Key(name@),
                                    SegV::Idx(first_bad_u16(seq_elems(*v))),
                                ]);
                            }
                            return Err(d);
                        },
                    }
                }
                proof {
                    assert(seq_elems(*v) == elems@);
                    assert(out.deep_view() =~= elems@.map_values(
                        |e: Json| crate::schema::u16_elem_val(e),
                    ));
                }
                Ok(Some(out))
            },
            _ => Err(
                diag_key(name, ErrKind::Mismatch { expected: Shape::Sequence, found: shape(v) }),
            ),
        },
    }
}

/// Decodes a fleet selector, or reports the first offending field.
pub fn decode_selector(j: &Json) -> (r: Result<FleetSelector, Diag>)
    ensures
        r is Ok <==> conforms_selector(*j),
        r matches Ok(s) ==> selector_matches(s, *j),
        r matches Err(e) ==> e@ == err_selector(*j),
{
    let fields = match j {
        Json::Object(fields) => fields,
        _ => {
            return Err(diag_not_object(j));
        },
    };
    let start_number = match get_opt_u32(fields, &String::from_str("start_number")) {
        Ok(o) => o,
        Err(e) => {
            return Err(e);
        },
    };
    let end_number = match get_opt_u32(fields, &String::from_str("end_number")) {
        Ok(o) => o,
        Err(e) => {
            return Err(e);
        },
    };
    let start_text = match get_opt_str(fields, &String::from_str("start_text")) {
        Ok(o) => o,
        Err(e) => {
            return Err(e);
        },
    };
    let end_text = match get_opt_str(fields, &String::from_str("end_text")) {
        Ok(o) => o,
        Err(e) => {
            return Err(e);
        },
    };
    let use_numeric_sorting = match get_req_bool(fields, &String::from_str("use_numeric_sorting")) {
        Ok(b) => b,
        Err(e) => {
            return Err(e);
        },
    };
    Ok(FleetSelector { start_number, end_number, start_text, end_text, use_numeric_sorting })
}

/// Decodes a roster entry, or reports the first offending field.
pub fn decode_roster(j: &Json) -> (r: Result<Roster, Diag>)
    ensures
        r is Ok <==> conforms_roster(*j),
        r matches Ok(entry) ==> roster_matches(entry, *j),
        r matches Err(e) ==> e@ == err_roster(*j),
{
    let fields = match j {
        Json::Object(fields) => fields,
        _ => {
            return Err(diag_not_object(j));
        },
    };
    let sel_name = String::from_str("fleet_selection");
    let fleet_selection = match find_field(fields, &sel_name) {
        None => {
            return Err(diag_missing(&sel_name));
        },
        Some(v) => match decode_selector(v) {
            Ok(s) => s,
            Err(e) => {
                return Err(prefix1(Seg::Key(sel_name), e));
            },
        },
    };
    let engine = match get_opt_str(fields, &String::from_str("engine")) {
        Ok(o) => o,
        Err(e) => {
            return Err(e);
        },
    };
    let transmission = match get_opt_str(fields, &String::from_str("transmission")) {
        Ok(o) => o,
        Err(e) => {
            return Err(e);
        },
    };
    let notes = match get_opt_str(fields, &String::from_str("notes")) {
        Ok(o) => o,
        Err(e) => {
            return Err(e);
        },
    };
    let years = match get_opt_u16s(fields, &String::from_str("years")) {
        Ok(o) => o,
        Err(e) => {
            return Err(e);
        },
    };
    let division = match get_opt_str(fields, &String::from_str("division")) {
        Ok(o) => o,
        Err(e) => {
            return Err(e);
        },
    };
    Ok(Roster { fleet_selection, engine, transmission, notes, years, division })
}

/// Decodes a vehicle type, or reports the first offending field.
#[verifier::loop_isolation(false)]
pub fn decode_vehicle(j: &Json) -> (r: Result<VehicleType, Diag>)
    ensures
        r is Ok <==> conforms_vehicle(*j),
        r matches Ok(vt) ==> vehicle_matches(vt, *j),
        r matches Err(e) ==> e@ == err_vehicle(*j),
{
    let fields = match j {
        Json::Object(fields) => fields,
        _ => {
            return Err(diag_not_object(j));
        },
    };
    let manufacturer = match get_req_str(fields, &String::from_str("manufacturer")) {
        Ok(s) => s,
        Err(e) => {
            return Err(e);
        },
    };
    let model = match get_req_str(fields, &String::from_str("model")) {
        Ok(s) => s,
        Err(e) => {
            return Err(e);
        },
    };
    let roster_name = String::from_str("roster");
    let elems = match find_field(fields, &roster_name) {
        None => {
            return Err(diag_missing(&roster_name));
        },
        Some(v) => match v {
            Json::Sequence(elems) => elems,
            _ => {
                return Err(
                    diag_key(
                        &roster_name,
                        ErrKind::Mismatch { expected: Shape::Sequence, found: shape(v) },
                    ),
                );
            },
        },
    };
    let n = elems.len();
    let mut roster: Vec<Roster> = Vec::new();
    for i in 0..n
        invariant
            n == elems.len(),
            roster@.len() == i,
            forall|k: int| 0 <= k < i ==> conforms_roster(#[trigger] elems@[k]),
            forall|k: int| 0 <= k < i ==> roster_matches(#[trigger] roster@[k], elems@[k]),
    {
        match decode_roster(&elems[i]) {
            Ok(entry) => roster.push(entry),
            Err(e) => {
                proof {
                    lemma_first_bad_roster(elems@, i as int);
                }
                return Err(prefix2(Seg::Key(roster_name), Seg::Idx(i), e));
            },
        }
    }
    Ok(VehicleType { manufacturer, model, roster })
}

/// Decodes a whole roster document, or reports the first offending field.
#[verifier::loop_isolation(false)]
pub fn decode_root(j: &Json) -> (r: Result<RootOfVehicleFile, Diag>)
    ensures
        r is Ok <==> conforms_root(*j),
        r matches Ok(d) ==> root_matches(d, *j),
        r matches Err(e) ==> e@ == err_root(*j),
{
    let fields = match j {
        Json::Object(fields) => fields,
        _ => {
            return Err(diag_not_object(j));
        },
    };
    let vehicles_name = String::from_str("vehicles");
    let elems = match find_field(fields, &vehicles_name) {
        None => {
            return Err(diag_missing(&vehicles_name));
        },
        Some(v) => match v {
            Json::Sequence(elems) => elems,
            _ => {
                return Err(
                    diag_key(
                        &vehicles_name,
                        ErrKind::Mismatch { expected: Shape::Sequence, found: shape(v) },
                    ),
                );
            },
        },
    };
    let n = elems.len();
    let mut vehicles: Vec<VehicleType> = Vec::new();
    for i in 0..n
        invariant
            n == elems.len(),
            vehicles@.len() == i,
            forall|k: int| 0 <= k < i ==> conforms_vehicle(#[trigger] elems@[k]),
            forall|k: int| 0 <= k < i ==> vehicle_matches(#[trigger] vehicles@[k], elems@[k]),
    {
        match decode_vehicle(&elems[i]) {
            Ok(vt) => vehicles.push(vt),
            Err(e) => {
                proof {
                    lemma_first_bad_vehicle(elems@, i as int);
                }
                return Err(prefix2(Seg::Key(vehicles_name), Seg::Idx(i), e));
            },
        }
    }
    Ok(RootOfVehicleFile { vehicles })
}

} // verus!
