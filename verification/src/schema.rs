//! The schema that a roster document must conform to, as spec-level
//! predicates over parsed [`Json`](crate::json::Json) values, together
//! with the diagnostic that is reported when a document does not conform.
//!
//! For each field kind there are three spec functions: whether the field
//! is well-formed (`.._ok`), the value it denotes (`.._val`), and the
//! diagnostic when it is not (`.._err`). `conforms_*` / `*_matches` /
//! `err_*` compose them level by level: root document, vehicle type,
//! roster entry, fleet selector. Fields are checked in declaration order,
//! so `err_*` names the first offending field in that order. Unknown
//! fields are never consulted and therefore never cause failure.

use vstd::prelude::*;

use crate::json::{lookup, obj_fields, seq_elems, shape_of, Json, Shape};
use crate::model::{FleetSelector, Roster, RootOfVehicleFile, VehicleType};

verus! {

/// One step of a field path inside a nested document: a named field of an
/// object, or a position in a sequence.
#[derive(Debug, Clone, PartialEq, Eq)]
pub enum Seg {
    Key(String),
    Idx(usize),
}

/// What went wrong at the end of a diagnostic's path.
#[derive(Debug, Clone, PartialEq, Eq)]
pub enum ErrKind {
    /// A required field is absent from the object the path leads to.
    Missing(String),
    /// The value the path leads to has the wrong shape.
    Mismatch { expected: Shape, found: Shape },
    /// The file's content is not parseable as JSON at all.
    Unparseable,
}

/// A diagnostic locating a schema violation: the path from the document
/// root to the offending place, and what was wrong there.
#[derive(Debug, Clone, PartialEq, Eq)]
pub struct Diag {
    pub path: Vec<Seg>,
    pub kind: ErrKind,
}

pub enum SegV {
    Key(Seq<char>),
    Idx(int),
}

pub enum KindV {
    Missing(Seq<char>),
    Mismatch { expected: Shape, found: Shape },
    Unparseable,
}

pub struct DiagV {
    pub path: Seq<SegV>,
    pub kind: KindV,
}

impl View for Seg {
    type V = SegV;

    open spec fn view(&self) -> SegV {
        match self {
            Seg::Key(s) => SegV::Key(s@),
            Seg::Idx(i) => SegV::Idx(*i as int),
        }
    }
}

impl View for ErrKind {
    type V = KindV;

    open spec fn view(&self) -> KindV {
        match self {
            ErrKind::Missing(s) => KindV::Missing(s@),
            ErrKind::Mismatch { expected, found } => KindV::Mismatch {
                expected: *expected,
                found: *found,
            },
            ErrKind::Unparseable => KindV::Unparseable,
        }
    }
}

impl View for Diag {
    type V = DiagV;

    open spec fn view(&self) -> DiagV {
        DiagV { path: self.path@.map_values(|s: Seg| s@), kind: self.kind@ }
    }
}

/// A diagnostic one field deep.
pub open spec fn diag_at_key(name: Seq<char>, kind: KindV) -> DiagV {
    DiagV { path: seq![SegV::Key(name)], kind }
}

/// A diagnostic at the object the path so far leads to.
pub open spec fn diag_here(kind: KindV) -> DiagV {
    DiagV { path: Seq::empty(), kind }
}

/// A sub-record's diagnostic, relocated below the given path prefix.
pub open spec fn prefixed(pre: Seq<SegV>, d: DiagV) -> DiagV {
    DiagV { path: pre + d.path, kind: d.kind }
}

/// The view of an optional owned string.
pub open spec fn opt_view(o: Option<String>) -> Option<Seq<char>> {
    match o {
        Some(s) => Some(s@),
        None => None,
    }
}

// ---------------------------------------------------------------------
// Field kinds
// ---------------------------------------------------------------------

/// An optional string field: absent, or present with a text value.
pub open spec fn opt_str_ok(fields: Seq<(String, Json)>, name: Seq<char>) -> bool {
    match lookup(fields, name) {
        Some(v) => v is Text,
        None => true,
    }
}

pub open spec fn opt_str_val(fields: Seq<(String, Json)>, name: Seq<char>) -> Option<Seq<char>> {
    match lookup(fields, name) {
        Some(Json::Text(s)) => Some(s@),
        _ => None,
    }
}

pub open spec fn opt_str_err(fields: Seq<(String, Json)>, name: Seq<char>) -> DiagV {
    match lookup(fields, name) {
        Some(v) => diag_at_key(
            name,
            KindV::Mismatch { expected: Shape::Text, found: shape_of(v) },
        ),
        None => arbitrary(),
    }
}

/// A required string field: present with a text value.
pub open spec fn req_str_ok(fields: Seq<(String, Json)>, name: Seq<char>) -> bool {
    match lookup(fields, name) {
        Some(v) => v is Text,
        None => false,
    }
}

pub open spec fn req_str_val(fields: Seq<(String, Json)>, name: Seq<char>) -> Seq<char> {
    match lookup(fields, name) {
        Some(Json::Text(s)) => s@,
        _ => arbitrary(),
    }
}

pub open spec fn req_str_err(fields: Seq<(String, Json)>, name: Seq<char>) -> DiagV {
    match lookup(fields, name) {
        Some(v) => diag_at_key(
            name,
            KindV::Mismatch { expected: Shape::Text, found: shape_of(v) },
        ),
        None => diag_here(KindV::Missing(name)),
    }
}

/// A required boolean field.
pub open spec fn req_bool_ok(fields: Seq<(String, Json)>, name: Seq<char>) -> bool {
    match lookup(fields, name) {
        Some(v) => v is Boolean,
        None => false,
    }
}

pub open spec fn req_bool_val(fields: Seq<(String, Json)>, name: Seq<char>) -> bool {
    match lookup(fields, name) {
        Some(Json::Boolean(b)) => b,
        _ => arbitrary(),
    }
}

pub open spec fn req_bool_err(fields: Seq<(String, Json)>, name: Seq<char>) -> DiagV {
    match lookup(fields, name) {
        Some(v) => diag_at_key(
            name,
            KindV::Mismatch { expected: Shape::Boolean, found: shape_of(v) },
        ),
        None => diag_here(KindV::Missing(name)),
    }
}

/// An optional 32-bit unsigned integer field.
pub open spec fn opt_u32_ok(fields: Seq<(String, Json)>, name: Seq<char>) -> bool {
    match lookup(fields, name) {
        Some(v) => v matches Json::UintNumber(n) && n <= u32::MAX,
        None => true,
    }
}

pub open spec fn opt_u32_val(fields: Seq<(String, Json)>, name: Seq<char>) -> Option<u32> {
    match lookup(fields, name) {
        Some(Json::UintNumber(n)) => Some(n as u32),
        _ => None,
    }
}

pub open spec fn opt_u32_err(fields: Seq<(String, Json)>, name: Seq<char>) -> DiagV {
    match lookup(fields, name) {
        Some(v) => diag_at_key(
            name,
            KindV::Mismatch { expected: Shape::Unsigned32, found: shape_of(v) },
        ),
        None => arbitrary(),
    }
}

/// One element of a `years` sequence: an unsigned integer fitting 16 bits.
pub open spec fn is_u16_elem(j: Json) -> bool {
    j matches Json::UintNumber(n) && n <= u16::MAX
}

pub open spec fn u16_elem_val(j: Json) -> u16 {
    match j {
        Json::UintNumber(n) => n as u16,
        _ => arbitrary(),
    }
}

/// The first position in `s` whose element is not a 16-bit unsigned
/// integer; meaningful only when some element is not.
pub open spec fn first_bad_u16(s: Seq<Json>) -> int
    decreases s.len(),
{
    if s.len() == 0 {
        0
    } else if !is_u16_elem(s[0]) {
        0
    } else {
        1 + first_bad_u16(s.drop_first())
    }
}

/// `first_bad_u16` returns exactly the first failing position.
pub proof fn lemma_first_bad_u16(s: Seq<Json>, i: int)
    requires
        0 <= i < s.len(),
        forall|k: int| 0 <= k < i ==> is_u16_elem(s[k]),
        !is_u16_elem(s[i]),
    ensures
        first_bad_u16(s) == i,
    decreases i,
{
    if i > 0 {
        lemma_first_bad_u16(s.drop_first(), i - 1);
    }
}

/// An optional sequence-of-`u16` field.
pub open spec fn opt_u16s_ok(fields: Seq<(String, Json)>, name: Seq<char>) -> bool {
    match lookup(fields, name) {
        Some(v) => v is Sequence && (forall|i: int|
            0 <= i < seq_elems(v).len() ==> is_u16_elem(#[trigger] seq_elems(v)[i])),
        None => true,
    }
}

pub open spec fn opt_u16s_val(fields: Seq<(String, Json)>, name: Seq<char>) -> Option<Seq<u16>> {
    match lookup(fields, name) {
        Some(Json::Sequence(elems)) => Some(elems@.map_values(|e: Json| u16_elem_val(e))),
        _ => None,
    }
}

pub open spec fn opt_u16s_err(fields: Seq<(String, Json)>, name: Seq<char>) -> DiagV {
    match lookup(fields, name) {
        Some(v) => if !(v is Sequence) {
            diag_at_key(name, KindV::Mismatch { expected: Shape::Sequence, found: shape_of(v) })
        } else {
            let i = first_bad_u16(seq_elems(v));
            DiagV {
                path: seq![SegV::Key(name), SegV::Idx(i)],
                kind: KindV::Mismatch {
                    expected: Shape::Unsigned16,
                    found: shape_of(seq_elems(v)[i]),
                },
            }
        },
        None => arbitrary(),
    }
}

// ---------------------------------------------------------------------
// Fleet selector
// ---------------------------------------------------------------------

/// A value conforms to the fleet-selector schema: an object whose
/// optional numeric bounds fit 32 bits, whose optional text bounds are
/// strings, and whose required `use_numeric_sorting` is a boolean.
pub open spec fn conforms_selector(j: Json) -> bool {
    &&& j is Object
    &&& opt_u32_ok(obj_fields(j), "start_number"@)
    &&& opt_u32_ok(obj_fields(j), "end_number"@)
    &&& opt_str_ok(obj_fields(j), "start_text"@)
    &&& opt_str_ok(obj_fields(j), "end_text"@)
    &&& req_bool_ok(obj_fields(j), "use_numeric_sorting"@)
}

/// `s` is exactly the selector that `j` denotes.
pub open spec fn selector_matches(s: FleetSelector, j: Json) -> bool {
    &&& conforms_selector(j)
    &&& s.start_number == opt_u32_val(obj_fields(j), "start_number"@)
    &&& s.end_number == opt_u32_val(obj_fields(j), "end_number"@)
    &&& opt_view(s.start_text) == opt_str_val(obj_fields(j), "start_text"@)
    &&& opt_view(s.end_text) == opt_str_val(obj_fields(j), "end_text"@)
    &&& s.use_numeric_sorting == req_bool_val(obj_fields(j), "use_numeric_sorting"@)
}

/// The first schema violation in a non-conforming selector value.
pub open spec fn err_selector(j: Json) -> DiagV {
    if !(j is Object) {
        diag_here(KindV::Mismatch { expected: Shape::Object, found: shape_of(j) })
    } else if !opt_u32_ok(obj_fields(j), "start_number"@) {
        opt_u32_err(obj_fields(j), "start_number"@)
    } else if !opt_u32_ok(obj_fields(j), "end_number"@) {
        opt_u32_err(obj_fields(j), "end_number"@)
    } else if !opt_str_ok(obj_fields(j), "start_text"@) {
        opt_str_err(obj_fields(j), "start_text"@)
    } else if !opt_str_ok(obj_fields(j), "end_text"@) {
        opt_str_err(obj_fields(j), "end_text"@)
    } else if !req_bool_ok(obj_fields(j), "use_numeric_sorting"@) {
        req_bool_err(obj_fields(j), "use_numeric_sorting"@)
    } else {
        arbitrary()
    }
}

// ---------------------------------------------------------------------
// Roster entry
// ---------------------------------------------------------------------

/// A value conforms to the roster-entry schema: an object with a required
/// conformant `fleet_selection` and well-typed optional attributes.
pub open spec fn conforms_roster(j: Json) -> bool {
    &&& j is Object
    &&& match lookup(obj_fields(j), "fleet_selection"@) {
        Some(v) => conforms_selector(v),
        None => false,
    }
    &&& opt_str_ok(obj_fields(j), "engine"@)
    &&& opt_str_ok(obj_fields(j), "transmission"@)
    &&& opt_str_ok(obj_fields(j), "notes"@)
    &&& opt_u16s_ok(obj_fields(j), "years"@)
    &&& opt_str_ok(obj_fields(j), "division"@)
}

/// `r` is exactly the roster entry that `j` denotes.
pub open spec fn roster_matches(r: Roster, j: Json) -> bool {
    &&& conforms_roster(j)
    &&& selector_matches(r.fleet_selection, lookup(obj_fields(j), "fleet_selection"@)->Some_0)
    &&& opt_view(r.engine) == opt_str_val(obj_fields(j), "engine"@)
    &&& opt_view(r.transmission) == opt_str_val(obj_fields(j), "transmission"@)
    &&& opt_view(r.notes) == opt_str_val(obj_fields(j), "notes"@)
    &&& r.years.deep_view() == opt_u16s_val(obj_fields(j), "years"@)
    &&& opt_view(r.division) == opt_str_val(obj_fields(j), "division"@)
}

/// The first schema violation in a non-conforming roster-entry value.
pub open spec fn err_roster(j: Json) -> DiagV {
    if !(j is Object) {
        diag_here(KindV::Mismatch { expected: Shape::Object, found: shape_of(j) })
    } else if lookup(obj_fields(j), "fleet_selection"@) is None {
        diag_here(KindV::Missing("fleet_selection"@))
    } else if !conforms_selector(lookup(obj_fields(j), "fleet_selection"@)->Some_0) {
        prefixed(
            seq![SegV::Key("fleet_selection"@)],
            err_selector(lookup(obj_fields(j), "fleet_selection"@)->Some_0),
        )
    } else if !opt_str_ok(obj_fields(j), "engine"@) {
        opt_str_err(obj_fields(j), "engine"@)
    } else if !opt_str_ok(obj_fields(j), "transmission"@) {
        opt_str_err(obj_fields(j), "transmission"@)
    } else if !opt_str_ok(obj_fields(j), "notes"@) {
        opt_str_err(obj_fields(j), "notes"@)
    } else if !opt_u16s_ok(obj_fields(j), "years"@) {
        opt_u16s_err(obj_fields(j), "years"@)
    } else if !opt_str_ok(obj_fields(j), "division"@) {
        opt_str_err(obj_fields(j), "division"@)
    } else {
        arbitrary()
    }
}

// ---------------------------------------------------------------------
// Vehicle type
// ---------------------------------------------------------------------

/// A value conforms to the vehicle-type schema: an object with required
/// `manufacturer` and `model` strings and a required `roster` sequence
/// (possibly empty) of conformant roster entries.
pub open spec fn conforms_vehicle(j: Json) -> bool {
    &&& j is Object
    &&& req_str_ok(obj_fields(j), "manufacturer"@)
    &&& req_str_ok(obj_fields(j), "model"@)
    &&& match lookup(obj_fields(j), "roster"@) {
        Some(v) => v is Sequence && (forall|i: int|
            0 <= i < seq_elems(v).len() ==> conforms_roster(#[trigger] seq_elems(v)[i])),
        None => false,
    }
}

/// `vt` is exactly the vehicle type that `j` denotes.
pub open spec fn vehicle_matches(vt: VehicleType, j: Json) -> bool {
    let elems = seq_elems(lookup(obj_fields(j), "roster"@)->Some_0);
    &&& conforms_vehicle(j)
    &&& vt.manufacturer@ == req_str_val(obj_fields(j), "manufacturer"@)
    &&& vt.model@ == req_str_val(obj_fields(j), "model"@)
    &&& vt.roster@.len() == elems.len()
    &&& forall|i: int| 0 <= i < elems.len() ==> roster_matches(#[trigger] vt.roster@[i], elems[i])
}

/// The first position in `s` whose element is not a conformant roster
/// entry; meaningful only when some element is not.
pub open spec fn first_bad_roster(s: Seq<Json>) -> int
    decreases s.len(),
{
    if s.len() == 0 {
        0
    } else if !conforms_roster(s[0]) {
        0
    } else {
        1 + first_bad_roster(s.drop_first())
    }
}

/// `first_bad_roster` returns exactly the first failing position.
pub proof fn lemma_first_bad_roster(s: Seq<Json>, i: int)
    requires
        0 <= i < s.len(),
        forall|k: int| 0 <= k < i ==> conforms_roster(s[k]),
        !conforms_roster(s[i]),
    ensures
        first_bad_roster(s) == i,
    decreases i,
{
    if i > 0 {
        lemma_first_bad_roster(s.drop_first(), i - 1);
    }
}

/// The first schema violation in a non-conforming vehicle-type value.
pub open spec fn err_vehicle(j: Json) -> DiagV {
    if !(j is Object) {
        diag_here(KindV::Mismatch { expected: Shape::Object, found: shape_of(j) })
    } else if !req_str_ok(obj_fields(j), "manufacturer"@) {
        req_str_err(obj_fields(j), "manufacturer"@)
    } else if !req_str_ok(obj_fields(j), "model"@) {
        req_str_err(obj_fields(j), "model"@)
    } else if lookup(obj_fields(j), "roster"@) is None {
        diag_here(KindV::Missing("roster"@))
    } else if !(lookup(obj_fields(j), "roster"@)->Some_0 is Sequence) {
        diag_at_key(
            "roster"@,
            KindV::Mismatch {
                expected: Shape::Sequence,
                found: shape_of(lookup(obj_fields(j), "roster"@)->Some_0),
            },
        )
    } else {
        let elems = seq_elems(lookup(obj_fields(j), "roster"@)->Some_0);
        let i = first_bad_roster(elems);
        prefixed(seq![SegV::Key("roster"@), SegV::Idx(i)], err_roster(elems[i]))
    }
}

// ---------------------------------------------------------------------
// Root document
// ---------------------------------------------------------------------

/// A value conforms to the root schema: an object with a required
/// `vehicles` sequence (possibly empty) of conformant vehicle types.
pub open spec fn conforms_root(j: Json) -> bool {
    &&& j is Object
    &&& match lookup(obj_fields(j), "vehicles"@) {
        Some(v) => v is Sequence && (forall|i: int|
            0 <= i < seq_elems(v).len() ==> conforms_vehicle(#[trigger] seq_elems(v)[i])),
        None => false,
    }
}

/// `d` is exactly the document that `j` denotes.
pub open spec fn root_matches(d: RootOfVehicleFile, j: Json) -> bool {
    let elems = seq_elems(lookup(obj_fields(j), "vehicles"@)->Some_0);
    &&& conforms_root(j)
    &&& d.vehicles@.len() == elems.len()
    &&& forall|i: int| 0 <= i < elems.len() ==> vehicle_matches(#[trigger] d.vehicles@[i], elems[i])
}

/// The first position in `s` whose element is not a conformant vehicle
/// type; meaningful only when some element is not.
pub open spec fn first_bad_vehicle(s: Seq<Json>) -> int
    decreases s.len(),
{
    if s.len() == 0 {
        0
    } else if !conforms_vehicle(s[0]) {
        0
    } else {
        1 + first_bad_vehicle(s.drop_first())
    }
}

/// `first_bad_vehicle` returns exactly the first failing position.
pub proof fn lemma_first_bad_vehicle(s: Seq<Json>, i: int)
    requires
        0 <= i < s.len(),
        forall|k: int| 0 <= k < i ==> conforms_vehicle(s[k]),
        !conforms_vehicle(s[i]),
    ensures
        first_bad_vehicle(s) == i,
    decreases i,
{
    if i > 0 {
        lemma_first_bad_vehicle(s.drop_first(), i - 1);
    }
}

/// The first schema violation in a non-conforming root value.
pub open spec fn err_root(j: Json) -> DiagV {
    if !(j is Object) {
        diag_here(KindV::Mismatch { expected: Shape::Object, found: shape_of(j) })
    } else if lookup(obj_fields(j), "vehicles"@) is None {
        diag_here(KindV::Missing("vehicles"@))
    } else if !(lookup(obj_fields(j), "vehicles"@)->Some_0 is Sequence) {
        diag_at_key(
            "vehicles"@,
            KindV::Mismatch {
                expected: Shape::Sequence,
                found: shape_of(lookup(obj_fields(j), "vehicles"@)->Some_0),
            },
        )
    } else {
        let elems = seq_elems(lookup(obj_fields(j), "vehicles"@)->Some_0);
        let i = first_bad_vehicle(elems);
        prefixed(seq![SegV::Key("vehicles"@), SegV::Idx(i)], err_vehicle(elems[i]))
    }
}

} // verus!
