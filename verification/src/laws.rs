//! Properties of the schema that hold for every document, proved once
//! and for all: unknown fields never change an outcome, the diagnostics
//! for the common violations are pinned down, empty sequences are
//! accepted, and the outcome of a check is a function of the content
//! alone.

use vstd::prelude::*;

use crate::check::outcome_of;
use crate::json::{lemma_lookup_insert, lookup, obj_fields, seq_elems, shape_of, Json, Shape};
use crate::model::{FleetSelector, Roster, RootOfVehicleFile, VehicleType};
use crate::schema::{
    conforms_roster, conforms_root, conforms_selector, conforms_vehicle, diag_at_key, diag_here,
    err_root, err_selector, err_vehicle, lemma_first_bad_vehicle, opt_str_ok, opt_u32_ok,
    req_str_ok, root_matches, roster_matches, selector_matches, vehicle_matches, DiagV, KindV,
    SegV,
};

verus! {

// ---------------------------------------------------------------------
// Unknown fields are tolerated
// ---------------------------------------------------------------------

/// Inserting a field that the fleet-selector schema does not name, at
/// any position of a selector object, changes neither whether the
/// object conforms nor the selector it denotes.
pub proof fn lemma_selector_ignores_unknown(j1: Json, j2: Json, k: int, e: (String, Json))
    requires
        j1 is Object,
        j2 is Object,
        0 <= k <= obj_fields(j1).len(),
        obj_fields(j2) == obj_fields(j1).insert(k, e),
        e.0@ != "start_number"@,
        e.0@ != "end_number"@,
        e.0@ != "start_text"@,
        e.0@ != "end_text"@,
        e.0@ != "use_numeric_sorting"@,
    ensures
        conforms_selector(j2) == conforms_selector(j1),
        forall|s: FleetSelector| #[trigger] selector_matches(s, j2) == selector_matches(s, j1),
{
    lemma_lookup_insert(obj_fields(j1), k, e, "start_number"@);
    lemma_lookup_insert(obj_fields(j1), k, e, "end_number"@);
    lemma_lookup_insert(obj_fields(j1), k, e, "start_text"@);
    lemma_lookup_insert(obj_fields(j1), k, e, "end_text"@);
    lemma_lookup_insert(obj_fields(j1), k, e, "use_numeric_sorting"@);
}

/// Inserting a field that the roster-entry schema does not name, at any
/// position of a roster object, changes neither whether the object
/// conforms nor the entry it denotes.
pub proof fn lemma_roster_ignores_unknown(j1: Json, j2: Json, k: int, e: (String, Json))
    requires
        j1 is Object,
        j2 is Object,
        0 <= k <= obj_fields(j1).len(),
        obj_fields(j2) == obj_fields(j1).insert(k, e),
        e.0@ != "fleet_selection"@,
        e.0@ != "engine"@,
        e.0@ != "transmission"@,
        e.0@ != "notes"@,
        e.0@ != "years"@,
        e.0@ != "division"@,
    ensures
        conforms_roster(j2) == conforms_roster(j1),
        forall|r: Roster| #[trigger] roster_matches(r, j2) == roster_matches(r, j1),
{
    lemma_lookup_insert(obj_fields(j1), k, e, "fleet_selection"@);
    lemma_lookup_insert(obj_fields(j1), k, e, "engine"@);
    lemma_lookup_insert(obj_fields(j1), k, e, "transmission"@);
    lemma_lookup_insert(obj_fields(j1), k, e, "notes"@);
    lemma_lookup_insert(obj_fields(j1), k, e, "years"@);
    lemma_lookup_insert(obj_fields(j1), k, e, "division"@);
}

/// Inserting a field that the vehicle-type schema does not name, at any
/// position of a vehicle object, changes neither whether the object
/// conforms nor the vehicle type it denotes.
pub proof fn lemma_vehicle_ignores_unknown(j1: Json, j2: Json, k: int, e: (String, Json))
    requires
        j1 is Object,
        j2 is Object,
        0 <= k <= obj_fields(j1).len(),
        obj_fields(j2) == obj_fields(j1).insert(k, e),
        e.0@ != "manufacturer"@,
        e.0@ != "model"@,
        e.0@ != "roster"@,
    ensures
        conforms_vehicle(j2) == conforms_vehicle(j1),
        forall|vt: VehicleType| #[trigger] vehicle_matches(vt, j2) == vehicle_matches(vt, j1),
{
    lemma_lookup_insert(obj_fields(j1), k, e, "manufacturer"@);
    lemma_lookup_insert(obj_fields(j1), k, e, "model"@);
    lemma_lookup_insert(obj_fields(j1), k, e, "roster"@);
}

/// Inserting a field that the root schema does not name, at any
/// position of the root object, changes neither whether the document
/// conforms nor the document it denotes.
pub proof fn lemma_root_ignores_unknown(j1: Json, j2: Json, k: int, e: (String, Json))
    requires
        j1 is Object,
        j2 is Object,
        0 <= k <= obj_fields(j1).len(),
        obj_fields(j2) == obj_fields(j1).insert(k, e),
        e.0@ != "vehicles"@,
    ensures
        conforms_root(j2) == conforms_root(j1),
        forall|d: RootOfVehicleFile| #[trigger] root_matches(d, j2) == root_matches(d, j1),
{
    lemma_lookup_insert(obj_fields(j1), k, e, "vehicles"@);
}

// ---------------------------------------------------------------------
// The common violations and their diagnostics
// ---------------------------------------------------------------------

/// A vehicle-type object without a `manufacturer` field does not
/// conform, and its diagnostic names exactly that field.
pub proof fn lemma_missing_manufacturer(j: Json)
    requires
        j is Object,
        (lookup(obj_fields(j), "manufacturer"@) is None),
    ensures
        !conforms_vehicle(j),
        err_vehicle(j) == diag_here(KindV::Missing("manufacturer"@)),
{
}

/// A document whose vehicle entry lacks `manufacturer` — every earlier
/// entry conforming — is invalid, with a diagnostic whose path points
/// into that entry and whose kind names that field.
pub proof fn lemma_doc_missing_manufacturer(j: Json, i: int)
    requires
        j is Object,
        (lookup(obj_fields(j), "vehicles"@) is Some),
        (lookup(obj_fields(j), "vehicles"@)->Some_0 is Sequence),
        0 <= i < seq_elems(lookup(obj_fields(j), "vehicles"@)->Some_0).len(),
        forall|m: int|
            0 <= m < i ==> conforms_vehicle(
                #[trigger] seq_elems(lookup(obj_fields(j), "vehicles"@)->Some_0)[m],
            ),
        (seq_elems(lookup(obj_fields(j), "vehicles"@)->Some_0)[i] is Object),
        (lookup(
            obj_fields(seq_elems(lookup(obj_fields(j), "vehicles"@)->Some_0)[i]),
            "manufacturer"@,
        ) is None),
    ensures
        !conforms_root(j),
        err_root(j) == (DiagV {
            path: seq![SegV::Key("vehicles"@), SegV::Idx(i)],
            kind: KindV::Missing("manufacturer"@),
        }),
{
    let elems = seq_elems(lookup(obj_fields(j), "vehicles"@)->Some_0);
    lemma_missing_manufacturer(elems[i]);
    lemma_first_bad_vehicle(elems, i);
    assert(seq![SegV::Key("vehicles"@), SegV::Idx(i)] + Seq::<SegV>::empty() =~= seq![
        SegV::Key("vehicles"@),
        SegV::Idx(i),
    ]);
}

/// A selector whose `use_numeric_sorting` holds a non-boolean value does
/// not conform — even with every other field well-formed — and its
/// diagnostic is a type mismatch at exactly that field.
pub proof fn lemma_nonbool_sorting(j: Json)
    requires
        j is Object,
        opt_u32_ok(obj_fields(j), "start_number"@),
        opt_u32_ok(obj_fields(j), "end_number"@),
        opt_str_ok(obj_fields(j), "start_text"@),
        opt_str_ok(obj_fields(j), "end_text"@),
        (lookup(obj_fields(j), "use_numeric_sorting"@) is Some),
        !(lookup(obj_fields(j), "use_numeric_sorting"@)->Some_0 is Boolean),
    ensures
        !conforms_selector(j),
        err_selector(j) == diag_at_key(
            "use_numeric_sorting"@,
            KindV::Mismatch {
                expected: Shape::Boolean,
                found: shape_of(lookup(obj_fields(j), "use_numeric_sorting"@)->Some_0),
            },
        ),
{
}

// ---------------------------------------------------------------------
// Required sequences accept emptiness
// ---------------------------------------------------------------------

/// A document whose `vehicles` sequence is empty conforms: emptiness of
/// the required sequence is not a violation.
pub proof fn lemma_empty_vehicles_valid(j: Json)
    requires
        j is Object,
        (lookup(obj_fields(j), "vehicles"@) is Some),
        (lookup(obj_fields(j), "vehicles"@)->Some_0 is Sequence),
        seq_elems(lookup(obj_fields(j), "vehicles"@)->Some_0).len() == 0,
    ensures
        conforms_root(j),
{
}

/// A vehicle type whose `roster` sequence is empty conforms, provided
/// its `manufacturer` and `model` strings are present.
pub proof fn lemma_empty_roster_valid(j: Json)
    requires
        j is Object,
        req_str_ok(obj_fields(j), "manufacturer"@),
        req_str_ok(obj_fields(j), "model"@),
        (lookup(obj_fields(j), "roster"@) is Some),
        (lookup(obj_fields(j), "roster"@)->Some_0 is Sequence),
        seq_elems(lookup(obj_fields(j), "roster"@)->Some_0).len() == 0,
    ensures
        conforms_vehicle(j),
{
}

// ---------------------------------------------------------------------
// Determinism
// ---------------------------------------------------------------------

/// The outcome a file deserves is a function of its content alone, so
/// checking an unmodified file twice yields the same outcome and the
/// same diagnostic.
pub proof fn lemma_outcome_deterministic(t1: Seq<char>, t2: Seq<char>)
    requires
        t1 == t2,
    ensures
        outcome_of(t1) == outcome_of(t2),
{
}

} // verus!
