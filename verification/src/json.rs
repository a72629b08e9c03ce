//! Opaque structured payloads.
//!
//! Producers attach arbitrary JSON-shaped trees to their registrations, samples
//! and action results. The broker never looks inside one: it stores it, copies
//! it and hands it on.

use vstd::prelude::*;

verus! {

/// `serde_json::Value`, a JSON tree. To the verifier it is a value with no
/// visible structure.
#[verifier::external_type_specification]
#[verifier::external_body]
pub struct ExValue(serde_json::Value);

/// `<serde_json::Value as Clone>::clone`. The impl is derived in serde_json:
/// it rebuilds the same tree node by node, so the copy is the same JSON value.
pub assume_specification[ <serde_json::Value as Clone>::clone ](value: &serde_json::Value) -> (copy:
    serde_json::Value)
    ensures
        copy == *value,
;

} // verus!
