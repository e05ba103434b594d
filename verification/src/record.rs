//! The record a user submits: a name and an age, both free text.
//!
//! The age stays text until the backend coerces it; the client sends it
//! exactly as typed.

use vstd::prelude::*;

verus! {

/// One form submission, snapshotted from the input fields at the moment of
/// the triggering click.
pub struct FormRecord {
    pub name: String,
    pub age: String,
}

} // verus!
