//! Derivation of builders for record types.
//!
//! From the description of a record, an ordered list of named and typed
//! fields, [`derive`] synthesizes the description of a companion builder: a
//! type with one storage member per field, setters that fill the members,
//! and a `build` method that returns the record or names the first required
//! field that was never set.
//!
//! How a field is treated follows from its declared type and from its
//! configuration attribute:
//!
//! - a field declared as `Option` of one type is optional;
//! - a field declared as `Vec` of one type is repeated, and with
//!   `#[builder(each = "name")]` it gets a setter that appends one element;
//! - every other field is required.
//!
//! A configuration attribute that is anything but `each = "<name>"` is an
//! error. It is reported in the artifact, at the attribute, and the field
//! gets no part in the builder; the other fields are synthesized as usual.

pub mod artifact;
pub mod attribute;
pub mod behavior;
pub mod classify;
pub mod descriptor;
pub mod laws;
pub mod recognize;
pub mod render;
pub mod synthesize;

use vstd::prelude::*;
use crate::artifact::BuilderArtifact;
use crate::descriptor::TypeDescriptor;
use crate::synthesize::{classify_fields, derived, synthesize};

verus! {

/// Derives the builder of a record.
///
/// The outcome is a function of the descriptor alone: deriving twice from
/// the same descriptor gives the same artifact.
pub fn derive(input: &TypeDescriptor) -> (artifact: BuilderArtifact)
    ensures
        artifact@ == derived(input@),
{
    let classified = classify_fields(input);
    synthesize(input.name.as_str(), &classified)
}

} // verus!
