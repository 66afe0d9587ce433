//! What the synthesized builder does: the meaning of setters and `build`.
//!
//! The artifact fixes the behavior of the builder it describes. A setter
//! that stores is emitted as `self.field = Some(argument)`, one that
//! replaces as `self.field = argument`, one that appends as
//! `self.field.push(argument)`; `build` takes a clone of every storage
//! member in declaration order, and for a required field turns the unset
//! marker into a failure on the spot. This module writes that behavior down
//! over plain mathematical values. It speaks of the artifact: the emitted
//! text has no meaning of its own here.

use vstd::prelude::*;
use crate::artifact::{Action, ExtractionModel, FieldArtifactModel, Initial};

verus! {

/// A value of the program that uses the builder.
pub enum Value<A> {
    /// A value that the builder does not look into.
    Atom(A),
    /// The unset marker, `None`.
    Absent,
    /// A value that is set, `Some(value)`.
    Present(Box<Value<A>>),
    /// A collection, in order.
    List(Seq<Value<A>>),
}

/// One call of a setter: the setter at position `setter` among those of the
/// field at position `field`, with its argument.
pub struct Call<A> {
    pub field: int,
    pub setter: int,
    pub argument: Value<A>,
}

/// What a storage member holds in a fresh builder.
pub open spec fn initial_value<A>(initial: Initial) -> Value<A> {
    match initial {
        Initial::Unset => Value::Absent,
        Initial::Empty => Value::List(Seq::empty()),
    }
}

/// What a storage member holds after a setter with the given action has
/// written `argument` to it. Appending to anything but a collection leaves
/// it as it was.
pub open spec fn written<A>(action: Action, stored: Value<A>, argument: Value<A>) -> Value<A> {
    match action {
        Action::Store => Value::Present(Box::new(argument)),
        Action::Replace => argument,
        Action::Append => match stored {
            Value::List(items) => Value::List(items.push(argument)),
            _ => stored,
        },
    }
}

/// Whether `call` is a call of one of the setters of `field`, which stands
/// at position `at`.
pub open spec fn calls_setter_of<A>(field: FieldArtifactModel, at: int, call: Call<A>) -> bool {
    call.field == at && 0 <= call.setter < field.setters.len()
}

/// What the storage member of `field`, which stands at position `at`, holds
/// after the calls `calls` on a fresh builder, made in order. Calls of other
/// fields' setters leave it alone.
pub open spec fn stored_after<A>(field: FieldArtifactModel, at: int, calls: Seq<Call<A>>) -> Value<
    A,
>
    decreases calls.len(),
{
    if calls.len() == 0 {
        initial_value(field.initial)
    } else {
        let before = stored_after(field, at, calls.drop_last());
        if calls_setter_of(field, at, calls.last()) {
            written(field.setters[calls.last().setter].action, before, calls.last().argument)
        } else {
            before
        }
    }
}

/// What every storage member holds after the calls `calls` on a fresh
/// builder.
pub open spec fn state_after<A>(fields: Seq<FieldArtifactModel>, calls: Seq<Call<A>>) -> Seq<
    Value<A>,
> {
    Seq::new(fields.len(), |i: int| stored_after(fields[i], i, calls))
}

/// What `build` obtains for one field from what its storage member holds:
/// the value, or the message it fails with.
pub open spec fn extracted<A>(extraction: ExtractionModel, stored: Value<A>) -> Result<
    Value<A>,
    Seq<char>,
> {
    match extraction {
        ExtractionModel::Required { message } => match stored {
            Value::Present(value) => Ok(*value),
            _ => Err(message),
        },
        ExtractionModel::Always => Ok(stored),
    }
}

/// What `build` has after the first `upto` fields: their values in order, or
/// the message of the first extraction that failed.
pub open spec fn built_upto<A>(
    fields: Seq<FieldArtifactModel>,
    state: Seq<Value<A>>,
    upto: int,
) -> Result<Seq<Value<A>>, Seq<char>>
    decreases upto,
{
    if upto <= 0 {
        Ok(Seq::empty())
    } else {
        match built_upto(fields, state, upto - 1) {
            Ok(values) => match extracted(fields[upto - 1].extraction, state[upto - 1]) {
                Ok(value) => Ok(values.push(value)),
                Err(message) => Err(message),
            },
            Err(message) => Err(message),
        }
    }
}

/// What `build` returns in the given state: the values of the record's
/// fields in order, or the message of the first extraction that failed.
pub open spec fn built<A>(fields: Seq<FieldArtifactModel>, state: Seq<Value<A>>) -> Result<
    Seq<Value<A>>,
    Seq<char>,
> {
    built_upto(fields, state, fields.len() as int)
}

/// The argument of the last call in `calls` that addresses the field at
/// position `at`.
pub open spec fn last_argument<A>(calls: Seq<Call<A>>, at: int) -> Option<Value<A>>
    decreases calls.len(),
{
    if calls.len() == 0 {
        None
    } else if calls.last().field == at {
        Some(calls.last().argument)
    } else {
        last_argument(calls.drop_last(), at)
    }
}

/// Whether `needle` occurs in `text` as a run of consecutive characters.
pub open spec fn occurs_in(needle: Seq<char>, text: Seq<char>) -> bool {
    exists|start: int|
        0 <= start && start + needle.len() <= text.len() && #[trigger] text.subrange(
            start,
            start + needle.len(),
        ) == needle
}

} // verus!
