//! What holds of every derivation: laws about the artifact and about the
//! behavior of the builder it describes.

use vstd::prelude::*;
use crate::artifact::{
    Action, ArtifactModel, ErrorModel, ExtractionModel, FieldArtifactModel, Initial,
    SetterModel,
};
use crate::attribute::{
    attribute_result, each_key, expected_each, first_marker, malformed_at, name_result,
    pair_name, AttrModel, EachModel,
};
use crate::behavior::{
    built, built_upto, calls_setter_of, extracted, initial_value, last_argument, occurs_in,
    state_after, stored_after, written, Call, Value,
};
use crate::classify::{classification_of, ClassModel};
use crate::descriptor::{DescriptorModel, FieldModel, TypeModel};
use crate::synthesize::{
    classified, derived, field_artifact, kept_errors, kept_fields, missing_message, reported,
    synthesized, ClassifiedModel,
};

verus! {

/// Every field among the first `upto` contributes either its pieces or an
/// error artifact, never both and never neither.
pub proof fn lemma_every_field_contributes_once(classified: Seq<ClassifiedModel>, upto: int)
    requires
        0 <= upto <= classified.len(),
    ensures
        kept_fields(classified, upto).len() + kept_errors(classified, upto).len() == upto,
    decreases upto,
{
    if upto > 0 {
        lemma_every_field_contributes_once(classified, upto - 1);
    }
}

/// The contributions of the first `upto` fields stay where they are when
/// more fields follow.
proof fn lemma_kept_is_prefix(classified: Seq<ClassifiedModel>, upto: int, later: int)
    requires
        0 <= upto <= later <= classified.len(),
    ensures
        kept_fields(classified, upto).len() <= kept_fields(classified, later).len(),
        kept_errors(classified, upto).len() <= kept_errors(classified, later).len(),
        forall|j: int|
            0 <= j < kept_fields(classified, upto).len() ==> kept_fields(classified, later)[j]
                == kept_fields(classified, upto)[j],
        forall|j: int|
            0 <= j < kept_errors(classified, upto).len() ==> kept_errors(classified, later)[j]
                == kept_errors(classified, upto)[j],
    decreases later - upto,
{
    if upto < later {
        lemma_kept_is_prefix(classified, upto, later - 1);
    }
}

/// A field that classifies contributes its own pieces, whatever the other
/// fields are: they stand in the artifact after the pieces of the fields
/// before it that classified.
pub proof fn lemma_classified_field_is_synthesized(
    record_name: Seq<char>,
    classified: Seq<ClassifiedModel>,
    at: int,
)
    requires
        0 <= at < classified.len(),
        classified[at].outcome is Ok,
    ensures
        ({
            let artifact = synthesized(record_name, classified);
            let position = kept_fields(classified, at).len() as int;
            &&& position < artifact.fields.len()
            &&& artifact.fields[position] == field_artifact(
                classified[at].field,
                classified[at].outcome->Ok_0,
            )
        }),
{
    lemma_kept_is_prefix(classified, at + 1, classified.len() as int);
}

/// A field whose configuration is malformed contributes one error artifact,
/// which carries the diagnostic and the field's position. It stands after
/// the error artifacts of the fields before it.
pub proof fn lemma_malformed_field_is_reported(
    record_name: Seq<char>,
    classified: Seq<ClassifiedModel>,
    at: int,
)
    requires
        0 <= at < classified.len(),
        classified[at].outcome is Err,
    ensures
        ({
            let artifact = synthesized(record_name, classified);
            let position = kept_errors(classified, at).len() as int;
            &&& position < artifact.error_artifacts.len()
            &&& artifact.error_artifacts[position] == reported(classified[at].outcome->Err_0, at)
        }),
{
    lemma_kept_is_prefix(classified, at + 1, classified.len() as int);
}

/// Taking a field with a malformed configuration out of the record leaves
/// the contributions of the fields before position `upto` as they were.
proof fn lemma_kept_fields_without(classified: Seq<ClassifiedModel>, at: int, upto: int)
    requires
        0 <= at < classified.len(),
        classified[at].outcome is Err,
        0 <= upto <= classified.len(),
    ensures
        upto <= at ==> kept_fields(classified.remove(at), upto) == kept_fields(classified, upto),
        upto > at ==> kept_fields(classified.remove(at), upto - 1) == kept_fields(
            classified,
            upto,
        ),
    decreases upto,
{
    if upto > 0 {
        lemma_kept_fields_without(classified, at, upto - 1);
        if upto - 1 < at {
            assert(classified.remove(at)[upto - 1] == classified[upto - 1]);
        } else if upto - 1 > at {
            assert(classified.remove(at)[upto - 2] == classified[upto - 1]);
        }
    }
}

/// A field whose configuration attribute is malformed is reported and
/// nothing else: the artifact holds an error artifact with the fixed
/// message, anchored at that attribute of that field, and the field gets no
/// storage member, no setter and no extraction. The pieces of all other
/// fields are what they would be if the field were not there.
pub proof fn lemma_malformed_attribute_is_reported_alone(input: DescriptorModel, at: int)
    requires
        0 <= at < input.fields.len(),
        attribute_result(input.fields[at]) is Invalid,
    ensures
        first_marker(input.fields[at].attributes) is Some,
        ({
            let position = kept_errors(classified(input.fields), at).len() as int;
            &&& position < derived(input).error_artifacts.len()
            &&& derived(input).error_artifacts[position] == ErrorModel {
                message: expected_each(),
                field: at,
                attribute: first_marker(input.fields[at].attributes)->Some_0,
            }
        }),
        derived(input).fields == derived(
            DescriptorModel { name: input.name, fields: input.fields.remove(at) },
        ).fields,
{
    let all = classified(input.fields);
    let others = classified(input.fields.remove(at));
    lemma_malformed_attribute_fails_fast(input.fields[at]);
    lemma_malformed_field_is_reported(input.name, all, at);
    assert(others =~= all.remove(at));
    lemma_kept_fields_without(all, at, all.len() as int);
}

/// A configuration attribute whose arguments are a pair with another key, or
/// with a value that is not a string literal, is malformed: the outcome is
/// the fixed message, anchored at the attribute.
pub proof fn lemma_wrong_key_or_value_is_malformed(
    key: Seq<char>,
    value: Option<Seq<char>>,
    attribute: int,
)
    requires
        key != each_key() || value is None,
    ensures
        name_result(pair_name(key, value), attribute) == AttrModel::Invalid(
            malformed_at(attribute),
        ),
        malformed_at(attribute).message == expected_each(),
        malformed_at(attribute).attribute == attribute,
{
}

/// A field whose configuration attribute is malformed never classifies,
/// whatever its declared type: the diagnostic takes the place of the
/// classification.
pub proof fn lemma_malformed_attribute_fails_fast(field: FieldModel)
    requires
        attribute_result(field) is Invalid,
    ensures
        classification_of(field) == Err::<ClassModel, _>(attribute_result(field)->Invalid_0),
        first_marker(field.attributes) matches Some(at) && attribute_result(field)->Invalid_0
            == malformed_at(at),
{
}

/// Derivation is a function of the descriptor: two artifacts derived from
/// the same descriptor are equal, and so is their source text.
pub proof fn lemma_derivation_is_repeatable(
    input: DescriptorModel,
    first: ArtifactModel,
    second: ArtifactModel,
)
    requires
        first == derived(input),
        second == derived(input),
    ensures
        first == second,
        crate::render::source_text(first) == crate::render::source_text(second),
{
}

/// A storage member that no call addresses holds its initial value.
pub proof fn lemma_uncalled_field_keeps_initial<A>(
    field: FieldArtifactModel,
    at: int,
    calls: Seq<Call<A>>,
)
    requires
        forall|i: int| 0 <= i < calls.len() ==> (#[trigger] calls[i]).field != at,
    ensures
        stored_after(field, at, calls) == initial_value::<A>(field.initial),
        last_argument(calls, at) is None,
    decreases calls.len(),
{
    if calls.len() > 0 {
        assert(calls.last() == calls[calls.len() - 1]);
        lemma_uncalled_field_keeps_initial(field, at, calls.drop_last());
    }
}

/// Last write wins: where a field has a single setter, and it stores or
/// replaces, the storage member holds what the last call of that setter
/// wrote, and its initial value where there was no call.
pub proof fn lemma_last_write_wins<A>(field: FieldArtifactModel, at: int, calls: Seq<Call<A>>)
    requires
        field.setters.len() == 1,
        field.setters[0].action != Action::Append,
        forall|i: int|
            0 <= i < calls.len() && (#[trigger] calls[i]).field == at ==> calls[i].setter == 0,
    ensures
        stored_after(field, at, calls) == (match last_argument(calls, at) {
            Some(argument) => written(field.setters[0].action, Value::Absent, argument),
            None => initial_value(field.initial),
        }),
    decreases calls.len(),
{
    if calls.len() > 0 {
        assert(calls.last() == calls[calls.len() - 1]);
        lemma_last_write_wins(field, at, calls.drop_last());
    }
}

/// `build` fails at the first field whose extraction fails, with that
/// field's message, however many later fields are unset as well.
pub proof fn lemma_first_failure_wins<A>(
    fields: Seq<FieldArtifactModel>,
    state: Seq<Value<A>>,
    at: int,
)
    requires
        0 <= at < fields.len(),
        extracted(fields[at].extraction, state[at]) is Err,
        forall|i: int| 0 <= i < at ==> extracted(fields[i].extraction, #[trigger] state[i]) is Ok,
    ensures
        built(fields, state) == Err::<Seq<Value<A>>, _>(
            extracted(fields[at].extraction, state[at])->Err_0,
        ),
{
    lemma_built_prefix_succeeds(fields, state, at);
    lemma_failure_stays(fields, state, at + 1, fields.len() as int);
}

/// While every extraction succeeds, `build` collects the extracted values
/// in order.
proof fn lemma_built_prefix_succeeds<A>(
    fields: Seq<FieldArtifactModel>,
    state: Seq<Value<A>>,
    upto: int,
)
    requires
        0 <= upto <= fields.len(),
        forall|i: int| 0 <= i < upto ==> extracted(fields[i].extraction, #[trigger] state[i]) is Ok,
    ensures
        built_upto(fields, state, upto) matches Ok(values) && values.len() == upto && forall|
            i: int,
        |
            0 <= i < upto ==> Ok::<_, Seq<char>>(#[trigger] values[i]) == extracted(
                fields[i].extraction,
                state[i],
            ),
    decreases upto,
{
    if upto > 0 {
        lemma_built_prefix_succeeds(fields, state, upto - 1);
        assert(extracted(fields[upto - 1].extraction, state[upto - 1]) is Ok);
    }
}

/// Once `build` has failed, the fields that follow do not change the
/// outcome.
proof fn lemma_failure_stays<A>(
    fields: Seq<FieldArtifactModel>,
    state: Seq<Value<A>>,
    upto: int,
    later: int,
)
    requires
        0 <= upto <= later,
        built_upto(fields, state, upto) is Err,
    ensures
        built_upto(fields, state, later) == built_upto(fields, state, upto),
    decreases later - upto,
{
    if upto < later {
        lemma_failure_stays(fields, state, upto, later - 1);
    }
}

/// `build` succeeds exactly when every extraction does, and then returns
/// the extracted values in declaration order.
pub proof fn lemma_build_succeeds<A>(fields: Seq<FieldArtifactModel>, state: Seq<Value<A>>)
    requires
        forall|i: int|
            0 <= i < fields.len() ==> extracted(fields[i].extraction, #[trigger] state[i]) is Ok,
    ensures
        built(fields, state) matches Ok(values) && values.len() == fields.len() && forall|i: int|
            0 <= i < fields.len() ==> Ok::<_, Seq<char>>(#[trigger] values[i]) == extracted(
                fields[i].extraction,
                state[i],
            ),
{
    lemma_built_prefix_succeeds(fields, state, fields.len() as int);
}

/// Where `build` has failed, one of the fields seen so far is the cause: its
/// extraction fails with the message that `build` returns.
proof fn lemma_failure_has_a_cause<A>(
    fields: Seq<FieldArtifactModel>,
    state: Seq<Value<A>>,
    upto: int,
)
    requires
        built_upto(fields, state, upto) is Err,
    ensures
        exists|at: int|
            0 <= at < upto && extracted(fields[at].extraction, #[trigger] state[at]) == Err::<
                Value<A>,
                _,
            >(built_upto(fields, state, upto)->Err_0),
    decreases upto,
{
    if built_upto(fields, state, upto - 1) is Err {
        lemma_failure_has_a_cause(fields, state, upto - 1);
        let at = choose|at: int|
            0 <= at < upto - 1 && extracted(fields[at].extraction, #[trigger] state[at]) == Err::<
                Value<A>,
                _,
            >(built_upto(fields, state, upto - 1)->Err_0);
        assert(0 <= at < upto && extracted(fields[at].extraction, state[at]) == Err::<
            Value<A>,
            _,
        >(built_upto(fields, state, upto)->Err_0));
    } else {
        assert(extracted(fields[upto - 1].extraction, state[upto - 1]) == Err::<Value<A>, _>(
            built_upto(fields, state, upto)->Err_0,
        ));
    }
}

/// `build` fails only for a required field that is unset: where it fails,
/// some required field holds no value, and the message is that field's.
/// Fields that are extracted always never make it fail.
pub proof fn lemma_build_fails_only_for_unset_required_field<A>(
    fields: Seq<FieldArtifactModel>,
    state: Seq<Value<A>>,
)
    requires
        built(fields, state) is Err,
    ensures
        exists|at: int|
            0 <= at < fields.len() && !(#[trigger] state[at] is Present)
                && fields[at].extraction == (ExtractionModel::Required {
                message: built(fields, state)->Err_0,
            }),
{
    lemma_failure_has_a_cause(fields, state, fields.len() as int);
    let at = choose|at: int|
        0 <= at < fields.len() && extracted(fields[at].extraction, #[trigger] state[at]) == Err::<
            Value<A>,
            _,
        >(built(fields, state)->Err_0);
    assert(!(state[at] is Present) && fields[at].extraction == (ExtractionModel::Required {
        message: built(fields, state)->Err_0,
    }));
}

/// The message of a required field names the field: the name occurs in it
/// as written.
pub proof fn lemma_missing_message_names_field(name: Seq<char>)
    ensures
        occurs_in(name, missing_message(name)),
{
    let start = "field `"@.len() as int;
    assert(missing_message(name).subrange(start, start + name.len()) =~= name);
}

/// Exactly the required fields can make `build` fail, each with the message
/// that names it. Optional and repeated fields are extracted whatever their
/// storage member holds.
pub proof fn lemma_only_required_fields_fail<A>(
    field: FieldModel,
    class: ClassModel,
    stored: Value<A>,
)
    ensures
        ({
            let extraction = field_artifact(field, class).extraction;
            match class {
                ClassModel::Required { .. } => extracted(extraction, stored) == (match stored {
                    Value::Present(value) => Ok(*value),
                    _ => Err(missing_message(field.name)),
                }),
                _ => extracted(extraction, stored) == Ok::<_, Seq<char>>(stored),
            }
        }),
{
}

/// Whether a field belongs to the plain part of a record: its configuration
/// is not malformed and it has no element setter.
pub open spec fn plainly_classified(field: FieldModel) -> bool {
    match classification_of(field) {
        Ok(ClassModel::Repeated { element_config, .. }) => element_config is None,
        Ok(_) => true,
        Err(_) => false,
    }
}

/// The value that a field of the record has when the argument of its setter
/// is applied to the record directly: the argument itself, and for an
/// optional field the argument as a present value.
pub open spec fn applied_directly<A>(field: FieldModel, argument: Value<A>) -> Value<A> {
    match classification_of(field) {
        Ok(ClassModel::Optional { .. }) => Value::Present(Box::new(argument)),
        _ => argument,
    }
}

/// Where every one of the first `upto` fields classifies, each contributes
/// its pieces and nothing is reported.
proof fn lemma_all_fields_kept(classified: Seq<ClassifiedModel>, upto: int)
    requires
        0 <= upto <= classified.len(),
        forall|i: int| 0 <= i < upto ==> (#[trigger] classified[i]).outcome is Ok,
    ensures
        kept_errors(classified, upto).len() == 0,
        kept_fields(classified, upto).len() == upto,
        forall|i: int|
            0 <= i < upto ==> #[trigger] kept_fields(classified, upto)[i] == field_artifact(
                classified[i].field,
                classified[i].outcome->Ok_0,
            ),
    decreases upto,
{
    if upto > 0 {
        lemma_all_fields_kept(classified, upto - 1);
    }
}

/// Set every field, then build: in a record whose fields are all plainly
/// classified, once every field's setter has been called, in any order and
/// any number of times, `build` succeeds, and each field of the record it
/// returns is the argument of the last call of that field's setter, applied
/// directly.
pub proof fn lemma_set_every_field_then_build<A>(
    input: DescriptorModel,
    calls: Seq<Call<A>>,
    arguments: Seq<Value<A>>,
)
    requires
        forall|i: int|
            0 <= i < input.fields.len() ==> plainly_classified(#[trigger] input.fields[i]),
        arguments.len() == input.fields.len(),
        forall|i: int| 0 <= i < calls.len() ==> (#[trigger] calls[i]).setter == 0,
        forall|i: int|
            0 <= i < input.fields.len() ==> last_argument(calls, i) == Some(
                #[trigger] arguments[i],
            ),
    ensures
        derived(input).error_artifacts.len() == 0,
        derived(input).fields.len() == input.fields.len(),
        built(derived(input).fields, state_after(derived(input).fields, calls)) == Ok::<
            _,
            Seq<char>,
        >(Seq::new(input.fields.len(), |i: int| applied_directly(input.fields[i], arguments[i]))),
{
    let all = classified(input.fields);
    let fields = derived(input).fields;
    let state = state_after(fields, calls);
    assert forall|i: int| 0 <= i < all.len() implies (#[trigger] all[i]).outcome is Ok by {
        assert(plainly_classified(input.fields[i]));
    }
    lemma_all_fields_kept(all, all.len() as int);
    assert forall|i: int| 0 <= i < fields.len() implies extracted(
        fields[i].extraction,
        #[trigger] state[i],
    ) == Ok::<_, Seq<char>>(applied_directly(input.fields[i], arguments[i])) by {
        assert(plainly_classified(input.fields[i]));
        assert(fields[i] == field_artifact(all[i].field, all[i].outcome->Ok_0));
        assert(last_argument(calls, i) == Some(arguments[i]));
        lemma_last_write_wins(fields[i], i, calls);
    }
    lemma_build_succeeds(fields, state);
    let values = built(fields, state)->Ok_0;
    let expected = Seq::new(
        input.fields.len(),
        |i: int| applied_directly(input.fields[i], arguments[i]),
    );
    assert forall|i: int| 0 <= i < values.len() implies values[i] == expected[i] by {
        assert(Ok::<_, Seq<char>>(values[i]) == extracted(fields[i].extraction, state[i]));
    }
    assert(values =~= expected);
}

/// Every required field among the first `upto` fails with the message that
/// names it.
proof fn lemma_kept_messages(classified: Seq<ClassifiedModel>, upto: int)
    requires
        0 <= upto <= classified.len(),
    ensures
        forall|j: int|
            0 <= j < kept_fields(classified, upto).len() ==> (#[trigger] kept_fields(
                classified,
                upto,
            )[j].extraction matches ExtractionModel::Required { message } ==> message
                == missing_message(kept_fields(classified, upto)[j].name)),
    decreases upto,
{
    if upto > 0 {
        lemma_kept_messages(classified, upto - 1);
    }
}

/// A required field left unset makes `build` fail, and the first such field
/// in declaration order decides the message: `build` fails with the message
/// of that field, which names it, whatever the fields after it hold.
pub proof fn lemma_unset_required_field_fails_first<A>(
    input: DescriptorModel,
    calls: Seq<Call<A>>,
    at: int,
)
    requires
        0 <= at < derived(input).fields.len(),
        derived(input).fields[at].extraction is Required,
        !(state_after(derived(input).fields, calls)[at] is Present),
        forall|i: int|
            0 <= i < at && derived(input).fields[i].extraction is Required ==> (
            #[trigger] state_after(derived(input).fields, calls)[i]) is Present,
    ensures
        built(derived(input).fields, state_after(derived(input).fields, calls)) == Err::<
            Seq<Value<A>>,
            _,
        >(missing_message(derived(input).fields[at].name)),
        occurs_in(
            derived(input).fields[at].name,
            missing_message(derived(input).fields[at].name),
        ),
{
    let all = classified(input.fields);
    let fields = derived(input).fields;
    let state = state_after(fields, calls);
    lemma_kept_messages(all, all.len() as int);
    assert(fields[at].extraction matches ExtractionModel::Required { message } && message
        == missing_message(fields[at].name));
    assert forall|i: int| 0 <= i < at implies extracted(
        fields[i].extraction,
        #[trigger] state[i],
    ) is Ok by {
        if fields[i].extraction is Required {
            assert(state[i] is Present);
        }
    }
    lemma_first_failure_wins(fields, state, at);
    lemma_missing_message_names_field(fields[at].name);
}

/// An optional field never makes `build` fail. Its value in the record is
/// absent where its setter was never called, and otherwise the argument of
/// the last call, as a present value.
pub proof fn lemma_optional_field_is_absent_or_present<A>(
    field: FieldModel,
    inner_type: TypeModel,
    at: int,
    calls: Seq<Call<A>>,
)
    requires
        forall|i: int|
            0 <= i < calls.len() && (#[trigger] calls[i]).field == at ==> calls[i].setter == 0,
    ensures
        ({
            let artifact = field_artifact(field, ClassModel::Optional { inner_type });
            extracted(artifact.extraction, stored_after(artifact, at, calls)) == Ok::<
                _,
                Seq<char>,
            >(
                match last_argument(calls, at) {
                    Some(argument) => Value::Present(Box::new(argument)),
                    None => Value::Absent,
                },
            )
        }),
{
    lemma_last_write_wins(field_artifact(field, ClassModel::Optional { inner_type }), at, calls);
}

/// The pieces of a repeated field with an element setter.
pub open spec fn each_artifact(
    field: FieldModel,
    inner_type: TypeModel,
    config: EachModel,
) -> FieldArtifactModel {
    field_artifact(field, ClassModel::Repeated { inner_type, element_config: Some(config) })
}

/// Calls of the element setter of the field at position `at`, one for each
/// of `elements`, in order.
pub open spec fn element_calls<A>(at: int, elements: Seq<Value<A>>) -> Seq<Call<A>> {
    Seq::new(elements.len(), |i: int| Call { field: at, setter: 0, argument: elements[i] })
}

/// A call of the setter that replaces the whole collection of the field at
/// position `at`.
pub open spec fn bulk_call<A>(at: int, collection: Value<A>) -> Call<A> {
    Call { field: at, setter: 1, argument: collection }
}

/// A repeated field with an element setter has that setter first: it takes
/// one element and appends it. Where the element setter has another name
/// than the field, a second setter under the field's name replaces the
/// whole collection; where the names are the same, there is no second
/// setter.
pub proof fn lemma_each_setters_exist(field: FieldModel, inner_type: TypeModel, config: EachModel)
    ensures
        ({
            let setters = each_artifact(field, inner_type, config).setters;
            &&& setters[0] == SetterModel {
                name: config.element_setter_name,
                parameter_type: inner_type.text,
                action: Action::Append,
            }
            &&& config.element_setter_name == field.name ==> setters.len() == 1
            &&& config.element_setter_name != field.name ==> setters.len() == 2 && setters[1]
                == SetterModel {
                name: field.name,
                parameter_type: field.declared_type.text,
                action: Action::Replace,
            }
        }),
        each_artifact(field, inner_type, config).initial == Initial::Empty,
        each_artifact(field, inner_type, config).extraction == ExtractionModel::Always,
{
}

/// Calls of the element setter accumulate: each appends its argument, in
/// call order, to what the collection held before.
pub proof fn lemma_element_setter_accumulates<A>(
    field: FieldModel,
    inner_type: TypeModel,
    config: EachModel,
    at: int,
    calls: Seq<Call<A>>,
    items: Seq<Value<A>>,
    more: Seq<Value<A>>,
)
    requires
        stored_after(each_artifact(field, inner_type, config), at, calls) == Value::List(items),
    ensures
        stored_after(
            each_artifact(field, inner_type, config),
            at,
            calls + element_calls(at, more),
        ) == Value::List(items + more),
    decreases more.len(),
{
    let artifact = each_artifact(field, inner_type, config);
    let all = calls + element_calls(at, more);
    if more.len() == 0 {
        assert(all =~= calls);
        assert(items + more =~= items);
    } else {
        lemma_element_setter_accumulates(
            field,
            inner_type,
            config,
            at,
            calls,
            items,
            more.drop_last(),
        );
        assert(all.drop_last() =~= calls + element_calls(at, more.drop_last()));
        assert(all.last() == Call { field: at, setter: 0, argument: more.last() });
        assert(calls_setter_of(artifact, at, all.last()));
        assert((items + more.drop_last()).push(more.last()) =~= items + more);
    }
}

/// From a fresh builder, calls of the element setter alone build up the
/// collection of their arguments, in call order.
pub proof fn lemma_element_setter_fills_fresh<A>(
    field: FieldModel,
    inner_type: TypeModel,
    config: EachModel,
    at: int,
    elements: Seq<Value<A>>,
)
    ensures
        ({
            let artifact = each_artifact(field, inner_type, config);
            extracted(
                artifact.extraction,
                stored_after(artifact, at, element_calls(at, elements)),
            ) == Ok::<_, Seq<char>>(Value::List(elements))
        }),
{
    let none = Seq::<Call<A>>::empty();
    lemma_element_setter_accumulates(
        field,
        inner_type,
        config,
        at,
        none,
        Seq::empty(),
        elements,
    );
    assert(none + element_calls(at, elements) =~= element_calls(at, elements));
    assert(Seq::<Value<A>>::empty() + elements =~= elements);
}

/// The bulk setter replaces: after a call of it the collection is its
/// argument, whatever was appended or set before.
pub proof fn lemma_bulk_setter_discards<A>(
    field: FieldModel,
    inner_type: TypeModel,
    config: EachModel,
    at: int,
    calls: Seq<Call<A>>,
    collection: Value<A>,
)
    requires
        config.element_setter_name != field.name,
    ensures
        ({
            let artifact = each_artifact(field, inner_type, config);
            let stored = stored_after(artifact, at, calls.push(bulk_call(at, collection)));
            &&& stored == collection
            &&& extracted(artifact.extraction, stored) == Ok::<_, Seq<char>>(collection)
        }),
{
    let artifact = each_artifact(field, inner_type, config);
    let all = calls.push(bulk_call(at, collection));
    assert(all.drop_last() =~= calls);
    assert(all.last() == bulk_call(at, collection));
    assert(calls_setter_of(artifact, at, all.last()));
}

} // verus!
