//! Incidents and the additional fields that they carry.
use crate::payloads::{
    ExtraField, ExtraFieldModel, ExtraValue, ExtraValueModel, RunIncidentPayload,
    RunIncidentPayloadModel,
};
use crate::table::Row;
use crate::text::{same_text, text_before, text_lt};
use vstd::prelude::*;

verus! {

/// The fields with one more, or with the value of a known one replaced; fields stay in the order
/// of their keys.
pub open spec fn with_field(
    fields: Seq<ExtraFieldModel>,
    key: Seq<char>,
    value: ExtraValueModel,
) -> Seq<ExtraFieldModel>
    decreases fields.len(),
{
    if fields.len() == 0 || text_lt(fields.last().key, key) {
        fields.push(ExtraFieldModel { key, value })
    } else if fields.last().key == key {
        fields.drop_last().push(ExtraFieldModel { key, value })
    } else {
        with_field(fields.drop_last(), key, value).push(fields.last())
    }
}

proof fn lemma_with_field_at(
    fields: Seq<ExtraFieldModel>,
    key: Seq<char>,
    value: ExtraValueModel,
    k: int,
)
    requires
        0 <= k <= fields.len(),
        forall|j: int|
            k <= j < fields.len() ==> !text_lt((#[trigger] fields[j]).key, key) && fields[j].key
                != key,
        k > 0 ==> text_lt(fields[k - 1].key, key) || fields[k - 1].key == key,
    ensures
        with_field(fields, key, value) == if k > 0 && !text_lt(fields[k - 1].key, key) {
            fields.update(k - 1, ExtraFieldModel { key, value })
        } else {
            fields.insert(k, ExtraFieldModel { key, value })
        },
    decreases fields.len(),
{
    let new_field = ExtraFieldModel { key, value };
    if k == fields.len() {
        if k > 0 && !text_lt(fields[k - 1].key, key) {
            assert(fields.drop_last().push(new_field) =~= fields.update(k - 1, new_field));
        } else {
            assert(fields.push(new_field) =~= fields.insert(k, new_field));
        }
    } else {
        lemma_with_field_at(fields.drop_last(), key, value, k);
        if k > 0 && !text_lt(fields[k - 1].key, key) {
            assert(fields.drop_last().update(k - 1, new_field).push(fields.last())
                =~= fields.update(k - 1, new_field));
        } else {
            assert(fields.drop_last().insert(k, new_field).push(fields.last()) =~= fields.insert(
                k,
                new_field,
            ));
        }
    }
}

/// A field that is set is found with its value, fields of other keys keep theirs, and nothing else is
/// among the fields.
pub proof fn law_field_is_set(
    fields: Seq<ExtraFieldModel>,
    key: Seq<char>,
    value: ExtraValueModel,
)
    ensures
        with_field(fields, key, value).contains(ExtraFieldModel { key, value }),
        forall|field: ExtraFieldModel|
            field.key != key ==> (#[trigger] with_field(fields, key, value).contains(field)
                <==> fields.contains(field)),
    decreases fields.len(),
{
    let after = with_field(fields, key, value);
    let field = ExtraFieldModel { key, value };
    if fields.len() == 0 || text_lt(fields.last().key, key) {
        assert(after[fields.len() as int] == field);
        assert forall|other: ExtraFieldModel|
            other.key != key implies #[trigger] after.contains(other) == fields.contains(other) by {
            if fields.contains(other) {
                let i = choose|i: int| 0 <= i < fields.len() && fields[i] == other;
                assert(after[i] == other);
            }
            if after.contains(other) {
                let i = choose|i: int| 0 <= i < after.len() && after[i] == other;
                assert(fields[i] == other);
            }
        }
    } else if fields.last().key == key {
        assert(after[fields.len() - 1] == field);
        assert forall|other: ExtraFieldModel|
            other.key != key implies #[trigger] after.contains(other) == fields.contains(other) by {
            if fields.contains(other) {
                let i = choose|i: int| 0 <= i < fields.len() && fields[i] == other;
                assert(after[i] == other);
            }
            if after.contains(other) {
                let i = choose|i: int| 0 <= i < after.len() && after[i] == other;
                assert(fields[i] == other);
            }
        }
    } else {
        let rest = fields.drop_last();
        law_field_is_set(rest, key, value);
        let inner = with_field(rest, key, value);
        let k = choose|k: int| 0 <= k < inner.len() && inner[k] == field;
        assert(after[k] == field);
        assert(after[inner.len() as int] == fields.last());
        assert forall|other: ExtraFieldModel|
            other.key != key implies #[trigger] after.contains(other) == fields.contains(other) by {
            assert(inner.contains(other) == rest.contains(other));
            if fields.contains(other) {
                let i = choose|i: int| 0 <= i < fields.len() && fields[i] == other;
                if i < rest.len() {
                    assert(rest[i] == other);
                    let j = choose|j: int| 0 <= j < inner.len() && inner[j] == other;
                    assert(after[j] == other);
                }
            }
            if after.contains(other) {
                let i = choose|i: int| 0 <= i < after.len() && after[i] == other;
                if i < inner.len() {
                    assert(inner[i] == other);
                    let j = choose|j: int| 0 <= j < rest.len() && rest[j] == other;
                    assert(fields[j] == other);
                } else {
                    assert(fields[fields.len() - 1] == other);
                }
            }
        }
    }
}

fn put_field(fields: &mut Vec<ExtraField>, key: &str, value: ExtraValue)
    ensures
        final(fields).deep_view() == with_field(old(fields).deep_view(), key@, value@),
{
    let mut k: usize = fields.len();
    let mut done = false;
    while k > 0 && !done
        invariant
            k <= fields.len(),
            forall|j: int|
                k <= j < fields.len() ==> !text_lt(
                    (#[trigger] fields.deep_view()[j]).key,
                    key@,
                ) && fields.deep_view()[j].key != key@,
            done ==> k > 0 && (text_lt(fields.deep_view()[k - 1].key, key@)
                || fields.deep_view()[k - 1].key == key@),
            fields@ == old(fields)@,
        decreases
            k + if done {
                0int
            } else {
                1int
            },
    {
        assert(fields.deep_view()[k - 1] == fields@[k - 1]@);
        if text_before(fields[k - 1].key.as_str(), key) || same_text(
            fields[k - 1].key.as_str(),
            key,
        ) {
            done = true;
        } else {
            k = k - 1;
        }
    }
    proof {
        lemma_with_field_at(fields.deep_view(), key@, value@, k as int);
    }
    let field = ExtraField { key: key.to_owned(), value };
    if k > 0 && same_text(fields[k - 1].key.as_str(), key) && !text_before(
        fields[k - 1].key.as_str(),
        key,
    ) {
        assert(fields.deep_view()[k - 1] == fields@[k - 1]@);
        fields.set(k - 1, field);
        assert(fields.deep_view() =~= old(fields).deep_view().update(k - 1, field@));
    } else {
        proof {
            if k > 0 {
                assert(fields.deep_view()[k - 1] == fields@[k - 1]@);
            }
        }
        fields.insert(k, field);
        assert(fields.deep_view() =~= old(fields).deep_view().insert(k as int, field@));
    }
}

impl RunIncidentPayloadModel {
    /// A warning without any further detail.
    pub open spec fn warning(kind: Seq<char>, message: Seq<char>) -> RunIncidentPayloadModel {
        RunIncidentPayloadModel { severity: "warning"@, kind, message, ..Self::empty() }
    }

    /// An error without any further detail.
    pub open spec fn error(kind: Seq<char>, message: Seq<char>) -> RunIncidentPayloadModel {
        RunIncidentPayloadModel { severity: "error"@, kind, message, ..Self::empty() }
    }

    pub open spec fn with_extra(
        self,
        key: Seq<char>,
        value: ExtraValueModel,
    ) -> RunIncidentPayloadModel {
        RunIncidentPayloadModel { extra: with_field(self.extra, key, value), ..self }
    }
}

impl RunIncidentPayload {
    /// An incident of severity `warning`.
    pub fn warning(kind: &str, message: &str) -> (r: RunIncidentPayload)
        ensures
            r@ == RunIncidentPayloadModel::warning(kind@, message@),
    {
        let mut r = RunIncidentPayload::default();
        r.severity = "warning".to_owned();
        r.kind = kind.to_owned();
        r.message = message.to_owned();
        r
    }

    /// An incident of severity `error`.
    pub fn error(kind: &str, message: &str) -> (r: RunIncidentPayload)
        ensures
            r@ == RunIncidentPayloadModel::error(kind@, message@),
    {
        let mut r = RunIncidentPayload::default();
        r.severity = "error".to_owned();
        r.kind = kind.to_owned();
        r.message = message.to_owned();
        r
    }

    /// The incident with an additional field, which replaces one of the same name.
    pub fn with_extra(self, key: &str, value: ExtraValue) -> (r: RunIncidentPayload)
        ensures
            r@ == self@.with_extra(key@, value@),
    {
        let mut r = self;
        put_field(&mut r.extra, key, value);
        r
    }

    /// The incident with an additional text field.
    pub fn with_text(self, key: &str, value: &str) -> (r: RunIncidentPayload)
        ensures
            r@ == self@.with_extra(key@, ExtraValueModel::Text(value@)),
    {
        self.with_extra(key, ExtraValue::Text(value.to_owned()))
    }

    pub fn with_severity(self, value: &str) -> (r: RunIncidentPayload)
        ensures
            r@ == (RunIncidentPayloadModel { severity: value@, ..self@ }),
    {
        let mut r = self;
        r.severity = value.to_owned();
        r
    }

    pub fn with_failure_kind(self, value: &str) -> (r: RunIncidentPayload)
        ensures
            r@ == (RunIncidentPayloadModel { failure_kind: value@, ..self@ }),
    {
        let mut r = self;
        r.failure_kind = value.to_owned();
        r
    }

    pub fn with_operator_action_required(self, value: bool) -> (r: RunIncidentPayload)
        ensures
            r@ == (RunIncidentPayloadModel { operator_action_required: Some(value), ..self@ }),
    {
        let mut r = self;
        r.operator_action_required = Some(value);
        r
    }

    pub fn with_retryable(self, value: bool) -> (r: RunIncidentPayload)
        ensures
            r@ == (RunIncidentPayloadModel { retryable: Some(value), ..self@ }),
    {
        let mut r = self;
        r.retryable = Some(value);
        r
    }

    pub fn with_fix_commands(self, value: Vec<String>) -> (r: RunIncidentPayload)
        ensures
            r@ == (RunIncidentPayloadModel { fix_commands: value.deep_view(), ..self@ }),
    {
        let mut r = self;
        r.fix_commands = value;
        r
    }
}

} // verus!
