//! Reading JSON documents, one level at a time. What stands below a level is again the text of a
//! document.
use crate::table::{find_row, first, Row};
use crate::text::{all_digits, chars_of, digits_from, digits_value, same_text};
use vstd::prelude::*;

verus! {

/// A field of an object: its name and the document that it holds.
#[derive(Debug, Clone, PartialEq, Eq)]
pub struct JsonField {
    pub name: String,
    pub value: String,
}

#[verifier::ext_equal]
pub struct JsonFieldModel {
    pub name: Seq<char>,
    pub value: Seq<char>,
}

impl DeepView for JsonField {
    type V = JsonFieldModel;

    open spec fn deep_view(&self) -> JsonFieldModel {
        JsonFieldModel { name: self.name.deep_view(), value: self.value.deep_view() }
    }
}

impl View for JsonField {
    type V = JsonFieldModel;

    open spec fn view(&self) -> JsonFieldModel {
        self.deep_view()
    }
}

impl Row for JsonField {
    fn dup(&self) -> (r: Self) {
        JsonField { name: self.name.dup(), value: self.value.dup() }
    }

    fn same(&self, other: &Self) -> (r: bool) {
        self.name.same(&other.name) && self.value.same(&other.value)
    }
}

/// The first level of a document. A number is kept as it is written.
#[derive(Debug, Clone, PartialEq, Eq)]
pub enum JsonLevel {
    Null,
    Flag(bool),
    Number(String),
    Text(String),
    List(Vec<String>),
    Object(Vec<JsonField>),
}

#[verifier::ext_equal]
pub enum JsonLevelModel {
    Null,
    Flag(bool),
    Number(Seq<char>),
    Text(Seq<char>),
    List(Seq<Seq<char>>),
    Object(Seq<JsonFieldModel>),
}

impl DeepView for JsonLevel {
    type V = JsonLevelModel;

    open spec fn deep_view(&self) -> JsonLevelModel {
        match self {
            JsonLevel::Null => JsonLevelModel::Null,
            JsonLevel::Flag(value) => JsonLevelModel::Flag(*value),
            JsonLevel::Number(value) => JsonLevelModel::Number(value.deep_view()),
            JsonLevel::Text(value) => JsonLevelModel::Text(value.deep_view()),
            JsonLevel::List(values) => JsonLevelModel::List(values.deep_view()),
            JsonLevel::Object(values) => JsonLevelModel::Object(values.deep_view()),
        }
    }
}

/// The first level of the document that a text holds, if it holds one.
pub uninterp spec fn json_level(text: Seq<char>) -> Option<JsonLevelModel>;

/// `serde_json::from_str`, which reads a text as one JSON document, and `Value::to_string`, which
/// writes the documents below it as texts again. Whether the text can be read, and what it holds,
/// depends on the text alone.
#[verifier::external_body]
pub(crate) fn read_level(text: &str) -> (r: Option<JsonLevel>)
    ensures
        r.deep_view() == json_level(text@),
{
    let field = |(name, value): (String, serde_json::Value)| JsonField { name, value: value.to_string() };
    Some(match serde_json::from_str::<serde_json::Value>(text).ok()? {
        serde_json::Value::Null => JsonLevel::Null,
        serde_json::Value::Bool(value) => JsonLevel::Flag(value),
        serde_json::Value::Number(value) => JsonLevel::Number(value.to_string()),
        serde_json::Value::String(value) => JsonLevel::Text(value),
        serde_json::Value::Array(values) => {
            JsonLevel::List(values.into_iter().map(|value| value.to_string()).collect())
        }
        serde_json::Value::Object(fields) => JsonLevel::Object(fields.into_iter().map(field).collect()),
    })
}

/// The number that a document holds, written out as a decimal, if it holds one.
pub uninterp spec fn json_decimal(text: Seq<char>) -> Option<Seq<char>>;

/// `serde_json::from_str` and `Value::as_f64`, which give the nearest floating-point number where
/// the document is a number and nothing where it is not, and `to_string`, which writes it out. The
/// text that comes of it depends on the document alone.
#[verifier::external_body]
pub(crate) fn read_decimal(text: &str) -> (r: Option<String>)
    ensures
        r.deep_view() == json_decimal(text@),
        r is Some <==> json_level(text@) matches Some(JsonLevelModel::Number(_)),
{
    let value = serde_json::from_str::<serde_json::Value>(text).ok()?;
    value.as_f64().map(|number| number.to_string())
}

pub open spec fn field_named(name: Seq<char>) -> spec_fn(JsonFieldModel) -> bool {
    |field: JsonFieldModel| field.name == name
}

/// The document under a name of an object.
pub open spec fn member(text: Seq<char>, name: Seq<char>) -> Option<Seq<char>> {
    match json_level(text) {
        Some(JsonLevelModel::Object(fields)) => match first(fields, field_named(name)) {
            Some(field) => Some(field.value),
            None => None,
        },
        _ => None,
    }
}

/// The document under a name of an object that there may be.
pub open spec fn member_of(document: Option<Seq<char>>, name: Seq<char>) -> Option<Seq<char>> {
    match document {
        Some(text) => member(text, name),
        None => None,
    }
}

/// The text that a document holds, if it is one.
pub open spec fn text_in(document: Option<Seq<char>>) -> Option<Seq<char>> {
    match document {
        Some(text) => match json_level(text) {
            Some(JsonLevelModel::Text(value)) => Some(value),
            _ => None,
        },
        None => None,
    }
}

/// The items of a document, if it is a list.
pub open spec fn items_in(document: Option<Seq<char>>) -> Option<Seq<Seq<char>>> {
    match document {
        Some(text) => match json_level(text) {
            Some(JsonLevelModel::List(items)) => Some(items),
            _ => None,
        },
        None => None,
    }
}

/// The integer that is written, where it is one and fits.
pub open spec fn written_integer(s: Seq<char>) -> Option<i64> {
    if s.len() > 0 && s[0] == '-' {
        if all_digits(s.skip(1)) && -digits_value(s.skip(1)) >= i64::MIN {
            Some((-digits_value(s.skip(1))) as i64)
        } else {
            None
        }
    } else if all_digits(s) && digits_value(s) <= i64::MAX {
        Some(digits_value(s) as i64)
    } else {
        None
    }
}

/// Whether a number is written as an integer of at most 64 bits, with or without a sign.
pub open spec fn whole(s: Seq<char>) -> bool {
    written_integer(s) is Some || (all_digits(s) && digits_value(s) <= u64::MAX)
}

pub(crate) fn is_whole(text: &str) -> (r: bool)
    ensures
        r == whole(text@),
{
    let chars = chars_of(text);
    assert(chars@.skip(0) =~= chars@);
    if chars.len() > 0 && chars[0] == '-' {
        assert(!all_digits(chars@)) by {
            if all_digits(chars@) {
                assert('0' <= chars@[0]);
            }
        }
        digits_from(&chars, 1, 9223372036854775808).is_some()
    } else {
        digits_from(&chars, 0, u64::MAX).is_some()
    }
}

/// The integer that a document holds, if it is one.
pub open spec fn integer_in(document: Option<Seq<char>>) -> Option<i64> {
    match document {
        Some(text) => match json_level(text) {
            Some(JsonLevelModel::Number(value)) => written_integer(value),
            _ => None,
        },
        None => None,
    }
}

/// The document under a name of an object.
pub fn get(text: &str, name: &str) -> (r: Option<String>)
    ensures
        r.deep_view() == member(text@, name@),
{
    match read_level(text) {
        Some(JsonLevel::Object(fields)) => {
            let named = |field: &JsonField| -> (b: bool)
                ensures
                    b == field_named(name@)(field@),
                { same_text(field.name.as_str(), name) };
            match find_row(&fields, named, Ghost(field_named(name@))) {
                Some(i) => Some(fields[i].value.dup()),
                None => None,
            }
        },
        _ => None,
    }
}

/// The document under a name of an object that there may be.
pub fn get_in(document: &Option<String>, name: &str) -> (r: Option<String>)
    ensures
        r.deep_view() == member_of(document.deep_view(), name@),
{
    match document {
        Some(text) => get(text.as_str(), name),
        None => None,
    }
}

/// The text that a document holds.
pub fn read_text(document: &Option<String>) -> (r: Option<String>)
    ensures
        r.deep_view() == text_in(document.deep_view()),
{
    match document {
        Some(text) => match read_level(text.as_str()) {
            Some(JsonLevel::Text(value)) => Some(value),
            _ => None,
        },
        None => None,
    }
}

/// The documents of a list.
pub fn read_items(document: &Option<String>) -> (r: Option<Vec<String>>)
    ensures
        r.deep_view() == items_in(document.deep_view()),
{
    match document {
        Some(text) => match read_level(text.as_str()) {
            Some(JsonLevel::List(items)) => Some(items),
            _ => None,
        },
        None => None,
    }
}

/// The integer that a document holds.
pub fn read_integer(document: &Option<String>) -> (r: Option<i64>)
    ensures
        r == integer_in(document.deep_view()),
{
    let text = match document {
        Some(text) => match read_level(text.as_str()) {
            Some(JsonLevel::Number(value)) => value,
            _ => {
                return None;
            },
        },
        None => {
            return None;
        },
    };
    let chars = chars_of(text.as_str());
    assert(chars@.skip(0) =~= chars@);
    if chars.len() > 0 && chars[0] == '-' {
        match digits_from(&chars, 1, 9223372036854775808) {
            Some(n) => if n == 9223372036854775808 {
                Some(i64::MIN)
            } else {
                Some(-(n as i64))
            },
            None => None,
        }
    } else {
        match digits_from(&chars, 0, 9223372036854775807) {
            Some(n) => Some(n as i64),
            None => None,
        }
    }
}

/// The texts of documents that are all texts.
pub open spec fn all_texts(items: Seq<Seq<char>>) -> Option<Seq<Seq<char>>>
    decreases items.len(),
{
    if items.len() == 0 {
        Some(Seq::empty())
    } else {
        match (all_texts(items.drop_last()), text_in(Some(items.last()))) {
            (Some(texts), Some(text)) => Some(texts.push(text)),
            _ => None,
        }
    }
}

/// The texts of a list of texts.
pub open spec fn text_list(text: Seq<char>) -> Option<Seq<Seq<char>>> {
    match items_in(Some(text)) {
        Some(items) => all_texts(items),
        None => None,
    }
}

/// How a list of texts is written.
pub uninterp spec fn json_texts(texts: Seq<Seq<char>>) -> Seq<char>;

/// `serde_json::to_string` on a list of texts, which writes it as a JSON document, and the document
/// depends on the texts alone. Reading the document gives the texts back.
#[verifier::external_body]
pub(crate) fn write_text_list(texts: &Vec<String>) -> (r: String)
    ensures
        r@ == json_texts(texts.deep_view()),
        text_list(r@) == Some(texts.deep_view()),
{
    serde_json::to_string(texts).unwrap_or_default()
}

proof fn lemma_not_all_texts(items: Seq<Seq<char>>, n: int)
    requires
        0 <= n <= items.len(),
        all_texts(items.take(n)) is None,
    ensures
        all_texts(items) is None,
    decreases items.len() - n,
{
    if n < items.len() {
        assert(items.take(n + 1).drop_last() =~= items.take(n));
        lemma_not_all_texts(items, n + 1);
    } else {
        assert(items.take(n) =~= items);
    }
}

/// The texts of a list of texts.
pub fn read_text_list(text: &str) -> (r: Option<Vec<String>>)
    ensures
        r.deep_view() == text_list(text@),
{
    let items = match read_level(text) {
        Some(JsonLevel::List(items)) => items,
        _ => {
            return None;
        },
    };
    let mut r: Vec<String> = Vec::new();
    let mut i: usize = 0;
    assert(items.deep_view().take(0) =~= Seq::empty());
    assert(r.deep_view() =~= Seq::empty());
    while i < items.len()
        invariant
            i <= items.len(),
            items_in(Some(text@)) == Some(items.deep_view()),
            all_texts(items.deep_view().take(i as int)) == Some(r.deep_view()),
        decreases items.len() - i,
    {
        proof {
            let part = items.deep_view().take(i + 1);
            assert(part.drop_last() =~= items.deep_view().take(i as int));
            assert(part.last() == items@[i as int]@);
        }
        match read_level(items[i].as_str()) {
            Some(JsonLevel::Text(value)) => {
                let ghost before = r.deep_view();
                r.push(value);
                assert(r.deep_view() =~= before.push(value@));
            },
            _ => {
                proof {
                    lemma_not_all_texts(items.deep_view(), i + 1);
                }
                return None;
            },
        }
        i = i + 1;
    }
    assert(items.deep_view().take(i as int) =~= items.deep_view());
    Some(r)
}

/// What an object holds under a name is the value of its first field with that name; anything but an
/// object holds nothing under any name.
pub proof fn law_member_of_an_object(text: Seq<char>, name: Seq<char>)
    ensures
        member(text, name) is Some ==> json_level(text) is Some && json_level(text)->0 is Object,
        json_level(text) matches Some(JsonLevelModel::Object(fields)) ==> {
            &&& member(text, name) is Some <==> exists|i: int|
                0 <= i < fields.len() && (#[trigger] fields[i]).name == name
            &&& forall|i: int|
                0 <= i < fields.len() && (#[trigger] fields[i]).name == name && (forall|j: int|
                    0 <= j < i ==> (#[trigger] fields[j]).name != name) ==> member(text, name)
                    == Some(fields[i].value)
        },
        member_of(None, name) is None,
        member_of(Some(text), name) == member(text, name),
{
    if let Some(JsonLevelModel::Object(fields)) = json_level(text) {
        let p = field_named(name);
        crate::table::lemma_first_any(fields, p);
        if crate::table::any(fields, p) {
            let i = choose|i: int| 0 <= i < fields.len() && p(#[trigger] fields[i]);
            assert(fields[i].name == name);
        } else {
            assert forall|i: int| 0 <= i < fields.len() implies (#[trigger] fields[i]).name
                != name by {
                assert(!p(fields[i]));
            }
        }
        assert forall|i: int|
            0 <= i < fields.len() && (#[trigger] fields[i]).name == name && (forall|j: int|
                0 <= j < i ==> (#[trigger] fields[j]).name != name) implies member(text, name)
            == Some(fields[i].value) by {
            lemma_first_field_named(fields, name, i);
        }
    }
}

proof fn lemma_first_field_named(fields: Seq<JsonFieldModel>, name: Seq<char>, i: int)
    requires
        0 <= i < fields.len(),
        fields[i].name == name,
        forall|j: int| 0 <= j < i ==> (#[trigger] fields[j]).name != name,
    ensures
        first(fields, field_named(name)) == Some(fields[i]),
    decreases i,
{
    if i > 0 {
        let rest = fields.drop_first();
        assert(fields[0].name != name);
        assert forall|j: int| 0 <= j < i - 1 implies (#[trigger] rest[j]).name != name by {
            assert(rest[j] == fields[j + 1]);
        }
        lemma_first_field_named(rest, name, i - 1);
    }
}

/// A document is read as a text, as a list or as an integer only where it is one; a list of texts only
/// where each item is a text, and then with each of them in its place.
pub proof fn law_documents_are_read_as_they_are(text: Seq<char>)
    ensures
        text_in(Some(text)) is Some <==> (json_level(text) matches Some(JsonLevelModel::Text(_))),
        json_level(text) matches Some(JsonLevelModel::Text(value)) ==> text_in(Some(text)) == Some(
            value,
        ),
        items_in(Some(text)) is Some <==> (json_level(text) matches Some(JsonLevelModel::List(_))),
        json_level(text) matches Some(JsonLevelModel::List(items)) ==> items_in(Some(text)) == Some(
            items,
        ),
        text_in(None) is None,
        items_in(None) is None,
        integer_in(None) is None,
        integer_in(Some(text)) is Some ==> (json_level(text) matches Some(JsonLevelModel::Number(_))),
        text_list(text) matches Some(texts) ==> (json_level(text) matches Some(
            JsonLevelModel::List(items),
        ) && texts.len() == items.len() && forall|i: int|
            0 <= i < items.len() ==> text_in(Some(#[trigger] items[i])) == Some(texts[i])),
        text_list(text) is None ==> (json_level(text) matches Some(JsonLevelModel::List(items))
            ==> exists|i: int|
            0 <= i < items.len() && text_in(Some(#[trigger] items[i])) is None),
{
    if let Some(JsonLevelModel::List(items)) = json_level(text) {
        lemma_all_texts(items);
    }
}

proof fn lemma_all_texts(items: Seq<Seq<char>>)
    ensures
        all_texts(items) matches Some(texts) ==> texts.len() == items.len() && forall|i: int|
            0 <= i < items.len() ==> text_in(Some(#[trigger] items[i])) == Some(texts[i]),
        all_texts(items) is None ==> exists|i: int|
            0 <= i < items.len() && text_in(Some(#[trigger] items[i])) is None,
    decreases items.len(),
{
    if items.len() > 0 {
        let rest = items.drop_last();
        lemma_all_texts(rest);
        assert(forall|i: int| 0 <= i < rest.len() ==> #[trigger] rest[i] == items[i]);
        assert(items[items.len() - 1] == items.last());
        if all_texts(items) is Some {
            let texts = all_texts(items)->0;
            assert forall|i: int| 0 <= i < items.len() implies text_in(Some(#[trigger] items[i]))
                == Some(texts[i]) by {
                if i < rest.len() {
                    assert(text_in(Some(rest[i])) == Some((all_texts(rest)->0)[i]));
                }
            }
        } else if all_texts(rest) is None {
            let i = choose|i: int| 0 <= i < rest.len() && text_in(Some(#[trigger] rest[i])) is None;
            assert(items[i] == rest[i]);
        }
    }
}

/// An integer is read back from how it is written.
pub proof fn law_written_integer_is_read_back(n: i64)
    ensures
        written_integer(crate::text::decimal_int(n as int)) == Some(n),
        whole(crate::text::decimal_int(n as int)),
{
    let text = crate::text::decimal_int(n as int);
    if n < 0 {
        let digits = crate::text::decimal((-n) as nat);
        crate::text::law_number_is_read_back((-n) as nat);
        assert(text[0] == '-');
        assert(text.skip(1) =~= digits);
    } else {
        crate::text::law_number_is_read_back(n as nat);
        assert('0' <= text[0]);
    }
}

} // verus!
