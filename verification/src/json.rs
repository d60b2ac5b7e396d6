//! JSON documents as values of the library. Reading and writing JSON is
//! `serde_json`'s work; what a document means to the account switcher is
//! decided on the values here.

use vstd::prelude::*;

use crate::text;

verus! {

/// A JSON value. The entries of an object stand in the order of their keys.
#[derive(Debug)]
pub enum JsonValue {
    Null,
    Bool(bool),
    Number(JsonNumber),
    Text(String),
    Array(Vec<JsonValue>),
    Object(Vec<(String, JsonValue)>),
}

/// A JSON number: as a signed and as an unsigned integer, where it fits, and
/// in its written form.
#[derive(Debug)]
pub struct JsonNumber {
    pub signed: Option<i64>,
    pub unsigned: Option<u64>,
    pub literal: String,
}

/// A [`JsonValue`] with its texts as character sequences.
pub enum JsonView {
    Null,
    Bool(bool),
    Number { signed: Option<i64>, unsigned: Option<u64>, literal: Seq<char> },
    Text(Seq<char>),
    Array(Seq<JsonView>),
    Object(Seq<(Seq<char>, JsonView)>),
}

/// The value as a [`JsonView`].
pub open spec fn json_view(value: JsonValue) -> JsonView
    decreases value,
{
    match value {
        JsonValue::Null => JsonView::Null,
        JsonValue::Bool(flag) => JsonView::Bool(flag),
        JsonValue::Number(number) => JsonView::Number {
            signed: number.signed,
            unsigned: number.unsigned,
            literal: number.literal@,
        },
        JsonValue::Text(string) => JsonView::Text(string@),
        JsonValue::Array(values) => JsonView::Array(array_view(values@)),
        JsonValue::Object(entries) => JsonView::Object(object_view(entries@)),
    }
}

/// The values as [`JsonView`]s.
pub open spec fn array_view(values: Seq<JsonValue>) -> Seq<JsonView>
    decreases values,
{
    if values.len() == 0 {
        Seq::empty()
    } else {
        array_view(values.drop_last()).push(json_view(values.last()))
    }
}

/// The entries with their values as [`JsonView`]s.
pub open spec fn object_view(entries: Seq<(String, JsonValue)>) -> Seq<(Seq<char>, JsonView)>
    decreases entries,
{
    if entries.len() == 0 {
        Seq::empty()
    } else {
        object_view(entries.drop_last()).push((entries.last().0@, json_view(entries.last().1)))
    }
}

impl View for JsonValue {
    type V = JsonView;

    open spec fn view(&self) -> JsonView {
        json_view(*self)
    }
}

/// `array_view` takes the view of each value.
pub proof fn lemma_array_view(values: Seq<JsonValue>)
    ensures
        array_view(values).len() == values.len(),
        forall|i: int| 0 <= i < values.len() ==> array_view(values)[i] == json_view(values[i]),
    decreases values.len(),
{
    if values.len() > 0 {
        lemma_array_view(values.drop_last());
    }
}

/// `object_view` takes the view of each entry.
pub proof fn lemma_object_view(entries: Seq<(String, JsonValue)>)
    ensures
        object_view(entries).len() == entries.len(),
        forall|i: int|
            0 <= i < entries.len() ==> object_view(entries)[i] == (
                entries[i].0@,
                json_view(entries[i].1),
            ),
    decreases entries.len(),
{
    if entries.len() > 0 {
        lemma_object_view(entries.drop_last());
    }
}

/// Whether the entries of each object stand in the order of their keys, each key once.
pub open spec fn in_order(value: JsonView) -> bool
    decreases value,
{
    match value {
        JsonView::Array(values) => items_in_order(values),
        JsonView::Object(entries) => entries_in_order(entries),
        _ => true,
    }
}

/// Whether the entries of each object in the values stand in the order of their keys.
pub open spec fn items_in_order(values: Seq<JsonView>) -> bool
    decreases values,
{
    values.len() == 0 || (items_in_order(values.drop_last()) && in_order(values.last()))
}

/// Whether the entries, and those of each object in them, stand in the order of their
/// keys, each key once.
pub open spec fn entries_in_order(entries: Seq<(Seq<char>, JsonView)>) -> bool
    decreases entries,
{
    entries.len() == 0 || (entries_in_order(entries.drop_last()) && in_order(entries.last().1) && (
    entries.len() > 1 ==> text::text_less(entries[entries.len() - 2].0, entries.last().0)))
}

/// What `serde_json` reads from the bytes: the document, or why it is none.
pub uninterp spec fn json_document(bytes: Seq<u8>) -> Result<JsonView, Seq<char>>;

/// What `serde_json` reads from the text: the document, or why it is none.
pub uninterp spec fn json_text_document(s: Seq<char>) -> Result<JsonView, Seq<char>>;

/// The indented text that `serde_json` writes for the document, or why it
/// writes none.
pub uninterp spec fn json_pretty(value: JsonView) -> Result<Seq<u8>, Seq<char>>;

/// What was read, with its texts as character sequences.
pub open spec fn document_view(document: Result<JsonValue, String>) -> Result<JsonView, Seq<char>> {
    match document {
        Ok(value) => Ok(value@),
        Err(message) => Err(message@),
    }
}

/// What was written, with its contents as sequences.
pub open spec fn written_view(written: Result<Vec<u8>, String>) -> Result<Seq<u8>, Seq<char>> {
    match written {
        Ok(bytes) => Ok(bytes@),
        Err(message) => Err(message@),
    }
}

/// A document as `serde_json` holds it.
#[verifier::external_type_specification]
#[verifier::external_body]
pub struct ExValue(serde_json::Value);

/// Moves a value read by `serde_json` into a [`JsonValue`], kind by kind; the
/// entries of an object keep the order in which `serde_json::Map` holds them.
/// Nothing is claimed of it here: what the readers below return has a name of
/// its own.
#[verifier::external_body]
fn json_of(value: serde_json::Value) -> JsonValue {
    match value {
        serde_json::Value::Null => JsonValue::Null,
        serde_json::Value::Bool(flag) => JsonValue::Bool(flag),
        serde_json::Value::Number(number) => JsonValue::Number(
            JsonNumber {
                signed: number.as_i64(),
                unsigned: number.as_u64(),
                literal: number.to_string(),
            },
        ),
        serde_json::Value::String(string) => JsonValue::Text(string),
        serde_json::Value::Array(values) => JsonValue::Array(values.into_iter().map(json_of).collect()),
        serde_json::Value::Object(entries) => JsonValue::Object(entries.into_iter().map(|(key, value)| (key, json_of(value))).collect()),
    }
}

/// `serde_json::from_slice` to a `serde_json::Value`: the result depends on the
/// bytes alone. A `serde_json::Map` holds its entries in the order of their keys, each key
/// once: it is a `BTreeMap`.
#[verifier::external_body]
pub(crate) fn parse_json(bytes: &Vec<u8>) -> (document: Result<JsonValue, String>)
    ensures
        document_view(document) == json_document(bytes@),
        document is Ok ==> in_order(document->Ok_0@),
{
    match serde_json::from_slice::<serde_json::Value>(bytes) {
        Ok(value) => Ok(json_of(value)),
        Err(error) => Err(error.to_string()),
    }
}

/// `serde_json::from_str` to a `serde_json::Value`: the result depends on the
/// text alone.
#[verifier::external_body]
pub(crate) fn parse_json_text(s: &str) -> (document: Result<JsonValue, String>)
    ensures
        document_view(document) == json_text_document(s@),
{
    match serde_json::from_str::<serde_json::Value>(s) {
        Ok(value) => Ok(json_of(value)),
        Err(error) => Err(error.to_string()),
    }
}

/// Moves a [`JsonValue`] back into `serde_json`'s type; a number is read from
/// its written form. Nothing is claimed of it here: what the writer below
/// returns has a name of its own.
#[verifier::external_body]
fn outside_value_of(value: &JsonValue) -> Result<serde_json::Value, String> {
    Ok(match value {
        JsonValue::Null => serde_json::Value::Null,
        JsonValue::Bool(flag) => serde_json::Value::Bool(*flag),
        JsonValue::Number(number) => serde_json::Value::Number(serde_json::from_str(&number.literal).map_err(|error| error.to_string())?),
        JsonValue::Text(string) => serde_json::Value::String(string.clone()),
        JsonValue::Array(values) => serde_json::Value::Array(values.iter().map(outside_value_of).collect::<Result<_, _>>()?),
        JsonValue::Object(entries) => serde_json::Value::Object(entries.iter().map(|(key, value)| Ok((key.clone(), outside_value_of(value)?))).collect::<Result<_, String>>()?),
    })
}

/// Whether the number is an integer in its written form.
pub open spec fn is_whole(signed: Option<i64>, unsigned: Option<u64>, literal: Seq<char>) -> bool {
    match (signed, unsigned) {
        (Some(n), Some(m)) => n == m && literal == text::decimal(m as nat),
        (None, Some(m)) => m > i64::MAX && literal == text::decimal(m as nat),
        (Some(n), None) => n < 0 && literal == text::signed_decimal(n as int),
        (None, None) => false,
    }
}

/// Whether the document is one that a reader gives back as it was written: its numbers
/// are integers, the entries of each object stand in the order of their keys, each key
/// once, and no value lies inside of more than `depth` lists and objects.
pub open spec fn rereadable(value: JsonView, depth: nat) -> bool
    decreases value,
{
    match value {
        JsonView::Number { signed, unsigned, literal } => is_whole(signed, unsigned, literal),
        JsonView::Array(values) => depth > 0 && rereadable_items(values, (depth - 1) as nat),
        JsonView::Object(entries) => depth > 0 && rereadable_entries(
            entries,
            (depth - 1) as nat,
        ),
        _ => true,
    }
}

/// Whether each of the values is one that a reader gives back.
pub open spec fn rereadable_items(values: Seq<JsonView>, depth: nat) -> bool
    decreases values,
{
    values.len() == 0 || (rereadable_items(values.drop_last(), depth) && rereadable(
        values.last(),
        depth,
    ))
}

/// Whether each of the entries is one that a reader gives back, and they stand in the
/// order of their keys.
pub open spec fn rereadable_entries(entries: Seq<(Seq<char>, JsonView)>, depth: nat) -> bool
    decreases entries,
{
    entries.len() == 0 || (rereadable_entries(entries.drop_last(), depth) && rereadable(
        entries.last().1,
        depth,
    ) && (entries.len() > 1 ==> text::text_less(
        entries[entries.len() - 2].0,
        entries.last().0,
    )))
}

/// How many lists and objects `serde_json` reads inside of each other.
pub const DEPTH_LIMIT: usize = 127;

/// Whether a reader gives the document back from what was written, whether or not a line
/// break follows.
pub open spec fn reads_back(written: Result<Vec<u8>, String>, value: JsonView) -> bool {
    &&& written is Ok
    &&& json_document(written->Ok_0@) == Ok::<JsonView, Seq<char>>(value)
    &&& json_document(written->Ok_0@.push(10u8)) == Ok::<JsonView, Seq<char>>(value)
}

/// Whether the two documents differ at most in their numbers.
pub open spec fn alike(left: JsonView, right: JsonView) -> bool
    decreases left,
{
    match (left, right) {
        (JsonView::Number { .. }, JsonView::Number { .. }) => true,
        (JsonView::Array(ours), JsonView::Array(theirs)) => alike_items(ours, theirs),
        (JsonView::Object(ours), JsonView::Object(theirs)) => alike_entries(ours, theirs),
        _ => left == right,
    }
}

/// Whether the values differ at most in their numbers.
pub open spec fn alike_items(left: Seq<JsonView>, right: Seq<JsonView>) -> bool
    decreases left,
{
    left.len() == right.len() && (left.len() == 0 || (alike_items(
        left.drop_last(),
        right.drop_last(),
    ) && alike(left.last(), right.last())))
}

/// Whether the entries have the same keys and differ at most in their numbers.
pub open spec fn alike_entries(
    left: Seq<(Seq<char>, JsonView)>,
    right: Seq<(Seq<char>, JsonView)>,
) -> bool
    decreases left,
{
    left.len() == right.len() && (left.len() == 0 || (alike_entries(
        left.drop_last(),
        right.drop_last(),
    ) && left.last().0 == right.last().0 && alike(left.last().1, right.last().1)))
}

/// `alike_items` compares each value.
pub proof fn lemma_alike_items(left: Seq<JsonView>, right: Seq<JsonView>)
    requires
        alike_items(left, right),
    ensures
        left.len() == right.len(),
        forall|i: int| 0 <= i < left.len() ==> alike(#[trigger] left[i], right[i]),
    decreases left.len(),
{
    if left.len() > 0 {
        lemma_alike_items(left.drop_last(), right.drop_last());
        assert forall|i: int| 0 <= i < left.len() implies alike(#[trigger] left[i], right[i]) by {
            if i < left.len() - 1 {
                assert(left.drop_last()[i] == left[i]);
                assert(right.drop_last()[i] == right[i]);
            }
        }
    }
}

/// Whether what a reader makes of what was written, whether or not a line break follows,
/// differs from the document at most in its numbers, where the reader makes something of
/// it.
pub open spec fn keeps_texts(written: Result<Vec<u8>, String>, value: JsonView) -> bool {
    written is Ok ==> {
        &&& json_document(written->Ok_0@) is Ok ==> alike(
            json_document(written->Ok_0@)->Ok_0,
            value,
        )
        &&& json_document(written->Ok_0@.push(10u8)) is Ok ==> alike(
            json_document(written->Ok_0@.push(10u8))->Ok_0,
            value,
        )
    }
}

/// `serde_json::to_vec_pretty` of the value: the result depends on the value
/// alone. A document without fractions that is not nested too deeply is written, and
/// `serde_json::from_slice` gives it back. Of other documents that is not said: a
/// fraction may be read back as a neighbouring one. But whatever `serde_json::from_slice`
/// gives back, where it gives something back, has the same lists, objects, keys, texts and
/// flags.
#[verifier::external_body]
pub(crate) fn print_json(value: &JsonValue) -> (written: Result<Vec<u8>, String>)
    ensures
        written_view(written) == json_pretty(value@),
        rereadable(value@, DEPTH_LIMIT as nat) ==> reads_back(written, value@),
        in_order(value@) ==> keeps_texts(written, value@),
{
    serde_json::to_vec_pretty(&outside_value_of(value)?).map_err(|error| error.to_string())
}

/// The value of the first entry named `name`, where the document is an object
/// that has one.
pub open spec fn field(document: JsonView, name: Seq<char>) -> Option<JsonView> {
    match document {
        JsonView::Object(entries) => entry_named(entries, name),
        _ => None,
    }
}

/// The value of the first entry named `name`.
pub open spec fn entry_named(entries: Seq<(Seq<char>, JsonView)>, name: Seq<char>) -> Option<
    JsonView,
>
    decreases entries.len(),
{
    if entries.len() == 0 {
        None
    } else if entries[0].0 == name {
        Some(entries[0].1)
    } else {
        entry_named(entries.subrange(1, entries.len() as int), name)
    }
}

/// The value of the first entry named `name`, where the document is an object
/// that has one.
pub fn get<'a>(document: &'a JsonValue, name: &str) -> (value: Option<&'a JsonValue>)
    ensures
        value is Some == field(document@, name@) is Some,
        value is Some ==> value->0@ == field(document@, name@)->0,
{
    match document {
        JsonValue::Object(entries) => {
            let mut i: usize = 0;
            proof {
                lemma_object_view(entries@);
                assert(object_view(entries@).subrange(0, entries@.len() as int) =~= object_view(
                    entries@,
                ));
            }
            while i < entries.len()
                invariant
                    i <= entries.len(),
                    entries@.len() == object_view(entries@).len(),
                    forall|j: int|
                        0 <= j < entries@.len() ==> object_view(entries@)[j] == (
                            entries@[j].0@,
                            json_view(entries@[j].1),
                        ),
                    document@ == JsonView::Object(object_view(entries@)),
                    entry_named(object_view(entries@), name@) == entry_named(
                        object_view(entries@).subrange(i as int, entries@.len() as int),
                        name@,
                    ),
                decreases entries.len() - i,
            {
                let ghost rest = object_view(entries@).subrange(i as int, entries@.len() as int);
                assert(rest[0] == object_view(entries@)[i as int]);
                if text::same_text(entries[i].0.as_str(), name) {
                    return Some(&entries[i].1);
                }
                assert(rest.subrange(1, rest.len() as int) =~= object_view(entries@).subrange(
                    i + 1,
                    entries@.len() as int,
                ));
                i = i + 1;
            }
            None
        },
        _ => None,
    }
}

} // verus!
