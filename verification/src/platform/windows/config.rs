//! The field of the client's configuration that names the accounts which are
//! logged in. A login begins by emptying it and is complete once it is filled.

use vstd::prelude::*;

use crate::error::AppError;
use crate::error::ErrorView;
use crate::json;
use crate::json::JsonNumber;
use crate::json::JsonValue;
use crate::json::JsonView;
use crate::text;

verus! {

/// The values of all fields `SavedAccountNames` in the document, in its order;
/// what is inside such a value is not looked at.
pub open spec fn saved_fields(value: JsonView) -> Seq<JsonView>
    decreases value,
{
    match value {
        JsonView::Object(entries) => entry_fields(entries),
        JsonView::Array(values) => item_fields(values),
        _ => Seq::empty(),
    }
}

/// The fields in the entries.
pub open spec fn entry_fields(entries: Seq<(Seq<char>, JsonView)>) -> Seq<JsonView>
    decreases entries,
{
    if entries.len() == 0 {
        Seq::empty()
    } else if entries.last().0 == "SavedAccountNames"@ {
        entry_fields(entries.drop_last()).push(entries.last().1)
    } else {
        entry_fields(entries.drop_last()) + saved_fields(entries.last().1)
    }
}

/// The fields in the values.
pub open spec fn item_fields(values: Seq<JsonView>) -> Seq<JsonView>
    decreases values,
{
    if values.len() == 0 {
        Seq::empty()
    } else {
        item_fields(values.drop_last()) + saved_fields(values.last())
    }
}

/// An emptied field: a text or a list without contents.
pub open spec fn emptied(field: JsonView) -> JsonView {
    match field {
        JsonView::Text(_) => JsonView::Text(Seq::empty()),
        JsonView::Array(_) => JsonView::Array(Seq::empty()),
        other => other,
    }
}

/// The document with every field `SavedAccountNames` emptied and everything else
/// as it was.
pub open spec fn cleared(value: JsonView) -> JsonView
    decreases value,
{
    match value {
        JsonView::Object(entries) => JsonView::Object(cleared_entries(entries)),
        JsonView::Array(values) => JsonView::Array(cleared_items(values)),
        other => other,
    }
}

/// The entries with the fields emptied.
pub open spec fn cleared_entries(entries: Seq<(Seq<char>, JsonView)>) -> Seq<(Seq<char>, JsonView)>
    decreases entries,
{
    if entries.len() == 0 {
        Seq::empty()
    } else {
        cleared_entries(entries.drop_last()).push(
            (
                entries.last().0,
                if entries.last().0 == "SavedAccountNames"@ {
                    emptied(entries.last().1)
                } else {
                    cleared(entries.last().1)
                },
            ),
        )
    }
}

/// The values with the fields emptied.
pub open spec fn cleared_items(values: Seq<JsonView>) -> Seq<JsonView>
    decreases values,
{
    if values.len() == 0 {
        Seq::empty()
    } else {
        cleared_items(values.drop_last()).push(cleared(values.last()))
    }
}

/// Whether the field can be emptied.
pub open spec fn can_empty(field: JsonView) -> bool {
    field is Text || field is Array
}

/// Whether the field can be read: it is a text or a list of texts.
pub open spec fn can_read(field: JsonView) -> bool {
    match field {
        JsonView::Text(_) => true,
        JsonView::Array(values) => forall|i: int|
            0 <= i < values.len() ==> (#[trigger] values[i]) is Text,
        _ => false,
    }
}

/// Whether the field names an account: a text in it is not blank.
pub open spec fn names_account(field: JsonView) -> bool {
    match field {
        JsonView::Text(name) => text::trimmed(name).len() > 0,
        JsonView::Array(values) => exists|i: int|
            0 <= i < values.len() && names_in(#[trigger] values[i]),
        _ => false,
    }
}

/// Whether the value is a text that is not blank.
pub open spec fn names_in(value: JsonView) -> bool {
    value matches JsonView::Text(name) && text::trimmed(name).len() > 0
}

/// Whether all fields can be emptied.
pub open spec fn all_can_empty(fields: Seq<JsonView>) -> bool {
    forall|i: int| 0 <= i < fields.len() ==> can_empty(#[trigger] fields[i])
}

/// Whether all fields can be read.
pub open spec fn all_can_read(fields: Seq<JsonView>) -> bool {
    forall|i: int| 0 <= i < fields.len() ==> can_read(#[trigger] fields[i])
}

/// Whether any field names an account.
pub open spec fn any_names_account(fields: Seq<JsonView>) -> bool {
    exists|i: int| 0 <= i < fields.len() && names_account(#[trigger] fields[i])
}

/// The number of fields, counted up to 255.
pub open spec fn counted(fields: Seq<JsonView>) -> u8 {
    if fields.len() < 255 {
        fields.len() as u8
    } else {
        255
    }
}

/// The error for a document that does not have exactly one field.
pub open spec fn wrong_count(fields: Seq<JsonView>) -> ErrorView {
    ErrorView::Login(
        "Battle.net.config 中应恰好包含一个 SavedAccountNames 字段，实际找到 "@ + text::decimal(
            counted(fields) as nat,
        ) + " 个"@,
    )
}

/// The document with its one field emptied, or why it cannot be.
pub open spec fn clear_result(document: JsonView) -> Result<JsonView, ErrorView> {
    if !all_can_empty(saved_fields(document)) {
        Err(
            ErrorView::Login(
                "Battle.net.config 的 SavedAccountNames 字段类型未知，已停止修改"@,
            ),
        )
    } else if saved_fields(document).len() != 1 {
        Err(wrong_count(saved_fields(document)))
    } else {
        Ok(cleared(document))
    }
}

/// Whether the document's one field names an account, or why that is not known.
pub open spec fn present_result(document: JsonView) -> Result<bool, ErrorView> {
    if !all_can_read(saved_fields(document)) {
        Err(
            ErrorView::Login(
                "Battle.net.config 的 SavedAccountNames 字段类型未知，已停止读取"@,
            ),
        )
    } else if saved_fields(document).len() != 1 {
        Err(wrong_count(saved_fields(document)))
    } else {
        Ok(any_names_account(saved_fields(document)))
    }
}

struct ClearedValue {
    value: JsonValue,
    count: u8,
    known: bool,
}

struct ClearedEntries {
    entries: Vec<(String, JsonValue)>,
    count: u8,
    known: bool,
}

struct ClearedItems {
    values: Vec<JsonValue>,
    count: u8,
    known: bool,
}

fn total(left: u8, right: u8) -> (sum: u8)
    ensures
        sum == (if left + right < 255 {
            left + right
        } else {
            255
        }),
{
    if left as u16 + (right as u16) < 255 {
        left + right
    } else {
        255
    }
}

proof fn lemma_joined_fields(left: Seq<JsonView>, right: Seq<JsonView>)
    ensures
        all_can_empty(left + right) == (all_can_empty(left) && all_can_empty(right)),
        all_can_read(left + right) == (all_can_read(left) && all_can_read(right)),
        any_names_account(left + right) == (any_names_account(left) || any_names_account(right)),
        counted(left + right) == (if counted(left) + counted(right) < 255 {
            (counted(left) + counted(right)) as int
        } else {
            255
        }),
{
    let both = left + right;
    assert forall|i: int| 0 <= i < left.len() implies both[i] == left[i] by {}
    assert forall|i: int| 0 <= i < right.len() implies both[left.len() + i] == right[i] by {}
    if all_can_empty(both) {
        assert forall|i: int| 0 <= i < left.len() implies can_empty(#[trigger] left[i]) by {
            assert(both[i] == left[i]);
        }
        assert forall|i: int| 0 <= i < right.len() implies can_empty(#[trigger] right[i]) by {
            assert(both[left.len() + i] == right[i]);
        }
    }
    if all_can_read(both) {
        assert forall|i: int| 0 <= i < left.len() implies can_read(#[trigger] left[i]) by {
            assert(both[i] == left[i]);
        }
        assert forall|i: int| 0 <= i < right.len() implies can_read(#[trigger] right[i]) by {
            assert(both[left.len() + i] == right[i]);
        }
    }
    if any_names_account(left) {
        let i = choose|i: int| 0 <= i < left.len() && names_account(#[trigger] left[i]);
        assert(names_account(both[i]));
    }
    if any_names_account(right) {
        let i = choose|i: int| 0 <= i < right.len() && names_account(#[trigger] right[i]);
        assert(names_account(both[left.len() + i]));
    }
}

fn clear_value(value: &JsonValue) -> (result: ClearedValue)
    ensures
        result.known ==> result.value@ == cleared(value@),
        result.count == counted(saved_fields(value@)),
        result.known == all_can_empty(saved_fields(value@)),
    decreases *value, 1nat,
{
    match value {
        JsonValue::Null => ClearedValue { value: JsonValue::Null, count: 0, known: true },
        JsonValue::Bool(flag) => ClearedValue {
            value: JsonValue::Bool(*flag),
            count: 0,
            known: true,
        },
        JsonValue::Number(number) => ClearedValue {
            value: JsonValue::Number(
                JsonNumber {
                    signed: number.signed,
                    unsigned: number.unsigned,
                    literal: number.literal.clone(),
                },
            ),
            count: 0,
            known: true,
        },
        JsonValue::Text(string) => ClearedValue {
            value: JsonValue::Text(string.clone()),
            count: 0,
            known: true,
        },
        JsonValue::Array(values) => {
            let result = clear_items(values);
            ClearedValue {
                value: JsonValue::Array(result.values),
                count: result.count,
                known: result.known,
            }
        },
        JsonValue::Object(entries) => {
            let result = clear_entries(entries);
            ClearedValue {
                value: JsonValue::Object(result.entries),
                count: result.count,
                known: result.known,
            }
        },
    }
}

fn clear_items(values: &Vec<JsonValue>) -> (result: ClearedItems)
    ensures
        result.known ==> json::array_view(result.values@) == cleared_items(
            json::array_view(values@),
        ),
        result.count == counted(item_fields(json::array_view(values@))),
        result.known == all_can_empty(item_fields(json::array_view(values@))),
    decreases *values, 0nat,
{
    let mut done: Vec<JsonValue> = Vec::new();
    let mut count: u8 = 0;
    let mut known = true;
    let mut i: usize = 0;
    assert(values@.take(0) =~= Seq::<JsonValue>::empty());
    while i < values.len()
        invariant
            i <= values.len(),
            known ==> json::array_view(done@) == cleared_items(
                json::array_view(values@.take(i as int)),
            ),
            count == counted(item_fields(json::array_view(values@.take(i as int)))),
            known == all_can_empty(item_fields(json::array_view(values@.take(i as int)))),
        decreases values.len() - i,
    {
        let ghost all = values@.take(i + 1);
        let item = clear_value(&values[i]);
        proof {
            assert(all.drop_last() =~= values@.take(i as int));
            assert(all.last() == values@[i as int]);
            let view = json::array_view(all);
            assert(view.drop_last() =~= json::array_view(all.drop_last()));
            assert(view.last() == values@[i as int]@);
            lemma_joined_fields(item_fields(view.drop_last()), saved_fields(view.last()));
        }
        let ghost before = done@;
        count = total(count, item.count);
        known = known && item.known;
        done.push(item.value);
        assert(done@.drop_last() =~= before);
        i = i + 1;
    }
    assert(values@.take(values@.len() as int) =~= values@);
    ClearedItems { values: done, count, known }
}

fn clear_field(field: &JsonValue) -> (result: ClearedValue)
    ensures
        result.known ==> result.value@ == emptied(field@),
        result.count == 1,
        result.known == can_empty(field@),
{
    match field {
        JsonValue::Text(_) => {
            let empty = String::new();
            assert(empty@ =~= Seq::<char>::empty());
            ClearedValue { value: JsonValue::Text(empty), count: 1, known: true }
        },
        JsonValue::Array(_) => {
            let empty: Vec<JsonValue> = Vec::new();
            assert(json::array_view(empty@) =~= Seq::<JsonView>::empty());
            ClearedValue { value: JsonValue::Array(empty), count: 1, known: true }
        },
        _ => ClearedValue { value: JsonValue::Null, count: 1, known: false },
    }
}

fn clear_entries(entries: &Vec<(String, JsonValue)>) -> (result: ClearedEntries)
    ensures
        result.known ==> json::object_view(result.entries@) == cleared_entries(
            json::object_view(entries@),
        ),
        result.count == counted(entry_fields(json::object_view(entries@))),
        result.known == all_can_empty(entry_fields(json::object_view(entries@))),
    decreases *entries, 0nat,
{
    let mut done: Vec<(String, JsonValue)> = Vec::new();
    let mut count: u8 = 0;
    let mut known = true;
    let mut i: usize = 0;
    assert(entries@.take(0) =~= Seq::<(String, JsonValue)>::empty());
    while i < entries.len()
        invariant
            i <= entries.len(),
            known ==> json::object_view(done@) == cleared_entries(
                json::object_view(entries@.take(i as int)),
            ),
            count == counted(entry_fields(json::object_view(entries@.take(i as int)))),
            known == all_can_empty(entry_fields(json::object_view(entries@.take(i as int)))),
        decreases entries.len() - i,
    {
        let ghost all = entries@.take(i + 1);
        let ghost view = json::object_view(all);
        proof {
            assert(all.drop_last() =~= entries@.take(i as int));
            assert(all.last() == entries@[i as int]);
            assert(view.drop_last() =~= json::object_view(all.drop_last()));
        }
        let key = entries[i].0.clone();
        let child = &entries[i].1;
        assert(view.last() == (key@, child@));
        let entry = if text::same_text(key.as_str(), "SavedAccountNames") {
            proof {
                let front = entry_fields(view.drop_last());
                let one = seq![child@];
                lemma_joined_fields(front, one);
                assert(front.push(child@) =~= front + one);
                assert(one[0] == child@);
                assert(all_can_empty(one) == can_empty(child@));
            }
            clear_field(child)
        } else {
            proof {
                lemma_joined_fields(entry_fields(view.drop_last()), saved_fields(child@));
            }
            clear_value(child)
        };
        let ghost before = done@;
        let ghost value = entry.value@;
        assert(entry.known ==> value == (if key@ == "SavedAccountNames"@ {
            emptied(child@)
        } else {
            cleared(child@)
        }));
        count = total(count, entry.count);
        known = known && entry.known;
        done.push((key, entry.value));
        assert(done@.drop_last() =~= before);
        assert(json::object_view(done@) =~= json::object_view(before).push((key@, value)));
        i = i + 1;
    }
    assert(entries@.take(entries@.len() as int) =~= entries@);
    ClearedEntries { entries: done, count, known }
}

/// The document with its one field `SavedAccountNames` emptied.
pub fn cleared_document(document: &JsonValue) -> (result: Result<JsonValue, AppError>)
    ensures
        match result {
            Ok(value) => clear_result(document@) == Ok::<JsonView, ErrorView>(value@),
            Err(error) => clear_result(document@) == Err::<JsonView, ErrorView>(error@),
        },
{
    let result = clear_value(document);
    if !result.known {
        return Err(
            AppError::Login(
                "Battle.net.config 的 SavedAccountNames 字段类型未知，已停止修改".to_owned(),
            ),
        );
    }
    if result.count != 1 {
        return Err(count_error(result.count));
    }
    Ok(result.value)
}

fn count_error(count: u8) -> (error: AppError)
    ensures
        error@ == ErrorView::Login(
            "Battle.net.config 中应恰好包含一个 SavedAccountNames 字段，实际找到 "@ + text::decimal(
                count as nat,
            ) + " 个"@,
        ),
{
    let number = text::decimal_text(count as u64);
    AppError::Login(
        text::joined3(
            "Battle.net.config 中应恰好包含一个 SavedAccountNames 字段，实际找到 ",
            number.as_str(),
            " 个",
        ),
    )
}

struct Inspected {
    count: u8,
    known: bool,
    present: bool,
}

fn inspect_field(field: &JsonValue) -> (result: Inspected)
    ensures
        result.count == 1,
        result.known == can_read(field@),
        result.known ==> result.present == names_account(field@),
{
    match field {
        JsonValue::Text(name) => Inspected {
            count: 1,
            known: true,
            present: !text::is_blank(name.as_str()),
        },
        JsonValue::Array(values) => {
            let mut present = false;
            let mut i: usize = 0;
            let ghost view = json::array_view(values@);
            proof {
                json::lemma_array_view(values@);
            }
            while i < values.len()
                invariant
                    i <= values.len(),
                    view.len() == values.len(),
                    field@ == JsonView::Array(view),
                    forall|j: int| 0 <= j < values.len() ==> view[j] == json::json_view(values@[j]),
                    forall|j: int| 0 <= j < i ==> (#[trigger] view[j]) is Text,
                    present == exists|j: int| 0 <= j < i && names_in(#[trigger] view[j]),
                decreases values.len() - i,
            {
                assert(view[i as int] == json::json_view(values@[i as int]));
                match &values[i] {
                    JsonValue::Text(name) => {
                        let own = !text::is_blank(name.as_str());
                        assert(own == names_in(view[i as int]));
                        present = present || own;
                    },
                    _ => {
                        assert(!(view[i as int] is Text));
                        return Inspected { count: 1, known: false, present };
                    },
                }
                i = i + 1;
            }
            Inspected { count: 1, known: true, present }
        },
        _ => Inspected { count: 1, known: false, present: false },
    }
}

fn inspect_value(value: &JsonValue) -> (result: Inspected)
    ensures
        result.count == counted(saved_fields(value@)),
        result.known == all_can_read(saved_fields(value@)),
        result.known ==> result.present == any_names_account(saved_fields(value@)),
    decreases *value, 1nat,
{
    match value {
        JsonValue::Array(values) => inspect_items(values),
        JsonValue::Object(entries) => inspect_entries(entries),
        _ => Inspected { count: 0, known: true, present: false },
    }
}

fn inspect_items(values: &Vec<JsonValue>) -> (result: Inspected)
    ensures
        result.count == counted(item_fields(json::array_view(values@))),
        result.known == all_can_read(item_fields(json::array_view(values@))),
        result.known ==> result.present == any_names_account(
            item_fields(json::array_view(values@)),
        ),
    decreases *values, 0nat,
{
    let mut result = Inspected { count: 0, known: true, present: false };
    let mut i: usize = 0;
    assert(values@.take(0) =~= Seq::<JsonValue>::empty());
    while i < values.len()
        invariant
            i <= values.len(),
            result.count == counted(item_fields(json::array_view(values@.take(i as int)))),
            result.known == all_can_read(item_fields(json::array_view(values@.take(i as int)))),
            result.known ==> result.present == any_names_account(
                item_fields(json::array_view(values@.take(i as int))),
            ),
        decreases values.len() - i,
    {
        let ghost all = values@.take(i + 1);
        let item = inspect_value(&values[i]);
        proof {
            assert(all.drop_last() =~= values@.take(i as int));
            assert(all.last() == values@[i as int]);
            let view = json::array_view(all);
            assert(view.drop_last() =~= json::array_view(all.drop_last()));
            lemma_joined_fields(item_fields(view.drop_last()), saved_fields(view.last()));
        }
        result =
        Inspected {
            count: total(result.count, item.count),
            known: result.known && item.known,
            present: result.present || item.present,
        };
        i = i + 1;
    }
    assert(values@.take(values@.len() as int) =~= values@);
    result
}

fn inspect_entries(entries: &Vec<(String, JsonValue)>) -> (result: Inspected)
    ensures
        result.count == counted(entry_fields(json::object_view(entries@))),
        result.known == all_can_read(entry_fields(json::object_view(entries@))),
        result.known ==> result.present == any_names_account(
            entry_fields(json::object_view(entries@)),
        ),
    decreases *entries, 0nat,
{
    let mut result = Inspected { count: 0, known: true, present: false };
    let mut i: usize = 0;
    assert(entries@.take(0) =~= Seq::<(String, JsonValue)>::empty());
    while i < entries.len()
        invariant
            i <= entries.len(),
            result.count == counted(entry_fields(json::object_view(entries@.take(i as int)))),
            result.known == all_can_read(entry_fields(json::object_view(entries@.take(i as int)))),
            result.known ==> result.present == any_names_account(
                entry_fields(json::object_view(entries@.take(i as int))),
            ),
        decreases entries.len() - i,
    {
        let ghost all = entries@.take(i + 1);
        let ghost view = json::object_view(all);
        proof {
            assert(all.drop_last() =~= entries@.take(i as int));
            assert(all.last() == entries@[i as int]);
            assert(view.drop_last() =~= json::object_view(all.drop_last()));
        }
        let child = &entries[i].1;
        assert(view.last() == (entries@[i as int].0@, child@));
        let entry = if text::same_text(entries[i].0.as_str(), "SavedAccountNames") {
            proof {
                let front = entry_fields(view.drop_last());
                let one = seq![child@];
                lemma_joined_fields(front, one);
                assert(front.push(child@) =~= front + one);
                assert(one[0] == child@);
                assert(all_can_read(one) == can_read(child@));
                assert(any_names_account(one) == names_account(child@));
            }
            inspect_field(child)
        } else {
            proof {
                lemma_joined_fields(entry_fields(view.drop_last()), saved_fields(child@));
            }
            inspect_value(child)
        };
        result =
        Inspected {
            count: total(result.count, entry.count),
            known: result.known && entry.known,
            present: result.present || entry.present,
        };
        i = i + 1;
    }
    assert(entries@.take(entries@.len() as int) =~= entries@);
    result
}

/// Whether the document's one field `SavedAccountNames` names an account.
pub fn document_names_account(document: &JsonValue) -> (result: Result<bool, AppError>)
    ensures
        match result {
            Ok(present) => present_result(document@) == Ok::<bool, ErrorView>(present),
            Err(error) => present_result(document@) == Err::<bool, ErrorView>(error@),
        },
{
    let result = inspect_value(document);
    if !result.known {
        return Err(
            AppError::Login(
                "Battle.net.config 的 SavedAccountNames 字段类型未知，已停止读取".to_owned(),
            ),
        );
    }
    if result.count != 1 {
        return Err(count_error(result.count));
    }
    Ok(result.present)
}

/// The contents of the configuration with its one field emptied, or why there
/// are none.
pub open spec fn cleared_config(bytes: Seq<u8>) -> Result<Seq<u8>, ErrorView> {
    match json::json_document(bytes) {
        Err(error) => Err(ErrorView::Login("Battle.net.config 不是有效 JSON："@ + error)),
        Ok(document) => match clear_result(document) {
            Err(error) => Err(error),
            Ok(value) => match json::json_pretty(value) {
                Err(error) => Err(ErrorView::Login("无法生成 Battle.net.config："@ + error)),
                Ok(written) => Ok(written.push(10u8)),
            },
        },
    }
}

/// Whether the configuration is a document that is read back as it was written.
pub open spec fn plain_config(bytes: Seq<u8>) -> bool {
    json::json_document(bytes) is Ok && json::rereadable(
        json::json_document(bytes)->Ok_0,
        json::DEPTH_LIMIT as nat,
    )
}

/// The contents of the configuration with its one field emptied; they end with a
/// line break. Where the configuration holds no fractions, it is then read back with
/// that field emptied and everything else as it was. Where it holds some and is read back,
/// the numbers may differ. Either way it names no account.
pub fn clear_saved_account_names(bytes: &Vec<u8>) -> (updated: Result<Vec<u8>, AppError>)
    ensures
        match updated {
            Ok(updated) => cleared_config(bytes@) == Ok::<Seq<u8>, ErrorView>(updated@),
            Err(error) => cleared_config(bytes@) == Err::<Seq<u8>, ErrorView>(error@),
        },
        plain_config(bytes@) && clear_result(json::json_document(bytes@)->Ok_0) is Ok ==> {
            &&& updated is Ok
            &&& json::json_document(updated->Ok_0@) == Ok::<JsonView, Seq<char>>(
                cleared(json::json_document(bytes@)->Ok_0),
            )
            &&& present_in_config(updated->Ok_0@) == Ok::<bool, ErrorView>(false)
        },
        updated is Ok && json::json_document(updated->Ok_0@) is Ok ==> {
            &&& json::alike(
                json::json_document(updated->Ok_0@)->Ok_0,
                cleared(json::json_document(bytes@)->Ok_0),
            )
            &&& present_in_config(updated->Ok_0@) == Ok::<bool, ErrorView>(false)
        },
{
    let document = match json::parse_json(bytes) {
        Ok(document) => document,
        Err(error) => {
            return Err(
                AppError::Login(
                    text::joined2("Battle.net.config 不是有效 JSON：", error.as_str()),
                ),
            );
        },
    };
    let value = match cleared_document(&document) {
        Ok(value) => value,
        Err(error) => {
            return Err(error);
        },
    };
    proof {
        if plain_config(bytes@) {
            lemma_cleared_stays_rereadable(document@, json::DEPTH_LIMIT as nat);
        }
        law_cleared_document_names_no_account(document@);
        lemma_cleared_stays_in_order(document@);
    }
    match json::print_json(&value) {
        Ok(written) => {
            let mut updated = written;
            updated.push(10u8);
            proof {
                if json::json_document(updated@) is Ok {
                    lemma_alike_present(json::json_document(updated@)->Ok_0, value@);
                }
            }
            Ok(updated)
        },
        Err(error) => Err(
            AppError::Login(text::joined2("无法生成 Battle.net.config：", error.as_str())),
        ),
    }
}

/// Whether the configuration names an account that is logged in.
pub open spec fn present_in_config(bytes: Seq<u8>) -> Result<bool, ErrorView> {
    match json::json_document(bytes) {
        Err(error) => Err(ErrorView::Login("Battle.net.config 不是有效 JSON："@ + error)),
        Ok(document) => present_result(document),
    }
}

/// Whether the configuration names an account that is logged in.
pub fn saved_account_names_present(bytes: &Vec<u8>) -> (present: Result<bool, AppError>)
    ensures
        match present {
            Ok(present) => present_in_config(bytes@) == Ok::<bool, ErrorView>(present),
            Err(error) => present_in_config(bytes@) == Err::<bool, ErrorView>(error@),
        },
{
    match json::parse_json(bytes) {
        Ok(document) => document_names_account(&document),
        Err(error) => Err(
            AppError::Login(text::joined2("Battle.net.config 不是有效 JSON：", error.as_str())),
        ),
    }
}

/// The emptied fields.
pub open spec fn emptied_fields(fields: Seq<JsonView>) -> Seq<JsonView> {
    fields.map_values(|field: JsonView| emptied(field))
}

proof fn lemma_cleared_fields(value: JsonView)
    ensures
        saved_fields(cleared(value)) == emptied_fields(saved_fields(value)),
    decreases value,
{
    match value {
        JsonView::Object(entries) => lemma_cleared_entries(entries),
        JsonView::Array(values) => lemma_cleared_items(values),
        _ => {
            assert(emptied_fields(Seq::empty()) =~= Seq::<JsonView>::empty());
        },
    }
}

proof fn lemma_cleared_entries(entries: Seq<(Seq<char>, JsonView)>)
    ensures
        entry_fields(cleared_entries(entries)) == emptied_fields(entry_fields(entries)),
        cleared_entries(entries).len() == entries.len(),
    decreases entries,
{
    if entries.len() == 0 {
        assert(emptied_fields(Seq::empty()) =~= Seq::<JsonView>::empty());
    } else {
        let front = entries.drop_last();
        lemma_cleared_entries(front);
        let done = cleared_entries(entries);
        assert(done.drop_last() =~= cleared_entries(front));
        if entries.last().0 == "SavedAccountNames"@ {
            assert(emptied_fields(entry_fields(front).push(entries.last().1)) =~= emptied_fields(
                entry_fields(front),
            ).push(emptied(entries.last().1)));
        } else {
            lemma_cleared_fields(entries.last().1);
            assert(emptied_fields(entry_fields(front) + saved_fields(entries.last().1))
                =~= emptied_fields(entry_fields(front)) + emptied_fields(
                saved_fields(entries.last().1),
            ));
        }
    }
}

proof fn lemma_cleared_items(values: Seq<JsonView>)
    ensures
        item_fields(cleared_items(values)) == emptied_fields(item_fields(values)),
    decreases values,
{
    if values.len() == 0 {
        assert(emptied_fields(Seq::empty()) =~= Seq::<JsonView>::empty());
    } else {
        let front = values.drop_last();
        lemma_cleared_items(front);
        let done = cleared_items(values);
        assert(done.drop_last() =~= cleared_items(front));
        lemma_cleared_fields(values.last());
        assert(emptied_fields(item_fields(front) + saved_fields(values.last()))
            =~= emptied_fields(item_fields(front)) + emptied_fields(saved_fields(values.last())));
    }
}

proof fn lemma_cleared_stays_rereadable(value: JsonView, depth: nat)
    requires
        json::rereadable(value, depth),
    ensures
        json::rereadable(cleared(value), depth),
    decreases value,
{
    match value {
        JsonView::Object(entries) => lemma_cleared_entries_stay_rereadable(
            entries,
            (depth - 1) as nat,
        ),
        JsonView::Array(values) => lemma_cleared_items_stay_rereadable(values, (depth - 1) as nat),
        _ => {},
    }
}

proof fn lemma_cleared_entries_stay_rereadable(entries: Seq<(Seq<char>, JsonView)>, depth: nat)
    requires
        json::rereadable_entries(entries, depth),
    ensures
        json::rereadable_entries(cleared_entries(entries), depth),
        cleared_entries(entries).len() == entries.len(),
        entries.len() > 0 ==> cleared_entries(entries).last().0 == entries.last().0,
    decreases entries,
{
    if entries.len() > 0 {
        let front = entries.drop_last();
        let done = cleared_entries(entries);
        lemma_cleared_entries_stay_rereadable(front, depth);
        assert(done.drop_last() =~= cleared_entries(front));
        if entries.len() > 1 {
            assert(front.last() == entries[entries.len() - 2]);
            assert(done[done.len() - 2] == cleared_entries(front).last());
        }
        if entries.last().0 == "SavedAccountNames"@ {
            assert(json::rereadable_items(Seq::<JsonView>::empty(), (depth - 1) as nat));
        } else {
            lemma_cleared_stays_rereadable(entries.last().1, depth);
        }
        assert(json::rereadable(done.last().1, depth));
        assert(json::rereadable_entries(done, depth));
    }
}

proof fn lemma_cleared_items_stay_rereadable(values: Seq<JsonView>, depth: nat)
    requires
        json::rereadable_items(values, depth),
    ensures
        json::rereadable_items(cleared_items(values), depth),
    decreases values,
{
    if values.len() > 0 {
        let front = values.drop_last();
        lemma_cleared_items_stay_rereadable(front, depth);
        assert(cleared_items(values).drop_last() =~= cleared_items(front));
        lemma_cleared_stays_rereadable(values.last(), depth);
    }
}

proof fn lemma_cleared_stays_in_order(value: JsonView)
    requires
        json::in_order(value),
    ensures
        json::in_order(cleared(value)),
    decreases value,
{
    match value {
        JsonView::Object(entries) => lemma_cleared_entries_stay_in_order(entries),
        JsonView::Array(values) => lemma_cleared_items_stay_in_order(values),
        _ => {},
    }
}

proof fn lemma_cleared_entries_stay_in_order(entries: Seq<(Seq<char>, JsonView)>)
    requires
        json::entries_in_order(entries),
    ensures
        json::entries_in_order(cleared_entries(entries)),
        cleared_entries(entries).len() == entries.len(),
        entries.len() > 0 ==> cleared_entries(entries).last().0 == entries.last().0,
    decreases entries,
{
    if entries.len() > 0 {
        let front = entries.drop_last();
        let done = cleared_entries(entries);
        lemma_cleared_entries_stay_in_order(front);
        assert(done.drop_last() =~= cleared_entries(front));
        if entries.len() > 1 {
            assert(front.last() == entries[entries.len() - 2]);
            assert(done[done.len() - 2] == cleared_entries(front).last());
        }
        if entries.last().0 == "SavedAccountNames"@ {
            assert(json::items_in_order(Seq::<JsonView>::empty()));
        } else {
            lemma_cleared_stays_in_order(entries.last().1);
        }
        assert(json::in_order(done.last().1));
        assert(json::entries_in_order(done));
    }
}

proof fn lemma_cleared_items_stay_in_order(values: Seq<JsonView>)
    requires
        json::items_in_order(values),
    ensures
        json::items_in_order(cleared_items(values)),
    decreases values,
{
    if values.len() > 0 {
        let front = values.drop_last();
        lemma_cleared_items_stay_in_order(front);
        assert(cleared_items(values).drop_last() =~= cleared_items(front));
        lemma_cleared_stays_in_order(values.last());
    }
}

/// Whether the fields differ at most in their numbers.
spec fn alike_fields(left: Seq<JsonView>, right: Seq<JsonView>) -> bool {
    left.len() == right.len() && forall|i: int|
        0 <= i < left.len() ==> json::alike(#[trigger] left[i], right[i])
}

proof fn lemma_alike_fields(left: JsonView, right: JsonView)
    requires
        json::alike(left, right),
    ensures
        alike_fields(saved_fields(left), saved_fields(right)),
    decreases left,
{
    match (left, right) {
        (JsonView::Object(ours), JsonView::Object(theirs)) => lemma_alike_entry_fields(
            ours,
            theirs,
        ),
        (JsonView::Array(ours), JsonView::Array(theirs)) => lemma_alike_item_fields(ours, theirs),
        _ => {},
    }
}

proof fn lemma_alike_entry_fields(
    left: Seq<(Seq<char>, JsonView)>,
    right: Seq<(Seq<char>, JsonView)>,
)
    requires
        json::alike_entries(left, right),
    ensures
        alike_fields(entry_fields(left), entry_fields(right)),
    decreases left,
{
    if left.len() > 0 {
        lemma_alike_entry_fields(left.drop_last(), right.drop_last());
        if left.last().0 != "SavedAccountNames"@ {
            lemma_alike_fields(left.last().1, right.last().1);
        }
    }
}

proof fn lemma_alike_item_fields(left: Seq<JsonView>, right: Seq<JsonView>)
    requires
        json::alike_items(left, right),
    ensures
        alike_fields(item_fields(left), item_fields(right)),
    decreases left,
{
    if left.len() > 0 {
        lemma_alike_item_fields(left.drop_last(), right.drop_last());
        lemma_alike_fields(left.last(), right.last());
    }
}

proof fn lemma_alike_field(left: JsonView, right: JsonView)
    requires
        json::alike(left, right),
    ensures
        can_read(left) == can_read(right),
        names_account(left) == names_account(right),
{
    match (left, right) {
        (JsonView::Array(ours), JsonView::Array(theirs)) => {
            json::lemma_alike_items(ours, theirs);
            assert forall|i: int| 0 <= i < ours.len() implies {
                &&& ((#[trigger] ours[i]) is Text) == (theirs[i] is Text)
                &&& names_in(ours[i]) == names_in(theirs[i])
            } by {
                assert(json::alike(ours[i], theirs[i]));
            }
            if can_read(left) {
                assert forall|i: int| 0 <= i < theirs.len() implies (#[trigger] theirs[i]) is Text by {
                    assert(ours[i] is Text);
                }
            }
            if names_account(left) {
                let i = choose|i: int| 0 <= i < ours.len() && names_in(#[trigger] ours[i]);
                assert(names_in(theirs[i]));
            }
            if names_account(right) {
                let i = choose|i: int| 0 <= i < theirs.len() && names_in(#[trigger] theirs[i]);
                assert(names_in(ours[i]));
            }
        },
        _ => {},
    }
}

/// Documents that differ at most in their numbers say the same about accounts.
proof fn lemma_alike_present(left: JsonView, right: JsonView)
    requires
        json::alike(left, right),
    ensures
        present_result(left) == present_result(right),
{
    lemma_alike_fields(left, right);
    let ours = saved_fields(left);
    let theirs = saved_fields(right);
    assert forall|i: int| 0 <= i < ours.len() implies {
        &&& can_read(#[trigger] ours[i]) == can_read(theirs[i])
        &&& names_account(ours[i]) == names_account(theirs[i])
    } by {
        lemma_alike_field(ours[i], theirs[i]);
    }
    if all_can_read(ours) {
        assert forall|i: int| 0 <= i < theirs.len() implies can_read(#[trigger] theirs[i]) by {
            assert(can_read(ours[i]));
        }
    }
    if any_names_account(ours) {
        let i = choose|i: int| 0 <= i < ours.len() && names_account(#[trigger] ours[i]);
        assert(names_account(theirs[i]));
    }
    if any_names_account(theirs) {
        let i = choose|i: int| 0 <= i < theirs.len() && names_account(#[trigger] theirs[i]);
        assert(names_account(ours[i]));
    }
}

/// A document that was cleared names no account: its field is still there, can be
/// read, and is empty.
pub proof fn law_cleared_document_names_no_account(document: JsonView)
    requires
        clear_result(document) is Ok,
    ensures
        present_result(clear_result(document)->Ok_0) == Ok::<bool, ErrorView>(false),
{
    lemma_cleared_fields(document);
    let before = saved_fields(document);
    let after = saved_fields(cleared(document));
    assert(can_empty(before[0]));
    assert(after[0] == emptied(before[0]));
    assert forall|i: int| 0 <= i < after.len() implies can_read(#[trigger] after[i]) by {
        assert(i == 0);
    }
    assert forall|i: int| 0 <= i < after.len() implies !names_account(#[trigger] after[i]) by {
        assert(i == 0);
        assert(text::trimmed_start(Seq::<char>::empty()) =~= Seq::<char>::empty());
        assert(text::trimmed_end(Seq::<char>::empty()) =~= Seq::<char>::empty());
    }
}

/// Clearing a document twice is clearing it once.
pub proof fn law_clearing_is_idempotent(document: JsonView)
    ensures
        cleared(cleared(document)) == cleared(document),
    decreases document,
{
    match document {
        JsonView::Object(entries) => lemma_idempotent_entries(entries),
        JsonView::Array(values) => lemma_idempotent_items(values),
        _ => {},
    }
}

proof fn lemma_idempotent_entries(entries: Seq<(Seq<char>, JsonView)>)
    ensures
        cleared_entries(cleared_entries(entries)) == cleared_entries(entries),
    decreases entries,
{
    if entries.len() > 0 {
        let front = entries.drop_last();
        lemma_idempotent_entries(front);
        assert(cleared_entries(entries).drop_last() =~= cleared_entries(front));
        law_clearing_is_idempotent(entries.last().1);
    }
}

proof fn lemma_idempotent_items(values: Seq<JsonView>)
    ensures
        cleared_items(cleared_items(values)) == cleared_items(values),
    decreases values,
{
    if values.len() > 0 {
        let front = values.drop_last();
        lemma_idempotent_items(front);
        assert(cleared_items(values).drop_last() =~= cleared_items(front));
        law_clearing_is_idempotent(values.last());
    }
}

/// Clearing changes nothing but the field: a value that is neither an object nor a list stays
/// as it is; a list keeps its length, and each of its values is cleared as a document of its
/// own; an object keeps its keys in their order, what stands under the key
/// `SavedAccountNames` loses its text or its items and is otherwise as it was, and what
/// stands under any other key is cleared as a document of its own.
pub proof fn law_clearing_changes_only_the_field(document: JsonView)
    ensures
        match document {
            JsonView::Object(entries) => cleared(document) is Object && {
                let after = cleared(document)->Object_0;
                &&& after.len() == entries.len()
                &&& forall|i: int|
                    0 <= i < entries.len() ==> (#[trigger] after[i]).0 == entries[i].0
                &&& forall|i: int|
                    0 <= i < entries.len() && entries[i].0 != "SavedAccountNames"@ ==> (
                    #[trigger] after[i]).1 == cleared(entries[i].1)
                &&& forall|i: int|
                    0 <= i < entries.len() && entries[i].0 == "SavedAccountNames"@ ==> match (
                    #[trigger] after[i]).1 {
                        JsonView::Text(name) => entries[i].1 is Text && name.len() == 0,
                        JsonView::Array(names) => entries[i].1 is Array && names.len() == 0,
                        other => other == entries[i].1,
                    }
            },
            JsonView::Array(values) => cleared(document) is Array && {
                let after = cleared(document)->Array_0;
                &&& after.len() == values.len()
                &&& forall|i: int|
                    0 <= i < values.len() ==> #[trigger] after[i] == cleared(values[i])
            },
            _ => cleared(document) == document,
        },
{
    match document {
        JsonView::Object(entries) => lemma_cleared_entries_one_by_one(entries),
        JsonView::Array(values) => lemma_cleared_items_one_by_one(values),
        _ => {},
    }
}

proof fn lemma_cleared_entries_one_by_one(entries: Seq<(Seq<char>, JsonView)>)
    ensures
        cleared_entries(entries).len() == entries.len(),
        forall|i: int|
            0 <= i < entries.len() ==> #[trigger] cleared_entries(entries)[i] == (
                entries[i].0,
                if entries[i].0 == "SavedAccountNames"@ {
                    emptied(entries[i].1)
                } else {
                    cleared(entries[i].1)
                },
            ),
    decreases entries.len(),
{
    if entries.len() > 0 {
        lemma_cleared_entries_one_by_one(entries.drop_last());
        assert forall|i: int| 0 <= i < entries.len() - 1 implies entries.drop_last()[i]
            == #[trigger] entries[i] by {}
    }
}

proof fn lemma_cleared_items_one_by_one(values: Seq<JsonView>)
    ensures
        cleared_items(values).len() == values.len(),
        forall|i: int|
            0 <= i < values.len() ==> #[trigger] cleared_items(values)[i] == cleared(values[i]),
    decreases values.len(),
{
    if values.len() > 0 {
        lemma_cleared_items_one_by_one(values.drop_last());
        assert forall|i: int| 0 <= i < values.len() - 1 implies values.drop_last()[i]
            == #[trigger] values[i] by {}
    }
}

/// The fields of a document are found wherever they stand: an object has those of its
/// entries one after the other, a list those of its values, an entry under the key
/// `SavedAccountNames` is one field as a whole, what stands under another key has the fields
/// that it has as a document of its own, and no other value has any.
pub proof fn law_fields_are_found_everywhere(
    left: Seq<(Seq<char>, JsonView)>,
    right: Seq<(Seq<char>, JsonView)>,
    first: Seq<JsonView>,
    second: Seq<JsonView>,
    key: Seq<char>,
    value: JsonView,
)
    ensures
        saved_fields(JsonView::Object(left + right)) == saved_fields(JsonView::Object(left))
            + saved_fields(JsonView::Object(right)),
        saved_fields(JsonView::Object(seq![("SavedAccountNames"@, value)])) == seq![value],
        key != "SavedAccountNames"@ ==> saved_fields(JsonView::Object(seq![(key, value)]))
            == saved_fields(value),
        saved_fields(JsonView::Array(first + second)) == saved_fields(JsonView::Array(first))
            + saved_fields(JsonView::Array(second)),
        saved_fields(JsonView::Array(seq![value])) == saved_fields(value),
        !(value is Object) && !(value is Array) ==> saved_fields(value).len() == 0,
{
    lemma_entry_fields_joined(left, right);
    lemma_item_fields_joined(first, second);
    let one = seq![(key, value)];
    let own = seq![("SavedAccountNames"@, value)];
    assert(one.drop_last() =~= Seq::<(Seq<char>, JsonView)>::empty());
    assert(own.drop_last() =~= Seq::<(Seq<char>, JsonView)>::empty());
    assert(one.last() == (key, value));
    assert(own.last() == ("SavedAccountNames"@, value));
    assert(entry_fields(Seq::empty()) + saved_fields(value) =~= saved_fields(value));
    assert(Seq::<JsonView>::empty().push(value) =~= seq![value]);
    let item = seq![value];
    assert(item.drop_last() =~= Seq::<JsonView>::empty());
    assert(item.last() == value);
    assert(item_fields(Seq::empty()) + saved_fields(value) =~= saved_fields(value));
}

proof fn lemma_entry_fields_joined(
    left: Seq<(Seq<char>, JsonView)>,
    right: Seq<(Seq<char>, JsonView)>,
)
    ensures
        entry_fields(left + right) == entry_fields(left) + entry_fields(right),
    decreases right.len(),
{
    if right.len() == 0 {
        assert(left + right =~= left);
        assert(entry_fields(left) + entry_fields(right) =~= entry_fields(left));
    } else {
        lemma_entry_fields_joined(left, right.drop_last());
        assert((left + right).drop_last() =~= left + right.drop_last());
        assert((left + right).last() == right.last());
        assert(entry_fields(left + right) =~= entry_fields(left) + entry_fields(right));
    }
}

proof fn lemma_item_fields_joined(left: Seq<JsonView>, right: Seq<JsonView>)
    ensures
        item_fields(left + right) == item_fields(left) + item_fields(right),
    decreases right.len(),
{
    if right.len() == 0 {
        assert(left + right =~= left);
        assert(item_fields(left) + item_fields(right) =~= item_fields(left));
    } else {
        lemma_item_fields_joined(left, right.drop_last());
        assert((left + right).drop_last() =~= left + right.drop_last());
        assert((left + right).last() == right.last());
        assert(item_fields(left + right) =~= item_fields(left) + item_fields(right));
    }
}

} // verus!
