//! Property lists as values of the library. Reading them is `plist`'s work; the
//! library looks at the texts of a dictionary.

use vstd::prelude::*;

use crate::text;

verus! {

/// A value of a dictionary. Of the kinds that the library does not look into, only the
/// kind is kept.
#[derive(Debug)]
pub enum PropertyValue {
    Text(String),
    Dictionary,
    Array,
    Boolean,
    Data,
    Date,
    Real,
    Integer,
    Uid,
    Unknown,
}

/// A property list: a dictionary, or a single value.
#[derive(Debug)]
pub enum PropertyList {
    Dictionary(Vec<(String, PropertyValue)>),
    Value(PropertyValue),
}

/// A [`PropertyValue`] with its text as a character sequence.
pub enum PropertyValueView {
    Text(Seq<char>),
    Dictionary,
    Array,
    Boolean,
    Data,
    Date,
    Real,
    Integer,
    Uid,
    Unknown,
}

/// A [`PropertyList`] with its texts as character sequences.
pub enum PropertyListView {
    Dictionary(Seq<(Seq<char>, PropertyValueView)>),
    Value(PropertyValueView),
}

impl View for PropertyValue {
    type V = PropertyValueView;

    open spec fn view(&self) -> PropertyValueView {
        match *self {
            PropertyValue::Text(string) => PropertyValueView::Text(string@),
            PropertyValue::Dictionary => PropertyValueView::Dictionary,
            PropertyValue::Array => PropertyValueView::Array,
            PropertyValue::Boolean => PropertyValueView::Boolean,
            PropertyValue::Data => PropertyValueView::Data,
            PropertyValue::Date => PropertyValueView::Date,
            PropertyValue::Real => PropertyValueView::Real,
            PropertyValue::Integer => PropertyValueView::Integer,
            PropertyValue::Uid => PropertyValueView::Uid,
            PropertyValue::Unknown => PropertyValueView::Unknown,
        }
    }
}

/// The entries with their names and texts as character sequences.
pub open spec fn entries_view(entries: Seq<(String, PropertyValue)>) -> Seq<
    (Seq<char>, PropertyValueView),
> {
    Seq::new(entries.len(), |i: int| (entries[i].0@, entries[i].1@))
}

impl View for PropertyList {
    type V = PropertyListView;

    open spec fn view(&self) -> PropertyListView {
        match *self {
            PropertyList::Dictionary(entries) => PropertyListView::Dictionary(
                entries_view(entries@),
            ),
            PropertyList::Value(value) => PropertyListView::Value(value@),
        }
    }
}

/// The property list that `plist` reads from the bytes, where there is one.
pub uninterp spec fn property_list(bytes: Seq<u8>) -> Option<PropertyListView>;

/// What was read, with its texts as character sequences.
pub open spec fn read_view(read: Option<PropertyList>) -> Option<PropertyListView> {
    match read {
        Some(list) => Some(list@),
        None => None,
    }
}

/// `<`, as a byte.
pub const TAG_OPEN: u8 = 60;

/// `>`, as a byte.
pub const TAG_CLOSE: u8 = 62;

/// `/`, as a byte.
pub const SLASH: u8 = 47;

/// `!`, as a byte.
pub const EXCLAMATION: u8 = 33;

/// `?`, as a byte.
pub const QUESTION: u8 = 63;

/// `&`, as a byte.
pub const AMPERSAND: u8 = 38;

/// `:`, as a byte.
pub const COLON: u8 = 58;

/// `"`, as a byte.
pub const DOUBLE_QUOTE: u8 = 34;

/// `'`, as a byte.
pub const SINGLE_QUOTE: u8 = 39;

/// Whether the byte ends the name of a tag: a space, a tab, an end of line, or the end of
/// the tag.
pub open spec fn ends_name(byte: u8) -> bool {
    byte == 32 || byte == 9 || byte == 10 || byte == 13 || byte == TAG_CLOSE
}

/// Whether the byte is a quotation mark.
pub open spec fn is_quote(byte: u8) -> bool {
    byte == DOUBLE_QUOTE || byte == SINGLE_QUOTE
}

/// The first position from `start` on with a byte that ends a name, or with a quotation
/// mark; the length of the bytes where there is none.
pub open spec fn name_end(bytes: Seq<u8>, start: int) -> int
    decreases bytes.len() - start,
{
    if start >= bytes.len() {
        bytes.len() as int
    } else if ends_name(bytes[start]) || is_quote(bytes[start]) {
        start
    } else {
        name_end(bytes, start + 1)
    }
}

/// The first position from `start` on with a `>` or a quotation mark; the length of the
/// bytes where there is none.
pub open spec fn tag_end(bytes: Seq<u8>, start: int) -> int
    decreases bytes.len() - start,
{
    if start >= bytes.len() {
        bytes.len() as int
    } else if bytes[start] == TAG_CLOSE || is_quote(bytes[start]) {
        start
    } else {
        tag_end(bytes, start + 1)
    }
}

/// `9999-12-31`, in bytes.
pub open spec fn last_day() -> Seq<u8> {
    seq![57u8, 57, 57, 57, 45, 49, 50, 45, 51, 49]
}

/// Whether what stands at `start` is another text than `9999-12-31`, of which the first
/// `matched` bytes were met: the first byte that differs is text or the end of the
/// element.
pub open spec fn is_other_day(bytes: Seq<u8>, start: int, matched: int) -> bool
    decreases last_day().len() - matched,
{
    if matched >= last_day().len() {
        false
    } else if start + matched >= bytes.len() {
        true
    } else if bytes[start + matched] == last_day()[matched] {
        is_other_day(bytes, start, matched + 1)
    } else if bytes[start + matched] == TAG_OPEN {
        start + matched + 1 < bytes.len() && bytes[start + matched + 1] == SLASH
    } else {
        bytes[start + matched] != AMPERSAND
    }
}

/// Whether the name is `date`, with or without a prefix.
pub open spec fn is_date_name(name: Seq<u8>) -> bool {
    &&& name.len() >= 4
    &&& name.skip(name.len() - 4) == seq![100u8, 97, 116, 101]
    &&& name.len() > 4 ==> name[name.len() - 5] == COLON
}

/// Whether a `<` before the byte opens no element, but closes one or begins another markup.
pub open spec fn opens_no_element(byte: u8) -> bool {
    byte == EXCLAMATION || byte == SLASH || byte == QUESTION
}

/// Whether the `<` at `start` opens no `date` element whose text may be a moment of the
/// day `9999-12-31`, and no tag with a quotation mark in its name.
pub open spec fn is_safe_tag(bytes: Seq<u8>, start: int) -> bool {
    let end = name_end(bytes, start + 1);
    let close = tag_end(bytes, end);
    if end >= bytes.len() || opens_no_element(bytes[start + 1]) {
        true
    } else if is_quote(bytes[end]) {
        false
    } else if is_date_name(bytes.subrange(start + 1, end)) {
        close >= bytes.len() || (bytes[close] == TAG_CLOSE && is_other_day(bytes, close + 1, 0))
    } else {
        true
    }
}

/// Whether the bytes begin as no XML does: with a visible character that is neither `<`
/// nor `&`, such as the `b` of a binary property list or the `{` of an ASCII one.
pub open spec fn begins_without_tags(bytes: Seq<u8>) -> bool {
    bytes.len() > 0 && 33 <= bytes[0] <= 126 && bytes[0] != TAG_OPEN && bytes[0] != AMPERSAND
}

/// Whether the bytes hold no date of the day `9999-12-31` in XML, as far as the tags tell.
/// A moment of that day with an offset to the west of Greenwich can lie in the year
/// 10000, which no date of `plist` can hold.
pub open spec fn has_safe_dates(bytes: Seq<u8>) -> bool {
    begins_without_tags(bytes) || forall|i: int|
        0 <= i < bytes.len() && #[trigger] bytes[i] == TAG_OPEN ==> is_safe_tag(bytes, i)
}

/// A property list as `plist` holds it.
#[verifier::external_type_specification]
#[verifier::external_body]
pub struct ExPlistValue(plist::Value);

/// Moves a value read by `plist` into a [`PropertyValue`], kind by kind. Nothing is
/// claimed of it here: what the reader below returns has a name of its own.
#[verifier::external_body]
fn value_of(value: plist::Value) -> PropertyValue {
    match value {
        plist::Value::String(string) => PropertyValue::Text(string),
        plist::Value::Dictionary(_) => PropertyValue::Dictionary,
        plist::Value::Array(_) => PropertyValue::Array,
        plist::Value::Boolean(_) => PropertyValue::Boolean,
        plist::Value::Data(_) => PropertyValue::Data,
        plist::Value::Date(_) => PropertyValue::Date,
        plist::Value::Real(_) => PropertyValue::Real,
        plist::Value::Integer(_) => PropertyValue::Integer,
        plist::Value::Uid(_) => PropertyValue::Uid,
        _ => PropertyValue::Unknown,
    }
}

/// Moves a property list read by `plist` into a [`PropertyList`]; the entries of a
/// dictionary keep the order in which `plist::Dictionary` holds them. Nothing is claimed
/// of it here: what the reader below returns has a name of its own.
#[verifier::external_body]
fn list_of(list: plist::Value) -> PropertyList {
    match list {
        plist::Value::Dictionary(entries) => PropertyList::Dictionary(entries.into_iter().map(|(key, value)| (key, value_of(value))).collect()),
        value => PropertyList::Value(value_of(value)),
    }
}

/// `plist::Value::from_reader` over the bytes: the result depends on the bytes alone.
/// Why bytes are not a property list is not kept. Of XML the reader takes the text of each
/// `date` element for a moment, takes its offset away, and panics where what is left lies
/// after the year 9999: then the text begins with `9999-12-31`, and the bytes are such that
/// no element has such a text. Bytes that begin without tags are not read as XML. (The
/// clock of the system has to reach back to the year 0, as that of macOS does.)
#[verifier::external_body]
fn read_property_list(bytes: &Vec<u8>) -> (list: Option<PropertyList>)
    requires
        has_safe_dates(bytes@),
    ensures
        read_view(list) == property_list(bytes@),
{
    plist::Value::from_reader(std::io::Cursor::new(bytes)).ok().map(list_of)
}

/// The first position from `start` on that ends a name.
fn find_name_end(bytes: &Vec<u8>, start: usize) -> (end: usize)
    requires
        start <= bytes.len(),
    ensures
        end == name_end(bytes@, start as int),
        start <= end <= bytes.len(),
{
    let mut end: usize = start;
    while end < bytes.len()
        invariant
            start <= end <= bytes.len(),
            name_end(bytes@, start as int) == name_end(bytes@, end as int),
        decreases bytes.len() - end,
    {
        let byte = bytes[end];
        let is_blank = byte == 32 || byte == 9 || byte == 10 || byte == 13;
        if is_blank || byte == TAG_CLOSE || byte == DOUBLE_QUOTE || byte == SINGLE_QUOTE {
            return end;
        }
        end = end + 1;
    }
    end
}

/// The first position from `start` on with a `>` or a quotation mark.
fn find_tag_end(bytes: &Vec<u8>, start: usize) -> (end: usize)
    requires
        start <= bytes.len(),
    ensures
        end == tag_end(bytes@, start as int),
        start <= end <= bytes.len(),
{
    let mut end: usize = start;
    while end < bytes.len()
        invariant
            start <= end <= bytes.len(),
            tag_end(bytes@, start as int) == tag_end(bytes@, end as int),
        decreases bytes.len() - end,
    {
        let byte = bytes[end];
        if byte == TAG_CLOSE || byte == DOUBLE_QUOTE || byte == SINGLE_QUOTE {
            return end;
        }
        end = end + 1;
    }
    end
}

/// Whether the text at `start` is no moment of `9999-12-31`.
fn shows_other_day(bytes: &Vec<u8>, start: usize) -> (yes: bool)
    requires
        start <= bytes.len(),
    ensures
        yes == is_other_day(bytes@, start as int, 0),
{
    let day: [u8; 10] = [57, 57, 57, 57, 45, 49, 50, 45, 51, 49];
    assert(day@ =~= last_day());
    let mut matched: usize = 0;
    while matched < 10
        invariant
            start <= bytes.len(),
            matched <= 10,
            day@ == last_day(),
            is_other_day(bytes@, start as int, 0) == is_other_day(
                bytes@,
                start as int,
                matched as int,
            ),
        decreases 10 - matched,
    {
        if matched >= bytes.len() - start {
            return true;
        }
        let byte = bytes[start + matched];
        if byte != day[matched] {
            if byte == TAG_OPEN {
                return matched + 1 < bytes.len() - start && bytes[start + matched + 1] == SLASH;
            }
            return byte != AMPERSAND;
        }
        matched = matched + 1;
    }
    false
}

/// Whether the bytes from `start` to `end` are `date`, with or without a prefix.
fn names_date(bytes: &Vec<u8>, start: usize, end: usize) -> (yes: bool)
    requires
        start <= end <= bytes.len(),
    ensures
        yes == is_date_name(bytes@.subrange(start as int, end as int)),
{
    let ghost name = bytes@.subrange(start as int, end as int);
    if end - start < 4 {
        return false;
    }
    let yes = bytes[end - 4] == 100 && bytes[end - 3] == 97 && bytes[end - 2] == 116 && bytes[end
        - 1] == 101;
    proof {
        let tail = name.skip(name.len() - 4);
        if yes {
            assert(tail =~= seq![100u8, 97, 116, 101]);
        } else {
            let date = seq![100u8, 97, 116, 101];
            assert(tail != date) by {
                if tail == date {
                    assert(tail[0] == date[0] && tail[1] == date[1] && tail[2] == date[2] && tail[3]
                        == date[3]);
                }
            }
        }
    }
    yes && (end - start == 4 || bytes[end - 5] == COLON)
}

/// Whether the `<` at `start` leaves the dates readable.
fn check_tag(bytes: &Vec<u8>, start: usize) -> (yes: bool)
    requires
        start < bytes.len(),
    ensures
        yes == is_safe_tag(bytes@, start as int),
{
    let end = find_name_end(bytes, start + 1);
    if end >= bytes.len() || bytes[start + 1] == EXCLAMATION || bytes[start + 1] == SLASH
        || bytes[start + 1] == QUESTION {
        return true;
    }
    if bytes[end] == DOUBLE_QUOTE || bytes[end] == SINGLE_QUOTE {
        return false;
    }
    if !names_date(bytes, start + 1, end) {
        return true;
    }
    let close = find_tag_end(bytes, end);
    close >= bytes.len() || (bytes[close] == TAG_CLOSE && shows_other_day(bytes, close + 1))
}

/// Whether the bytes hold no date of the day `9999-12-31` in XML, as far as the tags tell.
fn check_dates(bytes: &Vec<u8>) -> (yes: bool)
    ensures
        yes == has_safe_dates(bytes@),
{
    if bytes.len() > 0 && 33 <= bytes[0] && bytes[0] <= 126 && bytes[0] != TAG_OPEN && bytes[0]
        != AMPERSAND {
        return true;
    }
    let mut i: usize = 0;
    while i < bytes.len()
        invariant
            i <= bytes.len(),
            !begins_without_tags(bytes@),
            forall|j: int|
                0 <= j < i && #[trigger] bytes@[j] == TAG_OPEN ==> is_safe_tag(bytes@, j),
        decreases bytes.len() - i,
    {
        if bytes[i] == TAG_OPEN && !check_tag(bytes, i) {
            assert(bytes@[i as int] == TAG_OPEN);
            return false;
        }
        i = i + 1;
    }
    true
}

/// The text of the first entry named `key`, where the first entry of that name is a
/// text.
pub open spec fn text_named(entries: Seq<(Seq<char>, PropertyValueView)>, key: Seq<char>) -> Option<
    Seq<char>,
>
    decreases entries.len(),
{
    if entries.len() == 0 {
        None
    } else if entries[0].0 == key {
        match entries[0].1 {
            PropertyValueView::Text(string) => Some(string),
            _ => None,
        }
    } else {
        text_named(entries.subrange(1, entries.len() as int), key)
    }
}

/// The text that a dictionary holds under `key`.
pub open spec fn dictionary_text(list: Option<PropertyListView>, key: Seq<char>) -> Option<
    Seq<char>,
> {
    match list {
        Some(PropertyListView::Dictionary(entries)) => text_named(entries, key),
        _ => None,
    }
}

/// The text, where there is one, as a character sequence.
pub open spec fn text_view(string: Option<String>) -> Option<Seq<char>> {
    match string {
        Some(string) => Some(string@),
        None => None,
    }
}

/// The text that the dictionary holds under `key`.
pub fn text_under(list: &Option<PropertyList>, key: &str) -> (found: Option<String>)
    ensures
        text_view(found) == dictionary_text(read_view(*list), key@),
{
    match list {
        Some(PropertyList::Dictionary(entries)) => {
            let mut i: usize = 0;
            proof {
                assert(entries_view(entries@).subrange(0, entries@.len() as int) =~= entries_view(
                    entries@,
                ));
            }
            while i < entries.len()
                invariant
                    i <= entries.len(),
                    read_view(*list) == Some(
                        PropertyListView::Dictionary(entries_view(entries@)),
                    ),
                    text_named(entries_view(entries@), key@) == text_named(
                        entries_view(entries@).subrange(i as int, entries@.len() as int),
                        key@,
                    ),
                decreases entries.len() - i,
            {
                let ghost rest = entries_view(entries@).subrange(i as int, entries@.len() as int);
                assert(rest[0] == entries_view(entries@)[i as int]);
                if text::same_text(entries[i].0.as_str(), key) {
                    return match &entries[i].1 {
                        PropertyValue::Text(string) => Some(string.clone()),
                        _ => None,
                    };
                }
                assert(rest.subrange(1, rest.len() as int) =~= entries_view(entries@).subrange(
                    i + 1,
                    entries@.len() as int,
                ));
                i = i + 1;
            }
            None
        },
        _ => None,
    }
}

/// The text that the property list in the bytes holds under `key`; none where the bytes
/// may hold a date that cannot be read.
pub open spec fn text_held(bytes: Seq<u8>, key: Seq<char>) -> Option<Seq<char>> {
    if has_safe_dates(bytes) {
        dictionary_text(property_list(bytes), key)
    } else {
        None
    }
}

/// The text that the property list in the bytes holds under `key`.
pub fn text_in(bytes: &Vec<u8>, key: &str) -> (found: Option<String>)
    ensures
        text_view(found) == text_held(bytes@, key@),
{
    if check_dates(bytes) {
        text_under(&read_property_list(bytes), key)
    } else {
        None
    }
}

} // verus!
