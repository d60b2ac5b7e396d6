//! Text as the rest of the library reads it: a string is the sequence of its
//! characters, and every helper says which sequence it returns.

use vstd::prelude::*;

verus! {

/// `String::push` appends one character.
pub assume_specification[ String::push ](s: &mut String, c: char)
    ensures
        final(s)@ == old(s)@.push(c),
;

/// `char::from_u32` gives the character with the code point `i`, which exists
/// for all values below 0x110000 but the surrogates.
pub assume_specification[ char::from_u32 ](i: u32) -> (c: Option<char>)
    ensures
        c == (if i < 0xd800 || 0xe000 <= i < 0x110000 {
            Some(i as char)
        } else {
            None
        }),
;

/// The characters of `text`, in order.
pub fn chars_of(text: &str) -> (chars: Vec<char>)
    ensures
        chars@ == text@,
{
    let mut chars: Vec<char> = Vec::new();
    for c in iter: text.chars()
        invariant
            iter.seq() == text@,
            chars@ == text@.take(iter.index()),
    {
        assert(text@.take(iter.index() + 1) =~= text@.take(iter.index()).push(c));
        chars.push(c);
    }
    assert(text@.take(text@.len() as int) =~= text@);
    chars
}

/// The string whose characters are `chars[from..to]`.
pub fn text_of(chars: &Vec<char>, from: usize, to: usize) -> (text: String)
    requires
        from <= to <= chars.len(),
    ensures
        text@ == chars@.subrange(from as int, to as int),
{
    let mut text = String::new();
    let mut i: usize = from;
    assert(chars@.subrange(from as int, from as int) =~= Seq::<char>::empty());
    while i < to
        invariant
            from <= i <= to <= chars.len(),
            text@ == chars@.subrange(from as int, i as int),
        decreases to - i,
    {
        text.push(chars[i]);
        assert(chars@.subrange(from as int, i + 1) =~= chars@.subrange(from as int, i as int).push(
            chars@[i as int],
        ));
        i = i + 1;
    }
    text
}

/// `left` followed by `right`.
pub fn joined2(left: &str, right: &str) -> (text: String)
    ensures
        text@ == left@ + right@,
{
    let mut text = left.to_owned();
    text.append(right);
    text
}

/// The three texts one after another.
pub fn joined3(first: &str, second: &str, third: &str) -> (text: String)
    ensures
        text@ == first@ + second@ + third@,
{
    let mut text = joined2(first, second);
    text.append(third);
    text
}

/// The four texts one after another.
pub fn joined4(first: &str, second: &str, third: &str, fourth: &str) -> (text: String)
    ensures
        text@ == first@ + second@ + third@ + fourth@,
{
    let mut text = joined3(first, second, third);
    text.append(fourth);
    text
}

/// The five texts one after another.
pub fn joined5(first: &str, second: &str, third: &str, fourth: &str, fifth: &str) -> (text: String)
    ensures
        text@ == first@ + second@ + third@ + fourth@ + fifth@,
{
    let mut text = joined4(first, second, third, fourth);
    text.append(fifth);
    text
}

/// Whether the two texts have the same characters.
pub fn same_text(left: &str, right: &str) -> (same: bool)
    ensures
        same == (left@ == right@),
{
    let a = chars_of(left);
    let b = chars_of(right);
    if a.len() != b.len() {
        return false;
    }
    let mut i: usize = 0;
    while i < a.len()
        invariant
            i <= a.len() == b.len(),
            a@ == left@,
            b@ == right@,
            forall|j: int| 0 <= j < i ==> a@[j] == b@[j],
        decreases a.len() - i,
    {
        if a[i] != b[i] {
            return false;
        }
        i = i + 1;
    }
    assert(a@ =~= b@);
    true
}

/// The characters with the Unicode `White_Space` property.
pub open spec fn whitespace(c: char) -> bool {
    ||| '\u{9}' <= c <= '\u{d}'
    ||| c == '\u{20}'
    ||| c == '\u{85}'
    ||| c == '\u{a0}'
    ||| c == '\u{1680}'
    ||| '\u{2000}' <= c <= '\u{200a}'
    ||| c == '\u{2028}'
    ||| c == '\u{2029}'
    ||| c == '\u{202f}'
    ||| c == '\u{205f}'
    ||| c == '\u{3000}'
}

fn is_whitespace(c: char) -> (yes: bool)
    ensures
        yes == whitespace(c),
{
    ('\u{9}' <= c && c <= '\u{d}') || c == '\u{20}' || c == '\u{85}' || c == '\u{a0}' || c
        == '\u{1680}' || ('\u{2000}' <= c && c <= '\u{200a}') || c == '\u{2028}' || c == '\u{2029}'
        || c == '\u{202f}' || c == '\u{205f}' || c == '\u{3000}'
}

/// `s` without its leading white space.
pub open spec fn trimmed_start(s: Seq<char>) -> Seq<char>
    decreases s.len(),
{
    if s.len() > 0 && whitespace(s[0]) {
        trimmed_start(s.subrange(1, s.len() as int))
    } else {
        s
    }
}

/// `s` without its trailing white space.
pub open spec fn trimmed_end(s: Seq<char>) -> Seq<char>
    decreases s.len(),
{
    if s.len() > 0 && whitespace(s.last()) {
        trimmed_end(s.drop_last())
    } else {
        s
    }
}

/// `s` without leading and trailing white space.
pub open spec fn trimmed(s: Seq<char>) -> Seq<char> {
    trimmed_end(trimmed_start(s))
}

/// The text without leading and trailing white space.
pub fn trim(text: &str) -> (result: String)
    ensures
        result@ == trimmed(text@),
{
    let chars = chars_of(text);
    let mut from: usize = 0;
    let mut to: usize = chars.len();
    assert(chars@.subrange(0, to as int) =~= text@);
    while from < to && is_whitespace(chars[from])
        invariant
            chars@ == text@,
            from <= to == chars.len(),
            trimmed_start(chars@.subrange(from as int, to as int)) == trimmed_start(text@),
        decreases to - from,
    {
        let ghost rest = chars@.subrange(from as int, to as int);
        assert(rest.subrange(1, rest.len() as int) =~= chars@.subrange(from + 1, to as int));
        from = from + 1;
    }
    assert(chars@.subrange(from as int, to as int) == trimmed_start(text@));
    while from < to && is_whitespace(chars[to - 1])
        invariant
            from <= to <= chars.len(),
            trimmed_end(chars@.subrange(from as int, to as int)) == trimmed(text@),
        decreases to - from,
    {
        assert(chars@.subrange(from as int, to as int).drop_last() =~= chars@.subrange(
            from as int,
            to - 1,
        ));
        to = to - 1;
    }
    text_of(&chars, from, to)
}

/// Whether `text` is empty once trimmed.
pub fn is_blank(text: &str) -> (blank: bool)
    ensures
        blank == (trimmed(text@).len() == 0),
{
    trim(text).as_str().is_empty()
}

/// `c` with an ASCII capital replaced by its small letter.
pub open spec fn lowered_char(c: char) -> char {
    if 'A' <= c <= 'Z' {
        (c as u8 + 32) as u8 as char
    } else {
        c
    }
}

/// `s` with every ASCII capital replaced by its small letter.
pub open spec fn lowered(s: Seq<char>) -> Seq<char> {
    Seq::new(s.len(), |i: int| lowered_char(s[i]))
}

/// `c` with an ASCII small letter replaced by its capital.
pub open spec fn uppered_char(c: char) -> char {
    if 'a' <= c <= 'z' {
        (c as u8 - 32) as u8 as char
    } else {
        c
    }
}

/// `s` with every ASCII small letter replaced by its capital.
pub open spec fn uppered(s: Seq<char>) -> Seq<char> {
    Seq::new(s.len(), |i: int| uppered_char(s[i]))
}

fn lower_char(c: char) -> (lower: char)
    ensures
        lower == lowered_char(c),
{
    if 'A' <= c && c <= 'Z' {
        (c as u8 + 32) as char
    } else {
        c
    }
}

fn upper_char(c: char) -> (upper: char)
    ensures
        upper == uppered_char(c),
{
    if 'a' <= c && c <= 'z' {
        (c as u8 - 32) as char
    } else {
        c
    }
}

/// The text with ASCII capitals replaced by small letters.
pub fn to_ascii_lowercase(text: &str) -> (lower: String)
    ensures
        lower@ == lowered(text@),
{
    let chars = chars_of(text);
    let mut lower = String::new();
    let mut i: usize = 0;
    while i < chars.len()
        invariant
            i <= chars.len(),
            chars@ == text@,
            lower@ == lowered(text@).take(i as int),
        decreases chars.len() - i,
    {
        lower.push(lower_char(chars[i]));
        assert(lowered(text@).take(i + 1) =~= lowered(text@).take(i as int).push(
            lowered_char(text@[i as int]),
        ));
        i = i + 1;
    }
    assert(lowered(text@).take(i as int) =~= lowered(text@));
    lower
}

/// The text with ASCII small letters replaced by capitals.
pub fn to_ascii_uppercase(text: &str) -> (upper: String)
    ensures
        upper@ == uppered(text@),
{
    let chars = chars_of(text);
    let mut upper = String::new();
    let mut i: usize = 0;
    while i < chars.len()
        invariant
            i <= chars.len(),
            chars@ == text@,
            upper@ == uppered(text@).take(i as int),
        decreases chars.len() - i,
    {
        upper.push(upper_char(chars[i]));
        assert(uppered(text@).take(i + 1) =~= uppered(text@).take(i as int).push(
            uppered_char(text@[i as int]),
        ));
        i = i + 1;
    }
    assert(uppered(text@).take(i as int) =~= uppered(text@));
    upper
}

/// Whether the texts are the same up to the case of ASCII letters.
pub fn same_ignoring_case(left: &str, right: &str) -> (same: bool)
    ensures
        same == (lowered(left@) == lowered(right@)),
{
    let a = to_ascii_lowercase(left);
    let b = to_ascii_lowercase(right);
    a == b
}

/// Whether `s` begins with `prefix`.
pub open spec fn begins_with(s: Seq<char>, prefix: Seq<char>) -> bool {
    s.len() >= prefix.len() && s.subrange(0, prefix.len() as int) == prefix
}

/// Whether `part` stands in `s` at position `at`.
pub open spec fn stands_at(s: Seq<char>, part: Seq<char>, at: int) -> bool {
    0 <= at && at + part.len() <= s.len() && s.subrange(at, at + part.len()) == part
}

/// Whether `part` stands anywhere in `s`.
pub open spec fn holds_text(s: Seq<char>, part: Seq<char>) -> bool {
    exists|at: int| stands_at(s, part, at)
}

fn matches_at(chars: &Vec<char>, part: &Vec<char>, at: usize) -> (yes: bool)
    requires
        at <= chars.len(),
    ensures
        yes == stands_at(chars@, part@, at as int),
{
    if part.len() > chars.len() - at {
        return false;
    }
    let mut i: usize = 0;
    while i < part.len()
        invariant
            i <= part.len(),
            at + part.len() <= chars.len(),
            forall|j: int| 0 <= j < i ==> chars@[at + j] == part@[j],
        decreases part.len() - i,
    {
        if chars[at + i] != part[i] {
            assert(chars@.subrange(at as int, at + part@.len())[i as int] != part@[i as int]);
            return false;
        }
        i = i + 1;
    }
    assert(chars@.subrange(at as int, at + part@.len()) =~= part@);
    true
}

/// Whether `text` begins with `prefix`.
pub fn starts_with(text: &str, prefix: &str) -> (yes: bool)
    ensures
        yes == begins_with(text@, prefix@),
{
    let chars = chars_of(text);
    let part = chars_of(prefix);
    matches_at(&chars, &part, 0)
}

/// Whether `part` stands anywhere in `text`.
pub fn contains(text: &str, part: &str) -> (yes: bool)
    ensures
        yes == holds_text(text@, part@),
{
    let chars = chars_of(text);
    let wanted = chars_of(part);
    let mut at: usize = 0;
    loop
        invariant
            at <= chars.len(),
            chars@ == text@,
            wanted@ == part@,
            forall|j: int| 0 <= j < at ==> !stands_at(text@, part@, j),
        decreases chars.len() - at,
    {
        if matches_at(&chars, &wanted, at) {
            assert(stands_at(text@, part@, at as int));
            return true;
        }
        if at == chars.len() {
            assert forall|j: int| !stands_at(text@, part@, j) by {
                if j >= at && stands_at(text@, part@, j) {
                    assert(j == at);
                }
            }
            return false;
        }
        at = at + 1;
    }
}

/// What follows `prefix`, where the text begins with it.
pub fn strip_prefix(text: &str, prefix: &str) -> (rest: Option<String>)
    ensures
        rest is Some == begins_with(text@, prefix@),
        rest is Some ==> rest->0@ == text@.subrange(prefix@.len() as int, text@.len() as int),
{
    let chars = chars_of(text);
    let part = chars_of(prefix);
    if matches_at(&chars, &part, 0) {
        Some(text_of(&chars, part.len(), chars.len()))
    } else {
        None
    }
}

/// The position of the first `c` in `s`, or its length.
pub open spec fn position(s: Seq<char>, c: char) -> nat
    decreases s.len(),
{
    if s.len() == 0 || s[0] == c {
        0
    } else {
        1 + position(s.subrange(1, s.len() as int), c)
    }
}

/// `position` is the first place of the character.
pub proof fn lemma_position(s: Seq<char>, c: char)
    ensures
        position(s, c) <= s.len(),
        forall|j: int| 0 <= j < position(s, c) ==> s[j] != c,
        position(s, c) < s.len() ==> s[position(s, c) as int] == c,
    decreases s.len(),
{
    if s.len() > 0 && s[0] != c {
        let rest = s.subrange(1, s.len() as int);
        lemma_position(rest, c);
        assert forall|j: int| 0 <= j < position(s, c) implies s[j] != c by {
            if j > 0 {
                assert(rest[j - 1] == s[j]);
            }
        }
    }
}

/// The position of the first `c` in `chars`, or their number.
pub fn find(chars: &Vec<char>, c: char) -> (at: usize)
    ensures
        at == position(chars@, c),
{
    let mut at: usize = 0;
    assert(chars@.subrange(0, chars@.len() as int) =~= chars@);
    while at < chars.len() && chars[at] != c
        invariant
            at <= chars.len(),
            position(chars@, c) == at + position(chars@.subrange(at as int, chars@.len() as int), c),
        decreases chars.len() - at,
    {
        let ghost rest = chars@.subrange(at as int, chars@.len() as int);
        assert(rest.subrange(1, rest.len() as int) =~= chars@.subrange(
            at + 1,
            chars@.len() as int,
        ));
        at = at + 1;
    }
    at
}

/// What stands before the first `c`.
pub open spec fn before(s: Seq<char>, c: char) -> Seq<char> {
    s.subrange(0, position(s, c) as int)
}

/// What stands after the first `c`.
pub open spec fn after(s: Seq<char>, c: char) -> Seq<char> {
    s.subrange(position(s, c) as int + 1, s.len() as int)
}

/// The text before the first `c`: all of it where `c` does not occur.
pub fn first_part(text: &str, c: char) -> (part: String)
    ensures
        part@ == before(text@, c),
{
    let chars = chars_of(text);
    let at: usize = find(&chars, c);
    proof {
        lemma_position(text@, c);
    }
    text_of(&chars, 0, at)
}

/// The digit that stands for `n`.
pub open spec fn digit(n: nat) -> char {
    (('0' as u8) + n) as u8 as char
}

/// The decimal digits of `n`, without leading zeros.
pub open spec fn decimal(n: nat) -> Seq<char>
    decreases n,
{
    if n < 10 {
        seq![digit(n)]
    } else {
        decimal(n / 10).push(digit(n % 10))
    }
}

/// `n` in decimal digits.
pub fn decimal_text(n: u64) -> (text: String)
    ensures
        text@ == decimal(n as nat),
    decreases n,
{
    let last: u8 = (n % 10) as u8;
    let mut text = if n < 10 {
        String::new()
    } else {
        decimal_text(n / 10)
    };
    text.push((48u8 + last) as char);
    text
}

/// The digit that stands for `n` in the hexadecimal system.
pub open spec fn hex_digit(n: nat) -> char {
    if n < 10 {
        digit(n)
    } else {
        (('a' as u8) + n - 10) as u8 as char
    }
}

/// The four hexadecimal digits of `n`.
pub open spec fn hex4(n: u16) -> Seq<char> {
    seq![
        hex_digit((n / 4096) as nat),
        hex_digit((n / 256 % 16) as nat),
        hex_digit((n / 16 % 16) as nat),
        hex_digit((n % 16) as nat),
    ]
}

fn hex_char(n: u16) -> (c: char)
    requires
        n < 16,
    ensures
        c == hex_digit(n as nat),
{
    if n < 10 {
        (48u8 + n as u8) as char
    } else {
        (97u8 + (n as u8 - 10)) as char
    }
}

/// `n` in four hexadecimal digits.
pub fn hex4_text(n: u16) -> (text: String)
    ensures
        text@ == hex4(n),
{
    let mut text = String::new();
    text.push(hex_char(n / 4096));
    text.push(hex_char(n / 256 % 16));
    text.push(hex_char(n / 16 % 16));
    text.push(hex_char(n % 16));
    assert(text@ =~= hex4(n));
    text
}

/// The digits of `n` in the octal system, without leading zeros.
pub open spec fn octal(n: nat) -> Seq<char>
    decreases n,
{
    if n < 8 {
        seq![digit(n)]
    } else {
        octal(n / 8).push(digit(n % 8))
    }
}

/// The octal digits of `n`, at least four of them.
pub open spec fn octal4(n: u32) -> Seq<char> {
    if n < 8 {
        "000"@ + octal(n as nat)
    } else if n < 64 {
        "00"@ + octal(n as nat)
    } else if n < 512 {
        "0"@ + octal(n as nat)
    } else {
        octal(n as nat)
    }
}

fn octal_text(n: u32) -> (text: String)
    ensures
        text@ == octal(n as nat),
    decreases n,
{
    let last: u8 = (n % 8) as u8;
    let mut text = if n < 8 {
        String::new()
    } else {
        octal_text(n / 8)
    };
    text.push((48u8 + last) as char);
    text
}

/// `n` in octal digits, at least four of them.
pub fn octal4_text(n: u32) -> (text: String)
    ensures
        text@ == octal4(n),
{
    let digits = octal_text(n);
    if n < 8 {
        joined2("000", digits.as_str())
    } else if n < 64 {
        joined2("00", digits.as_str())
    } else if n < 512 {
        joined2("0", digits.as_str())
    } else {
        digits
    }
}

/// `n` in decimal, with a sign where it is negative.
pub open spec fn signed_decimal(n: int) -> Seq<char> {
    if n < 0 {
        "-"@ + decimal((-n) as nat)
    } else {
        decimal(n as nat)
    }
}

/// `n` in decimal, with a sign where it is negative.
pub fn signed_decimal_text(n: i64) -> (text: String)
    ensures
        text@ == signed_decimal(n as int),
{
    if n >= 0 {
        decimal_text(n as u64)
    } else {
        let magnitude: u64 = ((-(n + 1)) as u64) + 1;
        joined2("-", decimal_text(magnitude).as_str())
    }
}

/// The dictionary order of texts by code point.
pub open spec fn text_less(a: Seq<char>, b: Seq<char>) -> bool
    decreases a.len(),
{
    if b.len() == 0 {
        false
    } else if a.len() == 0 {
        true
    } else if a[0] != b[0] {
        a[0] < b[0]
    } else {
        text_less(a.subrange(1, a.len() as int), b.subrange(1, b.len() as int))
    }
}

/// `text_less` is irreflexive and tells different texts apart.
pub proof fn lemma_text_order(a: Seq<char>, b: Seq<char>)
    ensures
        !text_less(a, a),
        !(text_less(a, b) && text_less(b, a)),
        a != b ==> text_less(a, b) || text_less(b, a),
    decreases a.len(),
{
    if a.len() > 0 {
        let rest = a.subrange(1, a.len() as int);
        lemma_text_order(rest, rest);
        if b.len() > 0 && a[0] == b[0] {
            let other = b.subrange(1, b.len() as int);
            lemma_text_order(rest, other);
            if rest == other {
                assert(a =~= seq![a[0]] + rest);
                assert(b =~= seq![b[0]] + other);
            }
        }
    } else if b.len() == 0 {
        assert(a =~= b);
    }
}

/// `text_less` is transitive.
pub proof fn lemma_text_order_transitive(a: Seq<char>, b: Seq<char>, c: Seq<char>)
    requires
        text_less(a, b),
        text_less(b, c),
    ensures
        text_less(a, c),
    decreases a.len(),
{
    if a.len() > 0 && a[0] == b[0] && b[0] == c[0] {
        lemma_text_order_transitive(
            a.subrange(1, a.len() as int),
            b.subrange(1, b.len() as int),
            c.subrange(1, c.len() as int),
        );
    }
}

/// Whether `left` stands before `right` in the dictionary order.
pub fn is_less(left: &str, right: &str) -> (less: bool)
    ensures
        less == text_less(left@, right@),
{
    let a = chars_of(left);
    let b = chars_of(right);
    let mut i: usize = 0;
    assert(a@.subrange(0, a@.len() as int) =~= a@);
    assert(b@.subrange(0, b@.len() as int) =~= b@);
    loop
        invariant
            i <= a.len(),
            i <= b.len(),
            text_less(a@.subrange(i as int, a@.len() as int), b@.subrange(i as int, b@.len() as int))
                == text_less(left@, right@),
        decreases a.len() - i,
    {
        if i == b.len() {
            return false;
        }
        if i == a.len() {
            return true;
        }
        if a[i] != b[i] {
            return a[i] < b[i];
        }
        let ghost rest_a = a@.subrange(i as int, a@.len() as int);
        let ghost rest_b = b@.subrange(i as int, b@.len() as int);
        assert(rest_a.subrange(1, rest_a.len() as int) =~= a@.subrange(i + 1, a@.len() as int));
        assert(rest_b.subrange(1, rest_b.len() as int) =~= b@.subrange(i + 1, b@.len() as int));
        i = i + 1;
    }
}

/// The bytes of the text in UTF-8.
pub fn bytes_of(text: &str) -> (bytes: Vec<u8>)
    ensures
        bytes@ == vstd::utf8::encode_utf8(text@),
{
    let slice = text.as_bytes();
    let mut bytes: Vec<u8> = Vec::new();
    let mut i: usize = 0;
    while i < slice.len()
        invariant
            i <= slice.len(),
            bytes@ == slice@.take(i as int),
        decreases slice.len() - i,
    {
        bytes.push(slice[i]);
        assert(slice@.take(i + 1) =~= slice@.take(i as int).push(slice@[i as int]));
        i = i + 1;
    }
    assert(slice@.take(i as int) =~= slice@);
    bytes
}

/// Whether the unit opens a surrogate pair.
pub open spec fn opens_pair(unit: u16) -> bool {
    0xd800 <= unit <= 0xdbff
}

/// Whether the unit closes a surrogate pair.
pub open spec fn closes_pair(unit: u16) -> bool {
    0xdc00 <= unit <= 0xdfff
}

/// The number of units that the first character of the UTF-16 text takes.
pub open spec fn first_units(units: Seq<u16>) -> nat {
    if units.len() > 1 && opens_pair(units[0]) && closes_pair(units[1]) {
        2
    } else {
        1
    }
}

/// The first character of the UTF-16 text, where its units form one.
pub open spec fn first_char(units: Seq<u16>) -> Option<char> {
    if units.len() > 1 && opens_pair(units[0]) && closes_pair(units[1]) {
        Some((0x10000 + (units[0] - 0xd800) * 0x400 + (units[1] - 0xdc00)) as u32 as char)
    } else if opens_pair(units[0]) || closes_pair(units[0]) {
        None
    } else {
        Some(units[0] as u32 as char)
    }
}

/// The characters of the UTF-16 text; `replacement`, where there is one, stands
/// for each unit that belongs to no character.
pub open spec fn utf16_text(units: Seq<u16>, replacement: Option<char>) -> Option<Seq<char>>
    decreases units.len(),
{
    if units.len() == 0 {
        Some(Seq::empty())
    } else {
        let c = match first_char(units) {
            Some(c) => Some(c),
            None => replacement,
        };
        let rest = utf16_text(
            units.subrange(first_units(units) as int, units.len() as int),
            replacement,
        );
        match (c, rest) {
            (Some(c), Some(rest)) => Some(seq![c] + rest),
            _ => None,
        }
    }
}

/// The text of the UTF-16 units; `replacement`, where there is one, stands for
/// each unit that belongs to no character.
pub fn decode_utf16(units: &Vec<u16>, replacement: Option<char>) -> (text: Option<String>)
    ensures
        text is Some == utf16_text(units@, replacement) is Some,
        text is Some ==> text->0@ == utf16_text(units@, replacement)->0,
{
    let mut text = String::new();
    let mut i: usize = 0;
    assert(units@.subrange(0, units@.len() as int) =~= units@);
    while i < units.len()
        invariant
            i <= units.len(),
            match (
                utf16_text(units@, replacement),
                utf16_text(units@.subrange(i as int, units@.len() as int), replacement),
            ) {
                (Some(all), Some(rest)) => all == text@ + rest,
                (None, None) => true,
                _ => false,
            },
        decreases units.len() - i,
    {
        let ghost tail = units@.subrange(i as int, units@.len() as int);
        let unit: u16 = units[i];
        let pair = i + 1 < units.len() && 0xd800 <= unit && unit <= 0xdbff && 0xdc00 <= units[i + 1]
            && units[i + 1] <= 0xdfff;
        let found: Option<char> = if pair {
            let code: u32 = 0x10000 + ((unit - 0xd800) as u32) * 0x400 + ((units[i + 1]
                - 0xdc00) as u32);
            char::from_u32(code)
        } else if 0xd800 <= unit && unit <= 0xdfff {
            None
        } else {
            char::from_u32(unit as u32)
        };
        assert(found == first_char(tail));
        let c = match found {
            Some(c) => c,
            None => match replacement {
                Some(c) => c,
                None => {
                    return None;
                },
            },
        };
        let step: usize = if pair {
            2
        } else {
            1
        };
        let ghost before = text@;
        text.push(c);
        proof {
            let rest = tail.subrange(first_units(tail) as int, tail.len() as int);
            assert(rest =~= units@.subrange(i + step, units@.len() as int));
            match (utf16_text(units@, replacement), utf16_text(rest, replacement)) {
                (Some(all), Some(more)) => {
                    assert(before + (seq![c] + more) =~= text@ + more);
                },
                _ => {},
            }
        }
        i = i + step;
    }
    proof {
        assert(units@.subrange(i as int, units@.len() as int) =~= Seq::<u16>::empty());
        assert(text@ + Seq::<char>::empty() =~= text@);
    }
    Some(text)
}

proof fn lemma_trimmed_start(s: Seq<char>)
    ensures
        ({
            let n = s.len() - trimmed_start(s).len();
            &&& 0 <= n
            &&& trimmed_start(s) == s.subrange(n, s.len() as int)
            &&& forall|i: int| 0 <= i < n ==> whitespace(#[trigger] s[i])
            &&& n < s.len() ==> !whitespace(s[n])
        }),
    decreases s.len(),
{
    if s.len() > 0 && whitespace(s[0]) {
        let rest = s.subrange(1, s.len() as int);
        lemma_trimmed_start(rest);
        let n = rest.len() - trimmed_start(rest).len();
        assert(trimmed_start(s) =~= s.subrange(n + 1, s.len() as int));
        assert forall|i: int| 0 <= i < n + 1 implies whitespace(#[trigger] s[i]) by {
            if i > 0 {
                assert(rest[i - 1] == s[i]);
            }
        }
    } else {
        assert(s.subrange(0, s.len() as int) =~= s);
    }
}

proof fn lemma_trimmed_end(s: Seq<char>)
    ensures
        ({
            let n = trimmed_end(s).len() as int;
            &&& n <= s.len()
            &&& trimmed_end(s) == s.subrange(0, n)
            &&& forall|i: int| n <= i < s.len() ==> whitespace(#[trigger] s[i])
            &&& n > 0 ==> !whitespace(s[n - 1])
        }),
    decreases s.len(),
{
    if s.len() > 0 && whitespace(s.last()) {
        let rest = s.drop_last();
        lemma_trimmed_end(rest);
        let n = trimmed_end(rest).len() as int;
        assert(trimmed_end(s) =~= s.subrange(0, n));
        assert forall|i: int| n <= i < s.len() implies whitespace(#[trigger] s[i]) by {
            if i < rest.len() {
                assert(rest[i] == s[i]);
            }
        }
        if n > 0 {
            assert(rest[n - 1] == s[n - 1]);
        }
    } else {
        assert(s.subrange(0, s.len() as int) =~= s);
    }
}

/// Trimming takes white space away at both ends and nothing else: what is left is a stretch
/// of the text that neither begins nor ends with white space, and around it there is only
/// white space.
pub proof fn law_trimming_takes_only_the_ends(s: Seq<char>) -> (from: int)
    ensures
        0 <= from <= from + trimmed(s).len() <= s.len(),
        trimmed(s) == s.subrange(from, from + trimmed(s).len()),
        forall|i: int| 0 <= i < from ==> whitespace(#[trigger] s[i]),
        forall|i: int| from + trimmed(s).len() <= i < s.len() ==> whitespace(#[trigger] s[i]),
        trimmed(s).len() > 0 ==> !whitespace(trimmed(s)[0]) && !whitespace(trimmed(s).last()),
{
    lemma_trimmed_start(s);
    let start = trimmed_start(s);
    let from = s.len() - start.len();
    lemma_trimmed_end(start);
    let n = trimmed(s).len() as int;
    assert(trimmed(s) =~= s.subrange(from, from + n));
    assert forall|i: int| from + n <= i < s.len() implies whitespace(#[trigger] s[i]) by {
        assert(start[i - from] == s[i]);
    }
    if n > 0 {
        assert(trimmed(s)[0] == s[from]);
        assert(trimmed(s).last() == start[n - 1]);
    }
    from
}

/// Trimming leaves something exactly where there is a character that is no white space.
pub proof fn lemma_trimmed_is_empty(s: Seq<char>)
    ensures
        trimmed(s).len() > 0 <==> exists|i: int| 0 <= i < s.len() && !whitespace(#[trigger] s[i]),
{
    let from = law_trimming_takes_only_the_ends(s);
    if trimmed(s).len() > 0 {
        assert(trimmed(s)[0] == s[from]);
        assert(!whitespace(s[from]));
    } else {
        assert forall|i: int| 0 <= i < s.len() implies whitespace(#[trigger] s[i]) by {}
    }
}

/// Lower case changes the ASCII capitals and nothing else, each on its own.
pub proof fn law_lower_case_changes_only_capitals(s: Seq<char>)
    ensures
        lowered(s).len() == s.len(),
        forall|i: int|
            0 <= i < s.len() ==> (#[trigger] lowered(s)[i]) as u32 == (if 'A' <= s[i] <= 'Z' {
                s[i] as u32 + 32
            } else {
                s[i] as u32 as int
            }),
        lowered(lowered(s)) == lowered(s),
{
    assert(lowered(lowered(s)) =~= lowered(s));
}

/// One text stands before another where they are alike up to a place at which the first has
/// ended, or has the smaller character.
pub proof fn law_text_order_is_decided_where_they_differ(a: Seq<char>, b: Seq<char>, n: int)
    requires
        0 <= n <= a.len(),
        n <= b.len(),
        a.take(n) == b.take(n),
    ensures
        n == a.len() && n < b.len() ==> text_less(a, b) && !text_less(b, a),
        n < a.len() && n < b.len() && a[n] < b[n] ==> text_less(a, b) && !text_less(b, a),
        n == a.len() && n == b.len() ==> !text_less(a, b),
    decreases n,
{
    if n > 0 {
        assert(a[0] == a.take(n)[0] && b[0] == b.take(n)[0]);
        let x = a.subrange(1, a.len() as int);
        let y = b.subrange(1, b.len() as int);
        assert(x.take(n - 1) =~= a.take(n).subrange(1, n));
        assert(y.take(n - 1) =~= b.take(n).subrange(1, n));
        law_text_order_is_decided_where_they_differ(x, y, n - 1);
    }
}

/// The number that decimal digits stand for.
pub open spec fn number_of(digits: Seq<char>) -> nat
    decreases digits.len(),
{
    if digits.len() == 0 {
        0
    } else {
        (number_of(digits.drop_last()) * 10 + (digits.last() as u32 - 48)) as nat
    }
}

/// The decimal digits of a number are digits, stand for that number, and begin with a zero
/// only where the number is zero.
pub proof fn law_decimal_stands_for_the_number(n: nat)
    ensures
        number_of(decimal(n)) == n,
        decimal(n).len() > 0,
        forall|i: int| 0 <= i < decimal(n).len() ==> '0' <= #[trigger] decimal(n)[i] <= '9',
        decimal(n)[0] == '0' ==> n == 0,
    decreases n,
{
    if n < 10 {
        assert(decimal(n).drop_last() =~= Seq::<char>::empty());
        assert(number_of(Seq::<char>::empty()) == 0);
        assert(decimal(n).last() == digit(n));
    } else {
        law_decimal_stands_for_the_number(n / 10);
        assert(decimal(n).drop_last() =~= decimal(n / 10));
        assert(decimal(n).last() == digit(n % 10));
    }
}

} // verus!
