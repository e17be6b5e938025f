//! Texts and their parts.

use vstd::prelude::*;

verus! {

broadcast use vstd::string::group_string_axioms;

/// `String::push` appends the given character to the end of the string.
pub assume_specification[ String::push ](s: &mut String, c: char)
    ensures
        final(s)@ == old(s)@.push(c),
;

/// The texts that a list of strings holds.
pub open spec fn texts(strings: Seq<String>) -> Seq<Seq<char>> {
    strings.map_values(|s: String| s@)
}

/// Whether `name` is one of `names`.
pub fn contains_text(names: &Vec<String>, name: &String) -> (found: bool)
    ensures
        found == texts(names@).contains(name@),
{
    let mut i: usize = 0;
    while i < names.len()
        invariant
            i <= names.len(),
            forall|j: int| 0 <= j < i ==> texts(names@)[j] != name@,
        decreases names.len() - i,
    {
        if names[i] == *name {
            assert(texts(names@)[i as int] == name@);
            return true;
        }
        i += 1;
    }
    false
}

/// The characters of `text`, in order.
pub fn chars_of(text: &str) -> (chars: Vec<char>)
    ensures
        chars@ == text@,
{
    let mut chars: Vec<char> = Vec::new();
    for c in it: text.chars()
        invariant
            it.seq() == text@,
            chars@ == text@.take(it.index() as int),
    {
        chars.push(c);
        assert(chars@ == text@.take(it.index() + 1));
    }
    assert(text@.take(text@.len() as int) == text@);
    chars
}

/// The decimal digit that stands for `value`.
pub open spec fn digit(value: int) -> char
    recommends
        0 <= value < 10,
{
    if value == 0 {
        '0'
    } else if value == 1 {
        '1'
    } else if value == 2 {
        '2'
    } else if value == 3 {
        '3'
    } else if value == 4 {
        '4'
    } else if value == 5 {
        '5'
    } else if value == 6 {
        '6'
    } else if value == 7 {
        '7'
    } else if value == 8 {
        '8'
    } else {
        '9'
    }
}

/// `value` in decimal, without leading zeros.
pub open spec fn decimal(value: nat) -> Seq<char>
    decreases value,
{
    if value < 10 {
        seq![digit(value as int)]
    } else {
        decimal(value / 10).push(digit((value % 10) as int))
    }
}

/// `value` in decimal, with a leading zero where it has one digit.
pub open spec fn padded(value: nat) -> Seq<char> {
    if value < 10 {
        seq!['0', digit(value as int)]
    } else {
        decimal(value)
    }
}

fn digit_char(value: u8) -> (c: char)
    requires
        value < 10,
    ensures
        c == digit(value as int),
{
    match value {
        0 => '0',
        1 => '1',
        2 => '2',
        3 => '3',
        4 => '4',
        5 => '5',
        6 => '6',
        7 => '7',
        8 => '8',
        _ => '9',
    }
}

/// Writes `value` in decimal.
pub fn decimal_string(value: u128) -> (text: String)
    ensures
        text@ == decimal(value as nat),
    decreases value,
{
    if value < 10 {
        let mut text = String::new();
        text.push(digit_char(value as u8));
        assert(text@ == seq![digit(value as int)]);
        text
    } else {
        let mut text = decimal_string(value / 10);
        text.push(digit_char((value % 10) as u8));
        text
    }
}

/// Writes `value` in decimal, with a leading zero where it has one digit.
pub fn padded_string(value: u128) -> (text: String)
    ensures
        text@ == padded(value as nat),
{
    if value < 10 {
        let mut text = String::new();
        text.push('0');
        text.push(digit_char(value as u8));
        assert(text@ == seq!['0', digit(value as int)]);
        text
    } else {
        decimal_string(value)
    }
}

/// `value` in decimal, after a minus sign where it is negative.
pub open spec fn signed_decimal(value: int) -> Seq<char> {
    if value < 0 {
        seq!['-'] + decimal((-value) as nat)
    } else {
        decimal(value as nat)
    }
}

/// Writes `value` in decimal, after a minus sign where it is negative.
pub fn signed_decimal_string(value: i8) -> (text: String)
    ensures
        text@ == signed_decimal(value as int),
{
    let wide: i32 = value as i32;
    if wide < 0 {
        let mut text = String::new();
        text.push('-');
        text.append(decimal_string((-wide) as u128).as_str());
        assert(text@ == seq!['-'] + decimal((-value) as nat));
        text
    } else {
        decimal_string(wide as u128)
    }
}

/// The Persian digit for a decimal digit; any other character stays.
pub open spec fn farsi_digit(c: char) -> char {
    if c == '0' {
        '\u{06F0}'
    } else if c == '1' {
        '\u{06F1}'
    } else if c == '2' {
        '\u{06F2}'
    } else if c == '3' {
        '\u{06F3}'
    } else if c == '4' {
        '\u{06F4}'
    } else if c == '5' {
        '\u{06F5}'
    } else if c == '6' {
        '\u{06F6}'
    } else if c == '7' {
        '\u{06F7}'
    } else if c == '8' {
        '\u{06F8}'
    } else if c == '9' {
        '\u{06F9}'
    } else {
        c
    }
}

/// `value` in decimal with Persian digits.
pub open spec fn farsi_decimal(value: nat) -> Seq<char> {
    decimal(value).map_values(|c: char| farsi_digit(c))
}

fn to_farsi_digit(c: char) -> (digit: char)
    ensures
        digit == farsi_digit(c),
{
    match c {
        '0' => '\u{06F0}',
        '1' => '\u{06F1}',
        '2' => '\u{06F2}',
        '3' => '\u{06F3}',
        '4' => '\u{06F4}',
        '5' => '\u{06F5}',
        '6' => '\u{06F6}',
        '7' => '\u{06F7}',
        '8' => '\u{06F8}',
        '9' => '\u{06F9}',
        other => other,
    }
}

/// Writes `n` in decimal with Persian digits.
pub fn to_farsi_digits(n: u8) -> (text: String)
    ensures
        text@ == farsi_decimal(n as nat),
{
    let digits = decimal_string(n as u128);
    let ghost all = digits@;
    let mut text = String::new();
    for c in it: digits.as_str().chars()
        invariant
            it.seq() == all,
            text@ == all.take(it.index() as int).map_values(|c: char| farsi_digit(c)),
    {
        text.push(to_farsi_digit(c));
        assert(text@ == all.take(it.index() + 1).map_values(|c: char| farsi_digit(c)));
    }
    assert(all.take(all.len() as int) == all);
    text
}

/// `text` with every `from` turned into `to`.
pub open spec fn replaced(text: Seq<char>, from: char, to: char) -> Seq<char> {
    text.map_values(
        |c: char|
            if c == from {
                to
            } else {
                c
            },
    )
}

/// The part of `text` before the first `separator`, all of it where there is none.
pub open spec fn before_first(text: Seq<char>, separator: char) -> Seq<char>
    decreases text.len(),
{
    if text.len() == 0 || !text.contains(separator) {
        text
    } else {
        before_first(text.drop_last(), separator)
    }
}

/// The part of `text` after the last `separator`, all of it where there is none.
pub open spec fn after_last(text: Seq<char>, separator: char) -> Seq<char>
    decreases text.len(),
{
    if text.len() == 0 || !text.contains(separator) {
        text
    } else {
        after_last(text.drop_first(), separator)
    }
}

proof fn lemma_before_first(text: Seq<char>, separator: char, end: int)
    requires
        0 <= end <= text.len(),
        forall|i: int| 0 <= i < end ==> text[i] != separator,
        end == text.len() || text[end] == separator,
    ensures
        before_first(text, separator) == text.take(end),
    decreases text.len(),
{
    if end == text.len() {
        assert(text.take(end) == text);
    } else {
        let shorter = text.drop_last();
        lemma_before_first(shorter, separator, end);
        assert(shorter.take(end) == text.take(end));
    }
}

proof fn lemma_after_last(text: Seq<char>, separator: char, start: int)
    requires
        0 <= start <= text.len(),
        forall|i: int| start <= i < text.len() ==> text[i] != separator,
        start == 0 || text[start - 1] == separator,
    ensures
        after_last(text, separator) == text.skip(start),
    decreases text.len(),
{
    if start == 0 {
        assert(text.skip(start) == text);
    } else {
        let shorter = text.drop_first();
        assert forall|i: int| start - 1 <= i < shorter.len() implies shorter[i] != separator by {
            assert(shorter[i] == text[i + 1]);
        }
        lemma_after_last(shorter, separator, start - 1);
        assert(shorter.skip(start - 1) == text.skip(start));
    }
}

/// A string of the characters `chars[start..end]`.
fn string_of(chars: &Vec<char>, start: usize, end: usize) -> (text: String)
    requires
        start <= end <= chars.len(),
    ensures
        text@ == chars@.subrange(start as int, end as int),
{
    let mut text = String::new();
    let mut i: usize = start;
    while i < end
        invariant
            start <= i <= end <= chars.len(),
            text@ == chars@.subrange(start as int, i as int),
        decreases end - i,
    {
        text.push(chars[i]);
        i += 1;
        assert(text@ == chars@.subrange(start as int, i as int));
    }
    text
}

/// `text` with every `from` turned into `to`.
pub fn replace(text: &str, from: char, to: char) -> (result: String)
    ensures
        result@ == replaced(text@, from, to),
{
    let mut result = String::new();
    for c in it: text.chars()
        invariant
            it.seq() == text@,
            result@ == replaced(text@.take(it.index() as int), from, to),
    {
        result.push(if c == from {
            to
        } else {
            c
        });
        assert(result@ == replaced(text@.take(it.index() + 1), from, to));
    }
    assert(text@.take(text@.len() as int) == text@);
    result
}

/// The part of `text` before the first `separator`, all of it where there is none.
pub fn split_first(text: &str, separator: char) -> (part: String)
    ensures
        part@ == before_first(text@, separator),
{
    let chars = chars_of(text);
    let mut end: usize = 0;
    while end < chars.len() && chars[end] != separator
        invariant
            end <= chars.len(),
            forall|i: int| 0 <= i < end ==> chars[i] != separator,
        decreases chars.len() - end,
    {
        end += 1;
    }
    proof {
        lemma_before_first(text@, separator, end as int);
    }
    string_of(&chars, 0, end)
}

/// The part of `text` after the last `separator`, all of it where there is none.
pub fn split_last(text: &str, separator: char) -> (part: String)
    ensures
        part@ == after_last(text@, separator),
{
    let chars = chars_of(text);
    let mut start: usize = chars.len();
    while start > 0 && chars[start - 1] != separator
        invariant
            start <= chars.len(),
            forall|i: int| start <= i < chars.len() ==> chars[i] != separator,
        decreases start,
    {
        start -= 1;
    }
    proof {
        lemma_after_last(text@, separator, start as int);
    }
    string_of(&chars, start, chars.len())
}

/// Turns "America/New_York" into "New York", "UTC" into "UTC", etc.
pub fn clock_display_name(tz_name: &str) -> (name: String)
    ensures
        name@ == replaced(after_last(tz_name@, '/'), '_', ' '),
{
    let place = split_last(tz_name, '/');
    replace(place.as_str(), '_', ' ')
}

/// The name on display is a single place with no underscores, whatever the time zone.
pub proof fn law_display_name_is_plain(tz_name: Seq<char>)
    ensures
        !replaced(after_last(tz_name, '/'), '_', ' ').contains('/'),
        !replaced(after_last(tz_name, '/'), '_', ' ').contains('_'),
{
    lemma_after_last_is_free(tz_name, '/');
    let place = after_last(tz_name, '/');
    let name = replaced(place, '_', ' ');
    assert forall|i: int| 0 <= i < name.len() implies name[i] != '/' && name[i] != '_' by {
        assert(place.contains(place[i]));
    }
}

proof fn lemma_after_last_is_free(text: Seq<char>, separator: char)
    ensures
        !after_last(text, separator).contains(separator),
    decreases text.len(),
{
    if text.len() > 0 && text.contains(separator) {
        lemma_after_last_is_free(text.drop_first(), separator);
    }
}

proof fn lemma_digit_injective(a: int, b: int)
    requires
        0 <= a < 10,
        0 <= b < 10,
        digit(a) == digit(b),
    ensures
        a == b,
{
}

/// A number is read back from its digits in one way.
pub proof fn law_decimal_injective(a: nat, b: nat)
    requires
        decimal(a) == decimal(b),
    ensures
        a == b,
    decreases a,
{
    lemma_decimal_len(a);
    lemma_decimal_len(b);
    if a >= 10 && b >= 10 {
        let (x, y) = (decimal(a / 10), decimal(b / 10));
        assert(decimal(a).drop_last() == x && decimal(b).drop_last() == y);
        assert(decimal(a).last() == digit((a % 10) as int));
        assert(decimal(b).last() == digit((b % 10) as int));
        lemma_digit_injective((a % 10) as int, (b % 10) as int);
        law_decimal_injective(a / 10, b / 10);
    } else {
        assert(decimal(a)[0] == digit(a as int) && decimal(b)[0] == digit(b as int));
        lemma_digit_injective(a as int, b as int);
    }
}

/// A number has one digit exactly where it is below ten.
proof fn lemma_decimal_len(value: nat)
    ensures
        decimal(value).len() > 0,
        decimal(value).len() == 1 <==> value < 10,
    decreases value,
{
    if value >= 10 {
        lemma_decimal_len(value / 10);
    }
}

/// Up to 99, a padded number has two digits.
pub proof fn law_padded_len(value: nat)
    requires
        value < 100,
    ensures
        padded(value).len() == 2,
        value < 10 ==> padded(value) == seq!['0'] + decimal(value),
        value >= 10 ==> padded(value) == decimal(value),
{
    reveal_with_fuel(decimal, 2);
    assert(value < 10 ==> padded(value) == seq!['0'] + decimal(value));
}

/// A padded number below 100 is read back from its digits in one way.
pub proof fn law_padded_injective(a: nat, b: nat)
    requires
        a < 100,
        b < 100,
        padded(a) == padded(b),
    ensures
        a == b,
{
    law_padded_len(a);
    law_padded_len(b);
    reveal_with_fuel(decimal, 2);
    let (x, y) = (padded(a), padded(b));
    assert(x[0] == digit((a / 10) as int) && x[1] == digit((a % 10) as int));
    assert(y[0] == digit((b / 10) as int) && y[1] == digit((b % 10) as int));
    lemma_digit_injective((a / 10) as int, (b / 10) as int);
    lemma_digit_injective((a % 10) as int, (b % 10) as int);
}

/// The characters that Unicode counts as white space.
pub open spec fn is_space(c: char) -> bool {
    ||| '\u{0009}' <= c <= '\u{000D}'
    ||| c == '\u{0020}'
    ||| c == '\u{0085}'
    ||| c == '\u{00A0}'
    ||| c == '\u{1680}'
    ||| '\u{2000}' <= c <= '\u{200A}'
    ||| c == '\u{2028}'
    ||| c == '\u{2029}'
    ||| c == '\u{202F}'
    ||| c == '\u{205F}'
    ||| c == '\u{3000}'
}

/// Whether `c` is white space.
pub fn is_space_char(c: char) -> (space: bool)
    ensures
        space == is_space(c),
{
    ('\u{0009}' <= c && c <= '\u{000D}') || c == '\u{0020}' || c == '\u{0085}' || c == '\u{00A0}'
        || c == '\u{1680}' || ('\u{2000}' <= c && c <= '\u{200A}') || c == '\u{2028}' || c
        == '\u{2029}' || c == '\u{202F}' || c == '\u{205F}' || c == '\u{3000}'
}

/// `parts` with `c` added to the last one.
pub open spec fn extended(parts: Seq<Seq<char>>, c: char) -> Seq<Seq<char>> {
    parts.drop_last().push(parts.last().push(c))
}

/// The words of `text`: its longest parts without white space, in order.
pub open spec fn words(text: Seq<char>) -> Seq<Seq<char>>
    decreases text.len(),
{
    if text.len() == 0 {
        Seq::empty()
    } else {
        let rest = words(text.drop_last());
        if is_space(text.last()) {
            rest
        } else if text.len() > 1 && !is_space(text[text.len() - 2]) {
            extended(rest, text.last())
        } else {
            rest.push(seq![text.last()])
        }
    }
}

/// The parts of `text` between its separators, in order. There is one more of them than
/// there are separators, and some may be empty.
pub open spec fn fields(text: Seq<char>, separator: char) -> Seq<Seq<char>>
    decreases text.len(),
{
    if text.len() == 0 {
        seq![Seq::empty()]
    } else {
        let rest = fields(text.drop_last(), separator);
        if text.last() == separator {
            rest.push(Seq::empty())
        } else {
            extended(rest, text.last())
        }
    }
}

/// The parts of all `parts` between their separators, in order.
pub open spec fn all_fields(parts: Seq<Seq<char>>, separator: char) -> Seq<Seq<char>>
    decreases parts.len(),
{
    if parts.len() == 0 {
        Seq::empty()
    } else {
        all_fields(parts.drop_last(), separator) + fields(parts.last(), separator)
    }
}

/// No part holds a character of the kind.
pub open spec fn free_of(parts: Seq<Seq<char>>, kind: spec_fn(char) -> bool) -> bool {
    forall|i: int, j: int|
        0 <= i < parts.len() && 0 <= j < parts[i].len() ==> !kind(#[trigger] parts[i][j])
}

/// Words hold no white space, and none is empty.
pub proof fn law_words_are_plain(text: Seq<char>)
    ensures
        free_of(words(text), |c: char| is_space(c)),
        forall|i: int| 0 <= i < words(text).len() ==> (#[trigger] words(text)[i]).len() > 0,
        text.len() > 0 && !is_space(text.last()) ==> words(text).len() > 0,
    decreases text.len(),
{
    if text.len() > 0 {
        law_words_are_plain(text.drop_last());
        let rest = words(text.drop_last());
        if !is_space(text.last()) && text.len() > 1 && !is_space(text[text.len() - 2]) {
            assert(text.drop_last().last() == text[text.len() - 2]);
            lemma_extended_free(rest, text.last(), |c: char| is_space(c));
        }
    }
}

proof fn lemma_extended_free(parts: Seq<Seq<char>>, c: char, kind: spec_fn(char) -> bool)
    requires
        parts.len() > 0,
        free_of(parts, kind),
        !kind(c),
    ensures
        free_of(extended(parts, c), kind),
{
    let longer = extended(parts, c);
    assert forall|i: int, j: int|
        0 <= i < longer.len() && 0 <= j < longer[i].len() implies !kind(
        #[trigger] longer[i][j],
    ) by {
        if i < parts.len() - 1 {
            assert(longer[i] == parts[i]);
        } else if j < parts.last().len() {
            assert(longer[i][j] == parts[parts.len() - 1][j]);
        }
    }
}

proof fn lemma_fields_free(text: Seq<char>, separator: char, kind: spec_fn(char) -> bool)
    requires
        forall|i: int| 0 <= i < text.len() ==> !kind(#[trigger] text[i]),
    ensures
        free_of(fields(text, separator), kind),
        fields(text, separator).len() > 0,
    decreases text.len(),
{
    if text.len() > 0 {
        let front = text.drop_last();
        assert forall|i: int| 0 <= i < front.len() implies !kind(#[trigger] front[i]) by {
            assert(front[i] == text[i]);
        }
        lemma_fields_free(front, separator, kind);
        if text.last() != separator {
            lemma_extended_free(fields(front, separator), text.last(), kind);
        }
    }
}

/// The parts of words between their separators hold neither white space nor separators.
pub proof fn law_fields_of_words_are_plain(text: Seq<char>, separator: char)
    ensures
        free_of(all_fields(words(text), separator), |c: char| is_space(c)),
        free_of(all_fields(words(text), separator), |c: char| c == separator),
{
    law_words_are_plain(text);
    lemma_all_fields_free(words(text), separator, |c: char| is_space(c));
}

proof fn lemma_all_fields_free(
    parts: Seq<Seq<char>>,
    separator: char,
    kind: spec_fn(char) -> bool,
)
    requires
        free_of(parts, kind),
    ensures
        free_of(all_fields(parts, separator), kind),
        free_of(all_fields(parts, separator), |c: char| c == separator),
    decreases parts.len(),
{
    if parts.len() > 0 {
        let front = parts.drop_last();
        let last = parts.last();
        assert(free_of(front, kind)) by {
            assert forall|i: int, j: int|
                0 <= i < front.len() && 0 <= j < front[i].len() implies !kind(
                #[trigger] front[i][j],
            ) by {
                assert(front[i][j] == parts[i][j]);
            }
        }
        assert forall|i: int| 0 <= i < last.len() implies !kind(#[trigger] last[i]) by {
            assert(last[i] == parts[parts.len() - 1][i]);
        }
        lemma_all_fields_free(front, separator, kind);
        lemma_fields_free(last, separator, kind);
        law_fields_join(last, separator);
        let (a, b) = (all_fields(front, separator), fields(last, separator));
        lemma_free_together(a, b, kind);
        lemma_free_together(a, b, |c: char| c == separator);
    }
}

proof fn lemma_free_together(
    a: Seq<Seq<char>>,
    b: Seq<Seq<char>>,
    kind: spec_fn(char) -> bool,
)
    requires
        free_of(a, kind),
        free_of(b, kind),
    ensures
        free_of(a + b, kind),
{
    let both = a + b;
    assert forall|i: int, j: int|
        0 <= i < both.len() && 0 <= j < both[i].len() implies !kind(#[trigger] both[i][j]) by {
        if i < a.len() {
            assert(both[i][j] == a[i][j]);
        } else {
            assert(both[i][j] == b[i - a.len()][j]);
        }
    }
}

/// Parts in a row, with a separator between any two.
pub open spec fn joined(parts: Seq<Seq<char>>, separator: char) -> Seq<char>
    decreases parts.len(),
{
    if parts.len() == 0 {
        Seq::empty()
    } else if parts.len() == 1 {
        parts[0]
    } else {
        joined(parts.drop_last(), separator).push(separator) + parts.last()
    }
}

/// The parts between the separators hold none, and put together they are the text.
pub proof fn law_fields_join(text: Seq<char>, separator: char)
    ensures
        fields(text, separator).len() > 0,
        free_of(fields(text, separator), |c: char| c == separator),
        joined(fields(text, separator), separator) == text,
    decreases text.len(),
{
    let parts = fields(text, separator);
    if text.len() == 0 {
        assert(joined(parts, separator) == text);
    } else {
        law_fields_join(text.drop_last(), separator);
        let rest = fields(text.drop_last(), separator);
        if text.last() == separator {
            assert(parts.drop_last() == rest);
            assert(joined(parts, separator) == text.drop_last().push(separator));
        } else {
            lemma_extended_free(rest, text.last(), |c: char| c == separator);
            assert(parts.drop_last() == rest.drop_last());
            assert(joined(parts, separator) == joined(rest, separator).push(text.last()));
        }
        assert(text == text.drop_last().push(text.last()));
    }
}

/// The words of `text`.
pub fn split_words(text: &str) -> (parts: Vec<String>)
    ensures
        texts(parts@) == words(text@),
{
    let chars = chars_of(text);
    let mut parts: Vec<String> = Vec::new();
    let mut current = String::new();
    let mut i: usize = 0;
    assert(texts(parts@) == words(text@.take(0)));
    while i < chars.len()
        invariant
            chars@ == text@,
            i <= chars.len(),
            current@.len() > 0 <==> i > 0 && !is_space(text@[i - 1]),
            words(text@.take(i as int)) == (if current@.len() > 0 {
                texts(parts@).push(current@)
            } else {
                texts(parts@)
            }),
        decreases chars.len() - i,
    {
        let c = chars[i];
        let ghost seen = text@.take(i + 1);
        assert(seen.drop_last() == text@.take(i as int));
        assert(i > 0 ==> seen[i - 1] == text@[i - 1]);
        if is_space_char(c) {
            if !current.as_str().is_empty() {
                let ghost before = parts@;
                let ghost word = current@;
                parts.push(current);
                assert(texts(parts@) == texts(before).push(word));
                current = String::new();
            }
        } else {
            let ghost word = current@;
            current.push(c);
            assert(word.len() == 0 ==> current@ == seq![c]);
            assert(extended(texts(parts@).push(word), c) == texts(parts@).push(current@));
        }
        i += 1;
    }
    assert(text@.take(i as int) == text@);
    if !current.as_str().is_empty() {
        let ghost before = parts@;
        let ghost word = current@;
        parts.push(current);
        assert(texts(parts@) == texts(before).push(word));
    }
    parts
}

/// The parts of `text` between its separators.
pub fn split_fields(text: &str, separator: char) -> (parts: Vec<String>)
    ensures
        texts(parts@) == fields(text@, separator),
{
    let chars = chars_of(text);
    let mut parts: Vec<String> = Vec::new();
    let mut current = String::new();
    let mut i: usize = 0;
    assert(texts(parts@).push(current@) == fields(text@.take(0), separator));
    while i < chars.len()
        invariant
            chars@ == text@,
            i <= chars.len(),
            fields(text@.take(i as int), separator) == texts(parts@).push(current@),
        decreases chars.len() - i,
    {
        let c = chars[i];
        let ghost seen = text@.take(i + 1);
        assert(seen.drop_last() == text@.take(i as int));
        let ghost part = current@;
        if c == separator {
            let ghost before = parts@;
            parts.push(current);
            assert(texts(parts@) == texts(before).push(part));
            current = String::new();
        } else {
            current.push(c);
            assert(extended(texts(parts@).push(part), c) == texts(parts@).push(current@));
        }
        i += 1;
    }
    assert(text@.take(i as int) == text@);
    let ghost before = parts@;
    let ghost part = current@;
    parts.push(current);
    assert(texts(parts@) == texts(before).push(part));
    parts
}

} // verus!
