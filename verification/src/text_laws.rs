//! What the texts say: numbers are read back from them, and their parts are found in them.

use vstd::prelude::*;
use crate::calendar::place_name;
use crate::cities::{
    cities_of, cities_of_all, lists_cities, named, text_less, utc_entry, CityView, TzEntry,
};
use crate::datetime::locale_tag;
use crate::locale::{
    falls_back, first_of, present, system_locale, system_tags, tags_of_all,
};
use crate::readout::{clock_text, elapsed_short_text, elapsed_text};
use crate::text::{
    after_last, all_fields, before_first, decimal, extended, farsi_decimal, fields, is_space,
    law_decimal_injective, law_words_are_plain, padded, replaced, signed_decimal, words,
};

verus! {

/// The number that a text of decimal digits stands for.
pub open spec fn number(text: Seq<char>) -> int
    decreases text.len(),
{
    if text.len() == 0 {
        0
    } else {
        10 * number(text.drop_last()) + (text.last() as int - '0' as int)
    }
}

/// The text is made of decimal digits, at least one.
pub open spec fn all_digits(text: Seq<char>) -> bool {
    text.len() > 0 && forall|i: int| 0 <= i < text.len() ==> '0' <= #[trigger] text[i] <= '9'
}

/// A number is written with digits from which it is read back, without a zero in front.
pub proof fn law_decimal_reads_back(value: nat)
    ensures
        all_digits(decimal(value)),
        number(decimal(value)) == value,
        decimal(value)[0] == '0' ==> value == 0 && decimal(value).len() == 1,
    decreases value,
{
    let text = decimal(value);
    if value < 10 {
        reveal_with_fuel(number, 2);
        assert(text.drop_last() == Seq::<char>::empty());
    } else {
        law_decimal_reads_back(value / 10);
        assert(text.drop_last() == decimal(value / 10));
        assert forall|i: int| 0 <= i < text.len() implies '0' <= #[trigger] text[i] <= '9' by {
            if i < text.len() - 1 {
                assert(text[i] == decimal(value / 10)[i]);
            }
        }
    }
}

/// A padded number is written with two digits or more, from which it is read back.
pub proof fn law_padded_reads_back(value: nat)
    ensures
        all_digits(padded(value)),
        number(padded(value)) == value,
        padded(value).len() >= 2,
        value < 100 ==> padded(value).len() == 2,
{
    law_decimal_reads_back(value);
    reveal_with_fuel(number, 3);
    reveal_with_fuel(decimal, 2);
    if value < 10 {
        let text = padded(value);
        assert(text.drop_last().drop_last() == Seq::<char>::empty());
        assert(text.drop_last() == seq!['0']);
    } else if value < 100 {
        assert(decimal(value).len() == 2);
    } else {
        assert(decimal(value).len() >= 2);
    }
}

/// A number below zero is written after a minus sign.
pub proof fn law_signed_reads_back(value: int)
    ensures
        value >= 0 ==> all_digits(signed_decimal(value)) && number(signed_decimal(value)) == value,
        value < 0 ==> signed_decimal(value)[0] == '-' && all_digits(
            signed_decimal(value).drop_first(),
        ) && number(signed_decimal(value).drop_first()) == -value,
{
    if value >= 0 {
        law_decimal_reads_back(value as nat);
    } else {
        law_decimal_reads_back((-value) as nat);
        assert(signed_decimal(value).drop_first() == decimal((-value) as nat));
    }
}

/// A Persian number has the Persian digit for each decimal one, in the same places.
pub proof fn law_farsi_reads_back(value: nat)
    ensures
        farsi_decimal(value).len() == decimal(value).len(),
        forall|i: int|
            0 <= i < decimal(value).len() ==> #[trigger] farsi_decimal(value)[i] as int
                - '\u{06F0}' as int == decimal(value)[i] as int - '0' as int,
{
    law_decimal_reads_back(value);
    assert forall|i: int| 0 <= i < decimal(value).len() implies #[trigger] farsi_decimal(
        value,
    )[i] as int - '\u{06F0}' as int == decimal(value)[i] as int - '0' as int by {
        let c = decimal(value)[i];
        assert('0' <= c <= '9');
    }
}

/// Two Persian numbers read the same only where they are the same.
pub proof fn law_farsi_injective(a: nat, b: nat)
    requires
        farsi_decimal(a) == farsi_decimal(b),
    ensures
        a == b,
{
    law_farsi_reads_back(a);
    law_farsi_reads_back(b);
    assert forall|i: int| 0 <= i < decimal(a).len() implies decimal(a)[i] == decimal(b)[i] by {
        let (x, y) = (farsi_decimal(a)[i], farsi_decimal(b)[i]);
        assert(x as int - '\u{06F0}' as int == decimal(a)[i] as int - '0' as int);
        assert(y as int - '\u{06F0}' as int == decimal(b)[i] as int - '0' as int);
        assert(decimal(a)[i] as int == decimal(b)[i] as int);
    }
    assert(decimal(a) == decimal(b));
    law_decimal_injective(a, b);
}

/// The seconds are read back from a clock text: two digits of seconds behind a colon, two of
/// minutes before it, and the hours before another colon where there are any.
pub proof fn law_clock_reads_back(seconds: nat)
    ensures
        ({
            let text = clock_text(seconds);
            let n = text.len() as int;
            let hours = if seconds < 3600 {
                0
            } else {
                number(text.take(n - 6))
            };
            &&& seconds < 3600 <==> n == 5
            &&& seconds >= 3600 ==> n >= 7 && text[n - 6] == ':' && all_digits(text.take(n - 6))
                && text[0] != '0'
            &&& text[n - 3] == ':'
            &&& all_digits(text.skip(n - 2)) && number(text.skip(n - 2)) < 60
            &&& all_digits(text.subrange(n - 5, n - 3)) && number(
                text.subrange(n - 5, n - 3),
            ) < 60
            &&& seconds == 3600 * hours + 60 * number(text.subrange(n - 5, n - 3)) + number(
                text.skip(n - 2),
            )
        }),
{
    let text = clock_text(seconds);
    let n = text.len() as int;
    let (mins, secs) = ((seconds / 60) % 60, seconds % 60);
    law_padded_reads_back(mins);
    law_padded_reads_back(secs);
    law_decimal_reads_back(seconds / 3600);
    assert(text.skip(n - 2) == padded(secs));
    assert(text.subrange(n - 5, n - 3) == padded(mins));
    if seconds >= 3600 {
        assert(text.take(n - 6) == decimal(seconds / 3600));
        assert(text[0] == decimal(seconds / 3600)[0]);
    }
}

/// The readout to the second is that of the whole seconds, and the one with hundredths has them
/// behind a dot.
pub proof fn law_readouts_read_back(nanos: nat)
    ensures
        elapsed_short_text(nanos) == clock_text(nanos / 1_000_000_000),
        ({
            let text = elapsed_text(nanos);
            let n = text.len() as int;
            &&& text.take(n - 3) == clock_text(nanos / 1_000_000_000)
            &&& text[n - 3] == '.'
            &&& all_digits(text.skip(n - 2))
            &&& number(text.skip(n - 2)) == (nanos / 10_000_000) % 100
        }),
{
    let text = elapsed_text(nanos);
    let n = text.len() as int;
    let hundredths = nanos / 10_000_000;
    law_padded_reads_back(hundredths % 100);
    assert(hundredths / 100 == nanos / 1_000_000_000);
    assert(text.skip(n - 2) == padded(hundredths % 100));
    assert(text.take(n - 3) == clock_text(hundredths / 100));
}

/// The first part of a text ends at the first separator, or with the text.
pub proof fn law_before_first(text: Seq<char>, separator: char)
    ensures
        ({
            let part = before_first(text, separator);
            &&& part.len() <= text.len()
            &&& part == text.take(part.len() as int)
            &&& !part.contains(separator)
            &&& part.len() < text.len() ==> text[part.len() as int] == separator
        }),
    decreases text.len(),
{
    if text.len() > 0 && text.contains(separator) {
        let shorter = text.drop_last();
        law_before_first(shorter, separator);
        let part = before_first(shorter, separator);
        assert(text.take(part.len() as int) == shorter.take(part.len() as int));
        if part.len() == shorter.len() {
            let k = choose|k: int| 0 <= k < text.len() && text[k] == separator;
            if k < shorter.len() {
                assert(part[k] == separator);
            }
        }
    } else {
        assert(text.take(text.len() as int) == text);
    }
}

/// The last part of a text starts behind the last separator, or with the text.
pub proof fn law_after_last(text: Seq<char>, separator: char)
    ensures
        ({
            let part = after_last(text, separator);
            let start = text.len() - part.len();
            &&& 0 <= start
            &&& part == text.skip(start)
            &&& !part.contains(separator)
            &&& start > 0 ==> text[start - 1] == separator
        }),
    decreases text.len(),
{
    if text.len() > 0 && text.contains(separator) {
        let shorter = text.drop_first();
        law_after_last(shorter, separator);
        let part = after_last(shorter, separator);
        let start = text.len() - part.len();
        assert(text.skip(start) == shorter.skip(start - 1));
        if part.len() == shorter.len() {
            let k = choose|k: int| 0 <= k < text.len() && text[k] == separator;
            if k > 0 {
                assert(part[k - 1] == separator);
            }
        } else {
            assert(shorter[start - 2] == text[start - 1]);
        }
    } else {
        assert(text.skip(0) == text);
    }
}

/// The name of a place is what stands behind the last slash of its time zone, with blanks for
/// underscores and every other character as it is.
pub proof fn law_place_name(tz_name: Seq<char>)
    ensures
        ({
            let name = place_name(tz_name);
            let start = tz_name.len() - name.len();
            &&& 0 <= start
            &&& start > 0 ==> tz_name[start - 1] == '/'
            &&& forall|i: int| start <= i < tz_name.len() ==> tz_name[i] != '/'
            &&& forall|i: int|
                0 <= i < name.len() ==> #[trigger] name[i] == (if tz_name[start + i] == '_' {
                    ' '
                } else {
                    tz_name[start + i]
                })
        }),
{
    law_after_last(tz_name, '/');
    let part = after_last(tz_name, '/');
    let start = tz_name.len() - part.len();
    assert forall|i: int| start <= i < tz_name.len() implies tz_name[i] != '/' by {
        assert(part[i - start] == tz_name[i]);
        assert(part.contains(part[i - start]));
    }
}

/// The texts of a list in a row.
pub open spec fn flat(parts: Seq<Seq<char>>) -> Seq<char>
    decreases parts.len(),
{
    if parts.len() == 0 {
        Seq::empty()
    } else {
        flat(parts.drop_last()) + parts.last()
    }
}

/// A text without its white space.
pub open spec fn without_space(text: Seq<char>) -> Seq<char> {
    text.filter(|c: char| !is_space(c))
}

/// The words of a text in a row are the text without its white space.
pub proof fn law_words_leave_nothing_out(text: Seq<char>)
    ensures
        flat(words(text)) == without_space(text),
    decreases text.len(),
{
    let pred = |c: char| !is_space(c);
    reveal(Seq::filter);
    if text.len() > 0 {
        let front = text.drop_last();
        law_words_leave_nothing_out(front);
        law_words_are_plain(front);
        let rest = words(front);
        if !is_space(text.last()) {
            if text.len() > 1 && !is_space(text[text.len() - 2]) {
                assert(front.last() == text[text.len() - 2]);
                assert(extended(rest, text.last()).drop_last() == rest.drop_last());
                assert(flat(words(text)) == flat(rest).push(text.last()));
            } else {
                assert(rest.push(seq![text.last()]).drop_last() == rest);
                assert(flat(words(text)) == flat(rest).push(text.last()));
            }
        }
    }
}

/// `word` stands in `text` from `start` to `end`, with white space or an end at both sides.
pub open spec fn stands_alone(text: Seq<char>, word: Seq<char>, start: int, end: int) -> bool {
    &&& 0 <= start < end <= text.len()
    &&& word == text.subrange(start, end)
    &&& start > 0 ==> is_space(text[start - 1])
    &&& end < text.len() ==> is_space(text[end])
}

/// Each word stands in the text with white space or an end at both sides.
pub proof fn law_words_stand_alone(text: Seq<char>, index: int)
    requires
        0 <= index < words(text).len(),
    ensures
        exists|start: int, end: int| stands_alone(text, words(text)[index], start, end),
{
    lemma_word_place(text, index);
}

/// Where a word stands: at the end where it is the last one and no white space follows, and
/// otherwise before the end.
proof fn lemma_word_place(text: Seq<char>, index: int)
    requires
        0 <= index < words(text).len(),
    ensures
        index == words(text).len() - 1 && !is_space(text.last()) ==> exists|start: int|
            stands_alone(text, words(text)[index], start, text.len() as int),
        !(index == words(text).len() - 1 && !is_space(text.last())) ==> exists|
            start: int,
            end: int,
        | stands_alone(text, words(text)[index], start, end) && end < text.len(),
    decreases text.len(),
{
    let front = text.drop_last();
    let rest = words(front);
    let n = text.len() as int;
    law_words_are_plain(front);
    if is_space(text.last()) {
        lemma_word_place(front, index);
        let (start, end) = choose|start: int, end: int|
            stands_alone(front, rest[index], start, end);
        assert(text.subrange(start, end) == front.subrange(start, end));
        assert(stands_alone(text, words(text)[index], start, end));
    } else if n > 1 && !is_space(text[n - 2]) {
        assert(front.last() == text[n - 2]);
        lemma_word_place(front, index);
        if index == rest.len() - 1 {
            let whole = front.len() as int;
            let start = choose|start: int| stands_alone(front, rest[index], start, whole);
            assert(text.subrange(start, n) == front.subrange(start, n - 1).push(text.last()));
            assert(stands_alone(text, words(text)[index], start, n));
        } else {
            assert(words(text)[index] == rest[index]);
            let (start, end) = choose|start: int, end: int|
                stands_alone(front, rest[index], start, end) && end < n - 1;
            assert(text.subrange(start, end) == front.subrange(start, end));
            assert(stands_alone(text, words(text)[index], start, end));
        }
    } else if index == rest.len() {
        assert(text.subrange(n - 1, n) == seq![text.last()]);
        assert(stands_alone(text, words(text)[index], n - 1, n));
    } else {
        assert(words(text)[index] == rest[index]);
        assert(front.last() == text[n - 2]);
        lemma_word_place(front, index);
        let (start, end) = choose|start: int, end: int|
            stands_alone(front, rest[index], start, end) && end < n - 1;
        assert(text.subrange(start, end) == front.subrange(start, end));
        assert(stands_alone(text, words(text)[index], start, end));
    }
}

/// Parts of lists that are put together are those of the lists, and those of a single text are
/// its fields.
pub proof fn law_all_fields_in_order(a: Seq<Seq<char>>, b: Seq<Seq<char>>, separator: char)
    ensures
        all_fields(a + b, separator) == all_fields(a, separator) + all_fields(b, separator),
        forall|text: Seq<char>| #[trigger]
            all_fields(seq![text], separator) == fields(text, separator),
    decreases b.len(),
{
    if b.len() == 0 {
        assert(a + b == a);
        assert(all_fields(a, separator) + all_fields(b, separator) == all_fields(a, separator));
    } else {
        law_all_fields_in_order(a, b.drop_last(), separator);
        assert((a + b).drop_last() == a + b.drop_last());
        assert(all_fields(a + b, separator) == all_fields(a, separator) + all_fields(
            b,
            separator,
        ));
    }
    assert forall|text: Seq<char>| #[trigger]
        all_fields(seq![text], separator) == fields(text, separator) by {
        reveal_with_fuel(all_fields, 2);
        assert(seq![text].drop_last() == Seq::<Seq<char>>::empty());
        assert(Seq::<Seq<char>>::empty() + fields(text, separator) == fields(text, separator));
    }
}

/// One text comes before another where it is the start of it, or where the first character in
/// which they differ has the smaller code.
pub proof fn law_text_order(a: Seq<char>, b: Seq<char>, same: int)
    requires
        0 <= same <= a.len(),
        same <= b.len(),
        forall|i: int| 0 <= i < same ==> a[i] == b[i],
        same < a.len() && same < b.len() ==> a[same] != b[same],
    ensures
        text_less(a, b) <==> same < b.len() && (same == a.len() || (a[same] as int) < (
        b[same] as int)),
    decreases same,
{
    if same > 0 {
        let (x, y) = (a.drop_first(), b.drop_first());
        assert forall|i: int| 0 <= i < same - 1 implies x[i] == y[i] by {
            assert(x[i] == a[i + 1] && y[i] == b[i + 1]);
        }
        law_text_order(x, y, same - 1);
    }
}

/// The entries of a time zone are its main cities, in order, each with the name of the zone and
/// its country.
pub proof fn law_cities_of_zone(zone: TzEntry)
    ensures
        cities_of(zone).len() == zone.main_cities@.len(),
        forall|i: int|
            0 <= i < zone.main_cities@.len() ==> {
                &&& (#[trigger] cities_of(zone)[i]).city == zone.main_cities@[i]@
                &&& cities_of(zone)[i].timezone == zone.name@
                &&& cities_of(zone)[i].country == zone.country_name@
            },
        utc_entry() == (CityView {
            city: "UTC"@,
            timezone: "UTC"@,
            country: "Coordinated Universal Time"@,
        }),
{
}

/// A city reads as its name and its country, with a comma and a blank between.
pub proof fn law_city_text(city: CityView)
    ensures
        ({
            let n = city.city.len() as int;
            &&& city.text().len() == n + 2 + city.country.len()
            &&& city.text().take(n) == city.city
            &&& city.text()[n] == ',' && city.text()[n + 1] == ' '
            &&& city.text().skip(n + 2) == city.country
        }),
{
    let n = city.city.len() as int;
    reveal_strlit(", ");
    assert(city.text().take(n) == city.city);
    assert(city.text().skip(n + 2) == city.country);
}

/// The tags to try for a variable: none where it is not set, and otherwise its value up to the
/// first dot with hyphens for underscores, and what stands before the first hyphen of that.
pub open spec fn tags_for(value: Option<Seq<char>>) -> Seq<Seq<char>> {
    match value {
        Some(value) => {
            let tag = replaced(before_first(value, '.'), '_', '-');
            seq![tag, before_first(tag, '-')]
        },
        None => Seq::empty(),
    }
}

/// `LC_TIME` is tried before `LC_ALL`, that before `LANG`, and last American English.
pub proof fn law_order_of_tags(
    lc_time: Option<Seq<char>>,
    lc_all: Option<Seq<char>>,
    lang: Option<Seq<char>>,
)
    ensures
        system_tags(lc_time, lc_all, lang) == tags_for(lc_time) + tags_for(lc_all) + tags_for(
            lang,
        ) + seq!["en-US"@],
{
    let given = seq![lc_time, lc_all, lang];
    let (two, one) = (seq![lc_time, lc_all], seq![lc_time]);
    assert(given.drop_last() == two);
    assert(two.drop_last() == one);
    assert(one.drop_last() == Seq::<Option<Seq<char>>>::empty());
    lemma_tags_present(given);
    lemma_tags_present(two);
    lemma_tags_present(one);
    let none = Seq::<Option<Seq<char>>>::empty();
    assert(tags_of_all(present(none)) == Seq::<Seq<char>>::empty());
    assert(tags_of_all(present(one)) == tags_for(lc_time));
    assert(tags_of_all(present(two)) == tags_for(lc_time) + tags_for(lc_all));
    assert(tags_of_all(present(given)) == tags_for(lc_time) + tags_for(lc_all) + tags_for(lang));
}

proof fn lemma_tags_present(values: Seq<Option<Seq<char>>>)
    requires
        values.len() > 0,
    ensures
        tags_of_all(present(values)) == tags_of_all(present(values.drop_last())) + tags_for(
            values.last(),
        ),
{
    match values.last() {
        Some(value) => {
            let all = present(values.drop_last()).push(value);
            assert(all.drop_last() == present(values.drop_last()));
        },
        None => {
            assert(tags_of_all(present(values.drop_last())) + tags_for(None) == tags_of_all(
                present(values.drop_last()),
            ));
        },
    }
}

/// The tags of more variables come behind those of the ones before.
pub proof fn law_tags_in_order(values: Seq<Seq<char>>, value: Seq<char>)
    ensures
        tags_of_all(Seq::empty()) == Seq::<Seq<char>>::empty(),
        tags_of_all(values.push(value)) == tags_of_all(values) + tags_for(Some(value)),
{
    assert(values.push(value).drop_last() == values);
}

/// The fallback is taken exactly where no tag of a variable names a locale.
pub proof fn law_when_fallback_is_taken(
    lc_time: Option<Seq<char>>,
    lc_all: Option<Seq<char>>,
    lang: Option<Seq<char>>,
)
    ensures
        falls_back(lc_time, lc_all, lang) <==> forall|i: int|
            0 <= i < (tags_for(lc_time) + tags_for(lc_all) + tags_for(lang)).len() ==> locale_tag(
                #[trigger] (tags_for(lc_time) + tags_for(lc_all) + tags_for(lang))[i],
            ) is None,
{
    law_order_of_tags(lc_time, lc_all, lang);
    assert(system_tags(lc_time, lc_all, lang).drop_last() == tags_for(lc_time) + tags_for(lc_all)
        + tags_for(lang));
}

/// The first of a list that is there is chosen, and nothing where none is.
pub proof fn law_first_choice(choices: Seq<Option<Seq<char>>>, index: int)
    requires
        0 <= index <= choices.len(),
        forall|i: int| 0 <= i < index ==> (#[trigger] choices[i]) is None,
        index < choices.len() ==> choices[index] is Some,
    ensures
        first_of(choices) == (if index < choices.len() {
            choices[index]
        } else {
            None
        }),
    decreases index,
{
    if index > 0 {
        let rest = choices.drop_first();
        assert forall|i: int| 0 <= i < index - 1 implies (#[trigger] rest[i]) is None by {
            assert(rest[i] == choices[i + 1]);
        }
        law_first_choice(rest, index - 1);
    }
}

/// The locale is the one of the first tag that names one.
pub proof fn law_first_tag_decides(tags: Seq<Seq<char>>, index: int)
    requires
        0 <= index < tags.len(),
        locale_tag(tags[index]) is Some,
        forall|i: int| 0 <= i < index ==> locale_tag(#[trigger] tags[i]) is None,
    ensures
        first_of(tags.map_values(|tag: Seq<char>| locale_tag(tag))) == locale_tag(tags[index]),
{
    let choices = tags.map_values(|tag: Seq<char>| locale_tag(tag));
    assert forall|i: int| 0 <= i < index implies (#[trigger] choices[i]) is None by {
        assert(choices[i] == locale_tag(tags[i]));
    }
    law_first_choice(choices, index);
}

/// The locale of the system is that of the first tag of `LC_TIME`, then `LC_ALL`, then `LANG`
/// that names one, and American English where none does.
pub proof fn law_system_locale(
    lc_time: Option<Seq<char>>,
    lc_all: Option<Seq<char>>,
    lang: Option<Seq<char>>,
    index: int,
)
    requires
        ({
            let tags = tags_for(lc_time) + tags_for(lc_all) + tags_for(lang);
            &&& 0 <= index <= tags.len()
            &&& forall|i: int| 0 <= i < index ==> locale_tag(#[trigger] tags[i]) is None
            &&& index < tags.len() ==> locale_tag(tags[index]) is Some
        }),
    ensures
        ({
            let tags = tags_for(lc_time) + tags_for(lc_all) + tags_for(lang);
            system_locale(lc_time, lc_all, lang) == (if index < tags.len() {
                locale_tag(tags[index])
            } else {
                locale_tag("en-US"@)
            })
        }),
{
    let tags = tags_for(lc_time) + tags_for(lc_all) + tags_for(lang);
    let all = tags + seq!["en-US"@];
    let choices = all.map_values(|tag: Seq<char>| locale_tag(tag));
    law_order_of_tags(lc_time, lc_all, lang);
    assert(system_tags(lc_time, lc_all, lang) == all);
    assert forall|i: int| 0 <= i < index implies (#[trigger] choices[i]) is None by {
        assert(choices[i] == locale_tag(tags[i]));
    }
    assert(choices[tags.len() as int] == locale_tag("en-US"@));
    if index < tags.len() {
        assert(choices[index] == locale_tag(tags[index]));
        law_first_choice(choices, index);
    } else if locale_tag("en-US"@) is Some {
        law_first_choice(choices, index);
    } else {
        law_first_choice(choices, choices.len() as int);
    }
}

/// No city of the list comes before one that stands further up.
pub proof fn law_list_is_sorted(zones: Seq<TzEntry>, sorted: Seq<CityView>, i: int, j: int)
    requires
        lists_cities(zones, sorted),
        0 <= i < j < sorted.len(),
    ensures
        !text_less(sorted[j].city, sorted[i].city),
{
}

/// The list holds each entry as often as it was given, UTC once more, and keeps the order of
/// entries that share a name.
pub proof fn law_list_holds_the_cities(
    zones: Seq<TzEntry>,
    sorted: Seq<CityView>,
    name: Seq<char>,
)
    requires
        lists_cities(zones, sorted),
    ensures
        ({
            let given = cities_of_all(zones) + seq![
                CityView {
                    city: "UTC"@,
                    timezone: "UTC"@,
                    country: "Coordinated Universal Time"@,
                },
            ];
            &&& sorted.len() == given.len()
            &&& sorted.to_multiset() == given.to_multiset()
            &&& sorted.filter(|c: CityView| c.city == name) == given.filter(
                |c: CityView| c.city == name,
            )
        }),
{
    let given = cities_of_all(zones) + seq![utc_entry()];
    assert(cities_of_all(zones).push(utc_entry()) == given);
    sorted.to_multiset_ensures();
    given.to_multiset_ensures();
    assert(named(sorted, name) == named(given, name));
}

/// The cities of more zones come behind those of the zones before.
pub proof fn law_cities_in_order(zones: Seq<TzEntry>, zone: TzEntry)
    ensures
        cities_of_all(Seq::empty()) == Seq::<CityView>::empty(),
        cities_of_all(zones.push(zone)) == cities_of_all(zones) + cities_of(zone),
{
    assert(zones.push(zone).drop_last() == zones);
}

} // verus!
