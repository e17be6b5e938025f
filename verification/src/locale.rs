//! The locale of the system.

use vstd::prelude::*;
use crate::datetime::{locale_tag, opt_text, parse_locale};
use crate::text::{before_first, replace, replaced, split_first, texts};

verus! {

broadcast use vstd::string::group_string_axioms;

/// The tags to try for one variable: its value without the encoding and with hyphens, and
/// the language alone.
pub open spec fn tags_of(value: Seq<char>) -> Seq<Seq<char>> {
    let cleaned = replaced(before_first(value, '.'), '_', '-');
    seq![cleaned, before_first(cleaned, '-')]
}

/// The tags to try, in order, for the values of the variables that are set.
pub open spec fn tags_of_all(values: Seq<Seq<char>>) -> Seq<Seq<char>>
    decreases values.len(),
{
    if values.len() == 0 {
        Seq::empty()
    } else {
        tags_of_all(values.drop_last()) + tags_of(values.last())
    }
}

/// The first text of a list that is there.
pub open spec fn first_of(choices: Seq<Option<Seq<char>>>) -> Option<Seq<char>>
    decreases choices.len(),
{
    if choices.len() == 0 {
        None
    } else if choices[0] is Some {
        choices[0]
    } else {
        first_of(choices.drop_first())
    }
}

/// The tags to try for the values of the variables that are set, and last "en-US".
pub fn locale_candidates(values: &Vec<String>) -> (tags: Vec<String>)
    ensures
        texts(tags@) == tags_of_all(texts(values@)).push("en-US"@),
{
    let mut tags: Vec<String> = Vec::new();
    let mut i: usize = 0;
    assert(texts(values@).take(0) == Seq::<Seq<char>>::empty());
    while i < values.len()
        invariant
            i <= values.len(),
            texts(tags@) == tags_of_all(texts(values@).take(i as int)),
        decreases values.len() - i,
    {
        let base = split_first(values[i].as_str(), '.');
        let cleaned = replace(base.as_str(), '_', '-');
        let language = split_first(cleaned.as_str(), '-');
        let ghost before = tags@;
        tags.push(cleaned);
        tags.push(language);
        proof {
            let seen = texts(values@).take(i + 1);
            assert(seen.drop_last() == texts(values@).take(i as int));
            assert(texts(tags@) == texts(before) + tags_of(values[i as int]@));
        }
        i += 1;
    }
    assert(texts(values@).take(i as int) == texts(values@));
    let ghost before = tags@;
    tags.push("en-US".to_string());
    assert(texts(tags@) == texts(before).push("en-US"@));
    tags
}

/// The first string of a list that is there.
pub fn first_locale(choices: Vec<Option<String>>) -> (choice: Option<String>)
    ensures
        opt_text(choice) == first_of(choices@.map_values(|c: Option<String>| opt_text(c))),
{
    let ghost all = choices@.map_values(|c: Option<String>| opt_text(c));
    let mut i: usize = 0;
    assert(all.skip(0) == all);
    while i < choices.len()
        invariant
            i <= choices.len(),
            all == choices@.map_values(|c: Option<String>| opt_text(c)),
            first_of(all) == first_of(all.skip(i as int)),
        decreases choices.len() - i,
    {
        if let Some(choice) = &choices[i] {
            assert(all.skip(i as int)[0] == Some(choice@));
            return Some(choice.clone());
        }
        assert(all.skip(i as int)[0] is None);
        assert(all.skip(i as int).drop_first() == all.skip(i + 1));
        i += 1;
    }
    assert(all.skip(i as int).len() == 0);
    None
}

/// The values that are there, in order.
pub open spec fn present(values: Seq<Option<Seq<char>>>) -> Seq<Seq<char>>
    decreases values.len(),
{
    if values.len() == 0 {
        Seq::empty()
    } else {
        match values.last() {
            Some(value) => present(values.drop_last()).push(value),
            None => present(values.drop_last()),
        }
    }
}

/// The tags to try for the variables `LC_TIME`, `LC_ALL` and `LANG`, in this order, and
/// last "en-US".
pub open spec fn system_tags(
    lc_time: Option<Seq<char>>,
    lc_all: Option<Seq<char>>,
    lang: Option<Seq<char>>,
) -> Seq<Seq<char>> {
    tags_of_all(present(seq![lc_time, lc_all, lang])).push("en-US"@)
}

/// The locale of the system, by its tag: that of the first tag that names one.
pub open spec fn system_locale(
    lc_time: Option<Seq<char>>,
    lc_all: Option<Seq<char>>,
    lang: Option<Seq<char>>,
) -> Option<Seq<char>> {
    first_of(system_tags(lc_time, lc_all, lang).map_values(|tag: Seq<char>| locale_tag(tag)))
}

/// A variable whose value names a locale decides, whatever the variables behind it hold.
pub proof fn law_first_variable_decides(
    lc_time: Seq<char>,
    lc_all: Option<Seq<char>>,
    lang: Option<Seq<char>>,
)
    requires
        locale_tag(tags_of(lc_time)[0]) is Some,
    ensures
        first_of(
            system_tags(Some(lc_time), lc_all, lang).map_values(|tag: Seq<char>| locale_tag(tag)),
        ) == locale_tag(tags_of(lc_time)[0]),
{
    let given = seq![Some(lc_time), lc_all, lang];
    assert(given.drop_last().drop_last() == seq![given[0]]);
    assert(given.drop_last().drop_last().drop_last() == Seq::<Option<Seq<char>>>::empty());
    reveal_with_fuel(present, 4);
    let values = present(given);
    assert(values[0] == lc_time);
    lemma_tags_start(values);
}

/// The tags of the first variable come first.
proof fn lemma_tags_start(values: Seq<Seq<char>>)
    requires
        values.len() > 0,
    ensures
        tags_of_all(values).len() > 0,
        tags_of_all(values)[0] == tags_of(values[0])[0],
    decreases values.len(),
{
    if values.len() > 1 {
        lemma_tags_start(values.drop_last());
    } else {
        assert(tags_of_all(values.drop_last()).len() == 0);
    }
}

/// Where no variable is set, the locale is American English.
pub proof fn law_fallback_locale()
    ensures
        first_of(
            system_tags(None, None, None).map_values(|tag: Seq<char>| locale_tag(tag)),
        ) == locale_tag("en-US"@),
{
    let given: Seq<Option<Seq<char>>> = seq![None, None, None];
    assert(given.drop_last().drop_last() == seq![given[0]]);
    assert(given.drop_last().drop_last().drop_last() == Seq::<Option<Seq<char>>>::empty());
    reveal_with_fuel(present, 4);
    reveal_with_fuel(first_of, 3);
}

/// None of the variables names a locale: every tag but the last, "en-US", is refused.
pub open spec fn falls_back(
    lc_time: Option<Seq<char>>,
    lc_all: Option<Seq<char>>,
    lang: Option<Seq<char>>,
) -> bool {
    let tags = system_tags(lc_time, lc_all, lang).drop_last();
    forall|i: int| 0 <= i < tags.len() ==> locale_tag(#[trigger] tags[i]) is None
}

/// Where none of the variables names a locale, the locale is American English.
pub proof fn law_fallback_is_american(
    lc_time: Option<Seq<char>>,
    lc_all: Option<Seq<char>>,
    lang: Option<Seq<char>>,
)
    requires
        falls_back(lc_time, lc_all, lang),
    ensures
        first_of(
            system_tags(lc_time, lc_all, lang).map_values(|tag: Seq<char>| locale_tag(tag)),
        ) == locale_tag("en-US"@),
{
    let tags = system_tags(lc_time, lc_all, lang);
    let choices = tags.map_values(|tag: Seq<char>| locale_tag(tag));
    assert forall|i: int| 0 <= i < choices.len() - 1 implies #[trigger] choices[i] is None by {
        assert(tags.drop_last()[i] == tags[i]);
    }
    lemma_last_choice(choices);
}

/// Where all but the last are missing, the last decides.
proof fn lemma_last_choice(choices: Seq<Option<Seq<char>>>)
    requires
        choices.len() > 0,
        forall|i: int| 0 <= i < choices.len() - 1 ==> #[trigger] choices[i] is None,
    ensures
        first_of(choices) == choices.last(),
    decreases choices.len(),
{
    if choices.len() > 1 {
        let rest = choices.drop_first();
        assert forall|i: int| 0 <= i < rest.len() - 1 implies #[trigger] rest[i] is None by {
            assert(rest[i] == choices[i + 1]);
        }
        lemma_last_choice(rest);
    } else {
        reveal_with_fuel(first_of, 2);
    }
}

/// The values of the variables that are set, in order.
fn values_that_are_set(
    lc_time: &Option<String>,
    lc_all: &Option<String>,
    lang: &Option<String>,
) -> (values: Vec<String>)
    ensures
        texts(values@) == present(seq![opt_text(*lc_time), opt_text(*lc_all), opt_text(*lang)]),
{
    let ghost given = seq![opt_text(*lc_time), opt_text(*lc_all), opt_text(*lang)];
    let mut values: Vec<String> = Vec::new();
    if let Some(value) = lc_time {
        values.push(value.clone());
    }
    if let Some(value) = lc_all {
        values.push(value.clone());
    }
    if let Some(value) = lang {
        values.push(value.clone());
    }
    proof {
        assert(given.drop_last().drop_last() == seq![given[0]]);
        assert(given.drop_last().drop_last().drop_last() == Seq::<Option<Seq<char>>>::empty());
        reveal_with_fuel(present, 4);
        assert(texts(values@) == present(given));
    }
    values
}

/// Whether none of the variables names a locale, so that the fallback is taken.
pub fn uses_fallback(
    lc_time: &Option<String>,
    lc_all: &Option<String>,
    lang: &Option<String>,
) -> (fallback: bool)
    ensures
        fallback == falls_back(opt_text(*lc_time), opt_text(*lc_all), opt_text(*lang)),
{
    let values = values_that_are_set(lc_time, lc_all, lang);
    let tags = locale_candidates(&values);
    let ghost tried = texts(tags@).drop_last();
    let mut i: usize = 0;
    while i < tags.len() - 1
        invariant
            0 < tags.len(),
            i < tags.len(),
            tried == texts(tags@).drop_last(),
            tried == system_tags(
                opt_text(*lc_time),
                opt_text(*lc_all),
                opt_text(*lang),
            ).drop_last(),
            forall|j: int| 0 <= j < i ==> locale_tag(#[trigger] tried[j]) is None,
        decreases tags.len() - i,
    {
        assert(tried[i as int] == tags@[i as int]@);
        if parse_locale(tags[i].as_str()).is_some() {
            assert(!(locale_tag(tried[i as int]) is None));
            return false;
        }
        i += 1;
    }
    true
}

/// The locale of the system, by its tag: the first that can be made of the variables
/// `LC_TIME`, `LC_ALL` and `LANG`, in this order, and otherwise American English. `None`
/// where that one is refused too.
pub fn get_system_locale(
    lc_time: Option<String>,
    lc_all: Option<String>,
    lang: Option<String>,
) -> (locale: Option<String>)
    ensures
        opt_text(locale) == system_locale(opt_text(lc_time), opt_text(lc_all), opt_text(lang)),
{
    let values = values_that_are_set(&lc_time, &lc_all, &lang);
    let tags = locale_candidates(&values);
    let mut parsed: Vec<Option<String>> = Vec::new();
    let mut i: usize = 0;
    while i < tags.len()
        invariant
            i <= tags.len(),
            parsed.len() == i,
            forall|j: int|
                0 <= j < i ==> opt_text(#[trigger] parsed@[j]) == locale_tag(tags@[j]@),
        decreases tags.len() - i,
    {
        parsed.push(parse_locale(tags[i].as_str()));
        i += 1;
    }
    assert(parsed@.map_values(|c: Option<String>| opt_text(c)) == texts(tags@).map_values(
        |tag: Seq<char>| locale_tag(tag),
    ));
    first_locale(parsed)
}

} // verus!
