//! The cities whose clocks can be added.

use vstd::prelude::*;
use vstd::std_specs::iter::IteratorSpec;
use crate::text::texts;

verus! {

broadcast use vstd::string::group_string_axioms;

/// A city with the name of its time zone and its country.
#[derive(Clone, PartialEq, Eq, Debug)]
pub struct CityEntry {
    pub city: String,
    pub timezone: String,
    pub country: String,
}

/// A time zone of the database, with its main cities.
#[derive(Clone, Debug)]
pub struct TzEntry {
    pub name: String,
    pub country_name: String,
    pub main_cities: Vec<String>,
}

/// What a `CityEntry` holds.
pub struct CityView {
    pub city: Seq<char>,
    pub timezone: Seq<char>,
    pub country: Seq<char>,
}

impl CityView {
    /// The city and its country, as in "Tokyo, Japan".
    pub open spec fn text(self) -> Seq<char> {
        self.city + ", "@ + self.country
    }
}

impl View for CityEntry {
    type V = CityView;

    open spec fn view(&self) -> CityView {
        CityView { city: self.city@, timezone: self.timezone@, country: self.country@ }
    }
}

/// `a` comes before `b`, by the first character in which they differ.
pub open spec fn text_less(a: Seq<char>, b: Seq<char>) -> bool
    decreases a.len(),
{
    if b.len() == 0 {
        false
    } else if a.len() == 0 {
        true
    } else if a[0] != b[0] {
        (a[0] as int) < (b[0] as int)
    } else {
        text_less(a.drop_first(), b.drop_first())
    }
}

/// What the entries of a list hold.
pub open spec fn entries(cities: Seq<CityEntry>) -> Seq<CityView> {
    cities.map_values(|c: CityEntry| c@)
}

/// The cities of a time zone, in order.
pub open spec fn cities_of(zone: TzEntry) -> Seq<CityView> {
    texts(zone.main_cities@).map_values(
        |city: Seq<char>|
            CityView { city, timezone: zone.name@, country: zone.country_name@ },
    )
}

/// The cities of the time zones, in order.
pub open spec fn cities_of_all(zones: Seq<TzEntry>) -> Seq<CityView>
    decreases zones.len(),
{
    if zones.len() == 0 {
        Seq::empty()
    } else {
        cities_of_all(zones.drop_last()) + cities_of(zones.last())
    }
}

/// The entry for UTC, for which the database has no city.
pub open spec fn utc_entry() -> CityView {
    CityView {
        city: "UTC"@,
        timezone: "UTC"@,
        country: "Coordinated Universal Time"@,
    }
}

/// No city comes before one that stands further on.
pub open spec fn sorted_by_city(cities: Seq<CityView>) -> bool {
    forall|i: int, j: int|
        0 <= i < j < cities.len() ==> !text_less(
            #[trigger] cities[j].city,
            #[trigger] cities[i].city,
        )
}

/// The entries with this name of a city, in order.
pub open spec fn named(cities: Seq<CityView>, city: Seq<char>) -> Seq<CityView> {
    cities.filter(|c: CityView| c.city == city)
}

/// `sorted` holds the entries of `cities`, sorted by the name of the city; entries that
/// share a name keep their order.
pub open spec fn stably_sorted(cities: Seq<CityView>, sorted: Seq<CityView>) -> bool {
    &&& sorted_by_city(sorted)
    &&& sorted.to_multiset() == cities.to_multiset()
    &&& forall|city: Seq<char>| named(sorted, city) == #[trigger] named(cities, city)
}

/// `sorted` lists every city of the time zones and UTC, by name.
pub open spec fn lists_cities(zones: Seq<TzEntry>, sorted: Seq<CityView>) -> bool {
    stably_sorted(cities_of_all(zones).push(utc_entry()), sorted)
}

/// The order of texts is total.
pub proof fn law_text_less_total(a: Seq<char>, b: Seq<char>)
    ensures
        !(text_less(a, b) && text_less(b, a)),
        text_less(a, b) || text_less(b, a) || a == b,
        a == b ==> !text_less(a, b),
    decreases a.len(),
{
    if a.len() > 0 && b.len() > 0 {
        law_text_less_total(a.drop_first(), b.drop_first());
        if a[0] == b[0] && a.drop_first() == b.drop_first() {
            assert(a == seq![a[0]] + a.drop_first());
            assert(b == seq![b[0]] + b.drop_first());
        }
    } else if a.len() == 0 && b.len() == 0 {
        assert(a == b);
    }
}

/// The order of texts is transitive.
pub proof fn law_text_less_transitive(a: Seq<char>, b: Seq<char>, c: Seq<char>)
    requires
        text_less(a, b),
        text_less(b, c),
    ensures
        text_less(a, c),
    decreases a.len(),
{
    if a.len() > 0 && b.len() > 0 && c.len() > 0 && a[0] == b[0] && b[0] == c[0] {
        law_text_less_transitive(a.drop_first(), b.drop_first(), c.drop_first());
    }
}

/// Whether `a` comes before `b`.
pub fn comes_before(a: &str, b: &str) -> (less: bool)
    ensures
        less == text_less(a@, b@),
{
    let mut x = a.chars();
    let mut y = b.chars();
    loop
        invariant
            x.decrease() is Some,
            text_less(a@, b@) == text_less(x.remaining(), y.remaining()),
        decreases x.decrease()->0,
    {
        match (x.next(), y.next()) {
            (_, None) => {
                return false;
            },
            (None, Some(_)) => {
                return true;
            },
            (Some(c), Some(d)) => {
                if c != d {
                    return c < d;
                }
            },
        }
    }
}

/// Where nothing comes before what stands before it, the relation carries on.
proof fn lemma_not_less_transitive(a: Seq<char>, b: Seq<char>, c: Seq<char>)
    requires
        !text_less(b, a),
        !text_less(c, b),
    ensures
        !text_less(c, a),
{
    law_text_less_total(a, b);
    law_text_less_total(b, c);
    if text_less(c, a) {
        if a == b {
        } else if b == c {
        } else {
            law_text_less_transitive(a, b, c);
            law_text_less_total(a, c);
        }
    }
}

/// Putting an entry before the cities that come after it keeps a list sorted.
proof fn lemma_insert_sorted(
    cities: Seq<CityView>,
    sorted: Seq<CityView>,
    entry: CityView,
    at: int,
)
    requires
        stably_sorted(cities, sorted),
        0 <= at <= sorted.len(),
        at == 0 || !text_less(entry.city, sorted[at - 1].city),
        forall|i: int| at <= i < sorted.len() ==> text_less(entry.city, sorted[i].city),
    ensures
        stably_sorted(cities.push(entry), sorted.insert(at, entry)),
{
    let longer = sorted.insert(at, entry);
    assert forall|i: int, j: int| 0 <= i < j < longer.len() implies !text_less(
        #[trigger] longer[j].city,
        #[trigger] longer[i].city,
    ) by {
        if j == at {
            assert(!text_less(sorted[at - 1].city, sorted[i].city)) by {
                if i == at - 1 {
                    law_text_less_total(sorted[i].city, sorted[i].city);
                }
            }
            lemma_not_less_transitive(sorted[i].city, sorted[at - 1].city, entry.city);
        } else if i == at {
            law_text_less_total(entry.city, sorted[j - 1].city);
        }
    }
    assert(longer.to_multiset() == cities.push(entry).to_multiset()) by {
        vstd::seq_lib::to_multiset_insert(sorted, at, entry);
        vstd::seq_lib::to_multiset_build(cities, entry);
    }
    assert forall|city: Seq<char>| named(longer, city) == #[trigger] named(
        cities.push(entry),
        city,
    ) by {
        let pred = |c: CityView| c.city == city;
        let (front, back) = (sorted.subrange(0, at), sorted.subrange(at, sorted.len() as int));
        assert(sorted == front + back);
        assert(longer == front.push(entry) + back);
        Seq::filter_distributes_over_add(front, back, pred);
        Seq::filter_distributes_over_add(front.push(entry), back, pred);
        front.lemma_filter_push(entry, pred);
        cities.lemma_filter_push(entry, pred);
        assert(named(sorted, city) == named(cities, city));
        if entry.city == city {
            assert(back.filter(pred).len() == 0) by {
                if back.filter(pred).len() > 0 {
                    let found = back.filter(pred)[0];
                    back.lemma_filter_pred(pred, 0);
                    assert(back.filter(pred).contains(found));
                    back.lemma_filter_contains_rev(pred, found);
                    let k = choose|k: int| 0 <= k < back.len() && back[k] == found;
                    assert(back[k].city == city);
                    law_text_less_total(entry.city, sorted[at + k].city);
                }
            }
            assert(named(longer, city) == named(sorted, city).push(entry));
        }
    }
}

/// Puts `entry` behind the cities that it does not come before.
fn insert_city(sorted: &mut Vec<CityEntry>, entry: CityEntry, cities: Ghost<Seq<CityView>>)
    requires
        stably_sorted(cities@, entries(old(sorted)@)),
    ensures
        stably_sorted(cities@.push(entry@), entries(final(sorted)@)),
{
    let mut at: usize = sorted.len();
    while at > 0 && comes_before(entry.city.as_str(), sorted[at - 1].city.as_str())
        invariant
            at <= sorted.len(),
            forall|i: int| at <= i < sorted.len() ==> text_less(entry.city@, sorted[i].city@),
        decreases at,
    {
        at -= 1;
    }
    proof {
        lemma_insert_sorted(cities@, entries(sorted@), entry@, at as int);
        assert(entries(sorted@.insert(at as int, entry)) == entries(sorted@).insert(
            at as int,
            entry@,
        ));
    }
    sorted.insert(at, entry);
}

/// Every city of the time zones plus UTC, sorted by name.
pub fn cities(zones: &Vec<TzEntry>) -> (sorted: Vec<CityEntry>)
    ensures
        lists_cities(zones@, entries(sorted@)),
{
    let mut sorted: Vec<CityEntry> = Vec::new();
    let ghost mut seen: Seq<CityView> = Seq::empty();
    assert(entries(sorted@) == seen);
    let mut i: usize = 0;
    assert(zones@.take(0) == Seq::<TzEntry>::empty());
    while i < zones.len()
        invariant
            i <= zones.len(),
            seen == cities_of_all(zones@.take(i as int)),
            stably_sorted(seen, entries(sorted@)),
        decreases zones.len() - i,
    {
        let zone = &zones[i];
        let ghost before = seen;
        let mut j: usize = 0;
        assert(before + cities_of(*zone).take(0) == before);
        while j < zone.main_cities.len()
            invariant
                j <= zone.main_cities.len(),
                seen == before + cities_of(*zone).take(j as int),
                stably_sorted(seen, entries(sorted@)),
            decreases zone.main_cities.len() - j,
        {
            let entry = CityEntry {
                city: zone.main_cities[j].clone(),
                timezone: zone.name.clone(),
                country: zone.country_name.clone(),
            };
            proof {
                let next = before + cities_of(*zone).take(j + 1);
                assert(cities_of(*zone)[j as int] == entry@);
                assert(next == seen.push(entry@));
            }
            insert_city(&mut sorted, entry, Ghost(seen));
            proof {
                seen = before + cities_of(*zone).take(j + 1);
            }
            j += 1;
        }
        proof {
            assert(cities_of(*zone).take(j as int) == cities_of(*zone));
            assert(zones@.take(i + 1).drop_last() == zones@.take(i as int));
        }
        i += 1;
    }
    assert(zones@.take(i as int) == zones@);
    let utc = CityEntry {
        city: "UTC".to_string(),
        timezone: "UTC".to_string(),
        country: "Coordinated Universal Time".to_string(),
    };
    insert_city(&mut sorted, utc, Ghost(seen));
    sorted
}

/// Sorting by the name of the city, with the order kept within a name, leaves no choice.
pub proof fn law_stable_sort_unique(cities: Seq<CityView>, a: Seq<CityView>, b: Seq<CityView>)
    requires
        stably_sorted(cities, a),
        stably_sorted(cities, b),
    ensures
        a == b,
{
    a.to_multiset_ensures();
    b.to_multiset_ensures();
    assert forall|city: Seq<char>| named(a, city) == #[trigger] named(b, city) by {
        assert(named(cities, city) == named(cities, city));
    }
    lemma_sorted_alike(a, b);
}

/// Dropping the first entry drops it from those of its name.
proof fn lemma_named_first(cities: Seq<CityView>, city: Seq<char>)
    requires
        cities.len() > 0,
    ensures
        named(cities, city) == (if cities[0].city == city {
            seq![cities[0]] + named(cities.drop_first(), city)
        } else {
            named(cities.drop_first(), city)
        }),
{
    let pred = |c: CityView| c.city == city;
    let front = seq![cities[0]];
    assert(cities == front + cities.drop_first());
    Seq::filter_distributes_over_add(front, cities.drop_first(), pred);
    reveal_with_fuel(Seq::filter, 2);
    assert(front.drop_last() == Seq::<CityView>::empty());
    assert(front.filter(pred) == (if cities[0].city == city {
        front
    } else {
        Seq::empty()
    }));
}

/// The first of a sorted list comes after no entry of another list of the same entries.
proof fn lemma_first_is_least(a: Seq<CityView>, b: Seq<CityView>)
    requires
        sorted_by_city(a),
        a.to_multiset() == b.to_multiset(),
        a.len() > 0,
        b.len() > 0,
    ensures
        !text_less(b[0].city, a[0].city),
{
    a.to_multiset_ensures();
    b.to_multiset_ensures();
    assert(b.contains(b[0]));
    assert(a.to_multiset().count(b[0]) > 0);
    let i = choose|i: int| 0 <= i < a.len() && a[i] == b[0];
    law_text_less_total(a[0].city, a[0].city);
}

proof fn lemma_sorted_alike(a: Seq<CityView>, b: Seq<CityView>)
    requires
        sorted_by_city(a),
        sorted_by_city(b),
        a.to_multiset() == b.to_multiset(),
        forall|city: Seq<char>| named(a, city) == #[trigger] named(b, city),
    ensures
        a == b,
    decreases a.len(),
{
    a.to_multiset_ensures();
    b.to_multiset_ensures();
    if a.len() > 0 {
        lemma_first_is_least(a, b);
        lemma_first_is_least(b, a);
        law_text_less_total(a[0].city, b[0].city);
        let least = a[0].city;
        lemma_named_first(a, least);
        lemma_named_first(b, least);
        assert(named(a, least)[0] == a[0]);
        assert(named(b, least)[0] == b[0]);
        let (rest_a, rest_b) = (a.drop_first(), b.drop_first());
        assert(rest_a == a.remove(0) && rest_b == b.remove(0));
        assert(sorted_by_city(rest_a)) by {
            assert forall|i: int, j: int| 0 <= i < j < rest_a.len() implies !text_less(
                #[trigger] rest_a[j].city,
                #[trigger] rest_a[i].city,
            ) by {
                assert(rest_a[i] == a[i + 1] && rest_a[j] == a[j + 1]);
            }
        }
        assert(sorted_by_city(rest_b)) by {
            assert forall|i: int, j: int| 0 <= i < j < rest_b.len() implies !text_less(
                #[trigger] rest_b[j].city,
                #[trigger] rest_b[i].city,
            ) by {
                assert(rest_b[i] == b[i + 1] && rest_b[j] == b[j + 1]);
            }
        }
        assert forall|city: Seq<char>| named(rest_a, city) == #[trigger] named(rest_b, city) by {
            lemma_named_first(a, city);
            lemma_named_first(b, city);
            assert(named(a, city) == named(b, city));
            if least == city {
                assert(named(rest_a, city) == named(a, city).drop_first());
                assert(named(rest_b, city) == named(b, city).drop_first());
            }
        }
        lemma_sorted_alike(rest_a, rest_b);
        assert(a == seq![a[0]] + rest_a);
        assert(b == seq![b[0]] + rest_b);
    }
}

/// Every main city of every time zone is listed, and so is UTC; nothing else is.
pub proof fn law_every_city_listed(zones: Seq<TzEntry>, sorted: Seq<CityView>, entry: CityView)
    requires
        lists_cities(zones, sorted),
    ensures
        sorted.contains(entry) <==> entry == utc_entry() || exists|zone: int|
            0 <= zone < zones.len() && (#[trigger] cities_of(zones[zone])).contains(entry),
{
    let all = cities_of_all(zones).push(utc_entry());
    sorted.to_multiset_ensures();
    all.to_multiset_ensures();
    lemma_cities_of_all(zones, entry);
    assert(sorted.to_multiset().count(entry) == all.to_multiset().count(entry));
    if cities_of_all(zones).contains(entry) {
        let i = choose|i: int|
            0 <= i < cities_of_all(zones).len() && cities_of_all(zones)[i] == entry;
        assert(all[i] == entry);
    }
    assert(all.last() == utc_entry());
}

proof fn lemma_cities_of_all(zones: Seq<TzEntry>, entry: CityView)
    ensures
        cities_of_all(zones).contains(entry) <==> exists|zone: int|
            0 <= zone < zones.len() && (#[trigger] cities_of(zones[zone])).contains(entry),
    decreases zones.len(),
{
    if zones.len() > 0 {
        let rest = zones.drop_last();
        lemma_cities_of_all(rest, entry);
        let (front, back) = (cities_of_all(rest), cities_of(zones.last()));
        if front.contains(entry) {
            let i = choose|i: int| 0 <= i < front.len() && front[i] == entry;
            assert((front + back)[i] == entry);
            let zone = choose|zone: int|
                0 <= zone < rest.len() && (#[trigger] cities_of(rest[zone])).contains(entry);
            assert(cities_of(zones[zone]).contains(entry));
        }
        if back.contains(entry) {
            let i = choose|i: int| 0 <= i < back.len() && back[i] == entry;
            assert((front + back)[front.len() + i] == entry);
            assert(cities_of(zones[zones.len() - 1]).contains(entry));
        }
        if (front + back).contains(entry) {
            let i = choose|i: int| 0 <= i < (front + back).len() && (front + back)[i] == entry;
            if i < front.len() {
                assert(front[i] == entry);
            } else {
                assert(back[i - front.len()] == entry);
            }
        }
        if exists|zone: int|
            0 <= zone < zones.len() && (#[trigger] cities_of(zones[zone])).contains(entry) {
            let zone = choose|zone: int|
                0 <= zone < zones.len() && (#[trigger] cities_of(zones[zone])).contains(entry);
            if zone < rest.len() {
                assert(cities_of(rest[zone]).contains(entry));
            }
        }
    }
}

impl CityEntry {
    /// The city and its country, as in "Tokyo, Japan".
    pub fn to_string(&self) -> (text: String)
        ensures
            text@ == self@.text(),
    {
        let mut text = self.city.clone();
        text.append(", ");
        text.append(self.country.as_str());
        text
    }
}

} // verus!
