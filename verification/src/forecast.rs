//! The weekly forecast: the forecasts of the service gathered day by day.

use crate::clock::Weekday;
use crate::order::{
    comes_before, insert_sorted, lemma_text_less_irreflexive, lemma_text_less_total,
    lemma_text_less_transitive, strictly_sorted, text_less, texts_of,
};
use crate::text::opt_view;
use crate::weather::{
    capitalize_first_letter, capitalized, utc_date, utc_known, utc_moment, utc_weekday,
};
use vstd::prelude::*;
use vstd::string::*;
use vstd::utf8::*;

verus! {

/// One forecast of the service, as far as the days are made from it: the
/// date that it is for, the day of the week of that date, and the words of
/// the service for the weather, if it sent any.
#[derive(Debug, PartialEq, Eq)]
pub struct ForecastEntry {
    pub date: String,
    pub weekday: Weekday,
    pub description: Option<String>,
}

/// The mathematical content of a [`ForecastEntry`].
pub struct EntryView {
    pub date: Seq<char>,
    pub weekday: Weekday,
    pub description: Option<Seq<char>>,
}

impl View for ForecastEntry {
    type V = EntryView;

    open spec fn view(&self) -> EntryView {
        EntryView {
            date: self.date@,
            weekday: self.weekday,
            description: opt_view(self.description),
        }
    }
}

/// The contents of a vector of forecasts.
pub open spec fn entries_view(entries: Seq<ForecastEntry>) -> Seq<EntryView> {
    entries.map_values(|e: ForecastEntry| e@)
}

/// The forecasts of one date: their places in the list that they come
/// from, and the kinds of weather that they name.
#[derive(Debug, PartialEq, Eq)]
pub struct DayForecast {
    pub date: String,
    pub weekday: Weekday,
    pub entries: Vec<usize>,
    pub descriptions: Vec<String>,
}

/// The mathematical content of a [`DayForecast`].
pub struct DayView {
    pub date: Seq<char>,
    pub weekday: Weekday,
    pub entries: Seq<usize>,
    pub descriptions: Seq<Seq<char>>,
}

impl View for DayForecast {
    type V = DayView;

    open spec fn view(&self) -> DayView {
        DayView {
            date: self.date@,
            weekday: self.weekday,
            entries: self.entries@,
            descriptions: texts_of(self.descriptions@),
        }
    }
}

/// The contents of a vector of days.
pub open spec fn days_view(days: Seq<DayForecast>) -> Seq<DayView> {
    days.map_values(|d: DayForecast| d@)
}

/// The dates of a list of days.
pub open spec fn dates_of(days: Seq<DayView>) -> Seq<Seq<char>> {
    days.map_values(|d: DayView| d.date)
}

/// The forecast names the weather `t`, its first letter in upper case.
pub open spec fn names_weather(e: EntryView, t: Seq<char>) -> bool {
    e.description matches Some(d) && capitalized(d) == t
}

/// One of the picked forecasts names the weather `t`.
pub open spec fn described(entries: Seq<EntryView>, picks: Seq<usize>, t: Seq<char>) -> bool {
    exists|a: int|
        0 <= a < picks.len() && names_weather(entries[(#[trigger] picks[a]) as int], t)
}

/// The day gathers the first `n` forecasts of the list that are for its
/// date: it holds their places, all of them and in rising order, it has
/// the day of the week of the first of them, and it holds, in the order of
/// texts and each once, the kinds of weather that they name.
pub open spec fn day_covers(day: DayView, entries: Seq<EntryView>, n: int) -> bool {
    &&& day.entries.len() > 0
    &&& forall|a: int, b: int|
        0 <= a < b < day.entries.len() ==> (#[trigger] day.entries[a]) < (
        #[trigger] day.entries[b])
    &&& forall|a: int|
        0 <= a < day.entries.len() ==> (#[trigger] day.entries[a]) < n && entries[day.entries[a] as int].date
            == day.date
    &&& forall|i: int|
        0 <= i < n && (#[trigger] entries[i]).date == day.date ==> day.entries.contains(i as usize)
    &&& day.weekday == entries[day.entries[0] as int].weekday
    &&& strictly_sorted(day.descriptions)
    &&& forall|t: Seq<char>| day.descriptions.contains(t) <==> described(entries, day.entries, t)
}

/// The days gather the first `n` forecasts of the list: they stand in the
/// order of their dates, no date twice, each gathers the forecasts of its
/// date, and every forecast has its day.
pub open spec fn days_cover(days: Seq<DayView>, entries: Seq<EntryView>, n: int) -> bool {
    &&& strictly_sorted(dates_of(days))
    &&& forall|k: int| 0 <= k < days.len() ==> day_covers(#[trigger] days[k], entries, n)
    &&& forall|i: int|
        0 <= i < n ==> dates_of(days).contains((#[trigger] entries[i]).date)
}

/// A day that gathers the first `n` forecasts gathers the first `n + 1`
/// as well when the next forecast is for another date.
proof fn lemma_day_unchanged(day: DayView, entries: Seq<EntryView>, n: int)
    requires
        0 <= n < entries.len(),
        day_covers(day, entries, n),
        entries[n].date != day.date,
    ensures
        day_covers(day, entries, n + 1),
{
    assert forall|i: int|
        0 <= i < n + 1 && (#[trigger] entries[i]).date == day.date implies day.entries.contains(
        i as usize,
    ) by {
        assert(i < n);
    }
}

/// A day that gathers the first `n` forecasts gathers the first `n + 1`
/// once the next forecast, which is for its date, is added to it: its
/// place behind the others, and the weather that it names among the
/// kinds of weather.
proof fn lemma_day_extended(
    day: DayView,
    grown: DayView,
    entries: Seq<EntryView>,
    n: int,
)
    requires
        0 <= n < entries.len(),
        n <= usize::MAX,
        day_covers(day, entries, n),
        entries[n].date == day.date,
        grown.date == day.date,
        grown.weekday == day.weekday,
        grown.entries == day.entries.push(n as usize),
        strictly_sorted(grown.descriptions),
        forall|t: Seq<char>|
            grown.descriptions.contains(t) <==> (day.descriptions.contains(t) || names_weather(
                entries[n],
                t,
            )),
    ensures
        day_covers(grown, entries, n + 1),
{
    let last = day.entries.len() as int;
    assert(grown.entries[last] == n as usize);
    assert forall|a: int, b: int| 0 <= a < b < grown.entries.len() implies (
    #[trigger] grown.entries[a]) < (#[trigger] grown.entries[b]) by {
        assert(grown.entries[a] == day.entries[a]);
        if b < last {
            assert(grown.entries[b] == day.entries[b]);
        }
    }
    assert forall|a: int| 0 <= a < grown.entries.len() implies (#[trigger] grown.entries[a]) < n
        + 1 && entries[grown.entries[a] as int].date == grown.date by {
        if a < last {
            assert(grown.entries[a] == day.entries[a]);
        }
    }
    assert forall|i: int|
        0 <= i < n + 1 && (#[trigger] entries[i]).date == grown.date implies grown.entries.contains(
        i as usize,
    ) by {
        if i < n {
            assert(day.entries.contains(i as usize));
            let k = choose|k: int| 0 <= k < day.entries.len() && day.entries[k] == i as usize;
            assert(grown.entries[k] == i as usize);
        } else {
            assert(grown.entries[last] == i as usize);
        }
    }
    assert(grown.entries[0] == day.entries[0]);
    assert forall|t: Seq<char>| grown.descriptions.contains(t) <==> described(
        entries,
        grown.entries,
        t,
    ) by {
        if described(entries, day.entries, t) {
            let a = choose|a: int|
                0 <= a < day.entries.len() && names_weather(
                    entries[(#[trigger] day.entries[a]) as int],
                    t,
                );
            assert(grown.entries[a] == day.entries[a]);
            assert(described(entries, grown.entries, t));
        }
        if names_weather(entries[n], t) {
            assert(names_weather(entries[grown.entries[last] as int], t));
            assert(described(entries, grown.entries, t));
        }
        if described(entries, grown.entries, t) {
            let a = choose|a: int|
                0 <= a < grown.entries.len() && names_weather(
                    entries[(#[trigger] grown.entries[a]) as int],
                    t,
                );
            if a < last {
                assert(grown.entries[a] == day.entries[a]);
                assert(described(entries, day.entries, t));
            }
        }
    }
}

/// The forecast at place `n`, alone, makes a day that gathers the first
/// `n + 1` forecasts when none of the first `n` is for its date.
proof fn lemma_day_new(fresh: DayView, entries: Seq<EntryView>, n: int)
    requires
        0 <= n < entries.len(),
        n <= usize::MAX,
        forall|i: int| 0 <= i < n ==> (#[trigger] entries[i]).date != entries[n].date,
        fresh.date == entries[n].date,
        fresh.weekday == entries[n].weekday,
        fresh.entries == seq![n as usize],
        fresh.descriptions == match entries[n].description {
            Some(d) => seq![capitalized(d)],
            None => Seq::<Seq<char>>::empty(),
        },
    ensures
        day_covers(fresh, entries, n + 1),
{
    assert(fresh.entries[0] == n as usize);
    assert forall|i: int|
        0 <= i < n + 1 && (#[trigger] entries[i]).date == fresh.date implies fresh.entries.contains(
        i as usize,
    ) by {
        assert(i == n);
    }
    assert forall|t: Seq<char>| fresh.descriptions.contains(t) <==> described(
        entries,
        fresh.entries,
        t,
    ) by {
        if fresh.descriptions.contains(t) {
            assert(names_weather(entries[fresh.entries[0] as int], t));
        }
        if described(entries, fresh.entries, t) {
            let a = choose|a: int|
                0 <= a < fresh.entries.len() && names_weather(
                    entries[(#[trigger] fresh.entries[a]) as int],
                    t,
                );
            assert(a == 0);
            assert(fresh.descriptions[0] == t);
        }
    }
}

/// The place of a date among the days: that of the first day whose date
/// does not come before it.
fn find_place(days: &Vec<DayForecast>, date: &str) -> (p: usize)
    ensures
        p <= days.len(),
        forall|k: int| 0 <= k < p ==> text_less(#[trigger] dates_of(days_view(days@))[k], date@),
        p < days.len() ==> !text_less(dates_of(days_view(days@))[p as int], date@),
{
    let ghost dates = dates_of(days_view(days@));
    let mut p: usize = 0;
    while p < days.len() && comes_before(days[p].date.as_str(), date)
        invariant
            p <= days.len(),
            dates == dates_of(days_view(days@)),
            forall|k: int| 0 <= k < p ==> text_less(#[trigger] dates[k], date@),
        ensures
            p < days.len() ==> !text_less(dates[p as int], date@),
        decreases days.len() - p,
    {
        assert(dates[p as int] == days[p as int].date@);
        p += 1;
    }
    if p < days.len() {
        assert(dates[p as int] == days[p as int].date@);
    }
    p
}

/// Adds the forecast at place `i` to the day at place `p`, which has its
/// date.
fn add_to_day(days: &mut Vec<DayForecast>, p: usize, entries: &Vec<ForecastEntry>, i: usize)
    requires
        i < entries.len(),
        p < old(days).len(),
        old(days)[p as int].date@ == entries[i as int].date@,
        days_cover(days_view(old(days)@), entries_view(entries@), i as int),
    ensures
        days_cover(days_view(final(days)@), entries_view(entries@), i + 1),
{
    let ghost es = entries_view(entries@);
    let ghost before = days_view(days@);
    let ghost dates = dates_of(before);
    let entry = &entries[i];
    assert(es[i as int] == entry@);
    assert(before[p as int] == days[p as int]@);
    let mut day = days.remove(p);
    let ghost old_day = day@;
    assert(day_covers(old_day, es, i as int));
    day.entries.push(i);
    match &entry.description {
        Some(d) => {
            insert_sorted(&mut day.descriptions, capitalize_first_letter(d.as_str()));
        },
        None => {},
    }
    proof {
        lemma_day_extended(old_day, day@, es, i as int);
    }
    let ghost grown = day@;
    days.insert(p, day);
    proof {
        let after = days_view(days@);
        assert(after =~= before.update(p as int, grown));
        assert(dates_of(after) =~= dates);
        lemma_text_less_irreflexive(entry.date@);
        assert(dates[p as int] == before[p as int].date);
        assert forall|k: int| 0 <= k < after.len() implies day_covers(
            #[trigger] after[k],
            es,
            i + 1,
        ) by {
            if k != p {
                assert(after[k] == before[k]);
                assert(dates[k] == before[k].date);
                if k < p {
                    assert(text_less(dates[k], dates[p as int]));
                } else {
                    assert(text_less(dates[p as int], dates[k]));
                }
                lemma_day_unchanged(before[k], es, i as int);
            }
        }
        assert forall|j: int| 0 <= j < i + 1 implies dates_of(after).contains(
            (#[trigger] es[j]).date,
        ) by {
            if j == i {
                assert(dates[p as int] == es[j].date);
            }
        }
    }
}

/// Opens a day for the forecast at place `i`, whose date no day has, at
/// the place `p` that keeps the days in the order of their dates.
fn add_new_day(days: &mut Vec<DayForecast>, p: usize, entries: &Vec<ForecastEntry>, i: usize)
    requires
        i < entries.len(),
        p <= old(days).len(),
        forall|k: int|
            0 <= k < p ==> text_less(
                #[trigger] dates_of(days_view(old(days)@))[k],
                entries[i as int].date@,
            ),
        forall|k: int|
            p <= k < old(days).len() ==> text_less(
                entries[i as int].date@,
                #[trigger] dates_of(days_view(old(days)@))[k],
            ),
        days_cover(days_view(old(days)@), entries_view(entries@), i as int),
    ensures
        days_cover(days_view(final(days)@), entries_view(entries@), i + 1),
{
    let ghost es = entries_view(entries@);
    let ghost before = days_view(days@);
    let ghost dates = dates_of(before);
    let entry = &entries[i];
    assert(es[i as int] == entry@);
    proof {
        lemma_text_less_irreflexive(entry.date@);
        assert forall|j: int| 0 <= j < i implies (#[trigger] es[j]).date != entry.date@ by {
            if es[j].date == entry.date@ {
                assert(dates.contains(es[j].date));
                let k = choose|k: int| 0 <= k < dates.len() && dates[k] == es[j].date;
                assert(text_less(dates[k], entry.date@) || text_less(entry.date@, dates[k]));
            }
        }
    }
    let mut descriptions: Vec<String> = Vec::new();
    match &entry.description {
        Some(d) => {
            descriptions.push(capitalize_first_letter(d.as_str()));
        },
        None => {},
    }
    let mut picks: Vec<usize> = Vec::new();
    picks.push(i);
    let fresh = DayForecast {
        date: entry.date.clone(),
        weekday: entry.weekday,
        entries: picks,
        descriptions,
    };
    let ghost opened = fresh@;
    proof {
        assert(opened.entries =~= seq![i]);
        assert(opened.descriptions =~= match es[i as int].description {
            Some(d) => seq![capitalized(d)],
            None => Seq::<Seq<char>>::empty(),
        });
        lemma_day_new(opened, es, i as int);
    }
    days.insert(p, fresh);
    proof {
        let after = days_view(days@);
        assert(after =~= before.insert(p as int, opened));
        let new_dates = dates_of(after);
        assert(new_dates =~= dates.insert(p as int, entry.date@));
        assert forall|a: int, b: int| 0 <= a < b < new_dates.len() implies text_less(
            new_dates[a],
            new_dates[b],
        ) by {
            if b < p {
                assert(new_dates[a] == dates[a] && new_dates[b] == dates[b]);
            } else if b == p {
                assert(new_dates[a] == dates[a]);
            } else if a < p {
                assert(new_dates[a] == dates[a] && new_dates[b] == dates[b - 1]);
                lemma_text_less_transitive(dates[a], entry.date@, dates[b - 1]);
            } else if a == p {
                assert(new_dates[b] == dates[b - 1]);
            } else {
                assert(new_dates[a] == dates[a - 1] && new_dates[b] == dates[b - 1]);
            }
        }
        assert forall|k: int| 0 <= k < after.len() implies day_covers(
            #[trigger] after[k],
            es,
            i + 1,
        ) by {
            if k != p {
                let m = if k < p {
                    k
                } else {
                    k - 1
                };
                assert(after[k] == before[m]);
                assert(dates[m] == before[m].date);
                assert(text_less(dates[m], entry.date@) || text_less(entry.date@, dates[m]));
                lemma_day_unchanged(before[m], es, i as int);
            }
        }
        assert forall|j: int| 0 <= j < i + 1 implies new_dates.contains(
            (#[trigger] es[j]).date,
        ) by {
            if j == i {
                assert(new_dates[p as int] == es[j].date);
            } else {
                assert(dates.contains(es[j].date));
                let k = choose|k: int| 0 <= k < dates.len() && dates[k] == es[j].date;
                if k < p {
                    assert(new_dates[k] == dates[k]);
                } else {
                    assert(new_dates[k + 1] == dates[k]);
                }
            }
        }
    }
}

/// Gathers the forecasts day by day. The days come out in the order of
/// their dates, one for each date that a forecast is for. Each day holds
/// the places of the forecasts of its date, in the order of the list, the
/// day of the week of the first of them, and the kinds of weather that
/// they name, first letter in upper case, in the order of texts and each
/// once.
pub fn gather_days(entries: &Vec<ForecastEntry>) -> (days: Vec<DayForecast>)
    ensures
        days_cover(days_view(days@), entries_view(entries@), entries.len() as int),
{
    let mut days: Vec<DayForecast> = Vec::new();
    let mut i: usize = 0;
    assert(dates_of(days_view(days@)) =~= Seq::empty());
    while i < entries.len()
        invariant
            i <= entries.len(),
            days_cover(days_view(days@), entries_view(entries@), i as int),
        decreases entries.len() - i,
    {
        let entry = &entries[i];
        let ghost dates = dates_of(days_view(days@));
        let p = find_place(&days, entry.date.as_str());
        if p < days.len() && days[p].date == entry.date {
            add_to_day(&mut days, p, entries, i);
        } else {
            proof {
                if p < days.len() {
                    assert(dates[p as int] == days[p as int].date@);
                    lemma_text_less_total(dates[p as int], entry.date@);
                }
                assert forall|k: int| p <= k < dates.len() implies text_less(
                    entry.date@,
                    #[trigger] dates[k],
                ) by {
                    if k > p {
                        lemma_text_less_transitive(entry.date@, dates[p as int], dates[k]);
                    }
                }
            }
            add_new_day(&mut days, p, entries, i);
        }
        i += 1;
    }
    days
}

/// The name of Monday.
pub const DAY_MON: &'static str = "Понедельник";

/// The name of Tuesday.
pub const DAY_TUE: &'static str = "Вторник";

/// The name of Wednesday.
pub const DAY_WED: &'static str = "Среда";

/// The name of Thursday.
pub const DAY_THU: &'static str = "Четверг";

/// The name of Friday.
pub const DAY_FRI: &'static str = "Пятница";

/// The name of Saturday.
pub const DAY_SAT: &'static str = "Суббота";

/// The name of Sunday.
pub const DAY_SUN: &'static str = "Воскресенье";

/// Opens the heading of a day.
pub const HEADING_OPEN: &'static str = "*";

/// Stands between the name of the day and its date.
pub const HEADING_MIDDLE: &'static str = ", ";

/// Closes the heading of a day.
pub const HEADING_CLOSE: &'static str = "*:\n";

/// Opens the line of the kinds of weather.
pub const KINDS_OPEN: &'static str = "🌤 Погода: ";

/// Closes the line of the kinds of weather.
pub const KINDS_CLOSE: &'static str = "\n\n";

/// Stands between two kinds of weather.
pub const KINDS_BETWEEN: &'static str = ", ";

/// Stands between the day and the month of a short date.
pub const DATE_BETWEEN: &'static str = ".";

/// What is said when the service sent no forecast.
pub const NO_FORECAST: &'static str = "Нет данных о прогнозе";

/// The name of a day of the week.
pub open spec fn day_name(day: Weekday) -> Seq<char> {
    match day {
        Weekday::Mon => DAY_MON@,
        Weekday::Tue => DAY_TUE@,
        Weekday::Wed => DAY_WED@,
        Weekday::Thu => DAY_THU@,
        Weekday::Fri => DAY_FRI@,
        Weekday::Sat => DAY_SAT@,
        Weekday::Sun => DAY_SUN@,
    }
}

/// The name of a day of the week.
pub fn get_day_name(day: Weekday) -> (name: &'static str)
    ensures
        name@ == day_name(day),
{
    match day {
        Weekday::Mon => DAY_MON,
        Weekday::Tue => DAY_TUE,
        Weekday::Wed => DAY_WED,
        Weekday::Thu => DAY_THU,
        Weekday::Fri => DAY_FRI,
        Weekday::Sat => DAY_SAT,
        Weekday::Sun => DAY_SUN,
    }
}

/// The text can be cut behind its tenth byte: it has ten bytes, and the
/// tenth ends a character.
pub open spec fn has_date_prefix(text: Seq<char>) -> bool {
    encode_utf8(text).len() >= 10 && is_char_boundary(encode_utf8(text), 10)
}

/// The date that a forecast is filed under: the first ten bytes of the
/// service's text for its moment, where the text can be cut there, and
/// else the date of the moment as chrono writes it.
pub open spec fn is_date_of(date: Seq<char>, timestamp: int, text: Seq<char>) -> bool {
    if has_date_prefix(text) {
        encode_utf8(date) == encode_utf8(text).subrange(0, 10)
    } else {
        date == utc_date(timestamp)
    }
}

/// Makes the entry of a forecast from the moment that it is for, in
/// seconds since the start of 1970, the service's text for that moment, and
/// the service's words for the weather. A forecast for a moment that
/// chrono cannot hold has no entry.
pub fn forecast_entry(timestamp: i64, text: &str, description: Option<String>) -> (entry: Option<
    ForecastEntry,
>)
    ensures
        entry is Some <==> utc_known(timestamp as int),
        entry matches Some(e) ==> {
            &&& is_date_of(e.date@, timestamp as int, text@)
            &&& e.weekday == utc_weekday(timestamp as int)
            &&& opt_view(e.description) == opt_view(description)
        },
{
    match utc_moment(timestamp) {
        Some(moment) => {
            let date = if text.as_bytes().len() >= 10 && text.is_char_boundary(10) {
                let (front, _) = text.split_at(10);
                let date = String::from_str(front);
                assert(encode_utf8(date@) == encode_utf8(text@).subrange(0, 10)) by {
                    assert(front.spec_bytes() == encode_utf8(front@));
                    assert(text.spec_bytes() == encode_utf8(text@));
                }
                date
            } else {
                assert(!has_date_prefix(text@)) by {
                    assert(text.spec_bytes() == encode_utf8(text@));
                }
                moment.date
            };
            Some(ForecastEntry { date, weekday: moment.weekday, description })
        },
        None => None,
    }
}

/// The parts of a text between the separators. Reading the characters in
/// order, a separator closes the part in hand and opens an empty one, and
/// every other character goes to the part in hand: a text with `n`
/// separators has `n + 1` parts, empty ones among them.
pub open spec fn split(s: Seq<char>, sep: char) -> Seq<Seq<char>>
    decreases s.len(),
{
    if s.len() == 0 {
        seq![Seq::empty()]
    } else {
        let parts = split(s.drop_last(), sep);
        if s.last() == sep {
            parts.push(Seq::empty())
        } else {
            parts.drop_last().push(parts.last().push(s.last()))
        }
    }
}

/// A text always has a part.
pub proof fn lemma_split_has_parts(s: Seq<char>, sep: char)
    ensures
        split(s, sep).len() >= 1,
    decreases s.len(),
{
    if s.len() > 0 {
        lemma_split_has_parts(s.drop_last(), sep);
    }
}

/// The parts of a text between the separators.
pub fn split_text(s: &str, sep: char) -> (parts: Vec<String>)
    ensures
        texts_of(parts@) == split(s@, sep),
{
    let mut parts: Vec<String> = Vec::new();
    let mut current = String::new();
    assert(s@.take(0) =~= Seq::<char>::empty());
    assert(texts_of(parts@).push(current@) =~= split(s@.take(0), sep));
    for ch in it: s.chars()
        invariant
            it.seq() == s@,
            texts_of(parts@).push(current@) == split(s@.take(it.index() as int), sep),
    {
        let ghost upto = s@.take(it.index() + 1);
        let ghost closed = texts_of(parts@);
        let ghost open = current@;
        assert(upto.drop_last() =~= s@.take(it.index() as int));
        assert(upto.last() == ch);
        assert(closed.push(open).drop_last() =~= closed);
        if ch == sep {
            parts.push(current);
            current = String::new();
            assert(texts_of(parts@) =~= closed.push(open));
        } else {
            current.push(ch);
        }
        assert(texts_of(parts@).push(current@) =~= split(upto, sep));
    }
    assert(s@.take(s@.len() as int) =~= s@);
    let ghost closed = texts_of(parts@);
    parts.push(current);
    assert(texts_of(parts@) =~= closed.push(current@));
    parts
}

/// A date with the day before the month: of a text whose parts between
/// hyphens are three or more, the third part, a dot and the second part;
/// any other text as it is.
pub open spec fn short_date(date: Seq<char>) -> Seq<char> {
    let parts = split(date, '-');
    if parts.len() >= 3 {
        parts[2] + DATE_BETWEEN@ + parts[1]
    } else {
        date
    }
}

/// Writes a date with the day before the month.
pub fn shorten_date(date: &str) -> (short: String)
    ensures
        short@ == short_date(date@),
{
    let parts = split_text(date, '-');
    if parts.len() >= 3 {
        assert(texts_of(parts@)[2] == parts[2]@);
        assert(texts_of(parts@)[1] == parts[1]@);
        let mut short = String::from_str(parts[2].as_str());
        short.append(DATE_BETWEEN);
        short.append(parts[1].as_str());
        short
    } else {
        String::from_str(date)
    }
}

/// The texts in a row, with the separator between each two.
pub open spec fn joined(texts: Seq<Seq<char>>, sep: Seq<char>) -> Seq<char>
    decreases texts.len(),
{
    if texts.len() == 0 {
        Seq::empty()
    } else if texts.len() == 1 {
        texts[0]
    } else {
        joined(texts.drop_last(), sep) + sep + texts.last()
    }
}

/// Writes the texts in a row, with the separator between each two.
pub fn join_texts(texts: &Vec<String>, sep: &str) -> (row: String)
    ensures
        row@ == joined(texts_of(texts@), sep@),
{
    let ghost all = texts_of(texts@);
    let mut row = String::new();
    let mut i: usize = 0;
    assert(all.take(0) =~= Seq::<Seq<char>>::empty());
    while i < texts.len()
        invariant
            i <= texts.len(),
            all == texts_of(texts@),
            row@ == joined(all.take(i as int), sep@),
        decreases texts.len() - i,
    {
        let ghost upto = all.take(i + 1);
        assert(upto.drop_last() =~= all.take(i as int));
        assert(upto.last() == texts[i as int]@);
        if i > 0 {
            row.append(sep);
        }
        row.append(texts[i].as_str());
        assert(row@ =~= joined(upto, sep@)) by {
            if i == 0 {
                assert(joined(all.take(0), sep@) =~= Seq::<char>::empty());
                assert(upto[0] == upto.last());
            }
        }
        i += 1;
    }
    assert(all.take(texts.len() as int) =~= all);
    row
}

/// The heading of a day: its name and its date, day before month.
pub open spec fn day_heading(day: DayView) -> Seq<char> {
    HEADING_OPEN@ + day_name(day.weekday) + HEADING_MIDDLE@ + short_date(day.date)
        + HEADING_CLOSE@
}

/// The line that names the kinds of weather of a day.
pub open spec fn kinds_line(day: DayView) -> Seq<char> {
    KINDS_OPEN@ + joined(day.descriptions, KINDS_BETWEEN@) + KINDS_CLOSE@
}

/// Writes the heading of a day.
pub fn get_day_heading(day: &DayForecast) -> (line: String)
    ensures
        line@ == day_heading(day@),
{
    let mut line = String::from_str(HEADING_OPEN);
    line.append(get_day_name(day.weekday));
    line.append(HEADING_MIDDLE);
    line.append(shorten_date(day.date.as_str()).as_str());
    line.append(HEADING_CLOSE);
    line
}

/// Writes the line that names the kinds of weather of a day.
pub fn get_kinds_line(day: &DayForecast) -> (line: String)
    ensures
        line@ == kinds_line(day@),
{
    let mut line = String::from_str(KINDS_OPEN);
    line.append(join_texts(&day.descriptions, KINDS_BETWEEN).as_str());
    line.append(KINDS_CLOSE);
    line
}

} // verus!
