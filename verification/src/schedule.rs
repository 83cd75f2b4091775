//! Feeding occasions and the schedule that holds them.

use crate::timestamp::{Instant, Timestamp};
use crate::weekday::Weekday;
use vstd::prelude::*;

verus! {

/// A recurring feeding: a time of day, the weekdays on which it applies and how long each
/// servo stays open, in milliseconds. Of `time` only the hour and the minute are read.
pub struct Occasion {
    pub time: Timestamp,
    pub enabled_weekdays: Vec<Weekday>,
    pub opened_time_servo1: u64,
    pub opened_time_servo2: u64,
}

/// The mathematical content of an [`Occasion`].
pub struct OccasionView {
    pub time: Instant,
    pub enabled_weekdays: Seq<Weekday>,
    pub opened_time_servo1: u64,
    pub opened_time_servo2: u64,
}

impl OccasionView {
    /// Whether the occasion applies on a weekday.
    pub open spec fn is_enabled(self, weekday: Weekday) -> bool {
        self.enabled_weekdays.contains(weekday)
    }

    /// The weekdays on which the occasion applies, without order or repetition.
    pub open spec fn weekday_set(self) -> Set<Weekday> {
        self.enabled_weekdays.to_set()
    }

    /// Whether the occasion is due at a point in time: it applies on that weekday, and its hour
    /// and minute are those of the point in time.
    pub open spec fn matches_at(self, now: Instant) -> bool {
        &&& self.is_enabled(now.weekday())
        &&& self.time.hour() == now.hour()
        &&& self.time.minute() == now.minute()
    }
}

impl View for Occasion {
    type V = OccasionView;

    open spec fn view(&self) -> OccasionView {
        OccasionView {
            time: self.time@,
            enabled_weekdays: self.enabled_weekdays@,
            opened_time_servo1: self.opened_time_servo1,
            opened_time_servo2: self.opened_time_servo2,
        }
    }
}

impl Occasion {
    /// Whether the occasion applies on a weekday.
    pub fn is_enabled(&self, weekday: Weekday) -> (enabled: bool)
        ensures
            enabled == self@.is_enabled(weekday),
    {
        let mut i: usize = 0;
        while i < self.enabled_weekdays.len()
            invariant
                i <= self.enabled_weekdays.len(),
                forall|j: int| 0 <= j < i ==> self.enabled_weekdays@[j] != weekday,
            decreases self.enabled_weekdays.len() - i,
        {
            if self.enabled_weekdays[i] == weekday {
                return true;
            }
            i += 1;
        }
        false
    }

    /// Whether the occasion is due at a point in time.
    pub fn matches_at(&self, now: Timestamp) -> (due: bool)
        ensures
            due == self@.matches_at(now@),
    {
        self.is_enabled(now.weekday()) && self.time.hour() == now.hour() && self.time.minute()
            == now.minute()
    }
}

/// The contents of a sequence of occasions.
pub open spec fn occasion_views(occasions: Seq<Occasion>) -> Seq<OccasionView> {
    occasions.map_values(|o: Occasion| o@)
}

/// The test that picks the occasions that apply on a weekday.
pub open spec fn enabled_on(weekday: Weekday) -> spec_fn(OccasionView) -> bool {
    |o: OccasionView| o.is_enabled(weekday)
}

/// How many occasions of a sequence apply on a weekday.
pub open spec fn active_count(occasions: Seq<OccasionView>, weekday: Weekday) -> nat {
    occasions.filter(enabled_on(weekday)).len()
}

/// Whether position `i` holds the first occasion that is due at `now`.
pub open spec fn is_first_match(occasions: Seq<OccasionView>, now: Instant, i: int) -> bool {
    &&& 0 <= i < occasions.len()
    &&& occasions[i].matches_at(now)
    &&& forall|j: int| 0 <= j < i ==> !(#[trigger] occasions[j]).matches_at(now)
}

/// The position of the first occasion that is due at `now`, if any is.
pub open spec fn first_match(occasions: Seq<OccasionView>, now: Instant) -> Option<int> {
    if exists|i: int| is_first_match(occasions, now, i) {
        Some(choose|i: int| is_first_match(occasions, now, i))
    } else {
        None
    }
}

/// The first occasion that is due at `now`, if any is.
pub open spec fn matched(occasions: Seq<OccasionView>, now: Instant) -> Option<OccasionView> {
    match first_match(occasions, now) {
        Some(i) => Some(occasions[i]),
        None => None,
    }
}

/// The share of a total that each of `active` occasions gets: the quotient, rounded down.
pub open spec fn budget_share(total: int, active: int) -> int {
    total / active
}

/// An ordered list of occasions. The first one that is due wins.
pub struct Schedule {
    times: Vec<Occasion>,
}

impl View for Schedule {
    type V = Seq<OccasionView>;

    closed spec fn view(&self) -> Seq<OccasionView> {
        occasion_views(self.times@)
    }
}

impl Schedule {
    /// An empty schedule, at which nothing is ever due.
    pub fn new() -> (schedule: Schedule)
        ensures
            schedule@ == Seq::<OccasionView>::empty(),
    {
        let schedule = Schedule { times: Vec::<Occasion>::new() };
        assert(schedule@ =~= Seq::<OccasionView>::empty());
        schedule
    }

    /// Appends an occasion. Nothing is checked: any occasion is accepted.
    pub fn push(&mut self, time: Occasion)
        ensures
            final(self)@ == old(self)@.push(time@),
    {
        self.times.push(time);
        assert(self@ =~= old(self)@.push(time@));
    }

    /// Appends occasions in their order. Nothing is checked.
    pub fn extend(&mut self, occasions: Vec<Occasion>)
        ensures
            final(self)@ == old(self)@ + occasion_views(occasions@),
    {
        let mut rest = occasions;
        self.times.append(&mut rest);
        assert(self@ =~= old(self)@ + occasion_views(occasions@));
    }

    /// The number of occasions.
    pub fn len(&self) -> (n: usize)
        ensures
            n == self@.len(),
    {
        self.times.len()
    }

    /// The position of the first occasion that is due at `time`, if any is.
    pub fn position(&self, time: Timestamp) -> (found: Option<usize>)
        ensures
            match found {
                Some(i) => first_match(self@, time@) == Some(i as int),
                None => first_match(self@, time@) is None,
            },
            found matches Some(i) ==> is_first_match(self@, time@, i as int),
            found is None <==> forall|i: int|
                0 <= i < self@.len() ==> !(#[trigger] self@[i]).matches_at(time@),
    {
        let mut i: usize = 0;
        while i < self.times.len()
            invariant
                i <= self.times.len(),
                self@ == occasion_views(self.times@),
                forall|j: int| 0 <= j < i ==> !(#[trigger] self@[j]).matches_at(time@),
            decreases self.times.len() - i,
        {
            if self.times[i].matches_at(time) {
                proof {
                    lemma_first_match_is(self@, time@, i as int);
                }
                return Some(i);
            }
            i += 1;
        }
        proof {
            lemma_no_match(self@, time@);
        }
        None
    }

    /// The first occasion that is due at `time`: it applies on the weekday of `time` and has
    /// its hour and minute. Seconds and the date play no part.
    pub fn contains(&self, time: Timestamp) -> (found: Option<&Occasion>)
        ensures
            match found {
                Some(o) => matched(self@, time@) == Some(o@),
                None => matched(self@, time@) is None,
            },
            found matches Some(o) ==> o@.matches_at(time@) && exists|i: int|
                is_first_match(self@, time@, i) && self@[i] == o@,
            found is None <==> forall|i: int|
                0 <= i < self@.len() ==> !(#[trigger] self@[i]).matches_at(time@),
    {
        match self.position(time) {
            Some(i) => {
                proof {
                    lemma_first_match_is_due(self@, time@);
                }
                Some(&self.times[i])
            },
            None => None,
        }
    }

    /// The occasions, in the order in which they were added.
    pub fn get_times(&self) -> (times: &Vec<Occasion>)
        ensures
            occasion_views(times@) == self@,
    {
        &self.times
    }

    /// How many occasions apply on a weekday.
    pub fn count_active(&self, weekday: Weekday) -> (count: usize)
        ensures
            count == active_count(self@, weekday),
    {
        let mut count: usize = 0;
        let mut i: usize = 0;
        assert(self@.take(0) =~= Seq::<OccasionView>::empty());
        proof {
            reveal(Seq::filter);
        }
        while i < self.times.len()
            invariant
                i <= self.times.len(),
                self@ == occasion_views(self.times@),
                count <= i,
                count == active_count(self@.take(i as int), weekday),
            decreases self.times.len() - i,
        {
            proof {
                assert(self@.take(i + 1) =~= self@.take(i as int).push(self@[i as int]));
                self@.take(i as int).lemma_filter_len_push(enabled_on(weekday), self@[i as int]);
            }
            if self.times[i].is_enabled(weekday) {
                count += 1;
            }
            i += 1;
        }
        assert(self@.take(i as int) =~= self@);
        count
    }
}

/// The share of a total open time that each of `active` occasions of a day gets: the quotient,
/// rounded down. The caller sees to it that some occasion is active.
pub fn split_budget(total: u64, active: usize) -> (share: u64)
    requires
        active > 0,
    ensures
        share == budget_share(total as int, active as int),
        share * active <= total < (share + 1) * active,
{
    proof {
        lemma_budget_share_floor(total as int, active as int);
    }
    total / (active as u64)
}

/// A share is the largest number that fits into the total as often as there are occasions.
pub proof fn lemma_budget_share_floor(total: int, active: int)
    requires
        0 <= total,
        0 < active,
    ensures
        0 <= budget_share(total, active) <= total,
        budget_share(total, active) * active <= total < (budget_share(total, active) + 1)
            * active,
{
    vstd::arithmetic::div_mod::lemma_fundamental_div_mod(total, active);
    vstd::arithmetic::div_mod::lemma_mod_bound(total, active);
    vstd::arithmetic::div_mod::lemma_div_pos_is_pos(total, active);
    vstd::arithmetic::div_mod::lemma_div_is_ordered_by_denominator(total, 1, active);
    let q = total / active;
    assert(active * q == q * active) by (nonlinear_arith);
    assert((q + 1) * active == q * active + active) by (nonlinear_arith);
}

/// At an empty schedule nothing is ever due.
pub proof fn lemma_empty_schedule_never_matches(now: Instant)
    ensures
        first_match(Seq::<OccasionView>::empty(), now) is None,
        matched(Seq::<OccasionView>::empty(), now) is None,
{
}

/// A position that is due, with none due before it, is the first match.
pub proof fn lemma_first_match_is(occasions: Seq<OccasionView>, now: Instant, i: int)
    requires
        is_first_match(occasions, now, i),
    ensures
        first_match(occasions, now) == Some(i),
{
    let c = choose|c: int| is_first_match(occasions, now, c);
    assert(is_first_match(occasions, now, c));
    if c < i {
        assert(!occasions[c].matches_at(now));
    }
    if i < c {
        assert(!occasions[i].matches_at(now));
    }
}

/// Where no occasion is due there is no first match.
pub proof fn lemma_no_match(occasions: Seq<OccasionView>, now: Instant)
    requires
        forall|j: int| 0 <= j < occasions.len() ==> !(#[trigger] occasions[j]).matches_at(now),
    ensures
        first_match(occasions, now) is None,
{
}

/// The first match is a position of the schedule whose occasion is due, and no occasion
/// before it is.
pub proof fn lemma_first_match_is_due(occasions: Seq<OccasionView>, now: Instant)
    ensures
        first_match(occasions, now) matches Some(i) ==> is_first_match(occasions, now, i),
        first_match(occasions, now) is None ==> forall|j: int|
            0 <= j < occasions.len() ==> !(#[trigger] occasions[j]).matches_at(now),
{
    if first_match(occasions, now) is None {
        assert forall|j: int| 0 <= j < occasions.len() implies !(
            #[trigger] occasions[j]
        ).matches_at(now) by {
            if occasions[j].matches_at(now) {
                lemma_some_match_before(occasions, now, j);
            }
        }
    }
}

/// Where an occasion is due, one at or before its position is the first that is due.
pub proof fn lemma_some_match_before(occasions: Seq<OccasionView>, now: Instant, j: int)
    requires
        0 <= j < occasions.len(),
        occasions[j].matches_at(now),
    ensures
        exists|i: int| 0 <= i <= j && is_first_match(occasions, now, i),
    decreases j,
{
    if exists|k: int| 0 <= k < j && (#[trigger] occasions[k]).matches_at(now) {
        let k = choose|k: int| 0 <= k < j && (#[trigger] occasions[k]).matches_at(now);
        lemma_some_match_before(occasions, now, k);
    } else {
        assert(is_first_match(occasions, now, j));
    }
}

/// What is due at a point in time depends on nothing but its weekday, hour and minute: two
/// points in time that agree in these, whatever their seconds and dates, find the same occasion.
pub proof fn lemma_match_reads_weekday_hour_minute(
    occasions: Seq<OccasionView>,
    first: Instant,
    second: Instant,
)
    requires
        first.weekday() == second.weekday(),
        first.hour() == second.hour(),
        first.minute() == second.minute(),
    ensures
        first_match(occasions, first) == first_match(occasions, second),
        matched(occasions, first) == matched(occasions, second),
{
    lemma_first_match_is_due(occasions, first);
    lemma_first_match_is_due(occasions, second);
    assert forall|i: int| is_first_match(occasions, first, i) == is_first_match(
        occasions,
        second,
        i,
    ) by {
        assert forall|j: int| 0 <= j < occasions.len() implies (#[trigger] occasions[j]).matches_at(
            first,
        ) == occasions[j].matches_at(second) by {}
    }
    match first_match(occasions, first) {
        Some(i) => {
            lemma_first_match_is(occasions, second, i);
        },
        None => {
            lemma_no_match(occasions, second);
        },
    }
}

/// An occasion is found only where it applies on the weekday and has the hour and the minute
/// of the point in time.
pub proof fn lemma_match_is_due(occasions: Seq<OccasionView>, now: Instant)
    ensures
        matched(occasions, now) matches Some(o) ==> {
            &&& o.enabled_weekdays.contains(now.weekday())
            &&& o.time.hour() == now.hour()
            &&& o.time.minute() == now.minute()
            &&& occasions.contains(o)
        },
{
    lemma_first_match_is_due(occasions, now);
}

/// On a weekday on which an occasion is due, at least one occasion is active, so a budget
/// can be split among the active ones.
pub proof fn lemma_match_is_active(occasions: Seq<OccasionView>, now: Instant)
    requires
        first_match(occasions, now) is Some,
    ensures
        active_count(occasions, now.weekday()) > 0,
{
    lemma_first_match_is_due(occasions, now);
    let i = first_match(occasions, now)->0;
    let pred = enabled_on(now.weekday());
    assert(pred(occasions[i]));
    occasions.lemma_filter_contains(pred, i);
    let filtered = occasions.filter(pred);
    assert(filtered.contains(occasions[i]));
}

} // verus!
