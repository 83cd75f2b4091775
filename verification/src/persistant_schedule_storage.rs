//! The records in which a schedule is kept between runs, and the conversion between a
//! schedule and its records. Turning records into the text of a file and back is left to
//! the program that owns the file.

use crate::schedule::{occasion_views, Occasion, OccasionView, Schedule};
use crate::timestamp::{instant_of_text, Instant, Timestamp};
use crate::weekday::Weekday;
use vstd::prelude::*;

verus! {

/// The name of the file in which the feeder keeps its schedule.
pub const SCHEDULE_FILE_NAME: &'static str = "schedule.json";

/// One occasion as it is kept in the file.
pub struct PersistedSchedule {
    /// Reserved. Written as `true`, not read.
    pub enabled: bool,
    /// The time in RFC 3339 form. Only its hour and minute matter when it is read back.
    pub time: String,
    /// Weekday codes, 1 for Monday to 7 for Sunday.
    pub enabled_weekdays: Vec<u32>,
    /// Milliseconds that the first servo stays open.
    pub opened_time_servo1: u64,
    /// Milliseconds that the second servo stays open.
    pub opened_time_servo2: u64,
}

/// The mathematical content of a [`PersistedSchedule`].
pub struct PersistedView {
    pub enabled: bool,
    pub time: Seq<char>,
    pub enabled_weekdays: Seq<u32>,
    pub opened_time_servo1: u64,
    pub opened_time_servo2: u64,
}

impl View for PersistedSchedule {
    type V = PersistedView;

    open spec fn view(&self) -> PersistedView {
        PersistedView {
            enabled: self.enabled,
            time: self.time@,
            enabled_weekdays: self.enabled_weekdays@,
            opened_time_servo1: self.opened_time_servo1,
            opened_time_servo2: self.opened_time_servo2,
        }
    }
}

/// The contents of a sequence of records.
pub open spec fn record_views(records: Seq<PersistedSchedule>) -> Seq<PersistedView> {
    records.map_values(|r: PersistedSchedule| r@)
}

/// The code of a weekday: 1 for Monday to 7 for Sunday.
pub open spec fn weekday_code(day: Weekday) -> u32 {
    match day {
        Weekday::Mon => 1,
        Weekday::Tue => 2,
        Weekday::Wed => 3,
        Weekday::Thu => 4,
        Weekday::Fri => 5,
        Weekday::Sat => 6,
        Weekday::Sun => 7,
    }
}

/// The weekday of a code: Monday for 1 to Saturday for 6, and Sunday for every other number.
pub open spec fn weekday_of_code(code: u32) -> Weekday {
    if code == 1 {
        Weekday::Mon
    } else if code == 2 {
        Weekday::Tue
    } else if code == 3 {
        Weekday::Wed
    } else if code == 4 {
        Weekday::Thu
    } else if code == 5 {
        Weekday::Fri
    } else if code == 6 {
        Weekday::Sat
    } else {
        Weekday::Sun
    }
}

/// The codes of a sequence of weekdays.
pub open spec fn weekday_codes(days: Seq<Weekday>) -> Seq<u32> {
    days.map_values(|d: Weekday| weekday_code(d))
}

/// The weekdays of a sequence of codes.
pub open spec fn weekdays_of_codes(codes: Seq<u32>) -> Seq<Weekday> {
    codes.map_values(|c: u32| weekday_of_code(c))
}

/// The record of an occasion.
pub open spec fn record_of(occasion: OccasionView) -> PersistedView {
    PersistedView {
        enabled: true,
        time: occasion.time.rfc3339(),
        enabled_weekdays: weekday_codes(occasion.enabled_weekdays),
        opened_time_servo1: occasion.opened_time_servo1,
        opened_time_servo2: occasion.opened_time_servo2,
    }
}

/// The occasion that a record describes, at a given time.
pub open spec fn occasion_at(record: PersistedView, time: Instant) -> OccasionView {
    OccasionView {
        time,
        enabled_weekdays: weekdays_of_codes(record.enabled_weekdays),
        opened_time_servo1: record.opened_time_servo1,
        opened_time_servo2: record.opened_time_servo2,
    }
}

/// The occasion that a record describes, if its time can be read.
pub open spec fn occasion_of(record: PersistedView) -> Option<OccasionView> {
    match instant_of_text(record.time) {
        Some(time) => Some(occasion_at(record, time)),
        None => None,
    }
}

/// The records of a sequence of occasions.
pub open spec fn encode(occasions: Seq<OccasionView>) -> Seq<PersistedView> {
    occasions.map_values(|o: OccasionView| record_of(o))
}

/// Whether the time of every record can be read.
pub open spec fn readable(records: Seq<PersistedView>) -> bool {
    forall|i: int| 0 <= i < records.len() ==> occasion_of(#[trigger] records[i]) is Some
}

/// The occasions that readable records describe.
pub open spec fn decode(records: Seq<PersistedView>) -> Seq<OccasionView> {
    records.map_values(|r: PersistedView| occasion_of(r)->0)
}

/// The code of a weekday: 1 for Monday to 7 for Sunday.
pub fn weekday_to_int(weekday: Weekday) -> (code: u32)
    ensures
        code == weekday_code(weekday),
        1 <= code <= 7,
{
    match weekday {
        Weekday::Mon => 1,
        Weekday::Tue => 2,
        Weekday::Wed => 3,
        Weekday::Thu => 4,
        Weekday::Fri => 5,
        Weekday::Sat => 6,
        Weekday::Sun => 7,
    }
}

/// The weekday of a code: Monday for 1 to Saturday for 6, and Sunday for every other number.
pub fn int_to_weekday(code: u32) -> (weekday: Weekday)
    ensures
        weekday == weekday_of_code(code),
{
    match code {
        1 => Weekday::Mon,
        2 => Weekday::Tue,
        3 => Weekday::Wed,
        4 => Weekday::Thu,
        5 => Weekday::Fri,
        6 => Weekday::Sat,
        _ => Weekday::Sun,
    }
}

/// The record of one occasion.
pub fn record_from_occasion(occasion: &Occasion) -> (record: PersistedSchedule)
    ensures
        record@ == record_of(occasion@),
{
    let mut codes: Vec<u32> = Vec::new();
    let mut i: usize = 0;
    while i < occasion.enabled_weekdays.len()
        invariant
            i <= occasion.enabled_weekdays.len(),
            codes@ == weekday_codes(occasion.enabled_weekdays@.take(i as int)),
        decreases occasion.enabled_weekdays.len() - i,
    {
        codes.push(weekday_to_int(occasion.enabled_weekdays[i]));
        i += 1;
        assert(codes@ =~= weekday_codes(occasion.enabled_weekdays@.take(i as int)));
    }
    assert(occasion.enabled_weekdays@.take(i as int) =~= occasion.enabled_weekdays@);
    PersistedSchedule {
        enabled: true,
        time: occasion.time.to_rfc3339(),
        enabled_weekdays: codes,
        opened_time_servo1: occasion.opened_time_servo1,
        opened_time_servo2: occasion.opened_time_servo2,
    }
}

/// The occasion that a record describes, at the time that was read from the record.
pub fn occasion_from_record(record: &PersistedSchedule, time: Timestamp) -> (occasion: Occasion)
    ensures
        occasion@ == occasion_at(record@, time@),
{
    let mut days: Vec<Weekday> = Vec::new();
    let mut i: usize = 0;
    while i < record.enabled_weekdays.len()
        invariant
            i <= record.enabled_weekdays.len(),
            days@ == weekdays_of_codes(record.enabled_weekdays@.take(i as int)),
        decreases record.enabled_weekdays.len() - i,
    {
        days.push(int_to_weekday(record.enabled_weekdays[i]));
        i += 1;
        assert(days@ =~= weekdays_of_codes(record.enabled_weekdays@.take(i as int)));
    }
    assert(record.enabled_weekdays@.take(i as int) =~= record.enabled_weekdays@);
    Occasion {
        time,
        enabled_weekdays: days,
        opened_time_servo1: record.opened_time_servo1,
        opened_time_servo2: record.opened_time_servo2,
    }
}

/// The records of a schedule, one for each occasion and in the same order.
pub fn serialize(schedule: &Schedule) -> (records: Vec<PersistedSchedule>)
    ensures
        record_views(records@) == encode(schedule@),
{
    let times = schedule.get_times();
    let mut records: Vec<PersistedSchedule> = Vec::new();
    let mut i: usize = 0;
    while i < times.len()
        invariant
            i <= times.len(),
            occasion_views(times@) == schedule@,
            record_views(records@) == encode(schedule@.take(i as int)),
        decreases times.len() - i,
    {
        let ghost before = record_views(records@);
        let record = record_from_occasion(&times[i]);
        assert(occasion_views(times@)[i as int] == times@[i as int]@);
        records.push(record);
        i += 1;
        assert(record_views(records@) =~= encode(schedule@.take(i as int))) by {
            assert(record_views(records@) =~= before.push(record@));
            assert(schedule@.take(i as int) =~= schedule@.take(i - 1).push(schedule@[i - 1]));
            assert(encode(schedule@.take(i - 1).push(schedule@[i - 1])) =~= encode(
                schedule@.take(i - 1),
            ).push(record_of(schedule@[i - 1])));
        }
    }
    assert(schedule@.take(i as int) =~= schedule@);
    records
}

/// Appends to a schedule the occasions that records describe, in their order. Where the time
/// of a record cannot be read, nothing is appended and the error says so.
pub fn deserialize(records: &Vec<PersistedSchedule>, schedule: &mut Schedule) -> (done: Result<
    (),
    String,
>)
    ensures
        done is Ok <==> readable(record_views(records@)),
        done is Ok ==> final(schedule)@ == old(schedule)@ + decode(record_views(records@)),
        done matches Err(message) ==> final(schedule)@ == old(schedule)@ && message@
            == "Error deserializing"@,
{
    let ghost all = record_views(records@);
    let mut staged: Vec<Occasion> = Vec::new();
    let mut i: usize = 0;
    while i < records.len()
        invariant
            i <= records.len(),
            all == record_views(records@),
            readable(all.take(i as int)),
            occasion_views(staged@) == decode(all.take(i as int)),
        decreases records.len() - i,
    {
        let ghost before = occasion_views(staged@);
        assert(all[i as int] == records@[i as int]@);
        match Timestamp::parse_rfc3339(records[i].time.as_str()) {
            Some(time) => {
                let occasion = occasion_from_record(&records[i], time);
                assert(Some(occasion@) == occasion_of(all[i as int]));
                staged.push(occasion);
                assert(occasion_views(staged@) =~= before.push(occasion_of(all[i as int])->0));
            },
            None => {
                assert(occasion_of(all[i as int]) is None);
                return Err("Error deserializing".to_owned());
            },
        }
        i += 1;
        assert(all.take(i as int) =~= all.take(i - 1).push(all[i - 1]));
        assert(readable(all.take(i as int))) by {
            assert forall|j: int| 0 <= j < i implies occasion_of(
                #[trigger] all.take(i as int)[j],
            ) is Some by {
                if j < i - 1 {
                    assert(all.take(i as int)[j] == all.take(i - 1)[j]);
                }
            }
        }
        assert(occasion_views(staged@) =~= decode(all.take(i as int))) by {
            assert(decode(all.take(i - 1).push(all[i - 1])) =~= decode(all.take(i - 1)).push(
                occasion_of(all[i - 1])->0,
            ));
        }
    }
    assert(all.take(i as int) =~= all);
    schedule.extend(staged);
    Ok(())
}

/// A weekday is read back from its code.
pub proof fn lemma_weekday_code_round_trip(day: Weekday)
    ensures
        weekday_of_code(weekday_code(day)) == day,
        1 <= weekday_code(day) <= 7,
{
}

/// The records of a schedule, read back: as many occasions as were written, each with the
/// weekdays and the open times of the one it was written from, at the time that the written
/// text of its time is read as. The records are readable exactly where each of these texts
/// is read as a time in range. An occasion whose text is read as the same second on the
/// wall clock keeps its hour, its minute and its weekday.
pub proof fn lemma_records_read_back(occasions: Seq<OccasionView>)
    ensures
        encode(occasions).len() == occasions.len(),
        decode(encode(occasions)).len() == occasions.len(),
        readable(encode(occasions)) <==> forall|i: int|
            0 <= i < occasions.len() ==> (#[trigger] occasions[i]).time.read_back() is Some,
        readable(encode(occasions)) ==> forall|i: int|
            #![trigger occasions[i]]
            0 <= i < occasions.len() ==> {
                let back = decode(encode(occasions))[i];
                &&& back.enabled_weekdays == occasions[i].enabled_weekdays
                &&& back.weekday_set() == occasions[i].weekday_set()
                &&& back.opened_time_servo1 == occasions[i].opened_time_servo1
                &&& back.opened_time_servo2 == occasions[i].opened_time_servo2
                &&& Some(back.time) == occasions[i].time.read_back()
                &&& back.time.local_seconds() == occasions[i].time.local_seconds() ==> {
                    &&& back.time.hour() == occasions[i].time.hour()
                    &&& back.time.minute() == occasions[i].time.minute()
                    &&& back.time.weekday() == occasions[i].time.weekday()
                }
            },
{
    let records = encode(occasions);
    assert forall|i: int| 0 <= i < occasions.len() implies occasion_of(records[i]) == match (
        #[trigger] occasions[i]
    ).time.read_back() {
        Some(time) => Some(occasion_at(record_of(occasions[i]), time)),
        None => None,
    } by {}
    if readable(records) {
        assert forall|i: int| 0 <= i < occasions.len() implies (
            #[trigger] occasions[i]
        ).time.read_back() is Some by {
            assert(occasion_of(records[i]) is Some);
        }
        assert forall|i: int| 0 <= i < occasions.len() implies decode(
            records,
        )[i].enabled_weekdays == (#[trigger] occasions[i]).enabled_weekdays by {
            lemma_weekdays_round_trip(occasions[i].enabled_weekdays);
        }
    }
}

/// Weekdays are read back from their codes, in the same order.
pub proof fn lemma_weekdays_round_trip(days: Seq<Weekday>)
    ensures
        weekdays_of_codes(weekday_codes(days)) == days,
{
    assert forall|i: int| 0 <= i < days.len() implies weekdays_of_codes(weekday_codes(days))[i]
        == days[i] by {
        lemma_weekday_code_round_trip(days[i]);
    }
    assert(weekdays_of_codes(weekday_codes(days)) =~= days);
}

} // verus!
