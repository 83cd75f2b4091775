//! The feeder's control loop as a state machine, the schedule it starts with, and the two
//! servos it drives.
//!
//! The loop itself waits, reads the clock and drives hardware, which this library does not
//! do. Here stands what the loop decides: given its state and what just happened, the next
//! state and what to do next.

use crate::persistant_schedule_storage::{
    decode, deserialize, readable, record_views, PersistedSchedule,
};
use crate::schedule::{
    active_count, budget_share, first_match, lemma_first_match_is_due, lemma_match_is_active,
    occasion_views, split_budget, Occasion, OccasionView, Schedule,
};
use crate::servo::{Channel, Servo};
use crate::timestamp::{Instant, Timestamp};
use crate::weekday::Weekday;
use vstd::prelude::*;

verus! {

/// Period of the PWM signal, in milliseconds.
pub const PERIOD_MS: u64 = 20;

/// Pulse width of the first servo when open, in microseconds.
pub const PULSE_OPEN_US: u64 = 1850;

/// Pulse width of the first servo when closed, in microseconds.
pub const PULSE_CLOSED_US: u64 = 2400;

/// Pulse width of the first servo when moved past closed, in microseconds.
pub const PULSE_PASSED_US: u64 = 2650;

/// Pulse width of the second servo when closed, in microseconds.
pub const PULSE_CLOSED_1_US: u64 = 1440;

/// Pulse width of the second servo when open, in microseconds.
pub const PULSE_OPEN_1_US: u64 = 860;

/// Pulse width of the second servo when moved past closed, in microseconds.
pub const PULSE_PASSED_1_US: u64 = 1700;

/// Milliseconds between two looks at the clock.
pub const POLL_INTERVAL_MS: u64 = 30_000;

/// Milliseconds to wait after a feeding before the clock is looked at again. It is longer
/// than the minute in which the occasion was due, so no occasion is fed twice.
pub const COOLDOWN_MS: u64 = 60_000;

/// Occasions in the schedule that the feeder starts with when none was kept.
pub const DEFAULT_OCCASIONS: usize = 15;

/// Milliseconds that the first servo stays open at an occasion of the default schedule.
pub const DEFAULT_OPENED_TIME_SERVO1: u64 = 320;

/// Milliseconds that the second servo stays open at an occasion of the default schedule.
pub const DEFAULT_OPENED_TIME_SERVO2: u64 = 280;

/// One of the feeder's two servos.
#[derive(Clone, Copy, PartialEq, Eq, Structural, Debug)]
pub enum ServoId {
    First,
    Second,
}

/// Why a servo's channel could not be opened.
#[derive(Clone, Copy, PartialEq, Eq, Structural, Debug)]
pub enum HardwareInitError {
    /// The PWM channel is not there or could not be set up.
    ChannelUnavailable,
}

/// Why no schedule could be loaded.
#[derive(Clone, Copy, PartialEq, Eq, Structural, Debug)]
pub enum LoadError {
    /// The file is missing or could not be read.
    Unreadable,
    /// The file does not hold the records of a schedule.
    Malformed,
}

/// Which servos the feeder has and how it reads an occasion's open times.
#[derive(Clone, Copy, PartialEq, Eq, Structural, Debug)]
pub struct FeederConfig {
    /// Whether the second servo is fed after the first.
    pub second_servo: bool,
    /// Whether an occasion's open time is the total of its day, to be split evenly among
    /// the occasions that are active on that weekday.
    pub shared_budget: bool,
}

/// Where the control loop stands.
#[derive(Clone, Copy, PartialEq, Eq, Structural, Debug)]
pub enum LoopState {
    /// Waiting for the next look at the clock.
    Idle,
    /// Reading the clock.
    Checking,
    /// Feeding one servo for the occasion at a position of the schedule.
    Feeding { occasion: usize, weekday: Weekday, servo: ServoId },
    /// Waiting after a feeding.
    CoolingDown,
}

/// What just happened.
#[derive(Clone, Copy, Debug)]
pub enum LoopEvent {
    /// A wait is over.
    Elapsed,
    /// The clock was read.
    Clock(Timestamp),
    /// A servo was fed, well or not: a failed feeding does not stop the loop.
    Fed,
}

/// What the loop does next.
#[derive(Clone, Copy, PartialEq, Eq, Structural, Debug)]
pub enum LoopAction {
    /// Wait, in milliseconds, then report `Elapsed`.
    Sleep(u64),
    /// Read the clock and report it.
    ReadClock,
    /// Open the servo's channel, feed the servo for `duration` milliseconds, release the
    /// channel, then report `Fed`.
    Feed { servo: ServoId, duration: u64 },
}

/// What a start of the feeder begins with.
pub struct Startup {
    /// The schedule to run.
    pub schedule: Schedule,
    /// Whether the schedule is the default one, which is then to be written to the file.
    pub persist: bool,
}

/// The channel on which a servo is driven.
pub open spec fn channel_of(id: ServoId) -> Channel {
    match id {
        ServoId::First => Channel::Pwm0,
        ServoId::Second => Channel::Pwm1,
    }
}

/// A servo of the feeder with its pulse widths, driven on `pwm` or simulated.
pub open spec fn servo_of(id: ServoId, pwm: Option<Channel>) -> Servo {
    match id {
        ServoId::First => Servo {
            pulse_closed: PULSE_CLOSED_US,
            pulse_open: PULSE_OPEN_US,
            pulse_passed: PULSE_PASSED_US,
            pwm,
        },
        ServoId::Second => Servo {
            pulse_closed: PULSE_CLOSED_1_US,
            pulse_open: PULSE_OPEN_1_US,
            pulse_passed: PULSE_PASSED_1_US,
            pwm,
        },
    }
}

/// The open time that an occasion holds for a servo.
pub open spec fn stored_duration(occasion: OccasionView, servo: ServoId) -> u64 {
    match servo {
        ServoId::First => occasion.opened_time_servo1,
        ServoId::Second => occasion.opened_time_servo2,
    }
}

/// The milliseconds for which a servo is opened at the occasion at position `i`: the open
/// time that the occasion holds or, where the budget is shared and some occasion is active
/// on the weekday, that time divided by the number of active occasions, rounded down.
pub open spec fn feed_duration(
    occasions: Seq<OccasionView>,
    i: int,
    weekday: Weekday,
    servo: ServoId,
    shared_budget: bool,
) -> u64 {
    let stored = stored_duration(occasions[i], servo);
    if shared_budget && active_count(occasions, weekday) > 0 {
        budget_share(stored as int, active_count(occasions, weekday) as int) as u64
    } else {
        stored
    }
}

/// The loop's next state and action.
///
/// From `Idle` the clock is read. A clock reading at which an occasion is due starts the
/// feeding of the first servo; one at which none is due leads back to `Idle` and a wait of
/// the poll interval. After the first servo the second is fed, if there is one. After the
/// last servo comes the cooldown, then `Idle` again. An event that a state does not wait for
/// changes nothing but asks for the state's action once more.
pub open spec fn loop_step_spec(
    occasions: Seq<OccasionView>,
    config: FeederConfig,
    state: LoopState,
    event: LoopEvent,
) -> (LoopState, LoopAction) {
    match state {
        LoopState::Idle => (LoopState::Checking, LoopAction::ReadClock),
        LoopState::Checking => match event {
            LoopEvent::Clock(now) => match first_match(occasions, now@) {
                Some(i) => (
                    LoopState::Feeding {
                        occasion: i as usize,
                        weekday: now@.weekday(),
                        servo: ServoId::First,
                    },
                    LoopAction::Feed {
                        servo: ServoId::First,
                        duration: feed_duration(
                            occasions,
                            i,
                            now@.weekday(),
                            ServoId::First,
                            config.shared_budget,
                        ),
                    },
                ),
                None => (LoopState::Idle, LoopAction::Sleep(POLL_INTERVAL_MS)),
            },
            _ => (LoopState::Checking, LoopAction::ReadClock),
        },
        LoopState::Feeding { occasion, weekday, servo } => {
            if servo is First && config.second_servo && occasion < occasions.len() {
                (
                    LoopState::Feeding { occasion, weekday, servo: ServoId::Second },
                    LoopAction::Feed {
                        servo: ServoId::Second,
                        duration: feed_duration(
                            occasions,
                            occasion as int,
                            weekday,
                            ServoId::Second,
                            config.shared_budget,
                        ),
                    },
                )
            } else {
                (LoopState::CoolingDown, LoopAction::Sleep(COOLDOWN_MS))
            }
        },
        LoopState::CoolingDown => (LoopState::Idle, LoopAction::Sleep(POLL_INTERVAL_MS)),
    }
}

/// The hour of the occasion at a position of the default schedule.
pub open spec fn default_hour(i: int) -> int {
    seq![4int, 7, 8, 9, 10, 11, 12, 11, 11, 15, 16, 17, 18, 19, 20][i]
}

/// The minute of the occasion at a position of the default schedule.
pub open spec fn default_minute(i: int) -> int {
    if i == 0 {
        25
    } else {
        30
    }
}

/// All seven weekdays, from Monday.
pub open spec fn every_weekday() -> Seq<Weekday> {
    seq![
        Weekday::Mon,
        Weekday::Tue,
        Weekday::Wed,
        Weekday::Thu,
        Weekday::Fri,
        Weekday::Sat,
        Weekday::Sun,
    ]
}

/// The occasion at a position of the default schedule: on every weekday, at its hour and
/// minute on the wall clock of 1970-01-01, written with the offset zero.
pub open spec fn default_occasion(i: int) -> OccasionView {
    OccasionView {
        time: Instant {
            seconds: default_hour(i) * 3600 + default_minute(i) * 60,
            nanos: 0,
            offset: 0,
        },
        enabled_weekdays: every_weekday(),
        opened_time_servo1: DEFAULT_OPENED_TIME_SERVO1,
        opened_time_servo2: DEFAULT_OPENED_TIME_SERVO2,
    }
}

/// The default schedule: fifteen occasions, of which three are at 11:30.
pub open spec fn default_occasions() -> Seq<OccasionView> {
    Seq::new(DEFAULT_OCCASIONS as nat, |i: int| default_occasion(i))
}

/// What the feeder starts with: the loaded schedule, or the default one where none was
/// loaded, which is then to be written back.
pub open spec fn startup_spec(loaded: Result<Schedule, LoadError>) -> (Seq<OccasionView>, bool) {
    match loaded {
        Ok(schedule) => (schedule@, false),
        Err(_) => (default_occasions(), true),
    }
}

impl ServoId {
    /// The channel on which the servo is driven.
    pub fn channel(self) -> (channel: Channel)
        ensures
            channel == channel_of(self),
    {
        match self {
            ServoId::First => Channel::Pwm0,
            ServoId::Second => Channel::Pwm1,
        }
    }
}

impl FeederConfig {
    /// One servo, fed for the time that the occasion holds.
    pub fn single() -> (config: FeederConfig)
        ensures
            config == (FeederConfig { second_servo: false, shared_budget: false }),
    {
        FeederConfig { second_servo: false, shared_budget: false }
    }
}

/// A servo of the feeder, set up for one feeding: driven on the channel that was opened for
/// it or, where the channel could not be opened, simulated.
pub fn servo_for(id: ServoId, opened: Result<Channel, HardwareInitError>) -> (servo: Servo)
    ensures
        servo == servo_of(
            id,
            match opened {
                Ok(channel) => Some(channel),
                Err(_) => None,
            },
        ),
        opened is Err ==> servo.pwm is None,
{
    let pwm = match opened {
        Ok(channel) => Some(channel),
        Err(_) => None,
    };
    match id {
        ServoId::First => Servo {
            pulse_closed: PULSE_CLOSED_US,
            pulse_open: PULSE_OPEN_US,
            pulse_passed: PULSE_PASSED_US,
            pwm,
        },
        ServoId::Second => Servo {
            pulse_closed: PULSE_CLOSED_1_US,
            pulse_open: PULSE_OPEN_1_US,
            pulse_passed: PULSE_PASSED_1_US,
            pwm,
        },
    }
}

/// The milliseconds for which a servo is opened at the occasion at a position of the
/// schedule.
fn duration_for(
    schedule: &Schedule,
    position: usize,
    weekday: Weekday,
    servo: ServoId,
    shared_budget: bool,
) -> (duration: u64)
    requires
        position < schedule@.len(),
    ensures
        duration == feed_duration(schedule@, position as int, weekday, servo, shared_budget),
{
    let times = schedule.get_times();
    assert(occasion_views(times@)[position as int] == times@[position as int]@);
    let stored = match servo {
        ServoId::First => times[position].opened_time_servo1,
        ServoId::Second => times[position].opened_time_servo2,
    };
    if shared_budget {
        let active = schedule.count_active(weekday);
        if active > 0 {
            split_budget(stored, active)
        } else {
            stored
        }
    } else {
        stored
    }
}

/// The state and the action with which the loop begins: a wait of the poll interval.
pub fn loop_start() -> (begin: (LoopState, LoopAction))
    ensures
        begin == (LoopState::Idle, LoopAction::Sleep(POLL_INTERVAL_MS)),
{
    (LoopState::Idle, LoopAction::Sleep(POLL_INTERVAL_MS))
}

/// One step of the control loop: the next state and what to do next.
pub fn loop_step(
    schedule: &Schedule,
    config: &FeederConfig,
    state: LoopState,
    event: LoopEvent,
) -> (next: (LoopState, LoopAction))
    ensures
        next == loop_step_spec(schedule@, *config, state, event),
{
    match state {
        LoopState::Idle => (LoopState::Checking, LoopAction::ReadClock),
        LoopState::Checking => match event {
            LoopEvent::Clock(now) => match schedule.position(now) {
                Some(i) => {
                    let weekday = now.weekday();
                    let duration = duration_for(
                        schedule,
                        i,
                        weekday,
                        ServoId::First,
                        config.shared_budget,
                    );
                    (
                        LoopState::Feeding { occasion: i, weekday, servo: ServoId::First },
                        LoopAction::Feed { servo: ServoId::First, duration },
                    )
                },
                None => (LoopState::Idle, LoopAction::Sleep(POLL_INTERVAL_MS)),
            },
            _ => (LoopState::Checking, LoopAction::ReadClock),
        },
        LoopState::Feeding { occasion, weekday, servo } => {
            let first = match servo {
                ServoId::First => true,
                ServoId::Second => false,
            };
            if first && config.second_servo && occasion < schedule.len() {
                let duration = duration_for(
                    schedule,
                    occasion,
                    weekday,
                    ServoId::Second,
                    config.shared_budget,
                );
                (
                    LoopState::Feeding { occasion, weekday, servo: ServoId::Second },
                    LoopAction::Feed { servo: ServoId::Second, duration },
                )
            } else {
                (LoopState::CoolingDown, LoopAction::Sleep(COOLDOWN_MS))
            }
        },
        LoopState::CoolingDown => (LoopState::Idle, LoopAction::Sleep(POLL_INTERVAL_MS)),
    }
}

/// The hour and the minute of the occasion at a position of the default schedule.
fn default_time_of_day(position: usize) -> (time: (u32, u32))
    requires
        position < DEFAULT_OCCASIONS,
    ensures
        time.0 == default_hour(position as int),
        time.1 == default_minute(position as int),
        time.0 < 24,
        time.1 < 60,
{
    let minute: u32 = if position == 0 {
        25
    } else {
        30
    };
    let hour: u32 = if position == 0 {
        4
    } else if position <= 6 {
        (position + 6) as u32
    } else if position <= 8 {
        11
    } else {
        (position + 6) as u32
    };
    (hour, minute)
}

/// All seven weekdays, from Monday.
fn all_weekdays() -> (days: Vec<Weekday>)
    ensures
        days@ == every_weekday(),
{
    let mut days: Vec<Weekday> = Vec::new();
    days.push(Weekday::Mon);
    days.push(Weekday::Tue);
    days.push(Weekday::Wed);
    days.push(Weekday::Thu);
    days.push(Weekday::Fri);
    days.push(Weekday::Sat);
    days.push(Weekday::Sun);
    assert(days@ =~= every_weekday());
    days
}

/// Appends the default schedule: feedings on every day of the week at 04:25, then at half
/// past 7, 8, 9, 10, 11, 12, 11, 11, 15, 16, 17, 18, 19 and 20, each for 320 ms on the first
/// servo and 280 ms on the second. The repeated 11:30 is part of it.
pub fn create_default_schedule(schedule: &mut Schedule)
    ensures
        final(schedule)@ == old(schedule)@ + default_occasions(),
{
    let mut i: usize = 0;
    assert(old(schedule)@ + default_occasions().take(0) =~= old(schedule)@);
    while i < DEFAULT_OCCASIONS
        invariant
            i <= DEFAULT_OCCASIONS,
            schedule@ == old(schedule)@ + default_occasions().take(i as int),
        decreases DEFAULT_OCCASIONS - i,
    {
        let (hour, minute) = default_time_of_day(i);
        let time = Timestamp::at_epoch_day(hour, minute, 0, 0).unwrap();
        let occasion = Occasion {
            time,
            enabled_weekdays: all_weekdays(),
            opened_time_servo1: DEFAULT_OPENED_TIME_SERVO1,
            opened_time_servo2: DEFAULT_OPENED_TIME_SERVO2,
        };
        assert(occasion@ == default_occasion(i as int));
        schedule.push(occasion);
        i += 1;
        assert(schedule@ =~= old(schedule)@ + default_occasions().take(i as int));
    }
    assert(default_occasions().take(i as int) =~= default_occasions());
}

/// The schedule that records describe, or `Malformed` where the time of a record cannot be
/// read.
pub fn schedule_from_records(records: &Vec<PersistedSchedule>) -> (loaded: Result<
    Schedule,
    LoadError,
>)
    ensures
        loaded is Ok <==> readable(record_views(records@)),
        loaded matches Ok(schedule) ==> schedule@ == decode(record_views(records@)),
        loaded matches Err(e) ==> e == LoadError::Malformed,
{
    let mut schedule = Schedule::new();
    match deserialize(records, &mut schedule) {
        Ok(()) => {
            assert(schedule@ =~= decode(record_views(records@)));
            Ok(schedule)
        },
        Err(_) => Err(LoadError::Malformed),
    }
}

/// What the feeder starts with: the schedule that was loaded or, whatever kept it from being
/// loaded, the default schedule, which is then to be written to the file.
pub fn startup(loaded: Result<Schedule, LoadError>) -> (start: Startup)
    ensures
        (start.schedule@, start.persist) == startup_spec(loaded),
        loaded is Err ==> start.schedule@ == default_occasions() && start.persist,
        loaded matches Ok(schedule) ==> start.schedule@ == schedule@ && !start.persist,
{
    match loaded {
        Ok(schedule) => Startup { schedule, persist: false },
        Err(_) => {
            let mut schedule = Schedule::new();
            create_default_schedule(&mut schedule);
            assert(schedule@ =~= default_occasions());
            Startup { schedule, persist: true }
        },
    }
}

/// After a servo was fed the clock is not read before the cooldown has been waited for:
/// from a feeding the loop goes to the second servo or to the cooldown, and from the cooldown
/// to `Idle` with a wait of the poll interval. The clock is read only from `Idle` or, where
/// no reading was reported, from `Checking` again.
pub proof fn lemma_cooldown_follows_feeding(
    occasions: Seq<OccasionView>,
    config: FeederConfig,
    state: LoopState,
    event: LoopEvent,
)
    ensures
        state is Feeding ==> {
            let next = loop_step_spec(occasions, config, state, event);
            ||| next.0 is Feeding && state->servo is First && next.0->servo is Second && next.1
                is Feed
            ||| next == (LoopState::CoolingDown, LoopAction::Sleep(COOLDOWN_MS))
        },
        state is CoolingDown ==> loop_step_spec(occasions, config, state, event) == (
            LoopState::Idle,
            LoopAction::Sleep(POLL_INTERVAL_MS),
        ),
        loop_step_spec(occasions, config, state, event).1 is ReadClock ==> state is Idle
            || state is Checking,
        COOLDOWN_MS >= 60_000,
{
}

/// A feeding begins only at a clock reading at which an occasion is due, and then for that
/// occasion: the first in the schedule that applies on the weekday and has the hour and the
/// minute of the reading. On that weekday at least one occasion is active.
pub proof fn lemma_feeding_begins_when_due(
    occasions: Seq<OccasionView>,
    config: FeederConfig,
    now: Timestamp,
)
    ensures
        ({
            let next = loop_step_spec(
                occasions,
                config,
                LoopState::Checking,
                LoopEvent::Clock(now),
            );
            match first_match(occasions, now@) {
                Some(i) => {
                    &&& next.0 == (LoopState::Feeding {
                        occasion: i as usize,
                        weekday: now@.weekday(),
                        servo: ServoId::First,
                    })
                    &&& occasions[i].matches_at(now@)
                    &&& active_count(occasions, now@.weekday()) > 0
                    &&& !config.shared_budget ==> next.1 == (LoopAction::Feed {
                        servo: ServoId::First,
                        duration: occasions[i].opened_time_servo1,
                    })
                    &&& config.shared_budget ==> next.1 == (LoopAction::Feed {
                        servo: ServoId::First,
                        duration: budget_share(
                            occasions[i].opened_time_servo1 as int,
                            active_count(occasions, now@.weekday()) as int,
                        ) as u64,
                    })
                },
                None => next == (LoopState::Idle, LoopAction::Sleep(POLL_INTERVAL_MS)),
            }
        }),
{
    if first_match(occasions, now@) is Some {
        lemma_first_match_is_due(occasions, now@);
        lemma_match_is_active(occasions, now@);
    }
}

} // verus!
