//! A servo and the sequence of commands that one feeding sends to it.
//!
//! The sequencer does not touch hardware. It says which command comes next; whoever owns the
//! PWM handle performs the command and reports how it went.

use vstd::prelude::*;

verus! {

/// How often the dispenser is moved past its closed position and back after the food has
/// dropped, to clear what may be stuck.
pub const SETTLE_CYCLES: usize = 3;

/// Milliseconds to wait after each move of a settle cycle.
pub const SETTLE_PAUSE_MS: u64 = 200;

/// Commands in one settle cycle: move past closed, wait, move to closed, wait.
pub const CYCLE_COMMANDS: usize = 4;

/// Commands of a whole feeding: open, wait, then the settle cycles.
pub const FEED_COMMANDS: usize = 14;

/// A hardware PWM channel.
#[derive(Clone, Copy, PartialEq, Eq, Structural, Debug)]
pub enum Channel {
    Pwm0,
    Pwm1,
}

/// A servo: the pulse widths, in microseconds, of its three positions, and the channel on
/// which it is driven. Without a channel the servo is simulated: feeding it does nothing.
#[derive(Clone, Copy, PartialEq, Eq, Structural, Debug)]
pub struct Servo {
    pub pulse_closed: u64,
    pub pulse_open: u64,
    pub pulse_passed: u64,
    pub pwm: Option<Channel>,
}

/// Why a feeding failed.
#[derive(Clone, Copy, PartialEq, Eq, Structural, Debug)]
pub enum ActuationError {
    /// A pulse width could not be set.
    HardwareWrite,
}

/// One command to the hardware or to the clock.
#[derive(Clone, Copy, PartialEq, Eq, Structural, Debug)]
pub enum Command {
    /// Set the pulse width, in microseconds.
    SetPulseWidth(u64),
    /// Wait, in milliseconds.
    Sleep(u64),
}

/// What the sequencer asks for next.
#[derive(Clone, Copy, PartialEq, Eq, Debug)]
pub enum FeedAction {
    /// Perform the command and report how it went.
    Perform(Command),
    /// The feeding is over, with this result.
    Finish(Result<(), ActuationError>),
}

/// How the last command went.
#[derive(Clone, Copy, PartialEq, Eq, Structural, Debug)]
pub enum FeedEvent {
    /// Nothing was asked for yet.
    Started,
    /// The command was performed.
    Performed,
    /// The pulse width could not be set.
    WriteFailed,
}

/// How far a feeding has come: the number of commands that were asked for.
#[derive(Clone, Copy, PartialEq, Eq, Structural, Debug)]
pub struct FeedState {
    pub issued: usize,
}

/// The commands of one settle cycle.
pub open spec fn settle_cycle(servo: Servo) -> Seq<Command> {
    seq![
        Command::SetPulseWidth(servo.pulse_passed),
        Command::Sleep(SETTLE_PAUSE_MS),
        Command::SetPulseWidth(servo.pulse_closed),
        Command::Sleep(SETTLE_PAUSE_MS),
    ]
}

/// The commands of a feeding that keeps the servo open for `feed_time` milliseconds, in
/// order: open, wait for the food to drop, then three settle cycles, the last of which leaves
/// the servo closed. A simulated servo gets no command.
pub open spec fn feed_timeline(servo: Servo, feed_time: u64) -> Seq<Command> {
    if servo.pwm is None {
        Seq::<Command>::empty()
    } else {
        seq![Command::SetPulseWidth(servo.pulse_open), Command::Sleep(feed_time)] + settle_cycle(
            servo,
        ) + settle_cycle(servo) + settle_cycle(servo)
    }
}

/// The milliseconds that a sequence of commands waits in all.
pub open spec fn total_sleep(commands: Seq<Command>) -> int
    decreases commands.len(),
{
    if commands.len() == 0 {
        0
    } else {
        total_sleep(commands.drop_last()) + match commands.last() {
            Command::Sleep(millis) => millis as int,
            Command::SetPulseWidth(_) => 0,
        }
    }
}

/// What comes after `state` when the last command went as `event` says. A simulated servo
/// ends the feeding well at once. Otherwise a failed write ends the feeding with an error;
/// else the next command of the timeline is asked for, and after the last one the feeding
/// ends well.
pub open spec fn feed_step_spec(
    servo: Servo,
    feed_time: u64,
    state: FeedState,
    event: FeedEvent,
) -> (FeedState, FeedAction) {
    let timeline = feed_timeline(servo, feed_time);
    if servo.pwm is None {
        (state, FeedAction::Finish(Ok(())))
    } else if event is WriteFailed {
        (state, FeedAction::Finish(Err(ActuationError::HardwareWrite)))
    } else if state.issued < timeline.len() {
        (
            FeedState { issued: (state.issued + 1) as usize },
            FeedAction::Perform(timeline[state.issued as int]),
        )
    } else {
        (state, FeedAction::Finish(Ok(())))
    }
}

/// How the command at a position of the timeline goes in a feeding in which the command at
/// position `failing`, if any, reports a failed write.
pub open spec fn event_after(failing: Option<int>, position: int) -> FeedEvent {
    if failing == Some(position) {
        FeedEvent::WriteFailed
    } else {
        FeedEvent::Performed
    }
}

/// A whole feeding from the state after `issued` commands on, stepped until it is over: the
/// commands that are asked for and the result. `event` says how the last command went, and
/// `failing` which command of the timeline, if any, reports a failed write.
pub open spec fn feed_run(
    servo: Servo,
    feed_time: u64,
    issued: usize,
    event: FeedEvent,
    failing: Option<int>,
) -> (Seq<Command>, Result<(), ActuationError>)
    decreases feed_timeline(servo, feed_time).len() - issued,
{
    let step = feed_step_spec(servo, feed_time, FeedState { issued }, event);
    match step.1 {
        FeedAction::Finish(result) => (Seq::<Command>::empty(), result),
        FeedAction::Perform(command) => {
            if issued < feed_timeline(servo, feed_time).len() {
                let rest = feed_run(
                    servo,
                    feed_time,
                    step.0.issued,
                    event_after(failing, issued as int),
                    failing,
                );
                (seq![command] + rest.0, rest.1)
            } else {
                (Seq::<Command>::empty(), Ok(()))
            }
        },
    }
}

impl Servo {
    /// The command at a position of the timeline.
    fn command_at(&self, feed_time: u64, position: usize) -> (command: Command)
        requires
            self.pwm is Some,
            position < FEED_COMMANDS,
        ensures
            feed_timeline(*self, feed_time).len() == FEED_COMMANDS,
            command == feed_timeline(*self, feed_time)[position as int],
    {
        if position == 0 {
            Command::SetPulseWidth(self.pulse_open)
        } else if position == 1 {
            Command::Sleep(feed_time)
        } else {
            let within: usize = (position - 2) % CYCLE_COMMANDS;
            if within == 0 {
                Command::SetPulseWidth(self.pulse_passed)
            } else if within == 2 {
                Command::SetPulseWidth(self.pulse_closed)
            } else {
                Command::Sleep(SETTLE_PAUSE_MS)
            }
        }
    }

    /// All commands of a feeding, in order.
    pub fn feed_plan(&self, feed_time: u64) -> (plan: Vec<Command>)
        ensures
            plan@ == feed_timeline(*self, feed_time),
            self.pwm is None ==> plan@.len() == 0,
            self.pwm is Some ==> plan@.len() == FEED_COMMANDS,
    {
        let mut plan: Vec<Command> = Vec::new();
        if self.pwm.is_none() {
            return plan;
        }
        let mut i: usize = 0;
        while i < FEED_COMMANDS
            invariant
                i <= FEED_COMMANDS,
                self.pwm is Some,
                feed_timeline(*self, feed_time).len() == FEED_COMMANDS,
                plan@ == feed_timeline(*self, feed_time).take(i as int),
            decreases FEED_COMMANDS - i,
        {
            plan.push(self.command_at(feed_time, i));
            i += 1;
            assert(plan@ =~= feed_timeline(*self, feed_time).take(i as int));
        }
        assert(feed_timeline(*self, feed_time).take(i as int) =~= feed_timeline(
            *self,
            feed_time,
        ));
        plan
    }
}

impl FeedState {
    /// The state before anything was asked for.
    pub fn start() -> (state: FeedState)
        ensures
            state.issued == 0,
    {
        FeedState { issued: 0 }
    }
}

/// One step of a feeding: given how far it has come and how the last command went, says
/// what to do next. With a simulated servo every step ends the feeding well, and no command
/// is ever asked for.
pub fn feed_step(servo: &Servo, feed_time: u64, state: FeedState, event: FeedEvent) -> (next: (
    FeedState,
    FeedAction,
))
    ensures
        next == feed_step_spec(*servo, feed_time, state, event),
        servo.pwm is None ==> next == (state, FeedAction::Finish(Ok(()))),
{
    if servo.pwm.is_none() {
        return (state, FeedAction::Finish(Ok(())));
    }
    match event {
        FeedEvent::WriteFailed => {
            return (state, FeedAction::Finish(Err(ActuationError::HardwareWrite)));
        },
        _ => {},
    }
    if state.issued < FEED_COMMANDS {
        let command = servo.command_at(feed_time, state.issued);
        (FeedState { issued: state.issued + 1 }, FeedAction::Perform(command))
    } else {
        (state, FeedAction::Finish(Ok(())))
    }
}

/// A feeding waits for the open time and for two pauses in each of the three settle cycles;
/// a simulated one does not wait at all.
pub proof fn lemma_feed_sleep_total(servo: Servo, feed_time: u64)
    ensures
        servo.pwm is Some ==> total_sleep(feed_timeline(servo, feed_time)) == feed_time + 2
            * SETTLE_CYCLES * SETTLE_PAUSE_MS,
        servo.pwm is None ==> total_sleep(feed_timeline(servo, feed_time)) == 0,
{
    if servo.pwm is Some {
        let t = feed_timeline(servo, feed_time);
        assert(t.len() == 14);
        lemma_total_sleep_take(t, 14);
        lemma_total_sleep_take(t, 13);
        lemma_total_sleep_take(t, 12);
        lemma_total_sleep_take(t, 11);
        lemma_total_sleep_take(t, 10);
        lemma_total_sleep_take(t, 9);
        lemma_total_sleep_take(t, 8);
        lemma_total_sleep_take(t, 7);
        lemma_total_sleep_take(t, 6);
        lemma_total_sleep_take(t, 5);
        lemma_total_sleep_take(t, 4);
        lemma_total_sleep_take(t, 3);
        lemma_total_sleep_take(t, 2);
        lemma_total_sleep_take(t, 1);
        assert(t.take(0).len() == 0);
        assert(t.take(14) =~= t);
    }
}

/// The wait of the first `n` commands is that of the first `n - 1` and of the `n`-th.
proof fn lemma_total_sleep_take(commands: Seq<Command>, n: int)
    requires
        0 < n <= commands.len(),
    ensures
        total_sleep(commands.take(n)) == total_sleep(commands.take(n - 1)) + match commands[n
            - 1] {
            Command::Sleep(millis) => millis as int,
            Command::SetPulseWidth(_) => 0,
        },
{
    assert(commands.take(n).drop_last() =~= commands.take(n - 1));
    assert(commands.take(n).last() == commands[n - 1]);
}

/// A feeding that no write fails asks for the commands of the timeline, one after another
/// and each once, and then ends well; once over, it stays over.
pub proof fn lemma_feed_runs_timeline(
    servo: Servo,
    feed_time: u64,
    issued: usize,
    event: FeedEvent,
)
    requires
        servo.pwm is Some,
        !(event is WriteFailed),
    ensures
        issued < feed_timeline(servo, feed_time).len() ==> feed_step_spec(
            servo,
            feed_time,
            FeedState { issued },
            event,
        ) == (
            FeedState { issued: (issued + 1) as usize },
            FeedAction::Perform(feed_timeline(servo, feed_time)[issued as int]),
        ),
        issued >= feed_timeline(servo, feed_time).len() ==> feed_step_spec(
            servo,
            feed_time,
            FeedState { issued },
            event,
        ) == (FeedState { issued }, FeedAction::Finish(Ok(()))),
{
}

/// A whole feeding in which no command reports a failed write asks for every command of the
/// timeline, in order, and ends well. One in which the command at position `k` reports a
/// failed write asks for the commands up to that one and for none after it, and ends with
/// `HardwareWrite`.
pub proof fn lemma_feed_run(servo: Servo, feed_time: u64, failing: Option<int>)
    ensures
        ({
            let timeline = feed_timeline(servo, feed_time);
            let run = feed_run(servo, feed_time, 0, FeedEvent::Started, failing);
            if failing is Some && 0 <= failing->0 < timeline.len() {
                run == (
                    timeline.take(failing->0 + 1),
                    Err::<(), ActuationError>(ActuationError::HardwareWrite),
                )
            } else {
                run == (timeline, Ok::<(), ActuationError>(()))
            }
        }),
{
    let timeline = feed_timeline(servo, feed_time);
    lemma_feed_run_from(servo, feed_time, 0, FeedEvent::Started, failing);
    assert(timeline.subrange(0, timeline.len() as int) =~= timeline);
    if failing is Some && 0 <= failing->0 < timeline.len() {
        assert(timeline.subrange(0, failing->0 + 1) =~= timeline.take(failing->0 + 1));
    }
}

/// A feeding that has come to `issued` commands without a failure goes on with the rest of
/// the timeline, up to the command that reports a failed write or to the end.
proof fn lemma_feed_run_from(
    servo: Servo,
    feed_time: u64,
    issued: usize,
    event: FeedEvent,
    failing: Option<int>,
)
    requires
        issued <= feed_timeline(servo, feed_time).len(),
        !(event is WriteFailed),
        failing matches Some(k) ==> !(0 <= k < issued),
    ensures
        ({
            let timeline = feed_timeline(servo, feed_time);
            let run = feed_run(servo, feed_time, issued, event, failing);
            if failing is Some && 0 <= failing->0 < timeline.len() {
                run == (
                    timeline.subrange(issued as int, failing->0 + 1),
                    Err::<(), ActuationError>(ActuationError::HardwareWrite),
                )
            } else {
                run == (
                    timeline.subrange(issued as int, timeline.len() as int),
                    Ok::<(), ActuationError>(()),
                )
            }
        }),
    decreases feed_timeline(servo, feed_time).len() - issued,
{
    let timeline = feed_timeline(servo, feed_time);
    let len = timeline.len() as int;
    if issued < len {
        let after = event_after(failing, issued as int);
        let run = feed_run(servo, feed_time, issued, event, failing);
        let rest = feed_run(servo, feed_time, (issued + 1) as usize, after, failing);
        if after is WriteFailed {
            assert(rest.0 =~= Seq::<Command>::empty());
            assert(run.0 =~= timeline.subrange(issued as int, issued + 1));
        } else {
            lemma_feed_run_from(servo, feed_time, (issued + 1) as usize, after, failing);
            if failing is Some && 0 <= failing->0 < len {
                let k = failing->0;
                assert(seq![timeline[issued as int]] + timeline.subrange(issued + 1, k + 1)
                    =~= timeline.subrange(issued as int, k + 1));
            } else {
                assert(seq![timeline[issued as int]] + timeline.subrange(issued + 1, len)
                    =~= timeline.subrange(issued as int, len));
            }
        }
    } else {
        assert(timeline.subrange(issued as int, len) =~= Seq::<Command>::empty());
    }
}

/// A failed write ends the feeding at once with `HardwareWrite`, wherever it stands.
pub proof fn lemma_feed_aborts_on_failure(servo: Servo, feed_time: u64, state: FeedState)
    requires
        servo.pwm is Some,
    ensures
        feed_step_spec(servo, feed_time, state, FeedEvent::WriteFailed) == (
            state,
            FeedAction::Finish(Err(ActuationError::HardwareWrite)),
        ),
{
}

/// A simulated servo is fed without a single command: whatever the open time, the state
/// and the event, a step ends the feeding well.
pub proof fn lemma_simulated_feed_succeeds(
    servo: Servo,
    feed_time: u64,
    state: FeedState,
    event: FeedEvent,
)
    requires
        servo.pwm is None,
    ensures
        feed_timeline(servo, feed_time).len() == 0,
        feed_step_spec(servo, feed_time, state, event) == (state, FeedAction::Finish(Ok(()))),
{
}

} // verus!
