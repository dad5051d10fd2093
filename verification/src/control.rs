//! The control loop: the single always-running scheduler. Each iteration
//! advances the clock by one elapsed timer period, toggles the heartbeat
//! output once more than the threshold has passed since the last toggle,
//! and services the command channel, dispatching at most one command into a
//! textual response or a sensor read.
//!
//! The loop owns only decisions. Its caller performs the blocking wait on
//! the timer peripheral, the non-blocking transport read whose bytes feed
//! [`ControlLoop::step`], the writes of the responses it returns, the
//! heartbeat output itself, and the sensor read that answers an orientation
//! request (handing the sample to [`sample_response`]; a failed read is
//! answered by writing nothing that cycle).

use crate::command::Command;
use crate::command::CommandModel;
use crate::command::poll;
use crate::command::spec_poll;
use crate::orientation::display_orientation;
use crate::orientation::orientation;
use crate::orientation::spec_display;
use crate::orientation::spec_orientation;
use crate::time::Timer;
use vstd::prelude::*;
use vstd::string::StringExecFns;

verus! {

/// Milliseconds that must have elapsed since the last heartbeat toggle,
/// strictly, before the output toggles again.
pub const HEARTBEAT_THRESHOLD_MS: u64 = 500;

/// The decimal digit characters of `n`, most significant first, without
/// sign or leading zeroes.
pub open spec fn decimal_chars(n: nat) -> Seq<char>
    decreases n,
{
    if n < 10 {
        seq![digit_char(n)]
    } else {
        decimal_chars(n / 10).push(digit_char(n % 10))
    }
}

/// The character of one decimal digit.
pub open spec fn digit_char(d: nat) -> char
    recommends
        d < 10,
{
    if d == 0 {
        '0'
    } else if d == 1 {
        '1'
    } else if d == 2 {
        '2'
    } else if d == 3 {
        '3'
    } else if d == 4 {
        '4'
    } else if d == 5 {
        '5'
    } else if d == 6 {
        '6'
    } else if d == 7 {
        '7'
    } else if d == 8 {
        '8'
    } else {
        '9'
    }
}

/// Relies on lexical_core::write: for an unsigned integer it writes the
/// plain decimal digits of the value and returns the written prefix, which
/// is always large enough in a buffer of the integer's formatted size.
#[verifier::external_body]
fn decimal_string(v: u64) -> (r: String)
    ensures
        r@ == decimal_chars(v as nat),
{
    let mut buf = [0u8; 32];
    let written = lexical_core::write(v, &mut buf);
    core::str::from_utf8(written).unwrap().to_string()
}

/// The reaction the loop takes to one command.
pub enum Action {
    /// Write this text to the transport.
    Respond(String),
    /// Read one fresh acceleration sample and answer with its
    /// classification (or with nothing, when the read fails).
    ReadSensor,
}

/// The mathematical value of an [`Action`].
pub enum ActionModel {
    Respond(Seq<char>),
    ReadSensor,
}

impl View for Action {
    type V = ActionModel;

    open spec fn view(&self) -> ActionModel {
        match self {
            Action::Respond(text) => ActionModel::Respond(text@),
            Action::ReadSensor => ActionModel::ReadSensor,
        }
    }
}

/// The reaction to each command: a fixed reply to a ping, the clock
/// reading to a clock request, a sensor read to an orientation request,
/// and a fixed reply to anything unrecognized.
pub open spec fn spec_dispatch(command: CommandModel, now: u64) -> ActionModel {
    match command {
        CommandModel::Ping => ActionModel::Respond("pong\n"@),
        CommandModel::ReportClock => ActionModel::Respond(
            "rtc: "@ + decimal_chars(now as nat) + "\n"@,
        ),
        CommandModel::ReportOrientation => ActionModel::ReadSensor,
        CommandModel::Unrecognized(_) => ActionModel::Respond("unknown command\n"@),
    }
}

/// Decide the reaction to one command, with `now` the current clock
/// reading.
pub fn dispatch(command: &Command, now: u64) -> (r: Action)
    ensures
        r@ == spec_dispatch(command@, now),
{
    match command {
        Command::Ping => Action::Respond("pong\n".to_owned()),
        Command::ReportClock => {
            let mut out: String = "rtc: ".to_owned();
            let digits = decimal_string(now);
            out.append(digits.as_str());
            out.append("\n");
            Action::Respond(out)
        },
        Command::ReportOrientation => Action::ReadSensor,
        Command::Unrecognized(_) => Action::Respond("unknown command\n".to_owned()),
    }
}

/// The reply to an orientation request once a sample was read: the display
/// string of the sample's classification and a line terminator.
pub fn sample_response(gx: i32, gy: i32, gz: i32) -> (r: String)
    ensures
        r@ == spec_display(spec_orientation(gx as int, gy as int, gz as int)) + "\n"@,
{
    let mut out: String = display_orientation(orientation(gx, gy, gz)).to_owned();
    out.append("\n");
    out
}

/// Whether the heartbeat is owed a toggle: strictly more than the
/// threshold has elapsed since the last toggle.
pub open spec fn heartbeat_due(last_toggled: u64, now: u64) -> bool
    recommends
        last_toggled <= now,
{
    HEARTBEAT_THRESHOLD_MS < now - last_toggled
}

/// One heartbeat decision: the stored timestamp after a cycle at time
/// `now`, and whether the output toggles this cycle.
pub open spec fn spec_heartbeat_step(last_toggled: u64, now: u64) -> (u64, bool) {
    if heartbeat_due(last_toggled, now) {
        (now, true)
    } else {
        (last_toggled, false)
    }
}

/// What the loop decides from the bytes one transport read produced:
/// nothing when no command was completed, else the dispatch of that
/// command.
pub open spec fn spec_step_action(buf: Seq<u8>, now: u64) -> Option<ActionModel> {
    match spec_poll(buf) {
        Some(command) => Some(spec_dispatch(command, now)),
        None => None,
    }
}

/// What one scheduler iteration returns to its caller.
pub struct StepOutput {
    /// Toggle the heartbeat output this cycle.
    pub toggle_heartbeat: bool,
    /// The reaction to a command completed this cycle, if one arrived.
    pub action: Option<Action>,
}

/// The scheduler's own state: the clock and the heartbeat's last-toggle
/// timestamp.
pub struct ControlLoop {
    timer: Timer,
    last_toggled: u64,
}

impl ControlLoop {
    /// The current clock reading.
    pub closed spec fn spec_millis(&self) -> u64 {
        self.timer.spec_millis()
    }

    /// The time of the last heartbeat toggle.
    pub closed spec fn spec_last_toggled(&self) -> u64 {
        self.last_toggled
    }

    /// Well-formed: the heartbeat timestamp was taken from the clock, so
    /// it never lies in the clock's future.
    pub open spec fn wf(&self) -> bool {
        self.spec_last_toggled() <= self.spec_millis()
    }

    /// A fresh loop around a fresh clock.
    pub fn new() -> (c: ControlLoop)
        ensures
            c.wf(),
            c.spec_millis() == 0,
            c.spec_last_toggled() == 0,
    {
        ControlLoop { timer: Timer::new(), last_toggled: 0 }
    }

    /// The current clock reading, for the caller's own bookkeeping.
    pub fn millis(&self) -> (r: u64)
        ensures
            r == self.spec_millis(),
    {
        self.timer.millis()
    }

    /// One scheduler iteration, entered after the caller's blocking wait
    /// on the timer period: advance the clock by one millisecond, decide
    /// the heartbeat, and service the command channel with `read`, the
    /// bytes the caller's non-blocking transport read just produced.
    pub fn step(&mut self, read: &[u8]) -> (r: StepOutput)
        requires
            old(self).wf(),
            old(self).spec_millis() < u64::MAX,
        ensures
            final(self).wf(),
            final(self).spec_millis() == old(self).spec_millis() + 1,
            ({
                let now = final(self).spec_millis();
                let hb = spec_heartbeat_step(old(self).spec_last_toggled(), now);
                &&& final(self).spec_last_toggled() == hb.0
                &&& r.toggle_heartbeat == hb.1
                &&& match r.action {
                    Some(a) => spec_step_action(read@, now) == Some(a@),
                    None => spec_step_action(read@, now) is None,
                }
            }),
    {
        self.timer.tick();
        let now = self.timer.millis();
        let toggle_heartbeat = HEARTBEAT_THRESHOLD_MS < now - self.last_toggled;
        if toggle_heartbeat {
            self.last_toggled = now;
        }
        let action = match poll(read) {
            Some(command) => Some(dispatch(&command, now)),
            None => None,
        };
        StepOutput { toggle_heartbeat, action }
    }
}

/// The heartbeat state left after servicing cycles at the given times in
/// order, paired with how many times the output toggled.
pub open spec fn run_heartbeat(last_toggled: u64, times: Seq<u64>) -> (u64, nat)
    decreases times.len(),
{
    if times.len() == 0 {
        (last_toggled, 0)
    } else {
        let first = spec_heartbeat_step(last_toggled, times[0]);
        let rest = run_heartbeat(first.0, times.drop_first());
        (rest.0, rest.1 + if first.1 {
            1nat
        } else {
            0nat
        })
    }
}

/// Cycles whose times never reach the threshold leave the heartbeat
/// untouched.
pub proof fn lemma_heartbeat_quiet(last_toggled: u64, times: Seq<u64>)
    requires
        forall|j: int| 0 <= j < times.len() ==> !heartbeat_due(last_toggled, times[j]),
    ensures
        run_heartbeat(last_toggled, times) == (last_toggled, 0nat),
    decreases times.len(),
{
    if times.len() > 0 {
        assert(!heartbeat_due(last_toggled, times[0]));
        assert(forall|j: int|
            0 <= j < times.drop_first().len() ==> !heartbeat_due(
                last_toggled,
                times.drop_first()[j],
            ));
        lemma_heartbeat_quiet(last_toggled, times.drop_first());
    }
}

/// Over a run of cycles whose times cross the heartbeat threshold exactly
/// once — at index `i`, with no earlier time due against the starting
/// timestamp and no later time due against the crossing time — the output
/// toggles exactly once and the stored timestamp becomes the crossing
/// cycle's time.
pub proof fn lemma_heartbeat_single_crossing(last_toggled: u64, times: Seq<u64>, i: int)
    requires
        0 <= i < times.len(),
        heartbeat_due(last_toggled, times[i]),
        forall|j: int| 0 <= j < i ==> !heartbeat_due(last_toggled, times[j]),
        forall|j: int| i < j < times.len() ==> !heartbeat_due(times[i], times[j]),
    ensures
        run_heartbeat(last_toggled, times) == (times[i], 1nat),
    decreases times.len(),
{
    if i == 0 {
        assert(forall|j: int|
            0 <= j < times.drop_first().len() ==> !heartbeat_due(
                times[0],
                times.drop_first()[j],
            ));
        lemma_heartbeat_quiet(times[0], times.drop_first());
    } else {
        assert(!heartbeat_due(last_toggled, times[0]));
        assert(forall|j: int| 0 <= j < i - 1 ==> !heartbeat_due(last_toggled, times.drop_first()[j]));
        assert(forall|j: int|
            i - 1 < j < times.drop_first().len() ==> !heartbeat_due(
                times.drop_first()[i - 1],
                #[trigger] times.drop_first()[j],
            ));
        lemma_heartbeat_single_crossing(last_toggled, times.drop_first(), i - 1);
    }
}

} // verus!
