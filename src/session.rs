//! The per-connection command protocol, as a state machine. The connection
//! thread reads a line, hands it here, and carries out the action that comes
//! back: answer the client, queue a request for the scale, or look in the
//! cache (after a pause) and hand back what it found. Every wait is bounded by
//! a timeout fixed when the command arrives. An immediate read that finds no
//! fresh reading keeps looking, one poll interval apart, until the cache
//! duration has passed, and only then answers with the no-data reply.
use vstd::prelude::*;
use crate::cache::age;
use crate::command::{classify_chunk, kind_of_line, Command, LineKind};
use crate::text::line_of;

verus! {

/// Pause between two looks into the cache while a command waits for a reading.
pub const POLL_INTERVAL_MS: u64 = 10;

/// `NO DATA` and a line feed: no reading was fresh enough for an immediate read.
pub open spec fn no_data_reply() -> Seq<u8> {
    seq![0x4eu8, 0x4fu8, 0x20u8, 0x44u8, 0x41u8, 0x54u8, 0x41u8, 0x0au8]
}

/// `W TIMEOUT` and a line feed: no fresh reading came before the wait timed out.
pub open spec fn wait_timeout_reply() -> Seq<u8> {
    seq![0x57u8, 0x20u8, 0x54u8, 0x49u8, 0x4du8, 0x45u8, 0x4fu8, 0x55u8, 0x54u8, 0x0au8]
}

/// `Comando invalido` and a line feed: the line named no command.
pub open spec fn invalid_command_reply() -> Seq<u8> {
    seq![0x43u8, 0x6fu8, 0x6du8, 0x61u8, 0x6eu8, 0x64u8, 0x6fu8, 0x20u8, 0x69u8, 0x6eu8, 0x76u8, 0x61u8, 0x6cu8, 0x69u8, 0x64u8, 0x6fu8, 0x0au8]
}

/// `W ERROR` and a line feed: the request could not be handed to the serial loop.
pub open spec fn trigger_failed_reply() -> Seq<u8> {
    seq![0x57u8, 0x20u8, 0x45u8, 0x52u8, 0x52u8, 0x4fu8, 0x52u8, 0x0au8]
}

/// `W`: the scale's command to take and send a new reading.
pub open spec fn trigger_request() -> Seq<u8> {
    seq![0x57u8]
}

/// The bytes of [`no_data_reply`].
pub fn no_data_reply_bytes() -> (r: Vec<u8>)
    ensures
        r@ == no_data_reply(),
{
    let r = vec![0x4eu8, 0x4fu8, 0x20u8, 0x44u8, 0x41u8, 0x54u8, 0x41u8, 0x0au8];
    assert(r@ =~= no_data_reply());
    r
}

/// The bytes of [`wait_timeout_reply`].
pub fn wait_timeout_reply_bytes() -> (r: Vec<u8>)
    ensures
        r@ == wait_timeout_reply(),
{
    let r = vec![0x57u8, 0x20u8, 0x54u8, 0x49u8, 0x4du8, 0x45u8, 0x4fu8, 0x55u8, 0x54u8, 0x0au8];
    assert(r@ =~= wait_timeout_reply());
    r
}

/// The bytes of [`invalid_command_reply`].
pub fn invalid_command_reply_bytes() -> (r: Vec<u8>)
    ensures
        r@ == invalid_command_reply(),
{
    let r = vec![0x43u8, 0x6fu8, 0x6du8, 0x61u8, 0x6eu8, 0x64u8, 0x6fu8, 0x20u8, 0x69u8, 0x6eu8, 0x76u8, 0x61u8, 0x6cu8, 0x69u8, 0x64u8, 0x6fu8, 0x0au8];
    assert(r@ =~= invalid_command_reply());
    r
}

/// The bytes of [`trigger_failed_reply`].
pub fn trigger_failed_reply_bytes() -> (r: Vec<u8>)
    ensures
        r@ == trigger_failed_reply(),
{
    let r = vec![0x57u8, 0x20u8, 0x45u8, 0x52u8, 0x52u8, 0x4fu8, 0x52u8, 0x0au8];
    assert(r@ =~= trigger_failed_reply());
    r
}

/// The bytes of [`trigger_request`].
pub fn trigger_request_bytes() -> (r: Vec<u8>)
    ensures
        r@ == trigger_request(),
{
    let r = vec![0x57u8];
    assert(r@ =~= trigger_request());
    r
}

/// The three timing parameters, read once for each command.
#[derive(Clone, Copy, Debug, PartialEq, Eq, Structural)]
pub struct Timing {
    /// How old a reading may be to answer an immediate read; also how long
    /// an immediate read waits for one.
    pub cache_duration_ms: u64,
    /// How old a reading may be to answer a trigger-and-wait read.
    pub w_cache_duration_ms: u64,
    /// How long a trigger-and-wait read waits in all.
    pub w_response_timeout_ms: u64,
}

/// Where a connection stands.
#[derive(Clone, Copy, Debug, PartialEq, Eq, Structural)]
pub enum Phase {
    /// Waiting for the next line from the client.
    AwaitLine,
    /// A trigger request was handed out; waiting to learn whether it was queued.
    Triggering { freshness_ms: u64, timeout_ms: u64 },
    /// Looking into the cache until a reading at most `freshness_ms` old turns
    /// up, or more than `timeout_ms` have passed since `started_ms`.
    Polling { command: Command, freshness_ms: u64, timeout_ms: u64, started_ms: u64 },
}

/// What the connection thread is asked to do next, over plain values.
pub enum Step {
    /// Nothing: read the next line.
    Idle,
    /// Write these bytes to the client, then read the next line.
    Reply(Seq<u8>),
    /// Queue these bytes for the scale, then report whether that worked.
    Enqueue(Seq<u8>),
    /// Pause `delay_ms`, look for a reading at most `freshness_ms` old, and
    /// report what was found.
    Probe { delay_ms: u64, freshness_ms: u64 },
}

/// What the connection thread is asked to do next.
pub enum Action {
    /// Nothing: read the next line.
    Idle,
    /// Write these bytes to the client, then read the next line.
    Reply(Vec<u8>),
    /// Queue these bytes for the scale, then report whether that worked.
    Enqueue(Vec<u8>),
    /// Pause `delay_ms`, look for a reading at most `freshness_ms` old, and
    /// report what was found.
    Probe { delay_ms: u64, freshness_ms: u64 },
}

impl View for Action {
    type V = Step;

    open spec fn view(&self) -> Step {
        match self {
            Action::Idle => Step::Idle,
            Action::Reply(b) => Step::Reply(b@),
            Action::Enqueue(b) => Step::Enqueue(b@),
            Action::Probe { delay_ms, freshness_ms } => Step::Probe {
                delay_ms: *delay_ms,
                freshness_ms: *freshness_ms,
            },
        }
    }
}

/// The answer sent when a wait for `command` runs out.
pub open spec fn timeout_reply(command: Command) -> Seq<u8> {
    match command {
        Command::ImmediateRead => no_data_reply(),
        Command::TriggerAndWait => wait_timeout_reply(),
    }
}

/// A line arrives. Only a connection waiting for a line takes one.
pub open spec fn step_on_line(phase: Phase, line: Seq<char>, timing: Timing, now_ms: u64) -> (Phase, Step) {
    match phase {
        Phase::AwaitLine => match kind_of_line(line) {
            LineKind::Blank => (Phase::AwaitLine, Step::Idle),
            LineKind::Unrecognized => (Phase::AwaitLine, Step::Reply(invalid_command_reply())),
            LineKind::Request(Command::ImmediateRead) => (
                Phase::Polling {
                    command: Command::ImmediateRead,
                    freshness_ms: timing.cache_duration_ms,
                    timeout_ms: timing.cache_duration_ms,
                    started_ms: now_ms,
                },
                Step::Probe { delay_ms: 0, freshness_ms: timing.cache_duration_ms },
            ),
            LineKind::Request(Command::TriggerAndWait) => (
                Phase::Triggering {
                    freshness_ms: timing.w_cache_duration_ms,
                    timeout_ms: timing.w_response_timeout_ms,
                },
                Step::Enqueue(trigger_request()),
            ),
        },
        _ => (phase, Step::Idle),
    }
}

/// The trigger request was queued (`accepted`) or refused.
pub open spec fn step_on_enqueued(phase: Phase, accepted: bool, now_ms: u64) -> (Phase, Step) {
    match phase {
        Phase::Triggering { freshness_ms, timeout_ms } => if accepted {
            (
                Phase::Polling {
                    command: Command::TriggerAndWait,
                    freshness_ms,
                    timeout_ms,
                    started_ms: now_ms,
                },
                Step::Probe { delay_ms: 0, freshness_ms },
            )
        } else {
            (Phase::AwaitLine, Step::Reply(trigger_failed_reply()))
        },
        _ => (phase, Step::Idle),
    }
}

/// A look into the cache found `probe`: a fresh payload, or nothing.
pub open spec fn step_on_probe(phase: Phase, probe: Option<Seq<u8>>, now_ms: u64) -> (Phase, Step) {
    match phase {
        Phase::Polling { command, freshness_ms, timeout_ms, started_ms } => match probe {
            Some(payload) => (Phase::AwaitLine, Step::Reply(payload)),
            None => if age(started_ms, now_ms) > timeout_ms {
                (Phase::AwaitLine, Step::Reply(timeout_reply(command)))
            } else {
                (phase, Step::Probe { delay_ms: POLL_INTERVAL_MS, freshness_ms })
            },
        },
        _ => (phase, Step::Idle),
    }
}

/// The protocol state of one client connection.
pub struct Session {
    pub phase: Phase,
}

impl Session {
    /// A connection that waits for its first line.
    pub fn new() -> (r: Self)
        ensures
            r.phase == Phase::AwaitLine,
    {
        Session { phase: Phase::AwaitLine }
    }

    /// A chunk of client input arrives at `now_ms`; `timing` is the
    /// configuration as it stands now, kept for the whole command.
    pub fn on_line(&mut self, chunk: &[u8], timing: Timing, now_ms: u64) -> (r: Action)
        ensures
            (final(self).phase, r@) == step_on_line(old(self).phase, line_of(chunk@), timing, now_ms),
    {
        match self.phase {
            Phase::AwaitLine => match classify_chunk(chunk) {
                LineKind::Blank => Action::Idle,
                LineKind::Unrecognized => Action::Reply(invalid_command_reply_bytes()),
                LineKind::Request(Command::ImmediateRead) => {
                    self.phase = Phase::Polling {
                        command: Command::ImmediateRead,
                        freshness_ms: timing.cache_duration_ms,
                        timeout_ms: timing.cache_duration_ms,
                        started_ms: now_ms,
                    };
                    Action::Probe { delay_ms: 0, freshness_ms: timing.cache_duration_ms }
                },
                LineKind::Request(Command::TriggerAndWait) => {
                    self.phase = Phase::Triggering {
                        freshness_ms: timing.w_cache_duration_ms,
                        timeout_ms: timing.w_response_timeout_ms,
                    };
                    Action::Enqueue(trigger_request_bytes())
                },
            },
            _ => Action::Idle,
        }
    }

    /// The trigger request was queued for the scale (`accepted`) or refused,
    /// at `now_ms`.
    pub fn on_enqueued(&mut self, accepted: bool, now_ms: u64) -> (r: Action)
        ensures
            (final(self).phase, r@) == step_on_enqueued(old(self).phase, accepted, now_ms),
    {
        match self.phase {
            Phase::Triggering { freshness_ms, timeout_ms } => {
                if accepted {
                    self.phase = Phase::Polling {
                        command: Command::TriggerAndWait,
                        freshness_ms,
                        timeout_ms,
                        started_ms: now_ms,
                    };
                    Action::Probe { delay_ms: 0, freshness_ms }
                } else {
                    self.phase = Phase::AwaitLine;
                    Action::Reply(trigger_failed_reply_bytes())
                }
            },
            _ => Action::Idle,
        }
    }

    /// A look into the cache at `now_ms` found `probe`.
    pub fn on_probe(&mut self, probe: Option<Vec<u8>>, now_ms: u64) -> (r: Action)
        ensures
            (final(self).phase, r@) == step_on_probe(
                old(self).phase,
                match probe {
                    Some(d) => Some(d@),
                    None => None,
                },
                now_ms,
            ),
    {
        match self.phase {
            Phase::Polling { command, freshness_ms, timeout_ms, started_ms } => match probe {
                Some(payload) => {
                    self.phase = Phase::AwaitLine;
                    Action::Reply(payload)
                },
                None => {
                    let elapsed: u64 = if now_ms >= started_ms {
                        now_ms - started_ms
                    } else {
                        0
                    };
                    if elapsed > timeout_ms {
                        self.phase = Phase::AwaitLine;
                        match command {
                            Command::ImmediateRead => Action::Reply(no_data_reply_bytes()),
                            Command::TriggerAndWait => Action::Reply(wait_timeout_reply_bytes()),
                        }
                    } else {
                        Action::Probe { delay_ms: POLL_INTERVAL_MS, freshness_ms }
                    }
                },
            },
            _ => Action::Idle,
        }
    }
}

/// An immediate read against a cache that never has a fresh reading: while
/// at most `cache_duration_ms` have passed since the line arrived it keeps
/// looking, one poll interval apart, and never answers; at any look after
/// that it answers with the no-data reply and waits for the next line. So
/// the answer comes no earlier than the cache duration and no later than one
/// poll interval after it.
pub proof fn lemma_immediate_read_on_empty_cache(
    line: Seq<char>,
    timing: Timing,
    arrived_ms: u64,
    probe_ms: u64,
)
    requires
        kind_of_line(line) == LineKind::Request(Command::ImmediateRead),
        arrived_ms <= probe_ms,
    ensures
        ({
            let (waiting, first) = step_on_line(Phase::AwaitLine, line, timing, arrived_ms);
            let (after, step) = step_on_probe(waiting, None, probe_ms);
            &&& first == Step::Probe { delay_ms: 0, freshness_ms: timing.cache_duration_ms }
            &&& probe_ms - arrived_ms <= timing.cache_duration_ms ==> after == waiting && step
                == Step::Probe { delay_ms: POLL_INTERVAL_MS, freshness_ms: timing.cache_duration_ms }
            &&& probe_ms - arrived_ms > timing.cache_duration_ms ==> after == Phase::AwaitLine
                && step == Step::Reply(no_data_reply())
        }),
{
}

/// A trigger-and-wait read hands out exactly one request for the scale, the
/// trigger, when its line arrives. Once the request is queued, a fresh
/// reading found at any time is the answer; while none is found, the
/// timeout reply comes exactly when more than the response timeout has
/// passed since the request was queued, and before that it keeps looking
/// one poll interval apart. A refused request is answered with the failure
/// reply at once.
pub proof fn lemma_trigger_and_wait(
    line: Seq<char>,
    timing: Timing,
    arrived_ms: u64,
    queued_ms: u64,
    probe_ms: u64,
    reading: Seq<u8>,
)
    requires
        kind_of_line(line) == LineKind::Request(Command::TriggerAndWait),
        queued_ms <= probe_ms,
    ensures
        ({
            let (triggering, first) = step_on_line(Phase::AwaitLine, line, timing, arrived_ms);
            let (waiting, second) = step_on_enqueued(triggering, true, queued_ms);
            let (found_phase, found) = step_on_probe(waiting, Some(reading), probe_ms);
            let (missed_phase, missed) = step_on_probe(waiting, None, probe_ms);
            let (refused_phase, refused) = step_on_enqueued(triggering, false, queued_ms);
            &&& first == Step::Enqueue(trigger_request())
            &&& second == Step::Probe { delay_ms: 0, freshness_ms: timing.w_cache_duration_ms }
            &&& found_phase == Phase::AwaitLine && found == Step::Reply(reading)
            &&& probe_ms - queued_ms > timing.w_response_timeout_ms ==> missed_phase
                == Phase::AwaitLine && missed == Step::Reply(wait_timeout_reply())
            &&& probe_ms - queued_ms <= timing.w_response_timeout_ms ==> missed_phase == waiting
                && missed == Step::Probe {
                delay_ms: POLL_INTERVAL_MS,
                freshness_ms: timing.w_cache_duration_ms,
            }
            &&& refused_phase == Phase::AwaitLine && refused == Step::Reply(trigger_failed_reply())
        }),
{
}

/// Requests for the scale come only from a trigger-and-wait line received
/// while waiting for a line: no other line, no report of a queued request
/// and no look into the cache ever asks for another one.
pub proof fn lemma_enqueue_only_on_trigger(
    phase: Phase,
    line: Seq<char>,
    timing: Timing,
    accepted: bool,
    probe: Option<Seq<u8>>,
    now_ms: u64,
)
    ensures
        step_on_line(phase, line, timing, now_ms).1 is Enqueue ==> phase == Phase::AwaitLine
            && kind_of_line(line) == LineKind::Request(Command::TriggerAndWait),
        !(step_on_enqueued(phase, accepted, now_ms).1 is Enqueue),
        !(step_on_probe(phase, probe, now_ms).1 is Enqueue),
{
}

/// A line that names no command is answered with the invalid-command reply,
/// and the connection goes back to waiting for its next line.
pub proof fn lemma_unrecognized_line(line: Seq<char>, timing: Timing, now_ms: u64)
    requires
        kind_of_line(line) == LineKind::Unrecognized,
    ensures
        step_on_line(Phase::AwaitLine, line, timing, now_ms) == (
            Phase::AwaitLine,
            Step::Reply(invalid_command_reply()),
        ),
{
}

} // verus!
