//! The deduplication/persistence stage that sits between the scanner and the
//! consumer.  A dedicated sequential worker feeds it messages in strict
//! arrival order; it suppresses readings that arrive within the configured
//! minimum interval of the last *accepted* reading, renders the log row for
//! each accepted reading, and passes status messages through unchanged.
//!
//! The debounce decision uses wall-clock time sampled at processing time,
//! handed in by the caller as plain values.

use vstd::prelude::*;

use crate::logfmt::render_log_row;
use crate::logfmt::row_rep;
use crate::msg::Message;
use crate::msg::MessageV;
use crate::msg::Reading;
use crate::msg::ReadingV;
use crate::msg::Timestamp;

verus! {

/// The only state the stage keeps across readings: the processing time (unix
/// seconds) of the last accepted reading, or `None` before the first one.
/// It is reset only on process restart, never cleared.
#[derive(Clone, Copy, Debug)]
pub struct DebounceState {
    pub last_accepted_secs: Option<i64>,
}

impl DebounceState {
    /// The state at process start: no reading accepted yet.
    pub fn initial() -> (r: DebounceState)
        ensures
            r.last_accepted_secs is None,
    {
        DebounceState { last_accepted_secs: None }
    }
}

/// The debounce rule: a reading processed at `now_secs` is accepted when no
/// reading was accepted before, or when at least `threshold_secs` have
/// elapsed since the last accepted one.
pub open spec fn debounce_accepts(last: Option<i64>, now_secs: int, threshold_secs: u64) -> bool {
    match last {
        Option::None => true,
        Option::Some(l) => now_secs - l >= threshold_secs,
    }
}

/// Abstract value of a [`StageEffect`].
pub ghost enum StageEffectV {
    Persist { row: Seq<u8>, reading: ReadingV },
    Forward { message: MessageV },
    Discard,
}

/// What the worker must do after one step: append `row` to the daily log and
/// then forward the persistence outcome and the reading (see
/// [`after_write`]); forward a message unchanged; or do nothing.
#[derive(Debug)]
pub enum StageEffect {
    Persist { row: Vec<u8>, reading: Reading },
    Forward { message: Message },
    Discard,
}

impl View for StageEffect {
    type V = StageEffectV;

    open spec fn view(&self) -> StageEffectV {
        match self {
            StageEffect::Persist { row, reading } => StageEffectV::Persist {
                row: row@,
                reading: reading@,
            },
            StageEffect::Forward { message } => StageEffectV::Forward { message: message@ },
            StageEffect::Discard => StageEffectV::Discard,
        }
    }
}

/// One step of the stage: the next state and the effect, as a function of
/// the inbound message and the processing-time clock.
///
/// An accepted reading advances the debounce clock regardless of how the
/// subsequent write turns out; a suppressed reading changes nothing.  Status
/// messages pass through unchanged; inbound persistence results are dropped.
pub open spec fn stage_step_spec(
    st: DebounceState,
    msg: MessageV,
    now: Timestamp,
    now_secs: i64,
    threshold_secs: u64,
) -> (DebounceState, StageEffectV) {
    match msg {
        MessageV::NewData(r) => {
            if debounce_accepts(st.last_accepted_secs, now_secs as int, threshold_secs) {
                (
                    DebounceState { last_accepted_secs: Some(now_secs) },
                    StageEffectV::Persist {
                        row: row_rep(now, r.temp_tenths, r.humidity),
                        reading: r,
                    },
                )
            } else {
                (st, StageEffectV::Discard)
            }
        },
        MessageV::StatusUpdate(k) => (
            st,
            StageEffectV::Forward { message: MessageV::StatusUpdate(k) },
        ),
        MessageV::PersistenceResult(_) => (st, StageEffectV::Discard),
    }
}

/// Processes one inbound message: decides acceptance, renders the log row
/// for an accepted reading, and reports the effect the worker must perform.
pub fn stage_step(
    st: DebounceState,
    msg: Message,
    now: &Timestamp,
    now_secs: i64,
    threshold_secs: u64,
) -> (r: (DebounceState, StageEffect))
    requires
        now.wf(),
    ensures
        r.0 == stage_step_spec(st, msg@, *now, now_secs, threshold_secs).0,
        r.1@ == stage_step_spec(st, msg@, *now, now_secs, threshold_secs).1,
{
    match msg {
        Message::NewData(reading) => {
            let accept = match st.last_accepted_secs {
                Option::None => true,
                Option::Some(l) => {
                    let elapsed: i128 = now_secs as i128 - l as i128;
                    elapsed >= threshold_secs as i128
                },
            };
            if accept {
                let row = render_log_row(now, reading.temp_tenths, reading.humidity);
                (
                    DebounceState { last_accepted_secs: Some(now_secs) },
                    StageEffect::Persist { row, reading },
                )
            } else {
                (st, StageEffect::Discard)
            }
        },
        Message::StatusUpdate(k) => (st, StageEffect::Forward { message: Message::StatusUpdate(k) }),
        Message::PersistenceResult(_) => (st, StageEffect::Discard),
    }
}

/// The messages the worker republishes after attempting the write for an
/// accepted reading: the persistence outcome first, then the reading itself,
/// in channel order.
pub fn after_write(reading: Reading, write_ok: bool) -> (r: Vec<Message>)
    ensures
        r@.len() == 2,
        r@[0] == Message::PersistenceResult(write_ok),
        r@[1] == Message::NewData(reading),
{
    let mut out: Vec<Message> = Vec::new();
    out.push(Message::PersistenceResult(write_ok));
    out.push(Message::NewData(reading));
    out
}

/// The acceptance decisions of the greedy selection: each reading is
/// accepted exactly when its time lies at least `threshold_secs` after the
/// previously *accepted* time (not the previous raw reading).
pub open spec fn greedy_decisions(last: Option<i64>, times: Seq<i64>, threshold_secs: u64) -> Seq<
    bool,
>
    decreases times.len(),
{
    if times.len() == 0 {
        Seq::empty()
    } else {
        let accept = debounce_accepts(last, times[0] as int, threshold_secs);
        let next_last = if accept {
            Some(times[0])
        } else {
            last
        };
        seq![accept] + greedy_decisions(next_last, times.skip(1), threshold_secs)
    }
}

/// The acceptance decisions the stage makes when it processes the readings
/// `readings` at processing times `times` (with wall-clock stamps `stamps`),
/// in arrival order.
pub open spec fn stage_run_decisions(
    st: DebounceState,
    readings: Seq<ReadingV>,
    stamps: Seq<Timestamp>,
    times: Seq<i64>,
    threshold_secs: u64,
) -> Seq<bool>
    recommends
        readings.len() == times.len(),
        stamps.len() == times.len(),
    decreases times.len(),
{
    if times.len() == 0 {
        Seq::empty()
    } else {
        let step = stage_step_spec(
            st,
            MessageV::NewData(readings[0]),
            stamps[0],
            times[0],
            threshold_secs,
        );
        seq![step.1 is Persist] + stage_run_decisions(
            step.0,
            readings.skip(1),
            stamps.skip(1),
            times.skip(1),
            threshold_secs,
        )
    }
}

/// Debounce law: feeding readings through the stage in arrival order accepts
/// exactly the greedy subsequence in which each accepted processing time
/// lies at least the threshold after the previously accepted one.
pub proof fn lemma_debounce_greedy(
    st: DebounceState,
    readings: Seq<ReadingV>,
    stamps: Seq<Timestamp>,
    times: Seq<i64>,
    threshold_secs: u64,
)
    requires
        readings.len() == times.len(),
        stamps.len() == times.len(),
    ensures
        stage_run_decisions(st, readings, stamps, times, threshold_secs) == greedy_decisions(
            st.last_accepted_secs,
            times,
            threshold_secs,
        ),
    decreases times.len(),
{
    if times.len() == 0 {
    } else {
        let step = stage_step_spec(
            st,
            MessageV::NewData(readings[0]),
            stamps[0],
            times[0],
            threshold_secs,
        );
        lemma_debounce_greedy(
            step.0,
            readings.skip(1),
            stamps.skip(1),
            times.skip(1),
            threshold_secs,
        );
    }
}

/// Idempotence law: replaying an already-accepted reading through the stage
/// with the clock unchanged suppresses the second occurrence, for any
/// positive threshold.
pub proof fn lemma_replay_suppressed(
    st: DebounceState,
    r: ReadingV,
    now: Timestamp,
    now_secs: i64,
    threshold_secs: u64,
)
    requires
        threshold_secs >= 1,
        stage_step_spec(st, MessageV::NewData(r), now, now_secs, threshold_secs).1 is Persist,
    ensures
        stage_step_spec(
            stage_step_spec(st, MessageV::NewData(r), now, now_secs, threshold_secs).0,
            MessageV::NewData(r),
            now,
            now_secs,
            threshold_secs,
        ).1 is Discard,
{
}

} // verus!
