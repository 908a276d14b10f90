//! The scan-cycle state machine: Idle, AcquireAdapter, Scanning, Pausing, in
//! an unbounded cycle with no terminal state short of a consumer failure.
//!
//! The machine is a pure step function from state and event to next state,
//! at most one outbound message, and the effects the surrounding driver must
//! perform (open the central manager, start or stop a scan, await events
//! with a deadline, sleep).  The driver owns all adapter I/O and feeds the
//! outcome of each effect back in as the next event.  A configuration
//! snapshot is taken from the shared cell once per cycle, at the cycle-start
//! transition, and held inside the state: a mid-cycle configuration write
//! has no effect before the next cycle.

use vstd::prelude::*;

use crate::config::Config;
use crate::config::ConfigV;
use crate::decode::decode_manufacturer_data;
use crate::decode::decoded_humidity;
use crate::decode::decoded_temp_tenths;
use crate::decode::decodes;
use crate::decode::int16_from_le;
use crate::msg::Message;
use crate::msg::MessageV;
use crate::msg::Reading;
use crate::msg::ReadingV;
use crate::msg::StatusKind;
use crate::msg::Timestamp;

verus! {

/// ASCII lower-casing of one byte.
pub open spec fn ascii_lower(b: u8) -> u8 {
    if 65 <= b <= 90 {
        (b + 32) as u8
    } else {
        b
    }
}

/// Case-insensitive ASCII equality of two addresses.
pub open spec fn addr_matches(a: Seq<u8>, b: Seq<u8>) -> bool {
    a.len() == b.len() && forall|i: int| 0 <= i < a.len() ==> ascii_lower(a[i]) == ascii_lower(b[i])
}

/// Compares two ASCII texts case-insensitively.
pub fn eq_ignore_ascii_case_bytes(a: &Vec<u8>, b: &Vec<u8>) -> (r: bool)
    ensures
        r == addr_matches(a@, b@),
{
    if a.len() != b.len() {
        return false;
    }
    let mut i: usize = 0;
    while i < a.len()
        invariant
            i <= a@.len(),
            a@.len() == b@.len(),
            forall|j: int| 0 <= j < i ==> ascii_lower(a@[j]) == ascii_lower(b@[j]),
        decreases a@.len() - i,
    {
        let x = a[i];
        let y = b[i];
        let lx = if 65 <= x && x <= 90 {
            x + 32
        } else {
            x
        };
        let ly = if 65 <= y && y <= 90 {
            y + 32
        } else {
            y
        };
        if lx != ly {
            return false;
        }
        i += 1;
    }
    true
}

/// Copies a byte vector.
fn copy_bytes(src: &Vec<u8>) -> (r: Vec<u8>)
    ensures
        r@ == src@,
{
    let mut out: Vec<u8> = Vec::new();
    let mut i: usize = 0;
    while i < src.len()
        invariant
            i <= src@.len(),
            out@ == src@.subrange(0, i as int),
        decreases src@.len() - i,
    {
        out.push(src[i]);
        proof {
            assert(out@ =~= src@.subrange(0, i + 1 as int));
        }
        i += 1;
    }
    proof {
        assert(out@ =~= src@);
    }
    out
}

/// Abstract value of a [`ScanEvent`].
pub ghost enum ScanEventV {
    CycleStart,
    ManagerFailed,
    ManagerReady { adapter_found: bool },
    ScanStarted { ok: bool },
    Advertisement {
        device_id: Seq<u8>,
        address: Seq<u8>,
        rssi: Option<i16>,
        manufacturer_data: Seq<(u16, Vec<u8>)>,
    },
    DeadlineReached,
    ScanStopped,
    ChannelClosed,
}

/// One event the driver feeds into the machine: the tick that starts a
/// cycle, the outcome of opening the central manager or starting a scan, one
/// discovery/update advertisement, the scan-window deadline, the
/// acknowledgement of a stopped scan, or the loss of the outbound channel.
#[derive(Debug)]
pub enum ScanEvent {
    CycleStart,
    ManagerFailed,
    ManagerReady { adapter_found: bool },
    ScanStarted { ok: bool },
    Advertisement {
        device_id: Vec<u8>,
        address: Vec<u8>,
        rssi: Option<i16>,
        manufacturer_data: Vec<(u16, Vec<u8>)>,
    },
    DeadlineReached,
    ScanStopped,
    ChannelClosed,
}

impl View for ScanEvent {
    type V = ScanEventV;

    open spec fn view(&self) -> ScanEventV {
        match self {
            ScanEvent::CycleStart => ScanEventV::CycleStart,
            ScanEvent::ManagerFailed => ScanEventV::ManagerFailed,
            ScanEvent::ManagerReady { adapter_found } => ScanEventV::ManagerReady {
                adapter_found: *adapter_found,
            },
            ScanEvent::ScanStarted { ok } => ScanEventV::ScanStarted { ok: *ok },
            ScanEvent::Advertisement { device_id, address, rssi, manufacturer_data } => ScanEventV::Advertisement {
                device_id: device_id@,
                address: address@,
                rssi: *rssi,
                manufacturer_data: manufacturer_data@,
            },
            ScanEvent::DeadlineReached => ScanEventV::DeadlineReached,
            ScanEvent::ScanStopped => ScanEventV::ScanStopped,
            ScanEvent::ChannelClosed => ScanEventV::ChannelClosed,
        }
    }
}

/// Abstract value of a [`ScanState`].
pub ghost enum ScanStateV {
    Idle,
    AcquireAdapter { cfg: ConfigV },
    StartingScan { cfg: ConfigV },
    Scanning { cfg: ConfigV, emitted: u64 },
    StoppingScan { cfg: ConfigV },
    Pausing { cfg: ConfigV },
    Stopped,
}

/// The machine's state.  Every state inside a cycle carries the
/// configuration snapshot taken when the cycle began; `emitted` counts the
/// readings emitted within the current scan window.
#[derive(Debug)]
pub enum ScanState {
    Idle,
    AcquireAdapter { cfg: Config },
    StartingScan { cfg: Config },
    Scanning { cfg: Config, emitted: u64 },
    StoppingScan { cfg: Config },
    Pausing { cfg: Config },
    Stopped,
}

impl View for ScanState {
    type V = ScanStateV;

    open spec fn view(&self) -> ScanStateV {
        match self {
            ScanState::Idle => ScanStateV::Idle,
            ScanState::AcquireAdapter { cfg } => ScanStateV::AcquireAdapter { cfg: cfg@ },
            ScanState::StartingScan { cfg } => ScanStateV::StartingScan { cfg: cfg@ },
            ScanState::Scanning { cfg, emitted } => ScanStateV::Scanning {
                cfg: cfg@,
                emitted: *emitted,
            },
            ScanState::StoppingScan { cfg } => ScanStateV::StoppingScan { cfg: cfg@ },
            ScanState::Pausing { cfg } => ScanStateV::Pausing { cfg: cfg@ },
            ScanState::Stopped => ScanStateV::Stopped,
        }
    }
}

/// The side effects the driver must perform after one step.  At most one of
/// the request flags is set per step, together with `sleep_secs` where the
/// step enters the pause.
#[derive(Clone, Copy, PartialEq, Eq, Debug)]
pub struct ScanEffects {
    pub open_manager: bool,
    pub start_scan: bool,
    pub await_events_secs: Option<u64>,
    pub stop_scan: bool,
    pub sleep_secs: Option<u64>,
}

/// No effect requested.
pub open spec fn no_scan_effects() -> ScanEffects {
    ScanEffects {
        open_manager: false,
        start_scan: false,
        await_events_secs: None,
        stop_scan: false,
        sleep_secs: None,
    }
}

/// The inter-cycle pause: one second in continuous mode, the configured
/// pause otherwise.
pub open spec fn pause_secs(cfg: ConfigV) -> u64 {
    if cfg.continuous_mode {
        1
    } else {
        cfg.scan_pause_secs
    }
}

/// The scan-window deadline: the continuous-mode window in continuous mode,
/// the configured scan timeout otherwise.
pub open spec fn scan_window_secs(cfg: ConfigV) -> u64 {
    if cfg.continuous_mode {
        cfg.continuous_scan_secs
    } else {
        cfg.scan_timeout_secs
    }
}

/// Outcome of one step of the machine.
pub ghost struct StepOutcomeV {
    pub post: ScanStateV,
    pub msg: Option<MessageV>,
    pub effects: ScanEffects,
}

/// The reading constructed from a matching, decodable advertisement
/// observed at `now`.
pub open spec fn advertisement_reading(
    device_id: Seq<u8>,
    rssi: Option<i16>,
    manufacturer_data: Seq<(u16, Vec<u8>)>,
    now: Timestamp,
) -> ReadingV
    recommends
        decodes(manufacturer_data),
{
    ReadingV {
        captured_at: now,
        temp_tenths: decoded_temp_tenths(manufacturer_data) as i16,
        humidity: decoded_humidity(manufacturer_data),
        device_id: device_id,
        rssi: rssi,
        raw_data: manufacturer_data[0].1@,
    }
}

/// One step of the scan-cycle machine.
///
/// `cell` is the shared configuration cell's current value; it is consulted
/// only by the cycle-start transition, which snapshots it into the new
/// state.  A lost outbound channel stops the machine from any state; an
/// event that does not fit the current state is ignored and treated as
/// recoverable, leaving the state unchanged.
pub open spec fn scan_step_spec(
    pre: ScanStateV,
    cell: ConfigV,
    ev: ScanEventV,
    now: Timestamp,
) -> StepOutcomeV {
    match (pre, ev) {
        (_, ScanEventV::ChannelClosed) => StepOutcomeV {
            post: ScanStateV::Stopped,
            msg: None,
            effects: no_scan_effects(),
        },
        (ScanStateV::Idle, ScanEventV::CycleStart) => StepOutcomeV {
            post: ScanStateV::AcquireAdapter { cfg: cell },
            msg: None,
            effects: ScanEffects { open_manager: true, ..no_scan_effects() },
        },
        (ScanStateV::Pausing { cfg: _ }, ScanEventV::CycleStart) => StepOutcomeV {
            post: ScanStateV::AcquireAdapter { cfg: cell },
            msg: None,
            effects: ScanEffects { open_manager: true, ..no_scan_effects() },
        },
        (ScanStateV::AcquireAdapter { cfg }, ScanEventV::ManagerFailed) => StepOutcomeV {
            post: ScanStateV::Pausing { cfg },
            msg: Some(MessageV::StatusUpdate(StatusKind::AdapterError)),
            effects: ScanEffects { sleep_secs: Some(pause_secs(cfg)), ..no_scan_effects() },
        },
        (ScanStateV::AcquireAdapter { cfg }, ScanEventV::ManagerReady { adapter_found }) => {
            if adapter_found {
                StepOutcomeV {
                    post: ScanStateV::StartingScan { cfg },
                    msg: Some(
                        MessageV::StatusUpdate(
                            if cfg.continuous_mode {
                                StatusKind::ScanningContinuous
                            } else {
                                StatusKind::ScanningBounded
                            },
                        ),
                    ),
                    effects: ScanEffects { start_scan: true, ..no_scan_effects() },
                }
            } else {
                StepOutcomeV {
                    post: ScanStateV::Pausing { cfg },
                    msg: Some(MessageV::StatusUpdate(StatusKind::Waiting)),
                    effects: ScanEffects { sleep_secs: Some(pause_secs(cfg)), ..no_scan_effects() },
                }
            }
        },
        (ScanStateV::StartingScan { cfg }, ScanEventV::ScanStarted { ok }) => {
            if ok {
                StepOutcomeV {
                    post: ScanStateV::Scanning { cfg, emitted: 0 },
                    msg: None,
                    effects: ScanEffects {
                        await_events_secs: Some(scan_window_secs(cfg)),
                        ..no_scan_effects()
                    },
                }
            } else {
                StepOutcomeV {
                    post: ScanStateV::Pausing { cfg },
                    msg: Some(MessageV::StatusUpdate(StatusKind::Waiting)),
                    effects: ScanEffects { sleep_secs: Some(pause_secs(cfg)), ..no_scan_effects() },
                }
            }
        },
        (
            ScanStateV::Scanning { cfg, emitted },
            ScanEventV::Advertisement { device_id, address, rssi, manufacturer_data },
        ) => {
            if addr_matches(address, cfg.target_address) && decodes(manufacturer_data) {
                let reading = advertisement_reading(device_id, rssi, manufacturer_data, now);
                if cfg.continuous_mode {
                    StepOutcomeV {
                        post: ScanStateV::Scanning {
                            cfg,
                            emitted: if emitted < u64::MAX {
                                (emitted + 1) as u64
                            } else {
                                emitted
                            },
                        },
                        msg: Some(MessageV::NewData(reading)),
                        effects: no_scan_effects(),
                    }
                } else {
                    StepOutcomeV {
                        post: ScanStateV::StoppingScan { cfg },
                        msg: Some(MessageV::NewData(reading)),
                        effects: ScanEffects { stop_scan: true, ..no_scan_effects() },
                    }
                }
            } else {
                StepOutcomeV {
                    post: ScanStateV::Scanning { cfg, emitted },
                    msg: None,
                    effects: no_scan_effects(),
                }
            }
        },
        (ScanStateV::Scanning { cfg, emitted: _ }, ScanEventV::DeadlineReached) => StepOutcomeV {
            post: ScanStateV::StoppingScan { cfg },
            msg: None,
            effects: ScanEffects { stop_scan: true, ..no_scan_effects() },
        },
        (ScanStateV::StoppingScan { cfg }, ScanEventV::ScanStopped) => StepOutcomeV {
            post: ScanStateV::Pausing { cfg },
            msg: Some(MessageV::StatusUpdate(StatusKind::Waiting)),
            effects: ScanEffects { sleep_secs: Some(pause_secs(cfg)), ..no_scan_effects() },
        },
        (p, _) => StepOutcomeV { post: p, msg: None, effects: no_scan_effects() },
    }
}

/// View of an optional outbound message.
pub open spec fn opt_msg_view(m: Option<Message>) -> Option<MessageV> {
    match m {
        Option::None => None,
        Option::Some(x) => Some(x@),
    }
}

/// Performs one step of the scan-cycle machine.
pub fn scan_step(pre: ScanState, cell: &Config, ev: ScanEvent, now: Timestamp) -> (r: (
    ScanState,
    Option<Message>,
    ScanEffects,
))
    ensures
        r.0@ == scan_step_spec(pre@, cell@, ev@, now).post,
        opt_msg_view(r.1) == scan_step_spec(pre@, cell@, ev@, now).msg,
        r.2 == scan_step_spec(pre@, cell@, ev@, now).effects,
{
    let none_effects = ScanEffects {
        open_manager: false,
        start_scan: false,
        await_events_secs: None,
        stop_scan: false,
        sleep_secs: None,
    };
    match (pre, ev) {
        (_, ScanEvent::ChannelClosed) => (ScanState::Stopped, None, none_effects),
        (ScanState::Idle, ScanEvent::CycleStart) => (
            ScanState::AcquireAdapter { cfg: cell.clone() },
            None,
            ScanEffects { open_manager: true, ..none_effects },
        ),
        (ScanState::Pausing { cfg: _ }, ScanEvent::CycleStart) => (
            ScanState::AcquireAdapter { cfg: cell.clone() },
            None,
            ScanEffects { open_manager: true, ..none_effects },
        ),
        (ScanState::AcquireAdapter { cfg }, ScanEvent::ManagerFailed) => {
            let pause = if cfg.continuous_mode {
                1
            } else {
                cfg.scan_pause_secs
            };
            (
                ScanState::Pausing { cfg },
                Some(Message::StatusUpdate(StatusKind::AdapterError)),
                ScanEffects { sleep_secs: Some(pause), ..none_effects },
            )
        },
        (ScanState::AcquireAdapter { cfg }, ScanEvent::ManagerReady { adapter_found }) => {
            if adapter_found {
                let kind = if cfg.continuous_mode {
                    StatusKind::ScanningContinuous
                } else {
                    StatusKind::ScanningBounded
                };
                (
                    ScanState::StartingScan { cfg },
                    Some(Message::StatusUpdate(kind)),
                    ScanEffects { start_scan: true, ..none_effects },
                )
            } else {
                let pause = if cfg.continuous_mode {
                    1
                } else {
                    cfg.scan_pause_secs
                };
                (
                    ScanState::Pausing { cfg },
                    Some(Message::StatusUpdate(StatusKind::Waiting)),
                    ScanEffects { sleep_secs: Some(pause), ..none_effects },
                )
            }
        },
        (ScanState::StartingScan { cfg }, ScanEvent::ScanStarted { ok }) => {
            if ok {
                let window = if cfg.continuous_mode {
                    cfg.continuous_scan_secs
                } else {
                    cfg.scan_timeout_secs
                };
                (
                    ScanState::Scanning { cfg, emitted: 0 },
                    None,
                    ScanEffects { await_events_secs: Some(window), ..none_effects },
                )
            } else {
                let pause = if cfg.continuous_mode {
                    1
                } else {
                    cfg.scan_pause_secs
                };
                (
                    ScanState::Pausing { cfg },
                    Some(Message::StatusUpdate(StatusKind::Waiting)),
                    ScanEffects { sleep_secs: Some(pause), ..none_effects },
                )
            }
        },
        (
            ScanState::Scanning { cfg, emitted },
            ScanEvent::Advertisement { device_id, address, rssi, manufacturer_data },
        ) => {
            if eq_ignore_ascii_case_bytes(&address, &cfg.target_address) {
                match decode_manufacturer_data(&manufacturer_data) {
                    Ok(sample) => {
                        proof {
                            assert(-32768 <= int16_from_le(
                                (manufacturer_data@[0].0 / 256) as u8,
                                manufacturer_data@[0].1@[0],
                            ) <= 32767);
                        }
                        let raw = copy_bytes(&manufacturer_data[0].1);
                        let reading = Reading {
                            captured_at: now,
                            temp_tenths: sample.0,
                            humidity: sample.1,
                            device_id,
                            rssi,
                            raw_data: raw,
                        };
                        if cfg.continuous_mode {
                            let new_emitted = if emitted < u64::MAX {
                                emitted + 1
                            } else {
                                emitted
                            };
                            (
                                ScanState::Scanning { cfg, emitted: new_emitted },
                                Some(Message::NewData(reading)),
                                none_effects,
                            )
                        } else {
                            (
                                ScanState::StoppingScan { cfg },
                                Some(Message::NewData(reading)),
                                ScanEffects { stop_scan: true, ..none_effects },
                            )
                        }
                    },
                    Err(_) => (ScanState::Scanning { cfg, emitted }, None, none_effects),
                }
            } else {
                (ScanState::Scanning { cfg, emitted }, None, none_effects)
            }
        },
        (ScanState::Scanning { cfg, emitted: _ }, ScanEvent::DeadlineReached) => (
            ScanState::StoppingScan { cfg },
            None,
            ScanEffects { stop_scan: true, ..none_effects },
        ),
        (ScanState::StoppingScan { cfg }, ScanEvent::ScanStopped) => {
            let pause = if cfg.continuous_mode {
                1
            } else {
                cfg.scan_pause_secs
            };
            (
                ScanState::Pausing { cfg },
                Some(Message::StatusUpdate(StatusKind::Waiting)),
                ScanEffects { sleep_secs: Some(pause), ..none_effects },
            )
        },
        (p, _) => (p, None, none_effects),
    }
}

/// Number of readings the machine emits when fed the events `evs`, each
/// paired with its observation time, starting from `pre` with the shared
/// cell holding `cell`.
pub open spec fn run_readings(
    pre: ScanStateV,
    cell: ConfigV,
    evs: Seq<(ScanEventV, Timestamp)>,
) -> int
    decreases evs.len(),
{
    if evs.len() == 0 {
        0
    } else {
        let out = scan_step_spec(pre, cell, evs[0].0, evs[0].1);
        (if out.msg matches Some(MessageV::NewData(_)) {
            1int
        } else {
            0int
        }) + run_readings(out.post, cell, evs.skip(1))
    }
}

/// Whether the machine is outside any cycle, or inside a cycle whose
/// snapshot has continuous mode switched off.
pub open spec fn bounded_mode(s: ScanStateV) -> bool {
    match s {
        ScanStateV::Idle => true,
        ScanStateV::AcquireAdapter { cfg } => !cfg.continuous_mode,
        ScanStateV::StartingScan { cfg } => !cfg.continuous_mode,
        ScanStateV::Scanning { cfg, emitted: _ } => !cfg.continuous_mode,
        ScanStateV::StoppingScan { cfg } => !cfg.continuous_mode,
        ScanStateV::Pausing { cfg } => !cfg.continuous_mode,
        ScanStateV::Stopped => true,
    }
}

/// How many more readings the current cycle may still emit in bounded mode.
pub open spec fn cycle_credit(s: ScanStateV) -> int {
    match s {
        ScanStateV::AcquireAdapter { cfg: _ } => 1,
        ScanStateV::StartingScan { cfg: _ } => 1,
        ScanStateV::Scanning { cfg: _, emitted: _ } => 1,
        _ => 0,
    }
}

/// One bounded-mode step that is not a cycle start keeps bounded mode and
/// pays any emission out of the cycle's credit.
proof fn lemma_bounded_step(pre: ScanStateV, cell: ConfigV, ev: ScanEventV, now: Timestamp)
    requires
        bounded_mode(pre),
        !(ev is CycleStart),
    ensures
        ({
            let out = scan_step_spec(pre, cell, ev, now);
            &&& bounded_mode(out.post)
            &&& (if out.msg matches Some(MessageV::NewData(_)) {
                1int
            } else {
                0int
            }) + cycle_credit(out.post) <= cycle_credit(pre)
        }),
{
}

/// Bounded-mode law: within one scan cycle (no cycle-start event), the
/// machine emits at most one reading, however many events arrive; the
/// emission, when it happens, ends the scanning state at once.
pub proof fn lemma_bounded_mode_one_reading_per_cycle(
    pre: ScanStateV,
    cell: ConfigV,
    evs: Seq<(ScanEventV, Timestamp)>,
)
    requires
        bounded_mode(pre),
        forall|i: int| 0 <= i < evs.len() ==> !((#[trigger] evs[i]).0 is CycleStart),
    ensures
        run_readings(pre, cell, evs) <= cycle_credit(pre),
        run_readings(pre, cell, evs) <= 1,
    decreases evs.len(),
{
    if evs.len() == 0 {
    } else {
        let out = scan_step_spec(pre, cell, evs[0].0, evs[0].1);
        lemma_bounded_step(pre, cell, evs[0].0, evs[0].1);
        assert forall|i: int| 0 <= i < evs.skip(1).len() implies !((#[trigger] evs.skip(
            1,
        )[i]).0 is CycleStart) by {
            assert(evs.skip(1)[i] == evs[i + 1]);
        }
        lemma_bounded_mode_one_reading_per_cycle(out.post, cell, evs.skip(1));
    }
}

/// In bounded mode, an emission leaves the scanning state immediately.
pub proof fn lemma_bounded_emission_stops_scanning(
    pre: ScanStateV,
    cell: ConfigV,
    ev: ScanEventV,
    now: Timestamp,
)
    requires
        bounded_mode(pre),
        scan_step_spec(pre, cell, ev, now).msg matches Some(MessageV::NewData(_)),
    ensures
        pre is Scanning,
        scan_step_spec(pre, cell, ev, now).post is StoppingScan,
        scan_step_spec(pre, cell, ev, now).effects.stop_scan,
{
}

/// Whether an event is an advertisement from the configured target whose
/// payload decodes.
pub open spec fn matching_advertisement(ev: ScanEventV, cfg: ConfigV) -> bool {
    ev matches ScanEventV::Advertisement { device_id: _, address, rssi: _, manufacturer_data }
        && addr_matches(address, cfg.target_address) && decodes(manufacturer_data)
}

/// Continuous-mode law: while scanning continuously, every matching,
/// decodable advertisement emits a reading and keeps the machine scanning,
/// so one scan window may emit any number of readings, gated only by the
/// downstream debounce stage.
pub proof fn lemma_continuous_window_emits_all(
    pre: ScanStateV,
    cell: ConfigV,
    evs: Seq<(ScanEventV, Timestamp)>,
)
    requires
        pre matches ScanStateV::Scanning { cfg, emitted: _ } && cfg.continuous_mode,
        forall|i: int|
            0 <= i < evs.len() ==> matching_advertisement(
                (#[trigger] evs[i]).0,
                pre->Scanning_cfg,
            ),
    ensures
        run_readings(pre, cell, evs) == evs.len(),
    decreases evs.len(),
{
    if evs.len() == 0 {
    } else {
        let out = scan_step_spec(pre, cell, evs[0].0, evs[0].1);
        assert(out.msg matches Some(MessageV::NewData(_)));
        assert(out.post matches ScanStateV::Scanning { cfg, emitted: _ }
            && cfg == pre->Scanning_cfg);
        assert forall|i: int| 0 <= i < evs.skip(1).len() implies matching_advertisement(
            (#[trigger] evs.skip(1)[i]).0,
            out.post->Scanning_cfg,
        ) by {
            assert(evs.skip(1)[i] == evs[i + 1]);
        }
        lemma_continuous_window_emits_all(out.post, cell, evs.skip(1));
    }
}

/// Configuration-staleness law: the machine reads the shared cell only at
/// the cycle-start transition out of `Idle` or `Pausing`.  Every other step
/// is independent of the cell's current value, so a configuration write
/// during an active scan cycle has no observable effect before the next
/// cycle begins.
pub proof fn lemma_config_staleness(
    pre: ScanStateV,
    c1: ConfigV,
    c2: ConfigV,
    ev: ScanEventV,
    now: Timestamp,
)
    requires
        ev is CycleStart ==> !(pre is Idle || pre is Pausing),
    ensures
        scan_step_spec(pre, c1, ev, now) == scan_step_spec(pre, c2, ev, now),
{
}

/// The configuration snapshot a state carries, if any.
pub open spec fn state_cfg(s: ScanStateV) -> Option<ConfigV> {
    match s {
        ScanStateV::Idle => None,
        ScanStateV::AcquireAdapter { cfg } => Some(cfg),
        ScanStateV::StartingScan { cfg } => Some(cfg),
        ScanStateV::Scanning { cfg, emitted: _ } => Some(cfg),
        ScanStateV::StoppingScan { cfg } => Some(cfg),
        ScanStateV::Pausing { cfg } => Some(cfg),
        ScanStateV::Stopped => None,
    }
}

/// The snapshot taken at cycle start is carried unchanged through the whole
/// cycle.
pub proof fn lemma_cycle_config_preserved(
    pre: ScanStateV,
    cell: ConfigV,
    ev: ScanEventV,
    now: Timestamp,
)
    requires
        !(ev is CycleStart),
        !(ev is ChannelClosed),
    ensures
        state_cfg(scan_step_spec(pre, cell, ev, now).post) == state_cfg(pre),
{
}

/// Liveness law: no event short of losing the outbound channel stops the
/// machine; adapter faults, failed scans and stray events all leave it in a
/// state from which the cycle continues.
pub proof fn lemma_only_channel_loss_stops(
    pre: ScanStateV,
    cell: ConfigV,
    ev: ScanEventV,
    now: Timestamp,
)
    requires
        !(pre is Stopped),
        !(ev is ChannelClosed),
    ensures
        !(scan_step_spec(pre, cell, ev, now).post is Stopped),
{
}

/// A failed manager open is recoverable: it reports the adapter error,
/// emits no reading, and leaves the machine pausing with its snapshot
/// intact, ready to retry on the next cycle.
pub proof fn lemma_manager_failure_recovers(cfg: ConfigV, cell: ConfigV, now: Timestamp)
    ensures
        ({
            let out = scan_step_spec(
                ScanStateV::AcquireAdapter { cfg },
                cell,
                ScanEventV::ManagerFailed,
                now,
            );
            &&& out.post == ScanStateV::Pausing { cfg }
            &&& out.msg == Some(MessageV::StatusUpdate(StatusKind::AdapterError))
            &&& out.effects.sleep_secs == Some(pause_secs(cfg))
        }),
{
}

} // verus!
