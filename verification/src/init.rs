//! The initialization sequence, as a linear state machine.
//!
//! Bringing the sensor out of reset is a fixed, order-dependent sequence:
//! read the identity register and check it against the three accepted
//! silicon-revision codes, then issue eight configuration writes (reset,
//! wake, disable the auxiliary bus master, sample-rate divider, low-pass
//! filter, gyro range, accel range, accel filter), some followed by a
//! mandatory settle delay. Any bus failure, and any unknown identity code,
//! is fatal: no later step may run.
//!
//! The machine is pure: [`init_action`] says which transaction the current
//! step needs, and [`init_step`] consumes the application's reply and moves
//! to the next state. [`run_from_spec`] and [`actions_from_spec`] state what
//! any whole run does, and the lemmas at the end prove the ordering and the
//! fail-fast policy once and for all.

use vstd::prelude::*;

use crate::bus::{BusAction, BusEvent};

verus! {

/// Identity (who-am-i) register, read-only.
pub const REG_WHO_AM_I: u8 = 0x75;

/// Power management register 1: reset and clock-source control.
pub const REG_PWR_MGMT_1: u8 = 0x6B;

/// User control register: auxiliary bus master enable.
pub const REG_USER_CTRL: u8 = 0x6A;

/// Sample-rate divider register.
pub const REG_SMPLRT_DIV: u8 = 0x19;

/// Configuration register: digital low-pass filter select.
pub const REG_CONFIG: u8 = 0x1A;

/// Gyroscope configuration register: full-scale range select.
pub const REG_GYRO_CONFIG: u8 = 0x1B;

/// Accelerometer configuration register: full-scale range select.
pub const REG_ACCEL_CONFIG: u8 = 0x1C;

/// Second accelerometer configuration register: filter select.
pub const REG_ACCEL_CONFIG_2: u8 = 0x1D;

/// First of the fourteen contiguous output registers holding the sample
/// block.
pub const REG_ACCEL_XOUT_H: u8 = 0x3B;

/// Value written to the power management register to set the device-reset bit.
pub const VAL_DEVICE_RESET: u8 = 0x80;

/// Value written to the power management register to select the clock source
/// and clear the sleep bit.
pub const VAL_CLOCK_SELECT: u8 = 0x01;

/// Value disabling the auxiliary bus master.
pub const VAL_AUX_MASTER_OFF: u8 = 0x00;

/// Sample-rate divider setting.
pub const VAL_SAMPLE_RATE_DIV: u8 = 0x07;

/// Digital low-pass filter setting.
pub const VAL_DLPF: u8 = 0x03;

/// Gyroscope full-scale range setting (narrowest range).
pub const VAL_GYRO_RANGE: u8 = 0x00;

/// Accelerometer full-scale range setting (narrowest range).
pub const VAL_ACCEL_RANGE: u8 = 0x00;

/// Accelerometer filter setting.
pub const VAL_ACCEL_FILTER: u8 = 0x03;

/// One step of the initialization sequence, in execution order.
#[derive(Clone, Copy, Debug, PartialEq, Eq, Structural)]
pub enum InitStep {
    /// Read the identity register and check the code.
    Identify,
    /// Write the device-reset bit; a settle delay follows.
    Reset,
    /// Select the clock source and clear the sleep bit; a settle delay follows.
    Wake,
    /// Disable the auxiliary bus master.
    DisableAuxMaster,
    /// Set the sample-rate divider.
    SampleRate,
    /// Select the digital low-pass filter bandwidth.
    LowPassFilter,
    /// Select the gyroscope full-scale range.
    GyroRange,
    /// Select the accelerometer full-scale range.
    AccelRange,
    /// Select the accelerometer filter; the final settle delay follows.
    AccelFilter,
}

/// Why initialization failed. There is no recovery from any of these.
#[derive(Clone, Copy, Debug, PartialEq, Eq, Structural)]
pub enum InitError {
    /// The identity read transaction failed, or was answered with something
    /// other than a single byte.
    IdentifyFailed,
    /// The identity register was read but held none of the accepted codes.
    UnknownIdentity(u8),
    /// The configuration write of this step failed, or was answered with
    /// something other than a write acknowledgement.
    WriteFailed(InitStep),
}

/// The state of an initialization run.
#[derive(Clone, Copy, Debug, PartialEq, Eq, Structural)]
pub enum InitState {
    /// This step's transaction is owed next.
    Pending(InitStep),
    /// Every step succeeded; the sensor is configured.
    Complete,
    /// A step failed; no further transaction may be issued.
    Failed(InitError),
}

/// Whether `id` is one of the three accepted identity codes.
pub open spec fn identity_accepted_spec(id: u8) -> bool {
    id == 0x71 || id == 0x48 || id == 0x75
}

/// Whether `id` is one of the three accepted identity codes (the three known
/// silicon revisions of the sensor family).
pub fn identity_accepted(id: u8) -> (ok: bool)
    ensures
        ok == identity_accepted_spec(id),
{
    id == 0x71 || id == 0x48 || id == 0x75
}

/// The bus transaction a step needs, addressed to `slave`.
pub open spec fn step_action_spec(slave: u8, step: InitStep) -> BusAction {
    match step {
        InitStep::Identify => BusAction::WriteRead { slave, reg: REG_WHO_AM_I, read_len: 1 },
        InitStep::Reset => BusAction::Write { slave, reg: REG_PWR_MGMT_1, value: VAL_DEVICE_RESET },
        InitStep::Wake => BusAction::Write { slave, reg: REG_PWR_MGMT_1, value: VAL_CLOCK_SELECT },
        InitStep::DisableAuxMaster => BusAction::Write {
            slave,
            reg: REG_USER_CTRL,
            value: VAL_AUX_MASTER_OFF,
        },
        InitStep::SampleRate => BusAction::Write {
            slave,
            reg: REG_SMPLRT_DIV,
            value: VAL_SAMPLE_RATE_DIV,
        },
        InitStep::LowPassFilter => BusAction::Write { slave, reg: REG_CONFIG, value: VAL_DLPF },
        InitStep::GyroRange => BusAction::Write {
            slave,
            reg: REG_GYRO_CONFIG,
            value: VAL_GYRO_RANGE,
        },
        InitStep::AccelRange => BusAction::Write {
            slave,
            reg: REG_ACCEL_CONFIG,
            value: VAL_ACCEL_RANGE,
        },
        InitStep::AccelFilter => BusAction::Write {
            slave,
            reg: REG_ACCEL_CONFIG_2,
            value: VAL_ACCEL_FILTER,
        },
    }
}

/// The bus transaction a step needs, addressed to `slave`.
pub fn init_action(slave: u8, step: &InitStep) -> (action: BusAction)
    ensures
        action == step_action_spec(slave, *step),
{
    match step {
        InitStep::Identify => BusAction::WriteRead { slave, reg: REG_WHO_AM_I, read_len: 1 },
        InitStep::Reset => BusAction::Write { slave, reg: REG_PWR_MGMT_1, value: VAL_DEVICE_RESET },
        InitStep::Wake => BusAction::Write { slave, reg: REG_PWR_MGMT_1, value: VAL_CLOCK_SELECT },
        InitStep::DisableAuxMaster => BusAction::Write {
            slave,
            reg: REG_USER_CTRL,
            value: VAL_AUX_MASTER_OFF,
        },
        InitStep::SampleRate => BusAction::Write {
            slave,
            reg: REG_SMPLRT_DIV,
            value: VAL_SAMPLE_RATE_DIV,
        },
        InitStep::LowPassFilter => BusAction::Write { slave, reg: REG_CONFIG, value: VAL_DLPF },
        InitStep::GyroRange => BusAction::Write {
            slave,
            reg: REG_GYRO_CONFIG,
            value: VAL_GYRO_RANGE,
        },
        InitStep::AccelRange => BusAction::Write {
            slave,
            reg: REG_ACCEL_CONFIG,
            value: VAL_ACCEL_RANGE,
        },
        InitStep::AccelFilter => BusAction::Write {
            slave,
            reg: REG_ACCEL_CONFIG_2,
            value: VAL_ACCEL_FILTER,
        },
    }
}

/// The state a step moves to when its transaction succeeds.
pub open spec fn step_after_spec(step: InitStep) -> InitState {
    match step {
        InitStep::Identify => InitState::Pending(InitStep::Reset),
        InitStep::Reset => InitState::Pending(InitStep::Wake),
        InitStep::Wake => InitState::Pending(InitStep::DisableAuxMaster),
        InitStep::DisableAuxMaster => InitState::Pending(InitStep::SampleRate),
        InitStep::SampleRate => InitState::Pending(InitStep::LowPassFilter),
        InitStep::LowPassFilter => InitState::Pending(InitStep::GyroRange),
        InitStep::GyroRange => InitState::Pending(InitStep::AccelRange),
        InitStep::AccelRange => InitState::Pending(InitStep::AccelFilter),
        InitStep::AccelFilter => InitState::Complete,
    }
}

/// The settle delay owed after a step's transaction succeeds, in
/// milliseconds. The device's internal reset and wake take a bounded but
/// non-negligible time; issuing further commands before they complete
/// yields undefined register state.
pub open spec fn settle_delay_ms_spec(step: InitStep) -> u64 {
    match step {
        InitStep::Reset => 100,
        InitStep::Wake => 50,
        InitStep::AccelFilter => 20,
        _ => 0,
    }
}

/// The settle delay owed after a step's transaction succeeds, in
/// milliseconds. The application must wait this long before performing the
/// next action.
pub fn settle_delay_ms(step: &InitStep) -> (ms: u64)
    ensures
        ms == settle_delay_ms_spec(*step),
{
    match step {
        InitStep::Reset => 100,
        InitStep::Wake => 50,
        InitStep::AccelFilter => 20,
        _ => 0,
    }
}

/// The transition a reply causes. A terminal state absorbs every event.
/// At `Identify`, only a one-byte read answer with an accepted code
/// proceeds; any other reply is fatal. At a write step, only a write
/// acknowledgement proceeds.
pub open spec fn init_transition_spec(state: InitState, event: BusEvent) -> InitState {
    match state {
        InitState::Pending(step) => match step {
            InitStep::Identify => match event {
                BusEvent::ReadOk(id) => if identity_accepted_spec(id) {
                    step_after_spec(step)
                } else {
                    InitState::Failed(InitError::UnknownIdentity(id))
                },
                _ => InitState::Failed(InitError::IdentifyFailed),
            },
            _ => match event {
                BusEvent::WriteOk => step_after_spec(step),
                _ => InitState::Failed(InitError::WriteFailed(step)),
            },
        },
        _ => state,
    }
}

/// The state every initialization run starts in.
pub open spec fn init_initial_spec() -> InitState {
    InitState::Pending(InitStep::Identify)
}

/// The state every initialization run starts in.
pub fn init_initial() -> (state: InitState)
    ensures
        state == init_initial_spec(),
{
    InitState::Pending(InitStep::Identify)
}

/// Consumes one reply and moves to the next state.
pub fn init_step(state: &InitState, event: &BusEvent) -> (next: InitState)
    ensures
        next == init_transition_spec(*state, *event),
{
    match state {
        InitState::Pending(step) => match step {
            InitStep::Identify => match event {
                BusEvent::ReadOk(id) => {
                    if identity_accepted(*id) {
                        InitState::Pending(InitStep::Reset)
                    } else {
                        InitState::Failed(InitError::UnknownIdentity(*id))
                    }
                },
                _ => InitState::Failed(InitError::IdentifyFailed),
            },
            _ => match event {
                BusEvent::WriteOk => step_after(step),
                _ => InitState::Failed(InitError::WriteFailed(*step)),
            },
        },
        _ => *state,
    }
}

/// The state a step moves to when its transaction succeeds.
fn step_after(step: &InitStep) -> (next: InitState)
    ensures
        next == step_after_spec(*step),
{
    match step {
        InitStep::Identify => InitState::Pending(InitStep::Reset),
        InitStep::Reset => InitState::Pending(InitStep::Wake),
        InitStep::Wake => InitState::Pending(InitStep::DisableAuxMaster),
        InitStep::DisableAuxMaster => InitState::Pending(InitStep::SampleRate),
        InitStep::SampleRate => InitState::Pending(InitStep::LowPassFilter),
        InitStep::LowPassFilter => InitState::Pending(InitStep::GyroRange),
        InitStep::GyroRange => InitState::Pending(InitStep::AccelRange),
        InitStep::AccelRange => InitState::Pending(InitStep::AccelFilter),
        InitStep::AccelFilter => InitState::Complete,
    }
}

/// The state a run reaches from `state` after consuming `events` in order,
/// stopping early at a terminal state.
pub open spec fn run_from_spec(state: InitState, events: Seq<BusEvent>) -> InitState
    decreases events.len(),
{
    if events.len() == 0 || !(state is Pending) {
        state
    } else {
        run_from_spec(init_transition_spec(state, events[0]), events.skip(1))
    }
}

/// The bus transactions a run from `state` issues while consuming `events`:
/// one per reply consumed in a pending state, each issued before its reply
/// arrives, none once a terminal state is reached.
pub open spec fn actions_from_spec(slave: u8, state: InitState, events: Seq<BusEvent>) -> Seq<
    BusAction,
> decreases events.len() {
    if events.len() == 0 || !(state is Pending) {
        Seq::empty()
    } else {
        seq![step_action_spec(slave, state->Pending_0)] + actions_from_spec(
            slave,
            init_transition_spec(state, events[0]),
            events.skip(1),
        )
    }
}

/// A terminal state absorbs every reply: the run stays put and issues no
/// further transaction.
pub proof fn lemma_terminal_absorbs(slave: u8, state: InitState, events: Seq<BusEvent>)
    requires
        !(state is Pending),
    ensures
        run_from_spec(state, events) == state,
        actions_from_spec(slave, state, events) == Seq::<BusAction>::empty(),
{
}

/// Appending one reply to a run extends it by exactly one transition when
/// the run is still pending, and changes nothing when it has ended.
pub proof fn lemma_run_push(slave: u8, state: InitState, events: Seq<BusEvent>, e: BusEvent)
    ensures
        run_from_spec(state, events.push(e)) == (if run_from_spec(state, events) is Pending {
            init_transition_spec(run_from_spec(state, events), e)
        } else {
            run_from_spec(state, events)
        }),
        actions_from_spec(slave, state, events.push(e)) == (if run_from_spec(
            state,
            events,
        ) is Pending {
            actions_from_spec(slave, state, events).push(
                step_action_spec(slave, run_from_spec(state, events)->Pending_0),
            )
        } else {
            actions_from_spec(slave, state, events)
        }),
    decreases events.len(),
{
    if !(state is Pending) {
        lemma_terminal_absorbs(slave, state, events);
        lemma_terminal_absorbs(slave, state, events.push(e));
    } else if events.len() == 0 {
        let head = step_action_spec(slave, state->Pending_0);
        let next = init_transition_spec(state, e);
        assert(events.push(e)[0] == e);
        assert(events.push(e).skip(1) =~= Seq::<BusEvent>::empty());
        assert(run_from_spec(next, events.push(e).skip(1)) == next);
        assert(run_from_spec(state, events.push(e)) == next);
        assert(run_from_spec(state, events) == state);
        assert(actions_from_spec(slave, next, events.push(e).skip(1)) == Seq::<
            BusAction,
        >::empty());
        assert(actions_from_spec(slave, state, events.push(e)) == seq![head] + Seq::<
            BusAction,
        >::empty());
        assert(actions_from_spec(slave, state, events) == Seq::<BusAction>::empty());
        assert(seq![head] + Seq::<BusAction>::empty() =~= Seq::<BusAction>::empty().push(head));
    } else {
        let next = init_transition_spec(state, events[0]);
        let head = seq![step_action_spec(slave, state->Pending_0)];
        assert(events.push(e)[0] == events[0]);
        assert(events.push(e).skip(1) =~= events.skip(1).push(e));
        lemma_run_push(slave, next, events.skip(1), e);
        assert(run_from_spec(state, events) == run_from_spec(next, events.skip(1)));
        assert(run_from_spec(state, events.push(e)) == run_from_spec(
            next,
            events.skip(1).push(e),
        ));
        assert(actions_from_spec(slave, state, events) == head + actions_from_spec(
            slave,
            next,
            events.skip(1),
        ));
        assert(actions_from_spec(slave, state, events.push(e)) == head + actions_from_spec(
            slave,
            next,
            events.skip(1).push(e),
        ));
        if run_from_spec(next, events.skip(1)) is Pending {
            let last = step_action_spec(slave, run_from_spec(state, events)->Pending_0);
            assert(head + actions_from_spec(slave, next, events.skip(1)).push(last)
                =~= (head + actions_from_spec(slave, next, events.skip(1))).push(last));
        }
    }
}

/// A run splits at any point `k`: the whole run is the run over the first
/// `k` replies continued over the rest, and its transactions concatenate
/// accordingly.
pub proof fn lemma_run_decompose(slave: u8, state: InitState, events: Seq<BusEvent>, k: int)
    requires
        0 <= k <= events.len(),
    ensures
        run_from_spec(state, events) == run_from_spec(
            run_from_spec(state, events.take(k)),
            events.skip(k),
        ),
        actions_from_spec(slave, state, events) == actions_from_spec(slave, state, events.take(k))
            + actions_from_spec(slave, run_from_spec(state, events.take(k)), events.skip(k)),
    decreases k,
{
    if k == 0 {
        assert(events.take(0) =~= Seq::<BusEvent>::empty());
        assert(events.skip(0) =~= events);
        assert(Seq::<BusAction>::empty() + actions_from_spec(slave, state, events)
            =~= actions_from_spec(slave, state, events));
    } else if !(state is Pending) {
        lemma_terminal_absorbs(slave, state, events);
        lemma_terminal_absorbs(slave, state, events.take(k));
        lemma_terminal_absorbs(slave, state, events.skip(k));
        assert(Seq::<BusAction>::empty() + Seq::<BusAction>::empty() =~= Seq::<
            BusAction,
        >::empty());
    } else {
        let next = init_transition_spec(state, events[0]);
        assert(events.take(k)[0] == events[0]);
        assert(events.take(k).skip(1) =~= events.skip(1).take(k - 1));
        assert(events.skip(1).skip(k - 1) =~= events.skip(k));
        lemma_run_decompose(slave, next, events.skip(1), k - 1);
        let head = seq![step_action_spec(slave, state->Pending_0)];
        let mid = actions_from_spec(slave, next, events.skip(1).take(k - 1));
        let tail = actions_from_spec(
            slave,
            run_from_spec(next, events.skip(1).take(k - 1)),
            events.skip(k),
        );
        assert(head + (mid + tail) =~= (head + mid) + tail);
    }
}

/// A run that is still pending has answered every reply with exactly one
/// transaction: as many transactions as replies consumed.
proof fn lemma_actions_count(slave: u8, state: InitState, events: Seq<BusEvent>)
    ensures
        run_from_spec(state, events) is Pending ==> actions_from_spec(slave, state, events).len()
            == events.len(),
    decreases events.len(),
{
    if events.len() > 0 && state is Pending {
        lemma_actions_count(slave, init_transition_spec(state, events[0]), events.skip(1));
    }
}

/// The identity gate. An accepted identity code, and only an accepted one,
/// moves the machine past Identify into the Reset step; any other code is
/// fatal, and the whole run — whatever replies would have followed —
/// consists of exactly the one identity read, with no write issued.
pub proof fn lemma_identify_gate(slave: u8, id: u8, rest: Seq<BusEvent>)
    ensures
        identity_accepted_spec(id) <==> init_transition_spec(
            init_initial_spec(),
            BusEvent::ReadOk(id),
        ) == InitState::Pending(InitStep::Reset),
        !identity_accepted_spec(id) ==> init_transition_spec(
            init_initial_spec(),
            BusEvent::ReadOk(id),
        ) == InitState::Failed(InitError::UnknownIdentity(id)),
        !identity_accepted_spec(id) ==> run_from_spec(
            init_initial_spec(),
            seq![BusEvent::ReadOk(id)] + rest,
        ) == InitState::Failed(InitError::UnknownIdentity(id)),
        !identity_accepted_spec(id) ==> actions_from_spec(
            slave,
            init_initial_spec(),
            seq![BusEvent::ReadOk(id)] + rest,
        ) == seq![step_action_spec(slave, InitStep::Identify)],
{
    let events = seq![BusEvent::ReadOk(id)] + rest;
    assert(events[0] == BusEvent::ReadOk(id));
    assert(events.skip(1) =~= rest);
    if !identity_accepted_spec(id) {
        let failed = InitState::Failed(InitError::UnknownIdentity(id));
        lemma_terminal_absorbs(slave, failed, rest);
        assert(actions_from_spec(slave, init_initial_spec(), events) =~= seq![
            step_action_spec(slave, InitStep::Identify),
        ]);
    }
}

/// The fixed order of a successful run. With an accepted identity code and
/// every configuration write acknowledged, initialization completes and
/// issues exactly these nine transactions, in this order: the identity
/// read, then the writes reset, wake, disable-aux-master, sample-rate,
/// low-pass filter, gyro range, accel range, accel filter.
pub proof fn lemma_success_order(slave: u8, events: Seq<BusEvent>)
    requires
        events.len() == 9,
        events[0] matches BusEvent::ReadOk(id) && identity_accepted_spec(id),
        forall|j: int| 1 <= j < 9 ==> events[j] == BusEvent::WriteOk,
    ensures
        run_from_spec(init_initial_spec(), events) == InitState::Complete,
        actions_from_spec(slave, init_initial_spec(), events) == seq![
            step_action_spec(slave, InitStep::Identify),
            step_action_spec(slave, InitStep::Reset),
            step_action_spec(slave, InitStep::Wake),
            step_action_spec(slave, InitStep::DisableAuxMaster),
            step_action_spec(slave, InitStep::SampleRate),
            step_action_spec(slave, InitStep::LowPassFilter),
            step_action_spec(slave, InitStep::GyroRange),
            step_action_spec(slave, InitStep::AccelRange),
            step_action_spec(slave, InitStep::AccelFilter),
        ],
{
    assert forall|i: int| 0 <= i < 9 implies events.skip(i)[0] == events[i] by {}
    assert(events.skip(1).skip(1) =~= events.skip(2));
    assert(events.skip(2).skip(1) =~= events.skip(3));
    assert(events.skip(3).skip(1) =~= events.skip(4));
    assert(events.skip(4).skip(1) =~= events.skip(5));
    assert(events.skip(5).skip(1) =~= events.skip(6));
    assert(events.skip(6).skip(1) =~= events.skip(7));
    assert(events.skip(7).skip(1) =~= events.skip(8));
    assert(events.skip(8).skip(1) =~= events.skip(9));
    assert(events.skip(9) =~= Seq::<BusEvent>::empty());
    let s0 = init_initial_spec();
    let s1 = init_transition_spec(s0, events[0]);
    assert(s1 == InitState::Pending(InitStep::Reset));
    let s2 = init_transition_spec(s1, events[1]);
    assert(s2 == InitState::Pending(InitStep::Wake));
    let s3 = init_transition_spec(s2, events[2]);
    assert(s3 == InitState::Pending(InitStep::DisableAuxMaster));
    let s4 = init_transition_spec(s3, events[3]);
    assert(s4 == InitState::Pending(InitStep::SampleRate));
    let s5 = init_transition_spec(s4, events[4]);
    assert(s5 == InitState::Pending(InitStep::LowPassFilter));
    let s6 = init_transition_spec(s5, events[5]);
    assert(s6 == InitState::Pending(InitStep::GyroRange));
    let s7 = init_transition_spec(s6, events[6]);
    assert(s7 == InitState::Pending(InitStep::AccelRange));
    let s8 = init_transition_spec(s7, events[7]);
    assert(s8 == InitState::Pending(InitStep::AccelFilter));
    let s9 = init_transition_spec(s8, events[8]);
    assert(s9 == InitState::Complete);
    assert(run_from_spec(s0, events) == run_from_spec(s1, events.skip(1)));
    assert(run_from_spec(s1, events.skip(1)) == run_from_spec(s2, events.skip(2)));
    assert(run_from_spec(s2, events.skip(2)) == run_from_spec(s3, events.skip(3)));
    assert(run_from_spec(s3, events.skip(3)) == run_from_spec(s4, events.skip(4)));
    assert(run_from_spec(s4, events.skip(4)) == run_from_spec(s5, events.skip(5)));
    assert(run_from_spec(s5, events.skip(5)) == run_from_spec(s6, events.skip(6)));
    assert(run_from_spec(s6, events.skip(6)) == run_from_spec(s7, events.skip(7)));
    assert(run_from_spec(s7, events.skip(7)) == run_from_spec(s8, events.skip(8)));
    assert(run_from_spec(s8, events.skip(8)) == run_from_spec(s9, events.skip(9)));
    assert(run_from_spec(s9, events.skip(9)) == InitState::Complete);
    let a0 = step_action_spec(slave, InitStep::Identify);
    let a1 = step_action_spec(slave, InitStep::Reset);
    let a2 = step_action_spec(slave, InitStep::Wake);
    let a3 = step_action_spec(slave, InitStep::DisableAuxMaster);
    let a4 = step_action_spec(slave, InitStep::SampleRate);
    let a5 = step_action_spec(slave, InitStep::LowPassFilter);
    let a6 = step_action_spec(slave, InitStep::GyroRange);
    let a7 = step_action_spec(slave, InitStep::AccelRange);
    let a8 = step_action_spec(slave, InitStep::AccelFilter);
    assert(actions_from_spec(slave, s9, events.skip(9)) == Seq::<BusAction>::empty());
    assert(actions_from_spec(slave, s8, events.skip(8)) == seq![a8] + actions_from_spec(
        slave,
        s9,
        events.skip(9),
    ));
    assert(actions_from_spec(slave, s7, events.skip(7)) == seq![a7] + actions_from_spec(
        slave,
        s8,
        events.skip(8),
    ));
    assert(actions_from_spec(slave, s6, events.skip(6)) == seq![a6] + actions_from_spec(
        slave,
        s7,
        events.skip(7),
    ));
    assert(actions_from_spec(slave, s5, events.skip(5)) == seq![a5] + actions_from_spec(
        slave,
        s6,
        events.skip(6),
    ));
    assert(actions_from_spec(slave, s4, events.skip(4)) == seq![a4] + actions_from_spec(
        slave,
        s5,
        events.skip(5),
    ));
    assert(actions_from_spec(slave, s3, events.skip(3)) == seq![a3] + actions_from_spec(
        slave,
        s4,
        events.skip(4),
    ));
    assert(actions_from_spec(slave, s2, events.skip(2)) == seq![a2] + actions_from_spec(
        slave,
        s3,
        events.skip(3),
    ));
    assert(actions_from_spec(slave, s1, events.skip(1)) == seq![a1] + actions_from_spec(
        slave,
        s2,
        events.skip(2),
    ));
    assert(actions_from_spec(slave, s0, events) == seq![a0] + actions_from_spec(
        slave,
        s1,
        events.skip(1),
    ));
    assert(actions_from_spec(slave, init_initial_spec(), events) =~= seq![
        step_action_spec(slave, InitStep::Identify),
        step_action_spec(slave, InitStep::Reset),
        step_action_spec(slave, InitStep::Wake),
        step_action_spec(slave, InitStep::DisableAuxMaster),
        step_action_spec(slave, InitStep::SampleRate),
        step_action_spec(slave, InitStep::LowPassFilter),
        step_action_spec(slave, InitStep::GyroRange),
        step_action_spec(slave, InitStep::AccelRange),
        step_action_spec(slave, InitStep::AccelFilter),
    ]);
}

/// Fail-fast. If the run is still pending when the reply to its `k`-th
/// transaction reports a failure, the run ends in a failed state and issues
/// no transaction after that one: exactly `k + 1` in all, whatever replies
/// would have followed.
pub proof fn lemma_fail_fast(slave: u8, events: Seq<BusEvent>, k: int)
    requires
        0 <= k < events.len(),
        run_from_spec(init_initial_spec(), events.take(k)) is Pending,
        events[k] == BusEvent::Failed,
    ensures
        run_from_spec(init_initial_spec(), events) is Failed,
        actions_from_spec(slave, init_initial_spec(), events).len() == k + 1,
{
    let initial = init_initial_spec();
    let pre = run_from_spec(initial, events.take(k));
    lemma_run_decompose(slave, initial, events, k);
    lemma_actions_count(slave, initial, events.take(k));
    let tail = events.skip(k);
    assert(tail[0] == events[k]);
    let next = init_transition_spec(pre, BusEvent::Failed);
    assert(next is Failed);
    assert(tail.skip(1) =~= events.skip(k + 1));
    lemma_terminal_absorbs(slave, next, events.skip(k + 1));
    assert(run_from_spec(pre, tail) == next);
    assert(actions_from_spec(slave, pre, tail) =~= seq![
        step_action_spec(slave, pre->Pending_0),
    ]);
}

} // verus!
