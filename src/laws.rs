use vstd::prelude::*;
use crate::messages::{
    ChargeError, ChargingMsg, Command, Effect, Iec6185Msg, MeterTagSet, Next, OcppChargerStatus,
    OcppMsg, Reply, ReservationSession, SlacStatus,
};
use crate::model::{
    on_available_current, on_iec, on_meter, on_ocpp, on_payment, on_power_control, on_reply,
    on_reserve, on_set_plug, on_set_power, on_slac, relay_close_allowed, session_safe, ManagerView,
    Phase, Transition,
};
use crate::reservation::reservation_outcome;
use crate::types::{ChargingState, PlugState, PowerRequest, ReservationState, ReservationStatus};

verus! {

/// The session is not charging while the plug is out.
pub open spec fn unplugged_not_charging(s: ChargingState) -> bool {
    s.plugged is PlugOut ==> !(s.power is Charging)
}

/// An input of a session that only sees plug events: the event, or the reply
/// to the call the manager asked for.
pub enum PlugInput {
    Plugged(bool),
    Answer(Reply),
}

/// The manager after one plug input.
pub open spec fn plug_input_step(v: ManagerView, input: PlugInput) -> ManagerView {
    match input {
        PlugInput::Plugged(inserted) => v.after(
            v.gate(on_iec(v.config, v.state, Iec6185Msg::Plugged(inserted))),
        ),
        PlugInput::Answer(r) => v.after(on_reply(v.config, v.state, v.phase, r)),
    }
}

/// The manager after a sequence of plug inputs, in order.
pub open spec fn plug_run(v: ManagerView, inputs: Seq<PlugInput>) -> ManagerView
    decreases inputs.len(),
{
    if inputs.len() == 0 {
        v
    } else {
        plug_run(plug_input_step(v, inputs[0]), inputs.drop_first())
    }
}

/// The phases a session that only sees plug events can be in.
spec fn plug_phase(p: Phase) -> bool {
    ||| p is Ready
    ||| p is PlugInReset
    ||| p is Confirm
    ||| p is PlugOutRead
    ||| p is PlugOutLogout
}

proof fn lemma_plug_run_invariant(v: ManagerView, inputs: Seq<PlugInput>)
    requires
        unplugged_not_charging(v.state),
        plug_phase(v.phase),
    ensures
        unplugged_not_charging(plug_run(v, inputs).state),
        plug_phase(plug_run(v, inputs).phase),
    decreases inputs.len(),
{
    if inputs.len() > 0 {
        let w = plug_input_step(v, inputs[0]);
        assert(unplugged_not_charging(w.state) && plug_phase(w.phase));
        lemma_plug_run_invariant(w, inputs.drop_first());
    }
}

/// Whatever plug-in and plug-out events arrive, and whatever the collaborators
/// answer to the calls they cause, a session that is not charging with the plug
/// out never comes to be so. A new station starts in such a state.
pub proof fn lemma_plug_events_never_charge_unplugged(v: ManagerView, inputs: Seq<PlugInput>)
    requires
        unplugged_not_charging(v.state),
        v.phase is Ready,
    ensures
        unplugged_not_charging(plug_run(v, inputs).state),
        unplugged_not_charging(ChargingState::initial()),
{
    lemma_plug_run_invariant(v, inputs);
}

/// The transition issues a relay-close command, as a call or fire-and-forget.
pub open spec fn closes_relay(t: Transition) -> bool {
    ||| t.next == Next::Call(Command::RelayPower(true))
    ||| t.effects.contains(Effect::Send(Command::RelayPower(true)))
}

/// A relay-close command leaves the transition only in an allowed session.
pub open spec fn closes_only_when_allowed(t: Transition) -> bool {
    closes_relay(t) ==> relay_close_allowed(t.state)
}

/// The manager closes the relay only in a session that is authenticated or
/// not in basic (IEC) mode: no event, no remote order and no reply makes it
/// close the relay while authentication is pending or has failed in basic mode.
pub proof fn lemma_relay_closes_only_when_authorized(
    v: ManagerView,
    iec: Iec6185Msg,
    slac: SlacStatus,
    tag: MeterTagSet,
    available: u32,
    req: ReservationSession,
    ocpp: OcppMsg,
    allow: bool,
    payment: ChargingMsg,
    plug: PlugState,
    power: PowerRequest,
    reply: Reply,
)
    ensures
        closes_only_when_allowed(v.gate(on_iec(v.config, v.state, iec))),
        closes_only_when_allowed(v.gate(on_slac(v.config, v.state, slac))),
        closes_only_when_allowed(v.gate(on_meter(v.state, tag))),
        closes_only_when_allowed(v.gate(on_available_current(v.state, available))),
        closes_only_when_allowed(v.gate(on_reserve(v.state, req))),
        closes_only_when_allowed(v.gate(on_ocpp(v.state, ocpp))),
        closes_only_when_allowed(v.gate(on_power_control(v.state, allow))),
        closes_only_when_allowed(v.gate(on_payment(v.state, payment))),
        closes_only_when_allowed(v.gate(on_set_plug(v.state, plug))),
        closes_only_when_allowed(v.gate(on_set_power(v.state, power))),
        closes_only_when_allowed(on_reply(v.config, v.state, v.phase, reply)),
{
}

/// The manager is consistent: the session invariant holds, and the state
/// matches the call being waited for (a drop of available current is waited
/// on only while charging, a login only while not charging).
pub open spec fn manager_consistent(v: ManagerView) -> bool {
    &&& session_safe(v.state)
    &&& v.phase is AvailableLimit ==> v.state.power is Charging
    &&& v.phase is AuthLogin ==> !(v.state.power is Charging)
}

/// The transition keeps the manager consistent.
pub open spec fn keeps_consistent(v: ManagerView, t: Transition) -> bool {
    manager_consistent(v.after(t))
}

/// The session never charges where charging is not allowed: a new manager
/// is consistent, and every event, remote order, override and reply keeps
/// it so. Charging thus always has a locked or inserted plug, and
/// authentication done unless an ISO 15118 mode governs the session.
pub proof fn lemma_session_invariant_kept(
    v: ManagerView,
    iec: Iec6185Msg,
    slac: SlacStatus,
    tag: MeterTagSet,
    available: u32,
    req: ReservationSession,
    ocpp: OcppMsg,
    allow: bool,
    payment: ChargingMsg,
    plug: PlugState,
    power: PowerRequest,
    reply: Reply,
)
    requires
        manager_consistent(v),
    ensures
        session_safe(ChargingState::initial()),
        keeps_consistent(v, v.gate(on_iec(v.config, v.state, iec))),
        keeps_consistent(v, v.gate(on_slac(v.config, v.state, slac))),
        keeps_consistent(v, v.gate(on_meter(v.state, tag))),
        keeps_consistent(v, v.gate(on_available_current(v.state, available))),
        keeps_consistent(v, v.gate(on_reserve(v.state, req))),
        keeps_consistent(v, v.gate(on_ocpp(v.state, ocpp))),
        keeps_consistent(v, v.gate(on_power_control(v.state, allow))),
        keeps_consistent(v, v.gate(on_payment(v.state, payment))),
        keeps_consistent(v, v.gate(on_set_plug(v.state, plug))),
        keeps_consistent(v, v.gate(on_set_power(v.state, power))),
        keeps_consistent(v, on_reply(v.config, v.state, v.phase, reply)),
{
}

/// Neither ceiling is higher after the transition than before.
pub open spec fn ceilings_not_raised(before: ChargingState, t: Transition) -> bool {
    t.state.imax <= before.imax && t.state.pmax <= before.pmax
}

/// The current and power ceilings only ever tighten: no event and no reply
/// raises either of them.
pub proof fn lemma_ceilings_never_rise(
    v: ManagerView,
    iec: Iec6185Msg,
    slac: SlacStatus,
    tag: MeterTagSet,
    available: u32,
    req: ReservationSession,
    ocpp: OcppMsg,
    allow: bool,
    payment: ChargingMsg,
    plug: PlugState,
    power: PowerRequest,
    reply: Reply,
)
    ensures
        ceilings_not_raised(v.state, v.gate(on_iec(v.config, v.state, iec))),
        ceilings_not_raised(v.state, v.gate(on_slac(v.config, v.state, slac))),
        ceilings_not_raised(v.state, v.gate(on_meter(v.state, tag))),
        ceilings_not_raised(v.state, v.gate(on_available_current(v.state, available))),
        ceilings_not_raised(v.state, v.gate(on_reserve(v.state, req))),
        ceilings_not_raised(v.state, v.gate(on_ocpp(v.state, ocpp))),
        ceilings_not_raised(v.state, v.gate(on_power_control(v.state, allow))),
        ceilings_not_raised(v.state, v.gate(on_payment(v.state, payment))),
        ceilings_not_raised(v.state, v.gate(on_set_plug(v.state, plug))),
        ceilings_not_raised(v.state, v.gate(on_set_power(v.state, power))),
        ceilings_not_raised(v.state, on_reply(v.config, v.state, v.phase, reply)),
{
}

/// Two plug-in events in a row, the calls of the first one succeeding, make
/// exactly one metering-session reset and, with a remote-management backend,
/// exactly one `Reserved` status notification: the second event makes no call,
/// emits nothing and changes nothing.
pub proof fn lemma_plug_in_twice(v: ManagerView, reset_reply: Reply, status_reply: Reply)
    requires
        v.phase is Ready,
        !(v.state.plugged is PlugIn),
        reset_reply.succeeded(),
        status_reply.succeeded(),
    ensures
        ({
            let t1 = v.gate(on_iec(v.config, v.state, Iec6185Msg::Plugged(true)));
            let v1 = v.after(t1);
            let t2 = on_reply(v1.config, v1.state, v1.phase, reset_reply);
            let v2 = v1.after(t2);
            let t3 = on_reply(v2.config, v2.state, v2.phase, status_reply);
            let v3 = if v.config.ocpp_enabled {
                v2.after(t3)
            } else {
                v2
            };
            let t4 = v3.gate(on_iec(v3.config, v3.state, Iec6185Msg::Plugged(true)));
            &&& t1.next == Next::Call(Command::EnergyReset)
            &&& t1.effects.len() == 0
            &&& t2.next == if v.config.ocpp_enabled {
                Next::Call(Command::StatusNotification(OcppChargerStatus::Reserved))
            } else {
                Next::Done(Ok(()))
            }
            &&& t2.effects == seq![Effect::Notify(ChargingMsg::Plugged(PlugState::PlugIn))]
            &&& v.config.ocpp_enabled ==> t3.next == Next::Done(Ok(())) && t3.effects.len() == 0
            &&& t4 == (Transition {
                state: v3.state,
                phase: Phase::Ready,
                effects: Seq::empty(),
                next: Next::Done(Ok(())),
            })
        }),
{
}

/// With no reservation held, a request is accepted, its cancellation under
/// the same identifier is accepted and clears it, and a second cancellation
/// finds no reservation.
pub proof fn lemma_reservation_round_trip(request: ReservationSession, cancel: ReservationSession)
    requires
        request.status is Request,
        cancel.status is Cancel,
        cancel.id == request.id,
    ensures
        ({
            let (held1, r1) = reservation_outcome(None, request);
            let (held2, r2) = reservation_outcome(held1, cancel);
            let (held3, r3) = reservation_outcome(held2, cancel);
            &&& r1 == Ok::<ReservationStatus, ChargeError>(ReservationStatus::Accepted)
            &&& r2 == Ok::<ReservationStatus, ChargeError>(ReservationStatus::Cancelled)
            &&& held2 is None
            &&& r3 == Err::<ReservationStatus, ChargeError>(ChargeError::ReservationNotPresent)
            &&& held3 is None
        }),
{
}

/// While a reservation is held, any other request fails with
/// `ReservationAlreadyRunning` and leaves the held one as it was.
pub proof fn lemma_reservation_conflict(first: ReservationSession, second: ReservationSession)
    requires
        first.status is Request,
        second.status is Request,
    ensures
        ({
            let (held1, r1) = reservation_outcome(None, first);
            let (held2, r2) = reservation_outcome(held1, second);
            &&& r1 == Ok::<ReservationStatus, ChargeError>(ReservationStatus::Accepted)
            &&& held1 == Some(ReservationState { id: first.id, start: first.start, stop: first.stop })
            &&& r2 == Err::<ReservationStatus, ChargeError>(ChargeError::ReservationAlreadyRunning)
            &&& held2 == held1
        }),
{
}

} // verus!
