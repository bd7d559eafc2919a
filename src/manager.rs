use vstd::prelude::*;
use crate::messages::{
    ChargeError, ChargingMsg, ChargingProtocol, Command, Effect, Iec6185Msg, MeterTagSet, Next,
    OcppChargerStatus, OcppMsg, Reply, ReservationSession, SlacStatus,
};
use crate::model::{
    authorized, close_refused, finish_classified, may_charge, relay_close_allowed, session_safe, call_failed, classification_notices, classified, finish, on_available_current,
    on_iec, on_meter, on_ocpp, on_power_control, on_reply, on_reserve, on_slac, reduced, request,
    on_payment, on_set_plug, on_set_power, still_basic, tighter, ManagerConfig, ManagerView, Phase, Transition,
};
use crate::reservation::{reservation_decision, reservation_outcome};
use crate::types::{
    AuthState, ChargingState, Iso15118State, PaymentOption, PlugState, PowerRequest,
    ReservationStatus,
};

verus! {

/// A transition as computed by executable code.
struct Step {
    state: ChargingState,
    phase: Phase,
    effects: Vec<Effect>,
    next: Next,
}

impl Step {
    spec fn tr(&self) -> Transition {
        Transition {
            state: self.state,
            phase: self.phase,
            effects: self.effects@,
            next: self.next,
        }
    }
}

fn finish_with(state: ChargingState, effects: Vec<Effect>, result: Result<(), ChargeError>) -> (t:
    Step)
    ensures
        t.tr() == finish(state, effects@, result),
{
    Step { state, phase: Phase::Ready, effects, next: Next::Done(result) }
}

fn request_with(state: ChargingState, effects: Vec<Effect>, call: Command, phase: Phase) -> (t:
    Step)
    ensures
        t.tr() == request(state, effects@, call, phase),
{
    Step { state, phase, effects, next: Next::Call(call) }
}

fn fail_with(state: ChargingState) -> (t: Step)
    ensures
        t.tr() == call_failed(state),
{
    finish_with(state, Vec::new(), Err(ChargeError::CollaboratorCallFailed))
}

fn single(e: Effect) -> (v: Vec<Effect>)
    ensures
        v@ == seq![e],
{
    let mut v = Vec::new();
    v.push(e);
    assert(v@ =~= seq![e]);
    v
}

fn tighten(current: u32, proposed: u32) -> (r: u32)
    ensures
        r == tighter(current, proposed),
{
    if proposed < current {
        proposed
    } else {
        current
    }
}

/// Classifies the effective charging protocol, appending its notification.
fn charging_protocol(s: ChargingState, effects: &mut Vec<Effect>) -> (r: ChargingState)
    ensures
        r == classified(s),
        final(effects)@ == old(effects)@ + classification_notices(s),
{
    let found = match s.payment {
        Some(PaymentOption::Pnc) => Some(ChargingProtocol::PlugAndCharge),
        Some(PaymentOption::Eim) => Some(ChargingProtocol::SmartCharge),
        None => match s.iso {
            Iso15118State::Iec => Some(ChargingProtocol::BasicCharge),
            _ => None,
        },
    };
    match found {
        Some(p) => {
            effects.push(Effect::Notify(ChargingMsg::Protocol(p)));
            assert(effects@ =~= old(effects)@ + classification_notices(s));
            ChargingState { payment: None, ..s }
        },
        None => {
            assert(effects@ =~= old(effects)@ + classification_notices(s));
            s
        },
    }
}

fn finish_classified_with(
    state: ChargingState,
    effects: Vec<Effect>,
    result: Result<(), ChargeError>,
) -> (t: Step)
    ensures
        t.tr() == finish_classified(state, effects@, result),
{
    let mut fx = effects;
    let s = charging_protocol(state, &mut fx);
    finish_with(s, fx, result)
}

fn may_charge_now(s: &ChargingState) -> (b: bool)
    ensures
        b == may_charge(*s),
{
    matches!(s.plugged, PlugState::Lock | PlugState::PlugIn) && matches!(
        (s.auth, s.iso),
        (AuthState::Done, _) | (_, Iso15118State::Iso2) | (_, Iso15118State::Iso20)
    )
}

fn safe_now(s: &ChargingState) -> (b: bool)
    ensures
        b == session_safe(*s),
{
    !matches!(s.power, PowerRequest::Charging(_)) || may_charge_now(s)
}

fn close_allowed_now(s: &ChargingState) -> (b: bool)
    ensures
        b == relay_close_allowed(*s),
{
    matches!(s.auth, AuthState::Done) || !matches!(s.iso, Iso15118State::Iec)
}

fn close_refused_with(s: ChargingState) -> (t: Step)
    ensures
        t.tr() == close_refused(s),
{
    finish_with(s, Vec::new(), Err(ChargeError::AuthenticationFailed))
}

fn reduced_step(s: ChargingState, limit: u32) -> (t: Step)
    ensures
        t.tr() == reduced(s, limit),
{
    let s1 = ChargingState {
        power: PowerRequest::Charging(limit),
        imax: tighten(s.imax, limit),
        ..s
    };
    finish_classified_with(
        s1,
        single(Effect::Notify(ChargingMsg::Power(PowerRequest::Charging(limit)))),
        Ok(()),
    )
}

fn authorized_step(s: ChargingState) -> (t: Step)
    ensures
        t.tr() == authorized(s),
{
    let mut fx = single(Effect::Notify(ChargingMsg::Auth(AuthState::Done)));
    match s.iso {
        Iso15118State::Iec | Iso15118State::Unset => {
            fx.push(Effect::Send(Command::CurrentLimit(s.imax)));
        },
        _ => {},
    }
    fx.push(Effect::Notify(ChargingMsg::Iso(Iso15118State::Iec)));
    fx.push(Effect::Send(Command::RelayPower(true)));
    fx.push(Effect::Notify(ChargingMsg::Power(PowerRequest::Start)));
    let s1 = ChargingState {
        auth: AuthState::Done,
        iso: Iso15118State::Iec,
        power: PowerRequest::Start,
        ..s
    };
    let ghost before = fx@;
    assert(before =~= seq![Effect::Notify(ChargingMsg::Auth(AuthState::Done))] + (if still_basic(s) {
        seq![Effect::Send(Command::CurrentLimit(s.imax))]
    } else {
        Seq::empty()
    }) + seq![
        Effect::Notify(ChargingMsg::Iso(Iso15118State::Iec)),
        Effect::Send(Command::RelayPower(true)),
        Effect::Notify(ChargingMsg::Power(PowerRequest::Start)),
    ]);
    finish_classified_with(s1, fx, Ok(()))
}

fn iec_step(cfg: ManagerConfig, s: ChargingState, msg: Iec6185Msg) -> (t: Step)
    ensures
        t.tr() == on_iec(cfg, s, msg),
{
    match msg {
        Iec6185Msg::PowerRqt(requested) => {
            if requested {
                finish_with(
                    ChargingState { plugged: PlugState::Lock, ..s },
                    single(Effect::Notify(ChargingMsg::Plugged(PlugState::Lock))),
                    Ok(()),
                )
            } else {
                finish_with(
                    ChargingState { plugged: PlugState::PlugIn, ..s },
                    single(Effect::Notify(ChargingMsg::Plugged(PlugState::PlugIn))),
                    Ok(()),
                )
            }
        },
        Iec6185Msg::CableImax(amps) => finish_with(
            ChargingState { imax: tighten(s.imax, amps), ..s },
            Vec::new(),
            Ok(()),
        ),
        Iec6185Msg::Error(_) => finish_with(ChargingState { imax: 0, ..s }, Vec::new(), Ok(())),
        Iec6185Msg::RelayOn(closed) => {
            if closed && !may_charge_now(&s) {
                finish_with(s, Vec::new(), Err(ChargeError::UnsafeState))
            } else if closed {
                let s1 = ChargingState { power: PowerRequest::Charging(s.imax), ..s };
                let mut fx = single(Effect::Notify(ChargingMsg::Power(PowerRequest::Charging(s.imax))));
                let s2 = charging_protocol(s1, &mut fx);
                if matches!(s2.iso, Iso15118State::Iec) {
                    request_with(s2, fx, Command::CurrentLimit(s.imax), Phase::RelayOnLimit)
                } else if cfg.ocpp_enabled {
                    request_with(
                        s2,
                        fx,
                        Command::StatusNotification(OcppChargerStatus::Charging),
                        Phase::Confirm,
                    )
                } else {
                    finish_with(s2, fx, Ok(()))
                }
            } else {
                request_with(s, Vec::new(), Command::EnergyRead, Phase::RelayOffRead)
            }
        },
        Iec6185Msg::Plugged(inserted) => {
            if !inserted {
                request_with(s, Vec::new(), Command::EnergyRead, Phase::PlugOutRead)
            } else if matches!(s.plugged, PlugState::PlugIn) {
                finish_with(s, Vec::new(), Ok(()))
            } else {
                request_with(s, Vec::new(), Command::EnergyReset, Phase::PlugInReset)
            }
        },
    }
}


fn slac_step(cfg: ManagerConfig, s: ChargingState, msg: SlacStatus) -> (t: Step)
    ensures
        t.tr() == on_slac(cfg, s, msg),
{
    match msg {
        SlacStatus::Matched => finish_classified_with(
            ChargingState { iso: Iso15118State::Iso20, ..s },
            single(Effect::Notify(ChargingMsg::Iso(Iso15118State::Iso20))),
            Ok(()),
        ),
        SlacStatus::Timeout => {
            if cfg.basic_charging_enabled && !matches!(s.power, PowerRequest::Charging(_)) {
                auth_rqt(s)
            } else {
                finish_with(s, Vec::new(), Ok(()))
            }
        },
        SlacStatus::Unmatched => finish_with(s, Vec::new(), Ok(())),
    }
}

/// Starts authentication: the session waits for the login.
fn auth_rqt(s: ChargingState) -> (t: Step)
    ensures
        t.tr() == request(
            ChargingState { auth: AuthState::Pending, ..s },
            seq![Effect::Notify(ChargingMsg::Auth(AuthState::Pending))],
            Command::Login,
            Phase::AuthLogin,
        ),
{
    request_with(
        ChargingState { auth: AuthState::Pending, ..s },
        single(Effect::Notify(ChargingMsg::Auth(AuthState::Pending))),
        Command::Login,
        Phase::AuthLogin,
    )
}

fn meter_step(s: ChargingState, tag: MeterTagSet) -> (t: Step)
    ensures
        t.tr() == on_meter(s, tag),
{
    match tag {
        MeterTagSet::OverCurrent => request_with(
            s,
            Vec::new(),
            Command::RelayPower(false),
            Phase::StopOnAck,
        ),
        MeterTagSet::OverLimit => finish_with(s, Vec::new(), Ok(())),
    }
}

fn available_current_step(s: ChargingState, limit: u32) -> (t: Step)
    ensures
        t.tr() == on_available_current(s, limit),
{
    match s.power {
        PowerRequest::Charging(current) => {
            if current > limit {
                if matches!(s.iso, Iso15118State::Iec) {
                    request_with(
                        s,
                        Vec::new(),
                        Command::CurrentLimit(limit),
                        Phase::AvailableLimit(limit),
                    )
                } else {
                    reduced_step(s, limit)
                }
            } else {
                finish_with(s, Vec::new(), Ok(()))
            }
        },
        _ => finish_with(s, Vec::new(), Ok(())),
    }
}

fn reserve_step(s: ChargingState, req: &ReservationSession) -> (t: Step)
    ensures
        t.tr() == on_reserve(s, *req),
{
    let (held, result) = reservation_decision(s.reservation, req);
    match result {
        Ok(status) => finish_with(
            ChargingState { reservation: held, ..s },
            single(Effect::Notify(ChargingMsg::Reservation(status))),
            Ok(()),
        ),
        Err(e) => finish_with(s, Vec::new(), Err(e)),
    }
}

fn ocpp_step(s: ChargingState, msg: &OcppMsg) -> (t: Step)
    ensures
        t.tr() == on_ocpp(s, *msg),
{
    match msg {
        OcppMsg::PowerLimit(limit) => {
            if *limit < s.imax {
                let s1 = ChargingState { imax: *limit, ..s };
                if matches!(s.iso, Iso15118State::Iec) {
                    request_with(s1, Vec::new(), Command::CurrentLimit(*limit), Phase::Confirm)
                } else {
                    finish_with(s1, Vec::new(), Ok(()))
                }
            } else {
                finish_with(s, Vec::new(), Ok(()))
            }
        },
        OcppMsg::Reservation(req) => reserve_step(s, req),
        OcppMsg::Reset => request_with(s, Vec::new(), Command::RelayPower(false), Phase::Confirm),
        OcppMsg::Transaction(on, _) => {
            if *on && !close_allowed_now(&s) {
                close_refused_with(s)
            } else {
                request_with(s, Vec::new(), Command::RelayPower(*on), Phase::TransactionPower)
            }
        },
    }
}

fn power_control_step(s: ChargingState, allow: bool) -> (t: Step)
    ensures
        t.tr() == on_power_control(s, allow),
{
    if allow && !close_allowed_now(&s) {
        return close_refused_with(s);
    }
    let phase = if allow {
        Phase::Confirm
    } else {
        Phase::StopOnAck
    };
    request_with(s, Vec::new(), Command::RelayPower(allow), phase)
}

fn succeeded(r: &Reply) -> (b: bool)
    ensures
        b == r.succeeded(),
{
    !matches!(r, Reply::Failed)
}

fn reply_step(cfg: ManagerConfig, s: ChargingState, phase: Phase, r: Reply) -> (t: Step)
    ensures
        t.tr() == on_reply(cfg, s, phase, r),
{
    match phase {
        Phase::Ready => Step {
            state: s,
            phase: Phase::Ready,
            effects: Vec::new(),
            next: Next::Done(Err(ChargeError::StateAccessConflict)),
        },
        Phase::Confirm => {
            if succeeded(&r) {
                finish_with(s, Vec::new(), Ok(()))
            } else {
                fail_with(s)
            }
        },
        Phase::StopOnAck => {
            if succeeded(&r) {
                finish_classified_with(
                    ChargingState { power: PowerRequest::Idle, ..s },
                    single(Effect::Notify(ChargingMsg::Power(PowerRequest::Idle))),
                    Ok(()),
                )
            } else {
                fail_with(s)
            }
        },
        Phase::RelayOnLimit => {
            if !succeeded(&r) {
                fail_with(s)
            } else if cfg.ocpp_enabled {
                request_with(
                    s,
                    Vec::new(),
                    Command::StatusNotification(OcppChargerStatus::Charging),
                    Phase::Confirm,
                )
            } else {
                finish_with(s, Vec::new(), Ok(()))
            }
        },
        Phase::RelayOffRead => match r {
            Reply::Energy(total) => {
                let mut fx = single(Effect::Notify(ChargingMsg::Power(PowerRequest::Stop(total))));
                fx.push(Effect::Notify(ChargingMsg::Plugged(PlugState::PlugOut)));
                let s1 = ChargingState {
                    power: PowerRequest::Stop(total),
                    plugged: PlugState::PlugOut,
                    ..s
                };
                assert(fx@ =~= seq![
                    Effect::Notify(ChargingMsg::Power(PowerRequest::Stop(total))),
                    Effect::Notify(ChargingMsg::Plugged(PlugState::PlugOut)),
                ]);
                finish_classified_with(s1, fx, Ok(()))
            },
            _ => fail_with(s),
        },
        Phase::PlugInReset => {
            if !succeeded(&r) {
                fail_with(s)
            } else {
                let s1 = ChargingState { plugged: PlugState::PlugIn, ..s };
                let fx = single(Effect::Notify(ChargingMsg::Plugged(PlugState::PlugIn)));
                if cfg.ocpp_enabled {
                    request_with(
                        s1,
                        fx,
                        Command::StatusNotification(OcppChargerStatus::Reserved),
                        Phase::Confirm,
                    )
                } else {
                    finish_with(s1, fx, Ok(()))
                }
            }
        },
        Phase::PlugOutRead => match r {
            Reply::Energy(total) => {
                let mut fx = single(Effect::Notify(ChargingMsg::Power(PowerRequest::Idle)));
                fx.push(Effect::Notify(ChargingMsg::Plugged(PlugState::PlugOut)));
                let s1 = ChargingState {
                    plugged: PlugState::PlugOut,
                    power: PowerRequest::Idle,
                    ..s
                };
                assert(fx@ =~= seq![
                    Effect::Notify(ChargingMsg::Power(PowerRequest::Idle)),
                    Effect::Notify(ChargingMsg::Plugged(PlugState::PlugOut)),
                ]);
                let s2 = charging_protocol(s1, &mut fx);
                request_with(s2, fx, Command::Logout(total), Phase::PlugOutLogout)
            },
            _ => fail_with(s),
        },
        Phase::PlugOutLogout => finish_with(s, Vec::new(), Ok(())),
        Phase::AuthLogin => match r {
            Reply::Contract { imax, pmax } => {
                let s1 = ChargingState {
                    imax: tighten(s.imax, imax),
                    pmax: tighten(s.pmax, pmax),
                    ..s
                };
                request_with(
                    s1,
                    Vec::new(),
                    Command::EnergyConfig { imax: s1.imax, pmax: s1.pmax },
                    Phase::AuthConfig,
                )
            },
            _ => request_with(
                ChargingState { auth: AuthState::Fail, ..s },
                single(Effect::Notify(ChargingMsg::Auth(AuthState::Fail))),
                Command::RelayPower(false),
                Phase::AuthFailOpen,
            ),
        },
        Phase::AuthConfig => {
            if succeeded(&r) {
                authorized_step(s)
            } else {
                fail_with(s)
            }
        },
        Phase::AuthFailOpen => {
            if succeeded(&r) {
                finish_with(s, Vec::new(), Err(ChargeError::AuthenticationFailed))
            } else {
                fail_with(s)
            }
        },
        Phase::AvailableLimit(limit) => {
            if succeeded(&r) {
                reduced_step(s, limit)
            } else {
                fail_with(s)
            }
        },
        Phase::TransactionPower => match r {
            Reply::Energy(total) => request_with(
                s,
                Vec::new(),
                Command::Logout(total),
                Phase::StopOnAck,
            ),
            _ => fail_with(s),
        },
    }
}


/// The session manager: owns the charging state and decides, event by event,
/// how it changes and which commands and notifications go out.
///
/// A handler either finishes (`Next::Done`) or asks its caller for one
/// synchronous call (`Next::Call`) whose reply goes to `resume`; until then
/// the manager refuses other operations. Notifications and fire-and-forget
/// commands gather in order and are taken with `take_effects`.
pub struct ManagerHandle {
    config: ManagerConfig,
    state: ChargingState,
    phase: Phase,
    outbox: Vec<Effect>,
}

impl View for ManagerHandle {
    type V = ManagerView;

    closed spec fn view(&self) -> ManagerView {
        ManagerView {
            config: self.config,
            state: self.state,
            phase: self.phase,
            effects: self.outbox@,
        }
    }
}

impl ManagerHandle {
    /// A manager for a station that has just started.
    pub fn new(ocpp_enabled: bool, basic_charging_enabled: bool) -> (r: ManagerHandle)
        ensures
            r@ == (ManagerView {
                config: ManagerConfig { ocpp_enabled, basic_charging_enabled },
                state: ChargingState::initial(),
                phase: Phase::Ready,
                effects: Seq::empty(),
            }),
    {
        ManagerHandle {
            config: ManagerConfig { ocpp_enabled, basic_charging_enabled },
            state: ChargingState::new(),
            phase: Phase::Ready,
            outbox: Vec::new(),
        }
    }

    /// A snapshot of the session state.
    pub fn get_state(&self) -> (r: ChargingState)
        ensures
            r == self@.state,
    {
        self.state
    }

    /// No operation waits for a reply.
    pub fn is_ready(&self) -> (r: bool)
        ensures
            r == (self@.phase is Ready),
    {
        matches!(self.phase, Phase::Ready)
    }

    /// Hands out the effects gathered so far, oldest first, and forgets them.
    pub fn take_effects(&mut self) -> (r: Vec<Effect>)
        ensures
            r@ == old(self)@.effects,
            final(self)@ == (ManagerView { effects: Seq::empty(), ..old(self)@ }),
    {
        let mut taken = Vec::new();
        std::mem::swap(&mut taken, &mut self.outbox);
        taken
    }

    fn commit(&mut self, t: Step) -> (r: Next)
        ensures
            final(self)@ == old(self)@.after(t.tr()),
            r == t.tr().next,
    {
        let mut effects = t.effects;
        self.state = t.state;
        self.phase = t.phase;
        self.outbox.append(&mut effects);
        t.next
    }

    /// Runs `t` if no operation waits for a reply, else refuses.
    fn gated(&mut self, t: Step) -> (r: Next)
        ensures
            final(self)@ == old(self)@.after(old(self)@.gate(t.tr())),
            r == old(self)@.gate(t.tr()).next,
    {
        if matches!(self.phase, Phase::Ready) {
            self.commit(t)
        } else {
            assert(self@.effects + Seq::empty() =~= self@.effects);
            Next::Done(Err(ChargeError::StateAccessConflict))
        }
    }

    /// Reserves the station or cancels its reservation.
    pub fn reserve(&mut self, reservation: &ReservationSession) -> (r: Result<
        ReservationStatus,
        ChargeError,
    >)
        ensures
            final(self)@ == old(self)@.after(old(self)@.gate(on_reserve(old(self)@.state, *reservation))),
            r == if old(self)@.phase is Ready {
                reservation_outcome(old(self)@.state.reservation, *reservation).1
            } else {
                Err(ChargeError::StateAccessConflict)
            },
    {
        if !matches!(self.phase, Phase::Ready) {
            assert(self@.effects + Seq::empty() =~= self@.effects);
            return Err(ChargeError::StateAccessConflict);
        }
        let (held, result) = reservation_decision(self.state.reservation, reservation);
        let t = match result {
            Ok(status) => finish_with(
                ChargingState { reservation: held, ..self.state },
                single(Effect::Notify(ChargingMsg::Reservation(status))),
                Ok(()),
            ),
            Err(e) => finish_with(self.state, Vec::new(), Err(e)),
        };
        self.commit(t);
        result
    }

    /// Publishes a snapshot of the session state.
    pub fn push_state(&mut self)
        ensures
            final(self)@ == (ManagerView {
                effects: old(self)@.effects.push(Effect::Notify(ChargingMsg::State(old(self)@.state))),
                ..old(self)@
            }),
    {
        self.outbox.push(Effect::Notify(ChargingMsg::State(self.state)));
    }

    /// Records the payment mode carried by a `ChargingMsg::Payment`.
    pub fn set_payment_option(&mut self, msg: &ChargingMsg) -> (r: Result<(), ChargeError>)
        ensures
            final(self)@ == old(self)@.after(old(self)@.gate(on_payment(old(self)@.state, *msg))),
            Next::Done(r) == old(self)@.gate(on_payment(old(self)@.state, *msg)).next,
    {
        let t = match msg {
            ChargingMsg::Payment(option) => finish_classified_with(
                ChargingState { payment: Some(*option), ..self.state },
                Vec::new(),
                Ok(()),
            ),
            _ => finish_with(self.state, Vec::new(), Ok(())),
        };
        match self.gated(t) {
            Next::Done(result) => result,
            Next::Call(_) => Err(ChargeError::StateAccessConflict),
        }
    }

    /// Overrides the connector state and publishes it.
    pub fn set_plug_state(&mut self, plug_state: PlugState) -> (r: Result<(), ChargeError>)
        ensures
            final(self)@ == old(self)@.after(old(self)@.gate(on_set_plug(old(self)@.state, plug_state))),
            Next::Done(r) == old(self)@.gate(on_set_plug(old(self)@.state, plug_state)).next,
    {
        let s1 = ChargingState { plugged: plug_state, ..self.state };
        let t = if safe_now(&s1) {
            finish_with(s1, single(Effect::Notify(ChargingMsg::Plugged(plug_state))), Ok(()))
        } else {
            finish_with(self.state, Vec::new(), Err(ChargeError::UnsafeState))
        };
        match self.gated(t) {
            Next::Done(result) => result,
            Next::Call(_) => Err(ChargeError::StateAccessConflict),
        }
    }

    /// Overrides the charging activity and publishes it.
    pub fn set_power_request_state(&mut self, state: PowerRequest) -> (r: Result<(), ChargeError>)
        ensures
            final(self)@ == old(self)@.after(old(self)@.gate(on_set_power(old(self)@.state, state))),
            Next::Done(r) == old(self)@.gate(on_set_power(old(self)@.state, state)).next,
    {
        let s1 = ChargingState { power: state, ..self.state };
        let t = if safe_now(&s1) {
            finish_classified_with(s1, single(Effect::Notify(ChargingMsg::Power(state))), Ok(()))
        } else {
            finish_with(self.state, Vec::new(), Err(ChargeError::UnsafeState))
        };
        match self.gated(t) {
            Next::Done(result) => result,
            Next::Call(_) => Err(ChargeError::StateAccessConflict),
        }
    }

    /// Handles an event of the cable/relay subsystem.
    pub fn iec(&mut self, msg: &Iec6185Msg) -> (r: Next)
        ensures
            final(self)@ == old(self)@.after(old(self)@.gate(on_iec(old(self)@.config, old(self)@.state, *msg))),
            r == old(self)@.gate(on_iec(old(self)@.config, old(self)@.state, *msg)).next,
    {
        let t = iec_step(self.config, self.state, *msg);
        self.gated(t)
    }

    /// Handles the outcome of power-line matching.
    pub fn slac(&mut self, msg: &SlacStatus) -> (r: Next)
        ensures
            final(self)@ == old(self)@.after(old(self)@.gate(on_slac(old(self)@.config, old(self)@.state, *msg))),
            r == old(self)@.gate(on_slac(old(self)@.config, old(self)@.state, *msg)).next,
    {
        let t = slac_step(self.config, self.state, *msg);
        self.gated(t)
    }

    /// Handles a command of the remote-management backend.
    pub fn ocpp(&mut self, msg: &OcppMsg) -> (r: Next)
        ensures
            final(self)@ == old(self)@.after(old(self)@.gate(on_ocpp(old(self)@.state, *msg))),
            r == old(self)@.gate(on_ocpp(old(self)@.state, *msg)).next,
    {
        let t = ocpp_step(self.state, msg);
        self.gated(t)
    }

    /// Handles a metering alarm.
    pub fn engy_iover(&mut self, msg: &MeterTagSet) -> (r: Next)
        ensures
            final(self)@ == old(self)@.after(old(self)@.gate(on_meter(old(self)@.state, *msg))),
            r == old(self)@.gate(on_meter(old(self)@.state, *msg)).next,
    {
        let t = meter_step(self.state, *msg);
        self.gated(t)
    }

    /// Handles a change of the available current (A).
    pub fn engy_imax(&mut self, imax: u32) -> (r: Next)
        ensures
            final(self)@ == old(self)@.after(old(self)@.gate(on_available_current(old(self)@.state, imax))),
            r == old(self)@.gate(on_available_current(old(self)@.state, imax)).next,
    {
        let t = available_current_step(self.state, imax);
        self.gated(t)
    }

    /// Remote power control: closes (`true`) or opens (`false`) the relay.
    pub fn powerctrl(&mut self, allow: bool) -> (r: Next)
        ensures
            final(self)@ == old(self)@.after(old(self)@.gate(on_power_control(old(self)@.state, allow))),
            r == old(self)@.gate(on_power_control(old(self)@.state, allow)).next,
    {
        let t = power_control_step(self.state, allow);
        self.gated(t)
    }

    /// Hands over the reply to the call that the last handler asked for.
    pub fn resume(&mut self, reply: Reply) -> (r: Next)
        ensures
            final(self)@ == old(self)@.after(on_reply(old(self)@.config, old(self)@.state, old(self)@.phase, reply)),
            r == on_reply(old(self)@.config, old(self)@.state, old(self)@.phase, reply).next,
    {
        let t = reply_step(self.config, self.state, self.phase, reply);
        self.commit(t)
    }
}

} // verus!
