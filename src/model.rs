use vstd::prelude::*;
use crate::messages::{
    ChargeError, ChargingMsg, ChargingProtocol, Command, Effect, Iec6185Msg, MeterTagSet, Next,
    OcppChargerStatus, OcppMsg, Reply, ReservationSession, SlacStatus,
};
use crate::reservation::reservation_outcome;
use crate::types::{
    AuthState, ChargingState, Iso15118State, PaymentOption, PlugState, PowerRequest,
};

verus! {

/// Settings fixed when the manager is created.
#[derive(Clone, Copy, Debug, PartialEq, Eq, Structural)]
pub struct ManagerConfig {
    /// A remote-management backend is configured and receives status notifications.
    pub ocpp_enabled: bool,
    /// A matching timeout falls back to basic (IEC) charging.
    pub basic_charging_enabled: bool,
}

/// Where the operation in progress stands: `Ready` when none is, otherwise
/// the synchronous call whose reply it waits for.
#[derive(Clone, Copy, Debug, PartialEq, Eq, Structural)]
pub enum Phase {
    Ready,
    /// Waits for an acknowledgement; nothing is left to do after it.
    Confirm,
    /// Waits for the relay to open; the session then becomes idle.
    StopOnAck,
    /// Relay closed in basic mode: waits for the current limit to be applied.
    RelayOnLimit,
    /// Relay opened: waits for the meter total.
    RelayOffRead,
    /// Plug inserted: waits for the metering session reset.
    PlugInReset,
    /// Plug removed: waits for the meter total.
    PlugOutRead,
    /// Plug removed: waits for the logout, whose failure is not reported.
    PlugOutLogout,
    /// Authentication: waits for the login and its contract.
    AuthLogin,
    /// Authentication: waits for the metering configuration.
    AuthConfig,
    /// Authentication failed: waits for the relay to open.
    AuthFailOpen,
    /// Available current dropped to the given value: waits for the limit to be applied.
    AvailableLimit(u32),
    /// Remote transaction: waits for the relay switch and its meter total.
    TransactionPower,
}

/// What one handler or one reply does: the new session state and phase,
/// the effects it appends, and what the caller must do next.
pub struct Transition {
    pub state: ChargingState,
    pub phase: Phase,
    pub effects: Seq<Effect>,
    pub next: Next,
}

/// The abstract state of a session manager.
pub struct ManagerView {
    pub config: ManagerConfig,
    pub state: ChargingState,
    pub phase: Phase,
    /// Effects emitted and not yet taken by the caller, oldest first.
    pub effects: Seq<Effect>,
}

impl ManagerView {
    pub open spec fn after(self, t: Transition) -> ManagerView {
        ManagerView {
            config: self.config,
            state: t.state,
            phase: t.phase,
            effects: self.effects + t.effects,
        }
    }

    /// A handler's transition, or a refusal while another operation waits for a reply.
    pub open spec fn gate(self, t: Transition) -> Transition {
        if self.phase is Ready {
            t
        } else {
            Transition {
                state: self.state,
                phase: self.phase,
                effects: Seq::empty(),
                next: Next::Done(Err(ChargeError::StateAccessConflict)),
            }
        }
    }
}

pub open spec fn notify(msg: ChargingMsg) -> Effect {
    Effect::Notify(msg)
}

pub open spec fn finish(
    state: ChargingState,
    effects: Seq<Effect>,
    result: Result<(), ChargeError>,
) -> Transition {
    Transition { state, phase: Phase::Ready, effects, next: Next::Done(result) }
}

pub open spec fn request(
    state: ChargingState,
    effects: Seq<Effect>,
    call: Command,
    phase: Phase,
) -> Transition {
    Transition { state, phase, effects, next: Next::Call(call) }
}

pub open spec fn call_failed(state: ChargingState) -> Transition {
    finish(state, Seq::empty(), Err(ChargeError::CollaboratorCallFailed))
}

/// The smaller of a ceiling and a proposed one.
pub open spec fn tighter(current: u32, proposed: u32) -> u32 {
    if proposed < current {
        proposed
    } else {
        current
    }
}

/// Effective charging protocol: the recorded payment mode first, else basic
/// charging in IEC mode, else none.
pub open spec fn protocol_of(s: ChargingState) -> Option<ChargingProtocol> {
    match s.payment {
        Some(PaymentOption::Pnc) => Some(ChargingProtocol::PlugAndCharge),
        Some(PaymentOption::Eim) => Some(ChargingProtocol::SmartCharge),
        None => if s.iso is Iec {
            Some(ChargingProtocol::BasicCharge)
        } else {
            None
        },
    }
}

/// The state after classification: a successful one consumes the payment mode.
pub open spec fn classified(s: ChargingState) -> ChargingState {
    if protocol_of(s) is Some {
        ChargingState { payment: None, ..s }
    } else {
        s
    }
}

/// The notification that classification publishes, if any.
pub open spec fn classification_notices(s: ChargingState) -> Seq<Effect> {
    match protocol_of(s) {
        Some(p) => seq![notify(ChargingMsg::Protocol(p))],
        None => Seq::empty(),
    }
}

/// The transition finishes after classifying the effective charging protocol.
pub open spec fn finish_classified(
    state: ChargingState,
    effects: Seq<Effect>,
    result: Result<(), ChargeError>,
) -> Transition {
    finish(classified(state), effects + classification_notices(state), result)
}

/// The connector and the authorization allow the session to charge: the plug
/// is locked or inserted, and authentication is done unless an ISO 15118 mode
/// delegates authorization to the high-level protocol.
pub open spec fn may_charge(s: ChargingState) -> bool {
    &&& (s.plugged is Lock || s.plugged is PlugIn)
    &&& (s.auth is Done || s.iso is Iso2 || s.iso is Iso20)
}

/// The session invariant: charging only where charging is allowed.
pub open spec fn session_safe(s: ChargingState) -> bool {
    s.power is Charging ==> may_charge(s)
}

/// Authentication is done, or an ISO 15118 protocol governs the session.
pub open spec fn relay_close_allowed(s: ChargingState) -> bool {
    s.auth is Done || !(s.iso is Iec)
}

/// A relay-close order refused for want of authorization.
pub open spec fn close_refused(s: ChargingState) -> Transition {
    finish(s, Seq::empty(), Err(ChargeError::AuthenticationFailed))
}

/// No ISO 15118 mode has taken over current negotiation.
pub open spec fn still_basic(s: ChargingState) -> bool {
    s.iso is Iec || s.iso is Unset
}

/// Charging under a reduced cap: state, notification and classification.
pub open spec fn reduced(s: ChargingState, limit: u32) -> Transition {
    let s1 = ChargingState {
        power: PowerRequest::Charging(limit),
        imax: tighter(s.imax, limit),
        ..s
    };
    finish_classified(s1, seq![notify(ChargingMsg::Power(PowerRequest::Charging(limit)))], Ok(()))
}

/// Authentication succeeded on a matching timeout: basic charging starts.
pub open spec fn authorized(s: ChargingState) -> Transition {
    let limit = if still_basic(s) {
        seq![Effect::Send(Command::CurrentLimit(s.imax))]
    } else {
        Seq::empty()
    };
    finish_classified(
        ChargingState {
            auth: AuthState::Done,
            iso: Iso15118State::Iec,
            power: PowerRequest::Start,
            ..s
        },
        seq![notify(ChargingMsg::Auth(AuthState::Done))] + limit + seq![
            notify(ChargingMsg::Iso(Iso15118State::Iec)),
            Effect::Send(Command::RelayPower(true)),
            notify(ChargingMsg::Power(PowerRequest::Start)),
        ],
        Ok(()),
    )
}

/// Cable/relay events. A relay-closed report that would leave the session
/// charging where charging is not allowed (plug neither locked nor inserted,
/// or no authorization in basic mode) is refused with `UnsafeState` and
/// changes nothing.
pub open spec fn on_iec(cfg: ManagerConfig, s: ChargingState, msg: Iec6185Msg) -> Transition {
    match msg {
        Iec6185Msg::PowerRqt(requested) => if requested {
            finish(
                ChargingState { plugged: PlugState::Lock, ..s },
                seq![notify(ChargingMsg::Plugged(PlugState::Lock))],
                Ok(()),
            )
        } else {
            finish(
                ChargingState { plugged: PlugState::PlugIn, ..s },
                seq![notify(ChargingMsg::Plugged(PlugState::PlugIn))],
                Ok(()),
            )
        },
        Iec6185Msg::CableImax(amps) => finish(
            ChargingState { imax: tighter(s.imax, amps), ..s },
            Seq::empty(),
            Ok(()),
        ),
        Iec6185Msg::Error(_) => finish(ChargingState { imax: 0, ..s }, Seq::empty(), Ok(())),
        Iec6185Msg::RelayOn(closed) => if closed && !may_charge(s) {
            finish(s, Seq::empty(), Err(ChargeError::UnsafeState))
        } else if closed {
            let s1 = ChargingState { power: PowerRequest::Charging(s.imax), ..s };
            let s2 = classified(s1);
            let fx = seq![notify(ChargingMsg::Power(PowerRequest::Charging(s.imax)))]
                + classification_notices(s1);
            if s2.iso is Iec {
                request(s2, fx, Command::CurrentLimit(s.imax), Phase::RelayOnLimit)
            } else if cfg.ocpp_enabled {
                request(
                    s2,
                    fx,
                    Command::StatusNotification(OcppChargerStatus::Charging),
                    Phase::Confirm,
                )
            } else {
                finish(s2, fx, Ok(()))
            }
        } else {
            request(s, Seq::empty(), Command::EnergyRead, Phase::RelayOffRead)
        },
        Iec6185Msg::Plugged(inserted) => if !inserted {
            request(s, Seq::empty(), Command::EnergyRead, Phase::PlugOutRead)
        } else if s.plugged is PlugIn {
            finish(s, Seq::empty(), Ok(()))
        } else {
            request(s, Seq::empty(), Command::EnergyReset, Phase::PlugInReset)
        },
    }
}

/// Power-line matching outcomes. A timeout falls back to basic charging only
/// while the session is not charging; otherwise, like an unmatched outcome,
/// it is ignored.
pub open spec fn on_slac(cfg: ManagerConfig, s: ChargingState, msg: SlacStatus) -> Transition {
    match msg {
        SlacStatus::Matched => finish_classified(
            ChargingState { iso: Iso15118State::Iso20, ..s },
            seq![notify(ChargingMsg::Iso(Iso15118State::Iso20))],
            Ok(()),
        ),
        SlacStatus::Timeout => if cfg.basic_charging_enabled && !(s.power is Charging) {
            request(
                ChargingState { auth: AuthState::Pending, ..s },
                seq![notify(ChargingMsg::Auth(AuthState::Pending))],
                Command::Login,
                Phase::AuthLogin,
            )
        } else {
            finish(s, Seq::empty(), Ok(()))
        },
        SlacStatus::Unmatched => finish(s, Seq::empty(), Ok(())),
    }
}

/// Metering alarms.
pub open spec fn on_meter(s: ChargingState, tag: MeterTagSet) -> Transition {
    match tag {
        MeterTagSet::OverCurrent => request(
            s,
            Seq::empty(),
            Command::RelayPower(false),
            Phase::StopOnAck,
        ),
        MeterTagSet::OverLimit => finish(s, Seq::empty(), Ok(())),
    }
}

/// Available current changed: only a drop below the cap in force while charging acts.
pub open spec fn on_available_current(s: ChargingState, limit: u32) -> Transition {
    match s.power {
        PowerRequest::Charging(current) => if current > limit {
            if s.iso is Iec {
                request(s, Seq::empty(), Command::CurrentLimit(limit), Phase::AvailableLimit(limit))
            } else {
                reduced(s, limit)
            }
        } else {
            finish(s, Seq::empty(), Ok(()))
        },
        _ => finish(s, Seq::empty(), Ok(())),
    }
}

/// Reservation request or cancellation.
pub open spec fn on_reserve(s: ChargingState, req: ReservationSession) -> Transition {
    let (held, result) = reservation_outcome(s.reservation, req);
    match result {
        Ok(status) => finish(
            ChargingState { reservation: held, ..s },
            seq![notify(ChargingMsg::Reservation(status))],
            Ok(()),
        ),
        Err(e) => finish(s, Seq::empty(), Err(e)),
    }
}

/// Remote-management commands. A transaction start sets the relay only in a
/// session where closing it is allowed (authenticated, or not in basic mode):
/// otherwise it is refused with `AuthenticationFailed` and no command goes out.
pub open spec fn on_ocpp(s: ChargingState, msg: OcppMsg) -> Transition {
    match msg {
        OcppMsg::PowerLimit(limit) => if limit < s.imax {
            let s1 = ChargingState { imax: limit, ..s };
            if s.iso is Iec {
                request(s1, Seq::empty(), Command::CurrentLimit(limit), Phase::Confirm)
            } else {
                finish(s1, Seq::empty(), Ok(()))
            }
        } else {
            finish(s, Seq::empty(), Ok(()))
        },
        OcppMsg::Reservation(req) => on_reserve(s, req),
        OcppMsg::Reset => request(s, Seq::empty(), Command::RelayPower(false), Phase::Confirm),
        OcppMsg::Transaction(on, _) => if on && !relay_close_allowed(s) {
            close_refused(s)
        } else {
            request(s, Seq::empty(), Command::RelayPower(on), Phase::TransactionPower)
        },
    }
}

/// Remote power control: closing is refused with `AuthenticationFailed` in a
/// basic-mode session that is not authenticated; otherwise it needs only the
/// relay's acknowledgement. Opening also makes the session idle.
pub open spec fn on_power_control(s: ChargingState, allow: bool) -> Transition {
    if allow && !relay_close_allowed(s) {
        close_refused(s)
    } else {
        request(
        s,
        Seq::empty(),
        Command::RelayPower(allow),
        if allow {
            Phase::Confirm
        } else {
            Phase::StopOnAck
        },
    )
    }
}

/// A payment mode learned from the high-level protocol is recorded and the
/// protocol classified; other messages change nothing.
pub open spec fn on_payment(s: ChargingState, msg: ChargingMsg) -> Transition {
    match msg {
        ChargingMsg::Payment(option) => finish_classified(
            ChargingState { payment: Some(option), ..s },
            Seq::empty(),
            Ok(()),
        ),
        _ => finish(s, Seq::empty(), Ok(())),
    }
}

/// The connector state is overridden and published, unless that would leave
/// the session charging where charging is not allowed.
pub open spec fn on_set_plug(s: ChargingState, plug: PlugState) -> Transition {
    if session_safe(ChargingState { plugged: plug, ..s }) {
        finish(
            ChargingState { plugged: plug, ..s },
            seq![notify(ChargingMsg::Plugged(plug))],
            Ok(()),
        )
    } else {
        finish(s, Seq::empty(), Err(ChargeError::UnsafeState))
    }
}

/// The charging activity is overridden, published and classified, unless that
/// would leave the session charging where charging is not allowed.
pub open spec fn on_set_power(s: ChargingState, power: PowerRequest) -> Transition {
    if session_safe(ChargingState { power, ..s }) {
        finish_classified(
            ChargingState { power, ..s },
            seq![notify(ChargingMsg::Power(power))],
            Ok(()),
        )
    } else {
        finish(s, Seq::empty(), Err(ChargeError::UnsafeState))
    }
}

/// The reply to the call that `phase` waits for.
pub open spec fn on_reply(cfg: ManagerConfig, s: ChargingState, phase: Phase, r: Reply) -> Transition {
    match phase {
        Phase::Ready => Transition {
            state: s,
            phase: Phase::Ready,
            effects: Seq::empty(),
            next: Next::Done(Err(ChargeError::StateAccessConflict)),
        },
        Phase::Confirm => if r.succeeded() {
            finish(s, Seq::empty(), Ok(()))
        } else {
            call_failed(s)
        },
        Phase::StopOnAck => if r.succeeded() {
            finish_classified(
                ChargingState { power: PowerRequest::Idle, ..s },
                seq![notify(ChargingMsg::Power(PowerRequest::Idle))],
                Ok(()),
            )
        } else {
            call_failed(s)
        },
        Phase::RelayOnLimit => if !r.succeeded() {
            call_failed(s)
        } else if cfg.ocpp_enabled {
            request(
                s,
                Seq::empty(),
                Command::StatusNotification(OcppChargerStatus::Charging),
                Phase::Confirm,
            )
        } else {
            finish(s, Seq::empty(), Ok(()))
        },
        Phase::RelayOffRead => match r {
            Reply::Energy(total) => finish_classified(
                ChargingState { power: PowerRequest::Stop(total), plugged: PlugState::PlugOut, ..s },
                seq![
                    notify(ChargingMsg::Power(PowerRequest::Stop(total))),
                    notify(ChargingMsg::Plugged(PlugState::PlugOut)),
                ],
                Ok(()),
            ),
            _ => call_failed(s),
        },
        Phase::PlugInReset => if !r.succeeded() {
            call_failed(s)
        } else {
            let s1 = ChargingState { plugged: PlugState::PlugIn, ..s };
            let fx = seq![notify(ChargingMsg::Plugged(PlugState::PlugIn))];
            if cfg.ocpp_enabled {
                request(
                    s1,
                    fx,
                    Command::StatusNotification(OcppChargerStatus::Reserved),
                    Phase::Confirm,
                )
            } else {
                finish(s1, fx, Ok(()))
            }
        },
        Phase::PlugOutRead => match r {
            Reply::Energy(total) => {
                let s1 = ChargingState {
                    plugged: PlugState::PlugOut,
                    power: PowerRequest::Idle,
                    ..s
                };
                request(
                    classified(s1),
                    seq![
                        notify(ChargingMsg::Power(PowerRequest::Idle)),
                        notify(ChargingMsg::Plugged(PlugState::PlugOut)),
                    ] + classification_notices(s1),
                    Command::Logout(total),
                    Phase::PlugOutLogout,
                )
            },
            _ => call_failed(s),
        },
        Phase::PlugOutLogout => finish(s, Seq::empty(), Ok(())),
        Phase::AuthLogin => match r {
            Reply::Contract { imax, pmax } => {
                let s1 = ChargingState {
                    imax: tighter(s.imax, imax),
                    pmax: tighter(s.pmax, pmax),
                    ..s
                };
                request(
                    s1,
                    Seq::empty(),
                    Command::EnergyConfig { imax: s1.imax, pmax: s1.pmax },
                    Phase::AuthConfig,
                )
            },
            _ => request(
                ChargingState { auth: AuthState::Fail, ..s },
                seq![notify(ChargingMsg::Auth(AuthState::Fail))],
                Command::RelayPower(false),
                Phase::AuthFailOpen,
            ),
        },
        Phase::AuthConfig => if r.succeeded() {
            authorized(s)
        } else {
            call_failed(s)
        },
        Phase::AuthFailOpen => if r.succeeded() {
            finish(s, Seq::empty(), Err(ChargeError::AuthenticationFailed))
        } else {
            call_failed(s)
        },
        Phase::AvailableLimit(limit) => if r.succeeded() {
            reduced(s, limit)
        } else {
            call_failed(s)
        },
        Phase::TransactionPower => match r {
            Reply::Energy(total) => request(
                s,
                Seq::empty(),
                Command::Logout(total),
                Phase::StopOnAck,
            ),
            _ => call_failed(s),
        },
    }
}

} // verus!
