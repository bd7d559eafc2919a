use vstd::prelude::*;
use crate::types::{
    AuthState, ChargingState, ErrorState, Iso15118State, PaymentOption, PlugState, PowerRequest,
    ReservationStatus,
};

verus! {

/// Errors returned by the session manager.
#[derive(Clone, Copy, Debug, PartialEq, Eq, Structural)]
pub enum ChargeError {
    /// An operation was started while another one still waits for a reply,
    /// or a reply came while no call was outstanding.
    StateAccessConflict,
    AuthenticationFailed,
    ReservationNotPresent,
    ReservationInvalidId,
    ReservationAlreadyRunning,
    /// A synchronous call to a collaborator failed or answered out of shape.
    CollaboratorCallFailed,
    /// The change would leave the session charging without a locked or
    /// inserted plug, or without authorization in basic (IEC) mode.
    UnsafeState,
}

/// A reservation request (`Request`) or cancellation (`Cancel`).
#[derive(Clone, Copy, Debug, PartialEq, Eq, Structural)]
pub struct ReservationSession {
    pub id: u32,
    pub start: u64,
    pub stop: u64,
    pub status: ReservationStatus,
}

/// Events of the cable/relay subsystem.
#[derive(Clone, Copy, Debug, PartialEq, Eq, Structural)]
pub enum Iec6185Msg {
    /// The vehicle asks for power (`true`) or stops asking (`false`).
    PowerRqt(bool),
    /// Current rating of the cable (A).
    CableImax(u32),
    Error(ErrorState),
    /// The relay closed (`true`) or opened (`false`).
    RelayOn(bool),
    /// A plug was inserted (`true`) or removed (`false`).
    Plugged(bool),
}

/// Outcome of power-line matching.
#[derive(Clone, Copy, Debug, PartialEq, Eq, Structural)]
pub enum SlacStatus {
    Matched,
    Unmatched,
    Timeout,
}

/// Tag of a metering alarm.
#[derive(Clone, Copy, Debug, PartialEq, Eq, Structural)]
pub enum MeterTagSet {
    OverCurrent,
    OverLimit,
}

/// Commands of the remote-management backend.
#[derive(Clone, Copy, Debug, PartialEq, Eq, Structural)]
pub enum OcppMsg {
    /// New current limit (A).
    PowerLimit(u32),
    Reservation(ReservationSession),
    Reset,
    /// Remote start (`true`) or stop (`false`) of the transaction with the given id.
    Transaction(bool, u32),
}

/// Charger status reported to the remote-management backend.
#[derive(Clone, Copy, Debug, PartialEq, Eq, Structural)]
pub enum OcppChargerStatus {
    Charging,
    Reserved,
}

/// Effective charging protocol classification.
#[derive(Clone, Copy, Debug, PartialEq, Eq, Structural)]
pub enum ChargingProtocol {
    PlugAndCharge,
    SmartCharge,
    BasicCharge,
}

/// Commands sent to the collaborators.
#[derive(Clone, Copy, Debug, PartialEq, Eq, Structural)]
pub enum Command {
    /// Close (`true`) or open (`false`) the power relay.
    RelayPower(bool),
    /// Apply a current limit (A) on the cable/relay subsystem.
    CurrentLimit(u32),
    /// Read the total energy delivered in the metering session.
    EnergyRead,
    /// Reset the metering session.
    EnergyReset,
    /// Apply negotiated ceilings on the metering subsystem.
    EnergyConfig { imax: u32, pmax: u32 },
    /// Log in on the authentication subsystem.
    Login,
    /// Log out of the authentication subsystem with the session's energy total.
    Logout(u32),
    /// Report the charger status to the remote-management backend.
    StatusNotification(OcppChargerStatus),
}

/// Notifications published to subscribers; each carries the new value.
#[derive(Clone, Copy, Debug, PartialEq, Eq, Structural)]
pub enum ChargingMsg {
    Plugged(PlugState),
    Power(PowerRequest),
    Auth(AuthState),
    Iso(Iso15118State),
    Reservation(ReservationStatus),
    Protocol(ChargingProtocol),
    Payment(PaymentOption),
    State(ChargingState),
}

/// Something the manager asks its caller to do without waiting for an answer.
#[derive(Clone, Copy, Debug, PartialEq, Eq, Structural)]
pub enum Effect {
    /// Publish a notification.
    Notify(ChargingMsg),
    /// Send a command whose response is ignored.
    Send(Command),
}

/// Reply of a collaborator to a synchronous call.
#[derive(Clone, Copy, Debug, PartialEq, Eq, Structural)]
pub enum Reply {
    /// Success without a payload of interest.
    Ack,
    /// Success carrying a meter total (Wh).
    Energy(u32),
    /// Successful login carrying the contract's ceilings.
    Contract { imax: u32, pmax: u32 },
    /// The call failed.
    Failed,
}

/// What a handler asks of its caller once it has returned.
#[derive(Clone, Copy, Debug, PartialEq, Eq)]
pub enum Next {
    /// Make this synchronous call and hand its reply to `ManagerHandle::resume`.
    Call(Command),
    /// The operation is over, with this result.
    Done(Result<(), ChargeError>),
}

impl Reply {
    pub open spec fn succeeded(self) -> bool {
        !(self is Failed)
    }
}

} // verus!
