use vstd::prelude::*;

verus! {

/// Ceiling value meaning that no current or power limit has been negotiated yet.
pub const NO_LIMIT: u32 = 0xFFFF_FFFF;

/// Fault reported by the cable/relay subsystem.
#[derive(Clone, Copy, Debug, PartialEq, Eq, Structural)]
pub enum ErrorState {
    ErrE,
    ErrDf,
    ErrRelay,
    ErrRdc,
    ErrOverCurrent,
    ErrPermanent,
    ErrVentilation,
}

/// Pilot-signal fault state of the cable/relay subsystem.
#[derive(Clone, Copy, Debug, PartialEq, Eq, Structural)]
pub enum IecState {
    Bdf,
    Ef,
    Unset,
}

/// Charging activity of the session.
#[derive(Clone, Copy, Debug, PartialEq, Eq, Structural)]
pub enum PowerRequest {
    Idle,
    Start,
    /// Charging under the given current cap (A).
    Charging(u32),
    /// Session ended with the given final meter reading (Wh).
    Stop(u32),
}

/// Physical connector state.
#[derive(Clone, Copy, Debug, PartialEq, Eq, Structural)]
pub enum PlugState {
    PlugIn,
    Lock,
    Error,
    PlugOut,
    Unknown,
}

/// Charging protocol family in effect.
#[derive(Clone, Copy, Debug, PartialEq, Eq, Structural)]
pub enum Iso15118State {
    Iso20,
    Iso2,
    Iec,
    Unset,
}

/// Authentication progress of the current session.
#[derive(Clone, Copy, Debug, PartialEq, Eq, Structural)]
pub enum AuthState {
    Done,
    Fail,
    Pending,
    Idle,
}

/// Payment/identification mode learned from the high-level protocol.
#[derive(Clone, Copy, Debug, PartialEq, Eq, Structural)]
pub enum PaymentOption {
    /// Plug and charge.
    Pnc,
    /// External identification means.
    Eim,
}

/// Reservation action tags and outcomes.
#[derive(Clone, Copy, Debug, PartialEq, Eq, Structural)]
pub enum ReservationStatus {
    Request,
    Cancel,
    Accepted,
    Cancelled,
}

/// The reservation currently held by the station.
#[derive(Clone, Copy, Debug, PartialEq, Eq, Structural)]
pub struct ReservationState {
    pub id: u32,
    pub start: u64,
    pub stop: u64,
}

/// The single authoritative record of charging progress.
#[derive(Clone, Copy, Debug, PartialEq, Eq, Structural)]
pub struct ChargingState {
    pub plugged: PlugState,
    pub power: PowerRequest,
    /// Maximum current (A).
    pub imax: u32,
    /// Maximum power (W).
    pub pmax: u32,
    pub auth: AuthState,
    pub iso: Iso15118State,
    pub payment: Option<PaymentOption>,
    pub reservation: Option<ReservationState>,
}

/// Vehicle-side view of the cable/relay subsystem.
#[derive(Clone, Copy, Debug, PartialEq, Eq, Structural)]
pub struct VehicleState {
    pub plugged: PlugState,
    pub power_request: PowerRequest,
    pub power_imax: u32,
    pub iso15118: Iso15118State,
    pub iec_state: IecState,
}

impl ChargingState {
    /// The state of a station that has just started: every field idle or unset.
    pub open spec fn initial() -> ChargingState {
        ChargingState {
            plugged: PlugState::Unknown,
            power: PowerRequest::Idle,
            imax: NO_LIMIT,
            pmax: NO_LIMIT,
            auth: AuthState::Idle,
            iso: Iso15118State::Unset,
            payment: None,
            reservation: None,
        }
    }

    pub fn new() -> (r: ChargingState)
        ensures
            r == ChargingState::initial(),
    {
        ChargingState {
            plugged: PlugState::Unknown,
            power: PowerRequest::Idle,
            imax: NO_LIMIT,
            pmax: NO_LIMIT,
            auth: AuthState::Idle,
            iso: Iso15118State::Unset,
            payment: None,
            reservation: None,
        }
    }
}

} // verus!
