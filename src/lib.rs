//! Control core of an electric-vehicle charging station.
//!
//! The session manager reconciles events from the cable/relay, power-line
//! matching, metering, authentication and remote-management subsystems into
//! one charging session, and decides which commands those subsystems receive.
//! Calls into the subsystems are made by the caller: a handler either
//! finishes or asks for one synchronous call, whose reply is handed back
//! through `ManagerHandle::resume`.

mod manager;
mod messages;
mod reservation;
mod types;

pub mod laws;
pub mod model;

pub use manager::ManagerHandle;
pub use messages::{
    ChargeError, ChargingMsg, ChargingProtocol, Command, Effect, Iec6185Msg, MeterTagSet, Next,
    OcppChargerStatus, OcppMsg, Reply, ReservationSession, SlacStatus,
};
pub use model::{ManagerConfig, Phase};
pub use reservation::{reservation_decision, reservation_outcome};
pub use types::{
    AuthState, ChargingState, ErrorState, IecState, Iso15118State, PaymentOption, PlugState,
    PowerRequest, ReservationState, ReservationStatus, VehicleState, NO_LIMIT,
};
