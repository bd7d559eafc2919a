use vstd::prelude::*;
use crate::messages::{ChargeError, ReservationSession};
use crate::types::{ReservationState, ReservationStatus};

verus! {

/// What a reservation request does to the held reservation, and what it returns.
pub open spec fn reservation_outcome(held: Option<ReservationState>, req: ReservationSession) -> (
    Option<ReservationState>,
    Result<ReservationStatus, ChargeError>,
) {
    match held {
        None => if req.status is Request {
            (
                Some(ReservationState { id: req.id, start: req.start, stop: req.stop }),
                Ok(ReservationStatus::Accepted),
            )
        } else {
            (held, Err(ChargeError::ReservationNotPresent))
        },
        Some(current) => if !(req.status is Cancel) {
            (held, Err(ChargeError::ReservationAlreadyRunning))
        } else if current.id != req.id {
            (held, Err(ChargeError::ReservationInvalidId))
        } else {
            (None, Ok(ReservationStatus::Cancelled))
        },
    }
}

/// Decides a reservation request against the reservation currently held.
pub fn reservation_decision(held: Option<ReservationState>, req: &ReservationSession) -> (r: (
    Option<ReservationState>,
    Result<ReservationStatus, ChargeError>,
))
    ensures
        r == reservation_outcome(held, *req),
{
    match held {
        None => match req.status {
            ReservationStatus::Request => (
                Some(ReservationState { id: req.id, start: req.start, stop: req.stop }),
                Ok(ReservationStatus::Accepted),
            ),
            _ => (held, Err(ChargeError::ReservationNotPresent)),
        },
        Some(current) => match req.status {
            ReservationStatus::Cancel => {
                if current.id != req.id {
                    (held, Err(ChargeError::ReservationInvalidId))
                } else {
                    (None, Ok(ReservationStatus::Cancelled))
                }
            },
            _ => (held, Err(ChargeError::ReservationAlreadyRunning)),
        },
    }
}

} // verus!
