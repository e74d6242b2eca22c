//! The driver session: a driver's live operating record.
//!
//! A session is created when a driver starts work, updated on every location
//! ping and on job acceptance, and closed when the driver ends work or when a
//! job settles or cancels.

use vstd::prelude::*;
use crate::coords::Coordinates;
use crate::errors::ErrorCode;

verus! {

/// One driver's live operating record.
#[derive(Debug)]
pub struct Driver {
    /// Whether the session is active. An inactive record may be re-created
    /// by a new start of work.
    pub is_initialized: bool,
    /// Identity allowed to ping location updates.
    pub location_update_authority: u64,
    /// The driver's stable identifier.
    pub driver_uuid: String,
    /// Public key under which coordination payloads are encrypted for this
    /// driver; never interpreted here.
    pub rsa_pem_pubkey: String,
    /// Identity of the owning driver infra account.
    pub infra_authority: u64,
    /// Last reported position.
    pub last_location: Coordinates,
    /// When the position was last reported.
    pub location_last_update: u64,
    /// Destination committed to for an accepted job. While set, the driver
    /// is engaged and must not accept another job.
    pub next_location: Option<Coordinates>,
    /// Identity of the country registry the driver operates under.
    pub country_key: u64,
    /// Catalog ids of the services the driver offers.
    pub offered_service: Vec<u64>,
    /// Catalog ids of the special passenger types the driver accepts.
    pub passenger_types: Vec<u64>,
    /// Catalog id of the driver's vehicle.
    pub vehicle: u64,
    /// Seats in the vehicle.
    pub number_of_seats: u8,
}

impl Driver {
    /// Updates the driver's position.
    ///
    /// Both supplied positions must be in range; a rejected ping mutates
    /// nothing. The committed destination is overwritten only while one is
    /// already pending — a destination is committed by job acceptance, never
    /// by a ping.
    pub fn driver_update_location(
        &mut self,
        current_location: Coordinates,
        next_location: Option<Coordinates>,
        now: u64,
    ) -> (r: Result<(), ErrorCode>)
        requires
            old(self).next_location is Some ==> next_location is Some,
        ensures
            match r {
                Ok(()) => {
                    &&& current_location.spec_valid()
                    &&& next_location matches Some(n) ==> n.spec_valid()
                    &&& *final(self) == (Driver {
                        last_location: current_location,
                        location_last_update: now,
                        next_location: if old(self).next_location is Some {
                            next_location
                        } else {
                            old(self).next_location
                        },
                        ..*old(self)
                    })
                },
                Err(e) => {
                    &&& e == ErrorCode::InvalidCoordinate
                    &&& !current_location.spec_valid() || (next_location matches Some(n)
                        && !n.spec_valid())
                    &&& *final(self) == *old(self)
                },
            },
    {
        if !current_location.is_valid() {
            return Err(ErrorCode::InvalidCoordinate);
        }
        match next_location {
            Some(n) => {
                if !n.is_valid() {
                    return Err(ErrorCode::InvalidCoordinate);
                }
            },
            None => {},
        }
        if self.next_location.is_some() {
            self.next_location = next_location;
        }
        self.last_location = current_location;
        self.location_last_update = now;
        Ok(())
    }
}

} // verus!
