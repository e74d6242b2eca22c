//! Platform-wide and per-country configuration registries.
//!
//! The job engine consumes a country's fee and timing parameters read-only;
//! the registries themselves are maintained through the operations here.

use vstd::prelude::*;
use crate::errors::ErrorCode;

verus! {

/// Platform-wide state: the catalog counters and the fee charged for adding
/// a catalog entry.
#[derive(Debug)]
pub struct Global {
    /// Whether the record has been created.
    pub is_initialized: bool,
    /// Identity allowed to rotate this record's authority.
    pub update_authority: u64,
    /// Fee share of the platform itself, in basis points.
    pub platform_fee_basis_point: u16,
    /// Number of service types created.
    pub service_type_counter: u64,
    /// Number of special passenger types created.
    pub passengers_type_counter: u64,
    /// Number of vehicle options created.
    pub vehicle_counter: u64,
    /// Cost of adding a new vehicle or passenger option, in the smallest
    /// currency unit.
    pub new_vehicle_or_pax_fee_cent: u64,
}

impl Global {
    /// Creates the record on first call, then applies whichever of the two
    /// optional parameters are supplied. A parameter left out keeps its
    /// stored value.
    pub fn init_or_update_global(
        &mut self,
        caller: u64,
        platform_fee_basis_point: Option<u16>,
        new_vehicle_or_pax_fee_cent: Option<u64>,
    )
        ensures
            final(self).is_initialized,
            final(self).update_authority == if old(self).is_initialized {
                old(self).update_authority
            } else {
                caller
            },
            final(self).platform_fee_basis_point
                == if let Some(bp) = platform_fee_basis_point {
                    bp
                } else {
                    old(self).platform_fee_basis_point
                },
            final(self).new_vehicle_or_pax_fee_cent
                == if let Some(fee) = new_vehicle_or_pax_fee_cent {
                    fee
                } else {
                    old(self).new_vehicle_or_pax_fee_cent
                },
            final(self).service_type_counter == if old(self).is_initialized {
                old(self).service_type_counter
            } else {
                0
            },
            final(self).passengers_type_counter == if old(self).is_initialized {
                old(self).passengers_type_counter
            } else {
                0
            },
            final(self).vehicle_counter == if old(self).is_initialized {
                old(self).vehicle_counter
            } else {
                0
            },
    {
        if !self.is_initialized {
            self.is_initialized = true;
            self.update_authority = caller;
            self.service_type_counter = 0;
            self.vehicle_counter = 0;
            self.passengers_type_counter = 0;
        }
        if let Some(bp) = platform_fee_basis_point {
            self.platform_fee_basis_point = bp;
        }
        if let Some(fee) = new_vehicle_or_pax_fee_cent {
            self.new_vehicle_or_pax_fee_cent = fee;
        }
    }

    /// Hands the record to a new authority. Only the current authority may.
    pub fn change_global_authority(&mut self, caller: u64, new_authority: u64) -> (r: Result<
        (),
        ErrorCode,
    >)
        ensures
            match r {
                Ok(()) => caller == old(self).update_authority && *final(self) == (Global {
                    update_authority: new_authority,
                    ..*old(self)
                }),
                Err(e) => {
                    &&& e == ErrorCode::AuthorizationMismatch
                    &&& caller != old(self).update_authority
                    &&& *final(self) == *old(self)
                },
            },
    {
        if caller != self.update_authority {
            return Err(ErrorCode::AuthorizationMismatch);
        }
        self.update_authority = new_authority;
        Ok(())
    }
}

/// One country's registry: fee and timing parameters consumed read-only by
/// the job engine, and the counters under which infra operators register.
#[derive(Debug)]
pub struct Country {
    /// ISO alpha-3 code of the country.
    pub alpha3_country_code: String,
    /// Identity allowed to update this record.
    pub update_authority: u64,
    /// Fee share of the country registry, in basis points.
    pub platform_fee_basis_point: u16,
    /// Number of driver infra operators registered.
    pub driver_infra_counter: u64,
    /// Number of customer infra operators registered.
    pub customer_infra_counter: u64,
    /// Identity of the stable token this country settles in.
    pub stable_mint: u64,
    /// Waiting time at pickup beyond which the waiting fee is charged, in
    /// seconds.
    pub waiting_fee_sec: u64,
    /// The waiting fee, in the smallest currency unit.
    pub waiting_fee_cent: u64,
    /// Time after acceptance beyond which a cancelling driver is charged,
    /// in seconds.
    pub driver_cancellation_fee_sec: u64,
    /// Time after acceptance beyond which a cancelling customer is charged,
    /// in seconds.
    pub customer_cancellation_fee_sec: u64,
    /// The cancellation fee, in the smallest currency unit.
    pub cancellation_fee_cent: u64,
    /// Base rate of a job, in the smallest currency unit.
    pub base_rate_cent: u64,
    /// Minimum rate per kilometre, in the smallest currency unit.
    pub min_km_rate_cent: u64,
    /// Minimum rate per minute, in the smallest currency unit.
    pub min_min_fee_cent: u64,
    /// Mandatory window between trip completion and fund release, in
    /// seconds, during which a dispute may still be raised.
    pub finalize_duration_sec: u64,
    /// Time a dispute respondent has to answer, in seconds.
    pub dispute_waitout_period: u64,
    /// Minimum deposit a driver infra posts at registration.
    pub min_driver_infra_deposit: u64,
    /// Minimum deposit a customer infra posts at registration.
    pub min_customer_infra_deposit: u64,
    /// Reference amount for punitive slashes.
    pub base_slash_amount: u64,
    /// Whether the record has been created.
    pub is_initialized: bool,
}

/// Parameters for creating or updating a country registry.
///
/// On first initialization every field must be supplied; on an update, a
/// field left out keeps its stored value.
#[derive(Debug)]
pub struct InitOrUpdateCountryParam {
    pub platform_fee_basis_point: Option<u16>,
    pub waiting_fee_sec: Option<u64>,
    pub waiting_fee_cent: Option<u64>,
    pub driver_cancellation_fee_sec: Option<u64>,
    pub customer_cancellation_fee_sec: Option<u64>,
    pub cancellation_fee_cent: Option<u64>,
    pub base_rate_cent: Option<u64>,
    pub min_km_rate_cent: Option<u64>,
    pub min_min_fee_cent: Option<u64>,
    pub finalize_duration_sec: Option<u64>,
    pub min_driver_infra_deposit: Option<u64>,
    pub min_customer_infra_deposit: Option<u64>,
    pub dispute_waitout_period: Option<u64>,
    pub base_slash_amount: Option<u64>,
}

impl InitOrUpdateCountryParam {
    /// All fields are supplied — the condition for first initialization.
    pub open spec fn complete(self) -> bool {
        &&& self.platform_fee_basis_point is Some
        &&& self.waiting_fee_sec is Some
        &&& self.waiting_fee_cent is Some
        &&& self.driver_cancellation_fee_sec is Some
        &&& self.customer_cancellation_fee_sec is Some
        &&& self.cancellation_fee_cent is Some
        &&& self.base_rate_cent is Some
        &&& self.min_km_rate_cent is Some
        &&& self.min_min_fee_cent is Some
        &&& self.finalize_duration_sec is Some
        &&& self.min_driver_infra_deposit is Some
        &&& self.min_customer_infra_deposit is Some
        &&& self.dispute_waitout_period is Some
        &&& self.base_slash_amount is Some
    }

    /// Fills a fresh country record from a complete parameter set; both
    /// registration counters start at zero. Incomplete parameters are
    /// refused and mutate nothing.
    pub fn init_new(&self, country_state: &mut Country) -> (r: Result<(), ErrorCode>)
        ensures
            match r {
                Ok(()) => {
                    &&& self.complete()
                    &&& *final(country_state) == (Country {
                        platform_fee_basis_point: self.platform_fee_basis_point->0,
                        driver_infra_counter: 0,
                        customer_infra_counter: 0,
                        waiting_fee_sec: self.waiting_fee_sec->0,
                        waiting_fee_cent: self.waiting_fee_cent->0,
                        driver_cancellation_fee_sec: self.driver_cancellation_fee_sec->0,
                        customer_cancellation_fee_sec: self.customer_cancellation_fee_sec->0,
                        cancellation_fee_cent: self.cancellation_fee_cent->0,
                        base_rate_cent: self.base_rate_cent->0,
                        min_km_rate_cent: self.min_km_rate_cent->0,
                        min_min_fee_cent: self.min_min_fee_cent->0,
                        finalize_duration_sec: self.finalize_duration_sec->0,
                        min_driver_infra_deposit: self.min_driver_infra_deposit->0,
                        min_customer_infra_deposit: self.min_customer_infra_deposit->0,
                        base_slash_amount: self.base_slash_amount->0,
                        dispute_waitout_period: self.dispute_waitout_period->0,
                        ..*old(country_state)
                    })
                },
                Err(e) => {
                    &&& e == ErrorCode::MissingParam
                    &&& !self.complete()
                    &&& *final(country_state) == *old(country_state)
                },
            },
    {
        if self.platform_fee_basis_point.is_none() || self.waiting_fee_sec.is_none()
            || self.waiting_fee_cent.is_none() || self.driver_cancellation_fee_sec.is_none()
            || self.customer_cancellation_fee_sec.is_none() || self.cancellation_fee_cent.is_none()
            || self.base_rate_cent.is_none() || self.min_km_rate_cent.is_none()
            || self.min_min_fee_cent.is_none() || self.finalize_duration_sec.is_none()
            || self.min_driver_infra_deposit.is_none()
            || self.min_customer_infra_deposit.is_none() || self.dispute_waitout_period.is_none()
            || self.base_slash_amount.is_none() {
            return Err(ErrorCode::MissingParam);
        }
        country_state.platform_fee_basis_point = self.platform_fee_basis_point.unwrap();
        country_state.driver_infra_counter = 0;
        country_state.customer_infra_counter = 0;
        country_state.waiting_fee_sec = self.waiting_fee_sec.unwrap();
        country_state.waiting_fee_cent = self.waiting_fee_cent.unwrap();
        country_state.driver_cancellation_fee_sec = self.driver_cancellation_fee_sec.unwrap();
        country_state.customer_cancellation_fee_sec = self.customer_cancellation_fee_sec.unwrap();
        country_state.cancellation_fee_cent = self.cancellation_fee_cent.unwrap();
        country_state.base_rate_cent = self.base_rate_cent.unwrap();
        country_state.min_km_rate_cent = self.min_km_rate_cent.unwrap();
        country_state.min_min_fee_cent = self.min_min_fee_cent.unwrap();
        country_state.finalize_duration_sec = self.finalize_duration_sec.unwrap();
        country_state.min_driver_infra_deposit = self.min_driver_infra_deposit.unwrap();
        country_state.min_customer_infra_deposit = self.min_customer_infra_deposit.unwrap();
        country_state.base_slash_amount = self.base_slash_amount.unwrap();
        country_state.dispute_waitout_period = self.dispute_waitout_period.unwrap();
        Ok(())
    }

    /// Applies the supplied fields to an existing country record; a field
    /// left out keeps its stored value. Counters and identity fields are
    /// never touched.
    pub fn update_or_same(&self, country_state: &mut Country)
        ensures
            *final(country_state) == (Country {
                platform_fee_basis_point: if self.platform_fee_basis_point is Some {
                    self.platform_fee_basis_point->0
                } else {
                    old(country_state).platform_fee_basis_point
                },
                waiting_fee_sec: if self.waiting_fee_sec is Some {
                    self.waiting_fee_sec->0
                } else {
                    old(country_state).waiting_fee_sec
                },
                waiting_fee_cent: if self.waiting_fee_cent is Some {
                    self.waiting_fee_cent->0
                } else {
                    old(country_state).waiting_fee_cent
                },
                driver_cancellation_fee_sec: if self.driver_cancellation_fee_sec is Some {
                    self.driver_cancellation_fee_sec->0
                } else {
                    old(country_state).driver_cancellation_fee_sec
                },
                customer_cancellation_fee_sec: if self.customer_cancellation_fee_sec is Some {
                    self.customer_cancellation_fee_sec->0
                } else {
                    old(country_state).customer_cancellation_fee_sec
                },
                cancellation_fee_cent: if self.cancellation_fee_cent is Some {
                    self.cancellation_fee_cent->0
                } else {
                    old(country_state).cancellation_fee_cent
                },
                base_rate_cent: if self.base_rate_cent is Some {
                    self.base_rate_cent->0
                } else {
                    old(country_state).base_rate_cent
                },
                min_km_rate_cent: if self.min_km_rate_cent is Some {
                    self.min_km_rate_cent->0
                } else {
                    old(country_state).min_km_rate_cent
                },
                min_min_fee_cent: if self.min_min_fee_cent is Some {
                    self.min_min_fee_cent->0
                } else {
                    old(country_state).min_min_fee_cent
                },
                finalize_duration_sec: if self.finalize_duration_sec is Some {
                    self.finalize_duration_sec->0
                } else {
                    old(country_state).finalize_duration_sec
                },
                min_driver_infra_deposit: if self.min_driver_infra_deposit is Some {
                    self.min_driver_infra_deposit->0
                } else {
                    old(country_state).min_driver_infra_deposit
                },
                min_customer_infra_deposit: if self.min_customer_infra_deposit is Some {
                    self.min_customer_infra_deposit->0
                } else {
                    old(country_state).min_customer_infra_deposit
                },
                base_slash_amount: if self.base_slash_amount is Some {
                    self.base_slash_amount->0
                } else {
                    old(country_state).base_slash_amount
                },
                dispute_waitout_period: if self.dispute_waitout_period is Some {
                    self.dispute_waitout_period->0
                } else {
                    old(country_state).dispute_waitout_period
                },
                ..*old(country_state)
            }),
    {
        if let Some(v) = self.platform_fee_basis_point {
            country_state.platform_fee_basis_point = v;
        }
        if let Some(v) = self.waiting_fee_sec {
            country_state.waiting_fee_sec = v;
        }
        if let Some(v) = self.waiting_fee_cent {
            country_state.waiting_fee_cent = v;
        }
        if let Some(v) = self.driver_cancellation_fee_sec {
            country_state.driver_cancellation_fee_sec = v;
        }
        if let Some(v) = self.customer_cancellation_fee_sec {
            country_state.customer_cancellation_fee_sec = v;
        }
        if let Some(v) = self.cancellation_fee_cent {
            country_state.cancellation_fee_cent = v;
        }
        if let Some(v) = self.base_rate_cent {
            country_state.base_rate_cent = v;
        }
        if let Some(v) = self.min_km_rate_cent {
            country_state.min_km_rate_cent = v;
        }
        if let Some(v) = self.min_min_fee_cent {
            country_state.min_min_fee_cent = v;
        }
        if let Some(v) = self.finalize_duration_sec {
            country_state.finalize_duration_sec = v;
        }
        if let Some(v) = self.min_driver_infra_deposit {
            country_state.min_driver_infra_deposit = v;
        }
        if let Some(v) = self.min_customer_infra_deposit {
            country_state.min_customer_infra_deposit = v;
        }
        if let Some(v) = self.base_slash_amount {
            country_state.base_slash_amount = v;
        }
        if let Some(v) = self.dispute_waitout_period {
            country_state.dispute_waitout_period = v;
        }
    }
}

impl Country {
    /// Creates the country record on first call — requiring a complete
    /// parameter set — and updates it afterwards, which only the recorded
    /// authority may do. A refused call mutates nothing.
    pub fn init_or_update_country(
        &mut self,
        caller: u64,
        alpha3_country_code: String,
        stable_mint: u64,
        params: &InitOrUpdateCountryParam,
    ) -> (r: Result<(), ErrorCode>)
        ensures
            match r {
                Ok(()) => {
                    &&& final(self).is_initialized
                    &&& if old(self).is_initialized {
                        caller == old(self).update_authority && final(self).update_authority
                            == old(self).update_authority && final(self).driver_infra_counter
                            == old(self).driver_infra_counter && final(self).customer_infra_counter
                            == old(self).customer_infra_counter && final(self).alpha3_country_code
                            == old(self).alpha3_country_code
                    } else {
                        &&& params.complete()
                        &&& final(self).alpha3_country_code == alpha3_country_code
                        &&& final(self).update_authority == caller
                        &&& final(self).stable_mint == stable_mint
                        &&& final(self).driver_infra_counter == 0
                        &&& final(self).customer_infra_counter == 0
                        &&& final(self).finalize_duration_sec == params.finalize_duration_sec->0
                        &&& final(self).waiting_fee_sec == params.waiting_fee_sec->0
                        &&& final(self).waiting_fee_cent == params.waiting_fee_cent->0
                        &&& final(self).cancellation_fee_cent == params.cancellation_fee_cent->0
                        &&& final(self).driver_cancellation_fee_sec
                            == params.driver_cancellation_fee_sec->0
                        &&& final(self).customer_cancellation_fee_sec
                            == params.customer_cancellation_fee_sec->0
                        &&& final(self).base_slash_amount == params.base_slash_amount->0
                        &&& final(self).min_driver_infra_deposit
                            == params.min_driver_infra_deposit->0
                        &&& final(self).min_customer_infra_deposit
                            == params.min_customer_infra_deposit->0
                    }
                },
                Err(e) => *final(self) == *old(self) && if old(self).is_initialized {
                    e == ErrorCode::AuthorizationMismatch && caller != old(self).update_authority
                } else {
                    e == ErrorCode::MissingParam && !params.complete()
                },
            },
            !old(self).is_initialized && params.complete() ==> r is Ok,
            old(self).is_initialized && caller == old(self).update_authority ==> r is Ok,
    {
        if !self.is_initialized {
            let r = params.init_new(self);
            match r {
                Ok(()) => {
                    self.is_initialized = true;
                    self.alpha3_country_code = alpha3_country_code;
                    self.update_authority = caller;
                    self.stable_mint = stable_mint;
                    Ok(())
                },
                Err(e) => Err(e),
            }
        } else {
            if self.update_authority != caller {
                return Err(ErrorCode::AuthorizationMismatch);
            }
            params.update_or_same(self);
            Ok(())
        }
    }

    /// Hands the country record to a new authority. Only the current
    /// authority may.
    pub fn change_country_authority(&mut self, caller: u64, new_authority: u64) -> (r: Result<
        (),
        ErrorCode,
    >)
        ensures
            match r {
                Ok(()) => caller == old(self).update_authority && *final(self) == (Country {
                    update_authority: new_authority,
                    ..*old(self)
                }),
                Err(e) => {
                    &&& e == ErrorCode::AuthorizationMismatch
                    &&& caller != old(self).update_authority
                    &&& *final(self) == *old(self)
                },
            },
    {
        if caller != self.update_authority {
            return Err(ErrorCode::AuthorizationMismatch);
        }
        self.update_authority = new_authority;
        Ok(())
    }
}

} // verus!
