//! Infra account ledger: driver-side and customer-side operators.
//!
//! An infra operator registers under a country's counter with a mandatory
//! minimum deposit, is verified (or suspended, or slashed) by the country
//! authority, and earns a basis-point share of each job's fee. Its deposit
//! balance also pays the engine's penalty transfers. An account is never
//! destroyed in normal operation — only frozen.

use vstd::prelude::*;
use crate::config::Country;
use crate::errors::ErrorCode;

verus! {

/// A registered infra operator — a driver infra or a customer infra.
#[derive(Debug)]
pub struct InfraAccount {
    /// Identity of this account; the job distribution refers to it.
    pub account_id: u64,
    /// ISO alpha-3 code of the country registered under.
    pub alpha3_country_code: String,
    /// Identity allowed to operate this account.
    pub update_authority: u64,
    /// Registration sequence number within the country.
    pub infra_count: u64,
    /// Number of jobs created under this account (driver infra).
    pub job_counter: u64,
    /// Whether the record has been created.
    pub is_initialized: bool,
    /// Whether the country authority has verified the operator.
    pub is_verified: bool,
    /// Whether the account is frozen; a frozen account may not join a new
    /// job.
    pub is_frozen: bool,
    /// The operator's current payout share, in basis points. Jobs snapshot
    /// this value at request time; later changes never touch an existing
    /// snapshot.
    pub fee_basis_point: u16,
    /// Sequence number of the operator's current company record.
    pub company_info_current_count: u64,
    /// Rides matched under this account.
    pub matched_ride: u64,
    /// Rides cancelled under this account.
    pub cancellation: u64,
    /// Disputes raised on this account's rides.
    pub dispute_cases: u64,
    /// Disputes this account lost.
    pub cases_lost_in_dispute: u64,
    /// The account's deposit balance, in the smallest currency unit. Feeds
    /// penalty and waiting-fee transfers.
    pub deposit_cent: u64,
}

/// Company registration details of an operator.
#[derive(Debug)]
pub struct CompanyInfo {
    pub company_name: String,
    pub entity_registry_id: String,
    pub website: String,
}

/// Registration parameters of a driver infra.
#[derive(Debug)]
pub struct InitDriverInfraParam {
    /// Must equal the country's current driver infra counter.
    pub driver_infra_count: u64,
    pub company_name: String,
    pub entity_registry_id: String,
    pub website: String,
    pub driver_infra_fee_basis_point: u16,
}

/// Registration parameters of a customer infra.
#[derive(Debug)]
pub struct InitCustomerInfraParam {
    /// Must equal the country's current customer infra counter.
    pub customer_infra_count: u64,
    pub company_name: String,
    pub entity_registry_id: String,
    pub website: String,
    pub customer_infra_fee_basis_point: u16,
}

/// Parameters for replacing an operator's company record.
#[derive(Debug)]
pub struct UpdateInfraCompanyParam {
    pub company_name: String,
    pub entity_registry_id: String,
    pub website: String,
    pub infra_count: u64,
    pub old_company_info_count: u64,
}

/// Registers a driver infra under `country_state`'s driver counter.
///
/// The submitted sequence number must equal the counter, and the owner's
/// funding balance must cover the country's minimum driver deposit, which
/// becomes the account's starting deposit. On success the counter advances
/// by one; a refused registration mutates nothing.
pub fn init_driver_infra(
    country_state: &mut Country,
    caller: u64,
    account_id: u64,
    owner_balance_cent: u64,
    params: InitDriverInfraParam,
) -> (r: Result<(InfraAccount, CompanyInfo), ErrorCode>)
    requires
        old(country_state).driver_infra_counter < u64::MAX,
    ensures
        match r {
            Ok((infra, company)) => {
                &&& params.driver_infra_count == old(country_state).driver_infra_counter
                &&& owner_balance_cent >= old(country_state).min_driver_infra_deposit
                &&& *final(country_state) == (Country {
                    driver_infra_counter: (old(country_state).driver_infra_counter + 1) as u64,
                    ..*old(country_state)
                })
                &&& infra.account_id == account_id
                &&& infra.update_authority == caller
                &&& infra.infra_count == old(country_state).driver_infra_counter
                &&& infra.fee_basis_point == params.driver_infra_fee_basis_point
                &&& infra.deposit_cent == old(country_state).min_driver_infra_deposit
                &&& infra.is_initialized && !infra.is_verified && !infra.is_frozen
                &&& infra.job_counter == 0 && infra.matched_ride == 0 && infra.cancellation == 0
                &&& infra.alpha3_country_code@ == old(country_state).alpha3_country_code@
                &&& company.company_name@ == params.company_name@
                &&& company.entity_registry_id@ == params.entity_registry_id@
                &&& company.website@ == params.website@
            },
            Err(e) => {
                &&& *final(country_state) == *old(country_state)
                &&& if params.driver_infra_count != old(country_state).driver_infra_counter {
                    e == ErrorCode::IncorrectInitCount
                } else {
                    e == ErrorCode::InsufficientFunds && owner_balance_cent < old(
                        country_state,
                    ).min_driver_infra_deposit
                }
            },
        },
{
    if params.driver_infra_count != country_state.driver_infra_counter {
        return Err(ErrorCode::IncorrectInitCount);
    }
    if owner_balance_cent < country_state.min_driver_infra_deposit {
        return Err(ErrorCode::InsufficientFunds);
    }
    let company = CompanyInfo {
        company_name: params.company_name,
        entity_registry_id: params.entity_registry_id,
        website: params.website,
    };
    let infra = InfraAccount {
        account_id,
        alpha3_country_code: country_state.alpha3_country_code.clone(),
        update_authority: caller,
        infra_count: country_state.driver_infra_counter,
        job_counter: 0,
        is_initialized: true,
        is_verified: false,
        is_frozen: false,
        fee_basis_point: params.driver_infra_fee_basis_point,
        company_info_current_count: 0,
        matched_ride: 0,
        cancellation: 0,
        dispute_cases: 0,
        cases_lost_in_dispute: 0,
        deposit_cent: country_state.min_driver_infra_deposit,
    };
    country_state.driver_infra_counter = country_state.driver_infra_counter + 1;
    Ok((infra, company))
}

/// Registers a customer infra under `country_state`'s customer counter;
/// the mirror of driver registration, against the customer minimum deposit.
pub fn init_customer_infra(
    country_state: &mut Country,
    caller: u64,
    account_id: u64,
    owner_balance_cent: u64,
    params: InitCustomerInfraParam,
) -> (r: Result<(InfraAccount, CompanyInfo), ErrorCode>)
    requires
        old(country_state).customer_infra_counter < u64::MAX,
    ensures
        match r {
            Ok((infra, company)) => {
                &&& params.customer_infra_count == old(country_state).customer_infra_counter
                &&& owner_balance_cent >= old(country_state).min_customer_infra_deposit
                &&& *final(country_state) == (Country {
                    customer_infra_counter: (old(country_state).customer_infra_counter + 1) as u64,
                    ..*old(country_state)
                })
                &&& infra.account_id == account_id
                &&& infra.update_authority == caller
                &&& infra.infra_count == old(country_state).customer_infra_counter
                &&& infra.fee_basis_point == params.customer_infra_fee_basis_point
                &&& infra.deposit_cent == old(country_state).min_customer_infra_deposit
                &&& infra.is_initialized && !infra.is_verified && !infra.is_frozen
                &&& infra.job_counter == 0 && infra.matched_ride == 0 && infra.cancellation == 0
                &&& infra.alpha3_country_code@ == old(country_state).alpha3_country_code@
                &&& company.company_name@ == params.company_name@
                &&& company.entity_registry_id@ == params.entity_registry_id@
                &&& company.website@ == params.website@
            },
            Err(e) => {
                &&& *final(country_state) == *old(country_state)
                &&& if params.customer_infra_count != old(country_state).customer_infra_counter {
                    e == ErrorCode::IncorrectInitCount
                } else {
                    e == ErrorCode::InsufficientFunds && owner_balance_cent < old(
                        country_state,
                    ).min_customer_infra_deposit
                }
            },
        },
{
    if params.customer_infra_count != country_state.customer_infra_counter {
        return Err(ErrorCode::IncorrectInitCount);
    }
    if owner_balance_cent < country_state.min_customer_infra_deposit {
        return Err(ErrorCode::InsufficientFunds);
    }
    let company = CompanyInfo {
        company_name: params.company_name,
        entity_registry_id: params.entity_registry_id,
        website: params.website,
    };
    let infra = InfraAccount {
        account_id,
        alpha3_country_code: country_state.alpha3_country_code.clone(),
        update_authority: caller,
        infra_count: country_state.customer_infra_counter,
        job_counter: 0,
        is_initialized: true,
        is_verified: false,
        is_frozen: false,
        fee_basis_point: params.customer_infra_fee_basis_point,
        company_info_current_count: 0,
        matched_ride: 0,
        cancellation: 0,
        dispute_cases: 0,
        cases_lost_in_dispute: 0,
        deposit_cent: country_state.min_customer_infra_deposit,
    };
    country_state.customer_infra_counter = country_state.customer_infra_counter + 1;
    Ok((infra, company))
}

impl InfraAccount {
    /// Sets the operator's payout share. Only the account authority may.
    /// Jobs already created keep their snapshotted share untouched.
    pub fn update_basis_point(&mut self, caller: u64, basis_point: u16) -> (r: Result<
        (),
        ErrorCode,
    >)
        ensures
            match r {
                Ok(()) => caller == old(self).update_authority && *final(self) == (InfraAccount {
                    fee_basis_point: basis_point,
                    ..*old(self)
                }),
                Err(e) => {
                    &&& e == ErrorCode::AuthorizationMismatch
                    &&& caller != old(self).update_authority
                    &&& *final(self) == *old(self)
                },
            },
    {
        if caller != self.update_authority {
            return Err(ErrorCode::AuthorizationMismatch);
        }
        self.fee_basis_point = basis_point;
        Ok(())
    }

    /// Replaces the operator's company record. Only the account authority
    /// may. The account is frozen until re-verified.
    pub fn update_infra_company(&mut self, caller: u64, params: UpdateInfraCompanyParam) -> (r:
        Result<CompanyInfo, ErrorCode>)
        requires
            params.old_company_info_count < u64::MAX,
        ensures
            match r {
                Ok(company) => {
                    &&& caller == old(self).update_authority
                    &&& *final(self) == (InfraAccount {
                        company_info_current_count: (params.old_company_info_count + 1) as u64,
                        is_frozen: true,
                        ..*old(self)
                    })
                    &&& company.company_name@ == params.company_name@
                    &&& company.entity_registry_id@ == params.entity_registry_id@
                    &&& company.website@ == params.website@
                },
                Err(e) => {
                    &&& e == ErrorCode::AuthorizationMismatch
                    &&& caller != old(self).update_authority
                    &&& *final(self) == *old(self)
                },
            },
    {
        if caller != self.update_authority {
            return Err(ErrorCode::AuthorizationMismatch);
        }
        let company = CompanyInfo {
            company_name: params.company_name,
            entity_registry_id: params.entity_registry_id,
            website: params.website,
        };
        self.company_info_current_count = params.old_company_info_count + 1;
        self.is_frozen = true;
        Ok(company)
    }

    /// Marks the operator as verified. Only the country authority may, and
    /// only once.
    pub fn approve_infra(&mut self, country_state: &Country, caller: u64) -> (r: Result<
        (),
        ErrorCode,
    >)
        ensures
            match r {
                Ok(()) => {
                    &&& caller == country_state.update_authority
                    &&& !old(self).is_verified
                    &&& *final(self) == (InfraAccount { is_verified: true, ..*old(self) })
                },
                Err(e) => {
                    &&& *final(self) == *old(self)
                    &&& if caller != country_state.update_authority {
                        e == ErrorCode::AuthorizationMismatch
                    } else {
                        e == ErrorCode::AlreadyInitialized && old(self).is_verified
                    }
                },
            },
    {
        if caller != country_state.update_authority {
            return Err(ErrorCode::AuthorizationMismatch);
        }
        if self.is_verified {
            return Err(ErrorCode::AlreadyInitialized);
        }
        self.is_verified = true;
        Ok(())
    }

    /// Freezes a verified operator. Only the country authority may; a frozen
    /// account may not join a new job until unfrozen by re-verification
    /// workflows outside the engine.
    pub fn suspend_infra(&mut self, country_state: &Country, caller: u64) -> (r: Result<
        (),
        ErrorCode,
    >)
        ensures
            match r {
                Ok(()) => {
                    &&& caller == country_state.update_authority
                    &&& old(self).is_verified
                    &&& !old(self).is_frozen
                    &&& *final(self) == (InfraAccount { is_frozen: true, ..*old(self) })
                },
                Err(e) => {
                    &&& *final(self) == *old(self)
                    &&& if caller != country_state.update_authority {
                        e == ErrorCode::AuthorizationMismatch
                    } else if !old(self).is_verified {
                        e == ErrorCode::NotYetInitialized
                    } else {
                        e == ErrorCode::AlreadyInitialized && old(self).is_frozen
                    }
                },
            },
    {
        if caller != country_state.update_authority {
            return Err(ErrorCode::AuthorizationMismatch);
        }
        if !self.is_verified {
            return Err(ErrorCode::NotYetInitialized);
        }
        if self.is_frozen {
            return Err(ErrorCode::AlreadyInitialized);
        }
        self.is_frozen = true;
        Ok(())
    }

    /// Debits a punitive amount from the operator's deposit towards the
    /// country. Only the country authority may, only on a verified account,
    /// and only up to the deposit balance.
    pub fn slash_infra(&mut self, country_state: &Country, caller: u64, amount_cent: u64) -> (r:
        Result<(), ErrorCode>)
        ensures
            match r {
                Ok(()) => {
                    &&& caller == country_state.update_authority
                    &&& old(self).is_verified
                    &&& amount_cent <= old(self).deposit_cent
                    &&& *final(self) == (InfraAccount {
                        deposit_cent: (old(self).deposit_cent - amount_cent) as u64,
                        ..*old(self)
                    })
                },
                Err(e) => {
                    &&& *final(self) == *old(self)
                    &&& if caller != country_state.update_authority {
                        e == ErrorCode::AuthorizationMismatch
                    } else if !old(self).is_verified {
                        e == ErrorCode::NotYetInitialized
                    } else {
                        e == ErrorCode::InsufficientFunds && amount_cent > old(self).deposit_cent
                    }
                },
            },
    {
        if caller != country_state.update_authority {
            return Err(ErrorCode::AuthorizationMismatch);
        }
        if !self.is_verified {
            return Err(ErrorCode::NotYetInitialized);
        }
        if amount_cent > self.deposit_cent {
            return Err(ErrorCode::InsufficientFunds);
        }
        self.deposit_cent = self.deposit_cent - amount_cent;
        Ok(())
    }
}

} // verus!
