//! Catalog records: service types, special passenger types and vehicles.
//!
//! Catalog entries are platform-wide options that drivers advertise and jobs
//! reference by id. Creating one charges a platform fee collected by the
//! embedding; the records themselves and the counters they advance live
//! here. A new entry always starts invalid until approved outside the
//! engine.

use vstd::prelude::*;
use crate::config::Global;

verus! {

/// A service type offered on the platform, such as ride hailing or package
/// delivery.
#[derive(Debug)]
pub struct OfferedService {
    /// Identity of the country registry the service belongs to.
    pub country_key: u64,
    /// Display name of the service type.
    pub name: String,
    /// Sequence number of the service type.
    pub service_count: u64,
    /// Whether the option has been approved for use.
    pub is_valid: bool,
    /// Whether the record has been created.
    pub is_initialized: bool,
    /// Identity that paid the creation fee.
    pub initializer: u64,
}

/// A special passenger option, such as pets or a baby seat.
#[derive(Debug)]
pub struct PassengerTypes {
    /// Display name of the passenger type.
    pub name: String,
    /// Whether the option has been approved for use.
    pub is_valid: bool,
    /// Whether the record has been created.
    pub is_initialized: bool,
    /// Identity that paid the creation fee.
    pub initializer: u64,
}

/// A vehicle option drivers may register with.
#[derive(Debug)]
pub struct Vehicle {
    /// Brand of the vehicle.
    pub brand: String,
    /// Model of the vehicle.
    pub model: String,
    pub number_of_seats: u8,
    /// Whether the option has been approved for use.
    pub is_valid: bool,
    /// Identity that paid the creation fee.
    pub initializer: u64,
}

/// Creates a service type on first call — advancing the platform's service
/// counter — and renames it afterwards. Either way the entry awaits fresh
/// approval.
pub fn init_or_update_service(
    global_state: &mut Global,
    service_type: &mut OfferedService,
    country_key: u64,
    initializer: u64,
    service_type_name: String,
)
    requires
        old(global_state).service_type_counter < u64::MAX,
    ensures
        final(service_type).name == service_type_name,
        !final(service_type).is_valid,
        final(service_type).is_initialized,
        if old(service_type).is_initialized {
            &&& *final(global_state) == *old(global_state)
            &&& final(service_type).country_key == old(service_type).country_key
            &&& final(service_type).initializer == old(service_type).initializer
        } else {
            &&& *final(global_state) == (Global {
                service_type_counter: (old(global_state).service_type_counter + 1) as u64,
                ..*old(global_state)
            })
            &&& final(service_type).country_key == country_key
            &&& final(service_type).initializer == initializer
        },
        final(service_type).service_count == old(service_type).service_count,
{
    if !service_type.is_initialized {
        service_type.country_key = country_key;
        service_type.initializer = initializer;
        service_type.is_initialized = true;
        global_state.service_type_counter = global_state.service_type_counter + 1;
    }
    service_type.name = service_type_name;
    service_type.is_valid = false;
}

/// Creates a special passenger type on first call — advancing the platform's
/// passenger counter — and renames it afterwards. Either way the entry
/// awaits fresh approval.
pub fn init_or_update_passenger(
    global_state: &mut Global,
    passenger_type: &mut PassengerTypes,
    initializer: u64,
    passenger_type_name: String,
)
    requires
        old(global_state).passengers_type_counter < u64::MAX,
    ensures
        final(passenger_type).name == passenger_type_name,
        !final(passenger_type).is_valid,
        final(passenger_type).is_initialized,
        if old(passenger_type).is_initialized {
            &&& *final(global_state) == *old(global_state)
            &&& final(passenger_type).initializer == old(passenger_type).initializer
        } else {
            &&& *final(global_state) == (Global {
                passengers_type_counter: (old(global_state).passengers_type_counter + 1) as u64,
                ..*old(global_state)
            })
            &&& final(passenger_type).initializer == initializer
        },
{
    if !passenger_type.is_initialized {
        passenger_type.initializer = initializer;
        passenger_type.is_initialized = true;
        global_state.passengers_type_counter = global_state.passengers_type_counter + 1;
    }
    passenger_type.name = passenger_type_name;
    passenger_type.is_valid = false;
}

/// Creates a vehicle option, advancing the platform's vehicle counter. The
/// entry awaits approval.
pub fn init_vehicle(
    global_state: &mut Global,
    initializer: u64,
    brand: String,
    model: String,
    number_of_seats: u8,
) -> (vehicle: Vehicle)
    requires
        old(global_state).vehicle_counter < u64::MAX,
    ensures
        *final(global_state) == (Global {
            vehicle_counter: (old(global_state).vehicle_counter + 1) as u64,
            ..*old(global_state)
        }),
        vehicle.brand == brand,
        vehicle.model == model,
        vehicle.number_of_seats == number_of_seats,
        !vehicle.is_valid,
        vehicle.initializer == initializer,
{
    global_state.vehicle_counter = global_state.vehicle_counter + 1;
    Vehicle { brand, model, number_of_seats, is_valid: false, initializer }
}

} // verus!
