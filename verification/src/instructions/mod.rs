//! One module per instruction of the protocol.

pub mod close_rental;
pub mod close_zoomi;
pub mod end_rental;
pub mod extend_rental_period;
pub mod init_admin;
pub mod initialize_rental;
pub mod initialize_rider;
pub mod initialize_scooter;
pub mod initialize_zoomi;
pub mod register_rider;
pub mod register_scooter;
pub mod return_scooter;
pub mod set_scooter_status;
pub mod start_rental;
pub mod update_scooter_location;
pub mod update_scooter_status;
