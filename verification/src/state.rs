//! The records that the rental protocol keeps on chain, as plain values.

use vstd::prelude::*;

verus! {

/// A 32-byte account address, held as its big-endian upper and lower halves.
#[derive(Clone, Copy, Debug, PartialEq, Eq, Structural)]
pub struct AccountKey {
    pub hi: u128,
    pub lo: u128,
}

impl AccountKey {
    /// The all-zero address.
    pub fn zero() -> (k: AccountKey)
        ensures
            k.hi == 0,
            k.lo == 0,
    {
        AccountKey { hi: 0, lo: 0 }
    }
}

/// Where a scooter stands in its life cycle.
#[derive(Clone, Copy, Debug, PartialEq, Eq, Structural)]
pub enum ScooterStatus {
    Available,
    Booked,
    Rented,
    Maintenance,
}

/// Where a rental stands in its life cycle.
#[derive(Clone, Copy, Debug, PartialEq, Eq, Structural)]
pub enum RentalStatus {
    Active,
    Completed,
    Cancelled,
}

/// The protocol's configuration, kept by its administrator.
#[derive(Clone, Copy, Debug, PartialEq, Eq, Structural)]
pub struct Zoomi {
    /// Wallet of the administrator.
    pub admin: AccountKey,
    /// Token account that collects the protocol fee.
    pub treasury: AccountKey,
    /// Fee of the protocol, in percent of the rental amount.
    pub protocol_fee: u8,
    /// Base rate in USDC.
    pub base_rate: u64,
    /// Collateral that every rental deposits, in USDC.
    pub collateral: u64,
    pub bump: u8,
}

/// The administrator's record: the treasury's fee and the bumps of the
/// administrator's and the treasury's accounts.
#[derive(Clone, Copy, Debug, PartialEq, Eq, Structural)]
pub struct Admin {
    /// Wallet of the administrator.
    pub admin: AccountKey,
    /// Fee of the treasury, in percent of the amount paid without collateral.
    pub fee: u8,
    pub treasury_bump: u8,
    pub bump: u8,
}

/// A registered rider.
#[derive(Clone, Copy, Debug, PartialEq, Eq, Structural)]
pub struct Rider {
    /// Wallet of the rider.
    pub wallet: AccountKey,
    /// Whether the rider's identity is verified.
    pub id_status: bool,
    /// Points earned by paying for rentals.
    pub points: u32,
    /// Penalty hours collected by riding past the paid period.
    pub penalties: u32,
    /// Whether the rider has a rental running.
    pub is_renting: bool,
    pub bump: u8,
}

/// A registered scooter.
#[derive(Clone, Copy, Debug, PartialEq, Eq, Structural)]
pub struct Scooter {
    /// Identifier of the scooter.
    pub id: u32,
    /// Identifier of the shopkeeper who owns it.
    pub shopkeeper_id: u32,
    /// Key of the device mounted on the scooter.
    pub zoomi_device_pubkey: AccountKey,
    /// Price of one hour, in USDC.
    pub hourly_rate: u64,
    pub status: ScooterStatus,
    /// Latitude in millionths of a degree.
    pub location_lat: i32,
    /// Longitude in millionths of a degree.
    pub location_long: i32,
    /// Time of the last location update (unix seconds).
    pub location_timestamp: i64,
    pub bump: u8,
}

/// One rental of a scooter by a rider.
#[derive(Clone, Copy, Debug, PartialEq, Eq, Structural)]
pub struct Rental {
    /// Wallet (or rider record) of the rider.
    pub rider: AccountKey,
    pub scooter_id: u32,
    /// Start of the rental (unix seconds).
    pub start_time: i64,
    /// Hours paid for.
    pub rental_period: u16,
    /// Rental amount in USDC: the base rate plus the hourly rate times the
    /// paid hours, without collateral or protocol fee.
    pub rental_amount: u64,
    pub status: RentalStatus,
    pub bump: u8,
}

} // verus!
