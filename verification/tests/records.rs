use zoomi::errors::ZoomiError;
use zoomi::instructions::init_admin::InitAdmin;
use zoomi::instructions::initialize_rental::InitializeRental;
use zoomi::instructions::initialize_rider::InitializeRider;
use zoomi::instructions::initialize_scooter::InitializeScooter;
use zoomi::instructions::initialize_zoomi::InitializeZoomi;
use zoomi::instructions::register_rider::RegisterRider;
use zoomi::instructions::register_scooter::RegisterScooter;
use zoomi::instructions::set_scooter_status::SetScooterStatus;
use zoomi::instructions::update_scooter_location::UpdateScooterLocation;
use zoomi::instructions::update_scooter_status::UpdateScooterStatus;
use zoomi::pricing::{
    compute_billed_hours, compute_fee_part, compute_hourly_rate_with_fee, compute_rental_amount, compute_with_fee,
    compute_usage_difference,
};
use zoomi::state::{AccountKey, Admin, RentalStatus, Rider, Scooter, ScooterStatus, Zoomi};

fn key(n: u128) -> AccountKey {
    AccountKey { hi: 1, lo: n }
}

#[test]
fn initialize_zoomi_records_configuration() {
    let z = InitializeZoomi { admin: key(1), treasury: key(2) }.initialize_zoomi(5, 100, 1000, 250);
    assert_eq!(z, Zoomi { admin: key(1), treasury: key(2), protocol_fee: 5, base_rate: 100, collateral: 1000, bump: 250 });
}

#[test]
fn init_admin_starts_with_five_percent() {
    let a = InitAdmin { admin: key(1) }.init_admin(11, 12);
    assert_eq!(a, Admin { admin: key(1), fee: 5, treasury_bump: 11, bump: 12 });
}

#[test]
fn riders_register_verified_and_idle() {
    let expected = Rider { wallet: key(3), id_status: true, points: 0, penalties: 0, is_renting: false, bump: 9 };
    assert_eq!(RegisterRider { rider: key(3) }.register_rider(9), expected);
    assert_eq!(InitializeRider { rider: key(3) }.initialize_rider(9), expected);
}

#[test]
fn scooters_register_available() {
    let s = RegisterScooter {}.register_scooter(key(8), 4, 2, 150, 7);
    assert_eq!(
        s,
        Scooter {
            id: 4,
            shopkeeper_id: 2,
            zoomi_device_pubkey: key(8),
            hourly_rate: 150,
            status: ScooterStatus::Available,
            location_lat: 0,
            location_long: 0,
            location_timestamp: 0,
            bump: 7,
        }
    );
    let t = InitializeScooter {}.initialize_scooter(4, 2, 150, 7);
    assert_eq!(t, Scooter { zoomi_device_pubkey: AccountKey { hi: 0, lo: 0 }, ..s });
}

#[test]
fn initialize_rental_adds_collateral_without_fee() {
    let s = RegisterScooter {}.register_scooter(key(8), 4, 2, 150, 7);
    let acc = InitializeRental { rider_account_key: key(5), scooter_account: s };
    let r = acc.initialize_rental(4, 42, 3).unwrap();
    assert_eq!(r.rental_amount, 600);
    assert_eq!(r.rider, key(5));
    assert_eq!(r.scooter_id, 4);
    assert_eq!(r.start_time, 42);
    assert_eq!(r.status, RentalStatus::Active);
    let dear = InitializeRental { rider_account_key: key(5), scooter_account: Scooter { hourly_rate: u64::MAX / 2, ..s } };
    assert_eq!(dear.initialize_rental(2, 42, 3).unwrap().rental_amount, u64::MAX - 1);
    assert_eq!(dear.initialize_rental(3, 42, 3), Err(ZoomiError::ArithmeticOverflow));
}

#[test]
fn location_update_stamps_time() {
    let s = RegisterScooter {}.register_scooter(key(8), 4, 2, 150, 7);
    let mut u = UpdateScooterLocation { scooter_account: s };
    u.update_scooter_location(48_856_613, 2_352_222, 1_700_000_123);
    assert_eq!(u.scooter_account.location_lat, 48_856_613);
    assert_eq!(u.scooter_account.location_long, 2_352_222);
    assert_eq!(u.scooter_account.location_timestamp, 1_700_000_123);
    assert_eq!(u.scooter_account.status, ScooterStatus::Available);
}

#[test]
fn shopkeeper_sets_any_status() {
    let s = RegisterScooter {}.register_scooter(key(8), 4, 2, 150, 7);
    let mut u = SetScooterStatus { scooter_account: s };
    u.set_scooter_status(ScooterStatus::Booked);
    assert_eq!(u.scooter_account, Scooter { status: ScooterStatus::Booked, ..s });
}

#[test]
fn device_sets_status_of_its_own_scooter_only() {
    let s = RegisterScooter {}.register_scooter(key(8), 4, 2, 150, 7);
    let mut own = UpdateScooterStatus { scooter_device: key(8), scooter_account: s };
    assert_eq!(own.update_scooter_status(ScooterStatus::Maintenance), Ok(()));
    assert_eq!(own.scooter_account.status, ScooterStatus::Maintenance);
    let mut other = UpdateScooterStatus { scooter_device: key(9), scooter_account: s };
    assert_eq!(other.update_scooter_status(ScooterStatus::Maintenance), Err(ZoomiError::DeviceMismatch));
    assert_eq!(other.scooter_account, s);
}

#[test]
fn pricing_formulas() {
    // base rate plus hours at the hourly rate
    assert_eq!(compute_rental_amount(0, 200, 3), Some(600));
    assert_eq!(compute_rental_amount(50, 200, 3), Some(650));
    assert_eq!(compute_rental_amount(1, u64::MAX / 2, 2), Some(u64::MAX));
    assert_eq!(compute_rental_amount(2, u64::MAX / 2, 2), None);
    assert_eq!(compute_rental_amount(0, u64::MAX, 2), None);
    // the fee as a percentage, rounded down
    assert_eq!(compute_with_fee(600, 5), Some(630));
    assert_eq!(compute_with_fee(650, 5), Some(682));
    assert_eq!(compute_with_fee(99, 5), Some(103));
    assert_eq!(compute_with_fee(u64::MAX, 0), Some(u64::MAX));
    assert_eq!(compute_with_fee(u64::MAX, 1), None);
    assert_eq!(compute_hourly_rate_with_fee(200, 5), Some(210));
    assert_eq!(compute_hourly_rate_with_fee(u64::MAX / 100, 0), Some(u64::MAX / 100));
    assert_eq!(compute_hourly_rate_with_fee(u64::MAX / 100, 1), None);
    assert_eq!(compute_fee_part(630, 5), 31);
    assert_eq!(compute_fee_part(u64::MAX, 255), (u64::MAX as u128) * 255 / 100);
}

#[test]
fn billed_hours_round_up() {
    assert_eq!(compute_billed_hours(100, 100), Some(0));
    assert_eq!(compute_billed_hours(100, 101), Some(1));
    assert_eq!(compute_billed_hours(100, 3700), Some(1));
    assert_eq!(compute_billed_hours(100, 3701), Some(2));
    assert_eq!(compute_billed_hours(0, -3600), Some(0));
    assert_eq!(compute_billed_hours(0, -7198), Some(0));
    assert_eq!(compute_billed_hours(0, -7199), Some(u16::MAX));
    assert_eq!(compute_billed_hours(0, 3600 * 65536), Some(0));
    assert_eq!(compute_billed_hours(i64::MIN, i64::MAX), None);
    assert_eq!(compute_billed_hours(0, i64::MAX - 3600), Some(((i64::MAX - 1) / 3600) as u16));
    assert_eq!(compute_billed_hours(0, i64::MAX - 3599), None);
}

#[test]
fn usage_difference_in_sixteen_bits() {
    assert_eq!(compute_usage_difference(5, 3), Some(2));
    assert_eq!(compute_usage_difference(1, 3), Some(-2));
    assert_eq!(compute_usage_difference(65535, 3), Some(-4));
    assert_eq!(compute_usage_difference(32767, 32768), None);
    assert_eq!(compute_usage_difference(0, 32768), None);
}
