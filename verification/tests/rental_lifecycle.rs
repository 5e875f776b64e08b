use zoomi::effects::{Effect, TokenAccount, Wallet};
use zoomi::errors::ZoomiError;
use zoomi::instructions::close_rental::CloseRental;
use zoomi::instructions::close_rental_test::CloseRentalTest;
use zoomi::instructions::close_zoomi::CloseZoomi;
use zoomi::instructions::end_rental::EndRental;
use zoomi::instructions::extend_rental_period::ExtendRentalPeriod;
use zoomi::instructions::return_scooter::ReturnScooter;
use zoomi::instructions::start_rental::StartRental;
use zoomi::state::{AccountKey, Rental, RentalStatus, Rider, Scooter, ScooterStatus, Zoomi};

const START: i64 = 1_700_000_000;
const HOUR: i64 = 3600;

fn key(n: u128) -> AccountKey {
    AccountKey { hi: 0, lo: n }
}

fn zoomi_config() -> Zoomi {
    Zoomi { admin: key(1), treasury: key(2), protocol_fee: 5, base_rate: 0, collateral: 1000, bump: 255 }
}

fn scooter(status: ScooterStatus) -> Scooter {
    Scooter {
        id: 7,
        shopkeeper_id: 3,
        zoomi_device_pubkey: key(9),
        hourly_rate: 200,
        status,
        location_lat: 0,
        location_long: 0,
        location_timestamp: 0,
        bump: 254,
    }
}

fn rider() -> Rider {
    Rider { wallet: key(4), id_status: true, points: 0, penalties: 0, is_renting: false, bump: 253 }
}

fn started() -> (StartRental, Rental) {
    let mut acc = StartRental { rider: key(4), rider_account: rider(), scooter_account: scooter(ScooterStatus::Available), zoomi_account: zoomi_config() };
    let (rental, _) = acc.start_rental(3, START, 252).unwrap();
    (acc, rental)
}

fn returning(now: i64) -> (ReturnScooter, Result<Vec<Effect>, ZoomiError>) {
    let (acc, rental) = started();
    let mut ret = ReturnScooter {
        rider_account: acc.rider_account,
        scooter_account: acc.scooter_account,
        rental_account: rental,
        zoomi_account: acc.zoomi_account,
    };
    let res = ret.return_scooter(now);
    (ret, res)
}

fn vault_out(effects: &[Effect]) -> u64 {
    effects
        .iter()
        .map(|e| match e {
            Effect::Transfer { from: TokenAccount::Vault, amount, .. } => *amount,
            _ => 0,
        })
        .sum()
}

#[test]
fn start_rental_charges_hours_with_fee_and_collateral() {
    let mut acc = StartRental { rider: key(4), rider_account: rider(), scooter_account: scooter(ScooterStatus::Available), zoomi_account: zoomi_config() };
    let (rental, effects) = acc.start_rental(3, START, 252).unwrap();
    // 3 h * 200 * 105 / 100 = 630, plus 1000 collateral
    assert_eq!(rental.rental_amount, 600);
    assert_eq!(rental.rental_period, 3);
    assert_eq!(rental.start_time, START);
    assert_eq!(rental.rider, key(4));
    assert_eq!(rental.scooter_id, 7);
    assert_eq!(rental.status, RentalStatus::Active);
    assert_eq!(rental.bump, 252);
    assert_eq!(effects, vec![Effect::Transfer { from: TokenAccount::Rider, to: TokenAccount::Vault, amount: 1630 }]);
    assert_eq!(acc.scooter_account.status, ScooterStatus::Rented);
    assert!(acc.rider_account.is_renting);
}

#[test]
fn start_rental_rounds_fee_down() {
    let mut acc = StartRental { rider: key(4), rider_account: rider(), scooter_account: scooter(ScooterStatus::Available), zoomi_account: zoomi_config() };
    acc.scooter_account.hourly_rate = 33;
    // 1 h * 33 * 105 / 100 = 34.65 -> 34
    let (rental, effects) = acc.start_rental(1, START, 0).unwrap();
    assert_eq!(rental.rental_amount, 33);
    assert_eq!(effects, vec![Effect::Transfer { from: TokenAccount::Rider, to: TokenAccount::Vault, amount: 1034 }]);
}

#[test]
fn start_rental_refuses_unavailable_scooter() {
    for status in [ScooterStatus::Booked, ScooterStatus::Rented, ScooterStatus::Maintenance] {
        let mut acc = StartRental { rider: key(4), rider_account: rider(), scooter_account: scooter(status), zoomi_account: zoomi_config() };
        let before = acc;
        assert_eq!(acc.start_rental(3, START, 0), Err(ZoomiError::ScooterNotAvailable));
        assert_eq!(acc, before);
    }
}

#[test]
fn start_rental_refuses_overflowing_amount() {
    let mut acc = StartRental { rider: key(4), rider_account: rider(), scooter_account: scooter(ScooterStatus::Available), zoomi_account: zoomi_config() };
    acc.scooter_account.hourly_rate = u64::MAX / 2;
    let before = acc;
    assert_eq!(acc.start_rental(2, START, 0), Err(ZoomiError::ArithmeticOverflow));
    assert_eq!(acc, before);
    acc.scooter_account.hourly_rate = 0;
    acc.zoomi_account.collateral = u64::MAX;
    assert_eq!(
        acc.start_rental(2, START, 0).unwrap().1,
        vec![Effect::Transfer { from: TokenAccount::Rider, to: TokenAccount::Vault, amount: u64::MAX }]
    );
}

#[test]
fn extend_adds_hours_and_their_cost() {
    let (acc, rental) = started();
    let mut ext = ExtendRentalPeriod { scooter_account: acc.scooter_account, rental_account: rental, zoomi_account: acc.zoomi_account };
    let effects = ext.extend_rental_period(2).unwrap();
    // 2 h * 200 * 105 / 100 = 420
    assert_eq!(effects, vec![Effect::Transfer { from: TokenAccount::Rider, to: TokenAccount::Vault, amount: 420 }]);
    assert_eq!(ext.rental_account.rental_period, 5);
    assert_eq!(ext.rental_account.rental_amount, 1000);
}

#[test]
fn extend_refuses_too_many_hours() {
    let (acc, rental) = started();
    let mut ext = ExtendRentalPeriod { scooter_account: acc.scooter_account, rental_account: rental, zoomi_account: acc.zoomi_account };
    let before = ext;
    assert_eq!(ext.extend_rental_period(u16::MAX), Err(ZoomiError::ArithmeticOverflow));
    assert_eq!(ext, before);
}

#[test]
fn return_on_time_pays_fee_and_shopkeeper() {
    // 2 h and 1 s are billed as 3 h, exactly the paid period
    let (ret, res) = returning(START + 2 * HOUR + 1);
    let effects = res.unwrap();
    // final 630, fee 630 * 5 / 100 = 31, shopkeeper 599
    assert_eq!(
        effects,
        vec![
            Effect::Transfer { from: TokenAccount::Vault, to: TokenAccount::Treasury, amount: 31 },
            Effect::Transfer { from: TokenAccount::Vault, to: TokenAccount::Shopkeeper, amount: 599 },
        ]
    );
    assert_eq!(ret.rider_account.points, 599);
    assert_eq!(ret.rider_account.penalties, 0);
    assert!(!ret.rider_account.is_renting);
    assert_eq!(ret.scooter_account.status, ScooterStatus::Maintenance);
    assert_eq!(ret.rental_account.status, RentalStatus::Completed);
}

#[test]
fn return_early_refunds_unused_hours() {
    // exactly 1 h is billed as 1 h: 2 unused hours at 210 each
    let (ret, res) = returning(START + HOUR);
    let effects = res.unwrap();
    assert_eq!(
        effects,
        vec![
            Effect::Transfer { from: TokenAccount::Vault, to: TokenAccount::Treasury, amount: 10 },
            Effect::Transfer { from: TokenAccount::Vault, to: TokenAccount::Shopkeeper, amount: 200 },
            Effect::Transfer { from: TokenAccount::Vault, to: TokenAccount::Rider, amount: 420 },
        ]
    );
    assert_eq!(ret.rider_account.points, 200);
    assert_eq!(vault_out(&effects), 630);
}

#[test]
fn return_late_charges_collateral_and_penalties() {
    // 5 h billed, 2 h over: 420 taken from the collateral
    let (ret, res) = returning(START + 5 * HOUR);
    let effects = res.unwrap();
    assert_eq!(
        effects,
        vec![
            Effect::Transfer { from: TokenAccount::Vault, to: TokenAccount::Treasury, amount: 52 },
            Effect::Transfer { from: TokenAccount::Vault, to: TokenAccount::Shopkeeper, amount: 998 },
        ]
    );
    assert_eq!(ret.rider_account.penalties, 2);
    assert_eq!(ret.rider_account.points, 998);
}

#[test]
fn return_very_late_takes_at_most_the_collateral() {
    // 13 h billed, 10 h over: 2100 > 1000, so the whole collateral is used
    let (ret, res) = returning(START + 13 * HOUR);
    let effects = res.unwrap();
    assert_eq!(vault_out(&effects), 1630);
    assert_eq!(
        effects,
        vec![
            Effect::Transfer { from: TokenAccount::Vault, to: TokenAccount::Treasury, amount: 81 },
            Effect::Transfer { from: TokenAccount::Vault, to: TokenAccount::Shopkeeper, amount: 1549 },
        ]
    );
    assert_eq!(ret.rider_account.penalties, 10);
}

#[test]
fn return_with_clock_slightly_behind_bills_nothing() {
    // -10 s rounds toward zero to 0 h: all 3 paid hours are refunded
    let (_, res) = returning(START - 10);
    let effects = res.unwrap();
    assert_eq!(
        effects,
        vec![
            Effect::Transfer { from: TokenAccount::Vault, to: TokenAccount::Treasury, amount: 0 },
            Effect::Transfer { from: TokenAccount::Vault, to: TokenAccount::Shopkeeper, amount: 0 },
            Effect::Transfer { from: TokenAccount::Vault, to: TokenAccount::Rider, amount: 630 },
        ]
    );
}

#[test]
fn return_with_clock_far_behind_is_refused() {
    // -7200 s gives -1 h, which as 16 bits is 65535, read back as -1: a
    // difference of -4 h whose refund exceeds what was paid
    let (ret, res) = returning(START - 2 * HOUR);
    assert_eq!(res, Err(ZoomiError::ArithmeticOverflow));
    assert_eq!(ret.scooter_account.status, ScooterStatus::Rented);
    assert_eq!(ret.rental_account.status, RentalStatus::Active);
}

#[test]
fn return_refuses_scooter_not_rented_then_rental_not_active() {
    let (acc, rental) = started();
    let mut ret = ReturnScooter { rider_account: acc.rider_account, scooter_account: scooter(ScooterStatus::Available), rental_account: rental, zoomi_account: acc.zoomi_account };
    assert_eq!(ret.return_scooter(START + HOUR), Err(ZoomiError::ScooterNotRented));
    ret.scooter_account.status = ScooterStatus::Rented;
    ret.rental_account.status = RentalStatus::Cancelled;
    let before = ret;
    assert_eq!(ret.return_scooter(START + HOUR), Err(ZoomiError::RentalNotActive));
    assert_eq!(ret, before);
}

#[test]
fn return_twice_is_refused() {
    let (mut ret, res) = returning(START + HOUR);
    assert!(res.is_ok());
    assert_eq!(ret.return_scooter(START + 2 * HOUR), Err(ZoomiError::ScooterNotRented));
}

#[test]
fn return_refuses_points_overflow() {
    let (acc, rental) = started();
    let mut r = acc.rider_account;
    r.points = u32::MAX;
    let mut ret = ReturnScooter { rider_account: r, scooter_account: acc.scooter_account, rental_account: rental, zoomi_account: acc.zoomi_account };
    assert_eq!(ret.return_scooter(START + HOUR), Err(ZoomiError::ArithmeticOverflow));
}

#[test]
fn end_rental_books_usage() {
    let (acc, rental) = started();
    let mut end = EndRental { rider_account: acc.rider_account, scooter_account: acc.scooter_account, rental_account: rental };
    assert_eq!(end.end_rental(START + 5 * HOUR), Ok(2));
    assert_eq!(end.rider_account.penalties, 2);
    assert!(!end.rider_account.is_renting);
    assert_eq!(end.scooter_account.status, ScooterStatus::Maintenance);
    assert_eq!(end.rental_account.status, RentalStatus::Completed);
    assert_eq!(end.end_rental(START + 6 * HOUR), Err(ZoomiError::ScooterNotRented));
}

#[test]
fn end_rental_early_has_no_penalty() {
    let (acc, rental) = started();
    let mut end = EndRental { rider_account: acc.rider_account, scooter_account: acc.scooter_account, rental_account: rental };
    assert_eq!(end.end_rental(START + 30), Ok(-2));
    assert_eq!(end.rider_account.penalties, 0);
}

#[test]
fn close_rental_sends_rest_to_rider_or_shopkeeper() {
    let (ret, res) = returning(START + 5 * HOUR);
    let left = 1630 - vault_out(&res.unwrap());
    assert_eq!(left, 580);
    let mut close = CloseRental { scooter_account: ret.scooter_account, rental_account: ret.rental_account };
    let before = close;
    assert_eq!(
        close.close_rental(true, left),
        Ok(vec![
            Effect::Transfer { from: TokenAccount::Vault, to: TokenAccount::Rider, amount: 580 },
            Effect::CloseTokenAccount { account: TokenAccount::Vault, destination: Wallet::Rider },
        ])
    );
    assert_eq!(close.scooter_account.status, ScooterStatus::Available);
    assert_eq!(close.rental_account, before.rental_account);
    let mut close = before;
    assert_eq!(
        close.close_rental(false, left),
        Ok(vec![
            Effect::Transfer { from: TokenAccount::Vault, to: TokenAccount::Shopkeeper, amount: 580 },
            Effect::CloseTokenAccount { account: TokenAccount::Vault, destination: Wallet::Rider },
        ])
    );
}

#[test]
fn close_rental_refuses_before_return() {
    let (acc, rental) = started();
    let mut close = CloseRental { scooter_account: acc.scooter_account, rental_account: rental };
    assert_eq!(close.close_rental(true, 1630), Err(ZoomiError::ScooterNotInMaintenance));
    assert_eq!(close.scooter_account.status, ScooterStatus::Rented);
    let mut close = CloseRental { scooter_account: scooter(ScooterStatus::Maintenance), rental_account: rental };
    assert_eq!(close.close_rental(true, 1630), Err(ZoomiError::RentalNotCompleted));
    assert_eq!(close.scooter_account.status, ScooterStatus::Maintenance);
}

#[test]
fn close_rental_test_frees_scooter() {
    let (ret, _) = returning(START + HOUR);
    let mut close = CloseRentalTest { scooter_account: ret.scooter_account, rental_account: ret.rental_account };
    assert_eq!(
        close.close_rental_test(1000),
        Ok(vec![
            Effect::Transfer { from: TokenAccount::Vault, to: TokenAccount::Rider, amount: 1000 },
            Effect::CloseTokenAccount { account: TokenAccount::Vault, destination: Wallet::Rider },
        ])
    );
    assert_eq!(close.scooter_account.status, ScooterStatus::Available);
    assert_eq!(close.close_rental_test(0), Err(ZoomiError::ScooterNotInMaintenance));
}

#[test]
fn close_zoomi_closes_treasury_to_admin() {
    assert_eq!(
        CloseZoomi {}.close_zoomi(),
        vec![Effect::CloseTokenAccount { account: TokenAccount::Treasury, destination: Wallet::Admin }]
    );
}

#[test]
fn whole_rental_empties_the_vault() {
    for now in [START, START + HOUR, START + 3 * HOUR, START + 4 * HOUR + 5, START + 40 * HOUR] {
        let (ret, res) = returning(now);
        let out = vault_out(&res.unwrap());
        assert!(out >= 630 && out <= 1630);
        let mut close = CloseRental { scooter_account: ret.scooter_account, rental_account: ret.rental_account };
        let closing = close.close_rental(false, 1630 - out).unwrap();
        assert_eq!(out + vault_out(&closing), 1630);
    }
}

#[test]
fn end_and_return_book_the_same_usage() {
    for now in [START + 30, START + 3 * HOUR, START + 7 * HOUR + 1] {
        let (acc, rental) = started();
        let mut end = EndRental { rider_account: acc.rider_account, scooter_account: acc.scooter_account, rental_account: rental };
        end.end_rental(now).unwrap();
        let (ret, res) = returning(now);
        assert!(res.is_ok());
        assert_eq!(end.rider_account.penalties, ret.rider_account.penalties);
        assert_eq!(end.rider_account.is_renting, ret.rider_account.is_renting);
        assert_eq!(end.scooter_account, ret.scooter_account);
        assert_eq!(end.rental_account, ret.rental_account);
    }
}

#[test]
fn extended_rental_refunds_the_added_hours_too() {
    let (acc, rental) = started();
    let mut ext = ExtendRentalPeriod { scooter_account: acc.scooter_account, rental_account: rental, zoomi_account: acc.zoomi_account };
    ext.extend_rental_period(2).unwrap();
    let mut ret = ReturnScooter {
        rider_account: acc.rider_account,
        scooter_account: acc.scooter_account,
        rental_account: ext.rental_account,
        zoomi_account: acc.zoomi_account,
    };
    // 1 h billed of 5 paid: 4 unused hours at 210
    let effects = ret.return_scooter(START + 600).unwrap();
    assert_eq!(effects[2], Effect::Transfer { from: TokenAccount::Vault, to: TokenAccount::Rider, amount: 840 });
    assert_eq!(vault_out(&effects), 1050);
}

#[test]
fn extensions_add_up() {
    let (mut acc, _) = started();
    acc.scooter_account.hourly_rate = 33;
    let rental = Rental { rental_amount: 3 * 33, ..started().1 };
    let mut twice = ExtendRentalPeriod { scooter_account: acc.scooter_account, rental_account: rental, zoomi_account: acc.zoomi_account };
    let first = twice.extend_rental_period(1).unwrap();
    let second = twice.extend_rental_period(1).unwrap();
    let mut once = ExtendRentalPeriod { scooter_account: acc.scooter_account, rental_account: rental, zoomi_account: acc.zoomi_account };
    let both = once.extend_rental_period(2).unwrap();
    // 99 -> 103 with fee; 132 -> 138; 165 -> 173
    assert_eq!(first, vec![Effect::Transfer { from: TokenAccount::Rider, to: TokenAccount::Vault, amount: 35 }]);
    assert_eq!(second, first);
    assert_eq!(both, vec![Effect::Transfer { from: TokenAccount::Rider, to: TokenAccount::Vault, amount: 70 }]);
    assert_eq!(once, twice);
    assert_eq!(once.rental_account.rental_amount, 5 * 33);
    assert_eq!(once.rental_account.rental_period, 5);
}

#[test]
fn base_rate_is_paid_and_never_refunded() {
    let mut acc = StartRental { rider: key(4), rider_account: rider(), scooter_account: scooter(ScooterStatus::Available), zoomi_account: zoomi_config() };
    acc.zoomi_account.base_rate = 50;
    let (rental, effects) = acc.start_rental(3, START, 0).unwrap();
    // 50 + 3 * 200 = 650, with 5 % fee 682, plus 1000 collateral
    assert_eq!(rental.rental_amount, 650);
    assert_eq!(effects, vec![Effect::Transfer { from: TokenAccount::Rider, to: TokenAccount::Vault, amount: 1682 }]);
    let mut ret = ReturnScooter { rider_account: acc.rider_account, scooter_account: acc.scooter_account, rental_account: rental, zoomi_account: acc.zoomi_account };
    // returned at once: all 3 hours refunded at 210, the rest stays paid
    let out = ret.return_scooter(START).unwrap();
    assert_eq!(
        out,
        vec![
            Effect::Transfer { from: TokenAccount::Vault, to: TokenAccount::Treasury, amount: 2 },
            Effect::Transfer { from: TokenAccount::Vault, to: TokenAccount::Shopkeeper, amount: 50 },
            Effect::Transfer { from: TokenAccount::Vault, to: TokenAccount::Rider, amount: 630 },
        ]
    );
    assert_eq!(vault_out(&out), 682);
}

#[test]
fn later_return_costs_no_less() {
    let mut last_final = 0;
    let mut last_refund = u64::MAX;
    for hours in 0..8 {
        let (ret, res) = returning(START + hours * HOUR);
        let effects = res.unwrap();
        let refund = match effects.get(2) {
            Some(Effect::Transfer { amount, .. }) => *amount,
            _ => 0,
        };
        let fin = vault_out(&effects) - refund;
        assert!(fin >= last_final && refund <= last_refund);
        assert!(fin <= 1630);
        assert_eq!(ret.rider_account.penalties as i64, (hours - 3).max(0));
        last_final = fin;
        last_refund = refund;
    }
}

#[test]
fn rented_scooter_cannot_be_rented_again_until_closed() {
    let (acc, rental) = started();
    let mut other = StartRental { rider: key(77), rider_account: rider(), scooter_account: acc.scooter_account, zoomi_account: acc.zoomi_account };
    assert_eq!(other.start_rental(1, START + 10, 0), Err(ZoomiError::ScooterNotAvailable));
    let mut ret = ReturnScooter { rider_account: acc.rider_account, scooter_account: acc.scooter_account, rental_account: rental, zoomi_account: acc.zoomi_account };
    ret.return_scooter(START + HOUR).unwrap();
    other.scooter_account = ret.scooter_account;
    assert_eq!(other.start_rental(1, START + 2 * HOUR, 0), Err(ZoomiError::ScooterNotAvailable));
    let mut close = CloseRental { scooter_account: ret.scooter_account, rental_account: ret.rental_account };
    close.close_rental(true, 1000).unwrap();
    other.scooter_account = close.scooter_account;
    assert!(other.start_rental(1, START + 3 * HOUR, 0).is_ok());
}
