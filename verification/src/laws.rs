//! Properties of the protocol that span several instructions.

use vstd::prelude::*;

use crate::effects::{inflow, outflow, Effect, TokenAccount, Wallet};
use crate::errors::ZoomiError;
use crate::instructions::close_rental::{close_outcome, CloseRental};
use crate::instructions::close_rental_test::{close_test_outcome, CloseRentalTest};
use crate::instructions::initialize_rental::{initialize_rental_outcome, InitializeRental};
use crate::instructions::end_rental::{end_outcome, EndRental};
use crate::instructions::extend_rental_period::{extend_outcome, ExtendRentalPeriod};
use crate::instructions::register_rider::new_rider;
use crate::instructions::register_scooter::new_scooter;
use crate::instructions::return_scooter::{
    adjusted_amount, return_outcome, settlement, settlement_effects, ReturnScooter, Settlement,
};
use crate::instructions::start_rental::{start_outcome, StartRental};
use crate::pricing::{
    billed_hours, fee_part, hourly_rate_with_fee, lemma_with_fee_monotone, rental_amount_of, usage_difference,
    with_fee, SECONDS_IN_HOUR,
};
use crate::state::{AccountKey, Rental, RentalStatus, Rider, Scooter, ScooterStatus, Zoomi};

verus! {

/// The records of the return of the scooter that a start left in `started`,
/// under the rental record `rental` that it opened.
pub open spec fn return_after_start(started: StartRental, rental: Rental) -> ReturnScooter {
    ReturnScooter {
        rider_account: started.rider_account,
        scooter_account: started.scooter_account,
        rental_account: rental,
        zoomi_account: started.zoomi_account,
    }
}

/// The records of the closing of the rental that a return settled.
pub open spec fn close_after_return(returned: ReturnScooter) -> CloseRental {
    CloseRental { scooter_account: returned.scooter_account, rental_account: returned.rental_account }
}

/// What the vault of `rental` holds until its scooter comes back: the
/// rental amount with the protocol fee, plus the collateral.
pub open spec fn vault_amount(rental: Rental, zoomi: Zoomi) -> int {
    with_fee(rental.rental_amount as int, zoomi.protocol_fee as int) + zoomi.collateral
}

proof fn lemma_flow_one(e: Effect, acct: TokenAccount)
    ensures
        inflow(seq![e], acct) == match e {
            Effect::Transfer { from, to, amount } => if to == acct && from != acct { amount as int } else { 0 },
            Effect::CloseTokenAccount { .. } => 0,
        },
        outflow(seq![e], acct) == match e {
            Effect::Transfer { from, to, amount } => if from == acct && to != acct { amount as int } else { 0 },
            Effect::CloseTokenAccount { .. } => 0,
        },
{
    reveal_with_fuel(inflow, 2);
    reveal_with_fuel(outflow, 2);
    assert(seq![e].drop_last() =~= Seq::<Effect>::empty());
    assert(seq![e].last() == e);
}

proof fn lemma_flow_push(s: Seq<Effect>, e: Effect, acct: TokenAccount)
    ensures
        inflow(s.push(e), acct) == inflow(s, acct) + inflow(seq![e], acct),
        outflow(s.push(e), acct) == outflow(s, acct) + outflow(seq![e], acct),
{
    assert(s.push(e).drop_last() =~= s);
    lemma_flow_one(e, acct);
}

/// Starting a rental moves into the vault, from the rider, exactly what the
/// vault is to hold for the new rental: its rental amount with the protocol
/// fee plus the collateral.
pub proof fn law_start_deposit_matches_record(acc: StartRental, rental_period: u16, now: i64, rental_bump: u8)
    ensures
        start_outcome(acc, rental_period, now, rental_bump) matches Ok((started, rental, effects)) ==> {
            &&& inflow(effects, TokenAccount::Vault) == vault_amount(rental, started.zoomi_account)
            &&& outflow(effects, TokenAccount::Rider) == vault_amount(rental, started.zoomi_account)
        },
{
    if let Ok((_, rental, effects)) = start_outcome(acc, rental_period, now, rental_bump) {
        lemma_flow_one(effects[0], TokenAccount::Vault);
        lemma_flow_one(effects[0], TokenAccount::Rider);
        assert(effects =~= seq![effects[0]]);
    }
}

/// Extending a rental moves into the vault, from the rider, exactly what
/// the vault is to hold more for the extended rental.
pub proof fn law_extend_deposit_matches_record(acc: ExtendRentalPeriod, additional_rental_period: u16)
    ensures
        extend_outcome(acc, additional_rental_period) matches Ok((after, effects)) ==> {
            &&& inflow(effects, TokenAccount::Vault) == vault_amount(after.rental_account, after.zoomi_account)
                - vault_amount(acc.rental_account, acc.zoomi_account)
            &&& outflow(effects, TokenAccount::Rider) == vault_amount(after.rental_account, after.zoomi_account)
                - vault_amount(acc.rental_account, acc.zoomi_account)
        },
{
    if let Ok((after, effects)) = extend_outcome(acc, additional_rental_period) {
        lemma_with_fee_monotone(
            acc.rental_account.rental_amount as int,
            after.rental_account.rental_amount as int,
            acc.zoomi_account.protocol_fee as int,
        );
        lemma_flow_one(effects[0], TokenAccount::Vault);
        lemma_flow_one(effects[0], TokenAccount::Rider);
        assert(effects =~= seq![effects[0]]);
    }
}

/// Returning a scooter pays out of the vault at least the rental amount with
/// fee and at most that plus the collateral: what stays in the vault is the
/// part of the collateral that extra hours did not use.
/// All of it goes to the treasury, the shopkeeper and the rider, and nothing
/// goes into the vault. Without extra hours the collateral stays whole.
pub proof fn law_return_pays_out_within_deposit(acc: ReturnScooter, now: i64)
    ensures
        return_outcome(acc, now) matches Ok((_, effects)) ==> {
            let out = outflow(effects, TokenAccount::Vault);
            &&& vault_amount(acc.rental_account, acc.zoomi_account) - acc.zoomi_account.collateral <= out
            &&& out <= vault_amount(acc.rental_account, acc.zoomi_account)
            &&& out == inflow(effects, TokenAccount::Treasury) + inflow(effects, TokenAccount::Shopkeeper)
                + inflow(effects, TokenAccount::Rider)
            &&& inflow(effects, TokenAccount::Vault) == 0
            &&& (settlement(acc.rental_account, acc.scooter_account, acc.zoomi_account, now)->0.usage_difference <= 0
                ==> out == vault_amount(acc.rental_account, acc.zoomi_account) - acc.zoomi_account.collateral)
        },
{
    if let Ok((_, effects)) = return_outcome(acc, now) {
        let s = settlement(acc.rental_account, acc.scooter_account, acc.zoomi_account, now)->0;
        let e0 = Effect::Transfer { from: TokenAccount::Vault, to: TokenAccount::Treasury, amount: s.fee_amount };
        let e1 = Effect::Transfer { from: TokenAccount::Vault, to: TokenAccount::Shopkeeper, amount: s.to_shopkeeper };
        let e2 = Effect::Transfer { from: TokenAccount::Vault, to: TokenAccount::Rider, amount: s.refund };
        let two = seq![e0, e1];
        assert(seq![e0].push(e1) =~= two);
        lemma_flow_push(seq![e0], e1, TokenAccount::Vault);
        lemma_flow_push(seq![e0], e1, TokenAccount::Treasury);
        lemma_flow_push(seq![e0], e1, TokenAccount::Shopkeeper);
        lemma_flow_push(seq![e0], e1, TokenAccount::Rider);
        lemma_flow_one(e0, TokenAccount::Vault);
        lemma_flow_one(e0, TokenAccount::Treasury);
        lemma_flow_one(e0, TokenAccount::Shopkeeper);
        lemma_flow_one(e0, TokenAccount::Rider);
        lemma_flow_one(e1, TokenAccount::Vault);
        lemma_flow_one(e1, TokenAccount::Treasury);
        lemma_flow_one(e1, TokenAccount::Shopkeeper);
        lemma_flow_one(e1, TokenAccount::Rider);
        if s.refund > 0 {
            assert(effects =~= two.push(e2));
            lemma_flow_push(two, e2, TokenAccount::Vault);
            lemma_flow_push(two, e2, TokenAccount::Treasury);
            lemma_flow_push(two, e2, TokenAccount::Shopkeeper);
            lemma_flow_push(two, e2, TokenAccount::Rider);
            lemma_flow_one(e2, TokenAccount::Vault);
            lemma_flow_one(e2, TokenAccount::Treasury);
            lemma_flow_one(e2, TokenAccount::Shopkeeper);
            lemma_flow_one(e2, TokenAccount::Rider);
        } else {
            assert(effects =~= two);
        }
    }
}

/// Closing a rental empties the vault: its whole balance goes to the rider
/// when the scooter came back in good order and to the shopkeeper when not.
pub proof fn law_close_sends_whole_vault(acc: CloseRental, scooter_ok: bool, vault_balance: u64)
    ensures
        close_outcome(acc, scooter_ok, vault_balance) matches Ok((closed, effects)) ==> {
            &&& closed.scooter_account.status == ScooterStatus::Available
            &&& outflow(effects, TokenAccount::Vault) == vault_balance
            &&& inflow(effects, TokenAccount::Rider) == if scooter_ok { vault_balance as int } else { 0 }
            &&& inflow(effects, TokenAccount::Shopkeeper) == if scooter_ok { 0 } else { vault_balance as int }
        },
{
    if let Ok((_, effects)) = close_outcome(acc, scooter_ok, vault_balance) {
        let e0 = effects[0];
        let e1 = effects[1];
        assert(seq![e0].push(e1) =~= effects);
        lemma_flow_push(seq![e0], e1, TokenAccount::Vault);
        lemma_flow_push(seq![e0], e1, TokenAccount::Rider);
        lemma_flow_push(seq![e0], e1, TokenAccount::Shopkeeper);
        lemma_flow_one(e0, TokenAccount::Vault);
        lemma_flow_one(e0, TokenAccount::Rider);
        lemma_flow_one(e0, TokenAccount::Shopkeeper);
        lemma_flow_one(e1, TokenAccount::Vault);
        lemma_flow_one(e1, TokenAccount::Rider);
        lemma_flow_one(e1, TokenAccount::Shopkeeper);
    }
}

/// Whatever the rental (started, extended or not), returning its scooter
/// and then closing it empty its vault exactly: the return leaves at most
/// the collateral, the closing is accepted and pays out the rest, and the
/// two together pay out what the vault holds for the rental.
pub proof fn law_vault_emptied_on_return_and_close(acc: ReturnScooter, return_time: i64, scooter_ok: bool)
    ensures
        return_outcome(acc, return_time) matches Ok((returned, payout)) ==> {
            let left = vault_amount(acc.rental_account, acc.zoomi_account) - outflow(payout, TokenAccount::Vault);
            &&& 0 <= left <= acc.zoomi_account.collateral
            &&& close_outcome(close_after_return(returned), scooter_ok, left as u64) matches Ok((_, closing))
                && outflow(payout, TokenAccount::Vault) + outflow(closing, TokenAccount::Vault)
                == vault_amount(acc.rental_account, acc.zoomi_account)
        },
{
    if let Ok((returned, payout)) = return_outcome(acc, return_time) {
        law_return_pays_out_within_deposit(acc, return_time);
        let left = vault_amount(acc.rental_account, acc.zoomi_account) - outflow(payout, TokenAccount::Vault);
        law_close_sends_whole_vault(close_after_return(returned), scooter_ok, left as u64);
    }
}

/// Over a rental's life the vault pays out exactly what it took in: after
/// a scooter is rented and returned, the closing of the rental is accepted,
/// and what the return and the closing move out of the vault adds up to
/// what the start moved in, whoever the closing favours.
pub proof fn law_vault_emptied_over_rental(
    acc: StartRental,
    rental_period: u16,
    start_time: i64,
    rental_bump: u8,
    return_time: i64,
    scooter_ok: bool,
)
    ensures
        start_outcome(acc, rental_period, start_time, rental_bump) matches Ok((started, rental, deposit)) ==> (
        return_outcome(return_after_start(started, rental), return_time) matches Ok((returned, payout)) ==> {
            let left = inflow(deposit, TokenAccount::Vault) - outflow(payout, TokenAccount::Vault);
            &&& 0 <= left <= acc.zoomi_account.collateral
            &&& close_outcome(close_after_return(returned), scooter_ok, left as u64) matches Ok((_, closing))
                && outflow(payout, TokenAccount::Vault) + outflow(closing, TokenAccount::Vault)
                == inflow(deposit, TokenAccount::Vault)
        }),
{
    if let Ok((started, rental, deposit)) = start_outcome(acc, rental_period, start_time, rental_bump) {
        law_start_deposit_matches_record(acc, rental_period, start_time, rental_bump);
        law_vault_emptied_on_return_and_close(return_after_start(started, rental), return_time, scooter_ok);
    }
}

/// The records of an extension of the rental that a start opened.
pub open spec fn extend_after_start(started: StartRental, rental: Rental) -> ExtendRentalPeriod {
    ExtendRentalPeriod {
        scooter_account: started.scooter_account,
        rental_account: rental,
        zoomi_account: started.zoomi_account,
    }
}

/// The vault empties exactly over an extended rental too: after a start,
/// an extension and the return, the closing is accepted, and what the
/// return and the closing move out of the vault adds up to what the start
/// and the extension moved in.
pub proof fn law_vault_emptied_over_extended_rental(
    acc: StartRental,
    rental_period: u16,
    start_time: i64,
    rental_bump: u8,
    additional_rental_period: u16,
    return_time: i64,
    scooter_ok: bool,
)
    ensures
        start_outcome(acc, rental_period, start_time, rental_bump) matches Ok((started, rental, deposit)) ==> (
        extend_outcome(extend_after_start(started, rental), additional_rental_period) matches Ok(
            (extended, top_up),
        ) ==> (return_outcome(return_after_start(started, extended.rental_account), return_time) matches Ok(
            (returned, payout),
        ) ==> {
            let paid_in = inflow(deposit, TokenAccount::Vault) + inflow(top_up, TokenAccount::Vault);
            let left = paid_in - outflow(payout, TokenAccount::Vault);
            &&& 0 <= left <= acc.zoomi_account.collateral
            &&& close_outcome(close_after_return(returned), scooter_ok, left as u64) matches Ok((_, closing))
                && outflow(payout, TokenAccount::Vault) + outflow(closing, TokenAccount::Vault) == paid_in
        })),
{
    if let Ok((started, rental, deposit)) = start_outcome(acc, rental_period, start_time, rental_bump) {
        law_start_deposit_matches_record(acc, rental_period, start_time, rental_bump);
        let ext = extend_after_start(started, rental);
        if let Ok((extended, top_up)) = extend_outcome(ext, additional_rental_period) {
            law_extend_deposit_matches_record(ext, additional_rental_period);
            law_vault_emptied_on_return_and_close(
                return_after_start(started, extended.rental_account),
                return_time,
                scooter_ok,
            );
        }
    }
}

/// A returned scooter cannot be returned again: the second return is
/// refused because the scooter is no longer rented.
pub proof fn law_return_only_once(acc: ReturnScooter, now: i64, later: i64)
    ensures
        return_outcome(acc, now) matches Ok((returned, _)) ==> return_outcome(returned, later)
            == Err::<(ReturnScooter, Seq<Effect>), ZoomiError>(ZoomiError::ScooterNotRented),
{
}

/// A rental cannot be closed before its scooter is returned: right after
/// the start the closing is refused because the scooter is not in
/// maintenance.
pub proof fn law_no_close_before_return(acc: StartRental, rental_period: u16, now: i64, rental_bump: u8, scooter_ok: bool, vault_balance: u64)
    ensures
        start_outcome(acc, rental_period, now, rental_bump) matches Ok((started, rental, _)) ==> close_outcome(
            CloseRental { scooter_account: started.scooter_account, rental_account: rental },
            scooter_ok,
            vault_balance,
        ) == Err::<(CloseRental, Seq<Effect>), ZoomiError>(ZoomiError::ScooterNotInMaintenance),
{
}

/// Ending a rental and returning its scooter book the same usage: where
/// both are accepted on the same records at the same time, they leave the
/// same penalties, the same renting flag and the same scooter and rental
/// records.
pub proof fn law_end_and_return_agree(acc: ReturnScooter, now: i64)
    ensures
        ({
            let ending = EndRental {
                rider_account: acc.rider_account,
                scooter_account: acc.scooter_account,
                rental_account: acc.rental_account,
            };
            return_outcome(acc, now) matches Ok((returned, _)) ==> end_outcome(ending, now) matches Ok((ended, d)) && {
                &&& ended.rider_account.penalties == returned.rider_account.penalties
                &&& ended.rider_account.is_renting == returned.rider_account.is_renting
                &&& ended.scooter_account == returned.scooter_account
                &&& ended.rental_account == returned.rental_account
                &&& d == settlement(acc.rental_account, acc.scooter_account, acc.zoomi_account, now)->0.usage_difference
            }
        }),
{
}

/// The rental amount of `rental` is the base rate plus every paid hour at
/// the scooter's hourly rate.
pub open spec fn rental_priced(rental: Rental, scooter: Scooter, zoomi: Zoomi) -> bool {
    rental.rental_amount == rental_amount_of(
        zoomi.base_rate as int,
        scooter.hourly_rate as int,
        rental.rental_period as int,
    )
}

/// Starting a rental prices it at the base rate plus its paid hours.
pub proof fn law_start_prices_paid_hours(acc: StartRental, rental_period: u16, now: i64, rental_bump: u8)
    ensures
        start_outcome(acc, rental_period, now, rental_bump) matches Ok((started, rental, _))
            ==> rental_priced(rental, started.scooter_account, started.zoomi_account),
{
}

/// Extending a rental keeps it priced at the base rate plus its paid hours,
/// the added ones included.
pub proof fn law_extend_keeps_paid_hours_priced(acc: ExtendRentalPeriod, additional_rental_period: u16)
    ensures
        extend_outcome(acc, additional_rental_period) matches Ok((after, _)) ==> (
        rental_priced(acc.rental_account, acc.scooter_account, acc.zoomi_account)
            ==> rental_priced(after.rental_account, after.scooter_account, after.zoomi_account)),
{
    if let Ok((after, _)) = extend_outcome(acc, additional_rental_period) {
        let r = acc.scooter_account.hourly_rate as int;
        let a = additional_rental_period as int;
        let p = acc.rental_account.rental_period as int;
        assert((p + a) * r == p * r + a * r) by (nonlinear_arith);
    }
}

/// Extensions are additive: extending by `a` hours and then by `b` hours
/// leaves the same records, and moves the same tokens from the rider into
/// the vault, as one extension by `a + b` hours.
pub proof fn law_extensions_add_up(acc: ExtendRentalPeriod, a: u16, b: u16)
    ensures
        extend_outcome(acc, a) matches Ok((first, effects_a)) ==> (extend_outcome(first, b) matches Ok(
            (second, effects_b),
        ) ==> {
            &&& a + b <= u16::MAX
            &&& extend_outcome(acc, (a + b) as u16) matches Ok((once, effects))
                && once == second
                && inflow(effects, TokenAccount::Vault) == inflow(effects_a, TokenAccount::Vault) + inflow(
                effects_b,
                TokenAccount::Vault,
            ) && outflow(effects, TokenAccount::Rider) == outflow(effects_a, TokenAccount::Rider)
                + outflow(effects_b, TokenAccount::Rider)
        }),
{
    if let Ok((first, effects_a)) = extend_outcome(acc, a) {
        if let Ok((second, effects_b)) = extend_outcome(first, b) {
            law_extend_deposit_matches_record(acc, a);
            law_extend_deposit_matches_record(first, b);
            let r = acc.scooter_account.hourly_rate as int;
            assert((a + b) * r == a * r + b * r) by (nonlinear_arith);
            assert(a + b <= u16::MAX);
            law_extend_deposit_matches_record(acc, (a + b) as u16);
            let once = (extend_outcome(acc, (a + b) as u16)->Ok_0).0;
            assert(once.rental_account == second.rental_account);
        }
    }
}

proof fn lemma_cost_covers_hours(p: int, r: int, f: int)
    requires
        p >= 0,
        r >= 0,
        f >= 0,
    ensures
        with_fee(p * r, f) >= p * with_fee(r, f),
{
    let m = r * (100 + f);
    let q = m / 100;
    assert(m == 100 * q + m % 100 && 0 <= m % 100) by (nonlinear_arith)
        requires
            m >= 0,
            q == m / 100,
    ;
    assert(p * r * (100 + f) == 100 * (p * q) + p * (m % 100)) by (nonlinear_arith)
        requires
            m == r * (100 + f),
            m == 100 * q + m % 100,
    ;
    assert(p * (m % 100) >= 0) by (nonlinear_arith)
        requires
            p >= 0,
            m % 100 >= 0,
    ;
    assert((100 * (p * q) + p * (m % 100)) / 100 >= p * q) by (nonlinear_arith)
        requires
            p * (m % 100) >= 0,
    ;
}

/// Refunding unused paid hours never fails for want of funds: for a
/// rental priced at the base rate plus its paid hours, whose amount with fee
/// fits in a `u64`, a return that bills fewer hours than were paid (within
/// the `i16` range) refunds each unused hour at the hourly rate with fee out
/// of the amount paid.
pub proof fn law_refund_is_covered(rental: Rental, scooter: Scooter, zoomi: Zoomi, diff: i16)
    requires
        rental_priced(rental, scooter, zoomi),
        hourly_rate_with_fee(scooter.hourly_rate, zoomi.protocol_fee) is Some,
        with_fee(rental.rental_amount as int, zoomi.protocol_fee as int) <= u64::MAX,
        rental.rental_period <= i16::MAX,
        -(rental.rental_period as int) <= diff < 0,
    ensures
        ({
            let hourly = hourly_rate_with_fee(scooter.hourly_rate, zoomi.protocol_fee)->0;
            let paid = with_fee(rental.rental_amount as int, zoomi.protocol_fee as int);
            adjusted_amount(paid, zoomi.collateral as int, hourly as int, diff as int) == Some(
                (paid - (-diff) * hourly, (-diff) * hourly),
            )
        }),
{
    let hourly = hourly_rate_with_fee(scooter.hourly_rate, zoomi.protocol_fee)->0;
    let p = rental.rental_period as int;
    let r = scooter.hourly_rate as int;
    let f = zoomi.protocol_fee as int;
    let u = -(diff as int);
    assert(u * hourly <= p * hourly) by (nonlinear_arith)
        requires
            0 <= u <= p,
            hourly >= 0,
    ;
    lemma_cost_covers_hours(p, r, f);
    assert(p * r >= 0) by (nonlinear_arith)
        requires
            p >= 0,
            r >= 0,
    ;
    lemma_with_fee_monotone(p * r, rental.rental_amount as int, f);
}

/// The hours billed for `secs` elapsed seconds, before they are cut to 16
/// bits.
pub open spec fn hours_for(secs: int) -> int {
    (secs + SECONDS_IN_HOUR - 1) / (SECONDS_IN_HOUR as int)
}

/// A rental that is returned after its start is settled as its hours say:
/// returned within the paid hours, each unused hour is refunded at the
/// hourly rate with fee and the rest of the payment is kept; returned late,
/// the extra hours are charged at the same rate from the collateral, at most
/// all of it. The return is accepted whenever the clock has not gone back
/// and no counter overflows (paid and billed hours within `i16`, a fee of
/// at most 100 percent, the rider's points and penalties within `u32`).
pub proof fn law_return_after_start_settles(
    acc: StartRental,
    rental_period: u16,
    start_time: i64,
    rental_bump: u8,
    return_time: i64,
)
    requires
        rental_period <= i16::MAX,
        acc.zoomi_account.protocol_fee <= 100,
        hourly_rate_with_fee(acc.scooter_account.hourly_rate, acc.zoomi_account.protocol_fee) is Some,
        start_time <= return_time,
        return_time - start_time + SECONDS_IN_HOUR <= i64::MAX,
        hours_for(return_time - start_time) <= i16::MAX,
        hours_for(return_time - start_time) > rental_period ==> {
            let over = hours_for(return_time - start_time) - rental_period;
            &&& over * hourly_rate_with_fee(acc.scooter_account.hourly_rate, acc.zoomi_account.protocol_fee)->0
                <= u64::MAX
            &&& acc.rider_account.penalties + over <= u32::MAX
        },
        acc.rider_account.points + with_fee(
            rental_amount_of(
                acc.zoomi_account.base_rate as int,
                acc.scooter_account.hourly_rate as int,
                rental_period as int,
            ),
            acc.zoomi_account.protocol_fee as int,
        ) + acc.zoomi_account.collateral <= u32::MAX,
    ensures
        start_outcome(acc, rental_period, start_time, rental_bump) matches Ok((started, rental, _)) ==> {
            let ret = return_after_start(started, rental);
            let hours = hours_for(return_time - start_time);
            let hourly = hourly_rate_with_fee(acc.scooter_account.hourly_rate, acc.zoomi_account.protocol_fee)->0;
            let paid = with_fee(rental.rental_amount as int, acc.zoomi_account.protocol_fee as int);
            &&& return_outcome(ret, return_time) is Ok
            &&& settlement(rental, started.scooter_account, started.zoomi_account, return_time) matches Some(s)
                && if hours <= rental_period {
                    &&& s.refund == (rental_period - hours) * hourly
                    &&& s.final_amount == paid - (rental_period - hours) * hourly
                } else {
                    let extra = (hours - rental_period) * hourly;
                    &&& s.refund == 0
                    &&& s.final_amount == paid + if extra <= acc.zoomi_account.collateral {
                        extra
                    } else {
                        acc.zoomi_account.collateral as int
                    }
                }
        },
{
    if let Ok((started, rental, _)) = start_outcome(acc, rental_period, start_time, rental_bump) {
        law_start_prices_paid_hours(acc, rental_period, start_time, rental_bump);
        let secs = return_time - start_time;
        let hours = hours_for(secs);
        assert(hours >= 0);
        assert(billed_hours(start_time, return_time) == Some(hours as u16));
        let h16 = hours as u16;
        assert(h16 as int == hours);
        assert((h16 as i16) as int == hours);
        assert((rental_period as i16) as int == rental_period as int);
        let d = hours - rental_period;
        assert(usage_difference(h16, rental_period) == Some(d as i16));
        let hourly = hourly_rate_with_fee(acc.scooter_account.hourly_rate, acc.zoomi_account.protocol_fee)->0;
        let coll = acc.zoomi_account.collateral as int;
        let paid = with_fee(rental.rental_amount as int, acc.zoomi_account.protocol_fee as int);
        if d < 0 {
            law_refund_is_covered(rental, started.scooter_account, started.zoomi_account, d as i16);
        }
        let fin = if d < 0 {
            paid - (-d) * hourly
        } else if d > 0 {
            paid + if d * hourly <= coll { d * hourly } else { coll }
        } else {
            paid
        };
        assert(adjusted_amount(paid, coll, hourly as int, d) == Some(
            (fin, if d < 0 { (-d) * hourly } else { 0 }),
        ));
        let fee = fee_part(fin, acc.zoomi_account.protocol_fee as int);
        assert(0 <= fee <= fin) by (nonlinear_arith)
            requires
                fee == fin * (acc.zoomi_account.protocol_fee as int) / 100,
                0 <= acc.zoomi_account.protocol_fee <= 100,
                fin >= 0,
        ;
        assert(settlement(rental, started.scooter_account, started.zoomi_account, return_time) is Some);
        let s = settlement(rental, started.scooter_account, started.zoomi_account, return_time)->0;
        assert(s.to_shopkeeper <= paid + coll);
        assert((s.to_shopkeeper as u32) as int == s.to_shopkeeper as int);
        assert(s.final_amount == fin);
        assert(return_outcome(return_after_start(started, rental), return_time) is Ok);
    }
}

proof fn lemma_adjusted_amount_monotone(base: int, collateral: int, hourly: int, d1: int, d2: int)
    requires
        base >= 0,
        collateral >= 0,
        hourly >= 0,
        d1 <= d2,
        adjusted_amount(base, collateral, hourly, d1) is Some,
        adjusted_amount(base, collateral, hourly, d2) is Some,
    ensures
        (adjusted_amount(base, collateral, hourly, d1)->0).0 <= (adjusted_amount(base, collateral, hourly, d2)->0).0,
        (adjusted_amount(base, collateral, hourly, d1)->0).1 >= (adjusted_amount(base, collateral, hourly, d2)->0).1,
        (adjusted_amount(base, collateral, hourly, d2)->0).0 <= base + collateral,
{
    if d2 < 0 {
        assert((-d2) * hourly <= (-d1) * hourly) by (nonlinear_arith)
            requires
                0 < -d2 <= -d1,
                hourly >= 0,
        ;
    } else if d1 >= 0 {
        assert(d1 * hourly <= d2 * hourly) by (nonlinear_arith)
            requires
                0 <= d1 <= d2,
                hourly >= 0,
        ;
    } else {
        assert((-d1) * hourly >= 0) by (nonlinear_arith)
            requires
                -d1 > 0,
                hourly >= 0,
        ;
        assert(d2 * hourly >= 0) by (nonlinear_arith)
            requires
                d2 >= 0,
                hourly >= 0,
        ;
    }
}

/// Returning later never costs the rider less: of two accepted returns of
/// the same rental at times `now1 <= now2` (both at or after its start,
/// with paid and billed hours within `i16`), the later one has a final
/// amount at least as large, a refund at most as large and at least as many
/// penalties; and no return charges more than what the vault holds.
pub proof fn law_later_return_costs_no_less(acc: ReturnScooter, now1: i64, now2: i64)
    requires
        acc.rental_account.start_time <= now1 <= now2,
        acc.rental_account.rental_period <= i16::MAX,
        now2 - acc.rental_account.start_time + SECONDS_IN_HOUR <= i64::MAX,
        hours_for(now2 - acc.rental_account.start_time) <= i16::MAX,
    ensures
        return_outcome(acc, now1) matches Ok((early, _)) ==> (return_outcome(acc, now2) matches Ok((late, _)) ==> {
            let s1 = settlement(acc.rental_account, acc.scooter_account, acc.zoomi_account, now1)->0;
            let s2 = settlement(acc.rental_account, acc.scooter_account, acc.zoomi_account, now2)->0;
            &&& s1.final_amount <= s2.final_amount
            &&& s1.refund >= s2.refund
            &&& early.rider_account.penalties <= late.rider_account.penalties
            &&& s2.final_amount <= vault_amount(acc.rental_account, acc.zoomi_account)
        }),
{
    if let Ok((early, _)) = return_outcome(acc, now1) {
        if let Ok((late, _)) = return_outcome(acc, now2) {
            let start = acc.rental_account.start_time;
            let p = acc.rental_account.rental_period;
            let secs1 = now1 - start;
            let secs2 = now2 - start;
            let h1 = hours_for(secs1);
            let h2 = hours_for(secs2);
            assert(0 <= h1 <= h2) by (nonlinear_arith)
                requires
                    0 <= secs1 <= secs2,
                    h1 == (secs1 + 3599) / 3600,
                    h2 == (secs2 + 3599) / 3600,
            ;
            assert(billed_hours(start, now1) == Some(h1 as u16));
            assert(billed_hours(start, now2) == Some(h2 as u16));
            assert(((h1 as u16) as i16) as int == h1);
            assert(((h2 as u16) as i16) as int == h2);
            assert((p as i16) as int == p as int);
            assert(usage_difference(h1 as u16, p) == Some((h1 - p) as i16));
            assert(usage_difference(h2 as u16, p) == Some((h2 - p) as i16));
            let hourly = hourly_rate_with_fee(acc.scooter_account.hourly_rate, acc.zoomi_account.protocol_fee)->0;
            let coll = acc.zoomi_account.collateral as int;
            let base = with_fee(acc.rental_account.rental_amount as int, acc.zoomi_account.protocol_fee as int);
            lemma_adjusted_amount_monotone(base, coll, hourly as int, h1 - p, h2 - p);
        }
    }
}

/// A scooter never has two live rentals: once a rental has started, no
/// new rental of that scooter is accepted, whoever asks and under whatever
/// configuration; extending, returning or ending the rental never makes
/// the scooter available again. Only the closing of the rental (or a status
/// set by the shopkeeper or the device) frees it.
pub proof fn law_one_live_rental_per_scooter(
    acc: StartRental,
    rental_period: u16,
    now: i64,
    rental_bump: u8,
    other: StartRental,
    other_period: u16,
    later: i64,
    other_bump: u8,
    ext: ExtendRentalPeriod,
    additional: u16,
    ret: ReturnScooter,
    end: EndRental,
)
    ensures
        start_outcome(acc, rental_period, now, rental_bump) matches Ok((started, _, _)) ==> start_outcome(
            StartRental { scooter_account: started.scooter_account, ..other },
            other_period,
            later,
            other_bump,
        ) == Err::<(StartRental, Rental, Seq<Effect>), ZoomiError>(ZoomiError::ScooterNotAvailable),
        extend_outcome(ext, additional) matches Ok((after, _)) ==> after.scooter_account == ext.scooter_account,
        return_outcome(ret, later) matches Ok((after, _)) ==> after.scooter_account.status
            != ScooterStatus::Available,
        end_outcome(end, later) matches Ok((after, _)) ==> after.scooter_account.status != ScooterStatus::Available,
{
}

proof fn lemma_settlement_flows(s: Settlement)
    ensures
        inflow(settlement_effects(s), TokenAccount::Treasury) == s.fee_amount,
        inflow(settlement_effects(s), TokenAccount::Shopkeeper) == s.to_shopkeeper,
        inflow(settlement_effects(s), TokenAccount::Rider) == s.refund,
        inflow(settlement_effects(s), TokenAccount::Vault) == 0,
{
    let e0 = Effect::Transfer { from: TokenAccount::Vault, to: TokenAccount::Treasury, amount: s.fee_amount };
    let e1 = Effect::Transfer { from: TokenAccount::Vault, to: TokenAccount::Shopkeeper, amount: s.to_shopkeeper };
    let e2 = Effect::Transfer { from: TokenAccount::Vault, to: TokenAccount::Rider, amount: s.refund };
    let two = seq![e0, e1];
    assert(seq![e0].push(e1) =~= two);
    lemma_flow_push(seq![e0], e1, TokenAccount::Treasury);
    lemma_flow_push(seq![e0], e1, TokenAccount::Shopkeeper);
    lemma_flow_push(seq![e0], e1, TokenAccount::Rider);
    lemma_flow_push(seq![e0], e1, TokenAccount::Vault);
    lemma_flow_one(e0, TokenAccount::Treasury);
    lemma_flow_one(e0, TokenAccount::Shopkeeper);
    lemma_flow_one(e0, TokenAccount::Rider);
    lemma_flow_one(e0, TokenAccount::Vault);
    lemma_flow_one(e1, TokenAccount::Treasury);
    lemma_flow_one(e1, TokenAccount::Shopkeeper);
    lemma_flow_one(e1, TokenAccount::Rider);
    lemma_flow_one(e1, TokenAccount::Vault);
    if s.refund > 0 {
        assert(settlement_effects(s) =~= two.push(e2));
        lemma_flow_push(two, e2, TokenAccount::Treasury);
        lemma_flow_push(two, e2, TokenAccount::Shopkeeper);
        lemma_flow_push(two, e2, TokenAccount::Rider);
        lemma_flow_push(two, e2, TokenAccount::Vault);
        lemma_flow_one(e2, TokenAccount::Treasury);
        lemma_flow_one(e2, TokenAccount::Shopkeeper);
        lemma_flow_one(e2, TokenAccount::Rider);
        lemma_flow_one(e2, TokenAccount::Vault);
    } else {
        assert(settlement_effects(s) =~= two);
    }
}

/// Time is billed in whole hours, rounded up: for a clock that has not
/// gone back, the billed hours `h` (before their cut to 16 bits) are the
/// least number of hours that cover the elapsed seconds.
pub proof fn law_billed_hours_round_up(start: i64, now: i64)
    requires
        start <= now,
        now - start + 3600 <= i64::MAX,
    ensures
        billed_hours(start, now) == Some(((now - start + 3599) / 3600) as u16),
        ({
            let h = (now - start + 3599) / 3600;
            &&& h * 3600 >= now - start
            &&& h == 0 || (h - 1) * 3600 < now - start
        }),
{
}

/// The usage difference of paid and billed hours that both fit in `i16` is
/// their plain difference.
pub proof fn law_usage_difference_is_plain(billed: u16, paid: u16)
    requires
        billed <= i16::MAX,
        paid <= i16::MAX,
    ensures
        usage_difference(billed, paid) == Some((billed - paid) as i16),
        usage_difference(billed, paid)->0 == billed - paid,
{
}

/// Returning a scooter rewards and penalises the rider by what the return
/// settled: the rider's points grow by the shopkeeper's part (cut to 32
/// bits) and never shrink; the penalties grow by the hours ridden past the
/// paid period, stay put otherwise, and never shrink; the rider stops
/// renting and keeps wallet, verification and bump; the scooter goes to
/// maintenance and the rental is completed, both otherwise unchanged.
pub proof fn law_return_rewards_and_penalises(acc: ReturnScooter, now: i64)
    ensures
        return_outcome(acc, now) matches Ok((after, effects)) ==> {
            &&& after.rider_account.points == acc.rider_account.points + (inflow(
                effects,
                TokenAccount::Shopkeeper,
            ) as u32)
            &&& after.rider_account.points >= acc.rider_account.points
            &&& after.rider_account.penalties >= acc.rider_account.penalties
            &&& billed_hours(acc.rental_account.start_time, now) matches Some(h) && (usage_difference(
                h,
                acc.rental_account.rental_period,
            ) matches Some(d) && after.rider_account.penalties == acc.rider_account.penalties + if d > 0 {
                d as int
            } else {
                0
            })
            &&& !after.rider_account.is_renting
            &&& after.rider_account.wallet == acc.rider_account.wallet
            &&& after.rider_account.id_status == acc.rider_account.id_status
            &&& after.rider_account.bump == acc.rider_account.bump
            &&& after.scooter_account == (Scooter { status: ScooterStatus::Maintenance, ..acc.scooter_account })
            &&& after.rental_account == (Rental { status: RentalStatus::Completed, ..acc.rental_account })
            &&& after.zoomi_account == acc.zoomi_account
        },
{
    if let Ok((after, effects)) = return_outcome(acc, now) {
        let s = settlement(acc.rental_account, acc.scooter_account, acc.zoomi_account, now)->0;
        lemma_settlement_flows(s);
    }
}

/// Ending a rental books its usage: it gives billed minus paid hours, the
/// rider's penalties grow by the hours ridden past the paid period, stay
/// put otherwise, and never shrink; the points and the rest of the rider's
/// record stay as they were but for the renting flag, which drops; the
/// scooter goes to maintenance and the rental is completed.
pub proof fn law_end_books_penalties(acc: EndRental, now: i64)
    ensures
        end_outcome(acc, now) matches Ok((after, d)) ==> {
            &&& billed_hours(acc.rental_account.start_time, now) matches Some(h) && usage_difference(
                h,
                acc.rental_account.rental_period,
            ) == Some(d)
            &&& after.rider_account.penalties == acc.rider_account.penalties + if d > 0 { d as int } else { 0 }
            &&& after.rider_account.penalties >= acc.rider_account.penalties
            &&& after.rider_account == (Rider {
                penalties: after.rider_account.penalties,
                is_renting: false,
                ..acc.rider_account
            })
            &&& after.scooter_account == (Scooter { status: ScooterStatus::Maintenance, ..acc.scooter_account })
            &&& after.rental_account == (Rental { status: RentalStatus::Completed, ..acc.rental_account })
        },
{
}

/// Ending a rental is accepted whenever the scooter is rented, the rental
/// active, its billed hours and usage difference defined and the penalties
/// fit in 32 bits, whatever else the records hold.
pub proof fn law_end_accepted(acc: EndRental, now: i64)
    requires
        acc.scooter_account.status == ScooterStatus::Rented,
        acc.rental_account.status == RentalStatus::Active,
        billed_hours(acc.rental_account.start_time, now) is Some,
        usage_difference(billed_hours(acc.rental_account.start_time, now)->0, acc.rental_account.rental_period) is Some,
        ({
            let d = usage_difference(
                billed_hours(acc.rental_account.start_time, now)->0,
                acc.rental_account.rental_period,
            )->0;
            acc.rider_account.penalties + if d > 0 { d as int } else { 0 } <= u32::MAX
        }),
    ensures
        end_outcome(acc, now) is Ok,
{
}

/// Starting a rental is accepted exactly when the scooter is available and
/// the amounts fit in a `u64`: the rental amount (base rate plus the hours
/// at the scooter's rate) and the deposit (that amount with the fee of
/// `fee` percent, rounded down, plus the collateral). The rider's record
/// plays no part. The new rental records the rider, scooter, start time,
/// hours and rental amount and is active; the rider pays the deposit into
/// the vault; the scooter is rented and the rider renting.
pub proof fn law_start_accepts_and_records(acc: StartRental, rental_period: u16, now: i64, rental_bump: u8)
    ensures
        ({
            let amount = acc.zoomi_account.base_rate + rental_period * acc.scooter_account.hourly_rate;
            let deposit = amount * (100 + acc.zoomi_account.protocol_fee) / 100 + acc.zoomi_account.collateral;
            &&& (start_outcome(acc, rental_period, now, rental_bump) is Ok) == (acc.scooter_account.status
                == ScooterStatus::Available && amount <= u64::MAX && deposit <= u64::MAX)
            &&& start_outcome(acc, rental_period, now, rental_bump) matches Ok((after, rental, effects)) ==> {
                &&& rental == (Rental {
                    rider: acc.rider,
                    scooter_id: acc.scooter_account.id,
                    start_time: now,
                    rental_period,
                    rental_amount: amount as u64,
                    status: RentalStatus::Active,
                    bump: rental_bump,
                })
                &&& effects == seq![
                    Effect::Transfer { from: TokenAccount::Rider, to: TokenAccount::Vault, amount: deposit as u64 },
                ]
                &&& after == (StartRental {
                    rider_account: Rider { is_renting: true, ..acc.rider_account },
                    scooter_account: Scooter { status: ScooterStatus::Rented, ..acc.scooter_account },
                    ..acc
                })
            }
        }),
{
    let amount = acc.zoomi_account.base_rate + rental_period * acc.scooter_account.hourly_rate;
    let f = acc.zoomi_account.protocol_fee as int;
    if amount <= u64::MAX {
        assert(amount * (100 + f) / 100 >= 0) by (nonlinear_arith)
            requires
                amount >= 0,
                f >= 0,
        ;
    }
}

/// Whoever the rider is, a start on the same scooter, configuration, hours
/// and time gives the same answer: accepted or refused alike, with the same
/// rental and the same deposit.
pub proof fn law_start_ignores_rider_record(acc: StartRental, other: Rider, rental_period: u16, now: i64, rental_bump: u8)
    ensures
        ({
            let theirs = StartRental { rider_account: other, ..acc };
            &&& (start_outcome(acc, rental_period, now, rental_bump) is Ok) == (start_outcome(
                theirs,
                rental_period,
                now,
                rental_bump,
            ) is Ok)
            &&& start_outcome(acc, rental_period, now, rental_bump) matches Ok((_, rental, effects)) ==> (
            start_outcome(theirs, rental_period, now, rental_bump) matches Ok((_, rental2, effects2)) && rental2
                == rental && effects2 == effects)
        }),
{
    law_start_accepts_and_records(acc, rental_period, now, rental_bump);
    law_start_accepts_and_records(StartRental { rider_account: other, ..acc }, rental_period, now, rental_bump);
}

/// Extending a rental by `additional` hours is accepted exactly when the new
/// hour count fits in a `u16` and the new rental amount (the old one plus
/// the added hours at the scooter's rate) and that amount with the fee fit
/// in a `u64`; there is no other limit on the length of a rental. The
/// extended rental has the added hours and amount and is otherwise
/// unchanged; the rider pays into the vault what the amount with fee grows
/// by; the scooter and the configuration stay as they were.
pub proof fn law_extend_accepts_and_records(acc: ExtendRentalPeriod, additional: u16)
    ensures
        ({
            let f = acc.zoomi_account.protocol_fee as int;
            let period = acc.rental_account.rental_period + additional;
            let old_amount = acc.rental_account.rental_amount as int;
            let amount = old_amount + additional * acc.scooter_account.hourly_rate;
            &&& (extend_outcome(acc, additional) is Ok) == (period <= u16::MAX && amount <= u64::MAX && amount * (
            100 + f) / 100 <= u64::MAX)
            &&& extend_outcome(acc, additional) matches Ok((after, effects)) ==> {
                &&& after.rental_account == (Rental {
                    rental_period: period as u16,
                    rental_amount: amount as u64,
                    ..acc.rental_account
                })
                &&& after.scooter_account == acc.scooter_account
                &&& after.zoomi_account == acc.zoomi_account
                &&& effects == seq![
                    Effect::Transfer {
                        from: TokenAccount::Rider,
                        to: TokenAccount::Vault,
                        amount: (amount * (100 + f) / 100 - old_amount * (100 + f) / 100) as u64,
                    },
                ]
            }
        }),
{
}

/// A registered scooter holds exactly what it was registered with: its
/// device, identifiers, hourly rate (any `u64`) and bump; it starts
/// available, at the origin, never located.
pub proof fn law_registered_scooter_keeps_inputs(device: AccountKey, id: u32, shopkeeper_id: u32, hourly_rate: u64, bump: u8)
    ensures
        ({
            let s = new_scooter(device, id, shopkeeper_id, hourly_rate, bump);
            &&& s.zoomi_device_pubkey == device
            &&& s.id == id
            &&& s.shopkeeper_id == shopkeeper_id
            &&& s.hourly_rate == hourly_rate
            &&& s.bump == bump
            &&& s.status == ScooterStatus::Available
            &&& s.location_lat == 0 && s.location_long == 0 && s.location_timestamp == 0
        }),
{
}

/// A registered rider holds its wallet and bump, is verified, has no
/// points or penalties and is not renting.
pub proof fn law_registered_rider_starts_clean(wallet: AccountKey, bump: u8)
    ensures
        ({
            let r = new_rider(wallet, bump);
            &&& r.wallet == wallet
            &&& r.bump == bump
            &&& r.id_status
            &&& r.points == 0 && r.penalties == 0
            &&& !r.is_renting
        }),
{
}

/// A return settles by the hour, at the hourly rate with fee (the rate
/// times `100 + fee` percent, rounded down): each unused paid hour is
/// refunded to the rider, out of the rental amount with fee; each extra hour
/// is charged from the collateral, at most all of it. What the rental
/// finally costs is split between the treasury, which takes `fee` percent of
/// it (rounded down), and the shopkeeper, who gets the rest.
pub proof fn law_return_settles_by_the_hour(acc: ReturnScooter, now: i64)
    ensures
        return_outcome(acc, now) matches Ok((_, effects)) ==> (billed_hours(acc.rental_account.start_time, now)
            matches Some(h) && (usage_difference(h, acc.rental_account.rental_period) matches Some(d) && {
            let f = acc.zoomi_account.protocol_fee as int;
            let hourly = acc.scooter_account.hourly_rate * (100 + f) / 100;
            let paid = acc.rental_account.rental_amount * (100 + f) / 100;
            let collateral = acc.zoomi_account.collateral as int;
            let to_treasury = inflow(effects, TokenAccount::Treasury);
            let to_shopkeeper = inflow(effects, TokenAccount::Shopkeeper);
            let to_rider = inflow(effects, TokenAccount::Rider);
            let cost = to_treasury + to_shopkeeper;
            &&& to_treasury == cost * f / 100
            &&& d < 0 ==> to_rider == (-d) * hourly && cost == paid - (-d) * hourly
            &&& d >= 0 ==> to_rider == 0 && cost == paid + if d * hourly <= collateral {
                d * hourly
            } else {
                collateral
            }
        })),
{
    if let Ok((_, effects)) = return_outcome(acc, now) {
        let s = settlement(acc.rental_account, acc.scooter_account, acc.zoomi_account, now)->0;
        lemma_settlement_flows(s);
    }
}

/// Closing a rental is accepted exactly when the scooter is in maintenance
/// and the rental completed. It then makes the scooter available (nothing
/// else of the scooter or the rental changes), pays the vault balance to
/// the rider when the scooter is in good order and to the shopkeeper when
/// not, and closes the vault with its rent to the rider.
pub proof fn law_close_accepts_and_frees(acc: CloseRental, scooter_ok: bool, vault_balance: u64)
    ensures
        (close_outcome(acc, scooter_ok, vault_balance) is Ok) == (acc.scooter_account.status
            == ScooterStatus::Maintenance && acc.rental_account.status == RentalStatus::Completed),
        close_outcome(acc, scooter_ok, vault_balance) matches Ok((after, effects)) ==> {
            &&& after.scooter_account == (Scooter { status: ScooterStatus::Available, ..acc.scooter_account })
            &&& after.rental_account == acc.rental_account
            &&& effects == seq![
                Effect::Transfer {
                    from: TokenAccount::Vault,
                    to: if scooter_ok { TokenAccount::Rider } else { TokenAccount::Shopkeeper },
                    amount: vault_balance,
                },
                Effect::CloseTokenAccount { account: TokenAccount::Vault, destination: Wallet::Rider },
            ]
        },
{
}

/// The test closing of a rental is accepted exactly when the scooter is in
/// maintenance and the rental completed; it then makes the scooter
/// available, pays the whole vault balance to the rider and closes the
/// vault with its rent to the rider.
pub proof fn law_close_test_pays_rider(acc: CloseRentalTest, vault_balance: u64)
    ensures
        (close_test_outcome(acc, vault_balance) is Ok) == (acc.scooter_account.status == ScooterStatus::Maintenance
            && acc.rental_account.status == RentalStatus::Completed),
        close_test_outcome(acc, vault_balance) matches Ok((after, effects)) ==> {
            &&& after.scooter_account == (Scooter { status: ScooterStatus::Available, ..acc.scooter_account })
            &&& after.rental_account == acc.rental_account
            &&& effects == seq![
                Effect::Transfer { from: TokenAccount::Vault, to: TokenAccount::Rider, amount: vault_balance },
                Effect::CloseTokenAccount { account: TokenAccount::Vault, destination: Wallet::Rider },
            ]
        },
{
}

/// Opening a rental record is accepted exactly when the hours at the
/// scooter's rate fit in a `u64`; the record is active, starts at `now` and
/// holds the rider's record, the scooter's identifier, the hours and that
/// amount.
pub proof fn law_initialize_rental_records(acc: InitializeRental, rental_period: u16, now: i64, rental_bump: u8)
    ensures
        (initialize_rental_outcome(acc, rental_period, now, rental_bump) is Ok) == (rental_period
            * acc.scooter_account.hourly_rate <= u64::MAX),
        initialize_rental_outcome(acc, rental_period, now, rental_bump) matches Ok(r) ==> {
            &&& r.rider == acc.rider_account_key
            &&& r.scooter_id == acc.scooter_account.id
            &&& r.start_time == now
            &&& r.rental_period == rental_period
            &&& r.rental_amount == rental_period * acc.scooter_account.hourly_rate
            &&& r.status == RentalStatus::Active
            &&& r.bump == rental_bump
        },
{
}

} // verus!
