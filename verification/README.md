# zoomi

A scooter rental protocol. Shopkeepers register scooters, riders register
themselves, rent a scooter for a number of paid hours and return it; the
rider's payment and a collateral wait in a vault that the rental owns, and
the return settles the rental from it: unused hours are refunded, extra hours
are charged from the collateral, the protocol's fee goes to the treasury and
the rest to the shopkeeper. The shopkeeper then closes the rental and decides
who gets what is left of the collateral.

- `src/` is the verified library (Verus). Every instruction is a function from
  the records it reads to the records it writes and the token movements it asks
  for, with a contract that pins both down and says exactly when it refuses.
  A refused instruction changes no record: each instruction's contract says so.
  `src/laws.rs` proves what holds across instructions: what the vault takes in
  it pays out (extended rentals included), a scooter has one live
  rental at a time and is freed by the closing, extensions add up hour by hour,
  unused hours are always refundable and a later return never costs less.
- `app/` is the Solana program around it (Anchor): account validation, the
  clock, the token program calls that carry out the movements, and events.
- `tests/` runs the library on concrete rentals.
