# aj_drive

Verified state machines for the three contracts of a ride-hailing platform on
a Soroban ledger:

- `src/ride_escrow.rs` — the passenger's fare is locked on booking and leaves
  the contract once: to the driver through the payout contract, back to the
  passenger, or split after a dispute.
- `src/driver_payout.rs` — completed fares accumulate in a driver's pending
  balance until withdrawn; the admin may also pay a driver at once.
- `src/dispute_resolution.rs` — a participant files a dispute over a disputed
  ride; the admin splits the fare or dismisses the dispute.
- `src/ledger.rs` — the token transfers and events the contracts ask for.
- `src/*_laws.rs` — what holds of every call and of every run of calls:
  funds conservation per ride, finality of settled rides and closed disputes,
  who may act, and how each recorded fare ends up pending or withdrawn.

Every call returns either a rejection (the state is unchanged) or the next
state with the list of actions for the host. `app/` holds the Soroban
contracts: they authenticate callers, load the touched entries from contract
storage into the library, and carry out the actions the library returns.
