# bridge_stake

The verified core of two Solana programs written with Anchor:

- `solana_bridge`: a cross-chain bridge. Tokens and native coin are cashed
  out towards other chains (burnt or locked, with a numbered event), and paid
  out from them once the bridge manager's secp256k1 signature over the payout
  message has been checked by the runtime's secp256k1 program in the
  preceding instruction.
- `stake_proxy`: stake tokens deposited with the proxy are mirrored, lamport
  for token, by native stake held in a system stake account.

`src/` holds the decisions of every instruction handler as verified
functions over plain values, with the laws they keep (payouts cannot be
replayed, counters advance by one, the signed message pins the payout down,
vault transfers conserve lamports, stake accounts are topped up to exactly
rent plus stake). `app/` wires them to Anchor accounts, cross-program
invocations and events. `tests/` runs the library on concrete inputs.
