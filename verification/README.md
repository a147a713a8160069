# neutron_vaults

Verified core of a family of Neutron market-making contracts, written in
Verus.

- `src/mmvault`: the vault that mints LP shares against two-token deposits,
  spreads its balances over fee tiers on the DEX, and redeems shares
  proportionally; `laws.rs` holds the properties that span its operations
  (proportional minting, equal deposits minting equal shares, full burns,
  successive burns, a deposit withdrawn at once gaining nothing, staleness
  holds, idempotent updates). A DEX deposit runs in two steps: clearing
  limit orders first, then the deposits from the reply to the second order.
- `src/owner_vault`: the earlier single-tier vault run by its owner, with
  clearing orders before each DEX deposit and an optional ambient deposit.
- `src/oracle`: the dAsset price oracle (Slinky quotes, redemption rates,
  market checks); `src/maxbtc_oracle`, `src/lst_oracle`, `src/slinky_oracle`:
  the smaller rate oracles.
- `src/cron_runner`, `src/dasset_updator`: the contracts that drive vaults
  (rebalancing every block; fee tiers derived from staking APY).
- `src/precdec.rs`, `src/text.rs`, `src/coin.rs`, `src/wasm.rs`: the decimal
  model, text renderings and message bodies shared by the modules.

`app/` holds the chain-facing entry points (storage, queries, message
encoding, the floating-point tick and fee math). `tests/` exercises the
library on concrete values.
