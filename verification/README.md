# sca_pair

The pair contract of the SCA (Synthetic Crypto Assets) project: a pool of two
cw20 tokens with LP tokens, swaps at the pool's quote less a fee, and the
router's record of pairs. The rules are verified with Verus.

- `src/amm.rs`: the pool arithmetic (quote, deposit share, LP minted, payout).
- `src/state.rs`: the stored configuration and reserves, and their getters and setters.
- `src/model.rs`: the rules as plain values, which the contracts speak of.
- `src/contract.rs`: the entry points and the execute and query handlers.
- `src/guard.rs`: the checks an unverified caller makes before `execute` and `query`.
- `src/laws.rs`: properties across all inputs.
- `src/encode.rs`: the encoding of cw20 calls by `cosmwasm_std`.
- `app/`: the CosmWasm entry points around the library (storage, queries, JSON).
