# solana_low_latency

Building blocks for landing Solana transactions quickly, verified with Verus.

- `src/compute_budget.rs`: compute-unit limit padding and priority-fee arithmetic, with
  their exact formulas and laws (bounds, monotonicity, zero cases), and the two
  compute-budget instructions.
- `src/blockhash.rs`: a recent blockhash with its last valid block height; expiry and
  remaining blocks, and the laws that tie them.
- `src/confirmation.rs`: classification of a node's signature status report and the
  decision taken after each status query while waiting for a confirmation.
- `src/transaction_builder.rs`: compiling and signing a v0 transaction.
- `src/jito/client.rs`: the Jito block-engine client: transaction encoding, the
  JSON-RPC request texts, and decoding of the tip accounts a response lists.
- `app/lib.rs`: the RPC, HTTP and async parts (status queries, the waiting loop with
  its timeout, block-engine calls), which hand plain values to the library.
