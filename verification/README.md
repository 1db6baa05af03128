# Coinswap for BTCPay Server, verified

A BTCPay Server plugin that runs a coinswap maker, a taker, or both, next to your stores. What the
plugin decides, shows and says is a library verified with [Verus](https://github.com/verus-lang/verus).

- `src/` is the verified library. Every function states what it returns for every input that it
  admits, and Verus proves it. `src/blocks.rs` holds the only trusted part: the steps of the host's
  page builder.
- `tests/` runs the library, with the host's page builder linked.
- `app/` is the plugin around it: threads, locks, the disk, the settings form, and the calls into
  the host and into [openswap](https://github.com/citadel-foss/openswap).

openswap is not on crates.io. Building `app/` takes a dependency on its repository.

## What is proved

Beside the exact contract of each function, `src/` states laws as public proof functions. Among
them:

- A launch of the maker serves at most once and ends (`runtime`).
- A failure survives a stop, and a recovery phrase is handed out once and never logged (`lifecycle`,
  `runtime`, `taker`).
- Checked settings reach the roles with their ports untruncated and with a wallet each
  (`settings`).
- A lasting condition notifies once, a cleared one again, and a stuck swap is reported after thirty
  ticks and never twice (`alerts`).
- A watcher that is replaced is asked to stop, and stays so (`alerts`).
- Nothing tramples a running swap, and a quote is accepted at most once (`taker`).
- A button is on the dashboard only when it can work (`pages`).
- A rejected save changes nothing, and a failure is logged as well as shown (`plugin`).
