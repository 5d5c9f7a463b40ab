# parity

What an Ethereum client decides from its command line and its readings, as a
library verified with Verus, and the client around it.

- `src/` holds the decisions.
  - `args`, `usage`: command lines, matched by docopt and read into fields.
  - `configuration`: the chain, the directories, the version, JSON-RPC.
  - `network`, `exchange`: the network settings, worked out by questions and
    answers, and what a whole exchange comes to.
  - `logging`, `pattern`: what the logger lets through, collected by env_logger,
    and which texts env_logger can be given.
  - `informant`, `status`, `timer`: the status line.
  - `fatal`: what the client gives up over.
  - `basic`: a second client, with few options.
  - `text`, `u256`: decimal numbers, paths and wide integers.
- `app/` does what was decided: it reads the environment, starts the node and
  prints.
- `tests/` runs the library.
