# app_atm

A banking simulation in which four ATM processes share one account file and take
turns through a token that circulates on a logical ring ATM1 → ATM2 → ATM3 → ATM4 →
ATM1. Each visit of the token lets a node attempt at most one of its queued requests.

The library in `src/` is written in Verus and holds the rules with their proofs:

- `entity/` — the data: identifiers, requests, outcomes, the token, node state,
  reports and socket addresses, each with its mathematical view.
- `control/` — identifiers and ring navigation (`CAtm`), configuration checks
  (`CConfig`), transactions and their text form (`CTransaction`), the token's route
  (`CToken`), one visit of a node (`CNode`), message framing (`CMessage`), log
  numbering and labels (`CLog`) and the routing of log copies over UDP (`CUdpRoute`).
- `bridge/` — what the adapters decide: the account file's content (`BAccount`) and
  the TCP frames and retry policy (`BTcp`).
- `text.rs` — decimal text of integers, trimming and string building.

The program in `app/` does the input and output: command line, TCP, UDP, files,
JSON encoding of the token and the event records.
