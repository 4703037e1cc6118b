//! Decisions of a node's event log: numbering, console filter and readable labels.

use crate::text::{chars_of, i64_text, int_text, joined, str_eq, u64_text};
use vstd::prelude::*;

verus! {

/// Mathematical form of a log's state.
pub struct LogView {
    /// Identifier of the ATM that writes the log.
    pub atm: Seq<char>,
    /// Number of the last event written; zero before the first.
    pub sequence: u64,
    /// Whether the console shows JSON lines.
    pub json: bool,
    /// Highest hop that the console shows, if limited.
    pub console_hop_limit: Option<u64>,
}

/// Whether an event with `hop` is shown on a console limited to `limit`: events
/// without hop always are.
pub open spec fn console_shows(limit: Option<u64>, hop: Option<u64>) -> bool {
    !(limit matches Some(l) && hop matches Some(h) && h > l)
}

/// Readable label of an event name; unknown names are shown as they are.
pub open spec fn event_label_text(event: Seq<char>) -> Seq<char> {
    if event == "node_ready"@ {
        "PRONTO"@
    } else if event == "token_created"@ {
        "TOKEN CREATO"@
    } else if event == "token_received"@ {
        "TOKEN RICEVUTO"@
    } else if event == "token_forwarding"@ {
        "INVIO TOKEN"@
    } else if event == "token_forwarded"@ {
        "TOKEN INVIATO"@
    } else if event == "transaction_started"@ {
        "INIZIO TRANSAZIONE"@
    } else if event == "transaction_finished"@ {
        "FINE TRANSAZIONE"@
    } else if event == "message_rejected"@ {
        "MESSAGGIO RIFIUTATO"@
    } else if event == "token_rejected"@ {
        "TOKEN RIFIUTATO"@
    } else {
        event
    }
}

/// Readable label of an operation kind as the log records it.
pub open spec fn operation_label_text(kind: Option<Seq<char>>) -> Seq<char> {
    match kind {
        Some(k) => if k == "Deposit"@ {
            "Deposito"@
        } else if k == "Withdrawal"@ {
            "Prelievo"@
        } else {
            "Operazione sconosciuta"@
        },
        None => "Operazione sconosciuta"@,
    }
}

/// A number shown on the console, or `-` when absent.
pub open spec fn optional_text(v: Option<int>) -> Seq<char> {
    match v {
        Some(x) => int_text(x),
        None => "-"@,
    }
}

/// The console line that opens an event: ATM, label, hop and balance.
pub open spec fn header_text(atm: Seq<char>, event: Seq<char>, hop: Option<u64>, balance: Option<
    i64,
>) -> Seq<char> {
    "["@ + atm + "] "@ + event_label_text(event) + "  hop="@ + optional_text(
        match hop {
            Some(h) => Some(h as int),
            None => None,
        },
    ) + "  saldo="@ + optional_text(
        match balance {
            Some(b) => Some(b as int),
            None => None,
        },
    )
}

/// What the console shows of a recorded outcome, as the texts of its fields.
#[derive(Clone, Debug, PartialEq, Eq)]
pub struct EOutcomeDetail {
    /// The operation kind, when it is a string (`Deposit`, `Withdrawal`).
    pub kind: Option<String>,
    /// The amount, as JSON text.
    pub amount: String,
    /// The balance before the attempt, as JSON text.
    pub previous_balance: String,
    /// The balance after the attempt, as JSON text.
    pub new_balance: String,
    /// Whether the status is `Completed`.
    pub completed: bool,
    /// The reason of a refusal, when it is a string.
    pub reason: Option<String>,
}

/// What the console shows of an event's detail, as the texts of its fields.
#[derive(Clone, Debug, PartialEq, Eq)]
pub struct ELogDetail {
    /// The recorded outcome, when the detail has one.
    pub outcome: Option<EOutcomeDetail>,
    /// The kind of the request started, when it is a string.
    pub transaction_kind: Option<String>,
    /// The amount of the request started, as JSON text.
    pub transaction_amount: String,
    /// The listening address, when it is a string.
    pub bind: Option<String>,
    /// The successor's address, when it is a string.
    pub successor: Option<String>,
    /// The process id, as JSON text.
    pub pid: String,
    /// The number of queued requests, as JSON text.
    pub pending: String,
    /// The reason of a refusal, when it is a string.
    pub reason: Option<String>,
}

/// The view of an optional text.
pub open spec fn opt_view(s: Option<String>) -> Option<Seq<char>> {
    match s {
        Some(t) => Some(t@),
        None => None,
    }
}

/// An optional text, or `fallback` when absent.
pub open spec fn or_text(s: Option<Seq<char>>, fallback: Seq<char>) -> Seq<char> {
    match s {
        Some(t) => t,
        None => fallback,
    }
}

/// Whether an event name ends with `rejected`.
pub open spec fn is_rejection_event(event: Seq<char>) -> bool {
    event.len() >= 8 && event.skip(event.len() - 8) == "rejected"@
}

/// The console line of a recorded outcome.
pub open spec fn outcome_line_text(o: EOutcomeDetail) -> Seq<char> {
    "  "@ + operation_label_text(opt_view(o.kind)) + " "@ + o.amount@ + ": "@
        + o.previous_balance@ + " -> "@ + o.new_balance@ + " ("@ + (if o.completed {
        "COMPLETATA"@
    } else {
        "RIFIUTATA: "@ + or_text(opt_view(o.reason), "motivo non disponibile"@)
    }) + ")"@
}

/// The console lines that follow an event's opening line: the outcome when the
/// detail has one, otherwise the request started, the node's addresses at start,
/// or the reason of a refusal.
pub open spec fn detail_lines_text(event: Seq<char>, d: ELogDetail) -> Seq<Seq<char>> {
    match d.outcome {
        Some(o) => seq![outcome_line_text(o)],
        None => if event == "transaction_started"@ {
            seq!["  "@ + operation_label_text(opt_view(d.transaction_kind)) + " "@ + d.transaction_amount@]
        } else if event == "node_ready"@ {
            seq![
                "  ascolto="@ + or_text(opt_view(d.bind), "-"@) + " successore="@ + or_text(
                    opt_view(d.successor),
                    "-"@,
                ),
                "  PID="@ + d.pid@ + " richieste in coda="@ + d.pending@,
            ]
        } else if is_rejection_event(event) {
            seq!["  motivo: "@ + or_text(opt_view(d.reason), "motivo non disponibile"@)]
        } else {
            Seq::empty()
        },
    }
}

/// State of a node's event log: the numbering of its events and what the console
/// shows. Writing the records belongs to the program.
pub struct CLog {
    atm: String,
    sequence: u64,
    json: bool,
    console_hop_limit: Option<u64>,
}

impl View for CLog {
    type V = LogView;

    closed spec fn view(&self) -> LogView {
        LogView {
            atm: self.atm@,
            sequence: self.sequence,
            json: self.json,
            console_hop_limit: self.console_hop_limit,
        }
    }
}

impl CLog {
    /// A log for `atm`, numbering from zero; `json` selects JSON lines on the console.
    pub fn new(atm: &str, json: bool) -> (r: CLog)
        ensures
            r@ == (LogView { atm: atm@, sequence: 0, json, console_hop_limit: None }),
    {
        CLog { atm: String::from_str(atm), sequence: 0, json, console_hop_limit: None }
    }

    /// Limits what the console shows to events up to hop `limit`; the audit file
    /// still receives every event.
    pub fn with_console_hop_limit(self, limit: Option<u64>) -> (r: CLog)
        ensures
            r@ == (LogView { console_hop_limit: limit, ..self@ }),
    {
        CLog { console_hop_limit: limit, ..self }
    }

    /// Identifier of the ATM that writes the log.
    pub fn atm(&self) -> (r: &str)
        ensures
            r@ == self@.atm,
    {
        self.atm.as_str()
    }

    /// Whether the console shows JSON lines.
    pub fn json(&self) -> (r: bool)
        ensures
            r == self@.json,
    {
        self.json
    }

    /// Numbers the next event: one more than the last.
    ///
    /// Returns `None`, leaving the log as it was, when the numbering is exhausted.
    pub fn next_sequence(&mut self) -> (r: Option<u64>)
        ensures
            old(self)@.sequence < u64::MAX ==> r == Some((old(self)@.sequence + 1) as u64)
                && final(self)@ == (LogView {
                sequence: (old(self)@.sequence + 1) as u64,
                ..old(self)@
            }),
            old(self)@.sequence == u64::MAX ==> r is None && final(self)@ == old(self)@,
    {
        match self.sequence.checked_add(1) {
            Some(s) => {
                self.sequence = s;
                Some(s)
            },
            None => None,
        }
    }

    /// Whether the console shows an event with `hop`.
    pub fn shows_on_console(&self, hop: Option<u64>) -> (r: bool)
        ensures
            r == console_shows(self@.console_hop_limit, hop),
    {
        match (self.console_hop_limit, hop) {
            (Some(limit), Some(h)) => h <= limit,
            _ => true,
        }
    }

    /// The readable label of an event name, shared by the local console and the
    /// copies received over UDP.
    pub fn event_label(event: &str) -> (r: &str)
        ensures
            r@ == event_label_text(event@),
    {
        if str_eq(event, "node_ready") {
            "PRONTO"
        } else if str_eq(event, "token_created") {
            "TOKEN CREATO"
        } else if str_eq(event, "token_received") {
            "TOKEN RICEVUTO"
        } else if str_eq(event, "token_forwarding") {
            "INVIO TOKEN"
        } else if str_eq(event, "token_forwarded") {
            "TOKEN INVIATO"
        } else if str_eq(event, "transaction_started") {
            "INIZIO TRANSAZIONE"
        } else if str_eq(event, "transaction_finished") {
            "FINE TRANSAZIONE"
        } else if str_eq(event, "message_rejected") {
            "MESSAGGIO RIFIUTATO"
        } else if str_eq(event, "token_rejected") {
            "TOKEN RIFIUTATO"
        } else {
            event
        }
    }

    /// The readable label of an operation kind as recorded (`Deposit`, `Withdrawal`).
    pub fn operation_label(kind: Option<&str>) -> (r: &'static str)
        ensures
            r@ == operation_label_text(
                match kind {
                    Some(k) => Some(k@),
                    None => None,
                },
            ),
    {
        match kind {
            Some(k) => if str_eq(k, "Deposit") {
                "Deposito"
            } else if str_eq(k, "Withdrawal") {
                "Prelievo"
            } else {
                "Operazione sconosciuta"
            },
            None => "Operazione sconosciuta",
        }
    }

    /// The console line that opens an event, such as `[ATM1] TOKEN RICEVUTO  hop=4  saldo=400`.
    pub fn console_header(&self, event: &str, hop: Option<u64>, balance: Option<i64>) -> (r:
        String)
        ensures
            r@ == header_text(self@.atm, event@, hop, balance),
    {
        let line = joined(String::from_str("["), self.atm.as_str());
        let line = joined(line, "] ");
        let line = joined(line, Self::event_label(event));
        let line = joined(line, "  hop=");
        let h = match hop {
            Some(h) => u64_text(h),
            None => String::from_str("-"),
        };
        let line = joined(line, h.as_str());
        let line = joined(line, "  saldo=");
        let b = match balance {
            Some(b) => i64_text(b),
            None => String::from_str("-"),
        };
        joined(line, b.as_str())
    }

    /// The console lines that follow an event's opening line.
    pub fn detail_lines(event: &str, detail: &ELogDetail) -> (r: Vec<String>)
        ensures
            r@.map_values(|l: String| l@) == detail_lines_text(event@, *detail),
    {
        let mut lines: Vec<String> = Vec::new();
        match &detail.outcome {
            Some(o) => {
                lines.push(Self::outcome_line(o));
            },
            None => if str_eq(event, "transaction_started") {
                let line = joined(String::from_str("  "), Self::operation_label(as_str(&detail.transaction_kind)));
                let line = joined(line, " ");
                lines.push(joined(line, detail.transaction_amount.as_str()));
            } else if str_eq(event, "node_ready") {
                let line = joined(String::from_str("  ascolto="), or_dash(&detail.bind));
                let line = joined(line, " successore=");
                lines.push(joined(line, or_dash(&detail.successor)));
                let line = joined(String::from_str("  PID="), detail.pid.as_str());
                let line = joined(line, " richieste in coda=");
                lines.push(joined(line, detail.pending.as_str()));
            } else if Self::is_rejection(event) {
                let reason = match &detail.reason {
                    Some(r) => r.as_str(),
                    None => "motivo non disponibile",
                };
                lines.push(joined(String::from_str("  motivo: "), reason));
            },
        }
        proof {
            assert(lines@.map_values(|l: String| l@) =~= detail_lines_text(event@, *detail));
        }
        lines
    }

    /// The console line of a recorded outcome, such as
    /// `  Prelievo 200: 1000 -> 800 (COMPLETATA)`.
    fn outcome_line(o: &EOutcomeDetail) -> (r: String)
        ensures
            r@ == outcome_line_text(*o),
    {
        let line = joined(String::from_str("  "), Self::operation_label(as_str(&o.kind)));
        let line = joined(line, " ");
        let line = joined(line, o.amount.as_str());
        let line = joined(line, ": ");
        let line = joined(line, o.previous_balance.as_str());
        let line = joined(line, " -> ");
        let line = joined(line, o.new_balance.as_str());
        let line = joined(line, " (");
        let line = if o.completed {
            joined(line, "COMPLETATA")
        } else {
            let reason = match &o.reason {
                Some(r) => r.as_str(),
                None => "motivo non disponibile",
            };
            let status = joined(String::from_str("RIFIUTATA: "), reason);
            joined(line, status.as_str())
        };
        joined(line, ")")
    }

    /// Whether an event name ends with `rejected`.
    fn is_rejection(event: &str) -> (r: bool)
        ensures
            r == is_rejection_event(event@),
    {
        let n = chars_of(event).len();
        if n < 8 {
            return false;
        }
        str_eq(event.substring_char(n - 8, n), "rejected")
    }
}

/// The text of an optional string, as a slice.
fn as_str(s: &Option<String>) -> (r: Option<&str>)
    ensures
        match r {
            Some(t) => opt_view(*s) == Some(t@),
            None => s is None,
        },
{
    match s {
        Some(t) => Some(t.as_str()),
        None => None,
    }
}

/// An optional text, or `-` when absent.
fn or_dash(s: &Option<String>) -> (r: &str)
    ensures
        r@ == or_text(opt_view(*s), "-"@),
{
    match s {
        Some(t) => t.as_str(),
        None => "-",
    }
}

/// The names of the events that the log knows.
pub open spec fn known_events() -> Seq<Seq<char>> {
    seq![
        "node_ready"@,
        "token_created"@,
        "token_received"@,
        "token_forwarding"@,
        "token_forwarded"@,
        "transaction_started"@,
        "transaction_finished"@,
        "message_rejected"@,
        "token_rejected"@,
    ]
}

/// Each known event is shown with its own readable label: start-up as `PRONTO`, the
/// start of a transaction as `INIZIO TRANSAZIONE`, its end as `FINE TRANSAZIONE`, and
/// so on; distinct known events get distinct labels, and any other name is shown as
/// it is.
pub proof fn lemma_event_labels()
    ensures
        event_label_text("node_ready"@) == "PRONTO"@,
        event_label_text("token_created"@) == "TOKEN CREATO"@,
        event_label_text("token_received"@) == "TOKEN RICEVUTO"@,
        event_label_text("token_forwarding"@) == "INVIO TOKEN"@,
        event_label_text("token_forwarded"@) == "TOKEN INVIATO"@,
        event_label_text("transaction_started"@) == "INIZIO TRANSAZIONE"@,
        event_label_text("transaction_finished"@) == "FINE TRANSAZIONE"@,
        event_label_text("message_rejected"@) == "MESSAGGIO RIFIUTATO"@,
        event_label_text("token_rejected"@) == "TOKEN RIFIUTATO"@,
        forall|i: int, j: int|
            0 <= i < 9 && 0 <= j < 9 && i != j ==> event_label_text(#[trigger] known_events()[i])
                != event_label_text(#[trigger] known_events()[j]),
        forall|e: Seq<char>| !known_events().contains(e) ==> event_label_text(e) == e,
{
    reveal_strlit("node_ready");
    reveal_strlit("token_created");
    reveal_strlit("token_received");
    reveal_strlit("token_forwarding");
    reveal_strlit("token_forwarded");
    reveal_strlit("transaction_started");
    reveal_strlit("transaction_finished");
    reveal_strlit("message_rejected");
    reveal_strlit("token_rejected");
    reveal_strlit("PRONTO");
    reveal_strlit("TOKEN CREATO");
    reveal_strlit("TOKEN RICEVUTO");
    reveal_strlit("INVIO TOKEN");
    reveal_strlit("TOKEN INVIATO");
    reveal_strlit("INIZIO TRANSAZIONE");
    reveal_strlit("FINE TRANSAZIONE");
    reveal_strlit("MESSAGGIO RIFIUTATO");
    reveal_strlit("TOKEN RIFIUTATO");
    assert("node_ready"@.len() == 10);
    assert("token_created"@.len() == 13);
    assert("token_received"@.len() == 14);
    assert("token_forwarding"@.len() == 16);
    assert("token_forwarded"@.len() == 15);
    assert("transaction_started"@.len() == 19);
    assert("transaction_finished"@.len() == 20);
    assert("message_rejected"@.len() == 16);
    assert("token_rejected"@.len() == 14);
    assert("PRONTO"@.len() == 6);
    assert("TOKEN CREATO"@.len() == 12);
    assert("TOKEN RICEVUTO"@.len() == 14);
    assert("INVIO TOKEN"@.len() == 11);
    assert("TOKEN INVIATO"@.len() == 13);
    assert("INIZIO TRANSAZIONE"@.len() == 18);
    assert("FINE TRANSAZIONE"@.len() == 16);
    assert("MESSAGGIO RIFIUTATO"@.len() == 19);
    assert("TOKEN RIFIUTATO"@.len() == 15);
    assert("token_received"@[8] != "token_rejected"@[8]);
    assert("token_forwarding"@[0] != "message_rejected"@[0]);
    assert forall|e: Seq<char>| !known_events().contains(e) implies event_label_text(e) == e by {
        assert(known_events()[0] == "node_ready"@);
        assert(known_events()[1] == "token_created"@);
        assert(known_events()[2] == "token_received"@);
        assert(known_events()[3] == "token_forwarding"@);
        assert(known_events()[4] == "token_forwarded"@);
        assert(known_events()[5] == "transaction_started"@);
        assert(known_events()[6] == "transaction_finished"@);
        assert(known_events()[7] == "message_rejected"@);
        assert(known_events()[8] == "token_rejected"@);
    }
}

} // verus!
