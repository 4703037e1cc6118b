//! Concrete cases of the library's rules: identifiers, token route, transactions,
//! account content, frames, logs and UDP routing.

use app_atm::bridge::b_tcp::EFrameError;
use app_atm::control::c_log::{ELogDetail, EOutcomeDetail};
use app_atm::control::c_udp::ERemoteRecord;
use app_atm::text::{i64_text, parse_i64, trim, u64_text, EIntErrorKind};
use app_atm::{
    BAccount, BTcp, CAtm, CConfig, CLog, CMessage, CNode, CToken, CTransaction, CUdpRoute, EAtm,
    ESocketAddr, EToken, ETransaction, EVisitDecision, EnumTransactionKind,
    EnumTransactionStatus,
};

fn atm(id: &str) -> EAtm {
    CAtm::build(id).unwrap()
}

#[test]
fn aliases_are_trimmed_and_case_insensitive() {
    assert_eq!(atm(" atm3 ").id, "ATM3");
    assert_eq!(atm("\t4\n").id, "ATM4");
    assert_eq!(atm("Atm1").id, "ATM1");
    assert_eq!(
        CAtm::build("ATM01").unwrap_err(),
        "identificativo '01' non valido: atteso un numero da 1 a 4"
    );
    assert_eq!(
        CAtm::build(" garbage ").unwrap_err(),
        "identificativo 'GARBAGE' non valido: atteso un numero da 1 a 4"
    );
    assert_eq!(
        CAtm::build("ATM").unwrap_err(),
        "identificativo '' non valido: atteso un numero da 1 a 4"
    );
}

#[test]
fn index_refuses_non_canonical_identifiers_with_the_number_text() {
    assert_eq!(
        CAtm::index(&EAtm { id: "ATM5".into() }).unwrap_err(),
        "identificativo '5' non valido: atteso un numero da 1 a 4"
    );
    assert_eq!(
        CAtm::index(&EAtm { id: "atm1".into() }).unwrap_err(),
        "identificativo '' non valido: atteso un numero da 1 a 4"
    );
    assert_eq!(CAtm::index(&atm("ATM3")).unwrap(), 2);
}

#[test]
fn four_successor_steps_return_to_the_start() {
    for start in ["ATM1", "ATM2", "ATM3", "ATM4"] {
        let mut current = atm(start);
        for _ in 0..4 {
            current = CAtm::successor(&current).unwrap();
        }
        assert_eq!(current.id, start);
    }
}

#[test]
fn token_validation_messages() {
    let mut token = CToken::create_initial(-1);
    assert_eq!(
        CToken::validate(&token).unwrap_err(),
        "il saldo del token deve essere non negativo"
    );
    token.balance = 5;
    token.hop = u64::MAX;
    assert_eq!(
        CToken::validate(&token).unwrap_err(),
        "contatore dei passaggi del token esaurito"
    );
    token.hop = 3;
    token.last_holder = Some(EAtm { id: "ATM9".into() });
    assert_eq!(
        CToken::validate(&token).unwrap_err(),
        "identificativo '9' non valido: atteso un numero da 1 a 4"
    );
}

#[test]
fn route_validation_messages() {
    let atm1 = atm("ATM1");
    let atm2 = atm("ATM2");
    let mut token = CToken::create_initial(1000);
    assert_eq!(
        CToken::validate_route(&token, &atm2, 0).unwrap_err(),
        "hop del token inatteso 0, atteso 0"
    );
    assert_eq!(
        CToken::validate_route(&token, &atm1, 4).unwrap_err(),
        "hop del token inatteso 0, atteso 4"
    );
    token.last_holder = Some(atm("ATM4"));
    assert_eq!(
        CToken::validate_route(&token, &atm1, 0).unwrap_err(),
        "il token iniziale non deve avere un precedente possessore"
    );
    token.hop = 1;
    assert_eq!(
        CToken::validate_route(&token, &atm2, 1).unwrap_err(),
        "il precedente possessore non corrisponde al percorso dell’anello"
    );
    token.last_holder = None;
    assert!(CToken::validate_route(&token, &atm2, 1).is_err());
}

#[test]
fn refused_marking_leaves_the_token_unchanged() {
    let mut token = CToken::create_initial(-5);
    let before = token.clone();
    assert!(CToken::mark_processed_by(&mut token, &atm("ATM1")).is_err());
    assert_eq!(token, before);
    let mut token = CToken::create_initial(5);
    let before = token.clone();
    assert_eq!(
        CToken::mark_processed_by(&mut token, &EAtm { id: "ATM0".into() }).unwrap_err(),
        "identificativo '0' non valido: atteso un numero da 1 a 4"
    );
    assert_eq!(token, before);
}

#[test]
fn processed_token_is_the_visit_the_successor_expects() {
    let mut nodes: Vec<CNode> = (1..=4)
        .map(|i| CNode::new(atm(&i.to_string()), vec![CTransaction::deposit(i).unwrap()]))
        .collect();
    let mut token = CToken::create_initial(0);
    for hop in 0..12u64 {
        let node = &mut nodes[(hop % 4) as usize];
        CToken::validate_route(&token, node.atm(), hop).unwrap();
        let successor = CAtm::successor(node.atm()).unwrap();
        token = node.process_token(token).unwrap().token;
        assert!(CToken::validate_route(&token, &successor, hop + 1).is_ok());
        for other in 1..=4 {
            let other = atm(&other.to_string());
            if other != successor {
                assert!(CToken::validate_route(&token, &other, hop + 1).is_err());
            }
        }
    }
    assert_eq!(token.balance, 10);
}

#[test]
fn refused_visit_keeps_queue_and_history() {
    let mut node = CNode::new(
        EAtm { id: "ATM7".into() },
        vec![CTransaction::deposit(1).unwrap()],
    );
    assert_eq!(
        node.process_token(CToken::create_initial(10)).unwrap_err(),
        "identificativo '7' non valido: atteso un numero da 1 a 4"
    );
    assert_eq!(node.pending_len(), 1);
    assert!(node.completed().is_empty());
    assert_eq!(node.id(), "ATM7");
}

#[test]
fn rejected_attempt_is_consumed_and_recorded() {
    let mut node = CNode::new(
        atm("ATM3"),
        vec![CTransaction::withdrawal(50).unwrap(), CTransaction::deposit(7).unwrap()],
    );
    assert_eq!(
        node.next_transaction(),
        Some(&ETransaction { kind: EnumTransactionKind::Withdrawal, amount: 50 })
    );
    let report = node.process_token(CToken::create_initial(10)).unwrap();
    assert_eq!(report.received_balance, 10);
    assert_eq!(report.forwarded_balance, 10);
    assert_eq!(report.remaining_pending, 1);
    assert!(!CTransaction::is_completed(report.outcome.as_ref().unwrap()));
    assert_eq!(node.completed().len(), 1);
    assert_eq!(node.completed()[0], report.outcome.clone().unwrap());
    assert_eq!(node.state().pending.len(), 1);
    let report = node.process_token(report.token).unwrap();
    assert_eq!(report.forwarded_balance, 17);
    assert_eq!(node.next_transaction(), None);
}

#[test]
fn rejection_reasons_are_exact() {
    let a = atm("ATM1");
    let (_, o) = CTransaction::apply(&a, 500, CTransaction::withdrawal(501).unwrap());
    assert_eq!(
        o.status,
        EnumTransactionStatus::Rejected {
            reason: "fondi insufficienti: saldo 500, importo richiesto 501".into()
        }
    );
    let (_, o) = CTransaction::apply(&a, i64::MAX, CTransaction::deposit(1).unwrap());
    assert_eq!(
        o.status,
        EnumTransactionStatus::Rejected {
            reason: "il deposito causerebbe overflow del saldo".into()
        }
    );
    let (_, o) = CTransaction::apply(&a, -3, CTransaction::deposit(1).unwrap());
    assert_eq!(
        o.status,
        EnumTransactionStatus::Rejected {
            reason: "il saldo deve essere non negativo".into()
        }
    );
    let (_, o) = CTransaction::apply(
        &a,
        3,
        ETransaction { kind: EnumTransactionKind::Deposit, amount: 0 },
    );
    assert_eq!(
        o.status,
        EnumTransactionStatus::Rejected {
            reason: "l’importo deve essere positivo".into()
        }
    );
    assert_eq!(
        CTransaction::build(EnumTransactionKind::Deposit, -7).unwrap_err(),
        "l’importo deve essere positivo, ricevuto -7"
    );
}

#[test]
fn deposit_then_withdrawal_of_the_same_amount_restores_the_balance() {
    let a = atm("ATM2");
    for (balance, amount) in [(0i64, 1i64), (1000, 250), (i64::MAX - 9, 9)] {
        let (after, first) = CTransaction::apply(&a, balance, CTransaction::deposit(amount).unwrap());
        assert!(CTransaction::is_completed(&first));
        let (back, second) = CTransaction::apply(&a, after, CTransaction::withdrawal(amount).unwrap());
        assert!(CTransaction::is_completed(&second));
        assert_eq!(back, balance);
    }
}

#[test]
fn request_text_is_read_with_exact_messages() {
    assert_eq!(
        CTransaction::parse(" WD = 5 ").unwrap(),
        ETransaction { kind: EnumTransactionKind::Withdrawal, amount: 5 }
    );
    assert_eq!(
        CTransaction::parse("Dep:+12").unwrap(),
        ETransaction { kind: EnumTransactionKind::Deposit, amount: 12 }
    );
    assert_eq!(
        CTransaction::parse(" deposit ").unwrap_err(),
        "transazione 'deposit' non valida: atteso deposit:100 oppure withdraw:100"
    );
    assert_eq!(
        CTransaction::parse("deposit:1.5").unwrap_err(),
        "importo '1.5' non valido: invalid digit found in string"
    );
    assert_eq!(
        CTransaction::parse("dep:9223372036854775808").unwrap_err(),
        "importo '9223372036854775808' non valido: number too large to fit in target type"
    );
    assert_eq!(
        CTransaction::parse("dep: ").unwrap_err(),
        "importo '' non valido: cannot parse integer from empty string"
    );
    assert_eq!(
        CTransaction::parse("Transfer:20").unwrap_err(),
        "operazione 'transfer' non valida: atteso deposit oppure withdraw"
    );
    assert_eq!(
        CTransaction::parse("withdraw:-1").unwrap_err(),
        "l’importo deve essere positivo, ricevuto -1"
    );
    assert_eq!(
        CTransaction::parse("deposit:1:2").unwrap_err(),
        "importo '1:2' non valido: invalid digit found in string"
    );
    assert_eq!(
        CTransaction::parse("a=b:3").unwrap_err(),
        "operazione 'a=b' non valida: atteso deposit oppure withdraw"
    );
}

#[test]
fn transactions_are_displayed_as_kind_and_amount() {
    assert_eq!(CTransaction::withdrawal(200).unwrap().text(), "withdrawal 200");
    assert_eq!(EnumTransactionKind::Deposit.text(), "deposit");
}

#[test]
fn decimal_text_of_integers() {
    assert_eq!(i64_text(i64::MIN), "-9223372036854775808");
    assert_eq!(i64_text(0), "0");
    assert_eq!(u64_text(u64::MAX), "18446744073709551615");
    assert_eq!(parse_i64("-9223372036854775808"), Ok(i64::MIN));
    assert_eq!(parse_i64("-9223372036854775809"), Err(EIntErrorKind::NegOverflow));
    assert_eq!(parse_i64("+"), Err(EIntErrorKind::InvalidDigit));
    assert_eq!(parse_i64(""), Err(EIntErrorKind::Empty));
    assert_eq!(parse_i64("007"), Ok(7));
    for v in [i64::MIN, -1, 0, 42, i64::MAX] {
        assert_eq!(parse_i64(&i64_text(v)), Ok(v));
        assert_eq!(i64_text(v), v.to_string());
    }
    for text in ["", "+", "-", "+0", "-0", "12a", "a12", "99999999999999999999", "-99999999999999999999x", " 1", "1 ", "١"] {
        assert_eq!(parse_i64(text).ok(), text.parse::<i64>().ok(), "{text}");
    }
    assert_eq!(trim("\u{a0} x \u{3000}"), "x");
}

#[test]
fn account_content_round_trips_and_refuses_bad_files() {
    assert_eq!(BAccount::content(400), "400\n");
    for balance in [0, 400, 1000, i64::MAX] {
        let content = BAccount::content(balance);
        assert_eq!(BAccount::parse_content(content.as_bytes()), Ok(balance));
    }
    assert_eq!(BAccount::parse_content(b" 12 \r\n"), Ok(12));
    assert_eq!(
        BAccount::parse_content(b"").unwrap_err(),
        "saldo del file non valido"
    );
    assert_eq!(
        BAccount::parse_content(b"100 200").unwrap_err(),
        "saldo del file non valido"
    );
    assert_eq!(
        BAccount::parse_content(b"-1").unwrap_err(),
        "il saldo non può essere negativo"
    );
    assert_eq!(
        BAccount::parse_content(&[b'0'; 65]).unwrap_err(),
        "file del conto troppo lungo"
    );
    assert_eq!(
        BAccount::parse_content(b"\xff").unwrap_err(),
        "stream did not contain valid UTF-8"
    );
    assert!(BAccount::validate(0).is_ok());
    assert_eq!(
        BAccount::validate(-1).unwrap_err(),
        "il saldo non può essere negativo"
    );
}

#[test]
fn frames_are_bounded_terminated_and_utf8() {
    assert_eq!(BTcp::check_frame(b"token\n"), Ok("token\n".to_string()));
    assert_eq!(BTcp::check_frame(b"token"), Err(EFrameError::Incomplete));
    assert_eq!(BTcp::check_frame(b""), Err(EFrameError::Incomplete));
    assert_eq!(BTcp::check_frame(b"\xff\n"), Err(EFrameError::InvalidUtf8));
    let mut big = vec![b'a'; 4095];
    big.push(b'\n');
    assert!(BTcp::check_frame(&big).is_ok());
    big.insert(0, b'a');
    assert_eq!(BTcp::check_frame(&big), Err(EFrameError::TooLong));
    let framed = CMessage::frame("{\"balance\":1}");
    assert_eq!(framed, "{\"balance\":1}\n");
    assert_eq!(BTcp::check_frame(framed.as_bytes()), Ok(framed.clone()));
}

#[test]
fn decoded_tokens_are_accepted_only_when_valid() {
    let token = EToken { balance: 1, hop: 1, last_holder: Some(atm("ATM1")) };
    assert_eq!(CMessage::accept_decoded(token.clone()), Ok(token));
    let bad = EToken { balance: 1, hop: 1, last_holder: Some(EAtm { id: "ATM9".into() }) };
    assert!(CMessage::accept_decoded(bad).is_err());
}

#[test]
fn configuration_messages_follow_the_order_of_the_checks() {
    let atm1 = atm("ATM1");
    let local = |port| ESocketAddr::v4(127, 0, 0, 1, port);
    assert_eq!(
        CConfig::validate(&atm1, ESocketAddr::v4(127, 0, 0, 2, 1), local(2), true, 0).unwrap_err(),
        "entrambi gli indirizzi devono usare 127.0.0.1"
    );
    assert_eq!(
        CConfig::validate(&atm1, local(5), local(5), true, 0).unwrap_err(),
        "porta locale e porta del successore devono essere non nulle e distinte"
    );
    assert_eq!(
        CConfig::validate(&atm("ATM3"), local(5), local(6), true, 0).unwrap_err(),
        "--initial-token è obbligatorio per ATM1 e vietato per ATM2/ATM3/ATM4"
    );
    assert_eq!(
        CConfig::validate(&atm1, local(5), local(6), true, -1).unwrap_err(),
        "il saldo iniziale deve essere non negativo"
    );
    assert!(BTcp::require_loopback(ESocketAddr::v4(127, 9, 9, 9, 1)).is_ok());
    assert!(BTcp::require_loopback(ESocketAddr::v4(10, 0, 0, 1, 1)).is_err());
}

#[test]
fn log_numbering_console_filter_and_labels() {
    let mut log = CLog::new("ATM1", false).with_console_hop_limit(Some(4));
    assert_eq!(log.next_sequence(), Some(1));
    assert_eq!(log.next_sequence(), Some(2));
    assert!(log.shows_on_console(Some(4)));
    assert!(!log.shows_on_console(Some(5)));
    assert!(log.shows_on_console(None));
    assert_eq!(
        log.console_header("token_received", Some(4), Some(400)),
        "[ATM1] TOKEN RICEVUTO  hop=4  saldo=400"
    );
    assert_eq!(
        log.console_header("custom", None, None),
        "[ATM1] custom  hop=-  saldo=-"
    );
    assert_eq!(CLog::operation_label(Some("Withdrawal")), "Prelievo");
    assert_eq!(CLog::operation_label(None), "Operazione sconosciuta");
}

#[test]
fn udp_routing_of_log_copies() {
    assert_eq!(CUdpRoute::own_port(4, 65532), Ok(65535));
    assert!(CUdpRoute::own_port(0, 6001).is_err());
    assert!(CUdpRoute::own_port(1, 65535).is_err());
    assert_eq!(CUdpRoute::destinations(2, 6001), vec![6001, 6003, 6004]);
    assert!(CUdpRoute::check_datagram(8192).is_ok());
    assert!(CUdpRoute::check_datagram(8193).is_err());
    let record = br#"{"atm":"ATM3","event":"token_received","hop":5,"balance":400}"#;
    let from_atm3 = ESocketAddr::v4(127, 0, 0, 1, 6003);
    let received = CUdpRoute::receive(1, 6001, from_atm3, record, None).unwrap();
    assert_eq!(
        received,
        ERemoteRecord {
            atm: Some("ATM3".into()),
            event: Some("token_received".into()),
            hop: Some(5),
            hop_text: "5".into(),
            balance_text: "400".into(),
        }
    );
    assert_eq!(
        CUdpRoute::console_line(&received),
        "[UDP][ATM3] TOKEN RICEVUTO | hop=5 | saldo=400"
    );
    assert!(CUdpRoute::receive(1, 6001, from_atm3, record, Some(4)).is_none());
    assert!(CUdpRoute::receive(3, 6001, from_atm3, record, None).is_none());
    assert!(CUdpRoute::receive(1, 6001, ESocketAddr::v4(127, 0, 0, 1, 6002), record, None).is_none());
    assert!(CUdpRoute::receive(1, 6001, from_atm3, b"not json", None).is_none());
}

#[test]
fn a_node_admits_its_visits_four_hops_apart() {
    let node = CNode::new(atm("ATM2"), vec![]);
    let mut token = CToken::create_initial(1000);
    CToken::mark_processed_by(&mut token, &atm("ATM1")).unwrap();
    assert_eq!(
        node.admit_visit(&token, 1),
        EVisitDecision::Accepted { next_expected_hop: 5 }
    );
    assert_eq!(
        node.admit_visit(&token, 5),
        EVisitDecision::Rejected { reason: "hop del token inatteso 1, atteso 5".into() }
    );
    token.hop = u64::MAX - 2;
    assert_eq!(node.admit_visit(&token, u64::MAX - 2), EVisitDecision::HopsExhausted);
}

#[test]
fn console_detail_lines_of_events() {
    let empty = ELogDetail {
        outcome: None,
        transaction_kind: None,
        transaction_amount: "null".into(),
        bind: None,
        successor: None,
        pid: "null".into(),
        pending: "null".into(),
        reason: None,
    };
    let finished = ELogDetail {
        outcome: Some(EOutcomeDetail {
            kind: Some("Withdrawal".into()),
            amount: "200".into(),
            previous_balance: "1000".into(),
            new_balance: "800".into(),
            completed: true,
            reason: None,
        }),
        ..empty.clone()
    };
    assert_eq!(
        CLog::detail_lines("transaction_finished", &finished),
        vec!["  Prelievo 200: 1000 -> 800 (COMPLETATA)".to_string()]
    );
    let refused = ELogDetail {
        outcome: Some(EOutcomeDetail {
            completed: false,
            reason: Some("fondi insufficienti".into()),
            ..finished.outcome.clone().unwrap()
        }),
        ..empty.clone()
    };
    assert_eq!(
        CLog::detail_lines("transaction_finished", &refused),
        vec!["  Prelievo 200: 1000 -> 800 (RIFIUTATA: fondi insufficienti)".to_string()]
    );
    let started = ELogDetail {
        transaction_kind: Some("Deposit".into()),
        transaction_amount: "100".into(),
        ..empty.clone()
    };
    assert_eq!(
        CLog::detail_lines("transaction_started", &started),
        vec!["  Deposito 100".to_string()]
    );
    let ready = ELogDetail {
        bind: Some("127.0.0.1:7001".into()),
        pid: "42".into(),
        pending: "2".into(),
        ..empty.clone()
    };
    assert_eq!(
        CLog::detail_lines("node_ready", &ready),
        vec![
            "  ascolto=127.0.0.1:7001 successore=-".to_string(),
            "  PID=42 richieste in coda=2".to_string()
        ]
    );
    assert_eq!(
        CLog::detail_lines("token_rejected", &empty),
        vec!["  motivo: motivo non disponibile".to_string()]
    );
    assert!(CLog::detail_lines("token_received", &empty).is_empty());
}
