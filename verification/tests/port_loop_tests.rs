use iclock_sync::company_config::{last_connection_time, CompanyConfiguration, Iclock};
use iclock_sync::iclock_models::{DataItem, TokenAuthResponse, TransactionResponse};
use iclock_sync::port_loop::{widened_window, PortAction, PortEvent, PortWorker, Reply, Stage};

const NOW: i64 = 1_700_000_000; // 2023-11-14 17:13:20 in Lima

fn iclock(serial: &str, last: Option<&str>, status: bool) -> Iclock {
    Iclock {
        ip: "10.0.0.5".to_string(),
        port: 8081,
        serialNumber: serial.to_string(),
        nameDispo: None,
        messageError: None,
        status,
        lastConnectionTime: last.map(|s| s.to_string()),
    }
}

fn company(iclocks: Vec<Iclock>, interval: u64) -> CompanyConfiguration {
    CompanyConfiguration {
        idCompany: "C1".to_string(),
        ruc: "20123456789".to_string(),
        razonSocial: "ACME".to_string(),
        iclocks,
        status: true,
        timeConfig: interval,
    }
}

fn item(code: &str, state: &str, time: &str) -> DataItem {
    DataItem {
        id: 1,
        emp: None,
        emp_code: code.to_string(),
        first_name: None,
        last_name: None,
        department: None,
        position: None,
        punch_time: time.to_string(),
        punch_state: state.to_string(),
        punch_state_display: String::new(),
        verify_type: 1,
        verify_type_display: None,
        work_code: None,
        gps_location: None,
        area_alias: None,
        terminal_sn: "SN1".to_string(),
        is_mask: None,
        terminal_alias: None,
        upload_time: time.to_string(),
    }
}

fn page(items: Vec<DataItem>) -> TransactionResponse {
    TransactionResponse { count: items.len() as u32, next: None, previous: None, msg: String::new(), code: 0, data: items }
}

fn worker() -> PortWorker {
    PortWorker::new(8081, "SN1".to_string(), "C1".to_string(), "20123456789".to_string())
}

fn to_transactions(w: &mut PortWorker, c: CompanyConfiguration) -> PortAction {
    match w.step(PortEvent::Clock { now: NOW }) {
        PortAction::FetchCompany { id_company } => assert_eq!(id_company, "C1"),
        _ => panic!("expected FetchCompany"),
    }
    w.step(PortEvent::CompanyFetched { company: Some(c) })
}

#[test]
fn new_worker_is_fresh() {
    let w = worker();
    assert_eq!(w.jwt, None);
    assert_eq!(w.time_config, 1);
    assert!(matches!(w.stage, Stage::Idle));
}

#[test]
fn full_round_forwards_punches_and_sleeps() {
    let mut w = worker();
    match to_transactions(&mut w, company(vec![iclock("SN1", Some(""), true)], 60)) {
        PortAction::FetchTransactions { jwt, port, serial_number, time_config } => {
            assert_eq!(jwt, None);
            assert_eq!(port, 8081);
            assert_eq!(serial_number, "SN1");
            assert_eq!(time_config, 1);
        }
        _ => panic!("expected FetchTransactions"),
    }
    let items = vec![item("E1", "0", "2023-11-14 17:10:00"), item("E2", "x", "2023-11-14 17:11:00"), item("E3", "+5", "t")];
    let action = w.step(PortEvent::TransactionsFetched { outcome: Reply::Answered { status: 200, body: Some(page(items)) } });
    match action {
        PortAction::Report { marks, connection } => {
            assert_eq!(marks.len(), 3);
            assert_eq!(marks[0].identityNumber, "E1");
            assert_eq!(marks[0].statusMark, 0);
            assert_eq!(marks[0].timestamp, "2023-11-14 17:10:00");
            assert_eq!(marks[1].statusMark, 0);
            assert_eq!(marks[2].statusMark, 5);
            for m in &marks {
                assert_eq!(m.ruc, "20123456789");
                assert_eq!(m.idCompany, "C1");
                assert_eq!(m.address, "");
                assert_eq!(m.model, "SN1");
            }
            assert!(connection.connectionStatus);
            assert_eq!(connection.lastConnectionTime, "2023-11-14 17:13:20");
            assert_eq!(connection.messageError, "");
            assert_eq!(connection.serialNumber, "SN1");
        }
        _ => panic!("expected Report"),
    }
    assert_eq!(w.time_config, 1);
    assert!(matches!(w.step(PortEvent::Reported), PortAction::Sleep { seconds: 60 }));
    assert!(matches!(w.step(PortEvent::Woke), PortAction::ReadClock));
    assert!(matches!(w.stage, Stage::Idle));
}

#[test]
fn punch_state_parsing_matches_u8_rules() {
    let mut w = worker();
    to_transactions(&mut w, company(vec![], 60));
    let items = vec![item("A", "255", "t"), item("B", "256", "t"), item("C", "", "t"), item("D", "-1", "t"), item("E", " 1", "t"), item("F", "+", "t")];
    match w.step(PortEvent::TransactionsFetched { outcome: Reply::Answered { status: 200, body: Some(page(items)) } }) {
        PortAction::Report { marks, .. } => {
            let states: Vec<u8> = marks.iter().map(|m| m.statusMark).collect();
            assert_eq!(states, vec![255, 0, 0, 0, 0, 0]);
        }
        _ => panic!("expected Report"),
    }
}

#[test]
fn catch_up_widens_window_after_long_silence() {
    let mut w = worker();
    // Last seen 133 minutes before the round's clock; interval 300 s allows 6 minutes.
    match to_transactions(&mut w, company(vec![iclock("SN1", Some("2023-11-14 15:00:00"), true)], 300)) {
        PortAction::FetchTransactions { time_config, .. } => assert_eq!(time_config, 133),
        _ => panic!("expected FetchTransactions"),
    }
    assert_eq!(w.time_config, 133);
}

#[test]
fn catch_up_keeps_window_after_short_silence() {
    let mut w = worker();
    match to_transactions(&mut w, company(vec![iclock("SN1", Some("2023-11-14 17:10:00"), true)], 300)) {
        PortAction::FetchTransactions { time_config, .. } => assert_eq!(time_config, 1),
        _ => panic!("expected FetchTransactions"),
    }
}

#[test]
fn catch_up_ignores_other_terminals() {
    let mut w = worker();
    let list = vec![iclock("SN2", Some("2023-11-14 10:00:00"), true), iclock("SN1", None, true)];
    match to_transactions(&mut w, company(list, 300)) {
        PortAction::FetchTransactions { time_config, .. } => assert_eq!(time_config, 1),
        _ => panic!("expected FetchTransactions"),
    }
}

#[test]
fn unreadable_last_connection_halts() {
    let mut w = worker();
    assert!(matches!(to_transactions(&mut w, company(vec![iclock("SN1", Some("yesterday"), true)], 60)), PortAction::Halt));
    assert!(matches!(w.step(PortEvent::Woke), PortAction::Halt));
    assert!(matches!(w.step(PortEvent::Clock { now: NOW }), PortAction::Halt));
}

#[test]
fn last_connection_lookup_takes_last_match() {
    let list = vec![iclock("SN1", Some("a"), true), iclock("SN2", Some("b"), true), iclock("SN1", Some("c"), false)];
    assert_eq!(last_connection_time(&list, &"SN1".to_string()).as_deref(), Some("c"));
    assert_eq!(last_connection_time(&list, &"SN2".to_string()).as_deref(), Some("b"));
    assert_eq!(last_connection_time(&list, &"SN9".to_string()).as_deref(), Some(""));
    let none = vec![iclock("SN1", None, true)];
    assert_eq!(last_connection_time(&none, &"SN1".to_string()), None);
}

#[test]
fn config_failure_restarts_round_without_sleep() {
    let mut w = worker();
    w.step(PortEvent::Clock { now: NOW });
    assert!(matches!(w.step(PortEvent::CompanyFetched { company: None }), PortAction::ReadClock));
    assert!(matches!(w.stage, Stage::Idle));
}

#[test]
fn unauthorized_renews_token_then_sleeps() {
    let mut w = worker();
    to_transactions(&mut w, company(vec![], 30));
    assert!(matches!(
        w.step(PortEvent::TransactionsFetched { outcome: Reply::Answered { status: 401, body: None } }),
        PortAction::RenewToken { port: 8081 }
    ));
    let answer = Reply::Answered { status: 200, body: Some(TokenAuthResponse { token: Some("new".to_string()) }) };
    assert!(matches!(w.step(PortEvent::TokenFetched { answer }), PortAction::Sleep { seconds: 30 }));
    assert_eq!(w.jwt.as_deref(), Some("new"));
    w.step(PortEvent::Woke);
    match to_transactions(&mut w, company(vec![], 30)) {
        PortAction::FetchTransactions { jwt, .. } => assert_eq!(jwt.as_deref(), Some("new")),
        _ => panic!("expected FetchTransactions"),
    }
}

#[test]
fn failed_renewal_keeps_token() {
    let mut w = worker();
    to_transactions(&mut w, company(vec![], 30));
    w.step(PortEvent::TransactionsFetched { outcome: Reply::Answered { status: 401, body: None } });
    let answer: Reply<TokenAuthResponse> = Reply::Answered { status: 400, body: None };
    assert!(matches!(w.step(PortEvent::TokenFetched { answer }), PortAction::Sleep { seconds: 30 }));
    assert_eq!(w.jwt, None);
}

#[test]
fn transport_failure_reports_offline() {
    let mut w = worker();
    to_transactions(&mut w, company(vec![], 45));
    match w.step(PortEvent::TransactionsFetched { outcome: Reply::Failed { message: "connection refused".to_string() } }) {
        PortAction::Report { marks, connection } => {
            assert!(marks.is_empty());
            assert!(!connection.connectionStatus);
            assert_eq!(connection.messageError, "connection refused");
            assert_eq!(connection.lastConnectionTime, "");
        }
        _ => panic!("expected Report"),
    }
    assert_eq!(w.time_config, 2);
    assert!(matches!(w.step(PortEvent::Reported), PortAction::Sleep { seconds: 45 }));
}

#[test]
fn unexpected_status_sleeps() {
    let mut w = worker();
    to_transactions(&mut w, company(vec![], 20));
    assert!(matches!(
        w.step(PortEvent::TransactionsFetched { outcome: Reply::Answered { status: 500, body: None } }),
        PortAction::Sleep { seconds: 20 }
    ));
    assert_eq!(w.time_config, 1);
    let mut w2 = worker();
    to_transactions(&mut w2, company(vec![], 20));
    assert!(matches!(
        w2.step(PortEvent::TransactionsFetched { outcome: Reply::Answered { status: 200, body: None } }),
        PortAction::Sleep { seconds: 20 }
    ));
}

#[test]
fn out_of_turn_event_changes_nothing() {
    let mut w = worker();
    assert!(matches!(w.step(PortEvent::Woke), PortAction::Nothing));
    assert!(matches!(w.stage, Stage::Idle));
    assert!(matches!(w.step(PortEvent::Reported), PortAction::Nothing));
}

#[test]
fn unrepresentable_clock_halts() {
    let mut w = worker();
    assert!(matches!(w.step(PortEvent::Clock { now: i64::MAX }), PortAction::Halt));
    assert!(matches!(w.stage, Stage::Halted));
}

#[test]
fn window_widens_only_past_interval_plus_one_minute() {
    // interval 300 s: 300 / 60 + 1 = 6 minutes.
    assert_eq!(widened_window(1, 7, 300), 7);
    assert_eq!(widened_window(1, 6, 300), 1);
    assert_eq!(widened_window(2, -5, 300), 2);
    // interval 59 s: 0 + 1 = 1 minute.
    assert_eq!(widened_window(1, 2, 59), 2);
    assert_eq!(widened_window(9, 1, 59), 9);
    assert_eq!(widened_window(1, i64::MAX, u64::MAX), i64::MAX);
}
