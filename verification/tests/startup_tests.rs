use iclock_sync::company_config::{CompanyConfiguration, Iclock};
use iclock_sync::config::Config;
use iclock_sync::port_loop::Stage;
use iclock_sync::startup::{check_settings, workers_for, StartupCheck};

fn config(user: &str, pass: &str, ip: &str, id: &str) -> Config {
    Config {
        id_company: id.to_string(),
        api_key: String::new(),
        iclock_config_path: String::new(),
        domain_time: String::new(),
        ip_server: ip.to_string(),
        usser_biotime: user.to_string(),
        password_biotime: pass.to_string(),
    }
}

fn iclock(port: u16, serial: &str, status: bool) -> Iclock {
    Iclock {
        ip: String::new(),
        port,
        serialNumber: serial.to_string(),
        nameDispo: None,
        messageError: None,
        status,
        lastConnectionTime: None,
    }
}

#[test]
fn settings_checked_in_order() {
    let none: Vec<String> = vec![];
    let one = vec!["C1".to_string()];
    assert_eq!(check_settings(&config("", "", "", ""), &none), StartupCheck::NoCompanies);
    assert_eq!(check_settings(&config("", "p", "ip", "C1"), &one), StartupCheck::MissingCredentials);
    assert_eq!(check_settings(&config("u", "", "ip", "C1"), &one), StartupCheck::MissingCredentials);
    assert_eq!(check_settings(&config("u", "p", "", "C1"), &one), StartupCheck::MissingServer);
    assert_eq!(check_settings(&config("u", "p", "ip", "C1"), &one), StartupCheck::Proceed);
}

#[test]
fn company_ids_from_configured_company() {
    assert_eq!(config("u", "p", "ip", "C1").company_ids(), vec!["C1".to_string()]);
    assert!(config("u", "p", "ip", "").company_ids().is_empty());
}

#[test]
fn workers_only_for_enabled_terminals() {
    let c = CompanyConfiguration {
        idCompany: "C1".to_string(),
        ruc: "R".to_string(),
        razonSocial: String::new(),
        iclocks: vec![iclock(1, "A", true), iclock(2, "B", false), iclock(3, "C", true)],
        status: true,
        timeConfig: 60,
    };
    let ws = workers_for(&c).unwrap();
    assert_eq!(ws.len(), 2);
    assert_eq!((ws[0].port, ws[0].serial_number.as_str()), (1, "A"));
    assert_eq!((ws[1].port, ws[1].serial_number.as_str()), (3, "C"));
    for w in &ws {
        assert_eq!(w.id_company, "C1");
        assert_eq!(w.ruc_company, "R");
        assert_eq!(w.time_config, 1);
        assert!(w.jwt.is_none());
        assert!(matches!(w.stage, Stage::Idle));
    }
}

#[test]
fn company_without_terminals_stops() {
    let c = CompanyConfiguration {
        idCompany: "C1".to_string(),
        ruc: "R".to_string(),
        razonSocial: String::new(),
        iclocks: vec![],
        status: true,
        timeConfig: 60,
    };
    assert!(workers_for(&c).is_none());
    let d = CompanyConfiguration { iclocks: vec![iclock(1, "A", false)], ..c };
    assert_eq!(workers_for(&d).unwrap().len(), 0);
}
