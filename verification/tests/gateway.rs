use iris_ls::connection::globals_query;
use iris_ls::connection::production_operations_query;
use iris_ls::connection::production_processes_query;
use iris_ls::connection::production_services_query;
use iris_ls::connection::productions_query;
use iris_ls::connection::ConnectionManager;
use iris_ls::connection::ConnectionSettings;
use iris_ls::connection::ProductionCatalog;
use iris_ls::connection::ProductionStatus;
use iris_ls::protocol::Conn;
use iris_ls::protocol::Global;
use iris_ls::protocol::Objectscript;
use iris_ls::protocol::Options;
use iris_ls::protocol::Production;
use iris_ls::protocol::ProductionOperation;
use iris_ls::protocol::ProductionProcess;
use iris_ls::protocol::ProductionService;
use std::sync::Arc;

fn conn(active: bool, host: &str, username: &str, password: &str, ns: &str, super_port: u16) -> Conn {
    Conn {
        active: Some(active),
        host: Some(host.to_owned()),
        port: None,
        super_port: Some(super_port),
        ns: Some(ns.to_owned()),
        username: Some(username.to_owned()),
        password: Some(password.to_owned()),
    }
}

fn options_of(conn: Conn) -> Options {
    Options { objectscript: Some(Objectscript { conn: Some(conn) }) }
}

fn activating(host: &str) -> Options {
    options_of(conn(true, host, "u", "p", "USER", 1972))
}

fn gateway() -> ConnectionManager<()> {
    ConnectionManager::new(Arc::new(()))
}

fn active_gateway() -> ConnectionManager<()> {
    let mut gateway = gateway();
    gateway.reparse(&activating("db"));
    gateway
}

fn rows(names: &[&str]) -> Vec<String> {
    names.iter().map(|name| name.to_string()).collect()
}

fn catalog(current: &str, state: i64, names: &[&str]) -> ProductionCatalog {
    ProductionCatalog { current: current.to_owned(), state, names: rows(names) }
}

fn production(id: &str, status: &str) -> Production {
    Production { id: id.to_owned(), status: status.to_owned() }
}

#[test]
fn a_new_gateway_has_no_settings() {
    let gateway = gateway();
    assert_eq!(gateway.settings(), None);
}

#[test]
fn the_gateway_keeps_the_handle_it_was_made_with() {
    let client = Arc::new(5u8);
    let gateway = ConnectionManager::new(Arc::clone(&client));
    assert!(Arc::ptr_eq(gateway.client(), &client));
}

#[test]
fn an_activating_reconfiguration_fills_the_store() {
    let mut gateway = gateway();
    gateway.reparse(&activating("db"));
    assert_eq!(
        gateway.settings(),
        Some(&ConnectionSettings {
            host: "db".to_owned(),
            port: 0,
            super_port: 1972,
            ns: "USER".to_owned(),
            username: "u".to_owned(),
            password: "p".to_owned(),
        })
    );
}

#[test]
fn the_first_activation_sticks() {
    let mut gateway = gateway();
    gateway.reparse(&activating("db"));
    gateway.reparse(&options_of(conn(true, "other", "v", "q", "SYS", 51773)));
    let settings = gateway.settings().unwrap();
    assert_eq!(settings.host, "db");
    assert_eq!(settings.username, "u");
    assert_eq!(settings.password, "p");
    assert_eq!(settings.ns, "USER");
    assert_eq!(settings.super_port, 1972);
}

#[test]
fn the_port_is_carried_along() {
    let mut gateway = gateway();
    let mut wanted = conn(true, "db", "u", "p", "USER", 1972);
    wanted.port = Some(52773);
    gateway.reparse(&options_of(wanted));
    assert_eq!(gateway.settings().unwrap().port, 52773);
    assert_eq!(gateway.settings().unwrap().super_port, 1972);
}

#[test]
fn an_inactive_reconfiguration_writes_nothing() {
    let mut gateway = gateway();
    gateway.reparse(&options_of(conn(false, "db", "u", "p", "USER", 1972)));
    assert_eq!(gateway.settings(), None);
    let mut silent = conn(true, "db", "u", "p", "USER", 1972);
    silent.active = None;
    gateway.reparse(&options_of(silent));
    assert_eq!(gateway.settings(), None);
}

#[test]
fn a_reconfiguration_without_a_host_writes_nothing() {
    let mut gateway = gateway();
    gateway.reparse(&options_of(conn(true, "", "u", "p", "USER", 1972)));
    assert_eq!(gateway.settings(), None);
    let mut absent = conn(true, "db", "u", "p", "USER", 1972);
    absent.host = None;
    gateway.reparse(&options_of(absent));
    assert_eq!(gateway.settings(), None);
}

#[test]
fn a_reconfiguration_without_a_user_writes_nothing() {
    let mut gateway = gateway();
    gateway.reparse(&options_of(conn(true, "db", "", "p", "USER", 1972)));
    assert_eq!(gateway.settings(), None);
    let mut absent = conn(true, "db", "u", "p", "USER", 1972);
    absent.username = None;
    gateway.reparse(&options_of(absent));
    assert_eq!(gateway.settings(), None);
}

#[test]
fn a_reconfiguration_without_a_password_writes_nothing() {
    let mut gateway = gateway();
    gateway.reparse(&options_of(conn(true, "db", "u", "", "USER", 1972)));
    assert_eq!(gateway.settings(), None);
    let mut absent = conn(true, "db", "u", "p", "USER", 1972);
    absent.password = None;
    gateway.reparse(&options_of(absent));
    assert_eq!(gateway.settings(), None);
}

#[test]
fn a_reconfiguration_without_a_namespace_writes_nothing() {
    let mut gateway = gateway();
    gateway.reparse(&options_of(conn(true, "db", "u", "p", "", 1972)));
    assert_eq!(gateway.settings(), None);
    let mut absent = conn(true, "db", "u", "p", "USER", 1972);
    absent.ns = None;
    gateway.reparse(&options_of(absent));
    assert_eq!(gateway.settings(), None);
}

#[test]
fn a_reconfiguration_without_a_super_port_writes_nothing() {
    let mut gateway = gateway();
    gateway.reparse(&options_of(conn(true, "db", "u", "p", "USER", 0)));
    assert_eq!(gateway.settings(), None);
    let mut absent = conn(true, "db", "u", "p", "USER", 1972);
    absent.super_port = None;
    gateway.reparse(&options_of(absent));
    assert_eq!(gateway.settings(), None);
}

#[test]
fn empty_options_write_nothing() {
    let mut gateway = gateway();
    gateway.reparse(&Options::default());
    assert_eq!(gateway.settings(), None);
    gateway.reparse(&Options { objectscript: Some(Objectscript::default()) });
    assert_eq!(gateway.settings(), None);
    gateway.reparse(&options_of(Conn::default()));
    assert_eq!(gateway.settings(), None);
}

#[test]
fn an_inactive_reconfiguration_leaves_a_written_store() {
    let mut gateway = active_gateway();
    gateway.reparse(&options_of(conn(false, "other", "v", "q", "SYS", 1)));
    gateway.reparse(&Options::default());
    gateway.reparse(&options_of(conn(true, "", "", "", "", 0)));
    assert_eq!(gateway.settings().unwrap().host, "db");
    assert_eq!(gateway.settings().unwrap().super_port, 1972);
}

#[test]
fn a_later_activation_fills_a_store_that_stayed_empty() {
    let mut gateway = gateway();
    gateway.reparse(&options_of(conn(false, "first", "u", "p", "USER", 1972)));
    gateway.reparse(&activating("second"));
    gateway.reparse(&activating("third"));
    assert_eq!(gateway.settings().unwrap().host, "second");
}

#[test]
fn state_codes_have_their_names() {
    assert_eq!(ProductionStatus::from_code(1), ProductionStatus::Running);
    assert_eq!(ProductionStatus::from_code(2), ProductionStatus::Stopped);
    assert_eq!(ProductionStatus::from_code(3), ProductionStatus::Suspended);
    assert_eq!(ProductionStatus::from_code(4), ProductionStatus::Troubled);
    assert_eq!(ProductionStatus::from_code(0), ProductionStatus::Unknown);
    assert_eq!(ProductionStatus::from_code(5), ProductionStatus::Unknown);
    assert_eq!(ProductionStatus::from_code(-1), ProductionStatus::Unknown);
    assert_eq!(ProductionStatus::from_code(i64::MAX), ProductionStatus::Unknown);
    assert_eq!(ProductionStatus::from_code(i64::MIN), ProductionStatus::Unknown);
    assert_eq!(ProductionStatus::Running.as_str(), "Running");
    assert_eq!(ProductionStatus::Stopped.as_str(), "Stopped");
    assert_eq!(ProductionStatus::Suspended.as_str(), "Suspended");
    assert_eq!(ProductionStatus::Troubled.as_str(), "Troubled");
    assert_eq!(ProductionStatus::Unknown.as_str(), "Unknown");
}

#[test]
fn only_the_active_production_is_live() {
    let gateway = active_gateway();
    let names = ["Demo.A", "Demo.B", "Demo.C"];
    assert_eq!(
        gateway.productions(Some(catalog("Demo.B", 1, &names))),
        vec![
            production("Demo.A", "Stopped"),
            production("Demo.B", "Running"),
            production("Demo.C", "Stopped"),
        ]
    );
    assert_eq!(
        gateway.productions(Some(catalog("Demo.A", 3, &names))),
        vec![
            production("Demo.A", "Suspended"),
            production("Demo.B", "Stopped"),
            production("Demo.C", "Stopped"),
        ]
    );
    assert_eq!(
        gateway.productions(Some(catalog("Demo.C", 4, &names))),
        vec![
            production("Demo.A", "Stopped"),
            production("Demo.B", "Stopped"),
            production("Demo.C", "Troubled"),
        ]
    );
    assert_eq!(
        gateway.productions(Some(catalog("Demo.C", 9, &names))),
        vec![
            production("Demo.A", "Stopped"),
            production("Demo.B", "Stopped"),
            production("Demo.C", "Unknown"),
        ]
    );
}

#[test]
fn a_stopped_active_production_looks_like_the_others() {
    let gateway = active_gateway();
    let list = gateway.productions(Some(catalog("Demo.B", 2, &["Demo.A", "Demo.B", "Demo.C"])));
    assert_eq!(list.len(), 3);
    assert_eq!(
        list,
        vec![
            production("Demo.A", "Stopped"),
            production("Demo.B", "Stopped"),
            production("Demo.C", "Stopped"),
        ]
    );
}

#[test]
fn without_an_active_production_all_are_stopped() {
    let gateway = active_gateway();
    assert_eq!(
        gateway.productions(Some(catalog("", 1, &["Demo.A", "Demo.B"]))),
        vec![production("Demo.A", "Stopped"), production("Demo.B", "Stopped")]
    );
    assert_eq!(gateway.productions(Some(catalog("Demo.A", 1, &[]))), vec![]);
}

#[test]
fn the_active_production_is_matched_by_its_exact_name() {
    let gateway = active_gateway();
    assert_eq!(
        gateway.productions(Some(catalog("Demo.A", 1, &["demo.a", "Demo.A ", "Demo.A", "Demo.A"]))),
        vec![
            production("demo.a", "Stopped"),
            production("Demo.A ", "Stopped"),
            production("Demo.A", "Running"),
            production("Demo.A", "Running"),
        ]
    );
}

#[test]
fn without_settings_every_operation_reports_nothing() {
    let gateway = gateway();
    assert_eq!(gateway.productions(Some(catalog("Demo.A", 1, &["Demo.A"]))), vec![]);
    assert_eq!(gateway.productions(None), vec![]);
    assert_eq!(gateway.production_services(Some(rows(&["a"]))), vec![]);
    assert_eq!(gateway.production_services(None), vec![]);
    assert_eq!(gateway.production_operations(Some(rows(&["a"]))), vec![]);
    assert_eq!(gateway.production_operations(None), vec![]);
    assert_eq!(gateway.production_processes(Some(rows(&["a"]))), vec![]);
    assert_eq!(gateway.production_processes(None), vec![]);
    assert_eq!(gateway.globals(Some(rows(&["^a"]))), vec![]);
    assert_eq!(gateway.globals(None), vec![]);
}

#[test]
fn without_an_answer_every_operation_reports_nothing() {
    let gateway = active_gateway();
    assert_eq!(gateway.productions(None), vec![]);
    assert_eq!(gateway.production_services(None), vec![]);
    assert_eq!(gateway.production_operations(None), vec![]);
    assert_eq!(gateway.production_processes(None), vec![]);
    assert_eq!(gateway.globals(None), vec![]);
}

#[test]
fn rows_become_records_in_their_order() {
    let gateway = active_gateway();
    assert_eq!(
        gateway.production_services(Some(rows(&["In.File", "In.Http", "In.File"]))),
        vec![
            ProductionService { id: "In.File".to_owned() },
            ProductionService { id: "In.Http".to_owned() },
            ProductionService { id: "In.File".to_owned() },
        ]
    );
    assert_eq!(
        gateway.production_operations(Some(rows(&["Out.B", "Out.A"]))),
        vec![
            ProductionOperation { id: "Out.B".to_owned() },
            ProductionOperation { id: "Out.A".to_owned() },
        ]
    );
    assert_eq!(
        gateway.production_processes(Some(rows(&["Router"]))),
        vec![ProductionProcess { id: "Router".to_owned() }]
    );
    assert_eq!(
        gateway.globals(Some(rows(&["^Ens.Config", "^ERRORS", ""]))),
        vec![
            Global { name: "^Ens.Config".to_owned() },
            Global { name: "^ERRORS".to_owned() },
            Global { name: String::new() },
        ]
    );
    assert_eq!(gateway.production_services(Some(rows(&[]))), vec![]);
    assert_eq!(gateway.globals(Some(rows(&[]))), vec![]);
}

#[test]
fn the_queries_have_their_text() {
    assert_eq!(
        productions_query(),
        "select Name from %Dictionary.ClassDefinition where super = 'Ens.Production' and abstract<>1"
    );
    assert_eq!(
        globals_query(),
        "SELECT DISTINCT '^' || $piece(name,'(',1) Name from %SYS.GlobalQuery_NamespaceList()"
    );
    assert_eq!(
        production_services_query("Demo.Production"),
        "select name from ens_config.item where production='Demo.Production'\n        and \n        classname in (select name from %dictionary.classdefinition where super='Ens.BusinessService')"
    );
    assert_eq!(
        production_operations_query("Demo.Production"),
        "select name from ens_config.item where production='Demo.Production'\n        and \n        classname in (select name from %dictionary.classdefinition where super='Ens.BusinessOperation')"
    );
    assert_eq!(
        production_processes_query("Demo.Production"),
        "select name from ens_config.item where production='Demo.Production'\n        and \n        classname in (select name from %dictionary.classdefinition where super='Ens.BusinessProcess')"
    );
}

#[test]
fn the_production_stands_in_the_query_as_it_was_given() {
    assert_eq!(
        production_services_query(""),
        "select name from ens_config.item where production=''\n        and \n        classname in (select name from %dictionary.classdefinition where super='Ens.BusinessService')"
    );
    assert_eq!(
        production_processes_query("x' or '1'='1"),
        "select name from ens_config.item where production='x' or '1'='1'\n        and \n        classname in (select name from %dictionary.classdefinition where super='Ens.BusinessProcess')"
    );
}

#[test]
fn no_token_without_settings() {
    let mut gateway = gateway();
    assert_eq!(gateway.token(Some("abc".to_owned())), None);
    assert_eq!(gateway.token(None), None);
    gateway.reparse(&activating("db"));
    assert_eq!(gateway.token(None), None);
}

#[test]
fn an_empty_token_is_not_cached() {
    let mut gateway = active_gateway();
    assert_eq!(gateway.token(Some(String::new())), None);
    assert_eq!(gateway.token(None), None);
    assert_eq!(gateway.token(Some("abc".to_owned())), Some("abc".to_owned()));
}

#[test]
fn the_first_token_is_cached_for_good() {
    let mut gateway = active_gateway();
    assert_eq!(gateway.token(None), None);
    assert_eq!(gateway.token(Some("abc".to_owned())), Some("abc".to_owned()));
    assert_eq!(gateway.token(Some("def".to_owned())), Some("abc".to_owned()));
    assert_eq!(gateway.token(Some(String::new())), Some("abc".to_owned()));
    assert_eq!(gateway.token(None), Some("abc".to_owned()));
    gateway.reparse(&activating("other"));
    assert_eq!(gateway.token(None), Some("abc".to_owned()));
    assert_eq!(gateway.settings().unwrap().host, "db");
}
