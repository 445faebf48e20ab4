use podman_remote::{
    filter_services, find_service, get_service_plan, list_services_plan, normalize_service_name,
    update_service_plan, ServiceAction, ServiceCommand, ServiceInfo, Status, UpdateServiceRequest,
};

fn info(name: &str, active: &str) -> ServiceInfo {
    ServiceInfo {
        name: name.to_string(),
        active_state: active.to_string(),
        sub_state: "Running".to_string(),
        load_state: "Loaded".to_string(),
    }
}

fn actions(calls: &[podman_remote::Call<ServiceAction>]) -> Vec<ServiceAction> {
    calls.iter().map(|c| c.action).collect()
}

#[test]
fn normalize_appends_suffix() {
    assert_eq!(normalize_service_name("foo"), "foo.service");
    assert_eq!(normalize_service_name(""), ".service");
    assert_eq!(normalize_service_name("foo.socket"), "foo.socket.service");
    assert_eq!(normalize_service_name("service"), "service.service");
}

#[test]
fn normalize_keeps_qualified_name() {
    assert_eq!(normalize_service_name("foo.service"), "foo.service");
    assert_eq!(normalize_service_name(".service"), ".service");
}

#[test]
fn normalize_is_idempotent() {
    for name in ["foo", "foo.service", "a.b", "", "x.servic", "ünïcode"] {
        let once = normalize_service_name(name);
        assert_eq!(normalize_service_name(&once), once);
    }
}

#[test]
fn filter_keeps_services_in_order() {
    let units = vec![
        info("b.service", "Active"),
        info("a.socket", "Active"),
        info("a.service", "Inactive"),
        info("dev.mount", "Active"),
    ];
    let names: Vec<String> = filter_services(units).into_iter().map(|u| u.name).collect();
    assert_eq!(names, vec!["b.service".to_string(), "a.service".to_string()]);
    assert!(filter_services(Vec::new()).is_empty());
}

#[test]
fn find_returns_first_match() {
    let units = vec![info("a.service", "Active"), info("b.service", "Failed"), info("b.service", "Active")];
    let found = find_service(units, "b.service").unwrap();
    assert_eq!(found.name, "b.service");
    assert_eq!(found.active_state, "Failed");
}

#[test]
fn find_missing_service_is_not_found() {
    let units = vec![info("a.service", "Active")];
    assert_eq!(find_service(units, "nope.service").unwrap_err(), Status::NotFound);
    assert_eq!(find_service(Vec::new(), "a.service").unwrap_err(), Status::NotFound);
    assert_eq!(Status::NotFound.code(), 404);
}

#[test]
fn listing_calls_fail_with_server_error() {
    let calls = list_services_plan();
    assert_eq!(
        actions(&calls),
        vec![ServiceAction::Connect, ServiceAction::CreateManager, ServiceAction::ListUnits]
    );
    assert!(calls.iter().all(|c| c.on_failure == Status::InternalServerError));
    assert_eq!(Status::InternalServerError.code(), 500);
}

#[test]
fn get_plan_uses_normalized_name() {
    let plan = get_service_plan("sshd");
    assert_eq!(plan.unit, "sshd.service");
    assert_eq!(actions(&plan.calls), actions(&list_services_plan()));
    assert_eq!(get_service_plan("sshd.service").unit, "sshd.service");
}

#[test]
fn update_plan_dispatches_each_command() {
    let expected = [
        (ServiceCommand::Start, ServiceAction::StartUnit),
        (ServiceCommand::Stop, ServiceAction::StopUnit),
        (ServiceCommand::Restart, ServiceAction::RestartUnit),
        (ServiceCommand::Enable, ServiceAction::EnableUnitFile { runtime: false, force: true }),
        (ServiceCommand::Disable, ServiceAction::DisableUnitFile { runtime: false }),
    ];
    for (command, action) in expected {
        let plan = update_service_plan("web", &UpdateServiceRequest { command });
        assert_eq!(plan.unit, "web.service");
        assert_eq!(
            actions(&plan.calls),
            vec![ServiceAction::Connect, ServiceAction::CreateManager, action, ServiceAction::ListUnits]
        );
        assert!(plan.calls.iter().all(|c| c.on_failure == Status::InternalServerError));
    }
}

#[test]
fn started_service_reports_listed_state() {
    let plan = update_service_plan("web", &UpdateServiceRequest { command: ServiceCommand::Start });
    let after = vec![info("db.service", "Inactive"), info("web.service", "Active")];
    let reported = find_service(after, &plan.unit).unwrap();
    assert_eq!(reported.active_state, "Active");
    let again = vec![info("db.service", "Inactive"), info("web.service", "Active")];
    let got = find_service(again, &get_service_plan("web").unit).unwrap();
    assert_eq!(got.active_state, "Active");
}

#[test]
fn get_missing_service_is_not_found() {
    let plan = get_service_plan("ghost");
    let units = vec![info("web.service", "Active"), info("ghost.socket", "Active")];
    assert_eq!(find_service(units, &plan.unit).unwrap_err(), Status::NotFound);
}

#[test]
fn enable_nginx_scenario() {
    let plan = update_service_plan("nginx", &UpdateServiceRequest { command: ServiceCommand::Enable });
    assert_eq!(plan.unit, "nginx.service");
    assert_eq!(plan.calls[2].action, ServiceAction::EnableUnitFile { runtime: false, force: true });
    let units = vec![info("nginx.service", "Inactive")];
    let reported = find_service(units, &plan.unit).unwrap();
    assert_eq!(reported.name, "nginx.service");
}

#[test]
fn service_info_clone_keeps_fields() {
    let a = info("x.service", "Active");
    let b = a.clone();
    assert_eq!(b.name, a.name);
    assert_eq!(b.active_state, a.active_state);
    assert_eq!(b.sub_state, a.sub_state);
    assert_eq!(b.load_state, a.load_state);
}
