use directive_agent::manifest::Directive;
use directive_agent::service::{
    app_unit_description, create_node_systemd_service, monitor_script_path, monitor_unit_name,
    needs_npm_install, node_start_command, node_version_missing, provision_service,
    render_monitor_script, unit_file_path, ProvisionOutcomes, UnitStore,
};

fn node_directive(exec: Option<&str>, pre: Option<&str>) -> Directive {
    Directive {
        url: "a.test".to_owned(),
        track_directory: true,
        webserver: false,
        port: 8080,
        php_fpm_version: None,
        nodejs_bool: true,
        nodejs_version: Some("22".to_owned()),
        nodejs_exec_command: exec.map(|s| s.to_owned()),
        nodejs_pre_exec_command: pre.map(|s| s.to_owned()),
        directive_executed: false,
    }
}

fn all_ok() -> ProvisionOutcomes {
    ProvisionOutcomes {
        npm_needed: true,
        npm_ok: true,
        reload_ok: true,
        enable_app_ok: true,
        enable_monitor_ok: true,
    }
}

#[test]
fn missing_start_command_falls_back_to_the_default() {
    let d = node_directive(None, None);
    let cmd = node_start_command(&d);
    assert_eq!(cmd, "/usr/bin/npm run dev");
    assert!(!cmd.is_empty());
}

#[test]
fn explicit_start_command_is_kept() {
    let d = node_directive(Some("npm start"), None);
    assert_eq!(node_start_command(&d), "npm start");
}

fn expected_unit(
    version: &str,
    description: &str,
    exec_start: &str,
    pre_line: &str,
    working_dir: &str,
) -> String {
    format!(
        " # THIS SERVICE FILE IS MANAGED BY: Artisan Platform Version: {} DO NOT CHANGE\n[Unit]\nDescription={}\nAfter=network.target\n\n[Service]\nPermissionsStartOnly=false\nExecStart={}\n{}Restart=always\nUser=www-data\nGroup=www-data\nEnvironment=PATH=/usr/bin:/usr/local/bin\nWorkingDirectory={}\n\n[Install]\nWantedBy=multi-user.target\n",
        version, description, exec_start, pre_line, working_dir
    )
}

#[test]
fn renders_a_service_unit_exactly() {
    let unit = create_node_systemd_service(
        "npm start",
        Some("npm run build"),
        "/var/www/ais/myapp",
        "Ais project id /var/www/ais/myapp",
        "1.2.3",
    );
    assert_eq!(
        unit,
        expected_unit(
            "1.2.3",
            "Ais project id /var/www/ais/myapp",
            "npm start",
            "ExecStartPre=npm run build\n",
            "/var/www/ais/myapp"
        )
    );
}

#[test]
fn renders_a_service_unit_without_a_pre_start_line() {
    let unit = create_node_systemd_service(
        "/usr/bin/npm run dev",
        None,
        "/var/www/ais/myapp",
        "Ais project id /var/www/ais/myapp",
        "1.2.3",
    );
    assert!(!unit.contains("ExecStartPre="));
    assert!(unit.contains("ExecStart=/usr/bin/npm run dev\n"));
    assert!(unit.contains("Restart=always"));
}

#[test]
fn companion_identities() {
    assert_eq!(monitor_unit_name("myapp"), "myapp_monitor");
    assert_eq!(
        monitor_script_path("myapp"),
        "/opt/ais/monitors/myapp.monitor"
    );
    assert_eq!(unit_file_path("myapp"), "/etc/systemd/system/myapp.service");
    assert_eq!(
        app_unit_description("/var/www/ais/myapp"),
        "Ais project id /var/www/ais/myapp"
    );
}

#[test]
fn monitor_script_restarts_its_service() {
    let script = render_monitor_script("myapp");
    assert!(script.starts_with("#!/bin/bash\n"));
    assert!(script.contains("systemctl restart myapp"));
}

#[test]
fn dependency_install_detection() {
    // Absent directory.
    assert!(needs_npm_install(false, 0, 0, 0));
    // Manifest newer than the installed dependencies.
    assert!(needs_npm_install(true, 200, 100, 5));
    // Empty directory.
    assert!(needs_npm_install(true, 100, 200, 0));
    // Up to date.
    assert!(!needs_npm_install(true, 100, 200, 5));
}

#[test]
fn runtime_version_detection() {
    assert!(!node_version_missing("->     v22.6.0", "22.6.0"));
    assert!(node_version_missing("N/A", "22.6.0"));
}

#[test]
fn failed_dependency_install_is_fatal_and_writes_nothing() {
    let d = node_directive(None, None);
    let mut store = UnitStore::empty();
    let outcomes = ProvisionOutcomes { npm_ok: false, ..all_ok() };
    let r = provision_service(&mut store, &d, "myapp", "/var/www/ais/myapp", "1.2.3", outcomes);
    assert!(matches!(
        r,
        Err(directive_agent::errors::AgentError::Dependency(_))
    ));
    assert!(store.app_unit.is_none());
    assert!(store.monitor_unit.is_none());
    assert!(store.monitor_script.is_none());
    assert!(store.enabled.is_empty());
}

#[test]
fn failed_reload_enables_nothing() {
    let d = node_directive(None, None);
    let mut store = UnitStore::empty();
    let outcomes = ProvisionOutcomes { reload_ok: false, ..all_ok() };
    let r = provision_service(&mut store, &d, "myapp", "/var/www/ais/myapp", "1.2.3", outcomes);
    assert!(matches!(
        r,
        Err(directive_agent::errors::AgentError::Service(_))
    ));
    // The unit texts were written, but nothing was enabled without a
    // preceding successful reload.
    assert!(store.app_unit.is_some());
    assert!(store.monitor_unit.is_some());
    assert!(!store.daemon_reloaded);
    assert!(store.enabled.is_empty());
}

#[test]
fn failed_monitor_enable_leaves_only_the_application_enabled() {
    let d = node_directive(None, None);
    let mut store = UnitStore::empty();
    let outcomes = ProvisionOutcomes { enable_monitor_ok: false, ..all_ok() };
    let r = provision_service(&mut store, &d, "myapp", "/var/www/ais/myapp", "1.2.3", outcomes);
    assert!(r.is_err());
    assert_eq!(store.enabled, vec!["myapp".to_owned()]);
}

#[test]
fn successful_provision_enables_application_and_monitor() {
    let d = node_directive(Some("npm start"), Some("npm run build"));
    let mut store = UnitStore::empty();
    let r = provision_service(&mut store, &d, "myapp", "/var/www/ais/myapp", "1.2.3", all_ok());
    assert!(r.is_ok());
    assert!(store.daemon_reloaded);
    assert_eq!(
        store.enabled,
        vec!["myapp".to_owned(), "myapp_monitor".to_owned()]
    );
    let unit = store.app_unit.expect("application unit written");
    assert!(unit.contains("ExecStart=npm start\n"));
    assert!(unit.contains("ExecStartPre=npm run build\n"));
    let monitor = store.monitor_unit.expect("monitor unit written");
    assert!(monitor.contains("ExecStart=/opt/ais/monitors/myapp.monitor\n"));
    assert!(monitor.contains("Description=myapp_monitor\n"));
    // The monitor runs out of the deployment's own directory.
    assert!(monitor.contains("WorkingDirectory=/var/www/ais/myapp\n"));
}
