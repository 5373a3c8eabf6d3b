use directive_agent::manifest::Directive;
use directive_agent::webserver::{
    config_file_name, create_nginx_config, deploy_rendered, php_backend_line, render_nginx_config,
    ConfigStore,
};

fn web_directive(php: Option<&str>) -> Directive {
    Directive {
        url: "a.test".to_owned(),
        track_directory: false,
        webserver: true,
        port: 8080,
        php_fpm_version: php.map(|s| s.to_owned()),
        nodejs_bool: false,
        nodejs_version: None,
        nodejs_exec_command: None,
        nodejs_pre_exec_command: None,
        directive_executed: false,
    }
}

#[test]
fn backend_dispatch_table() {
    assert_eq!(
        php_backend_line(&Some("7.4".to_owned())),
        "fastcgi_pass unix:/var/run/php/php7.4-fpm.sock;"
    );
    assert_eq!(
        php_backend_line(&Some("8.1".to_owned())),
        "fastcgi_pass unix:/var/run/php/php8.1-fpm.sock;"
    );
    assert_eq!(
        php_backend_line(&Some("8.2".to_owned())),
        "fastcgi_pass unix:/var/run/php/php8.2-fpm.sock;"
    );
}

#[test]
fn backend_dispatch_falls_back_for_unrecognized_versions() {
    assert_eq!(
        php_backend_line(&Some("5.6".to_owned())),
        "fastcgi_pass unix:/var/run/php/php8.1-fpm.sock;"
    );
    assert_eq!(
        php_backend_line(&None),
        "fastcgi_pass unix:/var/run/php/php8.1-fpm.sock;"
    );
}

fn expected_config(port: u16, url: &str, root: &str, php_line: &str) -> String {
    format!(
        "server {{\n    listen {};\n    server_name {};\n    root {};\n\n    location / {{\n        try_files $uri $uri/ /index.php$is_args$args;\n    }}\n\n    location ~ \\.php$ {{\n        {}\n    }}\n\n    error_log /var/log/nginx/{}.error.log;\n    access_log /var/log/nginx/{}.access.log;\n}}\n",
        port, url, root, php_line, url, url
    )
}

#[test]
fn renders_the_configuration_exactly() {
    let d = web_directive(Some("8.2"));
    let rendered = render_nginx_config(&d, "/var/www/ais/myapp");
    assert_eq!(
        rendered,
        expected_config(
            8080,
            "a.test",
            "/var/www/ais/myapp",
            "fastcgi_pass unix:/var/run/php/php8.2-fpm.sock;"
        )
    );
}

#[test]
fn deploys_a_fresh_config_selecting_the_requested_backend() {
    // No existing config; validation succeeds.
    let d = web_directive(Some("8.2"));
    let mut store = ConfigStore::empty();
    let r = create_nginx_config(&d, "/var/www/ais/myapp", &mut store, true);
    assert_eq!(r.unwrap(), true);
    let live = store.live.expect("a live config must exist");
    assert!(live.contains("fastcgi_pass unix:/var/run/php/php8.2-fpm.sock;"));
    assert!(live.contains("listen 8080;"));
    assert!(live.contains("server_name a.test;"));
    assert!(store.backup.is_none());
    assert!(store.temp.is_none());
}

#[test]
fn failed_validation_rolls_back_to_the_previous_config() {
    let mut store = ConfigStore {
        live: Some("previous config".to_owned()),
        backup: None,
        temp: None,
    };
    let r = deploy_rendered(&mut store, "candidate config", false);
    assert!(matches!(
        r,
        Err(directive_agent::errors::AgentError::Integrity(_))
    ));
    // The live config is byte-identical to its pre-deploy content, and the
    // candidate never reached the live path.
    assert_eq!(store.live.as_deref(), Some("previous config"));
    assert_eq!(store.temp.as_deref(), Some("candidate config"));
    assert!(store.backup.is_none());
}

#[test]
fn failed_validation_with_no_prior_config_leaves_none() {
    let mut store = ConfigStore::empty();
    let r = deploy_rendered(&mut store, "candidate config", false);
    assert!(r.is_err());
    assert!(store.live.is_none());
}

#[test]
fn successful_validation_swaps_and_cleans_up() {
    let mut store = ConfigStore {
        live: Some("previous config".to_owned()),
        backup: None,
        temp: None,
    };
    let r = deploy_rendered(&mut store, "candidate config", true);
    assert_eq!(r.unwrap(), true);
    // The live config equals the rendered text; no siblings remain.
    assert_eq!(store.live.as_deref(), Some("candidate config"));
    assert!(store.backup.is_none());
    assert!(store.temp.is_none());
}

#[test]
fn config_file_is_named_after_the_host() {
    let d = web_directive(None);
    assert_eq!(config_file_name(&d), "a.test.conf");
}

#[test]
fn the_cycle_reload_fold_over_changed_flags() {
    assert!(!directive_agent::webserver::any_config_changed(&vec![]));
    assert!(!directive_agent::webserver::any_config_changed(&vec![false, false]));
    assert!(directive_agent::webserver::any_config_changed(&vec![false, true, false]));
}
