use spark_connect_proxy::config::{KerberosConfig, ProxyConfig, TlsConfig};

#[test]
fn ports_and_addresses_have_defaults() {
    let config = ProxyConfig::default();
    assert_eq!(config.get_bind_port(), 8100);
    assert_eq!(config.bind_address(), "0.0.0.0:8100");
    assert_eq!(config.store_url(), "sqlite::memory:");

    let config = ProxyConfig {
        bind_host: Some("localhost".to_string()),
        bind_port: Some(80),
        store: Some("postgres://db".to_string()),
        ..Default::default()
    };
    assert_eq!(config.get_bind_port(), 80);
    assert_eq!(config.bind_address(), "localhost:80");
    assert_eq!(config.store_url(), "postgres://db");
}

#[test]
fn the_callback_address_is_made_of_the_machines() {
    let plain = ProxyConfig::default();
    assert_eq!(plain.callback_addr_at("10.0.0.1"), "http://10.0.0.1:8100");

    let secure = ProxyConfig {
        tls: Some(TlsConfig {
            key: "key.pem".to_string(),
            cert: "cert.pem".to_string(),
        }),
        bind_port: Some(443),
        ..Default::default()
    };
    assert_eq!(secure.callback_addr_at("10.0.0.1"), "https://10.0.0.1:443");

    let fixed = ProxyConfig {
        callback_address: Some("http://proxy".to_string()),
        ..Default::default()
    };
    assert_eq!(fixed.get_callback_addr().unwrap(), "http://proxy");
    assert_eq!(fixed.callback_addr_at("10.0.0.1"), "http://proxy");
}

#[test]
fn the_machines_address_is_asked_for() {
    let config = ProxyConfig::default();
    match (config.get_callback_addr(), local_ip_address::local_ip()) {
        (Ok(address), Ok(ip)) => assert_eq!(address, format!("http://{ip}:8100")),
        (Err(_), Err(_)) => (),
        _ => panic!("the machine has an address or has not"),
    }
}

#[test]
fn ui_addresses_are_rendered_from_a_template() {
    let config = ProxyConfig {
        ui_url_template: Some("{{ application_id }}/{{ application_id }}?{{application_id}}".to_string()),
        ..Default::default()
    };
    assert_eq!(
        config.render_ui_url(Some("app-1")),
        Some("app-1/app-1?{{application_id}}".to_string())
    );
    assert_eq!(config.render_ui_url(None), None);
    assert_eq!(ProxyConfig::default().render_ui_url(Some("app-1")), None);
}

#[test]
fn kerberos_credentials_are_renewed() {
    let mut config = KerberosConfig {
        keytab: "/etc/keytab".to_string(),
        principal: "spark@REALM".to_string(),
        renewal_interval: None,
    };
    assert_eq!(config.kinit_args(), vec!["-kt", "/etc/keytab", "spark@REALM"]);
    assert_eq!(config.renewal_seconds(), 3600);
    config.renewal_interval = Some(60);
    assert_eq!(config.renewal_seconds(), 60);
}
