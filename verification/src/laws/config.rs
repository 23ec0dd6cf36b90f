//! Laws of the configuration.
use crate::config::{opt_texts, KerberosConfig, NoLocalAddress, ProxyConfig, SparkVersion};
use crate::laws::launching::callback_at;
use crate::text::{decimal, opt_view, replaced, views};
use vstd::prelude::*;

verus! {

/// The port is the configured one, or 8100.
pub proof fn law_bind_port(config: ProxyConfig, port: u16)
    requires
        call_ensures(ProxyConfig::get_bind_port, (&config,), port),
    ensures
        config.bind_port is Some ==> config.bind_port == Some(port),
        config.bind_port is None ==> port == 8100,
{
}

/// The server binds the configured host, or all of them, at its port.
pub proof fn law_bind_address(config: ProxyConfig, port: u16, address: String)
    requires
        call_ensures(ProxyConfig::get_bind_port, (&config,), port),
        call_ensures(ProxyConfig::bind_address, (&config,), address),
    ensures
        address@ == (match config.bind_host {
            Some(host) => host@,
            None => "0.0.0.0"@,
        }) + ":"@ + decimal(port as nat),
{
}

/// The store is where the configuration says, or in memory.
pub proof fn law_store_url(config: ProxyConfig, url: &str)
    requires
        call_ensures(ProxyConfig::store_url, (&config,), url),
    ensures
        config.store matches Some(store) ==> url@ == store@,
        config.store is None ==> url@ == "sqlite::memory:"@,
{
}

/// Sessions call back at the configured address as it is; where none is configured, at the
/// server's own, by HTTPS exactly where the server speaks TLS, and at its port.
pub proof fn law_callback_address(config: ProxyConfig, ip: &str, address: String)
    requires
        call_ensures(ProxyConfig::callback_addr_at, (&config, ip), address),
    ensures
        config.callback_address matches Some(configured) ==> address@ == configured@,
        config.callback_address is None ==> address@ == callback_at(config, ip@),
{
    if config.callback_address is None {
        assert(address@ =~= callback_at(config, ip@));
    }
}

/// A machine without an address is no hindrance where a callback address is configured.
pub proof fn law_configured_callback_needs_no_address(
    config: ProxyConfig,
    res: Result<String, NoLocalAddress>,
)
    requires
        call_ensures(ProxyConfig::get_callback_addr, (&config,), res),
    ensures
        config.callback_address matches Some(configured) ==> (res matches Ok(address) && address@
            == configured@),
        config.callback_address is None && res is Ok ==> exists|ip: Seq<char>|
            res->Ok_0@ == #[trigger] callback_at(config, ip),
{
    if config.callback_address is None && res is Ok {
        let ip = choose|ip: Seq<char>|
            res->Ok_0@ == crate::config::text_or(
                config.callback_address,
                #[trigger] crate::config::callback_url(
                    config.tls is Some,
                    ip,
                    crate::config::port_or_default(config.bind_port),
                ),
            );
        assert(res->Ok_0@ =~= callback_at(config, ip));
    }
}

/// An application has a UI address exactly where there is a template and the application has an
/// identifier: the template, with the identifier wherever the placeholder stands.
pub proof fn law_ui_address(config: ProxyConfig, id: Option<&str>, res: Option<String>)
    requires
        call_ensures(ProxyConfig::render_ui_url, (&config, id), res),
    ensures
        res is Some <==> config.ui_url_template is Some && id is Some,
        res matches Some(url) ==> url@ == replaced(
            config.ui_url_template->0@,
            "{{ application_id }}"@,
            id->0@,
        ),
{
}

/// Credentials are renewed from the keytab for the principal, as often as configured, or every
/// hour.
pub proof fn law_credentials_are_renewed(
    config: KerberosConfig,
    args: Vec<String>,
    seconds: u64,
)
    requires
        call_ensures(KerberosConfig::kinit_args, (&config,), args),
        call_ensures(KerberosConfig::renewal_seconds, (&config,), seconds),
    ensures
        views(args@) == seq!["-kt"@, config.keytab@, config.principal@],
        config.renewal_interval is Some ==> config.renewal_interval == Some(seconds),
        config.renewal_interval is None ==> seconds == 3600,
{
}

/// A configuration that says nothing leaves every setting to its default.
pub proof fn law_silent_configuration(config: ProxyConfig)
    requires
        call_ensures(<ProxyConfig as Default>::default, (), config),
    ensures
        config == (ProxyConfig {
            bind_host: None,
            bind_port: None,
            callback_address: None,
            plugin_path: None,
            launch_timeout: None,
            session_timeout: None,
            store: None,
            kerberos_config: None,
            tls: None,
            spark_versions: None,
            auth_methods: None,
            ui_url_template: None,
        }),
{
}

/// A Spark version that says nothing has an empty name and home, and no setting.
pub proof fn law_silent_version(version: SparkVersion)
    requires
        call_ensures(<SparkVersion as Default>::default, (), version),
    ensures
        version.name@.len() == 0,
        version.home@.len() == 0,
        version.master is None,
        version.deploy_mode is None,
        version.proxy_user is None,
        version.python_executable is None,
        version.env is None,
        version.default_configs is None,
        version.merge_configs is None,
        version.override_configs is None,
{
}

/// A copy of a Spark version says what the version says.
pub proof fn law_copied_version(version: SparkVersion, copy: SparkVersion)
    requires
        call_ensures(<SparkVersion as Clone>::clone, (&version,), copy),
    ensures
        copy.name@ == version.name@,
        copy.home@ == version.home@,
        opt_view(copy.master) == opt_view(version.master),
        opt_view(copy.deploy_mode) == opt_view(version.deploy_mode),
        copy.proxy_user == version.proxy_user,
        opt_view(copy.python_executable) == opt_view(version.python_executable),
        opt_texts(copy.env) == opt_texts(version.env),
        opt_texts(copy.default_configs) == opt_texts(version.default_configs),
        opt_texts(copy.merge_configs) == opt_texts(version.merge_configs),
        opt_texts(copy.override_configs) == opt_texts(version.override_configs),
{
}

} // verus!
