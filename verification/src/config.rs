//! Server configuration and the values it settles when a setting is absent.
use crate::text::{
    concat3, decimal, decimal_text, opt_view, replace_all, replaced, str_view, views,
};
use crate::text_map::TextMap;
use crate::trusted::host::local_ip;
use vstd::prelude::*;

verus! {

/// Settings by name.
pub type ConfigMap = TextMap<String>;

/// What an optional map holds.
pub open spec fn opt_texts(configs: Option<ConfigMap>) -> Option<Map<Seq<char>, Seq<char>>> {
    match configs {
        Some(c) => Some(c.texts()),
        None => None,
    }
}

/// The settings of an optional map, none where there is no map.
pub open spec fn settings(configs: Option<Map<Seq<char>, Seq<char>>>) -> Map<
    Seq<char>,
    Seq<char>,
> {
    match configs {
        Some(c) => c,
        None => Map::empty(),
    }
}

/// Port the server binds to when the configuration names none.
pub const DEFAULT_PORT: u16 = 8100;

/// Where the store is when the configuration names none.
pub const DEFAULT_STORE: &'static str = "sqlite::memory:";

/// A Spark installation that sessions can be launched with.
pub struct SparkVersion {
    /// Name shown to users.
    pub name: String,
    /// `SPARK_HOME` directory for this version.
    pub home: String,
    pub master: Option<String>,
    pub deploy_mode: Option<String>,
    pub proxy_user: Option<bool>,
    /// Python interpreter for building virtual environments.
    pub python_executable: Option<String>,
    pub env: Option<ConfigMap>,
    pub default_configs: Option<ConfigMap>,
    pub merge_configs: Option<ConfigMap>,
    pub override_configs: Option<ConfigMap>,
}

/// What a `SparkVersion` holds.
pub struct SparkVersionView {
    pub name: Seq<char>,
    pub home: Seq<char>,
    pub master: Option<Seq<char>>,
    pub deploy_mode: Option<Seq<char>>,
    pub proxy_user: Option<bool>,
    pub python_executable: Option<Seq<char>>,
    pub env: Option<Map<Seq<char>, Seq<char>>>,
    pub default_configs: Option<Map<Seq<char>, Seq<char>>>,
    pub merge_configs: Option<Map<Seq<char>, Seq<char>>>,
    pub override_configs: Option<Map<Seq<char>, Seq<char>>>,
}

impl View for SparkVersion {
    type V = SparkVersionView;

    open spec fn view(&self) -> SparkVersionView {
        SparkVersionView {
            name: self.name@,
            home: self.home@,
            master: opt_view(self.master),
            deploy_mode: opt_view(self.deploy_mode),
            proxy_user: self.proxy_user,
            python_executable: opt_view(self.python_executable),
            env: opt_texts(self.env),
            default_configs: opt_texts(self.default_configs),
            merge_configs: opt_texts(self.merge_configs),
            override_configs: opt_texts(self.override_configs),
        }
    }
}

/// A copy of an optional map.
pub fn clone_settings(configs: &Option<ConfigMap>) -> (res: Option<ConfigMap>)
    ensures
        opt_texts(res) == opt_texts(*configs),
{
    match configs {
        Some(c) => Some(c.clone()),
        None => None,
    }
}

impl Clone for SparkVersion {
    fn clone(&self) -> (res: SparkVersion)
        ensures
            res@ == self@,
    {
        SparkVersion {
            name: self.name.clone(),
            home: self.home.clone(),
            master: self.master.clone(),
            deploy_mode: self.deploy_mode.clone(),
            proxy_user: self.proxy_user,
            python_executable: self.python_executable.clone(),
            env: clone_settings(&self.env),
            default_configs: clone_settings(&self.default_configs),
            merge_configs: clone_settings(&self.merge_configs),
            override_configs: clone_settings(&self.override_configs),
        }
    }
}

/// A version of the given name and home, with nothing else set.
pub open spec fn bare_version(name: Seq<char>, home: Seq<char>) -> SparkVersionView {
    SparkVersionView {
        name,
        home,
        master: None,
        deploy_mode: None,
        proxy_user: None,
        python_executable: None,
        env: None,
        default_configs: None,
        merge_configs: None,
        override_configs: None,
    }
}

impl Default for SparkVersion {
    fn default() -> (res: SparkVersion)
        ensures
            res@ == bare_version(seq![], seq![]),
    {
        SparkVersion {
            name: String::new(),
            home: String::new(),
            master: None,
            deploy_mode: None,
            proxy_user: None,
            python_executable: None,
            env: None,
            default_configs: None,
            merge_configs: None,
            override_configs: None,
        }
    }
}

/// Credentials that are renewed in the background.
#[derive(Clone)]
pub struct KerberosConfig {
    pub keytab: String,
    pub principal: String,
    pub renewal_interval: Option<u64>,
}

/// How long credentials last when the configuration does not say, in seconds.
pub const DEFAULT_RENEWAL_INTERVAL: u64 = 3600;

impl KerberosConfig {
    /// The arguments with which `kinit` renews the credentials.
    pub fn kinit_args(&self) -> (res: Vec<String>)
        ensures
            views(res@) == seq!["-kt"@, self.keytab@, self.principal@],
    {
        let mut args: Vec<String> = Vec::new();
        args.push("-kt".to_owned());
        args.push(self.keytab.clone());
        args.push(self.principal.clone());
        assert(views(args@) =~= seq!["-kt"@, self.keytab@, self.principal@]);
        args
    }

    /// The seconds from one renewal to the next.
    pub fn renewal_seconds(&self) -> (res: u64)
        ensures
            res == (match self.renewal_interval {
                Some(seconds) => seconds,
                None => DEFAULT_RENEWAL_INTERVAL,
            }),
    {
        self.renewal_interval.unwrap_or(DEFAULT_RENEWAL_INTERVAL)
    }
}

/// Paths of the server's key and certificate.
#[derive(Clone)]
pub struct TlsConfig {
    pub key: String,
    pub cert: String,
}

/// An authentication method by name, with its options.
#[derive(Clone)]
pub struct AuthConfig {
    pub name: String,
    pub options: Option<ConfigMap>,
}

/// The server's configuration.
#[derive(Clone)]
pub struct ProxyConfig {
    pub bind_host: Option<String>,
    pub bind_port: Option<u16>,
    pub callback_address: Option<String>,
    pub plugin_path: Option<String>,
    pub launch_timeout: Option<u32>,
    pub session_timeout: Option<u32>,
    pub store: Option<String>,
    pub kerberos_config: Option<KerberosConfig>,
    pub tls: Option<TlsConfig>,
    pub spark_versions: Option<Vec<SparkVersion>>,
    pub auth_methods: Option<Vec<AuthConfig>>,
    /// Template of an application's UI address.
    pub ui_url_template: Option<String>,
}

impl Default for ProxyConfig {
    fn default() -> (res: ProxyConfig)
        ensures
            res.bind_host is None,
            res.bind_port is None,
            res.callback_address is None,
            res.plugin_path is None,
            res.launch_timeout is None,
            res.session_timeout is None,
            res.store is None,
            res.kerberos_config is None,
            res.tls is None,
            res.spark_versions is None,
            res.auth_methods is None,
            res.ui_url_template is None,
    {
        ProxyConfig {
            bind_host: None,
            bind_port: None,
            callback_address: None,
            plugin_path: None,
            launch_timeout: None,
            session_timeout: None,
            store: None,
            kerberos_config: None,
            tls: None,
            spark_versions: None,
            auth_methods: None,
            ui_url_template: None,
        }
    }
}

/// The machine has no address in a local network.
#[derive(Debug)]
pub struct NoLocalAddress;

/// The address at which a server on `ip` and `port` is called back.
pub open spec fn callback_url(tls: bool, ip: Seq<char>, port: u16) -> Seq<char> {
    (if tls {
        "https"@
    } else {
        "http"@
    }) + "://"@ + ip + ":"@ + decimal(port as nat)
}

/// What stands for the application's identifier in a UI address template.
pub const APPLICATION_ID_PLACEHOLDER: &'static str = "{{ application_id }}";

/// The UI address of an application: the template with the identifier in place of the
/// placeholder, where there is both a template and an identifier.
pub open spec fn ui_url(
    template: Option<Seq<char>>,
    application_id: Option<Seq<char>>,
) -> Option<Seq<char>> {
    match (template, application_id) {
        (Some(t), Some(id)) => Some(replaced(t, APPLICATION_ID_PLACEHOLDER@, id)),
        _ => None,
    }
}

/// The port that is bound.
pub open spec fn port_or_default(port: Option<u16>) -> u16 {
    match port {
        Some(p) => p,
        None => DEFAULT_PORT,
    }
}

/// The text, or another where there is none.
pub open spec fn text_or(text: Option<String>, default: Seq<char>) -> Seq<char> {
    match text {
        Some(t) => t@,
        None => default,
    }
}

impl ProxyConfig {
    /// The port to bind.
    pub fn get_bind_port(&self) -> (res: u16)
        ensures
            res == port_or_default(self.bind_port),
    {
        self.bind_port.unwrap_or(DEFAULT_PORT)
    }

    /// The address and port to bind.
    pub fn bind_address(&self) -> (res: String)
        ensures
            res@ == text_or(self.bind_host, "0.0.0.0"@) + ":"@ + decimal(
                port_or_default(self.bind_port) as nat,
            ),
    {
        let host: &str = match &self.bind_host {
            Some(h) => h.as_str(),
            None => "0.0.0.0",
        };
        let port = decimal_text(self.get_bind_port() as u64);
        concat3(host, ":", port.as_str())
    }

    /// Where the store is.
    pub fn store_url(&self) -> (res: &str)
        ensures
            res@ == text_or(self.store, DEFAULT_STORE@),
    {
        match &self.store {
            Some(url) => url.as_str(),
            None => DEFAULT_STORE,
        }
    }

    /// The address at which sessions call back a server with the given IP address, where the
    /// configuration names none.
    pub fn callback_addr_at(&self, ip: &str) -> (res: String)
        ensures
            res@ == text_or(
                self.callback_address,
                callback_url(self.tls is Some, ip@, port_or_default(self.bind_port)),
            ),
    {
        match &self.callback_address {
            Some(address) => address.clone(),
            None => {
                let scheme: &str = if self.tls.is_some() {
                    "https"
                } else {
                    "http"
                };
                let port = decimal_text(self.get_bind_port() as u64);
                let mut out = concat3(scheme, "://", ip);
                out.append(":");
                out.append(port.as_str());
                out
            },
        }
    }

    /// The address at which sessions call back: the configured one, or one made of the
    /// machine's IP address, which the machine may not have.
    pub fn get_callback_addr(&self) -> (res: Result<String, NoLocalAddress>)
        ensures
            self.callback_address is Some ==> res is Ok,
            res matches Ok(address) ==> exists|ip: Seq<char>|
                address@ == text_or(
                    self.callback_address,
                    #[trigger] callback_url(
                        self.tls is Some,
                        ip,
                        port_or_default(self.bind_port),
                    ),
                ),
    {
        if self.callback_address.is_some() {
            return Ok(self.callback_addr_at(""));
        }
        match local_ip() {
            Some(ip) => Ok(self.callback_addr_at(ip.as_str())),
            None => Err(NoLocalAddress),
        }
    }

    /// The UI address of the application with the given identifier.
    pub fn render_ui_url(&self, application_id: Option<&str>) -> (res: Option<String>)
        ensures
            opt_view(res) == ui_url(
                opt_view(self.ui_url_template),
                str_view(application_id),
            ),
    {
        match (&self.ui_url_template, application_id) {
            (Some(template), Some(id)) => {
                proof {
                    reveal_strlit("{{ application_id }}");
                }
                Some(replace_all(template.as_str(), APPLICATION_ID_PLACEHOLDER, id))
            },
            _ => None,
        }
    }
}

} // verus!
