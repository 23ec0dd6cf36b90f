//! Launching Spark sessions: which settings a session gets, which it may not
//! ask for, and the command line that starts it.
use crate::config::{
    bare_version, callback_url, opt_texts, port_or_default, settings, text_or, ConfigMap,
    ProxyConfig, SparkVersion, SparkVersionView,
};
use crate::text::{
    concat2, concat3, contains, decimal, decimal_text, equals, lemma_views_push, occurs, opt_view,
    pieces, signed_decimal, signed_decimal_text, split, starts_with, trim, trim_end, trimmed,
    trimmed_end, views,
};
use crate::text_map::{distinct_keys, lemma_pairs_map_keys, pairs_map, TextMap};
use crate::venv::VenvRequest;
use vstd::prelude::*;

verus! {

pub const APP_NAME_CONFIG: &'static str = "spark.app.name";

pub const TOKEN_CONFIG: &'static str = "spark.connect.authenticate.token";

pub const CALLBACK_CONFIG: &'static str = "spark.plug.callback";

pub const TIMEOUT_CONFIG: &'static str = "spark.plug.idle.timeout";

pub const LISTENER_CONFIG: &'static str = "spark.extraListeners";

pub const INTERCEPTOR_CONFIG: &'static str = "spark.connect.grpc.interceptor.classes";

pub const GRPC_PORT_CONFIG: &'static str = "spark.connect.grpc.binding.port";

pub const PYTHON_CONFIG: &'static str = "spark.sql.execution.pyspark.python";

pub const LISTENER_CLASS: &'static str = "org.apache.spark.sql.sparkplug.SparkPlugListener";

pub const INTERCEPTOR_CLASS: &'static str = "org.apache.spark.sql.sparkplug.SparkPlugInterceptor";

pub const SERVER_CLASS: &'static str = "org.apache.spark.sql.sparkplug.SparkPlugServer";

/// `base` with each of `extra` appended to what it holds under the same name, after a comma,
/// or added where it holds nothing.
pub open spec fn with_appended(
    base: Map<Seq<char>, Seq<char>>,
    extra: Map<Seq<char>, Seq<char>>,
) -> Map<Seq<char>, Seq<char>> {
    base.union_prefer_right(
        Map::new(
            |k: Seq<char>| extra.contains_key(k),
            |k: Seq<char>|
                if base.contains_key(k) {
                    base[k] + ","@ + extra[k]
                } else {
                    extra[k]
                },
        ),
    )
}

/// The settings of a session: the version's defaults, under the user's own, with the
/// version's mergeable settings appended, all under what the version forces.
pub open spec fn session_settings(
    version: SparkVersionView,
    user: Map<Seq<char>, Seq<char>>,
) -> Map<Seq<char>, Seq<char>> {
    with_appended(
        settings(version.default_configs).union_prefer_right(user),
        settings(version.merge_configs),
    ).union_prefer_right(settings(version.override_configs))
}

/// The version's optional settings, none where it has none.
fn settings_or_empty(configs: &Option<ConfigMap>) -> (res: ConfigMap)
    ensures
        res.texts() == settings(opt_texts(*configs)),
{
    match configs {
        Some(c) => c.clone(),
        None => {
            let empty: ConfigMap = TextMap::new();
            assert(empty.texts() =~= Map::empty());
            empty
        },
    }
}

proof fn lemma_texts_union(a: ConfigMap, b: ConfigMap, c: ConfigMap)
    requires
        c@ == a@.union_prefer_right(b@),
    ensures
        c.texts() == a.texts().union_prefer_right(b.texts()),
{
    assert(c.texts() =~= a.texts().union_prefer_right(b.texts()));
}

/// Appends every setting of `extra` to `configs`.
fn append_all(configs: &mut ConfigMap, extra: &ConfigMap)
    ensures
        final(configs).texts() == with_appended(old(configs).texts(), extra.texts()),
{
    let ghost base = configs.texts();
    let n: usize = extra.len();
    let ghost all = extra.pairs();
    let mut i: usize = 0;
    assert(all.take(0) =~= Seq::<(Seq<char>, String)>::empty());
    assert(with_appended(base, texts_of(pairs_map(all.take(0)))) =~= base);
    while i < n
        invariant
            i <= n,
            n == all.len(),
            all == extra.pairs(),
            distinct_keys(all),
            configs.texts() == with_appended(base, texts_of(pairs_map(all.take(i as int)))),
        decreases n - i,
    {
        let (key, value) = extra.entry(i);
        let ghost before = configs.texts();
        let ghost so_far = pairs_map(all.take(i as int));
        proof {
            assert(all.take(i + 1).drop_last() =~= all.take(i as int));
            lemma_pairs_map_keys(all.take(i as int));
            assert(!so_far.contains_key(key@)) by {
                if so_far.contains_key(key@) {
                    let j = choose|j: int|
                        0 <= j < all.take(i as int).len() && (#[trigger] all.take(i as int)[j]).0
                            == key@;
                    assert(all[j].0 == all[i as int].0);
                }
            }
        }
        proof {
            lemma_append_one(base, so_far, key@, *value);
        }
        let text = match configs.get(key.as_str()) {
            Some(existing) => concat3(existing.as_str(), ",", value.as_str()),
            None => value.clone(),
        };
        configs.insert(key.clone(), text);
        assert(configs.texts() =~= before.insert(key@, text@));
        i += 1;
    }
    assert(all.take(n as int) =~= all);
}

proof fn lemma_append_one(
    base: Map<Seq<char>, Seq<char>>,
    so_far: Map<Seq<char>, String>,
    key: Seq<char>,
    value: String,
)
    requires
        !so_far.contains_key(key),
    ensures
        with_appended(base, texts_of(so_far)).contains_key(key) == base.contains_key(key),
        base.contains_key(key) ==> with_appended(base, texts_of(so_far))[key] == base[key],
        with_appended(base, texts_of(so_far.insert(key, value))) == with_appended(
            base,
            texts_of(so_far),
        ).insert(
            key,
            if base.contains_key(key) {
                base[key] + ","@ + value@
            } else {
                value@
            },
        ),
{
    let grown = so_far.insert(key, value);
    assert(texts_of(grown) =~= texts_of(so_far).insert(key, value@));
    assert(with_appended(base, texts_of(grown)) =~= with_appended(base, texts_of(so_far)).insert(
        key,
        if base.contains_key(key) {
            base[key] + ","@ + value@
        } else {
            value@
        },
    ));
}

/// The texts of a map of strings.
pub open spec fn texts_of(m: Map<Seq<char>, String>) -> Map<Seq<char>, Seq<char>> {
    m.map_values(|v: String| v@)
}

/// Why a session cannot be launched.
#[derive(Debug)]
pub enum LaunchError {
    /// No version has the requested name.
    VersionNotFound { name: String },
    /// Packages were requested of a version without a Python interpreter.
    NoPython,
    /// The virtual environment could not be made.
    VenvCreation { python: String },
    /// The packages could not be installed or packed.
    PackageInstallation,
    /// A file setting names a path without a protocol.
    MissingProtocol { key: String, path: String },
    /// A file setting names a local file.
    FileProtocol { key: String, path: String },
}

/// What a `LaunchError` says.
pub enum LaunchErrorView {
    VersionNotFound { name: Seq<char> },
    NoPython,
    VenvCreation { python: Seq<char> },
    PackageInstallation,
    MissingProtocol { key: Seq<char>, path: Seq<char> },
    FileProtocol { key: Seq<char>, path: Seq<char> },
}

impl View for LaunchError {
    type V = LaunchErrorView;

    open spec fn view(&self) -> LaunchErrorView {
        match self {
            LaunchError::VersionNotFound { name } => LaunchErrorView::VersionNotFound {
                name: name@,
            },
            LaunchError::NoPython => LaunchErrorView::NoPython,
            LaunchError::VenvCreation { python } => LaunchErrorView::VenvCreation {
                python: python@,
            },
            LaunchError::PackageInstallation => LaunchErrorView::PackageInstallation,
            LaunchError::MissingProtocol { key, path } => LaunchErrorView::MissingProtocol {
                key: key@,
                path: path@,
            },
            LaunchError::FileProtocol { key, path } => LaunchErrorView::FileProtocol {
                key: key@,
                path: path@,
            },
        }
    }
}

/// The kind of an error, as programs tell errors apart.
#[derive(Clone, Copy, PartialEq, Eq, Structural, Debug)]
pub enum ErrorKind {
    NotFound,
    InvalidInput,
    PermissionDenied,
    Other,
}

impl LaunchErrorView {
    /// The kind of the error.
    pub open spec fn kind(self) -> ErrorKind {
        match self {
            LaunchErrorView::VersionNotFound { .. } => ErrorKind::NotFound,
            LaunchErrorView::NoPython => ErrorKind::NotFound,
            LaunchErrorView::VenvCreation { .. } => ErrorKind::Other,
            LaunchErrorView::PackageInstallation => ErrorKind::Other,
            LaunchErrorView::MissingProtocol { .. } => ErrorKind::InvalidInput,
            LaunchErrorView::FileProtocol { .. } => ErrorKind::PermissionDenied,
        }
    }

    /// The error in words.
    pub open spec fn message(self) -> Seq<char> {
        match self {
            LaunchErrorView::VersionNotFound { name } => "Version named "@ + name + " not found"@,
            LaunchErrorView::NoPython =>
                "No python executable specified for creating virtual environment"@,
            LaunchErrorView::VenvCreation { python } =>
                "Failed to create virtual environment with uv using "@ + python,
            LaunchErrorView::PackageInstallation =>
                "Failed to install packages in virtual environment"@,
            LaunchErrorView::MissingProtocol { key, path } => "Config "@ + key
                + " contains file path without protocol: "@ + path,
            LaunchErrorView::FileProtocol { key, path } => "Config "@ + key
                + " cannot use file:// protocol: "@ + path,
        }
    }
}

impl LaunchError {
    /// The kind of the error.
    pub fn kind(&self) -> (res: ErrorKind)
        ensures
            res == self@.kind(),
    {
        match self {
            LaunchError::VersionNotFound { .. } => ErrorKind::NotFound,
            LaunchError::NoPython => ErrorKind::NotFound,
            LaunchError::VenvCreation { .. } => ErrorKind::Other,
            LaunchError::PackageInstallation => ErrorKind::Other,
            LaunchError::MissingProtocol { .. } => ErrorKind::InvalidInput,
            LaunchError::FileProtocol { .. } => ErrorKind::PermissionDenied,
        }
    }

    /// The error in words.
    pub fn message(&self) -> (res: String)
        ensures
            res@ == self@.message(),
    {
        match self {
            LaunchError::VersionNotFound { name } => concat3(
                "Version named ",
                name.as_str(),
                " not found",
            ),
            LaunchError::NoPython =>
                "No python executable specified for creating virtual environment".to_owned(),
            LaunchError::VenvCreation { python } => concat2(
                "Failed to create virtual environment with uv using ",
                python.as_str(),
            ),
            LaunchError::PackageInstallation =>
                "Failed to install packages in virtual environment".to_owned(),
            LaunchError::MissingProtocol { key, path } => {
                let start = concat3(
                    "Config ",
                    key.as_str(),
                    " contains file path without protocol: ",
                );
                concat2(start.as_str(), path.as_str())
            },
            LaunchError::FileProtocol { key, path } => {
                let start = concat3("Config ", key.as_str(), " cannot use file:// protocol: ");
                concat2(start.as_str(), path.as_str())
            },
        }
    }
}

/// What is wrong with one path of the file setting `key`: it must have a protocol, and not
/// the protocol of local files. A blank path is passed over.
pub open spec fn path_fault(key: Seq<char>, path: Seq<char>) -> Option<LaunchErrorView> {
    let path = trimmed(path);
    if path.len() == 0 {
        None
    } else if !occurs("://"@, path) {
        Some(LaunchErrorView::MissingProtocol { key, path })
    } else if "file://"@.is_prefix_of(path) {
        Some(LaunchErrorView::FileProtocol { key, path })
    } else {
        None
    }
}

/// The first fault among the paths.
pub open spec fn first_path_fault(key: Seq<char>, paths: Seq<Seq<char>>) -> Option<
    LaunchErrorView,
>
    decreases paths.len(),
{
    if paths.len() == 0 {
        None
    } else if path_fault(key, paths[0]) is Some {
        path_fault(key, paths[0])
    } else {
        first_path_fault(key, paths.drop_first())
    }
}

/// The first fault among the comma-separated paths of the setting `key`, if it is set.
pub open spec fn setting_fault(
    configs: Map<Seq<char>, Seq<char>>,
    key: Seq<char>,
) -> Option<LaunchErrorView> {
    if configs.contains_key(key) {
        first_path_fault(key, pieces(configs[key], ','))
    } else {
        None
    }
}

/// The first fault among the settings that name files.
pub open spec fn file_fault(configs: Map<Seq<char>, Seq<char>>) -> Option<LaunchErrorView> {
    if setting_fault(configs, "spark.files"@) is Some {
        setting_fault(configs, "spark.files"@)
    } else if setting_fault(configs, "spark.archives"@) is Some {
        setting_fault(configs, "spark.archives"@)
    } else {
        setting_fault(configs, "spark.submit.pyFiles"@)
    }
}

/// Checks one path of the file setting `key`.
fn check_path(key: &str, path: &str) -> (res: Result<(), LaunchError>)
    ensures
        match res {
            Ok(()) => path_fault(key@, path@) is None,
            Err(e) => path_fault(key@, path@) == Some(e@),
        },
{
    let path = trim(path);
    if path.as_str().is_empty() {
        Ok(())
    } else if !contains(path.as_str(), "://") {
        Err(LaunchError::MissingProtocol { key: key.to_owned(), path })
    } else if starts_with(path.as_str(), "file://") {
        Err(LaunchError::FileProtocol { key: key.to_owned(), path })
    } else {
        Ok(())
    }
}

/// Checks the paths of the setting `key`, if it is set.
fn check_setting(configs: &ConfigMap, key: &str) -> (res: Result<(), LaunchError>)
    ensures
        match res {
            Ok(()) => setting_fault(configs.texts(), key@) is None,
            Err(e) => setting_fault(configs.texts(), key@) == Some(e@),
        },
{
    let value = match configs.get(key) {
        Some(value) => value,
        None => {
            return Ok(());
        },
    };
    assert(configs.texts()[key@] == value@);
    let paths = split(value.as_str(), ',');
    let ghost all = pieces(value@, ',');
    let mut i: usize = 0;
    assert(all.skip(0) =~= all);
    while i < paths.len()
        invariant
            i <= paths.len(),
            views(paths@) == all,
            setting_fault(configs.texts(), key@) == first_path_fault(key@, all),
            first_path_fault(key@, all) == first_path_fault(key@, all.skip(i as int)),
        decreases paths.len() - i,
    {
        assert(all[i as int] == paths@[i as int]@);
        assert(all.skip(i as int).drop_first() =~= all.skip(i + 1));
        if let Err(e) = check_path(key, paths[i].as_str()) {
            return Err(e);
        }
        i += 1;
    }
    Ok(())
}

/// Adds the setting `key`.
fn put(configs: &mut ConfigMap, key: &str, value: String)
    ensures
        final(configs).texts() == old(configs).texts().insert(key@, value@),
{
    let ghost before = configs.texts();
    configs.insert(key.to_owned(), value);
    assert(configs.texts() =~= before.insert(key@, value@));
}

/// The settings with a name for the application: the requested one, or the one that is set,
/// or one made of the session's number.
pub open spec fn with_app_name(
    configs: Map<Seq<char>, Seq<char>>,
    session_id: int,
    app_name: Option<Seq<char>>,
) -> Map<Seq<char>, Seq<char>> {
    match app_name {
        Some(name) => configs.insert(APP_NAME_CONFIG@, name),
        None => if configs.contains_key(APP_NAME_CONFIG@) {
            configs
        } else {
            configs.insert(
                APP_NAME_CONFIG@,
                "spark-plug-session-"@ + signed_decimal(session_id),
            )
        },
    }
}

/// The settings with those that tie the session to this server.
pub open spec fn with_internal_settings(
    configs: Map<Seq<char>, Seq<char>>,
    launcher: SparkLauncher,
    token: Seq<char>,
) -> Map<Seq<char>, Seq<char>> {
    configs.insert(TOKEN_CONFIG@, token).insert(
        CALLBACK_CONFIG@,
        launcher.callback_addr@,
    ).insert(TIMEOUT_CONFIG@, decimal(launcher.session_timeout as nat)).insert(
        LISTENER_CONFIG@,
        LISTENER_CLASS@,
    ).insert(INTERCEPTOR_CONFIG@, INTERCEPTOR_CLASS@).insert(GRPC_PORT_CONFIG@, "0"@)
}

/// The settings that the command line passes on.
pub open spec fn command_settings(
    launcher: SparkLauncher,
    version: SparkVersionView,
    session_id: int,
    app_name: Option<Seq<char>>,
    token: Seq<char>,
    user: Map<Seq<char>, Seq<char>>,
    venv_tarball: Option<Seq<char>>,
) -> Map<Seq<char>, Seq<char>> {
    let own = with_internal_settings(
        with_app_name(session_settings(version, user), session_id, app_name),
        launcher,
        token,
    );
    if venv_tarball is Some {
        own.insert(PYTHON_CONFIG@, "../environment/bin/python"@)
    } else {
        own
    }
}

/// The path of `spark-submit` in a Spark home, in parts: each is joined to those before it, by
/// the rules of the system.
pub open spec fn submit_path(home: Seq<char>) -> Seq<Seq<char>> {
    seq![home, "bin"@, "spark-submit"@]
}

/// A flag with its value, nothing where there is no value.
pub open spec fn flag(name: Seq<char>, value: Option<Seq<char>>) -> Seq<Seq<char>> {
    match value {
        Some(v) => seq![name, v],
        None => seq![],
    }
}

/// One `--conf` flag for each of the settings, in the given order.
pub open spec fn conf_flags(order: Seq<(Seq<char>, Seq<char>)>) -> Seq<Seq<char>>
    decreases order.len(),
{
    if order.len() == 0 {
        seq![]
    } else {
        conf_flags(order.drop_last()) + seq![
            "--conf"@,
            order.last().0 + "="@ + order.last().1,
        ]
    }
}

/// `order` lists the settings of `configs`, each once.
pub open spec fn lists(
    order: Seq<(Seq<char>, Seq<char>)>,
    configs: Map<Seq<char>, Seq<char>>,
) -> bool {
    distinct_keys(order) && pairs_map(order) == configs
}

/// The arguments of `spark-submit`, with the settings in the given order.
pub open spec fn submit_args(
    launcher: SparkLauncher,
    version: SparkVersionView,
    username: Seq<char>,
    venv_tarball: Option<Seq<char>>,
    order: Seq<(Seq<char>, Seq<char>)>,
) -> Seq<Seq<char>> {
    flag("--master"@, version.master) + flag(
        "--deploy-mode"@,
        version.deploy_mode,
    ) + (match venv_tarball {
        Some(tarball) => flag("--archives"@, Some(tarball + "#environment"@)),
        None => seq![],
    }) + conf_flags(order) + seq!["--class"@, SERVER_CLASS@] + (if version.proxy_user == Some(
        true,
    ) {
        seq!["--proxy-user"@, username]
    } else {
        seq![]
    }) + seq![launcher.plugin_path@]
}

/// Adds a flag and its value to the arguments.
fn push_flag(args: &mut Vec<String>, name: &str, value: String)
    ensures
        views(final(args)@) == views(old(args)@) + seq![name@, value@],
{
    let ghost before = args@;
    args.push(name.to_owned());
    args.push(value);
    assert(views(args@) =~= views(before) + seq![name@, value@]);
}

/// Adds a flag for every setting to the arguments.
fn push_conf_flags(args: &mut Vec<String>, configs: &ConfigMap) -> (order: Ghost<
    Seq<(Seq<char>, Seq<char>)>,
>)
    ensures
        lists(order@, configs.texts()),
        views(final(args)@) == views(old(args)@) + conf_flags(order@),
{
    let n: usize = configs.len();
    let ghost before = views(args@);
    let ghost all = configs.pairs();
    let ghost order = all.map_values(|p: (Seq<char>, String)| (p.0, p.1@));
    let mut i: usize = 0;
    assert(order.take(0) =~= Seq::<(Seq<char>, Seq<char>)>::empty());
    assert(before + conf_flags(order.take(0)) =~= before);
    while i < n
        invariant
            i <= n,
            n == all.len(),
            all == configs.pairs(),
            order == all.map_values(|p: (Seq<char>, String)| (p.0, p.1@)),
            views(args@) == before + conf_flags(order.take(i as int)),
        decreases n - i,
    {
        let (key, value) = configs.entry(i);
        let text = concat3(key.as_str(), "=", value.as_str());
        push_flag(args, "--conf", text);
        assert(order.take(i + 1).drop_last() =~= order.take(i as int));
        assert(before + conf_flags(order.take(i as int)) + seq!["--conf"@, text@] =~= before
            + conf_flags(order.take(i + 1)));
        i += 1;
    }
    assert(order.take(n as int) =~= order);
    proof {
        lemma_view_pairs(all);
        assert(configs.texts() == texts_of(pairs_map(all)));
        assert forall|a: int, b: int| 0 <= a < b < order.len() implies (#[trigger] order[a]).0 != (
        #[trigger] order[b]).0 by {
            assert(all[a].0 != all[b].0);
        }
    }
    Ghost(order)
}

proof fn lemma_view_pairs(all: Seq<(Seq<char>, String)>)
    ensures
        pairs_map(all.map_values(|p: (Seq<char>, String)| (p.0, p.1@))) == texts_of(
            pairs_map(all),
        ),
    decreases all.len(),
{
    let order = all.map_values(|p: (Seq<char>, String)| (p.0, p.1@));
    if all.len() > 0 {
        lemma_view_pairs(all.drop_last());
        assert(order.drop_last() =~= all.drop_last().map_values(
            |p: (Seq<char>, String)| (p.0, p.1@),
        ));
    }
    assert(pairs_map(order) =~= texts_of(pairs_map(all)));
}

/// The path of `spark-submit` in a Spark home, in parts.
fn submit_command(home: &String) -> (res: Vec<String>)
    ensures
        views(res@) == submit_path(home@),
{
    let mut parts: Vec<String> = Vec::new();
    parts.push(home.clone());
    parts.push("bin".to_owned());
    parts.push("spark-submit".to_owned());
    assert(views(parts@) =~= submit_path(home@));
    parts
}

/// Launches sessions of the configured Spark versions.
pub struct SparkLauncher {
    pub versions: Vec<SparkVersion>,
    pub callback_addr: String,
    pub launch_timeout: u32,
    pub session_timeout: u32,
    pub plugin_path: String,
}

impl SparkLauncher {
    /// Builds the settings of a session.
    pub fn build_conf(version: &SparkVersion, user_config: ConfigMap) -> (res: ConfigMap)
        ensures
            res.texts() == session_settings(version@, user_config.texts()),
    {
        let mut configs = settings_or_empty(&version.default_configs);
        let ghost defaults = configs;
        configs.extend(user_config);
        proof {
            lemma_texts_union(defaults, user_config, configs);
        }
        let ghost base = configs.texts();
        let ghost merge = settings(version@.merge_configs);
        if let Some(merge_configs) = &version.merge_configs {
            append_all(&mut configs, merge_configs);
        } else {
            assert(with_appended(base, merge) =~= base);
        }
        let forced = settings_or_empty(&version.override_configs);
        let ghost appended = configs;
        configs.extend(forced);
        proof {
            lemma_texts_union(appended, forced, configs);
        }
        configs
    }

    /// Checks that the settings that name files name no local ones: every path must be fully
    /// qualified with a protocol other than `file://`.
    pub fn validate_file_configs(configs: &ConfigMap) -> (res: Result<(), LaunchError>)
        ensures
            match res {
                Ok(()) => file_fault(configs.texts()) is None,
                Err(e) => file_fault(configs.texts()) == Some(e@),
            },
    {
        if let Err(e) = check_setting(configs, "spark.files") {
            return Err(e);
        }
        if let Err(e) = check_setting(configs, "spark.archives") {
            return Err(e);
        }
        check_setting(configs, "spark.submit.pyFiles")
    }

    /// Builds the command that launches a session: the path of `spark-submit`, in parts that the
    /// system's rules join, and its arguments. The user's settings are refused where they name
    /// local files.
    pub fn build_submit_command(
        &self,
        version: &SparkVersion,
        session_id: i32,
        app_name: Option<String>,
        username: String,
        token: String,
        user_config: ConfigMap,
        venv_tarball: Option<String>,
    ) -> (res: Result<(Vec<String>, Vec<String>), LaunchError>)
        ensures
            match res {
                Err(e) => file_fault(user_config.texts()) == Some(e@),
                Ok((path, args)) => {
                    &&& file_fault(user_config.texts()) is None
                    &&& views(path@) == submit_path(version.home@)
                    &&& exists|order: Seq<(Seq<char>, Seq<char>)>|
                        {
                            &&& #[trigger] lists(
                                order,
                                command_settings(
                                    *self,
                                    version@,
                                    session_id as int,
                                    opt_view(app_name),
                                    token@,
                                    user_config.texts(),
                                    opt_view(venv_tarball),
                                ),
                            )
                            &&& views(args@) == submit_args(
                                *self,
                                version@,
                                username@,
                                opt_view(venv_tarball),
                                order,
                            )
                        }
                },
            },
    {
        if let Err(e) = Self::validate_file_configs(&user_config) {
            return Err(e);
        }
        let mut configs = Self::build_conf(version, user_config);

        match app_name {
            Some(name) => put(&mut configs, APP_NAME_CONFIG, name),
            None => {
                if !configs.contains_key(APP_NAME_CONFIG) {
                    let number = signed_decimal_text(session_id);
                    let name = concat2("spark-plug-session-", number.as_str());
                    put(&mut configs, APP_NAME_CONFIG, name);
                }
            },
        }

        put(&mut configs, TOKEN_CONFIG, token);
        put(&mut configs, CALLBACK_CONFIG, self.callback_addr.clone());
        put(&mut configs, TIMEOUT_CONFIG, decimal_text(self.session_timeout as u64));
        put(&mut configs, LISTENER_CONFIG, LISTENER_CLASS.to_owned());
        put(&mut configs, INTERCEPTOR_CONFIG, INTERCEPTOR_CLASS.to_owned());
        put(&mut configs, GRPC_PORT_CONFIG, "0".to_owned());

        let path = submit_command(&version.home);
        let mut args: Vec<String> = Vec::new();
        assert(views(args@) =~= seq![]);

        if let Some(master) = &version.master {
            push_flag(&mut args, "--master", master.clone());
        }
        if let Some(deploy_mode) = &version.deploy_mode {
            push_flag(&mut args, "--deploy-mode", deploy_mode.clone());
        }
        let ghost tarball_view = opt_view(venv_tarball);
        if let Some(tarball) = venv_tarball {
            push_flag(&mut args, "--archives", concat2(tarball.as_str(), "#environment"));
            // Python workers run in a directory of their session, so the environment is in
            // the parent directory.
            put(&mut configs, PYTHON_CONFIG, "../environment/bin/python".to_owned());
        }
        let order = push_conf_flags(&mut args, &configs);
        push_flag(&mut args, "--class", SERVER_CLASS.to_owned());
        if version.proxy_user.unwrap_or(false) {
            push_flag(&mut args, "--proxy-user", username);
        }
        let ghost before = args@;
        args.push(self.plugin_path.clone());
        proof {
            lemma_views_push(before, args@.last());
            assert(args@ =~= before.push(args@.last()));
            assert(views(args@) =~= submit_args(
                *self,
                version@,
                username@,
                tarball_view,
                order@,
            ));
            let all = command_settings(
                *self,
                version@,
                session_id as int,
                opt_view(app_name),
                token@,
                user_config.texts(),
                tarball_view,
            );
            assert(lists(order@, all));
        }
        Ok((path, args))
    }

    /// The launcher that the configuration asks for, on a machine with the given offers, whose
    /// sessions call back at the address of this machine. All of `spark_homes` must be among the
    /// paths that exist.
    pub fn from_config(
        config: &ProxyConfig,
        offers: &MachineOffers,
        existing: &Vec<String>,
    ) -> (res: Result<SparkLauncher, SetupError>)
        ensures
            config.callback_address is Some ==> (res is Ok <==> can_serve(
                *config,
                *offers,
                views(existing@),
            )),
            match res {
                Ok(launcher) => exists|ip: Seq<char>|
                    launcher.serves(
                        *config,
                        *offers,
                        views(existing@),
                        text_or(
                            config.callback_address,
                            #[trigger] callback_url(
                                config.tls is Some,
                                ip,
                                port_or_default(config.bind_port),
                            ),
                        ),
                    ),
                Err(SetupError::NoSpark) => chosen_versions(*config, *offers) is None,
                Err(SetupError::NoLocalAddress) => chosen_versions(*config, *offers) is Some
                    && config.callback_address is None,
                Err(SetupError::NoVersions) => chosen_versions(*config, *offers) == Some(
                    Seq::<SparkVersionView>::empty(),
                ),
                Err(SetupError::MissingHome { name, home }) => lacks_home(
                    *config,
                    *offers,
                    views(existing@),
                    name@,
                    home@,
                ),
            },
    {
        match config.get_callback_addr() {
            Ok(address) => Self::calling_back(config, offers, existing, Some(address)),
            Err(_) => Self::calling_back(config, offers, existing, None),
        }
    }

    /// The launcher that the configuration asks for, on a machine with the given offers, whose
    /// sessions call back at the given address, if there is one. All of `spark_homes` must be
    /// among the paths that exist.
    pub fn calling_back(
        config: &ProxyConfig,
        offers: &MachineOffers,
        existing: &Vec<String>,
        callback_addr: Option<String>,
    ) -> (res: Result<SparkLauncher, SetupError>)
        ensures
            res is Ok <==> callback_addr is Some && can_serve(*config, *offers, views(existing@)),
            match res {
                Ok(launcher) => {
                    &&& callback_addr matches Some(address)
                    &&& launcher.serves(*config, *offers, views(existing@), address@)
                },
                Err(SetupError::NoSpark) => chosen_versions(*config, *offers) is None,
                Err(SetupError::NoLocalAddress) => chosen_versions(*config, *offers) is Some
                    && callback_addr is None,
                Err(SetupError::NoVersions) => chosen_versions(*config, *offers) == Some(
                    Seq::<SparkVersionView>::empty(),
                ) && callback_addr is Some,
                Err(SetupError::MissingHome { name, home }) => lacks_home(
                    *config,
                    *offers,
                    views(existing@),
                    name@,
                    home@,
                ) && callback_addr is Some,
            },
    {
        let versions = match choose_versions(config, offers) {
            Some(versions) => versions,
            None => {
                return Err(SetupError::NoSpark);
            },
        };
        let callback_addr = match callback_addr {
            Some(address) => address,
            None => {
                return Err(SetupError::NoLocalAddress);
            },
        };
        if versions.len() == 0 {
            assert(version_views(versions@) =~= Seq::<SparkVersionView>::empty());
            return Err(SetupError::NoVersions);
        }
        if let Some(i) = missing_home(&versions, existing) {
            assert(is_first_missing(
                version_views(versions@),
                views(existing@),
                i as int,
            ));
            return Err(
                SetupError::MissingHome {
                    name: versions[i].name.clone(),
                    home: versions[i].home.clone(),
                },
            );
        }
        Ok(
            SparkLauncher {
                versions,
                callback_addr,
                launch_timeout: config.launch_timeout.unwrap_or(DEFAULT_LAUNCH_TIMEOUT),
                session_timeout: config.session_timeout.unwrap_or(DEFAULT_SESSION_TIMEOUT),
                plugin_path: choose_plugin(config, offers),
            },
        )
    }

    /// Whether the launcher is the one that the configuration asks for, on a machine with the
    /// given offers where the given paths exist, with sessions that call back at the given
    /// address.
    pub open spec fn serves(
        self,
        config: ProxyConfig,
        offers: MachineOffers,
        existing: Seq<Seq<char>>,
        callback_addr: Seq<char>,
    ) -> bool {
        &&& self.versions@.len() > 0
        &&& chosen_versions(config, offers) == Some(version_views(self.versions@))
        &&& homes_exist(version_views(self.versions@), existing)
        &&& self.callback_addr@ == callback_addr
        &&& self.launch_timeout == (match config.launch_timeout {
            Some(seconds) => seconds,
            None => DEFAULT_LAUNCH_TIMEOUT,
        })
        &&& self.session_timeout == (match config.session_timeout {
            Some(seconds) => seconds,
            None => DEFAULT_SESSION_TIMEOUT,
        })
        &&& self.plugin_path@ == chosen_plugin(config, offers)
    }

    /// The names of the versions.
    pub fn get_versions(&self) -> (res: Vec<String>)
        ensures
            views(res@) == version_names(self.versions@),
    {
        let mut names: Vec<String> = Vec::new();
        let mut i: usize = 0;
        while i < self.versions.len()
            invariant
                i <= self.versions.len(),
                views(names@) == version_names(self.versions@).take(i as int),
            decreases self.versions.len() - i,
        {
            let ghost before = names@;
            names.push(self.versions[i].name.clone());
            proof {
                lemma_views_push(before, names@.last());
                assert(names@ =~= before.push(names@.last()));
                assert(version_names(self.versions@).take(i + 1) =~= version_names(
                    self.versions@,
                ).take(i as int).push(self.versions@[i as int].name@));
            }
            i += 1;
        }
        assert(version_names(self.versions@).take(i as int) =~= version_names(self.versions@));
        names
    }

    /// The version to launch: the first of the requested name, or the first of all where no
    /// name is requested.
    pub fn select_version(&self, version_name: Option<&str>) -> (res: Result<
        &SparkVersion,
        LaunchError,
    >)
        requires
            version_name is None ==> self.versions@.len() > 0,
        ensures
            match res {
                Ok(version) => {
                    &&& self.versions@.contains(*version)
                    &&& selects(self.versions@, version_name, *version)
                },
                Err(e) => {
                    &&& version_name matches Some(name)
                    &&& e@ == LaunchErrorView::VersionNotFound { name: name@ }
                    &&& !version_names(self.versions@).contains(name@)
                },
            },
    {
        let name = match version_name {
            Some(name) => name,
            None => {
                return Ok(&self.versions[0]);
            },
        };
        let mut i: usize = 0;
        while i < self.versions.len()
            invariant
                i <= self.versions.len(),
                version_name == Some(name),
                forall|j: int| 0 <= j < i ==> (#[trigger] self.versions@[j]).name@ != name@,
            decreases self.versions.len() - i,
        {
            if equals(self.versions[i].name.as_str(), name) {
                return Ok(&self.versions[i]);
            }
            i += 1;
        }
        Err(LaunchError::VersionNotFound { name: name.to_owned() })
    }

    /// What launching a session of the given version needs first: the version, the
    /// environment of the process, and the virtual environment to build, if packages are
    /// requested.
    pub fn plan_launch(
        &self,
        version_name: Option<&str>,
        python_packages: Option<Vec<String>>,
        macos: bool,
    ) -> (res: Result<LaunchPlan, LaunchError>)
        requires
            version_name is None ==> self.versions@.len() > 0,
        ensures
            match res {
                Ok(plan) => {
                    &&& self.versions@.contains(*plan.version)
                    &&& selects(self.versions@, version_name, *plan.version)
                    &&& plan.env.texts() == process_env(plan.version@, macos)
                    &&& match plan.venv {
                        Some(venv) => {
                            &&& wants_packages(python_packages)
                            &&& Some(venv.python@) == plan.version@.python_executable
                            &&& venv.packages == python_packages->0
                        },
                        None => !wants_packages(python_packages),
                    }
                },
                Err(e) => {
                    ||| {
                        &&& version_name matches Some(name)
                        &&& !version_names(self.versions@).contains(name@)
                        &&& e@ == LaunchErrorView::VersionNotFound { name: name@ }
                    }
                    ||| {
                        &&& exists|version: SparkVersion| #[trigger]
                            self.versions@.contains(version) && selects(
                                self.versions@,
                                version_name,
                                version,
                            ) && version.python_executable is None
                        &&& wants_packages(python_packages)
                        &&& e@ == LaunchErrorView::NoPython
                    }
                },
            },
    {
        let version = match self.select_version(version_name) {
            Ok(version) => version,
            Err(e) => {
                return Err(e);
            },
        };
        let mut env = settings_or_empty(&version.env);
        put(&mut env, "SPARK_HOME", version.home.clone());
        // Spark has trouble with the actual address of the host on Macs.
        if macos {
            put(&mut env, "SPARK_LOCAL_IP", "127.0.0.1".to_owned());
        }
        let venv = match python_packages {
            Some(packages) => if packages.len() == 0 {
                None
            } else {
                match &version.python_executable {
                    Some(python) => Some(VenvRequest { python: python.clone(), packages }),
                    None => {
                        return Err(LaunchError::NoPython);
                    },
                }
            },
            None => None,
        };
        Ok(LaunchPlan { version, env, venv })
    }
}

/// The launch timeout where the configuration names none, in seconds.
pub const DEFAULT_LAUNCH_TIMEOUT: u32 = 300;

/// The idle timeout of a session where the configuration names none, in seconds.
pub const DEFAULT_SESSION_TIMEOUT: u32 = 3600;

/// Why there is nothing to launch sessions with.
#[derive(Debug)]
pub enum SetupError {
    /// No version is configured and no Spark installation was found.
    NoSpark,
    /// The list of configured versions is empty.
    NoVersions,
    /// No callback address is configured and the machine has no local address.
    NoLocalAddress,
    /// The home of the version of this name does not exist.
    MissingHome { name: String, home: String },
}

impl SetupError {
    /// The error in words.
    pub open spec fn words(self) -> Seq<char> {
        match self {
            SetupError::NoSpark => "Unable to find a default Spark installation"@,
            SetupError::NoVersions => "No Spark versions provided"@,
            SetupError::NoLocalAddress => "The machine has no local address"@,
            SetupError::MissingHome { name, home } => "Home directory not found for version "@
                + name@ + ": "@ + home@,
        }
    }

    /// The error in words.
    pub fn message(&self) -> (res: String)
        ensures
            res@ == self.words(),
    {
        match self {
            SetupError::NoSpark => "Unable to find a default Spark installation".to_owned(),
            SetupError::NoVersions => "No Spark versions provided".to_owned(),
            SetupError::NoLocalAddress => "The machine has no local address".to_owned(),
            SetupError::MissingHome { name, home } => {
                let start = concat3("Home directory not found for version ", name.as_str(), ": ");
                concat2(start.as_str(), home.as_str())
            },
        }
    }
}

/// What the machine offers where the configuration is silent.
pub struct MachineOffers {
    /// The value of `SPARK_HOME`.
    pub spark_home: Option<String>,
    /// What `find_spark_home.py` printed, where it is on the path.
    pub printed_home: Option<String>,
    /// The Spark home of the `spark-submit` on the path.
    pub submit_home: Option<String>,
    /// The path of `python3`.
    pub python: Option<String>,
    /// The path of the plugin, where it comes with the program.
    pub embedded_plugin: Option<String>,
    /// The directory of the program's sources.
    pub source_dir: String,
}

/// Whether the homes of all versions exist.
pub open spec fn homes_exist(versions: Seq<SparkVersionView>, existing: Seq<Seq<char>>) -> bool {
    forall|i: int| 0 <= i < versions.len() ==> existing.contains((#[trigger] versions[i]).home)
}

/// Whether there are versions to launch, and all of their homes exist.
pub open spec fn can_serve(
    config: ProxyConfig,
    offers: MachineOffers,
    existing: Seq<Seq<char>>,
) -> bool {
    &&& chosen_versions(config, offers) matches Some(versions)
    &&& versions.len() > 0
    &&& homes_exist(versions, existing)
}

/// Whether the version at the position is the first whose home does not exist.
pub open spec fn is_first_missing(
    versions: Seq<SparkVersionView>,
    existing: Seq<Seq<char>>,
    i: int,
) -> bool {
    &&& 0 <= i < versions.len()
    &&& !existing.contains(versions[i].home)
    &&& homes_exist(versions.take(i), existing)
}

/// Whether the first of the chosen versions whose home does not exist has this name and home.
pub open spec fn lacks_home(
    config: ProxyConfig,
    offers: MachineOffers,
    existing: Seq<Seq<char>>,
    name: Seq<char>,
    home: Seq<char>,
) -> bool {
    &&& chosen_versions(config, offers) matches Some(versions)
    &&& exists|i: int|
        {
            &&& #[trigger] is_first_missing(versions, existing, i)
            &&& versions[i].name == name
            &&& versions[i].home == home
        }
}

/// The homes of the versions that the configuration and the machine offer, in their order; none
/// where no version is found.
pub fn spark_homes(config: &ProxyConfig, offers: &MachineOffers) -> (res: Vec<String>)
    ensures
        views(res@) == (match chosen_versions(*config, *offers) {
            Some(versions) => versions.map_values(|v: SparkVersionView| v.home),
            None => seq![],
        }),
{
    let mut homes: Vec<String> = Vec::new();
    let versions = match choose_versions(config, offers) {
        Some(versions) => versions,
        None => {
            assert(views(homes@) =~= seq![]);
            return homes;
        },
    };
    let ghost all = version_views(versions@).map_values(|v: SparkVersionView| v.home);
    let mut i: usize = 0;
    while i < versions.len()
        invariant
            i <= versions.len(),
            all == version_views(versions@).map_values(|v: SparkVersionView| v.home),
            views(homes@) == all.take(i as int),
        decreases versions.len() - i,
    {
        let ghost before = homes@;
        homes.push(versions[i].home.clone());
        proof {
            lemma_views_push(before, homes@.last());
            assert(homes@ =~= before.push(homes@.last()));
            assert(all.take(i + 1) =~= all.take(i as int).push(versions@[i as int].home@));
        }
        i += 1;
    }
    assert(all.take(i as int) =~= all);
    homes
}

/// Whether the path is among the given ones.
fn is_among(path: &str, paths: &Vec<String>) -> (res: bool)
    ensures
        res == views(paths@).contains(path@),
{
    let mut i: usize = 0;
    while i < paths.len()
        invariant
            i <= paths.len(),
            forall|j: int| 0 <= j < i ==> #[trigger] views(paths@)[j] != path@,
        decreases paths.len() - i,
    {
        if equals(paths[i].as_str(), path) {
            assert(views(paths@)[i as int] == path@);
            return true;
        }
        i += 1;
    }
    false
}

/// The position of the first version whose home does not exist, if there is one.
pub fn missing_home(versions: &Vec<SparkVersion>, existing: &Vec<String>) -> (res: Option<usize>)
    ensures
        match res {
            Some(i) => is_first_missing(version_views(versions@), views(existing@), i as int),
            None => homes_exist(version_views(versions@), views(existing@)),
        },
{
    let mut i: usize = 0;
    while i < versions.len()
        invariant
            i <= versions.len(),
            homes_exist(version_views(versions@).take(i as int), views(existing@)),
        decreases versions.len() - i,
    {
        assert(version_views(versions@)[i as int] == versions@[i as int]@);
        if !is_among(versions[i].home.as_str(), existing) {
            return Some(i);
        }
        let ghost seen = version_views(versions@).take(i + 1);
        assert forall|j: int| 0 <= j < seen.len() implies views(existing@).contains(
            (#[trigger] seen[j]).home,
        ) by {
            if j < i {
                assert(seen[j] == version_views(versions@).take(i as int)[j]);
            }
        }
        i += 1;
    }
    assert(version_views(versions@).take(i as int) =~= version_views(versions@));
    None
}

/// The views of a sequence of versions.
pub open spec fn version_views(versions: Seq<SparkVersion>) -> Seq<SparkVersionView> {
    versions.map_values(|v: SparkVersion| v@)
}

/// The names of a sequence of versions.
pub open spec fn version_names(versions: Seq<SparkVersion>) -> Seq<Seq<char>> {
    versions.map_values(|v: SparkVersion| v.name@)
}

/// The version that a machine offers, at the given home.
pub open spec fn offered_version(home: Seq<char>, python: Option<Seq<char>>) -> SparkVersionView {
    SparkVersionView { python_executable: python, ..bare_version("default"@, home) }
}

/// The Spark home of a machine: the one that the environment names, or the one that
/// `find_spark_home.py` printed, or that of `spark-submit`.
pub open spec fn offered_home(offers: MachineOffers) -> Option<Seq<char>> {
    match (offers.spark_home, offers.printed_home, offers.submit_home) {
        (Some(home), _, _) => Some(home@),
        (None, Some(output), _) => Some(trimmed_end(output@)),
        (None, None, Some(home)) => Some(home@),
        (None, None, None) => None,
    }
}

/// The versions to offer: the configured ones, or the machine's own.
pub open spec fn chosen_versions(config: ProxyConfig, offers: MachineOffers) -> Option<
    Seq<SparkVersionView>,
> {
    match (config.spark_versions, offered_home(offers)) {
        (Some(versions), _) => Some(version_views(versions@)),
        (None, Some(home)) => Some(seq![offered_version(home, opt_view(offers.python))]),
        (None, None) => None,
    }
}

/// The path of the plugin: the one that comes with the program, or the configured one, or the
/// one that a build of the sources leaves.
pub open spec fn chosen_plugin(config: ProxyConfig, offers: MachineOffers) -> Seq<char> {
    match offers.embedded_plugin {
        Some(path) => path@,
        None => text_or(
            config.plugin_path,
            offers.source_dir@ + "/../plugin/target/scala-2.13/spark-plug_2.13-0.1.0.jar"@,
        ),
    }
}

fn machine_version(home: String, python: &Option<String>) -> (res: Vec<SparkVersion>)
    ensures
        version_views(res@) == seq![offered_version(home@, opt_view(*python))],
{
    let version = SparkVersion {
        name: "default".to_owned(),
        home,
        python_executable: python.clone(),
        ..Default::default()
    };
    let mut versions: Vec<SparkVersion> = Vec::new();
    versions.push(version);
    assert(version_views(versions@) =~= seq![version@]);
    versions
}

fn choose_versions(config: &ProxyConfig, offers: &MachineOffers) -> (res: Option<
    Vec<SparkVersion>,
>)
    ensures
        match res {
            Some(versions) => chosen_versions(*config, *offers) == Some(version_views(versions@)),
            None => chosen_versions(*config, *offers) is None,
        },
{
    if let Some(given) = &config.spark_versions {
        let mut versions: Vec<SparkVersion> = Vec::new();
        let mut i: usize = 0;
        while i < given.len()
            invariant
                i <= given.len(),
                version_views(versions@) == version_views(given@).take(i as int),
            decreases given.len() - i,
        {
            let ghost before = versions@;
            let version = given[i].clone();
            versions.push(version);
            assert(version_views(versions@) =~= version_views(before).push(version@));
            assert(version_views(given@).take(i + 1) =~= version_views(given@).take(
                i as int,
            ).push(given@[i as int]@));
            i += 1;
        }
        assert(version_views(given@).take(i as int) =~= version_views(given@));
        return Some(versions);
    }
    let home = match (&offers.spark_home, &offers.printed_home, &offers.submit_home) {
        (Some(home), _, _) => home.clone(),
        (None, Some(output), _) => printed_spark_home(output.as_str()),
        (None, None, Some(home)) => home.clone(),
        (None, None, None) => {
            return None;
        },
    };
    Some(machine_version(home, &offers.python))
}

fn choose_plugin(config: &ProxyConfig, offers: &MachineOffers) -> (res: String)
    ensures
        res@ == chosen_plugin(*config, *offers),
{
    match (&offers.embedded_plugin, &config.plugin_path) {
        (Some(path), _) => path.clone(),
        (None, Some(path)) => path.clone(),
        (None, None) => concat2(
            offers.source_dir.as_str(),
            "/../plugin/target/scala-2.13/spark-plug_2.13-0.1.0.jar",
        ),
    }
}

/// The Spark home that `find_spark_home.py` printed.
pub fn printed_spark_home(output: &str) -> (res: String)
    ensures
        res@ == trimmed_end(output@),
{
    trim_end(output)
}

/// What a launch needs before its command can be built.
pub struct LaunchPlan<'a> {
    pub version: &'a SparkVersion,
    pub env: ConfigMap,
    pub venv: Option<VenvRequest>,
}

/// Whether any package is requested.
pub open spec fn wants_packages(packages: Option<Vec<String>>) -> bool {
    packages matches Some(p) && p@.len() > 0
}

/// Whether a request for a version is for `version`: it is the first of its name, or the first
/// of all.
pub open spec fn selects(
    versions: Seq<SparkVersion>,
    version_name: Option<&str>,
    version: SparkVersion,
) -> bool {
    match version_name {
        None => versions.len() > 0 && version == versions[0],
        Some(name) => exists|i: int|
            {
                &&& 0 <= i < versions.len()
                &&& #[trigger] versions[i] == version
                &&& version.name@ == name@
                &&& forall|j: int| 0 <= j < i ==> (#[trigger] versions[j]).name@ != name@
            },
    }
}

/// What happens to a launch.
#[derive(Clone, Copy, PartialEq, Eq, Structural, Debug)]
pub enum LaunchEvent {
    /// The process of the launch has ended, with or without success.
    ProcessEnded { success: bool },
    /// The launch timeout has passed.
    TimedOut,
}

/// Whether a launch is over. One whose process has ended with success is not: the application
/// may still call back, until the timeout.
pub fn launch_is_over(event: LaunchEvent) -> (res: bool)
    ensures
        res == (event != (LaunchEvent::ProcessEnded { success: true })),
{
    match event {
        LaunchEvent::ProcessEnded { success } => !success,
        LaunchEvent::TimedOut => true,
    }
}

/// The environment of a session's process.
pub open spec fn process_env(version: SparkVersionView, macos: bool) -> Map<
    Seq<char>,
    Seq<char>,
> {
    let env = settings(version.env).insert("SPARK_HOME"@, version.home);
    if macos {
        env.insert("SPARK_LOCAL_IP"@, "127.0.0.1"@)
    } else {
        env
    }
}

/// Whether the setting ties a session to this server.
pub open spec fn is_internal(key: Seq<char>) -> bool {
    ||| key == TOKEN_CONFIG@
    ||| key == CALLBACK_CONFIG@
    ||| key == TIMEOUT_CONFIG@
    ||| key == LISTENER_CONFIG@
    ||| key == INTERCEPTOR_CONFIG@
    ||| key == GRPC_PORT_CONFIG@
}

/// The settings that tie a session to this server do not depend on what the user or the
/// version asks for: two sessions with the same token get the same ones.
pub proof fn law_internal_settings_win(
    launcher: SparkLauncher,
    version: SparkVersionView,
    other_version: SparkVersionView,
    session_id: int,
    other_id: int,
    app_name: Option<Seq<char>>,
    other_name: Option<Seq<char>>,
    token: Seq<char>,
    user: Map<Seq<char>, Seq<char>>,
    other_user: Map<Seq<char>, Seq<char>>,
    venv_tarball: Option<Seq<char>>,
    other_tarball: Option<Seq<char>>,
    key: Seq<char>,
)
    requires
        is_internal(key),
    ensures
        ({
            let one = command_settings(
                launcher,
                version,
                session_id,
                app_name,
                token,
                user,
                venv_tarball,
            );
            let other = command_settings(
                launcher,
                other_version,
                other_id,
                other_name,
                token,
                other_user,
                other_tarball,
            );
            one.contains_key(key) && other.contains_key(key) && one[key] == other[key]
        }),
{
    lemma_setting_names();
}

/// Every session carries its own token, so that the server can tell it by its callback.
pub proof fn law_session_carries_token(
    launcher: SparkLauncher,
    version: SparkVersionView,
    session_id: int,
    app_name: Option<Seq<char>>,
    token: Seq<char>,
    user: Map<Seq<char>, Seq<char>>,
    venv_tarball: Option<Seq<char>>,
)
    ensures
        ({
            let configs = command_settings(
                launcher,
                version,
                session_id,
                app_name,
                token,
                user,
                venv_tarball,
            );
            configs.contains_key(TOKEN_CONFIG@) && configs[TOKEN_CONFIG@] == token
        }),
{
    lemma_setting_names();
}

/// What a version forces wins over what the user asks for.
pub proof fn law_override_wins(
    version: SparkVersionView,
    user: Map<Seq<char>, Seq<char>>,
    key: Seq<char>,
)
    requires
        settings(version.override_configs).contains_key(key),
    ensures
        session_settings(version, user).contains_key(key),
        session_settings(version, user)[key] == settings(version.override_configs)[key],
{
}

/// What the user asks for wins over the version's default, unless the version forces the
/// setting or appends to it.
pub proof fn law_user_wins_over_default(
    version: SparkVersionView,
    user: Map<Seq<char>, Seq<char>>,
    key: Seq<char>,
)
    requires
        user.contains_key(key),
        !settings(version.override_configs).contains_key(key),
        !settings(version.merge_configs).contains_key(key),
    ensures
        session_settings(version, user).contains_key(key),
        session_settings(version, user)[key] == user[key],
{
}

/// What a version appends to a setting stands behind what the user asks for, after a comma.
pub proof fn law_merged_setting_is_appended(
    version: SparkVersionView,
    user: Map<Seq<char>, Seq<char>>,
    key: Seq<char>,
)
    requires
        user.contains_key(key),
        settings(version.merge_configs).contains_key(key),
        !settings(version.override_configs).contains_key(key),
    ensures
        session_settings(version, user).contains_key(key),
        session_settings(version, user)[key] == user[key] + ","@ + settings(
            version.merge_configs,
        )[key],
{
}

/// Where the check of file settings passes, every path in each of those settings is blank, or
/// holds `://` and does not begin with `file://`.
pub proof fn law_every_accepted_path_is_checked(
    configs: Map<Seq<char>, Seq<char>>,
    key: Seq<char>,
    i: int,
)
    requires
        file_fault(configs) is None,
        key == "spark.files"@ || key == "spark.archives"@ || key == "spark.submit.pyFiles"@,
        configs.contains_key(key),
        0 <= i < pieces(configs[key], ',').len(),
    ensures
        ({
            let path = trimmed(pieces(configs[key], ',')[i]);
            path.len() == 0 || (occurs("://"@, path) && !"file://"@.is_prefix_of(path))
        }),
{
    lemma_no_path_fault(key, pieces(configs[key], ','), i);
}

proof fn lemma_no_path_fault(key: Seq<char>, paths: Seq<Seq<char>>, i: int)
    requires
        first_path_fault(key, paths) is None,
        0 <= i < paths.len(),
    ensures
        path_fault(key, paths[i]) is None,
    decreases paths.len(),
{
    if i > 0 {
        lemma_no_path_fault(key, paths.drop_first(), i - 1);
    }
}

/// The names of the settings differ.
proof fn lemma_setting_names()
    ensures
        TOKEN_CONFIG@ != CALLBACK_CONFIG@,
        TOKEN_CONFIG@ != TIMEOUT_CONFIG@,
        TOKEN_CONFIG@ != LISTENER_CONFIG@,
        TOKEN_CONFIG@ != INTERCEPTOR_CONFIG@,
        TOKEN_CONFIG@ != GRPC_PORT_CONFIG@,
        TOKEN_CONFIG@ != PYTHON_CONFIG@,
        CALLBACK_CONFIG@ != PYTHON_CONFIG@,
        TIMEOUT_CONFIG@ != PYTHON_CONFIG@,
        LISTENER_CONFIG@ != PYTHON_CONFIG@,
        INTERCEPTOR_CONFIG@ != PYTHON_CONFIG@,
        GRPC_PORT_CONFIG@ != PYTHON_CONFIG@,
{
    reveal_strlit("spark.connect.authenticate.token");
    reveal_strlit("spark.plug.callback");
    reveal_strlit("spark.plug.idle.timeout");
    reveal_strlit("spark.extraListeners");
    reveal_strlit("spark.connect.grpc.interceptor.classes");
    reveal_strlit("spark.connect.grpc.binding.port");
    reveal_strlit("spark.sql.execution.pyspark.python");
    assert(TOKEN_CONFIG@.len() == 32);
    assert(GRPC_PORT_CONFIG@.len() == 31);
    assert(PYTHON_CONFIG@.len() == 34);
}

} // verus!
