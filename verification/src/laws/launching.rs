//! Laws of launching sessions.
use crate::config::{
    callback_url, opt_texts, port_or_default, settings, text_or, ConfigMap, ProxyConfig,
    SparkVersion,
};
use crate::launcher::{
    chosen_versions, command_settings, conf_flags, first_path_fault, flag, is_first_missing,
    lacks_home, launch_is_over, lists, missing_home, offered_home, path_fault,
    printed_spark_home, selects, setting_fault, spark_homes, submit_args, version_names,
    version_views, ErrorKind, LaunchError, LaunchEvent, LaunchPlan, MachineOffers,
    SetupError, SparkLauncher,
};
use crate::text::{decimal, occurs, opt_view, pieces, signed_decimal, trimmed, trimmed_end, views};
use crate::text_map::{distinct_keys, pairs_map};
use vstd::prelude::*;

verus! {

/// What a map holds under a name.
pub open spec fn held(configs: ConfigMap, key: Seq<char>) -> Option<Seq<char>> {
    if configs@.contains_key(key) {
        Some(configs@[key]@)
    } else {
        None
    }
}

/// What an optional map holds under a name: nothing where there is no map.
pub open spec fn held_in(configs: Option<ConfigMap>, key: Seq<char>) -> Option<Seq<char>> {
    match configs {
        Some(c) => held(c, key),
        None => None,
    }
}

/// What a map holds is what its texts are.
proof fn lemma_held(configs: ConfigMap, key: Seq<char>)
    ensures
        configs.texts().contains_key(key) <==> held(configs, key) is Some,
        configs.texts().contains_key(key) ==> held(configs, key) == Some(configs.texts()[key]),
{
}

proof fn lemma_held_in(configs: Option<ConfigMap>, key: Seq<char>)
    ensures
        settings(opt_texts(configs)).contains_key(key) <==> held_in(configs, key) is Some,
        settings(opt_texts(configs)).contains_key(key) ==> held_in(configs, key) == Some(
            settings(opt_texts(configs))[key],
        ),
{
    if let Some(c) = configs {
        lemma_held(c, key);
    }
}

/// What a version forces stands in the settings of its sessions as it is, whatever anyone else
/// asks for.
pub proof fn law_forced_setting_stands(
    version: SparkVersion,
    user: ConfigMap,
    res: ConfigMap,
    key: Seq<char>,
)
    requires
        call_ensures(SparkLauncher::build_conf, (&version, user), res),
        held_in(version.override_configs, key) is Some,
    ensures
        held(res, key) == held_in(version.override_configs, key),
{
    lemma_held(res, key);
    lemma_held_in(version.override_configs, key);
}

/// What a version merges is appended, after a comma, to what the user asks for, or else to the
/// version's default; it stands alone where there is neither.
pub proof fn law_merged_setting_follows_what_it_finds(
    version: SparkVersion,
    user: ConfigMap,
    res: ConfigMap,
    key: Seq<char>,
)
    requires
        call_ensures(SparkLauncher::build_conf, (&version, user), res),
        held_in(version.override_configs, key) is None,
        held_in(version.merge_configs, key) is Some,
    ensures
        ({
            let merge = held_in(version.merge_configs, key)->0;
            match (held(user, key), held_in(version.default_configs, key)) {
                (Some(own), _) => held(res, key) == Some(own + ","@ + merge),
                (None, Some(default)) => held(res, key) == Some(default + ","@ + merge),
                (None, None) => held(res, key) == Some(merge),
            }
        }),
{
    lemma_held(res, key);
    lemma_held(user, key);
    lemma_held_in(version.override_configs, key);
    lemma_held_in(version.merge_configs, key);
    lemma_held_in(version.default_configs, key);
}

/// A setting that the version neither forces nor merges is the user's, or else the version's
/// default; one that nobody sets is not set.
pub proof fn law_plain_setting_is_the_users_or_the_default(
    version: SparkVersion,
    user: ConfigMap,
    res: ConfigMap,
    key: Seq<char>,
)
    requires
        call_ensures(SparkLauncher::build_conf, (&version, user), res),
        held_in(version.override_configs, key) is None,
        held_in(version.merge_configs, key) is None,
    ensures
        held(res, key) == (match held(user, key) {
            Some(own) => Some(own),
            None => held_in(version.default_configs, key),
        }),
{
    lemma_held(res, key);
    lemma_held(user, key);
    lemma_held_in(version.override_configs, key);
    lemma_held_in(version.merge_configs, key);
    lemma_held_in(version.default_configs, key);
}

/// What is asked of the launcher for one session.
pub struct Launch {
    pub launcher: SparkLauncher,
    pub version: SparkVersion,
    pub session_id: i32,
    pub app_name: Option<String>,
    pub username: String,
    pub token: String,
    pub user: ConfigMap,
    pub venv: Option<String>,
}

impl Launch {
    /// Whether the launcher gives this result.
    pub open spec fn gives(self, res: Result<(Vec<String>, Vec<String>), LaunchError>) -> bool {
        call_ensures(
            SparkLauncher::build_submit_command,
            (
                &self.launcher,
                &self.version,
                self.session_id,
                self.app_name,
                self.username,
                self.token,
                self.user,
                self.venv,
            ),
            res,
        )
    }

    /// Whether the launcher gives this command.
    pub open spec fn runs(self, path: Vec<String>, args: Vec<String>) -> bool {
        self.gives(Ok((path, args)))
    }
}

/// The values of a flag in arguments that are flags with a value each: what follows each argument
/// of that name.
pub open spec fn values_of(args: Seq<Seq<char>>, name: Seq<char>) -> Seq<Seq<char>>
    decreases args.len(),
{
    if args.len() < 2 {
        seq![]
    } else if args[0] == name {
        seq![args[1]] + values_of(args.skip(2), name)
    } else {
        values_of(args.skip(2), name)
    }
}

/// A value, as a row of one, or of none.
pub open spec fn at_most_one(value: Option<Seq<char>>) -> Seq<Seq<char>> {
    match value {
        Some(v) => seq![v],
        None => seq![],
    }
}

proof fn lemma_values_add(a: Seq<Seq<char>>, b: Seq<Seq<char>>, name: Seq<char>)
    requires
        a.len() % 2 == 0,
    ensures
        values_of(a + b, name) == values_of(a, name) + values_of(b, name),
    decreases a.len(),
{
    if a.len() == 0 {
        assert(a + b =~= b);
        assert(values_of(a, name) + values_of(b, name) =~= values_of(b, name));
    } else {
        lemma_values_add(a.skip(2), b, name);
        assert((a + b).skip(2) =~= a.skip(2) + b);
        if a[0] == name {
            assert(seq![a[1]] + (values_of(a.skip(2), name) + values_of(b, name)) =~= (seq![a[1]]
                + values_of(a.skip(2), name)) + values_of(b, name));
        }
    }
}

proof fn lemma_values_of_pair(first: Seq<char>, second: Seq<char>, name: Seq<char>)
    ensures
        values_of(seq![first, second], name) == (if first == name {
            seq![second]
        } else {
            seq![]
        }),
{
    let pair = seq![first, second];
    assert(pair.skip(2) =~= seq![]);
    assert(values_of(pair.skip(2), name) =~= seq![]);
    assert(seq![second] + Seq::<Seq<char>>::empty() =~= seq![second]);
}

/// The settings as the values of `--conf`.
pub open spec fn conf_texts(order: Seq<(Seq<char>, Seq<char>)>) -> Seq<Seq<char>> {
    order.map_values(|p: (Seq<char>, Seq<char>)| p.0 + "="@ + p.1)
}

proof fn lemma_conf_flags(order: Seq<(Seq<char>, Seq<char>)>, name: Seq<char>)
    ensures
        conf_flags(order).len() == 2 * order.len(),
        values_of(conf_flags(order), name) == (if name == "--conf"@ {
            conf_texts(order)
        } else {
            seq![]
        }),
    decreases order.len(),
{
    if order.len() == 0 {
        assert(conf_texts(order) =~= seq![]);
    } else {
        let rest = order.drop_last();
        let last = order.last();
        let text = last.0 + "="@ + last.1;
        lemma_conf_flags(rest, name);
        lemma_values_add(conf_flags(rest), seq!["--conf"@, text], name);
        lemma_values_of_pair("--conf"@, text, name);
        if name == "--conf"@ {
            assert(conf_texts(order) =~= conf_texts(rest) + seq![text]);
        } else {
            assert(values_of(conf_flags(order), name) =~= seq![]);
        }
    }
}

proof fn lemma_flag_names_differ()
    ensures
        "--master"@.len() == 8,
        "--deploy-mode"@.len() == 13,
        "--archives"@.len() == 10,
        "--conf"@.len() == 6,
        "--class"@.len() == 7,
        "--proxy-user"@.len() == 12,
{
    reveal_strlit("--master");
    reveal_strlit("--deploy-mode");
    reveal_strlit("--archives");
    reveal_strlit("--conf");
    reveal_strlit("--class");
    reveal_strlit("--proxy-user");
}

proof fn lemma_flag(name: Seq<char>, value: Option<Seq<char>>, asked: Seq<char>)
    ensures
        flag(name, value).len() % 2 == 0,
        values_of(flag(name, value), asked) == (if name == asked {
            at_most_one(value)
        } else {
            seq![]
        }),
{
    if let Some(v) = value {
        lemma_values_of_pair(name, v, asked);
    }
}

/// The values of each flag of a command.
proof fn lemma_command_values(
    launcher: SparkLauncher,
    version: SparkVersion,
    username: Seq<char>,
    venv: Option<Seq<char>>,
    order: Seq<(Seq<char>, Seq<char>)>,
    name: Seq<char>,
)
    ensures
        ({
            let args = submit_args(launcher, version@, username, venv, order);
            &&& args.len() % 2 == 1
            &&& args.last() == launcher.plugin_path@
            &&& values_of(args, name) == (if name == "--master"@ {
                at_most_one(opt_view(version.master))
            } else if name == "--deploy-mode"@ {
                at_most_one(opt_view(version.deploy_mode))
            } else if name == "--archives"@ {
                match venv {
                    Some(tarball) => seq![tarball + "#environment"@],
                    None => seq![],
                }
            } else if name == "--conf"@ {
                conf_texts(order)
            } else if name == "--class"@ {
                seq!["org.apache.spark.sql.sparkplug.SparkPlugServer"@]
            } else if name == "--proxy-user"@ {
                if version.proxy_user == Some(true) {
                    seq![username]
                } else {
                    seq![]
                }
            } else {
                seq![]
            })
        }),
{
    lemma_flag_names_differ();
    let class = "org.apache.spark.sql.sparkplug.SparkPlugServer"@;
    let tarball = match venv {
        Some(t) => Some(t + "#environment"@),
        None => None,
    };
    let proxy = if version.proxy_user == Some(true) {
        Some(username)
    } else {
        None
    };
    let a = flag("--master"@, version@.master);
    let b = flag("--deploy-mode"@, version@.deploy_mode);
    let c = flag("--archives"@, tarball);
    let d = conf_flags(order);
    let e = seq!["--class"@, class];
    let f = flag("--proxy-user"@, proxy);
    let g = seq![launcher.plugin_path@];
    assert(submit_args(launcher, version@, username, venv, order) =~= a + b + c + d + e + f + g);
    lemma_flag("--master"@, version@.master, name);
    lemma_flag("--deploy-mode"@, version@.deploy_mode, name);
    lemma_flag("--archives"@, tarball, name);
    lemma_conf_flags(order, name);
    lemma_values_of_pair("--class"@, class, name);
    lemma_flag("--proxy-user"@, proxy, name);
    assert(values_of(g, name) =~= seq![]);
    lemma_values_add(a, b, name);
    lemma_values_add(a + b, c, name);
    lemma_values_add(a + b + c, d, name);
    lemma_values_add(a + b + c + d, e, name);
    lemma_values_add(a + b + c + d + e, f, name);
    lemma_values_add(a + b + c + d + e + f, g, name);
    let all = values_of(a, name) + values_of(b, name) + values_of(c, name) + values_of(d, name)
        + values_of(e, name) + values_of(f, name) + values_of(g, name);
    if name == "--master"@ {
        assert(all =~= values_of(a, name));
    } else if name == "--deploy-mode"@ {
        assert(all =~= values_of(b, name));
    } else if name == "--archives"@ {
        assert(all =~= values_of(c, name));
    } else if name == "--conf"@ {
        assert(all =~= values_of(d, name));
    } else if name == "--class"@ {
        assert(all =~= values_of(e, name));
    } else if name == "--proxy-user"@ {
        assert(all =~= values_of(f, name));
    } else {
        assert(all =~= seq![]);
    }
}

/// The program is `bin/spark-submit` in the home of the version. Its arguments are flags with a
/// value each, and the plugin behind them.
pub proof fn law_command_ends_with_the_plugin(launch: Launch, path: Vec<String>, args: Vec<String>)
    requires
        launch.runs(path, args),
    ensures
        views(path@) == seq![launch.version.home@, "bin"@, "spark-submit"@],
        args@.len() % 2 == 1,
        args@.last()@ == launch.launcher.plugin_path@,
{
    let order = lemma_order(launch, path, args);
    lemma_command_values(
        launch.launcher,
        launch.version,
        launch.username@,
        opt_view(launch.venv),
        order,
        "--conf"@,
    );
    assert(views(args@).last() == args@.last()@);
}

/// The order in which the settings are listed.
proof fn lemma_order(launch: Launch, path: Vec<String>, args: Vec<String>) -> (order: Seq<
    (Seq<char>, Seq<char>),
>)
    requires
        launch.runs(path, args),
    ensures
        lists(order, sent_settings(launch)),
        views(args@) == submit_args(
            launch.launcher,
            launch.version@,
            launch.username@,
            opt_view(launch.venv),
            order,
        ),
{
    choose|order: Seq<(Seq<char>, Seq<char>)>| #[trigger]
        lists(order, sent_settings(launch)) && views(args@) == submit_args(
            launch.launcher,
            launch.version@,
            launch.username@,
            opt_view(launch.venv),
            order,
        )
}

/// The settings of a session.
pub open spec fn sent_settings(launch: Launch) -> Map<Seq<char>, Seq<char>> {
    command_settings(
        launch.launcher,
        launch.version@,
        launch.session_id as int,
        opt_view(launch.app_name),
        launch.token@,
        launch.user.texts(),
        opt_view(launch.venv),
    )
}

/// Spark is told to run as the user exactly where the version asks for it, and then as that user.
pub proof fn law_proxy_user_is_passed_where_asked_for(
    launch: Launch,
    path: Vec<String>,
    args: Vec<String>,
)
    requires
        launch.runs(path, args),
    ensures
        values_of(views(args@), "--proxy-user"@) == (if launch.version.proxy_user == Some(true) {
            seq![launch.username@]
        } else {
            seq![]
        }),
{
    let order = lemma_order(launch, path, args);
    lemma_command_values(
        launch.launcher,
        launch.version,
        launch.username@,
        opt_view(launch.venv),
        order,
        "--proxy-user"@,
    );
    lemma_flag_names_differ();
}

/// The master and the deploy mode are those of the version, where it names one; the archive is
/// the virtual environment, where there is one; and the class is that of the server.
pub proof fn law_plain_flags(launch: Launch, path: Vec<String>, args: Vec<String>)
    requires
        launch.runs(path, args),
    ensures
        values_of(views(args@), "--master"@) == at_most_one(opt_view(launch.version.master)),
        values_of(views(args@), "--deploy-mode"@) == at_most_one(
            opt_view(launch.version.deploy_mode),
        ),
        values_of(views(args@), "--archives"@) == (match launch.venv {
            Some(tarball) => seq![tarball@ + "#environment"@],
            None => seq![],
        }),
        values_of(views(args@), "--class"@) == seq![
            "org.apache.spark.sql.sparkplug.SparkPlugServer"@,
        ],
{
    let order = lemma_order(launch, path, args);
    lemma_flag_names_differ();
    let venv = opt_view(launch.venv);
    let user = launch.username@;
    lemma_command_values(launch.launcher, launch.version, user, venv, order, "--master"@);
    lemma_command_values(launch.launcher, launch.version, user, venv, order, "--deploy-mode"@);
    lemma_command_values(launch.launcher, launch.version, user, venv, order, "--archives"@);
    lemma_command_values(launch.launcher, launch.version, user, venv, order, "--class"@);
}

/// There are no other flags than those that the laws name.
pub proof fn law_no_other_flags(
    launch: Launch,
    path: Vec<String>,
    args: Vec<String>,
    name: Seq<char>,
)
    requires
        launch.runs(path, args),
        name != "--master"@,
        name != "--deploy-mode"@,
        name != "--archives"@,
        name != "--conf"@,
        name != "--class"@,
        name != "--proxy-user"@,
    ensures
        values_of(views(args@), name) == Seq::<Seq<char>>::empty(),
{
    let order = lemma_order(launch, path, args);
    lemma_command_values(
        launch.launcher,
        launch.version,
        launch.username@,
        opt_view(launch.venv),
        order,
        name,
    );
}

/// Whether a command passes the setting on.
pub open spec fn passes(args: Seq<String>, key: Seq<char>, value: Seq<char>) -> bool {
    values_of(views(args), "--conf"@).contains(key + "="@ + value)
}

/// Every setting of a session is passed on, each once and nothing else: there are as many as there
/// are flags for them.
pub proof fn law_settings_are_passed_on(
    launch: Launch,
    path: Vec<String>,
    args: Vec<String>,
    key: Seq<char>,
)
    requires
        launch.runs(path, args),
    ensures
        sent_settings(launch).contains_key(key) ==> passes(
            args@,
            key,
            sent_settings(launch)[key],
        ),
        forall|text: Seq<char>| #[trigger]
            values_of(views(args@), "--conf"@).contains(text) ==> exists|k: Seq<char>|
                #![trigger sent_settings(launch).contains_key(k)]
                sent_settings(launch).contains_key(k) && text == k + "="@ + sent_settings(
                    launch,
                )[k],
        sent_settings(launch).dom().finite(),
        values_of(views(args@), "--conf"@).len() == sent_settings(launch).dom().len(),
{
    let order = lemma_order(launch, path, args);
    lemma_flag_names_differ();
    lemma_command_values(
        launch.launcher,
        launch.version,
        launch.username@,
        opt_view(launch.venv),
        order,
        "--conf"@,
    );
    let texts = conf_texts(order);
    let all = sent_settings(launch);
    lemma_listed(order);
    if all.contains_key(key) {
        let i = choose|i: int| 0 <= i < order.len() && (#[trigger] order[i]).0 == key;
        assert(texts[i] == key + "="@ + all[key]);
    }
    assert forall|text: Seq<char>| #[trigger] texts.contains(text) implies exists|k: Seq<char>|
        #![trigger all.contains_key(k)]
        all.contains_key(k) && text == k + "="@ + all[k] by {
        let i = choose|i: int| 0 <= i < texts.len() && texts[i] == text;
        assert(all.contains_key(order[i].0));
    }
}

/// What a list of settings, each listed once, holds.
proof fn lemma_listed(order: Seq<(Seq<char>, Seq<char>)>)
    requires
        distinct_keys(order),
    ensures
        pairs_map(order).dom().finite(),
        pairs_map(order).dom().len() == order.len(),
        forall|i: int|
            0 <= i < order.len() ==> pairs_map(order).contains_key((#[trigger] order[i]).0)
                && pairs_map(order)[order[i].0] == order[i].1,
        forall|k: Seq<char>| #[trigger]
            pairs_map(order).contains_key(k) ==> exists|i: int|
                0 <= i < order.len() && (#[trigger] order[i]).0 == k,
    decreases order.len(),
{
    if order.len() > 0 {
        let rest = order.drop_last();
        let last = order.last();
        assert forall|a: int, b: int| 0 <= a < b < rest.len() implies (#[trigger] rest[a]).0 != (
        #[trigger] rest[b]).0 by {
            assert(order[a].0 != order[b].0);
        }
        lemma_listed(rest);
        assert(!pairs_map(rest).contains_key(last.0)) by {
            if pairs_map(rest).contains_key(last.0) {
                let i = choose|i: int| 0 <= i < rest.len() && (#[trigger] rest[i]).0 == last.0;
                assert(order[i].0 == order[order.len() - 1].0);
            }
        }
        assert(pairs_map(order).dom() =~= pairs_map(rest).dom().insert(last.0));
        assert forall|i: int| 0 <= i < order.len() implies pairs_map(order).contains_key(
            (#[trigger] order[i]).0,
        ) && pairs_map(order)[order[i].0] == order[i].1 by {
            if i < rest.len() {
                assert(rest[i] == order[i]);
                assert(order[i].0 != order[order.len() - 1].0);
            }
        }
        assert forall|k: Seq<char>| #[trigger] pairs_map(order).contains_key(k) implies exists|
            i: int,
        |
            0 <= i < order.len() && (#[trigger] order[i]).0 == k by {
            if k == last.0 {
                assert(order[order.len() - 1].0 == k);
            } else {
                let i = choose|i: int| 0 <= i < rest.len() && (#[trigger] rest[i]).0 == k;
                assert(order[i].0 == k);
            }
        }
    } else {
        assert(pairs_map(order).dom() =~= Set::empty());
    }
}

/// The settings that tie a session to this server are those of the server, whatever the user and
/// the version ask for.
pub proof fn law_internal_settings(launch: Launch)
    ensures
        ({
            let sent = sent_settings(launch);
            &&& sent.contains_pair("spark.connect.authenticate.token"@, launch.token@)
            &&& sent.contains_pair("spark.plug.callback"@, launch.launcher.callback_addr@)
            &&& sent.contains_pair(
                "spark.plug.idle.timeout"@,
                decimal(launch.launcher.session_timeout as nat),
            )
            &&& sent.contains_pair(
                "spark.extraListeners"@,
                "org.apache.spark.sql.sparkplug.SparkPlugListener"@,
            )
            &&& sent.contains_pair(
                "spark.connect.grpc.interceptor.classes"@,
                "org.apache.spark.sql.sparkplug.SparkPlugInterceptor"@,
            )
            &&& sent.contains_pair("spark.connect.grpc.binding.port"@, "0"@)
        }),
{
    lemma_setting_names();
}

/// A session is named as its request says, or else as its settings say, or else after its number.
pub proof fn law_application_name(launch: Launch, conf: ConfigMap)
    requires
        call_ensures(SparkLauncher::build_conf, (&launch.version, launch.user), conf),
    ensures
        sent_settings(launch).contains_pair(
            "spark.app.name"@,
            match (launch.app_name, held(conf, "spark.app.name"@)) {
                (Some(name), _) => name@,
                (None, Some(name)) => name,
                (None, None) => "spark-plug-session-"@ + signed_decimal(launch.session_id as int),
            },
        ),
{
    lemma_setting_names();
    lemma_held(conf, "spark.app.name"@);
}

/// A session with a virtual environment runs the Python in it.
pub proof fn law_session_runs_its_own_python(launch: Launch)
    requires
        launch.venv is Some,
    ensures
        sent_settings(launch).contains_pair(
            "spark.sql.execution.pyspark.python"@,
            "../environment/bin/python"@,
        ),
{
}

/// Every other setting is the one that the version and the user agree on.
pub proof fn law_other_settings_are_left_alone(launch: Launch, conf: ConfigMap, key: Seq<char>)
    requires
        call_ensures(SparkLauncher::build_conf, (&launch.version, launch.user), conf),
        key != "spark.connect.authenticate.token"@,
        key != "spark.plug.callback"@,
        key != "spark.plug.idle.timeout"@,
        key != "spark.extraListeners"@,
        key != "spark.connect.grpc.interceptor.classes"@,
        key != "spark.connect.grpc.binding.port"@,
        key != "spark.app.name"@,
        key != "spark.sql.execution.pyspark.python"@ || launch.venv is None,
    ensures
        held(conf, key) == (if sent_settings(launch).contains_key(key) {
            Some(sent_settings(launch)[key])
        } else {
            None
        }),
{
    lemma_held(conf, key);
}

proof fn lemma_setting_names()
    ensures
        "spark.connect.authenticate.token"@.len() == 32,
        "spark.plug.callback"@.len() == 19,
        "spark.plug.idle.timeout"@.len() == 23,
        "spark.extraListeners"@.len() == 20,
        "spark.connect.grpc.interceptor.classes"@.len() == 38,
        "spark.connect.grpc.binding.port"@.len() == 31,
        "spark.app.name"@.len() == 14,
        "spark.sql.execution.pyspark.python"@.len() == 34,
{
    reveal_strlit("spark.connect.authenticate.token");
    reveal_strlit("spark.plug.callback");
    reveal_strlit("spark.plug.idle.timeout");
    reveal_strlit("spark.extraListeners");
    reveal_strlit("spark.connect.grpc.interceptor.classes");
    reveal_strlit("spark.connect.grpc.binding.port");
    reveal_strlit("spark.app.name");
    reveal_strlit("spark.sql.execution.pyspark.python");
}

/// Whether the setting names files.
pub open spec fn names_files(key: Seq<char>) -> bool {
    key == "spark.files"@ || key == "spark.archives"@ || key == "spark.submit.pyFiles"@
}

/// Whether a path may be asked for: it is blank, or has a protocol that is not that of local
/// files.
pub open spec fn may_be_asked_for(path: Seq<char>) -> bool {
    let bare = trimmed(path);
    bare.len() == 0 || (occurs("://"@, bare) && !"file://"@.is_prefix_of(bare))
}

/// Whether all paths of the setting may be asked for.
pub open spec fn paths_are_fine(configs: ConfigMap, key: Seq<char>) -> bool {
    held(configs, key) matches Some(value) ==> forall|i: int|
        0 <= i < pieces(value, ',').len() ==> may_be_asked_for(#[trigger] pieces(value, ',')[i])
}

proof fn lemma_first_path_fault(key: Seq<char>, paths: Seq<Seq<char>>)
    ensures
        match first_path_fault(key, paths) {
            None => forall|i: int|
                0 <= i < paths.len() ==> path_fault(key, #[trigger] paths[i]) is None,
            Some(fault) => exists|i: int|
                {
                    &&& 0 <= i < paths.len()
                    &&& path_fault(key, #[trigger] paths[i]) == Some(fault)
                    &&& forall|j: int| 0 <= j < i ==> path_fault(key, #[trigger] paths[j]) is None
                },
        },
    decreases paths.len(),
{
    if paths.len() > 0 && path_fault(key, paths[0]) is None {
        let rest = paths.drop_first();
        lemma_first_path_fault(key, rest);
        match first_path_fault(key, rest) {
            None => {
                assert forall|i: int| 0 <= i < paths.len() implies path_fault(
                    key,
                    #[trigger] paths[i],
                ) is None by {
                    if i > 0 {
                        assert(rest[i - 1] == paths[i]);
                    }
                }
            },
            Some(fault) => {
                let i = choose|i: int|
                    {
                        &&& 0 <= i < rest.len()
                        &&& path_fault(key, #[trigger] rest[i]) == Some(fault)
                        &&& forall|j: int| 0 <= j < i ==> path_fault(key, #[trigger] rest[j]) is None
                    };
                assert(paths[i + 1] == rest[i]);
                assert forall|j: int| 0 <= j < i + 1 implies path_fault(
                    key,
                    #[trigger] paths[j],
                ) is None by {
                    if j > 0 {
                        assert(rest[j - 1] == paths[j]);
                    }
                }
            },
        }
    }
}

/// Whether the error names a path of the setting that may not be asked for, and says why not.
pub open spec fn is_bad_path_of(configs: ConfigMap, key: Seq<char>, error: LaunchError) -> bool {
    &&& held(configs, key) matches Some(value)
    &&& exists|i: int|
        {
            let bare = trimmed(pieces(value, ',')[i]);
            &&& 0 <= i < pieces(value, ',').len()
            &&& !may_be_asked_for(#[trigger] pieces(value, ',')[i])
            &&& forall|j: int|
                0 <= j < i ==> may_be_asked_for(#[trigger] pieces(value, ',')[j])
            &&& match error {
                LaunchError::MissingProtocol { key: k, path } => k@ == key && path@ == bare
                    && !occurs("://"@, bare),
                LaunchError::FileProtocol { key: k, path } => k@ == key && path@ == bare
                    && occurs("://"@, bare) && "file://"@.is_prefix_of(bare),
                _ => false,
            }
        }
}

proof fn lemma_setting_fault(configs: ConfigMap, key: Seq<char>)
    ensures
        setting_fault(configs.texts(), key) is None <==> paths_are_fine(configs, key),
        forall|e: LaunchError|
            setting_fault(configs.texts(), key) == Some(#[trigger] e@) ==> is_bad_path_of(
                configs,
                key,
                e,
            ),
{
    lemma_held(configs, key);
    if configs.texts().contains_key(key) {
        let paths = pieces(configs.texts()[key], ',');
        lemma_first_path_fault(key, paths);
        assert forall|i: int| 0 <= i < paths.len() implies (path_fault(key, #[trigger] paths[i])
            is None <==> may_be_asked_for(paths[i])) by {}
        match first_path_fault(key, paths) {
            None => {},
            Some(fault) => {
                let i = choose|i: int|
                    {
                        &&& 0 <= i < paths.len()
                        &&& path_fault(key, #[trigger] paths[i]) == Some(fault)
                        &&& forall|j: int| 0 <= j < i ==> path_fault(key, #[trigger] paths[j]) is None
                    };
                assert(!may_be_asked_for(paths[i]));
                assert forall|e: LaunchError|
                    setting_fault(configs.texts(), key) == Some(#[trigger] e@) implies is_bad_path_of(
                    configs,
                    key,
                    e,
                ) by {
                    let value = held(configs, key)->0;
                    assert(path_fault(key, paths[i]) == Some(e@));
                    assert forall|j: int| 0 <= j < i implies may_be_asked_for(
                        #[trigger] pieces(value, ',')[j],
                    ) by {
                        assert(path_fault(key, paths[j]) is None);
                    }
                    assert(!may_be_asked_for(pieces(value, ',')[i]));
                }
            },
        }
    }
}

/// File settings pass exactly where every path in them may be asked for. Otherwise the error
/// names the first path that may not, in the first of the settings that has one, and why.
pub proof fn law_file_settings(configs: ConfigMap, res: Result<(), LaunchError>)
    requires
        call_ensures(SparkLauncher::validate_file_configs, (&configs,), res),
    ensures
        res is Ok <==> paths_are_fine(configs, "spark.files"@) && paths_are_fine(
            configs,
            "spark.archives"@,
        ) && paths_are_fine(configs, "spark.submit.pyFiles"@),
        res matches Err(e) ==> {
            ||| is_bad_path_of(configs, "spark.files"@, e)
            ||| {
                &&& paths_are_fine(configs, "spark.files"@)
                &&& is_bad_path_of(configs, "spark.archives"@, e)
            }
            ||| {
                &&& paths_are_fine(configs, "spark.files"@)
                &&& paths_are_fine(configs, "spark.archives"@)
                &&& is_bad_path_of(configs, "spark.submit.pyFiles"@, e)
            }
        },
{
    lemma_setting_fault(configs, "spark.files"@);
    lemma_setting_fault(configs, "spark.archives"@);
    lemma_setting_fault(configs, "spark.submit.pyFiles"@);
}

/// A command is refused exactly where the user's own file settings are, and with the same error.
pub proof fn law_command_is_refused_for_file_settings(
    launch: Launch,
    checked: Result<(), LaunchError>,
    res: Result<(Vec<String>, Vec<String>), LaunchError>,
)
    requires
        call_ensures(SparkLauncher::validate_file_configs, (&launch.user,), checked),
        launch.gives(res),
    ensures
        res is Ok <==> checked is Ok,
        res matches Err(e) ==> e@ == checked->Err_0@,
{
}

/// What a launch error is told by, and what it says.
pub proof fn law_launch_errors(error: LaunchError, kind: ErrorKind, words: String)
    requires
        call_ensures(LaunchError::kind, (&error,), kind),
        call_ensures(LaunchError::message, (&error,), words),
    ensures
        match error {
            LaunchError::VersionNotFound { name } => kind == ErrorKind::NotFound && words@
                == "Version named "@ + name@ + " not found"@,
            LaunchError::NoPython => kind == ErrorKind::NotFound && words@
                == "No python executable specified for creating virtual environment"@,
            LaunchError::VenvCreation { python } => kind == ErrorKind::Other && words@
                == "Failed to create virtual environment with uv using "@ + python@,
            LaunchError::PackageInstallation => kind == ErrorKind::Other && words@
                == "Failed to install packages in virtual environment"@,
            LaunchError::MissingProtocol { key, path } => kind == ErrorKind::InvalidInput && words@
                == "Config "@ + key@ + " contains file path without protocol: "@ + path@,
            LaunchError::FileProtocol { key, path } => kind == ErrorKind::PermissionDenied
                && words@ == "Config "@ + key@ + " cannot use file:// protocol: "@ + path@,
        },
{
}

/// The home that a machine offers: the one that the environment names comes first, then what
/// `find_spark_home.py` printed without its line end, then that of `spark-submit`.
pub open spec fn home_offered(offers: MachineOffers, home: Seq<char>) -> bool {
    match (offers.spark_home, offers.printed_home, offers.submit_home) {
        (Some(named), _, _) => home == named@,
        (None, Some(printed), _) => home == trimmed_end(printed@),
        (None, None, Some(found)) => home == found@,
        (None, None, None) => false,
    }
}

/// Whether the paths hold this one.
pub open spec fn among(paths: Vec<String>, path: Seq<char>) -> bool {
    exists|i: int| 0 <= i < paths@.len() && (#[trigger] paths@[i])@ == path
}

proof fn lemma_among(paths: Vec<String>, path: Seq<char>)
    ensures
        views(paths@).contains(path) <==> among(paths, path),
{
    if views(paths@).contains(path) {
        let i = choose|i: int| 0 <= i < views(paths@).len() && views(paths@)[i] == path;
        assert(paths@[i]@ == path);
    }
    if among(paths, path) {
        let i = choose|i: int| 0 <= i < paths@.len() && (#[trigger] paths@[i])@ == path;
        assert(views(paths@)[i] == path);
    }
}

/// Configured versions are offered as they are, in their order. All of their homes exist.
pub proof fn law_configured_versions_are_offered(
    config: ProxyConfig,
    offers: MachineOffers,
    existing: Vec<String>,
    callback: Option<String>,
    launcher: SparkLauncher,
    i: int,
)
    requires
        call_ensures(
            SparkLauncher::calling_back,
            (&config, &offers, &existing, callback),
            Ok(launcher),
        ),
        config.spark_versions is Some,
        0 <= i < launcher.versions@.len(),
    ensures
        launcher.versions@.len() == config.spark_versions->0@.len(),
        launcher.versions@[i]@ == config.spark_versions->0@[i]@,
        among(existing, launcher.versions@[i].home@),
{
    let views_of = version_views(launcher.versions@);
    assert(views_of[i] == launcher.versions@[i]@);
    assert(version_views(config.spark_versions->0@)[i] == config.spark_versions->0@[i]@);
    lemma_among(existing, launcher.versions@[i].home@);
}

/// Where none are configured, the machine's own Spark is offered: one version, at the home that
/// the machine offers, which exists, with the machine's Python and nothing else set.
pub proof fn law_machines_spark_is_offered(
    config: ProxyConfig,
    offers: MachineOffers,
    existing: Vec<String>,
    callback: Option<String>,
    launcher: SparkLauncher,
)
    requires
        call_ensures(
            SparkLauncher::calling_back,
            (&config, &offers, &existing, callback),
            Ok(launcher),
        ),
        config.spark_versions is None,
    ensures
        launcher.versions@.len() == 1,
        ({
            let version = launcher.versions@[0];
            &&& version.name@ == "default"@
            &&& home_offered(offers, version.home@)
            &&& among(existing, version.home@)
            &&& opt_view(version.python_executable) == opt_view(offers.python)
            &&& version.master is None
            &&& version.deploy_mode is None
            &&& version.proxy_user is None
            &&& version.env is None
            &&& version.default_configs is None
            &&& version.merge_configs is None
            &&& version.override_configs is None
        }),
{
    let views_of = version_views(launcher.versions@);
    assert(views_of[0] == launcher.versions@[0]@);
    lemma_among(existing, launcher.versions@[0].home@);
}

/// Sessions call back at the given address. The timeouts are the configured ones, or five minutes
/// and an hour. The plugin is the one that comes with the program, or the configured one, or that
/// of a build of the sources.
pub proof fn law_launcher_settings(
    config: ProxyConfig,
    offers: MachineOffers,
    existing: Vec<String>,
    callback: Option<String>,
    launcher: SparkLauncher,
)
    requires
        call_ensures(
            SparkLauncher::calling_back,
            (&config, &offers, &existing, callback),
            Ok(launcher),
        ),
    ensures
        launcher.versions@.len() > 0,
        opt_view(callback) == Some(launcher.callback_addr@),
        config.launch_timeout is Some ==> config.launch_timeout == Some(launcher.launch_timeout),
        config.launch_timeout is None ==> launcher.launch_timeout == 300,
        config.session_timeout is Some ==> config.session_timeout == Some(
            launcher.session_timeout,
        ),
        config.session_timeout is None ==> launcher.session_timeout == 3600,
        match (offers.embedded_plugin, config.plugin_path) {
            (Some(path), _) => launcher.plugin_path@ == path@,
            (None, Some(path)) => launcher.plugin_path@ == path@,
            (None, None) => launcher.plugin_path@ == offers.source_dir@
                + "/../plugin/target/scala-2.13/spark-plug_2.13-0.1.0.jar"@,
        },
{
}

/// A launcher that finds its own callback address offers the same versions, with the same settings,
/// and calls back at the configured address, where there is one, or else at this machine, by
/// HTTPS where the server speaks TLS, and at the server's port.
pub proof fn law_launcher_of_this_machine(
    config: ProxyConfig,
    offers: MachineOffers,
    existing: Vec<String>,
    launcher: SparkLauncher,
    i: int,
)
    requires
        call_ensures(SparkLauncher::from_config, (&config, &offers, &existing), Ok(launcher)),
        0 <= i < launcher.versions@.len(),
    ensures
        launcher.versions@.len() == (match config.spark_versions {
            Some(versions) => versions@.len(),
            None => 1,
        }),
        among(existing, launcher.versions@[i].home@),
        match config.spark_versions {
            Some(versions) => launcher.versions@[i]@ == versions@[i]@,
            None => {
                &&& launcher.versions@[i].name@ == "default"@
                &&& home_offered(offers, launcher.versions@[i].home@)
                &&& opt_view(launcher.versions@[i].python_executable) == opt_view(offers.python)
            },
        },
        launcher.launch_timeout == (match config.launch_timeout {
            Some(seconds) => seconds,
            None => 300,
        }),
        launcher.session_timeout == (match config.session_timeout {
            Some(seconds) => seconds,
            None => 3600,
        }),
        match (offers.embedded_plugin, config.plugin_path) {
            (Some(path), _) => launcher.plugin_path@ == path@,
            (None, Some(path)) => launcher.plugin_path@ == path@,
            (None, None) => launcher.plugin_path@ == offers.source_dir@
                + "/../plugin/target/scala-2.13/spark-plug_2.13-0.1.0.jar"@,
        },
        match config.callback_address {
            Some(address) => launcher.callback_addr@ == address@,
            None => exists|ip: Seq<char>|
                launcher.callback_addr@ == #[trigger] callback_at(config, ip),
        },
{
    assert(version_views(launcher.versions@)[i] == launcher.versions@[i]@);
    if let Some(versions) = config.spark_versions {
        assert(version_views(versions@)[i] == versions@[i]@);
    }
    lemma_among(existing, launcher.versions@[i].home@);
    if config.callback_address is None {
        let ip = choose|ip: Seq<char>|
            launcher.serves(
                config,
                offers,
                views(existing@),
                text_or(
                    config.callback_address,
                    #[trigger] callback_url(
                        config.tls is Some,
                        ip,
                        port_or_default(config.bind_port),
                    ),
                ),
            );
        assert(launcher.callback_addr@ =~= callback_at(config, ip));
    }
}

/// The address of a server on the machine with this address.
pub open spec fn callback_at(config: ProxyConfig, ip: Seq<char>) -> Seq<char> {
    let port: u16 = match config.bind_port {
        Some(p) => p,
        None => 8100,
    };
    if config.tls is Some {
        "https"@ + "://"@ + ip + ":"@ + decimal(port as nat)
    } else {
        "http"@ + "://"@ + ip + ":"@ + decimal(port as nat)
    }
}

/// Whether no Spark is configured or found.
pub open spec fn no_spark(config: ProxyConfig, offers: MachineOffers) -> bool {
    &&& config.spark_versions is None
    &&& offers.spark_home is None
    &&& offers.printed_home is None
    &&& offers.submit_home is None
}

/// Whether the first version whose home does not exist has this name and this home.
pub open spec fn is_first_without_home(
    config: ProxyConfig,
    offers: MachineOffers,
    existing: Vec<String>,
    name: Seq<char>,
    home: Seq<char>,
) -> bool {
    &&& !among(existing, home)
    &&& match config.spark_versions {
        None => name == "default"@ && home_offered(offers, home),
        Some(versions) => exists|i: int|
            {
                &&& 0 <= i < versions@.len()
                &&& (#[trigger] versions@[i]).name@ == name
                &&& versions@[i].home@ == home
                &&& forall|j: int|
                    0 <= j < i ==> among(existing, (#[trigger] versions@[j]).home@)
            },
    }
}

proof fn lemma_missing_home(
    config: ProxyConfig,
    offers: MachineOffers,
    existing: Vec<String>,
    name: Seq<char>,
    home: Seq<char>,
)
    requires
        lacks_home(config, offers, views(existing@), name, home),
    ensures
        is_first_without_home(config, offers, existing, name, home),
{
    lemma_among(existing, home);
    let chosen = chosen_versions(config, offers)->0;
    let i = choose|i: int|
        {
            &&& #[trigger] is_first_missing(chosen, views(existing@), i)
            &&& chosen[i].name == name
            &&& chosen[i].home == home
        };
    if let Some(versions) = config.spark_versions {
        assert(chosen[i] == versions@[i]@);
        assert forall|j: int| 0 <= j < i implies among(existing, (#[trigger] versions@[j]).home@) by {
            assert(chosen.take(i)[j] == versions@[j]@);
            lemma_among(existing, versions@[j].home@);
        }
    }
}

/// Why there is no launcher: no Spark is configured or found, or there is no address to call back
/// at, or the list of versions is empty, or the first version whose home does not exist is named,
/// in this order.
pub proof fn law_launcher_is_refused(
    config: ProxyConfig,
    offers: MachineOffers,
    existing: Vec<String>,
    callback: Option<String>,
    error: SetupError,
)
    requires
        call_ensures(
            SparkLauncher::calling_back,
            (&config, &offers, &existing, callback),
            Err(error),
        ),
    ensures
        match error {
            SetupError::NoSpark => no_spark(config, offers),
            SetupError::NoLocalAddress => !no_spark(config, offers) && callback is None,
            SetupError::NoVersions => callback is Some && (config.spark_versions matches Some(
                versions,
            ) && versions@.len() == 0),
            SetupError::MissingHome { name, home } => {
                &&& callback is Some
                &&& is_first_without_home(config, offers, existing, name@, home@)
            },
        },
{
    if error is NoSpark {
        assert(config.spark_versions is None);
        assert(offered_home(offers) is None);
    }
    if let SetupError::MissingHome { name, home } = error {
        lemma_missing_home(config, offers, existing, name@, home@);
    }
    if error is NoVersions {
        assert(chosen_versions(config, offers)->0.len() == 0);
        if config.spark_versions is Some {
            assert(version_views(config.spark_versions->0@).len()
                == config.spark_versions->0@.len());
        } else {
            assert(chosen_versions(config, offers)->0.len() == 1);
        }
    }
    if error is NoLocalAddress {
        assert(chosen_versions(config, offers) is Some);
    }
}

/// A launcher that finds its own callback address is refused for the same reasons, and for want of
/// an address only where none is configured.
pub proof fn law_launcher_of_this_machine_is_refused(
    config: ProxyConfig,
    offers: MachineOffers,
    existing: Vec<String>,
    error: SetupError,
)
    requires
        call_ensures(SparkLauncher::from_config, (&config, &offers, &existing), Err(error)),
    ensures
        match error {
            SetupError::NoSpark => no_spark(config, offers),
            SetupError::NoLocalAddress => !no_spark(config, offers) && config.callback_address
                is None,
            SetupError::NoVersions => (config.spark_versions matches Some(versions)
                && versions@.len() == 0),
            SetupError::MissingHome { name, home } => is_first_without_home(
                config,
                offers,
                existing,
                name@,
                home@,
            ),
        },
{
    if error is NoSpark {
        assert(config.spark_versions is None);
        assert(offered_home(offers) is None);
    }
    if let SetupError::MissingHome { name, home } = error {
        lemma_missing_home(config, offers, existing, name@, home@);
    }
    if error is NoVersions {
        assert(chosen_versions(config, offers)->0.len() == 0);
        if config.spark_versions is Some {
            assert(version_views(config.spark_versions->0@).len()
                == config.spark_versions->0@.len());
        } else {
            assert(chosen_versions(config, offers)->0.len() == 1);
        }
    }
    if error is NoLocalAddress {
        assert(chosen_versions(config, offers) is Some);
    }
}

/// Why there is no launcher, in words.
pub proof fn law_setup_errors_in_words(error: SetupError, words: String)
    requires
        call_ensures(SetupError::message, (&error,), words),
    ensures
        words@ == (match error {
            SetupError::NoSpark => "Unable to find a default Spark installation"@,
            SetupError::NoVersions => "No Spark versions provided"@,
            SetupError::NoLocalAddress => "The machine has no local address"@,
            SetupError::MissingHome { name, home } => "Home directory not found for version "@
                + name@ + ": "@ + home@,
        }),
{
}

/// The first version whose home does not exist is found, and none where all exist.
pub proof fn law_missing_homes_are_found(
    versions: Vec<SparkVersion>,
    existing: Vec<String>,
    res: Option<usize>,
    j: int,
)
    requires
        call_ensures(missing_home, (&versions, &existing), res),
        0 <= j < versions@.len(),
    ensures
        match res {
            None => among(existing, versions@[j].home@),
            Some(i) => {
                &&& i < versions@.len()
                &&& !among(existing, versions@[i as int].home@)
                &&& j < i ==> among(existing, versions@[j].home@)
            },
        },
{
    let all = version_views(versions@);
    assert(all[j] == versions@[j]@);
    lemma_among(existing, versions@[j].home@);
    if let Some(i) = res {
        assert(all[i as int] == versions@[i as int]@);
        lemma_among(existing, versions@[i as int].home@);
        if j < i {
            assert(all.take(i as int)[j] == versions@[j]@);
        }
    }
}

/// What `find_spark_home.py` printed is taken without the white space at its end.
pub proof fn law_printed_home(output: &str, res: String)
    requires
        call_ensures(printed_spark_home, (output,), res),
    ensures
        res@ == trimmed_end(output@),
{
}

/// The homes that have to exist are those of the versions, in their order.
pub proof fn law_homes_are_the_versions(
    config: ProxyConfig,
    offers: MachineOffers,
    homes: Vec<String>,
)
    requires
        call_ensures(spark_homes, (&config, &offers), homes),
    ensures
        match config.spark_versions {
            Some(versions) => homes@.len() == versions@.len() && forall|i: int|
                0 <= i < homes@.len() ==> (#[trigger] homes@[i])@ == versions@[i].home@,
            None => if homes@.len() == 0 {
                offers.spark_home is None && offers.printed_home is None && offers.submit_home
                    is None
            } else {
                homes@.len() == 1 && home_offered(offers, homes@[0]@)
            },
        },
{
    assert forall|i: int| 0 <= i < homes@.len() implies views(homes@)[i] == #[trigger] homes@[i]@ by {
    }
    assert(views(homes@).len() == homes@.len());
    if let Some(versions) = config.spark_versions {
        assert forall|i: int| 0 <= i < homes@.len() implies (#[trigger] homes@[i])@
            == versions@[i].home@ by {
            assert(views(homes@)[i] == homes@[i]@);
            assert(version_views(versions@)[i] == versions@[i]@);
        }
    } else if homes@.len() > 0 {
        assert(views(homes@)[0] == homes@[0]@);
    }
}

/// The names shown to users are those of the versions, in their order.
pub proof fn law_versions_are_named(launcher: SparkLauncher, names: Vec<String>, i: int)
    requires
        call_ensures(SparkLauncher::get_versions, (&launcher,), names),
        0 <= i < names@.len(),
    ensures
        names@.len() == launcher.versions@.len(),
        names@[i]@ == launcher.versions@[i].name@,
{
    assert(views(names@).len() == names@.len());
    assert(views(names@)[i] == names@[i]@);
}

/// A launch takes the first version of the requested name, or the first of all where none is
/// requested. It is refused where no version has the name, or where packages are requested of a
/// version without Python.
pub proof fn law_launch_takes_the_requested_version(
    launcher: SparkLauncher,
    name: Option<&str>,
    packages: Option<Vec<String>>,
    macos: bool,
    res: Result<LaunchPlan, LaunchError>,
)
    requires
        call_ensures(SparkLauncher::plan_launch, (&launcher, name, packages, macos), res),
    ensures
        match res {
            Ok(plan) => is_requested(launcher, name, *plan.version),
            Err(LaunchError::VersionNotFound { name: unknown }) => {
                &&& name matches Some(n)
                &&& unknown@ == n@
                &&& forall|i: int|
                    0 <= i < launcher.versions@.len() ==> (#[trigger] launcher.versions@[i]).name@
                        != n@
            },
            Err(LaunchError::NoPython) => {
                &&& packages matches Some(asked) && asked@.len() > 0
                &&& exists|version: SparkVersion| #[trigger]
                    is_requested(launcher, name, version) && version.python_executable is None
            },
            Err(_) => false,
        },
{
    match res {
        Ok(plan) => lemma_requested(launcher, name, *plan.version),
        Err(e) => {
            if e@ is NoPython {
                let version = choose|version: SparkVersion| #[trigger]
                    launcher.versions@.contains(version) && selects(
                        launcher.versions@,
                        name,
                        version,
                    ) && version.python_executable is None;
                lemma_requested(launcher, name, version);
            } else if let Some(n) = name {
                assert forall|i: int| 0 <= i < launcher.versions@.len() implies (
                #[trigger] launcher.versions@[i]).name@ != n@ by {
                    assert(version_names(launcher.versions@)[i] == launcher.versions@[i].name@);
                }
            }
        },
    }
}

/// Whether a request is for this version: the first of its name, or the first of all.
pub open spec fn is_requested(
    launcher: SparkLauncher,
    name: Option<&str>,
    version: SparkVersion,
) -> bool {
    exists|i: int|
        {
            &&& 0 <= i < launcher.versions@.len()
            &&& #[trigger] launcher.versions@[i] == version
            &&& match name {
                None => i == 0,
                Some(n) => version.name@ == n@ && forall|j: int|
                    0 <= j < i ==> (#[trigger] launcher.versions@[j]).name@ != n@,
            }
        }
}

proof fn lemma_requested(launcher: SparkLauncher, name: Option<&str>, version: SparkVersion)
    requires
        selects(launcher.versions@, name, version),
    ensures
        is_requested(launcher, name, version),
{
    match name {
        None => {
            assert(launcher.versions@[0] == version);
        },
        Some(n) => {
            let i = choose|i: int|
                {
                    &&& 0 <= i < launcher.versions@.len()
                    &&& #[trigger] launcher.versions@[i] == version
                    &&& version.name@ == n@
                    &&& forall|j: int|
                        0 <= j < i ==> (#[trigger] launcher.versions@[j]).name@ != n@
                };
            assert(launcher.versions@[i] == version);
        },
    }
}

/// A session's process finds its Spark home in its environment, a local address on Macs, and
/// otherwise what the version sets.
pub proof fn law_process_environment(
    launcher: SparkLauncher,
    name: Option<&str>,
    packages: Option<Vec<String>>,
    macos: bool,
    plan: LaunchPlan,
    key: Seq<char>,
)
    requires
        call_ensures(SparkLauncher::plan_launch, (&launcher, name, packages, macos), Ok(plan)),
    ensures
        held(plan.env, key) == (if key == "SPARK_HOME"@ {
            Some(plan.version.home@)
        } else if key == "SPARK_LOCAL_IP"@ && macos {
            Some("127.0.0.1"@)
        } else {
            held_in(plan.version.env, key)
        }),
{
    reveal_strlit("SPARK_HOME");
    reveal_strlit("SPARK_LOCAL_IP");
    assert("SPARK_HOME"@.len() != "SPARK_LOCAL_IP"@.len());
    lemma_held(plan.env, key);
    lemma_held_in(plan.version.env, key);
}

/// A virtual environment is built exactly where packages are requested: with the version's Python,
/// and for those packages.
pub proof fn law_packages_need_an_environment(
    launcher: SparkLauncher,
    name: Option<&str>,
    packages: Option<Vec<String>>,
    macos: bool,
    plan: LaunchPlan,
)
    requires
        call_ensures(SparkLauncher::plan_launch, (&launcher, name, packages, macos), Ok(plan)),
    ensures
        plan.venv is Some <==> (packages matches Some(asked) && asked@.len() > 0),
        plan.venv matches Some(venv) ==> {
            &&& Some(venv.python@) == opt_view(plan.version.python_executable)
            &&& Some(venv.packages) == packages
        },
{
}

/// A launch is over once its process has failed or its time has passed, and not when the process
/// has succeeded.
pub proof fn law_launch_ends(event: LaunchEvent, over: bool)
    requires
        call_ensures(launch_is_over, (event,), over),
    ensures
        match event {
            LaunchEvent::ProcessEnded { success } => over == !success,
            LaunchEvent::TimedOut => over,
        },
{
}

} // verus!
