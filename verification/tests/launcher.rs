use std::path::PathBuf;

use spark_connect_proxy::config::{ConfigMap, ProxyConfig, SparkVersion};
use spark_connect_proxy::launcher::{
    launch_is_over, missing_home, printed_spark_home, spark_homes, ErrorKind, LaunchError,
    LaunchEvent, MachineOffers,
    SetupError, SparkLauncher, APP_NAME_CONFIG, CALLBACK_CONFIG, GRPC_PORT_CONFIG,
    INTERCEPTOR_CLASS, INTERCEPTOR_CONFIG, LISTENER_CLASS, LISTENER_CONFIG, PYTHON_CONFIG,
    SERVER_CLASS, TIMEOUT_CONFIG, TOKEN_CONFIG,
};
use spark_connect_proxy::text_map::TextMap;
use spark_connect_proxy::venv::{Command, VenvBuild, VenvProgress, VenvRequest};

fn configs(entries: &[(&str, &str)]) -> ConfigMap {
    TextMap::from_entries(
        entries.iter().map(|(k, v)| (k.to_string(), v.to_string())).collect(),
    )
}

fn joined(parts: &[String]) -> PathBuf {
    parts.iter().collect()
}

fn sorted(map: &ConfigMap) -> Vec<(String, String)> {
    let mut out: Vec<(String, String)> = Vec::new();
    for i in 0..map.len() {
        let (key, value) = map.entry(i);
        out.push((key.clone(), value.clone()));
    }
    out.sort();
    out
}

fn pairs(entries: &[(&str, &str)]) -> Vec<(String, String)> {
    entries.iter().map(|(k, v)| (k.to_string(), v.to_string())).collect()
}

fn launcher() -> SparkLauncher {
    SparkLauncher {
        versions: vec![SparkVersion {
            name: "default".to_string(),
            home: "/opt/spark".to_string(),
            ..Default::default()
        }],
        callback_addr: "http://localhost:8100".to_string(),
        launch_timeout: 60,
        session_timeout: 60,
        plugin_path: "/path/to/plugin".to_string(),
    }
}

fn has_pair(args: &[String], name: &str, value: &str) -> bool {
    args.chunks_exact(2).any(|pair| pair[0] == name && pair[1] == value)
}

#[test]
fn test_build_config() {
    let version = SparkVersion {
        name: "default".to_string(),
        default_configs: Some(configs(&[("a", "default"), ("b", "default")])),
        merge_configs: Some(configs(&[("c", "merge"), ("e", "merge-only")])),
        override_configs: Some(configs(&[("d", "override")])),
        ..Default::default()
    };

    let user_config = configs(&[("a", "user"), ("c", "user"), ("d", "user")]);

    let built = SparkLauncher::build_conf(&version, user_config);

    assert_eq!(
        sorted(&built),
        pairs(&[
            ("a", "user"),
            ("b", "default"),
            ("c", "user,merge"),
            ("d", "override"),
            ("e", "merge-only"),
        ])
    )
}

#[test]
fn test_build_command() {
    let launcher = launcher();

    let (command, args) = launcher
        .build_submit_command(
            &launcher.versions[0],
            1,
            None,
            "user".to_string(),
            "abcd".to_string(),
            TextMap::new(),
            None,
        )
        .unwrap();

    assert_eq!(joined(&command).to_str().unwrap(), "/opt/spark/bin/spark-submit");
    assert_eq!(args.len() % 2, 1);
    assert_eq!(args[args.len() - 1], "/path/to/plugin");

    assert!(has_pair(&args, "--conf", &format!("{APP_NAME_CONFIG}=spark-plug-session-1")));
    assert!(has_pair(&args, "--conf", &format!("{TOKEN_CONFIG}=abcd")));
    assert!(has_pair(
        &args,
        "--conf",
        &format!("{CALLBACK_CONFIG}=http://localhost:8100")
    ));
    assert!(has_pair(&args, "--conf", &format!("{TIMEOUT_CONFIG}=60")));
    assert!(has_pair(&args, "--conf", &format!("{LISTENER_CONFIG}={LISTENER_CLASS}")));
    assert!(has_pair(
        &args,
        "--conf",
        &format!("{INTERCEPTOR_CONFIG}={INTERCEPTOR_CLASS}")
    ));
    assert!(has_pair(&args, "--conf", &format!("{GRPC_PORT_CONFIG}=0")));

    assert!(has_pair(&args, "--class", SERVER_CLASS));
}

#[test]
fn test_build_command_uses_explicit_app_name() {
    let launcher = launcher();

    let (_command, args) = launcher
        .build_submit_command(
            &launcher.versions[0],
            1,
            Some("custom-app-name".to_string()),
            "user".to_string(),
            "abcd".to_string(),
            TextMap::new(),
            None,
        )
        .unwrap();

    assert!(has_pair(&args, "--conf", &format!("{APP_NAME_CONFIG}=custom-app-name")));
}

#[test]
fn test_validate_file_configs_rejects_local_paths() {
    let mut configs: ConfigMap = TextMap::new();
    configs.insert(
        "spark.files".to_string(),
        "/local/path/file.txt".to_string(),
    );

    assert!(SparkLauncher::validate_file_configs(&configs).is_err());
}

#[test]
fn test_validate_file_configs_rejects_file_protocol() {
    let mut configs: ConfigMap = TextMap::new();
    configs.insert("spark.files".to_string(), "file:///etc/passwd".to_string());

    assert!(SparkLauncher::validate_file_configs(&configs).is_err());
}

#[test]
fn test_validate_file_configs_allows_remote_paths() {
    let mut configs: ConfigMap = TextMap::new();
    configs.insert(
        "spark.files".to_string(),
        "s3://bucket/file.txt,hdfs://namenode/data".to_string(),
    );
    configs.insert(
        "spark.archives".to_string(),
        "gs://bucket/archive.tar.gz".to_string(),
    );

    assert!(SparkLauncher::validate_file_configs(&configs).is_ok());
}

#[test]
fn test_validate_file_configs_allows_empty_values() {
    let configs: ConfigMap = TextMap::new();

    assert!(SparkLauncher::validate_file_configs(&configs).is_ok());
}

#[test]
fn file_faults_are_told_apart() {
    let missing = SparkLauncher::validate_file_configs(&configs(&[(
        "spark.archives",
        "s3://a/b, , c.zip ,file:///x",
    )]))
    .unwrap_err();
    assert_eq!(missing.kind(), ErrorKind::InvalidInput);
    assert_eq!(
        missing.message(),
        "Config spark.archives contains file path without protocol: c.zip"
    );

    let local = SparkLauncher::validate_file_configs(&configs(&[
        ("spark.submit.pyFiles", " file:///x.py"),
        ("spark.files", ""),
    ]))
    .unwrap_err();
    assert_eq!(local.kind(), ErrorKind::PermissionDenied);
    assert_eq!(
        local.message(),
        "Config spark.submit.pyFiles cannot use file:// protocol: file:///x.py"
    );

    let first = SparkLauncher::validate_file_configs(&configs(&[
        ("spark.submit.pyFiles", "a.py"),
        ("spark.files", "b.txt"),
    ]))
    .unwrap_err();
    assert!(matches!(first, LaunchError::MissingProtocol { key, path } if key == "spark.files" && path == "b.txt"));
}

#[test]
fn other_settings_may_name_local_files() {
    assert!(SparkLauncher::validate_file_configs(&configs(&[("spark.jars", "file:///x.jar")]))
        .is_ok());
}

#[test]
fn a_refused_setting_gives_no_command() {
    let launcher = launcher();
    let refused = launcher.build_submit_command(
        &launcher.versions[0],
        7,
        None,
        "user".to_string(),
        "abcd".to_string(),
        configs(&[("spark.files", "/etc/passwd")]),
        None,
    );
    assert!(refused.is_err());
}

#[test]
fn internal_settings_win_over_all_others() {
    let launcher = launcher();
    let version = SparkVersion {
        home: "/opt/spark/".to_string(),
        default_configs: Some(configs(&[(TIMEOUT_CONFIG, "1")])),
        merge_configs: Some(configs(&[(LISTENER_CONFIG, "Mine")])),
        override_configs: Some(configs(&[(TOKEN_CONFIG, "forced"), (GRPC_PORT_CONFIG, "15002")])),
        ..Default::default()
    };
    let (command, args) = launcher
        .build_submit_command(
            &version,
            -3,
            None,
            "user".to_string(),
            "abcd".to_string(),
            configs(&[(TOKEN_CONFIG, "stolen"), (CALLBACK_CONFIG, "http://elsewhere")]),
            None,
        )
        .unwrap();

    assert_eq!(command, vec!["/opt/spark/", "bin", "spark-submit"]);
    assert_eq!(joined(&command), PathBuf::from("/opt/spark/bin/spark-submit"));
    let settings: Vec<&String> = args
        .chunks_exact(2)
        .filter(|pair| pair[0] == "--conf")
        .map(|pair| &pair[1])
        .collect();
    assert_eq!(settings.len(), 7);
    assert!(settings.contains(&&format!("{TOKEN_CONFIG}=abcd")));
    assert!(settings.contains(&&format!("{CALLBACK_CONFIG}=http://localhost:8100")));
    assert!(settings.contains(&&format!("{TIMEOUT_CONFIG}=60")));
    assert!(settings.contains(&&format!("{LISTENER_CONFIG}={LISTENER_CLASS}")));
    assert!(settings.contains(&&format!("{GRPC_PORT_CONFIG}=0")));
    assert!(settings.contains(&&format!("{APP_NAME_CONFIG}=spark-plug-session--3")));
}

#[test]
fn a_full_command_is_in_order() {
    let launcher = launcher();
    let version = SparkVersion {
        home: "spark".to_string(),
        master: Some("yarn".to_string()),
        deploy_mode: Some("cluster".to_string()),
        proxy_user: Some(true),
        ..Default::default()
    };
    let (command, args) = launcher
        .build_submit_command(
            &version,
            1,
            None,
            "alice".to_string(),
            "abcd".to_string(),
            configs(&[(APP_NAME_CONFIG, "mine"), (PYTHON_CONFIG, "python2")]),
            Some("/tmp/venv.tgz".to_string()),
        )
        .unwrap();
    assert_eq!(joined(&command), PathBuf::from("spark/bin/spark-submit"));
    assert_eq!(
        &args[..6],
        &["--master", "yarn", "--deploy-mode", "cluster", "--archives", "/tmp/venv.tgz#environment"]
    );
    let tail = &args[args.len() - 5..];
    assert_eq!(
        tail,
        &["--class", SERVER_CLASS, "--proxy-user", "alice", "/path/to/plugin"]
    );
    assert!(has_pair(&args, "--conf", &format!("{APP_NAME_CONFIG}=mine")));
    assert!(has_pair(&args, "--conf", &format!("{PYTHON_CONFIG}=../environment/bin/python")));
}

#[test]
fn versions_are_chosen_by_name_or_the_first() {
    let mut launcher = launcher();
    launcher.versions.push(SparkVersion {
        name: "4.0".to_string(),
        home: "/opt/spark4".to_string(),
        python_executable: Some("/usr/bin/python3".to_string()),
        env: Some(configs(&[("HADOOP_CONF_DIR", "/etc/hadoop"), ("SPARK_HOME", "/wrong")])),
        ..Default::default()
    });
    assert_eq!(launcher.get_versions(), vec!["default".to_string(), "4.0".to_string()]);

    let plan = launcher.plan_launch(None, None, false).unwrap();
    assert_eq!(plan.version.home, "/opt/spark");
    assert_eq!(sorted(&plan.env), pairs(&[("SPARK_HOME", "/opt/spark")]));
    assert!(plan.venv.is_none());

    let plan = launcher
        .plan_launch(Some("4.0"), Some(vec!["numpy".to_string()]), true)
        .unwrap();
    assert_eq!(
        sorted(&plan.env),
        pairs(&[
            ("HADOOP_CONF_DIR", "/etc/hadoop"),
            ("SPARK_HOME", "/opt/spark4"),
            ("SPARK_LOCAL_IP", "127.0.0.1"),
        ])
    );
    let venv = plan.venv.unwrap();
    assert_eq!(venv.python, "/usr/bin/python3");
    assert_eq!(venv.packages, vec!["numpy".to_string()]);

    let unknown = match launcher.plan_launch(Some("3.5"), None, false) {
        Err(e) => e,
        Ok(_) => panic!("there is no such version"),
    };
    assert_eq!(unknown.kind(), ErrorKind::NotFound);
    assert_eq!(unknown.message(), "Version named 3.5 not found");

    let no_python = match launcher.plan_launch(None, Some(vec!["numpy".to_string()]), false) {
        Err(e) => e,
        Ok(_) => panic!("there is no interpreter"),
    };
    assert_eq!(no_python.kind(), ErrorKind::NotFound);
    assert_eq!(
        no_python.message(),
        "No python executable specified for creating virtual environment"
    );
    assert!(launcher.plan_launch(None, Some(vec![]), false).unwrap().venv.is_none());
}

fn build(windows: bool) -> (VenvBuild, Command) {
    VenvBuild::start(
        VenvRequest {
            python: "/usr/bin/python3".to_string(),
            packages: vec!["numpy".to_string(), "pandas==2.0".to_string()],
        },
        "/tmp/v".to_string(),
        windows,
    )
}

#[test]
fn a_virtual_environment_is_built_in_three_commands() {
    let (build, command) = build(false);
    assert_eq!(command.program, "uv");
    assert_eq!(command.args, vec!["venv", "--python", "/usr/bin/python3", "/tmp/v"]);

    let (build, command) = match build.finished(true).unwrap() {
        VenvProgress::Run(build, command) => (build, command),
        VenvProgress::Built(_) => panic!("packages are missing"),
    };
    assert_eq!(command.program, "uv");
    assert_eq!(
        command.args,
        vec!["pip", "install", "--python", "/tmp/v/bin/python", "venv-pack", "numpy", "pandas==2.0"]
    );

    let (build, command) = match build.finished(true).unwrap() {
        VenvProgress::Run(build, command) => (build, command),
        VenvProgress::Built(_) => panic!("the archive is missing"),
    };
    assert_eq!(command.program, "/tmp/v/bin/venv-pack");
    assert_eq!(
        command.args,
        vec!["-p", "/tmp/v", "-o", "/tmp/v.tgz", "--exclude", "*/venv-pack/*"]
    );

    match build.finished(true).unwrap() {
        VenvProgress::Built(archive) => assert_eq!(archive, "/tmp/v.tgz"),
        VenvProgress::Run(_, _) => panic!("the archive is there"),
    }
}

#[test]
fn a_virtual_environment_on_windows_keeps_its_programs_elsewhere() {
    let (build, _) = build(true);
    let (build, command) = match build.finished(true).unwrap() {
        VenvProgress::Run(build, command) => (build, command),
        VenvProgress::Built(_) => panic!("packages are missing"),
    };
    assert_eq!(command.args[3], "/tmp/v/Scripts/python.exe");
    match build.finished(true).unwrap() {
        VenvProgress::Run(_, command) => assert_eq!(command.program, "/tmp/v/Scripts/venv-pack"),
        VenvProgress::Built(_) => panic!("the archive is missing"),
    }
}

#[test]
fn a_failed_command_ends_the_build() {
    let (first, _) = build(false);
    let error = match first.finished(false) {
        Err(e) => e,
        Ok(_) => panic!("the command failed"),
    };
    assert_eq!(error.kind(), ErrorKind::Other);
    assert_eq!(
        error.message(),
        "Failed to create virtual environment with uv using /usr/bin/python3"
    );

    let (second, _) = build(false);
    let second = match second.finished(true).unwrap() {
        VenvProgress::Run(build, _) => build,
        VenvProgress::Built(_) => panic!("packages are missing"),
    };
    let error = match second.finished(false) {
        Err(e) => e,
        Ok(_) => panic!("the command failed"),
    };
    assert_eq!(error.message(), "Failed to install packages in virtual environment");
}

fn offers(home: Option<&str>, found: Option<&str>) -> MachineOffers {
    MachineOffers {
        spark_home: home.map(str::to_string),
        printed_home: None,
        submit_home: found.map(str::to_string),
        python: Some("/usr/bin/python3".to_string()),
        embedded_plugin: None,
        source_dir: "/src/server".to_string(),
    }
}

fn from_config(config: &ProxyConfig, offers: &MachineOffers) -> Result<SparkLauncher, SetupError> {
    SparkLauncher::from_config(config, offers, &spark_homes(config, offers))
}

fn local_config() -> ProxyConfig {
    ProxyConfig {
        callback_address: Some("http://127.0.0.1:8100".to_string()),
        ..Default::default()
    }
}

#[test]
fn a_launcher_takes_the_machines_spark_where_none_is_configured() {
    let launcher = from_config(&local_config(), &offers(Some("/a"), Some("/b"))).unwrap();
    assert_eq!(launcher.versions.len(), 1);
    assert_eq!(launcher.versions[0].name, "default");
    assert_eq!(launcher.versions[0].home, "/a");
    assert_eq!(launcher.versions[0].python_executable, Some("/usr/bin/python3".to_string()));
    assert_eq!(launcher.callback_addr, "http://127.0.0.1:8100");
    assert_eq!(launcher.launch_timeout, 300);
    assert_eq!(launcher.session_timeout, 3600);
    assert_eq!(
        launcher.plugin_path,
        "/src/server/../plugin/target/scala-2.13/spark-plug_2.13-0.1.0.jar"
    );

    let launcher = from_config(&local_config(), &offers(None, Some("/b"))).unwrap();
    assert_eq!(launcher.versions[0].home, "/b");

    assert!(matches!(
        from_config(&local_config(), &offers(None, None)),
        Err(SetupError::NoSpark)
    ));
}

#[test]
fn a_launcher_takes_the_configured_versions() {
    let config = ProxyConfig {
        spark_versions: Some(vec![SparkVersion {
            name: "3.5".to_string(),
            home: "/opt/3.5".to_string(),
            ..Default::default()
        }]),
        plugin_path: Some("/plugin.jar".to_string()),
        launch_timeout: Some(5),
        session_timeout: Some(6),
        ..local_config()
    };
    let launcher = from_config(&config, &offers(None, None)).unwrap();
    assert_eq!(launcher.get_versions(), vec!["3.5".to_string()]);
    assert_eq!(launcher.plugin_path, "/plugin.jar");
    assert_eq!(launcher.launch_timeout, 5);
    assert_eq!(launcher.session_timeout, 6);

    let embedded = MachineOffers {
        embedded_plugin: Some("/tmp/embedded.jar".to_string()),
        ..offers(None, None)
    };
    let launcher = from_config(&config, &embedded).unwrap();
    assert_eq!(launcher.plugin_path, "/tmp/embedded.jar");

    let empty = ProxyConfig {
        spark_versions: Some(vec![]),
        ..local_config()
    };
    assert!(matches!(
        from_config(&empty, &offers(None, None)),
        Err(SetupError::NoVersions)
    ));
}

#[test]
fn a_launch_is_over_when_it_fails_or_takes_too_long() {
    assert!(!launch_is_over(LaunchEvent::ProcessEnded { success: true }));
    assert!(launch_is_over(LaunchEvent::ProcessEnded { success: false }));
    assert!(launch_is_over(LaunchEvent::TimedOut));
}

#[test]
fn the_printed_spark_home_has_no_line_end() {
    assert_eq!(printed_spark_home("/opt/spark \r\n"), "/opt/spark");
    assert_eq!(printed_spark_home(" /opt/spark"), " /opt/spark");
}

#[test]
fn a_launcher_needs_an_address_to_be_called_back_at() {
    let config = ProxyConfig::default();
    let existing = vec!["/a".to_string()];
    assert!(matches!(
        SparkLauncher::calling_back(&config, &offers(Some("/a"), None), &existing, None),
        Err(SetupError::NoLocalAddress)
    ));
    assert!(matches!(
        SparkLauncher::calling_back(&config, &offers(None, None), &existing, None),
        Err(SetupError::NoSpark)
    ));
    let callback = Some("http://10.0.0.1:8100".to_string());
    let launcher =
        SparkLauncher::calling_back(&config, &offers(Some("/a"), None), &existing, callback).unwrap();
    assert_eq!(launcher.callback_addr, "http://10.0.0.1:8100");
}

fn version(name: &str, home: &str) -> SparkVersion {
    SparkVersion { name: name.to_string(), home: home.to_string(), ..Default::default() }
}

#[test]
fn a_launcher_needs_every_home_to_exist() {
    let config = ProxyConfig {
        spark_versions: Some(vec![version("one", "/1"), version("two", "/2"), version("three", "/3")]),
        ..local_config()
    };
    let machine = offers(None, None);
    let homes = |homes: &[&str]| homes.iter().map(|h| h.to_string()).collect::<Vec<String>>();
    assert_eq!(spark_homes(&config, &machine), homes(&["/1", "/2", "/3"]));

    let launcher =
        SparkLauncher::from_config(&config, &machine, &homes(&["/3", "/2", "/1"])).unwrap();
    assert_eq!(launcher.get_versions(), homes(&["one", "two", "three"]));

    match SparkLauncher::from_config(&config, &machine, &homes(&["/1"])) {
        Err(error) => {
            assert_eq!(error.message(), "Home directory not found for version two: /2");
            assert!(matches!(error, SetupError::MissingHome { .. }));
        }
        Ok(_) => panic!("two homes do not exist"),
    }
    match SparkLauncher::from_config(&config, &machine, &homes(&["/1", "/2"])) {
        Err(error) => {
            assert_eq!(error.message(), "Home directory not found for version three: /3");
        }
        Ok(_) => panic!("the last home does not exist"),
    }
    let versions = vec![version("one", "/1"), version("two", "/2")];
    assert_eq!(missing_home(&versions, &homes(&["/2"])), Some(0));
    assert_eq!(missing_home(&versions, &homes(&["/2", "/1"])), None);
}

#[test]
fn a_machines_spark_is_found_in_order() {
    let all = MachineOffers {
        printed_home: Some("/printed\n".to_string()),
        ..offers(Some("/named"), Some("/submit"))
    };
    assert_eq!(spark_homes(&local_config(), &all), vec!["/named".to_string()]);
    let unnamed = MachineOffers { spark_home: None, ..all };
    assert_eq!(spark_homes(&local_config(), &unnamed), vec!["/printed".to_string()]);
    let unprinted = MachineOffers { printed_home: None, ..unnamed };
    assert_eq!(spark_homes(&local_config(), &unprinted), vec!["/submit".to_string()]);
    assert!(spark_homes(&local_config(), &offers(None, None)).is_empty());
}
