use http::header::HeaderMap;
use spark_connect_proxy::application::{
    Changes, DbError, Filter, Model, NewRow, State, StatusCode, Timestamp, Update,
};
use spark_connect_proxy::auth::{
    AuthMethod, AuthStep, BearerToken, CurrentUserAuth, RemoteUserAuth, TokenAuth, UserAuth,
    UserId,
};
use spark_connect_proxy::config::ProxyConfig;
use spark_connect_proxy::proxy::SessionMessage;
use spark_connect_proxy::routes::{
    app_callback, app_callback_delete, app_query, create_app, create_app_with_token, delete_app,
    get_app, list_apps, list_query, list_request, read_list_request, reported, stopped,
    ApplicationCallbackRequest, ApplicationInfo, CreateApplicationRequest, LaunchOutcome,
    ListApplicationsQuery, ListApplicationsRequest, TimeRead,
};

fn copy(row: &Model) -> Model {
    Model {
        id: row.id,
        created_at: row.created_at,
        username: row.username.clone(),
        state: row.state,
        token: row.token.clone(),
        address: row.address.clone(),
        application_id: row.application_id.clone(),
    }
}

/// The handlers over a table in memory.
struct TestServer {
    config: ProxyConfig,
    auth: UserAuth<()>,
    table: Vec<Model>,
    messages: Vec<SessionMessage>,
    launches: bool,
}

impl TestServer {
    fn new(config: ProxyConfig) -> Self {
        TestServer {
            config,
            auth: UserAuth {
                auth_methods: vec![
                    AuthMethod::RemoteUser(RemoteUserAuth { header: "REMOTE_USER".to_string() }),
                    AuthMethod::CurrentUser(CurrentUserAuth {}),
                ],
            },
            table: Vec::new(),
            messages: Vec::new(),
            launches: true,
        }
    }

    fn user(&self, remote: Option<&str>) -> UserId {
        let mut headers = HeaderMap::new();
        if let Some(name) = remote {
            headers.insert("REMOTE_USER", name.parse().unwrap());
        }
        match self.auth.authorize(&headers) {
            AuthStep::Allowed(user) => user,
            _ => panic!("every user is recognised"),
        }
    }

    fn session(&self, token: &str) -> BearerToken {
        let mut headers = HeaderMap::new();
        headers.insert("authorization", format!("Bearer {token}").parse().unwrap());
        TokenAuth {}.authorize(&headers).unwrap()
    }

    fn insert(&mut self, new: NewRow) -> Model {
        let row = Model {
            id: self.table.len() as i32 + 1,
            created_at: Timestamp { secs: 1_700_000_000 + self.table.len() as i64, nanos: 0 },
            username: new.username,
            state: new.state,
            token: new.token,
            address: None,
            application_id: None,
        };
        self.table.push(copy(&row));
        row
    }

    fn select(&self, filter: &Filter) -> Vec<Model> {
        self.table.iter().filter(|row| filter.matches(row)).map(copy).collect()
    }

    fn update(&mut self, update: Update) -> u64 {
        let mut affected = 0;
        let Changes { state, address, application_id } = update.changes;
        for row in self.table.iter_mut() {
            if update.filter.matches(row) {
                let changes = Changes {
                    state,
                    address: address.clone(),
                    application_id: application_id.clone(),
                };
                *row = changes.apply(copy(row));
                affected += 1;
            }
        }
        affected
    }

    fn create(&mut self, remote: Option<&str>) -> Result<ApplicationInfo, StatusCode> {
        let params = CreateApplicationRequest { version: None, config: None, python_packages: None };
        let (creating, new) = create_app(self.user(remote), params);
        let row = self.insert(new);
        let (launching, request) = creating.inserted(Ok(row))?;
        assert_eq!(request.app_name, None);
        match launching.launched(self.launches, &self.config) {
            LaunchOutcome::Started { info, .. } => Ok(info),
            LaunchOutcome::Failed { update, status } => {
                self.update(update);
                Err(status)
            }
        }
    }

    fn get(&self, remote: Option<&str>, id: i32) -> Result<ApplicationInfo, StatusCode> {
        let found = self.select(&app_query(id, &self.user(remote))).into_iter().next();
        get_app(Ok(found), &self.config)
    }

    fn list(
        &self,
        remote: Option<&str>,
        params: ListApplicationsRequest,
    ) -> Result<Vec<ApplicationInfo>, StatusCode> {
        let filter = list_query(&self.user(remote), params)?;
        list_apps(Ok(self.select(&filter)), &self.config)
    }

    fn list_all(&self, remote: Option<&str>) -> Vec<ApplicationInfo> {
        self.list(remote, everything()).unwrap()
    }

    fn delete(&mut self, remote: Option<&str>, id: i32) -> Result<(), StatusCode> {
        let user = self.user(remote);
        let found = self.select(&app_query(id, &user)).into_iter().next();
        let (deleting, update) = delete_app(Ok(found), id, &user)?;
        self.update(update);
        if let Some(message) = deleting.marked(Ok(()))? {
            self.messages.push(message);
            stopped(Ok(()))?;
        }
        Ok(())
    }

    fn callback(&mut self, token: &str, address: &str, id: &str) -> Result<(), StatusCode> {
        let update = app_callback(
            self.session(token),
            ApplicationCallbackRequest {
                address: address.to_string(),
                application_id: id.to_string(),
            },
        );
        reported(Ok(self.update(update)))
    }

    fn callback_delete(&mut self, token: &str) -> Result<(), StatusCode> {
        let update = app_callback_delete(self.session(token));
        reported(Ok(self.update(update)))
    }
}

fn everything() -> ListApplicationsRequest {
    ListApplicationsRequest { state: None, created_at_after: None, created_at_before: None }
}

fn in_states(states: &str) -> ListApplicationsRequest {
    ListApplicationsRequest { state: Some(states.to_string()), ..everything() }
}

#[test]
fn test_routes() {
    let mut server = TestServer::new(ProxyConfig::default());

    assert_eq!(server.list_all(None), vec![]);

    let app = server.create(None).unwrap();

    assert_eq!(server.get(None, app.id).unwrap(), app);

    server.callback(&app.token, "localhost:12345", "test-app-1").unwrap();

    let app = server.get(None, app.id).unwrap();
    assert!(app.active);
    assert_eq!(app.state, "RUNNING");

    server.callback_delete(&app.token).unwrap();

    let app = server.get(None, app.id).unwrap();
    assert!(!app.active);
    assert_eq!(app.state, "FINISHED");
}

#[test]
fn test_users() {
    let mut server = TestServer::new(ProxyConfig::default());

    let app = server.create(Some("user1")).unwrap();

    assert_eq!(server.list_all(Some("user2")), vec![]);

    assert_eq!(server.list_all(Some("user1")), vec![app]);
}

#[test]
fn test_delete_app_marks_finished() {
    let mut server = TestServer::new(ProxyConfig::default());

    let app = server.create(None).unwrap();

    server.delete(None, app.id).unwrap();

    let updated = server.get(None, app.id).unwrap();
    assert_eq!(updated.state, "FINISHED");
    assert!(!updated.active);
}

#[test]
fn test_ui_url_rendering() {
    let mut server = TestServer::new(ProxyConfig {
        ui_url_template: Some(
            "https://knox.example.com/gateway/default/yarn/app/{{ application_id }}".to_string(),
        ),
        ..Default::default()
    });

    let app = server.create(Some("testuser")).unwrap();

    assert_eq!(app.ui_url, None);
    assert_eq!(app.state, "LAUNCHING");

    server.callback(&app.token, "localhost:54321", "app-20251119-001").unwrap();

    let updated_app = server.get(Some("testuser"), app.id).unwrap();
    assert_eq!(updated_app.state, "RUNNING");
    assert!(updated_app.active);

    assert_eq!(
        updated_app.ui_url,
        Some("https://knox.example.com/gateway/default/yarn/app/app-20251119-001".to_string())
    );
}

#[test]
fn test_ui_url_rendering_in_list() {
    let mut server = TestServer::new(ProxyConfig {
        ui_url_template: Some("https://example.com/ui/{{ application_id }}".to_string()),
        ..Default::default()
    });

    let app1 = server.create(Some("user1")).unwrap();
    let app2 = server.create(Some("user1")).unwrap();

    server.callback(&app1.token, "localhost:11111", "spark-app-1").unwrap();
    server.callback(&app2.token, "localhost:22222", "spark-app-2").unwrap();

    let apps = server.list_all(Some("user1"));
    assert_eq!(apps.len(), 2);

    let updated_app1 = apps.iter().find(|a| a.id == app1.id).unwrap();
    let updated_app2 = apps.iter().find(|a| a.id == app2.id).unwrap();

    assert_eq!(
        updated_app1.ui_url,
        Some("https://example.com/ui/spark-app-1".to_string())
    );
    assert_eq!(
        updated_app2.ui_url,
        Some("https://example.com/ui/spark-app-2".to_string())
    );
}

#[test]
fn test_ui_url_none_without_template() {
    let mut server = TestServer::new(ProxyConfig::default());

    let app = server.create(Some("testuser")).unwrap();
    server.callback(&app.token, "localhost:99999", "some-app-id").unwrap();

    let updated_app = server.get(Some("testuser"), app.id).unwrap();
    assert_eq!(updated_app.ui_url, None);
}

#[test]
fn test_list_apps_filters_by_state() {
    let mut server = TestServer::new(ProxyConfig::default());

    let launching = server.create(Some("user1")).unwrap();
    let running = server.create(Some("user1")).unwrap();
    server.callback(&running.token, "localhost:9999", "spark-app-running").unwrap();
    server.delete(Some("user1"), launching.id).unwrap();

    let filtered = server.list(Some("user1"), in_states("RUNNING")).unwrap();

    assert_eq!(filtered.len(), 1);
    assert_eq!(filtered[0].id, running.id);
    assert_eq!(filtered[0].state, "RUNNING");
}

#[test]
fn test_list_apps_filters_by_multiple_states() {
    let mut server = TestServer::new(ProxyConfig::default());

    let launching = server.create(Some("user1")).unwrap();
    let running = server.create(Some("user1")).unwrap();
    server.callback(&running.token, "localhost:8765", "spark-app-running-multi").unwrap();
    server.delete(Some("user1"), launching.id).unwrap();

    let filtered = server.list(Some("user1"), in_states("RUNNING,FINISHED")).unwrap();

    assert_eq!(filtered.len(), 2);
    assert!(filtered.iter().any(|a| a.id == running.id && a.state == "RUNNING"));
    assert!(filtered.iter().any(|a| a.id == launching.id && a.state == "FINISHED"));
}

#[test]
fn test_list_apps_filters_by_created_at() {
    let mut server = TestServer::new(ProxyConfig::default());

    let first = server.create(Some("user1")).unwrap();
    let second = server.create(Some("user1")).unwrap();

    let first_created_at = Timestamp { secs: 1_700_000_000, nanos: 0 };
    let second_created_at = Timestamp { secs: 1_700_000_060, nanos: 0 };
    for row in server.table.iter_mut() {
        row.created_at = if row.id == first.id { first_created_at } else { second_created_at };
    }

    let exactly = |time: &str| {
        let query = ListApplicationsQuery {
            state: None,
            created_at_after: Some(time.to_string()),
            created_at_before: Some(time.to_string()),
        };
        read_list_request(query).unwrap()
    };
    let first_ts = "2023-11-14T22:13:20+00:00";
    let second_ts = "2023-11-14T22:14:20+00:00";

    let first_apps = server.list(Some("user1"), exactly(first_ts)).unwrap();
    assert_eq!(first_apps.len(), 1);
    assert_eq!(first_apps[0].id, first.id);

    let second_apps = server.list(Some("user1"), exactly(second_ts)).unwrap();
    assert_eq!(second_apps.len(), 1);
    assert_eq!(second_apps[0].id, second.id);
}

#[test]
fn test_list_apps_invalid_filter_rejected() {
    let server = TestServer::new(ProxyConfig::default());

    assert_eq!(
        server.list(Some("user1"), in_states("NOT_A_STATE")).unwrap_err(),
        StatusCode::BadRequest
    );

    let query = ListApplicationsQuery {
        state: None,
        created_at_after: Some("not-a-timestamp".to_string()),
        created_at_before: None,
    };
    assert_eq!(read_list_request(query).err(), Some(StatusCode::BadRequest));
}

#[test]
fn times_in_requests_are_read() {
    let query = |after: Option<&str>, before: Option<&str>| ListApplicationsQuery {
        state: Some("FAILED".to_string()),
        created_at_after: after.map(str::to_string),
        created_at_before: before.map(str::to_string),
    };
    let request = read_list_request(query(
        Some("2023-11-14T22:13:20+00:00"),
        Some("2023-11-15T00:13:20.5+02:00"),
    ))
    .unwrap();
    assert_eq!(request.state, Some("FAILED".to_string()));
    assert_eq!(request.created_at_after, Some(Timestamp { secs: 1_700_000_000, nanos: 0 }));
    let half_past = Timestamp { secs: 1_700_000_000, nanos: 500_000_000 };
    assert_eq!(request.created_at_before, Some(half_past));

    let request = read_list_request(query(None, None)).unwrap();
    assert_eq!(request.created_at_after, None);
    assert_eq!(request.created_at_before, None);
    for (after, before) in [(None, Some("")), (Some("2023-11-14"), None), (Some("1"), Some("2"))] {
        assert_eq!(
            read_list_request(query(after, before)).err(),
            Some(StatusCode::BadRequest)
        );
    }

    let time = Timestamp { secs: 1, nanos: 2 };
    let request = list_request(None, TimeRead::Absent, TimeRead::Time(time)).unwrap();
    assert_eq!(request.created_at_after, None);
    assert_eq!(request.created_at_before, Some(time));
    assert!(list_request(None, TimeRead::Time(time), TimeRead::Unreadable).is_err());
}

#[test]
fn listed_states_may_be_blank_or_padded() {
    let mut server = TestServer::new(ProxyConfig::default());
    server.create(Some("user1")).unwrap();
    assert_eq!(server.list(Some("user1"), in_states(" , ,")).unwrap().len(), 1);
    assert_eq!(server.list(Some("user1"), in_states(" LAUNCHING ,")).unwrap().len(), 1);
    assert_eq!(server.list(Some("user1"), in_states("FAILED")).unwrap().len(), 0);
    assert_eq!(
        server.list(Some("user1"), in_states("LAUNCHING,launching")).unwrap_err(),
        StatusCode::BadRequest
    );
}

#[test]
fn users_cannot_see_or_end_applications_of_others() {
    let mut server = TestServer::new(ProxyConfig::default());
    let app = server.create(Some("user1")).unwrap();
    server.callback(&app.token, "h:1", "a").unwrap();

    assert_eq!(server.get(Some("user2"), app.id).unwrap_err(), StatusCode::NotFound);
    assert_eq!(server.delete(Some("user2"), app.id).unwrap_err(), StatusCode::NotFound);
    assert!(server.get(Some("user1"), app.id).unwrap().active);
    assert_eq!(server.get(Some("user1"), 99).unwrap_err(), StatusCode::NotFound);
}

#[test]
fn running_applications_are_told_to_stop() {
    let mut server = TestServer::new(ProxyConfig::default());
    let app = server.create(None).unwrap();
    server.callback(&app.token, "h:1", "a").unwrap();
    server.delete(None, app.id).unwrap();
    assert_eq!(server.messages.len(), 1);
    let message = &server.messages[0];
    assert_eq!(message.url, "http://h:1/spark.connect.SparkConnectService/Config");
    assert_eq!(message.token, app.token);
    assert_eq!(message.headers[0], ("X-Connect-Proxy".to_string(), "stop".to_string()));
    assert!(!message.no_proxy);

    assert_eq!(stopped(Err("refused".to_string())).unwrap_err(), StatusCode::InternalServerError);
}

#[test]
fn reports_with_unknown_tokens_are_not_found() {
    let mut server = TestServer::new(ProxyConfig::default());
    server.create(None).unwrap();
    assert_eq!(server.callback("unknown", "h:1", "a").unwrap_err(), StatusCode::NotFound);
    assert_eq!(server.callback_delete("unknown").unwrap_err(), StatusCode::NotFound);
    assert!(!server.list_all(None)[0].active);
}

#[test]
fn a_failed_launch_fails_the_application() {
    let mut server = TestServer::new(ProxyConfig::default());
    server.launches = false;
    assert_eq!(server.create(None).unwrap_err(), StatusCode::InternalServerError);
    assert_eq!(server.list_all(None)[0].state, "FAILED");
}

#[test]
fn the_end_of_a_launch_fails_what_has_not_called_back() {
    let mut server = TestServer::new(ProxyConfig::default());
    for called_back in [false, true] {
        let params = CreateApplicationRequest { version: None, config: None, python_packages: None };
        let (creating, new) = create_app(server.user(None), params);
        let row = server.insert(new);
        let (launching, _) = creating.inserted(Ok(row)).unwrap();
        let (info, once_ended) = match launching.launched(true, &server.config) {
            LaunchOutcome::Started { info, once_ended } => (info, once_ended),
            LaunchOutcome::Failed { .. } => panic!("the launch succeeded"),
        };
        if called_back {
            server.callback(&info.token, "h:1", "a").unwrap();
        }
        server.update(once_ended);
        let state = server.get(None, info.id).unwrap().state;
        assert_eq!(state, if called_back { "RUNNING" } else { "FAILED" });
    }
}

#[test]
fn applications_have_an_address_exactly_while_they_run() {
    let mut server = TestServer::new(ProxyConfig::default());
    let check = |server: &TestServer| {
        for row in server.table.iter() {
            assert_eq!(row.address.is_some(), row.state == State::RUNNING);
        }
    };
    let one = server.create(None).unwrap();
    let two = server.create(None).unwrap();
    check(&server);
    server.callback(&one.token, "h:1", "a").unwrap();
    server.callback(&two.token, "h:2", "b").unwrap();
    check(&server);
    server.delete(None, one.id).unwrap();
    check(&server);
    server.callback_delete(&two.token).unwrap();
    check(&server);
    server.launches = false;
    server.create(None).unwrap_err();
    check(&server);
}

#[test]
fn new_applications_get_a_token_of_their_own() {
    let mut server = TestServer::new(ProxyConfig::default());
    let one = server.create(None).unwrap();
    let two = server.create(None).unwrap();
    assert_ne!(one.token, two.token);
    for token in [&one.token, &two.token] {
        let parts: Vec<usize> = token.split('-').map(str::len).collect();
        assert_eq!(parts, vec![8, 4, 4, 4, 12]);
        assert!(token.chars().all(|c| c == '-' || c.is_ascii_digit() || ('a'..='f').contains(&c)));
        assert_eq!(token.as_bytes()[14], b'4');
        assert!(b"89ab".contains(&token.as_bytes()[19]));
    }
}

#[test]
fn launches_are_asked_for_what_the_user_asked_for() {
    let params = CreateApplicationRequest {
        version: Some("4.0".to_string()),
        config: None,
        python_packages: Some(vec!["numpy".to_string()]),
    };
    let (creating, new) =
        create_app_with_token(UserId("alice".to_string()), "token".to_string(), params);
    assert_eq!(new.username, "alice");
    assert_eq!(new.token, "token");
    assert_eq!(new.state, State::LAUNCHING);
    let mut server = TestServer::new(ProxyConfig::default());
    let row = server.insert(new);
    let (_, request) = creating.inserted(Ok(row)).unwrap();
    assert_eq!(request.version, Some("4.0".to_string()));
    assert_eq!(request.session_id, 1);
    assert_eq!(request.username, "alice");
    assert_eq!(request.token, "token");
    assert_eq!(request.user_config.len(), 0);
    assert_eq!(request.python_packages, Some(vec!["numpy".to_string()]));
}

#[test]
fn a_failing_store_is_an_internal_error() {
    let down = || DbError("down".to_string());
    let config = ProxyConfig::default();
    let user = UserId("alice".to_string());
    let params = CreateApplicationRequest { version: None, config: None, python_packages: None };
    let (creating, _) = create_app(user.clone(), params);
    assert!(matches!(creating.inserted(Err(down())), Err(StatusCode::InternalServerError)));
    assert_eq!(get_app(Err(down()), &config).unwrap_err().as_u16(), 500);
    assert_eq!(list_apps(Err(down()), &config).unwrap_err().as_u16(), 500);
    assert!(matches!(delete_app(Err(down()), 1, &user), Err(StatusCode::InternalServerError)));
    assert_eq!(reported(Err(down())).unwrap_err().as_u16(), 500);

    let mut server = TestServer::new(ProxyConfig::default());
    let app = server.create(Some("alice")).unwrap();
    let found = server.select(&app_query(app.id, &user)).into_iter().next();
    let deleting = match delete_app(Ok(found), app.id, &user) {
        Ok((deleting, _)) => deleting,
        Err(_) => panic!("the application is there"),
    };
    assert!(matches!(deleting.marked(Err(down())), Err(StatusCode::InternalServerError)));
}

#[test]
fn states_are_read_by_their_names() {
    for state in [State::LAUNCHING, State::RUNNING, State::FINISHED, State::FAILED] {
        assert_eq!(State::try_from_value(state.to_value()), Some(state));
    }
    assert_eq!(State::try_from_value("running"), None);
    assert_eq!(State::try_from_value(""), None);
}
