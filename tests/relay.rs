use log_relay::{
    begin, finish, resolve, rocket, AppendError, ClientConfig, ClientNotFound, Config,
    ConfigError, ConfigPolicy, FaultKind, LogRequest, Response, Step, CLIENTS_DIR, CONFIG_FILE,
    MOUNT_POINT,
};

fn sample_config() -> Config {
    let mut config = Config::new("/data".to_string());
    config.insert_client(
        "c1".to_string(),
        ClientConfig::new("c1".to_string(), "out.log".to_string()),
    );
    config
}

fn request(client_id: &str, message: &str) -> LogRequest {
    LogRequest::new(client_id.to_string(), message.to_string())
}

fn expect_append(step: Step) -> (String, String) {
    match step {
        Step::Append { path, line } => (path, line),
        Step::Reply(r) => panic!("expected an append, got a reply {:?}", r),
    }
}

fn expect_reply(step: Step) -> Response {
    match step {
        Step::Append { path, .. } => panic!("expected a reply, got an append to {}", path),
        Step::Reply(r) => r,
    }
}

#[test]
fn registered_client_hello_is_logged() {
    let config: Result<Config, ConfigError> = Ok(sample_config());
    let step = begin(&config, &request("c1", "hello"));
    let (path, line) = expect_append(step);
    assert_eq!(path, "/data/clients/c1/out.log");
    assert_eq!(line, "hello\n");
    let response = finish(Ok(()));
    assert_eq!(response, Response::Logged);
    assert!(response.is_success());
    assert_eq!(response.body(), "Logged");
    assert_eq!(response.status(), 200);
    assert_eq!(response.fault(), None);
}

#[test]
fn unknown_client_ghost_is_refused() {
    let config: Result<Config, ConfigError> = Ok(sample_config());
    let response = expect_reply(begin(&config, &request("ghost", "x")));
    assert_eq!(response, Response::UnknownClient);
    assert!(!response.is_success());
    assert_eq!(response.body(), "Invalid client ID");
    assert_eq!(response.status(), 400);
    assert_eq!(response.fault(), Some(FaultKind::Client));
}

#[test]
fn unknown_client_refused_whatever_the_message() {
    let config: Result<Config, ConfigError> = Ok(sample_config());
    for message in ["", "hello", "line one\nline two", "../../etc/passwd", "C1"] {
        let response = expect_reply(begin(&config, &request("c2", message)));
        assert_eq!(response, Response::UnknownClient);
    }
    // identifiers match exactly, case included
    let response = expect_reply(begin(&config, &request("C1", "hello")));
    assert_eq!(response, Response::UnknownClient);
}

#[test]
fn registered_client_any_message_is_one_line() {
    let config: Result<Config, ConfigError> = Ok(sample_config());
    for message in ["", "x", "with spaces and {braces}", "tab\there", "ünïcødé"] {
        let (path, line) = expect_append(begin(&config, &request("c1", message)));
        assert_eq!(path, "/data/clients/c1/out.log");
        assert_eq!(line, format!("{}\n", message));
    }
}

#[test]
fn unreadable_config_is_server_fault() {
    let config: Result<Config, ConfigError> = Err(ConfigError);
    for client_id in ["c1", "ghost", ""] {
        let response = expect_reply(begin(&config, &request(client_id, "hello")));
        assert_eq!(response, Response::ConfigUnreadable);
        assert_eq!(response.body(), "Failed to read config");
        assert_eq!(response.status(), 500);
        assert_eq!(response.fault(), Some(FaultKind::Server));
    }
}

#[test]
fn failed_append_is_server_fault() {
    let response = finish(Err(AppendError));
    assert_eq!(response, Response::AppendFailed);
    assert!(!response.is_success());
    assert_eq!(response.body(), "Failed to log message");
    assert_eq!(response.status(), 500);
    assert_eq!(response.fault(), Some(FaultKind::Server));
}

#[test]
fn repeated_request_appends_two_lines() {
    let config: Result<Config, ConfigError> = Ok(sample_config());
    let mut text = String::from("earlier\n");
    let mut paths = Vec::new();
    for _ in 0..2 {
        let (path, line) = expect_append(begin(&config, &request("c1", "hello")));
        text.push_str(&line);
        paths.push(path);
    }
    assert_eq!(paths[0], paths[1]);
    assert_eq!(text, "earlier\nhello\nhello\n");
}

#[test]
fn path_uses_entry_id_not_key() {
    let mut config = Config::new("/srv/logs".to_string());
    config.insert_client(
        "alias".to_string(),
        ClientConfig::new("real".to_string(), "app/today.log".to_string()),
    );
    let path = resolve(&config, &"alias".to_string()).unwrap();
    assert_eq!(path, "/srv/logs/clients/real/app/today.log");
    assert_eq!(resolve(&config, &"real".to_string()), Err(ClientNotFound));
}

#[test]
fn path_joining_follows_platform_rules() {
    let mut config = Config::new("/data/".to_string());
    config.insert_client(
        "c1".to_string(),
        ClientConfig::new("c1".to_string(), "out.log".to_string()),
    );
    config.insert_client(
        "abs".to_string(),
        ClientConfig::new("abs".to_string(), "/var/log/abs.log".to_string()),
    );
    assert_eq!(resolve(&config, &"c1".to_string()).unwrap(), "/data/clients/c1/out.log");
    // an absolute fragment replaces what it is joined to
    assert_eq!(resolve(&config, &"abs".to_string()).unwrap(), "/var/log/abs.log");
    let relative = {
        let mut c = Config::new("base".to_string());
        c.insert_client("k".to_string(), ClientConfig::new("k".to_string(), "f".to_string()));
        c
    };
    assert_eq!(resolve(&relative, &"k".to_string()).unwrap(), "base/clients/k/f");
    assert_eq!(CLIENTS_DIR, "clients");
}

#[test]
fn registry_insert_replaces_and_get_looks_up() {
    let mut config = Config::new("/data".to_string());
    assert_eq!(config.basedir(), "/data");
    assert!(config.get(&"c1".to_string()).is_none());
    config.insert_client("c1".to_string(), ClientConfig::new("c1".to_string(), "a.log".to_string()));
    config.insert_client("c2".to_string(), ClientConfig::new("c2".to_string(), "b.log".to_string()));
    config.insert_client("c1".to_string(), ClientConfig::new("c1".to_string(), "c.log".to_string()));
    assert_eq!(config.get(&"c1".to_string()).unwrap().log_path, "c.log");
    assert_eq!(config.get(&"c2".to_string()).unwrap().log_path, "b.log");
    assert!(config.get(&"c3".to_string()).is_none());
    assert_eq!(resolve(&config, &"c1".to_string()).unwrap(), "/data/clients/c1/c.log");
}

#[test]
fn empty_registry_refuses_everyone() {
    let config: Result<Config, ConfigError> = Ok(Config::new("/data".to_string()));
    assert_eq!(expect_reply(begin(&config, &request("", ""))), Response::UnknownClient);
    assert_eq!(expect_reply(begin(&config, &request("c1", "x"))), Response::UnknownClient);
}

#[test]
fn default_service_settings() {
    let service = rocket();
    assert_eq!(service.mount_point, MOUNT_POINT);
    assert_eq!(service.mount_point, "/");
    assert_eq!(service.config_file, CONFIG_FILE);
    assert_eq!(service.config_file, "config.json");
    assert_eq!(service.config_policy, ConfigPolicy::EveryRequest);
    assert!(service.loads_config_per_request());
    let cached = service.with_config_policy(ConfigPolicy::AtStartup);
    assert_eq!(cached.config_policy, ConfigPolicy::AtStartup);
    assert!(!cached.loads_config_per_request());
    assert_eq!(cached.mount_point, "/");
}
