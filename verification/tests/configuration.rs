use receipt_repository_api::configuration::app_config;
use receipt_repository_api::configuration::get_env;
use receipt_repository_api::configuration::obstacle;
use receipt_repository_api::configuration::AppConfig;
use receipt_repository_api::configuration::Obstacle;
use receipt_repository_api::error::Error;

fn full_environment() -> Vec<(String, String)> {
    let pairs = [
        ("BIND_ADDR", "127.0.0.1"),
        ("BIND_PORT", "8443"),
        ("DATABASE_URL", "postgres://writer@localhost/receipts"),
        ("RUST_LOG", "info,tower_http=debug"),
        ("LOG_TO_FILE", "1"),
        ("LOG_DIRECTORY", "/var/log/receipts"),
        ("LOG_PREFIX", "api.log"),
        ("WRITER_CHANNEL_BUFFER_SIZE", "32"),
        ("ALLOW_ORIGINS", "https://a.example,https://b.example"),
        ("TLS_PEM_FILES_FOLDER", "pem"),
        ("TLS_CERT_FILE_NAME", "cert.pem"),
        ("TLS_KEY_FILE_NAME", "key.pem"),
    ];
    pairs.iter().map(|(name, value)| (name.to_string(), value.to_string())).collect()
}

/// Loads from variables that can be loaded from, as every caller must make
/// sure before it loads.
fn load(vars: &Vec<(String, String)>) -> Result<AppConfig, Error> {
    assert!(!matches!(obstacle(vars), Some(Obstacle::Unusable(_))));
    app_config(vars)
}

fn without(name: &str) -> Vec<(String, String)> {
    full_environment().into_iter().filter(|(n, _)| n != name).collect()
}

fn with(name: &str, value: &str) -> Vec<(String, String)> {
    full_environment()
        .into_iter()
        .map(|(n, v)| if n == name { (n, value.to_string()) } else { (n, v) })
        .collect()
}

#[test]
fn complete_environment_gives_every_setting() {
    assert_eq!(obstacle(&full_environment()), None);
    let config = load(&full_environment()).unwrap();
    assert_eq!(config.get_address(), "127.0.0.1:8443");
    assert_eq!(config.get_db_url(), "postgres://writer@localhost/receipts");
    assert_eq!(config.get_log_filter(), "info,tower_http=debug");
    assert!(config.log_to_file());
    assert_eq!(config.get_log_directory(), "/var/log/receipts");
    assert_eq!(config.get_log_prefix(), "api.log");
    assert_eq!(config.get_writer_channel_buffer_size(), 32);
    assert_eq!(
        config.get_allow_origins(),
        &vec!["https://a.example".to_string(), "https://b.example".to_string()]
    );
    assert_eq!(config.get_tls_pem_folder_name(), "pem");
    assert_eq!(config.get_tls_cert_name(), "cert.pem");
    assert_eq!(config.get_tls_key_name(), "key.pem");
}

#[test]
fn a_missing_variable_is_named_in_the_error() {
    let names: [&'static str; 10] = [
        "BIND_ADDR",
        "BIND_PORT",
        "DATABASE_URL",
        "RUST_LOG",
        "LOG_DIRECTORY",
        "LOG_PREFIX",
        "WRITER_CHANNEL_BUFFER_SIZE",
        "TLS_PEM_FILES_FOLDER",
        "TLS_CERT_FILE_NAME",
        "TLS_KEY_FILE_NAME",
    ];
    for name in names {
        assert_eq!(obstacle(&without(name)), Some(Obstacle::Missing(name)));
        assert_eq!(load(&without(name)).unwrap_err(), Error::ConfigMissingEnv(name));
    }
}

#[test]
fn there_is_no_loading_without_the_log_switch_or_the_origins() {
    for name in ["LOG_TO_FILE", "ALLOW_ORIGINS"] {
        assert_eq!(obstacle(&without(name)), Some(Obstacle::Unusable(name)));
    }
    // an empty value is a value
    assert_eq!(obstacle(&with("LOG_TO_FILE", "")), None);
    assert_eq!(obstacle(&with("ALLOW_ORIGINS", "")), None);
}

#[test]
fn empty_environment_complains_about_the_first_variable() {
    assert_eq!(obstacle(&Vec::new()), Some(Obstacle::Missing("BIND_ADDR")));
    assert_eq!(load(&Vec::new()).unwrap_err(), Error::ConfigMissingEnv("BIND_ADDR"));
}

#[test]
fn the_first_obstacle_in_reading_order_decides() {
    // the port is read before the database address and the key file name
    let vars: Vec<(String, String)> = with("BIND_PORT", "http")
        .into_iter()
        .filter(|(n, _)| n != "DATABASE_URL" && n != "TLS_KEY_FILE_NAME")
        .collect();
    assert_eq!(obstacle(&vars), Some(Obstacle::Unusable("BIND_PORT")));

    // the host is read before the port: the reading never comes to the port
    let vars: Vec<(String, String)> =
        with("BIND_PORT", "http").into_iter().filter(|(n, _)| n != "BIND_ADDR").collect();
    assert_eq!(obstacle(&vars), Some(Obstacle::Missing("BIND_ADDR")));
    assert_eq!(load(&vars).unwrap_err(), Error::ConfigMissingEnv("BIND_ADDR"));

    // the log filter is read before the log switch and the size of the queue
    let vars: Vec<(String, String)> = with("WRITER_CHANNEL_BUFFER_SIZE", "many")
        .into_iter()
        .filter(|(n, _)| n != "RUST_LOG" && n != "LOG_TO_FILE")
        .collect();
    assert_eq!(obstacle(&vars), Some(Obstacle::Missing("RUST_LOG")));
    assert_eq!(load(&vars).unwrap_err(), Error::ConfigMissingEnv("RUST_LOG"));

    // the log switch is read before the log directory
    let vars: Vec<(String, String)> = full_environment()
        .into_iter()
        .filter(|(n, _)| n != "LOG_TO_FILE" && n != "LOG_DIRECTORY")
        .collect();
    assert_eq!(obstacle(&vars), Some(Obstacle::Unusable("LOG_TO_FILE")));

    // the size of the queue is read before the origins and the TLS folder
    let vars: Vec<(String, String)> = full_environment()
        .into_iter()
        .filter(|(n, _)| {
            n != "WRITER_CHANNEL_BUFFER_SIZE" && n != "ALLOW_ORIGINS" && n != "TLS_PEM_FILES_FOLDER"
        })
        .collect();
    assert_eq!(obstacle(&vars), Some(Obstacle::Missing("WRITER_CHANNEL_BUFFER_SIZE")));
    assert_eq!(load(&vars).unwrap_err(), Error::ConfigMissingEnv("WRITER_CHANNEL_BUFFER_SIZE"));
}

#[test]
fn port_must_be_a_number_that_fits() {
    for bad in ["", "+", "-1", "http", "80 ", " 80", "8o", "65536", "99999999999999999999", "0x50"] {
        let found = obstacle(&with("BIND_PORT", bad));
        assert_eq!(found, Some(Obstacle::Unusable("BIND_PORT")), "port {bad:?}");
    }
    for (good, address) in [
        ("0", "127.0.0.1:0"),
        ("80", "127.0.0.1:80"),
        ("+80", "127.0.0.1:80"),
        ("00080", "127.0.0.1:80"),
        ("65535", "127.0.0.1:65535"),
    ] {
        assert_eq!(obstacle(&with("BIND_PORT", good)), None, "port {good:?}");
        let config = load(&with("BIND_PORT", good)).unwrap();
        assert_eq!(config.get_address(), address, "port {good:?}");
    }
}

#[test]
fn buffer_size_must_be_a_number_that_fits() {
    for bad in ["", "-1", "-4", "four", "4.0", "340282366920938463463374607431768211456"] {
        let found = obstacle(&with("WRITER_CHANNEL_BUFFER_SIZE", bad));
        assert_eq!(found, Some(Obstacle::Unusable("WRITER_CHANNEL_BUFFER_SIZE")), "size {bad:?}");
    }
    let config = load(&with("WRITER_CHANNEL_BUFFER_SIZE", "2")).unwrap();
    assert_eq!(config.get_writer_channel_buffer_size(), 2);
    let config = load(&with("WRITER_CHANNEL_BUFFER_SIZE", "0")).unwrap();
    assert_eq!(config.get_writer_channel_buffer_size(), 0);
    let config = load(&with("WRITER_CHANNEL_BUFFER_SIZE", "+1024")).unwrap();
    assert_eq!(config.get_writer_channel_buffer_size(), 1024);
    let largest = usize::MAX.to_string();
    let config = load(&with("WRITER_CHANNEL_BUFFER_SIZE", &largest)).unwrap();
    assert_eq!(config.get_writer_channel_buffer_size(), usize::MAX);
}

#[test]
fn only_the_text_zero_turns_file_logging_off() {
    assert!(!load(&with("LOG_TO_FILE", "0")).unwrap().log_to_file());
    for on in ["1", "", "00", "false", "no", " 0", "0 "] {
        assert!(load(&with("LOG_TO_FILE", on)).unwrap().log_to_file(), "value {on:?}");
    }
}

#[test]
fn origins_are_cut_at_every_comma() {
    let cases: [(&str, Vec<&str>); 6] = [
        ("https://a.example", vec!["https://a.example"]),
        ("a,b,c", vec!["a", "b", "c"]),
        ("", vec![""]),
        (",", vec!["", ""]),
        ("a,,b,", vec!["a", "", "b", ""]),
        (" a , b ", vec![" a ", " b "]),
    ];
    for (text, pieces) in cases {
        let config = load(&with("ALLOW_ORIGINS", text)).unwrap();
        let expected: Vec<String> = pieces.iter().map(|p| p.to_string()).collect();
        assert_eq!(config.get_allow_origins(), &expected, "origins {text:?}");
    }
}

#[test]
fn address_joins_host_and_port_with_a_colon() {
    let vars = with("BIND_ADDR", "::1");
    let config = load(&with_in(vars, "BIND_PORT", "443")).unwrap();
    assert_eq!(config.get_address(), "::1:443");
    let config = load(&with("BIND_ADDR", "")).unwrap();
    assert_eq!(config.get_address(), ":8443");
}

fn with_in(vars: Vec<(String, String)>, name: &str, value: &str) -> Vec<(String, String)> {
    vars.into_iter().map(|(n, v)| if n == name { (n, value.to_string()) } else { (n, v) }).collect()
}

#[test]
fn the_first_of_two_variables_of_one_name_counts() {
    let mut vars = full_environment();
    vars.push(("BIND_PORT".to_string(), "1".to_string()));
    vars.insert(0, ("DATABASE_URL".to_string(), "postgres://first".to_string()));
    let config = load(&vars).unwrap();
    assert_eq!(config.get_address(), "127.0.0.1:8443");
    assert_eq!(config.get_db_url(), "postgres://first");

    let mut vars = full_environment();
    vars.insert(0, ("BIND_PORT".to_string(), "http".to_string()));
    assert_eq!(obstacle(&vars), Some(Obstacle::Unusable("BIND_PORT")));
}

#[test]
fn variable_names_are_matched_exactly() {
    let vars = vec![
        ("bind_addr".to_string(), "lower".to_string()),
        ("BIND_ADDR ".to_string(), "padded".to_string()),
        ("BIND_ADD".to_string(), "short".to_string()),
    ];
    assert_eq!(get_env(&vars, "BIND_ADDR"), Err(Error::ConfigMissingEnv("BIND_ADDR")));
    assert_eq!(get_env(&vars, "BIND_ADD"), Ok("short".to_string()));
}
