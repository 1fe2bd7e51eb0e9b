use node_bootstrap::config::{
    default_layer, derived_layer, file_layer, load_config, merge_layers, provision_config,
    resolve_config, ConfigError, ConfigField, ConfigLayer,
};
use node_bootstrap::env::{env_key_matches, env_layer, lookup_env, parse_port};
use node_bootstrap::paths::{
    blobs_dir_path, config_file_path, database_url, default_config_resource, join_path,
    private_key_path, schema_lock_resource,
};

fn vars(list: &[(&str, &str)]) -> Vec<(String, String)> {
    list.iter().map(|(k, v)| (k.to_string(), v.to_string())).collect()
}

fn empty_layer() -> ConfigLayer {
    ConfigLayer { database_url: None, blobs_base_path: None, http_port: None, quic_port: None }
}

#[test]
fn paths_in_data_dir() {
    assert_eq!(join_path("/a", "b"), "/a/b");
    assert_eq!(private_key_path("/data"), "/data/private-key.txt");
    assert_eq!(config_file_path("/data"), "/data/config.toml");
    assert_eq!(blobs_dir_path("/data"), "/data/blobs");
    assert_eq!(database_url("/data"), "sqlite:/data/db.sqlite3");
}

#[test]
fn resource_paths() {
    assert_eq!(default_config_resource("/app"), "/app/resources/config.toml");
    assert_eq!(schema_lock_resource("/app"), "/app/resources/schemas/schema.lock");
}

#[test]
fn port_parsing() {
    assert_eq!(parse_port("0"), Some(0));
    assert_eq!(parse_port("2020"), Some(2020));
    assert_eq!(parse_port("65535"), Some(65535));
    assert_eq!(parse_port("65536"), None);
    assert_eq!(parse_port("999999999999"), None);
    assert_eq!(parse_port(""), None);
    assert_eq!(parse_port("12a"), None);
    assert_eq!(parse_port("-1"), None);
    assert_eq!(parse_port(" 8080"), Some(8080));
    assert_eq!(parse_port("8080 \n"), Some(8080));
    assert_eq!(parse_port("+8080"), Some(8080));
    assert_eq!(parse_port("  +0 "), Some(0));
    assert_eq!(parse_port("+"), None);
    assert_eq!(parse_port("   "), None);
    assert_eq!(parse_port("+ 1"), None);
    assert_eq!(parse_port("++1"), None);
    assert_eq!(parse_port("80 80"), None);
}

#[test]
fn env_names_match_exactly() {
    assert!(env_key_matches("http_port", "http_port"));
    assert!(!env_key_matches("http_ports", "http_port"));
    assert!(!env_key_matches("quic_port", "http_port"));
    assert!(!env_key_matches("http", "http_port"));
}

#[test]
fn last_env_variable_wins() {
    let v = vars(&[("database_url", "first"), ("path", "/bin"), ("database_url", "second")]);
    assert_eq!(lookup_env(&v, "database_url"), Some("second".to_string()));
    assert_eq!(lookup_env(&v, "blobs_base_path"), None);
}

#[test]
fn env_layer_reads_known_fields() {
    let l = env_layer(&vars(&[("http_port", "8080"), ("unrelated", "x")])).unwrap();
    assert_eq!(l.http_port, Some(8080));
    assert_eq!(l.quic_port, None);
    assert_eq!(l.database_url, None);
}

#[test]
fn env_layer_rejects_bad_port() {
    let r = env_layer(&vars(&[("http_port", "70000")]));
    assert_eq!(r.unwrap_err(), ConfigError::InvalidValue(ConfigField::HttpPort));
    let r = env_layer(&vars(&[("quic_port", "abc")]));
    assert_eq!(r.unwrap_err(), ConfigError::InvalidValue(ConfigField::QuicPort));
}

#[test]
fn merge_is_pointwise() {
    let base = ConfigLayer {
        database_url: Some("a".to_string()),
        blobs_base_path: Some("b".to_string()),
        http_port: Some(1),
        quic_port: None,
    };
    let over = ConfigLayer {
        database_url: None,
        blobs_base_path: Some("c".to_string()),
        http_port: None,
        quic_port: Some(2),
    };
    let m = merge_layers(base, over);
    assert_eq!(m.database_url, Some("a".to_string()));
    assert_eq!(m.blobs_base_path, Some("c".to_string()));
    assert_eq!(m.http_port, Some(1));
    assert_eq!(m.quic_port, Some(2));
}

#[test]
fn derived_layer_sets_locations() {
    let l = derived_layer("/d");
    assert_eq!(l.database_url, Some("sqlite:/d/db.sqlite3".to_string()));
    assert_eq!(l.blobs_base_path, Some("/d/blobs".to_string()));
    assert_eq!(l.http_port, None);
}

#[test]
fn file_layer_reads_fields() {
    let l = file_layer("database_url = \"sqlite:/elsewhere\"\nhttp_port = 3000\nextra = true\n")
        .unwrap();
    assert_eq!(l.database_url, Some("sqlite:/elsewhere".to_string()));
    assert_eq!(l.http_port, Some(3000));
    assert_eq!(l.quic_port, None);
    assert_eq!(l.blobs_base_path, None);
}

#[test]
fn file_layer_errors() {
    assert_eq!(file_layer("http_port = = 1").unwrap_err(), ConfigError::Parse);
    assert_eq!(
        file_layer("http_port = \"2020\"").unwrap_err(),
        ConfigError::InvalidValue(ConfigField::HttpPort)
    );
    assert_eq!(
        file_layer("quic_port = 70000").unwrap_err(),
        ConfigError::InvalidValue(ConfigField::QuicPort)
    );
    assert_eq!(
        file_layer("database_url = 5").unwrap_err(),
        ConfigError::InvalidValue(ConfigField::DatabaseUrl)
    );
}

#[test]
fn missing_port_is_reported() {
    let r = resolve_config(empty_layer(), empty_layer(), "/d", &vars(&[]));
    assert_eq!(r.unwrap_err(), ConfigError::Missing(ConfigField::HttpPort));
}

#[test]
fn directory_overrides_file_database() {
    let text = "database_url = \"sqlite:/from/file\"\nhttp_port = 2020\n";
    let c = load_config(default_layer(), text, "/d", &vars(&[])).unwrap();
    assert_eq!(c.database_url, "sqlite:/d/db.sqlite3");
}

#[test]
fn environment_overrides_directory_database() {
    let text = "database_url = \"sqlite:/from/file\"\nhttp_port = 2020\n";
    let c = load_config(default_layer(), text, "/d", &vars(&[("database_url", "sqlite:/from/env")]))
        .unwrap();
    assert_eq!(c.database_url, "sqlite:/from/env");
    assert_eq!(c.blobs_base_path, "/d/blobs");
}

#[test]
fn environment_overrides_file_port() {
    let c = load_config(default_layer(), "http_port = 3000\n", "/d", &vars(&[("http_port", "4000")]))
        .unwrap();
    assert_eq!(c.http_port, 4000);
    assert_eq!(c.quic_port, 2022);
}

#[test]
fn fresh_install_configuration() {
    let bundled = b"http_port = 2020\n".to_vec();
    let p = provision_config(None, &bundled);
    assert!(p.copied);
    let text = String::from_utf8(p.contents).unwrap();
    let c = load_config(default_layer(), &text, "/tmp/x", &vars(&[])).unwrap();
    assert_eq!(c.http_port, 2020);
    assert_eq!(c.database_url, "sqlite:/tmp/x/db.sqlite3");
    assert_eq!(c.blobs_base_path, "/tmp/x/blobs");
}

#[test]
fn provisioning_twice_keeps_contents() {
    let bundled = b"http_port = 2020\n".to_vec();
    let first = provision_config(None, &bundled);
    assert!(first.copied);
    assert_eq!(first.contents, bundled);
    let second = provision_config(Some(first.contents.clone()), &b"other".to_vec());
    assert!(!second.copied);
    assert_eq!(second.contents, first.contents);
}
