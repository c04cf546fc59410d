use rspotify_cli_lib::config::{load_config, ConfigFile, ConfigSource};
use rspotify_cli_lib::error::Error;

fn empty_source() -> ConfigSource {
    ConfigSource {
        client_id: None,
        client_secret: None,
        redirect_uri: None,
        volume_increment: None,
    }
}

#[test]
fn file_names() {
    assert_eq!(ConfigFile::Token.file_name(), "token.json");
    assert_eq!(ConfigFile::Config.file_name(), "config.toml");
}

#[test]
fn load_from_file_alone_applies_defaults() {
    let file = ConfigSource {
        client_id: Some("id".to_owned()),
        client_secret: Some("secret".to_owned()),
        redirect_uri: None,
        volume_increment: None,
    };
    let config = load_config("config.toml", file, empty_source()).unwrap();
    assert_eq!(config.client_id, "id");
    assert_eq!(config.client_secret, "secret");
    assert_eq!(config.redirect_uri, "http://localhost:8000/callback");
    assert_eq!(config.volume_increment, 10);
}

#[test]
fn environment_wins_over_file() {
    let file = ConfigSource {
        client_id: Some("file-id".to_owned()),
        client_secret: Some("file-secret".to_owned()),
        redirect_uri: Some("http://localhost:9999/callback".to_owned()),
        volume_increment: Some(5),
    };
    let env = ConfigSource {
        client_id: Some("env-id".to_owned()),
        client_secret: None,
        redirect_uri: None,
        volume_increment: Some(20),
    };
    let config = load_config("config.toml", file, env).unwrap();
    assert_eq!(config.client_id, "env-id");
    assert_eq!(config.client_secret, "file-secret");
    assert_eq!(config.redirect_uri, "http://localhost:9999/callback");
    assert_eq!(config.volume_increment, 20);
}

#[test]
fn environment_alone_is_enough() {
    let env = ConfigSource {
        client_id: Some("id".to_owned()),
        client_secret: Some("secret".to_owned()),
        redirect_uri: Some("http://example.com/cb".to_owned()),
        volume_increment: None,
    };
    let config = load_config("config.toml", empty_source(), env).unwrap();
    assert_eq!(config.client_id, "id");
    assert_eq!(config.redirect_uri, "http://example.com/cb");
    assert_eq!(config.volume_increment, 10);
}

#[test]
fn missing_client_id_is_incomplete() {
    let file = ConfigSource {
        client_id: None,
        client_secret: Some("secret".to_owned()),
        redirect_uri: None,
        volume_increment: None,
    };
    let result = load_config("/home/user/.config/config.toml", file, empty_source());
    assert_eq!(
        result,
        Err(Error::IncompleteConfig(
            "/home/user/.config/config.toml".to_owned()
        ))
    );
}

#[test]
fn missing_client_secret_is_incomplete() {
    let file = ConfigSource {
        client_id: Some("id".to_owned()),
        client_secret: None,
        redirect_uri: Some("http://localhost:8000/callback".to_owned()),
        volume_increment: Some(10),
    };
    let result = load_config("config.toml", file, empty_source());
    assert_eq!(result, Err(Error::IncompleteConfig("config.toml".to_owned())));
}
