use tg_cli::common_config;
use tg_cli::config::{
    default_device, default_lang, default_page_size, default_proxy_host, default_proxy_kind, default_proxy_port,
    default_socket_path, default_tdlib_database_dir, default_tdlib_files_dir, default_true, tdlib_parameters,
    ProxyConfig, TelegramConfig, TgConfig, TuiConfig,
};
use tg_cli::json::Json;
use tg_cli::paths::path_join;

#[test]
fn path_join_inserts_one_slash() {
    assert_eq!(path_join("/home/u", "tg"), "/home/u/tg");
    assert_eq!(path_join("/home/u/", "tg"), "/home/u/tg");
    assert_eq!(path_join("", "tg"), "tg");
    assert_eq!(path_join("/", "tmp"), "/tmp");
}

#[test]
fn scalar_defaults() {
    assert!(default_true());
    assert_eq!(default_lang(), "en");
    assert_eq!(default_device(), "Telegram-CLI");
    assert_eq!(default_proxy_kind(), "socks5");
    assert_eq!(default_proxy_host(), "127.0.0.1");
    assert_eq!(default_proxy_port(), 1080);
    assert_eq!(default_page_size(), 50);
}

#[test]
fn tdlib_dirs_under_data_dir() {
    assert_eq!(default_tdlib_database_dir("/home/u/.local/share/tg"), "/home/u/.local/share/tg/tdlib/db");
    assert_eq!(default_tdlib_files_dir("/home/u/.local/share/tg"), "/home/u/.local/share/tg/tdlib/files");
}

#[test]
fn socket_path_defaults() {
    assert_eq!(default_socket_path(Some("/run/user/1000")), "/run/user/1000/tg/tgcd.sock");
    assert_eq!(default_socket_path(None), "/tmp/tg/tgcd.sock");
}

#[test]
fn section_defaults() {
    let t = TelegramConfig::default();
    assert_eq!(t.api_id, 0);
    assert_eq!(t.api_hash, "");
    assert_eq!(t.phone, "");
    let p = ProxyConfig::default();
    assert!(!p.enabled);
    assert_eq!(p.kind, "socks5");
    assert_eq!(p.host, "127.0.0.1");
    assert_eq!(p.port, 1080);
    assert_eq!(p.username, "");
    assert_eq!(p.password, "");
    let u = TuiConfig::default();
    assert!(u.enable_mouse);
    assert_eq!(u.message_page_size, 50);
}

#[test]
fn whole_config_defaults() {
    let c = TgConfig::default_in("/data/tg", Some("/run/user/7"), "0.1.0");
    assert_eq!(c.tdlib.database_directory, "/data/tg/tdlib/db");
    assert_eq!(c.tdlib.files_directory, "/data/tg/tdlib/files");
    assert!(c.tdlib.use_message_database);
    assert!(!c.tdlib.use_secret_chats);
    assert_eq!(c.tdlib.system_language_code, "en");
    assert_eq!(c.tdlib.device_model, "Telegram-CLI");
    assert_eq!(c.tdlib.application_version, "0.1.0");
    assert_eq!(c.tdlib.verbosity, 0);
    assert!(!c.tdlib.test);
    assert_eq!(c.ipc.socket_path, "/run/user/7/tg/tgcd.sock");
    assert_eq!(c.telegram.api_id, 0);
    assert!(c.tui.enable_mouse);
}

#[test]
fn config_and_database_paths() {
    assert_eq!(TgConfig::config_path(Some("/etc/tg.toml"), "/home/u/.config/tg"), "/etc/tg.toml");
    assert_eq!(TgConfig::config_path(None, "/home/u/.config/tg"), "/home/u/.config/tg/config.toml");
    let c = TgConfig::default_in("/data/tg", None, "1.0");
    assert_eq!(c.database_path("/data/tg"), "/data/tg/tg.db");
}

#[test]
fn api_hash_prefers_keyring() {
    let mut c = TgConfig::default_in("/d", None, "1");
    c.telegram.api_hash = "from-file".to_string();
    assert_eq!(c.load_api_hash(Some("from-keyring".to_string())), "from-keyring");
    assert_eq!(c.load_api_hash(None), "from-file");
}

#[test]
fn keyring_round_trip_gives_the_configured_hash() {
    let mut c = TgConfig::default_in("/d", None, "1");
    c.telegram.api_hash = "abc123".to_string();
    assert_eq!((tg_cli::config::KEYRING_SERVICE, tg_cli::config::KEYRING_USER), ("tg-cli", "api_hash"));
    let stored = c.keyring_secret();
    assert_eq!(stored, "abc123");
    assert_eq!(c.load_api_hash(Some(stored)), "abc123");
}

#[test]
fn tdlib_parameters_query() {
    let mut c = TgConfig::default_in("/d", None, "2.3.4");
    c.telegram.api_id = 12345;
    let q = tdlib_parameters(&c, "hash", "linux");
    let fields: Vec<(&str, Json)> = vec![
        ("@type", Json::Str("setTdlibParameters".to_string())),
        ("database_directory", Json::Str("/d/tdlib/db".to_string())),
        ("files_directory", Json::Str("/d/tdlib/files".to_string())),
        ("use_message_database", Json::Bool(true)),
        ("use_secret_chats", Json::Bool(false)),
        ("use_test_dc", Json::Bool(false)),
        ("api_id", Json::Int(12345)),
        ("api_hash", Json::Str("hash".to_string())),
        ("system_language_code", Json::Str("en".to_string())),
        ("device_model", Json::Str("Telegram-CLI".to_string())),
        ("system_version", Json::Str("linux".to_string())),
        ("application_version", Json::Str("2.3.4".to_string())),
        ("enable_storage_optimizer", Json::Bool(true)),
    ];
    let expected = Json::Object(fields.into_iter().map(|(k, v)| (k.to_string(), v)).collect());
    assert_eq!(q, expected);
}

#[test]
fn xdg_directories() {
    assert_eq!(common_config::dirs_runtime(Some("/run/user/1")), Some("/run/user/1".to_string()));
    assert_eq!(common_config::dirs_runtime(None), Some("/tmp".to_string()));
    assert_eq!(common_config::dirs_data(Some("/xdg/data"), Some("/home/u")), Some("/xdg/data".to_string()));
    assert_eq!(common_config::dirs_data(None, Some("/home/u")), Some("/home/u/.local/share".to_string()));
    assert_eq!(common_config::dirs_data(None, None), None);
}

#[test]
fn common_default_paths() {
    assert_eq!(common_config::default_socket_path(Some("/run/user/1")), "/run/user/1/tg-cli.sock");
    assert_eq!(common_config::default_socket_path(None), "/tmp/tg-cli.sock");
    assert_eq!(common_config::default_database_dir(None, Some("/home/u")), "/home/u/.local/share/tg-cli");
    assert_eq!(common_config::default_database_dir(Some("/xdg"), None), "/xdg/tg-cli");
    assert_eq!(common_config::default_database_dir(None, None), "./tg-cli");
}

#[test]
fn common_config_path() {
    assert_eq!(common_config::TgConfig::config_path(Some("/x.toml"), Some("/cfg")), "/x.toml");
    assert_eq!(common_config::TgConfig::config_path(None, Some("/cfg")), "/cfg/tg-cli/config.toml");
    assert_eq!(common_config::TgConfig::config_path(None, None), "./tg-cli/config.toml");
}

#[test]
fn proxy_queries_by_kind() {
    let mut p = ProxyConfig::default();
    assert_eq!(tg_cli::config::proxy_query(&p), None);
    p.enabled = true;
    p.port = 7890;
    let socks = tg_cli::config::proxy_query(&p).expect("a query");
    let typ = Json::Object(vec![
        ("@type".to_string(), Json::Str("proxyTypeSocks5".to_string())),
        ("username".to_string(), Json::Str(String::new())),
        ("password".to_string(), Json::Str(String::new())),
    ]);
    assert_eq!(
        socks,
        Json::Object(vec![
            ("@type".to_string(), Json::Str("addProxy".to_string())),
            ("server".to_string(), Json::Str("127.0.0.1".to_string())),
            ("port".to_string(), Json::Int(7890)),
            ("enable".to_string(), Json::Bool(true)),
            ("type".to_string(), typ),
        ])
    );
    assert_eq!(tg_cli::config::proxy_label(&p), "Proxy configured: socks5://127.0.0.1:7890");
    p.kind = "http".to_string();
    let http = tg_cli::config::proxy_query(&p).expect("a query");
    assert_eq!(
        http.get("type").and_then(|t| t.get("http_only")),
        Some(&Json::Bool(false))
    );
    p.kind = "mtproto".to_string();
    p.password = "ee00".to_string();
    let mt = tg_cli::config::proxy_query(&p).expect("a query");
    assert_eq!(mt.get("type").and_then(|t| t.get("secret")), Some(&Json::Str("ee00".to_string())));
    p.kind = "ftp".to_string();
    assert_eq!(tg_cli::config::proxy_query(&p), None);
}
