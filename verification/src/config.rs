//! Configuration of `tg` and `tgcd` (`~/.config/tg/config.toml`): its
//! sections, their defaults, and the paths derived from the platform's
//! data, config and runtime directories, which the caller supplies.

use vstd::prelude::*;
use crate::json::{Json, JsonView};
use crate::protocol::{field, object, pairs_view, jstr, obj2, obj3, obj4, obj5};
use crate::paths::{join, path_join};
use crate::text::{owned, str_eq, concat, decimal, usize_to_string};

verus! {

// ── Config root ────────────────────────────────────────────────────

#[derive(Debug, PartialEq)]
pub struct TgConfig {
    pub telegram: TelegramConfig,
    pub tdlib: TdlibConfig,
    pub proxy: ProxyConfig,
    pub tui: TuiConfig,
    pub ipc: IpcConfig,
}

#[derive(Debug, PartialEq)]
pub struct TelegramConfig {
    pub api_id: i32,
    pub api_hash: String,
    pub phone: String,
}

#[derive(Debug, PartialEq)]
pub struct TdlibConfig {
    pub database_directory: String,
    pub files_directory: String,
    pub use_message_database: bool,
    pub use_secret_chats: bool,
    pub system_language_code: String,
    pub device_model: String,
    pub application_version: String,
    pub verbosity: i32,
    pub test: bool,
}

#[derive(Debug, PartialEq)]
pub struct ProxyConfig {
    pub enabled: bool,
    pub kind: String,
    pub host: String,
    pub port: u16,
    pub username: String,
    pub password: String,
}

#[derive(Debug, PartialEq)]
pub struct TuiConfig {
    pub enable_mouse: bool,
    pub message_page_size: usize,
}

#[derive(Debug, PartialEq)]
pub struct IpcConfig {
    pub socket_path: String,
}

// ── Defaults ───────────────────────────────────────────────────────

/// `<data_dir>/tdlib/db`
pub open spec fn tdlib_database_dir(data_dir: Seq<char>) -> Seq<char> {
    join(join(data_dir, "tdlib"@), "db"@)
}

/// `<data_dir>/tdlib/files`
pub open spec fn tdlib_files_dir(data_dir: Seq<char>) -> Seq<char> {
    join(join(data_dir, "tdlib"@), "files"@)
}

/// `<runtime_dir or /tmp>/tg/tgcd.sock`
pub open spec fn socket_path_in(runtime_dir: Option<Seq<char>>) -> Seq<char> {
    let run = match runtime_dir {
        Some(r) => r,
        None => "/tmp"@,
    };
    join(join(run, "tg"@), "tgcd.sock"@)
}

/// The default TDLib database directory under the data directory.
pub fn default_tdlib_database_dir(data_dir: &str) -> (r: String)
    ensures
        r@ == tdlib_database_dir(data_dir@),
{
    let t = path_join(data_dir, "tdlib");
    path_join(t.as_str(), "db")
}

/// The default TDLib files directory under the data directory.
pub fn default_tdlib_files_dir(data_dir: &str) -> (r: String)
    ensures
        r@ == tdlib_files_dir(data_dir@),
{
    let t = path_join(data_dir, "tdlib");
    path_join(t.as_str(), "files")
}

/// The default socket path, given `$XDG_RUNTIME_DIR` where it is set.
pub fn default_socket_path(runtime_dir: Option<&str>) -> (r: String)
    ensures
        r@ == socket_path_in(
            match runtime_dir {
                Some(d) => Some(d@),
                None => None,
            },
        ),
{
    let run = match runtime_dir {
        Some(d) => owned(d),
        None => owned("/tmp"),
    };
    let t = path_join(run.as_str(), "tg");
    path_join(t.as_str(), "tgcd.sock")
}

pub fn default_true() -> (r: bool)
    ensures
        r,
{
    true
}

pub fn default_lang() -> (r: String)
    ensures
        r@ == "en"@,
{
    owned("en")
}

pub fn default_device() -> (r: String)
    ensures
        r@ == "Telegram-CLI"@,
{
    owned("Telegram-CLI")
}

pub fn default_proxy_kind() -> (r: String)
    ensures
        r@ == "socks5"@,
{
    owned("socks5")
}

pub fn default_proxy_host() -> (r: String)
    ensures
        r@ == "127.0.0.1"@,
{
    owned("127.0.0.1")
}

pub fn default_proxy_port() -> (r: u16)
    ensures
        r == 1080,
{
    1080
}

pub fn default_page_size() -> (r: usize)
    ensures
        r == 50,
{
    50
}

impl Default for TelegramConfig {
    /// No credentials yet: id 0, empty hash and phone.
    fn default() -> (r: Self)
        ensures
            r.api_id == 0,
            r.api_hash@ == Seq::<char>::empty(),
            r.phone@ == Seq::<char>::empty(),
    {
        TelegramConfig { api_id: 0, api_hash: String::new(), phone: String::new() }
    }
}

impl TdlibConfig {
    /// The TDLib defaults, with the directories under `data_dir` and the
    /// given application version.
    pub fn default_in(data_dir: &str, version: &str) -> (r: Self)
        ensures
            r.database_directory@ == tdlib_database_dir(data_dir@),
            r.files_directory@ == tdlib_files_dir(data_dir@),
            r.use_message_database,
            !r.use_secret_chats,
            r.system_language_code@ == "en"@,
            r.device_model@ == "Telegram-CLI"@,
            r.application_version@ == version@,
            r.verbosity == 0,
            !r.test,
    {
        TdlibConfig {
            database_directory: default_tdlib_database_dir(data_dir),
            files_directory: default_tdlib_files_dir(data_dir),
            use_message_database: true,
            use_secret_chats: false,
            system_language_code: default_lang(),
            device_model: default_device(),
            application_version: owned(version),
            verbosity: 0,
            test: false,
        }
    }
}

impl Default for ProxyConfig {
    /// Proxy off; socks5 on 127.0.0.1:1080 when switched on; no credentials.
    fn default() -> (r: Self)
        ensures
            !r.enabled,
            r.kind@ == "socks5"@,
            r.host@ == "127.0.0.1"@,
            r.port == 1080,
            r.username@ == Seq::<char>::empty(),
            r.password@ == Seq::<char>::empty(),
    {
        ProxyConfig {
            enabled: false,
            kind: default_proxy_kind(),
            host: default_proxy_host(),
            port: default_proxy_port(),
            username: String::new(),
            password: String::new(),
        }
    }
}

impl Default for TuiConfig {
    /// Mouse on, 50 messages a page.
    fn default() -> (r: Self)
        ensures
            r.enable_mouse,
            r.message_page_size == 50,
    {
        TuiConfig { enable_mouse: true, message_page_size: default_page_size() }
    }
}

impl IpcConfig {
    /// The socket under the runtime directory (`$XDG_RUNTIME_DIR` where set).
    pub fn default_in(runtime_dir: Option<&str>) -> (r: Self)
        ensures
            r.socket_path@ == socket_path_in(
                match runtime_dir {
                    Some(d) => Some(d@),
                    None => None,
                },
            ),
    {
        IpcConfig { socket_path: default_socket_path(runtime_dir) }
    }
}

impl TgConfig {
    /// The default configuration of every section.
    pub fn default_in(data_dir: &str, runtime_dir: Option<&str>, version: &str) -> (r: Self)
        ensures
            r.telegram.api_id == 0,
            r.telegram.api_hash@ == Seq::<char>::empty(),
            r.telegram.phone@ == Seq::<char>::empty(),
            r.tdlib.database_directory@ == tdlib_database_dir(data_dir@),
            r.tdlib.files_directory@ == tdlib_files_dir(data_dir@),
            r.tdlib.use_message_database,
            !r.tdlib.use_secret_chats,
            r.tdlib.system_language_code@ == "en"@,
            r.tdlib.device_model@ == "Telegram-CLI"@,
            r.tdlib.application_version@ == version@,
            r.tdlib.verbosity == 0,
            !r.tdlib.test,
            !r.proxy.enabled,
            r.proxy.kind@ == "socks5"@,
            r.proxy.host@ == "127.0.0.1"@,
            r.proxy.port == 1080,
            r.proxy.username@ == Seq::<char>::empty(),
            r.proxy.password@ == Seq::<char>::empty(),
            r.tui.enable_mouse,
            r.tui.message_page_size == 50,
            r.ipc.socket_path@ == socket_path_in(
                match runtime_dir {
                    Some(d) => Some(d@),
                    None => None,
                },
            ),
    {
        TgConfig {
            telegram: TelegramConfig::default(),
            tdlib: TdlibConfig::default_in(data_dir, version),
            proxy: ProxyConfig::default(),
            tui: TuiConfig::default(),
            ipc: IpcConfig::default_in(runtime_dir),
        }
    }

    /// `$TG_CONFIG` where set, else `<config_dir>/config.toml`.
    pub fn config_path(tg_config: Option<&str>, config_dir: &str) -> (r: String)
        ensures
            tg_config matches Some(p) ==> r@ == p@,
            tg_config is None ==> r@ == join(config_dir@, "config.toml"@),
    {
        match tg_config {
            Some(p) => owned(p),
            None => path_join(config_dir, "config.toml"),
        }
    }

    /// The SQLite cache: `<data_dir>/tg.db`.
    pub fn database_path(&self, data_dir: &str) -> (r: String)
        ensures
            r@ == join(data_dir@, "tg.db"@),
    {
        path_join(data_dir, "tg.db")
    }

    /// The API hash: the one in the system keyring where there is one,
    /// else the one in the file.
    pub fn load_api_hash(&self, keyring_value: Option<String>) -> (r: String)
        ensures
            r@ == api_hash_choice(
                match keyring_value {
                    Some(k) => Some(k@),
                    None => None,
                },
                self.telegram.api_hash@,
            ),
    {
        match keyring_value {
            Some(k) => k,
            None => self.telegram.api_hash.clone(),
        }
    }

    /// The secret `store_keyring` writes under (`KEYRING_SERVICE`, `KEYRING_USER`):
    /// the API hash of the file.
    pub fn keyring_secret(&self) -> (r: String)
        ensures
            r@ == self.telegram.api_hash@,
    {
        self.telegram.api_hash.clone()
    }
}

/// The keyring service under which the API hash is stored.
pub const KEYRING_SERVICE: &'static str = "tg-cli";

/// The keyring user name under which the API hash is stored.
pub const KEYRING_USER: &'static str = "api_hash";

/// The API hash in use: the keyring's entry where it can be read, else the file's.
pub open spec fn api_hash_choice(keyring_value: Option<Seq<char>>, file_value: Seq<char>) -> Seq<char> {
    match keyring_value {
        Some(k) => k,
        None => file_value,
    }
}

/// Storing the API hash in the keyring and reading it back gives the API
/// hash of the file: whether the keyring kept the secret or cannot be read,
/// the hash in use is the configured one.
pub proof fn lemma_keyring_round_trip(c: TgConfig, stored: Option<Seq<char>>)
    requires
        stored is None || stored == Some(c.telegram.api_hash@),
    ensures
        api_hash_choice(stored, c.telegram.api_hash@) == c.telegram.api_hash@,
{
}

// ── TDLib parameters ───────────────────────────────────────────────

/// The `setTdlibParameters` query the daemon sends at start-up.
pub open spec fn tdlib_parameters_spec(c: TgConfig, api_hash: Seq<char>, os: Seq<char>) -> JsonView {
    JsonView::Object(
        seq![
            ("@type"@, JsonView::Str("setTdlibParameters"@)),
            ("database_directory"@, JsonView::Str(c.tdlib.database_directory@)),
            ("files_directory"@, JsonView::Str(c.tdlib.files_directory@)),
            ("use_message_database"@, JsonView::Bool(c.tdlib.use_message_database)),
            ("use_secret_chats"@, JsonView::Bool(c.tdlib.use_secret_chats)),
            ("use_test_dc"@, JsonView::Bool(c.tdlib.test)),
            ("api_id"@, JsonView::Int(c.telegram.api_id as i64)),
            ("api_hash"@, JsonView::Str(api_hash)),
            ("system_language_code"@, JsonView::Str(c.tdlib.system_language_code@)),
            ("device_model"@, JsonView::Str(c.tdlib.device_model@)),
            ("system_version"@, JsonView::Str(os)),
            ("application_version"@, JsonView::Str(c.tdlib.application_version@)),
            ("enable_storage_optimizer"@, JsonView::Bool(true)),
        ],
    )
}

/// Builds the `setTdlibParameters` query from the configuration, the API
/// hash in use and the name of the operating system.
pub fn tdlib_parameters(c: &TgConfig, api_hash: &str, os: &str) -> (r: Json)
    ensures
        r@ == tdlib_parameters_spec(*c, api_hash@, os@),
{
    let fs = vec![
        field("@type", jstr("setTdlibParameters")),
        field("database_directory", Json::Str(c.tdlib.database_directory.clone())),
        field("files_directory", Json::Str(c.tdlib.files_directory.clone())),
        field("use_message_database", Json::Bool(c.tdlib.use_message_database)),
        field("use_secret_chats", Json::Bool(c.tdlib.use_secret_chats)),
        field("use_test_dc", Json::Bool(c.tdlib.test)),
        field("api_id", Json::Int(c.telegram.api_id as i64)),
        field("api_hash", jstr(api_hash)),
        field("system_language_code", Json::Str(c.tdlib.system_language_code.clone())),
        field("device_model", Json::Str(c.tdlib.device_model.clone())),
        field("system_version", jstr(os)),
        field("application_version", Json::Str(c.tdlib.application_version.clone())),
        field("enable_storage_optimizer", Json::Bool(true)),
    ];
    proof {
        assert(pairs_view(fs@) =~= seq![
            ("@type"@, JsonView::Str("setTdlibParameters"@)),
            ("database_directory"@, JsonView::Str(c.tdlib.database_directory@)),
            ("files_directory"@, JsonView::Str(c.tdlib.files_directory@)),
            ("use_message_database"@, JsonView::Bool(c.tdlib.use_message_database)),
            ("use_secret_chats"@, JsonView::Bool(c.tdlib.use_secret_chats)),
            ("use_test_dc"@, JsonView::Bool(c.tdlib.test)),
            ("api_id"@, JsonView::Int(c.telegram.api_id as i64)),
            ("api_hash"@, JsonView::Str(api_hash@)),
            ("system_language_code"@, JsonView::Str(c.tdlib.system_language_code@)),
            ("device_model"@, JsonView::Str(c.tdlib.device_model@)),
            ("system_version"@, JsonView::Str(os@)),
            ("application_version"@, JsonView::Str(c.tdlib.application_version@)),
            ("enable_storage_optimizer"@, JsonView::Bool(true)),
        ]);
    }
    object(fs)
}

// ── Proxy ──────────────────────────────────────────────────────────

/// The TDLib proxy type for the configured kind (`socks5`, `http` or
/// `mtproto`, whose secret is the configured password); none for any other kind.
pub open spec fn proxy_type_spec(p: ProxyConfig) -> Option<JsonView> {
    if p.kind@ == "socks5"@ {
        Some(
            JsonView::Object(
                seq![
                    ("@type"@, JsonView::Str("proxyTypeSocks5"@)),
                    ("username"@, JsonView::Str(p.username@)),
                    ("password"@, JsonView::Str(p.password@)),
                ],
            ),
        )
    } else if p.kind@ == "http"@ {
        Some(
            JsonView::Object(
                seq![
                    ("@type"@, JsonView::Str("proxyTypeHttp"@)),
                    ("username"@, JsonView::Str(p.username@)),
                    ("password"@, JsonView::Str(p.password@)),
                    ("http_only"@, JsonView::Bool(false)),
                ],
            ),
        )
    } else if p.kind@ == "mtproto"@ {
        Some(
            JsonView::Object(
                seq![
                    ("@type"@, JsonView::Str("proxyTypeMtproto"@)),
                    ("secret"@, JsonView::Str(p.password@)),
                ],
            ),
        )
    } else {
        None
    }
}

/// The `addProxy` query that turns the configured proxy on; none when the
/// proxy is off or of a kind TDLib does not know.
pub open spec fn proxy_query_spec(p: ProxyConfig) -> Option<JsonView> {
    if !p.enabled {
        None
    } else {
        match proxy_type_spec(p) {
            Some(t) => Some(
                JsonView::Object(
                    seq![
                        ("@type"@, JsonView::Str("addProxy"@)),
                        ("server"@, JsonView::Str(p.host@)),
                        ("port"@, JsonView::Int(p.port as i64)),
                        ("enable"@, JsonView::Bool(true)),
                        ("type"@, t),
                    ],
                ),
            ),
            None => None,
        }
    }
}

fn proxy_type(p: &ProxyConfig) -> (r: Option<Json>)
    ensures
        match r {
            Some(j) => Some(j@),
            None => None,
        } == proxy_type_spec(*p),
{
    if str_eq(p.kind.as_str(), "socks5") {
        Some(
            obj3(
                "@type",
                jstr("proxyTypeSocks5"),
                "username",
                Json::Str(p.username.clone()),
                "password",
                Json::Str(p.password.clone()),
            ),
        )
    } else if str_eq(p.kind.as_str(), "http") {
        Some(
            obj4(
                "@type",
                jstr("proxyTypeHttp"),
                "username",
                Json::Str(p.username.clone()),
                "password",
                Json::Str(p.password.clone()),
                "http_only",
                Json::Bool(false),
            ),
        )
    } else if str_eq(p.kind.as_str(), "mtproto") {
        Some(obj2("@type", jstr("proxyTypeMtproto"), "secret", Json::Str(p.password.clone())))
    } else {
        None
    }
}

/// The query that enables the configured proxy, if it is on and of a known kind.
pub fn proxy_query(p: &ProxyConfig) -> (r: Option<Json>)
    ensures
        match r {
            Some(j) => Some(j@),
            None => None,
        } == proxy_query_spec(*p),
{
    if !p.enabled {
        return None;
    }
    match proxy_type(p) {
        Some(t) => Some(
            obj5(
                "@type",
                jstr("addProxy"),
                "server",
                Json::Str(p.host.clone()),
                "port",
                Json::Int(p.port as i64),
                "enable",
                Json::Bool(true),
                "type",
                t,
            ),
        ),
        None => None,
    }
}

/// `Proxy configured: <kind>://<host>:<port>`, the line the daemon logs.
pub fn proxy_label(p: &ProxyConfig) -> (r: String)
    ensures
        r@ == "Proxy configured: "@ + p.kind@ + "://"@ + p.host@ + ":"@ + decimal(p.port as int),
{
    let s = concat(owned("Proxy configured: "), p.kind.as_str());
    let s = concat(s, "://");
    let s = concat(s, p.host.as_str());
    let s = concat(s, ":");
    concat(s, usize_to_string(p.port as usize).as_str())
}

} // verus!
