//! Reporting what the store holds: the provider, its settings, the backup
//! and the saved token. The report is data; showing it is left to the
//! caller.

use vstd::prelude::*;
use crate::config::env_map::EnvMap;
use crate::config::manager::ConfigManager;
use crate::config::manager::StoreView;
use crate::config::types::Config;
use crate::config::types::Provider;
use crate::config::types::TokenType;
use crate::provider::anthropic::strip_zai_keys;
use crate::provider::anthropic::without_zai_keys;
use crate::provider::detector::base_url_of;
use crate::provider::detector::masked;
use crate::provider::detector::provider_of;
use crate::provider::detector::token_type_of;
use crate::provider::detector::ProviderDetector;
use crate::provider::detector::AUTH_TOKEN_KEY;
use crate::provider::detector::BASE_URL_KEY;
use crate::provider::detector::HAIKU_MODEL_KEY;
use crate::provider::detector::OPUS_MODEL_KEY;
use crate::provider::detector::SONNET_MODEL_KEY;
use crate::provider::detector::TIMEOUT_KEY;
use crate::utils::error::AppError;
use crate::utils::error::AppErrorView;
use crate::utils::system::current_timestamp;

verus! {

/// The value of `key` in `env`, if it has one.
pub open spec fn value_of(env: Map<Seq<char>, Seq<char>>, key: Seq<char>) -> Option<Seq<char>> {
    if env.contains_key(key) {
        Some(env[key])
    } else {
        None
    }
}

/// The view of a text that may be missing.
pub open spec fn text_view(text: Option<String>) -> Option<Seq<char>> {
    match text {
        Some(text) => Some(text@),
        None => None,
    }
}

/// A copy of the value of `key` in `env`, if it has one.
fn lookup(env: &EnvMap, key: &str) -> (value: Option<String>)
    ensures
        text_view(value) == value_of(env@, key@),
{
    match env.get(key) {
        Some(value) => Some(value.clone()),
        None => None,
    }
}

/// A token that is fit to be shown, as a mathematical value.
pub struct MaskedTokenView {
    pub shown: Seq<char>,
    pub kind: TokenType,
}

/// A token that is fit to be shown: masked, with what it looks like.
#[derive(Debug)]
pub struct MaskedToken {
    pub shown: String,
    pub kind: TokenType,
}

impl View for MaskedToken {
    type V = MaskedTokenView;

    open spec fn view(&self) -> MaskedTokenView {
        MaskedTokenView { shown: self.shown@, kind: self.kind }
    }
}

/// The provider's part of a report, as a mathematical value.
pub enum ProviderStatusView {
    Zai {
        base_url: Seq<char>,
        sonnet_model: Option<Seq<char>>,
        opus_model: Option<Seq<char>>,
        haiku_model: Option<Seq<char>>,
        timeout_ms: Option<Seq<char>>,
        auth_token: Option<MaskedTokenView>,
    },
    Anthropic,
    Custom { base_url: Seq<char> },
    Unknown,
}

/// The provider that the settings point at, with the settings that matter
/// for it.
#[derive(Debug)]
pub enum ProviderStatus {
    /// The alternate provider, with its endpoint, what it sets of models
    /// and timeout, and the credential, masked.
    Zai {
        base_url: String,
        sonnet_model: Option<String>,
        opus_model: Option<String>,
        haiku_model: Option<String>,
        timeout_ms: Option<String>,
        auth_token: Option<MaskedToken>,
    },
    /// The default provider.
    Anthropic,
    /// Some other endpoint.
    Custom { base_url: String },
    /// Nothing that can be told.
    Unknown,
}

impl View for ProviderStatus {
    type V = ProviderStatusView;

    open spec fn view(&self) -> ProviderStatusView {
        match self {
            ProviderStatus::Zai {
                base_url,
                sonnet_model,
                opus_model,
                haiku_model,
                timeout_ms,
                auth_token,
            } => ProviderStatusView::Zai {
                base_url: base_url@,
                sonnet_model: text_view(*sonnet_model),
                opus_model: text_view(*opus_model),
                haiku_model: text_view(*haiku_model),
                timeout_ms: text_view(*timeout_ms),
                auth_token: match auth_token {
                    Some(token) => Some(token@),
                    None => None,
                },
            },
            ProviderStatus::Anthropic => ProviderStatusView::Anthropic,
            ProviderStatus::Custom { base_url } => ProviderStatusView::Custom {
                base_url: base_url@,
            },
            ProviderStatus::Unknown => ProviderStatusView::Unknown,
        }
    }
}

/// The backup's part of a report.
#[derive(Debug, Clone, Copy, PartialEq, Eq, Structural)]
pub enum BackupStatus {
    /// A backup of the default provider's settings is there. It was made
    /// at the given time where that is known, and the credential in it, if
    /// it holds one, looks like the given kind of token.
    Available { created_at: Option<i64>, token: Option<TokenType> },
    /// A file is there and is no backup of the default provider's settings.
    UnknownFormat,
    /// No file is there.
    NotFound,
}

/// A report on settings that are not empty, as a mathematical value.
pub struct StatusReportView {
    pub provider: ProviderStatusView,
    pub other_env_vars: nat,
    pub backup: BackupStatus,
    pub saved_token: bool,
}

/// A report on settings that are not empty.
#[derive(Debug)]
pub struct StatusReport {
    /// The provider and its settings.
    pub provider: ProviderStatus,
    /// How many keys the settings hold besides the alternate provider's.
    pub other_env_vars: usize,
    /// What there is of a backup.
    pub backup: BackupStatus,
    /// Whether a token is saved.
    pub saved_token: bool,
}

impl View for StatusReport {
    type V = StatusReportView;

    open spec fn view(&self) -> StatusReportView {
        StatusReportView {
            provider: self.provider@,
            other_env_vars: self.other_env_vars as nat,
            backup: self.backup,
            saved_token: self.saved_token,
        }
    }
}

/// What there is to report, as a mathematical value.
pub enum StatusView {
    NoConfiguration,
    Configured(StatusReportView),
}

/// What there is to report.
#[derive(Debug)]
pub enum Status {
    /// The settings are empty or missing.
    NoConfiguration,
    /// The settings hold something.
    Configured(StatusReport),
}

impl View for Status {
    type V = StatusView;

    open spec fn view(&self) -> StatusView {
        match self {
            Status::NoConfiguration => StatusView::NoConfiguration,
            Status::Configured(report) => StatusView::Configured(report@),
        }
    }
}

/// The provider's part of the report on `env`.
pub open spec fn provider_status_of(env: Map<Seq<char>, Seq<char>>) -> ProviderStatusView {
    match provider_of(env) {
        Provider::ZAI => ProviderStatusView::Zai {
            base_url: base_url_of(env),
            sonnet_model: value_of(env, SONNET_MODEL_KEY@),
            opus_model: value_of(env, OPUS_MODEL_KEY@),
            haiku_model: value_of(env, HAIKU_MODEL_KEY@),
            timeout_ms: value_of(env, TIMEOUT_KEY@),
            auth_token: match value_of(env, AUTH_TOKEN_KEY@) {
                Some(token) => Some(
                    MaskedTokenView { shown: masked(token), kind: token_type_of(token) },
                ),
                None => None,
            },
        },
        Provider::Anthropic => ProviderStatusView::Anthropic,
        Provider::Custom => ProviderStatusView::Custom { base_url: base_url_of(env) },
        Provider::Unknown => ProviderStatusView::Unknown,
    }
}

/// How many keys `env` holds besides the alternate provider's.
pub open spec fn other_env_count(env: Map<Seq<char>, Seq<char>>) -> nat {
    without_zai_keys(env).len()
}

/// The backup's part of the report on `store` at time `now`.
pub open spec fn backup_report_of(store: StoreView, now: i64) -> Result<
    BackupStatus,
    AppErrorView,
> {
    match store.backup_status(now) {
        Err(error) => Err(error),
        Ok((true, Some(backup))) => Ok(
            BackupStatus::Available {
                created_at: backup.metadata.created_at,
                token: match value_of(backup.env, AUTH_TOKEN_KEY@) {
                    Some(token) => Some(token_type_of(token)),
                    None => None,
                },
            },
        ),
        Ok(_) => if store.backup is Missing {
            Ok(BackupStatus::NotFound)
        } else {
            Ok(BackupStatus::UnknownFormat)
        },
    }
}

/// The report on `store` at time `now`. It changes nothing.
///
/// Empty settings make the whole report. Otherwise the report tells the
/// provider, the other keys, the backup, and whether a token is saved; a
/// saved-token file that cannot be read counts as none.
pub open spec fn status_of(store: StoreView, now: i64) -> Result<StatusView, AppErrorView> {
    match store.loaded_settings() {
        Err(error) => Err(error),
        Ok(env) => if env =~= Map::empty() {
            Ok(StatusView::NoConfiguration)
        } else {
            match backup_report_of(store, now) {
                Err(error) => Err(error),
                Ok(backup) => Ok(
                    StatusView::Configured(
                        StatusReportView {
                            provider: provider_status_of(env),
                            other_env_vars: other_env_count(env),
                            backup: backup,
                            saved_token: store.saved_token() matches Ok(Some(_)),
                        },
                    ),
                ),
            }
        },
    }
}

/// The view of a report or of the error in its place.
pub open spec fn status_view(ended: Result<Status, AppError>) -> Result<StatusView, AppErrorView> {
    match ended {
        Ok(status) => Ok(status@),
        Err(error) => Err(error@),
    }
}

/// Reports on the store.
#[derive(Debug)]
pub struct StatusDisplay {
    config_manager: ConfigManager,
}

impl View for StatusDisplay {
    type V = StoreView;

    closed spec fn view(&self) -> StoreView {
        self.config_manager@
    }
}

impl StatusDisplay {
    pub fn new(config_manager: ConfigManager) -> (display: Self)
        ensures
            display@ == config_manager@,
    {
        StatusDisplay { config_manager }
    }

    /// The store that is reported on.
    pub fn config_manager(&self) -> (store: &ConfigManager)
        ensures
            store@ == self@,
    {
        &self.config_manager
    }

    /// The endpoint that `config` names, or the empty text.
    fn base_url(config: &Config) -> (url: String)
        ensures
            url@ == base_url_of(config@),
    {
        match config.env.get(BASE_URL_KEY) {
            Some(url) => url.clone(),
            None => String::new(),
        }
    }

    /// The alternate provider's part of the report.
    fn show_zai_status(config: &Config) -> (status: ProviderStatus)
        requires
            provider_of(config@) == Provider::ZAI,
        ensures
            status@ == provider_status_of(config@),
    {
        let auth_token = match config.env.get(AUTH_TOKEN_KEY) {
            Some(token) => Some(
                MaskedToken {
                    shown: ProviderDetector::mask_token(token.as_str()),
                    kind: ProviderDetector::detect_token_type(token.as_str()),
                },
            ),
            None => None,
        };
        ProviderStatus::Zai {
            base_url: Self::base_url(config),
            sonnet_model: lookup(&config.env, SONNET_MODEL_KEY),
            opus_model: lookup(&config.env, OPUS_MODEL_KEY),
            haiku_model: lookup(&config.env, HAIKU_MODEL_KEY),
            timeout_ms: lookup(&config.env, TIMEOUT_KEY),
            auth_token,
        }
    }

    /// The provider's part of the report.
    fn show_provider_status(config: &Config) -> (status: ProviderStatus)
        ensures
            status@ == provider_status_of(config@),
    {
        match ProviderDetector::detect_provider(config) {
            Provider::ZAI => Self::show_zai_status(config),
            Provider::Anthropic => ProviderStatus::Anthropic,
            Provider::Custom => ProviderStatus::Custom { base_url: Self::base_url(config) },
            Provider::Unknown => ProviderStatus::Unknown,
        }
    }

    /// How many keys the settings hold besides the alternate provider's.
    fn show_other_env_vars(config: &Config) -> (count: usize)
        ensures
            count == other_env_count(config@),
    {
        strip_zai_keys(&config.env).len()
    }

    /// The backup's part of the report, at time `now`.
    fn show_backup_status(&self, now: i64) -> (ended: Result<BackupStatus, AppError>)
        ensures
            match ended {
                Ok(status) => backup_report_of(self@, now) == Ok::<_, AppErrorView>(status),
                Err(error) => backup_report_of(self@, now) == Err::<BackupStatus, _>(error@),
            },
    {
        match self.config_manager.backup_status_at(now) {
            Err(error) => Err(error),
            Ok((true, Some(backup))) => {
                let token = match backup.env.get(AUTH_TOKEN_KEY) {
                    Some(token) => Some(ProviderDetector::detect_token_type(token.as_str())),
                    None => None,
                };
                Ok(BackupStatus::Available { created_at: backup.metadata.created_at, token })
            },
            Ok(_) => if self.config_manager.backup_exists() {
                Ok(BackupStatus::UnknownFormat)
            } else {
                Ok(BackupStatus::NotFound)
            },
        }
    }

    /// Whether a token is saved.
    fn show_saved_token_status(&self) -> (saved: bool)
        ensures
            saved == (self@.saved_token() matches Ok(Some(_))),
    {
        match self.config_manager.load_saved_token() {
            Ok(Some(_)) => true,
            _ => false,
        }
    }

    /// The report on the store, at time `now`.
    pub fn show_status_at(&self, now: i64) -> (ended: Result<Status, AppError>)
        ensures
            status_view(ended) == status_of(self@, now),
    {
        let config = self.config_manager.load_current_config()?;
        if config.env.is_empty() {
            return Ok(Status::NoConfiguration);
        }
        let provider = Self::show_provider_status(&config);
        let other_env_vars = Self::show_other_env_vars(&config);
        let backup = self.show_backup_status(now)?;
        let saved_token = self.show_saved_token_status();
        Ok(Status::Configured(StatusReport { provider, other_env_vars, backup, saved_token }))
    }

    /// The report on the store, now.
    pub fn show_status(&self) -> (ended: Result<Status, AppError>)
        ensures
            exists|now: i64| status_view(ended) == status_of(self@, now),
    {
        let now = current_timestamp();
        self.show_status_at(now)
    }
}

} // verus!
