//! Switching to the alternate provider: the default provider's settings
//! are backed up where that is due, and the alternate provider's settings
//! are written with the user's token.

use vstd::prelude::*;
use vstd::string::StringExecFns;
use crate::config::env_map::EnvMap;
use crate::config::manager::ConfigManager;
use crate::config::manager::StoreView;
use crate::config::store::changes_view;
use crate::config::store::StoreChange;
use crate::config::types::Config;
use crate::config::types::Provider;
use crate::provider::detector::provider_of;
use crate::provider::detector::token_warning_of;
use crate::provider::detector::ProviderDetector;
use crate::provider::detector::TokenWarning;
use crate::provider::detector::AUTH_TOKEN_KEY;
use crate::provider::detector::BASE_URL_KEY;
use crate::provider::detector::HAIKU_MODEL_KEY;
use crate::provider::detector::OPUS_MODEL_KEY;
use crate::provider::detector::SONNET_MODEL_KEY;
use crate::provider::detector::TIMEOUT_KEY;
use crate::provider::detector::ZAI_DOMAIN;
use crate::utils::error::AppError;
use crate::utils::error::AppErrorView;
use crate::utils::system::current_timestamp;
use crate::utils::text::occurs_at;
use crate::utils::token::token_source;
use crate::utils::token::TokenManager;
use crate::utils::token::TokenSource;

verus! {

/// The endpoint of the alternate provider.
pub const ZAI_BASE_URL: &'static str = "https://api.z.ai/api/anthropic";

/// The request timeout for the alternate provider, in milliseconds.
pub const ZAI_TIMEOUT_MS: &'static str = "3000000";

/// The alternate provider's model in place of the largest one.
pub const ZAI_OPUS_MODEL: &'static str = "GLM-4.7";

/// The alternate provider's model in place of the middle one.
pub const ZAI_SONNET_MODEL: &'static str = "GLM-4.7";

/// The alternate provider's model in place of the smallest one.
pub const ZAI_HAIKU_MODEL: &'static str = "GLM-4.5-Air";

/// The settings of the alternate provider with `token` as the credential:
/// the credential, the endpoint, the timeout and the three models, and
/// nothing else.
pub open spec fn zai_env(token: Seq<char>) -> Map<Seq<char>, Seq<char>> {
    Map::<Seq<char>, Seq<char>>::empty().insert(AUTH_TOKEN_KEY@, token).insert(
        BASE_URL_KEY@,
        ZAI_BASE_URL@,
    ).insert(TIMEOUT_KEY@, ZAI_TIMEOUT_MS@).insert(OPUS_MODEL_KEY@, ZAI_OPUS_MODEL@).insert(
        SONNET_MODEL_KEY@,
        ZAI_SONNET_MODEL@,
    ).insert(HAIKU_MODEL_KEY@, ZAI_HAIKU_MODEL@)
}

/// What was done about a backup before the switch.
#[derive(Debug, Clone, Copy, PartialEq, Eq, Structural)]
pub enum BackupStep {
    /// The settings already pointed at the alternate provider: there is
    /// nothing to switch.
    AlreadyZai,
    /// The default provider's settings were backed up.
    BackedUp,
    /// A backup of the default provider's settings was there already and
    /// was kept as it is; it was made at the given time where that is known.
    BackupKept { created_at: Option<i64> },
    /// There were no settings to back up; the flag says whether a backup of
    /// the default provider's settings is there all the same.
    NothingToBackUp { backup_found: bool },
    /// The settings point at some other endpoint and are not backed up; no
    /// backup was touched.
    CustomNotBackedUp,
}

/// How a switch to the alternate provider ended.
#[derive(Debug, Clone, Copy, PartialEq, Eq, Structural)]
pub struct SwitchReport {
    /// What was done about a backup.
    pub step: BackupStep,
    /// What the caller should warn about in the token. Where nothing was
    /// switched the token was not looked at.
    pub warning: Option<TokenWarning>,
}

/// What the first half of a switch to the alternate provider, at time
/// `now`, makes of the store, and what it did about a backup.
///
/// Only settings of the default provider are backed up, and only where no
/// backup of them is there yet: an existing one is never overwritten. An
/// unreadable or malformed settings file ends the switch with an error, and
/// so does an unreadable backup file where the backup is looked at.
pub open spec fn after_prepare_switch(store: StoreView, now: i64) -> (
    StoreView,
    Result<BackupStep, AppErrorView>,
) {
    match store.loaded_settings() {
        Err(error) => (store, Err(error)),
        Ok(env) => match provider_of(env) {
            Provider::ZAI => (store, Ok(BackupStep::AlreadyZai)),
            Provider::Anthropic => match store.backup_status(now) {
                Err(error) => (store, Err(error)),
                Ok((true, Some(backup))) => (
                    store,
                    Ok(BackupStep::BackupKept { created_at: backup.metadata.created_at }),
                ),
                Ok(_) => (
                    store.create_backup(env, Provider::Anthropic, now),
                    Ok(BackupStep::BackedUp),
                ),
            },
            Provider::Unknown => match store.backup_status(now) {
                Err(error) => (store, Err(error)),
                Ok((found, _)) => (store, Ok(BackupStep::NothingToBackUp { backup_found: found })),
            },
            Provider::Custom => (store, Ok(BackupStep::CustomNotBackedUp)),
        },
    }
}

/// What a whole switch to the alternate provider with `token`, at time
/// `now`, makes of the store, and how it ends: unless the settings point at
/// the alternate provider already, the first half is followed by writing
/// the alternate provider's settings.
pub open spec fn after_switch_to_glm(store: StoreView, token: Seq<char>, now: i64) -> (
    StoreView,
    Result<SwitchReport, AppErrorView>,
) {
    let (prepared, step) = after_prepare_switch(store, now);
    match step {
        Err(error) => (prepared, Err(error)),
        Ok(BackupStep::AlreadyZai) => (
            prepared,
            Ok(SwitchReport { step: BackupStep::AlreadyZai, warning: None }),
        ),
        Ok(step) => (
            prepared.save_settings(zai_env(token)),
            Ok(SwitchReport { step: step, warning: token_warning_of(token, Provider::ZAI) }),
        ),
    }
}

/// The view of what the first half of a switch did.
pub open spec fn step_view(ended: Result<BackupStep, AppError>) -> Result<
    BackupStep,
    AppErrorView,
> {
    match ended {
        Ok(step) => Ok(step),
        Err(error) => Err(error@),
    }
}

/// The view of how a switch ended.
pub open spec fn report_view(ended: Result<SwitchReport, AppError>) -> Result<
    SwitchReport,
    AppErrorView,
> {
    match ended {
        Ok(report) => Ok(report),
        Err(error) => Err(error@),
    }
}

/// Switches the settings to the alternate provider.
#[derive(Debug)]
pub struct GLMSwitcher {
    config_manager: ConfigManager,
    token_manager: TokenManager,
}

impl View for GLMSwitcher {
    type V = StoreView;

    closed spec fn view(&self) -> StoreView {
        self.config_manager@
    }
}

impl GLMSwitcher {
    pub fn new(config_manager: ConfigManager) -> (switcher: Self)
        ensures
            switcher@ == config_manager@,
    {
        GLMSwitcher { config_manager, token_manager: TokenManager::new() }
    }

    /// The store that the switcher works on.
    pub fn config_manager(&self) -> (store: &ConfigManager)
        ensures
            store@ == self@,
    {
        &self.config_manager
    }

    /// Gives the store back.
    pub fn into_manager(self) -> (store: ConfigManager)
        ensures
            store@ == self@,
    {
        self.config_manager
    }

    /// Hands out the changes made so far, oldest first, and forgets them.
    pub fn take_changes(&mut self) -> (changes: Vec<StoreChange>)
        ensures
            changes_view(changes@) == old(self)@.pending,
            final(self)@ == (StoreView { pending: Seq::empty(), ..old(self)@ }),
    {
        self.config_manager.take_changes()
    }

    /// Where the token comes from, given what the environment holds.
    pub fn token_source(&self, from_environment: Option<String>) -> (source: TokenSource)
        ensures
            source@ == token_source(
                match from_environment {
                    Some(token) => Some(token@),
                    None => None,
                },
                self@,
            ),
    {
        self.token_manager.prompt_for_token(&self.config_manager, from_environment)
    }

    /// Saves a token that the user typed and wants kept.
    pub fn remember_token(&mut self, token: &str)
        ensures
            final(self)@ == old(self)@.save_token(token@),
    {
        self.config_manager.save_token(token);
    }

    /// Backs up the default provider's settings `config` at time `now`,
    /// unless a backup of them is there already.
    fn backup_anthropic_config_if_needed(&mut self, config: &Config, now: i64) -> (ended: Result<
        BackupStep,
        AppError,
    >)
        ensures
            (final(self)@, step_view(ended)) == (match old(self)@.backup_status(now) {
                Err(error) => (old(self)@, Err(error)),
                Ok((true, Some(backup))) => (
                    old(self)@,
                    Ok(BackupStep::BackupKept { created_at: backup.metadata.created_at }),
                ),
                Ok(_) => (
                    old(self)@.create_backup(config@, Provider::Anthropic, now),
                    Ok(BackupStep::BackedUp),
                ),
            }),
    {
        match self.config_manager.backup_status_at(now) {
            Err(error) => Err(error),
            Ok((true, Some(backup))) => Ok(
                BackupStep::BackupKept { created_at: backup.metadata.created_at },
            ),
            Ok(_) => {
                self.config_manager.create_backup_at(config, &Provider::Anthropic, now);
                Ok(BackupStep::BackedUp)
            },
        }
    }

    /// Looks whether a backup is there although there are no settings to
    /// back up.
    fn handle_unknown_provider(&self, now: i64) -> (ended: Result<BackupStep, AppError>)
        ensures
            step_view(ended) == (match self@.backup_status(now) {
                Err(error) => Err(error),
                Ok((found, _)) => Ok(BackupStep::NothingToBackUp { backup_found: found }),
            }),
    {
        match self.config_manager.backup_status_at(now) {
            Err(error) => Err(error),
            Ok((found, _)) => Ok(BackupStep::NothingToBackUp { backup_found: found }),
        }
    }

    /// The settings of the alternate provider with `token` as the
    /// credential.
    pub fn create_glm_config(&self, token: &str) -> (config: Config)
        ensures
            config@ == zai_env(token@),
    {
        let mut env = EnvMap::new();
        env.insert(String::from_str(AUTH_TOKEN_KEY), String::from_str(token));
        env.insert(String::from_str(BASE_URL_KEY), String::from_str(ZAI_BASE_URL));
        env.insert(String::from_str(TIMEOUT_KEY), String::from_str(ZAI_TIMEOUT_MS));
        env.insert(String::from_str(OPUS_MODEL_KEY), String::from_str(ZAI_OPUS_MODEL));
        env.insert(String::from_str(SONNET_MODEL_KEY), String::from_str(ZAI_SONNET_MODEL));
        env.insert(String::from_str(HAIKU_MODEL_KEY), String::from_str(ZAI_HAIKU_MODEL));
        Config { env }
    }

    /// The first half of the switch, at time `now`: decides what is due
    /// about a backup and does it.
    pub fn prepare_switch_at(&mut self, now: i64) -> (ended: Result<BackupStep, AppError>)
        ensures
            (final(self)@, step_view(ended)) == after_prepare_switch(old(self)@, now),
    {
        let config = self.config_manager.load_current_config()?;
        match ProviderDetector::detect_provider(&config) {
            Provider::ZAI => Ok(BackupStep::AlreadyZai),
            Provider::Anthropic => self.backup_anthropic_config_if_needed(&config, now),
            Provider::Unknown => self.handle_unknown_provider(now),
            Provider::Custom => Ok(BackupStep::CustomNotBackedUp),
        }
    }

    /// The first half of the switch, now.
    pub fn prepare_switch(&mut self) -> (ended: Result<BackupStep, AppError>)
        ensures
            exists|now: i64|
                (final(self)@, step_view(ended)) == after_prepare_switch(old(self)@, now),
    {
        let now = current_timestamp();
        self.prepare_switch_at(now)
    }

    /// The second half of the switch: writes the alternate provider's
    /// settings with `token`, and says what to warn about in the token.
    pub fn apply_token(&mut self, token: &str) -> (warning: Option<TokenWarning>)
        ensures
            final(self)@ == old(self)@.save_settings(zai_env(token@)),
            warning == token_warning_of(token@, Provider::ZAI),
    {
        let check = ProviderDetector::validate_token_for_provider(token, &Provider::ZAI);
        let config = self.create_glm_config(token);
        self.config_manager.save_current_config(&config);
        check.warning
    }

    /// The whole switch with `token`, at time `now`.
    pub fn switch_to_glm_at(&mut self, token: &str, now: i64) -> (ended: Result<
        SwitchReport,
        AppError,
    >)
        ensures
            (final(self)@, report_view(ended)) == after_switch_to_glm(old(self)@, token@, now),
    {
        match self.prepare_switch_at(now) {
            Err(error) => Err(error),
            Ok(BackupStep::AlreadyZai) => Ok(
                SwitchReport { step: BackupStep::AlreadyZai, warning: None },
            ),
            Ok(step) => {
                let warning = self.apply_token(token);
                Ok(SwitchReport { step, warning })
            },
        }
    }

    /// The whole switch with `token`, now.
    pub fn switch_to_glm(&mut self, token: &str) -> (ended: Result<SwitchReport, AppError>)
        ensures
            exists|now: i64|
                (final(self)@, report_view(ended)) == after_switch_to_glm(
                    old(self)@,
                    token@,
                    now,
                ),
    {
        let now = current_timestamp();
        self.switch_to_glm_at(token, now)
    }
}

/// The alternate provider's settings point at the alternate provider,
/// whatever the token.
pub proof fn lemma_zai_env_is_zai(token: Seq<char>)
    ensures
        provider_of(zai_env(token)) == Provider::ZAI,
{
    reveal_strlit("https://api.z.ai/api/anthropic");
    reveal_strlit("z.ai");
    reveal_strlit("ANTHROPIC_AUTH_TOKEN");
    reveal_strlit("ANTHROPIC_BASE_URL");
    reveal_strlit("API_TIMEOUT_MS");
    reveal_strlit("ANTHROPIC_DEFAULT_OPUS_MODEL");
    reveal_strlit("ANTHROPIC_DEFAULT_SONNET_MODEL");
    reveal_strlit("ANTHROPIC_DEFAULT_HAIKU_MODEL");
    assert(zai_env(token)[BASE_URL_KEY@] == ZAI_BASE_URL@) by {
        assert(TIMEOUT_KEY@.len() != BASE_URL_KEY@.len());
        assert(OPUS_MODEL_KEY@.len() != BASE_URL_KEY@.len());
        assert(SONNET_MODEL_KEY@.len() != BASE_URL_KEY@.len());
        assert(HAIKU_MODEL_KEY@.len() != BASE_URL_KEY@.len());
    }
    assert(occurs_at(ZAI_BASE_URL@, ZAI_DOMAIN@, 12)) by {
        assert(ZAI_BASE_URL@.subrange(12, 16) =~= ZAI_DOMAIN@);
    }
}

/// A switch to the alternate provider never overwrites a backup of the
/// default provider's settings: where the store holds one, it holds the
/// same one afterwards, whatever the token and the time, and however the
/// switch ends.
pub proof fn lemma_switch_to_glm_keeps_backup(store: StoreView, token: Seq<char>, now: i64)
    requires
        store.has_valid_backup(),
    ensures
        after_switch_to_glm(store, token, now).0.backup == store.backup,
        after_switch_to_glm(store, token, now).0.has_valid_backup(),
{
}

/// The store after one switch to the alternate provider for each of
/// `calls`, in order; a call is a token and a time.
pub open spec fn after_switches_to_glm(store: StoreView, calls: Seq<(Seq<char>, i64)>)
    -> StoreView
    decreases calls.len(),
{
    if calls.len() == 0 {
        store
    } else {
        after_switch_to_glm(
            after_switches_to_glm(store, calls.drop_last()),
            calls.last().0,
            calls.last().1,
        ).0
    }
}

/// However often the switch to the alternate provider is repeated, a
/// backup of the default provider's settings that was there before the
/// first call is there unchanged after the last.
pub proof fn lemma_repeated_switches_keep_backup(store: StoreView, calls: Seq<(Seq<char>, i64)>)
    requires
        store.has_valid_backup(),
    ensures
        after_switches_to_glm(store, calls).backup == store.backup,
    decreases calls.len(),
{
    if calls.len() > 0 {
        lemma_repeated_switches_keep_backup(store, calls.drop_last());
        lemma_switch_to_glm_keeps_backup(
            after_switches_to_glm(store, calls.drop_last()),
            calls.last().0,
            calls.last().1,
        );
    }
}

} // verus!
