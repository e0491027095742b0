//! Switching back to the default provider: the settings are restored from
//! the backup.

use vstd::prelude::*;
use crate::config::env_map::EnvMap;
use crate::config::manager::ConfigManager;
use crate::config::manager::StoreView;
use crate::config::store::changes_view;
use crate::config::store::StoreChange;
use crate::config::types::Config;
use crate::config::types::Provider;
use crate::provider::detector::is_zai_key;
use crate::provider::detector::provider_of;
use crate::provider::detector::ProviderDetector;
use crate::provider::detector::BASE_URL_KEY;
use crate::provider::detector::HAIKU_MODEL_KEY;
use crate::provider::detector::OPUS_MODEL_KEY;
use crate::provider::detector::SONNET_MODEL_KEY;
use crate::provider::detector::TIMEOUT_KEY;
use crate::provider::detector::ZAI_DOMAIN;
use crate::utils::error::AppError;
use crate::utils::error::AppErrorView;
use crate::utils::system::current_timestamp;
use crate::utils::text::occurs_at;

verus! {

/// `env` without the keys that belong to the alternate provider.
pub open spec fn without_zai_keys(env: Map<Seq<char>, Seq<char>>) -> Map<Seq<char>, Seq<char>> {
    env.remove_keys(Set::new(|key: Seq<char>| is_zai_key(key)))
}

/// A copy of `env` without the keys that belong to the alternate provider.
pub fn strip_zai_keys(env: &EnvMap) -> (rest: EnvMap)
    ensures
        rest@ == without_zai_keys(env@),
{
    let mut rest = env.clone();
    rest.remove(BASE_URL_KEY);
    rest.remove(TIMEOUT_KEY);
    rest.remove(OPUS_MODEL_KEY);
    rest.remove(SONNET_MODEL_KEY);
    rest.remove(HAIKU_MODEL_KEY);
    rest
}

/// How a switch to the default provider ended.
#[derive(Debug, Clone, Copy, PartialEq, Eq, Structural)]
pub enum RestoreOutcome {
    /// The settings already pointed at the default provider; nothing was
    /// written.
    AlreadyAnthropic,
    /// There was no backup of the default provider's configuration. The
    /// empty configuration was written, and the user has to log in again.
    NoBackup,
    /// The settings were restored from the backup, which was made at the
    /// given time where that is known.
    Restored { created_at: Option<i64> },
}

/// What a switch to the default provider at time `now` makes of the store,
/// and how it ends.
///
/// Settings that already point at the default provider stay. Otherwise
/// they are replaced: by the backup without the alternate provider's keys,
/// or, where there is no backup of the default provider's configuration,
/// by the empty configuration. An unreadable or malformed settings file and
/// an unreadable backup file end the switch with an error and leave the
/// store as it was.
pub open spec fn after_switch_to_anthropic(store: StoreView, now: i64) -> (
    StoreView,
    Result<RestoreOutcome, AppErrorView>,
) {
    match store.loaded_settings() {
        Err(error) => (store, Err(error)),
        Ok(env) => if provider_of(env) == Provider::Anthropic {
            (store, Ok(RestoreOutcome::AlreadyAnthropic))
        } else {
            match store.backup_status(now) {
                Err(error) => (store, Err(error)),
                Ok((true, Some(backup))) => (
                    store.save_settings(without_zai_keys(backup.env)),
                    Ok(RestoreOutcome::Restored { created_at: backup.metadata.created_at }),
                ),
                Ok(_) => (store.save_settings(Map::empty()), Ok(RestoreOutcome::NoBackup)),
            }
        },
    }
}

/// The view of how a switch to the default provider ended.
pub open spec fn restore_view(ended: Result<RestoreOutcome, AppError>) -> Result<
    RestoreOutcome,
    AppErrorView,
> {
    match ended {
        Ok(outcome) => Ok(outcome),
        Err(error) => Err(error@),
    }
}

/// Switches the settings back to the default provider.
#[derive(Debug)]
pub struct AnthropicSwitcher {
    config_manager: ConfigManager,
}

impl View for AnthropicSwitcher {
    type V = StoreView;

    closed spec fn view(&self) -> StoreView {
        self.config_manager@
    }
}

impl AnthropicSwitcher {
    pub fn new(config_manager: ConfigManager) -> (switcher: Self)
        ensures
            switcher@ == config_manager@,
    {
        AnthropicSwitcher { config_manager }
    }

    /// The store that the switcher works on.
    pub fn config_manager(&self) -> (store: &ConfigManager)
        ensures
            store@ == self@,
    {
        &self.config_manager
    }

    /// Gives the store back.
    pub fn into_manager(self) -> (store: ConfigManager)
        ensures
            store@ == self@,
    {
        self.config_manager
    }

    /// Hands out the changes made so far, oldest first, and forgets them.
    pub fn take_changes(&mut self) -> (changes: Vec<StoreChange>)
        ensures
            changes_view(changes@) == old(self)@.pending,
            final(self)@ == (StoreView { pending: Seq::empty(), ..old(self)@ }),
    {
        self.config_manager.take_changes()
    }

    /// Switches to the default provider, at time `now`.
    pub fn switch_to_anthropic_at(&mut self, now: i64) -> (ended: Result<
        RestoreOutcome,
        AppError,
    >)
        ensures
            (final(self)@, restore_view(ended)) == after_switch_to_anthropic(old(self)@, now),
    {
        let current = self.config_manager.load_current_config()?;
        if ProviderDetector::is_anthropic_config(&current) {
            return Ok(RestoreOutcome::AlreadyAnthropic);
        }
        match self.config_manager.backup_status_at(now)? {
            (true, Some(backup)) => {
                let restored = Config { env: strip_zai_keys(&backup.env) };
                self.config_manager.save_current_config(&restored);
                Ok(RestoreOutcome::Restored { created_at: backup.metadata.created_at })
            },
            _ => {
                let empty = Config::default();
                self.config_manager.save_current_config(&empty);
                Ok(RestoreOutcome::NoBackup)
            },
        }
    }

    /// Switches to the default provider, now.
    pub fn switch_to_anthropic(&mut self) -> (ended: Result<RestoreOutcome, AppError>)
        ensures
            exists|now: i64|
                (final(self)@, restore_view(ended)) == after_switch_to_anthropic(
                    old(self)@,
                    now,
                ),
    {
        let now = current_timestamp();
        self.switch_to_anthropic_at(now)
    }
}

/// A configuration without the alternate provider's keys points at the
/// default provider, unless nothing is left of it.
pub proof fn lemma_stripped_is_anthropic(env: Map<Seq<char>, Seq<char>>)
    ensures
        provider_of(without_zai_keys(env)) == if without_zai_keys(env) =~= Map::empty() {
            Provider::Unknown
        } else {
            Provider::Anthropic
        },
{
    reveal_strlit("z.ai");
    assert forall|at: int| !occurs_at(Seq::<char>::empty(), ZAI_DOMAIN@, at) by {}
}

/// Switching to the default provider twice in a row: the second switch
/// leaves the three files as the first one left them, and it ends as the
/// first one did, with an error or without. After a first switch that
/// ended without an error, the second one finds the default provider
/// already in place exactly if the settings are not empty by then.
pub proof fn lemma_switch_to_anthropic_twice(store: StoreView, first: i64, second: i64)
    ensures
        ({
            let (once, ended_once) = after_switch_to_anthropic(store, first);
            let (twice, ended_twice) = after_switch_to_anthropic(once, second);
            &&& twice.settings == once.settings
            &&& twice.backup == once.backup
            &&& twice.token == once.token
            &&& ended_once is Ok <==> ended_twice is Ok
            &&& ended_once is Ok ==> (ended_twice == Ok::<RestoreOutcome, AppErrorView>(
                RestoreOutcome::AlreadyAnthropic,
            ) <==> !(once.loaded_settings()->Ok_0 =~= Map::empty()))
        }),
{
    if let Ok((true, Some(backup))) = store.backup_status(first) {
        lemma_stripped_is_anthropic(backup.env);
    }
}

} // verus!
