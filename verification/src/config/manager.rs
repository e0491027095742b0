//! The store: an image of the configuration directory, the operations on
//! it, and the record of the changes they make.

use vstd::prelude::*;
use vstd::string::StringExecFns;
use crate::config::store::changes_view;
use crate::config::store::BackupFile;
use crate::config::store::BackupFileView;
use crate::config::store::SettingsFile;
use crate::config::store::SettingsFileView;
use crate::config::store::StoreChange;
use crate::config::store::StoreChangeView;
use crate::config::store::TokenFile;
use crate::config::store::TokenFileView;
use crate::config::types::BackupConfig;
use crate::config::types::BackupConfigView;
use crate::config::types::BackupMetadata;
use crate::config::types::BackupMetadataView;
use crate::config::types::Config;
use crate::config::types::Provider;
use crate::config::types::BACKUP_FORMAT_VERSION;
use crate::utils::error::AppError;
use crate::utils::error::AppErrorView;
use crate::utils::paths::join_path;
use crate::utils::paths::joined;
use crate::utils::system::current_timestamp;
use crate::utils::system::home_directory;
use crate::utils::text::same_text;
use crate::utils::text::trim;
use crate::utils::text::trimmed;

verus! {

/// The name of the settings file.
pub const SETTINGS_FILE_NAME: &'static str = "settings.json";

/// The name of the backup file.
pub const BACKUP_FILE_NAME: &'static str = "settings.json.backup";

/// The name of the file beside the backup that holds its metadata alone.
pub const METADATA_FILE_NAME: &'static str = "settings.json.meta";

/// The name of the saved-token file.
pub const TOKEN_FILE_NAME: &'static str = ".z_ai_token";

/// The metadata of a backup of `provider`'s configuration made at `now`.
pub open spec fn metadata_for(provider: Provider, now: i64) -> BackupMetadataView {
    BackupMetadataView {
        provider: provider.tag(),
        created_at: Some(now),
        version: BACKUP_FORMAT_VERSION@,
    }
}

/// What loading `file` as a configuration gives: the empty configuration
/// where there is no file, an error where the file is unreadable or
/// malformed.
pub open spec fn loaded(file: SettingsFileView) -> Result<Map<Seq<char>, Seq<char>>, AppErrorView> {
    match file {
        SettingsFileView::Missing => Ok(Map::empty()),
        SettingsFileView::Unreadable(why) => Err(AppErrorView::Io(why)),
        SettingsFileView::Malformed(why) => Err(AppErrorView::Json(why)),
        SettingsFileView::Parsed(env) => Ok(env),
    }
}

/// The store, as a mathematical value: four paths, what the three files
/// hold, and the changes made since they were last handed out.
pub struct StoreView {
    pub settings_file: Seq<char>,
    pub backup_file: Seq<char>,
    pub metadata_file: Seq<char>,
    pub token_file: Seq<char>,
    pub settings: SettingsFileView,
    pub backup: BackupFileView,
    pub token: TokenFileView,
    pub pending: Seq<StoreChangeView>,
}

impl StoreView {
    /// The store of the directory `dir_name` under `home`, in which nothing
    /// has been found yet.
    pub open spec fn fresh(home: Seq<char>, dir_name: Seq<char>) -> StoreView {
        let dir = joined(home, dir_name);
        StoreView {
            settings_file: joined(dir, SETTINGS_FILE_NAME@),
            backup_file: joined(dir, BACKUP_FILE_NAME@),
            metadata_file: joined(dir, METADATA_FILE_NAME@),
            token_file: joined(dir, TOKEN_FILE_NAME@),
            settings: SettingsFileView::Missing,
            backup: BackupFileView::Missing,
            token: TokenFileView::Missing,
            pending: Seq::empty(),
        }
    }

    /// What loading the settings gives.
    pub open spec fn loaded_settings(self) -> Result<Map<Seq<char>, Seq<char>>, AppErrorView> {
        loaded(self.settings)
    }

    /// What looking for a backup at time `now` gives: whether there is a
    /// backup of the default provider's configuration, and the backup.
    ///
    /// A bare configuration counts as such a backup and gets metadata made
    /// up on the spot. A file of neither shape counts as no backup.
    pub open spec fn backup_status(self, now: i64) -> Result<
        (bool, Option<BackupConfigView>),
        AppErrorView,
    > {
        match self.backup {
            BackupFileView::Missing => Ok((false, None)),
            BackupFileView::Unreadable(why) => Err(AppErrorView::Io(why)),
            BackupFileView::Unrecognized => Ok((false, None)),
            BackupFileView::Legacy(env) => Ok(
                (
                    true,
                    Some(
                        BackupConfigView {
                            metadata: metadata_for(Provider::Anthropic, now),
                            env: env,
                        },
                    ),
                ),
            ),
            BackupFileView::Tagged(backup) => Ok(
                (backup.metadata.provider == Provider::Anthropic.tag(), Some(backup)),
            ),
        }
    }

    /// Whether the backup file holds a backup of the default provider's
    /// configuration.
    pub open spec fn has_valid_backup(self) -> bool {
        match self.backup {
            BackupFileView::Legacy(_) => true,
            BackupFileView::Tagged(backup) => backup.metadata.provider
                == Provider::Anthropic.tag(),
            _ => false,
        }
    }

    /// What loading the saved token gives: the text of the file without
    /// the white space around it, unless nothing is left of it.
    pub open spec fn saved_token(self) -> Result<Option<Seq<char>>, AppErrorView> {
        match self.token {
            TokenFileView::Missing => Ok(None),
            TokenFileView::Unreadable(why) => Err(AppErrorView::Io(why)),
            TokenFileView::Text(text) => if trimmed(text).len() == 0 {
                Ok(None)
            } else {
                Ok(Some(trimmed(text)))
            },
        }
    }

    /// The store after `env` was saved as the settings.
    pub open spec fn save_settings(self, env: Map<Seq<char>, Seq<char>>) -> StoreView {
        StoreView {
            settings: SettingsFileView::Parsed(env),
            pending: self.pending.push(StoreChangeView::WriteSettings(env)),
            ..self
        }
    }

    /// The store after `env` was backed up at `now` as `provider`'s
    /// configuration: the backup file holds it with its metadata, and the
    /// metadata is written beside it.
    pub open spec fn create_backup(
        self,
        env: Map<Seq<char>, Seq<char>>,
        provider: Provider,
        now: i64,
    ) -> StoreView {
        let backup = BackupConfigView { metadata: metadata_for(provider, now), env: env };
        StoreView {
            backup: BackupFileView::Tagged(backup),
            pending: self.pending.push(StoreChangeView::WriteBackup(backup)).push(
                StoreChangeView::WriteBackupMetadata(backup.metadata),
            ),
            ..self
        }
    }

    /// The store after `token` was saved.
    pub open spec fn save_token(self, token: Seq<char>) -> StoreView {
        StoreView {
            token: TokenFileView::Text(token),
            pending: self.pending.push(StoreChangeView::WriteToken(token)),
            ..self
        }
    }

    /// The store after the saved token was removed: nothing changes where
    /// there is no such file.
    pub open spec fn remove_token(self) -> StoreView {
        if self.token is Missing {
            self
        } else {
            StoreView {
                token: TokenFileView::Missing,
                pending: self.pending.push(StoreChangeView::RemoveToken),
                ..self
            }
        }
    }
}

/// The view of the result of a backup lookup.
pub open spec fn lookup_view(found: Result<(bool, Option<BackupConfig>), AppError>) -> Result<
    (bool, Option<BackupConfigView>),
    AppErrorView,
> {
    match found {
        Ok((valid, Some(backup))) => Ok((valid, Some(backup@))),
        Ok((valid, None)) => Ok((valid, None)),
        Err(error) => Err(error@),
    }
}

/// The store of the configuration directory.
#[derive(Debug)]
pub struct ConfigManager {
    settings_file: String,
    backup_file: String,
    metadata_file: String,
    token_file: String,
    settings: SettingsFile,
    backup: BackupFile,
    token: TokenFile,
    pending: Vec<StoreChange>,
}

impl View for ConfigManager {
    type V = StoreView;

    closed spec fn view(&self) -> StoreView {
        StoreView {
            settings_file: self.settings_file@,
            backup_file: self.backup_file@,
            metadata_file: self.metadata_file@,
            token_file: self.token_file@,
            settings: self.settings@,
            backup: self.backup@,
            token: self.token@,
            pending: changes_view(self.pending@),
        }
    }
}

impl ConfigManager {
    /// The store of the directory `dir_name` under the home directory of
    /// the current user, with nothing found in it yet.
    pub fn new(dir_name: &str) -> (made: Result<Self, AppError>)
        ensures
            match made {
                Ok(store) => exists|home: Seq<char>|
                    store@ == StoreView::fresh(home, dir_name@),
                Err(error) => error@ == AppErrorView::HomeDirNotFound,
            },
    {
        Self::from_home(home_directory(), dir_name)
    }

    /// The store of the directory `dir_name` under `home`, with nothing
    /// found in it yet. Without a home directory there is no store.
    pub fn from_home(home: Option<String>, dir_name: &str) -> (made: Result<Self, AppError>)
        ensures
            match home {
                Some(dir) => made matches Ok(store) && store@ == StoreView::fresh(
                    dir@,
                    dir_name@,
                ),
                None => made matches Err(error) && error@ == AppErrorView::HomeDirNotFound,
            },
    {
        match home {
            None => Err(AppError::HomeDirNotFound),
            Some(dir) => {
                let config_dir = join_path(dir.as_str(), dir_name);
                let store = ConfigManager {
                    settings_file: join_path(config_dir.as_str(), SETTINGS_FILE_NAME),
                    backup_file: join_path(config_dir.as_str(), BACKUP_FILE_NAME),
                    metadata_file: join_path(config_dir.as_str(), METADATA_FILE_NAME),
                    token_file: join_path(config_dir.as_str(), TOKEN_FILE_NAME),
                    settings: SettingsFile::Missing,
                    backup: BackupFile::Missing,
                    token: TokenFile::Missing,
                    pending: Vec::new(),
                };
                assert(store@.pending =~= Seq::empty());
                Ok(store)
            },
        }
    }

    /// The same store with `file` as what the settings file holds.
    pub fn with_settings(self, file: SettingsFile) -> (store: Self)
        ensures
            store@ == (StoreView { settings: file@, ..self@ }),
    {
        let mut store = self;
        store.settings = file;
        store
    }

    /// The same store with `file` as what the backup file holds.
    pub fn with_backup(self, file: BackupFile) -> (store: Self)
        ensures
            store@ == (StoreView { backup: file@, ..self@ }),
    {
        let mut store = self;
        store.backup = file;
        store
    }

    /// The same store with `file` as what the saved-token file holds.
    pub fn with_token(self, file: TokenFile) -> (store: Self)
        ensures
            store@ == (StoreView { token: file@, ..self@ }),
    {
        let mut store = self;
        store.token = file;
        store
    }

    /// The path of the settings file.
    pub fn settings_file(&self) -> (path: &str)
        ensures
            path@ == self@.settings_file,
    {
        self.settings_file.as_str()
    }

    /// The path of the backup file.
    pub fn backup_file(&self) -> (path: &str)
        ensures
            path@ == self@.backup_file,
    {
        self.backup_file.as_str()
    }

    /// The path of the file beside the backup that holds its metadata.
    pub fn metadata_file(&self) -> (path: &str)
        ensures
            path@ == self@.metadata_file,
    {
        self.metadata_file.as_str()
    }

    /// The path of the saved-token file.
    pub fn token_file(&self) -> (path: &str)
        ensures
            path@ == self@.token_file,
    {
        self.token_file.as_str()
    }

    /// Whether there is a file at the backup path, whatever it holds.
    pub fn backup_exists(&self) -> (exists: bool)
        ensures
            exists == !(self@.backup is Missing),
    {
        match &self.backup {
            BackupFile::Missing => false,
            _ => true,
        }
    }

    /// The configuration that `file` holds. No file means the empty
    /// configuration.
    pub fn load_config(&self, file: &SettingsFile) -> (found: Result<Config, AppError>)
        ensures
            match found {
                Ok(config) => loaded(file@) == Ok::<_, AppErrorView>(config@),
                Err(error) => loaded(file@) == Err::<Map<Seq<char>, Seq<char>>, _>(error@),
            },
    {
        match file {
            SettingsFile::Missing => Ok(Config::default()),
            SettingsFile::Unreadable(why) => Err(AppError::Io(why.clone())),
            SettingsFile::Malformed(why) => Err(AppError::Json(why.clone())),
            SettingsFile::Parsed(config) => Ok(config.clone()),
        }
    }

    /// The current settings.
    pub fn load_current_config(&self) -> (found: Result<Config, AppError>)
        ensures
            match found {
                Ok(config) => self@.loaded_settings() == Ok::<_, AppErrorView>(config@),
                Err(error) => self@.loaded_settings() == Err::<Map<Seq<char>, Seq<char>>, _>(
                    error@,
                ),
            },
    {
        self.load_config(&self.settings)
    }

    /// Makes `config` the current settings.
    pub fn save_current_config(&mut self, config: &Config)
        ensures
            final(self)@ == old(self)@.save_settings(config@),
    {
        self.settings = SettingsFile::Parsed(config.clone());
        self.pending.push(StoreChange::WriteSettings(config.clone()));
        assert(final(self)@.pending =~= old(self)@.save_settings(config@).pending);
    }

    /// Looks for a backup of the default provider's configuration, at
    /// time `now`.
    pub fn backup_status_at(&self, now: i64) -> (found: Result<
        (bool, Option<BackupConfig>),
        AppError,
    >)
        ensures
            lookup_view(found) == self@.backup_status(now),
    {
        match &self.backup {
            BackupFile::Missing => Ok((false, None)),
            BackupFile::Unreadable(why) => Err(AppError::Io(why.clone())),
            BackupFile::Unrecognized => Ok((false, None)),
            BackupFile::Legacy(config) => {
                let backup = BackupConfig {
                    metadata: BackupMetadata {
                        provider: String::from_str(Provider::Anthropic.as_str()),
                        created_at: Some(now),
                        version: String::from_str(BACKUP_FORMAT_VERSION),
                    },
                    env: config.env.clone(),
                };
                Ok((true, Some(backup)))
            },
            BackupFile::Tagged(backup) => {
                let valid = same_text(
                    backup.metadata.provider.as_str(),
                    Provider::Anthropic.as_str(),
                );
                Ok((valid, Some(backup.clone())))
            },
        }
    }

    /// Looks for a backup of the default provider's configuration, now.
    pub fn has_valid_anthropic_backup(&self) -> (found: Result<
        (bool, Option<BackupConfig>),
        AppError,
    >)
        ensures
            exists|now: i64| lookup_view(found) == self@.backup_status(now),
    {
        let now = current_timestamp();
        self.backup_status_at(now)
    }

    /// Backs `config` up as `provider`'s configuration, made at `now`,
    /// over whatever backup there was.
    pub fn create_backup_at(&mut self, config: &Config, provider: &Provider, now: i64)
        ensures
            final(self)@ == old(self)@.create_backup(config@, *provider, now),
    {
        let metadata = BackupMetadata {
            provider: String::from_str(provider.as_str()),
            created_at: Some(now),
            version: String::from_str(BACKUP_FORMAT_VERSION),
        };
        let backup = BackupConfig { metadata: metadata.clone(), env: config.env.clone() };
        self.backup = BackupFile::Tagged(backup.clone());
        self.pending.push(StoreChange::WriteBackup(backup));
        self.pending.push(StoreChange::WriteBackupMetadata(metadata));
        assert(final(self)@.pending =~= old(self)@.create_backup(
            config@,
            *provider,
            now,
        ).pending);
    }

    /// Backs `config` up as `provider`'s configuration, made now, over
    /// whatever backup there was.
    pub fn create_backup_with_metadata(&mut self, config: &Config, provider: &Provider)
        ensures
            exists|now: i64|
                final(self)@ == old(self)@.create_backup(config@, *provider, now),
    {
        let now = current_timestamp();
        self.create_backup_at(config, provider, now);
    }

    /// Saves `token` as it is.
    pub fn save_token(&mut self, token: &str)
        ensures
            final(self)@ == old(self)@.save_token(token@),
    {
        self.token = TokenFile::Text(String::from_str(token));
        self.pending.push(StoreChange::WriteToken(String::from_str(token)));
        assert(final(self)@.pending =~= old(self)@.save_token(token@).pending);
    }

    /// The saved token, without the white space around it. A file that
    /// holds nothing else counts as no token.
    pub fn load_saved_token(&self) -> (loaded: Result<Option<String>, AppError>)
        ensures
            match loaded {
                Ok(Some(token)) => self@.saved_token() == Ok::<_, AppErrorView>(Some(token@)),
                Ok(None) => self@.saved_token() == Ok::<Option<Seq<char>>, AppErrorView>(None),
                Err(error) => self@.saved_token() == Err::<Option<Seq<char>>, _>(error@),
            },
    {
        match &self.token {
            TokenFile::Missing => Ok(None),
            TokenFile::Unreadable(why) => Err(AppError::Io(why.clone())),
            TokenFile::Text(text) => {
                let inner = trim(text.as_str());
                if inner.is_empty() {
                    Ok(None)
                } else {
                    Ok(Some(String::from_str(inner)))
                }
            },
        }
    }

    /// Removes the saved token. Without such a file nothing happens.
    pub fn remove_saved_token(&mut self)
        ensures
            final(self)@ == old(self)@.remove_token(),
    {
        match &self.token {
            TokenFile::Missing => {},
            _ => {
                self.token = TokenFile::Missing;
                self.pending.push(StoreChange::RemoveToken);
                assert(final(self)@.pending =~= old(self)@.remove_token().pending);
            },
        }
    }

    /// The changes made since they were last handed out, oldest first.
    pub fn pending_changes(&self) -> (changes: &Vec<StoreChange>)
        ensures
            changes_view(changes@) == self@.pending,
    {
        &self.pending
    }

    /// Hands out the changes made so far, oldest first, and forgets them.
    pub fn take_changes(&mut self) -> (changes: Vec<StoreChange>)
        ensures
            changes_view(changes@) == old(self)@.pending,
            final(self)@ == (StoreView { pending: Seq::empty(), ..old(self)@ }),
    {
        let mut changes: Vec<StoreChange> = Vec::new();
        std::mem::swap(&mut changes, &mut self.pending);
        assert(final(self)@.pending =~= Seq::empty());
        changes
    }
}

/// What was saved as the settings is what loading the settings gives,
/// whatever the store held before.
pub proof fn lemma_saved_settings_are_loaded(store: StoreView, env: Map<Seq<char>, Seq<char>>)
    ensures
        store.save_settings(env).loaded_settings() == Ok::<_, AppErrorView>(env),
{
}

/// A backup of the default provider's configuration that was just made is
/// found again, as it was made, whatever the time of looking.
pub proof fn lemma_created_backup_is_found(
    store: StoreView,
    env: Map<Seq<char>, Seq<char>>,
    made: i64,
    looked: i64,
)
    ensures
        store.create_backup(env, Provider::Anthropic, made).backup_status(looked) == Ok::<
            _,
            AppErrorView,
        >(
            (
                true,
                Some(
                    BackupConfigView {
                        metadata: metadata_for(Provider::Anthropic, made),
                        env: env,
                    },
                ),
            ),
        ),
{
}

} // verus!
