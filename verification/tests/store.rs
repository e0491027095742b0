use claude_switch::config::manager::ConfigManager;
use claude_switch::config::store::BackupFile;
use claude_switch::config::store::SettingsFile;
use claude_switch::config::store::StoreChange;
use claude_switch::config::store::TokenFile;
use claude_switch::config::BackupConfig;
use claude_switch::config::BackupMetadata;
use claude_switch::config::Config;
use claude_switch::config::EnvMap;
use claude_switch::config::Provider;
use claude_switch::utils::AppError;

fn config_of(pairs: &[(&str, &str)]) -> Config {
    let mut env = EnvMap::new();
    for (key, value) in pairs {
        env.insert(key.to_string(), value.to_string());
    }
    Config { env }
}

fn sorted_pairs(env: &EnvMap) -> Vec<(String, String)> {
    let mut pairs = env.to_pairs();
    pairs.sort();
    pairs
}

fn store() -> ConfigManager {
    ConfigManager::from_home(Some("/home/user".to_string()), ".assistant").unwrap()
}

fn backup_of(provider: &str, created_at: Option<i64>, pairs: &[(&str, &str)]) -> BackupConfig {
    BackupConfig {
        metadata: BackupMetadata {
            provider: provider.to_string(),
            created_at,
            version: "2.2.0".to_string(),
        },
        env: config_of(pairs).env,
    }
}

#[test]
fn paths_lie_in_the_directory_under_home() {
    let store = store();
    assert_eq!(store.settings_file(), "/home/user/.assistant/settings.json");
    assert_eq!(store.backup_file(), "/home/user/.assistant/settings.json.backup");
    assert_eq!(store.metadata_file(), "/home/user/.assistant/settings.json.meta");
    assert_eq!(store.token_file(), "/home/user/.assistant/.z_ai_token");
}

#[test]
fn a_home_that_ends_in_a_slash_gets_no_second_one() {
    let store = ConfigManager::from_home(Some("/".to_string()), "dir").unwrap();
    assert_eq!(store.settings_file(), "/dir/settings.json");
    let store = ConfigManager::from_home(Some("/home/u/".to_string()), "dir/").unwrap();
    assert_eq!(store.token_file(), "/home/u/dir/.z_ai_token");
    let store = ConfigManager::from_home(Some("".to_string()), "dir").unwrap();
    assert_eq!(store.backup_file(), "dir/settings.json.backup");
}

#[test]
fn no_home_no_store() {
    let made = ConfigManager::from_home(None, ".assistant");
    assert!(matches!(made, Err(AppError::HomeDirNotFound)));
}

#[test]
fn store_under_the_real_home() {
    match ConfigManager::new(".assistant") {
        Ok(store) => {
            assert!(store.settings_file().ends_with(".assistant/settings.json"));
            assert!(store.backup_file().ends_with(".assistant/settings.json.backup"));
            assert!(store.token_file().ends_with(".assistant/.z_ai_token"));
            assert!(!store.backup_exists());
            assert!(store.pending_changes().is_empty());
        }
        Err(error) => assert!(matches!(error, AppError::HomeDirNotFound)),
    }
}

#[test]
fn fresh_store_holds_nothing() {
    let store = store();
    assert!(store.load_current_config().unwrap().env.is_empty());
    let found = store.backup_status_at(5).unwrap();
    assert!(!found.0);
    assert!(found.1.is_none());
    assert_eq!(store.load_saved_token().unwrap(), None);
    assert!(!store.backup_exists());
    assert!(store.pending_changes().is_empty());
}

#[test]
fn loading_settings() {
    let parsed = store().with_settings(SettingsFile::Parsed(config_of(&[("A", "1")])));
    let config = parsed.load_current_config().unwrap();
    assert_eq!(sorted_pairs(&config.env), vec![("A".to_string(), "1".to_string())]);

    let unreadable = store().with_settings(SettingsFile::Unreadable("denied".to_string()));
    match unreadable.load_current_config() {
        Err(AppError::Io(why)) => assert_eq!(why, "denied"),
        other => panic!("{:?}", other),
    }

    let malformed = store().with_settings(SettingsFile::Malformed("line 1".to_string()));
    match malformed.load_current_config() {
        Err(AppError::Json(why)) => assert_eq!(why, "line 1"),
        other => panic!("{:?}", other),
    }
}

#[test]
fn saved_settings_are_loaded_back() {
    let cases: Vec<Vec<(&str, &str)>> = vec![
        vec![],
        vec![("A", "1")],
        vec![("ANTHROPIC_BASE_URL", ""), ("X", "y z"), ("é", "ü")],
    ];
    for pairs in cases {
        let config = config_of(&pairs);
        let mut store = store().with_settings(SettingsFile::Malformed("old".to_string()));
        store.save_current_config(&config);
        let loaded = store.load_current_config().unwrap();
        assert_eq!(sorted_pairs(&loaded.env), sorted_pairs(&config.env));
        let changes = store.take_changes();
        assert_eq!(changes.len(), 1);
        match &changes[0] {
            StoreChange::WriteSettings(written) => {
                assert_eq!(sorted_pairs(&written.env), sorted_pairs(&config.env))
            }
            other => panic!("{:?}", other),
        }
    }
}

#[test]
fn backup_file_from_two_readings() {
    let tagged = backup_of("anthropic", Some(7), &[("A", "1")]);
    let legacy = config_of(&[("A", "1")]);
    assert!(matches!(
        BackupFile::from_readings(Some(tagged.clone()), Some(legacy.clone())),
        BackupFile::Tagged(_)
    ));
    assert!(matches!(BackupFile::from_readings(Some(tagged), None), BackupFile::Tagged(_)));
    assert!(matches!(BackupFile::from_readings(None, Some(legacy)), BackupFile::Legacy(_)));
    assert!(matches!(BackupFile::from_readings(None, None), BackupFile::Unrecognized));
}

#[test]
fn missing_or_unrecognized_backup_is_no_backup() {
    for file in [BackupFile::Missing, BackupFile::Unrecognized] {
        let found = store().with_backup(file).backup_status_at(1).unwrap();
        assert!(!found.0);
        assert!(found.1.is_none());
    }
    assert!(!store().with_backup(BackupFile::Missing).backup_exists());
    assert!(store().with_backup(BackupFile::Unrecognized).backup_exists());
}

#[test]
fn unreadable_backup_is_an_error() {
    let store = store().with_backup(BackupFile::Unreadable("busy".to_string()));
    match store.backup_status_at(1) {
        Err(AppError::Io(why)) => assert_eq!(why, "busy"),
        other => panic!("{:?}", other),
    }
    assert!(matches!(store.has_valid_anthropic_backup(), Err(AppError::Io(_))));
    assert!(store.backup_exists());
}

#[test]
fn tagged_backup_is_valid_for_the_default_provider_only() {
    let store = store().with_backup(BackupFile::Tagged(backup_of("anthropic", Some(7), &[("A", "1")])));
    let (valid, backup) = store.backup_status_at(99).unwrap();
    let backup = backup.unwrap();
    assert!(valid);
    assert_eq!(backup.metadata.provider, "anthropic");
    assert_eq!(backup.metadata.created_at, Some(7));
    assert_eq!(backup.metadata.version, "2.2.0");
    assert_eq!(sorted_pairs(&backup.env), vec![("A".to_string(), "1".to_string())]);

    for tag in ["z_ai", "custom", "unknown", "Anthropic", ""] {
        let store = self::store().with_backup(BackupFile::Tagged(backup_of(tag, None, &[("A", "1")])));
        let (valid, backup) = store.backup_status_at(99).unwrap();
        assert!(!valid, "{}", tag);
        let backup = backup.unwrap();
        assert_eq!(backup.metadata.provider, tag);
        assert_eq!(backup.metadata.created_at, None);
    }
}

#[test]
fn legacy_backup_gets_metadata_made_up() {
    let store = store().with_backup(BackupFile::Legacy(config_of(&[("A", "1"), ("B", "2")])));
    let (valid, backup) = store.backup_status_at(1234).unwrap();
    let backup = backup.unwrap();
    assert!(valid);
    assert_eq!(backup.metadata.provider, "anthropic");
    assert_eq!(backup.metadata.created_at, Some(1234));
    assert_eq!(backup.metadata.version, "2.2.0");
    assert_eq!(
        sorted_pairs(&backup.env),
        vec![("A".to_string(), "1".to_string()), ("B".to_string(), "2".to_string())]
    );
}

#[test]
fn legacy_backup_is_dated_now() {
    let store = store().with_backup(BackupFile::Legacy(config_of(&[("A", "1")])));
    let before = chrono::Utc::now().timestamp();
    let (valid, backup) = store.has_valid_anthropic_backup().unwrap();
    let after = chrono::Utc::now().timestamp();
    let backup = backup.unwrap();
    assert!(valid);
    assert_eq!(backup.metadata.provider, "anthropic");
    assert_eq!(backup.metadata.version, "2.2.0");
    let created_at = backup.metadata.created_at.unwrap();
    assert!(before <= created_at && created_at <= after);
    assert_eq!(sorted_pairs(&backup.env), vec![("A".to_string(), "1".to_string())]);
}

#[test]
fn creating_a_backup_writes_backup_and_metadata() {
    let config = config_of(&[("A", "1"), ("ANTHROPIC_AUTH_TOKEN", "t")]);
    let mut store = store().with_backup(BackupFile::Tagged(backup_of("z_ai", Some(1), &[("OLD", "x")])));
    store.create_backup_at(&config, &Provider::Anthropic, 42);
    let (valid, backup) = store.backup_status_at(500).unwrap();
    let backup = backup.unwrap();
    assert!(valid);
    assert_eq!(backup.metadata.created_at, Some(42));
    assert_eq!(sorted_pairs(&backup.env), sorted_pairs(&config.env));
    let changes = store.take_changes();
    assert_eq!(changes.len(), 2);
    match &changes[0] {
        StoreChange::WriteBackup(written) => {
            assert_eq!(written.metadata.provider, "anthropic");
            assert_eq!(written.metadata.created_at, Some(42));
            assert_eq!(written.metadata.version, "2.2.0");
            assert_eq!(sorted_pairs(&written.env), sorted_pairs(&config.env));
        }
        other => panic!("{:?}", other),
    }
    match &changes[1] {
        StoreChange::WriteBackupMetadata(metadata) => {
            assert_eq!(metadata.provider, "anthropic");
            assert_eq!(metadata.created_at, Some(42));
            assert_eq!(metadata.version, "2.2.0");
        }
        other => panic!("{:?}", other),
    }
}

#[test]
fn backup_is_tagged_with_the_provider_given() {
    let mut store = store();
    store.create_backup_at(&config_of(&[("A", "1")]), &Provider::Custom, 3);
    let (valid, backup) = store.backup_status_at(4).unwrap();
    assert!(!valid);
    assert_eq!(backup.unwrap().metadata.provider, "custom");
}

#[test]
fn backup_made_now_is_dated_now() {
    let mut store = store();
    let before = chrono::Utc::now().timestamp();
    store.create_backup_with_metadata(&config_of(&[("A", "1")]), &Provider::Anthropic);
    let after = chrono::Utc::now().timestamp();
    let (valid, backup) = store.backup_status_at(0).unwrap();
    assert!(valid);
    let created_at = backup.unwrap().metadata.created_at.unwrap();
    assert!(before <= created_at && created_at <= after);
    assert_eq!(store.pending_changes().len(), 2);
}

#[test]
fn saved_token_is_trimmed_on_load() {
    let store = store().with_token(TokenFile::Text("  sk-test1234 \n".to_string()));
    assert_eq!(store.load_saved_token().unwrap(), Some("sk-test1234".to_string()));
    let store = self::store().with_token(TokenFile::Text("\u{a0}a b\u{3000}\t".to_string()));
    assert_eq!(store.load_saved_token().unwrap(), Some("a b".to_string()));
    let store = self::store().with_token(TokenFile::Text("token".to_string()));
    assert_eq!(store.load_saved_token().unwrap(), Some("token".to_string()));
}

#[test]
fn blank_token_file_is_no_token() {
    for text in ["", " ", "\n", " \t\r\n "] {
        let store = store().with_token(TokenFile::Text(text.to_string()));
        assert_eq!(store.load_saved_token().unwrap(), None);
    }
}

#[test]
fn unreadable_token_file_is_an_error() {
    let store = store().with_token(TokenFile::Unreadable("denied".to_string()));
    match store.load_saved_token() {
        Err(AppError::Io(why)) => assert_eq!(why, "denied"),
        other => panic!("{:?}", other),
    }
}

#[test]
fn saving_a_token_keeps_it_as_it_is() {
    let mut store = store();
    store.save_token(" raw token ");
    assert_eq!(store.load_saved_token().unwrap(), Some("raw token".to_string()));
    let changes = store.take_changes();
    assert_eq!(changes.len(), 1);
    match &changes[0] {
        StoreChange::WriteToken(text) => assert_eq!(text, " raw token "),
        other => panic!("{:?}", other),
    }
}

#[test]
fn removing_a_token() {
    let mut store = store().with_token(TokenFile::Text("t".to_string()));
    store.remove_saved_token();
    assert_eq!(store.load_saved_token().unwrap(), None);
    assert!(matches!(store.take_changes().as_slice(), [StoreChange::RemoveToken]));

    let mut store = self::store().with_token(TokenFile::Unreadable("denied".to_string()));
    store.remove_saved_token();
    assert_eq!(store.load_saved_token().unwrap(), None);
    assert!(matches!(store.take_changes().as_slice(), [StoreChange::RemoveToken]));
}

#[test]
fn removing_a_token_that_is_not_there_does_nothing() {
    let mut store = store();
    store.remove_saved_token();
    assert_eq!(store.load_saved_token().unwrap(), None);
    assert!(store.pending_changes().is_empty());
}

#[test]
fn changes_are_handed_out_once_in_order() {
    let mut store = store();
    store.save_token("t");
    store.save_current_config(&config_of(&[("A", "1")]));
    store.remove_saved_token();
    assert_eq!(store.pending_changes().len(), 3);
    let changes = store.take_changes();
    assert!(matches!(
        changes.as_slice(),
        [StoreChange::WriteToken(_), StoreChange::WriteSettings(_), StoreChange::RemoveToken]
    ));
    assert!(store.pending_changes().is_empty());
    assert!(store.take_changes().is_empty());
    assert_eq!(
        sorted_pairs(&store.load_current_config().unwrap().env),
        vec![("A".to_string(), "1".to_string())]
    );
}
