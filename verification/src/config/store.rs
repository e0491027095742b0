//! What the configuration directory holds, as plain values, and the changes
//! that are made to it.
//!
//! The library never touches a file. Its caller reads the three files of the
//! directory into these values, and later carries out the changes that the
//! library has recorded.

use vstd::prelude::*;
use crate::config::types::BackupConfig;
use crate::config::types::BackupConfigView;
use crate::config::types::BackupMetadata;
use crate::config::types::BackupMetadataView;
use crate::config::types::Config;

verus! {

/// The settings file, as a mathematical value.
pub enum SettingsFileView {
    Missing,
    Unreadable(Seq<char>),
    Malformed(Seq<char>),
    Parsed(Map<Seq<char>, Seq<char>>),
}

/// The settings file as the caller found it.
#[derive(Debug)]
pub enum SettingsFile {
    /// There is no such file.
    Missing,
    /// The file is there and could not be read; the text says why.
    Unreadable(String),
    /// The file was read and is not JSON of the expected shape; the text
    /// says why.
    Malformed(String),
    /// The file holds this configuration.
    Parsed(Config),
}

impl View for SettingsFile {
    type V = SettingsFileView;

    open spec fn view(&self) -> SettingsFileView {
        match self {
            SettingsFile::Missing => SettingsFileView::Missing,
            SettingsFile::Unreadable(why) => SettingsFileView::Unreadable(why@),
            SettingsFile::Malformed(why) => SettingsFileView::Malformed(why@),
            SettingsFile::Parsed(config) => SettingsFileView::Parsed(config@),
        }
    }
}

/// The backup file, as a mathematical value.
pub enum BackupFileView {
    Missing,
    Unreadable(Seq<char>),
    Unrecognized,
    Legacy(Map<Seq<char>, Seq<char>>),
    Tagged(BackupConfigView),
}

/// The backup file as the caller found it.
#[derive(Debug)]
pub enum BackupFile {
    /// There is no such file.
    Missing,
    /// The file is there and could not be read; the text says why.
    Unreadable(String),
    /// The file was read and has neither of the two shapes.
    Unrecognized,
    /// The file is a bare configuration, written before backups carried
    /// metadata.
    Legacy(Config),
    /// The file is a configuration with its metadata.
    Tagged(BackupConfig),
}

impl View for BackupFile {
    type V = BackupFileView;

    open spec fn view(&self) -> BackupFileView {
        match self {
            BackupFile::Missing => BackupFileView::Missing,
            BackupFile::Unreadable(why) => BackupFileView::Unreadable(why@),
            BackupFile::Unrecognized => BackupFileView::Unrecognized,
            BackupFile::Legacy(config) => BackupFileView::Legacy(config@),
            BackupFile::Tagged(backup) => BackupFileView::Tagged(backup@),
        }
    }
}

/// The backup file that two readings of one text amount to: the reading
/// with metadata wins, the bare one is the fallback.
pub open spec fn backup_of_readings(
    tagged: Option<BackupConfigView>,
    legacy: Option<Map<Seq<char>, Seq<char>>>,
) -> BackupFileView {
    match tagged {
        Some(backup) => BackupFileView::Tagged(backup),
        None => match legacy {
            Some(env) => BackupFileView::Legacy(env),
            None => BackupFileView::Unrecognized,
        },
    }
}

impl BackupFile {
    /// Decides what a backup file is from the two ways of reading its text:
    /// as a configuration with metadata, and as a bare configuration.
    pub fn from_readings(tagged: Option<BackupConfig>, legacy: Option<Config>) -> (file: Self)
        ensures
            file@ == backup_of_readings(
                match tagged {
                    Some(backup) => Some(backup@),
                    None => None,
                },
                match legacy {
                    Some(config) => Some(config@),
                    None => None,
                },
            ),
    {
        match tagged {
            Some(backup) => BackupFile::Tagged(backup),
            None => match legacy {
                Some(config) => BackupFile::Legacy(config),
                None => BackupFile::Unrecognized,
            },
        }
    }
}

/// The saved-token file, as a mathematical value.
pub enum TokenFileView {
    Missing,
    Unreadable(Seq<char>),
    Text(Seq<char>),
}

/// The saved-token file as the caller found it.
#[derive(Debug)]
pub enum TokenFile {
    /// There is no such file.
    Missing,
    /// The file is there and could not be read; the text says why.
    Unreadable(String),
    /// The file holds this text.
    Text(String),
}

impl View for TokenFile {
    type V = TokenFileView;

    open spec fn view(&self) -> TokenFileView {
        match self {
            TokenFile::Missing => TokenFileView::Missing,
            TokenFile::Unreadable(why) => TokenFileView::Unreadable(why@),
            TokenFile::Text(text) => TokenFileView::Text(text@),
        }
    }
}

/// A change to the directory, as a mathematical value.
pub enum StoreChangeView {
    WriteSettings(Map<Seq<char>, Seq<char>>),
    WriteBackup(BackupConfigView),
    WriteBackupMetadata(BackupMetadataView),
    WriteToken(Seq<char>),
    RemoveToken,
}

/// A change to the directory that the caller has to carry out.
#[derive(Debug)]
pub enum StoreChange {
    /// Replace the settings file by this configuration, atomically.
    WriteSettings(Config),
    /// Replace the backup file by this backup, atomically.
    WriteBackup(BackupConfig),
    /// Replace the file beside the backup by this metadata, atomically.
    WriteBackupMetadata(BackupMetadata),
    /// Replace the saved-token file by this text, readable and writable by
    /// its owner alone.
    WriteToken(String),
    /// Delete the saved-token file.
    RemoveToken,
}

impl View for StoreChange {
    type V = StoreChangeView;

    open spec fn view(&self) -> StoreChangeView {
        match self {
            StoreChange::WriteSettings(config) => StoreChangeView::WriteSettings(config@),
            StoreChange::WriteBackup(backup) => StoreChangeView::WriteBackup(backup@),
            StoreChange::WriteBackupMetadata(metadata) => StoreChangeView::WriteBackupMetadata(
                metadata@,
            ),
            StoreChange::WriteToken(token) => StoreChangeView::WriteToken(token@),
            StoreChange::RemoveToken => StoreChangeView::RemoveToken,
        }
    }
}

/// The views of a list of changes, in order.
pub open spec fn changes_view(changes: Seq<StoreChange>) -> Seq<StoreChangeView> {
    Seq::new(changes.len(), |i: int| changes[i]@)
}

} // verus!
