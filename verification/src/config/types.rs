use vstd::prelude::*;
use crate::config::env_map::EnvMap;

verus! {

/// The format version written into backup metadata.
pub const BACKUP_FORMAT_VERSION: &'static str = "2.2.0";

/// The settings of the assistant: its environment block.
///
/// The empty block is a valid value and stands for "nothing configured".
#[derive(Debug)]
pub struct Config {
    pub env: EnvMap,
}

impl View for Config {
    type V = Map<Seq<char>, Seq<char>>;

    open spec fn view(&self) -> Map<Seq<char>, Seq<char>> {
        self.env@
    }
}

impl Default for Config {
    fn default() -> (config: Self)
        ensures
            config@ == Map::<Seq<char>, Seq<char>>::empty(),
    {
        Config { env: EnvMap::new() }
    }
}

impl Clone for Config {
    fn clone(&self) -> (copy: Self)
        ensures
            copy@ == self@,
    {
        Config { env: self.env.clone() }
    }
}

/// Where a backup came from, as a mathematical value.
pub struct BackupMetadataView {
    pub provider: Seq<char>,
    pub created_at: Option<i64>,
    pub version: Seq<char>,
}

/// Where a backup came from.
#[derive(Debug)]
pub struct BackupMetadata {
    /// The tag of the provider whose configuration was saved.
    pub provider: String,
    /// When the backup was made, in seconds since the Unix epoch.
    pub created_at: Option<i64>,
    /// The format version of the backup.
    pub version: String,
}

impl View for BackupMetadata {
    type V = BackupMetadataView;

    open spec fn view(&self) -> BackupMetadataView {
        BackupMetadataView {
            provider: self.provider@,
            created_at: self.created_at,
            version: self.version@,
        }
    }
}

impl Clone for BackupMetadata {
    fn clone(&self) -> (copy: Self)
        ensures
            copy@ == self@,
    {
        BackupMetadata {
            provider: self.provider.clone(),
            created_at: self.created_at,
            version: self.version.clone(),
        }
    }
}

/// A saved configuration with its metadata, as a mathematical value.
pub struct BackupConfigView {
    pub metadata: BackupMetadataView,
    pub env: Map<Seq<char>, Seq<char>>,
}

/// A saved configuration with its metadata.
#[derive(Debug)]
pub struct BackupConfig {
    pub metadata: BackupMetadata,
    pub env: EnvMap,
}

impl View for BackupConfig {
    type V = BackupConfigView;

    open spec fn view(&self) -> BackupConfigView {
        BackupConfigView { metadata: self.metadata@, env: self.env@ }
    }
}

impl Clone for BackupConfig {
    fn clone(&self) -> (copy: Self)
        ensures
            copy@ == self@,
    {
        BackupConfig { metadata: self.metadata.clone(), env: self.env.clone() }
    }
}

/// The provider a configuration points at.
#[derive(Debug, Clone, Copy, PartialEq, Eq, Structural)]
pub enum Provider {
    /// The default provider: no base URL is set.
    Anthropic,
    /// The alternate, key-based provider.
    ZAI,
    /// Some other endpoint.
    Custom,
    /// Nothing is configured.
    Unknown,
}

/// What a token looks like, judged by its text alone.
#[derive(Debug, Clone, Copy, PartialEq, Eq, Structural)]
pub enum TokenType {
    /// An API key of the alternate provider.
    ZAI,
    /// A web login token of the default provider.
    Anthropic,
    /// Neither shape.
    Unknown,
}

impl Provider {
    /// The tag under which the provider is written into backup metadata.
    pub open spec fn tag(self) -> Seq<char> {
        match self {
            Provider::Anthropic => "anthropic"@,
            Provider::ZAI => "z_ai"@,
            Provider::Custom => "custom"@,
            Provider::Unknown => "unknown"@,
        }
    }

    pub fn as_str(&self) -> (tag: &'static str)
        ensures
            tag@ == self.tag(),
    {
        match self {
            Provider::Anthropic => "anthropic",
            Provider::ZAI => "z_ai",
            Provider::Custom => "custom",
            Provider::Unknown => "unknown",
        }
    }
}

} // verus!
