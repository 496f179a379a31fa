use vstd::prelude::*;
use crate::text::{starts_with, is_prefix};

verus! {

/// Top-level bot settings, each section falling back to its defaults.
#[derive(Debug, Clone)]
pub struct Settings {
    pub bot: BotConfig,
    pub bluesky: BlueskyConfig,
    pub database: DatabaseConfig,
    pub logging: LoggingConfig,
}

/// Identity of the bot account.
#[derive(Debug, Clone)]
pub struct BotConfig {
    pub name: String,
    pub did: String,
}

/// Credentials and PDS host of the Bluesky account.
#[derive(Debug, Clone)]
pub struct BlueskyConfig {
    pub handle: String,
    pub app_password: String,
    pub pds_host: String,
}

/// Location of the SQLite database file.
#[derive(Debug, Clone)]
pub struct DatabaseConfig {
    pub path: String,
}

/// Log level and format.
#[derive(Debug, Clone)]
pub struct LoggingConfig {
    pub level: String,
    pub format: LogFormat,
}

/// Log output format.
#[derive(Debug, Clone, Copy, PartialEq, Eq)]
pub enum LogFormat {
    Pretty,
    Json,
}

pub open spec fn spec_default_bot_name() -> Seq<char> {
    "ThunderBot"@
}

pub open spec fn spec_default_pds_host() -> Seq<char> {
    "https://bsky.social"@
}

pub open spec fn spec_default_db_path() -> Seq<char> {
    "./data/thunderbot.db"@
}

pub open spec fn spec_default_log_level() -> Seq<char> {
    "info"@
}

fn default_bot_name() -> (r: String)
    ensures
        r@ == spec_default_bot_name(),
{
    "ThunderBot".to_owned()
}

fn default_pds_host() -> (r: String)
    ensures
        r@ == spec_default_pds_host(),
{
    "https://bsky.social".to_owned()
}

fn default_db_path() -> (r: String)
    ensures
        r@ == spec_default_db_path(),
{
    "./data/thunderbot.db".to_owned()
}

fn default_log_level() -> (r: String)
    ensures
        r@ == spec_default_log_level(),
{
    "info".to_owned()
}

impl Default for LogFormat {
    fn default() -> (r: Self)
        ensures
            r == LogFormat::Pretty,
    {
        LogFormat::Pretty
    }
}

impl Default for BotConfig {
    fn default() -> (r: Self)
        ensures
            r.name@ == spec_default_bot_name(),
            r.did@ == Seq::<char>::empty(),
    {
        BotConfig { name: default_bot_name(), did: String::new() }
    }
}

impl Default for BlueskyConfig {
    fn default() -> (r: Self)
        ensures
            r.handle@ == Seq::<char>::empty(),
            r.app_password@ == Seq::<char>::empty(),
            r.pds_host@ == spec_default_pds_host(),
    {
        BlueskyConfig { handle: String::new(), app_password: String::new(), pds_host: default_pds_host() }
    }
}

impl Default for DatabaseConfig {
    fn default() -> (r: Self)
        ensures
            r.path@ == spec_default_db_path(),
    {
        DatabaseConfig { path: default_db_path() }
    }
}

impl Default for LoggingConfig {
    fn default() -> (r: Self)
        ensures
            r.level@ == spec_default_log_level(),
            r.format == LogFormat::Pretty,
    {
        LoggingConfig { level: default_log_level(), format: LogFormat::Pretty }
    }
}

impl Default for Settings {
    fn default() -> (r: Self)
        ensures
            r.bot.name@ == spec_default_bot_name(),
            r.bot.did@ == Seq::<char>::empty(),
            r.bluesky.handle@ == Seq::<char>::empty(),
            r.bluesky.app_password@ == Seq::<char>::empty(),
            r.bluesky.pds_host@ == spec_default_pds_host(),
            r.database.path@ == spec_default_db_path(),
            r.logging.level@ == spec_default_log_level(),
            r.logging.format == LogFormat::Pretty,
    {
        Settings {
            bot: BotConfig::default(),
            bluesky: BlueskyConfig::default(),
            database: DatabaseConfig::default(),
            logging: LoggingConfig::default(),
        }
    }
}

/// Configuration of the embedding provider.
#[derive(Debug, Clone)]
pub struct EmbeddingConfig {
    pub provider: String,
    pub base_url: String,
    pub model: String,
    pub dimensions: usize,
    pub batch_size: usize,
}

fn default_provider() -> (r: String)
    ensures
        r@ == "ollama"@,
{
    "ollama".to_owned()
}

fn default_base_url() -> (r: String)
    ensures
        r@ == "http://localhost:11434"@,
{
    "http://localhost:11434".to_owned()
}

fn default_model() -> (r: String)
    ensures
        r@ == "embeddinggemma"@,
{
    "embeddinggemma".to_owned()
}

fn default_dimensions() -> (r: usize)
    ensures
        r == 768,
{
    768
}

fn default_batch_size() -> (r: usize)
    ensures
        r == 32,
{
    32
}

impl Default for EmbeddingConfig {
    fn default() -> (r: Self)
        ensures
            r.provider@ == "ollama"@,
            r.base_url@ == "http://localhost:11434"@,
            r.model@ == "embeddinggemma"@,
            r.dimensions == 768,
            r.batch_size == 32,
    {
        EmbeddingConfig {
            provider: default_provider(),
            base_url: default_base_url(),
            model: default_model(),
            dimensions: default_dimensions(),
            batch_size: default_batch_size(),
        }
    }
}

/// The first rule that an embedding configuration breaks, in the order the
/// rules are checked, or `None` when it breaks none.
pub open spec fn embedding_config_error(c: EmbeddingConfig) -> Option<Seq<char>> {
    if c.provider@.len() == 0 {
        Some("embedding.provider must not be empty"@)
    } else if c.base_url@.len() == 0 {
        Some("embedding.base_url must not be empty"@)
    } else if !is_prefix("http://"@, c.base_url@) && !is_prefix("https://"@, c.base_url@) {
        Some("embedding.base_url must start with http:// or https://"@)
    } else if c.model@.len() == 0 {
        Some("embedding.model must not be empty"@)
    } else if c.dimensions == 0 {
        Some("embedding.dimensions must be greater than 0"@)
    } else if c.batch_size == 0 {
        Some("embedding.batch_size must be greater than 0"@)
    } else {
        None
    }
}

impl EmbeddingConfig {
    /// Checks the configuration; the error names the first rule it breaks.
    pub fn validate(&self) -> (r: Result<(), String>)
        ensures
            r is Ok <==> embedding_config_error(*self) is None,
            r matches Err(msg) ==> embedding_config_error(*self) == Some(msg@),
    {
        if self.provider.as_str().is_empty() {
            return Err("embedding.provider must not be empty".to_owned());
        }
        if self.base_url.as_str().is_empty() {
            return Err("embedding.base_url must not be empty".to_owned());
        }
        if !starts_with(self.base_url.as_str(), "http://") && !starts_with(self.base_url.as_str(), "https://") {
            return Err("embedding.base_url must start with http:// or https://".to_owned());
        }
        if self.model.as_str().is_empty() {
            return Err("embedding.model must not be empty".to_owned());
        }
        if self.dimensions == 0 {
            return Err("embedding.dimensions must be greater than 0".to_owned());
        }
        if self.batch_size == 0 {
            return Err("embedding.batch_size must be greater than 0".to_owned());
        }
        Ok(())
    }
}

} // verus!
