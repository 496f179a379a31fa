use tnbot_core::config::{BlueskyConfig, BotConfig, DatabaseConfig, EmbeddingConfig, LogFormat, LoggingConfig, Settings};
use tnbot_core::embedding::OllamaEmbeddingProvider;

#[test]
fn test_default_settings() {
    let settings = Settings::default();
    assert_eq!(settings.bot.name, "ThunderBot");
    assert_eq!(settings.bluesky.pds_host, "https://bsky.social");
    assert_eq!(settings.database.path, "./data/thunderbot.db");
    assert_eq!(settings.logging.level, "info");
}

#[test]
fn test_log_format_default() {
    let format = LogFormat::default();
    assert!(matches!(format, LogFormat::Pretty));
}

#[test]
fn test_bot_config_default() {
    let bot = BotConfig::default();
    assert_eq!(bot.name, "ThunderBot");
    assert_eq!(bot.did, "");
}

#[test]
fn test_bluesky_config_default() {
    let bsky = BlueskyConfig::default();
    assert_eq!(bsky.handle, "");
    assert_eq!(bsky.app_password, "");
    assert_eq!(bsky.pds_host, "https://bsky.social");
}

#[test]
fn test_database_config_default() {
    let db = DatabaseConfig::default();
    assert_eq!(db.path, "./data/thunderbot.db");
}

#[test]
fn test_logging_config_default() {
    let logging = LoggingConfig::default();
    assert_eq!(logging.level, "info");
    assert!(matches!(logging.format, LogFormat::Pretty));
}

#[test]
fn test_embedding_config_default() {
    let config = EmbeddingConfig::default();
    assert_eq!(config.provider, "ollama");
    assert_eq!(config.base_url, "http://localhost:11434");
    assert_eq!(config.model, "embeddinggemma");
    assert_eq!(config.dimensions, 768);
    assert_eq!(config.batch_size, 32);
}

#[test]
fn test_embedding_config_validation() {
    let mut config = EmbeddingConfig::default();
    assert!(config.validate().is_ok());

    config.provider = "".to_string();
    assert!(config.validate().is_err());

    config.provider = "ollama".to_string();
    config.base_url = "".to_string();
    assert!(config.validate().is_err());

    config.base_url = "http://localhost:11434".to_string();
    config.model = "".to_string();
    assert!(config.validate().is_err());

    config.model = "embeddinggemma".to_string();
    config.dimensions = 0;
    assert!(config.validate().is_err());

    config.dimensions = 768;
    config.batch_size = 0;
    assert!(config.validate().is_err());
}

#[test]
fn test_embedding_config_validation_invalid_url() {
    let config = EmbeddingConfig { base_url: "ftp://localhost:11434".to_string(), ..Default::default() };
    assert!(config.validate().is_err());
}

#[test]
fn embedding_config_errors_name_the_first_bad_field() {
    let mut config = EmbeddingConfig::default();
    config.provider = "".to_string();
    config.model = "".to_string();
    assert_eq!(config.validate(), Err("embedding.provider must not be empty".to_string()));

    let config = EmbeddingConfig { base_url: "".to_string(), ..Default::default() };
    assert_eq!(config.validate(), Err("embedding.base_url must not be empty".to_string()));

    let config = EmbeddingConfig { base_url: "localhost".to_string(), ..Default::default() };
    assert_eq!(config.validate(), Err("embedding.base_url must start with http:// or https://".to_string()));

    let config = EmbeddingConfig { base_url: "https://example.org".to_string(), ..Default::default() };
    assert_eq!(config.validate(), Ok(()));

    let config = EmbeddingConfig { model: "".to_string(), ..Default::default() };
    assert_eq!(config.validate(), Err("embedding.model must not be empty".to_string()));

    let config = EmbeddingConfig { dimensions: 0, ..Default::default() };
    assert_eq!(config.validate(), Err("embedding.dimensions must be greater than 0".to_string()));

    let config = EmbeddingConfig { batch_size: 0, ..Default::default() };
    assert_eq!(config.validate(), Err("embedding.batch_size must be greater than 0".to_string()));
}

#[test]
fn test_ollama_provider_creation() {
    let provider = OllamaEmbeddingProvider::default_embeddinggemma("http://localhost:11434".to_string());
    assert_eq!(provider.dimensions(), 768);
    assert_eq!(provider.model(), "embeddinggemma");
}

#[test]
fn test_ollama_provider_nomic() {
    let provider = OllamaEmbeddingProvider::default_nomic("http://localhost:11434".to_string());
    assert_eq!(provider.dimensions(), 768);
    assert_eq!(provider.model(), "nomic-embed-text");
}

#[test]
fn test_ollama_provider_custom() {
    let provider =
        OllamaEmbeddingProvider::new("http://ollama:11434".to_string(), "mxbai-embed-large".to_string(), 1024, 64);
    assert_eq!(provider.dimensions(), 1024);
    assert_eq!(provider.model(), "mxbai-embed-large");
    assert_eq!(provider.batch_size(), 64);
}

#[test]
fn ollama_provider_builders_and_url() {
    let provider = OllamaEmbeddingProvider::default_embeddinggemma("http://h:1".to_string())
        .with_max_retries(5)
        .with_base_delay(250);
    assert_eq!(provider.max_retries(), 5);
    assert_eq!(provider.base_delay_ms(), 250);
    assert_eq!(provider.base_url(), "http://h:1");
    assert_eq!(provider.embed_url(), "http://h:1/api/embed");
}

#[test]
fn create_provider_follows_the_configured_provider() {
    let config = EmbeddingConfig {
        model: "nomic-embed-text".to_string(),
        dimensions: 512,
        batch_size: 8,
        ..Default::default()
    };
    let p = config.create_provider();
    assert_eq!(p.model(), "nomic-embed-text");
    assert_eq!(p.dimensions(), 512);
    assert_eq!(p.batch_size(), 8);

    let config = EmbeddingConfig { provider: "openai".to_string(), dimensions: 12, ..Default::default() };
    let p = config.create_provider();
    assert_eq!(p.model(), "embeddinggemma");
    assert_eq!(p.dimensions(), 768);
    assert_eq!(p.batch_size(), 32);
    assert_eq!(p.base_url(), "http://localhost:11434");
}
