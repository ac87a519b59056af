//! Tests for the system configuration skeletons, the plugin metadata and
//! the common server configurations.

use shared_core::config::{DatabaseConfig, ServerConfig};
use shared_core::logging::LogFormat;
use shared_core::plugin::{PluginMetadata, PluginState};
use shared_core::systems::{
    AttestationAuthority, AttestationConfig, AutoLearnerConfig, ChaosEngine, ChaosEngineConfig,
    CloudKernelConfig, CompilationTarget, CompilerConfig, ContractCompiler, LatticeConfig,
    LedgerConfig, ModelerConfig, PipelineConfig,
};

#[test]
fn test_chaos_engine_creation() {
    let config = ChaosEngineConfig::default();
    let engine = ChaosEngine::new(config);
    assert!(engine.is_ok());
}

#[test]
fn test_compiler_creation() {
    let config = CompilerConfig::default();
    let compiler = ContractCompiler::new(config);
    assert!(compiler.is_ok());
}

#[test]
fn test_basic_compilation() {
    let config = CompilerConfig::default();
    let compiler = ContractCompiler::new(config).unwrap();
    let result = compiler.compile("contract Test {}");
    assert!(result.is_ok());
}

#[test]
fn lib_test_config_creation() {
    let auto_learner = AutoLearnerConfig::default();
    assert_eq!(auto_learner.model_type, "default");

    let ledger = LedgerConfig::default();
    assert_eq!(ledger.consensus_timeout_ms, 5000);

    let lattice = LatticeConfig::default();
    assert_eq!(lattice.max_nodes, 10000);

    let cloud_kernel = CloudKernelConfig::default();
    assert!(!cloud_kernel.advanced_features);

    let modeler = ModelerConfig::default();
    assert!(modeler.optimize);

    let pipeline = PipelineConfig::default();
    assert_eq!(pipeline.max_stages, 100);
}

#[test]
fn chaos_engine_defaults() {
    let config = ChaosEngineConfig::default();
    assert_eq!(config.max_concurrent_faults, 10);
    assert_eq!(config.observer_poll_interval_ms, 100);
}

#[test]
fn compiler_defaults_and_stub_output() {
    let config = CompilerConfig::default();
    assert_eq!(config.target, CompilationTarget::Rust);
    assert!(config.optimize);

    let compiler = ContractCompiler::new(config).unwrap();
    let out = compiler.compile("contract Test {}").unwrap();
    assert_eq!(out, "// Compiled contract placeholder");
}

#[test]
fn attestation_authority_creation() {
    let config = AttestationConfig::default();
    assert!(config.key_path.is_none());
    let authority = AttestationAuthority::new(config);
    assert!(authority.is_ok());
}

#[test]
fn server_config_defaults() {
    let config = ServerConfig::default();
    assert_eq!(config.host, "127.0.0.1");
    assert_eq!(config.port, 8080);
    assert!(config.workers.is_none());
    assert_eq!(config.timeout_secs, 30);
    assert_eq!(config.max_connections, 1000);
}

#[test]
fn database_config_defaults() {
    let config = DatabaseConfig::default();
    assert_eq!(config.url, "sqlite::memory:");
    assert_eq!(config.max_connections, 10);
    assert_eq!(config.min_connections, 2);
    assert_eq!(config.connect_timeout_secs, 5);
}

#[test]
fn test_plugin_metadata() {
    let metadata = PluginMetadata::new("test", "Test Plugin", "1.0.0")
        .with_capability("testing")
        .with_description("Test description")
        .with_author("Test Author");

    assert_eq!(metadata.id, "test");
    assert_eq!(metadata.name, "Test Plugin");
    assert_eq!(metadata.version, "1.0.0");
    assert_eq!(metadata.capabilities.len(), 1);
    assert_eq!(metadata.description, "Test description");
    assert_eq!(metadata.author, "Test Author");
}

#[test]
fn plugin_metadata_baseline_fields() {
    let metadata = PluginMetadata::new("p", "Plugin", "0.2.0");
    assert_eq!(metadata.author, "");
    assert_eq!(metadata.description, "");
    assert!(metadata.capabilities.is_empty());
    assert_eq!(metadata.min_system_version, "0.1.0");
}

#[test]
fn plugin_states_are_distinct() {
    assert_ne!(PluginState::Loaded, PluginState::Ready);
    assert_ne!(PluginState::Active, PluginState::Paused);
    assert_ne!(PluginState::Error, PluginState::Unloaded);
}

#[test]
fn log_format_names() {
    assert_eq!(LogFormat::Pretty.describe(), "pretty");
    assert_eq!(LogFormat::Json.describe(), "json");
    assert_eq!(LogFormat::Compact.describe(), "compact");
    assert_ne!(LogFormat::Pretty, LogFormat::Json);
}
