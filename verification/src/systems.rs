//! Configuration skeletons of the systems built on this core. Each system
//! validates and stores its configuration here; the work the systems do is
//! their own and happens outside this library.

use vstd::prelude::*;

use crate::error::SystemResult;

verus! {

/// Chaos engine configuration.
#[derive(Debug, Clone)]
pub struct ChaosEngineConfig {
    /// Maximum concurrent fault injections.
    pub max_concurrent_faults: usize,
    /// Observer polling interval in milliseconds.
    pub observer_poll_interval_ms: u64,
}

impl Default for ChaosEngineConfig {
    /// Ten concurrent faults, polled every 100 ms.
    fn default() -> (c: Self)
        ensures
            c.max_concurrent_faults == 10,
            c.observer_poll_interval_ms == 100,
    {
        ChaosEngineConfig { max_concurrent_faults: 10, observer_poll_interval_ms: 100 }
    }
}

/// Fault-injection engine for resilience testing.
#[derive(Debug, Clone)]
pub struct ChaosEngine {
    /// The engine's configuration.
    pub config: ChaosEngineConfig,
}

impl ChaosEngine {
    /// Create a chaos engine from its configuration.
    pub fn new(config: ChaosEngineConfig) -> (r: SystemResult<ChaosEngine>)
        ensures
            r matches Ok(engine) && engine.config == config,
    {
        Ok(ChaosEngine { config })
    }
}

/// Compilation target of the contract compiler.
#[derive(Debug, Clone, Copy, PartialEq, Eq)]
pub enum CompilationTarget {
    /// Rust code generation.
    Rust,
    /// WebAssembly.
    Wasm,
}

/// Contract compiler configuration.
#[derive(Debug, Clone)]
pub struct CompilerConfig {
    /// Target compilation backend.
    pub target: CompilationTarget,
    /// Enable optimizations.
    pub optimize: bool,
}

impl Default for CompilerConfig {
    /// Optimized compilation to Rust.
    fn default() -> (c: Self)
        ensures
            c.target is Rust,
            c.optimize,
    {
        CompilerConfig { target: CompilationTarget::Rust, optimize: true }
    }
}

/// Compiler for executable contracts.
#[derive(Debug, Clone)]
pub struct ContractCompiler {
    /// The compiler's configuration.
    pub config: CompilerConfig,
}

impl ContractCompiler {
    /// Create a compiler from its configuration.
    pub fn new(config: CompilerConfig) -> (r: SystemResult<ContractCompiler>)
        ensures
            r matches Ok(compiler) && compiler.config == config,
    {
        Ok(ContractCompiler { config })
    }

    /// Compile contract source. Code generation is not built out yet: every
    /// source compiles to the same stub text.
    pub fn compile(&self, source: &str) -> (r: SystemResult<String>)
        ensures
            r matches Ok(out) && out@ == "// Compiled contract placeholder"@,
    {
        let _ = source;
        Ok("// Compiled contract placeholder".to_owned())
    }
}

/// Auto-learner configuration.
#[derive(Debug, Clone)]
pub struct AutoLearnerConfig {
    /// Model type.
    pub model_type: String,
}

impl Default for AutoLearnerConfig {
    /// The default model type.
    fn default() -> (c: Self)
        ensures
            c.model_type@ == "default"@,
    {
        AutoLearnerConfig { model_type: "default".to_owned() }
    }
}

/// Ledger configuration.
#[derive(Debug, Clone)]
pub struct LedgerConfig {
    /// Consensus timeout in milliseconds.
    pub consensus_timeout_ms: u64,
}

impl Default for LedgerConfig {
    /// Five-second consensus timeout.
    fn default() -> (c: Self)
        ensures
            c.consensus_timeout_ms == 5000,
    {
        LedgerConfig { consensus_timeout_ms: 5000 }
    }
}

/// Semantic lattice configuration.
#[derive(Debug, Clone)]
pub struct LatticeConfig {
    /// Maximum nodes.
    pub max_nodes: usize,
}

impl Default for LatticeConfig {
    /// Up to ten thousand nodes.
    fn default() -> (c: Self)
        ensures
            c.max_nodes == 10000,
    {
        LatticeConfig { max_nodes: 10000 }
    }
}

/// Cloud kernel configuration.
#[derive(Debug, Clone)]
pub struct CloudKernelConfig {
    /// Enable advanced features.
    pub advanced_features: bool,
}

impl Default for CloudKernelConfig {
    /// Advanced features off.
    fn default() -> (c: Self)
        ensures
            !c.advanced_features,
    {
        CloudKernelConfig { advanced_features: false }
    }
}

/// Parallel framework configuration. Its default worker count comes from the
/// machine's parallelism and is chosen outside the verified core.
#[derive(Debug, Clone)]
pub struct FrameworkConfig {
    /// Number of worker threads.
    pub workers: usize,
}

/// Symbolic modeler configuration.
#[derive(Debug, Clone)]
pub struct ModelerConfig {
    /// Enable optimizations.
    pub optimize: bool,
}

impl Default for ModelerConfig {
    /// Optimizations on.
    fn default() -> (c: Self)
        ensures
            c.optimize,
    {
        ModelerConfig { optimize: true }
    }
}

/// Pipeline engine configuration.
#[derive(Debug, Clone)]
pub struct PipelineConfig {
    /// Maximum pipeline stages.
    pub max_stages: usize,
}

impl Default for PipelineConfig {
    /// Up to one hundred stages.
    fn default() -> (c: Self)
        ensures
            c.max_stages == 100,
    {
        PipelineConfig { max_stages: 100 }
    }
}

/// Attestation authority configuration.
#[derive(Debug, Clone)]
pub struct AttestationConfig {
    /// Path of the authority's key, if one is stored.
    pub key_path: Option<String>,
}

impl Default for AttestationConfig {
    /// No key path.
    fn default() -> (c: Self)
        ensures
            c.key_path is None,
    {
        AttestationConfig { key_path: None }
    }
}

/// Attestation and verification authority.
#[derive(Debug, Clone)]
pub struct AttestationAuthority {
    /// The authority's configuration.
    pub config: AttestationConfig,
}

impl AttestationAuthority {
    /// Create an authority from its configuration.
    pub fn new(config: AttestationConfig) -> (r: SystemResult<AttestationAuthority>)
        ensures
            r matches Ok(authority) && authority.config == config,
    {
        Ok(AttestationAuthority { config })
    }
}

} // verus!
