//! Plugin descriptions: the metadata and lifecycle states of the plugin
//! system. The registry that loads and drives plugins performs asynchronous
//! calls through trait objects and lives outside the verified core; the data
//! it manages is specified here.

use vstd::prelude::*;

verus! {

/// Plugin metadata.
#[derive(Debug, Clone)]
pub struct PluginMetadata {
    /// Unique plugin identifier.
    pub id: String,
    /// Human-readable plugin name.
    pub name: String,
    /// Plugin version.
    pub version: String,
    /// Plugin author.
    pub author: String,
    /// Plugin description.
    pub description: String,
    /// Plugin capabilities.
    pub capabilities: Vec<String>,
    /// Minimum system version required.
    pub min_system_version: String,
}

impl PluginMetadata {
    /// Create metadata from the identifier, name and version; the other
    /// fields start empty, with the minimum system version at its baseline.
    pub fn new(id: &str, name: &str, version: &str) -> (m: PluginMetadata)
        ensures
            m.id@ == id@,
            m.name@ == name@,
            m.version@ == version@,
            m.author@ == Seq::<char>::empty(),
            m.description@ == Seq::<char>::empty(),
            m.capabilities@ == Seq::<String>::empty(),
            m.min_system_version@ == "0.1.0"@,
    {
        PluginMetadata {
            id: id.to_owned(),
            name: name.to_owned(),
            version: version.to_owned(),
            author: String::new(),
            description: String::new(),
            capabilities: Vec::new(),
            min_system_version: "0.1.0".to_owned(),
        }
    }

    /// Add a capability; everything else stays unchanged.
    pub fn with_capability(self, capability: &str) -> (m: PluginMetadata)
        ensures
            m.capabilities@.len() == self.capabilities@.len() + 1,
            m.capabilities@[self.capabilities@.len() as int]@ == capability@,
            forall|i: int|
                0 <= i < self.capabilities@.len() ==> m.capabilities@[i] == self.capabilities@[i],
            m == (PluginMetadata { capabilities: m.capabilities, ..self }),
    {
        let mut m = self;
        m.capabilities.push(capability.to_owned());
        m
    }

    /// Set the description; everything else stays unchanged.
    pub fn with_description(self, description: &str) -> (m: PluginMetadata)
        ensures
            m.description@ == description@,
            m == (PluginMetadata { description: m.description, ..self }),
    {
        let mut m = self;
        m.description = description.to_owned();
        m
    }

    /// Set the author; everything else stays unchanged.
    pub fn with_author(self, author: &str) -> (m: PluginMetadata)
        ensures
            m.author@ == author@,
            m == (PluginMetadata { author: m.author, ..self }),
    {
        let mut m = self;
        m.author = author.to_owned();
        m
    }
}

/// Plugin lifecycle state.
#[derive(Debug, Clone, Copy, PartialEq, Eq)]
pub enum PluginState {
    /// Loaded but not initialized.
    Loaded,
    /// Initialized and ready.
    Ready,
    /// Active and running.
    Active,
    /// Paused.
    Paused,
    /// Failed.
    Error,
    /// Unloaded.
    Unloaded,
}

} // verus!
