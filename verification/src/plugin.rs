//! Plugins: what they say of themselves, and the registry that knows them.

use vstd::prelude::*;
use crate::strmap::{listed, placed_keys, StrMap};
use crate::text::{join2, lowercase, lowercase_text, replace_char, with_char_replaced};

verus! {

/// What a plugin can do.
#[derive(Clone, Copy, Debug, PartialEq, Eq, Structural, Hash)]
pub enum PluginCapability {
    Observation,
    Intervention,
    Analysis,
    Visualization,
}

/// What a plugin says of itself.
#[derive(Debug)]
pub struct PluginMetadata {
    pub id: String,
    pub name: String,
    pub version: String,
    pub author: String,
    pub capabilities: Vec<PluginCapability>,
    pub description: String,
}

/// What the metadata of a plugin holds.
pub struct PluginMetadataView {
    pub id: Seq<char>,
    pub name: Seq<char>,
    pub version: Seq<char>,
    pub author: Seq<char>,
    pub capabilities: Seq<PluginCapability>,
    pub description: Seq<char>,
}

impl View for PluginMetadata {
    type V = PluginMetadataView;

    open spec fn view(&self) -> PluginMetadataView {
        PluginMetadataView {
            id: self.id@,
            name: self.name@,
            version: self.version@,
            author: self.author@,
            capabilities: self.capabilities@,
            description: self.description@,
        }
    }
}

impl Clone for PluginMetadata {
    fn clone(&self) -> (r: Self)
        ensures
            r@ == self@,
    {
        let mut capabilities: Vec<PluginCapability> = Vec::new();
        let mut i: usize = 0;
        while i < self.capabilities.len()
            invariant
                i <= self.capabilities.len(),
                capabilities@ == self.capabilities@.subrange(0, i as int),
            decreases self.capabilities.len() - i,
        {
            capabilities.push(self.capabilities[i]);
            i += 1;
        }
        assert(self.capabilities@.subrange(0, self.capabilities@.len() as int)
            == self.capabilities@);
        PluginMetadata {
            id: self.id.clone(),
            name: self.name.clone(),
            version: self.version.clone(),
            author: self.author.clone(),
            capabilities,
            description: self.description.clone(),
        }
    }
}

/// What a plugin offers to the registry.
pub trait Plugin: Send + Sync {
    /// What the plugin says of itself.
    fn metadata(&self) -> &PluginMetadata;

    /// Runs the plugin on `input`.
    fn execute(&self, input: &str) -> Result<String, String>;
}

/// What the registry answers when it runs the plugin `plugin_id` on `input`.
pub open spec fn execution_report(plugin_id: Seq<char>, input: Seq<char>) -> Seq<char> {
    "Plugin "@ + plugin_id + " executed with input: "@ + input
}

/// What each metadata in `list` holds.
pub open spec fn metadata_views(list: Seq<PluginMetadata>) -> Seq<PluginMetadataView> {
    Seq::new(list.len(), |i: int| list[i]@)
}

/// Knows the plugins by id.
pub struct PluginRegistry {
    metadata: StrMap<PluginMetadata>,
}

impl View for PluginRegistry {
    type V = Map<Seq<char>, PluginMetadata>;

    closed spec fn view(&self) -> Map<Seq<char>, PluginMetadata> {
        self.metadata@
    }
}

impl PluginRegistry {
    /// The ids of the plugins, in the order in which they were first
    /// registered.
    pub closed spec fn ids(&self) -> Seq<Seq<char>> {
        self.metadata.keys()
    }

    /// The metadata in the order in which their ids were first registered.
    pub open spec fn listing(&self) -> Seq<PluginMetadata> {
        listed(self@, self.ids())
    }

    /// A registry without plugins.
    pub fn new() -> (r: Self)
        ensures
            r@ == Map::<Seq<char>, PluginMetadata>::empty(),
            r.ids() == Seq::<Seq<char>>::empty(),
    {
        PluginRegistry { metadata: StrMap::new() }
    }

    /// How many plugins are registered.
    pub fn plugin_count(&self) -> (n: usize)
        ensures
            n == self.ids().len(),
    {
        self.metadata.len()
    }

    /// Registers a plugin under its id, in place of the one that was there,
    /// if any.
    pub fn register_plugin(&mut self, metadata: PluginMetadata)
        ensures
            final(self)@ == old(self)@.insert(metadata.id@, metadata),
            final(self).ids() == placed_keys(old(self).ids(), metadata.id@),
    {
        self.metadata.insert(metadata.id.clone(), metadata);
    }

    /// The metadata of the plugin `plugin_id`.
    pub fn get_plugin_metadata(&self, plugin_id: &str) -> (r: Option<&PluginMetadata>)
        ensures
            match r {
                Some(metadata) => self@.contains_key(plugin_id@) && *metadata == self@[plugin_id@],
                None => !self@.contains_key(plugin_id@),
            },
    {
        self.metadata.get(plugin_id)
    }

    /// The metadata of every plugin, in the order in which their ids were
    /// first registered.
    pub fn list_plugins(&self) -> (r: Vec<&PluginMetadata>)
        ensures
            r@.len() == self.listing().len(),
            forall|i: int| 0 <= i < r@.len() ==> *(#[trigger] r@[i]) == self.listing()[i],
    {
        let mut r: Vec<&PluginMetadata> = Vec::new();
        let mut i: usize = 0;
        let n = self.metadata.len();
        proof {
            use_type_invariant(&self.metadata);
            self.metadata.lemma_listed();
        }
        while i < n
            invariant
                i <= n,
                n == self.listing().len(),
                self.listing() == self.metadata.values(),
                r@.len() == i,
                forall|j: int| 0 <= j < i ==> *(#[trigger] r@[j]) == self.listing()[j],
            decreases n - i,
        {
            r.push(self.metadata.value_at(i));
            i += 1;
        }
        r
    }

    /// Runs the plugin `plugin_id` on `input`; fails where no such plugin is
    /// registered.
    pub fn execute_plugin(&self, plugin_id: &str, input: &str) -> (r: Result<String, String>)
        ensures
            match r {
                Ok(report) => self@.contains_key(plugin_id@) && report@ == execution_report(
                    plugin_id@,
                    input@,
                ),
                Err(e) => !self@.contains_key(plugin_id@) && e@ == "Plugin not found"@,
            },
    {
        if self.metadata.contains_key(plugin_id) {
            let head = join2("Plugin ", plugin_id);
            let middle = join2(head.as_str(), " executed with input: ");
            Ok(join2(middle.as_str(), input))
        } else {
            Err("Plugin not found".to_string())
        }
    }
}

impl Default for PluginRegistry {
    fn default() -> (r: Self)
        ensures
            r@ == Map::<Seq<char>, PluginMetadata>::empty(),
            r.ids() == Seq::<Seq<char>>::empty(),
    {
        PluginRegistry::new()
    }
}

/// The id of an internal plugin, given the lower-case form of its name: the
/// form with an underscore for every space, behind `internal_`.
pub open spec fn internal_id(lowered_name: Seq<char>) -> Seq<char> {
    "internal_"@ + with_char_replaced(lowered_name, ' ', '_')
}

/// The metadata of the internal plugin called `name` by `author`.
pub open spec fn internal_metadata(name: Seq<char>, author: Seq<char>) -> PluginMetadataView {
    PluginMetadataView {
        id: internal_id(lowercase_text(name)),
        name,
        version: "1.0.0"@,
        author,
        capabilities: seq![PluginCapability::Observation, PluginCapability::Analysis],
        description: "Internal plugin prototype"@,
    }
}

/// The id of an internal plugin, given the lower-case form of its name.
pub fn internal_id_of(lowered_name: &str) -> (r: String)
    ensures
        r@ == internal_id(lowered_name@),
{
    let underscored = replace_char(lowered_name, ' ', '_');
    join2("internal_", underscored.as_str())
}

/// A plugin of the house.
pub struct InternalPlugin {
    metadata: PluginMetadata,
}

impl InternalPlugin {
    /// What the plugin says of itself.
    pub closed spec fn described(&self) -> PluginMetadata {
        self.metadata
    }

    /// The internal plugin called `name` by `author`.
    pub fn new(name: String, author: String) -> (r: Self)
        ensures
            r.described()@ == internal_metadata(name@, author@),
    {
        let lowered = lowercase(name.as_str());
        let mut capabilities: Vec<PluginCapability> = Vec::new();
        capabilities.push(PluginCapability::Observation);
        capabilities.push(PluginCapability::Analysis);
        assert(capabilities@ =~= seq![PluginCapability::Observation, PluginCapability::Analysis]);
        InternalPlugin {
            metadata: PluginMetadata {
                id: internal_id_of(lowered.as_str()),
                name,
                version: "1.0.0".to_string(),
                author,
                capabilities,
                description: "Internal plugin prototype".to_string(),
            },
        }
    }
}

impl Plugin for InternalPlugin {
    fn metadata(&self) -> (r: &PluginMetadata)
        ensures
            *r == self.described(),
    {
        &self.metadata
    }

    fn execute(&self, input: &str) -> (r: Result<String, String>)
        ensures
            r matches Ok(report) && report@ == "Internal plugin processed: "@ + input@,
    {
        Ok(join2("Internal plugin processed: ", input))
    }
}

} // verus!
