mod action;
mod global;
mod laws;
mod message;
mod plugin;
mod registry;
mod types;

pub use action::{action_of, action_spec_name, lemma_action_of_name, lemma_names_distinct, Action};
pub use global::{lemma_init_idempotent, GlobalRegistry};
pub use laws::{
    lemma_dispatch_keeps_identity, lemma_plugin_answer_reaches_host, lemma_routes_to_named_entry,
    lemma_unknown_action, lemma_unknown_module,
};
pub use message::{ActionCall, PluginContext, RawMessage};
pub use plugin::{Descriptor, Execute, PluginDescriptor};
pub use registry::{
    indices_match, lemma_map_matches_entries, lemma_position_of_entry, main_entry_for_plugin,
    module_map, module_names, names_unique, position_of, registry_valid, routed, set_host_for_plugin,
    Registry,
};
pub use types::{
    status_of, status_spec, ApiVersion, Error, Handle, Int, PluginVersion, STAT_FAILED,
    STAT_GENERIC_FAILURE, STAT_OK, STAT_REPLY_DEFAULT,
};
