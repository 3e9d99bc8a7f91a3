use vstd::prelude::*;

use crate::action::Action;
use crate::types::Handle;

verus! {

/// A host call, as it arrives at one of a module's entry points.
#[derive(Debug)]
pub enum RawMessage {
    /// The host hands over its services.
    SetHost { host: Handle },
    /// The host requests a named action with three opaque handles: the
    /// instance, the input property set and the output property set.
    MainEntry { action: String, handle: Handle, in_args: Handle, out_args: Handle },
}

/// A recognised action together with the handles it came with.
#[derive(Clone, Copy, Debug, PartialEq, Eq, Structural)]
pub struct ActionCall {
    pub action: Action,
    pub handle: Handle,
    pub in_args: Handle,
    pub out_args: Handle,
}

/// What a plugin gets to know about the host while it handles an action.
#[derive(Clone, Copy, Debug, PartialEq, Eq, Structural)]
pub struct PluginContext {
    pub host: Handle,
}

} // verus!
