use vstd::prelude::*;

verus! {

/// The integer type of the host ABI's status codes and counts.
pub type Int = i32;

/// The host-owned address of an opaque object (host services, an instance,
/// a property set). The library never reads through it.
pub type Handle = usize;

/// Status: the action was performed.
pub const STAT_OK: Int = 0;

/// Status: the action failed.
pub const STAT_FAILED: Int = 1;

/// Status: the action was not handled, and the host should apply its default.
pub const STAT_REPLY_DEFAULT: Int = 14;

/// Status returned at the ABI boundary for every failure of the dispatch layer.
pub const STAT_GENERIC_FAILURE: Int = -1;

/// Version of the plugin API that a plugin was written against.
#[derive(Clone, Copy, Debug, PartialEq, Eq, Structural)]
pub struct ApiVersion(pub Int);

/// Version of a plugin, as major and minor number.
#[derive(Clone, Copy, Debug, PartialEq, Eq, Structural)]
pub struct PluginVersion(pub u32, pub u32);

/// Failures of the dispatch layer and of plugins.
#[derive(Clone, Copy, Debug, PartialEq, Eq, Structural)]
pub enum Error {
    /// No plugin is registered under the requested module name.
    PluginNotFound,
    /// The process-wide registry was used before it was built.
    NotInitialized,
    /// An action arrived before the host installed its services.
    HostNotReady,
    /// The action is not recognised; the host should apply its default.
    UnsupportedAction,
    /// The plugin's own logic failed, with a diagnostic code.
    ActionFailed(Int),
}

/// The status integer that the host sees for the outcome of a dispatch.
pub open spec fn status_spec(r: Result<Int, Error>) -> Int {
    match r {
        Ok(status) => status,
        Err(Error::UnsupportedAction) => STAT_REPLY_DEFAULT,
        Err(_) => STAT_GENERIC_FAILURE,
    }
}

/// Collapses the outcome of a dispatch into the status integer of the host ABI.
pub fn status_of(r: Result<Int, Error>) -> (s: Int)
    ensures
        s == status_spec(r),
{
    match r {
        Ok(status) => status,
        Err(Error::UnsupportedAction) => STAT_REPLY_DEFAULT,
        Err(_) => STAT_GENERIC_FAILURE,
    }
}

} // verus!
