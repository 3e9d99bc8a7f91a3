use vstd::prelude::*;

use crate::action::{action_of, Action};
use crate::message::{ActionCall, PluginContext, RawMessage};
use crate::plugin::{Execute, PluginDescriptor};
use crate::registry::{names_unique, position_of, routed};
use crate::types::{status_spec, Error, Handle, Int, STAT_GENERIC_FAILURE, STAT_REPLY_DEFAULT};

verus! {

/// Dispatching never changes what the host reads about any plugin: the
/// identity at each index stays the same.
pub proof fn lemma_dispatch_keeps_identity<C: Execute>(
    old: Seq<PluginDescriptor<C>>,
    m: Seq<char>,
    message: RawMessage,
    new: Seq<PluginDescriptor<C>>,
    r: Result<Int, Error>,
)
    requires
        routed(old, m, message, new, r),
    ensures
        new.len() == old.len(),
        forall|i: int| 0 <= i < old.len() ==> #[trigger] new[i].descriptor == old[i].descriptor,
{
    assert forall|i: int| 0 <= i < old.len() implies #[trigger] new[i].descriptor == old[i].descriptor by {
        if let Some(k) = position_of(old, m) {
            if i != k {
                assert(new[i] == old[i]);
            }
        }
    }
}

/// A message for a registered module reaches the entry registered under that
/// name, and no other entry changes.
pub proof fn lemma_routes_to_named_entry<C: Execute>(
    old: Seq<PluginDescriptor<C>>,
    m: Seq<char>,
    message: RawMessage,
    new: Seq<PluginDescriptor<C>>,
    r: Result<Int, Error>,
)
    requires
        names_unique(old),
        position_of(old, m).is_some(),
        routed(old, m, message, new, r),
    ensures
        ({
            let i = position_of(old, m).unwrap();
            &&& 0 <= i < old.len()
            &&& old[i].descriptor.module_name@ == m
            &&& forall|j: int| 0 <= j < old.len() && old[j].descriptor.module_name@ == m ==> j == i
            &&& old[i].dispatch_spec(message, new[i], r)
            &&& forall|j: int| 0 <= j < old.len() && j != i ==> #[trigger] new[j] == old[j]
        }),
{
    let i = position_of(old, m).unwrap();
    assert forall|j: int| 0 <= j < old.len() && old[j].descriptor.module_name@ == m implies j == i by {
        crate::registry::lemma_position_of_entry(old, j);
    }
}

/// A message for a module that nobody registered, whatever its kind, is
/// answered with `PluginNotFound`, the generic failure status, and no change.
pub proof fn lemma_unknown_module<C: Execute>(
    old: Seq<PluginDescriptor<C>>,
    m: Seq<char>,
    message: RawMessage,
    new: Seq<PluginDescriptor<C>>,
    r: Result<Int, Error>,
)
    requires
        position_of(old, m).is_none(),
        routed(old, m, message, new, r),
    ensures
        r == Err::<Int, Error>(Error::PluginNotFound),
        status_spec(r) == STAT_GENERIC_FAILURE,
        new == old,
{
}

/// An action that the catalog does not know is answered with "not handled",
/// which is not a failure, and changes nothing.
pub proof fn lemma_unknown_action<C: Execute>(
    old: Seq<PluginDescriptor<C>>,
    m: Seq<char>,
    action: String,
    handle: Handle,
    in_args: Handle,
    out_args: Handle,
    new: Seq<PluginDescriptor<C>>,
    r: Result<Int, Error>,
)
    requires
        position_of(old, m).is_some(),
        action_of(action@).is_none(),
        routed(old, m, (RawMessage::MainEntry { action, handle, in_args, out_args }), new, r),
    ensures
        r == Err::<Int, Error>(Error::UnsupportedAction),
        status_spec(r) == STAT_REPLY_DEFAULT,
        status_spec(r) != STAT_GENERIC_FAILURE,
        new == old,
{
    let i = position_of(old, m).unwrap();
    assert(new =~= old) by {
        assert forall|j: int| 0 <= j < old.len() implies new[j] == old[j] by {
            if j != i {
                assert(new[j] == old[j]);
            }
        }
    }
}

/// A recognised action for a registered plugin whose host services are
/// installed reaches that plugin with the host and the request's handles, and
/// the plugin's answer, a failure included, is what comes back: a failure of
/// the plugin gives the generic failure status.
pub proof fn lemma_plugin_answer_reaches_host<C: Execute>(
    old: Seq<PluginDescriptor<C>>,
    m: Seq<char>,
    action: String,
    handle: Handle,
    in_args: Handle,
    out_args: Handle,
    new: Seq<PluginDescriptor<C>>,
    r: Result<Int, Error>,
    i: int,
    a: Action,
    host: Handle,
)
    requires
        position_of(old, m) == Some(i),
        action_of(action@) == Some(a),
        old[i].host == Some(host),
        routed(old, m, (RawMessage::MainEntry { action, handle, in_args, out_args }), new, r),
    ensures
        old[i].instance.handled(
            (PluginContext { host }),
            (ActionCall { action: a, handle, in_args, out_args }),
            &new[i].instance,
            r,
        ),
        new[i].host == Some(host),
        forall|e: Error| r == Err::<Int, Error>(e) && e != Error::UnsupportedAction
            ==> status_spec(r) == STAT_GENERIC_FAILURE,
        forall|s: Int| r == Ok::<Int, Error>(s) ==> status_spec(r) == s,
{
}

} // verus!
