use vstd::prelude::*;

use crate::action::{action_of, Action};
use crate::message::{ActionCall, PluginContext, RawMessage};
use crate::types::{ApiVersion, Error, Handle, Int, PluginVersion, STAT_OK};

verus! {

/// The behaviour of one plugin: it handles the actions routed to it.
pub trait Execute {
    /// What the plugin promises of handling `call` under `context`: it goes
    /// from `self` to `new` and answers `r`. A plugin that promises nothing
    /// keeps this default.
    open spec fn handled(&self, context: PluginContext, call: ActionCall, new: &Self, r: Result<Int, Error>) -> bool {
        true
    }

    fn execute(&mut self, context: &PluginContext, call: &ActionCall) -> (r: Result<Int, Error>)
        ensures
            old(self).handled(*context, *call, final(self), r),
    ;
}

/// The identity of a plugin, as the host reads it when it enumerates plugins.
#[derive(Debug)]
pub struct Descriptor {
    /// Position in the registry.
    pub index: usize,
    /// The module whose entry points lead to this plugin.
    pub module_name: String,
    /// The name shown to users.
    pub name: String,
    pub api_version: ApiVersion,
    pub plugin_version: PluginVersion,
}

/// One registered plugin: its identity, the host services once installed, and
/// its behaviour.
pub struct PluginDescriptor<C> {
    pub descriptor: Descriptor,
    pub host: Option<Handle>,
    pub instance: C,
}

impl<C> PluginDescriptor<C> {
    pub fn new(
        index: usize,
        module_name: &str,
        name: &str,
        api_version: ApiVersion,
        plugin_version: PluginVersion,
        instance: C,
    ) -> (r: Self)
        ensures
            r.descriptor.index == index,
            r.descriptor.module_name@ == module_name@,
            r.descriptor.name@ == name@,
            r.descriptor.api_version == api_version,
            r.descriptor.plugin_version == plugin_version,
            r.host.is_none(),
            r.instance == instance,
    {
        let descriptor = Descriptor {
            index,
            module_name: module_name.to_owned(),
            name: name.to_owned(),
            api_version,
            plugin_version,
        };
        PluginDescriptor { descriptor, host: None, instance }
    }

    /// The record that the host reads for this plugin.
    pub fn ofx_plugin(&self) -> (r: &Descriptor)
        ensures
            *r == self.descriptor,
    {
        &self.descriptor
    }

}

impl<C: Execute> PluginDescriptor<C> {
    /// How handling `message` takes this entry to `new` with result `r`. The
    /// identity never changes; an unknown action, or an action before the
    /// host's services, leaves the entry as it was; only a recognised action
    /// with the services installed reaches the plugin's behaviour, which gets
    /// the host and the recognised action with its handles, and whose answer
    /// comes back unchanged.
    pub open spec fn dispatch_spec(self, message: RawMessage, new: Self, r: Result<Int, Error>) -> bool {
        &&& new.descriptor == self.descriptor
        &&& match message {
            RawMessage::SetHost { host } => {
                &&& r == Ok::<Int, Error>(STAT_OK)
                &&& new.host == Some(host)
                &&& new.instance == self.instance
            },
            RawMessage::MainEntry { action, handle, in_args, out_args } => match action_of(action@) {
                None => r == Err::<Int, Error>(Error::UnsupportedAction) && new == self,
                Some(a) => match self.host {
                    None => r == Err::<Int, Error>(Error::HostNotReady) && new == self,
                    Some(h) => {
                        &&& new.host == self.host
                        &&& self.instance.handled(
                            (PluginContext { host: h }),
                            (ActionCall { action: a, handle, in_args, out_args }),
                            &new.instance,
                            r,
                        )
                    },
                },
            },
        }
    }

    /// Handles one host call for this plugin.
    pub fn dispatch(&mut self, message: RawMessage) -> (r: Result<Int, Error>)
        ensures
            old(self).dispatch_spec(message, *final(self), r),
    {
        match message {
            RawMessage::SetHost { host } => {
                self.host = Some(host);
                Ok(STAT_OK)
            },
            RawMessage::MainEntry { action, handle, in_args, out_args } => {
                match Action::from_name(action.as_str()) {
                    None => Err(Error::UnsupportedAction),
                    Some(a) => match self.host {
                        None => Err(Error::HostNotReady),
                        Some(host) => {
                            let context = PluginContext { host };
                            let call = ActionCall { action: a, handle, in_args, out_args };
                            self.instance.execute(&context, &call)
                        },
                    },
                }
            },
        }
    }
}

} // verus!
