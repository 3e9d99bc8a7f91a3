use ofx::{
    main_entry_for_plugin, set_host_for_plugin, status_of, Action, ActionCall, ApiVersion,
    Error, Execute, GlobalRegistry, Int, PluginContext, PluginVersion, RawMessage, Registry,
    STAT_FAILED, STAT_GENERIC_FAILURE, STAT_OK, STAT_REPLY_DEFAULT,
};

/// A plugin that records what reaches it.
#[derive(Debug, Default, Clone, PartialEq)]
struct Recorder {
    calls: Vec<(usize, Action)>,
    fail_with: Option<Int>,
}

impl Execute for Recorder {
    fn execute(&mut self, context: &PluginContext, call: &ActionCall) -> Result<Int, Error> {
        self.calls.push((context.host, call.action));
        match self.fail_with {
            Some(code) => Err(Error::ActionFailed(code)),
            None => Ok(STAT_OK),
        }
    }
}

fn render() -> RawMessage {
    RawMessage::MainEntry {
        action: "OfxImageEffectActionRender".to_string(),
        handle: 11,
        in_args: 12,
        out_args: 13,
    }
}

fn two_plugins() -> Registry<Recorder> {
    let mut registry = Registry::new();
    registry.add("blur", "Blur", ApiVersion(1), PluginVersion(1, 0), Recorder::default());
    registry.add("sharpen", "Sharpen", ApiVersion(1), PluginVersion(2, 3), Recorder::default());
    registry
}

#[test]
fn scenario_register_and_describe() {
    let mut registry = Registry::new();
    let index = registry.add("blur", "blur", ApiVersion(1), PluginVersion(1, 0), Recorder::default());
    assert_eq!(index, 0);
    assert_eq!(registry.count(), 1);
    let d = registry.ofx_plugin(0);
    assert_eq!(d.name, "blur");
    assert_eq!(d.module_name, "blur");
    assert_eq!(d.index, 0);
    assert_eq!(d.plugin_version, PluginVersion(1, 0));
    assert_eq!(d.api_version, ApiVersion(1));
}

#[test]
fn scenario_routing_leaves_other_plugin_untouched() {
    let mut registry = two_plugins();
    let blur_before = registry.get_plugin(0).instance.clone();
    assert_eq!(registry.dispatch("sharpen", RawMessage::SetHost { host: 77 }), Ok(STAT_OK));
    assert_eq!(registry.dispatch("sharpen", render()), Ok(STAT_OK));
    assert_eq!(registry.get_plugin(1).instance.calls, vec![(77, Action::Render)]);
    assert_eq!(registry.get_plugin(1).host, Some(77));
    assert_eq!(registry.get_plugin(0).instance, blur_before);
    assert_eq!(registry.get_plugin(0).host, None);
}

#[test]
fn scenario_action_before_host_fails() {
    let mut registry = two_plugins();
    let r = registry.dispatch("blur", render());
    assert_eq!(r, Err(Error::HostNotReady));
    assert_eq!(status_of(r), STAT_GENERIC_FAILURE);
    assert!(registry.get_plugin(0).instance.calls.is_empty());
    let status = main_entry_for_plugin(
        &mut registry,
        "blur",
        "OfxImageEffectActionRender".to_string(),
        1,
        2,
        3,
    );
    assert_eq!(status, -1);
}

#[test]
fn unknown_module_is_not_found_for_every_message() {
    let mut registry = two_plugins();
    assert_eq!(
        registry.dispatch("not-registered", RawMessage::SetHost { host: 1 }),
        Err(Error::PluginNotFound)
    );
    assert_eq!(registry.dispatch("not-registered", render()), Err(Error::PluginNotFound));
    let status = main_entry_for_plugin(
        &mut registry,
        "not-registered",
        "OfxActionLoad".to_string(),
        0,
        0,
        0,
    );
    assert_eq!(status, STAT_GENERIC_FAILURE);
    assert_eq!(registry.count(), 2);
}

#[test]
fn unknown_action_is_not_handled() {
    let mut registry = two_plugins();
    set_host_for_plugin(&mut registry, "blur", 5);
    let message = RawMessage::MainEntry {
        action: "OfxActionSomethingNew".to_string(),
        handle: 0,
        in_args: 0,
        out_args: 0,
    };
    let r = registry.dispatch("blur", message);
    assert_eq!(r, Err(Error::UnsupportedAction));
    assert_eq!(status_of(r), STAT_REPLY_DEFAULT);
    let status =
        main_entry_for_plugin(&mut registry, "blur", "no such action".to_string(), 0, 0, 0);
    assert_eq!(status, 14);
    assert!(registry.get_plugin(0).instance.calls.is_empty());
}

#[test]
fn set_host_then_action_reaches_plugin() {
    let mut registry = two_plugins();
    set_host_for_plugin(&mut registry, "blur", 42);
    assert_eq!(registry.get_plugin(0).host, Some(42));
    let status = main_entry_for_plugin(
        &mut registry,
        "blur",
        "OfxActionCreateInstance".to_string(),
        1,
        2,
        3,
    );
    assert_eq!(status, STAT_OK);
    assert_eq!(registry.get_plugin(0).instance.calls, vec![(42, Action::CreateInstance)]);
    assert!(registry.get_plugin(1).instance.calls.is_empty());
}

#[test]
fn plugin_failure_becomes_failure_status() {
    let mut registry = Registry::new();
    let failing = Recorder { calls: Vec::new(), fail_with: Some(STAT_FAILED) };
    registry.add("blur", "Blur", ApiVersion(1), PluginVersion(1, 0), failing);
    set_host_for_plugin(&mut registry, "blur", 9);
    assert_eq!(registry.dispatch("blur", render()), Err(Error::ActionFailed(1)));
    let status = main_entry_for_plugin(
        &mut registry,
        "blur",
        "OfxImageEffectActionRender".to_string(),
        0,
        0,
        0,
    );
    assert_eq!(status, STAT_GENERIC_FAILURE);
    assert_eq!(registry.get_plugin(0).instance.calls.len(), 2);
}

#[test]
fn descriptors_stay_the_same_across_dispatch() {
    let mut registry = two_plugins();
    let before: Vec<(usize, String, String)> = (0..2)
        .map(|i| {
            let d = registry.ofx_plugin(i);
            (d.index, d.module_name.clone(), d.name.clone())
        })
        .collect();
    set_host_for_plugin(&mut registry, "sharpen", 3);
    main_entry_for_plugin(&mut registry, "sharpen", "OfxActionDescribe".to_string(), 0, 0, 0);
    for i in 0..2 {
        let d = registry.ofx_plugin(i as Int);
        assert_eq!(before[i], (d.index, d.module_name.clone(), d.name.clone()));
    }
    assert_eq!(registry.ofx_plugin(1).plugin_version, PluginVersion(2, 3));
}

#[test]
fn descriptor_out_of_range_is_none() {
    let registry = two_plugins();
    assert!(registry.descriptor(-1).is_none());
    assert!(registry.descriptor(2).is_none());
    assert_eq!(registry.descriptor(1).map(|d| d.module_name.clone()), Some("sharpen".to_string()));
}

#[test]
fn lookup_by_module_name() {
    let registry = two_plugins();
    assert_eq!(registry.plugin_index("blur"), Some(0));
    assert_eq!(registry.plugin_index("sharpen"), Some(1));
    assert_eq!(registry.plugin_index("Blur"), None);
    assert!(registry.contains_module("sharpen"));
    assert!(!registry.contains_module(""));
}

#[test]
fn empty_registry() {
    let mut registry: Registry<Recorder> = Registry::new();
    assert_eq!(registry.count(), 0);
    assert!(registry.descriptor(0).is_none());
    assert_eq!(registry.dispatch("blur", render()), Err(Error::PluginNotFound));
}

#[test]
fn initialization_happens_once() {
    let mut global: GlobalRegistry<Recorder> = GlobalRegistry::new();
    assert!(!global.is_initialized());
    let mut builds = 0;
    for _ in 0..5 {
        global.init_registry(|| {
            builds += 1;
            two_plugins()
        });
        assert_eq!(global.get_registry().count(), 2);
    }
    assert_eq!(builds, 1);
    assert!(global.is_initialized());
    set_host_for_plugin(global.get_registry_mut(), "blur", 8);
    global.init_registry(|| Registry::new());
    assert_eq!(global.get_registry().get_plugin(0).host, Some(8));
}

#[test]
fn catalog_names_round_trip() {
    let all = [
        Action::Load,
        Action::Unload,
        Action::Describe,
        Action::DescribeInContext,
        Action::PurgeCaches,
        Action::SyncPrivateData,
        Action::CreateInstance,
        Action::DestroyInstance,
        Action::InstanceChanged,
        Action::BeginInstanceChanged,
        Action::EndInstanceChanged,
        Action::BeginInstanceEdit,
        Action::EndInstanceEdit,
        Action::GetRegionOfDefinition,
        Action::GetRegionsOfInterest,
        Action::GetTimeDomain,
        Action::GetFramesNeeded,
        Action::GetClipPreferences,
        Action::IsIdentity,
        Action::Render,
        Action::BeginSequenceRender,
        Action::EndSequenceRender,
    ];
    for a in all {
        assert_eq!(Action::from_name(a.name()), Some(a));
    }
    assert_eq!(Action::from_name("OfxImageEffectActionRender"), Some(Action::Render));
    assert_eq!(Action::Load.name(), "OfxActionLoad");
    assert_eq!(Action::from_name("OfxActionload"), None);
    assert_eq!(Action::from_name(""), None);
}

#[test]
fn status_conversion() {
    assert_eq!(status_of(Ok(STAT_OK)), 0);
    assert_eq!(status_of(Ok(12)), 12);
    assert_eq!(status_of(Err(Error::UnsupportedAction)), 14);
    assert_eq!(status_of(Err(Error::PluginNotFound)), -1);
    assert_eq!(status_of(Err(Error::NotInitialized)), -1);
    assert_eq!(status_of(Err(Error::HostNotReady)), -1);
    assert_eq!(status_of(Err(Error::ActionFailed(3))), -1);
}
