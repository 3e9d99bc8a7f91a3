use vstd::prelude::*;

verus! {

/// The actions that the host can request through a plugin's main entry point.
#[derive(Clone, Copy, Debug, PartialEq, Eq, Structural)]
pub enum Action {
    Load,
    Unload,
    Describe,
    DescribeInContext,
    PurgeCaches,
    SyncPrivateData,
    CreateInstance,
    DestroyInstance,
    InstanceChanged,
    BeginInstanceChanged,
    EndInstanceChanged,
    BeginInstanceEdit,
    EndInstanceEdit,
    GetRegionOfDefinition,
    GetRegionsOfInterest,
    GetTimeDomain,
    GetFramesNeeded,
    GetClipPreferences,
    IsIdentity,
    Render,
    BeginSequenceRender,
    EndSequenceRender,
}

/// The name under which the host sends each action.
pub open spec fn action_spec_name(a: Action) -> Seq<char> {
    match a {
        Action::Load => "OfxActionLoad"@,
        Action::Unload => "OfxActionUnload"@,
        Action::Describe => "OfxActionDescribe"@,
        Action::DescribeInContext => "OfxImageEffectActionDescribeInContext"@,
        Action::PurgeCaches => "OfxActionPurgeCaches"@,
        Action::SyncPrivateData => "OfxActionSyncPrivateData"@,
        Action::CreateInstance => "OfxActionCreateInstance"@,
        Action::DestroyInstance => "OfxActionDestroyInstance"@,
        Action::InstanceChanged => "OfxActionInstanceChanged"@,
        Action::BeginInstanceChanged => "OfxActionBeginInstanceChanged"@,
        Action::EndInstanceChanged => "OfxActionEndInstanceChanged"@,
        Action::BeginInstanceEdit => "OfxActionBeginInstanceEdit"@,
        Action::EndInstanceEdit => "OfxActionEndInstanceEdit"@,
        Action::GetRegionOfDefinition => "OfxImageEffectActionGetRegionOfDefinition"@,
        Action::GetRegionsOfInterest => "OfxImageEffectActionGetRegionsOfInterest"@,
        Action::GetTimeDomain => "OfxImageEffectActionGetTimeDomain"@,
        Action::GetFramesNeeded => "OfxImageEffectActionGetFramesNeeded"@,
        Action::GetClipPreferences => "OfxImageEffectActionGetClipPreferences"@,
        Action::IsIdentity => "OfxImageEffectActionIsIdentity"@,
        Action::Render => "OfxImageEffectActionRender"@,
        Action::BeginSequenceRender => "OfxImageEffectActionBeginSequenceRender"@,
        Action::EndSequenceRender => "OfxImageEffectActionEndSequenceRender"@,
    }
}

/// The action that the host means by `name`, if the catalog knows it.
pub open spec fn action_of(name: Seq<char>) -> Option<Action> {
    if exists|a: Action| action_spec_name(a) == name {
        Some(choose|a: Action| action_spec_name(a) == name)
    } else {
        None
    }
}

/// The position at which names of length `len` differ from one another.
spec fn key_index(len: int) -> int {
    if len == 24 {
        9
    } else if len == 26 {
        3
    } else if len == 37 {
        20
    } else {
        0
    }
}

/// The length of each action's name, and its character at `key_index`.
spec fn name_key(a: Action) -> (int, char) {
    match a {
        Action::Load => (13, 'O'),
        Action::Unload => (15, 'O'),
        Action::Describe => (17, 'O'),
        Action::DescribeInContext => (37, 'D'),
        Action::PurgeCaches => (20, 'O'),
        Action::SyncPrivateData => (24, 'S'),
        Action::CreateInstance => (23, 'O'),
        Action::DestroyInstance => (24, 'D'),
        Action::InstanceChanged => (24, 'I'),
        Action::BeginInstanceChanged => (29, 'O'),
        Action::EndInstanceChanged => (27, 'O'),
        Action::BeginInstanceEdit => (26, 'A'),
        Action::EndInstanceEdit => (24, 'E'),
        Action::GetRegionOfDefinition => (41, 'O'),
        Action::GetRegionsOfInterest => (40, 'O'),
        Action::GetTimeDomain => (33, 'O'),
        Action::GetFramesNeeded => (35, 'O'),
        Action::GetClipPreferences => (38, 'O'),
        Action::IsIdentity => (30, 'O'),
        Action::Render => (26, 'I'),
        Action::BeginSequenceRender => (39, 'O'),
        Action::EndSequenceRender => (37, 'E'),
    }
}

proof fn lemma_name_key(a: Action)
    ensures
        action_spec_name(a).len() == name_key(a).0,
        action_spec_name(a)[key_index(name_key(a).0)] == name_key(a).1,
{
    match a {
        Action::Load => {
            reveal_strlit("OfxActionLoad");
        },
        Action::Unload => {
            reveal_strlit("OfxActionUnload");
        },
        Action::Describe => {
            reveal_strlit("OfxActionDescribe");
        },
        Action::DescribeInContext => {
            reveal_strlit("OfxImageEffectActionDescribeInContext");
        },
        Action::PurgeCaches => {
            reveal_strlit("OfxActionPurgeCaches");
        },
        Action::SyncPrivateData => {
            reveal_strlit("OfxActionSyncPrivateData");
        },
        Action::CreateInstance => {
            reveal_strlit("OfxActionCreateInstance");
        },
        Action::DestroyInstance => {
            reveal_strlit("OfxActionDestroyInstance");
        },
        Action::InstanceChanged => {
            reveal_strlit("OfxActionInstanceChanged");
        },
        Action::BeginInstanceChanged => {
            reveal_strlit("OfxActionBeginInstanceChanged");
        },
        Action::EndInstanceChanged => {
            reveal_strlit("OfxActionEndInstanceChanged");
        },
        Action::BeginInstanceEdit => {
            reveal_strlit("OfxActionBeginInstanceEdit");
        },
        Action::EndInstanceEdit => {
            reveal_strlit("OfxActionEndInstanceEdit");
        },
        Action::GetRegionOfDefinition => {
            reveal_strlit("OfxImageEffectActionGetRegionOfDefinition");
        },
        Action::GetRegionsOfInterest => {
            reveal_strlit("OfxImageEffectActionGetRegionsOfInterest");
        },
        Action::GetTimeDomain => {
            reveal_strlit("OfxImageEffectActionGetTimeDomain");
        },
        Action::GetFramesNeeded => {
            reveal_strlit("OfxImageEffectActionGetFramesNeeded");
        },
        Action::GetClipPreferences => {
            reveal_strlit("OfxImageEffectActionGetClipPreferences");
        },
        Action::IsIdentity => {
            reveal_strlit("OfxImageEffectActionIsIdentity");
        },
        Action::Render => {
            reveal_strlit("OfxImageEffectActionRender");
        },
        Action::BeginSequenceRender => {
            reveal_strlit("OfxImageEffectActionBeginSequenceRender");
        },
        Action::EndSequenceRender => {
            reveal_strlit("OfxImageEffectActionEndSequenceRender");
        },
    }
}

/// No two actions share a name.
pub proof fn lemma_names_distinct(a: Action, b: Action)
    requires
        a != b,
    ensures
        action_spec_name(a) != action_spec_name(b),
{
    lemma_name_key(a);
    lemma_name_key(b);
    assert(name_key(a) != name_key(b));
}

/// A name of the catalog leads back to its action.
pub proof fn lemma_action_of_name(a: Action)
    ensures
        action_of(action_spec_name(a)) == Some(a),
{
    let b = choose|b: Action| action_spec_name(b) == action_spec_name(a);
    if b != a {
        lemma_names_distinct(a, b);
    }
}

impl Action {
    /// The name under which the host sends this action.
    pub fn name(&self) -> (r: &'static str)
        ensures
            r@ == action_spec_name(*self),
    {
        match self {
            Action::Load => "OfxActionLoad",
            Action::Unload => "OfxActionUnload",
            Action::Describe => "OfxActionDescribe",
            Action::DescribeInContext => "OfxImageEffectActionDescribeInContext",
            Action::PurgeCaches => "OfxActionPurgeCaches",
            Action::SyncPrivateData => "OfxActionSyncPrivateData",
            Action::CreateInstance => "OfxActionCreateInstance",
            Action::DestroyInstance => "OfxActionDestroyInstance",
            Action::InstanceChanged => "OfxActionInstanceChanged",
            Action::BeginInstanceChanged => "OfxActionBeginInstanceChanged",
            Action::EndInstanceChanged => "OfxActionEndInstanceChanged",
            Action::BeginInstanceEdit => "OfxActionBeginInstanceEdit",
            Action::EndInstanceEdit => "OfxActionEndInstanceEdit",
            Action::GetRegionOfDefinition => "OfxImageEffectActionGetRegionOfDefinition",
            Action::GetRegionsOfInterest => "OfxImageEffectActionGetRegionsOfInterest",
            Action::GetTimeDomain => "OfxImageEffectActionGetTimeDomain",
            Action::GetFramesNeeded => "OfxImageEffectActionGetFramesNeeded",
            Action::GetClipPreferences => "OfxImageEffectActionGetClipPreferences",
            Action::IsIdentity => "OfxImageEffectActionIsIdentity",
            Action::Render => "OfxImageEffectActionRender",
            Action::BeginSequenceRender => "OfxImageEffectActionBeginSequenceRender",
            Action::EndSequenceRender => "OfxImageEffectActionEndSequenceRender",
        }
    }

    /// Looks an action name up in the catalog.
    pub fn from_name(name: &str) -> (r: Option<Action>)
        ensures
            r == action_of(name@),
    {
        let s = name.to_owned();
        if s == "OfxActionLoad".to_owned() {
            proof {
                lemma_action_of_name(Action::Load);
            }
            return Some(Action::Load);
        }
        if s == "OfxActionUnload".to_owned() {
            proof {
                lemma_action_of_name(Action::Unload);
            }
            return Some(Action::Unload);
        }
        if s == "OfxActionDescribe".to_owned() {
            proof {
                lemma_action_of_name(Action::Describe);
            }
            return Some(Action::Describe);
        }
        if s == "OfxImageEffectActionDescribeInContext".to_owned() {
            proof {
                lemma_action_of_name(Action::DescribeInContext);
            }
            return Some(Action::DescribeInContext);
        }
        if s == "OfxActionPurgeCaches".to_owned() {
            proof {
                lemma_action_of_name(Action::PurgeCaches);
            }
            return Some(Action::PurgeCaches);
        }
        if s == "OfxActionSyncPrivateData".to_owned() {
            proof {
                lemma_action_of_name(Action::SyncPrivateData);
            }
            return Some(Action::SyncPrivateData);
        }
        if s == "OfxActionCreateInstance".to_owned() {
            proof {
                lemma_action_of_name(Action::CreateInstance);
            }
            return Some(Action::CreateInstance);
        }
        if s == "OfxActionDestroyInstance".to_owned() {
            proof {
                lemma_action_of_name(Action::DestroyInstance);
            }
            return Some(Action::DestroyInstance);
        }
        if s == "OfxActionInstanceChanged".to_owned() {
            proof {
                lemma_action_of_name(Action::InstanceChanged);
            }
            return Some(Action::InstanceChanged);
        }
        if s == "OfxActionBeginInstanceChanged".to_owned() {
            proof {
                lemma_action_of_name(Action::BeginInstanceChanged);
            }
            return Some(Action::BeginInstanceChanged);
        }
        if s == "OfxActionEndInstanceChanged".to_owned() {
            proof {
                lemma_action_of_name(Action::EndInstanceChanged);
            }
            return Some(Action::EndInstanceChanged);
        }
        if s == "OfxActionBeginInstanceEdit".to_owned() {
            proof {
                lemma_action_of_name(Action::BeginInstanceEdit);
            }
            return Some(Action::BeginInstanceEdit);
        }
        if s == "OfxActionEndInstanceEdit".to_owned() {
            proof {
                lemma_action_of_name(Action::EndInstanceEdit);
            }
            return Some(Action::EndInstanceEdit);
        }
        if s == "OfxImageEffectActionGetRegionOfDefinition".to_owned() {
            proof {
                lemma_action_of_name(Action::GetRegionOfDefinition);
            }
            return Some(Action::GetRegionOfDefinition);
        }
        if s == "OfxImageEffectActionGetRegionsOfInterest".to_owned() {
            proof {
                lemma_action_of_name(Action::GetRegionsOfInterest);
            }
            return Some(Action::GetRegionsOfInterest);
        }
        if s == "OfxImageEffectActionGetTimeDomain".to_owned() {
            proof {
                lemma_action_of_name(Action::GetTimeDomain);
            }
            return Some(Action::GetTimeDomain);
        }
        if s == "OfxImageEffectActionGetFramesNeeded".to_owned() {
            proof {
                lemma_action_of_name(Action::GetFramesNeeded);
            }
            return Some(Action::GetFramesNeeded);
        }
        if s == "OfxImageEffectActionGetClipPreferences".to_owned() {
            proof {
                lemma_action_of_name(Action::GetClipPreferences);
            }
            return Some(Action::GetClipPreferences);
        }
        if s == "OfxImageEffectActionIsIdentity".to_owned() {
            proof {
                lemma_action_of_name(Action::IsIdentity);
            }
            return Some(Action::IsIdentity);
        }
        if s == "OfxImageEffectActionRender".to_owned() {
            proof {
                lemma_action_of_name(Action::Render);
            }
            return Some(Action::Render);
        }
        if s == "OfxImageEffectActionBeginSequenceRender".to_owned() {
            proof {
                lemma_action_of_name(Action::BeginSequenceRender);
            }
            return Some(Action::BeginSequenceRender);
        }
        if s == "OfxImageEffectActionEndSequenceRender".to_owned() {
            proof {
                lemma_action_of_name(Action::EndSequenceRender);
            }
            return Some(Action::EndSequenceRender);
        }
        proof {
            assert forall|a: Action| action_spec_name(a) != name@ by {
                match a {
                    Action::Load => {},
                    Action::Unload => {},
                    Action::Describe => {},
                    Action::DescribeInContext => {},
                    Action::PurgeCaches => {},
                    Action::SyncPrivateData => {},
                    Action::CreateInstance => {},
                    Action::DestroyInstance => {},
                    Action::InstanceChanged => {},
                    Action::BeginInstanceChanged => {},
                    Action::EndInstanceChanged => {},
                    Action::BeginInstanceEdit => {},
                    Action::EndInstanceEdit => {},
                    Action::GetRegionOfDefinition => {},
                    Action::GetRegionsOfInterest => {},
                    Action::GetTimeDomain => {},
                    Action::GetFramesNeeded => {},
                    Action::GetClipPreferences => {},
                    Action::IsIdentity => {},
                    Action::Render => {},
                    Action::BeginSequenceRender => {},
                    Action::EndSequenceRender => {},
                }
            }
        }
        None
    }
}

} // verus!
