use launcher_core::bridge::entrypoint_preferences_required;
use launcher_core::bridge::gate_render;
use launcher_core::bridge::get_entrypoint_preferences;
use launcher_core::bridge::get_plugin_preferences;
use launcher_core::bridge::plugin_preferences_required;
use launcher_core::bridge::preferences_required;
use launcher_core::bridge::HostError;
use launcher_core::bridge::PreferenceDecl;
use launcher_core::bridge::PreferenceValue;
use launcher_core::container::PluginWidgetContainer;
use launcher_core::model::EntrypointId;
use launcher_core::model::PluginId;
use launcher_core::plugins::Plugin;
use launcher_core::plugins::PluginCode;
use launcher_core::plugins::PluginEntrypoint;
use launcher_core::runtime::DispatchResult;
use launcher_core::runtime::LoadError;
use launcher_core::runtime::OpOutcome;
use launcher_core::runtime::OpReply;
use launcher_core::runtime::PluginReaction;
use launcher_core::runtime::PluginSandbox;
use launcher_core::runtime::SandboxPhase;
use launcher_core::state::ErrorViewData;
use launcher_core::state::GlobalState;
use launcher_core::widget::UiEventKind;
use launcher_core::widget::UiViewEvent;

fn decl(name: &str, required: bool, value: Option<PreferenceValue>) -> PreferenceDecl {
    PreferenceDecl { name: name.to_string(), required, value }
}

fn test_plugin(entrypoint_ids: &[&str]) -> Plugin {
    let entrypoints = entrypoint_ids
        .iter()
        .map(|id| PluginEntrypoint::new(id.to_string(), format!("Name {id}"), "view".to_string()))
        .collect();
    Plugin::new(
        &"plug".to_string(),
        PluginCode::new(Vec::new(), None),
        entrypoints,
    )
}

fn some_event() -> UiViewEvent {
    UiViewEvent {
        plugin_id: PluginId { value: "plug".to_string() },
        widget_id: 1,
        kind: UiEventKind::Clicked,
    }
}

#[test]
fn preferences_required_reports_missing_required() {
    let decls = vec![
        decl("token", true, None),
        decl("color", false, None),
    ];
    assert!(preferences_required(&decls));
    let decls = vec![
        decl("token", true, Some(PreferenceValue::Text("abc".to_string()))),
        decl("color", false, None),
    ];
    assert!(!preferences_required(&decls));
    assert!(!preferences_required(&Vec::new()));
}

#[test]
fn preference_ops_hand_out_entered_values() {
    let decls = vec![
        decl("token", true, Some(PreferenceValue::Text("abc".to_string()))),
        decl("count", false, Some(PreferenceValue::Number(3))),
        decl("color", false, None),
        decl("fast", false, Some(PreferenceValue::Bool(true))),
    ];
    let prefs = get_plugin_preferences(Some(&decls)).expect("readable store");
    assert_eq!(prefs.len(), 3);
    assert_eq!(prefs[0].0, "token");
    assert!(matches!(&prefs[0].1, PreferenceValue::Text(v) if v == "abc"));
    assert_eq!(prefs[1].0, "count");
    assert!(matches!(prefs[1].1, PreferenceValue::Number(3)));
    assert_eq!(prefs[2].0, "fast");
    assert!(matches!(prefs[2].1, PreferenceValue::Bool(true)));

    let entry = EntrypointId { value: "entry".to_string() };
    let prefs = get_entrypoint_preferences(Some(&decls), &entry).expect("readable store");
    assert_eq!(prefs.len(), 3);
}

#[test]
fn unreadable_store_is_a_configuration_error() {
    assert!(matches!(
        get_plugin_preferences(None),
        Err(HostError::ConfigurationError)
    ));
    let entry = EntrypointId { value: "entry".to_string() };
    assert!(matches!(
        get_entrypoint_preferences(None, &entry),
        Err(HostError::ConfigurationError)
    ));
    assert!(matches!(
        plugin_preferences_required(None),
        Err(HostError::ConfigurationError)
    ));
    assert!(matches!(
        entrypoint_preferences_required(None, &entry),
        Err(HostError::ConfigurationError)
    ));
}

#[test]
fn required_ops_report_gating() {
    let gated = vec![decl("token", true, None)];
    let entry = EntrypointId { value: "entry".to_string() };
    assert_eq!(plugin_preferences_required(Some(&gated)).unwrap(), true);
    assert_eq!(entrypoint_preferences_required(Some(&gated), &entry).unwrap(), true);
    let open = vec![decl("token", true, Some(PreferenceValue::Bool(false)))];
    assert_eq!(plugin_preferences_required(Some(&open)).unwrap(), false);
    assert_eq!(entrypoint_preferences_required(Some(&open), &entry).unwrap(), false);
}

// A render attempt for a gated entrypoint never reaches the render
// submission: the view state goes straight from the search palette to the
// preference-required error screen with the right attribution, and the
// installed screen stays untouched.
#[test]
fn gated_entrypoint_never_reaches_submit_render() {
    let mut state = GlobalState::new();
    let container = PluginWidgetContainer::new();
    let plugin_id = PluginId { value: "plug".to_string() };
    let entrypoint_id = EntrypointId { value: "entry".to_string() };

    let proceed = gate_render(&mut state, &plugin_id, &entrypoint_id, false, true);
    assert!(!proceed);
    match &state {
        GlobalState::ErrorView {
            error_view:
                ErrorViewData::PreferenceRequired {
                    plugin_id,
                    entrypoint_id,
                    plugin_preferences_required,
                    entrypoint_preferences_required,
                },
        } => {
            assert_eq!(plugin_id.value, "plug");
            assert_eq!(entrypoint_id.value, "entry");
            assert!(!plugin_preferences_required);
            assert!(entrypoint_preferences_required);
        }
        _ => panic!("expected the preference-required error screen"),
    }
    // nothing was submitted, so the installed pair is untouched
    assert!(container.root_widget.is_none());
    assert_eq!(container.state.len(), 0);
    // the same attempt without gating proceeds and leaves the state alone
    let mut state = GlobalState::new();
    let proceed = gate_render(&mut state, &plugin_id, &entrypoint_id, false, false);
    assert!(proceed);
    assert!(matches!(state, GlobalState::MainView { .. }));
}

#[test]
fn load_validates_the_manifest() {
    assert!(matches!(
        PluginSandbox::load(test_plugin(&[])),
        Err(LoadError::NoEntrypoints)
    ));
    assert!(matches!(
        PluginSandbox::load(test_plugin(&["a", "b", "a"])),
        Err(LoadError::DuplicateEntrypointIds)
    ));
    let sandbox = PluginSandbox::load(test_plugin(&["a", "b"])).expect("valid manifest");
    assert!(matches!(sandbox.phase, SandboxPhase::Idle));
    assert_eq!(sandbox.next_op_id, 0);
}

// A capability op's host-side channel closes while the plugin awaits it:
// the plugin observes a typed capability error and is resumed, not left
// suspended.
#[test]
fn closed_channel_resumes_plugin_with_capability_error() {
    let mut sandbox = PluginSandbox::load(test_plugin(&["a"])).expect("valid manifest");
    let r = sandbox.dispatch(&some_event(), PluginReaction::Suspended);
    let op_id = match r {
        DispatchResult::SuspendedOnOp { op_id } => op_id,
        _ => panic!("expected a suspension"),
    };
    assert!(matches!(sandbox.phase, SandboxPhase::AwaitingOp { op_id: 0 }));

    let delivered = sandbox.complete_op(op_id, OpOutcome::ChannelClosed);
    assert!(matches!(delivered, Some(Err(HostError::CapabilityError))));
    assert!(matches!(sandbox.phase, SandboxPhase::Idle));
}

#[test]
fn replied_op_resumes_plugin_with_result() {
    let mut sandbox = PluginSandbox::load(test_plugin(&["a"])).expect("valid manifest");
    let _ = sandbox.dispatch(&some_event(), PluginReaction::Suspended);
    let delivered = sandbox.complete_op(0, OpOutcome::Replied(OpReply::Flag(true)));
    assert!(matches!(delivered, Some(Ok(OpReply::Flag(true)))));
    assert!(matches!(sandbox.phase, SandboxPhase::Idle));
}

#[test]
fn stale_op_outcomes_are_dropped() {
    let mut sandbox = PluginSandbox::load(test_plugin(&["a"])).expect("valid manifest");
    assert!(sandbox.complete_op(9, OpOutcome::ChannelClosed).is_none());
    let _ = sandbox.dispatch(&some_event(), PluginReaction::Suspended);
    assert!(sandbox.complete_op(9, OpOutcome::ChannelClosed).is_none());
    assert!(matches!(sandbox.phase, SandboxPhase::AwaitingOp { op_id: 0 }));
}

#[test]
fn dispatch_respects_the_cooperative_schedule() {
    let mut sandbox = PluginSandbox::load(test_plugin(&["a"])).expect("valid manifest");
    assert!(matches!(
        sandbox.dispatch(&some_event(), PluginReaction::Completed),
        DispatchResult::Delivered
    ));
    let _ = sandbox.dispatch(&some_event(), PluginReaction::Suspended);
    assert!(matches!(
        sandbox.dispatch(&some_event(), PluginReaction::Completed),
        DispatchResult::Busy
    ));
}

#[test]
fn faults_are_caught_at_the_dispatch_boundary() {
    let mut sandbox = PluginSandbox::load(test_plugin(&["a"])).expect("valid manifest");
    assert!(matches!(
        sandbox.dispatch(&some_event(), PluginReaction::Faulted),
        DispatchResult::Fault
    ));
    // the context stays usable
    assert!(matches!(sandbox.phase, SandboxPhase::Idle));
    assert!(matches!(
        sandbox.dispatch(&some_event(), PluginReaction::Completed),
        DispatchResult::Delivered
    ));
}

#[test]
fn unload_cancels_the_pending_op() {
    let mut sandbox = PluginSandbox::load(test_plugin(&["a"])).expect("valid manifest");
    let _ = sandbox.dispatch(&some_event(), PluginReaction::Suspended);
    assert_eq!(sandbox.unload(), Some(0));
    assert!(matches!(sandbox.phase, SandboxPhase::Unloaded));
    assert!(matches!(
        sandbox.dispatch(&some_event(), PluginReaction::Completed),
        DispatchResult::Unloaded
    ));
    assert!(sandbox.complete_op(0, OpOutcome::ChannelClosed).is_none());
}

#[test]
fn a_fault_is_surfaced_as_a_plugin_error_screen() {
    let mut sandbox = PluginSandbox::load(test_plugin(&["a"])).expect("valid manifest");
    let result = sandbox.dispatch(&some_event(), PluginReaction::Faulted);
    assert!(matches!(result, DispatchResult::Fault));

    // The host replaces the prior screen by the plugin-error screen.
    let mut state = GlobalState::new();
    let _ = GlobalState::error(
        &mut state,
        ErrorViewData::PluginError {
            plugin_id: PluginId { value: "plug".to_string() },
            entrypoint_id: EntrypointId { value: "entry".to_string() },
        },
    );
    match &state {
        GlobalState::ErrorView { error_view: ErrorViewData::PluginError { plugin_id, entrypoint_id } } => {
            assert_eq!(plugin_id.value, "plug");
            assert_eq!(entrypoint_id.value, "entry");
        }
        _ => panic!("expected the plugin-error screen"),
    }
}
