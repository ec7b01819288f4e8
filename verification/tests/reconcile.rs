use std::collections::HashMap;

use launcher_core::container::PluginWidgetContainer;
use launcher_core::model::EntrypointId;
use launcher_core::model::PhysicalShortcut;
use launcher_core::model::PluginId;
use launcher_core::model::ShortcutBinding;
use launcher_core::widget::ComponentWidgetEvent;
use launcher_core::widget::PropertyValue;
use launcher_core::widget::RootWidget;
use launcher_core::widget::UiEventKind;
use launcher_core::widget::WidgetKind;
use launcher_core::widget::WidgetNode;
use launcher_core::widget::WidgetProperty;
use launcher_core::widget::WidgetState;

fn node(id: u64, kind: WidgetKind) -> WidgetNode {
    WidgetNode { id, kind, properties: Vec::new(), children: Vec::new() }
}

fn install(c: &mut PluginWidgetContainer, tree: RootWidget) {
    let plugin_id = PluginId { value: "plugin".to_string() };
    let entrypoint_id = EntrypointId { value: "entry".to_string() };
    c.replace_view(
        tree,
        HashMap::new(),
        &plugin_id,
        &"Plugin".to_string(),
        &entrypoint_id,
        &"Entry".to_string(),
    );
}

#[test]
fn fresh_container_is_empty() {
    let c = PluginWidgetContainer::new();
    assert!(c.root_widget.is_none());
    assert_eq!(c.state.len(), 0);
    assert!(c.plugin_id.is_none());
}

#[test]
fn replace_attributes_screen() {
    let mut c = PluginWidgetContainer::new();
    install(&mut c, RootWidget { nodes: vec![node(1, WidgetKind::Root)] });
    assert_eq!(c.get_plugin_id().value, "plugin");
    assert_eq!(c.get_entrypoint_id().value, "entry");
    assert_eq!(c.plugin_name.as_deref(), Some("Plugin"));
    assert_eq!(c.entrypoint_name.as_deref(), Some("Entry"));
}

#[test]
fn replace_creates_defaults() {
    let mut c = PluginWidgetContainer::new();
    let mut list = node(3, WidgetKind::List);
    list.children = vec![0, 1];
    install(
        &mut c,
        RootWidget {
            nodes: vec![node(1, WidgetKind::TextField), node(2, WidgetKind::Checkbox), list],
        },
    );
    assert_eq!(c.state.len(), 3);
    assert!(matches!(c.state.get(&1), Some(WidgetState::TextField { value }) if value.is_empty()));
    assert!(matches!(c.state.get(&2), Some(WidgetState::Toggle { value: false })));
    assert!(
        matches!(c.state.get(&3), Some(WidgetState::SelectList { selected: None, count: 2 }))
    );
}

// Two successive replaces: ids present in both trees keep their state
// unchanged, ids only in the old tree are dropped, new-only ids start from
// the default.
#[test]
fn replace_then_replace_splices_state() {
    let mut c = PluginWidgetContainer::new();
    install(
        &mut c,
        RootWidget {
            nodes: vec![
                node(1, WidgetKind::TextField),
                node(2, WidgetKind::Checkbox),
                node(3, WidgetKind::Checkbox),
            ],
        },
    );
    // state{1: "abc"} by the event path
    let out = c.handle_event(
        PluginId { value: "plugin".to_string() },
        ComponentWidgetEvent::TextChanged { widget_id: 1, value: "abc".to_string() },
    );
    assert!(out.is_some());
    // make id 2 carry a non-default value too
    let _ = c.handle_event(
        PluginId { value: "plugin".to_string() },
        ComponentWidgetEvent::Toggled { widget_id: 2, value: true },
    );

    install(
        &mut c,
        RootWidget {
            nodes: vec![
                node(2, WidgetKind::Checkbox),
                node(3, WidgetKind::Checkbox),
                node(4, WidgetKind::TextField),
            ],
        },
    );
    assert_eq!(c.state.len(), 3);
    assert!(c.state.get(&1).is_none());
    assert!(matches!(c.state.get(&2), Some(WidgetState::Toggle { value: true })));
    assert!(matches!(c.state.get(&3), Some(WidgetState::Toggle { value: false })));
    assert!(matches!(c.state.get(&4), Some(WidgetState::TextField { value }) if value.is_empty()));
}

// An event addressed to a widget id absent from the store is a no-op: no
// mutation, no outbound event, no failure.
#[test]
fn event_for_vanished_widget_is_noop() {
    let mut c = PluginWidgetContainer::new();
    install(&mut c, RootWidget { nodes: vec![node(1, WidgetKind::TextField)] });
    let out = c.handle_event(
        PluginId { value: "plugin".to_string() },
        ComponentWidgetEvent::TextChanged { widget_id: 9, value: "lost".to_string() },
    );
    assert!(out.is_none());
    assert_eq!(c.state.len(), 1);
    assert!(matches!(c.state.get(&1), Some(WidgetState::TextField { value }) if value.is_empty()));
}

#[test]
fn event_hit_updates_state_and_emits() {
    let mut c = PluginWidgetContainer::new();
    install(&mut c, RootWidget { nodes: vec![node(5, WidgetKind::TextField)] });
    let out = c.handle_event(
        PluginId { value: "plugin".to_string() },
        ComponentWidgetEvent::TextChanged { widget_id: 5, value: "typed".to_string() },
    );
    match out {
        Some(ev) => {
            assert_eq!(ev.plugin_id.value, "plugin");
            assert_eq!(ev.widget_id, 5);
            assert!(matches!(ev.kind, UiEventKind::TextChanged(v) if v == "typed"));
        }
        None => panic!("expected an outbound event"),
    }
    assert!(matches!(c.state.get(&5), Some(WidgetState::TextField { value }) if value == "typed"));
}

#[test]
fn toggle_action_panel_flips_root_flag() {
    let mut c = PluginWidgetContainer::new();
    install(&mut c, RootWidget { nodes: vec![node(1, WidgetKind::Root)] });
    assert!(matches!(
        c.state.get(&1),
        Some(WidgetState::Root { show_action_panel: false })
    ));
    c.toggle_action_panel();
    assert!(matches!(
        c.state.get(&1),
        Some(WidgetState::Root { show_action_panel: true })
    ));
    c.toggle_action_panel();
    assert!(matches!(
        c.state.get(&1),
        Some(WidgetState::Root { show_action_panel: false })
    ));
}

#[test]
fn action_ids_in_node_order() {
    let mut c = PluginWidgetContainer::new();
    install(
        &mut c,
        RootWidget {
            nodes: vec![
                node(1, WidgetKind::Root),
                node(10, WidgetKind::Action),
                node(2, WidgetKind::Label),
                node(11, WidgetKind::Action),
            ],
        },
    );
    assert_eq!(c.get_action_ids(), vec![10, 11]);
}

#[test]
fn action_panel_resolves_labels_and_shortcuts() {
    let mut c = PluginWidgetContainer::new();
    let mut action = node(10, WidgetKind::Action);
    action.properties = vec![
        WidgetProperty { name: "label".to_string(), value: PropertyValue::Text("Open".to_string()) },
        WidgetProperty { name: "id".to_string(), value: PropertyValue::Text("open".to_string()) },
    ];
    install(&mut c, RootWidget { nodes: vec![node(1, WidgetKind::Root), action] });
    let bindings = vec![ShortcutBinding {
        id: "open".to_string(),
        shortcut: PhysicalShortcut {
            physical_key: "KeyO".to_string(),
            modifier_shift: false,
            modifier_control: true,
            modifier_alt: false,
            modifier_meta: false,
        },
    }];
    let panel = c.get_action_panel(&bindings).expect("a tree is installed");
    assert_eq!(panel.items.len(), 1);
    assert_eq!(panel.items[0].widget_id, 10);
    assert_eq!(panel.items[0].label.as_deref(), Some("Open"));
    let shortcut = panel.items[0].shortcut.as_ref().expect("bound shortcut");
    assert_eq!(shortcut.physical_key, "KeyO");
    assert!(shortcut.modifier_control);
}

#[test]
fn no_panel_without_tree() {
    let c = PluginWidgetContainer::new();
    assert!(c.get_action_panel(&Vec::new()).is_none());
    assert!(c.get_action_ids().is_empty());
}

#[test]
fn list_focus_moves_with_saturation() {
    let mut c = PluginWidgetContainer::new();
    let mut list = node(7, WidgetKind::List);
    list.children = vec![0, 0];
    install(&mut c, RootWidget { nodes: vec![list] });
    c.focus_down();
    assert!(matches!(c.state.get(&7), Some(WidgetState::SelectList { selected: Some(0), .. })));
    c.focus_down();
    assert!(matches!(c.state.get(&7), Some(WidgetState::SelectList { selected: Some(1), .. })));
    c.focus_down();
    assert!(matches!(c.state.get(&7), Some(WidgetState::SelectList { selected: Some(1), .. })));
    c.focus_up();
    assert!(matches!(c.state.get(&7), Some(WidgetState::SelectList { selected: Some(0), .. })));
    c.focus_up();
    assert!(matches!(c.state.get(&7), Some(WidgetState::SelectList { selected: Some(0), .. })));
}

#[test]
fn asset_sizes_come_from_the_handles() {
    let mut c = PluginWidgetContainer::new();
    let mut images = HashMap::new();
    images.insert(4u64, bytes::Bytes::from(vec![1u8, 2, 3]));
    let plugin_id = PluginId { value: "plugin".to_string() };
    let entrypoint_id = EntrypointId { value: "entry".to_string() };
    c.replace_view(
        RootWidget { nodes: vec![node(4, WidgetKind::Image)] },
        images,
        &plugin_id,
        &"Plugin".to_string(),
        &entrypoint_id,
        &"Entry".to_string(),
    );
    assert_eq!(c.asset_size(4), Some(3));
    assert_eq!(c.asset_size(5), None);
}

#[test]
fn render_pairs_nodes_with_state() {
    let mut c = PluginWidgetContainer::new();
    let mut list = node(2, WidgetKind::List);
    list.children = vec![0];
    install(&mut c, RootWidget { nodes: vec![node(1, WidgetKind::TextField), list] });
    let rendered = c.render_root_widget();
    assert_eq!(rendered.len(), 2);
    assert_eq!(rendered[0].id, 1);
    assert!(matches!(rendered[0].state, WidgetState::TextField { ref value } if value.is_empty()));
    assert_eq!(rendered[1].id, 2);
    assert_eq!(rendered[1].children, vec![0]);
    let view = c.render_inline_root_widget();
    assert_eq!(view.plugin_name.as_deref(), Some("Plugin"));
    assert_eq!(view.entrypoint_name.as_deref(), Some("Entry"));
    assert_eq!(view.nodes.len(), 2);
}
