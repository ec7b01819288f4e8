//! The installed (tree, state, assets) triple of one plugin screen, and the
//! reconciler that installs a freshly emitted tree over it.
//!
//! All access goes through `&mut` / `&` methods of
//! [`PluginWidgetContainer`]: the embedding shell serializes them behind one
//! exclusive gateway, so no caller ever observes the old tree paired with
//! the new state map.  Installing a new tree is a full replace-and-splice:
//! state survives exactly for the widget ids present in both the old state
//! map and the new tree, every other id of the new tree starts from its
//! default state, and state for vanished ids is dropped at once.

use vstd::prelude::*;

use std::collections::HashMap;

use crate::images::bytes_data;
use crate::images::bytes_len;
use crate::model::EntrypointId;
use crate::model::PhysicalShortcut;
use crate::model::PluginId;
use crate::model::ShortcutBinding;
use crate::state::ScrollHandle;
use crate::state::scroll_next;
use crate::state::scroll_prev;
use crate::widget::ComponentWidgetEvent;
use crate::widget::PropertyValue;
use crate::widget::WidgetKind;
use crate::widget::RootWidget;
use crate::widget::WidgetNode;
use crate::widget::WidgetProperty;
use crate::widget::UiWidgetId;
use crate::widget::UiViewEvent;
use crate::widget::WidgetState;
use crate::widget::default_state;
use crate::widget::is_default_state;
use crate::widget::apply_widget_event;
use crate::widget::widget_emits;
use crate::widget::widget_transition;

verus! {

broadcast use vstd::std_specs::hash::group_hash_axioms;

/// The first `Text` property named `name`, skipping properties of other
/// value kinds.
pub open spec fn text_prop(props: Seq<WidgetProperty>, name: Seq<char>) -> Option<String>
    decreases props.len(),
{
    if props.len() == 0 {
        None
    } else {
        match props[0].value {
            PropertyValue::Text(t) => if props[0].name@ == name {
                Some(t)
            } else {
                text_prop(props.drop_first(), name)
            },
            _ => text_prop(props.drop_first(), name),
        }
    }
}

/// The shortcut of the first binding whose action identifier is `key`.
pub open spec fn binding_for(bindings: Seq<ShortcutBinding>, key: Seq<char>) -> Option<
    PhysicalShortcut,
>
    decreases bindings.len(),
{
    if bindings.len() == 0 {
        None
    } else if bindings[0].id@ == key {
        Some(bindings[0].shortcut)
    } else {
        binding_for(bindings.drop_first(), key)
    }
}

/// The ids of the action nodes of the tree, in node order.
pub open spec fn action_ids_of(nodes: Seq<WidgetNode>) -> Seq<UiWidgetId>
    decreases nodes.len(),
{
    if nodes.len() == 0 {
        Seq::empty()
    } else {
        let rest = action_ids_of(nodes.drop_last());
        if nodes.last().kind is Action {
            rest.push(nodes.last().id)
        } else {
            rest
        }
    }
}

/// One entry of the contextual action panel: the action widget, its label
/// when it declares one, and the shortcut bound to its declared action
/// identifier.
pub struct ActionItem {
    pub widget_id: UiWidgetId,
    pub label: Option<String>,
    pub shortcut: Option<PhysicalShortcut>,
}

/// The ordered contextual action panel derived from the current tree.
pub struct ActionPanel {
    pub items: Vec<ActionItem>,
}

/// The panel entry an action node contributes: label from its `label`
/// property, shortcut looked up by its `id` property.
pub open spec fn action_item_of(n: WidgetNode, bindings: Seq<ShortcutBinding>) -> ActionItem {
    ActionItem {
        widget_id: n.id,
        label: text_prop(n.properties@, "label"@),
        shortcut: match text_prop(n.properties@, "id"@) {
            Some(k) => binding_for(bindings, k@),
            None => None,
        },
    }
}

/// The panel entries of all action nodes of the tree, in node order.
pub open spec fn action_items_of(nodes: Seq<WidgetNode>, bindings: Seq<ShortcutBinding>) -> Seq<
    ActionItem,
>
    decreases nodes.len(),
{
    if nodes.len() == 0 {
        Seq::empty()
    } else {
        let rest = action_items_of(nodes.drop_last(), bindings);
        if nodes.last().kind is Action {
            rest.push(action_item_of(nodes.last(), bindings))
        } else {
            rest
        }
    }
}

/// The first `Text` property named `name`, as [`text_prop`] gives it.
fn find_text_prop<'a>(props: &'a Vec<WidgetProperty>, name: &String) -> (r: Option<&'a String>)
    ensures
        match text_prop(props@, name@) {
            Some(t) => r matches Some(x) && *x == t,
            None => r is None,
        },
{
    let n = props.len();
    let mut i: usize = 0;
    proof {
        assert(props@.skip(0) =~= props@);
    }
    while i < n
        invariant
            n == props@.len(),
            i <= n,
            text_prop(props@.skip(i as int), name@) == text_prop(props@, name@),
        decreases n - i,
    {
        proof {
            assert(props@.skip(i as int)[0] == props@[i as int]);
            assert(props@.skip(i as int).drop_first() =~= props@.skip(i + 1));
        }
        let prop = &props[i];
        match &prop.value {
            PropertyValue::Text(t) => {
                if prop.name.eq(name) {
                    return Some(t);
                }
            },
            _ => {},
        }
        i = i + 1;
    }
    proof {
        assert(props@.skip(n as int) =~= Seq::<WidgetProperty>::empty());
    }
    None
}

/// The shortcut bound to the action identifier `key`, as [`binding_for`]
/// gives it.
fn find_binding<'a>(bindings: &'a Vec<ShortcutBinding>, key: &String) -> (r: Option<
    &'a PhysicalShortcut,
>)
    ensures
        match binding_for(bindings@, key@) {
            Some(s) => r matches Some(x) && *x == s,
            None => r is None,
        },
{
    let n = bindings.len();
    let mut i: usize = 0;
    proof {
        assert(bindings@.skip(0) =~= bindings@);
    }
    while i < n
        invariant
            n == bindings@.len(),
            i <= n,
            binding_for(bindings@.skip(i as int), key@) == binding_for(bindings@, key@),
        decreases n - i,
    {
        proof {
            assert(bindings@.skip(i as int)[0] == bindings@[i as int]);
            assert(bindings@.skip(i as int).drop_first() =~= bindings@.skip(i + 1));
        }
        let b = &bindings[i];
        if b.id.eq(key) {
            return Some(&b.shortcut);
        }
        i = i + 1;
    }
    proof {
        assert(bindings@.skip(n as int) =~= Seq::<ShortcutBinding>::empty());
    }
    None
}

/// The id of the first list node of the tree, in node order.
pub open spec fn first_list_id(nodes: Seq<WidgetNode>) -> Option<UiWidgetId>
    decreases nodes.len(),
{
    if nodes.len() == 0 {
        None
    } else if nodes[0].kind is List {
        Some(nodes[0].id)
    } else {
        first_list_id(nodes.drop_first())
    }
}

/// One widget of the display-agnostic description handed to the rendering
/// backend: the node together with its current state.
pub struct RenderedNode {
    pub id: UiWidgetId,
    pub kind: WidgetKind,
    pub state: WidgetState,
    pub children: Vec<usize>,
}

/// The display-agnostic description of the installed screen, with its
/// plugin and entrypoint attribution.
pub struct RenderedView {
    pub plugin_name: Option<String>,
    pub entrypoint_name: Option<String>,
    pub nodes: Vec<RenderedNode>,
}

/// A copy of an optional string, exact at the specification level.
fn clone_opt_string(x: &Option<String>) -> (r: Option<String>)
    ensures
        r == *x,
{
    match x {
        Some(s) => Some(s.clone()),
        None => None,
    }
}

/// A copy of an index list, exact at the view level.
fn clone_indices(v: &Vec<usize>) -> (r: Vec<usize>)
    ensures
        r@ == v@,
{
    let mut r: Vec<usize> = Vec::new();
    let n = v.len();
    let mut i: usize = 0;
    while i < n
        invariant
            n == v@.len(),
            i <= n,
            r@ == v@.take(i as int),
        decreases n - i,
    {
        r.push(v[i]);
        proof {
            assert(r@ =~= v@.take(i + 1));
        }
        i = i + 1;
    }
    proof {
        assert(v@.take(n as int) =~= v@);
    }
    r
}

/// The screen a plugin currently has installed: its tree, the per-widget
/// state keyed by widget id, the binary assets, and the plugin/entrypoint
/// attribution.
pub struct PluginWidgetContainer {
    pub root_widget: Option<RootWidget>,
    pub state: HashMap<UiWidgetId, WidgetState>,
    pub images: HashMap<UiWidgetId, bytes::Bytes>,
    pub plugin_id: Option<PluginId>,
    pub plugin_name: Option<String>,
    pub entrypoint_id: Option<EntrypointId>,
    pub entrypoint_name: Option<String>,
}

/// The two containers agree on everything but the widget-state map.
pub open spec fn same_shell(a: PluginWidgetContainer, b: PluginWidgetContainer) -> bool {
    &&& a.root_widget == b.root_widget
    &&& a.images == b.images
    &&& a.plugin_id == b.plugin_id
    &&& a.plugin_name == b.plugin_name
    &&& a.entrypoint_id == b.entrypoint_id
    &&& a.entrypoint_name == b.entrypoint_name
}

impl PluginWidgetContainer {
    /// The state map's key set is exactly the id set of the installed tree
    /// (empty before the first render), and the tree is well formed.
    pub open spec fn wf(&self) -> bool {
        match self.root_widget {
            Some(t) => t.wf() && self.state@.dom() == t.ids(),
            None => self.state@.dom() == Set::<UiWidgetId>::empty(),
        }
    }

    pub fn new() -> (r: Self)
        ensures
            r.root_widget is None,
            r.state@ == Map::<UiWidgetId, WidgetState>::empty(),
            r.images@ == Map::<UiWidgetId, bytes::Bytes>::empty(),
            r.plugin_id is None,
            r.plugin_name is None,
            r.entrypoint_id is None,
            r.entrypoint_name is None,
            r.wf(),
    {
        let r = PluginWidgetContainer {
            root_widget: None,
            state: HashMap::new(),
            images: HashMap::new(),
            plugin_id: None,
            plugin_name: None,
            entrypoint_id: None,
            entrypoint_name: None,
        };
        proof {
            assert(r.state@.dom() =~= Set::<UiWidgetId>::empty());
        }
        r
    }

    /// The plugin the installed screen is attributed to; only meaningful
    /// after the first render has been installed.
    pub fn get_plugin_id(&self) -> (r: PluginId)
        requires
            self.plugin_id is Some,
        ensures
            Some(r) == self.plugin_id,
    {
        match &self.plugin_id {
            Some(p) => p.clone(),
            None => PluginId { value: String::new() },
        }
    }

    /// The entrypoint the installed screen is attributed to; only
    /// meaningful after the first render has been installed.
    pub fn get_entrypoint_id(&self) -> (r: EntrypointId)
        requires
            self.entrypoint_id is Some,
        ensures
            Some(r) == self.entrypoint_id,
    {
        match &self.entrypoint_id {
            Some(e) => e.clone(),
            None => EntrypointId { value: String::new() },
        }
    }

    /// Install a freshly emitted tree, reconciling per-widget state.
    ///
    /// The new state map holds exactly the ids of the new tree: an id
    /// already in the old state map keeps its old state unchanged, a
    /// new-only id gets the default state of its node, and state of every
    /// vanished id is dropped.  The tree, the assets and the attribution
    /// are replaced wholesale.
    pub fn replace_view(
        &mut self,
        container: RootWidget,
        images: HashMap<UiWidgetId, bytes::Bytes>,
        plugin_id: &PluginId,
        plugin_name: &String,
        entrypoint_id: &EntrypointId,
        entrypoint_name: &String,
    )
        requires
            container.wf(),
        ensures
            final(self).wf(),
            final(self).root_widget == Some(container),
            final(self).images == images,
            final(self).plugin_id == Some(*plugin_id),
            final(self).plugin_name == Some(*plugin_name),
            final(self).entrypoint_id == Some(*entrypoint_id),
            final(self).entrypoint_name == Some(*entrypoint_name),
            final(self).state@.dom() == container.ids(),
            forall|j: int|
                0 <= j < container.nodes@.len() ==> {
                    let nd = #[trigger] container.nodes@[j];
                    &&& final(self).state@.contains_key(nd.id)
                    &&& old(self).state@.contains_key(nd.id) ==> final(self).state@[nd.id]
                        == old(self).state@[nd.id]
                    &&& !old(self).state@.contains_key(nd.id) ==> is_default_state(
                        nd,
                        final(self).state@[nd.id],
                    )
                },
            forall|id: UiWidgetId|
                old(self).state@.contains_key(id) && !container.ids().contains(id)
                    ==> !(#[trigger] final(self).state@.contains_key(id)),
    {
        let mut new_state: HashMap<UiWidgetId, WidgetState> = HashMap::new();
        let node_count = container.nodes.len();
        let mut idx: usize = 0;
        proof {
            assert(new_state@.dom() =~= container.id_seq().take(0).to_set());
        }
        while idx < node_count
            invariant
                node_count == container.nodes@.len(),
                container.wf(),
                idx <= node_count,
                *self == *old(self),
                new_state@.dom() == container.id_seq().take(idx as int).to_set(),
                forall|j: int|
                    0 <= j < idx ==> {
                        let nd = #[trigger] container.nodes@[j];
                        &&& new_state@.contains_key(nd.id)
                        &&& old(self).state@.contains_key(nd.id) ==> new_state@[nd.id]
                            == old(self).state@[nd.id]
                        &&& !old(self).state@.contains_key(nd.id) ==> is_default_state(
                            nd,
                            new_state@[nd.id],
                        )
                    },
            decreases node_count - idx,
        {
            let nd = &container.nodes[idx];
            let carried: WidgetState = match self.state.get(&nd.id) {
                Some(s) => s.clone(),
                None => default_state(nd),
            };
            new_state.insert(nd.id, carried);
            proof {
                let s = container.id_seq();
                assert(s.take(idx + 1) =~= s.take(idx as int).push(s[idx as int]));
                s.take(idx as int).lemma_push_to_set_commute(s[idx as int]);
                assert(new_state@.dom() =~= s.take(idx + 1).to_set());
            }
            idx = idx + 1;
        }
        proof {
            assert(container.id_seq().take(node_count as int) =~= container.id_seq());
        }
        self.plugin_id = Some(plugin_id.clone());
        self.plugin_name = Some(plugin_name.clone());
        self.entrypoint_id = Some(entrypoint_id.clone());
        self.entrypoint_name = Some(entrypoint_name.clone());
        self.images = images;
        self.state = new_state;
        self.root_widget = Some(container);
    }

    /// Apply one native interaction to the widget it addresses and hand
    /// back the at-most-one outbound event for the owning plugin.
    ///
    /// When the addressed widget id is absent from the store (the widget
    /// vanished since the event was generated) the call is a documented
    /// no-op: no state mutation, no outbound event, no failure.
    pub fn handle_event(&mut self, plugin_id: PluginId, event: ComponentWidgetEvent) -> (r: Option<
        UiViewEvent,
    >)
        ensures
            same_shell(*final(self), *old(self)),
            !old(self).state@.contains_key(event.widget_id()) ==> {
                &&& final(self).state@ == old(self).state@
                &&& r is None
            },
            old(self).state@.contains_key(event.widget_id()) ==> {
                &&& final(self).state@ == old(self).state@.insert(
                    event.widget_id(),
                    widget_transition(old(self).state@[event.widget_id()], event),
                )
                &&& match widget_emits(old(self).state@[event.widget_id()], event) {
                    Some(k) => r == Some(
                        UiViewEvent { plugin_id, widget_id: event.widget_id(), kind: k },
                    ),
                    None => r is None,
                }
            },
            old(self).wf() ==> final(self).wf(),
    {
        let wid = event.widget_id();
        match self.state.remove(&wid) {
            None => {
                proof {
                    assert(self.state@ =~= old(self).state@);
                }
                None
            },
            Some(s) => {
                let (next, emitted) = apply_widget_event(s, &event);
                self.state.insert(wid, next);
                proof {
                    assert(self.state@ =~= old(self).state@.insert(
                        wid,
                        widget_transition(old(self).state@[wid], event),
                    ));
                    if old(self).wf() {
                        assert(self.state@.dom() =~= old(self).state@.dom());
                    }
                }
                match emitted {
                    Some(k) => Some(UiViewEvent { plugin_id, widget_id: wid, kind: k }),
                    None => None,
                }
            },
        }
    }

    /// The ids of the focusable action widgets of the installed tree, in
    /// node order; empty before the first render.
    pub fn get_action_ids(&self) -> (r: Vec<UiWidgetId>)
        ensures
            match self.root_widget {
                Some(t) => r@ == action_ids_of(t.nodes@),
                None => r@.len() == 0,
            },
    {
        let mut out: Vec<UiWidgetId> = Vec::new();
        match &self.root_widget {
            None => out,
            Some(t) => {
                let n = t.nodes.len();
                let mut i: usize = 0;
                while i < n
                    invariant
                        n == t.nodes@.len(),
                        i <= n,
                        out@ == action_ids_of(t.nodes@.take(i as int)),
                    decreases n - i,
                {
                    proof {
                        assert(t.nodes@.take(i + 1).drop_last() =~= t.nodes@.take(i as int));
                        assert(t.nodes@.take(i + 1).last() == t.nodes@[i as int]);
                    }
                    let nd = &t.nodes[i];
                    match nd.kind {
                        WidgetKind::Action => {
                            out.push(nd.id);
                        },
                        _ => {},
                    }
                    i = i + 1;
                }
                proof {
                    assert(t.nodes@.take(n as int) =~= t.nodes@);
                }
                out
            },
        }
    }

    /// The contextual action panel derived from the installed tree: one
    /// entry per action node, in node order, with labels and the given
    /// shortcut bindings resolved.  Nothing is derived before the first
    /// render.
    pub fn get_action_panel(&self, action_shortcuts: &Vec<ShortcutBinding>) -> (r: Option<
        ActionPanel,
    >)
        ensures
            match self.root_widget {
                Some(t) => r matches Some(p) && p.items@ == action_items_of(
                    t.nodes@,
                    action_shortcuts@,
                ),
                None => r is None,
            },
    {
        let label_name = String::from_str("label");
        let id_name = String::from_str("id");
        match &self.root_widget {
            None => None,
            Some(t) => {
                let mut items: Vec<ActionItem> = Vec::new();
                let n = t.nodes.len();
                let mut i: usize = 0;
                while i < n
                    invariant
                        n == t.nodes@.len(),
                        i <= n,
                        label_name@ == "label"@,
                        id_name@ == "id"@,
                        items@ == action_items_of(t.nodes@.take(i as int), action_shortcuts@),
                    decreases n - i,
                {
                    proof {
                        assert(t.nodes@.take(i + 1).drop_last() =~= t.nodes@.take(i as int));
                        assert(t.nodes@.take(i + 1).last() == t.nodes@[i as int]);
                    }
                    let nd = &t.nodes[i];
                    match nd.kind {
                        WidgetKind::Action => {
                            let label: Option<String> = match find_text_prop(
                                &nd.properties,
                                &label_name,
                            ) {
                                Some(l) => Some(l.clone()),
                                None => None,
                            };
                            let shortcut: Option<PhysicalShortcut> = match find_text_prop(
                                &nd.properties,
                                &id_name,
                            ) {
                                Some(k) => match find_binding(action_shortcuts, k) {
                                    Some(s) => Some(s.clone()),
                                    None => None,
                                },
                                None => None,
                            };
                            items.push(ActionItem { widget_id: nd.id, label, shortcut });
                        },
                        _ => {},
                    }
                    i = i + 1;
                }
                proof {
                    assert(t.nodes@.take(n as int) =~= t.nodes@);
                }
                Some(ActionPanel { items })
            },
        }
    }

    /// Flip whether the installed screen's action panel is shown: the
    /// root node's state carries the flag.  Without an installed tree, or
    /// when the root's state does not carry the flag, nothing changes.
    pub fn toggle_action_panel(&mut self)
        ensures
            same_shell(*final(self), *old(self)),
            old(self).wf() ==> final(self).wf(),
            match old(self).root_widget {
                Some(t) => {
                    if t.nodes@.len() > 0 && old(self).state@.contains_key(t.nodes@[0].id) {
                        match old(self).state@[t.nodes@[0].id] {
                            WidgetState::Root { show_action_panel } => final(self).state@ == old(
                                self,
                            ).state@.insert(
                                t.nodes@[0].id,
                                WidgetState::Root { show_action_panel: !show_action_panel },
                            ),
                            _ => final(self).state@ == old(self).state@,
                        }
                    } else {
                        final(self).state@ == old(self).state@
                    }
                },
                None => final(self).state@ == old(self).state@,
            },
    {
        let root_id: Option<UiWidgetId> = match &self.root_widget {
            Some(t) => if t.nodes.len() > 0 {
                Some(t.nodes[0].id)
            } else {
                None
            },
            None => None,
        };
        match root_id {
            Some(rid) => {
                match self.state.remove(&rid) {
                    Some(st) => {
                        match st {
                            WidgetState::Root { show_action_panel } => {
                                self.state.insert(
                                    rid,
                                    WidgetState::Root { show_action_panel: !show_action_panel },
                                );
                                proof {
                                    assert(self.state@ =~= old(self).state@.insert(
                                        rid,
                                        WidgetState::Root {
                                            show_action_panel: !show_action_panel,
                                        },
                                    ));
                                    if old(self).wf() {
                                        assert(self.state@.dom() =~= old(self).state@.dom());
                                    }
                                }
                            },
                            _ => {
                                self.state.insert(rid, st);
                                proof {
                                    assert(self.state@ =~= old(self).state@);
                                }
                            },
                        }
                    },
                    None => {
                        proof {
                            assert(self.state@ =~= old(self).state@);
                        }
                    },
                }
            },
            None => {},
        }
    }

    /// The list widget that keyboard focus moves over: the first list node
    /// of the installed tree.
    pub open spec fn list_focus_target(&self) -> Option<UiWidgetId> {
        match self.root_widget {
            Some(t) => first_list_id(t.nodes@),
            None => None,
        }
    }

    /// The state map after a focus step `step` over the list cursor: the
    /// target list's selected row moves, everything else stays.
    pub open spec fn state_after_list_step(
        &self,
        step: spec_fn(Option<usize>, usize) -> Option<usize>,
    ) -> Map<UiWidgetId, WidgetState> {
        match self.list_focus_target() {
            Some(lid) => {
                if self.state@.contains_key(lid) {
                    match self.state@[lid] {
                        WidgetState::SelectList { selected, count } => self.state@.insert(
                            lid,
                            WidgetState::SelectList { selected: step(selected, count), count },
                        ),
                        _ => self.state@,
                    }
                } else {
                    self.state@
                }
            },
            None => self.state@,
        }
    }

    /// The first list node's id, as [`first_list_id`] gives it.
    fn find_first_list_id(&self) -> (r: Option<UiWidgetId>)
        ensures
            r == self.list_focus_target(),
    {
        match &self.root_widget {
            None => None,
            Some(t) => {
                let n = t.nodes.len();
                let mut i: usize = 0;
                proof {
                    assert(t.nodes@.skip(0) =~= t.nodes@);
                }
                while i < n
                    invariant
                        n == t.nodes@.len(),
                        i <= n,
                        self.root_widget == Some(*t),
                        first_list_id(t.nodes@.skip(i as int)) == first_list_id(t.nodes@),
                    decreases n - i,
                {
                    proof {
                        assert(t.nodes@.skip(i as int)[0] == t.nodes@[i as int]);
                        assert(t.nodes@.skip(i as int).drop_first() =~= t.nodes@.skip(i + 1));
                    }
                    match t.nodes[i].kind {
                        WidgetKind::List => {
                            return Some(t.nodes[i].id);
                        },
                        _ => {},
                    }
                    i = i + 1;
                }
                proof {
                    assert(t.nodes@.skip(n as int) =~= Seq::<WidgetNode>::empty());
                }
                None
            },
        }
    }

    /// Move the focused row of the installed tree's list one row up, under
    /// the saturating rule; a no-op without a tree, a list, or list state.
    pub fn focus_up(&mut self)
        ensures
            same_shell(*final(self), *old(self)),
            old(self).wf() ==> final(self).wf(),
            final(self).state@ == old(self).state_after_list_step(
                |selected: Option<usize>, count: usize|
                    scroll_prev(ScrollHandle { index: selected }).index,
            ),
    {
        let lid_opt = self.find_first_list_id();
        match lid_opt {
            None => {},
            Some(lid) => {
                match self.state.remove(&lid) {
                    Some(st) => {
                        match st {
                            WidgetState::SelectList { selected, count } => {
                                let mut h = ScrollHandle { index: selected };
                                h.focus_previous();
                                self.state.insert(
                                    lid,
                                    WidgetState::SelectList { selected: h.index, count },
                                );
                                proof {
                                    assert(self.state@ =~= old(self).state@.insert(
                                        lid,
                                        WidgetState::SelectList {
                                            selected: scroll_prev(
                                                ScrollHandle { index: selected },
                                            ).index,
                                            count,
                                        },
                                    ));
                                    if old(self).wf() {
                                        assert(self.state@.dom() =~= old(self).state@.dom());
                                    }
                                }
                            },
                            _ => {
                                self.state.insert(lid, st);
                                proof {
                                    assert(self.state@ =~= old(self).state@);
                                }
                            },
                        }
                    },
                    None => {
                        proof {
                            assert(self.state@ =~= old(self).state@);
                        }
                    },
                }
            },
        }
    }

    /// Move the focused row of the installed tree's list one row down,
    /// under the saturating rule (an unfocused cursor lands on the first
    /// row); a no-op without a tree, a list, list state, or rows.
    pub fn focus_down(&mut self)
        ensures
            same_shell(*final(self), *old(self)),
            old(self).wf() ==> final(self).wf(),
            final(self).state@ == old(self).state_after_list_step(
                |selected: Option<usize>, count: usize|
                    if count > 0 {
                        scroll_next(ScrollHandle { index: selected }, count).index
                    } else {
                        selected
                    },
            ),
    {
        let lid_opt = self.find_first_list_id();
        match lid_opt {
            None => {},
            Some(lid) => {
                match self.state.remove(&lid) {
                    Some(st) => {
                        match st {
                            WidgetState::SelectList { selected, count } => {
                                if count > 0 {
                                    let mut h = ScrollHandle { index: selected };
                                    h.focus_next(count);
                                    self.state.insert(
                                        lid,
                                        WidgetState::SelectList { selected: h.index, count },
                                    );
                                    proof {
                                        assert(self.state@ =~= old(self).state@.insert(
                                            lid,
                                            WidgetState::SelectList {
                                                selected: scroll_next(
                                                    ScrollHandle { index: selected },
                                                    count,
                                                ).index,
                                                count,
                                            },
                                        ));
                                        if old(self).wf() {
                                            assert(self.state@.dom() =~= old(self).state@.dom());
                                        }
                                    }
                                } else {
                                    self.state.insert(
                                        lid,
                                        WidgetState::SelectList { selected, count },
                                    );
                                    proof {
                                        assert(self.state@ =~= old(self).state@);
                                    }
                                }
                            },
                            _ => {
                                self.state.insert(lid, st);
                                proof {
                                    assert(self.state@ =~= old(self).state@);
                                }
                            },
                        }
                    },
                    None => {
                        proof {
                            assert(self.state@ =~= old(self).state@);
                        }
                    },
                }
            },
        }
    }

    /// Horizontal focus movement is a reserved extension point: a no-op in
    /// every current tree.
    pub fn focus_left(&mut self)
        ensures
            *final(self) == *old(self),
    {
    }

    /// Horizontal focus movement is a reserved extension point: a no-op in
    /// every current tree.
    pub fn focus_right(&mut self)
        ensures
            *final(self) == *old(self),
    {
    }

    /// The display-agnostic description of the installed screen: each node
    /// of the tree paired with its current state, in node order; empty
    /// before the first render.
    pub fn render_root_widget(&self) -> (r: Vec<RenderedNode>)
        requires
            self.wf(),
        ensures
            match self.root_widget {
                Some(t) => {
                    &&& r@.len() == t.nodes@.len()
                    &&& forall|i: int|
                        0 <= i < r@.len() ==> {
                            let nd = t.nodes@[i];
                            &&& (#[trigger] r@[i]).id == nd.id
                            &&& r@[i].kind == nd.kind
                            &&& r@[i].state == self.state@[nd.id]
                            &&& r@[i].children@ == nd.children@
                        }
                },
                None => r@.len() == 0,
            },
    {
        let mut out: Vec<RenderedNode> = Vec::new();
        match &self.root_widget {
            None => out,
            Some(t) => {
                let n = t.nodes.len();
                let mut i: usize = 0;
                while i < n
                    invariant
                        n == t.nodes@.len(),
                        i <= n,
                        self.wf(),
                        self.root_widget == Some(*t),
                        out@.len() == i,
                        forall|j: int|
                            0 <= j < i ==> {
                                let nd = t.nodes@[j];
                                &&& (#[trigger] out@[j]).id == nd.id
                                &&& out@[j].kind == nd.kind
                                &&& out@[j].state == self.state@[nd.id]
                                &&& out@[j].children@ == nd.children@
                            },
                    decreases n - i,
                {
                    let nd = &t.nodes[i];
                    proof {
                        assert(t.id_seq()[i as int] == nd.id);
                        assert(t.ids().contains(nd.id));
                    }
                    let st: WidgetState = match self.state.get(&nd.id) {
                        Some(s) => s.clone(),
                        None => vstd::pervasive::unreached(),
                    };
                    out.push(
                        RenderedNode {
                            id: nd.id,
                            kind: nd.kind,
                            state: st,
                            children: clone_indices(&nd.children),
                        },
                    );
                    i = i + 1;
                }
                out
            },
        }
    }

    /// The display-agnostic description of the installed screen together
    /// with its plugin and entrypoint attribution, for a screen shown
    /// inline under the search palette.
    pub fn render_inline_root_widget(&self) -> (r: RenderedView)
        requires
            self.wf(),
        ensures
            r.plugin_name == self.plugin_name,
            r.entrypoint_name == self.entrypoint_name,
            match self.root_widget {
                Some(t) => {
                    &&& r.nodes@.len() == t.nodes@.len()
                    &&& forall|i: int|
                        0 <= i < r.nodes@.len() ==> {
                            let nd = t.nodes@[i];
                            &&& (#[trigger] r.nodes@[i]).id == nd.id
                            &&& r.nodes@[i].kind == nd.kind
                            &&& r.nodes@[i].state == self.state@[nd.id]
                            &&& r.nodes@[i].children@ == nd.children@
                        }
                },
                None => r.nodes@.len() == 0,
            },
    {
        RenderedView {
            plugin_name: clone_opt_string(&self.plugin_name),
            entrypoint_name: clone_opt_string(&self.entrypoint_name),
            nodes: self.render_root_widget(),
        }
    }

    /// The size in bytes of the binary asset attached to the given widget,
    /// when one is.
    pub fn asset_size(&self, widget_id: UiWidgetId) -> (r: Option<usize>)
        ensures
            match r {
                Some(n) => self.images@.contains_key(widget_id) && n == bytes_data(
                    self.images@[widget_id],
                ).len(),
                None => !self.images@.contains_key(widget_id),
            },
    {
        match self.images.get(&widget_id) {
            Some(b) => Some(bytes_len(b)),
            None => None,
        }
    }
}

} // verus!
