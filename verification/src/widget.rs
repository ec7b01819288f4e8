//! Declarative widget tree model and per-widget state.
//!
//! A plugin render emits one [`RootWidget`]: an arena of [`WidgetNode`]s
//! whose first node is the root and whose `children` lists are indices into
//! the arena.  Widget identifiers are unique within one emitted tree but
//! not across renders.  [`WidgetState`] is the mutable UI state one widget
//! carries between renders; every widget kind has a default state derived
//! from its node alone.  A native interaction becomes a
//! [`ComponentWidgetEvent`], and its effect on one widget's state is the
//! pure transition [`widget_transition`] / [`widget_emits`].

use vstd::prelude::*;

use crate::model::PluginId;

verus! {

/// Identifier of one widget, unique within one emitted tree.
pub type UiWidgetId = u64;

/// A property value a plugin attached to a widget node.
pub enum PropertyValue {
    Text(String),
    Number(i64),
    Bool(bool),
    /// An event-handler slot; which handler is implied by the property name.
    Function,
}

/// One named property of a widget node.
pub struct WidgetProperty {
    pub name: String,
    pub value: PropertyValue,
}

/// The kind tag of a widget node.
#[derive(Clone, Copy)]
pub enum WidgetKind {
    /// The screen container; carries whether its action panel is open.
    Root,
    /// A one-line text input; carries its contents.
    TextField,
    /// A toggle; carries its value.
    Checkbox,
    /// An ordered list; carries the selected row.
    List,
    /// One contextual action.
    Action,
    /// Static text.
    Label,
    /// An image; its bitmap travels in the asset map, keyed by widget id.
    Image,
}

/// One node of an emitted widget tree.
pub struct WidgetNode {
    pub id: UiWidgetId,
    pub kind: WidgetKind,
    pub properties: Vec<WidgetProperty>,
    pub children: Vec<usize>,
}

/// One immutable widget tree, as a plugin emitted it: an arena whose first
/// node (when any) is the root; `children` hold arena indices.
pub struct RootWidget {
    pub nodes: Vec<WidgetNode>,
}

impl RootWidget {
    /// The widget ids of the tree, in node order.
    pub open spec fn id_seq(&self) -> Seq<UiWidgetId> {
        self.nodes@.map(|i: int, n: WidgetNode| n.id)
    }

    /// The set of widget ids present in the tree.
    pub open spec fn ids(&self) -> Set<UiWidgetId> {
        self.id_seq().to_set()
    }

    /// Widget ids are unique within the tree and child indices stay inside
    /// the arena.
    pub open spec fn wf(&self) -> bool {
        &&& forall|i: int, j: int|
            0 <= i < j < self.nodes@.len() ==> self.nodes@[i].id != self.nodes@[j].id
        &&& forall|i: int, c: int|
            0 <= i < self.nodes@.len() && 0 <= c < self.nodes@[i].children@.len()
                ==> (#[trigger] self.nodes@[i].children@[c]) < self.nodes@.len()
    }
}

/// Mutable UI state of one widget, kept across renders while its id
/// survives.
pub enum WidgetState {
    /// State of the screen container: whether the action panel is open.
    Root { show_action_panel: bool },
    /// Contents of a text input.
    TextField { value: String },
    /// Value of a toggle.
    Toggle { value: bool },
    /// Selected row of a list over `count` rows.
    SelectList { selected: Option<usize>, count: usize },
    /// Kinds that carry no mutable state.
    Stateless,
}

impl Clone for WidgetState {
    fn clone(&self) -> (r: Self)
        ensures
            r == *self,
    {
        match self {
            WidgetState::Root { show_action_panel } => WidgetState::Root {
                show_action_panel: *show_action_panel,
            },
            WidgetState::TextField { value } => WidgetState::TextField { value: value.clone() },
            WidgetState::Toggle { value } => WidgetState::Toggle { value: *value },
            WidgetState::SelectList { selected, count } => WidgetState::SelectList {
                selected: *selected,
                count: *count,
            },
            WidgetState::Stateless => WidgetState::Stateless,
        }
    }
}

/// `st` is the default state for a freshly appeared node `n`: empty text
/// input, unset toggle, unselected list over the node's rows, closed panel.
pub open spec fn is_default_state(n: WidgetNode, st: WidgetState) -> bool {
    match n.kind {
        WidgetKind::Root => st == (WidgetState::Root { show_action_panel: false }),
        WidgetKind::TextField => st matches WidgetState::TextField { value } && value@
            == Seq::<char>::empty(),
        WidgetKind::Checkbox => st == (WidgetState::Toggle { value: false }),
        WidgetKind::List => st == (WidgetState::SelectList {
            selected: None,
            count: n.children@.len() as usize,
        }),
        WidgetKind::Action => st is Stateless,
        WidgetKind::Label => st is Stateless,
        WidgetKind::Image => st is Stateless,
    }
}

/// The default state of a freshly appeared node.
pub fn default_state(n: &WidgetNode) -> (st: WidgetState)
    ensures
        is_default_state(*n, st),
{
    match n.kind {
        WidgetKind::Root => WidgetState::Root { show_action_panel: false },
        WidgetKind::TextField => WidgetState::TextField { value: String::new() },
        WidgetKind::Checkbox => WidgetState::Toggle { value: false },
        WidgetKind::List => WidgetState::SelectList { selected: None, count: n.children.len() },
        WidgetKind::Action => WidgetState::Stateless,
        WidgetKind::Label => WidgetState::Stateless,
        WidgetKind::Image => WidgetState::Stateless,
    }
}

/// One native interaction, tagged with the widget it happened on.
pub enum ComponentWidgetEvent {
    TextChanged { widget_id: UiWidgetId, value: String },
    Clicked { widget_id: UiWidgetId },
    Toggled { widget_id: UiWidgetId, value: bool },
    SelectionChanged { widget_id: UiWidgetId, index: usize },
}

impl ComponentWidgetEvent {
    /// The widget the interaction is addressed to.
    pub open spec fn spec_widget_id(&self) -> UiWidgetId {
        match self {
            ComponentWidgetEvent::TextChanged { widget_id, .. } => *widget_id,
            ComponentWidgetEvent::Clicked { widget_id } => *widget_id,
            ComponentWidgetEvent::Toggled { widget_id, .. } => *widget_id,
            ComponentWidgetEvent::SelectionChanged { widget_id, .. } => *widget_id,
        }
    }

    #[verifier::when_used_as_spec(spec_widget_id)]
    pub fn widget_id(&self) -> (r: UiWidgetId)
        ensures
            r == self.spec_widget_id(),
    {
        match self {
            ComponentWidgetEvent::TextChanged { widget_id, .. } => *widget_id,
            ComponentWidgetEvent::Clicked { widget_id } => *widget_id,
            ComponentWidgetEvent::Toggled { widget_id, .. } => *widget_id,
            ComponentWidgetEvent::SelectionChanged { widget_id, .. } => *widget_id,
        }
    }
}

/// Payload of one outbound event delivered back into the owning plugin.
pub enum UiEventKind {
    TextChanged(String),
    Clicked,
    Toggled(bool),
    SelectionChanged(usize),
}

/// One outbound view event: at most one is produced per native interaction.
pub struct UiViewEvent {
    pub plugin_id: PluginId,
    pub widget_id: UiWidgetId,
    pub kind: UiEventKind,
}

/// The widget state after one interaction: a text change, a toggle or a
/// selection lands in the matching state kind; a click never changes
/// state; an interaction of a kind the state cannot absorb leaves it
/// unchanged.
pub open spec fn widget_transition(st: WidgetState, ev: ComponentWidgetEvent) -> WidgetState {
    match ev {
        ComponentWidgetEvent::TextChanged { value, .. } => match st {
            WidgetState::TextField { .. } => WidgetState::TextField { value },
            _ => st,
        },
        ComponentWidgetEvent::Clicked { .. } => st,
        ComponentWidgetEvent::Toggled { value, .. } => match st {
            WidgetState::Toggle { .. } => WidgetState::Toggle { value },
            _ => st,
        },
        ComponentWidgetEvent::SelectionChanged { index, .. } => match st {
            WidgetState::SelectList { count, .. } => WidgetState::SelectList {
                selected: if (index as nat) < count { Some(index) } else { None },
                count,
            },
            _ => st,
        },
    }
}

/// The outbound payload one interaction produces: exactly one for an
/// interaction the state absorbs (and for any click), none otherwise.
pub open spec fn widget_emits(st: WidgetState, ev: ComponentWidgetEvent) -> Option<UiEventKind> {
    match ev {
        ComponentWidgetEvent::TextChanged { value, .. } => match st {
            WidgetState::TextField { .. } => Some(UiEventKind::TextChanged(value)),
            _ => None,
        },
        ComponentWidgetEvent::Clicked { .. } => Some(UiEventKind::Clicked),
        ComponentWidgetEvent::Toggled { value, .. } => match st {
            WidgetState::Toggle { .. } => Some(UiEventKind::Toggled(value)),
            _ => None,
        },
        ComponentWidgetEvent::SelectionChanged { index, .. } => match st {
            WidgetState::SelectList { count, .. } => if (index as nat) < count {
                Some(UiEventKind::SelectionChanged(index))
            } else {
                None
            },
            _ => None,
        },
    }
}

/// Apply one interaction to one widget's state: the pure
/// `(event, old state) -> (new state, optional outbound event)` transition.
pub fn apply_widget_event(st: WidgetState, ev: &ComponentWidgetEvent) -> (r: (
    WidgetState,
    Option<UiEventKind>,
))
    ensures
        r.0 == widget_transition(st, *ev),
        r.1 == widget_emits(st, *ev),
{
    match ev {
        ComponentWidgetEvent::TextChanged { value, .. } => {
            match st {
                WidgetState::TextField { .. } => {
                    let new_value = value.clone();
                    let emitted = value.clone();
                    (
                        WidgetState::TextField { value: new_value },
                        Some(UiEventKind::TextChanged(emitted)),
                    )
                },
                _ => (st, None),
            }
        },
        ComponentWidgetEvent::Clicked { .. } => (st, Some(UiEventKind::Clicked)),
        ComponentWidgetEvent::Toggled { value, .. } => {
            match st {
                WidgetState::Toggle { .. } => (
                    WidgetState::Toggle { value: *value },
                    Some(UiEventKind::Toggled(*value)),
                ),
                _ => (st, None),
            }
        },
        ComponentWidgetEvent::SelectionChanged { index, .. } => {
            match st {
                WidgetState::SelectList { count, .. } => {
                    if *index < count {
                        (
                            WidgetState::SelectList { selected: Some(*index), count },
                            Some(UiEventKind::SelectionChanged(*index)),
                        )
                    } else {
                        (WidgetState::SelectList { selected: None, count }, None)
                    }
                },
                _ => (st, None),
            }
        },
    }
}

} // verus!
