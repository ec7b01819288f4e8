//! Identifiers and plain values shared by the whole engine.
//!
//! A plugin is addressed by an opaque stable [`PluginId`]; each of its
//! screens by an [`EntrypointId`].  A [`SearchResult`] is one match surfaced
//! by the external search collaborator: this engine only orders and focuses
//! such results.  [`AppMsg`] is the outbound command surface: every view
//! transition hands back a list of these for the embedding shell to perform.

use vstd::prelude::*;

verus! {

/// Opaque stable identifier of one loaded plugin.
pub struct PluginId {
    pub value: String,
}

impl View for PluginId {
    type V = Seq<char>;

    open spec fn view(&self) -> Seq<char> {
        self.value@
    }
}

impl PluginId {
    pub fn from_string(value: String) -> (r: PluginId)
        ensures
            r@ == value@,
    {
        PluginId { value }
    }
}

impl Clone for PluginId {
    fn clone(&self) -> (r: Self)
        ensures
            r == *self,
    {
        PluginId { value: self.value.clone() }
    }
}

/// Identifier of one named, independently invocable screen of a plugin.
pub struct EntrypointId {
    pub value: String,
}

impl View for EntrypointId {
    type V = Seq<char>;

    open spec fn view(&self) -> Seq<char> {
        self.value@
    }
}

impl EntrypointId {
    pub fn from_string(value: String) -> (r: EntrypointId)
        ensures
            r@ == value@,
    {
        EntrypointId { value }
    }
}

impl Clone for EntrypointId {
    fn clone(&self) -> (r: Self)
        ensures
            r == *self,
    {
        EntrypointId { value: self.value.clone() }
    }
}

/// A keyboard shortcut as the embedding input layer reports it.
pub struct PhysicalShortcut {
    pub physical_key: String,
    pub modifier_shift: bool,
    pub modifier_control: bool,
    pub modifier_alt: bool,
    pub modifier_meta: bool,
}

impl Clone for PhysicalShortcut {
    fn clone(&self) -> (r: Self)
        ensures
            r == *self,
    {
        PhysicalShortcut {
            physical_key: self.physical_key.clone(),
            modifier_shift: self.modifier_shift,
            modifier_control: self.modifier_control,
            modifier_alt: self.modifier_alt,
            modifier_meta: self.modifier_meta,
        }
    }
}

/// One named shortcut binding: the action identifier a plugin declared,
/// with the shortcut assigned to it.
pub struct ShortcutBinding {
    pub id: String,
    pub shortcut: PhysicalShortcut,
}

impl Clone for ShortcutBinding {
    fn clone(&self) -> (r: Self)
        ensures
            r == *self,
    {
        ShortcutBinding { id: self.id.clone(), shortcut: self.shortcut.clone() }
    }
}

/// One match surfaced by the external search collaborator.  Beyond being
/// focusable and orderable its content is opaque to this engine.
pub struct SearchResult {
    pub plugin_id: PluginId,
    pub plugin_name: String,
    pub entrypoint_id: EntrypointId,
    pub entrypoint_name: String,
}

impl Clone for SearchResult {
    fn clone(&self) -> (r: Self)
        ensures
            r == *self,
    {
        SearchResult {
            plugin_id: self.plugin_id.clone(),
            plugin_name: self.plugin_name.clone(),
            entrypoint_id: self.entrypoint_id.clone(),
            entrypoint_name: self.entrypoint_name.clone(),
        }
    }
}

/// Commands the view state machine hands back to the embedding shell.
/// Each abstract keyboard command yields a (possibly empty) list of these.
pub enum AppMsg {
    /// Hide the launcher window; view state is kept as it is.
    HideWindow,
    /// The search prompt text changed; the shell re-runs the query.
    PromptChanged(String),
    /// Move keyboard focus back into the search input.
    FocusSearchField,
    /// Run the default action of the given search result.
    RunSearchItemAction(SearchResult),
    /// Run the focused action-panel item, identified by its index.
    OnEntrypointAction(usize),
    /// Close a standalone plugin view.
    ClosePluginView(PluginId),
    /// Re-open the parent view for the given plugin screen.
    OpenPluginView(PluginId, EntrypointId),
}

} // verus!
