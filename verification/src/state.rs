//! Top-level view state machine.
//!
//! [`GlobalState`] is the process-wide UI state: at any time it is exactly
//! one of a search palette ([`GlobalState::MainView`]), a plugin screen
//! ([`GlobalState::PluginView`]) or an error screen
//! ([`GlobalState::ErrorView`]).  Eight abstract keyboard commands drive it;
//! each command mutates the state at most once and hands back the list of
//! [`AppMsg`] commands the embedding shell must perform.

use vstd::prelude::*;

use crate::model::AppMsg;
use crate::model::EntrypointId;
use crate::model::PluginId;
use crate::model::SearchResult;
use crate::model::ShortcutBinding;

verus! {

/// A saturating focus cursor over an ordered list: either nothing is
/// focused, or one valid index is.
pub struct ScrollHandle {
    pub index: Option<usize>,
}

/// The cursor is `None` or a valid index strictly below `len`.
impl ScrollHandle {
    pub open spec fn in_bounds(&self, len: nat) -> bool {
        match self.index {
            Some(i) => (i as nat) < len,
            None => true,
        }
    }
}

/// Cursor after one step towards the front: decremented when a position
/// above zero is focused, unchanged otherwise (no wraparound).
pub open spec fn scroll_prev(h: ScrollHandle) -> ScrollHandle {
    match h.index {
        Some(i) => if i > 0 {
            ScrollHandle { index: Some((i - 1) as usize) }
        } else {
            h
        },
        None => h,
    }
}

/// Cursor after one step towards the back of a list of length `len`:
/// an unfocused cursor lands on the first entry, a focused one advances
/// and saturates at `len - 1` (no wraparound).
pub open spec fn scroll_next(h: ScrollHandle, len: usize) -> ScrollHandle
    recommends
        len > 0,
{
    match h.index {
        None => ScrollHandle { index: Some(0usize) },
        Some(i) => if i + 1 < len {
            ScrollHandle { index: Some((i + 1) as usize) }
        } else {
            ScrollHandle { index: Some((len - 1) as usize) }
        },
    }
}

impl ScrollHandle {
    pub fn new() -> (r: ScrollHandle)
        ensures
            r.index is None,
    {
        ScrollHandle { index: None }
    }

    /// Move the focus one entry towards the front, saturating at the first
    /// entry and leaving an unfocused cursor unfocused.
    pub fn focus_previous(&mut self)
        ensures
            *final(self) == scroll_prev(*old(self)),
    {
        match self.index {
            Some(i) => {
                if i > 0 {
                    self.index = Some(i - 1);
                }
            },
            None => {},
        }
    }

    /// Move the focus one entry towards the back of a list of length `len`,
    /// focusing the first entry when nothing was focused and saturating at
    /// the last entry.
    pub fn focus_next(&mut self, len: usize)
        requires
            len > 0,
        ensures
            *final(self) == scroll_next(*old(self), len),
            final(self).in_bounds(len as nat),
    {
        match self.index {
            None => {
                self.index = Some(0);
            },
            Some(i) => {
                if i < len - 1 {
                    self.index = Some(i + 1);
                } else {
                    self.index = Some(len - 1);
                }
            },
        }
    }

    /// The focused entry of `results`, when one is focused and its index is
    /// still valid.
    pub fn get<'a>(&self, results: &'a Vec<SearchResult>) -> (r: Option<&'a SearchResult>)
        ensures
            match self.index {
                Some(i) => {
                    if (i as nat) < results@.len() {
                        r == Some(&results@[i as int])
                    } else {
                        r is None
                    }
                },
                None => r is None,
            },
    {
        match self.index {
            Some(i) => {
                if i < results.len() {
                    Some(&results[i])
                } else {
                    None
                }
            },
            None => None,
        }
    }
}

/// Sub-state of the search palette: either plain, or with the contextual
/// action panel open over the focused item.
pub enum MainViewState {
    NoPanel,
    ActionPanel { focused_action_item: ScrollHandle, action_count: usize },
}

/// Metadata of a screen currently attributed to a plugin.  `top_level_view`
/// distinguishes a standalone plugin window from a screen nested under the
/// search palette.
pub struct PluginViewData {
    pub top_level_view: bool,
    pub plugin_id: PluginId,
    pub plugin_name: String,
    pub entrypoint_id: EntrypointId,
    pub entrypoint_name: String,
    pub action_shortcuts: Vec<ShortcutBinding>,
}

/// What the error screen shows.
pub enum ErrorViewData {
    /// The entrypoint cannot render until its required preferences are set.
    PreferenceRequired {
        plugin_id: PluginId,
        entrypoint_id: EntrypointId,
        plugin_preferences_required: bool,
        entrypoint_preferences_required: bool,
    },
    /// Plugin code faulted while handling an event or producing a tree.
    PluginError { plugin_id: PluginId, entrypoint_id: EntrypointId },
    /// No render completed within the bounded interval.
    BackendTimeout,
    /// Catch-all, carrying a display string.
    UnknownError { display: String },
}

/// Process-wide UI state: exactly one screen is active at all times.
pub enum GlobalState {
    MainView {
        prompt: String,
        focused_search_result: ScrollHandle,
        sub_state: MainViewState,
        pending_plugin_view_data: Option<PluginViewData>,
        search_results: Vec<SearchResult>,
    },
    ErrorView { error_view: ErrorViewData },
    PluginView(PluginViewData),
}

/// The freshly initialized search palette: empty prompt, no results, no
/// focus, no panel.
pub open spec fn is_initial_main_view(s: GlobalState) -> bool {
    &&& s matches GlobalState::MainView {
        prompt,
        focused_search_result,
        sub_state,
        pending_plugin_view_data,
        search_results,
    }
    &&& prompt@ == Seq::<char>::empty()
    &&& focused_search_result.index is None
    &&& sub_state is NoPanel
    &&& pending_plugin_view_data is None
    &&& search_results@ == Seq::<SearchResult>::empty()
}

/// `s` with its palette sub-state replaced; meaningful only for the
/// search-palette variant.
pub open spec fn with_sub_state(s: GlobalState, ss: MainViewState) -> GlobalState {
    match s {
        GlobalState::MainView {
            prompt,
            focused_search_result,
            sub_state: _,
            pending_plugin_view_data,
            search_results,
        } => GlobalState::MainView {
            prompt,
            focused_search_result,
            sub_state: ss,
            pending_plugin_view_data,
            search_results,
        },
        _ => s,
    }
}

/// `s` with its search-result focus cursor replaced; meaningful only for
/// the search-palette variant.
pub open spec fn with_search_cursor(s: GlobalState, h: ScrollHandle) -> GlobalState {
    match s {
        GlobalState::MainView {
            prompt,
            focused_search_result: _,
            sub_state,
            pending_plugin_view_data,
            search_results,
        } => GlobalState::MainView {
            prompt,
            focused_search_result: h,
            sub_state,
            pending_plugin_view_data,
            search_results,
        },
        _ => s,
    }
}

impl GlobalState {
    /// Every focus cursor is `None` or a valid index into the list it
    /// ranges over.
    pub open spec fn wf(&self) -> bool {
        match self {
            GlobalState::MainView { focused_search_result, sub_state, search_results, .. } => {
                &&& focused_search_result.in_bounds(search_results@.len())
                &&& match sub_state {
                    MainViewState::ActionPanel { focused_action_item, action_count } => {
                        focused_action_item.in_bounds(*action_count as nat)
                    },
                    MainViewState::NoPanel => true,
                }
            },
            _ => true,
        }
    }

    pub fn new() -> (r: GlobalState)
        ensures
            is_initial_main_view(r),
            r.wf(),
    {
        GlobalState::MainView {
            prompt: String::new(),
            focused_search_result: ScrollHandle::new(),
            sub_state: MainViewState::NoPanel,
            pending_plugin_view_data: None,
            search_results: Vec::new(),
        }
    }

    pub fn new_error(error_view_data: ErrorViewData) -> (r: GlobalState)
        ensures
            r == (GlobalState::ErrorView { error_view: error_view_data }),
            r.wf(),
    {
        GlobalState::ErrorView { error_view: error_view_data }
    }

    pub fn new_plugin(plugin_view_data: PluginViewData) -> (r: GlobalState)
        ensures
            r == GlobalState::PluginView(plugin_view_data),
            r.wf(),
    {
        GlobalState::PluginView(plugin_view_data)
    }

    /// Reset to the initial search palette.  The shell is told to refocus
    /// the search input and to re-run the (now empty) prompt.
    pub fn initial(prev_global_state: &mut GlobalState) -> (msgs: Vec<AppMsg>)
        ensures
            is_initial_main_view(*final(prev_global_state)),
            final(prev_global_state).wf(),
            msgs@.len() == 2,
            msgs@[0] is FocusSearchField,
            msgs@[1] matches AppMsg::PromptChanged(p) && p@ == Seq::<char>::empty(),
    {
        *prev_global_state = GlobalState::new();
        let mut msgs: Vec<AppMsg> = Vec::new();
        msgs.push(AppMsg::FocusSearchField);
        msgs.push(AppMsg::PromptChanged(String::new()));
        msgs
    }

    /// Replace the whole screen by the error screen; the prior screen is
    /// not overlaid but gone.
    pub fn error(prev_global_state: &mut GlobalState, error_view_data: ErrorViewData) -> (msgs: Vec<
        AppMsg,
    >)
        ensures
            *final(prev_global_state) == (GlobalState::ErrorView { error_view: error_view_data }),
            final(prev_global_state).wf(),
            msgs@.len() == 0,
    {
        *prev_global_state = GlobalState::ErrorView { error_view: error_view_data };
        Vec::new()
    }

    /// Replace the whole screen by a plugin screen.
    pub fn plugin(prev_global_state: &mut GlobalState, plugin_view_data: PluginViewData) -> (msgs:
        Vec<AppMsg>)
        ensures
            *final(prev_global_state) == GlobalState::PluginView(plugin_view_data),
            final(prev_global_state).wf(),
            msgs@.len() == 0,
    {
        *prev_global_state = GlobalState::PluginView(plugin_view_data);
        Vec::new()
    }

    /// `enter` runs what is focused.  On the plain search palette it runs
    /// the default action of the focused result (or nothing when nothing is
    /// focused); with the action panel open it runs the focused panel item
    /// and closes the panel.  The error screen ignores it.  The plugin
    /// screen does not interpret `enter`, so that state is excluded.
    pub fn enter(&mut self) -> (msgs: Vec<AppMsg>)
        requires
            !(*old(self) is PluginView),
            old(self).wf(),
        ensures
            final(self).wf(),
            *old(self) matches GlobalState::MainView {
                sub_state: MainViewState::NoPanel,
                focused_search_result,
                search_results,
                ..
            } ==> {
                &&& *final(self) == *old(self)
                &&& match focused_search_result.index {
                    Some(i) => msgs@.len() == 1 && msgs@[0] == AppMsg::RunSearchItemAction(
                        search_results@[i as int],
                    ),
                    None => msgs@.len() == 0,
                }
            },
            *old(self) matches GlobalState::MainView {
                sub_state: MainViewState::ActionPanel { focused_action_item, .. },
                ..
            } ==> {
                &&& *final(self) == with_sub_state(*old(self), MainViewState::NoPanel)
                &&& match focused_action_item.index {
                    Some(i) => msgs@.len() == 1 && msgs@[0] == AppMsg::OnEntrypointAction(i),
                    None => msgs@.len() == 0,
                }
            },
            *old(self) is ErrorView ==> *final(self) == *old(self) && msgs@.len() == 0,
    {
        match self {
            GlobalState::MainView { sub_state, focused_search_result, search_results, .. } => {
                match sub_state {
                    MainViewState::NoPanel => {
                        let mut msgs: Vec<AppMsg> = Vec::new();
                        match focused_search_result.get(search_results) {
                            Some(search_item) => {
                                let search_item = search_item.clone();
                                msgs.push(AppMsg::RunSearchItemAction(search_item));
                            },
                            None => {},
                        }
                        msgs
                    },
                    MainViewState::ActionPanel { focused_action_item, .. } => {
                        let mut msgs: Vec<AppMsg> = Vec::new();
                        match focused_action_item.index {
                            Some(i) => {
                                msgs.push(AppMsg::OnEntrypointAction(i));
                            },
                            None => {},
                        }
                        *sub_state = MainViewState::NoPanel;
                        msgs
                    },
                }
            },
            GlobalState::PluginView(_) => vstd::pervasive::unreached(),
            GlobalState::ErrorView { .. } => Vec::new(),
        }
    }

    /// `escape` goes one level back.  The plain search palette asks the
    /// shell to hide the window and keeps its state; an open action panel
    /// merely closes.  A standalone plugin screen closes and the palette is
    /// re-initialized; a nested one navigates back to its parent view.  The
    /// error screen asks the shell to hide the window.
    pub fn escape(&mut self) -> (msgs: Vec<AppMsg>)
        requires
            old(self).wf(),
        ensures
            final(self).wf(),
            *old(self) matches GlobalState::MainView { sub_state: MainViewState::NoPanel, .. }
                ==> *final(self) == *old(self) && msgs@.len() == 1 && msgs@[0] is HideWindow,
            *old(self) matches GlobalState::MainView {
                sub_state: MainViewState::ActionPanel { .. },
                ..
            } ==> {
                &&& *final(self) == with_sub_state(*old(self), MainViewState::NoPanel)
                &&& msgs@.len() == 0
            },
            *old(self) matches GlobalState::PluginView(data) ==> {
                &&& data.top_level_view ==> {
                    &&& is_initial_main_view(*final(self))
                    &&& msgs@.len() == 3
                    &&& msgs@[0] == AppMsg::ClosePluginView(data.plugin_id)
                    &&& msgs@[1] is FocusSearchField
                    &&& msgs@[2] matches AppMsg::PromptChanged(p) && p@ == Seq::<char>::empty()
                }
                &&& !data.top_level_view ==> {
                    &&& *final(self) == *old(self)
                    &&& msgs@.len() == 1
                    &&& msgs@[0] == AppMsg::OpenPluginView(data.plugin_id, data.entrypoint_id)
                }
            },
            *old(self) is ErrorView ==> *final(self) == *old(self) && msgs@.len() == 1
                && msgs@[0] is HideWindow,
    {
        match self {
            GlobalState::MainView { sub_state, .. } => {
                match sub_state {
                    MainViewState::NoPanel => {
                        let mut msgs: Vec<AppMsg> = Vec::new();
                        msgs.push(AppMsg::HideWindow);
                        msgs
                    },
                    MainViewState::ActionPanel { .. } => {
                        *sub_state = MainViewState::NoPanel;
                        Vec::new()
                    },
                }
            },
            GlobalState::PluginView(data) => {
                let top_level_view = data.top_level_view;
                let plugin_id = data.plugin_id.clone();
                let entrypoint_id = data.entrypoint_id.clone();
                let mut msgs: Vec<AppMsg> = Vec::new();
                if top_level_view {
                    msgs.push(AppMsg::ClosePluginView(plugin_id));
                    *self = GlobalState::new();
                    msgs.push(AppMsg::FocusSearchField);
                    msgs.push(AppMsg::PromptChanged(String::new()));
                } else {
                    msgs.push(AppMsg::OpenPluginView(plugin_id, entrypoint_id));
                }
                msgs
            },
            GlobalState::ErrorView { .. } => {
                let mut msgs: Vec<AppMsg> = Vec::new();
                msgs.push(AppMsg::HideWindow);
                msgs
            },
        }
    }

    /// `tab` is a reserved extension point: a no-op in every current state.
    pub fn tab(&mut self) -> (msgs: Vec<AppMsg>)
        ensures
            *final(self) == *old(self),
            msgs@.len() == 0,
    {
        Vec::new()
    }

    /// `shift_tab` is a reserved extension point: a no-op in every current
    /// state.
    pub fn shift_tab(&mut self) -> (msgs: Vec<AppMsg>)
        ensures
            *final(self) == *old(self),
            msgs@.len() == 0,
    {
        Vec::new()
    }

    /// `arrow_up` moves the active focus cursor one entry towards the
    /// front, saturating at the first entry: on the plain search palette
    /// the result cursor, with the action panel open the panel cursor.
    /// Plugin and error screens ignore it.
    pub fn arrow_up(&mut self) -> (msgs: Vec<AppMsg>)
        requires
            old(self).wf(),
        ensures
            final(self).wf(),
            msgs@.len() == 0,
            *old(self) matches GlobalState::MainView {
                sub_state: MainViewState::NoPanel,
                focused_search_result,
                ..
            } ==> *final(self) == with_search_cursor(*old(self), scroll_prev(focused_search_result)),
            *old(self) matches GlobalState::MainView {
                sub_state: MainViewState::ActionPanel { focused_action_item, action_count },
                ..
            } ==> *final(self) == with_sub_state(
                *old(self),
                MainViewState::ActionPanel {
                    focused_action_item: scroll_prev(focused_action_item),
                    action_count,
                },
            ),
            !(*old(self) is MainView) ==> *final(self) == *old(self),
    {
        match self {
            GlobalState::MainView { sub_state, focused_search_result, .. } => {
                match sub_state {
                    MainViewState::NoPanel => {
                        focused_search_result.focus_previous();
                    },
                    MainViewState::ActionPanel { focused_action_item, .. } => {
                        focused_action_item.focus_previous();
                    },
                }
            },
            GlobalState::ErrorView { .. } => {},
            GlobalState::PluginView(_) => {},
        }
        Vec::new()
    }

    /// `arrow_down` moves the active focus cursor one entry towards the
    /// back, saturating at the last entry; over an empty list it is a
    /// no-op, and from an unfocused cursor over a non-empty list it focuses
    /// the first entry.  Plugin and error screens ignore it.
    pub fn arrow_down(&mut self) -> (msgs: Vec<AppMsg>)
        requires
            old(self).wf(),
        ensures
            final(self).wf(),
            msgs@.len() == 0,
            *old(self) matches GlobalState::MainView {
                sub_state: MainViewState::NoPanel,
                focused_search_result,
                search_results,
                ..
            } ==> {
                if search_results@.len() == 0 {
                    *final(self) == *old(self)
                } else {
                    *final(self) == with_search_cursor(
                        *old(self),
                        scroll_next(focused_search_result, search_results@.len() as usize),
                    )
                }
            },
            *old(self) matches GlobalState::MainView {
                sub_state: MainViewState::ActionPanel { focused_action_item, action_count },
                ..
            } ==> {
                if action_count == 0 {
                    *final(self) == *old(self)
                } else {
                    *final(self) == with_sub_state(
                        *old(self),
                        MainViewState::ActionPanel {
                            focused_action_item: scroll_next(focused_action_item, action_count),
                            action_count,
                        },
                    )
                }
            },
            !(*old(self) is MainView) ==> *final(self) == *old(self),
    {
        match self {
            GlobalState::MainView { sub_state, focused_search_result, search_results, .. } => {
                match sub_state {
                    MainViewState::NoPanel => {
                        if search_results.len() != 0 {
                            focused_search_result.focus_next(search_results.len());
                        }
                    },
                    MainViewState::ActionPanel { focused_action_item, action_count } => {
                        if *action_count != 0 {
                            focused_action_item.focus_next(*action_count);
                        }
                    },
                }
            },
            GlobalState::ErrorView { .. } => {},
            GlobalState::PluginView(_) => {},
        }
        Vec::new()
    }

    /// `arrow_left` is a reserved extension point: a no-op in every current
    /// state.
    pub fn arrow_left(&mut self) -> (msgs: Vec<AppMsg>)
        ensures
            *final(self) == *old(self),
            msgs@.len() == 0,
    {
        Vec::new()
    }

    /// `arrow_right` is a reserved extension point: a no-op in every
    /// current state.
    pub fn arrow_right(&mut self) -> (msgs: Vec<AppMsg>)
        ensures
            *final(self) == *old(self),
            msgs@.len() == 0,
    {
        Vec::new()
    }
}

/// The top-level state always shows exactly one screen: it is a search
/// palette, a plugin screen or an error screen, and never two of these at
/// once.
pub proof fn lemma_exactly_one_active_variant(s: GlobalState)
    ensures
        s is MainView || s is PluginView || s is ErrorView,
        s is MainView ==> !(s is PluginView) && !(s is ErrorView),
        s is PluginView ==> !(s is MainView) && !(s is ErrorView),
        s is ErrorView ==> !(s is MainView) && !(s is PluginView),
{
}

/// Stepping the search-result cursor in either direction keeps it inside
/// `[0, len - 1]`, and over an empty list keeps it unfocused.
pub proof fn lemma_cursor_stays_in_bounds(h: ScrollHandle, len: usize)
    requires
        h.in_bounds(len as nat),
    ensures
        scroll_prev(h).in_bounds(len as nat),
        len > 0 ==> scroll_next(h, len).in_bounds(len as nat),
        len == 0 ==> scroll_prev(h).index is None,
        h.index is None && len > 0 ==> scroll_next(h, len).index == Some(0usize),
{
}

} // verus!
