//! Capability bridge: the fixed host surface plugin code calls into.
//!
//! Preferences come from a backing store the embedding shell reads; this
//! module computes what the ops hand the plugin, when an entrypoint is
//! gated on unset required preferences, and how each failure is typed.  A
//! gated entrypoint never reaches a render submission: the view state
//! machine is driven straight to the preference-required error screen.

use vstd::prelude::*;

use crate::model::EntrypointId;
use crate::model::PluginId;
use crate::state::ErrorViewData;
use crate::state::GlobalState;

verus! {

/// One typed failure of the host surface.
#[derive(Debug)]
pub enum HostError {
    /// The preference backing store is unreadable or malformed.
    ConfigurationError,
    /// An op's channel closed or its underlying host call failed.
    CapabilityError,
    /// No render completed within the bounded interval.
    RenderTimeout,
    /// Plugin code faulted while handling an event or producing a tree.
    PluginFault,
    /// Catch-all, carrying a display string.
    UnknownError { display: String },
}

/// One typed preference value.
pub enum PreferenceValue {
    Text(String),
    Number(i64),
    Bool(bool),
    Choice(String),
}

impl Clone for PreferenceValue {
    fn clone(&self) -> (r: Self)
        ensures
            r == *self,
    {
        match self {
            PreferenceValue::Text(s) => PreferenceValue::Text(s.clone()),
            PreferenceValue::Number(n) => PreferenceValue::Number(*n),
            PreferenceValue::Bool(b) => PreferenceValue::Bool(*b),
            PreferenceValue::Choice(s) => PreferenceValue::Choice(s.clone()),
        }
    }
}

/// One preference as the backing store declares it: its name, whether the
/// plugin requires it, and the value the user has set, if any.
pub struct PreferenceDecl {
    pub name: String,
    pub required: bool,
    pub value: Option<PreferenceValue>,
}

/// Some required preference has no value yet.
pub open spec fn any_missing_required(decls: Seq<PreferenceDecl>) -> bool {
    exists|i: int| 0 <= i < decls.len() && decls[i].required && decls[i].value is None
}

/// The name-to-value pairs of the declarations that carry a value, in
/// declaration order.
pub open spec fn entered_prefs(decls: Seq<PreferenceDecl>) -> Seq<(String, PreferenceValue)>
    decreases decls.len(),
{
    if decls.len() == 0 {
        Seq::empty()
    } else {
        let rest = entered_prefs(decls.drop_last());
        match decls.last().value {
            Some(v) => rest.push((decls.last().name, v)),
            None => rest,
        }
    }
}

/// Whether some required preference of the given declarations is unset.
pub fn preferences_required(decls: &Vec<PreferenceDecl>) -> (r: bool)
    ensures
        r == any_missing_required(decls@),
{
    let n = decls.len();
    let mut i: usize = 0;
    while i < n
        invariant
            n == decls@.len(),
            i <= n,
            forall|j: int| 0 <= j < i ==> !(decls@[j].required && decls@[j].value is None),
        decreases n - i,
    {
        let d = &decls[i];
        let missing = match &d.value {
            None => d.required,
            Some(_) => false,
        };
        if missing {
            return true;
        }
        i = i + 1;
    }
    false
}

/// The name-to-value mapping of the declarations that carry a value, as
/// [`entered_prefs`] gives it.
fn collect_entered(decls: &Vec<PreferenceDecl>) -> (r: Vec<(String, PreferenceValue)>)
    ensures
        r@ == entered_prefs(decls@),
{
    let mut out: Vec<(String, PreferenceValue)> = Vec::new();
    let n = decls.len();
    let mut i: usize = 0;
    while i < n
        invariant
            n == decls@.len(),
            i <= n,
            out@ == entered_prefs(decls@.take(i as int)),
        decreases n - i,
    {
        proof {
            assert(decls@.take(i + 1).drop_last() =~= decls@.take(i as int));
            assert(decls@.take(i + 1).last() == decls@[i as int]);
        }
        let d = &decls[i];
        match &d.value {
            Some(v) => {
                out.push((d.name.clone(), v.clone()));
            },
            None => {},
        }
        i = i + 1;
    }
    proof {
        assert(decls@.take(n as int) =~= decls@);
    }
    out
}

/// The plugin-wide preference mapping handed to plugin code: every entered
/// value by name, or a configuration error when the backing store could
/// not be read (`store` is `None`).
pub fn get_plugin_preferences(store: Option<&Vec<PreferenceDecl>>) -> (r: Result<
    Vec<(String, PreferenceValue)>,
    HostError,
>)
    ensures
        match store {
            Some(decls) => r matches Ok(prefs) && prefs@ == entered_prefs(decls@),
            None => r matches Err(e) && e is ConfigurationError,
        },
{
    match store {
        Some(decls) => Ok(collect_entered(decls)),
        None => Err(HostError::ConfigurationError),
    }
}

/// The per-entrypoint preference mapping handed to plugin code; the store
/// slice is the one the shell read for `entrypoint_id`.
pub fn get_entrypoint_preferences(
    store: Option<&Vec<PreferenceDecl>>,
    entrypoint_id: &EntrypointId,
) -> (r: Result<Vec<(String, PreferenceValue)>, HostError>)
    ensures
        match store {
            Some(decls) => r matches Ok(prefs) && prefs@ == entered_prefs(decls@),
            None => r matches Err(e) && e is ConfigurationError,
        },
{
    match store {
        Some(decls) => Ok(collect_entered(decls)),
        None => Err(HostError::ConfigurationError),
    }
}

/// Whether the plugin is gated on an unset required preference, or a
/// configuration error when the backing store could not be read.
pub fn plugin_preferences_required(store: Option<&Vec<PreferenceDecl>>) -> (r: Result<
    bool,
    HostError,
>)
    ensures
        match store {
            Some(decls) => r == Result::<bool, HostError>::Ok(any_missing_required(decls@)),
            None => r matches Err(e) && e is ConfigurationError,
        },
{
    match store {
        Some(decls) => Ok(preferences_required(decls)),
        None => Err(HostError::ConfigurationError),
    }
}

/// Whether the entrypoint is gated on an unset required preference, or a
/// configuration error when the backing store could not be read.
pub fn entrypoint_preferences_required(
    store: Option<&Vec<PreferenceDecl>>,
    entrypoint_id: &EntrypointId,
) -> (r: Result<bool, HostError>)
    ensures
        match store {
            Some(decls) => r == Result::<bool, HostError>::Ok(any_missing_required(decls@)),
            None => r matches Err(e) && e is ConfigurationError,
        },
{
    match store {
        Some(decls) => Ok(preferences_required(decls)),
        None => Err(HostError::ConfigurationError),
    }
}

/// Decide whether a render may be requested for the entrypoint.  When the
/// plugin or the entrypoint still requires preferences, the host must not
/// proceed: the view state goes straight to the preference-required error
/// screen, with the plugin and entrypoint attributed, and the caller gets
/// `false`.  Otherwise the view state is untouched and the caller may
/// request the render.
pub fn gate_render(
    global_state: &mut GlobalState,
    plugin_id: &PluginId,
    entrypoint_id: &EntrypointId,
    plugin_preferences_required: bool,
    entrypoint_preferences_required: bool,
) -> (proceed: bool)
    requires
        old(global_state).wf(),
    ensures
        final(global_state).wf(),
        (plugin_preferences_required || entrypoint_preferences_required) ==> {
            &&& !proceed
            &&& *final(global_state) == (GlobalState::ErrorView {
                error_view: ErrorViewData::PreferenceRequired {
                    plugin_id: *plugin_id,
                    entrypoint_id: *entrypoint_id,
                    plugin_preferences_required,
                    entrypoint_preferences_required,
                },
            })
        },
        !(plugin_preferences_required || entrypoint_preferences_required) ==> {
            &&& proceed
            &&& *final(global_state) == *old(global_state)
        },
{
    if plugin_preferences_required || entrypoint_preferences_required {
        let _ = GlobalState::error(
            global_state,
            ErrorViewData::PreferenceRequired {
                plugin_id: plugin_id.clone(),
                entrypoint_id: entrypoint_id.clone(),
                plugin_preferences_required,
                entrypoint_preferences_required,
            },
        );
        false
    } else {
        true
    }
}

} // verus!
