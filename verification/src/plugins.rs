//! Loaded plugins and their execution contexts.
//!
//! A [`Plugin`] is what a bundle yields once read and parsed: an
//! identifier, its code units, and the entrypoints its manifest declares.
//! Reading bundle files and parsing the configuration is the embedding
//! shell's job; this module assembles and manages the results.  For each
//! plugin the manager creates one context pair: the react side runs the
//! plugin's code, the UI side serves its screen.

use vstd::prelude::*;

verus! {

/// One code unit of a plugin bundle, by file name.
pub struct JsModule {
    pub name: String,
    pub content: String,
}

impl Clone for JsModule {
    fn clone(&self) -> (r: Self)
        ensures
            r == *self,
    {
        JsModule { name: self.name.clone(), content: self.content.clone() }
    }
}

/// The code of one plugin: its script units and an optional stylesheet.
pub struct PluginCode {
    js: Vec<JsModule>,
    css: Option<String>,
}

impl PluginCode {
    pub fn new(js: Vec<JsModule>, css: Option<String>) -> (r: Self)
        ensures
            r.spec_js() == js@,
            r.spec_css() == css,
    {
        PluginCode { js, css }
    }

    pub closed spec fn spec_js(&self) -> Seq<JsModule> {
        self.js@
    }

    pub closed spec fn spec_css(&self) -> Option<String> {
        self.css
    }

    pub fn js(&self) -> (r: &Vec<JsModule>)
        ensures
            r@ == self.spec_js(),
    {
        &self.js
    }

    pub fn css(&self) -> (r: &Option<String>)
        ensures
            *r == self.spec_css(),
    {
        &self.css
    }
}

impl Clone for PluginCode {
    fn clone(&self) -> (r: Self)
        ensures
            r.spec_js() == self.spec_js(),
            r.spec_css() == self.spec_css(),
    {
        PluginCode { js: clone_js_modules(&self.js), css: clone_opt_text(&self.css) }
    }
}

/// One entrypoint a plugin's manifest declares: an identifier, a display
/// name, and the code path that renders it.
pub struct PluginEntrypoint {
    pub id: String,
    pub name: String,
    pub path: String,
}

impl PluginEntrypoint {
    pub fn new(id: String, name: String, path: String) -> (r: Self)
        ensures
            r.id == id,
            r.name == name,
            r.path == path,
    {
        PluginEntrypoint { id, name, path }
    }
}

impl Clone for PluginEntrypoint {
    fn clone(&self) -> (r: Self)
        ensures
            r == *self,
    {
        PluginEntrypoint {
            id: self.id.clone(),
            name: self.name.clone(),
            path: self.path.clone(),
        }
    }
}

fn clone_js_modules(v: &Vec<JsModule>) -> (r: Vec<JsModule>)
    ensures
        r@ == v@,
{
    let mut r: Vec<JsModule> = Vec::new();
    let n = v.len();
    let mut i: usize = 0;
    while i < n
        invariant
            n == v@.len(),
            i <= n,
            r@ == v@.take(i as int),
        decreases n - i,
    {
        r.push(v[i].clone());
        proof {
            assert(r@ =~= v@.take(i + 1));
        }
        i = i + 1;
    }
    proof {
        assert(v@.take(n as int) =~= v@);
    }
    r
}

fn clone_entrypoints(v: &Vec<PluginEntrypoint>) -> (r: Vec<PluginEntrypoint>)
    ensures
        r@ == v@,
{
    let mut r: Vec<PluginEntrypoint> = Vec::new();
    let n = v.len();
    let mut i: usize = 0;
    while i < n
        invariant
            n == v@.len(),
            i <= n,
            r@ == v@.take(i as int),
        decreases n - i,
    {
        r.push(v[i].clone());
        proof {
            assert(r@ =~= v@.take(i + 1));
        }
        i = i + 1;
    }
    proof {
        assert(v@.take(n as int) =~= v@);
    }
    r
}

fn clone_opt_text(x: &Option<String>) -> (r: Option<String>)
    ensures
        r == *x,
{
    match x {
        Some(s) => Some(s.clone()),
        None => None,
    }
}

/// One loaded plugin.
pub struct Plugin {
    id: String,
    code: PluginCode,
    entrypoints: Vec<PluginEntrypoint>,
}

/// The two plugins carry the same identifier, code and entrypoints.
pub open spec fn plugin_matches(a: Plugin, b: Plugin) -> bool {
    &&& a.spec_id() == b.spec_id()
    &&& a.spec_code().spec_js() == b.spec_code().spec_js()
    &&& a.spec_code().spec_css() == b.spec_code().spec_css()
    &&& a.spec_entrypoints() == b.spec_entrypoints()
}

impl Plugin {
    pub closed spec fn spec_id(&self) -> String {
        self.id
    }

    pub closed spec fn spec_code(&self) -> PluginCode {
        self.code
    }

    pub closed spec fn spec_entrypoints(&self) -> Seq<PluginEntrypoint> {
        self.entrypoints@
    }

    pub fn new(id: &String, code: PluginCode, entrypoints: Vec<PluginEntrypoint>) -> (r: Self)
        ensures
            r.spec_id() == *id,
            r.spec_code() == code,
            r.spec_entrypoints() == entrypoints@,
    {
        Plugin { id: id.clone(), code, entrypoints }
    }

    pub fn id(&self) -> (r: &String)
        ensures
            *r == self.spec_id(),
    {
        &self.id
    }

    pub fn code(&self) -> (r: &PluginCode)
        ensures
            *r == self.spec_code(),
    {
        &self.code
    }

    pub fn entrypoints(&self) -> (r: &Vec<PluginEntrypoint>)
        ensures
            r@ == self.spec_entrypoints(),
    {
        &self.entrypoints
    }
}

impl Clone for Plugin {
    fn clone(&self) -> (r: Self)
        ensures
            plugin_matches(r, *self),
    {
        Plugin {
            id: self.id.clone(),
            code: self.code.clone(),
            entrypoints: clone_entrypoints(&self.entrypoints),
        }
    }
}

/// The UI-side context of one plugin: the screen-serving half of its
/// context pair.  Its transport endpoints live with the embedding shell,
/// keyed by the plugin identifier.
pub struct PluginUiContext {
    pub plugin: Plugin,
}

/// The react-side context of one plugin: the half of its context pair that
/// runs the plugin's code.
pub struct PluginReactContext {
    pub plugin: Plugin,
}

/// The first UI context attributed to the plugin with identifier `id`.
pub open spec fn context_with_id(ctxs: Seq<PluginUiContext>, id: Seq<char>) -> Option<
    PluginUiContext,
>
    decreases ctxs.len(),
{
    if ctxs.len() == 0 {
        None
    } else if ctxs[0].plugin.spec_id()@ == id {
        Some(ctxs[0])
    } else {
        context_with_id(ctxs.drop_first(), id)
    }
}

pub struct PluginManagerInner {
    pub plugins: Vec<Plugin>,
    pub ui_contexts: Vec<PluginUiContext>,
}

/// Owns the loaded plugins and their UI contexts.
pub struct PluginManager {
    pub inner: PluginManagerInner,
}

impl PluginManager {
    /// A manager over the given loaded plugins, with no contexts yet.
    pub fn create(plugins: Vec<Plugin>) -> (r: Self)
        ensures
            r.inner.plugins == plugins,
            r.inner.ui_contexts@.len() == 0,
    {
        PluginManager { inner: PluginManagerInner { plugins, ui_contexts: Vec::new() } }
    }

    /// The UI context of the plugin with the given identifier, when one was
    /// created.
    pub fn get_ui_context(&self, plugin_id: &String) -> (r: Option<&PluginUiContext>)
        ensures
            match context_with_id(self.inner.ui_contexts@, plugin_id@) {
                Some(c) => r matches Some(x) && *x == c,
                None => r is None,
            },
    {
        let n = self.inner.ui_contexts.len();
        let mut i: usize = 0;
        proof {
            assert(self.inner.ui_contexts@.skip(0) =~= self.inner.ui_contexts@);
        }
        while i < n
            invariant
                n == self.inner.ui_contexts@.len(),
                i <= n,
                context_with_id(self.inner.ui_contexts@.skip(i as int), plugin_id@)
                    == context_with_id(self.inner.ui_contexts@, plugin_id@),
            decreases n - i,
        {
            proof {
                assert(self.inner.ui_contexts@.skip(i as int)[0]
                    == self.inner.ui_contexts@[i as int]);
                assert(self.inner.ui_contexts@.skip(i as int).drop_first()
                    =~= self.inner.ui_contexts@.skip(i + 1));
            }
            let ctx = &self.inner.ui_contexts[i];
            if ctx.plugin.id().eq(plugin_id) {
                return Some(ctx);
            }
            i = i + 1;
        }
        proof {
            assert(self.inner.ui_contexts@.skip(n as int) =~= Seq::<PluginUiContext>::empty());
        }
        None
    }

    /// Create one context pair per loaded plugin, in plugin order, and
    /// remember the UI contexts so [`Self::get_ui_context`] can serve them.
    pub fn create_all_contexts(&mut self) -> (r: (Vec<PluginReactContext>, Vec<PluginUiContext>))
        ensures
            final(self).inner.plugins == old(self).inner.plugins,
            r.0@.len() == old(self).inner.plugins@.len(),
            r.1@.len() == old(self).inner.plugins@.len(),
            final(self).inner.ui_contexts@.len() == old(self).inner.plugins@.len(),
            forall|i: int|
                0 <= i < old(self).inner.plugins@.len() ==> {
                    let p = #[trigger] old(self).inner.plugins@[i];
                    &&& plugin_matches(r.0@[i].plugin, p)
                    &&& plugin_matches(r.1@[i].plugin, p)
                    &&& plugin_matches(final(self).inner.ui_contexts@[i].plugin, p)
                },
    {
        let mut react_contexts: Vec<PluginReactContext> = Vec::new();
        let mut ui_contexts: Vec<PluginUiContext> = Vec::new();
        let mut kept_contexts: Vec<PluginUiContext> = Vec::new();
        let n = self.inner.plugins.len();
        let mut i: usize = 0;
        while i < n
            invariant
                n == self.inner.plugins@.len(),
                i <= n,
                *self == *old(self),
                react_contexts@.len() == i,
                ui_contexts@.len() == i,
                kept_contexts@.len() == i,
                forall|j: int|
                    0 <= j < i ==> {
                        let p = #[trigger] self.inner.plugins@[j];
                        &&& plugin_matches(react_contexts@[j].plugin, p)
                        &&& plugin_matches(ui_contexts@[j].plugin, p)
                        &&& plugin_matches(kept_contexts@[j].plugin, p)
                    },
            decreases n - i,
        {
            let plugin = &self.inner.plugins[i];
            react_contexts.push(PluginReactContext { plugin: plugin.clone() });
            ui_contexts.push(PluginUiContext { plugin: plugin.clone() });
            kept_contexts.push(PluginUiContext { plugin: plugin.clone() });
            i = i + 1;
        }
        self.inner.ui_contexts = kept_contexts;
        (react_contexts, ui_contexts)
    }
}

/// Assembles plugins from what the embedding shell read off disk.
pub struct PluginLoader;

impl PluginLoader {
    /// One plugin from its parsed parts: the single `view.js` code unit the
    /// bundle ships, no stylesheet, and the entrypoints its manifest
    /// declares.
    pub fn build_plugin(
        &self,
        plugin_id: &String,
        js_content: String,
        entrypoints: Vec<PluginEntrypoint>,
    ) -> (r: Plugin)
        ensures
            r.spec_id() == *plugin_id,
            r.spec_code().spec_js().len() == 1,
            r.spec_code().spec_js()[0].name@ == "view.js"@,
            r.spec_code().spec_js()[0].content == js_content,
            r.spec_code().spec_css() is None,
            r.spec_entrypoints() == entrypoints@,
    {
        let mut js: Vec<JsModule> = Vec::new();
        js.push(JsModule { name: String::from_str("view.js"), content: js_content });
        Plugin::new(plugin_id, PluginCode::new(js, None), entrypoints)
    }
}

} // verus!
