use launcher_core::applications::apply_path_action;
use launcher_core::applications::DesktopApplication;
use launcher_core::applications::DesktopEntry;
use launcher_core::applications::DesktopPathAction;
use launcher_core::dirs::Dirs;
use launcher_core::plugins::JsModule;
use launcher_core::plugins::Plugin;
use launcher_core::plugins::PluginCode;
use launcher_core::plugins::PluginEntrypoint;
use launcher_core::plugins::PluginLoader;
use launcher_core::plugins::PluginManager;

fn plugin(id: &str) -> Plugin {
    Plugin::new(
        &id.to_string(),
        PluginCode::new(
            vec![JsModule { name: "view.js".to_string(), content: "code".to_string() }],
            Some("body {}".to_string()),
        ),
        vec![PluginEntrypoint::new("e1".to_string(), "Entry".to_string(), "view".to_string())],
    )
}

#[test]
fn manager_serves_contexts_by_plugin_id() {
    let mut manager = PluginManager::create(vec![plugin("alpha"), plugin("beta")]);
    assert!(manager.get_ui_context(&"alpha".to_string()).is_none());
    let (react, ui) = manager.create_all_contexts();
    assert_eq!(react.len(), 2);
    assert_eq!(ui.len(), 2);
    assert_eq!(react[0].plugin.id(), "alpha");
    assert_eq!(ui[1].plugin.id(), "beta");
    let ctx = manager.get_ui_context(&"beta".to_string()).expect("context exists");
    assert_eq!(ctx.plugin.id(), "beta");
    assert!(manager.get_ui_context(&"gamma".to_string()).is_none());
}

#[test]
fn plugin_accessors_expose_code_and_entrypoints() {
    let p = plugin("alpha");
    assert_eq!(p.id(), "alpha");
    assert_eq!(p.code().js().len(), 1);
    assert_eq!(p.code().js()[0].name, "view.js");
    assert_eq!(p.code().css().as_deref(), Some("body {}"));
    assert_eq!(p.entrypoints().len(), 1);
    assert_eq!(p.entrypoints()[0].id, "e1");
}

#[test]
fn loader_assembles_the_single_view_module() {
    let built = PluginLoader.build_plugin(
        &"alpha".to_string(),
        "console".to_string(),
        vec![PluginEntrypoint::new("e1".to_string(), "Entry".to_string(), "view".to_string())],
    );
    assert_eq!(built.id(), "alpha");
    assert_eq!(built.code().js().len(), 1);
    assert_eq!(built.code().js()[0].name, "view.js");
    assert_eq!(built.code().js()[0].content, "console");
    assert!(built.code().css().is_none());
}

fn dirs() -> Dirs {
    Dirs {
        config_base: "/home/u/.config/app".to_string(),
        data_base: "/home/u/.local/share/app".to_string(),
        cache_base: "/home/u/.cache/app".to_string(),
        state_base: "/home/u/.local/state/app".to_string(),
    }
}

#[test]
fn files_live_under_their_base_directories() {
    let d = dirs();
    assert_eq!(d.config_file(), "/home/u/.config/app/config.toml");
    assert_eq!(d.theme_file(), "/home/u/.config/app/theme.json");
    assert_eq!(d.theme_color_file(), "/home/u/.config/app/color_theme.json");
    assert_eq!(d.sample_theme_file(), "/home/u/.config/app/theme.sample.json");
    assert_eq!(
        d.sample_theme_color_file(),
        "/home/u/.config/app/color_theme.sample.json"
    );
    assert_eq!(d.data_db_file(), "/home/u/.local/share/app/data.db");
    assert_eq!(d.icon_cache_dir(), "/home/u/.cache/app/icons");
    assert_eq!(d.config_dir(), "/home/u/.config/app");
    assert_eq!(d.data_dir(), "/home/u/.local/share/app");
    assert_eq!(d.cache_dir(), "/home/u/.cache/app");
    assert_eq!(d.state_dir(), "/home/u/.local/state/app");
}

#[test]
fn plugin_paths_embed_the_plugin_uuid() {
    let d = dirs();
    let (out, err) = d.plugin_log_files(&"abc-1".to_string());
    assert_eq!(out, "/home/u/.local/state/app/logs/abc-1/stdout.txt");
    assert_eq!(err, "/home/u/.local/state/app/logs/abc-1/stderr.txt");
    assert_eq!(
        d.plugin_local_storage(&"abc-1".to_string()),
        "/home/u/.local/state/app/local_storage/abc-1"
    );
}

#[test]
fn base_directories_come_from_the_environment() {
    // Environment-dependent: only exercise the lookup.
    let _ = Dirs::new();
}

fn entry(id: &str, name: &str) -> DesktopEntry {
    DesktopEntry {
        id: id.to_string(),
        data: DesktopApplication { name: name.to_string(), icon: None },
    }
}

#[test]
fn add_appends_new_and_replaces_existing() {
    let mut list = vec![entry("a", "Alpha"), entry("b", "Beta")];
    apply_path_action(
        &mut list,
        DesktopPathAction::Add {
            id: "c".to_string(),
            data: DesktopApplication { name: "Gamma".to_string(), icon: None },
        },
    );
    assert_eq!(list.len(), 3);
    assert_eq!(list[2].id, "c");
    assert_eq!(list[2].data.name, "Gamma");
    apply_path_action(
        &mut list,
        DesktopPathAction::Add {
            id: "a".to_string(),
            data: DesktopApplication { name: "Alpha 2".to_string(), icon: Some(vec![1]) },
        },
    );
    assert_eq!(list.len(), 3);
    assert_eq!(list[0].id, "a");
    assert_eq!(list[0].data.name, "Alpha 2");
    assert_eq!(list[0].data.icon.as_deref(), Some(&[1u8][..]));
}

#[test]
fn remove_deletes_only_the_named_entry() {
    let mut list = vec![entry("a", "Alpha"), entry("b", "Beta"), entry("c", "Gamma")];
    apply_path_action(&mut list, DesktopPathAction::Remove { id: "b".to_string() });
    assert_eq!(list.len(), 2);
    assert_eq!(list[0].id, "a");
    assert_eq!(list[1].id, "c");
    apply_path_action(&mut list, DesktopPathAction::Remove { id: "zz".to_string() });
    assert_eq!(list.len(), 2);
}
