use muxw::path::{expand_tilde, ConfigEnv, InvalidPathReason, Path, PathError, PathPlan, ResolvedLocation};

fn env(muxw: Option<&str>, xdg: Option<&str>, home: Option<&str>) -> ConfigEnv {
    ConfigEnv {
        muxw_config_path: muxw.map(String::from),
        xdg_config_home: xdg.map(String::from),
        home: home.map(String::from),
    }
}

fn reason(e: PathError) -> (String, InvalidPathReason) {
    match e {
        PathError::InvalidPath { input, reason } => (input, reason),
    }
}

#[test]
fn tilde_expansion() {
    assert_eq!(expand_tilde("/etc/muxw", Some("/home/a")).unwrap(), "/etc/muxw");
    assert_eq!(expand_tilde("rel/path", None).unwrap(), "rel/path");
    assert_eq!(expand_tilde("", None).unwrap(), "");
    assert_eq!(expand_tilde("~", Some("/home/a")).unwrap(), "/home/a");
    assert_eq!(expand_tilde("~/cfg/muxw", Some("/home/a")).unwrap(), "/home/a/cfg/muxw");
    assert_eq!(
        reason(expand_tilde("~", None).unwrap_err()),
        ("~".to_string(), InvalidPathReason::HomeNotSet)
    );
    assert_eq!(
        reason(expand_tilde("~bob/x", Some("/home/a")).unwrap_err()),
        ("~bob/x".to_string(), InvalidPathReason::UnsupportedTilde)
    );
    assert_eq!(InvalidPathReason::HomeNotSet.message(), "HOME environment variable not set");
}

#[test]
fn reason_messages() {
    assert_eq!(
        InvalidPathReason::UnsupportedTilde.message(),
        "unsupported tilde expansion (Report an issue)"
    );
    assert_eq!(InvalidPathReason::NoParent.message(), "path has no parent directory");
}

#[test]
fn config_filename() {
    assert_eq!(Path::get_config_filename(), "config.lua");
}

#[test]
fn resolved_locations() {
    let dir = ResolvedLocation { absolute: "/etc/muxw".to_string(), is_dir: true };
    assert_eq!(
        Path::get_config_paths_from_cli(&dir).unwrap(),
        ("/etc/muxw".to_string(), "/etc/muxw/config.lua".to_string())
    );
    let file = ResolvedLocation { absolute: "/etc/muxw/main.lua".to_string(), is_dir: false };
    assert_eq!(
        Path::get_config_paths_from_cli(&file).unwrap(),
        ("/etc/muxw".to_string(), "/etc/muxw/main.lua".to_string())
    );
    let root = ResolvedLocation { absolute: "/".to_string(), is_dir: false };
    assert_eq!(
        reason(Path::get_config_paths_from_cli(&root).unwrap_err()),
        ("/".to_string(), InvalidPathReason::NoParent)
    );
}

#[test]
fn default_locations() {
    assert_eq!(
        Path::get_config_paths_from_xdg_var(Some("/x")).unwrap(),
        ("/x/muxw".to_string(), "/x/muxw/config.lua".to_string())
    );
    assert!(Path::get_config_paths_from_xdg_var(Some("")).is_none());
    assert!(Path::get_config_paths_from_xdg_var(None).is_none());
    assert_eq!(
        Path::get_config_paths_from_home_var(Some("/home/a")).unwrap(),
        ("/home/a/.config/muxw".to_string(), "/home/a/.config/muxw/config.lua".to_string())
    );
    assert!(Path::get_config_paths_from_home_var(Some("")).is_none());
    assert_eq!(
        Path::get_config_paths_from_current_dir("/work"),
        ("/work".to_string(), "/work/config.lua".to_string())
    );
    assert_eq!(
        Path::get_config_paths_from_defaults(&env(None, Some("/x"), Some("/home/a"))).unwrap().0,
        "/x/muxw"
    );
    assert_eq!(
        Path::get_config_paths_from_defaults(&env(None, Some(""), Some("/home/a"))).unwrap().0,
        "/home/a/.config/muxw"
    );
    assert!(Path::get_config_paths_from_defaults(&env(None, None, None)).is_none());
}

#[test]
fn plan_prefers_cli_then_env_then_defaults() {
    match Path::new(Some("cfg".to_string()), &env(Some("/m"), Some("/x"), Some("/h"))).unwrap() {
        PathPlan::Resolve(p) => assert_eq!(p, "cfg"),
        other => panic!("unexpected {other:?}"),
    }
    match Path::new(None, &env(Some("~/m"), Some("/x"), Some("/h"))).unwrap() {
        PathPlan::Resolve(p) => assert_eq!(p, "/h/m"),
        other => panic!("unexpected {other:?}"),
    }
    match Path::new(None, &env(Some(""), Some("/x"), Some("/h"))).unwrap() {
        PathPlan::Ready(p) => {
            assert_eq!(p.config_dir, "/x/muxw");
            assert_eq!(p.config_file, "/x/muxw/config.lua");
        },
        other => panic!("unexpected {other:?}"),
    }
    match Path::new(None, &env(None, None, Some("/h"))).unwrap() {
        PathPlan::Ready(p) => assert_eq!(p.config_file, "/h/.config/muxw/config.lua"),
        other => panic!("unexpected {other:?}"),
    }
    assert!(matches!(Path::new(None, &env(None, None, None)).unwrap(), PathPlan::UseCurrentDir));
    assert_eq!(
        reason(Path::new(None, &env(Some("~/m"), None, None)).unwrap_err()),
        ("~/m".to_string(), InvalidPathReason::HomeNotSet)
    );
    assert!(Path::get_config_paths_from_env(&env(None, None, None)).unwrap().is_none());
}
