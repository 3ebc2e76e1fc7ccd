use osu_switcher::paths::{icons_dir, join_path, osu_server_icon, server_icon_path, InstallPaths};

#[test]
fn paths_of_an_installation() {
    let paths = InstallPaths::new("D:/Games/osu!", "alice");
    assert_eq!(paths.executable, "D:/Games/osu!/osu!.exe");
    assert_eq!(paths.library, "D:/Games/osu!/osu!auth.dll");
    assert_eq!(paths.config, "D:/Games/osu!/osu!.alice.cfg");
    assert_eq!(paths.database, "D:/Games/osu!/osu!.db");
    assert_eq!(paths.stash, "D:/Games/osu!/osu!switcher.ini");
    assert_eq!(paths.legacy_stash, "D:/Games/osu!/server-account-switcher.ini");
    assert_eq!(paths.auth_log, "D:/Games/osu!/Logs/osu!auth.log");
    assert_eq!(paths.repair_marker, "D:/Games/osu!/.require_update");
}

#[test]
fn paths_for_the_current_user() {
    if let Some(paths) = InstallPaths::for_current_user("C:/osu") {
        assert_eq!(paths.executable, "C:/osu/osu!.exe");
        assert!(paths.config.starts_with("C:/osu/osu!."));
        assert!(paths.config.ends_with(".cfg"));
    }
}

#[test]
fn join_puts_a_slash_between() {
    assert_eq!(join_path("a", "b"), "a/b");
    assert_eq!(join_path("", "b"), "/b");
    assert_eq!(join_path("C:/osu", ""), "C:/osu/");
}

#[test]
fn icon_of_a_server_without_icon_is_the_executable() {
    assert_eq!(osu_server_icon("C:/osu"), "C:/osu/osu!.exe");
}

#[test]
fn icon_files_lie_in_the_icons_directory() {
    assert_eq!(icons_dir("C:/osu"), "C:/osu/icons");
    assert_eq!(server_icon_path("C:/osu", "akatsuki.gg"), "C:/osu/icons/akatsuki.gg.ico");
}

#[test]
fn paths_for_a_named_user() {
    let named: Result<String, ()> = Ok("carol".to_string());
    let paths = InstallPaths::for_user("C:/osu", named).unwrap();
    assert_eq!(paths.config, "C:/osu/osu!.carol.cfg");
    assert_eq!(paths.executable, "C:/osu/osu!.exe");
}

#[test]
fn no_paths_without_a_user() {
    let named: Result<String, &str> = Err("no user");
    assert!(InstallPaths::for_user("C:/osu", named).is_none());
}
