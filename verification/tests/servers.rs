use osu_switcher::servers::{
    endpoint_for, home_server, known_servers, normalize_server, same_text, valid_server_id,
};

#[test]
fn home_server_is_named() {
    assert_eq!(home_server(), "osu.ppy.sh");
}

#[test]
fn empty_server_is_the_home_server() {
    assert_eq!(normalize_server(""), "osu.ppy.sh");
    assert_eq!(normalize_server("osu.ppy.sh"), "osu.ppy.sh");
    assert_eq!(normalize_server("akatsuki.gg"), "akatsuki.gg");
}

#[test]
fn home_server_is_written_as_empty_endpoint() {
    assert_eq!(endpoint_for("osu.ppy.sh"), "");
    assert_eq!(endpoint_for("akatsuki.gg"), "akatsuki.gg");
    assert_eq!(endpoint_for(""), "");
}

#[test]
fn canonical_name_survives_the_endpoint() {
    for server in ["", "osu.ppy.sh", "ripple.moe", "localhost"] {
        let canonical = normalize_server(server);
        let back = normalize_server(endpoint_for(&canonical).as_str());
        assert_eq!(back, canonical);
        assert!(!canonical.is_empty());
    }
}

#[test]
fn server_names_need_a_dot() {
    assert!(valid_server_id("akatsuki.gg"));
    assert!(valid_server_id("."));
    assert!(valid_server_id("a.b.c"));
    assert!(valid_server_id("localhost"));
    assert!(!valid_server_id("akatsuki"));
    assert!(!valid_server_id(""));
    assert!(!valid_server_id("Localhost"));
    assert!(!valid_server_id("localhost "));
    assert!(valid_server_id("樹.moe"));
}

#[test]
fn texts_compare_by_characters() {
    assert!(same_text("abc", "abc"));
    assert!(!same_text("abc", "abd"));
    assert!(!same_text("abc", "ab"));
    assert!(same_text("", ""));
}

#[test]
fn known_servers_are_in_order() {
    let known = known_servers();
    assert_eq!(known.len(), 17);
    assert_eq!(known[0], "akatsuki.gg");
    assert_eq!(known[16], "ussr.pl");
    let mut sorted = known.clone();
    sorted.sort();
    assert_eq!(sorted, known);
    assert!(known.iter().all(|name| valid_server_id(name)));
}
