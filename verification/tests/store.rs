use osu_switcher::store::{ConfigStore, Identity, Stash};

const CONFIG: &str = "# osu! configuration\nVolume = 80\nUsername = old\nPassword = hunter\nCredentialEndpoint = \n";

#[test]
fn config_reads_the_active_slot() {
    let config = ConfigStore::parse(CONFIG).unwrap();
    let slot = config.active().unwrap();
    assert_eq!(slot.server, "osu.ppy.sh");
    assert_eq!(slot.identity.username, "old");
    assert_eq!(slot.identity.password, "hunter");
}

#[test]
fn config_reads_another_server() {
    let config = ConfigStore::parse("Username = me\nPassword = pw\nCredentialEndpoint = akatsuki.gg\n").unwrap();
    let slot = config.active().unwrap();
    assert_eq!(slot.server, "akatsuki.gg");
    assert_eq!(slot.identity.username, "me");
    assert_eq!(slot.identity.password, "pw");
}

#[test]
fn missing_keys_read_as_empty() {
    let config = ConfigStore::parse("Volume = 80\n").unwrap();
    let slot = config.active().unwrap();
    assert_eq!(slot.server, "osu.ppy.sh");
    assert_eq!(slot.identity.username, "");
    assert_eq!(slot.identity.password, "");
    let empty = ConfigStore::parse("").unwrap();
    assert_eq!(empty.active().unwrap().server, "osu.ppy.sh");
}

#[test]
fn keys_of_other_sections_are_not_the_login() {
    let config = ConfigStore::parse("[Other]\nUsername = x\nPassword = y\n").unwrap();
    let slot = config.active().unwrap();
    assert_eq!(slot.identity.username, "");
    assert_eq!(slot.identity.password, "");
}

#[test]
fn first_value_of_a_repeated_key_is_read() {
    let config = ConfigStore::parse("Username = first\nUsername = second\n").unwrap();
    assert_eq!(config.active().unwrap().identity.username, "first");
}

#[test]
fn broken_text_is_no_store() {
    let failure = ConfigStore::parse("= value without key\n").unwrap_err();
    assert!(!failure.detail.is_empty());
    assert!(Stash::parse("[unclosed").is_err());
}

#[test]
fn install_sets_the_three_keys_and_keeps_the_rest() {
    let mut config = ConfigStore::parse(CONFIG).unwrap();
    config.install("foo.example", &Identity::new("new", "other"));
    let slot = config.active().unwrap();
    assert_eq!(slot.server, "foo.example");
    assert_eq!(slot.identity.username, "new");
    assert_eq!(slot.identity.password, "other");
    assert_eq!(
        config.render().unwrap(),
        "Volume=80\r\nUsername=new\r\nPassword=other\r\nCredentialEndpoint=foo.example\r\n"
    );
}

#[test]
fn install_replaces_every_value_of_a_repeated_key() {
    let mut config = ConfigStore::parse("Username = first\nUsername = second\n").unwrap();
    config.install("a.b", &Identity::new("third", ""));
    assert_eq!(config.active().unwrap().identity.username, "third");
    assert_eq!(config.render().unwrap(), "Username=third\r\nPassword=\r\nCredentialEndpoint=a.b\r\n");
}

#[test]
fn install_for_the_home_server_writes_an_empty_endpoint() {
    let mut config = ConfigStore::parse("Username = me\nPassword = pw\nCredentialEndpoint = akatsuki.gg\n").unwrap();
    config.install("osu.ppy.sh", &Identity::new("home", "hp"));
    assert_eq!(config.render().unwrap(), "Username=home\r\nPassword=hp\r\nCredentialEndpoint=\r\n");
    assert_eq!(config.active().unwrap().server, "osu.ppy.sh");
}

#[test]
fn rendered_config_reads_back() {
    let mut config = ConfigStore::parse(CONFIG).unwrap();
    config.install("ripple.moe", &Identity::new("r", "s"));
    let again = ConfigStore::parse(&config.render().unwrap()).unwrap();
    let slot = again.active().unwrap();
    assert_eq!(slot.server, "ripple.moe");
    assert_eq!(slot.identity.username, "r");
    assert_eq!(slot.identity.password, "s");
}

#[test]
fn empty_stash_holds_nothing() {
    let stash = Stash::parse("").unwrap();
    assert!(!stash.holds("osu.ppy.sh"));
    let identity = stash.identity("osu.ppy.sh");
    assert_eq!(identity.username, "");
    assert_eq!(identity.password, "");
    assert_eq!(stash.render().unwrap(), "");
}

#[test]
fn stash_reads_its_sections() {
    let stash = Stash::parse("[akatsuki.gg]\nUsername=a\nPassword=b\n\n[ripple.moe]\nUsername=c\n").unwrap();
    assert!(stash.holds("akatsuki.gg"));
    assert!(stash.holds("ripple.moe"));
    assert!(!stash.holds("gatari.pw"));
    assert_eq!(stash.identity("akatsuki.gg").username, "a");
    assert_eq!(stash.identity("akatsuki.gg").password, "b");
    assert_eq!(stash.identity("ripple.moe").username, "c");
    assert_eq!(stash.identity("ripple.moe").password, "");
}

#[test]
fn put_adds_and_overwrites() {
    let mut stash = Stash::parse("[akatsuki.gg]\nUsername=a\nPassword=b\n").unwrap();
    stash.put("ripple.moe", &Identity::new("c", "d"));
    stash.put("akatsuki.gg", &Identity::new("e", "f"));
    assert_eq!(stash.identity("akatsuki.gg").username, "e");
    assert_eq!(stash.identity("akatsuki.gg").password, "f");
    assert_eq!(stash.identity("ripple.moe").username, "c");
    assert_eq!(
        stash.render().unwrap(),
        "[akatsuki.gg]\r\nUsername=e\r\nPassword=f\r\n\r\n[ripple.moe]\r\nUsername=c\r\nPassword=d\r\n"
    );
}

#[test]
fn blank_identity_makes_an_entry() {
    let mut stash = Stash::parse("").unwrap();
    stash.put("gatari.pw", &Identity::blank());
    assert!(stash.holds("gatari.pw"));
    assert_eq!(stash.render().unwrap(), "[gatari.pw]\r\nUsername=\r\nPassword=\r\n");
}
