//! Server identifiers: the home server, and what counts as a server name.

use vstd::prelude::*;

verus! {

/// The name under which the home server is kept wherever a server is named.
pub open spec fn home_server_name() -> Seq<char> {
    "osu.ppy.sh"@
}

/// The home server's canonical name.
pub fn home_server() -> (r: &'static str)
    ensures
        r@ == home_server_name(),
{
    "osu.ppy.sh"
}

/// The home server's name is not the empty text.
pub proof fn lemma_home_server_is_named()
    ensures
        home_server_name().len() > 0,
{
    reveal_strlit("osu.ppy.sh");
}

/// Whether two texts are the same, character for character.
pub fn same_text(a: &str, b: &str) -> (r: bool)
    ensures
        r == (a@ == b@),
{
    a.to_owned() == b.to_owned()
}

/// A server as it is named inside the library: the empty text stands for
/// the home server.
pub open spec fn canonical_server(server: Seq<char>) -> Seq<char> {
    if server.len() == 0 {
        home_server_name()
    } else {
        server
    }
}

/// A server as the client's configuration names it: the home server is the
/// empty text there.
pub open spec fn endpoint_of(server: Seq<char>) -> Seq<char> {
    if server == home_server_name() {
        Seq::<char>::empty()
    } else {
        server
    }
}

/// Gives `server` its canonical name.
pub fn normalize_server(server: &str) -> (r: String)
    ensures
        r@ == canonical_server(server@),
{
    if server.is_empty() {
        home_server().to_owned()
    } else {
        server.to_owned()
    }
}

/// The text that stands for `server` in the client's configuration.
pub fn endpoint_for(server: &str) -> (r: String)
    ensures
        r@ == endpoint_of(server@),
{
    if same_text(server, home_server()) {
        String::new()
    } else {
        server.to_owned()
    }
}

/// A canonical name is never empty, and it survives the way through the
/// client's configuration: written as an endpoint and read back, it is the
/// same name.
pub proof fn lemma_canonical_server(server: Seq<char>)
    ensures
        canonical_server(server).len() > 0,
        canonical_server(canonical_server(server)) == canonical_server(server),
        canonical_server(endpoint_of(canonical_server(server))) == canonical_server(server),
{
    lemma_home_server_is_named();
}

/// The servers that the program ships an icon for, in the order of the
/// alphabet.
pub open spec fn known_server_names() -> Seq<Seq<char>> {
    seq![
        "akatsuki.gg"@,
        "akatsuki.pw"@,
        "ez-pp.farm"@,
        "fuquila.net"@,
        "gatari.pw"@,
        "halcyon.moe"@,
        "kawata.pw"@,
        "kokisu.moe"@,
        "lemres.de"@,
        "mamesosu.net"@,
        "osunolimits.dev"@,
        "osuokayu.moe"@,
        "redstar.moe"@,
        "ripple.moe"@,
        "scosu.net"@,
        "seventwentyseven.xyz"@,
        "ussr.pl"@,
    ]
}

/// The servers that the program ships an icon for, in the order of the
/// alphabet.
pub fn known_servers() -> (r: Vec<String>)
    ensures
        r@.map_values(|name: String| name@) == known_server_names(),
{
    let mut names: Vec<String> = Vec::new();
    names.push("akatsuki.gg".to_owned());
    names.push("akatsuki.pw".to_owned());
    names.push("ez-pp.farm".to_owned());
    names.push("fuquila.net".to_owned());
    names.push("gatari.pw".to_owned());
    names.push("halcyon.moe".to_owned());
    names.push("kawata.pw".to_owned());
    names.push("kokisu.moe".to_owned());
    names.push("lemres.de".to_owned());
    names.push("mamesosu.net".to_owned());
    names.push("osunolimits.dev".to_owned());
    names.push("osuokayu.moe".to_owned());
    names.push("redstar.moe".to_owned());
    names.push("ripple.moe".to_owned());
    names.push("scosu.net".to_owned());
    names.push("seventwentyseven.xyz".to_owned());
    names.push("ussr.pl".to_owned());
    assert(names@.map_values(|name: String| name@) =~= known_server_names());
    names
}

/// Whether `text` can name a server: it holds a dot, or it is `localhost`.
pub open spec fn is_server_id(text: Seq<char>) -> bool {
    text.contains('.') || text == "localhost"@
}

/// Tests whether `text` can name a server.
pub fn valid_server_id(text: &str) -> (r: bool)
    ensures
        r == is_server_id(text@),
{
    if same_text(text, "localhost") {
        return true;
    }
    let len = text.unicode_len();
    let mut i: usize = 0;
    while i < len
        invariant
            len == text@.len(),
            i <= len,
            forall|j: int| 0 <= j < i ==> text@[j] != '.',
        decreases len - i,
    {
        if text.get_char(i) == '.' {
            return true;
        }
        i = i + 1;
    }
    false
}

} // verus!
