//! Desktop shortcuts, one for each server, and the command line that
//! starts the client: what they are made of. Making them is the caller's.

use crate::paths::{join_path, path_in, server_icon_file, server_icon_path};
use crate::servers::{
    endpoint_for, endpoint_of, home_server, home_server_name, known_server_names, known_servers,
    same_text,
};
use vstd::prelude::*;
use vstd::string::StringExecFns;

verus! {

/// Whether the program ships an icon for `server`.
pub fn is_known_server(server: &str) -> (r: bool)
    ensures
        r == known_server_names().contains(server@),
{
    let known = known_servers();
    let ghost names = known@.map_values(|name: String| name@);
    let mut i: usize = 0;
    while i < known.len()
        invariant
            i <= known.len(),
            names == known@.map_values(|name: String| name@),
            names == known_server_names(),
            forall|j: int| 0 <= j < i ==> names[j] != server@,
        decreases known.len() - i,
    {
        if same_text(known[i].as_str(), server) {
            assert(names[i as int] == server@);
            return true;
        }
        i = i + 1;
    }
    false
}

/// Whether `server` is the home server, under its canonical name or its
/// short one. Its shortcut wears the client's own icon.
pub open spec fn is_home_alias(server: Seq<char>) -> bool {
    server == home_server_name() || server == "ppy.sh"@
}

/// The name of the shortcut for `server`.
pub open spec fn shortcut_name(server: Seq<char>) -> Seq<char> {
    "osu! ("@ + server + ")"@
}

/// The arguments with which the shortcut for `server` starts this
/// program.
pub open spec fn shortcut_arguments(osu_dir: Seq<char>, server: Seq<char>) -> Seq<char> {
    "switch --osu \""@ + osu_dir + "\" --server \""@ + server + "\""@
}

/// A shortcut as plain values.
pub struct ShortcutView {
    pub name: Seq<char>,
    pub link_path: Seq<char>,
    pub arguments: Seq<char>,
    pub icon_path: Seq<char>,
    pub ships_icon: bool,
}

/// The shortcut for `server`, on the desktop of the user whose home
/// directory is `home`. A server that the program ships an icon for wears
/// it; the home server and every other server wear the client's.
pub open spec fn shortcut_for(osu_dir: Seq<char>, home: Seq<char>, server: Seq<char>) -> ShortcutView {
    let ships_icon = !is_home_alias(server) && known_server_names().contains(server);
    ShortcutView {
        name: shortcut_name(server),
        link_path: path_in(path_in(home, "Desktop"@), shortcut_name(server) + ".lnk"@),
        arguments: shortcut_arguments(osu_dir, server),
        icon_path: if ships_icon {
            server_icon_file(osu_dir, server)
        } else {
            path_in(osu_dir, "osu!.exe"@)
        },
        ships_icon,
    }
}

/// What a desktop shortcut is made of.
#[derive(Debug)]
pub struct Shortcut {
    /// The name that the desktop shows.
    pub name: String,
    /// The file of the shortcut.
    pub link_path: String,
    /// The arguments that this program is started with.
    pub arguments: String,
    /// The file of the icon.
    pub icon_path: String,
    /// Whether the icon is one that the program ships, and that has to be
    /// written to `icon_path` before the shortcut is made.
    pub ships_icon: bool,
}

impl View for Shortcut {
    type V = ShortcutView;

    open spec fn view(&self) -> ShortcutView {
        ShortcutView {
            name: self.name@,
            link_path: self.link_path@,
            arguments: self.arguments@,
            icon_path: self.icon_path@,
            ships_icon: self.ships_icon,
        }
    }
}

/// Plans the shortcut for `server`.
pub fn plan_shortcut(osu_dir: &str, home: &str, server: &str) -> (r: Shortcut)
    ensures
        r@ == shortcut_for(osu_dir@, home@, server@),
{
    let name = "osu! (".to_owned().concat(server).concat(")");
    let file = name.clone().concat(".lnk");
    let link_path = join_path(join_path(home, "Desktop").as_str(), file.as_str());
    let arguments = "switch --osu \"".to_owned().concat(osu_dir).concat("\" --server \"").concat(
        server,
    ).concat("\"");
    let home_alias = same_text(server, home_server()) || same_text(server, "ppy.sh");
    let ships_icon = !home_alias && is_known_server(server);
    let icon_path = if ships_icon {
        server_icon_path(osu_dir, server)
    } else {
        join_path(osu_dir, "osu!.exe")
    };
    Shortcut { name, link_path, arguments, icon_path, ships_icon }
}

/// The command line that starts the client on `server`: the words after
/// the name of the command interpreter. The home server is named by the
/// empty word.
pub open spec fn relaunch_words(executable: Seq<char>, server: Seq<char>) -> Seq<Seq<char>> {
    seq!["/C"@, "start"@, executable, "-devserver"@, endpoint_of(server)]
}

/// The words with which the command interpreter starts the client on
/// `server`.
pub fn relaunch_arguments(executable: &str, server: &str) -> (r: Vec<String>)
    ensures
        r@.map_values(|word: String| word@) == relaunch_words(executable@, server@),
{
    let mut words: Vec<String> = Vec::new();
    words.push("/C".to_owned());
    words.push("start".to_owned());
    words.push(executable.to_owned());
    words.push("-devserver".to_owned());
    words.push(endpoint_for(server));
    assert(words@.map_values(|word: String| word@) =~= relaunch_words(executable@, server@));
    words
}

} // verus!
