//! Where the files of an installation lie. A path is a text; a file in a
//! directory is the directory, a slash and the file's name.

use vstd::prelude::*;
use vstd::string::StringExecFns;

verus! {

/// Why the system could not name its user.
#[verifier::external_type_specification]
#[verifier::external_body]
pub struct ExWhoamiError(whoami::Error);

/// `whoami::username`: the name of the user that runs the program, as the
/// system gives it. Nothing is known of it here.
#[verifier::external_body]
fn system_username() -> Result<String, whoami::Error> {
    whoami::username()
}

/// The path of `name` in `dir`.
pub open spec fn path_in(dir: Seq<char>, name: Seq<char>) -> Seq<char> {
    dir + seq!['/'] + name
}

/// The path of `name` in `dir`.
pub fn join_path(dir: &str, name: &str) -> (r: String)
    ensures
        r@ == path_in(dir@, name@),
{
    proof {
        reveal_strlit("/");
        assert("/"@ =~= seq!['/']);
    }
    dir.to_owned().concat("/").concat(name)
}

/// The name of the client's configuration file for the system user `user`.
pub open spec fn config_file_name(user: Seq<char>) -> Seq<char> {
    "osu!."@ + user + ".cfg"@
}

/// The paths of an installation as texts.
pub struct InstallPathsView {
    pub executable: Seq<char>,
    pub library: Seq<char>,
    pub config: Seq<char>,
    pub database: Seq<char>,
    pub stash: Seq<char>,
    pub legacy_stash: Seq<char>,
    pub auth_log: Seq<char>,
    pub repair_marker: Seq<char>,
}

/// The paths of the installation in `dir`, for the system user `user`.
pub open spec fn install_paths(dir: Seq<char>, user: Seq<char>) -> InstallPathsView {
    InstallPathsView {
        executable: path_in(dir, "osu!.exe"@),
        library: path_in(dir, "osu!auth.dll"@),
        config: path_in(dir, config_file_name(user)),
        database: path_in(dir, "osu!.db"@),
        stash: path_in(dir, "osu!switcher.ini"@),
        legacy_stash: path_in(dir, "server-account-switcher.ini"@),
        auth_log: path_in(dir, "Logs/osu!auth.log"@),
        repair_marker: path_in(dir, ".require_update"@),
    }
}

/// The files of one installation that a switch reads, writes or removes.
#[derive(Debug)]
pub struct InstallPaths {
    /// The client's executable.
    pub executable: String,
    /// The library that the client ships beside its executable. Another
    /// client of the same name does not have it.
    pub library: String,
    /// The client's configuration for the system user; it holds the
    /// active identity.
    pub config: String,
    /// The client's binary database, which holds the player's name.
    pub database: String,
    /// The stash.
    pub stash: String,
    /// The stash under the name it had before.
    pub legacy_stash: String,
    /// The client's authentication log.
    pub auth_log: String,
    /// The file that tells the client to repair itself at its next start.
    pub repair_marker: String,
}

impl View for InstallPaths {
    type V = InstallPathsView;

    open spec fn view(&self) -> InstallPathsView {
        InstallPathsView {
            executable: self.executable@,
            library: self.library@,
            config: self.config@,
            database: self.database@,
            stash: self.stash@,
            legacy_stash: self.legacy_stash@,
            auth_log: self.auth_log@,
            repair_marker: self.repair_marker@,
        }
    }
}

impl InstallPaths {
    /// The paths of the installation in `dir`, for the system user `user`.
    pub fn new(dir: &str, user: &str) -> (r: InstallPaths)
        ensures
            r@ == install_paths(dir@, user@),
    {
        let config_name = "osu!.".to_owned().concat(user).concat(".cfg");
        InstallPaths {
            executable: join_path(dir, "osu!.exe"),
            library: join_path(dir, "osu!auth.dll"),
            config: join_path(dir, config_name.as_str()),
            database: join_path(dir, "osu!.db"),
            stash: join_path(dir, "osu!switcher.ini"),
            legacy_stash: join_path(dir, "server-account-switcher.ini"),
            auth_log: join_path(dir, "Logs/osu!auth.log"),
            repair_marker: join_path(dir, ".require_update"),
        }
    }

    /// The paths of the installation in `dir`, for the user that the system
    /// named, and `None` if it named none: `named` is what came of asking
    /// the system.
    pub fn for_user<E>(dir: &str, named: Result<String, E>) -> (r: Option<InstallPaths>)
        ensures
            match named {
                Ok(user) => r matches Some(paths) && paths@ == install_paths(dir@, user@),
                Err(_) => r is None,
            },
    {
        match named {
            Ok(user) => Some(InstallPaths::new(dir, user.as_str())),
            Err(_) => None,
        }
    }

    /// The paths of the installation in `dir`, for the user that runs the
    /// program; `None` if the system does not name that user.
    pub fn for_current_user(dir: &str) -> (r: Option<InstallPaths>)
        ensures
            r matches Some(paths) ==> exists|user: Seq<char>| paths@ == install_paths(dir@, user),
    {
        InstallPaths::for_user(dir, system_username())
    }
}

/// The icon of a shortcut for a server that has no icon of its own: the
/// client's executable.
pub fn osu_server_icon(osu_dir: &str) -> (r: String)
    ensures
        r@ == path_in(osu_dir@, "osu!.exe"@),
{
    join_path(osu_dir, "osu!.exe")
}

/// The path of the icon of `server`, in the directory of icons of the
/// installation.
pub open spec fn server_icon_file(osu_dir: Seq<char>, server: Seq<char>) -> Seq<char> {
    path_in(path_in(osu_dir, "icons"@), server + ".ico"@)
}

/// The directory in which the installation keeps the icons of servers.
pub fn icons_dir(osu_dir: &str) -> (r: String)
    ensures
        r@ == path_in(osu_dir@, "icons"@),
{
    join_path(osu_dir, "icons")
}

/// Where the icon of `server` is written to.
pub fn server_icon_path(osu_dir: &str, server: &str) -> (r: String)
    ensures
        r@ == server_icon_file(osu_dir@, server@),
{
    let name = server.to_owned().concat(".ico");
    join_path(icons_dir(osu_dir).as_str(), name.as_str())
}

} // verus!
