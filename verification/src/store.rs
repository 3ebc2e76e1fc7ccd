//! The two text stores of an installation, kept as INI documents: the
//! client's own configuration, which holds the active identity, and the
//! stash, which holds one identity for each server that is not active.

use crate::servers::{canonical_server, endpoint_for, endpoint_of, normalize_server};
use vstd::prelude::*;

verus! {

/// An INI document, kept by the `ini` crate.
#[verifier::external_type_specification]
#[verifier::external_body]
pub struct ExIni(ini::Ini);

/// One section of an INI document, kept by the `ini` crate.
#[verifier::external_type_specification]
#[verifier::external_body]
pub struct ExProperties(ini::Properties);

/// Why the `ini` crate could not read a text.
#[verifier::external_type_specification]
#[verifier::external_body]
pub struct ExParseError(ini::ParseError);

/// The name of a section; `None` is the unnamed section at the top.
pub type SectionName = Option<Seq<char>>;

/// What a lookup finds in a document: for each section that is there, its
/// keys with their values.
pub type Entries = Map<SectionName, Map<Seq<char>, Seq<char>>>;

/// What a lookup finds in `ini`. A document may hold a section or a key
/// more than once; a lookup finds the first, and so does this.
pub uninterp spec fn ini_entries(ini: ini::Ini) -> Entries;

/// What `Ini::load_from_str` makes of a text: the entries of the document,
/// or nothing where it reports an error.
pub uninterp spec fn ini_parsed(text: Seq<char>) -> Option<Entries>;

/// What `Ini::write_to_opt` makes of `ini` with basic escapes, `=` between
/// key and value and CR LF at the end of each line: the text that it
/// writes, or nothing where it reports an error.
pub uninterp spec fn ini_rendered(ini: ini::Ini) -> Option<Seq<char>>;

/// A section name as a key of [`Entries`].
pub open spec fn section_name(name: Option<&str>) -> SectionName {
    match name {
        Some(s) => Some(s@),
        None => None,
    }
}

/// `entries` with `key` set to `value` in `section`, which is made if it is
/// not there.
pub open spec fn entries_with(
    entries: Entries,
    section: SectionName,
    key: Seq<char>,
    value: Seq<char>,
) -> Entries {
    let before = if entries.contains_key(section) {
        entries[section]
    } else {
        Map::<Seq<char>, Seq<char>>::empty()
    };
    entries.insert(section, before.insert(key, value))
}

/// The value of `key` in `section`, if both are there.
pub open spec fn entry(entries: Entries, section: SectionName, key: Seq<char>) -> Option<
    Seq<char>,
> {
    if entries.contains_key(section) && entries[section].contains_key(key) {
        Some(entries[section][key])
    } else {
        None
    }
}

/// The value of `key` in `section`, or the empty text where there is none.
pub open spec fn entry_or_empty(entries: Entries, section: SectionName, key: Seq<char>) -> Seq<
    char,
> {
    match entry(entries, section, key) {
        Some(value) => value,
        None => Seq::<char>::empty(),
    }
}

/// The key of the user name in both stores.
pub open spec fn username_key() -> Seq<char> {
    "Username"@
}

/// The key of the password in both stores.
pub open spec fn password_key() -> Seq<char> {
    "Password"@
}

/// The key in the configuration that names the server the client logs in
/// to. An empty value there is the home server.
pub open spec fn endpoint_key() -> Seq<char> {
    "CredentialEndpoint"@
}

/// The three keys are three different texts.
pub proof fn lemma_keys_differ()
    ensures
        username_key() != password_key(),
        username_key() != endpoint_key(),
        password_key() != endpoint_key(),
{
    reveal_strlit("Username");
    reveal_strlit("Password");
    reveal_strlit("CredentialEndpoint");
    assert(username_key()[0] == 'U');
    assert(password_key()[0] == 'P');
}

/// A login: a user name and a password.
#[derive(Debug)]
pub struct Identity {
    pub username: String,
    pub password: String,
}

/// A login as two texts.
pub struct IdentityView {
    pub username: Seq<char>,
    pub password: Seq<char>,
}

impl View for Identity {
    type V = IdentityView;

    open spec fn view(&self) -> IdentityView {
        IdentityView { username: self.username@, password: self.password@ }
    }
}

impl IdentityView {
    /// The login of a server for which nothing was saved yet.
    pub open spec fn blank() -> IdentityView {
        IdentityView { username: Seq::<char>::empty(), password: Seq::<char>::empty() }
    }
}

impl Identity {
    /// The login of a server for which nothing was saved yet: both texts
    /// are empty.
    pub fn blank() -> (r: Identity)
        ensures
            r@ == IdentityView::blank(),
    {
        Identity { username: String::new(), password: String::new() }
    }

    /// A login made of the two texts.
    pub fn new(username: &str, password: &str) -> (r: Identity)
        ensures
            r@ == (IdentityView { username: username@, password: password@ }),
    {
        Identity { username: username.to_owned(), password: password.to_owned() }
    }
}

/// The identity that the client is logged in with, and the server it
/// belongs to, under the server's canonical name.
#[derive(Debug)]
pub struct ActiveSlot {
    pub server: String,
    pub identity: Identity,
}

/// An active slot as texts.
pub struct ActiveSlotView {
    pub server: Seq<char>,
    pub identity: IdentityView,
}

impl View for ActiveSlot {
    type V = ActiveSlotView;

    open spec fn view(&self) -> ActiveSlotView {
        ActiveSlotView { server: self.server@, identity: self.identity@ }
    }
}

/// Whether a configuration has its unnamed section, in which the client
/// keeps the login. Without it the configuration is not one of the client.
pub open spec fn has_login_section(config: Entries) -> bool {
    config.contains_key(None)
}

/// The active slot that a configuration holds. A key that is missing reads
/// as the empty text, and an empty endpoint is the home server.
pub open spec fn active_slot(config: Entries) -> ActiveSlotView {
    ActiveSlotView {
        server: canonical_server(entry_or_empty(config, None, endpoint_key())),
        identity: IdentityView {
            username: entry_or_empty(config, None, username_key()),
            password: entry_or_empty(config, None, password_key()),
        },
    }
}

/// A configuration after `identity` was made the active one, for `server`.
/// Every other key stays as it is.
pub open spec fn config_with(config: Entries, server: Seq<char>, identity: IdentityView) -> Entries {
    entries_with(
        entries_with(
            entries_with(config, None, username_key(), identity.username),
            None,
            password_key(),
            identity.password,
        ),
        None,
        endpoint_key(),
        endpoint_of(server),
    )
}

/// The identity that a stash holds for `server`: what its section says,
/// and the blank identity where there is no such section.
pub open spec fn stashed(stash: Entries, server: Seq<char>) -> IdentityView {
    IdentityView {
        username: entry_or_empty(stash, Some(server), username_key()),
        password: entry_or_empty(stash, Some(server), password_key()),
    }
}

/// A stash after `identity` was put away under `server`, in place of what
/// was there. The entries of the other servers stay as they are.
pub open spec fn stash_with(stash: Entries, server: Seq<char>, identity: IdentityView) -> Entries {
    entries_with(
        entries_with(stash, Some(server), username_key(), identity.username),
        Some(server),
        password_key(),
        identity.password,
    )
}

/// Why a text could not be read as a store.
#[derive(Debug)]
pub struct ParseFailure {
    /// Where in the text the reading stopped, and on what.
    pub detail: String,
}

/// The client's own configuration. It holds the active slot among the
/// client's other settings.
#[derive(Debug)]
pub struct ConfigStore {
    doc: ini::Ini,
}

impl View for ConfigStore {
    type V = Entries;

    closed spec fn view(&self) -> Entries {
        ini_entries(self.doc)
    }
}

impl ConfigStore {
    /// What [`ConfigStore::render`] gives for this configuration: the text
    /// of its file, or nothing if it cannot be written out.
    pub closed spec fn rendered(&self) -> Option<Seq<char>> {
        ini_rendered(self.doc)
    }

    /// Reads a configuration from the text of its file.
    pub fn parse(text: &str) -> (r: Result<ConfigStore, ParseFailure>)
        ensures
            match r {
                Ok(config) => ini_parsed(text@) == Some(config@),
                Err(_) => ini_parsed(text@) is None,
            },
    {
        match ini_load(text) {
            Ok(doc) => Ok(ConfigStore { doc }),
            Err(error) => Err(ParseFailure { detail: parse_error_text(&error) }),
        }
    }

    /// The active slot, or `None` for a configuration without the section
    /// that holds it.
    pub fn active(&self) -> (r: Option<ActiveSlot>)
        ensures
            match r {
                Some(slot) => has_login_section(self@) && slot@ == active_slot(self@),
                None => !has_login_section(self@),
            },
    {
        if ini_section(&self.doc, None).is_none() {
            return None;
        }
        let endpoint = text_or_empty(ini_get(&self.doc, None, "CredentialEndpoint"));
        let username = text_or_empty(ini_get(&self.doc, None, "Username"));
        let password = text_or_empty(ini_get(&self.doc, None, "Password"));
        let server = normalize_server(endpoint.as_str());
        Some(ActiveSlot { server, identity: Identity { username, password } })
    }

    /// Makes `identity` the active one, for `server`. The home server is
    /// written as an empty endpoint.
    pub fn install(&mut self, server: &str, identity: &Identity)
        ensures
            final(self)@ == config_with(old(self)@, server@, identity@),
    {
        let endpoint = endpoint_for(server);
        ini_set(&mut self.doc, None, "Username", identity.username.as_str());
        ini_set(&mut self.doc, None, "Password", identity.password.as_str());
        ini_set(&mut self.doc, None, "CredentialEndpoint", endpoint.as_str());
    }

    /// The text of the configuration's file, or `None` if it could not be
    /// written out.
    pub fn render(&self) -> (r: Option<String>)
        ensures
            match r {
                Some(text) => self.rendered() == Some(text@),
                None => self.rendered() is None,
            },
    {
        ini_render(&self.doc)
    }
}

/// The identities put away, one for each server that was switched away
/// from.
#[derive(Debug)]
pub struct Stash {
    doc: ini::Ini,
}

impl View for Stash {
    type V = Entries;

    closed spec fn view(&self) -> Entries {
        ini_entries(self.doc)
    }
}

impl Stash {
    /// What [`Stash::render`] gives for this stash: the text of its file,
    /// or nothing if it cannot be written out.
    pub closed spec fn rendered(&self) -> Option<Seq<char>> {
        ini_rendered(self.doc)
    }

    /// Reads a stash from the text of its file.
    pub fn parse(text: &str) -> (r: Result<Stash, ParseFailure>)
        ensures
            match r {
                Ok(stash) => ini_parsed(text@) == Some(stash@),
                Err(_) => ini_parsed(text@) is None,
            },
    {
        match ini_load(text) {
            Ok(doc) => Ok(Stash { doc }),
            Err(error) => Err(ParseFailure { detail: parse_error_text(&error) }),
        }
    }

    /// Whether an identity was put away for `server`.
    pub fn holds(&self, server: &str) -> (r: bool)
        ensures
            r == self@.contains_key(Some(server@)),
    {
        ini_section(&self.doc, Some(server)).is_some()
    }

    /// The identity put away for `server`; the blank identity if there is
    /// none.
    pub fn identity(&self, server: &str) -> (r: Identity)
        ensures
            r@ == stashed(self@, server@),
    {
        let username = text_or_empty(ini_get(&self.doc, Some(server), "Username"));
        let password = text_or_empty(ini_get(&self.doc, Some(server), "Password"));
        Identity { username, password }
    }

    /// Puts `identity` away under `server`, in place of what was there.
    pub fn put(&mut self, server: &str, identity: &Identity)
        ensures
            final(self)@ == stash_with(old(self)@, server@, identity@),
    {
        ini_set(&mut self.doc, Some(server), "Username", identity.username.as_str());
        ini_set(&mut self.doc, Some(server), "Password", identity.password.as_str());
    }

    /// The text of the stash's file, or `None` if it could not be written
    /// out.
    pub fn render(&self) -> (r: Option<String>)
        ensures
            match r {
                Some(text) => self.rendered() == Some(text@),
                None => self.rendered() is None,
            },
    {
        ini_render(&self.doc)
    }
}

/// The text that was found, or the empty text.
fn text_or_empty(found: Option<&str>) -> (r: String)
    ensures
        r@ == match found {
            Some(text) => text@,
            None => Seq::<char>::empty(),
        },
{
    match found {
        Some(text) => text.to_owned(),
        None => String::new(),
    }
}

/// `Ini::load_from_str`: reads a document from a text. The result is a
/// function of the text alone.
#[verifier::external_body]
fn ini_load(text: &str) -> (r: Result<ini::Ini, ini::ParseError>)
    ensures
        match r {
            Ok(doc) => ini_parsed(text@) == Some(ini_entries(doc)),
            Err(_) => ini_parsed(text@) is None,
        },
{
    ini::Ini::load_from_str(text)
}

/// `Display` of `ini::ParseError`: the line, the column and the message.
#[verifier::external_body]
fn parse_error_text(error: &ini::ParseError) -> String {
    format!("{}", error)
}

/// `Ini::section`: the first section of that name, if the document holds
/// one.
#[verifier::external_body]
fn ini_section<'a>(doc: &'a ini::Ini, name: Option<&str>) -> (r: Option<&'a ini::Properties>)
    ensures
        r is Some == ini_entries(*doc).contains_key(section_name(name)),
{
    doc.section(name)
}

/// `Ini::get_from`: the first value of `key` in the first section of that
/// name, where there is one.
#[verifier::external_body]
fn ini_get<'a>(doc: &'a ini::Ini, section: Option<&str>, key: &str) -> (r: Option<&'a str>)
    ensures
        match r {
            Some(value) => entry(ini_entries(*doc), section_name(section), key@) == Some(value@),
            None => entry(ini_entries(*doc), section_name(section), key@) is None,
        },
{
    doc.get_from(section, key)
}

/// `Ini::set_to`: sets `key` to `value` in the first section of that name,
/// in place of every value the key had there; a section that is missing is
/// added. Nothing else that a lookup finds changes.
#[verifier::external_body]
fn ini_set(doc: &mut ini::Ini, section: Option<&str>, key: &str, value: &str)
    ensures
        ini_entries(*final(doc)) == entries_with(
            ini_entries(*old(doc)),
            section_name(section),
            key@,
            value@,
        ),
{
    doc.set_to(section, key.to_owned(), value.to_owned());
}

/// `Ini::write_to_opt`, into memory: the document as a text, with basic
/// escapes, `=` between key and value and CR LF line ends, whatever the
/// machine. `None` where the writer reports an error. Whether it does,
/// and the text if it does not, depend on the document alone; that it
/// never does is not claimed.
#[verifier::external_body]
fn ini_render(doc: &ini::Ini) -> (r: Option<String>)
    ensures
        match r {
            Some(text) => ini_rendered(*doc) == Some(text@),
            None => ini_rendered(*doc) is None,
        },
{
    let mut out: Vec<u8> = Vec::new();
    let option = ini::WriteOption {
        escape_policy: ini::EscapePolicy::Basics,
        line_separator: ini::LineSeparator::CRLF,
        kv_separator: "=",
    };
    doc.write_to_opt(&mut out, option).ok()?;
    String::from_utf8(out).ok()
}

} // verus!
