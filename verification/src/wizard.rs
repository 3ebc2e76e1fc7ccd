//! The wizard: the dialogue that collects the directory of the
//! installation and the servers to make shortcuts for. It reads keys and
//! changes its state; drawing the state, and what it asks of the file
//! system, is the caller's.

use crate::input::{lemma_cursor_stays_in_text, InputState, InputView};
use crate::key::{KeyCode, KeyInput, KeyKind};
use crate::servers::{is_server_id, known_server_names, known_servers, valid_server_id};
use vstd::prelude::*;

verus! {

/// The cursor of a list after a key, where `last` is the index of the last
/// item. The cursor stops at both ends of the list. Without a cursor, the
/// way down starts at the first item and the way up at the last.
pub open spec fn cursor_after(cursor: Option<usize>, last: usize, code: KeyCode) -> Option<usize> {
    match code {
        KeyCode::Down => match cursor {
            None => Some(0),
            Some(i) => Some(if i < last { (i + 1) as usize } else { last }),
        },
        KeyCode::Up => match cursor {
            None => Some(last),
            Some(i) => Some(if i == 0 { 0 } else if i <= last { (i - 1) as usize } else { last }),
        },
        KeyCode::PageUp | KeyCode::Home => Some(0),
        KeyCode::PageDown | KeyCode::End => Some(last),
        _ => cursor,
    }
}

/// Moves the cursor of a list as the key asks.
pub fn move_cursor(cursor: Option<usize>, last: usize, code: KeyCode) -> (r: Option<usize>)
    ensures
        r == cursor_after(cursor, last, code),
        cursor_in_list(cursor, last) ==> cursor_in_list(r, last),
{
    match code {
        KeyCode::Down => match cursor {
            None => Some(0),
            Some(i) => Some(if i < last { i + 1 } else { last }),
        },
        KeyCode::Up => match cursor {
            None => Some(last),
            Some(i) => Some(if i == 0 { 0 } else if i <= last { i - 1 } else { last }),
        },
        KeyCode::PageUp | KeyCode::Home => Some(0),
        KeyCode::PageDown | KeyCode::End => Some(last),
        _ => cursor,
    }
}

/// The cursor, if there is one, stands on an item of the list.
pub open spec fn cursor_in_list(cursor: Option<usize>, last: usize) -> bool {
    cursor matches Some(i) ==> i <= last
}

/// A server of the list, and whether a shortcut is wanted for it.
#[derive(Debug)]
pub struct ServerEntry {
    pub domain: String,
    pub enabled: bool,
}

/// A server of the list as plain values.
pub struct ServerView {
    pub domain: Seq<char>,
    pub enabled: bool,
}

impl View for ServerEntry {
    type V = ServerView;

    open spec fn view(&self) -> ServerView {
        ServerView { domain: self.domain@, enabled: self.enabled }
    }
}

/// The step of the dialogue.
#[derive(Debug)]
pub enum WizardState {
    /// Before the installation was looked for.
    Started,
    /// Choosing between the installation that was found (item 0) and
    /// typing a directory (item 1).
    SelectingInstallDirectory { cursor: Option<usize>, detected: String },
    /// Typing the directory of the installation. `invalid` is set once a
    /// directory was turned down.
    EnteringInstallDirectory { input: InputState, invalid: bool },
    /// Choosing servers from the list. The item behind the last server
    /// leads to typing one.
    SelectingServers { cursor: Option<usize> },
    /// Typing the name of a server. `invalid` is set once a name was
    /// turned down.
    EnteringServer { input: InputState, invalid: bool },
    /// The shortcuts were handed out; any key leaves.
    Finished,
}

/// The step of the dialogue as plain values.
pub enum StateView {
    Started,
    SelectingInstallDirectory { cursor: Option<usize>, detected: Seq<char> },
    EnteringInstallDirectory { input: InputView, invalid: bool },
    SelectingServers { cursor: Option<usize> },
    EnteringServer { input: InputView, invalid: bool },
    Finished,
}

impl View for WizardState {
    type V = StateView;

    open spec fn view(&self) -> StateView {
        match *self {
            WizardState::Started => StateView::Started,
            WizardState::SelectingInstallDirectory {
                cursor,
                detected,
            } => StateView::SelectingInstallDirectory { cursor, detected: detected@ },
            WizardState::EnteringInstallDirectory {
                input,
                invalid,
            } => StateView::EnteringInstallDirectory { input: input@, invalid },
            WizardState::SelectingServers { cursor } => StateView::SelectingServers { cursor },
            WizardState::EnteringServer { input, invalid } => StateView::EnteringServer {
                input: input@,
                invalid,
            },
            WizardState::Finished => StateView::Finished,
        }
    }
}

/// What the caller is to do after a key.
#[derive(Debug)]
pub enum WizardAction {
    /// Draw the state and wait for the next key.
    Continue,
    /// Leave the wizard.
    Exit,
    /// Find out whether `path` leads to an installation, hand the answer
    /// to [`Wizard::install_dir_checked`], and go on.
    CheckInstallDir { path: String },
    /// Make a shortcut for each of the servers, and go on.
    InstallShortcuts { install_dir: String, servers: Vec<String> },
}

/// What the caller is to do, as plain values.
pub enum ActionView {
    Continue,
    Exit,
    CheckInstallDir { path: Seq<char> },
    InstallShortcuts { install_dir: Seq<char>, servers: Seq<Seq<char>> },
}

/// A list of texts as plain values.
pub open spec fn texts(list: Seq<String>) -> Seq<Seq<char>> {
    list.map_values(|text: String| text@)
}

impl View for WizardAction {
    type V = ActionView;

    open spec fn view(&self) -> ActionView {
        match *self {
            WizardAction::Continue => ActionView::Continue,
            WizardAction::Exit => ActionView::Exit,
            WizardAction::CheckInstallDir { path } => ActionView::CheckInstallDir { path: path@ },
            WizardAction::InstallShortcuts {
                install_dir,
                servers,
            } => ActionView::InstallShortcuts { install_dir: install_dir@, servers: texts(servers@) },
        }
    }
}

/// The wizard as plain values.
pub struct WizardView {
    pub state: StateView,
    /// The directory of the installation, once it is known.
    pub install_dir: Option<Seq<char>>,
    /// The servers on offer, in the order of the list.
    pub servers: Seq<ServerView>,
}

/// An empty line of input.
pub open spec fn empty_input() -> InputView {
    InputView { content: Seq::<char>::empty(), cursor: 0 }
}

/// The names of the servers that a shortcut is wanted for, in the order of
/// the list.
pub open spec fn enabled_domains(servers: Seq<ServerView>) -> Seq<Seq<char>> {
    servers.filter(|server: ServerView| server.enabled).map_values(
        |server: ServerView| server.domain,
    )
}

impl WizardView {
    /// Whether the state shows a list.
    pub open spec fn shows_list(self) -> bool {
        self.state is SelectingInstallDirectory || self.state is SelectingServers
    }

    /// Whether the state takes text.
    pub open spec fn takes_text(self) -> bool {
        self.state is EnteringInstallDirectory || self.state is EnteringServer
    }

    /// The wizard as it holds together: the list of servers can be
    /// counted, a cursor stands on an item of its list, a line of input has
    /// its cursor in the text, and once servers are chosen or the wizard
    /// has finished the directory is known.
    pub open spec fn wf(self) -> bool {
        &&& self.servers.len() <= usize::MAX
        &&& match self.state {
            StateView::Started => true,
            StateView::SelectingInstallDirectory { cursor, .. } => cursor_in_list(cursor, 1),
            StateView::EnteringInstallDirectory { input, .. } => input.wf(),
            StateView::SelectingServers { cursor } => self.install_dir is Some && cursor_in_list(
                cursor,
                self.servers.len() as usize,
            ),
            StateView::EnteringServer { input, .. } => self.install_dir is Some && input.wf(),
            StateView::Finished => self.install_dir is Some,
        }
    }

    /// The wizard after the installation was looked for: with one found,
    /// it is offered first; with none, the directory is to be typed. The
    /// known servers join the list, none of them chosen.
    pub open spec fn begun(self, detected: Option<Seq<char>>, known: Seq<Seq<char>>) -> WizardView {
        WizardView {
            state: match detected {
                Some(path) => StateView::SelectingInstallDirectory {
                    cursor: Some(0),
                    detected: path,
                },
                None => StateView::EnteringInstallDirectory { input: empty_input(), invalid: false },
            },
            install_dir: self.install_dir,
            servers: self.servers + known.map_values(
                |domain: Seq<char>| ServerView { domain, enabled: false },
            ),
        }
    }

    /// The wizard in another state.
    pub open spec fn in_state(self, state: StateView) -> WizardView {
        WizardView { state, ..self }
    }

    /// The wizard after Enter was pressed, and what the caller is to do.
    pub open spec fn confirmed(self) -> (WizardView, ActionView) {
        match self.state {
            StateView::SelectingInstallDirectory { cursor, detected } => {
                if cursor == Some(0usize) {
                    (
                        WizardView {
                            state: StateView::SelectingServers { cursor: None },
                            install_dir: Some(detected),
                            ..self
                        },
                        ActionView::Continue,
                    )
                } else if cursor == Some(1usize) {
                    (
                        self.in_state(
                            StateView::EnteringInstallDirectory {
                                input: empty_input(),
                                invalid: false,
                            },
                        ),
                        ActionView::Continue,
                    )
                } else {
                    (self, ActionView::Continue)
                }
            },
            StateView::EnteringInstallDirectory { input, .. } => (
                self,
                ActionView::CheckInstallDir { path: input.content },
            ),
            StateView::EnteringServer { input, .. } => {
                if is_server_id(input.content) {
                    (
                        WizardView {
                            state: StateView::SelectingServers {
                                cursor: Some(self.servers.len() as usize),
                            },
                            servers: self.servers.push(
                                ServerView { domain: input.content, enabled: true },
                            ),
                            ..self
                        },
                        ActionView::Continue,
                    )
                } else {
                    (
                        self.in_state(StateView::EnteringServer { input, invalid: true }),
                        ActionView::Continue,
                    )
                }
            },
            StateView::SelectingServers { cursor } => {
                if cursor matches Some(i) && i >= self.servers.len() {
                    (
                        self.in_state(
                            StateView::EnteringServer { input: empty_input(), invalid: false },
                        ),
                        ActionView::Continue,
                    )
                } else {
                    match self.install_dir {
                        Some(install_dir) => (
                            self.in_state(StateView::Finished),
                            ActionView::InstallShortcuts {
                                install_dir,
                                servers: enabled_domains(self.servers),
                            },
                        ),
                        None => (self, ActionView::Continue),
                    }
                }
            },
            _ => (self, ActionView::Continue),
        }
    }

    /// The wizard after the space bar was pressed: in the list of servers
    /// the server under the cursor is chosen, or no longer chosen. The
    /// cursor stays, and the item behind the last server is not a server.
    pub open spec fn toggled(self) -> WizardView {
        match self.state {
            StateView::SelectingServers { cursor: Some(i) } => if i < self.servers.len() {
                WizardView {
                    servers: self.servers.update(
                        i as int,
                        ServerView {
                            domain: self.servers[i as int].domain,
                            enabled: !self.servers[i as int].enabled,
                        },
                    ),
                    ..self
                }
            } else {
                self
            },
            _ => self,
        }
    }

    /// The wizard after a key that moves the cursor of its list.
    pub open spec fn navigated(self, code: KeyCode) -> WizardView {
        match self.state {
            StateView::SelectingInstallDirectory { cursor, detected } => self.in_state(
                StateView::SelectingInstallDirectory {
                    cursor: cursor_after(cursor, 1, code),
                    detected,
                },
            ),
            StateView::SelectingServers { cursor } => self.in_state(
                StateView::SelectingServers {
                    cursor: cursor_after(cursor, self.servers.len() as usize, code),
                },
            ),
            _ => self,
        }
    }

    /// The wizard after a key that edits its line of input.
    pub open spec fn edited(self, key: KeyInput) -> WizardView {
        match self.state {
            StateView::EnteringInstallDirectory { input, invalid } => self.in_state(
                StateView::EnteringInstallDirectory { input: input.after_event(key), invalid },
            ),
            StateView::EnteringServer { input, invalid } => self.in_state(
                StateView::EnteringServer { input: input.after_event(key), invalid },
            ),
            _ => self,
        }
    }

    /// The wizard after a key, and what the caller is to do.
    ///
    /// Control and `c` leaves at once. Once the wizard has finished, any
    /// press leaves. A press of Enter confirms. The space bar chooses in
    /// the list of servers. Every other key moves the cursor where a list
    /// is shown, and edits the line where text is taken.
    pub open spec fn after_key(self, key: KeyInput) -> (WizardView, ActionView) {
        if key.ctrl && key.code == KeyCode::Char('c') {
            (self, ActionView::Exit)
        } else if self.state is Finished && key.kind == KeyKind::Press {
            (self, ActionView::Exit)
        } else if key.code == KeyCode::Enter && key.kind == KeyKind::Press {
            self.confirmed()
        } else {
            let wizard = if key.code == KeyCode::Char(' ') && key.kind == KeyKind::Press {
                self.toggled()
            } else {
                self
            };
            if key.is_stroke() && wizard.shows_list() {
                (wizard.navigated(key.code), ActionView::Continue)
            } else {
                (wizard.edited(key), ActionView::Continue)
            }
        }
    }

    /// The wizard after the caller found out whether the directory that
    /// was typed leads to an installation: `found` is that installation's
    /// directory. Without one the wizard asks again, and keeps what was
    /// typed.
    pub open spec fn after_check(self, found: Option<Seq<char>>) -> WizardView {
        match self.state {
            StateView::EnteringInstallDirectory { input, invalid } => match found {
                Some(dir) => WizardView {
                    state: StateView::SelectingServers { cursor: None },
                    install_dir: Some(dir),
                    ..self
                },
                None => self.in_state(
                    StateView::EnteringInstallDirectory { input, invalid: true },
                ),
            },
            _ => self,
        }
    }
}

/// A text that may be missing, as plain values.
pub open spec fn optional_text(text: Option<String>) -> Option<Seq<char>> {
    match text {
        Some(text) => Some(text@),
        None => None,
    }
}

/// A list of servers as plain values.
pub open spec fn server_views(servers: Seq<ServerEntry>) -> Seq<ServerView> {
    servers.map_values(|server: ServerEntry| server@)
}

/// The wizard.
#[derive(Debug)]
pub struct Wizard {
    state: WizardState,
    install_dir: Option<String>,
    servers: Vec<ServerEntry>,
}

impl View for Wizard {
    type V = WizardView;

    closed spec fn view(&self) -> WizardView {
        WizardView {
            state: self.state@,
            install_dir: optional_text(self.install_dir),
            servers: server_views(self.servers@),
        }
    }
}

impl Wizard {
    /// A wizard before the installation was looked for, with no server on
    /// its list.
    pub fn new() -> (r: Wizard)
        ensures
            r@ == (WizardView {
                state: StateView::Started,
                install_dir: None,
                servers: Seq::<ServerView>::empty(),
            }),
            r@.wf(),
    {
        let wizard = Wizard { state: WizardState::Started, install_dir: None, servers: Vec::new() };
        assert(server_views(wizard.servers@) =~= Seq::<ServerView>::empty());
        wizard
    }

    /// Takes what the search for the installation found, and puts the
    /// known servers on the list.
    pub fn begin(&mut self, detected: Option<String>)
        ensures
            final(self)@ == old(self)@.begun(optional_text(detected), known_server_names()),
            final(self)@.wf(),
    {
        let known = known_servers();
        let ghost before = self.servers@;
        let mut i: usize = 0;
        while i < known.len()
            invariant
                i <= known.len(),
                texts(known@) == known_server_names(),
                self.state == old(self).state,
                self.install_dir == old(self).install_dir,
                server_views(self.servers@) == server_views(before) + texts(known@).take(
                    i as int,
                ).map_values(|domain: Seq<char>| ServerView { domain, enabled: false }),
            decreases known.len() - i,
        {
            let ghost listed = self.servers@;
            self.servers.push(ServerEntry { domain: known[i].clone(), enabled: false });
            proof {
                let entry = ServerView { domain: known@[i as int]@, enabled: false };
                assert(server_views(self.servers@) =~= server_views(listed).push(entry));
                assert(texts(known@).take(i + 1) =~= texts(known@).take(i as int).push(
                    known@[i as int]@,
                ));
                assert(texts(known@).take(i + 1).map_values(
                    |domain: Seq<char>| ServerView { domain, enabled: false },
                ) =~= texts(known@).take(i as int).map_values(
                    |domain: Seq<char>| ServerView { domain, enabled: false },
                ).push(entry));
            }
            i = i + 1;
        }
        assert(texts(known@).take(i as int) =~= texts(known@));
        let listed = self.servers.len();
        assert(server_views(self.servers@).len() == listed);
        self.state = match detected {
            Some(path) => WizardState::SelectingInstallDirectory {
                cursor: Some(0),
                detected: path,
            },
            None => WizardState::EnteringInstallDirectory {
                input: InputState::new(),
                invalid: false,
            },
        };
    }

    /// The step of the dialogue.
    pub fn state(&self) -> (r: &WizardState)
        ensures
            r@ == self@.state,
    {
        &self.state
    }

    /// The directory of the installation, once it is known.
    pub fn install_dir(&self) -> (r: &Option<String>)
        ensures
            optional_text(*r) == self@.install_dir,
    {
        &self.install_dir
    }

    /// The servers on the list.
    pub fn servers(&self) -> (r: &Vec<ServerEntry>)
        ensures
            server_views(r@) == self@.servers,
    {
        &self.servers
    }

    /// The names of the servers that a shortcut is wanted for.
    fn enabled_servers(&self) -> (r: Vec<String>)
        ensures
            texts(r@) == enabled_domains(self@.servers),
    {
        let mut names: Vec<String> = Vec::new();
        let ghost all = server_views(self.servers@);
        let mut i: usize = 0;
        proof {
            reveal(Seq::filter);
            assert(all.take(0) =~= Seq::<ServerView>::empty());
            assert(texts(names@) =~= enabled_domains(all.take(0)));
        }
        while i < self.servers.len()
            invariant
                i <= self.servers.len(),
                all == server_views(self.servers@),
                texts(names@) == enabled_domains(all.take(i as int)),
            decreases self.servers.len() - i,
        {
            let ghost listed = names@;
            if self.servers[i].enabled {
                names.push(self.servers[i].domain.clone());
            }
            proof {
                reveal(Seq::filter);
                let wanted = |server: ServerView| server.enabled;
                let entry = self.servers@[i as int]@;
                assert(all.take(i + 1).drop_last() =~= all.take(i as int));
                assert(all.take(i + 1).last() == entry);
                let chosen = all.take(i as int).filter(wanted);
                assert(all.take(i + 1).filter(wanted) == if entry.enabled {
                    chosen.push(entry)
                } else {
                    chosen
                });
                if entry.enabled {
                    assert(texts(names@) =~= texts(listed).push(entry.domain));
                    assert(chosen.push(entry).map_values(|server: ServerView| server.domain)
                        =~= chosen.map_values(|server: ServerView| server.domain).push(
                        entry.domain,
                    ));
                }
            }
            i = i + 1;
        }
        assert(all.take(i as int) =~= all);
        names
    }

    /// Enter was pressed.
    fn confirm(&mut self) -> (action: WizardAction)
        ensures
            (final(self)@, action@) == old(self)@.confirmed(),
    {
        match &self.state {
            WizardState::SelectingInstallDirectory { cursor, detected } => {
                match *cursor {
                    Some(i) => {
                        if i == 0 {
                            let dir = detected.clone();
                            self.install_dir = Some(dir);
                            self.state = WizardState::SelectingServers { cursor: None };
                        } else if i == 1 {
                            self.state = WizardState::EnteringInstallDirectory {
                                input: InputState::new(),
                                invalid: false,
                            };
                        }
                    },
                    None => {},
                }
                WizardAction::Continue
            },
            WizardState::EnteringInstallDirectory { input, .. } => WizardAction::CheckInstallDir {
                path: input.text().to_owned(),
            },
            WizardState::EnteringServer { input, .. } => {
                if valid_server_id(input.text()) {
                    let domain = input.text().to_owned();
                    let at = self.servers.len();
                    self.servers.push(ServerEntry { domain, enabled: true });
                    self.state = WizardState::SelectingServers { cursor: Some(at) };
                    assert(server_views(self.servers@) =~= server_views(old(self).servers@).push(
                        ServerView { domain: domain@, enabled: true },
                    ));
                } else {
                    self.set_invalid();
                }
                WizardAction::Continue
            },
            WizardState::SelectingServers { cursor } => {
                let custom = match *cursor {
                    Some(i) => i >= self.servers.len(),
                    None => false,
                };
                if custom {
                    self.state = WizardState::EnteringServer {
                        input: InputState::new(),
                        invalid: false,
                    };
                    WizardAction::Continue
                } else {
                    match &self.install_dir {
                        Some(dir) => {
                            let install_dir = dir.clone();
                            let servers = self.enabled_servers();
                            self.state = WizardState::Finished;
                            WizardAction::InstallShortcuts { install_dir, servers }
                        },
                        None => WizardAction::Continue,
                    }
                }
            },
            _ => WizardAction::Continue,
        }
    }

    /// Marks what was typed as turned down. The text stays.
    fn set_invalid(&mut self)
        ensures
            final(self)@ == old(self)@.in_state(
                match old(self)@.state {
                    StateView::EnteringInstallDirectory {
                        input,
                        ..
                    } => StateView::EnteringInstallDirectory { input, invalid: true },
                    StateView::EnteringServer { input, .. } => StateView::EnteringServer {
                        input,
                        invalid: true,
                    },
                    other => other,
                },
            ),
    {
        match &mut self.state {
            WizardState::EnteringInstallDirectory { invalid, .. } => {
                *invalid = true;
            },
            WizardState::EnteringServer { invalid, .. } => {
                *invalid = true;
            },
            _ => {},
        }
    }

    /// The space bar was pressed.
    fn toggle(&mut self)
        ensures
            final(self)@ == old(self)@.toggled(),
    {
        let at = match &self.state {
            WizardState::SelectingServers { cursor } => *cursor,
            _ => None,
        };
        match at {
            Some(i) => {
                if i < self.servers.len() {
                    let entry = ServerEntry {
                        domain: self.servers[i].domain.clone(),
                        enabled: !self.servers[i].enabled,
                    };
                    self.servers.set(i, entry);
                    assert(server_views(self.servers@) =~= server_views(old(self).servers@).update(
                        i as int,
                        entry@,
                    ));
                }
            },
            None => {},
        }
    }

    /// A key that moves the cursor of the list.
    fn navigate(&mut self, code: KeyCode)
        ensures
            final(self)@ == old(self)@.navigated(code),
    {
        let last = self.servers.len();
        match &mut self.state {
            WizardState::SelectingInstallDirectory { cursor, .. } => {
                *cursor = move_cursor(*cursor, 1, code);
            },
            WizardState::SelectingServers { cursor } => {
                *cursor = move_cursor(*cursor, last, code);
            },
            _ => {},
        }
    }

    /// A key that edits the line of input.
    fn edit(&mut self, key: &KeyInput)
        ensures
            final(self)@ == old(self)@.edited(*key),
    {
        match &mut self.state {
            WizardState::EnteringInstallDirectory { input, .. } => {
                input.handle_event(*key);
            },
            WizardState::EnteringServer { input, .. } => {
                input.handle_event(*key);
            },
            _ => {},
        }
    }

    /// Whether the state shows a list.
    fn shows_list(&self) -> (r: bool)
        ensures
            r == self@.shows_list(),
    {
        match &self.state {
            WizardState::SelectingInstallDirectory { .. } => true,
            WizardState::SelectingServers { .. } => true,
            _ => false,
        }
    }

    /// Whether the wizard has finished.
    pub fn is_finished(&self) -> (r: bool)
        ensures
            r == (self@.state is Finished),
    {
        match &self.state {
            WizardState::Finished => true,
            _ => false,
        }
    }

    /// Takes a key, changes the state as the key asks, and says what the
    /// caller is to do.
    pub fn update(&mut self, key: KeyInput) -> (action: WizardAction)
        ensures
            (final(self)@, action@) == old(self)@.after_key(key),
            old(self)@.wf() ==> final(self)@.wf(),
    {
        proof {
            if self@.wf() {
                lemma_wizard_holds_together(self@, key, None);
            }
        }
        let action = self.respond(key);
        let listed = self.servers.len();
        assert(server_views(self.servers@).len() == listed);
        action
    }

    /// Changes the state as the key asks.
    fn respond(&mut self, key: KeyInput) -> (action: WizardAction)
        ensures
            (final(self)@, action@) == old(self)@.after_key(key),
    {
        let is_press = match key.kind {
            KeyKind::Press => true,
            _ => false,
        };
        let is_stroke = match key.kind {
            KeyKind::Release => false,
            _ => true,
        };
        // Control and c leaves, whatever the state.
        if key.ctrl {
            match key.code {
                KeyCode::Char(c) => {
                    if c == 'c' {
                        return WizardAction::Exit;
                    }
                },
                _ => {},
            }
        }
        // The wizard has finished and waits for any key.
        if is_press && self.is_finished() {
            return WizardAction::Exit;
        }
        match key.code {
            KeyCode::Enter => {
                if is_press {
                    return self.confirm();
                }
            },
            KeyCode::Char(c) => {
                if c == ' ' && is_press {
                    self.toggle();
                }
            },
            _ => {},
        }
        if is_stroke && self.shows_list() {
            self.navigate(key.code);
        } else {
            self.edit(&key);
        }
        WizardAction::Continue
    }

    /// Takes the answer to [`WizardAction::CheckInstallDir`]: the
    /// directory of the installation that the typed path leads to, or
    /// `None` if it leads to none.
    pub fn install_dir_checked(&mut self, found: Option<String>)
        ensures
            final(self)@ == old(self)@.after_check(optional_text(found)),
            old(self)@.wf() ==> final(self)@.wf(),
    {
        proof {
            if self@.wf() {
                lemma_wizard_holds_together(self@, KeyInput {
                    code: KeyCode::Other,
                    kind: KeyKind::Release,
                    ctrl: false,
                }, optional_text(found));
            }
        }
        let entering = match &self.state {
            WizardState::EnteringInstallDirectory { .. } => true,
            _ => false,
        };
        if entering {
            match found {
                Some(dir) => {
                    self.install_dir = Some(dir);
                    self.state = WizardState::SelectingServers { cursor: None };
                },
                None => {
                    self.set_invalid();
                },
            }
        }
    }
}

/// A wizard that holds together still does after any key, as long as its
/// list can still be counted, and after any answer on the directory that
/// was typed.
pub proof fn lemma_wizard_holds_together(
    wizard: WizardView,
    key: KeyInput,
    found: Option<Seq<char>>,
)
    requires
        wizard.wf(),
    ensures
        wizard.after_key(key).0.servers.len() <= usize::MAX ==> wizard.after_key(key).0.wf(),
        wizard.after_check(found).wf(),
{
    match wizard.state {
        StateView::EnteringInstallDirectory { input, .. } => {
            lemma_cursor_stays_in_text(input, key);
        },
        StateView::EnteringServer { input, .. } => {
            lemma_cursor_stays_in_text(input, key);
        },
        _ => {},
    }
}

/// A name that cannot name a server is turned down: the wizard asks again
/// with what was typed still in the line, and the list of servers, with
/// what was chosen on it, is as before.
pub proof fn lemma_invalid_server_asks_again(wizard: WizardView, key: KeyInput)
    requires
        wizard.state is EnteringServer,
        !is_server_id(wizard.state->EnteringServer_input.content),
        key.code == KeyCode::Enter,
        key.kind == KeyKind::Press,
        !key.ctrl,
    ensures
        wizard.after_key(key).1 == ActionView::Continue,
        wizard.after_key(key).0.state == (StateView::EnteringServer {
            input: wizard.state->EnteringServer_input,
            invalid: true,
        }),
        wizard.after_key(key).0.servers == wizard.servers,
        wizard.after_key(key).0.install_dir == wizard.install_dir,
{
}

/// A name that can name a server joins the list as its last server,
/// chosen and under the cursor; the servers before it stay as they were.
pub proof fn lemma_valid_server_joins_list(wizard: WizardView, key: KeyInput)
    requires
        wizard.state is EnteringServer,
        is_server_id(wizard.state->EnteringServer_input.content),
        key.code == KeyCode::Enter,
        key.kind == KeyKind::Press,
        !key.ctrl,
    ensures
        ({
            let after = wizard.after_key(key).0;
            &&& after.servers.len() == wizard.servers.len() + 1
            &&& after.servers.take(wizard.servers.len() as int) == wizard.servers
            &&& after.servers.last() == (ServerView {
                domain: wizard.state->EnteringServer_input.content,
                enabled: true,
            })
            &&& after.state == (StateView::SelectingServers {
                cursor: Some(wizard.servers.len() as usize),
            })
        }),
{
    let after = wizard.after_key(key).0;
    assert(after.servers.take(wizard.servers.len() as int) =~= wizard.servers);
}

/// The space bar changes nothing but whether the server under the cursor
/// is chosen.
pub proof fn lemma_toggle_keeps_the_rest(wizard: WizardView)
    ensures
        wizard.toggled().state == wizard.state,
        wizard.toggled().install_dir == wizard.install_dir,
        wizard.toggled().servers.len() == wizard.servers.len(),
        forall|i: int|
            0 <= i < wizard.servers.len() ==> #[trigger] wizard.toggled().servers[i].domain
                == wizard.servers[i].domain,
        forall|i: int|
            #![trigger wizard.toggled().servers[i]]
            0 <= i < wizard.servers.len() && wizard.state != (StateView::SelectingServers {
                cursor: Some(i as usize),
            }) ==> wizard.toggled().servers[i] == wizard.servers[i],
{
}

} // verus!
