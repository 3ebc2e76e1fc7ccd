//! The switch engine. A switch is a run of small steps on the files of an
//! installation; between two steps the engine decides. It does none of the
//! steps itself: it names the next one, the caller performs it and hands
//! back what came of it.

use crate::error::{ErrorKind, ErrorView, SwitchError};
use crate::paths::{InstallPaths, InstallPathsView};
use crate::repair::RepairChoice;
use crate::servers::{canonical_server, normalize_server};
use crate::store::{has_login_section, ini_parsed, stashed, ConfigStore, Stash};
use crate::step::{Action, ActionView, Reply, ReplyView};
use crate::swap::{config_after, stash_after, swap, swap_needed, SwapOutcome};
use vstd::prelude::*;

verus! {

/// How a switch ended.
#[derive(Clone, Copy, Debug, PartialEq, Eq, Structural)]
pub enum SwitchOutcome {
    /// The client was started again, on the target server.
    Relaunched,
    /// A repair of the client was pending and the user let it go first:
    /// the client was not started.
    DeferredToRepair,
}

/// Where a switch stands: the step that the engine waits on.
#[derive(Clone, Copy, Debug, PartialEq, Eq, Structural)]
pub enum Phase {
    /// Looking for the client's executable.
    CheckingExecutable,
    /// Looking for the library that the client ships beside it.
    CheckingLibrary,
    /// Looking for the client's configuration for this user.
    CheckingConfig,
    /// Looking for the stash.
    CheckingStash,
    /// Looking for the stash under the name it had before.
    CheckingLegacyStash,
    /// Giving the stash of before its new name.
    MigratingStash,
    /// Creating the stash, empty.
    CreatingStash,
    /// Reading the stash.
    ReadingStash,
    /// Reading the configuration. With its text in hand the identities are
    /// swapped.
    ReadingConfig,
    /// Setting the player's name in the client's database.
    EditingDatabase,
    /// Writing the configuration.
    WritingConfig,
    /// Writing the stash.
    WritingStash,
    /// Clearing the client's authentication log.
    ClearingLog,
    /// Clearing the log of an installation that has no configuration for
    /// this user: the client is started next, whatever is pending.
    ClearingLogOnly,
    /// Looking for the mark of a pending repair.
    CheckingRepair,
    /// Asking the user whether the repair goes first.
    AskingRepair,
    /// Removing the mark of the pending repair.
    CancellingRepair,
    /// Starting the client.
    Relaunching,
    /// The switch has ended.
    Finished,
}

/// What a switch is asked for.
#[derive(Debug)]
pub struct SwitchRequest {
    /// The directory of the installation.
    pub install_dir: String,
    /// The server to switch to; the empty text is the home server.
    pub target_server: String,
}

/// The state of a switch as plain values.
pub struct EngineView {
    pub paths: InstallPathsView,
    /// The server to switch to, under its canonical name.
    pub target: Seq<char>,
    pub phase: Phase,
    /// The text of the stash, once it was read.
    pub stash_text: Seq<char>,
    /// The player's name for the database, once the swap was made.
    pub player_name: Seq<char>,
    /// The text to write to the configuration, once the swap was made.
    pub config_out: Seq<char>,
    /// The text to write to the stash, once the swap was made.
    pub stash_out: Seq<char>,
    /// What failed without ending the switch.
    pub warnings: Seq<ErrorView>,
    /// How the switch ended, once it has.
    pub result: Option<Result<SwitchOutcome, ErrorView>>,
}

/// How far a phase is from the end of the switch, counted in steps at
/// most.
pub open spec fn steps_left(phase: Phase) -> nat {
    match phase {
        Phase::CheckingExecutable => 17,
        Phase::CheckingLibrary => 16,
        Phase::CheckingConfig => 15,
        Phase::CheckingStash => 14,
        Phase::CheckingLegacyStash => 13,
        Phase::MigratingStash => 12,
        Phase::CreatingStash => 11,
        Phase::ReadingStash => 10,
        Phase::ReadingConfig => 9,
        Phase::EditingDatabase => 8,
        Phase::WritingConfig => 7,
        Phase::WritingStash => 6,
        Phase::ClearingLog => 5,
        Phase::CheckingRepair => 4,
        Phase::AskingRepair => 3,
        Phase::CancellingRepair => 2,
        Phase::ClearingLogOnly => 2,
        Phase::Relaunching => 1,
        Phase::Finished => 0,
    }
}

/// Whether a phase changes a store or the database.
pub open spec fn is_writing(phase: Phase) -> bool {
    phase == Phase::EditingDatabase || phase == Phase::WritingConfig || phase
        == Phase::WritingStash
}

impl EngineView {
    /// The state at the start of a switch to `target` on the installation
    /// with these paths.
    pub open spec fn initial(paths: InstallPathsView, target: Seq<char>) -> EngineView {
        EngineView {
            paths,
            target: canonical_server(target),
            phase: Phase::CheckingExecutable,
            stash_text: Seq::<char>::empty(),
            player_name: Seq::<char>::empty(),
            config_out: Seq::<char>::empty(),
            stash_out: Seq::<char>::empty(),
            warnings: Seq::<ErrorView>::empty(),
            result: None,
        }
    }

    /// The switch has a result when it has ended, and only then.
    pub open spec fn settled(self) -> bool {
        self.phase == Phase::Finished <==> self.result is Some
    }

    /// This state, moved on to `phase`.
    pub open spec fn at(self, phase: Phase) -> EngineView {
        EngineView { phase, ..self }
    }

    /// This state, ended by an error.
    pub open spec fn failed(self, kind: ErrorKind, subject: Seq<char>) -> EngineView {
        EngineView {
            phase: Phase::Finished,
            result: Some(Err(ErrorView { kind, subject })),
            ..self
        }
    }

    /// This state, ended well.
    pub open spec fn finished(self, outcome: SwitchOutcome) -> EngineView {
        EngineView { phase: Phase::Finished, result: Some(Ok(outcome)), ..self }
    }

    /// This state with one more failure that did not end the switch.
    pub open spec fn warned(self, kind: ErrorKind, subject: Seq<char>) -> EngineView {
        EngineView { warnings: self.warnings.push(ErrorView { kind, subject }), ..self }
    }

    /// The step that the caller is to perform in this state.
    pub open spec fn action(self) -> ActionView {
        match self.phase {
            Phase::CheckingExecutable => ActionView::FileExists { path: self.paths.executable },
            Phase::CheckingLibrary => ActionView::FileExists { path: self.paths.library },
            Phase::CheckingConfig => ActionView::FileExists { path: self.paths.config },
            Phase::CheckingStash => ActionView::FileExists { path: self.paths.stash },
            Phase::CheckingLegacyStash => ActionView::FileExists { path: self.paths.legacy_stash },
            Phase::MigratingStash => ActionView::Rename {
                from: self.paths.legacy_stash,
                to: self.paths.stash,
            },
            Phase::CreatingStash => ActionView::CreateEmpty { path: self.paths.stash },
            Phase::ReadingStash => ActionView::ReadText { path: self.paths.stash },
            Phase::ReadingConfig => ActionView::ReadText { path: self.paths.config },
            Phase::EditingDatabase => ActionView::EditPlayerName {
                database: self.paths.database,
                name: self.player_name,
            },
            Phase::WritingConfig => ActionView::WriteText {
                path: self.paths.config,
                text: self.config_out,
            },
            Phase::WritingStash => ActionView::WriteText {
                path: self.paths.stash,
                text: self.stash_out,
            },
            Phase::ClearingLog | Phase::ClearingLogOnly => ActionView::Remove {
                path: self.paths.auth_log,
            },
            Phase::CheckingRepair => ActionView::FileExists { path: self.paths.repair_marker },
            Phase::AskingRepair => ActionView::AskRepair,
            Phase::CancellingRepair => ActionView::Remove { path: self.paths.repair_marker },
            Phase::Relaunching => ActionView::Relaunch {
                executable: self.paths.executable,
                server: self.target,
            },
            Phase::Finished => ActionView::Finish,
        }
    }

    /// Whether `reply` answers the step of this state.
    pub open spec fn answers(self, reply: ReplyView) -> bool {
        match self.phase {
            Phase::CheckingExecutable
            | Phase::CheckingLibrary
            | Phase::CheckingConfig
            | Phase::CheckingStash
            | Phase::CheckingLegacyStash
            | Phase::CheckingRepair => reply is Exists,
            Phase::MigratingStash
            | Phase::CreatingStash
            | Phase::EditingDatabase
            | Phase::WritingConfig
            | Phase::WritingStash
            | Phase::ClearingLog
            | Phase::ClearingLogOnly
            | Phase::CancellingRepair
            | Phase::Relaunching => reply is Done,
            Phase::ReadingStash | Phase::ReadingConfig => reply is Text,
            Phase::AskingRepair => reply is Choice,
            Phase::Finished => false,
        }
    }

    /// The state after `reply`, for every step but the one that brings the
    /// text of the configuration. A reply that does not answer the step
    /// leaves the state as it is, and so the step is asked for again.
    pub open spec fn after(self, reply: ReplyView) -> EngineView {
        match (self.phase, reply) {
            (Phase::CheckingExecutable, ReplyView::Exists(found)) => if found {
                self.at(Phase::CheckingLibrary)
            } else {
                self.failed(ErrorKind::InstallationNotFound, self.paths.executable)
            },
            (Phase::CheckingLibrary, ReplyView::Exists(found)) => if found {
                self.at(Phase::CheckingConfig)
            } else {
                self.failed(ErrorKind::InstallationNotFound, self.paths.library)
            },
            // Without a configuration for this user there is no identity
            // to swap: the log is cleared and the client is started.
            (Phase::CheckingConfig, ReplyView::Exists(found)) => if found {
                self.at(Phase::CheckingStash)
            } else {
                self.at(Phase::ClearingLogOnly)
            },
            (Phase::CheckingStash, ReplyView::Exists(found)) => if found {
                self.at(Phase::ReadingStash)
            } else {
                self.at(Phase::CheckingLegacyStash)
            },
            (Phase::CheckingLegacyStash, ReplyView::Exists(found)) => if found {
                self.at(Phase::MigratingStash)
            } else {
                self.at(Phase::CreatingStash)
            },
            (Phase::MigratingStash, ReplyView::Done(ok)) => if ok {
                self.at(Phase::ReadingStash)
            } else {
                self.failed(ErrorKind::ConfigWriteFailed, self.paths.legacy_stash)
            },
            (Phase::CreatingStash, ReplyView::Done(ok)) => if ok {
                self.at(Phase::ReadingStash)
            } else {
                self.failed(ErrorKind::ConfigWriteFailed, self.paths.stash)
            },
            (Phase::ReadingStash, ReplyView::Text(Some(text))) => EngineView {
                stash_text: text,
                ..self.at(Phase::ReadingConfig)
            },
            (Phase::ReadingStash, ReplyView::Text(None)) => self.failed(
                ErrorKind::ConfigCorrupted,
                self.paths.stash,
            ),
            (Phase::ReadingConfig, ReplyView::Text(None)) => self.failed(
                ErrorKind::ConfigCorrupted,
                self.paths.config,
            ),
            // The client can make its database anew, so the switch goes on
            // without it.
            (Phase::EditingDatabase, ReplyView::Done(ok)) => if ok {
                self.at(Phase::WritingConfig)
            } else {
                self.warned(ErrorKind::DatabaseEditFailed, self.paths.database).at(
                    Phase::WritingConfig,
                )
            },
            (Phase::WritingConfig, ReplyView::Done(ok)) => if ok {
                self.at(Phase::WritingStash)
            } else {
                self.failed(ErrorKind::ConfigWriteFailed, self.paths.config)
            },
            // The configuration is written by now. The identity that left
            // is lost if the stash cannot be written, and the switch goes
            // on: the caller is told by a warning.
            (Phase::WritingStash, ReplyView::Done(ok)) => if ok {
                self.at(Phase::ClearingLog)
            } else {
                self.warned(ErrorKind::ConfigWriteFailed, self.paths.stash).at(Phase::ClearingLog)
            },
            // Whether the log could be removed does not matter.
            (Phase::ClearingLog, ReplyView::Done(_)) => self.at(Phase::CheckingRepair),
            (Phase::ClearingLogOnly, ReplyView::Done(_)) => self.at(Phase::Relaunching),
            (Phase::CheckingRepair, ReplyView::Exists(found)) => if found {
                self.at(Phase::AskingRepair)
            } else {
                self.at(Phase::Relaunching)
            },
            (Phase::AskingRepair, ReplyView::Choice(choice)) => match choice {
                RepairChoice::Launch => self.at(Phase::CancellingRepair),
                RepairChoice::Repair => self.finished(SwitchOutcome::DeferredToRepair),
                RepairChoice::Cancel => self.failed(
                    ErrorKind::UserCancelled,
                    self.paths.repair_marker,
                ),
            },
            (Phase::CancellingRepair, ReplyView::Done(ok)) => if ok {
                self.at(Phase::Relaunching)
            } else {
                self.failed(ErrorKind::RelaunchFailed, self.paths.repair_marker)
            },
            (Phase::Relaunching, ReplyView::Done(ok)) => if ok {
                self.finished(SwitchOutcome::Relaunched)
            } else {
                self.failed(ErrorKind::RelaunchFailed, self.paths.executable)
            },
            _ => self,
        }
    }

    /// This state after the stores were swapped and written out as texts,
    /// where `config_out` and `stash_out` are what came of the writing
    /// out. A store that cannot be written out ends the switch here, with
    /// nothing changed on disk; the configuration is looked at first.
    pub open spec fn swapped(
        self,
        player_name: Seq<char>,
        config_out: Option<Seq<char>>,
        stash_out: Option<Seq<char>>,
    ) -> EngineView {
        match (config_out, stash_out) {
            (None, _) => self.failed(ErrorKind::ConfigWriteFailed, self.paths.config),
            (Some(_), None) => self.failed(ErrorKind::ConfigWriteFailed, self.paths.stash),
            (Some(config_text), Some(stash_text)) => EngineView {
                player_name,
                config_out: config_text,
                stash_out: stash_text,
                ..self.at(Phase::EditingDatabase)
            },
        }
    }

    /// Whether `next` can follow this state once the text of the
    /// configuration has come in as `config_text`.
    ///
    /// A store that cannot be read, or a configuration without a login
    /// section, ends the switch. A switch to the server that is active goes
    /// straight on to the cleaning up. Otherwise the stores are swapped and
    /// written out as texts, and the state is what [`EngineView::swapped`]
    /// makes of the two texts.
    pub open spec fn exchanged(self, config_text: Seq<char>, next: EngineView) -> bool {
        match (ini_parsed(self.stash_text), ini_parsed(config_text)) {
            (None, _) => next == self.failed(ErrorKind::ConfigCorrupted, self.paths.stash),
            (Some(_), None) => next == self.failed(ErrorKind::ConfigCorrupted, self.paths.config),
            (Some(stash), Some(config)) => {
                if !has_login_section(config) {
                    next == self.failed(ErrorKind::ConfigCorrupted, self.paths.config)
                } else if !swap_needed(config, self.target) {
                    next == self.at(Phase::ClearingLog)
                } else {
                    exists|config_store: ConfigStore, stash_store: Stash|
                        #![trigger config_store.rendered(), stash_store.rendered()]
                        config_store@ == config_after(config, stash, self.target) && stash_store@
                            == stash_after(config, stash, self.target) && next == self.swapped(
                            stashed(stash, canonical_server(self.target)).username,
                            config_store.rendered(),
                            stash_store.rendered(),
                        )
                }
            },
        }
    }

    /// Whether `next` can follow this state on `reply`.
    pub open spec fn steps_to(self, reply: ReplyView, next: EngineView) -> bool {
        match (self.phase, reply) {
            (Phase::ReadingConfig, ReplyView::Text(Some(text))) => self.exchanged(text, next),
            _ => next == self.after(reply),
        }
    }
}

/// A switch in progress.
///
/// The caller performs [`SwitchEngine::action`], hands what came of it to
/// [`SwitchEngine::step`], and so on until the action is
/// [`Action::Finish`]; [`SwitchEngine::result`] then tells how the switch
/// ended.
#[derive(Debug)]
pub struct SwitchEngine {
    paths: InstallPaths,
    target: String,
    phase: Phase,
    stash_text: String,
    player_name: String,
    config_out: String,
    stash_out: String,
    warnings: Vec<SwitchError>,
    result: Option<Result<SwitchOutcome, SwitchError>>,
}

/// How a switch ended, as plain values.
pub open spec fn result_view(result: Option<Result<SwitchOutcome, SwitchError>>) -> Option<
    Result<SwitchOutcome, ErrorView>,
> {
    match result {
        None => None,
        Some(Ok(outcome)) => Some(Ok(outcome)),
        Some(Err(error)) => Some(Err(error@)),
    }
}

/// A list of errors as plain values.
pub open spec fn errors_view(errors: Seq<SwitchError>) -> Seq<ErrorView> {
    errors.map_values(|error: SwitchError| error@)
}

impl View for SwitchEngine {
    type V = EngineView;

    closed spec fn view(&self) -> EngineView {
        EngineView {
            paths: self.paths@,
            target: self.target@,
            phase: self.phase,
            stash_text: self.stash_text@,
            player_name: self.player_name@,
            config_out: self.config_out@,
            stash_out: self.stash_out@,
            warnings: errors_view(self.warnings@),
            result: result_view(self.result),
        }
    }
}

impl SwitchEngine {
    /// A switch to `target` on the installation with these paths, before
    /// its first step.
    pub fn new(paths: InstallPaths, target: &str) -> (r: SwitchEngine)
        ensures
            r@ == EngineView::initial(paths@, target@),
    {
        let engine = SwitchEngine {
            paths,
            target: normalize_server(target),
            phase: Phase::CheckingExecutable,
            stash_text: String::new(),
            player_name: String::new(),
            config_out: String::new(),
            stash_out: String::new(),
            warnings: Vec::new(),
            result: None,
        };
        assert(errors_view(engine.warnings@) =~= Seq::<ErrorView>::empty());
        engine
    }

    /// The switch that `request` asks for, for the system user `user`.
    pub fn begin(request: &SwitchRequest, user: &str) -> (r: SwitchEngine)
        ensures
            r@ == EngineView::initial(
                crate::paths::install_paths(request.install_dir@, user@),
                request.target_server@,
            ),
    {
        let paths = InstallPaths::new(request.install_dir.as_str(), user);
        SwitchEngine::new(paths, request.target_server.as_str())
    }

    /// The switch that `request` asks for, for the user that runs the
    /// program. If the system does not name that user, the configuration
    /// cannot be found, and the error says so of the directory.
    pub fn for_request(request: &SwitchRequest) -> (r: Result<SwitchEngine, SwitchError>)
        ensures
            match r {
                Ok(engine) => exists|user: Seq<char>|
                    engine@ == EngineView::initial(
                        crate::paths::install_paths(request.install_dir@, user),
                        request.target_server@,
                    ),
                Err(error) => error@ == (ErrorView {
                    kind: ErrorKind::InstallationNotFound,
                    subject: request.install_dir@,
                }),
            },
    {
        match InstallPaths::for_current_user(request.install_dir.as_str()) {
            Some(paths) => Ok(SwitchEngine::new(paths, request.target_server.as_str())),
            None => Err(
                SwitchError {
                    kind: ErrorKind::InstallationNotFound,
                    subject: request.install_dir.clone(),
                },
            ),
        }
    }

    /// Where the switch stands.
    pub fn phase(&self) -> (r: Phase)
        ensures
            r == self@.phase,
    {
        self.phase
    }

    /// Whether the switch has ended.
    pub fn is_finished(&self) -> (r: bool)
        ensures
            r == (self@.phase == Phase::Finished),
    {
        self.phase == Phase::Finished
    }

    /// The server that the switch goes to, under its canonical name.
    pub fn target(&self) -> (r: &str)
        ensures
            r@ == self@.target,
    {
        self.target.as_str()
    }

    /// How the switch ended; `None` while it has not.
    pub fn result(&self) -> (r: &Option<Result<SwitchOutcome, SwitchError>>)
        ensures
            result_view(*r) == self@.result,
    {
        &self.result
    }

    /// What failed so far without ending the switch.
    pub fn warnings(&self) -> (r: &Vec<SwitchError>)
        ensures
            errors_view(r@) == self@.warnings,
    {
        &self.warnings
    }

    /// The step that the caller is to perform now.
    pub fn action(&self) -> (r: Action)
        ensures
            r@ == self@.action(),
    {
        match self.phase {
            Phase::CheckingExecutable => Action::FileExists { path: self.paths.executable.clone() },
            Phase::CheckingLibrary => Action::FileExists { path: self.paths.library.clone() },
            Phase::CheckingConfig => Action::FileExists { path: self.paths.config.clone() },
            Phase::CheckingStash => Action::FileExists { path: self.paths.stash.clone() },
            Phase::CheckingLegacyStash => Action::FileExists {
                path: self.paths.legacy_stash.clone(),
            },
            Phase::MigratingStash => Action::Rename {
                from: self.paths.legacy_stash.clone(),
                to: self.paths.stash.clone(),
            },
            Phase::CreatingStash => Action::CreateEmpty { path: self.paths.stash.clone() },
            Phase::ReadingStash => Action::ReadText { path: self.paths.stash.clone() },
            Phase::ReadingConfig => Action::ReadText { path: self.paths.config.clone() },
            Phase::EditingDatabase => Action::EditPlayerName {
                database: self.paths.database.clone(),
                name: self.player_name.clone(),
            },
            Phase::WritingConfig => Action::WriteText {
                path: self.paths.config.clone(),
                text: self.config_out.clone(),
            },
            Phase::WritingStash => Action::WriteText {
                path: self.paths.stash.clone(),
                text: self.stash_out.clone(),
            },
            Phase::ClearingLog | Phase::ClearingLogOnly => Action::Remove {
                path: self.paths.auth_log.clone(),
            },
            Phase::CheckingRepair => Action::FileExists { path: self.paths.repair_marker.clone() },
            Phase::AskingRepair => Action::AskRepair,
            Phase::CancellingRepair => Action::Remove { path: self.paths.repair_marker.clone() },
            Phase::Relaunching => Action::Relaunch {
                executable: self.paths.executable.clone(),
                server: self.target.clone(),
            },
            Phase::Finished => Action::Finish,
        }
    }

    /// Ends the switch with an error.
    fn fail(&mut self, kind: ErrorKind, subject: String)
        ensures
            final(self)@ == old(self)@.failed(kind, subject@),
    {
        self.phase = Phase::Finished;
        self.result = Some(Err(SwitchError { kind, subject }));
    }

    /// Ends the switch well.
    fn finish(&mut self, outcome: SwitchOutcome)
        ensures
            final(self)@ == old(self)@.finished(outcome),
    {
        self.phase = Phase::Finished;
        self.result = Some(Ok(outcome));
    }

    /// Notes a failure that does not end the switch.
    fn warn(&mut self, kind: ErrorKind, subject: String)
        ensures
            final(self)@ == old(self)@.warned(kind, subject@),
    {
        let error = SwitchError { kind, subject };
        self.warnings.push(error);
        assert(errors_view(self.warnings@) =~= errors_view(old(self).warnings@).push(error@));
    }

    /// Goes on to `phase` if `ok`, and else ends the switch with an error
    /// on `subject`.
    fn go_or_fail(&mut self, ok: bool, phase: Phase, kind: ErrorKind, subject: String)
        ensures
            final(self)@ == if ok {
                old(self)@.at(phase)
            } else {
                old(self)@.failed(kind, subject@)
            },
    {
        if ok {
            self.phase = phase;
        } else {
            self.fail(kind, subject);
        }
    }

    /// Goes on to `phase`, with a warning on `subject` unless `ok`.
    fn go_or_warn(&mut self, ok: bool, phase: Phase, kind: ErrorKind, subject: String)
        ensures
            final(self)@ == if ok {
                old(self)@.at(phase)
            } else {
                old(self)@.warned(kind, subject@).at(phase)
            },
    {
        if !ok {
            self.warn(kind, subject);
        }
        self.phase = phase;
    }

    /// Goes on to `yes` or to `no`.
    fn branch(&mut self, found: bool, yes: Phase, no: Phase)
        ensures
            final(self)@ == old(self)@.at(if found { yes } else { no }),
    {
        self.phase = if found { yes } else { no };
    }

    /// The step on which both stores are in hand: reads them, swaps the
    /// identities and keeps the texts to be written.
    fn exchange(&mut self, config_text: &str)
        ensures
            old(self)@.exchanged(config_text@, final(self)@),
    {
        let mut stash = match Stash::parse(self.stash_text.as_str()) {
            Ok(stash) => stash,
            Err(_) => {
                let subject = self.paths.stash.clone();
                self.fail(ErrorKind::ConfigCorrupted, subject);
                return ;
            },
        };
        let mut config = match ConfigStore::parse(config_text) {
            Ok(config) => config,
            Err(_) => {
                let subject = self.paths.config.clone();
                self.fail(ErrorKind::ConfigCorrupted, subject);
                return ;
            },
        };
        match swap(&mut config, &mut stash, self.target.as_str()) {
            None => {
                let subject = self.paths.config.clone();
                self.fail(ErrorKind::ConfigCorrupted, subject);
            },
            Some(SwapOutcome::Unchanged) => {
                self.phase = Phase::ClearingLog;
            },
            Some(SwapOutcome::Swapped { outgoing: _, incoming }) => {
                let config_out = match config.render() {
                    Some(text) => text,
                    None => {
                        let subject = self.paths.config.clone();
                        self.fail(ErrorKind::ConfigWriteFailed, subject);
                        return ;
                    },
                };
                let stash_out = match stash.render() {
                    Some(text) => text,
                    None => {
                        let subject = self.paths.stash.clone();
                        self.fail(ErrorKind::ConfigWriteFailed, subject);
                        return ;
                    },
                };
                self.player_name = incoming.username;
                self.config_out = config_out;
                self.stash_out = stash_out;
                self.phase = Phase::EditingDatabase;
            },
        }
    }

    /// Takes what came of the step that [`SwitchEngine::action`] named and
    /// decides how the switch goes on. A reply that does not answer that
    /// step changes nothing, and so the step is asked for again.
    pub fn step(&mut self, reply: Reply)
        ensures
            old(self)@.steps_to(reply@, final(self)@),
    {
        match (self.phase, reply) {
            (Phase::CheckingExecutable, Reply::Exists(found)) => {
                let subject = self.paths.executable.clone();
                self.go_or_fail(
                    found,
                    Phase::CheckingLibrary,
                    ErrorKind::InstallationNotFound,
                    subject,
                );
            },
            (Phase::CheckingLibrary, Reply::Exists(found)) => {
                let subject = self.paths.library.clone();
                self.go_or_fail(
                    found,
                    Phase::CheckingConfig,
                    ErrorKind::InstallationNotFound,
                    subject,
                );
            },
            (Phase::CheckingConfig, Reply::Exists(found)) => {
                self.branch(found, Phase::CheckingStash, Phase::ClearingLogOnly);
            },
            (Phase::CheckingStash, Reply::Exists(found)) => {
                self.branch(found, Phase::ReadingStash, Phase::CheckingLegacyStash);
            },
            (Phase::CheckingLegacyStash, Reply::Exists(found)) => {
                self.branch(found, Phase::MigratingStash, Phase::CreatingStash);
            },
            (Phase::MigratingStash, Reply::Done(ok)) => {
                let subject = self.paths.legacy_stash.clone();
                self.go_or_fail(ok, Phase::ReadingStash, ErrorKind::ConfigWriteFailed, subject);
            },
            (Phase::CreatingStash, Reply::Done(ok)) => {
                let subject = self.paths.stash.clone();
                self.go_or_fail(ok, Phase::ReadingStash, ErrorKind::ConfigWriteFailed, subject);
            },
            (Phase::ReadingStash, Reply::Text(Some(text))) => {
                self.stash_text = text;
                self.phase = Phase::ReadingConfig;
            },
            (Phase::ReadingStash, Reply::Text(None)) => {
                let subject = self.paths.stash.clone();
                self.fail(ErrorKind::ConfigCorrupted, subject);
            },
            (Phase::ReadingConfig, Reply::Text(Some(text))) => {
                self.exchange(text.as_str());
            },
            (Phase::ReadingConfig, Reply::Text(None)) => {
                let subject = self.paths.config.clone();
                self.fail(ErrorKind::ConfigCorrupted, subject);
            },
            (Phase::EditingDatabase, Reply::Done(ok)) => {
                let subject = self.paths.database.clone();
                self.go_or_warn(ok, Phase::WritingConfig, ErrorKind::DatabaseEditFailed, subject);
            },
            (Phase::WritingConfig, Reply::Done(ok)) => {
                let subject = self.paths.config.clone();
                self.go_or_fail(ok, Phase::WritingStash, ErrorKind::ConfigWriteFailed, subject);
            },
            (Phase::WritingStash, Reply::Done(ok)) => {
                let subject = self.paths.stash.clone();
                self.go_or_warn(ok, Phase::ClearingLog, ErrorKind::ConfigWriteFailed, subject);
            },
            (Phase::ClearingLog, Reply::Done(_)) => {
                self.phase = Phase::CheckingRepair;
            },
            (Phase::ClearingLogOnly, Reply::Done(_)) => {
                self.phase = Phase::Relaunching;
            },
            (Phase::CheckingRepair, Reply::Exists(found)) => {
                self.branch(found, Phase::AskingRepair, Phase::Relaunching);
            },
            (Phase::AskingRepair, Reply::Choice(choice)) => match choice {
                RepairChoice::Launch => {
                    self.phase = Phase::CancellingRepair;
                },
                RepairChoice::Repair => {
                    self.finish(SwitchOutcome::DeferredToRepair);
                },
                RepairChoice::Cancel => {
                    let subject = self.paths.repair_marker.clone();
                    self.fail(ErrorKind::UserCancelled, subject);
                },
            },
            (Phase::CancellingRepair, Reply::Done(ok)) => {
                let subject = self.paths.repair_marker.clone();
                self.go_or_fail(ok, Phase::Relaunching, ErrorKind::RelaunchFailed, subject);
            },
            (Phase::Relaunching, Reply::Done(ok)) => {
                if ok {
                    self.finish(SwitchOutcome::Relaunched);
                } else {
                    let subject = self.paths.executable.clone();
                    self.fail(ErrorKind::RelaunchFailed, subject);
                }
            },
            _ => {},
        }
    }
}

/// A reply that answers the step brings the switch nearer to its end, and
/// any other reply changes nothing: a switch ends after as many steps as
/// [`steps_left`] counts, at most.
pub proof fn lemma_switch_progresses(state: EngineView, reply: ReplyView, next: EngineView)
    requires
        state.steps_to(reply, next),
    ensures
        state.answers(reply) ==> steps_left(next.phase) < steps_left(state.phase),
        !state.answers(reply) ==> next == state,
{
}

/// A switch has a result when it has ended, and only then: this holds at
/// the start, and every step keeps it.
pub proof fn lemma_result_when_finished(
    paths: InstallPathsView,
    target: Seq<char>,
    state: EngineView,
    reply: ReplyView,
    next: EngineView,
)
    requires
        state.settled(),
        state.steps_to(reply, next),
    ensures
        EngineView::initial(paths, target).settled(),
        next.settled(),
{
}

/// A switch to the server that is active already writes nothing: from the
/// reading of the stores it goes straight to the cleaning up, and from
/// there on no step changes a store or the database.
pub proof fn lemma_active_target_writes_nothing(
    state: EngineView,
    config_text: Seq<char>,
    next: EngineView,
)
    requires
        state.phase == Phase::ReadingConfig,
        state.steps_to(ReplyView::Text(Some(config_text)), next),
        ini_parsed(state.stash_text) is Some,
        ini_parsed(config_text) matches Some(config) && has_login_section(config) && !swap_needed(
            config,
            state.target,
        ),
    ensures
        next == state.at(Phase::ClearingLog),
        !is_writing(next.phase),
        next.warnings == state.warnings,
{
}

/// Once the cleaning up has begun, no later step changes a store or the
/// database.
pub proof fn lemma_no_writing_after_cleanup(state: EngineView, reply: ReplyView, next: EngineView)
    requires
        steps_left(state.phase) <= steps_left(Phase::ClearingLog),
        state.steps_to(reply, next),
    ensures
        steps_left(next.phase) <= steps_left(Phase::ClearingLog),
        !is_writing(next.phase),
{
    lemma_switch_progresses(state, reply, next);
}

/// Of the two stores only the configuration ends the switch when it
/// cannot be written. A stash that cannot be written, and a database that
/// cannot be edited, leave a warning that names the file, and the switch
/// goes on.
pub proof fn lemma_only_the_configuration_is_fatal(state: EngineView)
    ensures
        state.phase == Phase::WritingConfig ==> state.after(ReplyView::Done(false)).result == Some(
            Err::<SwitchOutcome, ErrorView>(
                ErrorView { kind: ErrorKind::ConfigWriteFailed, subject: state.paths.config },
            ),
        ),
        state.phase == Phase::WritingStash ==> ({
            let next = state.after(ReplyView::Done(false));
            &&& next.phase == Phase::ClearingLog
            &&& next.result == state.result
            &&& next.warnings == state.warnings.push(
                ErrorView { kind: ErrorKind::ConfigWriteFailed, subject: state.paths.stash },
            )
        }),
        state.phase == Phase::EditingDatabase ==> ({
            let next = state.after(ReplyView::Done(false));
            &&& next.phase == Phase::WritingConfig
            &&& next.result == state.result
            &&& next.warnings == state.warnings.push(
                ErrorView { kind: ErrorKind::DatabaseEditFailed, subject: state.paths.database },
            )
        }),
{
}

/// The stash under its old name is given the new name only after the
/// stash was looked for under the new name and not found: a stash that is
/// there is never replaced.
pub proof fn lemma_migration_needs_missing_stash(
    state: EngineView,
    reply: ReplyView,
    next: EngineView,
)
    requires
        state.steps_to(reply, next),
        next != state,
    ensures
        next.action() is Rename ==> state.phase == Phase::CheckingLegacyStash && reply
            == ReplyView::Exists(true),
        next.phase == Phase::CheckingLegacyStash ==> state.phase == Phase::CheckingStash && reply
            == ReplyView::Exists(false),
{
}

/// The client is started only as the last step of a switch, and never
/// after the user let a pending repair go first: that answer ends the
/// switch at once.
pub proof fn lemma_deferred_repair_starts_nothing(state: EngineView)
    ensures
        state.action() is Relaunch <==> state.phase == Phase::Relaunching,
        state.phase == Phase::AskingRepair ==> ({
            let next = state.after(ReplyView::Choice(RepairChoice::Repair));
            &&& next.result == Some(
                Ok::<SwitchOutcome, ErrorView>(SwitchOutcome::DeferredToRepair),
            )
            &&& next.action() is Finish
        }),
{
}

} // verus!
