use osu_switcher::key::{KeyCode, KeyInput, KeyKind};
use osu_switcher::wizard::{move_cursor, Wizard, WizardAction, WizardState};

fn press(code: KeyCode) -> KeyInput {
    KeyInput::press(code)
}

fn type_text(wizard: &mut Wizard, text: &str) {
    for c in text.chars() {
        assert!(matches!(wizard.update(press(KeyCode::Char(c))), WizardAction::Continue));
    }
}

fn cursor_of(wizard: &Wizard) -> Option<usize> {
    match wizard.state() {
        WizardState::SelectingInstallDirectory { cursor, .. } => *cursor,
        WizardState::SelectingServers { cursor } => *cursor,
        other => panic!("no list is shown in {other:?}"),
    }
}

fn line_of(wizard: &Wizard) -> (String, usize, bool) {
    match wizard.state() {
        WizardState::EnteringInstallDirectory { input, invalid } => (input.text().to_string(), input.position(), *invalid),
        WizardState::EnteringServer { input, invalid } => (input.text().to_string(), input.position(), *invalid),
        other => panic!("no text is taken in {other:?}"),
    }
}

fn enabled(wizard: &Wizard) -> Vec<String> {
    wizard.servers().iter().filter(|server| server.enabled).map(|server| server.domain.clone()).collect()
}

/// A wizard that shows the list of servers, for the installation in `C:/osu`.
fn choosing_servers() -> Wizard {
    let mut wizard = Wizard::new();
    wizard.begin(Some("C:/osu".to_string()));
    wizard.update(press(KeyCode::Enter));
    wizard
}

#[test]
fn wizard_starts_before_detection() {
    let wizard = Wizard::new();
    assert!(matches!(wizard.state(), WizardState::Started));
    assert!(wizard.install_dir().is_none());
    assert!(wizard.servers().is_empty());
    assert!(!wizard.is_finished());
}

#[test]
fn detected_installation_is_offered_first() {
    let mut wizard = Wizard::new();
    wizard.begin(Some("C:/osu".to_string()));
    match wizard.state() {
        WizardState::SelectingInstallDirectory { cursor, detected } => {
            assert_eq!(*cursor, Some(0));
            assert_eq!(detected, "C:/osu");
        }
        other => panic!("the installation was to be offered, not {other:?}"),
    }
    assert_eq!(wizard.servers().len(), 17);
    assert_eq!(wizard.servers()[0].domain, "akatsuki.gg");
    assert!(wizard.servers().iter().all(|server| !server.enabled));
}

#[test]
fn without_detection_the_directory_is_typed() {
    let mut wizard = Wizard::new();
    wizard.begin(None);
    assert_eq!(line_of(&wizard), (String::new(), 0, false));
}

#[test]
fn directory_list_has_two_items() {
    let mut wizard = Wizard::new();
    wizard.begin(Some("C:/osu".to_string()));
    wizard.update(press(KeyCode::Up));
    assert_eq!(cursor_of(&wizard), Some(0));
    wizard.update(press(KeyCode::Down));
    assert_eq!(cursor_of(&wizard), Some(1));
    wizard.update(press(KeyCode::Down));
    assert_eq!(cursor_of(&wizard), Some(1));
    wizard.update(press(KeyCode::Home));
    assert_eq!(cursor_of(&wizard), Some(0));
    wizard.update(press(KeyCode::End));
    assert_eq!(cursor_of(&wizard), Some(1));
    wizard.update(press(KeyCode::PageUp));
    assert_eq!(cursor_of(&wizard), Some(0));
    wizard.update(press(KeyCode::PageDown));
    assert_eq!(cursor_of(&wizard), Some(1));
}

#[test]
fn accepting_the_detected_installation() {
    let wizard = choosing_servers();
    assert_eq!(wizard.install_dir().as_deref(), Some("C:/osu"));
    assert_eq!(cursor_of(&wizard), None);
    assert!(matches!(wizard.state(), WizardState::SelectingServers { .. }));
}

#[test]
fn choosing_to_type_the_directory() {
    let mut wizard = Wizard::new();
    wizard.begin(Some("C:/osu".to_string()));
    wizard.update(press(KeyCode::Down));
    assert!(matches!(wizard.update(press(KeyCode::Enter)), WizardAction::Continue));
    assert_eq!(line_of(&wizard), (String::new(), 0, false));
    assert!(wizard.install_dir().is_none());
}

#[test]
fn typed_directory_is_checked_by_the_caller() {
    let mut wizard = Wizard::new();
    wizard.begin(None);
    type_text(&mut wizard, "D:/osu!");
    match wizard.update(press(KeyCode::Enter)) {
        WizardAction::CheckInstallDir { path } => assert_eq!(path, "D:/osu!"),
        other => panic!("the directory was to be checked, not {other:?}"),
    }
    assert_eq!(line_of(&wizard), ("D:/osu!".to_string(), 7, false));
    wizard.install_dir_checked(None);
    assert_eq!(line_of(&wizard), ("D:/osu!".to_string(), 7, true));
    assert!(wizard.install_dir().is_none());
    wizard.update(press(KeyCode::Backspace));
    assert_eq!(line_of(&wizard), ("D:/osu".to_string(), 6, true));
    wizard.install_dir_checked(Some("D:/osu".to_string()));
    assert_eq!(wizard.install_dir().as_deref(), Some("D:/osu"));
    assert_eq!(cursor_of(&wizard), None);
}

#[test]
fn answer_on_a_directory_is_ignored_elsewhere() {
    let mut wizard = choosing_servers();
    wizard.install_dir_checked(Some("E:/other".to_string()));
    assert_eq!(wizard.install_dir().as_deref(), Some("C:/osu"));
    wizard.install_dir_checked(None);
    assert!(matches!(wizard.state(), WizardState::SelectingServers { .. }));
}

#[test]
fn server_list_cursor_stops_at_both_ends() {
    let mut wizard = choosing_servers();
    wizard.update(press(KeyCode::Down));
    assert_eq!(cursor_of(&wizard), Some(0));
    wizard.update(press(KeyCode::Up));
    assert_eq!(cursor_of(&wizard), Some(0));
    wizard.update(press(KeyCode::End));
    assert_eq!(cursor_of(&wizard), Some(17));
    wizard.update(press(KeyCode::Down));
    assert_eq!(cursor_of(&wizard), Some(17));
    wizard.update(press(KeyCode::Up));
    assert_eq!(cursor_of(&wizard), Some(16));
    wizard.update(KeyInput { code: KeyCode::Up, kind: KeyKind::Repeat, ctrl: false });
    assert_eq!(cursor_of(&wizard), Some(15));
    wizard.update(KeyInput { code: KeyCode::Up, kind: KeyKind::Release, ctrl: false });
    assert_eq!(cursor_of(&wizard), Some(15));
}

#[test]
fn way_up_without_a_cursor_starts_at_the_last_item() {
    let mut wizard = choosing_servers();
    wizard.update(press(KeyCode::Up));
    assert_eq!(cursor_of(&wizard), Some(17));
}

#[test]
fn cursor_moves_are_saturating() {
    assert_eq!(move_cursor(None, 3, KeyCode::Down), Some(0));
    assert_eq!(move_cursor(None, 3, KeyCode::Up), Some(3));
    assert_eq!(move_cursor(Some(3), 3, KeyCode::Down), Some(3));
    assert_eq!(move_cursor(Some(2), 3, KeyCode::Down), Some(3));
    assert_eq!(move_cursor(Some(0), 3, KeyCode::Up), Some(0));
    assert_eq!(move_cursor(Some(9), 3, KeyCode::Up), Some(3));
    assert_eq!(move_cursor(Some(9), 3, KeyCode::Down), Some(3));
    assert_eq!(move_cursor(Some(2), 3, KeyCode::Home), Some(0));
    assert_eq!(move_cursor(Some(2), 3, KeyCode::End), Some(3));
    assert_eq!(move_cursor(Some(2), 3, KeyCode::Enter), Some(2));
    assert_eq!(move_cursor(Some(usize::MAX), usize::MAX, KeyCode::Down), Some(usize::MAX));
}

#[test]
fn space_chooses_the_server_under_the_cursor() {
    let mut wizard = choosing_servers();
    wizard.update(press(KeyCode::Char(' ')));
    assert!(enabled(&wizard).is_empty());
    wizard.update(press(KeyCode::Down));
    wizard.update(press(KeyCode::Down));
    wizard.update(press(KeyCode::Char(' ')));
    assert_eq!(enabled(&wizard), vec!["akatsuki.pw"]);
    assert_eq!(cursor_of(&wizard), Some(1));
    wizard.update(press(KeyCode::Char(' ')));
    assert!(enabled(&wizard).is_empty());
    wizard.update(KeyInput { code: KeyCode::Char(' '), kind: KeyKind::Release, ctrl: false });
    assert!(enabled(&wizard).is_empty());
}

#[test]
fn space_on_the_last_item_chooses_nothing() {
    let mut wizard = choosing_servers();
    wizard.update(press(KeyCode::End));
    wizard.update(press(KeyCode::Char(' ')));
    assert!(enabled(&wizard).is_empty());
    assert_eq!(cursor_of(&wizard), Some(17));
    assert_eq!(wizard.servers().len(), 17);
}

#[test]
fn invalid_server_asks_again_and_keeps_the_choices() {
    let mut wizard = choosing_servers();
    wizard.update(press(KeyCode::Down));
    wizard.update(press(KeyCode::Char(' ')));
    wizard.update(press(KeyCode::End));
    assert!(matches!(wizard.update(press(KeyCode::Enter)), WizardAction::Continue));
    assert_eq!(line_of(&wizard), (String::new(), 0, false));
    type_text(&mut wizard, "myserver");
    assert!(matches!(wizard.update(press(KeyCode::Enter)), WizardAction::Continue));
    assert_eq!(line_of(&wizard), ("myserver".to_string(), 8, true));
    assert_eq!(wizard.servers().len(), 17);
    assert_eq!(enabled(&wizard), vec!["akatsuki.gg"]);
    type_text(&mut wizard, ".net");
    assert_eq!(line_of(&wizard), ("myserver.net".to_string(), 12, true));
    assert!(matches!(wizard.update(press(KeyCode::Enter)), WizardAction::Continue));
    assert_eq!(wizard.servers().len(), 18);
    assert_eq!(wizard.servers()[17].domain, "myserver.net");
    assert!(wizard.servers()[17].enabled);
    assert_eq!(cursor_of(&wizard), Some(17));
    assert_eq!(enabled(&wizard), vec!["akatsuki.gg", "myserver.net"]);
}

#[test]
fn localhost_is_a_server() {
    let mut wizard = choosing_servers();
    wizard.update(press(KeyCode::End));
    wizard.update(press(KeyCode::Enter));
    type_text(&mut wizard, "localhost");
    wizard.update(press(KeyCode::Enter));
    assert_eq!(wizard.servers()[17].domain, "localhost");
    assert!(wizard.servers()[17].enabled);
}

#[test]
fn space_is_text_in_a_line() {
    let mut wizard = Wizard::new();
    wizard.begin(None);
    type_text(&mut wizard, "C:/my osu");
    assert_eq!(line_of(&wizard).0, "C:/my osu");
}

#[test]
fn confirming_the_servers_hands_out_the_chosen_ones() {
    let mut wizard = choosing_servers();
    wizard.update(press(KeyCode::Down));
    wizard.update(press(KeyCode::Char(' ')));
    wizard.update(press(KeyCode::Down));
    wizard.update(press(KeyCode::Down));
    wizard.update(press(KeyCode::Char(' ')));
    match wizard.update(press(KeyCode::Enter)) {
        WizardAction::InstallShortcuts { install_dir, servers } => {
            assert_eq!(install_dir, "C:/osu");
            assert_eq!(servers, vec!["akatsuki.gg", "ez-pp.farm"]);
        }
        other => panic!("the shortcuts were to be made, not {other:?}"),
    }
    assert!(wizard.is_finished());
    assert!(matches!(wizard.update(KeyInput { code: KeyCode::Char('x'), kind: KeyKind::Release, ctrl: false }), WizardAction::Continue));
    assert!(matches!(wizard.update(press(KeyCode::Char('x'))), WizardAction::Exit));
}

#[test]
fn confirming_without_a_cursor_hands_out_no_server() {
    let mut wizard = choosing_servers();
    match wizard.update(press(KeyCode::Enter)) {
        WizardAction::InstallShortcuts { install_dir, servers } => {
            assert_eq!(install_dir, "C:/osu");
            assert!(servers.is_empty());
        }
        other => panic!("the shortcuts were to be made, not {other:?}"),
    }
    assert!(wizard.is_finished());
}

#[test]
fn control_c_leaves_at_once() {
    let interrupt = KeyInput { code: KeyCode::Char('c'), kind: KeyKind::Press, ctrl: true };
    let mut wizard = Wizard::new();
    assert!(matches!(wizard.update(interrupt), WizardAction::Exit));
    wizard.begin(None);
    type_text(&mut wizard, "ab");
    assert!(matches!(wizard.update(interrupt), WizardAction::Exit));
    assert_eq!(line_of(&wizard).0, "ab");
    let released = KeyInput { code: KeyCode::Char('c'), kind: KeyKind::Release, ctrl: true };
    assert!(matches!(wizard.update(released), WizardAction::Exit));
    let mut choosing = choosing_servers();
    assert!(matches!(choosing.update(interrupt), WizardAction::Exit));
}

#[test]
fn keys_do_nothing_before_detection() {
    let mut wizard = Wizard::new();
    for code in [KeyCode::Enter, KeyCode::Char(' '), KeyCode::Down, KeyCode::Char('a'), KeyCode::Backspace] {
        assert!(matches!(wizard.update(press(code)), WizardAction::Continue));
    }
    assert!(matches!(wizard.state(), WizardState::Started));
    assert!(wizard.servers().is_empty());
}

#[test]
fn line_is_edited_in_the_wizard() {
    let mut wizard = Wizard::new();
    wizard.begin(None);
    type_text(&mut wizard, "ab");
    wizard.update(press(KeyCode::Left));
    type_text(&mut wizard, "X");
    assert_eq!(line_of(&wizard), ("aXb".to_string(), 2, false));
    wizard.update(press(KeyCode::Home));
    wizard.update(press(KeyCode::Backspace));
    assert_eq!(line_of(&wizard), ("aXb".to_string(), 0, false));
    wizard.update(press(KeyCode::End));
    wizard.update(KeyInput { code: KeyCode::Backspace, kind: KeyKind::Release, ctrl: false });
    assert_eq!(line_of(&wizard), ("aX".to_string(), 2, false));
}
