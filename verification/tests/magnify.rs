use bitwarden_desktop_next::domain::Screen;
use bitwarden_desktop_next::magnify::{
    extract_field, first_uri, key_command, CipherSecrets, FieldValue, LoginSecrets, MagnifyMessage, MagnifyCommand, MagnifyEffect, MagnifyField, MagnifyItem, MagnifyKey,
    MagnifyMode, MagnifyState, STICKY_TTL_MS,
};
use bitwarden_desktop_next::session::{AccountEntry, AppState, Route};

fn session(locked: bool) -> AppState {
    let mut s = AppState::new();
    s.registry_loaded(vec![AccountEntry {
        user_id: 1,
        email: "a@example.com".to_string(),
        server_url: String::new(),
        locked,
    }]);
    s
}

fn row(id: Option<u128>, subtitle: &str, uri: Option<&str>) -> MagnifyItem {
    MagnifyItem { id, subtitle: subtitle.to_string(), first_uri: uri.map(|u| u.to_string()) }
}

fn three_rows() -> Vec<MagnifyItem> {
    vec![
        row(Some(100), "alice", Some("https://a.example")),
        row(None, "", None),
        row(Some(300), "carol", None),
    ]
}

#[test]
fn keys_map_to_commands() {
    let u = MagnifyMode::Unlocked;
    assert_eq!(key_command(MagnifyKey::Escape, false, false, u), Some(MagnifyCommand::Hide));
    assert_eq!(key_command(MagnifyKey::Enter, false, false, u), None);
    assert_eq!(key_command(MagnifyKey::Enter, false, false, MagnifyMode::Locked), Some(MagnifyCommand::OpenMainWindow));
    assert_eq!(key_command(MagnifyKey::ArrowUp, true, true, u), Some(MagnifyCommand::NavigateUp));
    assert_eq!(key_command(MagnifyKey::ArrowDown, false, false, u), Some(MagnifyCommand::NavigateDown));
    assert_eq!(key_command(MagnifyKey::Character('C'), true, true, u), Some(MagnifyCommand::CopyUsername));
    assert_eq!(
        key_command(MagnifyKey::Character('n'), true, true, u),
        Some(MagnifyCommand::CopyField(MagnifyField::Notes))
    );
    assert_eq!(
        key_command(MagnifyKey::Character('c'), true, false, u),
        Some(MagnifyCommand::CopyField(MagnifyField::Password))
    );
    assert_eq!(
        key_command(MagnifyKey::Character('T'), true, false, u),
        Some(MagnifyCommand::CopyField(MagnifyField::Totp))
    );
    assert_eq!(key_command(MagnifyKey::Character('u'), true, false, u), Some(MagnifyCommand::CopyUri));
    assert_eq!(key_command(MagnifyKey::Character('c'), false, false, u), None);
    assert_eq!(key_command(MagnifyKey::Character('t'), true, true, u), None);
    assert_eq!(key_command(MagnifyKey::Other, true, true, u), None);
}

#[test]
fn navigation_stays_on_rows() {
    let mut m = MagnifyState::new(5);
    m.set_results(three_rows());
    m.navigate_up();
    assert_eq!(m.selected, 0);
    m.navigate_down();
    m.navigate_down();
    m.navigate_down();
    assert_eq!(m.selected, 2);
    m.navigate_up();
    assert_eq!(m.selected, 1);
    m.row_clicked(7);
    assert_eq!(m.selected, 1);
    m.row_clicked(0);
    assert_eq!(m.selected, 0);
}

#[test]
fn results_clamp_selection() {
    let mut m = MagnifyState::new(5);
    m.set_results(three_rows());
    m.row_clicked(2);
    m.set_results(vec![row(Some(1), "x", None)]);
    assert_eq!(m.selected, 0);
    m.set_results(Vec::new());
    assert_eq!(m.selected, 0);
}

#[test]
fn query_change_restarts_at_top() {
    let mut m = MagnifyState::new(5);
    m.set_results(three_rows());
    m.row_clicked(2);
    assert!(matches!(m.query_changed("gi".to_string()), MagnifyEffect::Refresh));
    assert_eq!(m.selected, 0);
    assert_eq!(m.query, "gi");
}

#[test]
fn hotkey_keeps_sticky_state_within_ttl() {
    let s = session(false);
    let mut m = MagnifyState::new(5);
    m.hotkey(&s, 0);
    assert_eq!(m.mode, MagnifyMode::Unlocked);
    m.query_changed("git".to_string());
    m.set_results(three_rows());
    m.row_clicked(1);
    m.dismiss(1_000);
    assert!(matches!(m.hotkey(&s, 1_000 + STICKY_TTL_MS - 1), MagnifyEffect::Summon));
    assert_eq!(m.query, "git");
    assert_eq!(m.selected, 1);
    m.dismiss(10_000);
    m.hotkey(&s, 10_000 + STICKY_TTL_MS);
    assert_eq!(m.query, "");
    assert_eq!(m.selected, 0);
}

#[test]
fn hotkey_resets_for_locked_or_other_user() {
    let mut m = MagnifyState::new(5);
    let locked = session(true);
    m.query_changed("q".to_string());
    m.dismiss(0);
    m.hotkey(&locked, 1);
    assert_eq!(m.mode, MagnifyMode::Locked);
    assert_eq!(m.query, "");
    assert_eq!(m.anchored_user, Some(1));
}

#[test]
fn copy_username_and_uri() {
    let mut m = MagnifyState::new(5);
    m.set_results(three_rows());
    match m.copy_username(42) {
        MagnifyEffect::Hide { copy } => assert_eq!(copy, Some("alice".to_string())),
        _ => panic!("expected hide"),
    }
    assert_eq!(m.last_used, Some(42));
    match m.copy_uri(43) {
        MagnifyEffect::Hide { copy } => assert_eq!(copy, Some("https://a.example".to_string())),
        _ => panic!("expected hide"),
    }
    m.row_clicked(1);
    match m.copy_username(44) {
        MagnifyEffect::Hide { copy } => assert_eq!(copy, None),
        _ => panic!("expected hide"),
    }
    match m.copy_uri(45) {
        MagnifyEffect::Hide { copy } => assert_eq!(copy, None),
        _ => panic!("expected hide"),
    }
}

#[test]
fn copy_field_tracks_pending_decrypt() {
    let s = session(false);
    let mut m = MagnifyState::new(5);
    m.set_results(three_rows());
    m.row_clicked(2);
    match m.copy_field(&s, MagnifyField::Password, 9) {
        MagnifyEffect::DecryptAndHide { decrypt } => assert_eq!(decrypt, Some((1, 300, MagnifyField::Password))),
        _ => panic!("expected a decrypt"),
    }
    assert_eq!(m.pending_decrypt, Some((300, MagnifyField::Password)));
    m.row_clicked(1);
    assert!(matches!(m.copy_field(&s, MagnifyField::Notes, 10), MagnifyEffect::Nothing));
    assert_eq!(m.pending_decrypt, Some((300, MagnifyField::Password)));
}

#[test]
fn stale_decrypt_copies_nothing_and_keeps_pending() {
    let mut s = session(false);
    let mut m = MagnifyState::new(5);
    m.pending_decrypt = Some((300, MagnifyField::Password));
    let other = m.decrypt_completed(&s, 1, 300, MagnifyField::Totp, Ok(Some("123456".to_string())));
    assert_eq!(other, None);
    assert_eq!(m.pending_decrypt, Some((300, MagnifyField::Password)));
    s.lock_user(1);
    let locked = m.decrypt_completed(&s, 1, 300, MagnifyField::Password, Ok(Some("pw".to_string())));
    assert_eq!(locked, None);
    assert_eq!(m.pending_decrypt, Some((300, MagnifyField::Password)));
    s.unlock_succeeded(1);
    let live = m.decrypt_completed(&s, 1, 300, MagnifyField::Password, Ok(Some("pw".to_string())));
    assert_eq!(live, Some("pw".to_string()));
    assert_eq!(m.pending_decrypt, None);
}

#[test]
fn failed_decrypt_clears_pending_without_copy() {
    let s = session(false);
    let mut m = MagnifyState::new(5);
    m.pending_decrypt = Some((7, MagnifyField::Notes));
    assert_eq!(m.decrypt_completed(&s, 1, 7, MagnifyField::Notes, Err("boom".to_string())), None);
    assert_eq!(m.pending_decrypt, None);
}

#[test]
fn open_main_routes_to_unlock_prompt() {
    let mut s = session(true);
    let mut m = MagnifyState::new(5);
    m.query_changed("abc".to_string());
    assert!(matches!(m.open_main(&mut s, 77), MagnifyEffect::OpenMain(Route::ShowLogin)));
    assert_eq!(s.screen, Screen::Login);
    assert_eq!(m.query, "");
    assert_eq!(m.last_used, None);
}

#[test]
fn field_extraction() {
    let login = CipherSecrets {
        login: Some(LoginSecrets { password: Some("pw".to_string()), totp: Some("JBSWY3DP".to_string()) }),
        notes: Some(String::new()),
    };
    assert!(matches!(extract_field(login.clone(), MagnifyField::Password), FieldValue::Value(p) if p == "pw"));
    assert!(matches!(extract_field(login.clone(), MagnifyField::Totp), FieldValue::TotpCode(s) if s == "JBSWY3DP"));
    assert!(matches!(extract_field(login, MagnifyField::Notes), FieldValue::Missing));
    let note = CipherSecrets { login: None, notes: Some("remember".to_string()) };
    assert!(matches!(extract_field(note.clone(), MagnifyField::Password), FieldValue::Missing));
    assert!(matches!(extract_field(note, MagnifyField::Notes), FieldValue::Value(n) if n == "remember"));
    let empty_seed = CipherSecrets {
        login: Some(LoginSecrets { password: None, totp: Some(String::new()) }),
        notes: None,
    };
    assert!(matches!(extract_field(empty_seed, MagnifyField::Totp), FieldValue::Missing));
}

#[test]
fn first_uri_uses_only_the_first_entry() {
    let uris = vec![Some("https://a".to_string()), Some("https://b".to_string())];
    assert_eq!(first_uri(Some(&uris)), Some("https://a".to_string()));
    let blank_first = vec![Some(String::new()), Some("https://b".to_string())];
    assert_eq!(first_uri(Some(&blank_first)), None);
    let none_first = vec![None, Some("https://b".to_string())];
    assert_eq!(first_uri(Some(&none_first)), None);
    assert_eq!(first_uri(Some(&Vec::new())), None);
    assert_eq!(first_uri(None), None);
}

#[test]
fn clearing_results_resets_selection() {
    let mut m = MagnifyState::new(5);
    m.set_results(three_rows());
    m.row_clicked(2);
    m.clear_results();
    assert!(m.results.is_empty());
    assert_eq!(m.selected, 0);
}

#[test]
fn dispatch_messages() {
    let mut s = session(false);
    let mut m = MagnifyState::new(5);
    assert!(matches!(m.handle_message(&mut s, MagnifyMessage::HotkeyPressed, 0), MagnifyEffect::Summon));
    assert!(matches!(m.handle_message(&mut s, MagnifyMessage::WindowOpened, 0), MagnifyEffect::PrepareWindow));
    m.set_results(three_rows());
    assert!(matches!(m.handle_message(&mut s, MagnifyMessage::RowClicked(2), 0), MagnifyEffect::Nothing));
    assert_eq!(m.selected, 2);
    assert!(matches!(
        m.handle_message(&mut s, MagnifyMessage::CopyFieldRequested(MagnifyField::Totp), 3),
        MagnifyEffect::DecryptAndHide { decrypt: Some((1, 300, MagnifyField::Totp)) }
    ));
    let done = MagnifyMessage::FieldDecryptCompleted {
        uid: 1,
        cipher: 300,
        field: MagnifyField::Totp,
        result: Ok(Some("123456".to_string())),
    };
    match m.handle_message(&mut s, done, 4) {
        MagnifyEffect::CopySecret(v) => assert_eq!(v, "123456"),
        _ => panic!("expected a secret copy"),
    }
    let again = MagnifyMessage::FieldDecryptCompleted {
        uid: 1,
        cipher: 300,
        field: MagnifyField::Totp,
        result: Ok(Some("123456".to_string())),
    };
    assert!(matches!(m.handle_message(&mut s, again, 5), MagnifyEffect::Nothing));
    assert!(matches!(m.handle_message(&mut s, MagnifyMessage::Hide, 6), MagnifyEffect::Hide { copy: None }));
    assert_eq!(m.last_used, Some(6));
}

#[test]
fn keys_dispatch_or_pass_on() {
    let mut s = session(true);
    let mut m = MagnifyState::new(5);
    m.hotkey(&s, 0);
    assert!(m.handle_key(&mut s, MagnifyKey::Character('x'), true, false, 1).is_none());
    assert!(matches!(m.handle_key(&mut s, MagnifyKey::ArrowDown, false, false, 1), Some(MagnifyEffect::ScrollToSelected)));
    assert!(matches!(
        m.handle_key(&mut s, MagnifyKey::Enter, false, false, 2),
        Some(MagnifyEffect::OpenMain(Route::ShowLogin))
    ));
    assert_eq!(s.screen, Screen::Login);
}
