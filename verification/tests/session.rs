use bitwarden_desktop_next::ctx::Overlay;
use bitwarden_desktop_next::domain::{Organization, Screen};
use bitwarden_desktop_next::session::{
    AccountEntry, AppState, ListTransition, LoginEvent, Route, SessionEffect, SessionEvent,
    SidebarEffect,
};
use bitwarden_desktop_next::sidebar::{
    NavSection, RowKind, SendFilter, SidebarMessage, SidebarMode, SidebarState, VaultFilter,
};
use bitwarden_desktop_next::toast::{Toast, ToastStatus};

fn entry(uid: u128, email: &str, locked: bool) -> AccountEntry {
    AccountEntry {
        user_id: uid,
        email: email.to_string(),
        server_url: "https://vault.example.com".to_string(),
        locked,
    }
}

/// Two users, the first unlocked and active on the vault screen.
fn two_users() -> AppState {
    let mut s = AppState::new();
    s.registry_loaded(vec![entry(1, "a@example.com", false), entry(2, "b@example.com", true)]);
    s.screen = Screen::Vault;
    s
}

#[test]
fn new_state_waits_for_registry() {
    let s = AppState::new();
    assert_eq!(s.active_user, None);
    assert_eq!(s.screen, Screen::Loading);
    assert!(s.toasts.is_empty());
    assert!(s.accounts.is_empty());
    assert_eq!(s.sidebar.mode, SidebarMode::Expanded);
}

#[test]
fn registry_loaded_activates_first_user_on_login() {
    let mut s = AppState::new();
    let r = s.registry_loaded(vec![entry(7, "x@example.com", true), entry(8, "y@example.com", true)]);
    assert_eq!(r, Route::ShowLogin);
    assert_eq!(s.active_user, Some(7));
    assert_eq!(s.screen, Screen::Login);

    let mut empty = AppState::new();
    empty.registry_loaded(Vec::new());
    assert_eq!(empty.active_user, None);
}

#[test]
fn menu_state_reflects_locks() {
    let mut s = two_users();
    let m = s.menu_state();
    assert!(!m.is_locked && m.has_accounts && m.has_lockable_accounts);
    s.lock_all();
    let m = s.menu_state();
    assert!(m.is_locked && m.has_accounts && !m.has_lockable_accounts);
    assert!(AppState::new().menu_state().is_locked);
}

#[test]
fn switching_to_unlocked_user_shows_vault_and_resets_filters() {
    let mut s = two_users();
    s.sidebar.active_vault_filter = VaultFilter::Favorites;
    s.sidebar.active_send_filter = SendFilter::Text;
    s.accounts[1].locked = false;
    s.open_overlay = Some(Overlay::AccountSwitcher);
    assert_eq!(s.handle_user_switch(2), Route::ShowVault(2));
    assert_eq!(s.active_user, Some(2));
    assert_eq!(s.screen, Screen::Vault);
    assert_eq!(s.open_overlay, None);
    assert_eq!(s.sidebar.active_vault_filter, VaultFilter::AllItems);
    assert_eq!(s.sidebar.active_send_filter, SendFilter::AllItems);
}

#[test]
fn switching_to_locked_user_shows_unlock_prompt() {
    let mut s = two_users();
    assert_eq!(s.handle_user_switch(2), Route::ShowLogin);
    assert_eq!(s.screen, Screen::Login);
}

#[test]
fn locking_another_user_is_silent() {
    let mut s = two_users();
    s.accounts[1].locked = false;
    assert!(!s.lock_user(2));
    assert!(s.accounts[1].locked);
    assert_eq!(s.screen, Screen::Vault);
    assert!(s.lock_user(1));
    assert_eq!(s.screen, Screen::Login);
}

#[test]
fn lock_then_unlock_round_trip() {
    let mut s = two_users();
    s.lock_user(1);
    assert!(!s.is_unlocked(1));
    assert_eq!(s.unlock_succeeded(1), Route::LoadVaultList(1));
    assert!(s.is_unlocked(1));
    assert_eq!(s.screen, Screen::Vault);
}

#[test]
fn stale_unlock_does_not_switch_screen() {
    let mut s = two_users();
    s.screen = Screen::Login;
    assert_eq!(s.unlock_succeeded(2), Route::Stay);
    assert_eq!(s.screen, Screen::Login);
    assert!(s.is_unlocked(2));
}

#[test]
fn log_out_active_hands_off_to_next_user() {
    let mut s = two_users();
    let r = s.log_out_active();
    assert_eq!(r, Route::ShowLogin);
    assert_eq!(s.active_user, Some(2));
    assert_eq!(s.accounts.len(), 1);
    assert!(!s.has_user(1));

    let r = s.log_out_active();
    assert_eq!(r, Route::ShowEmailEntry);
    assert_eq!(s.active_user, None);
    assert_eq!(s.screen, Screen::Login);
    assert!(s.accounts.is_empty());
}

#[test]
fn first_other_user_skips_the_excluded_one() {
    let s = two_users();
    assert_eq!(s.first_other_user(Some(1)), Some(2));
    assert_eq!(s.first_other_user(Some(2)), Some(1));
    assert_eq!(s.first_other_user(None), Some(1));
    assert_eq!(AppState::new().first_other_user(Some(1)), None);
}

#[test]
fn close_toast_ignores_stale_index() {
    let mut s = two_users();
    s.toasts.push(Toast::info("one".to_string(), None));
    s.toasts.push(Toast::info("two".to_string(), None));
    s.close_toast(5);
    assert_eq!(s.toasts.len(), 2);
    s.close_toast(0);
    assert_eq!(s.toasts.len(), 1);
    assert_eq!(s.toasts[0].body, "two");
}

#[test]
fn sidebar_toggles_flip_flags() {
    let mut s = two_users();
    assert_eq!(s.handle_sidebar_message(SidebarMessage::ToggleSidebarMode), SidebarEffect::Nothing);
    assert_eq!(s.sidebar.mode, SidebarMode::Collapsed);
    s.handle_sidebar_message(SidebarMessage::ToggleVaultTree);
    assert!(!s.sidebar.vault_tree_open);
    s.handle_sidebar_message(SidebarMessage::ToggleSendTree);
    assert!(!s.sidebar.send_tree_open);
}

#[test]
fn sidebar_sections_switch_list_screens() {
    let mut s = two_users();
    let e = s.handle_sidebar_message(SidebarMessage::SectionSelected(NavSection::Send));
    assert_eq!(
        e,
        SidebarEffect::List {
            filter_for: None,
            transition: ListTransition::Switched { screen: Screen::Send, load_for: Some(1) },
        }
    );
    assert_eq!(s.screen, Screen::Send);
    let e = s.handle_sidebar_message(SidebarMessage::SendFilterSelected(SendFilter::File));
    assert_eq!(
        e,
        SidebarEffect::List { filter_for: Some(1), transition: ListTransition::AutoFocus(Screen::Send) }
    );
    assert_eq!(s.sidebar.active_send_filter, SendFilter::File);
}

#[test]
fn sidebar_never_flips_screen_under_login() {
    let mut s = two_users();
    s.screen = Screen::Login;
    let e = s.handle_sidebar_message(SidebarMessage::VaultFilterSelected(VaultFilter::Trash));
    assert_eq!(e, SidebarEffect::List { filter_for: Some(1), transition: ListTransition::Stay });
    assert_eq!(s.screen, Screen::Login);
    assert_eq!(s.sidebar.active_vault_filter, VaultFilter::Trash);
}

#[test]
fn sidebar_modals_need_an_active_user() {
    let mut s = two_users();
    s.open_overlay = Some(Overlay::NewItemMenu);
    assert_eq!(
        s.handle_sidebar_message(SidebarMessage::SectionSelected(NavSection::Export)),
        SidebarEffect::OpenExport(1)
    );
    assert_eq!(s.open_overlay, None);
    let mut nobody = AppState::new();
    assert_eq!(
        nobody.handle_sidebar_message(SidebarMessage::SectionSelected(NavSection::Import)),
        SidebarEffect::Nothing
    );
}

#[test]
fn login_events_route() {
    let mut s = two_users();
    s.screen = Screen::Login;
    s.lock_user(1);
    assert_eq!(s.handle_login_event(LoginEvent::Unlocked { uid: 1 }), Route::LoadVaultList(1));
    assert_eq!(s.screen, Screen::Vault);
    assert_eq!(s.handle_login_event(LoginEvent::UserSelected { uid: 2 }), Route::ShowLogin);
    assert_eq!(
        s.handle_login_event(LoginEvent::ToastRequested(Toast::warning("w".to_string(), None))),
        Route::Stay
    );
    assert_eq!(s.toasts.last().unwrap().status, ToastStatus::Warning);
    assert_eq!(s.handle_login_event(LoginEvent::SignOutRequested), Route::ShowVault(1));
    assert_eq!(s.active_user, Some(1));
}

#[test]
fn system_lock_locks_listed_users_only() {
    let mut s = two_users();
    s.accounts[1].locked = false;
    let e = s.handle_session_event(SessionEvent::Locked, &vec![2]);
    assert_eq!(e, SessionEffect::Locked(Route::Stay));
    assert!(s.is_unlocked(1));
    assert!(!s.is_unlocked(2));
    let e = s.handle_session_event(SessionEvent::Suspended, &vec![1]);
    assert_eq!(e, SessionEffect::Suspended(Route::ShowLogin));
    assert_eq!(s.screen, Screen::Login);
    assert_eq!(s.handle_session_event(SessionEvent::Resumed, &vec![]), SessionEffect::Resumed);
    assert_eq!(s.handle_session_event(SessionEvent::Unlocked, &vec![1]), SessionEffect::Nothing);
}

#[test]
fn sync_completion_toasts() {
    let mut s = two_users();
    s.sync_completed(Ok(()), "Synced".to_string(), "Failed".to_string(), "Sync");
    assert_eq!(s.toasts[0].status, ToastStatus::Success);
    assert_eq!(s.toasts[0].title, "Success");
    s.sync_completed(Err("offline".to_string()), "Synced".to_string(), "Failed".to_string(), "Sync");
    assert_eq!(s.toasts[1].status, ToastStatus::Error);
    assert_eq!(s.toasts[1].title, "Sync");
    assert_eq!(s.toasts[1].body, "Failed");
}

#[test]
fn timeout_plan_signs_out_then_locks() {
    let mut s = two_users();
    s.accounts[1].locked = false;
    let mut third = entry(3, "c@example.com", false);
    third.server_url = String::new();
    s.accounts.push(third);
    let plan = bitwarden_desktop_next::session::TimeoutPlan {
        inline_logouts: vec![3],
        active_logout: true,
        locks: vec![2],
    };
    let out = s.apply_timeout_plan(&plan);
    assert!(!s.has_user(3));
    assert!(!s.has_user(1));
    assert_eq!(s.active_user, Some(2));
    assert_eq!(out.logout_route, Some(Route::ShowVault(2)));
    assert!(out.lock_shown);
    assert!(!s.is_unlocked(2));
    assert_eq!(s.screen, Screen::Login);
}

#[test]
fn timeout_plan_hands_off_to_next_user() {
    let mut s = two_users();
    let plan = bitwarden_desktop_next::session::TimeoutPlan {
        inline_logouts: vec![],
        active_logout: true,
        locks: vec![],
    };
    let out = s.apply_timeout_plan(&plan);
    assert_eq!(s.active_user, Some(2));
    assert_eq!(out.logout_route, Some(Route::ShowLogin));
    assert!(!out.lock_shown);
    assert_eq!(s.screen, Screen::Login);
    assert_eq!(s.open_overlay, None);

    let mut s = AppState::new();
    s.registry_loaded(vec![entry(1, "a@example.com", false), entry(2, "b@example.com", false)]);
    s.screen = Screen::Vault;
    let out = s.apply_timeout_plan(&plan);
    assert_eq!(s.active_user, Some(2));
    assert_eq!(out.logout_route, Some(Route::ShowVault(2)));
    assert_eq!(s.screen, Screen::Vault);

    let out = s.apply_timeout_plan(&plan);
    assert_eq!(s.active_user, None);
    assert_eq!(out.logout_route, Some(Route::ShowEmailEntry));
    assert_eq!(s.screen, Screen::Login);
}

#[test]
fn timeout_plan_with_nothing_to_do() {
    let mut s = two_users();
    let plan = bitwarden_desktop_next::session::TimeoutPlan {
        inline_logouts: vec![],
        active_logout: false,
        locks: vec![],
    };
    let out = s.apply_timeout_plan(&plan);
    assert_eq!(out.logout_route, None);
    assert!(!out.lock_shown);
    assert_eq!(s.accounts.len(), 2);
    assert_eq!(s.screen, Screen::Vault);
}

#[test]
fn copy_toasts_and_minimizes_on_preference() {
    let mut s = two_users();
    assert!(s.copied("Copied password".to_string(), true));
    assert_eq!(s.toasts[0].body, "Copied password");
    assert_eq!(s.toasts[0].status, ToastStatus::Success);
    assert!(!s.copied("Copied".to_string(), false));
    let mut nobody = AppState::new();
    assert!(!nobody.copied("Copied".to_string(), true));
}

#[test]
fn sidebar_rows_follow_state() {
    let mut st = SidebarState::default();
    let orgs = vec![Organization { id: 77, name: "Acme".to_string() }];
    let rows = st.rows(&orgs);
    assert_eq!(rows.len(), 1 + 10 + 1 + 2 + 3 + 1);
    assert_eq!(rows[0].kind, RowKind::VaultHeader { open: true });
    assert_eq!(rows[0].on_press, SidebarMessage::VaultFilterSelected(VaultFilter::AllItems));
    assert_eq!(rows[0].on_toggle, Some(SidebarMessage::ToggleVaultTree));
    assert!(rows[0].selected);
    assert_eq!(rows[2].kind, RowKind::Vault(VaultFilter::Organization(77)));
    assert_eq!(rows[2].on_press, SidebarMessage::VaultFilterSelected(VaultFilter::Organization(77)));
    assert_eq!(rows[2].on_toggle, None);
    assert_eq!(rows[11].kind, RowKind::SendHeader { open: true });
    assert_eq!(rows[11].on_toggle, Some(SidebarMessage::ToggleSendTree));
    let last = rows[rows.len() - 1];
    assert_eq!(last.kind, RowKind::ModeToggle);
    assert_eq!(last.on_press, SidebarMessage::ToggleSidebarMode);
    assert!(!last.selected);
    assert_eq!(rows.iter().filter(|r| r.selected).count(), 1);
    assert_eq!(rows.iter().filter(|r| r.on_toggle.is_some()).count(), 2);
    st.vault_tree_open = false;
    st.active_section = NavSection::Send;
    st.active_send_filter = SendFilter::File;
    let rows = st.rows(&orgs);
    assert_eq!(rows.len(), 1 + 1 + 2 + 3 + 1);
    assert_eq!(rows[0].kind, RowKind::VaultHeader { open: false });
    assert_eq!(rows[3].kind, RowKind::Send(SendFilter::File));
    assert!(rows[3].selected && !rows[0].selected && !rows[1].selected);
    assert_eq!(rows[7].on_press, SidebarMessage::ToggleSidebarMode);
    st.mode = SidebarMode::Collapsed;
    let rail = st.rows(&orgs);
    assert_eq!(rail.len(), 6);
    assert!(rail[1].selected);
    assert_eq!(rail[4].on_press, SidebarMessage::SectionSelected(NavSection::Export));
    assert_eq!(rail[5].kind, RowKind::ModeToggle);
    assert_eq!(rail[5].on_press, SidebarMessage::ToggleSidebarMode);
    assert_eq!(rail.iter().filter(|r| r.selected).count(), 1);
}
