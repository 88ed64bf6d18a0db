use bitwarden_desktop_next::account_switcher::AccountSwitcherEvent;
use bitwarden_desktop_next::ctx::Overlay;
use bitwarden_desktop_next::domain::Screen;
use bitwarden_desktop_next::platform::{
    toggle_visibility, web_vault_address, AboutEffect, AboutMessage, KeyRoute, MenuTexts, SyncTexts, SystemEffect,
    SystemMessage, CopyField, DesktopSettings, MenuAction, MenuEffect, ResizeDirection,
    TrayAction, TrayFallback, WindowAction, WindowCommand, WindowEffect, WindowEvent, WindowMode,
    ZoomChange,
};
use bitwarden_desktop_next::backend::BackendCache;
use bitwarden_desktop_next::session::{AccountEntry, AppState, Route, SessionEffect, SessionEvent};
use bitwarden_desktop_next::sidebar::CipherType;
use bitwarden_desktop_next::toast::ToastStatus;
use bitwarden_desktop_next::window::{WindowInfo, WindowKind, Windows};

const MAIN: u64 = 1;
const MAGNIFY: u64 = 2;

fn setup(server_url: &str) -> (AppState, Windows, DesktopSettings) {
    let mut s = AppState::new();
    s.registry_loaded(vec![
        AccountEntry {
            user_id: 10,
            email: "a@example.com".to_string(),
            server_url: server_url.to_string(),
            locked: false,
        },
        AccountEntry {
            user_id: 20,
            email: "b@example.com".to_string(),
            server_url: String::new(),
            locked: true,
        },
    ]);
    s.screen = Screen::Vault;
    let settings = DesktopSettings { hardware_acceleration: true, minimize_to_tray: false, close_to_tray: false };
    (s, Windows::new(MAIN, MAGNIFY), settings)
}

#[test]
fn quit_exits() {
    let (mut s, mut w, mut st) = setup("https://vault.example.com");
    assert!(matches!(s.handle_menu_action(&mut w, &mut st, &menu_texts(), MenuAction::Quit), MenuEffect::Exit));
}

#[test]
fn lock_all_shows_unlock_prompt_for_active_user() {
    let (mut s, mut w, mut st) = setup("");
    let e = s.handle_menu_action(&mut w, &mut st, &menu_texts(), MenuAction::LockAllVaults);
    assert!(matches!(e, MenuEffect::Route(Route::ShowLogin)));
    assert!(s.accounts.iter().all(|a| a.locked));
    assert_eq!(s.screen, Screen::Login);
}

#[test]
fn fullscreen_toggle_flips_and_sets_mode() {
    let (mut s, mut w, mut st) = setup("");
    let e = s.handle_menu_action(&mut w, &mut st, &menu_texts(), MenuAction::ToggleFullScreen);
    assert!(matches!(e, MenuEffect::Window(WindowCommand::SetMode(MAIN, WindowMode::Fullscreen))));
    assert!(w.info(MAIN).unwrap().fullscreen);
    let e = s.handle_menu_action(&mut w, &mut st, &menu_texts(), MenuAction::ToggleFullScreen);
    assert!(matches!(e, MenuEffect::Window(WindowCommand::SetMode(MAIN, WindowMode::Windowed))));
    assert!(!w.info(MAIN).unwrap().fullscreen);
}

#[test]
fn always_on_top_toggle() {
    let (mut s, mut w, mut st) = setup("");
    let e = s.handle_menu_action(&mut w, &mut st, &menu_texts(), MenuAction::ToggleAlwaysOnTop);
    assert!(matches!(e, MenuEffect::Window(WindowCommand::SetAlwaysOnTop(MAIN, true))));
    w.remove(MAIN);
    let e = s.handle_menu_action(&mut w, &mut st, &menu_texts(), MenuAction::ToggleAlwaysOnTop);
    assert!(matches!(e, MenuEffect::Nothing));
}

#[test]
fn search_and_copy_only_on_vault() {
    let (mut s, mut w, mut st) = setup("");
    assert!(matches!(s.handle_menu_action(&mut w, &mut st, &menu_texts(), MenuAction::SearchVault), MenuEffect::FocusVaultSearch));
    assert!(matches!(
        s.handle_menu_action(&mut w, &mut st, &menu_texts(), MenuAction::CopyPassword),
        MenuEffect::CopySelected(CopyField::Password)
    ));
    s.screen = Screen::Send;
    assert!(matches!(s.handle_menu_action(&mut w, &mut st, &menu_texts(), MenuAction::SearchVault), MenuEffect::Nothing));
    assert!(matches!(s.handle_menu_action(&mut w, &mut st, &menu_texts(), MenuAction::CopyTotp), MenuEffect::Nothing));
}

#[test]
fn sync_needs_signed_in_active_user() {
    let (mut s, mut w, mut st) = setup("");
    assert!(matches!(s.handle_menu_action(&mut w, &mut st, &menu_texts(), MenuAction::SyncNow), MenuEffect::Sync(10)));
    s.active_user = Some(99);
    assert!(matches!(s.handle_menu_action(&mut w, &mut st, &menu_texts(), MenuAction::SyncNow), MenuEffect::Nothing));
    s.active_user = None;
    assert!(matches!(s.handle_menu_action(&mut w, &mut st, &menu_texts(), MenuAction::SyncNow), MenuEffect::Nothing));
}

#[test]
fn modals_close_overlay_for_active_user() {
    let (mut s, mut w, mut st) = setup("");
    s.open_overlay = Some(Overlay::ServerSelector);
    assert!(matches!(s.handle_menu_action(&mut w, &mut st, &menu_texts(), MenuAction::Export), MenuEffect::OpenExport(10)));
    assert_eq!(s.open_overlay, None);
    s.open_overlay = Some(Overlay::ServerSelector);
    s.active_user = None;
    assert!(matches!(s.handle_menu_action(&mut w, &mut st, &menu_texts(), MenuAction::Settings), MenuEffect::Nothing));
    assert_eq!(s.open_overlay, Some(Overlay::ServerSelector));
}

#[test]
fn new_item_goes_to_vault() {
    let (mut s, mut w, mut st) = setup("");
    s.screen = Screen::Send;
    s.open_overlay = Some(Overlay::NewItemMenu);
    let e = s.handle_menu_action(&mut w, &mut st, &menu_texts(), MenuAction::NewItem(CipherType::Card));
    assert!(matches!(e, MenuEffect::NewItem(CipherType::Card)));
    assert_eq!(s.screen, Screen::Vault);
    assert_eq!(s.open_overlay, None);
}

#[test]
fn zoom_and_hardware_acceleration() {
    let (mut s, mut w, mut st) = setup("");
    assert!(matches!(s.handle_menu_action(&mut w, &mut st, &menu_texts(), MenuAction::ZoomOut), MenuEffect::Zoom(ZoomChange::Out)));
    let e = s.handle_menu_action(&mut w, &mut st, &menu_texts(), MenuAction::ToggleHardwareAcceleration);
    assert!(matches!(e, MenuEffect::HardwareAcceleration(false)));
    assert!(!st.hardware_acceleration);
}

#[test]
fn hardware_acceleration_toggle_queues_restart_toast() {
    let (mut s, mut w, mut st) = setup("");
    s.copied("Copied".to_string(), false);
    assert_eq!(s.toasts.len(), 1);
    let e = s.handle_menu_action(&mut w, &mut st, &menu_texts(), MenuAction::ToggleHardwareAcceleration);
    assert!(matches!(e, MenuEffect::HardwareAcceleration(false)));
    assert_eq!(s.toasts.len(), 2);
    assert_eq!(s.toasts[0].body, "Copied");
    assert_eq!(s.toasts[1].title, "Info");
    assert_eq!(s.toasts[1].status, ToastStatus::Info);
    assert_eq!(s.toasts[1].body, "Hardware acceleration is off after a restart");
    let e = s.shortcut_pressed(&mut w, &mut st, &menu_texts(), MenuAction::ToggleHardwareAcceleration);
    assert!(matches!(e, MenuEffect::HardwareAcceleration(true)));
    assert!(st.hardware_acceleration);
    assert_eq!(s.toasts.len(), 3);
    assert_eq!(s.toasts[2].body, "Hardware acceleration is on after a restart");
    s.handle_menu_action(&mut w, &mut st, &menu_texts(), MenuAction::ZoomIn);
    assert_eq!(s.toasts.len(), 3);
}

#[test]
fn about_opens_once_then_focuses() {
    let (mut s, mut w, mut st) = setup("");
    assert!(matches!(s.handle_menu_action(&mut w, &mut st, &menu_texts(), MenuAction::About), MenuEffect::OpenAbout));
    w.insert(3, WindowInfo::new(WindowKind::About));
    assert!(matches!(
        s.handle_menu_action(&mut w, &mut st, &menu_texts(), MenuAction::About),
        MenuEffect::Window(WindowCommand::Focus(3))
    ));
}

#[test]
fn static_url_is_launched_as_given() {
    let (mut s, mut w, mut st) = setup("");
    match s.handle_menu_action(&mut w, &mut st, &menu_texts(), MenuAction::OpenStaticUrl("https://bitwarden.com/help")) {
        MenuEffect::LaunchUrl(u) => assert_eq!(u, "https://bitwarden.com/help"),
        _ => panic!("expected a launch"),
    }
}

#[test]
fn web_vault_joins_path_with_one_slash() {
    let (mut s, mut w, mut st) = setup("https://vault.example.com//");
    match s.handle_menu_action(&mut w, &mut st, &menu_texts(), MenuAction::OpenWebVault(Some("#/settings"))) {
        MenuEffect::LaunchUrl(u) => assert_eq!(u, "https://vault.example.com/#/settings"),
        _ => panic!("expected a launch"),
    }
    match s.handle_menu_action(&mut w, &mut st, &menu_texts(), MenuAction::OpenWebVault(None)) {
        MenuEffect::LaunchUrl(u) => assert_eq!(u, "https://vault.example.com//"),
        _ => panic!("expected a launch"),
    }
    s.active_user = Some(20);
    assert!(matches!(
        s.handle_menu_action(&mut w, &mut st, &menu_texts(), MenuAction::OpenWebVault(None)),
        MenuEffect::Nothing
    ));
}

#[test]
fn web_vault_address_cases() {
    assert_eq!(web_vault_address("https://a.b", Some("x")), "https://a.b/x");
    assert_eq!(web_vault_address("https://a.b/", Some("x")), "https://a.b/x");
    assert_eq!(web_vault_address("///", Some("x")), "/x");
    assert_eq!(web_vault_address("https://a.b/", None), "https://a.b/");
}

#[test]
fn fingerprint_lookup_closes_overlay_only_with_a_phrase() {
    let (mut s, mut w, mut st) = setup("");
    assert!(matches!(
        s.handle_menu_action(&mut w, &mut st, &menu_texts(), MenuAction::FingerprintPhrase),
        MenuEffect::FetchFingerprint(10)
    ));
    s.open_overlay = Some(Overlay::AccountSwitcher);
    assert_eq!(s.fingerprint_ready(None), None);
    assert_eq!(s.open_overlay, Some(Overlay::AccountSwitcher));
    assert_eq!(s.fingerprint_ready(Some("alpha beta".to_string())), Some("alpha beta".to_string()));
    assert_eq!(s.open_overlay, None);
}

#[test]
fn tray_actions() {
    let (mut s, mut w, mut st) = setup("");
    assert!(matches!(
        s.handle_tray_action(&mut w, &mut st, TrayAction::ToggleShowHide),
        MenuEffect::Window(WindowCommand::ToggleMainVisibility)
    ));
    assert!(matches!(s.handle_tray_action(&mut w, &mut st, TrayAction::Exit), MenuEffect::Exit));
    assert!(matches!(
        s.handle_tray_action(&mut w, &mut st, TrayAction::LockVault),
        MenuEffect::Route(Route::ShowLogin)
    ));
    assert!(!s.is_unlocked(10));
}

#[test]
fn hide_to_tray_keeps_window_when_tray_fails() {
    let (mut s, mut w, mut st) = setup("");
    assert!(matches!(
        s.handle_menu_action(&mut w, &mut st, &menu_texts(), MenuAction::HideToTray),
        MenuEffect::Window(WindowCommand::HideToTray(TrayFallback::Keep))
    ));
}

#[test]
fn title_bar_actions_respect_tray_preferences() {
    let (_, mut w, mut st) = setup("");
    assert_eq!(w.handle_window_action(&st, WindowAction::Minimize), WindowCommand::Minimize(MAIN));
    assert_eq!(w.handle_window_action(&st, WindowAction::Close), WindowCommand::Close(MAIN));
    st.minimize_to_tray = true;
    st.close_to_tray = true;
    assert_eq!(
        w.handle_window_action(&st, WindowAction::Minimize),
        WindowCommand::HideToTray(TrayFallback::Minimize)
    );
    assert_eq!(w.handle_window_action(&st, WindowAction::Close), WindowCommand::HideToTray(TrayFallback::Close));
    assert_eq!(w.handle_window_action(&st, WindowAction::Maximize), WindowCommand::ToggleMaximize(MAIN));
    assert!(w.main_window_maximized());
    assert_eq!(
        w.handle_window_action(&st, WindowAction::ResizeEdge(ResizeDirection::SouthEast)),
        WindowCommand::DragResize(MAIN, ResizeDirection::SouthEast)
    );
}

#[test]
fn window_events() {
    let (_, mut w, st) = setup("");
    assert_eq!(w.handle_window_event(&st, WindowEvent::Opened(MAIN)), WindowEffect::AttachNativeMenu(MAIN));
    assert_eq!(w.handle_window_event(&st, WindowEvent::Opened(9)), WindowEffect::Nothing);
    assert_eq!(
        w.handle_window_event(&st, WindowEvent::CloseRequested(9)),
        WindowEffect::Command(WindowCommand::Close(9))
    );
    assert_eq!(w.handle_window_event(&st, WindowEvent::Unfocused(MAGNIFY)), WindowEffect::HideMagnify);
    assert_eq!(w.handle_window_event(&st, WindowEvent::Unfocused(MAIN)), WindowEffect::RefreshSessionDeadline);
    assert!(!w.main_focused);
    assert_eq!(w.handle_window_event(&st, WindowEvent::Focused(MAIN)), WindowEffect::RefreshSessionDeadline);
    assert!(w.main_focused);
    assert_eq!(w.handle_window_event(&st, WindowEvent::MouseInput(MAIN)), WindowEffect::RecordActivity);
    assert_eq!(w.handle_window_event(&st, WindowEvent::MouseInput(MAGNIFY)), WindowEffect::Nothing);
    assert_eq!(w.handle_window_event(&st, WindowEvent::Closed(MAGNIFY)), WindowEffect::Nothing);
    assert!(w.info(MAGNIFY).is_none());
    assert_eq!(w.handle_window_event(&st, WindowEvent::Closed(MAIN)), WindowEffect::Exit);
}

#[test]
fn account_switcher_events() {
    let (mut s, mut w, mut st) = setup("");
    assert!(matches!(
        s.handle_account_switcher_event(&mut w, &mut st, AccountSwitcherEvent::SwitchUser { uid: 20 }),
        MenuEffect::Route(Route::ShowLogin)
    ));
    assert_eq!(s.active_user, Some(20));
    assert!(matches!(
        s.handle_account_switcher_event(&mut w, &mut st, AccountSwitcherEvent::AddAccount),
        MenuEffect::Route(Route::ShowEmailEntry)
    ));
    assert!(matches!(
        s.handle_account_switcher_event(&mut w, &mut st, AccountSwitcherEvent::Settings),
        MenuEffect::OpenSettings(20)
    ));
    s.active_user = Some(10);
    assert!(matches!(
        s.handle_account_switcher_event(&mut w, &mut st, AccountSwitcherEvent::LockActive),
        MenuEffect::Route(Route::ShowLogin)
    ));
    assert!(!s.is_unlocked(10));
    assert!(matches!(
        s.handle_account_switcher_event(&mut w, &mut st, AccountSwitcherEvent::LogOut),
        MenuEffect::Route(Route::ShowLogin)
    ));
    assert_eq!(s.active_user, Some(20));
    assert!(!s.has_user(10));
}

#[test]
fn keys_route_by_window() {
    let (_, w, _) = setup("");
    assert_eq!(w.route_key(MAGNIFY, true, true), KeyRoute::Magnify);
    assert_eq!(w.route_key(3, false, false), KeyRoute::Ignore);
    assert_eq!(w.route_key(MAIN, true, true), KeyRoute::CloseSettings);
    assert_eq!(w.route_key(MAIN, true, false), KeyRoute::Shortcut);
    assert_eq!(w.route_key(MAIN, false, true), KeyRoute::Shortcut);
}

#[test]
fn shortcut_closes_overlay_first() {
    let (mut s, mut w, mut st) = setup("");
    s.open_overlay = Some(Overlay::AccountSwitcher);
    assert!(matches!(s.shortcut_pressed(&mut w, &mut st, &menu_texts(), MenuAction::Minimize), MenuEffect::Window(WindowCommand::Minimize(MAIN))));
    assert_eq!(s.open_overlay, None);
}

#[test]
fn visibility_toggle() {
    assert_eq!(toggle_visibility(WindowMode::Hidden), WindowMode::Windowed);
    assert_eq!(toggle_visibility(WindowMode::Windowed), WindowMode::Hidden);
    assert_eq!(toggle_visibility(WindowMode::Fullscreen), WindowMode::Hidden);
}

#[test]
fn about_window_buttons() {
    let (_, mut w, _) = setup("");
    assert_eq!(w.handle_about_message(AboutMessage::Close), AboutEffect::Nothing);
    assert_eq!(w.handle_about_message(AboutMessage::CopyInfo), AboutEffect::CopyInfo);
    w.insert(4, WindowInfo::new(WindowKind::About));
    assert_eq!(w.handle_about_message(AboutMessage::Close), AboutEffect::Window(WindowCommand::Close(4)));
}

fn menu_texts() -> MenuTexts {
    MenuTexts {
        hardware_acceleration_on: "Hardware acceleration is on after a restart".to_string(),
        hardware_acceleration_off: "Hardware acceleration is off after a restart".to_string(),
    }
}

fn texts() -> SyncTexts {
    SyncTexts {
        success_body: "Vault synced".to_string(),
        failure_body: "Could not sync".to_string(),
        failure_title: "Sync failed".to_string(),
    }
}

#[test]
fn system_messages_route() {
    let (mut s, mut w, mut st) = setup("");
    let mut cache = BackendCache { pending: None, verified: None };
    let locks: Vec<u128> = vec![10];
    let t = texts();
    let e = s.handle_system_message(&mut w, &mut st, &mut cache, &locks, &t, &menu_texts(),
        SystemMessage::MenuItem { menu: Some(MenuAction::SearchVault), tray: Some(TrayAction::Exit) });
    assert!(matches!(e, SystemEffect::Menu(MenuEffect::FocusVaultSearch)));
    let e = s.handle_system_message(&mut w, &mut st, &mut cache, &locks, &t, &menu_texts(),
        SystemMessage::MenuItem { menu: None, tray: Some(TrayAction::Exit) });
    assert!(matches!(e, SystemEffect::Menu(MenuEffect::Exit)));
    let e = s.handle_system_message(&mut w, &mut st, &mut cache, &locks, &t, &menu_texts(),
        SystemMessage::MenuItem { menu: None, tray: None });
    assert!(matches!(e, SystemEffect::Nothing));
    let e = s.handle_system_message(&mut w, &mut st, &mut cache, &locks, &t, &menu_texts(), SystemMessage::InstanceWakeRequested);
    assert!(matches!(e, SystemEffect::Menu(MenuEffect::Window(WindowCommand::Show(MAIN)))));
    let e = s.handle_system_message(&mut w, &mut st, &mut cache, &locks, &t, &menu_texts(), SystemMessage::ThemeChanged);
    assert!(matches!(e, SystemEffect::RefreshTheme));
    let e = s.handle_system_message(&mut w, &mut st, &mut cache, &locks, &t, &menu_texts(), SystemMessage::SessionTimeoutCheck);
    assert!(matches!(e, SystemEffect::CheckTimeouts));
}

#[test]
fn system_sync_and_toasts() {
    let (mut s, mut w, mut st) = setup("");
    let mut cache = BackendCache { pending: None, verified: None };
    let t = texts();
    s.handle_system_message(&mut w, &mut st, &mut cache, &vec![], &t, &menu_texts(), SystemMessage::SyncCompleted(Ok(())));
    s.handle_system_message(&mut w, &mut st, &mut cache, &vec![], &t, &menu_texts(),
        SystemMessage::SyncCompleted(Err("offline".to_string())));
    assert_eq!(s.toasts[0].body, "Vault synced");
    assert_eq!(s.toasts[1].title, "Sync failed");
    s.handle_system_message(&mut w, &mut st, &mut cache, &vec![], &t, &menu_texts(), SystemMessage::CloseToast(0));
    assert_eq!(s.toasts.len(), 1);
    assert_eq!(s.toasts[0].body, "Could not sync");
}

#[test]
fn system_session_backend_and_registry() {
    let (mut s, mut w, mut st) = setup("");
    let mut cache = BackendCache { pending: Some("gl".to_string()), verified: None };
    let t = texts();
    let e = s.handle_system_message(&mut w, &mut st, &mut cache, &vec![10], &t, &menu_texts(),
        SystemMessage::Session(SessionEvent::Locked));
    assert!(matches!(e, SystemEffect::Session(SessionEffect::Locked(Route::ShowLogin))));
    assert!(!s.is_unlocked(10));
    let e = s.handle_system_message(&mut w, &mut st, &mut cache, &vec![], &t, &menu_texts(),
        SystemMessage::BackendDiscovered("Metal".to_string()));
    assert!(matches!(e, SystemEffect::SaveBackendCache));
    assert_eq!(cache.verified, Some("metal".to_string()));
    assert_eq!(cache.pending, None);
    let e = s.handle_system_message(&mut w, &mut st, &mut cache, &vec![], &t, &menu_texts(),
        SystemMessage::RegistryLoaded(vec![AccountEntry {
            user_id: 5,
            email: "e@x".to_string(),
            server_url: String::new(),
            locked: true,
        }]));
    assert!(matches!(e, SystemEffect::Route(Route::ShowLogin)));
    assert_eq!(s.active_user, Some(5));
}

#[test]
fn window_insert_replaces_known_id() {
    let (_, mut w, _) = setup("");
    assert_eq!(w.windows.len(), 2);
    w.insert(4, WindowInfo::new(WindowKind::About));
    assert_eq!(w.windows.len(), 3);
    let mut about = WindowInfo::new(WindowKind::About);
    about.always_on_top = true;
    w.insert(4, about);
    assert_eq!(w.windows.len(), 3);
    assert_eq!(w.info(4), Some(about));
    w.insert(MAIN, WindowInfo::new(WindowKind::Main));
    assert_eq!(w.windows.len(), 3);
    assert_eq!(w.info(MAIN), Some(WindowInfo::new(WindowKind::Main)));
    assert!(w.remove(MAIN));
    assert_eq!(w.info(MAIN), None);
    assert_eq!(w.windows.len(), 2);
}
