use bitwarden_desktop_next::account_switcher::{avatar_initials, switcher_panel, AccountSwitcherEvent, AccountSwitcherMessage};
use bitwarden_desktop_next::backend::{
    accept_backend, backend_discovered, known_backend, plan_backend, str_equals, BackendCache,
};
use bitwarden_desktop_next::ctx::Overlay;
use bitwarden_desktop_next::domain::{Organization, UnlockMethod, UnlockMethods, VaultChoice};
use bitwarden_desktop_next::export::{
    default_export_name, export_file_name, export_name_at, extension_for, ExportFormat,
    LAST_FOUR_DIGIT_YEAR_SECS,
};
use bitwarden_desktop_next::icons::{BwiIcon, Icon, BWI_EYE, INFO_CIRCLE_FILL};
use bitwarden_desktop_next::instance_lock::{is_wake_line, trim_bounds, WAKE_SIGNAL};
use bitwarden_desktop_next::mock::{mock_users, mock_vault_items_personal, mock_vault_items_work, CipherCategory};
use bitwarden_desktop_next::secret_field::{
    display_text, RevealFieldEvent, RevealInputEvent, RevealRequest, RevealState,
};
use bitwarden_desktop_next::virtual_list::{overscan_rows, padding_rows, row_window};

#[test]
fn icon_chars() {
    assert_eq!(Icon(INFO_CIRCLE_FILL).char(), '\u{f430}');
    assert_eq!(BwiIcon(BWI_EYE).char(), '\u{f104}');
}

#[test]
fn unlock_method_preference_order() {
    let all = UnlockMethods { master_password: true, pin: true, biometrics: true };
    assert_eq!(all.preferred(), UnlockMethod::Biometrics);
    assert_eq!(all.alternatives(UnlockMethod::Biometrics), vec![UnlockMethod::Pin, UnlockMethod::MasterPassword]);
    let pin = UnlockMethods { master_password: true, pin: true, biometrics: false };
    assert_eq!(pin.preferred(), UnlockMethod::Pin);
    let none = UnlockMethods { master_password: false, pin: false, biometrics: false };
    assert_eq!(none.preferred(), UnlockMethod::MasterPassword);
    assert!(none.alternatives(UnlockMethod::MasterPassword).is_empty());
}

#[test]
fn vault_choices_list_personal_first() {
    let orgs = vec![Organization { id: 5, name: "Acme".to_string() }];
    let choices = VaultChoice::list_with_personal(&orgs);
    assert_eq!(choices, vec![VaultChoice::Personal, VaultChoice::Org { id: 5, name: "Acme".to_string() }]);
    assert_eq!(choices[0].label("My vault"), "My vault");
    assert_eq!(choices[1].label("My vault"), "Acme");
}

#[test]
fn switcher_toggle_opens_and_closes_its_overlay() {
    let mut cell: Option<Overlay> = Some(Overlay::ServerSelector);
    assert_eq!(AccountSwitcherMessage::ToggleDropdown.consume(&mut cell, Overlay::AccountSwitcher), None);
    assert_eq!(cell, Some(Overlay::AccountSwitcher));
    AccountSwitcherMessage::ToggleDropdown.consume(&mut cell, Overlay::AccountSwitcher);
    assert_eq!(cell, None);
    cell = Some(Overlay::AccountSwitcher);
    let e = AccountSwitcherMessage::SwitchUser(3).consume(&mut cell, Overlay::AccountSwitcher);
    assert_eq!(e, Some(AccountSwitcherEvent::SwitchUser { uid: 3 }));
    assert_eq!(cell, None);
    assert_eq!(AccountSwitcherMessage::LogOut.into_event(), Some(AccountSwitcherEvent::LogOut));
}

#[test]
fn wake_lines() {
    assert!(is_wake_line(WAKE_SIGNAL));
    assert!(is_wake_line("  show \r\n"));
    assert!(!is_wake_line("shows"));
    assert!(!is_wake_line("SHOW"));
    assert!(!is_wake_line(""));
    assert_eq!(trim_bounds("  ab \n"), (2, 4));
    assert_eq!(trim_bounds("   "), (3, 3));
}

#[test]
fn backend_names() {
    assert!(str_equals("gl", "gl"));
    assert!(!str_equals("gl", "gles"));
    assert!(known_backend("vulkan") && known_backend("dx12") && known_backend("metal") && known_backend("gl"));
    assert!(!known_backend("noop") && !known_backend("tiny-skia") && !known_backend("Vulkan"));
}

#[test]
fn discovered_backend_is_lowercased_and_cached() {
    let mut cache = BackendCache { pending: Some("metal".to_string()), verified: None };
    assert!(backend_discovered("Vulkan", &mut cache));
    assert_eq!(cache.pending, None);
    assert_eq!(cache.verified, Some("vulkan".to_string()));
    assert!(!backend_discovered("Noop", &mut cache));
    assert!(!backend_discovered("tiny-skia", &mut cache));
    assert_eq!(cache.verified, Some("vulkan".to_string()));
    assert!(!accept_backend("DirectX12".to_string(), &mut cache));
}

#[test]
fn backend_plan_uses_cache_and_recovers_from_crash() {
    let mut cache = BackendCache { pending: None, verified: Some("dx12".to_string()) };
    let env = plan_backend(true, true, true, &mut cache);
    assert!(env.renderer.is_none() && !env.save);
    let soft = plan_backend(false, true, false, &mut cache);
    assert_eq!(soft.renderer, Some("tiny-skia"));
    let gpu = plan_backend(false, true, true, &mut cache);
    assert_eq!(gpu.renderer, Some("wgpu"));
    assert_eq!(gpu.gpu_backend, Some("dx12".to_string()));
    assert!(gpu.save);
    assert_eq!(cache.pending, Some("dx12".to_string()));
    let after_crash = plan_backend(false, true, true, &mut cache);
    assert_eq!(after_crash.gpu_backend, None);
    assert!(after_crash.save);
    assert_eq!(cache.pending, None);
    assert_eq!(cache.verified, None);
    assert!(plan_backend(false, false, true, &mut cache).renderer.is_none());
}

#[test]
fn export_extensions_and_names() {
    assert_eq!(extension_for(&ExportFormat::Csv), "csv");
    assert_eq!(extension_for(&ExportFormat::Json), "json");
    assert_eq!(extension_for(&ExportFormat::EncryptedJson { password: "p".to_string() }), "json");
    assert_eq!(export_file_name("20240102-030405", "csv"), "bitwarden-export-20240102-030405.csv");
    let name = default_export_name(&ExportFormat::Json, 0).expect("the clock is in range");
    assert!(name.starts_with("bitwarden-export-"));
    assert!(name.ends_with(".json"));
    assert_eq!(name.len(), "bitwarden-export-".len() + 15 + ".json".len());
}

#[test]
fn export_names_at_given_instants() {
    assert_eq!(export_name_at(0, 0, &ExportFormat::Csv).as_deref(), Some("bitwarden-export-19700101-000000.csv"));
    assert_eq!(export_name_at(0, -3600, &ExportFormat::Csv).as_deref(), Some("bitwarden-export-19691231-230000.csv"));
    assert_eq!(
        export_name_at(1_700_000_000, 3600, &ExportFormat::Json).as_deref(),
        Some("bitwarden-export-20231114-231320.json")
    );
    assert_eq!(
        export_name_at(LAST_FOUR_DIGIT_YEAR_SECS as u64, 0, &ExportFormat::Csv).as_deref(),
        Some("bitwarden-export-99991231-235959.csv")
    );
    assert_eq!(export_name_at(0, 86_400, &ExportFormat::Csv), None);
    assert_eq!(export_name_at(0, -86_400, &ExportFormat::Csv), None);
    assert_eq!(export_name_at(u64::MAX / 2, 0, &ExportFormat::Csv), None);
    assert!(export_name_at(LAST_FOUR_DIGIT_YEAR_SECS as u64 + 1, 0, &ExportFormat::Csv).is_some());
}

#[test]
fn mock_data() {
    let (users, active) = mock_users();
    assert_eq!(active, "user-1");
    assert_eq!(users.len(), 2);
    assert_eq!(users[0].0, "user-1");
    assert_eq!(users[0].1.email, "alice@example.com");
    assert_eq!(users[1].1.display_name, "Alice (Work)");
    assert!(users.iter().all(|(_, u)| u.locked));
    let personal = mock_vault_items_personal();
    assert_eq!(personal.len(), 19);
    assert_eq!(personal[0].name, "Gmail");
    assert_eq!(personal[18].category, CipherCategory::SshKey);
    assert_eq!(personal[13].username, None);
    let work = mock_vault_items_work();
    assert_eq!(work.len(), 7);
    assert_eq!(work[3].url, Some("acmecorp.slack.com".to_string()));
}

#[test]
fn row_window_clamps() {
    assert_eq!(row_window(10, 20, 6, 1000), (4, 36));
    assert_eq!(row_window(2, 20, 6, 1000), (0, 28));
    assert_eq!(row_window(50, 20, 6, 30), (30, 30));
    assert_eq!(row_window(0, 1, 5, 0), (0, 0));
    assert_eq!(overscan_rows(2), 5);
    assert_eq!(overscan_rows(9), 9);
    assert_eq!(padding_rows(4, 36, 1000), (4, 964));
}

#[test]
fn secret_display() {
    assert_eq!(display_text("hunter2", true), "hunter2");
    assert_eq!(display_text("hunter2", false), "\u{2022}".repeat(7));
    assert_eq!(display_text("", false), "\u{2022}");
    assert_eq!(display_text(&"x".repeat(40), false), "\u{2022}".repeat(24));
}

#[test]
fn secret_field_events() {
    let mut st = RevealState::new();
    assert!(!st.revealed);
    assert_eq!(st.update_input(RevealInputEvent::Toggle, true), None);
    assert!(st.revealed);
    assert_eq!(
        st.update_input(RevealInputEvent::Input("ab".to_string()), false),
        Some(RevealRequest::Input("ab".to_string()))
    );
    assert_eq!(st.update_input(RevealInputEvent::Submit, false), None);
    assert_eq!(st.update_input(RevealInputEvent::Submit, true), Some(RevealRequest::Submit));
    assert_eq!(st.update_field(RevealFieldEvent::Copy, true), Some(RevealRequest::Copy));
    assert_eq!(st.update_field(RevealFieldEvent::Copy, false), None);
    assert_eq!(st.update_field(RevealFieldEvent::Toggle, true), None);
    assert!(!st.revealed);
}

fn account(uid: u128, email: &str, locked: bool) -> bitwarden_desktop_next::session::AccountEntry {
    bitwarden_desktop_next::session::AccountEntry {
        user_id: uid,
        email: email.to_string(),
        server_url: String::new(),
        locked,
    }
}

#[test]
fn switcher_panel_layout() {
    let accounts = vec![account(1, "a@x", false), account(2, "b@x", true), account(3, "c@x", false)];
    let p = switcher_panel(Some("a@x"), &accounts);
    assert_eq!(p.active_card, Some(0));
    assert_eq!(p.others, vec![1, 2]);
    assert!(p.lock_all);
    let locked_active = switcher_panel(Some("b@x"), &accounts);
    assert_eq!(locked_active.active_card, None);
    assert_eq!(locked_active.others, vec![0, 1, 2]);
    let none = switcher_panel(None, &accounts[1..2]);
    assert_eq!(none.active_card, None);
    assert!(!none.lock_all);
    assert_eq!(none.others, vec![0]);
}

#[test]
fn avatar_initials_are_uppercased() {
    assert_eq!(avatar_initials("alice@example.com"), "AL");
    assert_eq!(avatar_initials("x"), "X");
    assert_eq!(avatar_initials(""), "");
    assert_eq!(avatar_initials("ßa@x"), "SSA");
}
