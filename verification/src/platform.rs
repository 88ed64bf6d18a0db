//! Platform dispatch — native menu, tray, title bar, window events, key
//! routing and the account switcher. Each request is decided against the
//! session and window state; the window or modal work that follows is
//! handed back to the caller as an effect.

use vstd::prelude::*;

use crate::account_switcher::{event_of, AccountSwitcherEvent, AccountSwitcherMessage};
use crate::domain::{Screen, UserId};
use crate::backend::{after_paint, backend_discovered, cache_of, lowercase, BackendCache};
use crate::session::{has_user, AccountEntry, AppState, Route, SessionEffect, SessionEvent};
use crate::sidebar::CipherType;
use crate::ctx::PushToast;
use crate::toast::{Toast, ToastStatus};
use crate::window::{has_kind, WindowFlag, WindowId, WindowInfo, WindowKind, Windows};

verus! {

/// Every action the native menu, the title-bar menu and the keyboard
/// shortcuts can request.
#[derive(Debug, Clone, Copy)]
pub enum MenuAction {
    Quit,
    LockAllVaults,
    ToggleFullScreen,
    Minimize,
    Close,
    SearchVault,
    SyncNow,
    HideToTray,
    ToggleAlwaysOnTop,
    Settings,
    Generator,
    GeneratorHistory,
    ZoomIn,
    ZoomOut,
    ZoomReset,
    ToggleHardwareAcceleration,
    Import,
    Export,
    NewFolder,
    NewItem(CipherType),
    CopyUsername,
    CopyPassword,
    CopyTotp,
    FingerprintPhrase,
    OpenStaticUrl(&'static str),
    /// The active account's web vault, optionally at a sub-path.
    OpenWebVault(Option<&'static str>),
    About,
}

/// Tray menu entries.
#[derive(Debug, Clone, Copy, PartialEq, Eq, Structural)]
pub enum TrayAction {
    ToggleShowHide,
    LockVault,
    Exit,
}

/// Buttons and gestures of the custom title bar.
#[derive(Debug, Clone, Copy, PartialEq, Eq, Structural)]
pub enum WindowAction {
    Minimize,
    Maximize,
    Close,
    Drag,
    ResizeEdge(ResizeDirection),
}

#[derive(Debug, Clone, Copy, PartialEq, Eq, Structural)]
pub enum ResizeDirection {
    North,
    South,
    East,
    West,
    NorthEast,
    NorthWest,
    SouthEast,
    SouthWest,
}

/// Zoom steps the caller applies to its zoom factor.
#[derive(Debug, Clone, Copy, PartialEq, Eq, Structural)]
pub enum ZoomChange {
    In,
    Out,
    Reset,
}

/// Which field of the selected cipher an Edit-menu copy asks for.
#[derive(Debug, Clone, Copy, PartialEq, Eq, Structural)]
pub enum CopyField {
    Username,
    Password,
    Totp,
}

/// A window mode the caller sets on a window.
#[derive(Debug, Clone, Copy, PartialEq, Eq, Structural)]
pub enum WindowMode {
    Windowed,
    Fullscreen,
    Hidden,
}

/// What to do with the main window when hiding it to the tray is not
/// possible (the tray failed to come up).
#[derive(Debug, Clone, Copy, PartialEq, Eq, Structural)]
pub enum TrayFallback {
    /// Leave the window as it is.
    Keep,
    Minimize,
    Close,
}

/// Window work for the caller.
#[derive(Debug, Clone, Copy, PartialEq, Eq, Structural)]
pub enum WindowCommand {
    Minimize(WindowId),
    Close(WindowId),
    ToggleMaximize(WindowId),
    SetMode(WindowId, WindowMode),
    SetAlwaysOnTop(WindowId, bool),
    Focus(WindowId),
    /// Show the window and focus it.
    Show(WindowId),
    Drag(WindowId),
    DragResize(WindowId, ResizeDirection),
    /// Bring the tray up (lazily) and hide the main window into it; when
    /// the tray cannot be built, apply the fallback instead so the window
    /// never becomes unreachable.
    HideToTray(TrayFallback),
    /// Flip the main window between hidden and shown, asking the window
    /// system for its current mode first.
    ToggleMainVisibility,
}

/// The caller's part after a menu action was decided.
#[derive(Debug, Clone)]
pub enum MenuEffect {
    Nothing,
    Exit,
    /// Complete a navigation (lock, switch, log-out).
    Route(Route),
    Window(WindowCommand),
    FocusVaultSearch,
    /// Start a vault sync for the user.
    Sync(UserId),
    OpenSettings(UserId),
    OpenGenerator(UserId),
    OpenGeneratorHistory,
    Zoom(ZoomChange),
    /// The hardware-acceleration preference now reads `enabled`: persist it.
    /// The toast that says it applies on the next launch is already queued.
    HardwareAcceleration(bool),
    OpenImport(UserId),
    OpenExport(UserId),
    OpenNewFolder(UserId),
    /// Start a new vault item of this type.
    NewItem(CipherType),
    /// Copy a field of the vault's selected cipher.
    CopySelected(CopyField),
    /// Look up the user's fingerprint phrase, then
    /// [`AppState::fingerprint_ready`].
    FetchFingerprint(UserId),
    LaunchUrl(String),
    /// Open the About window and register it with [`Windows::insert`].
    OpenAbout,
}

/// Preferences the dispatch reads or flips.
#[derive(Debug, Clone, Copy, PartialEq, Eq, Structural)]
pub struct DesktopSettings {
    pub hardware_acceleration: bool,
    pub minimize_to_tray: bool,
    pub close_to_tray: bool,
}

/// `i` is the first registry position holding `uid`.
pub open spec fn is_first_index(accounts: Seq<AccountEntry>, uid: UserId, i: int) -> bool {
    &&& 0 <= i < accounts.len()
    &&& accounts[i].user_id == uid
    &&& forall|k: int| 0 <= k < i ==> #[trigger] accounts[k].user_id != uid
}

/// `str::trim_end_matches('/')`.
pub open spec fn trim_end_slashes(s: Seq<char>) -> Seq<char>
    decreases s.len(),
{
    if s.len() > 0 && s.last() == '/' {
        trim_end_slashes(s.drop_last())
    } else {
        s
    }
}

/// The web-vault address for `base`: the base itself, or the base without
/// trailing slashes joined to `path` by one slash.
pub open spec fn web_vault_url(base: Seq<char>, path: Option<Seq<char>>) -> Seq<char> {
    match path {
        Some(p) => trim_end_slashes(base) + seq!['/'] + p,
        None => base,
    }
}

/// The server URL of the active account's first registry entry, when it
/// is set (non-empty).
pub open spec fn active_server_url(accounts: Seq<AccountEntry>, active: Option<UserId>) -> Option<Seq<char>> {
    match active {
        Some(uid) => if has_user(accounts, uid) {
            let i = choose|i: int| is_first_index(accounts, uid, i);
            if accounts[i].server_url@.len() > 0 {
                Some(accounts[i].server_url@)
            } else {
                None
            }
        } else {
            None
        },
        None => None,
    }
}

proof fn lemma_first_index_unique(accounts: Seq<AccountEntry>, uid: UserId, i: int, j: int)
    requires
        is_first_index(accounts, uid, i),
        is_first_index(accounts, uid, j),
    ensures
        i == j,
{
    if i < j {
        assert(accounts[i].user_id != uid);
    } else if j < i {
        assert(accounts[j].user_id != uid);
    }
}

/// The web-vault address joins the base, stripped of every trailing slash,
/// to the sub-path with exactly one slash; without a sub-path the base is
/// used as it is.
pub proof fn lemma_web_vault_url_single_slash(base: Seq<char>, path: Seq<char>)
    ensures
        ({
            let t = trim_end_slashes(base);
            &&& web_vault_url(base, Some(path)) == t + seq!['/'] + path
            &&& t.len() <= base.len()
            &&& t =~= base.subrange(0, t.len() as int)
            &&& (t.len() == 0 || t.last() != '/')
            &&& forall|k: int| t.len() <= k < base.len() ==> base[k] == '/'
        }),
        web_vault_url(base, None) == base,
    decreases base.len(),
{
    if base.len() > 0 && base.last() == '/' {
        let p = base.drop_last();
        lemma_web_vault_url_single_slash(p, path);
        let t = trim_end_slashes(p);
        assert(trim_end_slashes(base) == t);
        assert forall|k: int| t.len() <= k < base.len() implies base[k] == '/' by {
            if k < p.len() {
                assert(base[k] == p[k]);
            }
        }
        assert(t =~= base.subrange(0, t.len() as int)) by {
            assert forall|k: int| 0 <= k < t.len() implies t[k] == base[k] by {
                assert(p.subrange(0, t.len() as int)[k] == p[k]);
            }
        }
    } else {
        assert(base.subrange(0, base.len() as int) =~= base);
    }
}

/// Bounds `(0, end)` of `trim_end_slashes(s)`.
fn trim_end_slashes_len(s: &str) -> (end: usize)
    ensures
        end <= s@.len(),
        s@.subrange(0, end as int) == trim_end_slashes(s@),
{
    let n = s.unicode_len();
    let mut j: usize = n;
    assert(s@.subrange(0, n as int) =~= s@);
    while j > 0 && s.get_char(j - 1) == '/'
        invariant
            n == s@.len(),
            j <= n,
            trim_end_slashes(s@) == trim_end_slashes(s@.subrange(0, j as int)),
        decreases j,
    {
        assert(s@.subrange(0, j as int).drop_last() =~= s@.subrange(0, j - 1));
        j = j - 1;
    }
    j
}

/// Build the web-vault address for `base` and an optional sub-path.
pub fn web_vault_address(base: &str, path: Option<&str>) -> (url: String)
    ensures
        url@ == web_vault_url(base@, match path {
            Some(p) => Some(p@),
            None => None,
        }),
{
    match path {
        Some(p) => {
            let end = trim_end_slashes_len(base);
            let mut url = String::from_str(base.substring_char(0, end));
            proof {
                reveal_strlit("/");
            }
            url.append("/");
            url.append(p);
            url
        },
        None => String::from_str(base),
    }
}

impl AppState {
    /// Position of the active user's first registry entry.
    pub fn active_account_index(&self) -> (r: Option<usize>)
        ensures
            r matches Some(i) ==> self.active_user matches Some(uid) && is_first_index(self.accounts@, uid, i as int),
            r is None ==> (self.active_user matches Some(uid) ==> !has_user(self.accounts@, uid)),
    {
        let uid = match self.active_user {
            Some(uid) => uid,
            None => return None,
        };
        let mut i: usize = 0;
        while i < self.accounts.len()
            invariant
                self.active_user == Some(uid),
                i <= self.accounts@.len(),
                forall|k: int| 0 <= k < i ==> #[trigger] self.accounts@[k].user_id != uid,
            decreases self.accounts@.len() - i,
        {
            if self.accounts[i].user_id == uid {
                return Some(i);
            }
            i = i + 1;
        }
        None
    }

    /// The active account's web-vault address for `path`, when the active
    /// account has a server URL.
    pub fn web_vault_link(&self, path: Option<&str>) -> (r: Option<String>)
        ensures
            (match active_server_url(self.accounts@, self.active_user) {
                Some(base) => r matches Some(u) && u@ == web_vault_url(base, match path {
                    Some(p) => Some(p@),
                    None => None,
                }),
                None => r is None,
            }),
    {
        match self.active_account_index() {
            Some(i) => {
                proof {
                    let uid = self.active_user->0;
                    let c = choose|c: int| is_first_index(self.accounts@, uid, c);
                    assert(is_first_index(self.accounts@, uid, i as int));
                    lemma_first_index_unique(self.accounts@, uid, c, i as int);
                }
                let base = self.accounts[i].server_url.as_str();
                if base.unicode_len() == 0 {
                    None
                } else {
                    Some(web_vault_address(base, path))
                }
            },
            None => None,
        }
    }
}

/// The screen and the overlay cell are as they were.
pub open spec fn same_view(after: &AppState, before: &AppState) -> bool {
    after.screen == before.screen && after.open_overlay == before.open_overlay
}

/// A modal that needs a signed-in user: with an active user the overlay
/// closes and the modal opens for that user; without one nothing happens.
pub open spec fn modal_for_active(after: &AppState, before: &AppState, e: MenuEffect, open: spec_fn(UserId) -> MenuEffect) -> bool {
    match before.active_user {
        Some(uid) => after.screen == before.screen && after.open_overlay is None && e == open(uid),
        None => same_view(after, before) && e is Nothing,
    }
}

/// A flag of the main window flipped by a menu toggle, and the command that
/// applies its new value; nothing when the main window is not registered.
pub open spec fn main_flag_toggled(
    after: Map<WindowId, WindowInfo>,
    before: Map<WindowId, WindowInfo>,
    main: WindowId,
    flag: WindowFlag,
    e: MenuEffect,
) -> bool {
    match before.get(main) {
        Some(w) => {
            let now = flag.flipped(w);
            &&& after == before.insert(main, now)
            &&& e == MenuEffect::Window(match flag {
                WindowFlag::Fullscreen => WindowCommand::SetMode(
                    main,
                    if now.fullscreen { WindowMode::Fullscreen } else { WindowMode::Windowed },
                ),
                WindowFlag::AlwaysOnTop => WindowCommand::SetAlwaysOnTop(main, now.always_on_top),
                WindowFlag::Maximized => WindowCommand::ToggleMaximize(main),
            })
        },
        None => after == before && e is Nothing,
    }
}

/// The localized texts of the toast the hardware-acceleration toggle queues.
#[derive(Debug, Clone)]
pub struct MenuTexts {
    /// Shown when the preference now reads enabled.
    pub hardware_acceleration_on: String,
    /// Shown when the preference now reads disabled.
    pub hardware_acceleration_off: String,
}

/// The toasts a menu action queues: the hardware-acceleration toggle adds
/// one Info toast, with the text for the preference's new value (the
/// renderer is chosen at start-up, so the change applies on the next
/// launch); every other action leaves the queue as it was.
pub open spec fn menu_toasts(
    before: Seq<Toast>,
    after: Seq<Toast>,
    sa: DesktopSettings,
    texts: MenuTexts,
    action: MenuAction,
) -> bool {
    if action is ToggleHardwareAcceleration {
        &&& after.len() == before.len() + 1
        &&& after.drop_last() == before
        &&& after.last().built(
            ToastStatus::Info,
            if sa.hardware_acceleration { texts.hardware_acceleration_on } else { texts.hardware_acceleration_off },
            None,
        )
    } else {
        after == before
    }
}

/// What a menu action decides, the toast queue aside: the state, window and
/// preference changes and the effect handed back, from `before`/`wb`/`sb`
/// to `after`/`wa`/`sa`.
pub open spec fn menu_decision(
    before: &AppState,
    after: &AppState,
    wb: &Windows,
    wa: &Windows,
    sb: DesktopSettings,
    sa: DesktopSettings,
    action: MenuAction,
    e: MenuEffect,
) -> bool {
    &&& wa.main == wb.main
    &&& wa.magnify == wb.magnify
    &&& wa.main_focused == wb.main_focused
    &&& !(action is ToggleFullScreen || action is ToggleAlwaysOnTop) ==> wa.windows@ == wb.windows@
    &&& !(action is ToggleHardwareAcceleration) ==> sa == sb
    &&& after.active_user == before.active_user
    &&& after.sidebar == before.sidebar
    &&& !(action is LockAllVaults) ==> after.accounts@ == before.accounts@
    &&& (match action {
        MenuAction::Quit => same_view(after, before) && e is Exit,
        MenuAction::LockAllVaults => {
            let shown = before.active_user matches Some(a) && has_user(before.accounts@, a);
            &&& after.accounts@ == crate::session::all_locked(before.accounts@)
            &&& shown ==> after.screen == Screen::Login && after.open_overlay is None
                && e == MenuEffect::Route(Route::ShowLogin)
            &&& !shown ==> same_view(after, before) && e == MenuEffect::Route(Route::Stay)
        },
        MenuAction::ToggleFullScreen => same_view(after, before) && main_flag_toggled(
            wa.windows@, wb.windows@, wb.main, WindowFlag::Fullscreen, e),
        MenuAction::ToggleAlwaysOnTop => same_view(after, before) && main_flag_toggled(
            wa.windows@, wb.windows@, wb.main, WindowFlag::AlwaysOnTop, e),
        MenuAction::Minimize => same_view(after, before)
            && e == MenuEffect::Window(WindowCommand::Minimize(wb.main)),
        MenuAction::Close => same_view(after, before)
            && e == MenuEffect::Window(WindowCommand::Close(wb.main)),
        MenuAction::SearchVault => same_view(after, before)
            && e == (if before.screen == Screen::Vault { MenuEffect::FocusVaultSearch } else { MenuEffect::Nothing }),
        MenuAction::SyncNow => same_view(after, before) && e == (match before.active_user {
            Some(uid) => if has_user(before.accounts@, uid) { MenuEffect::Sync(uid) } else { MenuEffect::Nothing },
            None => MenuEffect::Nothing,
        }),
        MenuAction::HideToTray => same_view(after, before)
            && e == MenuEffect::Window(WindowCommand::HideToTray(TrayFallback::Keep)),
        MenuAction::Settings => modal_for_active(after, before, e, |u: UserId| MenuEffect::OpenSettings(u)),
        MenuAction::Generator => modal_for_active(after, before, e, |u: UserId| MenuEffect::OpenGenerator(u)),
        MenuAction::GeneratorHistory => same_view(after, before) && e is OpenGeneratorHistory,
        MenuAction::ZoomIn => same_view(after, before) && e == MenuEffect::Zoom(ZoomChange::In),
        MenuAction::ZoomOut => same_view(after, before) && e == MenuEffect::Zoom(ZoomChange::Out),
        MenuAction::ZoomReset => same_view(after, before) && e == MenuEffect::Zoom(ZoomChange::Reset),
        MenuAction::ToggleHardwareAcceleration => {
            &&& same_view(after, before)
            &&& sa == (DesktopSettings {
                hardware_acceleration: !sb.hardware_acceleration,
                ..sb
            })
            &&& e == MenuEffect::HardwareAcceleration(!sb.hardware_acceleration)
        },
        MenuAction::Import => modal_for_active(after, before, e, |u: UserId| MenuEffect::OpenImport(u)),
        MenuAction::Export => modal_for_active(after, before, e, |u: UserId| MenuEffect::OpenExport(u)),
        MenuAction::NewFolder => modal_for_active(after, before, e, |u: UserId| MenuEffect::OpenNewFolder(u)),
        MenuAction::NewItem(t) => after.screen == Screen::Vault && after.open_overlay is None
            && e == MenuEffect::NewItem(t),
        MenuAction::CopyUsername => same_view(after, before)
            && e == (if before.screen == Screen::Vault { MenuEffect::CopySelected(CopyField::Username) } else { MenuEffect::Nothing }),
        MenuAction::CopyPassword => same_view(after, before)
            && e == (if before.screen == Screen::Vault { MenuEffect::CopySelected(CopyField::Password) } else { MenuEffect::Nothing }),
        MenuAction::CopyTotp => same_view(after, before)
            && e == (if before.screen == Screen::Vault { MenuEffect::CopySelected(CopyField::Totp) } else { MenuEffect::Nothing }),
        MenuAction::FingerprintPhrase => same_view(after, before) && e == (match before.active_user {
            Some(uid) => MenuEffect::FetchFingerprint(uid),
            None => MenuEffect::Nothing,
        }),
        MenuAction::OpenStaticUrl(url) => same_view(after, before)
            && (e matches MenuEffect::LaunchUrl(u) && u@ == url@),
        MenuAction::OpenWebVault(path) => same_view(after, before)
            && (match active_server_url(before.accounts@, before.active_user) {
                Some(base) => (e matches MenuEffect::LaunchUrl(u) && u@ == web_vault_url(base, match path {
                    Some(p) => Some(p@),
                    None => None,
                })),
                None => e is Nothing,
            }),
        MenuAction::About => same_view(after, before) && (
            (e matches MenuEffect::Window(WindowCommand::Focus(id))
                && wb.windows@.contains_key(id) && wb.windows@[id].kind == WindowKind::About)
            || (e is OpenAbout && !has_kind(wb.windows@, WindowKind::About))),
    })
}

/// What a menu action does: its decision and the toasts it queues.
pub open spec fn menu_outcome(
    before: &AppState,
    after: &AppState,
    wb: &Windows,
    wa: &Windows,
    sb: DesktopSettings,
    sa: DesktopSettings,
    texts: MenuTexts,
    action: MenuAction,
    e: MenuEffect,
) -> bool {
    &&& menu_decision(before, after, wb, wa, sb, sa, action, e)
    &&& menu_toasts(before.toasts@, after.toasts@, sa, texts, action)
}

impl AppState {
    /// Decide a menu action (native menu, title-bar menu or shortcut); the
    /// hardware-acceleration toggle also queues its toast.
    pub fn handle_menu_action(
        &mut self,
        windows: &mut Windows,
        settings: &mut DesktopSettings,
        texts: &MenuTexts,
        action: MenuAction,
    ) -> (e: MenuEffect)
        ensures
            menu_outcome(old(self), final(self), old(windows), final(windows), *old(settings), *final(settings), *texts, action, e),
    {
        let toggles_renderer = matches!(action, MenuAction::ToggleHardwareAcceleration);
        let e = self.decide_menu_action(windows, settings, action);
        if toggles_renderer {
            let body = if settings.hardware_acceleration {
                texts.hardware_acceleration_on.clone()
            } else {
                texts.hardware_acceleration_off.clone()
            };
            let t = Toast::info(body, None);
            self.push_toast(t);
            assert(self.toasts@.drop_last() == old(self).toasts@);
        }
        e
    }

    /// A menu action's decision; the toast queue is left alone.
    fn decide_menu_action(&mut self, windows: &mut Windows, settings: &mut DesktopSettings, action: MenuAction) -> (e: MenuEffect)
        ensures
            menu_decision(old(self), final(self), old(windows), final(windows), *old(settings), *final(settings), action, e),
            final(self).toasts@ == old(self).toasts@,
    {
        let main = windows.main;
        match action {
            MenuAction::Quit => MenuEffect::Exit,
            MenuAction::LockAllVaults => {
                if self.lock_all() {
                    MenuEffect::Route(Route::ShowLogin)
                } else {
                    MenuEffect::Route(Route::Stay)
                }
            },
            MenuAction::ToggleFullScreen => match windows.toggle(main, WindowFlag::Fullscreen) {
                Some(on) => MenuEffect::Window(WindowCommand::SetMode(
                    main,
                    if on { WindowMode::Fullscreen } else { WindowMode::Windowed },
                )),
                None => MenuEffect::Nothing,
            },
            MenuAction::ToggleAlwaysOnTop => match windows.toggle(main, WindowFlag::AlwaysOnTop) {
                Some(on) => MenuEffect::Window(WindowCommand::SetAlwaysOnTop(main, on)),
                None => MenuEffect::Nothing,
            },
            MenuAction::Minimize => MenuEffect::Window(WindowCommand::Minimize(main)),
            MenuAction::Close => MenuEffect::Window(WindowCommand::Close(main)),
            MenuAction::SearchVault => {
                if self.screen == Screen::Vault {
                    MenuEffect::FocusVaultSearch
                } else {
                    MenuEffect::Nothing
                }
            },
            MenuAction::SyncNow => match self.active_user {
                Some(uid) => {
                    if self.has_user(uid) {
                        MenuEffect::Sync(uid)
                    } else {
                        MenuEffect::Nothing
                    }
                },
                None => MenuEffect::Nothing,
            },
            MenuAction::HideToTray => MenuEffect::Window(WindowCommand::HideToTray(TrayFallback::Keep)),
            MenuAction::Settings => match self.active_user_closing_overlay() {
                Some(uid) => MenuEffect::OpenSettings(uid),
                None => MenuEffect::Nothing,
            },
            MenuAction::Generator => match self.active_user_closing_overlay() {
                Some(uid) => MenuEffect::OpenGenerator(uid),
                None => MenuEffect::Nothing,
            },
            MenuAction::GeneratorHistory => MenuEffect::OpenGeneratorHistory,
            MenuAction::ZoomIn => MenuEffect::Zoom(ZoomChange::In),
            MenuAction::ZoomOut => MenuEffect::Zoom(ZoomChange::Out),
            MenuAction::ZoomReset => MenuEffect::Zoom(ZoomChange::Reset),
            MenuAction::ToggleHardwareAcceleration => {
                settings.hardware_acceleration = !settings.hardware_acceleration;
                MenuEffect::HardwareAcceleration(settings.hardware_acceleration)
            },
            MenuAction::Import => match self.active_user_closing_overlay() {
                Some(uid) => MenuEffect::OpenImport(uid),
                None => MenuEffect::Nothing,
            },
            MenuAction::Export => match self.active_user_closing_overlay() {
                Some(uid) => MenuEffect::OpenExport(uid),
                None => MenuEffect::Nothing,
            },
            MenuAction::NewFolder => match self.active_user_closing_overlay() {
                Some(uid) => MenuEffect::OpenNewFolder(uid),
                None => MenuEffect::Nothing,
            },
            MenuAction::NewItem(t) => {
                if self.screen != Screen::Vault {
                    self.set_screen(Screen::Vault);
                }
                self.open_overlay = None;
                MenuEffect::NewItem(t)
            },
            MenuAction::CopyUsername => self.copy_from_selection(CopyField::Username),
            MenuAction::CopyPassword => self.copy_from_selection(CopyField::Password),
            MenuAction::CopyTotp => self.copy_from_selection(CopyField::Totp),
            MenuAction::FingerprintPhrase => match self.active_user {
                Some(uid) => MenuEffect::FetchFingerprint(uid),
                None => MenuEffect::Nothing,
            },
            MenuAction::OpenStaticUrl(url) => MenuEffect::LaunchUrl(String::from_str(url)),
            MenuAction::OpenWebVault(path) => match self.web_vault_link(path) {
                Some(url) => MenuEffect::LaunchUrl(url),
                None => MenuEffect::Nothing,
            },
            MenuAction::About => match windows.about_window_id() {
                Some(id) => MenuEffect::Window(WindowCommand::Focus(id)),
                None => MenuEffect::OpenAbout,
            },
        }
    }

    /// Edit-menu copies act on the vault's selection, and only while the
    /// vault screen is up.
    fn copy_from_selection(&self, field: CopyField) -> (e: MenuEffect)
        ensures
            e == (if self.screen == Screen::Vault { MenuEffect::CopySelected(field) } else { MenuEffect::Nothing }),
    {
        if self.screen == Screen::Vault {
            MenuEffect::CopySelected(field)
        } else {
            MenuEffect::Nothing
        }
    }

    /// The fingerprint lookup came back: a phrase closes the overlay and is
    /// shown; no phrase (user not loaded) does nothing.
    pub fn fingerprint_ready(&mut self, phrase: Option<String>) -> (shown: Option<String>)
        ensures
            shown == phrase,
            phrase is Some ==> final(self).open_overlay is None,
            phrase is None ==> final(self).open_overlay == old(self).open_overlay,
            final(self).screen == old(self).screen,
            final(self).active_user == old(self).active_user,
            final(self).sidebar == old(self).sidebar,
            final(self).keeps_data(old(self)),
    {
        if phrase.is_some() {
            self.open_overlay = None;
        }
        phrase
    }
}

/// Window-system events the app reacts to.
#[derive(Debug, Clone, Copy, PartialEq, Eq, Structural)]
pub enum WindowEvent {
    Opened(WindowId),
    CloseRequested(WindowId),
    Closed(WindowId),
    Focused(WindowId),
    Unfocused(WindowId),
    MouseInput(WindowId),
}

/// The caller's part after a window event.
#[derive(Debug, Clone, Copy, PartialEq, Eq, Structural)]
pub enum WindowEffect {
    Nothing,
    Exit,
    Command(WindowCommand),
    /// Fetch the window's native handle and attach the native menu to it.
    AttachNativeMenu(WindowId),
    /// The main window's focus changed: recompute the session-timeout
    /// deadline.
    RefreshSessionDeadline,
    /// A click in the main window counts as activity of the active user.
    RecordActivity,
    /// The launcher lost focus: hide it.
    HideMagnify,
}

/// The command a title-bar action turns into.
pub open spec fn window_action_command(main: WindowId, settings: DesktopSettings, action: WindowAction) -> WindowCommand {
    match action {
        WindowAction::Minimize => if settings.minimize_to_tray {
            WindowCommand::HideToTray(TrayFallback::Minimize)
        } else {
            WindowCommand::Minimize(main)
        },
        WindowAction::Maximize => WindowCommand::ToggleMaximize(main),
        WindowAction::Close => if settings.close_to_tray {
            WindowCommand::HideToTray(TrayFallback::Close)
        } else {
            WindowCommand::Close(main)
        },
        WindowAction::Drag => WindowCommand::Drag(main),
        WindowAction::ResizeEdge(dir) => WindowCommand::DragResize(main, dir),
    }
}

/// The two tray preferences are separate: the Minimize button hides to the
/// tray exactly when minimize-to-tray is on, whatever close-to-tray says,
/// and the Close button exactly when close-to-tray is on, whatever
/// minimize-to-tray says. Without the preference each button acts on the
/// main window, with its own tray fallback otherwise; the other buttons
/// read no preference.
pub proof fn lemma_tray_preferences_are_separate(main: WindowId, st: DesktopSettings, other: bool, action: WindowAction)
    ensures
        (window_action_command(main, st, WindowAction::Minimize) is HideToTray) <==> st.minimize_to_tray,
        (window_action_command(main, st, WindowAction::Close) is HideToTray) <==> st.close_to_tray,
        window_action_command(main, st, WindowAction::Minimize)
            == window_action_command(main, DesktopSettings { close_to_tray: other, ..st }, WindowAction::Minimize),
        window_action_command(main, st, WindowAction::Close)
            == window_action_command(main, DesktopSettings { minimize_to_tray: other, ..st }, WindowAction::Close),
        st.minimize_to_tray ==> window_action_command(main, st, WindowAction::Minimize)
            == WindowCommand::HideToTray(TrayFallback::Minimize),
        !st.minimize_to_tray ==> window_action_command(main, st, WindowAction::Minimize) == WindowCommand::Minimize(main),
        st.close_to_tray ==> window_action_command(main, st, WindowAction::Close)
            == WindowCommand::HideToTray(TrayFallback::Close),
        !st.close_to_tray ==> window_action_command(main, st, WindowAction::Close) == WindowCommand::Close(main),
        !(action is Minimize || action is Close) ==> window_action_command(main, st, action)
            == window_action_command(
                main,
                DesktopSettings { minimize_to_tray: other, close_to_tray: other, ..st },
                action,
            ),
{
}

/// Each Edit-menu copy asks for its own field of the vault's selection:
/// Copy Username the username, Copy Password the password, Copy TOTP the
/// code, each only while the vault screen is up (otherwise nothing), and
/// none of them changes the view or the accounts.
pub proof fn lemma_edit_copies_ask_for_their_field(
    before: &AppState,
    after: &AppState,
    wb: &Windows,
    wa: &Windows,
    sb: DesktopSettings,
    sa: DesktopSettings,
    action: MenuAction,
    e: MenuEffect,
)
    requires
        menu_decision(before, after, wb, wa, sb, sa, action, e),
        action is CopyUsername || action is CopyPassword || action is CopyTotp,
    ensures
        before.screen == Screen::Vault && action is CopyUsername ==> e == MenuEffect::CopySelected(CopyField::Username),
        before.screen == Screen::Vault && action is CopyPassword ==> e == MenuEffect::CopySelected(CopyField::Password),
        before.screen == Screen::Vault && action is CopyTotp ==> e == MenuEffect::CopySelected(CopyField::Totp),
        before.screen != Screen::Vault ==> e is Nothing,
        same_view(after, before),
        after.accounts@ == before.accounts@,
        wa.windows@ == wb.windows@,
        sa == sb,
{
}

impl Windows {
    /// A title-bar button or gesture on the main window. Minimize and close
    /// go to the tray when the matching preference is on; maximize also
    /// flips the recorded flag.
    pub fn handle_window_action(&mut self, settings: &DesktopSettings, action: WindowAction) -> (c: WindowCommand)
        ensures
            c == window_action_command(old(self).main, *settings, action),
            final(self).main == old(self).main,
            final(self).magnify == old(self).magnify,
            final(self).main_focused == old(self).main_focused,
            action is Maximize ==> (match old(self).windows@.get(old(self).main) {
                Some(w) => final(self).windows@ == old(self).windows@.insert(
                    old(self).main,
                    WindowFlag::Maximized.flipped(w),
                ),
                None => final(self).windows@ == old(self).windows@,
            }),
            !(action is Maximize) ==> final(self).windows@ == old(self).windows@,
    {
        let main = self.main;
        match action {
            WindowAction::Minimize => {
                if settings.minimize_to_tray {
                    WindowCommand::HideToTray(TrayFallback::Minimize)
                } else {
                    WindowCommand::Minimize(main)
                }
            },
            WindowAction::Maximize => {
                let _ = self.toggle(main, WindowFlag::Maximized);
                WindowCommand::ToggleMaximize(main)
            },
            WindowAction::Close => {
                if settings.close_to_tray {
                    WindowCommand::HideToTray(TrayFallback::Close)
                } else {
                    WindowCommand::Close(main)
                }
            },
            WindowAction::Drag => WindowCommand::Drag(main),
            WindowAction::ResizeEdge(dir) => WindowCommand::DragResize(main, dir),
        }
    }

    /// React to a window-system event. Closing the main window (from the OS
    /// chrome) follows the same close-to-tray rule as the title bar; other
    /// windows close normally. The app exits when the main window is gone.
    pub fn handle_window_event(&mut self, settings: &DesktopSettings, event: WindowEvent) -> (e: WindowEffect)
        ensures
            final(self).main == old(self).main,
            final(self).magnify == old(self).magnify,
            !(event is Closed) ==> final(self).windows@ == old(self).windows@,
            (match event {
                WindowEvent::Opened(id) => {
                    &&& final(self).main_focused == old(self).main_focused
                    &&& e == (if id == old(self).main { WindowEffect::AttachNativeMenu(id) } else { WindowEffect::Nothing })
                },
                WindowEvent::CloseRequested(id) => {
                    &&& final(self).main_focused == old(self).main_focused
                    &&& e == WindowEffect::Command(if id == old(self).main {
                        window_action_command(old(self).main, *settings, WindowAction::Close)
                    } else {
                        WindowCommand::Close(id)
                    })
                },
                WindowEvent::Closed(id) => {
                    &&& final(self).main_focused == old(self).main_focused
                    &&& final(self).windows@ == old(self).windows@.remove(id)
                    &&& e == (if id == old(self).main { WindowEffect::Exit } else { WindowEffect::Nothing })
                },
                WindowEvent::Focused(id) => if id == old(self).main {
                    final(self).main_focused && e == WindowEffect::RefreshSessionDeadline
                } else {
                    final(self).main_focused == old(self).main_focused && e == WindowEffect::Nothing
                },
                WindowEvent::Unfocused(id) => if id == old(self).magnify {
                    final(self).main_focused == old(self).main_focused && e == WindowEffect::HideMagnify
                } else if id == old(self).main {
                    !final(self).main_focused && e == WindowEffect::RefreshSessionDeadline
                } else {
                    final(self).main_focused == old(self).main_focused && e == WindowEffect::Nothing
                },
                WindowEvent::MouseInput(id) => {
                    &&& final(self).main_focused == old(self).main_focused
                    &&& e == (if id == old(self).main { WindowEffect::RecordActivity } else { WindowEffect::Nothing })
                },
            }),
    {
        match event {
            WindowEvent::Opened(id) => {
                if id == self.main {
                    WindowEffect::AttachNativeMenu(id)
                } else {
                    WindowEffect::Nothing
                }
            },
            WindowEvent::CloseRequested(id) => {
                if id == self.main {
                    WindowEffect::Command(self.handle_window_action(settings, WindowAction::Close))
                } else {
                    WindowEffect::Command(WindowCommand::Close(id))
                }
            },
            WindowEvent::Closed(id) => {
                if self.remove(id) {
                    WindowEffect::Exit
                } else {
                    WindowEffect::Nothing
                }
            },
            WindowEvent::Focused(id) => {
                if id == self.main {
                    self.main_focused = true;
                    WindowEffect::RefreshSessionDeadline
                } else {
                    WindowEffect::Nothing
                }
            },
            WindowEvent::Unfocused(id) => {
                if id == self.magnify {
                    WindowEffect::HideMagnify
                } else if id == self.main {
                    self.main_focused = false;
                    WindowEffect::RefreshSessionDeadline
                } else {
                    WindowEffect::Nothing
                }
            },
            WindowEvent::MouseInput(id) => {
                if id == self.main {
                    WindowEffect::RecordActivity
                } else {
                    WindowEffect::Nothing
                }
            },
        }
    }
}

/// What an account-switcher event does to the session, windows and
/// preferences, from `before`/`wb`/`sb` to `after`/`wa`/`sa`, and the effect
/// handed back.
pub open spec fn switcher_outcome(
    before: &AppState,
    after: &AppState,
    wb: &Windows,
    wa: &Windows,
    sb: DesktopSettings,
    sa: DesktopSettings,
    event: AccountSwitcherEvent,
    e: MenuEffect,
) -> bool {
    &&& wa.main == wb.main
    &&& wa.magnify == wb.magnify
    &&& wa.main_focused == wb.main_focused
    &&& wa.windows@ == wb.windows@
    &&& sa == sb
    &&& after.toasts@ == before.toasts@
    &&& (match event {
        AccountSwitcherEvent::SwitchUser { uid } => {
            &&& after.active_user == Some(uid)
            &&& after.accounts@ == before.accounts@
            &&& after.sidebar == crate::session::sidebar_with_filters_reset(before.sidebar)
            &&& after.open_overlay is None
            &&& before.unlocked_spec(uid) ==> after.screen == Screen::Vault && e == MenuEffect::Route(Route::ShowVault(uid))
            &&& !before.unlocked_spec(uid) ==> after.screen == Screen::Login && e == MenuEffect::Route(Route::ShowLogin)
        },
        AccountSwitcherEvent::AddAccount => {
            &&& after.active_user == before.active_user
            &&& after.accounts@ == before.accounts@
            &&& after.sidebar == before.sidebar
            &&& after.screen == Screen::Login
            &&& after.open_overlay is None
            &&& e == MenuEffect::Route(Route::ShowEmailEntry)
        },
        AccountSwitcherEvent::LockAll => menu_decision(before, after, wb, wa, sb, sa, MenuAction::LockAllVaults, e),
        AccountSwitcherEvent::Settings => menu_decision(before, after, wb, wa, sb, sa, MenuAction::Settings, e),
        AccountSwitcherEvent::LockActive => {
            &&& after.active_user == before.active_user
            &&& after.sidebar == before.sidebar
            &&& (match before.active_user {
                Some(uid) => {
                    &&& after.accounts@ == crate::session::set_locked(before.accounts@, uid, true)
                    &&& after.screen == Screen::Login
                    &&& after.open_overlay is None
                    &&& e == MenuEffect::Route(Route::ShowLogin)
                },
                None => after.accounts@ == before.accounts@ && same_view(after, before) && e is Nothing,
            })
        },
        AccountSwitcherEvent::LogOut => {
            &&& (match before.active_user {
                Some(uid) => after.accounts@ == crate::session::without_user(before.accounts@, uid),
                None => after.accounts@ == before.accounts@,
            })
            &&& (match crate::session::first_other(after.accounts@, before.active_user) {
                Some(next) => {
                    &&& after.active_user == Some(next)
                    &&& after.open_overlay is None
                    &&& after.sidebar == crate::session::sidebar_with_filters_reset(before.sidebar)
                    &&& (after.unlocked_spec(next) ==> after.screen == Screen::Vault
                        && e == MenuEffect::Route(Route::ShowVault(next)))
                    &&& (!after.unlocked_spec(next) ==> after.screen == Screen::Login
                        && e == MenuEffect::Route(Route::ShowLogin))
                },
                None => after.active_user is None && after.screen == Screen::Login
                    && after.sidebar == before.sidebar
                    && e == MenuEffect::Route(Route::ShowEmailEntry),
            })
        },
    })
}

/// "Lock now" on the active account's card locks that account only: after
/// the event it lifts to is handled, every entry of the active user is
/// locked, every other entry is as it was, and the unlock prompt comes up.
/// "Lock all" locks every entry.
pub proof fn lemma_lock_now_locks_only_the_active_user(
    before: &AppState,
    after: &AppState,
    wb: &Windows,
    wa: &Windows,
    sb: DesktopSettings,
    sa: DesktopSettings,
    msg: AccountSwitcherMessage,
    event: AccountSwitcherEvent,
    e: MenuEffect,
    uid: UserId,
)
    requires
        event_of(msg) == Some(event),
        switcher_outcome(before, after, wb, wa, sb, sa, event, e),
        before.active_user == Some(uid),
    ensures
        msg is LockActive ==> {
            &&& after.accounts@.len() == before.accounts@.len()
            &&& forall|k: int| 0 <= k < before.accounts@.len() && before.accounts@[k].user_id != uid
                ==> #[trigger] after.accounts@[k] == before.accounts@[k]
            &&& forall|k: int| 0 <= k < before.accounts@.len() && before.accounts@[k].user_id == uid
                ==> (#[trigger] after.accounts@[k]).locked && after.accounts@[k].user_id == uid
            &&& after.screen == Screen::Login
            &&& e == MenuEffect::Route(Route::ShowLogin)
        },
        msg is LockAll ==> {
            &&& after.accounts@.len() == before.accounts@.len()
            &&& forall|k: int| 0 <= k < after.accounts@.len() ==> (#[trigger] after.accounts@[k]).locked
        },
{
}

impl AppState {
    /// A tray-menu entry: show/hide flips the main window, "lock" locks
    /// every vault as the menu does, "exit" quits.
    pub fn handle_tray_action(&mut self, windows: &mut Windows, settings: &mut DesktopSettings, action: TrayAction) -> (e: MenuEffect)
        ensures
            final(windows).main == old(windows).main,
            final(windows).magnify == old(windows).magnify,
            final(windows).main_focused == old(windows).main_focused,
            final(windows).windows@ == old(windows).windows@,
            *final(settings) == *old(settings),
            final(self).toasts@ == old(self).toasts@,
            final(self).active_user == old(self).active_user,
            final(self).sidebar == old(self).sidebar,
            (match action {
                TrayAction::ToggleShowHide => {
                    &&& same_view(final(self), old(self))
                    &&& final(self).accounts@ == old(self).accounts@
                    &&& e == MenuEffect::Window(WindowCommand::ToggleMainVisibility)
                },
                TrayAction::LockVault => menu_decision(old(self), final(self), old(windows), final(windows), *old(settings), *final(settings), MenuAction::LockAllVaults, e),
                TrayAction::Exit => {
                    &&& same_view(final(self), old(self))
                    &&& final(self).accounts@ == old(self).accounts@
                    &&& e is Exit
                },
            }),
    {
        match action {
            TrayAction::ToggleShowHide => MenuEffect::Window(WindowCommand::ToggleMainVisibility),
            TrayAction::LockVault => self.decide_menu_action(windows, settings, MenuAction::LockAllVaults),
            TrayAction::Exit => MenuEffect::Exit,
        }
    }

    /// Route an account-switcher event (the login and vault screens share
    /// these semantics).
    pub fn handle_account_switcher_event(&mut self, windows: &mut Windows, settings: &mut DesktopSettings, event: AccountSwitcherEvent) -> (e: MenuEffect)
        ensures
            switcher_outcome(old(self), final(self), old(windows), final(windows), *old(settings), *final(settings), event, e),
    {
        match event {
            AccountSwitcherEvent::SwitchUser { uid } => MenuEffect::Route(self.handle_user_switch(uid)),
            AccountSwitcherEvent::AddAccount => MenuEffect::Route(self.add_account()),
            AccountSwitcherEvent::LockAll => self.decide_menu_action(windows, settings, MenuAction::LockAllVaults),
            AccountSwitcherEvent::Settings => self.decide_menu_action(windows, settings, MenuAction::Settings),
            AccountSwitcherEvent::LockActive => match self.active_user {
                Some(uid) => {
                    let _ = self.lock_user(uid);
                    MenuEffect::Route(Route::ShowLogin)
                },
                None => MenuEffect::Nothing,
            },
            AccountSwitcherEvent::LogOut => MenuEffect::Route(self.log_out_active()),
        }
    }
}

/// Where a key press goes.
#[derive(Debug, Clone, Copy, PartialEq, Eq, Structural)]
pub enum KeyRoute {
    /// The launcher handles its own keys ([`crate::magnify::key_command`]).
    Magnify,
    /// Keys of other windows (About) trigger nothing.
    Ignore,
    /// Count the press as activity, then close the settings modal.
    CloseSettings,
    /// Count the press as activity, then look the key up among the menu
    /// shortcuts and, when one matches, hand it to
    /// [`AppState::shortcut_pressed`].
    Shortcut,
}

/// The mode a window gets when its visibility is toggled: a hidden window
/// comes back windowed (and is focused); a shown one, fullscreen included,
/// hides.
pub open spec fn toggled_mode(mode: WindowMode) -> WindowMode {
    match mode {
        WindowMode::Hidden => WindowMode::Windowed,
        _ => WindowMode::Hidden,
    }
}

pub fn toggle_visibility(mode: WindowMode) -> (next: WindowMode)
    ensures
        next == toggled_mode(mode),
{
    match mode {
        WindowMode::Hidden => WindowMode::Windowed,
        WindowMode::Windowed | WindowMode::Fullscreen => WindowMode::Hidden,
    }
}

impl Windows {
    /// Route a key press: the launcher gets its own keys first; shortcuts
    /// fire only on the main window (Ctrl+F in About must not search the
    /// vault); Escape closes an open settings modal before any shortcut.
    pub fn route_key(&self, id: WindowId, escape: bool, settings_open: bool) -> (r: KeyRoute)
        ensures
            r == (if id == self.magnify {
                KeyRoute::Magnify
            } else if id != self.main {
                KeyRoute::Ignore
            } else if escape && settings_open {
                KeyRoute::CloseSettings
            } else {
                KeyRoute::Shortcut
            }),
    {
        if id == self.magnify {
            KeyRoute::Magnify
        } else if id != self.main {
            KeyRoute::Ignore
        } else if escape && settings_open {
            KeyRoute::CloseSettings
        } else {
            KeyRoute::Shortcut
        }
    }
}

impl AppState {
    /// A menu shortcut matched: close any open overlay, then run the action
    /// as the menu would.
    pub fn shortcut_pressed(
        &mut self,
        windows: &mut Windows,
        settings: &mut DesktopSettings,
        texts: &MenuTexts,
        action: MenuAction,
    ) -> (e: MenuEffect)
        ensures
            menu_outcome(
                &(AppState { open_overlay: None, ..*old(self) }),
                final(self),
                old(windows),
                final(windows),
                *old(settings),
                *final(settings),
                *texts,
                action,
                e,
            ),
    {
        self.open_overlay = None;
        self.handle_menu_action(windows, settings, texts, action)
    }
}

/// Buttons of the About window.
#[derive(Debug, Clone, Copy, PartialEq, Eq, Structural)]
pub enum AboutMessage {
    CopyInfo,
    Close,
}

/// What the caller does for an About-window button.
#[derive(Debug, Clone, Copy, PartialEq, Eq, Structural)]
pub enum AboutEffect {
    Nothing,
    /// Put the version information on the clipboard.
    CopyInfo,
    Window(WindowCommand),
}

impl Windows {
    /// "Copy info" copies the version text; "Close" closes the About window
    /// when one is open.
    pub fn handle_about_message(&self, msg: AboutMessage) -> (e: AboutEffect)
        ensures
            e == (match msg {
                AboutMessage::CopyInfo => AboutEffect::CopyInfo,
                AboutMessage::Close => e,
            }),
            msg is Close ==> (
                (e matches AboutEffect::Window(WindowCommand::Close(id))
                    && self.windows@.contains_key(id) && self.windows@[id].kind == WindowKind::About)
                || (e is Nothing && !has_kind(self.windows@, WindowKind::About))),
    {
        match msg {
            AboutMessage::CopyInfo => AboutEffect::CopyInfo,
            AboutMessage::Close => match self.about_window_id() {
                Some(id) => AboutEffect::Window(WindowCommand::Close(id)),
                None => AboutEffect::Nothing,
            },
        }
    }
}

/// App-wide signals not tied to one window.
#[derive(Debug)]
pub enum SystemMessage {
    /// A native-menu or tray item was activated; holds what each menu
    /// resolved the item to (the native menu wins).
    MenuItem { menu: Option<MenuAction>, tray: Option<TrayAction> },
    /// The tray icon was clicked.
    TrayClick(TrayAction),
    /// The OS colour scheme changed.
    ThemeChanged,
    CloseToast(usize),
    /// The user registry finished loading.
    RegistryLoaded(Vec<AccountEntry>),
    /// A second launch asked the primary to show itself.
    InstanceWakeRequested,
    Session(SessionEvent),
    SyncCompleted(Result<(), String>),
    /// The GPU renderer reached its first paint with this backend.
    BackendDiscovered(String),
    /// A session-timeout deadline passed.
    SessionTimeoutCheck,
}

/// The localized texts of the sync toasts.
#[derive(Debug, Clone)]
pub struct SyncTexts {
    pub success_body: String,
    pub failure_body: String,
    pub failure_title: String,
}

/// The caller's part after a system signal.
#[derive(Debug, Clone)]
pub enum SystemEffect {
    Nothing,
    Menu(MenuEffect),
    Route(Route),
    Session(SessionEffect),
    /// Re-read the OS colour scheme.
    RefreshTheme,
    /// Save the backend cache.
    SaveBackendCache,
    /// Run the session-timeout check and apply its plan
    /// ([`AppState::apply_timeout_plan`]).
    CheckTimeouts,
}

impl AppState {
    /// Route a system signal.
    pub fn handle_system_message(
        &mut self,
        windows: &mut Windows,
        settings: &mut DesktopSettings,
        cache: &mut BackendCache,
        lock_on_system_lock: &Vec<UserId>,
        texts: &SyncTexts,
        menu_texts: &MenuTexts,
        msg: SystemMessage,
    ) -> (e: SystemEffect)
        ensures
            !(msg is Session || msg is BackendDiscovered) ==> cache_of(*final(cache)) == cache_of(*old(cache)),
            (match msg {
                SystemMessage::MenuItem { menu: Some(a), .. } => e matches SystemEffect::Menu(m) && menu_outcome(
                    old(self), final(self), old(windows), final(windows), *old(settings), *final(settings),
                    *menu_texts, a, m),
                SystemMessage::MenuItem { menu: None, tray: Some(t) } | SystemMessage::TrayClick(t) => {
                    &&& e matches SystemEffect::Menu(m)
                    &&& final(windows).windows@ == old(windows).windows@
                    &&& *final(settings) == *old(settings)
                    &&& final(self).toasts@ == old(self).toasts@
                    &&& (t is LockVault ==> menu_decision(old(self), final(self), old(windows), final(windows),
                        *old(settings), *final(settings), MenuAction::LockAllVaults, m))
                    &&& (t is ToggleShowHide ==> m == MenuEffect::Window(WindowCommand::ToggleMainVisibility)
                        && same_view(final(self), old(self)) && final(self).accounts@ == old(self).accounts@)
                    &&& (t is Exit ==> m is Exit && same_view(final(self), old(self))
                        && final(self).accounts@ == old(self).accounts@)
                },
                SystemMessage::MenuItem { menu: None, tray: None } | SystemMessage::ThemeChanged
                | SystemMessage::SessionTimeoutCheck => {
                    &&& same_view(final(self), old(self))
                    &&& final(self).accounts@ == old(self).accounts@
                    &&& final(self).toasts@ == old(self).toasts@
                    &&& final(self).active_user == old(self).active_user
                    &&& e == (if msg is ThemeChanged {
                        SystemEffect::RefreshTheme
                    } else if msg is SessionTimeoutCheck {
                        SystemEffect::CheckTimeouts
                    } else {
                        SystemEffect::Nothing
                    })
                },
                SystemMessage::CloseToast(i) => {
                    &&& final(self).toasts@ == (if i < old(self).toasts@.len() {
                        old(self).toasts@.remove(i as int)
                    } else {
                        old(self).toasts@
                    })
                    &&& same_view(final(self), old(self))
                    &&& final(self).accounts@ == old(self).accounts@
                    &&& e is Nothing
                },
                SystemMessage::RegistryLoaded(accounts) => {
                    &&& final(self).accounts@ == accounts@
                    &&& final(self).active_user == (if accounts@.len() > 0 { Some(accounts@[0].user_id) } else { None })
                    &&& final(self).screen == Screen::Login
                    &&& e == SystemEffect::Route(Route::ShowLogin)
                },
                SystemMessage::InstanceWakeRequested => {
                    &&& same_view(final(self), old(self))
                    &&& final(self).accounts@ == old(self).accounts@
                    &&& e == SystemEffect::Menu(MenuEffect::Window(WindowCommand::Show(old(windows).main)))
                },
                SystemMessage::Session(ev) => {
                    &&& cache_of(*final(cache)) == cache_of(*old(cache))
                    &&& final(self).active_user == old(self).active_user
                    &&& final(self).toasts@ == old(self).toasts@
                    &&& e matches SystemEffect::Session(se) && se == (match ev {
                        SessionEvent::Suspended => SessionEffect::Suspended(
                            if old(self).active_user matches Some(a) && lock_on_system_lock@.contains(a) {
                                Route::ShowLogin
                            } else {
                                Route::Stay
                            },
                        ),
                        SessionEvent::Locked => SessionEffect::Locked(
                            if old(self).active_user matches Some(a) && lock_on_system_lock@.contains(a) {
                                Route::ShowLogin
                            } else {
                                Route::Stay
                            },
                        ),
                        SessionEvent::Resumed => SessionEffect::Resumed,
                        SessionEvent::Unlocked => SessionEffect::Nothing,
                    })
                    &&& ((ev is Suspended || ev is Locked) ==> final(self).accounts@
                        == crate::session::lock_listed(old(self).accounts@, lock_on_system_lock@))
                    &&& ((ev is Resumed || ev is Unlocked) ==> final(self).accounts@ == old(self).accounts@
                        && same_view(final(self), old(self)))
                },
                SystemMessage::SyncCompleted(r) => {
                    &&& final(self).toasts@.len() == old(self).toasts@.len() + 1
                    &&& final(self).toasts@.drop_last() == old(self).toasts@
                    &&& (r is Ok ==> final(self).toasts@.last().built(
                        crate::toast::ToastStatus::Success, texts.success_body, None))
                    &&& (r is Err ==> final(self).toasts@.last().status == crate::toast::ToastStatus::Error
                        && final(self).toasts@.last().body@ == texts.failure_body@
                        && final(self).toasts@.last().title@ == texts.failure_title@)
                    &&& same_view(final(self), old(self))
                    &&& e is Nothing
                },
                SystemMessage::BackendDiscovered(name) => {
                    let (after, saved) = after_paint(cache_of(*old(cache)), lowercase(name@));
                    &&& cache_of(*final(cache)) == after
                    &&& same_view(final(self), old(self))
                    &&& final(self).accounts@ == old(self).accounts@
                    &&& e == (if saved { SystemEffect::SaveBackendCache } else { SystemEffect::Nothing })
                },
            }),
    {
        match msg {
            SystemMessage::MenuItem { menu, tray } => match menu {
                Some(a) => SystemEffect::Menu(self.handle_menu_action(windows, settings, menu_texts, a)),
                None => match tray {
                    Some(t) => SystemEffect::Menu(self.handle_tray_action(windows, settings, t)),
                    None => SystemEffect::Nothing,
                },
            },
            SystemMessage::TrayClick(t) => SystemEffect::Menu(self.handle_tray_action(windows, settings, t)),
            SystemMessage::ThemeChanged => SystemEffect::RefreshTheme,
            SystemMessage::CloseToast(i) => {
                self.close_toast(i);
                SystemEffect::Nothing
            },
            SystemMessage::RegistryLoaded(accounts) => SystemEffect::Route(self.registry_loaded(accounts)),
            SystemMessage::InstanceWakeRequested => SystemEffect::Menu(MenuEffect::Window(WindowCommand::Show(windows.main))),
            SystemMessage::Session(ev) => SystemEffect::Session(self.handle_session_event(ev, lock_on_system_lock)),
            SystemMessage::SyncCompleted(r) => {
                self.sync_completed(
                    r,
                    texts.success_body.clone(),
                    texts.failure_body.clone(),
                    texts.failure_title.as_str(),
                );
                SystemEffect::Nothing
            },
            SystemMessage::BackendDiscovered(name) => {
                if backend_discovered(name.as_str(), cache) {
                    SystemEffect::SaveBackendCache
                } else {
                    SystemEffect::Nothing
                }
            },
            SystemMessage::SessionTimeoutCheck => SystemEffect::CheckTimeouts,
        }
    }
}

} // verus!
