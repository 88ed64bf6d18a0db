//! App-level session state: who is signed in, who is active, which screen
//! is up, the sidebar, the open overlay and the toast queue — and the
//! decisions every app-level handler makes on it. The caller performs the
//! returned effect (focus, SDK loads, window operations).

use vstd::prelude::*;

use crate::account_switcher::AccountSwitcherEvent;
use crate::ctx::{Overlay, PushToast};
use crate::domain::{Screen, UserId};
use crate::sidebar::{
    default_sidebar, NavSection, SendFilter, SidebarMessage, SidebarState, VaultFilter,
};
use crate::toast::Toast;

verus! {

/// One signed-in user as the account switcher shows it.
#[derive(Debug, Clone)]
pub struct AccountEntry {
    pub user_id: UserId,
    pub email: String,
    pub server_url: String,
    /// The user's keystore is locked (no decrypted key in memory).
    pub locked: bool,
}

impl AccountEntry {
    pub fn copy_entry(&self) -> (r: Self)
        ensures
            r == *self,
    {
        AccountEntry {
            user_id: self.user_id,
            email: self.email.clone(),
            server_url: self.server_url.clone(),
            locked: self.locked,
        }
    }
}

/// Navigation the caller completes after a handler ran.
#[derive(Debug, Clone, Copy, PartialEq, Eq, Structural)]
pub enum Route {
    /// Nothing to do.
    Stay,
    /// Login screen with the active user's unlock prompt: drop the
    /// launcher's sticky search ([`crate::magnify::MagnifyState::reset_sticky`])
    /// and focus the prompt.
    ShowLogin,
    /// Login screen reset to the email-entry step; focus it.
    ShowEmailEntry,
    /// Vault screen for the user just switched to: drop the launcher's
    /// sticky search, load the user's vault and send lists and focus the
    /// search input.
    ShowVault(UserId),
    /// Reload the user's vault list.
    LoadVaultList(UserId),
}

/// Outcome of a request to show a list screen (Vault or Send).
#[derive(Debug, Clone, Copy, PartialEq, Eq, Structural)]
pub enum ListTransition {
    /// Already on the target: refocus its search input, keeping the query.
    AutoFocus(Screen),
    /// Not on a list screen (login, loading): the screen stays.
    Stay,
    /// Switched to `screen`; load its list for `load_for` (when a user is
    /// active) and focus its search input.
    Switched { screen: Screen, load_for: Option<UserId> },
}

/// What the caller does after a sidebar message.
#[derive(Debug, Clone, Copy, PartialEq, Eq, Structural)]
pub enum SidebarEffect {
    Nothing,
    /// Open a modal for the active user (the overlay has closed).
    OpenGenerator(UserId),
    OpenImport(UserId),
    OpenExport(UserId),
    /// Apply the newly selected filter for `filter_for` (when a user is
    /// active), then complete `transition`.
    List { filter_for: Option<UserId>, transition: ListTransition },
}

/// What the login view reports to the app.
#[derive(Debug, Clone)]
pub enum LoginEvent {
    Unlocked { uid: UserId },
    LoggedIn { uid: UserId },
    SignOutRequested,
    UserSelected { uid: UserId },
    ToastRequested(Toast),
}

/// Menu-state snapshot for the native menu / title bar enablement.
#[derive(Debug, Clone, Copy, PartialEq, Eq, Structural)]
pub struct MenuState {
    pub is_locked: bool,
    pub has_accounts: bool,
    pub has_lockable_accounts: bool,
}

pub struct AppState {
    pub active_user: Option<UserId>,
    pub screen: Screen,
    /// Persists across screen transitions.
    pub sidebar: SidebarState,
    /// Source of truth for which dropdown/menu is open.
    pub open_overlay: Option<Overlay>,
    pub toasts: Vec<Toast>,
    /// Signed-in users, in registry order.
    pub accounts: Vec<AccountEntry>,
}

// ── Registry specs ─────────────────────────────────────────────────────────

pub open spec fn has_user(accounts: Seq<AccountEntry>, uid: UserId) -> bool {
    exists|i: int| 0 <= i < accounts.len() && #[trigger] accounts[i].user_id == uid
}

pub open spec fn unlocked_in(accounts: Seq<AccountEntry>, uid: UserId) -> bool {
    exists|i: int| 0 <= i < accounts.len() && #[trigger] accounts[i].user_id == uid && !accounts[i].locked
}

pub open spec fn any_unlocked(accounts: Seq<AccountEntry>) -> bool {
    exists|i: int| 0 <= i < accounts.len() && !(#[trigger] accounts[i]).locked
}

pub open spec fn with_lock(e: AccountEntry, locked: bool) -> AccountEntry {
    AccountEntry { user_id: e.user_id, email: e.email, server_url: e.server_url, locked }
}

/// The registry with every entry of `uid` set to `locked`.
pub open spec fn set_locked(accounts: Seq<AccountEntry>, uid: UserId, locked: bool) -> Seq<AccountEntry> {
    Seq::new(
        accounts.len(),
        |i: int| if accounts[i].user_id == uid { with_lock(accounts[i], locked) } else { accounts[i] },
    )
}

/// The registry with every user locked.
pub open spec fn all_locked(accounts: Seq<AccountEntry>) -> Seq<AccountEntry> {
    Seq::new(accounts.len(), |i: int| with_lock(accounts[i], true))
}

/// The registry without `uid`.
pub open spec fn without_user(accounts: Seq<AccountEntry>, uid: UserId) -> Seq<AccountEntry> {
    accounts.filter(|e: AccountEntry| e.user_id != uid)
}

/// The first registered user other than `uid`.
pub open spec fn first_other(accounts: Seq<AccountEntry>, uid: Option<UserId>) -> Option<UserId>
    decreases accounts.len(),
{
    if accounts.len() == 0 {
        None
    } else if Some(accounts[0].user_id) != uid {
        Some(accounts[0].user_id)
    } else {
        first_other(accounts.drop_first(), uid)
    }
}

pub open spec fn sidebar_with_filters_reset(s: SidebarState) -> SidebarState {
    SidebarState {
        active_vault_filter: VaultFilter::AllItems,
        active_send_filter: SendFilter::AllItems,
        ..s
    }
}

pub open spec fn is_list_screen(s: Screen) -> bool {
    s == Screen::Vault || s == Screen::Send
}

impl AppState {
    /// The state before the user registry has loaded.
    pub open spec fn initial_spec(self) -> bool {
        &&& self.active_user is None
        &&& self.screen == Screen::Loading
        &&& self.sidebar == default_sidebar()
        &&& self.open_overlay is None
        &&& self.toasts@.len() == 0
        &&& self.accounts@.len() == 0
    }

    pub fn new() -> (s: Self)
        ensures
            s.initial_spec(),
    {
        AppState {
            active_user: None,
            screen: Screen::Loading,
            sidebar: SidebarState::default(),
            open_overlay: None,
            toasts: Vec::new(),
            accounts: Vec::new(),
        }
    }

    pub open spec fn unlocked_spec(&self, uid: UserId) -> bool {
        unlocked_in(self.accounts@, uid)
    }

    /// `uid` is signed in and its keystore is unlocked.
    pub fn is_unlocked(&self, uid: UserId) -> (r: bool)
        ensures
            r == self.unlocked_spec(uid),
    {
        let mut i: usize = 0;
        while i < self.accounts.len()
            invariant
                i <= self.accounts@.len(),
                forall|k: int| 0 <= k < i ==> !(#[trigger] self.accounts@[k].user_id == uid && !self.accounts@[k].locked),
            decreases self.accounts@.len() - i,
        {
            if self.accounts[i].user_id == uid && !self.accounts[i].locked {
                return true;
            }
            i = i + 1;
        }
        false
    }

    /// `uid` is signed in.
    pub fn has_user(&self, uid: UserId) -> (r: bool)
        ensures
            r == has_user(self.accounts@, uid),
    {
        let mut i: usize = 0;
        while i < self.accounts.len()
            invariant
                i <= self.accounts@.len(),
                forall|k: int| 0 <= k < i ==> #[trigger] self.accounts@[k].user_id != uid,
            decreases self.accounts@.len() - i,
        {
            if self.accounts[i].user_id == uid {
                return true;
            }
            i = i + 1;
        }
        false
    }

    pub fn has_unlocked_users(&self) -> (r: bool)
        ensures
            r == any_unlocked(self.accounts@),
    {
        let mut i: usize = 0;
        while i < self.accounts.len()
            invariant
                i <= self.accounts@.len(),
                forall|k: int| 0 <= k < i ==> (#[trigger] self.accounts@[k]).locked,
            decreases self.accounts@.len() - i,
        {
            if !self.accounts[i].locked {
                return true;
            }
            i = i + 1;
        }
        false
    }

    /// Which menu entries apply: locked when no unlocked user is active.
    pub fn menu_state(&self) -> (m: MenuState)
        ensures
            m.has_accounts == (self.accounts@.len() > 0),
            m.is_locked == (match self.active_user {
                Some(uid) => !self.unlocked_spec(uid),
                None => true,
            }),
            m.has_lockable_accounts == any_unlocked(self.accounts@),
    {
        let has_accounts = self.accounts.len() > 0;
        let is_locked = match self.active_user {
            Some(uid) => !self.is_unlocked(uid),
            None => true,
        };
        let has_lockable_accounts = self.has_unlocked_users();
        MenuState { is_locked, has_accounts, has_lockable_accounts }
    }

    /// Modal-open preamble: close the overlay and return the active user,
    /// or `None` (touching nothing) when nobody is active.
    pub fn active_user_closing_overlay(&mut self) -> (r: Option<UserId>)
        ensures
            r == old(self).active_user,
            r is Some ==> final(self).open_overlay is None,
            r is None ==> final(self).open_overlay == old(self).open_overlay,
            final(self).screen == old(self).screen,
            final(self).active_user == old(self).active_user,
            final(self).sidebar == old(self).sidebar,
            final(self).toasts@ == old(self).toasts@,
            final(self).accounts@ == old(self).accounts@,
    {
        let uid = self.active_user;
        if uid.is_some() {
            self.open_overlay = None;
        }
        uid
    }

    /// Assign a new screen and drop whatever overlay was open.
    pub fn set_screen(&mut self, screen: Screen)
        ensures
            final(self).screen == screen,
            final(self).open_overlay is None,
            final(self).active_user == old(self).active_user,
            final(self).sidebar == old(self).sidebar,
            final(self).toasts@ == old(self).toasts@,
            final(self).accounts@ == old(self).accounts@,
    {
        self.screen = screen;
        self.open_overlay = None;
    }

    /// Dismiss toast `index`; out-of-range indices (a toast already gone)
    /// are ignored.
    pub fn close_toast(&mut self, index: usize)
        ensures
            final(self).toasts@ == (if index < old(self).toasts@.len() {
                old(self).toasts@.remove(index as int)
            } else {
                old(self).toasts@
            }),
            final(self).screen == old(self).screen,
            final(self).active_user == old(self).active_user,
            final(self).open_overlay == old(self).open_overlay,
            final(self).accounts@ == old(self).accounts@,
    {
        if index < self.toasts.len() {
            self.toasts.remove(index);
        }
    }
}

impl AppState {
    /// Unchanged registry and toasts: the frame every routing handler
    /// keeps.
    pub open spec fn keeps_data(&self, old: &AppState) -> bool {
        &&& self.toasts@ == old.toasts@
        &&& self.accounts@ == old.accounts@
    }

    /// Route to the active user's unlock prompt.
    pub fn show_login_for_active(&mut self) -> (r: Route)
        ensures
            r == Route::ShowLogin,
            final(self).screen == Screen::Login,
            final(self).open_overlay is None,
            final(self).active_user == old(self).active_user,
            final(self).sidebar == old(self).sidebar,
            final(self).keeps_data(old(self)),
    {
        self.set_screen(Screen::Login);
        Route::ShowLogin
    }

    /// Switch the active user: both list filters reset, then the vault when
    /// the user is unlocked, else their unlock prompt.
    pub fn handle_user_switch(&mut self, uid: UserId) -> (r: Route)
        ensures
            final(self).active_user == Some(uid),
            final(self).sidebar == sidebar_with_filters_reset(old(self).sidebar),
            final(self).open_overlay is None,
            final(self).keeps_data(old(self)),
            old(self).unlocked_spec(uid) ==> final(self).screen == Screen::Vault && r == Route::ShowVault(uid),
            !old(self).unlocked_spec(uid) ==> final(self).screen == Screen::Login && r == Route::ShowLogin,
    {
        self.active_user = Some(uid);
        self.sidebar.active_vault_filter = VaultFilter::AllItems;
        self.sidebar.active_send_filter = SendFilter::AllItems;
        if !self.is_unlocked(uid) {
            self.show_login_for_active()
        } else {
            self.set_screen(Screen::Vault);
            Route::ShowVault(uid)
        }
    }

    /// Set the lock flag of every entry of `uid`.
    fn set_user_locked(&mut self, uid: UserId, locked: bool)
        ensures
            final(self).accounts@ == set_locked(old(self).accounts@, uid, locked),
            final(self).toasts@ == old(self).toasts@,
            final(self).active_user == old(self).active_user,
            final(self).screen == old(self).screen,
            final(self).open_overlay == old(self).open_overlay,
            final(self).sidebar == old(self).sidebar,
    {
        let ghost start = self.accounts@;
        let mut i: usize = 0;
        while i < self.accounts.len()
            invariant
                self.accounts@.len() == start.len(),
                i <= start.len(),
                forall|k: int| 0 <= k < i ==> #[trigger] self.accounts@[k] == set_locked(start, uid, locked)[k],
                forall|k: int| i <= k < start.len() ==> #[trigger] self.accounts@[k] == start[k],
                self.toasts@ == old(self).toasts@,
                self.active_user == old(self).active_user,
                self.screen == old(self).screen,
                self.open_overlay == old(self).open_overlay,
                self.sidebar == old(self).sidebar,
            decreases start.len() - i,
        {
            if self.accounts[i].user_id == uid {
                self.accounts[i].locked = locked;
            }
            i = i + 1;
        }
        assert(self.accounts@ =~= set_locked(start, uid, locked));
    }

    /// Lock a user's keystore. When `uid` is the active user the screen
    /// routes to their unlock prompt (returns `true`); otherwise the lock is
    /// silent.
    pub fn lock_user(&mut self, uid: UserId) -> (shown: bool)
        ensures
            final(self).accounts@ == set_locked(old(self).accounts@, uid, true),
            final(self).toasts@ == old(self).toasts@,
            final(self).active_user == old(self).active_user,
            final(self).sidebar == old(self).sidebar,
            shown == (old(self).active_user == Some(uid)),
            shown ==> final(self).screen == Screen::Login && final(self).open_overlay is None,
            !shown ==> final(self).screen == old(self).screen && final(self).open_overlay == old(self).open_overlay,
    {
        self.set_user_locked(uid, true);
        if self.active_user == Some(uid) {
            self.show_login_for_active();
            true
        } else {
            false
        }
    }

    /// Lock every signed-in user. The unlock prompt comes up when the
    /// active user is among them (returns `true`).
    pub fn lock_all(&mut self) -> (shown: bool)
        ensures
            final(self).accounts@ == all_locked(old(self).accounts@),
            final(self).toasts@ == old(self).toasts@,
            final(self).active_user == old(self).active_user,
            final(self).sidebar == old(self).sidebar,
            shown == (old(self).active_user matches Some(a) && has_user(old(self).accounts@, a)),
            shown ==> final(self).screen == Screen::Login && final(self).open_overlay is None,
            !shown ==> final(self).screen == old(self).screen && final(self).open_overlay == old(self).open_overlay,
    {
        let ghost start = self.accounts@;
        let mut shown = false;
        let mut i: usize = 0;
        while i < self.accounts.len()
            invariant
                self.accounts@.len() == start.len(),
                i <= start.len(),
                forall|k: int| 0 <= k < start.len() ==> #[trigger] self.accounts@[k].user_id == start[k].user_id,
                forall|k: int| 0 <= k < i ==> #[trigger] self.accounts@[k] == with_lock(start[k], true),
                forall|k: int| i <= k < start.len() ==> #[trigger] self.accounts@[k] == start[k],
                self.toasts@ == old(self).toasts@,
                self.active_user == old(self).active_user,
                self.sidebar == old(self).sidebar,
                shown == (self.active_user matches Some(a) && exists|k: int| 0 <= k < i && #[trigger] start[k].user_id == a),
                shown ==> self.screen == Screen::Login && self.open_overlay is None,
                !shown ==> self.screen == old(self).screen && self.open_overlay == old(self).open_overlay,
            decreases start.len() - i,
        {
            self.accounts[i].locked = true;
            if self.active_user == Some(self.accounts[i].user_id) {
                self.set_screen(Screen::Login);
                shown = true;
            }
            i = i + 1;
        }
        assert(self.accounts@ =~= all_locked(start));
        shown
    }

    /// A successful unlock of `uid` lands: the keystore is marked unlocked;
    /// if `uid` is still the active user the vault screen comes up and its
    /// list loads, otherwise the stale completion is dropped.
    pub fn unlock_succeeded(&mut self, uid: UserId) -> (r: Route)
        ensures
            final(self).accounts@ == set_locked(old(self).accounts@, uid, false),
            final(self).toasts@ == old(self).toasts@,
            final(self).active_user == old(self).active_user,
            final(self).sidebar == old(self).sidebar,
            final(self).open_overlay == old(self).open_overlay,
            old(self).active_user == Some(uid) ==> final(self).screen == Screen::Vault && r == Route::LoadVaultList(uid),
            old(self).active_user != Some(uid) ==> final(self).screen == old(self).screen && r == Route::Stay,
    {
        self.set_user_locked(uid, false);
        if self.active_user != Some(uid) {
            return Route::Stay;
        }
        self.screen = Screen::Vault;
        Route::LoadVaultList(uid)
    }

    /// Open the login view on its email-entry step (add another account).
    pub fn add_account(&mut self) -> (r: Route)
        ensures
            r == Route::ShowEmailEntry,
            final(self).screen == Screen::Login,
            final(self).open_overlay is None,
            final(self).active_user == old(self).active_user,
            final(self).sidebar == old(self).sidebar,
            final(self).keeps_data(old(self)),
    {
        self.set_screen(Screen::Login);
        Route::ShowEmailEntry
    }

    /// The first registered user other than `uid`.
    pub fn first_other_user(&self, uid: Option<UserId>) -> (r: Option<UserId>)
        ensures
            r == first_other(self.accounts@, uid),
    {
        let mut i: usize = 0;
        assert(self.accounts@.skip(0) =~= self.accounts@);
        while i < self.accounts.len()
            invariant
                i <= self.accounts@.len(),
                first_other(self.accounts@, uid) == first_other(self.accounts@.skip(i as int), uid),
            decreases self.accounts@.len() - i,
        {
            assert(self.accounts@.skip(i as int).drop_first() =~= self.accounts@.skip(i + 1));
            if Some(self.accounts[i].user_id) != uid {
                return Some(self.accounts[i].user_id);
            }
            i = i + 1;
        }
        None
    }

    /// Hand the session to the first other signed-in user, or to the empty
    /// login when nobody else is signed in.
    pub fn hand_off_from_active(&mut self) -> (r: Route)
        ensures
            final(self).keeps_data(old(self)),
            (match first_other(old(self).accounts@, old(self).active_user) {
                Some(next) => {
                    &&& final(self).active_user == Some(next)
                    &&& final(self).sidebar == sidebar_with_filters_reset(old(self).sidebar)
                    &&& final(self).open_overlay is None
                    &&& (old(self).unlocked_spec(next) ==> final(self).screen == Screen::Vault && r == Route::ShowVault(next))
                    &&& (!old(self).unlocked_spec(next) ==> final(self).screen == Screen::Login && r == Route::ShowLogin)
                },
                None => {
                    &&& final(self).active_user is None
                    &&& final(self).screen == Screen::Login
                    &&& final(self).sidebar == old(self).sidebar
                    &&& final(self).open_overlay == old(self).open_overlay
                    &&& r == Route::ShowEmailEntry
                },
            }),
    {
        match self.first_other_user(self.active_user) {
            Some(next) => self.handle_user_switch(next),
            None => {
                self.active_user = None;
                self.screen = Screen::Login;
                Route::ShowEmailEntry
            },
        }
    }

    /// Sign `uid` out: drop it from the registry.
    pub fn log_out_user(&mut self, uid: UserId)
        ensures
            final(self).accounts@ == without_user(old(self).accounts@, uid),
            final(self).toasts@ == old(self).toasts@,
            final(self).active_user == old(self).active_user,
            final(self).screen == old(self).screen,
            final(self).sidebar == old(self).sidebar,
            final(self).open_overlay == old(self).open_overlay,
    {
        let ghost start = self.accounts@;
        let mut kept: Vec<AccountEntry> = Vec::new();
        let mut i: usize = 0;
        while i < self.accounts.len()
            invariant
                self.accounts@ == start,
                i <= start.len(),
                kept@ == start.take(i as int).filter(|e: AccountEntry| e.user_id != uid),
            decreases start.len() - i,
        {
            assert(start.take(i + 1).drop_last() =~= start.take(i as int));
            assert(start.take(i + 1).last() == start[i as int]);
            reveal_with_fuel(Seq::filter, 1);
            if self.accounts[i].user_id != uid {
                kept.push(self.accounts[i].copy_entry());
            }
            i = i + 1;
        }
        assert(start.take(start.len() as int) =~= start);
        self.accounts = kept;
    }

    /// Sign the active user out and hand the session to the next user.
    pub fn log_out_active(&mut self) -> (r: Route)
        ensures
            final(self).toasts@ == old(self).toasts@,
            (match old(self).active_user {
                Some(uid) => final(self).accounts@ == without_user(old(self).accounts@, uid),
                None => final(self).accounts@ == old(self).accounts@,
            }),
            (match first_other(final(self).accounts@, old(self).active_user) {
                Some(next) => {
                    &&& final(self).active_user == Some(next)
                    &&& final(self).open_overlay is None
                    &&& final(self).sidebar == sidebar_with_filters_reset(old(self).sidebar)
                    &&& (final(self).unlocked_spec(next) ==> final(self).screen == Screen::Vault && r == Route::ShowVault(next))
                    &&& (!final(self).unlocked_spec(next) ==> final(self).screen == Screen::Login && r == Route::ShowLogin)
                },
                None => {
                    &&& final(self).active_user is None
                    &&& final(self).screen == Screen::Login
                    &&& final(self).sidebar == old(self).sidebar
                    &&& r == Route::ShowEmailEntry
                },
            }),
    {
        if let Some(uid) = self.active_user {
            self.log_out_user(uid);
        }
        self.hand_off_from_active()
    }

    /// The user registry finished loading: the first user becomes active and
    /// the unlock prompt comes up.
    pub fn registry_loaded(&mut self, accounts: Vec<AccountEntry>) -> (r: Route)
        ensures
            final(self).accounts@ == accounts@,
            final(self).active_user == (if accounts@.len() > 0 { Some(accounts@[0].user_id) } else { None }),
            final(self).screen == Screen::Login,
            final(self).open_overlay is None,
            final(self).toasts@ == old(self).toasts@,
            final(self).sidebar == old(self).sidebar,
            r == Route::ShowLogin,
    {
        self.active_user = if accounts.len() > 0 { Some(accounts[0].user_id) } else { None };
        self.accounts = accounts;
        self.show_login_for_active()
    }
}

/// The list transition a request to show `target` makes from `screen`.
pub open spec fn list_transition(screen: Screen, target: Screen, active: Option<UserId>) -> ListTransition {
    if screen == target {
        ListTransition::AutoFocus(target)
    } else if !is_list_screen(screen) {
        ListTransition::Stay
    } else {
        ListTransition::Switched { screen: target, load_for: active }
    }
}

impl AppState {
    /// Show a list screen (Vault or Send). Same-screen requests only
    /// refocus (the query is kept); from login or loading the screen never
    /// flips underneath the login flow.
    pub fn switch_to_list_screen(&mut self, target: Screen) -> (t: ListTransition)
        requires
            is_list_screen(target),
        ensures
            t == list_transition(old(self).screen, target, old(self).active_user),
            t is Switched ==> final(self).screen == target && final(self).open_overlay is None,
            !(t is Switched) ==> final(self).screen == old(self).screen && final(self).open_overlay == old(self).open_overlay,
            final(self).active_user == old(self).active_user,
            final(self).sidebar == old(self).sidebar,
            final(self).keeps_data(old(self)),
    {
        if self.screen == target {
            return ListTransition::AutoFocus(target);
        }
        if !(self.screen == Screen::Vault || self.screen == Screen::Send) {
            return ListTransition::Stay;
        }
        self.set_screen(target);
        ListTransition::Switched { screen: target, load_for: self.active_user }
    }

    /// Route a sidebar message: toggles flip their flag, section clicks
    /// switch between Vault and Send or open a modal, filter picks are
    /// stored and shown on their screen.
    pub fn handle_sidebar_message(&mut self, msg: SidebarMessage) -> (e: SidebarEffect)
        ensures
            final(self).active_user == old(self).active_user,
            final(self).keeps_data(old(self)),
            (match msg {
                SidebarMessage::ToggleSidebarMode => {
                    &&& final(self).sidebar == SidebarState { mode: old(self).sidebar.mode.flipped(), ..old(self).sidebar }
                    &&& final(self).screen == old(self).screen
                    &&& e == SidebarEffect::Nothing
                },
                SidebarMessage::ToggleVaultTree => {
                    &&& final(self).sidebar == SidebarState { vault_tree_open: !old(self).sidebar.vault_tree_open, ..old(self).sidebar }
                    &&& final(self).screen == old(self).screen
                    &&& e == SidebarEffect::Nothing
                },
                SidebarMessage::ToggleSendTree => {
                    &&& final(self).sidebar == SidebarState { send_tree_open: !old(self).sidebar.send_tree_open, ..old(self).sidebar }
                    &&& final(self).screen == old(self).screen
                    &&& e == SidebarEffect::Nothing
                },
                SidebarMessage::SectionSelected(NavSection::Vault) => {
                    &&& final(self).sidebar == SidebarState { active_section: NavSection::Vault, ..old(self).sidebar }
                    &&& e == SidebarEffect::List {
                        filter_for: None,
                        transition: list_transition(old(self).screen, Screen::Vault, old(self).active_user),
                    }
                },
                SidebarMessage::SectionSelected(NavSection::Send) => {
                    &&& final(self).sidebar == SidebarState { active_section: NavSection::Send, ..old(self).sidebar }
                    &&& e == SidebarEffect::List {
                        filter_for: None,
                        transition: list_transition(old(self).screen, Screen::Send, old(self).active_user),
                    }
                },
                SidebarMessage::SectionSelected(NavSection::Generator) => {
                    &&& final(self).sidebar == old(self).sidebar
                    &&& final(self).screen == old(self).screen
                    &&& (match old(self).active_user {
                        Some(uid) => final(self).open_overlay is None && e == SidebarEffect::OpenGenerator(uid),
                        None => final(self).open_overlay == old(self).open_overlay && e is Nothing,
                    })
                },
                SidebarMessage::SectionSelected(NavSection::Import) => {
                    &&& final(self).sidebar == old(self).sidebar
                    &&& final(self).screen == old(self).screen
                    &&& (match old(self).active_user {
                        Some(uid) => final(self).open_overlay is None && e == SidebarEffect::OpenImport(uid),
                        None => final(self).open_overlay == old(self).open_overlay && e is Nothing,
                    })
                },
                SidebarMessage::SectionSelected(NavSection::Export) => {
                    &&& final(self).sidebar == old(self).sidebar
                    &&& final(self).screen == old(self).screen
                    &&& (match old(self).active_user {
                        Some(uid) => final(self).open_overlay is None && e == SidebarEffect::OpenExport(uid),
                        None => final(self).open_overlay == old(self).open_overlay && e is Nothing,
                    })
                },
                SidebarMessage::VaultFilterSelected(f) => {
                    &&& final(self).sidebar == SidebarState {
                        active_vault_filter: f,
                        active_section: NavSection::Vault,
                        ..old(self).sidebar
                    }
                    &&& e == SidebarEffect::List {
                        filter_for: old(self).active_user,
                        transition: list_transition(old(self).screen, Screen::Vault, old(self).active_user),
                    }
                },
                SidebarMessage::SendFilterSelected(f) => {
                    &&& final(self).sidebar == SidebarState {
                        active_send_filter: f,
                        active_section: NavSection::Send,
                        ..old(self).sidebar
                    }
                    &&& e == SidebarEffect::List {
                        filter_for: old(self).active_user,
                        transition: list_transition(old(self).screen, Screen::Send, old(self).active_user),
                    }
                },
            }),
            e matches SidebarEffect::List { transition, .. } && transition is Switched
                ==> final(self).open_overlay is None && is_list_screen(final(self).screen),
            e matches SidebarEffect::List { transition, .. } && !(transition is Switched)
                ==> final(self).screen == old(self).screen && final(self).open_overlay == old(self).open_overlay,
            !(e is List || e is OpenGenerator || e is OpenImport || e is OpenExport)
                ==> final(self).open_overlay == old(self).open_overlay,
    {
        match msg {
            SidebarMessage::ToggleSidebarMode => {
                self.sidebar.mode = self.sidebar.mode.flip();
                SidebarEffect::Nothing
            },
            SidebarMessage::ToggleVaultTree => {
                self.sidebar.vault_tree_open = !self.sidebar.vault_tree_open;
                SidebarEffect::Nothing
            },
            SidebarMessage::ToggleSendTree => {
                self.sidebar.send_tree_open = !self.sidebar.send_tree_open;
                SidebarEffect::Nothing
            },
            SidebarMessage::SectionSelected(section) => match section {
                NavSection::Vault => {
                    self.sidebar.active_section = section;
                    let t = self.switch_to_list_screen(Screen::Vault);
                    SidebarEffect::List { filter_for: None, transition: t }
                },
                NavSection::Send => {
                    self.sidebar.active_section = section;
                    let t = self.switch_to_list_screen(Screen::Send);
                    SidebarEffect::List { filter_for: None, transition: t }
                },
                // Modal, not a screen: the highlight keeps tracking the
                // screen the user returns to.
                NavSection::Generator => match self.active_user_closing_overlay() {
                    Some(uid) => SidebarEffect::OpenGenerator(uid),
                    None => SidebarEffect::Nothing,
                },
                NavSection::Import => match self.active_user_closing_overlay() {
                    Some(uid) => SidebarEffect::OpenImport(uid),
                    None => SidebarEffect::Nothing,
                },
                NavSection::Export => match self.active_user_closing_overlay() {
                    Some(uid) => SidebarEffect::OpenExport(uid),
                    None => SidebarEffect::Nothing,
                },
            },
            SidebarMessage::VaultFilterSelected(filter) => {
                self.sidebar.active_vault_filter = filter;
                self.sidebar.active_section = NavSection::Vault;
                let filter_for = self.active_user;
                let t = self.switch_to_list_screen(Screen::Vault);
                SidebarEffect::List { filter_for, transition: t }
            },
            SidebarMessage::SendFilterSelected(filter) => {
                self.sidebar.active_send_filter = filter;
                self.sidebar.active_section = NavSection::Send;
                let filter_for = self.active_user;
                let t = self.switch_to_list_screen(Screen::Send);
                SidebarEffect::List { filter_for, transition: t }
            },
        }
    }
}

impl AppState {
    /// Route a login-view event: a finished unlock or login shows the vault
    /// (when the user is still the active one), a sign-out hands the session
    /// to the next user, a pick switches users, a toast is queued.
    pub fn handle_login_event(&mut self, event: LoginEvent) -> (r: Route)
        ensures
            (match event {
                LoginEvent::Unlocked { uid } | LoginEvent::LoggedIn { uid } => {
                    &&& final(self).accounts@ == set_locked(old(self).accounts@, uid, false)
                    &&& final(self).toasts@ == old(self).toasts@
                    &&& final(self).active_user == old(self).active_user
                    &&& final(self).sidebar == old(self).sidebar
                    &&& final(self).open_overlay == old(self).open_overlay
                    &&& old(self).active_user == Some(uid) ==> final(self).screen == Screen::Vault && r == Route::LoadVaultList(uid)
                    &&& old(self).active_user != Some(uid) ==> final(self).screen == old(self).screen && r == Route::Stay
                },
                LoginEvent::SignOutRequested => {
                    &&& final(self).keeps_data(old(self))
                    &&& (match first_other(old(self).accounts@, old(self).active_user) {
                        Some(next) => {
                            &&& final(self).active_user == Some(next)
                            &&& final(self).sidebar == sidebar_with_filters_reset(old(self).sidebar)
                            &&& final(self).open_overlay is None
                            &&& (old(self).unlocked_spec(next) ==> final(self).screen == Screen::Vault && r == Route::ShowVault(next))
                            &&& (!old(self).unlocked_spec(next) ==> final(self).screen == Screen::Login && r == Route::ShowLogin)
                        },
                        None => {
                            &&& final(self).active_user is None
                            &&& final(self).screen == Screen::Login
                            &&& final(self).sidebar == old(self).sidebar
                            &&& final(self).open_overlay == old(self).open_overlay
                            &&& r == Route::ShowEmailEntry
                        },
                    })
                },
                LoginEvent::UserSelected { uid } => {
                    &&& final(self).active_user == Some(uid)
                    &&& final(self).sidebar == sidebar_with_filters_reset(old(self).sidebar)
                    &&& final(self).open_overlay is None
                    &&& final(self).keeps_data(old(self))
                    &&& old(self).unlocked_spec(uid) ==> final(self).screen == Screen::Vault && r == Route::ShowVault(uid)
                    &&& !old(self).unlocked_spec(uid) ==> final(self).screen == Screen::Login && r == Route::ShowLogin
                },
                LoginEvent::ToastRequested(t) => {
                    &&& final(self).toasts@ == old(self).toasts@.push(t)
                    &&& final(self).accounts@ == old(self).accounts@
                    &&& final(self).active_user == old(self).active_user
                    &&& final(self).screen == old(self).screen
                    &&& final(self).open_overlay == old(self).open_overlay
                    &&& r == Route::Stay
                },
            }),
    {
        match event {
            LoginEvent::Unlocked { uid } | LoginEvent::LoggedIn { uid } => self.unlock_succeeded(uid),
            LoginEvent::SignOutRequested => self.hand_off_from_active(),
            LoginEvent::UserSelected { uid } => self.handle_user_switch(uid),
            LoginEvent::ToastRequested(t) => {
                self.push_toast(t);
                Route::Stay
            },
        }
    }
}

/// Locking every user leaves no user unlocked and nothing lockable, and
/// signs nobody out.
pub proof fn lemma_lock_all_locks_everyone(accounts: Seq<AccountEntry>, uid: UserId)
    ensures
        !unlocked_in(all_locked(accounts), uid),
        !any_unlocked(all_locked(accounts)),
        has_user(all_locked(accounts), uid) == has_user(accounts, uid),
{
    let l = all_locked(accounts);
    if has_user(accounts, uid) {
        let i = choose|i: int| 0 <= i < accounts.len() && #[trigger] accounts[i].user_id == uid;
        assert(l[i].user_id == uid);
    }
    if has_user(l, uid) {
        let i = choose|i: int| 0 <= i < l.len() && #[trigger] l[i].user_id == uid;
        assert(accounts[i].user_id == uid);
    }
}

/// Setting one user's lock flag decides that user's unlock state (when the
/// user is signed in) and leaves every other user as they were; nobody is
/// signed in or out by it.
pub proof fn lemma_set_locked_is_local(accounts: Seq<AccountEntry>, uid: UserId, locked: bool, other: UserId)
    ensures
        unlocked_in(set_locked(accounts, uid, locked), uid) == (has_user(accounts, uid) && !locked),
        other != uid ==> unlocked_in(set_locked(accounts, uid, locked), other) == unlocked_in(accounts, other),
        has_user(set_locked(accounts, uid, locked), other) == has_user(accounts, other),
{
    let l = set_locked(accounts, uid, locked);
    if has_user(accounts, uid) {
        let i = choose|i: int| 0 <= i < accounts.len() && #[trigger] accounts[i].user_id == uid;
        assert(l[i].user_id == uid);
    }
    if unlocked_in(l, uid) {
        let i = choose|i: int| 0 <= i < l.len() && #[trigger] l[i].user_id == uid && !l[i].locked;
        assert(accounts[i].user_id == uid);
    }
    if other != uid {
        if unlocked_in(accounts, other) {
            let i = choose|i: int| 0 <= i < accounts.len() && #[trigger] accounts[i].user_id == other && !accounts[i].locked;
            assert(l[i].user_id == other && !l[i].locked);
        }
        if unlocked_in(l, other) {
            let i = choose|i: int| 0 <= i < l.len() && #[trigger] l[i].user_id == other && !l[i].locked;
            assert(accounts[i].user_id == other);
        }
    }
    if has_user(accounts, other) {
        let i = choose|i: int| 0 <= i < accounts.len() && #[trigger] accounts[i].user_id == other;
        assert(l[i].user_id == other);
    }
    if has_user(l, other) {
        let i = choose|i: int| 0 <= i < l.len() && #[trigger] l[i].user_id == other;
        assert(accounts[i].user_id == other);
    }
}

/// A lock followed by a successful unlock leaves the user unlocked (when
/// signed in), whatever their state before.
pub proof fn lemma_unlock_undoes_lock(accounts: Seq<AccountEntry>, uid: UserId)
    ensures
        unlocked_in(set_locked(set_locked(accounts, uid, true), uid, false), uid) == has_user(accounts, uid),
        !unlocked_in(set_locked(accounts, uid, true), uid),
{
    lemma_set_locked_is_local(accounts, uid, true, uid);
    lemma_set_locked_is_local(set_locked(accounts, uid, true), uid, false, uid);
}

/// Signing a user out removes exactly that user from the registry.
pub proof fn lemma_log_out_removes_only_that_user(accounts: Seq<AccountEntry>, uid: UserId, other: UserId)
    ensures
        has_user(without_user(accounts, uid), other) == (other != uid && has_user(accounts, other)),
{
    let w = without_user(accounts, uid);
    let f = |e: AccountEntry| e.user_id != uid;
    accounts.filter_lemma(f);
    if has_user(w, other) {
        let i = choose|i: int| 0 <= i < w.len() && #[trigger] w[i].user_id == other;
        assert(w.contains(w[i]));
        accounts.lemma_filter_contains_rev(f, w[i]);
        assert(f(w[i]));
        let j = choose|j: int| 0 <= j < accounts.len() && accounts[j] == w[i];
        assert(accounts[j].user_id == other);
    }
    if other != uid && has_user(accounts, other) {
        let i = choose|i: int| 0 <= i < accounts.len() && #[trigger] accounts[i].user_id == other;
        assert(f(accounts[i]));
        assert(w.contains(accounts[i]));
        let j = choose|j: int| 0 <= j < w.len() && w[j] == accounts[i];
        assert(w[j].user_id == other);
    }
}

/// The hand-off target is always another signed-in user; there is none only
/// when every entry belongs to the excluded user.
pub proof fn lemma_first_other_is_another_user(accounts: Seq<AccountEntry>, uid: Option<UserId>)
    ensures
        first_other(accounts, uid) matches Some(v) ==> Some(v) != uid && has_user(accounts, v),
        first_other(accounts, uid) is None ==> forall|i: int| 0 <= i < accounts.len() ==> Some(#[trigger] accounts[i].user_id) == uid,
    decreases accounts.len(),
{
    if accounts.len() > 0 {
        let rest = accounts.drop_first();
        lemma_first_other_is_another_user(rest, uid);
        if Some(accounts[0].user_id) != uid {
            assert(accounts[0].user_id == accounts[0].user_id);
        } else {
            if first_other(rest, uid) is Some {
                let v = first_other(rest, uid)->0;
                let i = choose|i: int| 0 <= i < rest.len() && #[trigger] rest[i].user_id == v;
                assert(accounts[i + 1].user_id == v);
            } else {
                assert forall|i: int| 0 <= i < accounts.len() implies Some(#[trigger] accounts[i].user_id) == uid by {
                    if i > 0 {
                        assert(accounts[i] == rest[i - 1]);
                    }
                }
            }
        }
    }
}

/// The registry with every user listed in `uids` locked.
pub open spec fn lock_listed(accounts: Seq<AccountEntry>, uids: Seq<UserId>) -> Seq<AccountEntry> {
    Seq::new(
        accounts.len(),
        |i: int| if uids.contains(accounts[i].user_id) { with_lock(accounts[i], true) } else { accounts[i] },
    )
}

/// OS session events the app reacts to.
#[derive(Debug, Clone, Copy, PartialEq, Eq, Structural)]
pub enum SessionEvent {
    Suspended,
    Locked,
    Resumed,
    Unlocked,
}

/// The caller's part after an OS session event.
#[derive(Debug, Clone, Copy, PartialEq, Eq, Structural)]
pub enum SessionEffect {
    Nothing,
    /// The listed users were locked; complete the route.
    Locked(Route),
    /// Note the suspend time (to back-date activity on resume), then
    /// complete the route of the locks.
    Suspended(Route),
    /// Reconcile activity for the time the machine slept and re-check the
    /// session timeouts.
    Resumed,
}

impl AppState {
    /// Lock each user of `uids` (in order). Returns whether the active user
    /// was among them, in which case the unlock prompt is up.
    pub fn lock_users(&mut self, uids: &Vec<UserId>) -> (shown: bool)
        ensures
            final(self).accounts@ == lock_listed(old(self).accounts@, uids@),
            final(self).toasts@ == old(self).toasts@,
            final(self).active_user == old(self).active_user,
            final(self).sidebar == old(self).sidebar,
            shown == (old(self).active_user matches Some(a) && uids@.contains(a)),
            shown ==> final(self).screen == Screen::Login && final(self).open_overlay is None,
            !shown ==> final(self).screen == old(self).screen && final(self).open_overlay == old(self).open_overlay,
    {
        let ghost start = self.accounts@;
        let mut shown = false;
        let mut j: usize = 0;
        assert(lock_listed(start, uids@.take(0)) =~= start);
        while j < uids.len()
            invariant
                j <= uids@.len(),
                self.accounts@ == lock_listed(start, uids@.take(j as int)),
                self.toasts@ == old(self).toasts@,
                self.active_user == old(self).active_user,
                self.sidebar == old(self).sidebar,
                shown == (self.active_user matches Some(a) && uids@.take(j as int).contains(a)),
                shown ==> self.screen == Screen::Login && self.open_overlay is None,
                !shown ==> self.screen == old(self).screen && self.open_overlay == old(self).open_overlay,
            decreases uids@.len() - j,
        {
            let uid = uids[j];
            let ghost before = self.accounts@;
            let shown_now = self.lock_user(uid);
            proof {
                let next = uids@.take(j + 1);
                assert(next =~= uids@.take(j as int).push(uid));
                assert forall|x: UserId| next.contains(x) <==> (uids@.take(j as int).contains(x) || x == uid) by {
                    if next.contains(x) {
                        let k = choose|k: int| 0 <= k < next.len() && next[k] == x;
                        if k < j {
                            assert(uids@.take(j as int)[k] == x);
                        }
                    }
                    if uids@.take(j as int).contains(x) {
                        let k = choose|k: int| 0 <= k < j && uids@.take(j as int)[k] == x;
                        assert(next[k] == x);
                    }
                    if x == uid {
                        assert(next[j as int] == x);
                    }
                }
                assert(self.accounts@ =~= lock_listed(start, next));
            }
            shown = shown || shown_now;
            j = j + 1;
        }
        assert(uids@.take(uids@.len() as int) =~= uids@);
        shown
    }

    /// An OS session event: suspend and screen lock lock every user who
    /// asked for it (`lock_on_system_lock`, in `lock_on_system_lock` order);
    /// resume re-checks the timeouts; unlock does nothing.
    pub fn handle_session_event(&mut self, event: SessionEvent, lock_on_system_lock: &Vec<UserId>) -> (e: SessionEffect)
        ensures
            final(self).toasts@ == old(self).toasts@,
            final(self).active_user == old(self).active_user,
            final(self).sidebar == old(self).sidebar,
            (match event {
                SessionEvent::Suspended | SessionEvent::Locked => {
                    let shown = old(self).active_user matches Some(a) && lock_on_system_lock@.contains(a);
                    let route = if shown { Route::ShowLogin } else { Route::Stay };
                    &&& final(self).accounts@ == lock_listed(old(self).accounts@, lock_on_system_lock@)
                    &&& shown ==> final(self).screen == Screen::Login && final(self).open_overlay is None
                    &&& !shown ==> final(self).screen == old(self).screen && final(self).open_overlay == old(self).open_overlay
                    &&& e == (if event is Suspended { SessionEffect::Suspended(route) } else { SessionEffect::Locked(route) })
                },
                SessionEvent::Resumed => {
                    &&& final(self).accounts@ == old(self).accounts@
                    &&& final(self).screen == old(self).screen
                    &&& final(self).open_overlay == old(self).open_overlay
                    &&& e == SessionEffect::Resumed
                },
                SessionEvent::Unlocked => {
                    &&& final(self).accounts@ == old(self).accounts@
                    &&& final(self).screen == old(self).screen
                    &&& final(self).open_overlay == old(self).open_overlay
                    &&& e == SessionEffect::Nothing
                },
            }),
    {
        match event {
            SessionEvent::Suspended => {
                let shown = self.lock_users(lock_on_system_lock);
                SessionEffect::Suspended(if shown { Route::ShowLogin } else { Route::Stay })
            },
            SessionEvent::Locked => {
                let shown = self.lock_users(lock_on_system_lock);
                SessionEffect::Locked(if shown { Route::ShowLogin } else { Route::Stay })
            },
            SessionEvent::Resumed => SessionEffect::Resumed,
            SessionEvent::Unlocked => SessionEffect::Nothing,
        }
    }

    /// A vault sync finished: a success toast, or an error toast with its
    /// title when it failed. The texts come localized from the caller.
    pub fn sync_completed(
        &mut self,
        result: Result<(), String>,
        success_body: String,
        failure_body: String,
        failure_title: &str,
    )
        ensures
            final(self).toasts@.len() == old(self).toasts@.len() + 1,
            final(self).toasts@.drop_last() == old(self).toasts@,
            result is Ok ==> final(self).toasts@.last().built(crate::toast::ToastStatus::Success, success_body, None),
            result is Err ==> final(self).toasts@.last().built(
                crate::toast::ToastStatus::Error,
                failure_body,
                Some(failure_title),
            ),
            final(self).accounts@ == old(self).accounts@,
            final(self).active_user == old(self).active_user,
            final(self).screen == old(self).screen,
            final(self).open_overlay == old(self).open_overlay,
    {
        let t = match result {
            Ok(()) => Toast::success(success_body, None),
            Err(_) => Toast::error(failure_body, Some(failure_title)),
        };
        self.push_toast(t);
    }
}

/// The registry without each user of `uids` (signed out in order).
pub open spec fn remove_listed(accounts: Seq<AccountEntry>, uids: Seq<UserId>) -> Seq<AccountEntry>
    decreases uids.len(),
{
    if uids.len() == 0 {
        accounts
    } else {
        without_user(remove_listed(accounts, uids.drop_last()), uids.last())
    }
}

/// What the session-timeout check asks for, per signed-in user.
#[derive(Debug, Clone)]
pub struct TimeoutPlan {
    /// Users (not the active one) to sign out in place.
    pub inline_logouts: Vec<UserId>,
    /// Sign the active user out and hand the session on.
    pub active_logout: bool,
    /// Users to lock.
    pub locks: Vec<UserId>,
}

/// What the caller completes after a timeout plan ran.
#[derive(Debug, Clone, Copy, PartialEq, Eq, Structural)]
pub struct TimeoutOutcome {
    /// The route of the active user's sign-out, when there was one.
    pub logout_route: Option<Route>,
    /// A lock hit the active user: the unlock prompt is up.
    pub lock_shown: bool,
}

impl AppState {
    /// Sign each user of `uids` out, in order.
    pub fn log_out_users(&mut self, uids: &Vec<UserId>)
        ensures
            final(self).accounts@ == remove_listed(old(self).accounts@, uids@),
            final(self).toasts@ == old(self).toasts@,
            final(self).active_user == old(self).active_user,
            final(self).screen == old(self).screen,
            final(self).sidebar == old(self).sidebar,
            final(self).open_overlay == old(self).open_overlay,
    {
        let ghost start = self.accounts@;
        let mut j: usize = 0;
        assert(uids@.take(0) =~= Seq::<UserId>::empty());
        while j < uids.len()
            invariant
                j <= uids@.len(),
                self.accounts@ == remove_listed(start, uids@.take(j as int)),
                self.toasts@ == old(self).toasts@,
                self.active_user == old(self).active_user,
                self.screen == old(self).screen,
                self.sidebar == old(self).sidebar,
                self.open_overlay == old(self).open_overlay,
            decreases uids@.len() - j,
        {
            proof {
                assert(uids@.take(j + 1).drop_last() =~= uids@.take(j as int));
            }
            self.log_out_user(uids[j]);
            j = j + 1;
        }
        assert(uids@.take(j as int) =~= uids@);
    }

    /// Carry out a session-timeout plan: in-place sign-outs first (so the
    /// hand-off only sees the remaining users), then the active user's
    /// sign-out, then the locks.
    pub fn apply_timeout_plan(&mut self, plan: &TimeoutPlan) -> (out: TimeoutOutcome)
        ensures
            final(self).toasts@ == old(self).toasts@,
            ({
                let a1 = remove_listed(old(self).accounts@, plan.inline_logouts@);
                let a2 = if plan.active_logout && old(self).active_user is Some {
                    without_user(a1, old(self).active_user->0)
                } else {
                    a1
                };
                let active = if plan.active_logout {
                    first_other(a2, old(self).active_user)
                } else {
                    old(self).active_user
                };
                &&& final(self).accounts@ == lock_listed(a2, plan.locks@)
                &&& final(self).active_user == active
                &&& (plan.active_logout <==> out.logout_route is Some)
                &&& (plan.active_logout && active is None ==> out.logout_route == Some(Route::ShowEmailEntry)
                    && final(self).screen == Screen::Login)
                &&& (plan.active_logout ==> (active matches Some(next) ==> out.logout_route == Some(
                    if unlocked_in(a2, next) { Route::ShowVault(next) } else { Route::ShowLogin },
                )))
                &&& (plan.active_logout && !out.lock_shown ==> (active matches Some(next) ==> final(self).screen == (
                    if unlocked_in(a2, next) { Screen::Vault } else { Screen::Login })))
                &&& (plan.active_logout && active is Some ==> final(self).open_overlay is None
                    && final(self).sidebar == sidebar_with_filters_reset(old(self).sidebar))
                &&& out.lock_shown == (active matches Some(a) && plan.locks@.contains(a))
                &&& out.lock_shown ==> final(self).screen == Screen::Login && final(self).open_overlay is None
            }),
    {
        self.log_out_users(&plan.inline_logouts);
        let logout_route = if plan.active_logout {
            Some(self.log_out_active())
        } else {
            None
        };
        let lock_shown = self.lock_users(&plan.locks);
        TimeoutOutcome { logout_route, lock_shown }
    }

    /// Something was copied for the user: a success toast with `label`, and
    /// the main window minimizes when the active user asked for that
    /// (`minimize_on_copy` is their preference).
    pub fn copied(&mut self, label: String, minimize_on_copy: bool) -> (minimize: bool)
        ensures
            final(self).toasts@.len() == old(self).toasts@.len() + 1,
            final(self).toasts@.drop_last() == old(self).toasts@,
            final(self).toasts@.last().built(crate::toast::ToastStatus::Success, label, None),
            minimize == (old(self).active_user is Some && minimize_on_copy),
            final(self).accounts@ == old(self).accounts@,
            final(self).active_user == old(self).active_user,
            final(self).screen == old(self).screen,
            final(self).open_overlay == old(self).open_overlay,
    {
        self.push_toast(Toast::success(label, None));
        self.active_user.is_some() && minimize_on_copy
    }
}

impl PushToast for AppState {
    fn push_toast(&mut self, toast: Toast)
        ensures
            final(self).toasts@ == old(self).toasts@.push(toast),
            final(self).sidebar == old(self).sidebar,
            final(self).screen == old(self).screen,
            final(self).active_user == old(self).active_user,
            final(self).open_overlay == old(self).open_overlay,
            final(self).accounts@ == old(self).accounts@,
    {
        self.toasts.push(toast);
    }
}

} // verus!
