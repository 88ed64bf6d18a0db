//! The Magnify launcher: a borderless search window summoned by a global
//! hotkey. This module holds its state and the decisions of its message
//! handler; the window work and the SDK decrypts are the caller's.

use vstd::prelude::*;

use crate::domain::UserId;
use crate::session::{AppState, Route};
use crate::window::WindowId;

verus! {

/// A vault item's id.
pub type CipherId = u128;

/// How long a dismissed launcher keeps its query and selection, in ms.
pub const STICKY_TTL_MS: u64 = 300_000;

/// Whether the launcher can show the vault (the active user is unlocked).
#[derive(Debug, Clone, Copy, PartialEq, Eq, Structural)]
pub enum MagnifyMode {
    Locked,
    Unlocked,
}

/// Secret fields copied through a decrypt.
#[derive(Debug, Clone, Copy, PartialEq, Eq, Structural)]
pub enum MagnifyField {
    Password,
    Totp,
    Notes,
}

/// A key press in the launcher window, reduced to what the launcher reads.
#[derive(Debug, Clone, Copy, PartialEq, Eq, Structural)]
pub enum MagnifyKey {
    Escape,
    Enter,
    ArrowUp,
    ArrowDown,
    /// A character key; holds the first character it produces.
    Character(char),
    Other,
}

/// What a launcher key press asks for.
#[derive(Debug, Clone, Copy, PartialEq, Eq, Structural)]
pub enum MagnifyCommand {
    Hide,
    OpenMainWindow,
    NavigateUp,
    NavigateDown,
    CopyUsername,
    CopyField(MagnifyField),
    CopyUri,
}

/// One search result row.
#[derive(Debug, Clone)]
pub struct MagnifyItem {
    pub id: Option<CipherId>,
    /// The row's second line (the login username).
    pub subtitle: String,
    /// The first URI of a login item, when it has a non-empty one.
    pub first_uri: Option<String>,
}

/// The caller's part after a launcher decision. Every variant but
/// `Nothing`, `Summon`, `Refresh` and `ScrollToSelected` hides the
/// launcher.
#[derive(Debug, Clone)]
pub enum MagnifyEffect {
    Nothing,
    /// Recompute the results, size and place the launcher, then flip its
    /// visibility (showing it focused with the query selected).
    Summon,
    /// Recompute the results for the new query, resize, scroll to the top.
    Refresh,
    /// Scroll the selected row into view.
    ScrollToSelected,
    /// Hide the launcher, after copying `copy` (not a secret) when present.
    Hide { copy: Option<String> },
    /// Hide the launcher; when present, decrypt the field for the user and
    /// hand the result to [`MagnifyState::decrypt_completed`].
    DecryptAndHide { decrypt: Option<(UserId, CipherId, MagnifyField)> },
    /// Hide the launcher, show and focus the main window, then complete the
    /// route.
    OpenMain(Route),
    /// The launcher window was created: apply the platform's transparency
    /// fix-ups to it.
    PrepareWindow,
    /// Copy this decrypted secret, kept out of clipboard history.
    CopySecret(String),
}

pub struct MagnifyState {
    pub window: WindowId,
    pub mode: MagnifyMode,
    pub query: String,
    pub results: Vec<MagnifyItem>,
    pub selected: usize,
    /// The decrypt whose completion may still copy.
    pub pending_decrypt: Option<(CipherId, MagnifyField)>,
    /// The user the sticky query belongs to.
    pub anchored_user: Option<UserId>,
    /// When the launcher was last dismissed (ms).
    pub last_used: Option<u64>,
}

/// The selection points at a result, or is 0 when there are none.
pub open spec fn selection_ok(selected: usize, len: nat) -> bool {
    if len == 0 {
        selected == 0
    } else {
        selected < len
    }
}

/// The selection after "up": one row up, stopping at the first.
pub open spec fn selection_up(selected: usize) -> usize {
    if selected > 0 { (selected - 1) as usize } else { 0 }
}

/// The selection after "down": one row down, stopping at the last.
pub open spec fn selection_down(selected: usize, len: nat) -> usize {
    if selected + 1 < len { (selected + 1) as usize } else { selected }
}

/// Navigation stays on a row, and "down" undoes "up" (and "up" undoes
/// "down") wherever the first move was not stopped at an end.
pub proof fn lemma_navigation_round_trip(selected: usize, len: nat)
    requires
        selection_ok(selected, len),
        len <= usize::MAX,
    ensures
        selection_ok(selection_up(selected), len),
        selection_ok(selection_down(selected, len), len),
        selected > 0 ==> selection_down(selection_up(selected), len) == selected,
        selected + 1 < len ==> selection_up(selection_down(selected, len)) == selected,
{
}

/// The sticky query is still fresh at `now`: the launcher was dismissed
/// less than the TTL ago.
pub open spec fn sticky_fresh(last_used: Option<u64>, now: u64) -> bool {
    last_used matches Some(t) && (now as int) - (t as int) < STICKY_TTL_MS as int
}

/// `c` is `lower` or its upper-case form `upper`.
pub open spec fn is_letter(c: char, lower: char, upper: char) -> bool {
    c == lower || c == upper
}

/// The command a key press maps to. Escape hides; Enter opens the main
/// window while locked (and does nothing while unlocked); arrows navigate;
/// Cmd/Ctrl+Shift+C copies the username, Cmd/Ctrl+Shift+N the notes,
/// Cmd/Ctrl+C the password, Cmd/Ctrl+T the TOTP code, Cmd/Ctrl+U the URI.
pub open spec fn key_command_spec(key: MagnifyKey, cmd: bool, shift: bool, mode: MagnifyMode) -> Option<MagnifyCommand> {
    match key {
        MagnifyKey::Escape => Some(MagnifyCommand::Hide),
        MagnifyKey::Enter => if mode == MagnifyMode::Locked { Some(MagnifyCommand::OpenMainWindow) } else { None },
        MagnifyKey::ArrowUp => Some(MagnifyCommand::NavigateUp),
        MagnifyKey::ArrowDown => Some(MagnifyCommand::NavigateDown),
        MagnifyKey::Character(c) => if cmd && shift && is_letter(c, 'c', 'C') {
            Some(MagnifyCommand::CopyUsername)
        } else if cmd && shift && is_letter(c, 'n', 'N') {
            Some(MagnifyCommand::CopyField(MagnifyField::Notes))
        } else if cmd && !shift && is_letter(c, 'c', 'C') {
            Some(MagnifyCommand::CopyField(MagnifyField::Password))
        } else if cmd && !shift && is_letter(c, 't', 'T') {
            Some(MagnifyCommand::CopyField(MagnifyField::Totp))
        } else if cmd && !shift && is_letter(c, 'u', 'U') {
            Some(MagnifyCommand::CopyUri)
        } else {
            None
        },
        MagnifyKey::Other => None,
    }
}

/// The upper-case ASCII letter `upper` and the lower-case letter `lower`
/// are the same letter.
pub open spec fn same_ascii_letter(upper: char, lower: char) -> bool {
    'A' <= upper && upper <= 'Z' && (lower as int) == (upper as int) + 32
}

/// Launcher shortcuts ignore the letter's case: a key press of either case
/// of one letter, under the same modifiers and mode, asks for the same
/// command. In particular Cmd/Ctrl+T copies the TOTP code whichever case the
/// key produced, Cmd/Ctrl+C the password and Cmd/Ctrl+U the URI, and with
/// Shift, C copies the username and N the notes.
pub proof fn lemma_launcher_keys_ignore_case(upper: char, lower: char, cmd: bool, shift: bool, mode: MagnifyMode)
    requires
        same_ascii_letter(upper, lower),
    ensures
        key_command_spec(MagnifyKey::Character(upper), cmd, shift, mode)
            == key_command_spec(MagnifyKey::Character(lower), cmd, shift, mode),
        key_command_spec(MagnifyKey::Character('t'), true, false, mode) == Some(MagnifyCommand::CopyField(MagnifyField::Totp)),
        key_command_spec(MagnifyKey::Character('c'), true, false, mode) == Some(MagnifyCommand::CopyField(MagnifyField::Password)),
        key_command_spec(MagnifyKey::Character('u'), true, false, mode) == Some(MagnifyCommand::CopyUri),
        key_command_spec(MagnifyKey::Character('c'), true, true, mode) == Some(MagnifyCommand::CopyUsername),
        key_command_spec(MagnifyKey::Character('n'), true, true, mode) == Some(MagnifyCommand::CopyField(MagnifyField::Notes)),
{
}

/// Without Cmd/Ctrl a character goes to the search field; Escape hides and
/// the arrows navigate whatever the modifiers; Enter asks for the main
/// window only while locked; with Cmd/Ctrl only C, T, U and N (either case)
/// are shortcuts, and T, U take no Shift while N needs it.
pub proof fn lemma_launcher_key_table(c: char, cmd: bool, shift: bool, mode: MagnifyMode)
    ensures
        key_command_spec(MagnifyKey::Character(c), false, shift, mode) is None,
        key_command_spec(MagnifyKey::Other, cmd, shift, mode) is None,
        key_command_spec(MagnifyKey::Escape, cmd, shift, mode) == Some(MagnifyCommand::Hide),
        key_command_spec(MagnifyKey::ArrowUp, cmd, shift, mode) == Some(MagnifyCommand::NavigateUp),
        key_command_spec(MagnifyKey::ArrowDown, cmd, shift, mode) == Some(MagnifyCommand::NavigateDown),
        key_command_spec(MagnifyKey::Enter, cmd, shift, mode) is Some <==> mode == MagnifyMode::Locked,
        key_command_spec(MagnifyKey::Enter, cmd, shift, MagnifyMode::Locked) == Some(MagnifyCommand::OpenMainWindow),
        key_command_spec(MagnifyKey::Character(c), true, shift, mode) is Some ==>
            (c == 'c' || c == 'C' || c == 't' || c == 'T' || c == 'u' || c == 'U' || c == 'n' || c == 'N'),
        key_command_spec(MagnifyKey::Character('t'), true, true, mode) is None,
        key_command_spec(MagnifyKey::Character('u'), true, true, mode) is None,
        key_command_spec(MagnifyKey::Character('n'), true, false, mode) is None,
{
}

/// Map a launcher key press to its command.
pub fn key_command(key: MagnifyKey, cmd: bool, shift: bool, mode: MagnifyMode) -> (r: Option<MagnifyCommand>)
    ensures
        r == key_command_spec(key, cmd, shift, mode),
{
    match key {
        MagnifyKey::Escape => Some(MagnifyCommand::Hide),
        MagnifyKey::Enter => {
            if mode == MagnifyMode::Locked {
                Some(MagnifyCommand::OpenMainWindow)
            } else {
                None
            }
        },
        MagnifyKey::ArrowUp => Some(MagnifyCommand::NavigateUp),
        MagnifyKey::ArrowDown => Some(MagnifyCommand::NavigateDown),
        MagnifyKey::Character(c) => {
            if cmd && shift && (c == 'c' || c == 'C') {
                Some(MagnifyCommand::CopyUsername)
            } else if cmd && shift && (c == 'n' || c == 'N') {
                Some(MagnifyCommand::CopyField(MagnifyField::Notes))
            } else if cmd && !shift && (c == 'c' || c == 'C') {
                Some(MagnifyCommand::CopyField(MagnifyField::Password))
            } else if cmd && !shift && (c == 't' || c == 'T') {
                Some(MagnifyCommand::CopyField(MagnifyField::Totp))
            } else if cmd && !shift && (c == 'u' || c == 'U') {
                Some(MagnifyCommand::CopyUri)
            } else {
                None
            }
        },
        MagnifyKey::Other => None,
    }
}

/// The secret fields of a decrypted vault item that the launcher copies.
#[derive(Debug, Clone)]
pub struct CipherSecrets {
    /// Present for login items.
    pub login: Option<LoginSecrets>,
    pub notes: Option<String>,
}

#[derive(Debug, Clone)]
pub struct LoginSecrets {
    pub password: Option<String>,
    /// The TOTP seed.
    pub totp: Option<String>,
}

/// What a copy of a field finds on an item.
#[derive(Debug, Clone)]
pub enum FieldValue {
    /// Copy this.
    Value(String),
    /// Generate the current code from this TOTP seed, then copy it.
    TotpCode(String),
    /// The item has no such value (empty, or not a login).
    Missing,
}

pub open spec fn opt_text(o: Option<String>) -> Option<Seq<char>> {
    match o {
        Some(s) => Some(s@),
        None => None,
    }
}

/// Password and TOTP come from a login item (a TOTP seed only when
/// non-empty); notes from any item, when non-empty.
pub open spec fn field_value_spec(secrets: CipherSecrets, field: MagnifyField) -> Option<(bool, Seq<char>)> {
    match field {
        MagnifyField::Password => match secrets.login {
            Some(l) => match l.password {
                Some(p) => Some((false, p@)),
                None => None,
            },
            None => None,
        },
        MagnifyField::Totp => match secrets.login {
            Some(l) => match l.totp {
                Some(t) => if t@.len() > 0 { Some((true, t@)) } else { None },
                None => None,
            },
            None => None,
        },
        MagnifyField::Notes => match secrets.notes {
            Some(n) => if n@.len() > 0 { Some((false, n@)) } else { None },
            None => None,
        },
    }
}

/// Pull the requested field out of a decrypted item.
pub fn extract_field(secrets: CipherSecrets, field: MagnifyField) -> (v: FieldValue)
    ensures
        (match field_value_spec(secrets, field) {
            Some((false, t)) => v matches FieldValue::Value(s) && s@ == t,
            Some((true, t)) => v matches FieldValue::TotpCode(s) && s@ == t,
            None => v is Missing,
        }),
{
    match field {
        MagnifyField::Password => match secrets.login {
            Some(l) => match l.password {
                Some(p) => FieldValue::Value(p),
                None => FieldValue::Missing,
            },
            None => FieldValue::Missing,
        },
        MagnifyField::Totp => match secrets.login {
            Some(l) => match l.totp {
                Some(t) => {
                    if t.as_str().unicode_len() > 0 {
                        FieldValue::TotpCode(t)
                    } else {
                        FieldValue::Missing
                    }
                },
                None => FieldValue::Missing,
            },
            None => FieldValue::Missing,
        },
        MagnifyField::Notes => match secrets.notes {
            Some(n) => {
                if n.as_str().unicode_len() > 0 {
                    FieldValue::Value(n)
                } else {
                    FieldValue::Missing
                }
            },
            None => FieldValue::Missing,
        },
    }
}

/// The URI a launcher row copies: the first URI of a login item, when it
/// is set and non-empty (later URIs are not consulted).
pub open spec fn first_uri_spec(login_uris: Option<Seq<Option<String>>>) -> Option<Seq<char>> {
    match login_uris {
        Some(uris) => if uris.len() > 0 && uris[0] is Some && uris[0]->0@.len() > 0 {
            Some(uris[0]->0@)
        } else {
            None
        },
        None => None,
    }
}

/// `login_uris` is `None` for an item that is not a login (or has no URI
/// list).
pub fn first_uri(login_uris: Option<&Vec<Option<String>>>) -> (r: Option<String>)
    ensures
        opt_text(r) == first_uri_spec(match login_uris {
            Some(v) => Some(v@),
            None => None,
        }),
{
    match login_uris {
        Some(uris) => {
            if uris.len() == 0 {
                return None;
            }
            match &uris[0] {
                Some(u) => {
                    if u.as_str().unicode_len() > 0 {
                        Some(u.clone())
                    } else {
                        None
                    }
                },
                None => None,
            }
        },
        None => None,
    }
}

/// The global hotkey's changes and effect.
pub open spec fn hotkey_outcome(before: &MagnifyState, after: &MagnifyState, session: &AppState, now: u64, e: MagnifyEffect) -> bool {
    &&& after.wf()
    &&& ({
        let unlocked = session.active_user matches Some(uid) && session.unlocked_spec(uid);
        let reset = before.anchored_user != session.active_user || !unlocked
            || !sticky_fresh(before.last_used, now);
        &&& after.mode == (if unlocked { MagnifyMode::Unlocked } else { MagnifyMode::Locked })
        &&& after.anchored_user == session.active_user
        &&& reset ==> after.query@.len() == 0 && after.selected == 0 && after.results@.len() == 0
        &&& !reset ==> after.query@ == before.query@ && after.selected == before.selected
            && after.results@ == before.results@
    })
    &&& after.window == before.window
    &&& after.pending_decrypt == before.pending_decrypt
    &&& after.last_used == before.last_used
    &&& e is Summon
}

/// A query change's changes and effect.
pub open spec fn query_outcome(before: &MagnifyState, after: &MagnifyState, query: String, e: MagnifyEffect) -> bool {
    &&& after.wf()
    &&& after.query@ == query@
    &&& after.selected == 0
    &&& after.results@ == before.results@
    &&& after.window == before.window
    &&& after.mode == before.mode
    &&& after.pending_decrypt == before.pending_decrypt
    &&& after.anchored_user == before.anchored_user
    &&& after.last_used == before.last_used
    &&& e is Refresh
}

/// "Up"'s changes and effect.
pub open spec fn up_outcome(before: &MagnifyState, after: &MagnifyState, e: MagnifyEffect) -> bool {
    &&& after.same_frame(before)
    &&& after.wf()
    &&& after.selected == selection_up(before.selected)
    &&& after.results@ == before.results@
    &&& after.query@ == before.query@
    &&& after.pending_decrypt == before.pending_decrypt
    &&& after.last_used == before.last_used
    &&& e is ScrollToSelected
}

/// "Down"'s changes and effect.
pub open spec fn down_outcome(before: &MagnifyState, after: &MagnifyState, e: MagnifyEffect) -> bool {
    &&& after.same_frame(before)
    &&& after.wf()
    &&& after.selected == selection_down(before.selected, before.results@.len())
    &&& after.results@ == before.results@
    &&& after.query@ == before.query@
    &&& after.pending_decrypt == before.pending_decrypt
    &&& after.last_used == before.last_used
    &&& e is ScrollToSelected
}

/// A row click's changes.
pub open spec fn click_outcome(before: &MagnifyState, after: &MagnifyState, idx: usize) -> bool {
    &&& after.same_frame(before)
    &&& after.wf()
    &&& after.selected == (if idx < before.results@.len() { idx } else { before.selected })
    &&& after.results@ == before.results@
    &&& after.query@ == before.query@
    &&& after.pending_decrypt == before.pending_decrypt
    &&& after.last_used == before.last_used
}

/// A dismissal's changes and effect.
pub open spec fn dismiss_outcome(before: &MagnifyState, after: &MagnifyState, now: u64, e: MagnifyEffect) -> bool {
    &&& after.same_frame(before)
    &&& after.last_used == Some(now)
    &&& after.selected == before.selected
    &&& after.results@ == before.results@
    &&& after.query@ == before.query@
    &&& after.mode == before.mode
    &&& after.pending_decrypt == before.pending_decrypt
    &&& after.anchored_user == before.anchored_user
    &&& e matches MagnifyEffect::Hide { copy } && copy is None
}

/// A username copy's changes and effect.
pub open spec fn username_outcome(before: &MagnifyState, after: &MagnifyState, now: u64, e: MagnifyEffect) -> bool {
    &&& after.same_frame(before)
    &&& after.wf()
    &&& after.last_used == Some(now)
    &&& after.selected == before.selected
    &&& after.results@ == before.results@
    &&& after.query@ == before.query@
    &&& after.pending_decrypt == before.pending_decrypt
    &&& e matches MagnifyEffect::Hide { copy } && (
        if before.results@.len() > 0 && before.results@[before.selected as int].subtitle@.len() > 0 {
            copy matches Some(v) && v@ == before.results@[before.selected as int].subtitle@
        } else {
            copy is None
        })
}

/// A URI copy's changes and effect.
pub open spec fn uri_outcome(before: &MagnifyState, after: &MagnifyState, now: u64, e: MagnifyEffect) -> bool {
    &&& after.same_frame(before)
    &&& after.wf()
    &&& after.last_used == Some(now)
    &&& after.selected == before.selected
    &&& after.results@ == before.results@
    &&& after.query@ == before.query@
    &&& after.pending_decrypt == before.pending_decrypt
    &&& e matches MagnifyEffect::Hide { copy } && (
        if before.results@.len() > 0 && before.results@[before.selected as int].first_uri is Some {
            copy matches Some(v) && v@ == before.results@[before.selected as int].first_uri->0@
        } else {
            copy is None
        })
}

/// A secret-field copy request's changes and effect.
pub open spec fn copy_field_outcome(before: &MagnifyState, after: &MagnifyState, session: &AppState, field: MagnifyField, now: u64, e: MagnifyEffect) -> bool {
    &&& after.same_frame(before)
    &&& after.wf()
    &&& after.selected == before.selected
    &&& after.results@ == before.results@
    &&& after.query@ == before.query@
    &&& (if before.results@.len() > 0 && before.results@[before.selected as int].id is Some {
        let cid = before.results@[before.selected as int].id->0;
        &&& after.pending_decrypt == Some((cid, field))
        &&& after.last_used == Some(now)
        &&& e matches MagnifyEffect::DecryptAndHide { decrypt } && decrypt == (match session.active_user {
            Some(uid) => if crate::session::has_user(session.accounts@, uid) {
                Some((uid, cid, field))
            } else {
                None
            },
            None => None,
        })
    } else {
        &&& after.pending_decrypt == before.pending_decrypt
        &&& after.last_used == before.last_used
        &&& e is Nothing
    })
}

/// A finished decrypt's changes and the value to copy.
pub open spec fn decrypt_outcome(before: &MagnifyState, after: &MagnifyState, session: &AppState, uid: UserId, cipher: CipherId, field: MagnifyField, result: Result<Option<String>, String>, copy: Option<String>) -> bool {
    &&& after.same_frame(before)
    &&& after.selected == before.selected
    &&& after.results@ == before.results@
    &&& after.query@ == before.query@
    &&& after.last_used == before.last_used
    &&& ({
        let live = before.pending_decrypt == Some((cipher, field))
            && session.active_user == Some(uid) && session.unlocked_spec(uid);
        &&& !live ==> after.pending_decrypt == before.pending_decrypt && copy is None
        &&& live ==> after.pending_decrypt is None && copy == (match result {
            Ok(Some(v)) => Some(v),
            _ => None,
        })
    })
}

/// "Open Bitwarden"'s changes and effect.
pub open spec fn open_main_outcome(before: &MagnifyState, after: &MagnifyState, s_before: &AppState, s_after: &AppState, now: u64, e: MagnifyEffect) -> bool {
    &&& after.wf()
    &&& after.query@.len() == 0
    &&& after.selected == 0
    &&& after.results@.len() == 0
    &&& after.anchored_user == s_before.active_user
    &&& after.last_used is None
    &&& s_after.screen == crate::domain::Screen::Login
    &&& s_after.open_overlay is None
    &&& s_after.active_user == s_before.active_user
    &&& s_after.sidebar == s_before.sidebar
    &&& s_after.keeps_data(s_before)
    &&& e == MagnifyEffect::OpenMain(Route::ShowLogin)
}

impl MagnifyState {
    pub open spec fn wf(&self) -> bool {
        selection_ok(self.selected, self.results@.len())
    }

    /// The window, the mode and the anchored user are as in `before`.
    pub open spec fn same_frame(&self, before: &MagnifyState) -> bool {
        &&& self.window == before.window
        &&& self.mode == before.mode
        &&& self.anchored_user == before.anchored_user
    }

    /// The launcher as it is created (hidden) at start-up.
    pub fn new(window: WindowId) -> (s: Self)
        ensures
            s.wf(),
            s.window == window,
            s.mode == MagnifyMode::Locked,
            s.query@.len() == 0,
            s.results@.len() == 0,
            s.selected == 0,
            s.pending_decrypt is None,
            s.anchored_user is None,
            s.last_used is None,
    {
        MagnifyState {
            window,
            mode: MagnifyMode::Locked,
            query: String::new(),
            results: Vec::new(),
            selected: 0,
            pending_decrypt: None,
            anchored_user: None,
            last_used: None,
        }
    }

    /// Forget the query and the selection.
    pub fn reset_search(&mut self)
        requires
            old(self).wf(),
        ensures
            final(self).wf(),
            final(self).query@.len() == 0,
            final(self).selected == 0,
            final(self).results@.len() == 0,
            final(self).window == old(self).window,
            final(self).mode == old(self).mode,
            final(self).pending_decrypt == old(self).pending_decrypt,
            final(self).anchored_user == old(self).anchored_user,
            final(self).last_used == old(self).last_used,
    {
        self.query = String::new();
        self.results = Vec::new();
        self.selected = 0;
    }

    /// Drop the sticky state so the next summon starts empty for `active`
    /// (after a lock, log-out or user switch).
    pub fn reset_sticky(&mut self, active: Option<UserId>)
        requires
            old(self).wf(),
        ensures
            final(self).wf(),
            final(self).query@.len() == 0,
            final(self).selected == 0,
            final(self).results@.len() == 0,
            final(self).anchored_user == active,
            final(self).last_used is None,
            final(self).window == old(self).window,
            final(self).mode == old(self).mode,
            final(self).pending_decrypt == old(self).pending_decrypt,
    {
        self.reset_search();
        self.anchored_user = active;
        self.last_used = None;
    }

    /// Install freshly computed results; the selection is kept where it
    /// still points at a row and clamped to the last row otherwise.
    pub fn set_results(&mut self, results: Vec<MagnifyItem>)
        ensures
            final(self).wf(),
            final(self).results@ == results@,
            final(self).selected == (if results@.len() == 0 {
                0
            } else if old(self).selected < results@.len() {
                old(self).selected as int
            } else {
                results@.len() - 1
            }),
            final(self).query@ == old(self).query@,
            final(self).window == old(self).window,
            final(self).mode == old(self).mode,
            final(self).pending_decrypt == old(self).pending_decrypt,
            final(self).anchored_user == old(self).anchored_user,
            final(self).last_used == old(self).last_used,
    {
        let n = results.len();
        if n == 0 {
            self.selected = 0;
        } else if self.selected >= n {
            self.selected = n - 1;
        }
        self.results = results;
    }

    /// No active user or no vault loaded: the launcher shows nothing.
    pub fn clear_results(&mut self)
        ensures
            final(self).wf(),
            final(self).results@.len() == 0,
            final(self).selected == 0,
            final(self).query@ == old(self).query@,
            final(self).same_frame(old(self)),
            final(self).pending_decrypt == old(self).pending_decrypt,
            final(self).last_used == old(self).last_used,
    {
        self.results = Vec::new();
        self.selected = 0;
    }

    /// The global hotkey: the mode follows the active user's lock state;
    /// the sticky query survives only for the same, unlocked user within
    /// the TTL.
    pub fn hotkey(&mut self, session: &AppState, now: u64) -> (e: MagnifyEffect)
        requires
            old(self).wf(),
        ensures
            hotkey_outcome(old(self), final(self), session, now, e),
    {
        let unlocked = match session.active_user {
            Some(uid) => session.is_unlocked(uid),
            None => false,
        };
        self.mode = if unlocked {
            MagnifyMode::Unlocked
        } else {
            MagnifyMode::Locked
        };
        let user_changed = self.anchored_user != session.active_user;
        let fresh = match self.last_used {
            Some(t) => now < t || now - t < STICKY_TTL_MS,
            None => false,
        };
        if user_changed || !unlocked || !fresh {
            self.reset_search();
        }
        self.anchored_user = session.active_user;
        MagnifyEffect::Summon
    }

    /// The query changed: a fresh search starts at the first row.
    pub fn query_changed(&mut self, query: String) -> (e: MagnifyEffect)
        requires
            old(self).wf(),
        ensures
            query_outcome(old(self), final(self), query, e),
    {
        self.query = query;
        self.selected = 0;
        MagnifyEffect::Refresh
    }

    /// Move the selection up one row, stopping at the first.
    pub fn navigate_up(&mut self) -> (e: MagnifyEffect)
        requires
            old(self).wf(),
        ensures
            up_outcome(old(self), final(self), e),
    {
        if self.selected > 0 {
            self.selected = self.selected - 1;
        }
        MagnifyEffect::ScrollToSelected
    }

    /// Move the selection down one row, stopping at the last.
    pub fn navigate_down(&mut self) -> (e: MagnifyEffect)
        requires
            old(self).wf(),
        ensures
            down_outcome(old(self), final(self), e),
    {
        let len = self.results.len();
        if len > 0 && self.selected + 1 < len {
            self.selected = self.selected + 1;
        }
        MagnifyEffect::ScrollToSelected
    }

    /// A click on row `idx` selects it when the row exists.
    pub fn row_clicked(&mut self, idx: usize)
        requires
            old(self).wf(),
        ensures
            click_outcome(old(self), final(self), idx),
    {
        if idx < self.results.len() {
            self.selected = idx;
        }
    }

    /// Dismiss the launcher; the dismissal time starts the sticky TTL.
    pub fn dismiss(&mut self, now: u64) -> (e: MagnifyEffect)
        ensures
            dismiss_outcome(old(self), final(self), now, e),
    {
        self.last_used = Some(now);
        MagnifyEffect::Hide { copy: None }
    }

    /// Copy the selected row's username (when it has one), then dismiss.
    pub fn copy_username(&mut self, now: u64) -> (e: MagnifyEffect)
        requires
            old(self).wf(),
        ensures
            username_outcome(old(self), final(self), now, e),
    {
        self.last_used = Some(now);
        if self.selected < self.results.len() {
            let subtitle = &self.results[self.selected].subtitle;
            if subtitle.as_str().unicode_len() > 0 {
                return MagnifyEffect::Hide { copy: Some(subtitle.clone()) };
            }
        }
        MagnifyEffect::Hide { copy: None }
    }

    /// Copy the selected row's first URI (when it has one), then dismiss.
    pub fn copy_uri(&mut self, now: u64) -> (e: MagnifyEffect)
        requires
            old(self).wf(),
        ensures
            uri_outcome(old(self), final(self), now, e),
    {
        self.last_used = Some(now);
        if self.selected < self.results.len() {
            match &self.results[self.selected].first_uri {
                Some(uri) => {
                    return MagnifyEffect::Hide { copy: Some(uri.clone()) };
                },
                None => {},
            }
        }
        MagnifyEffect::Hide { copy: None }
    }

    /// Ask for a secret field of the selected row: the request becomes the
    /// pending decrypt (only its completion may copy), the decrypt runs for
    /// the active user when one is signed in, and the launcher dismisses.
    /// Without a selected row that has an id nothing happens.
    pub fn copy_field(&mut self, session: &AppState, field: MagnifyField, now: u64) -> (e: MagnifyEffect)
        requires
            old(self).wf(),
        ensures
            copy_field_outcome(old(self), final(self), session, field, now, e),
    {
        if self.selected >= self.results.len() {
            return MagnifyEffect::Nothing;
        }
        let cid = match self.results[self.selected].id {
            Some(cid) => cid,
            None => return MagnifyEffect::Nothing,
        };
        self.pending_decrypt = Some((cid, field));
        let decrypt = match session.active_user {
            Some(uid) => {
                if session.has_user(uid) {
                    Some((uid, cid, field))
                } else {
                    None
                }
            },
            None => None,
        };
        self.last_used = Some(now);
        MagnifyEffect::DecryptAndHide { decrypt }
    }

    /// A field decrypt finished. A stale completion — another request is
    /// pending, the active user changed, or the user locked meanwhile —
    /// copies nothing and leaves the pending request alone. Otherwise the
    /// request is done and a decrypted value is returned for a sensitive
    /// copy.
    pub fn decrypt_completed(
        &mut self,
        session: &AppState,
        uid: UserId,
        cipher: CipherId,
        field: MagnifyField,
        result: Result<Option<String>, String>,
    ) -> (copy: Option<String>)
        ensures
            decrypt_outcome(old(self), final(self), session, uid, cipher, field, result, copy),
    {
        let live = match self.pending_decrypt {
            Some((c, f)) => c == cipher && f == field,
            None => false,
        };
        if !live || session.active_user != Some(uid) || !session.is_unlocked(uid) {
            return None;
        }
        self.pending_decrypt = None;
        match result {
            Ok(Some(v)) => Some(v),
            _ => None,
        }
    }

    /// "Open Bitwarden" from the locked launcher: dismiss it, then bring the
    /// main window up on the active user's unlock prompt (which drops the
    /// sticky search).
    pub fn open_main(&mut self, session: &mut AppState, now: u64) -> (e: MagnifyEffect)
        requires
            old(self).wf(),
        ensures
            open_main_outcome(old(self), final(self), old(session), final(session), now, e),
    {
        let _ = self.dismiss(now);
        let route = session.show_login_for_active();
        self.reset_sticky(session.active_user);
        MagnifyEffect::OpenMain(route)
    }
}

/// What the launcher's window and view report.
#[derive(Debug)]
pub enum MagnifyMessage {
    HotkeyPressed,
    WindowOpened,
    QueryChanged(String),
    NavigateUp,
    NavigateDown,
    RowClicked(usize),
    CopyFieldRequested(MagnifyField),
    FieldDecryptCompleted { uid: UserId, cipher: CipherId, field: MagnifyField, result: Result<Option<String>, String> },
    CopyUsernameRequested,
    CopyUriRequested,
    Hide,
    OpenMainWindow,
}

/// The session is as it was.
pub open spec fn session_unchanged(after: &AppState, before: &AppState) -> bool {
    &&& after.screen == before.screen
    &&& after.open_overlay == before.open_overlay
    &&& after.active_user == before.active_user
    &&& after.sidebar == before.sidebar
    &&& after.toasts@ == before.toasts@
    &&& after.accounts@ == before.accounts@
}

impl MagnifyState {
    /// Dispatch a launcher message at time `now` (ms).
    pub fn handle_message(&mut self, session: &mut AppState, msg: MagnifyMessage, now: u64) -> (e: MagnifyEffect)
        requires
            old(self).wf(),
        ensures
            final(self).wf(),
            !(msg is OpenMainWindow) ==> session_unchanged(final(session), old(session)),
            (match msg {
                MagnifyMessage::HotkeyPressed => hotkey_outcome(old(self), final(self), old(session), now, e),
                MagnifyMessage::WindowOpened => e is PrepareWindow && final(self).same_frame(old(self))
                    && final(self).query@ == old(self).query@ && final(self).results@ == old(self).results@
                    && final(self).selected == old(self).selected
                    && final(self).pending_decrypt == old(self).pending_decrypt
                    && final(self).last_used == old(self).last_used,
                MagnifyMessage::QueryChanged(q) => query_outcome(old(self), final(self), q, e),
                MagnifyMessage::NavigateUp => up_outcome(old(self), final(self), e),
                MagnifyMessage::NavigateDown => down_outcome(old(self), final(self), e),
                MagnifyMessage::RowClicked(i) => click_outcome(old(self), final(self), i) && e is Nothing,
                MagnifyMessage::CopyFieldRequested(f) => copy_field_outcome(old(self), final(self), old(session), f, now, e),
                MagnifyMessage::FieldDecryptCompleted { uid, cipher, field, result } => {
                    &&& (e is Nothing || e is CopySecret)
                    &&& decrypt_outcome(old(self), final(self), old(session), uid, cipher, field, result, match e {
                        MagnifyEffect::CopySecret(v) => Some(v),
                        _ => None,
                    })
                },
                MagnifyMessage::CopyUsernameRequested => username_outcome(old(self), final(self), now, e),
                MagnifyMessage::CopyUriRequested => uri_outcome(old(self), final(self), now, e),
                MagnifyMessage::Hide => dismiss_outcome(old(self), final(self), now, e),
                MagnifyMessage::OpenMainWindow => open_main_outcome(old(self), final(self), old(session), final(session), now, e),
            }),
    {
        match msg {
            MagnifyMessage::HotkeyPressed => self.hotkey(session, now),
            MagnifyMessage::WindowOpened => MagnifyEffect::PrepareWindow,
            MagnifyMessage::QueryChanged(q) => self.query_changed(q),
            MagnifyMessage::NavigateUp => self.navigate_up(),
            MagnifyMessage::NavigateDown => self.navigate_down(),
            MagnifyMessage::RowClicked(i) => {
                self.row_clicked(i);
                MagnifyEffect::Nothing
            },
            MagnifyMessage::CopyFieldRequested(f) => self.copy_field(session, f, now),
            MagnifyMessage::FieldDecryptCompleted { uid, cipher, field, result } => {
                match self.decrypt_completed(session, uid, cipher, field, result) {
                    Some(v) => MagnifyEffect::CopySecret(v),
                    None => MagnifyEffect::Nothing,
                }
            },
            MagnifyMessage::CopyUsernameRequested => self.copy_username(now),
            MagnifyMessage::CopyUriRequested => self.copy_uri(now),
            MagnifyMessage::Hide => self.dismiss(now),
            MagnifyMessage::OpenMainWindow => self.open_main(session, now),
        }
    }
}

impl MagnifyState {
    /// A key press in the launcher window: the launcher acts on the keys
    /// [`key_command`] maps (returning its effect) and passes on the rest
    /// (`None`, touching nothing).
    pub fn handle_key(&mut self, session: &mut AppState, key: MagnifyKey, cmd: bool, shift: bool, now: u64) -> (r: Option<MagnifyEffect>)
        requires
            old(self).wf(),
        ensures
            final(self).wf(),
            (match key_command_spec(key, cmd, shift, old(self).mode) {
                None => r is None && session_unchanged(final(session), old(session))
                    && final(self).same_frame(old(self)) && final(self).query@ == old(self).query@
                    && final(self).results@ == old(self).results@ && final(self).selected == old(self).selected
                    && final(self).pending_decrypt == old(self).pending_decrypt
                    && final(self).last_used == old(self).last_used,
                Some(c) => r matches Some(e) && (match c {
                    MagnifyCommand::Hide => dismiss_outcome(old(self), final(self), now, e),
                    MagnifyCommand::OpenMainWindow => open_main_outcome(old(self), final(self), old(session), final(session), now, e),
                    MagnifyCommand::NavigateUp => up_outcome(old(self), final(self), e),
                    MagnifyCommand::NavigateDown => down_outcome(old(self), final(self), e),
                    MagnifyCommand::CopyUsername => username_outcome(old(self), final(self), now, e),
                    MagnifyCommand::CopyField(f) => copy_field_outcome(old(self), final(self), old(session), f, now, e),
                    MagnifyCommand::CopyUri => uri_outcome(old(self), final(self), now, e),
                }) && (c !is OpenMainWindow ==> session_unchanged(final(session), old(session))),
            }),
    {
        let msg = match key_command(key, cmd, shift, self.mode) {
            None => return None,
            Some(MagnifyCommand::Hide) => MagnifyMessage::Hide,
            Some(MagnifyCommand::OpenMainWindow) => MagnifyMessage::OpenMainWindow,
            Some(MagnifyCommand::NavigateUp) => MagnifyMessage::NavigateUp,
            Some(MagnifyCommand::NavigateDown) => MagnifyMessage::NavigateDown,
            Some(MagnifyCommand::CopyUsername) => MagnifyMessage::CopyUsernameRequested,
            Some(MagnifyCommand::CopyField(f)) => MagnifyMessage::CopyFieldRequested(f),
            Some(MagnifyCommand::CopyUri) => MagnifyMessage::CopyUriRequested,
        };
        Some(self.handle_message(session, msg, now))
    }
}

} // verus!
