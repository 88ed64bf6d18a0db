//! Account-switcher messages and their lift into app-level events.

use vstd::prelude::*;
use vstd::std_specs::cmp::PartialEqSpec;

use crate::ctx::Overlay;
use crate::backend::str_equals;
use crate::domain::UserId;
use crate::session::{any_unlocked, AccountEntry};

verus! {

#[derive(Debug, Clone, Copy, PartialEq, Eq, Structural)]
pub enum AccountSwitcherMessage {
    ToggleDropdown,
    SwitchUser(UserId),
    AddAccount,
    LockAll,
    Settings,
    LockActive,
    LogOut,
}

/// App-level semantics the account switcher can request.
#[derive(Debug, Clone, Copy, PartialEq, Eq, Structural)]
pub enum AccountSwitcherEvent {
    SwitchUser { uid: UserId },
    AddAccount,
    LockAll,
    Settings,
    LockActive,
    LogOut,
}

/// The event a switcher message lifts to; `ToggleDropdown` only flips the
/// overlay and lifts to nothing.
pub open spec fn event_of(msg: AccountSwitcherMessage) -> Option<AccountSwitcherEvent> {
    match msg {
        AccountSwitcherMessage::ToggleDropdown => None,
        AccountSwitcherMessage::SwitchUser(uid) => Some(AccountSwitcherEvent::SwitchUser { uid }),
        AccountSwitcherMessage::AddAccount => Some(AccountSwitcherEvent::AddAccount),
        AccountSwitcherMessage::LockAll => Some(AccountSwitcherEvent::LockAll),
        AccountSwitcherMessage::Settings => Some(AccountSwitcherEvent::Settings),
        AccountSwitcherMessage::LockActive => Some(AccountSwitcherEvent::LockActive),
        AccountSwitcherMessage::LogOut => Some(AccountSwitcherEvent::LogOut),
    }
}

/// Only the dropdown toggle stays inside the switcher; every other message
/// lifts to an event, and different messages lift to different events, so
/// no two buttons ask for the same thing.
pub proof fn lemma_lift_is_injective(a: AccountSwitcherMessage, b: AccountSwitcherMessage)
    ensures
        event_of(a) is None <==> a is ToggleDropdown,
        event_of(a) is Some && event_of(a) == event_of(b) ==> a == b,
        event_of(AccountSwitcherMessage::SwitchUser(0)) != event_of(AccountSwitcherMessage::SwitchUser(1)),
{
}

/// The overlay cell after toggling the switcher's own overlay `mine`: closed
/// when `mine` was the open one, otherwise `mine` opens (replacing any other).
pub open spec fn toggled<O: PartialEq>(cur: Option<O>, mine: O) -> Option<O> {
    if cur matches Some(o) && o.eq_spec(&mine) {
        None
    } else {
        Some(mine)
    }
}

/// Toggling the switcher's overlay never leaves another overlay open; it
/// closes the cell exactly when the switcher's own overlay was the open one,
/// and a second toggle restores a closed or own-open cell.
pub proof fn lemma_toggle_is_exclusive(cur: Option<Overlay>, mine: Overlay)
    ensures
        toggled(cur, mine) is None || toggled(cur, mine) == Some(mine),
        toggled(cur, mine) is None <==> cur == Some(mine),
        (cur is None || cur == Some(mine)) ==> toggled(toggled(cur, mine), mine) == cur,
{
}

impl AccountSwitcherMessage {
    /// Lift a non-toggle message into its app-level event.
    pub fn into_event(self) -> (e: Option<AccountSwitcherEvent>)
        ensures
            e == event_of(self),
    {
        match self {
            AccountSwitcherMessage::ToggleDropdown => None,
            AccountSwitcherMessage::SwitchUser(uid) => Some(AccountSwitcherEvent::SwitchUser { uid }),
            AccountSwitcherMessage::AddAccount => Some(AccountSwitcherEvent::AddAccount),
            AccountSwitcherMessage::LockAll => Some(AccountSwitcherEvent::LockAll),
            AccountSwitcherMessage::Settings => Some(AccountSwitcherEvent::Settings),
            AccountSwitcherMessage::LockActive => Some(AccountSwitcherEvent::LockActive),
            AccountSwitcherMessage::LogOut => Some(AccountSwitcherEvent::LogOut),
        }
    }

    /// Apply a switcher message to the caller-owned overlay cell:
    /// `ToggleDropdown` flips it on/off against `self_overlay`; every other
    /// message closes any open overlay and returns its event.
    pub fn consume<O: Copy + PartialEq>(self, open_overlay: &mut Option<O>, self_overlay: O) -> (e: Option<AccountSwitcherEvent>)
        ensures
            e == event_of(self),
            self is ToggleDropdown ==> (*final(open_overlay) is None || *final(open_overlay) == Some(self_overlay)),
            self is ToggleDropdown && O::obeys_eq_spec() ==> *final(open_overlay) == toggled(*old(open_overlay), self_overlay),
            !(self is ToggleDropdown) ==> *final(open_overlay) is None,
    {
        match self {
            AccountSwitcherMessage::ToggleDropdown => {
                let is_mine = match *open_overlay {
                    Some(o) => o == self_overlay,
                    None => false,
                };
                *open_overlay = if is_mine {
                    None
                } else {
                    Some(self_overlay)
                };
                None
            },
            other => {
                *open_overlay = None;
                other.into_event()
            },
        }
    }
}

/// The switcher's drop-down panel, as registry positions: the active
/// account's card, the "other accounts" rows, and whether "Lock all" is
/// offered ("Settings" and "Add account" always are).
#[derive(Debug, Clone)]
pub struct SwitcherPanel {
    /// Shown only while the active account is unlocked: its card's "Lock
    /// now" and "Log out" do not apply to a locked account.
    pub active_card: Option<usize>,
    /// Every other entry (a locked active account lands here, so a click
    /// unlocks it), in registry order.
    pub others: Vec<usize>,
    pub lock_all: bool,
}

/// `i` is the first registry position with this email.
pub open spec fn is_first_email(accounts: Seq<AccountEntry>, email: Seq<char>, i: int) -> bool {
    &&& 0 <= i < accounts.len()
    &&& accounts[i].email@ == email
    &&& forall|k: int| 0 <= k < i ==> #[trigger] accounts[k].email@ != email
}

/// Positions among the first `n` entries whose user is not `skip`.
pub open spec fn others_upto(accounts: Seq<AccountEntry>, skip: Option<UserId>, n: nat) -> Seq<usize>
    decreases n,
{
    if n == 0 {
        Seq::empty()
    } else {
        let prev = others_upto(accounts, skip, (n - 1) as nat);
        if Some(accounts[n - 1].user_id) != skip {
            prev.push((n - 1) as usize)
        } else {
            prev
        }
    }
}

fn first_email_index(accounts: &[AccountEntry], email: &str) -> (r: Option<usize>)
    ensures
        r matches Some(i) ==> is_first_email(accounts@, email@, i as int),
        r is None ==> forall|k: int| 0 <= k < accounts@.len() ==> #[trigger] accounts@[k].email@ != email@,
{
    let mut i: usize = 0;
    while i < accounts.len()
        invariant
            i <= accounts@.len(),
            forall|k: int| 0 <= k < i ==> #[trigger] accounts@[k].email@ != email@,
        decreases accounts@.len() - i,
    {
        if str_equals(accounts[i].email.as_str(), email) {
            return Some(i);
        }
        i = i + 1;
    }
    None
}

/// Lay out the switcher panel for the active account's email.
pub fn switcher_panel(active_email: Option<&str>, accounts: &[AccountEntry]) -> (p: SwitcherPanel)
    ensures
        (match p.active_card {
            Some(i) => active_email matches Some(e) && is_first_email(accounts@, e@, i as int)
                && !accounts@[i as int].locked,
            None => active_email matches Some(e) ==> forall|i: int| #[trigger] is_first_email(accounts@, e@, i)
                ==> accounts@[i].locked,
        }),
        p.others@ == others_upto(
            accounts@,
            match p.active_card {
                Some(i) => Some(accounts@[i as int].user_id),
                None => None,
            },
            accounts@.len(),
        ),
        p.lock_all == any_unlocked(accounts@),
{
    let active_card = match active_email {
        Some(e) => match first_email_index(accounts, e) {
            Some(i) => {
                if accounts[i].locked {
                    None
                } else {
                    Some(i)
                }
            },
            None => None,
        },
        None => None,
    };
    proof {
        if active_card is None && active_email is Some {
            let e = active_email->0;
            assert forall|i: int| #[trigger] is_first_email(accounts@, e@, i) implies accounts@[i].locked by {
                if exists|j: int| is_first_email(accounts@, e@, j) && !accounts@[j].locked {
                    let j = choose|j: int| is_first_email(accounts@, e@, j) && !accounts@[j].locked;
                    if i < j {
                        assert(accounts@[i].email@ != e@);
                    } else if j < i {
                        assert(accounts@[j].email@ != e@);
                    }
                }
            }
        }
    }
    let skip: Option<UserId> = match active_card {
        Some(i) => Some(accounts[i].user_id),
        None => None,
    };
    let mut others: Vec<usize> = Vec::new();
    let mut lock_all = false;
    let mut j: usize = 0;
    while j < accounts.len()
        invariant
            j <= accounts@.len(),
            others@ == others_upto(accounts@, skip, j as nat),
            lock_all == exists|k: int| 0 <= k < j && !(#[trigger] accounts@[k]).locked,
        decreases accounts@.len() - j,
    {
        if Some(accounts[j].user_id) != skip {
            others.push(j);
        }
        if !accounts[j].locked {
            lock_all = true;
        }
        j = j + 1;
    }
    SwitcherPanel { active_card, others, lock_all }
}

/// `str::to_uppercase`: the uppercase mapping of the Unicode `Uppercase`
/// property (one character may map to several).
pub uninterp spec fn uppercase(s: Seq<char>) -> Seq<char>;

/// Calls `str::to_uppercase`; the result is named by [`uppercase`].
#[verifier::external_body]
fn to_uppercase(s: &str) -> (r: String)
    ensures
        r@ == uppercase(s@),
{
    s.to_uppercase()
}

/// The first two characters of `email` (fewer for a shorter one).
pub open spec fn initials_source(email: Seq<char>) -> Seq<char> {
    email.take(if email.len() < 2 { email.len() as int } else { 2 })
}

/// Text of an account's avatar: the email's first two characters,
/// uppercased.
pub fn avatar_initials(email: &str) -> (t: String)
    ensures
        t@ == uppercase(initials_source(email@)),
{
    let n = email.unicode_len();
    let k: usize = if n < 2 { n } else { 2 };
    let head = email.substring_char(0, k);
    assert(head@ =~= initials_source(email@));
    to_uppercase(head)
}

} // verus!
