//! App-level overlay cell and the toast-routing contract.

use vstd::prelude::*;
use vstd::std_specs::cmp::PartialEqSpecImpl;

use crate::toast::Toast;

verus! {

/// App-level overlays with mutual-exclusion semantics: at most one open at a
/// time, so opening one replaces the previous by construction.
#[derive(Debug, Clone, Copy)]
pub enum Overlay {
    /// Submenus are single-level; the submenu index refers to a position
    /// inside the menu's entries.
    TitleBarMenu { menu: usize, submenu: Option<usize> },
    /// Disambiguated between login and vault by the current screen.
    AccountSwitcher,
    ServerSelector,
    /// Vault header "+New" button → cipher-type picker.
    NewItemMenu,
}

impl PartialEq for Overlay {
    fn eq(&self, other: &Self) -> (r: bool) {
        match (self, other) {
            (
                Overlay::TitleBarMenu { menu: m1, submenu: s1 },
                Overlay::TitleBarMenu { menu: m2, submenu: s2 },
            ) => {
                let same_sub = match (s1, s2) {
                    (Some(a), Some(b)) => *a == *b,
                    (None, None) => true,
                    _ => false,
                };
                *m1 == *m2 && same_sub
            },
            (Overlay::AccountSwitcher, Overlay::AccountSwitcher) => true,
            (Overlay::ServerSelector, Overlay::ServerSelector) => true,
            (Overlay::NewItemMenu, Overlay::NewItemMenu) => true,
            _ => false,
        }
    }
}

impl Eq for Overlay {
}

impl PartialEqSpecImpl for Overlay {
    open spec fn obeys_eq_spec() -> bool {
        true
    }

    open spec fn eq_spec(&self, other: &Overlay) -> bool {
        *self == *other
    }
}

/// Toast routing contract for the state type that surfaces toasts.
pub trait PushToast {
    fn push_toast(&mut self, toast: Toast);
}

} // verus!
