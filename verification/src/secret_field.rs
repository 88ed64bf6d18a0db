//! Secret fields with an eye toggle: the editable inputs and the read-only
//! detail field. The field owns whether its text is revealed; input, submit
//! and copy requests go to the caller.

use vstd::prelude::*;

verus! {

/// Bullets shown for a hidden value at most (so long secrets keep the row
/// width steady).
pub const MAX_BULLETS: usize = 24;

/// The bullet drawn per hidden character.
pub const BULLET: char = '\u{2022}';

/// What the user did in a secret input.
#[derive(Debug, Clone, PartialEq, Eq)]
pub enum RevealInputEvent {
    Input(String),
    Submit,
    Toggle,
}

/// What the user did on a read-only secret field.
#[derive(Debug, Clone, Copy, PartialEq, Eq, Structural)]
pub enum RevealFieldEvent {
    Toggle,
    Copy,
}

/// What a secret field hands to its owner.
#[derive(Debug, Clone, PartialEq, Eq)]
pub enum RevealRequest {
    /// The text changed to this.
    Input(String),
    Submit,
    Copy,
}

/// Whether the secret is shown in clear.
#[derive(Debug, Clone, Copy, PartialEq, Eq, Structural)]
pub struct RevealState {
    pub revealed: bool,
}

impl RevealState {
    pub fn new() -> (s: Self)
        ensures
            !s.revealed,
    {
        RevealState { revealed: false }
    }

    /// An input event: typing and Enter go to the owner (Enter only when the
    /// field submits), the eye flips the reveal state.
    pub fn update_input(&mut self, event: RevealInputEvent, submits: bool) -> (r: Option<RevealRequest>)
        ensures
            (match event {
                RevealInputEvent::Input(s) => final(self).revealed == old(self).revealed
                    && (r matches Some(RevealRequest::Input(t)) && t@ == s@),
                RevealInputEvent::Submit => final(self).revealed == old(self).revealed
                    && r == (if submits { Some(RevealRequest::Submit) } else { None }),
                RevealInputEvent::Toggle => final(self).revealed == !old(self).revealed && r is None,
            }),
    {
        match event {
            RevealInputEvent::Input(s) => Some(RevealRequest::Input(s)),
            RevealInputEvent::Submit => {
                if submits {
                    Some(RevealRequest::Submit)
                } else {
                    None
                }
            },
            RevealInputEvent::Toggle => {
                self.revealed = !self.revealed;
                None
            },
        }
    }

    /// A read-only field event: the eye flips the reveal state, copy goes
    /// to the owner when the field offers it.
    pub fn update_field(&mut self, event: RevealFieldEvent, copyable: bool) -> (r: Option<RevealRequest>)
        ensures
            (match event {
                RevealFieldEvent::Toggle => final(self).revealed == !old(self).revealed && r is None,
                RevealFieldEvent::Copy => final(self).revealed == old(self).revealed
                    && r == (if copyable { Some(RevealRequest::Copy) } else { None }),
            }),
    {
        match event {
            RevealFieldEvent::Toggle => {
                self.revealed = !self.revealed;
                None
            },
            RevealFieldEvent::Copy => {
                if copyable {
                    Some(RevealRequest::Copy)
                } else {
                    None
                }
            },
        }
    }
}

/// How many bullets stand for a hidden value of `len` characters: one per
/// character, at least one and at most [`MAX_BULLETS`].
pub open spec fn bullet_count(len: nat) -> nat {
    if len < 1 {
        1
    } else if len > MAX_BULLETS {
        MAX_BULLETS as nat
    } else {
        len
    }
}

/// The text a read-only secret field shows.
pub open spec fn display_spec(value: Seq<char>, revealed: bool) -> Seq<char> {
    if revealed {
        value
    } else {
        Seq::new(bullet_count(value.len()), |i: int| BULLET)
    }
}

/// The value in clear when revealed, else a row of bullets.
pub fn display_text(value: &str, revealed: bool) -> (t: String)
    ensures
        t@ == display_spec(value@, revealed),
{
    if revealed {
        return String::from_str(value);
    }
    let len = value.unicode_len();
    let n: usize = if len < 1 {
        1
    } else if len > MAX_BULLETS {
        MAX_BULLETS
    } else {
        len
    };
    let mut t = String::new();
    let mut i: usize = 0;
    proof {
        reveal_strlit("\u{2022}");
    }
    while i < n
        invariant
            i <= n,
            n == bullet_count(value@.len()),
            t@ == Seq::new(i as nat, |k: int| BULLET),
            "\u{2022}"@ == seq![BULLET],
        decreases n - i,
    {
        t.append("\u{2022}");
        i = i + 1;
        assert(t@ =~= Seq::new(i as nat, |k: int| BULLET));
    }
    t
}

} // verus!
