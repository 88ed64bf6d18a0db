//! Wrappers for message payloads that must not be logged in full: secrets
//! print as `<hidden>`, bulk loads as `<{n} items>`. Both read through to
//! the wrapped value.

use vstd::prelude::*;

verus! {

/// A cleartext secret: its debug text is `<hidden>`.
#[derive(Clone)]
pub struct NoDebug<T>(pub T);

/// A bulk load: its debug text is the item count.
#[derive(Clone)]
pub struct Summary<T>(pub T);

impl<T> core::ops::Deref for NoDebug<T> {
    type Target = T;

    fn deref(&self) -> (r: &T)
        ensures
            *r == self.0,
    {
        &self.0
    }
}

impl<T> core::ops::Deref for Summary<T> {
    type Target = T;

    fn deref(&self) -> (r: &T)
        ensures
            *r == self.0,
    {
        &self.0
    }
}

impl<T> NoDebug<T> {
    /// What a debug print of the wrapper shows.
    pub fn debug_text(&self) -> (s: &'static str)
        ensures
            s@ == "<hidden>"@,
    {
        "<hidden>"
    }
}

/// The decimal digits of `n`, most significant first.
pub open spec fn decimal(n: nat) -> Seq<char>
    decreases n,
{
    if n < 10 {
        seq![digit_char(n)]
    } else {
        decimal(n / 10).push(digit_char(n % 10))
    }
}

pub open spec fn digit_char(d: nat) -> char {
    if d == 0 { '0' } else if d == 1 { '1' } else if d == 2 { '2' } else if d == 3 { '3' } else if d == 4 {
        '4'
    } else if d == 5 { '5' } else if d == 6 { '6' } else if d == 7 { '7' } else if d == 8 { '8' } else {
        '9'
    }
}

fn digit_str(d: usize) -> (s: &'static str)
    requires
        d < 10,
    ensures
        s@ == seq![digit_char(d as nat)],
{
    proof {
        reveal_strlit("0");
        reveal_strlit("1");
        reveal_strlit("2");
        reveal_strlit("3");
        reveal_strlit("4");
        reveal_strlit("5");
        reveal_strlit("6");
        reveal_strlit("7");
        reveal_strlit("8");
        reveal_strlit("9");
    }
    if d == 0 {
        "0"
    } else if d == 1 {
        "1"
    } else if d == 2 {
        "2"
    } else if d == 3 {
        "3"
    } else if d == 4 {
        "4"
    } else if d == 5 {
        "5"
    } else if d == 6 {
        "6"
    } else if d == 7 {
        "7"
    } else if d == 8 {
        "8"
    } else {
        "9"
    }
}

/// `n` in decimal.
pub fn decimal_string(n: usize) -> (s: String)
    ensures
        s@ == decimal(n as nat),
    decreases n,
{
    if n < 10 {
        String::from_str(digit_str(n))
    } else {
        let mut s = decimal_string(n / 10);
        s.append(digit_str(n % 10));
        s
    }
}

/// `<{n} items>`.
pub open spec fn summary_text(n: nat) -> Seq<char> {
    seq!['<'] + decimal(n) + " items>"@
}

impl<T> Summary<Vec<T>> {
    /// What a debug print of the wrapper shows.
    pub fn debug_text(&self) -> (s: String)
        ensures
            s@ == summary_text(self.0@.len()),
    {
        let mut s = String::from_str("<");
        proof {
            reveal_strlit("<");
        }
        s.append(decimal_string(self.0.len()).as_str());
        s.append(" items>");
        s
    }
}

} // verus!
