//! Single-instance wake-up protocol: a second launch connects to the
//! primary's local socket and sends [`WAKE_SIGNAL`]; the primary surfaces
//! its window for every line that reads "show" once trimmed.

use vstd::prelude::*;

verus! {

/// Unix domain socket the primary listens on.
pub const SOCKET_PATH: &'static str = "/tmp/bitwarden-desktop-next.sock";

/// Named pipe the primary listens on (Windows).
pub const PIPE_NAME: &'static str = "\\\\.\\pipe\\bitwarden-desktop-next";

/// What a second launch sends to the primary.
pub const WAKE_SIGNAL: &'static str = "show\n";

/// `char::is_whitespace`: the Unicode `White_Space` property.
pub open spec fn is_whitespace(c: char) -> bool {
    ||| '\u{9}' <= c && c <= '\u{d}'
    ||| c == ' '
    ||| c == '\u{85}'
    ||| c == '\u{a0}'
    ||| c == '\u{1680}'
    ||| '\u{2000}' <= c && c <= '\u{200a}'
    ||| c == '\u{2028}'
    ||| c == '\u{2029}'
    ||| c == '\u{202f}'
    ||| c == '\u{205f}'
    ||| c == '\u{3000}'
}

pub open spec fn trim_start(s: Seq<char>) -> Seq<char>
    decreases s.len(),
{
    if s.len() > 0 && is_whitespace(s[0]) {
        trim_start(s.drop_first())
    } else {
        s
    }
}

pub open spec fn trim_end(s: Seq<char>) -> Seq<char>
    decreases s.len(),
{
    if s.len() > 0 && is_whitespace(s.last()) {
        trim_end(s.drop_last())
    } else {
        s
    }
}

/// `str::trim`: leading and trailing whitespace removed.
pub open spec fn trim(s: Seq<char>) -> Seq<char> {
    trim_end(trim_start(s))
}

pub fn char_is_whitespace(c: char) -> (r: bool)
    ensures
        r == is_whitespace(c),
{
    ('\u{9}' <= c && c <= '\u{d}') || c == ' ' || c == '\u{85}' || c == '\u{a0}' || c == '\u{1680}'
        || ('\u{2000}' <= c && c <= '\u{200a}') || c == '\u{2028}' || c == '\u{2029}' || c
        == '\u{202f}' || c == '\u{205f}' || c == '\u{3000}'
}

/// Bounds `(start, end)` of `trim(line)` inside `line`.
pub fn trim_bounds(line: &str) -> (r: (usize, usize))
    ensures
        r.0 <= r.1 <= line@.len(),
        line@.subrange(r.0 as int, r.1 as int) == trim(line@),
{
    let ghost s = line@;
    let n = line.unicode_len();
    let mut i: usize = 0;
    assert(s.subrange(0, n as int) =~= s);
    while i < n && char_is_whitespace(line.get_char(i))
        invariant
            s == line@,
            n == s.len(),
            i <= n,
            trim_start(s) == trim_start(s.subrange(i as int, n as int)),
        decreases n - i,
    {
        assert(s.subrange(i as int, n as int).drop_first() =~= s.subrange(i + 1, n as int));
        assert(s.subrange(i as int, n as int)[0] == s[i as int]);
        i = i + 1;
    }
    assert(trim_start(s.subrange(i as int, n as int)) == s.subrange(i as int, n as int));
    let mut j: usize = n;
    while j > i && char_is_whitespace(line.get_char(j - 1))
        invariant
            s == line@,
            n == s.len(),
            i <= j <= n,
            trim_end(s.subrange(i as int, n as int)) == trim_end(s.subrange(i as int, j as int)),
        decreases j - i,
    {
        assert(s.subrange(i as int, j as int).drop_last() =~= s.subrange(i as int, j - 1));
        assert(s.subrange(i as int, j as int).last() == s[j - 1]);
        j = j - 1;
    }
    assert(trim_end(s.subrange(i as int, j as int)) == s.subrange(i as int, j as int));
    (i, j)
}

/// A line read from the socket asks the primary to show itself.
pub fn is_wake_line(line: &str) -> (r: bool)
    ensures
        r == (trim(line@) == "show"@),
{
    proof {
        reveal_strlit("show");
    }
    let (a, b) = trim_bounds(line);
    let ghost t = line@.subrange(a as int, b as int);
    if b - a != 4 {
        assert(t.len() != "show"@.len());
        return false;
    }
    let r = line.get_char(a) == 's' && line.get_char(a + 1) == 'h' && line.get_char(a + 2) == 'o'
        && line.get_char(a + 3) == 'w';
    proof {
        if r {
            assert(t =~= "show"@);
        } else {
            if t == "show"@ {
                assert(t[0] == 's' && t[1] == 'h' && t[2] == 'o' && t[3] == 'w');
            }
        }
    }
    r
}

/// The signal a second launch sends is itself a wake line: the primary
/// surfaces its window on it.
pub proof fn lemma_wake_signal_wakes()
    ensures
        trim(WAKE_SIGNAL@) == "show"@,
{
    reveal_strlit("show\n");
    reveal_strlit("show");
    let s = WAKE_SIGNAL@;
    assert(!is_whitespace(s[0]));
    assert(trim_start(s) == s);
    assert(is_whitespace(s.last()));
    let t = s.drop_last();
    assert(!is_whitespace(t.last()));
    assert(trim_end(t) == t);
    assert(t =~= "show"@);
}

} // verus!
