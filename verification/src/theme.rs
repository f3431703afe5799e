//! The global chrome theme and the dark-mode toggle.

use vstd::prelude::*;

verus! {

/// The theme applied to every window: light, dark, or follow the operating
/// system.  The theme is always global; no window carries an override.
#[derive(Clone, Copy, Debug, PartialEq, Eq, Structural)]
pub enum Theme {
    Light,
    Dark,
    System,
}

/// True when `s` spells "dark", compared without regard to ASCII case.
pub open spec fn is_dark_name(s: Seq<char>) -> bool {
    &&& s.len() == 4
    &&& (s[0] == 'd' || s[0] == 'D')
    &&& (s[1] == 'a' || s[1] == 'A')
    &&& (s[2] == 'r' || s[2] == 'R')
    &&& (s[3] == 'k' || s[3] == 'K')
}

/// True when `s` spells "light", compared without regard to ASCII case.
pub open spec fn is_light_name(s: Seq<char>) -> bool {
    &&& s.len() == 5
    &&& (s[0] == 'l' || s[0] == 'L')
    &&& (s[1] == 'i' || s[1] == 'I')
    &&& (s[2] == 'g' || s[2] == 'G')
    &&& (s[3] == 'h' || s[3] == 'H')
    &&& (s[4] == 't' || s[4] == 'T')
}

impl Theme {
    /// The theme reached by one press of the dark-mode toggle: light and
    /// dark swap, and `System` resolves to dark on the first press.
    pub open spec fn spec_toggled(self) -> Theme {
        match self {
            Theme::Light => Theme::Dark,
            Theme::Dark => Theme::Light,
            Theme::System => Theme::Dark,
        }
    }

    /// The canonical lower-case name of the theme, as persisted on disk.
    pub open spec fn spec_name(self) -> Seq<char> {
        match self {
            Theme::Light => seq!['l', 'i', 'g', 'h', 't'],
            Theme::Dark => seq!['d', 'a', 'r', 'k'],
            Theme::System => seq!['s', 'y', 's', 't', 'e', 'm'],
        }
    }

    /// The theme a name denotes: "dark" and "light" (in any ASCII case)
    /// name themselves, every other string falls back to `System`.
    pub open spec fn spec_of_name(s: Seq<char>) -> Theme {
        if is_dark_name(s) {
            Theme::Dark
        } else if is_light_name(s) {
            Theme::Light
        } else {
            Theme::System
        }
    }

    pub fn toggled(self) -> (r: Theme)
        ensures
            r == self.spec_toggled(),
    {
        match self {
            Theme::Light => Theme::Dark,
            Theme::Dark => Theme::Light,
            Theme::System => Theme::Dark,
        }
    }

    pub fn name(self) -> (r: &'static str)
        ensures
            r@ == self.spec_name(),
    {
        match self {
            Theme::Light => {
                let r = "light";
                proof {
                    reveal_strlit("light");
                    assert(r@ =~= self.spec_name());
                }
                r
            },
            Theme::Dark => {
                let r = "dark";
                proof {
                    reveal_strlit("dark");
                    assert(r@ =~= self.spec_name());
                }
                r
            },
            Theme::System => {
                let r = "system";
                proof {
                    reveal_strlit("system");
                    assert(r@ =~= self.spec_name());
                }
                r
            },
        }
    }

    /// Resolve a theme name as the shell does when a caller hands it one:
    /// ASCII-case-insensitive "dark" and "light", everything else `System`.
    pub fn of_name(s: &str) -> (t: Theme)
        ensures
            t == Theme::spec_of_name(s@),
    {
        let n = s.unicode_len();
        if n == 4 {
            let c0 = s.get_char(0);
            let c1 = s.get_char(1);
            let c2 = s.get_char(2);
            let c3 = s.get_char(3);
            if (c0 == 'd' || c0 == 'D') && (c1 == 'a' || c1 == 'A') && (c2 == 'r' || c2 == 'R')
                && (c3 == 'k' || c3 == 'K') {
                Theme::Dark
            } else {
                Theme::System
            }
        } else if n == 5 {
            let c0 = s.get_char(0);
            let c1 = s.get_char(1);
            let c2 = s.get_char(2);
            let c3 = s.get_char(3);
            let c4 = s.get_char(4);
            if (c0 == 'l' || c0 == 'L') && (c1 == 'i' || c1 == 'I') && (c2 == 'g' || c2 == 'G')
                && (c3 == 'h' || c3 == 'H') && (c4 == 't' || c4 == 'T') {
                Theme::Light
            } else {
                Theme::System
            }
        } else {
            Theme::System
        }
    }
}

/// Two presses of the dark-mode toggle return the theme to where it started,
/// for any theme that is not `System`.
pub proof fn lemma_toggle_involution(t: Theme)
    requires
        t != Theme::System,
    ensures
        t.spec_toggled().spec_toggled() == t,
{
}

/// From `System` the first press of the toggle resolves to dark.
pub proof fn lemma_toggle_system_resolves_dark()
    ensures
        Theme::System.spec_toggled() == Theme::Dark,
{
}

} // verus!
