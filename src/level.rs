use vstd::prelude::*;

verus! {

/// Severity of a log event, from least to most severe.
#[derive(Clone, Copy, Debug, PartialEq, Eq, Structural)]
pub enum Level {
    Trace,
    Debug,
    Info,
    Warn,
    Error,
    Critical,
}

/// Position of a level in the severity order.
pub open spec fn ordinal(level: Level) -> nat {
    match level {
        Level::Trace => 0,
        Level::Debug => 1,
        Level::Info => 2,
        Level::Warn => 3,
        Level::Error => 4,
        Level::Critical => 5,
    }
}

/// Canonical lowercase name of a level.
pub open spec fn name_of(level: Level) -> Seq<char> {
    match level {
        Level::Trace => seq!['t', 'r', 'a', 'c', 'e'],
        Level::Debug => seq!['d', 'e', 'b', 'u', 'g'],
        Level::Info => seq!['i', 'n', 'f', 'o'],
        Level::Warn => seq!['w', 'a', 'r', 'n'],
        Level::Error => seq!['e', 'r', 'r', 'o', 'r'],
        Level::Critical => seq!['c', 'r', 'i', 't', 'i', 'c', 'a', 'l'],
    }
}

/// Code point of a character with ASCII upper case folded to lower case.
pub open spec fn folded(c: char) -> u32 {
    if 'A' <= c && c <= 'Z' {
        (c as u32 + 32) as u32
    } else {
        c as u32
    }
}

/// Two strings are equal when ASCII letter case is ignored.
pub open spec fn equal_ignoring_case(s: Seq<char>, t: Seq<char>) -> bool {
    &&& s.len() == t.len()
    &&& forall|i: int| 0 <= i < s.len() ==> #[trigger] folded(s[i]) == folded(t[i])
}

/// The level that a configuration string names, if any.
pub open spec fn parse_level(s: Seq<char>) -> Option<Level> {
    if equal_ignoring_case(s, name_of(Level::Trace)) {
        Some(Level::Trace)
    } else if equal_ignoring_case(s, name_of(Level::Debug)) {
        Some(Level::Debug)
    } else if equal_ignoring_case(s, name_of(Level::Info)) {
        Some(Level::Info)
    } else if equal_ignoring_case(s, name_of(Level::Warn)) {
        Some(Level::Warn)
    } else if equal_ignoring_case(s, name_of(Level::Error)) {
        Some(Level::Error)
    } else if equal_ignoring_case(s, name_of(Level::Critical)) {
        Some(Level::Critical)
    } else {
        None
    }
}

fn fold_char(c: char) -> (r: u32)
    ensures
        r == folded(c),
{
    if 'A' <= c && c <= 'Z' {
        c as u32 + 32
    } else {
        c as u32
    }
}

/// Compares two strings, ignoring ASCII letter case.
pub fn eq_ignoring_case(s: &str, t: &str) -> (r: bool)
    ensures
        r == equal_ignoring_case(s@, t@),
{
    let n = s.unicode_len();
    if n != t.unicode_len() {
        return false;
    }
    let mut i: usize = 0;
    while i < n
        invariant
            n == s@.len(),
            n == t@.len(),
            i <= n,
            forall|j: int| 0 <= j < i ==> #[trigger] folded(s@[j]) == folded(t@[j]),
        decreases n - i,
    {
        if fold_char(s.get_char(i)) != fold_char(t.get_char(i)) {
            return false;
        }
        i = i + 1;
    }
    true
}

impl Level {
    /// The canonical lowercase name of this level.
    pub fn name(self) -> (r: &'static str)
        ensures
            r@ == name_of(self),
    {
        match self {
            Level::Trace => {
                proof {
                    reveal_strlit("trace");
                }
                "trace"
            },
            Level::Debug => {
                proof {
                    reveal_strlit("debug");
                }
                "debug"
            },
            Level::Info => {
                proof {
                    reveal_strlit("info");
                }
                "info"
            },
            Level::Warn => {
                proof {
                    reveal_strlit("warn");
                }
                "warn"
            },
            Level::Error => {
                proof {
                    reveal_strlit("error");
                }
                "error"
            },
            Level::Critical => {
                proof {
                    reveal_strlit("critical");
                }
                "critical"
            },
        }
    }
}

/// Formatting a level to its lowercase name and parsing that name gives the
/// level back.
pub proof fn lemma_name_round_trip(level: Level)
    ensures
        parse_level(name_of(level)) == Some(level),
{
    assert(folded(name_of(Level::Debug)[0]) != folded(name_of(Level::Trace)[0]));
    assert(folded(name_of(Level::Warn)[0]) != folded(name_of(Level::Info)[0]));
    assert(folded(name_of(Level::Error)[0]) != folded(name_of(Level::Trace)[0]));
    assert(folded(name_of(Level::Error)[0]) != folded(name_of(Level::Debug)[0]));
    assert(equal_ignoring_case(name_of(level), name_of(level)));
}

/// Parsing ignores ASCII letter case: strings equal up to case parse alike.
pub proof fn lemma_parse_ignores_case(s: Seq<char>, t: Seq<char>)
    requires
        equal_ignoring_case(s, t),
    ensures
        parse_level(s) == parse_level(t),
{
    assert forall|name: Seq<char>|
        equal_ignoring_case(s, name) == equal_ignoring_case(t, name) by {
        if equal_ignoring_case(s, name) {
            assert forall|i: int| 0 <= i < t.len() implies #[trigger] folded(t[i]) == folded(
                name[i],
            ) by {
                assert(folded(s[i]) == folded(t[i]));
            }
        }
        if equal_ignoring_case(t, name) {
            assert forall|i: int| 0 <= i < s.len() implies #[trigger] folded(s[i]) == folded(
                name[i],
            ) by {
                assert(folded(s[i]) == folded(t[i]));
            }
        }
    }
}

/// A string that names no level up to case parses to no match.
pub proof fn lemma_unknown_name(s: Seq<char>)
    requires
        forall|level: Level| !equal_ignoring_case(s, #[trigger] name_of(level)),
    ensures
        parse_level(s) is None,
{
    assert(!equal_ignoring_case(s, name_of(Level::Trace)));
    assert(!equal_ignoring_case(s, name_of(Level::Debug)));
    assert(!equal_ignoring_case(s, name_of(Level::Info)));
    assert(!equal_ignoring_case(s, name_of(Level::Warn)));
    assert(!equal_ignoring_case(s, name_of(Level::Error)));
    assert(!equal_ignoring_case(s, name_of(Level::Critical)));
}

} // verus!
