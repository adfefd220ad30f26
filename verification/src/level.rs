//! Severity levels: their order, their names, and how a verbosity word is read.

use std::str::FromStr;
use vstd::prelude::*;

verus! {

/// How severe a record is. `Error` is the most severe and has the lowest rank.
#[derive(Clone, Copy, Debug, PartialEq, Eq, Hash, Structural)]
pub enum Level {
    Error,
    Warn,
    Info,
    Debug,
    Trace,
}

/// The level that stands in when no verbosity is given, or one that names no level.
pub const DEFAULT_LOG_LEVEL: Level = Level::Error;

/// An ASCII capital letter becomes its small letter; every other character stays.
pub open spec fn ascii_lower(c: char) -> char {
    if 'A' <= c && c <= 'Z' {
        ((c as u8) + 32) as char
    } else {
        c
    }
}

/// Two texts are the same but for the case of their ASCII letters.
pub open spec fn same_ignoring_ascii_case(a: Seq<char>, b: Seq<char>) -> bool {
    &&& a.len() == b.len()
    &&& forall|i: int| 0 <= i < a.len() ==> ascii_lower(#[trigger] a[i]) == ascii_lower(b[i])
}

impl Level {
    /// The position of the level in the order of decreasing severity.
    pub open spec fn rank(self) -> nat {
        match self {
            Level::Error => 1,
            Level::Warn => 2,
            Level::Info => 3,
            Level::Debug => 4,
            Level::Trace => 5,
        }
    }

    /// The canonical name of the level, in capitals.
    pub open spec fn name(self) -> Seq<char> {
        match self {
            Level::Error => "ERROR"@,
            Level::Warn => "WARN"@,
            Level::Info => "INFO"@,
            Level::Debug => "DEBUG"@,
            Level::Trace => "TRACE"@,
        }
    }

    /// The level that `text` names, letter case aside, if it names one.
    pub open spec fn named(text: Seq<char>) -> Option<Level> {
        if same_ignoring_ascii_case(text, Level::Error.name()) {
            Some(Level::Error)
        } else if same_ignoring_ascii_case(text, Level::Warn.name()) {
            Some(Level::Warn)
        } else if same_ignoring_ascii_case(text, Level::Info.name()) {
            Some(Level::Info)
        } else if same_ignoring_ascii_case(text, Level::Debug.name()) {
            Some(Level::Debug)
        } else if same_ignoring_ascii_case(text, Level::Trace.name()) {
            Some(Level::Trace)
        } else {
            None
        }
    }

    /// `self` is at least as severe as `other`.
    pub open spec fn at_least(self, other: Level) -> bool {
        self.rank() <= other.rank()
    }

    /// The rank as a machine integer.
    pub fn ordinal(self) -> (r: u8)
        ensures
            r == self.rank(),
    {
        match self {
            Level::Error => 1,
            Level::Warn => 2,
            Level::Info => 3,
            Level::Debug => 4,
            Level::Trace => 5,
        }
    }
}

/// `log::ParseLevelError`, the error of a text that names no level. It holds
/// nothing and is carried through as it is.
#[verifier::external_type_specification]
#[verifier::external_body]
pub struct ExParseLevelError(log::ParseLevelError);

/// `log::Level::from_str`. It tries the five names in the order of the ranks
/// and accepts the first that equals `text` but for the case of ASCII letters;
/// a text that equals none of them is an error. `OFF` is no level.
#[verifier::external_body]
pub(crate) fn level_from_str(text: &str) -> (r: Result<Level, log::ParseLevelError>)
    ensures
        r is Ok <==> Level::named(text@) is Some,
        r matches Ok(level) ==> Level::named(text@) == Some(level),
{
    match log::Level::from_str(text) {
        Ok(log::Level::Error) => Ok(Level::Error),
        Ok(log::Level::Warn) => Ok(Level::Warn),
        Ok(log::Level::Info) => Ok(Level::Info),
        Ok(log::Level::Debug) => Ok(Level::Debug),
        Ok(log::Level::Trace) => Ok(Level::Trace),
        Err(e) => Err(e),
    }
}

/// `log::Level::as_str`: the name of the level in capitals.
#[verifier::external_body]
pub(crate) fn level_as_str(level: Level) -> (r: &'static str)
    ensures
        r@ == level.name(),
{
    let outside = match level {
        Level::Error => log::Level::Error,
        Level::Warn => log::Level::Warn,
        Level::Info => log::Level::Info,
        Level::Debug => log::Level::Debug,
        Level::Trace => log::Level::Trace,
    };
    outside.as_str()
}

/// The threshold that a verbosity argument stands for: the level it names,
/// and the default where it is absent or names none.
pub open spec fn threshold_of(verbosity: Option<Seq<char>>) -> Level {
    match verbosity {
        Some(text) => match Level::named(text) {
            Some(level) => level,
            None => DEFAULT_LOG_LEVEL,
        },
        None => DEFAULT_LOG_LEVEL,
    }
}

/// The view of an optional text.
pub open spec fn text_of(arg: Option<&str>) -> Option<Seq<char>> {
    match arg {
        Some(text) => Some(text@),
        None => None,
    }
}

/// Reads a verbosity argument. It never fails: an absent argument and one that
/// names no level both give the default.
pub fn parse_log_level(arg: Option<&str>) -> (level: Level)
    ensures
        level == threshold_of(text_of(arg)),
{
    match arg {
        None => DEFAULT_LOG_LEVEL,
        Some(text) => match level_from_str(text) {
            Ok(level) => level,
            Err(_) => DEFAULT_LOG_LEVEL,
        },
    }
}

/// A text that equals the name of a level, in whatever letter case, is read
/// as that level, and as no other.
pub proof fn lemma_name_in_any_case_is_read(text: Seq<char>, level: Level)
    requires
        same_ignoring_ascii_case(text, level.name()),
    ensures
        Level::named(text) == Some(level),
        threshold_of(Some(text)) == level,
{
    lemma_first_letters();
    assert(text.len() > 0);
    assert(ascii_lower(text[0]) == ascii_lower(level.name()[0]));
}

/// An absent verbosity, and a text that equals no level's name even with the
/// letter case set aside, are read as `Error`.
pub proof fn lemma_unrecognized_is_default(verbosity: Option<Seq<char>>)
    requires
        verbosity matches Some(text) ==> forall|level: Level|
            !same_ignoring_ascii_case(text, #[trigger] level.name()),
    ensures
        threshold_of(verbosity) == Level::Error,
{
    if let Some(text) = verbosity {
        assert(!same_ignoring_ascii_case(text, Level::Error.name()));
        assert(!same_ignoring_ascii_case(text, Level::Warn.name()));
        assert(!same_ignoring_ascii_case(text, Level::Info.name()));
        assert(!same_ignoring_ascii_case(text, Level::Debug.name()));
        assert(!same_ignoring_ascii_case(text, Level::Trace.name()));
    }
}

/// The empty text names no level.
pub proof fn lemma_empty_names_no_level()
    ensures
        Level::named(Seq::<char>::empty()) is None,
        threshold_of(Some(Seq::<char>::empty())) == Level::Error,
{
    lemma_first_letters();
}

/// Every name is nonempty, and the five names start with five different letters.
proof fn lemma_first_letters()
    ensures
        forall|level: Level| (#[trigger] level.name()).len() > 0,
        ascii_lower(Level::Error.name()[0]) == 'e',
        ascii_lower(Level::Warn.name()[0]) == 'w',
        ascii_lower(Level::Info.name()[0]) == 'i',
        ascii_lower(Level::Debug.name()[0]) == 'd',
        ascii_lower(Level::Trace.name()[0]) == 't',
{
    reveal_strlit("ERROR");
    reveal_strlit("WARN");
    reveal_strlit("INFO");
    reveal_strlit("DEBUG");
    reveal_strlit("TRACE");
}

} // verus!
