//! The four behaviours that an invocation can select.

use vstd::prelude::*;

use crate::failure::Failure;
use crate::text::same_text;

verus! {

/// The behaviour that one invocation runs.
#[derive(Clone, Copy, Debug, PartialEq, Eq, Structural)]
pub enum Mode {
    /// Confirm that the backend can be reached.
    Check,
    /// Write a fixed key and read it back.
    Test,
    /// Publish one timestamped message.
    Pub,
    /// Listen on the channel for a bounded time.
    Sub,
}

/// The mode that a name selects, if it selects one. Names are matched
/// exactly: case, surrounding blanks and abbreviations are not tolerated.
pub open spec fn mode_named(name: Seq<char>) -> Option<Mode> {
    if name == "check"@ {
        Some(Mode::Check)
    } else if name == "test"@ {
        Some(Mode::Test)
    } else if name == "pub"@ {
        Some(Mode::Pub)
    } else if name == "sub"@ {
        Some(Mode::Sub)
    } else {
        None
    }
}

impl Mode {
    /// The name that selects this mode on the command line.
    pub open spec fn spec_name(self) -> Seq<char> {
        match self {
            Mode::Check => "check"@,
            Mode::Test => "test"@,
            Mode::Pub => "pub"@,
            Mode::Sub => "sub"@,
        }
    }

    /// The name that selects this mode on the command line.
    pub fn name(self) -> (name: &'static str)
        ensures
            name@ == self.spec_name(),
    {
        match self {
            Mode::Check => "check",
            Mode::Test => "test",
            Mode::Pub => "pub",
            Mode::Sub => "sub",
        }
    }
}

/// Selects the mode that `name` stands for.
///
/// Fails with [`Failure::UnsupportedMode`] exactly when `name` is none of
/// `check`, `test`, `pub` and `sub`.
pub fn parse_mode(name: &str) -> (parsed: Result<Mode, Failure>)
    ensures
        match mode_named(name@) {
            Some(mode) => parsed == Ok::<Mode, Failure>(mode),
            None => parsed == Err::<Mode, Failure>(Failure::UnsupportedMode),
        },
{
    if same_text(name, "check") {
        Ok(Mode::Check)
    } else if same_text(name, "test") {
        Ok(Mode::Test)
    } else if same_text(name, "pub") {
        Ok(Mode::Pub)
    } else if same_text(name, "sub") {
        Ok(Mode::Sub)
    } else {
        Err(Failure::UnsupportedMode)
    }
}

/// Every mode is selected by its own name, and by no other mode's.
pub proof fn lemma_mode_names_round_trip(mode: Mode)
    ensures
        mode_named(mode.spec_name()) == Some(mode),
{
    reveal_strlit("check");
    reveal_strlit("test");
    reveal_strlit("pub");
    reveal_strlit("sub");
    assert("check"@.len() == 5);
    assert("test"@.len() == 4);
    assert("pub"@[0] == 'p');
    assert("sub"@[0] == 's');
}

} // verus!
