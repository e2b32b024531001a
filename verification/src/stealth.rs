//! The stealth controller: it decides under which short name this process
//! is to be shown and keeps track of the name that the platform accepted.
//!
//! Setting the name is the platform's work. The caller asks the platform to
//! show a name and hands its answer to the controller, which turns it into
//! success or an error and remembers the name on success.

use crate::text::{chars_of, decimal, decimal_text};
use vstd::prelude::*;
use vstd::string::StringExecFns;

verus! {

/// What the platform answered to a request to show a name.
#[derive(Debug, Clone, Copy, PartialEq, Eq, Structural)]
pub enum PlatformAnswer {
    /// The platform has no way to set the name of a process.
    Unsupported,
    /// The status that the platform returned; zero means done.
    Status(i32),
}

/// Why a name could not be set.
#[derive(Debug, Clone, Copy, PartialEq, Eq, Structural)]
pub enum StealthError {
    /// The platform has no way to set the name of a process.
    Unsupported,
    /// The name holds a NUL character.
    InvalidName,
    /// The platform refused, with this status.
    Refused(i32),
}

/// What the error says to the user.
pub open spec fn error_text(error: StealthError) -> Seq<char> {
    match error {
        StealthError::Unsupported => "Stealth mode only supported on Linux"@,
        StealthError::InvalidName => "Invalid process name"@,
        StealthError::Refused(status) => "Failed to set process name: "@ + decimal(status as int),
    }
}

impl StealthError {
    /// What the error says to the user. A refusal names the status that the
    /// platform returned.
    pub fn message(&self) -> (r: String)
        ensures
            r@ == error_text(*self),
    {
        match self {
            StealthError::Unsupported => String::from_str("Stealth mode only supported on Linux"),
            StealthError::InvalidName => String::from_str("Invalid process name"),
            StealthError::Refused(status) => {
                let mut r = String::from_str("Failed to set process name: ");
                r.append(decimal_text(*status as i64).as_str());
                r
            },
        }
    }
}

/// The name that disguises this process.
pub open spec fn decoy_name() -> Seq<char> {
    "systemd-resolve"@
}

/// The name under which this process runs undisguised.
pub open spec fn original_name() -> Seq<char> {
    "ficha-app"@
}

/// A name can be handed to the platform if it holds no NUL character.
pub open spec fn valid_name(name: Seq<char>) -> bool {
    forall|i: int| 0 <= i < name.len() ==> name[i] != '\0'
}

/// How a request to show `name` ends, given the platform's answer.
pub open spec fn set_name_outcome(name: Seq<char>, answer: PlatformAnswer) -> Result<
    (),
    StealthError,
> {
    match answer {
        PlatformAnswer::Unsupported => Err(StealthError::Unsupported),
        PlatformAnswer::Status(status) => if !valid_name(name) {
            Err(StealthError::InvalidName)
        } else if status == 0 {
            Ok(())
        } else {
            Err(StealthError::Refused(status))
        },
    }
}

/// The name on record after a request to show `name`: `name` where the
/// request succeeded, else what was on record before.
pub open spec fn name_after(shown: Option<Seq<char>>, name: Seq<char>, answer: PlatformAnswer)
    -> Option<Seq<char>> {
    if set_name_outcome(name, answer) is Ok {
        Some(name)
    } else {
        shown
    }
}

/// Remembers the name that the platform accepted last.
pub struct StealthMode {
    shown: Option<String>,
}

impl View for StealthMode {
    type V = Option<Seq<char>>;

    closed spec fn view(&self) -> Option<Seq<char>> {
        match self.shown {
            Some(name) => Some(name@),
            None => None,
        }
    }
}

/// Whether `name` holds no NUL character.
pub fn is_valid_name(name: &str) -> (r: bool)
    ensures
        r == valid_name(name@),
{
    let chars = chars_of(name);
    let mut i: usize = 0;
    while i < chars.len()
        invariant
            chars@ == name@,
            i <= chars.len(),
            forall|j: int| 0 <= j < i ==> chars@[j] != '\0',
        decreases chars.len() - i,
    {
        if chars[i] == '\0' {
            assert(name@[i as int] == '\0');
            return false;
        }
        i += 1;
    }
    true
}

impl StealthMode {
    /// A controller that has set no name yet.
    pub fn new() -> (r: Self)
        ensures
            r@ is None,
    {
        StealthMode { shown: None }
    }

    /// The name that disguises this process, to be handed to the platform
    /// before [`StealthMode::enable`].
    pub fn decoy() -> (r: &'static str)
        ensures
            r@ == decoy_name(),
            valid_name(r@),
    {
        proof {
            reveal_strlit("systemd-resolve");
        }
        "systemd-resolve"
    }

    /// The name under which this process runs undisguised, to be handed to
    /// the platform before [`StealthMode::disable`].
    pub fn original() -> (r: &'static str)
        ensures
            r@ == original_name(),
            valid_name(r@),
    {
        proof {
            reveal_strlit("ficha-app");
        }
        "ficha-app"
    }

    /// The name that the platform accepted last, if any.
    pub fn shown_name(&self) -> (r: Option<String>)
        ensures
            r is Some == self@ is Some,
            r is Some ==> r->0@ == self@->0,
    {
        match &self.shown {
            Some(name) => Some(name.clone()),
            None => None,
        }
    }

    /// Takes the platform's answer to the request to show `name`. Fails
    /// where the platform cannot set names, where `name` holds a NUL
    /// character, and where the platform refused; the name on record then
    /// stays as it is.
    pub fn set_process_name(&mut self, name: &str, answer: PlatformAnswer) -> (r: Result<
        (),
        StealthError,
    >)
        ensures
            r == set_name_outcome(name@, answer),
            final(self)@ == name_after(old(self)@, name@, answer),
    {
        match answer {
            PlatformAnswer::Unsupported => Err(StealthError::Unsupported),
            PlatformAnswer::Status(status) => {
                if !is_valid_name(name) {
                    Err(StealthError::InvalidName)
                } else if status == 0 {
                    self.shown = Some(String::from_str(name));
                    Ok(())
                } else {
                    Err(StealthError::Refused(status))
                }
            },
        }
    }

    /// Takes the platform's answer to the request to show the decoy name.
    pub fn enable(&mut self, answer: PlatformAnswer) -> (r: Result<(), StealthError>)
        ensures
            r == set_name_outcome(decoy_name(), answer),
            final(self)@ == name_after(old(self)@, decoy_name(), answer),
            r is Ok <==> answer == PlatformAnswer::Status(0),
            answer is Unsupported ==> r == Err::<(), StealthError>(StealthError::Unsupported),
    {
        self.set_process_name(Self::decoy(), answer)
    }

    /// Takes the platform's answer to the request to show the original
    /// name.
    pub fn disable(&mut self, answer: PlatformAnswer) -> (r: Result<(), StealthError>)
        ensures
            r == set_name_outcome(original_name(), answer),
            final(self)@ == name_after(old(self)@, original_name(), answer),
            r is Ok <==> answer == PlatformAnswer::Status(0),
            answer is Unsupported ==> r == Err::<(), StealthError>(StealthError::Unsupported),
    {
        self.set_process_name(Self::original(), answer)
    }
}

/// Once the disguise is on, asking for it again changes nothing, whatever
/// the platform answers the second time; and the same holds of taking it
/// off.
pub proof fn lemma_enable_disable_idempotent(shown: Option<Seq<char>>, again: PlatformAnswer)
    ensures
        name_after(shown, decoy_name(), PlatformAnswer::Status(0)) == Some(decoy_name()),
        name_after(Some(decoy_name()), decoy_name(), again) == Some(decoy_name()),
        name_after(shown, original_name(), PlatformAnswer::Status(0)) == Some(original_name()),
        name_after(Some(original_name()), original_name(), again) == Some(original_name()),
{
    reveal_strlit("systemd-resolve");
    reveal_strlit("ficha-app");
}

/// On a platform that cannot set names both requests fail with the error
/// that says so, and nothing is put on record.
pub proof fn lemma_unsupported_platform_fails(shown: Option<Seq<char>>, name: Seq<char>)
    ensures
        set_name_outcome(name, PlatformAnswer::Unsupported) == Err::<(), StealthError>(
            StealthError::Unsupported,
        ),
        name_after(shown, name, PlatformAnswer::Unsupported) == shown,
{
}

} // verus!
