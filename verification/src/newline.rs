//! The line terminator policy: which byte sequence is appended after a
//! command before it is written to the link.

use vstd::prelude::*;

verus! {

/// The four line terminator policies: no terminator, carriage return,
/// line feed, or carriage return followed by line feed.
#[derive(PartialEq, Eq, Clone, Copy, Structural, Debug)]
pub enum NewlineMode {
    NoNewline,
    CR,
    LF,
    CRLF,
}

impl NewlineMode {
    /// The byte sequence a policy maps to.
    pub open spec fn terminator_seq(self) -> Seq<u8> {
        match self {
            NewlineMode::NoNewline => seq![],
            NewlineMode::CR => seq![13u8],
            NewlineMode::LF => seq![10u8],
            NewlineMode::CRLF => seq![13u8, 10u8],
        }
    }

    /// The bytes appended after a command under this policy.
    pub fn as_bytes(&self) -> (r: Vec<u8>)
        ensures
            r@ == self.terminator_seq(),
    {
        let mut v: Vec<u8> = Vec::new();
        match self {
            NewlineMode::NoNewline => {}
            NewlineMode::CR => {
                v.push(13u8);
            }
            NewlineMode::LF => {
                v.push(10u8);
            }
            NewlineMode::CRLF => {
                v.push(13u8);
                v.push(10u8);
            }
        }
        proof {
            assert(v@ =~= self.terminator_seq());
        }
        v
    }

    /// The display name of a policy.
    pub fn label(&self) -> (r: &'static str)
        ensures
            r@ == self.label_seq(),
    {
        match self {
            NewlineMode::NoNewline => "None",
            NewlineMode::CR => "CR",
            NewlineMode::LF => "LF",
            NewlineMode::CRLF => "CRLF",
        }
    }

    /// The display name, at the specification level.
    pub open spec fn label_seq(self) -> Seq<char> {
        match self {
            NewlineMode::NoNewline => "None"@,
            NewlineMode::CR => "CR"@,
            NewlineMode::LF => "LF"@,
            NewlineMode::CRLF => "CRLF"@,
        }
    }
}

} // verus!
