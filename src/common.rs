//! Labels shared by more than one part of the data model.
use vstd::prelude::*;
use crate::error::DecodeError;
use crate::value::Value;
use crate::wire::{find_field, lookup, str_is, Fields};

verus! {

/// A score rank, from best (`SSS`) to worst (`E`). `SSS` is also the default.
#[derive(Clone, Copy, Debug, PartialEq, Eq, Structural)]
pub enum Rank {
    SSS,
    SS,
    A,
    B,
    C,
    D,
    E,
}

impl Rank {
    /// Position in the order of ranks: 0 for the best, 6 for the worst.
    pub open spec fn spec_position(self) -> nat {
        match self {
            Rank::SSS => 0,
            Rank::SS => 1,
            Rank::A => 2,
            Rank::B => 3,
            Rank::C => 4,
            Rank::D => 5,
            Rank::E => 6,
        }
    }

    /// Position in the order of ranks: 0 for the best, 6 for the worst.
    pub fn position(&self) -> (r: u8)
        ensures
            r as nat == self.spec_position(),
    {
        match self {
            Rank::SSS => 0,
            Rank::SS => 1,
            Rank::A => 2,
            Rank::B => 3,
            Rank::C => 4,
            Rank::D => 5,
            Rank::E => 6,
        }
    }

    /// Whether this rank is strictly better than `other`.
    pub fn is_better_than(&self, other: &Rank) -> (r: bool)
        ensures
            r == (self.spec_position() < other.spec_position()),
    {
        self.position() < other.position()
    }

    /// The label that stands for this rank on the wire.
    pub open spec fn spec_label(self) -> Seq<char> {
        match self {
            Rank::SSS => "SSS"@,
            Rank::SS => "SS"@,
            Rank::A => "A"@,
            Rank::B => "B"@,
            Rank::C => "C"@,
            Rank::D => "D"@,
            Rank::E => "E"@,
        }
    }

    /// The label that stands for this rank on the wire.
    pub fn label(&self) -> (r: &'static str)
        ensures
            r@ == self.spec_label(),
    {
        match self {
            Rank::SSS => "SSS",
            Rank::SS => "SS",
            Rank::A => "A",
            Rank::B => "B",
            Rank::C => "C",
            Rank::D => "D",
            Rank::E => "E",
        }
    }

    /// The rank used when none is known.
    pub fn default_rank() -> (r: Rank)
        ensures
            r == Rank::SSS,
    {
        Rank::SSS
    }
}

impl Default for Rank {
    fn default() -> (r: Rank)
        ensures
            r == Rank::SSS,
    {
        Rank::SSS
    }
}

/// The rank that a wire label names.
pub open spec fn rank_of_label(s: Seq<char>) -> Option<Rank> {
    if s == "SSS"@ {
        Some(Rank::SSS)
    } else if s == "SS"@ {
        Some(Rank::SS)
    } else if s == "A"@ {
        Some(Rank::A)
    } else if s == "B"@ {
        Some(Rank::B)
    } else if s == "C"@ {
        Some(Rank::C)
    } else if s == "D"@ {
        Some(Rank::D)
    } else if s == "E"@ {
        Some(Rank::E)
    } else {
        None
    }
}

/// A required rank field, sent as its label.
pub open spec fn field_rank(f: Option<Value>) -> Result<Rank, DecodeError> {
    match f {
        None => Err(DecodeError::MissingRequiredField),
        Some(Value::Str(s)) => match rank_of_label(s@) {
            Some(r) => Ok(r),
            None => Err(DecodeError::EnumOutOfRange),
        },
        Some(_) => Err(DecodeError::TypeMismatch),
    }
}

/// The rank that a wire label names, if any.
pub fn rank_from_label(s: &String) -> (r: Option<Rank>)
    ensures
        r == rank_of_label(s@),
{
    if str_is(s, "SSS") {
        Some(Rank::SSS)
    } else if str_is(s, "SS") {
        Some(Rank::SS)
    } else if str_is(s, "A") {
        Some(Rank::A)
    } else if str_is(s, "B") {
        Some(Rank::B)
    } else if str_is(s, "C") {
        Some(Rank::C)
    } else if str_is(s, "D") {
        Some(Rank::D)
    } else if str_is(s, "E") {
        Some(Rank::E)
    } else {
        None
    }
}

/// Reads a required rank field.
pub fn read_rank(o: &Fields, key: &str) -> (r: Result<Rank, DecodeError>)
    ensures
        r == field_rank(lookup(o@, key@)),
{
    match find_field(o, key) {
        None => Err(DecodeError::MissingRequiredField),
        Some(i) => match &o[i].1 {
            Value::Str(s) => match rank_from_label(s) {
                Some(r) => Ok(r),
                None => Err(DecodeError::EnumOutOfRange),
            },
            _ => Err(DecodeError::TypeMismatch),
        },
    }
}

/// The length and first letter of every label.
proof fn lemma_label_letters()
    ensures
        "SSS"@.len() == 3,
        "SS"@.len() == 2,
        "A"@.len() == 1,
        "B"@.len() == 1,
        "C"@.len() == 1,
        "D"@.len() == 1,
        "E"@.len() == 1,
        "SSS"@[0] == 'S',
        "SS"@[0] == 'S',
        "A"@[0] == 'A',
        "B"@[0] == 'B',
        "C"@[0] == 'C',
        "D"@[0] == 'D',
        "E"@[0] == 'E',
        "SSS"@[1] == 'S',
{
    reveal_strlit("SSS");
    reveal_strlit("SS");
    reveal_strlit("A");
    reveal_strlit("B");
    reveal_strlit("C");
    reveal_strlit("D");
    reveal_strlit("E");
}

/// Each rank's label names that rank and no other.
pub proof fn lemma_label_names_rank(r: Rank)
    ensures
        rank_of_label(r.spec_label()) == Some(r),
{
    lemma_label_letters();
}

} // verus!
