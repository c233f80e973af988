//! Scores: integers of any size, read by the `num-bigint` crate.
use num_bigint::BigInt;
use vstd::prelude::*;

verus! {

/// The decimal notation of the integer that `text` writes, as `BigInt`'s
/// `FromStr` reads it and its `Display` prints it; `None` where `BigInt`
/// refuses `text`.
pub uninterp spec fn big_decimal(text: Seq<char>) -> Option<Seq<char>>;

/// `BigInt`'s `FromStr::from_str`, then its `Display`: reads `text` as a
/// decimal integer of any size and prints it again. The outcome depends on
/// `text` alone, and the contract only gives it its name.
#[verifier::external_body]
fn read_big_decimal(text: &str) -> (r: Option<String>)
    ensures
        r.deep_view() == big_decimal(text@),
{
    match text.parse::<BigInt>() {
        Ok(value) => Some(value.to_string()),
        Err(_) => None,
    }
}

/// A score: an integer without a size limit, held in decimal notation.
#[derive(Debug, PartialEq, Eq)]
pub struct Score {
    decimal: String,
}

impl View for Score {
    type V = Seq<char>;

    /// The score's decimal notation.
    closed spec fn view(&self) -> Seq<char> {
        self.decimal@
    }
}

impl Clone for Score {
    fn clone(&self) -> (copy: Self)
        ensures
            copy@ == self@,
    {
        proof {
            use_type_invariant(self);
        }
        Score { decimal: self.decimal.clone() }
    }
}

impl Score {
    /// Every score is the notation of an integer that was read.
    #[verifier::type_invariant]
    closed spec fn wf(self) -> bool {
        exists|text: Seq<char>| big_decimal(text) == Some(self.decimal@)
    }

    /// Reads a score; `None` where `text` is no integer.
    pub fn parse(text: &str) -> (r: Option<Score>)
        ensures
            match r {
                Some(score) => big_decimal(text@) == Some(score@),
                None => big_decimal(text@) is None,
            },
    {
        match read_big_decimal(text) {
            Some(decimal) => {
                Some(Score { decimal })
            },
            None => None,
        }
    }

    /// The score in decimal notation.
    pub fn to_text(&self) -> (s: String)
        ensures
            s@ == self@,
    {
        self.decimal.clone()
    }
}

} // verus!
