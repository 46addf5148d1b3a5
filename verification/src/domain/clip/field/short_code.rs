//! The public identifier of a clip.

use crate::domain::clip::ValidationError;
use rand::rngs::ThreadRng;
use rand::seq::SliceRandom;
use std::str::FromStr;
use vstd::prelude::*;

verus! {

/// Number of characters in a generated code.
pub const CODE_LENGTH: usize = 10;

/// The symbols that generated codes are drawn from.
pub open spec fn alphabet() -> Seq<char> {
    seq!['a', 'b', 'c', 'd', '1', '2', '3', '4']
}

/// Whether `code` has the shape of a generated code: `CODE_LENGTH` symbols,
/// each of them from the alphabet.
pub open spec fn is_generated(code: Seq<char>) -> bool {
    &&& code.len() == CODE_LENGTH
    &&& forall|i: int| 0 <= i < code.len() ==> alphabet().contains(#[trigger] code[i])
}

/// `String::push` appends one character to the string.
pub assume_specification[ String::push ](s: &mut String, c: char)
    ensures
        final(s)@ == old(s)@.push(c),
;

/// The generator of random numbers that `rand` keeps for each thread. Nothing
/// is known of what it holds.
#[verifier::external_type_specification]
#[verifier::external_body]
pub struct ExThreadRng(ThreadRng);

/// `rand::thread_rng` hands out the generator of the current thread. Nothing
/// is claimed of the generator. The first call on a thread seeds it from the
/// operating system and panics where the system gives no seed.
pub assume_specification[ rand::thread_rng ]() -> (rng: ThreadRng)
;

/// Calls `rand::seq::SliceRandom::choose` on `symbols`. Which element comes
/// back is left open; the contract claims only that an empty slice gives
/// `None` and that any other slice gives one of its own elements. A draw
/// panics where the generator is due for a new seed and the operating system
/// gives none.
#[verifier::external_body]
fn choose_symbol(symbols: &[char], rng: &mut ThreadRng) -> (picked: Option<char>)
    ensures
        symbols@.len() == 0 ==> picked is None,
        symbols@.len() > 0 ==> picked is Some && symbols@.contains(picked->0),
{
    symbols.choose(rng).copied()
}

/// The public identifier of a clip: an opaque string compared by exact value.
#[derive(Debug, Hash)]
pub struct ShortCode(String);

impl View for ShortCode {
    type V = Seq<char>;

    closed spec fn view(&self) -> Seq<char> {
        self.0@
    }
}

impl ShortCode {
    /// A fresh code of `CODE_LENGTH` symbols, each drawn at random from the
    /// alphabet. The code holds the symbols in the order in which they were
    /// drawn.
    pub fn new() -> (code: Self)
        ensures
            is_generated(code@),
    {
        let allowed_chars: [char; 8] = ['a', 'b', 'c', 'd', '1', '2', '3', '4'];
        let mut rng = rand::thread_rng();
        let mut drawn: Vec<char> = Vec::new();
        while drawn.len() < CODE_LENGTH
            invariant
                drawn@.len() <= CODE_LENGTH,
                allowed_chars@ == alphabet(),
                forall|i: int| 0 <= i < drawn@.len() ==> alphabet().contains(#[trigger] drawn@[i]),
            decreases CODE_LENGTH - drawn@.len(),
        {
            let picked = choose_symbol(allowed_chars.as_slice(), &mut rng);
            drawn.push(picked.unwrap());
        }
        Self::from_symbols(drawn.as_slice())
    }

    /// The code that holds exactly `symbols`, first to last.
    pub fn from_symbols(symbols: &[char]) -> (code: Self)
        ensures
            code@ == symbols@,
    {
        let mut short_code = String::new();
        let mut n: usize = 0;
        while n < symbols.len()
            invariant
                n <= symbols@.len(),
                short_code@ == symbols@.take(n as int),
            decreases symbols@.len() - n,
        {
            short_code.push(symbols[n]);
            assert(symbols@.take(n + 1) =~= symbols@.take(n as int).push(symbols@[n as int]));
            n += 1;
        }
        assert(symbols@.take(symbols@.len() as int) =~= symbols@);
        Self(short_code)
    }

    /// The code as a string slice.
    pub fn as_str(&self) -> (s: &str)
        ensures
            s@ == self@,
    {
        self.0.as_str()
    }

    /// The code as an owned string.
    pub fn into_inner(self) -> (s: String)
        ensures
            s@ == self@,
    {
        self.0
    }
}

impl Clone for ShortCode {
    fn clone(&self) -> (copy: Self)
        ensures
            copy@ == self@,
    {
        Self(self.0.clone())
    }
}

impl PartialEq for ShortCode {
    fn eq(&self, other: &Self) -> (same: bool) {
        self.0 == other.0
    }
}

impl Eq for ShortCode {

}

impl vstd::std_specs::cmp::PartialEqSpecImpl for ShortCode {
    open spec fn obeys_eq_spec() -> bool {
        true
    }

    open spec fn eq_spec(&self, other: &Self) -> bool {
        self@ == other@
    }
}

impl Default for ShortCode {
    fn default() -> (code: Self)
        ensures
            is_generated(code@),
    {
        Self::new()
    }
}

impl vstd::std_specs::convert::FromSpecImpl<&str> for ShortCode {
    open spec fn obeys_from_spec() -> bool {
        false
    }

    open spec fn from_spec(short_code: &str) -> Self {
        arbitrary()
    }
}

impl From<&str> for ShortCode {
    fn from(short_code: &str) -> (code: Self)
        ensures
            code@ == short_code@,
    {
        ShortCode(short_code.to_owned())
    }
}

impl vstd::std_specs::convert::FromSpecImpl<String> for ShortCode {
    open spec fn obeys_from_spec() -> bool {
        false
    }

    open spec fn from_spec(short_code: String) -> Self {
        arbitrary()
    }
}

impl From<String> for ShortCode {
    fn from(short_code: String) -> (code: Self)
        ensures
            code@ == short_code@,
    {
        ShortCode(short_code)
    }
}

impl vstd::std_specs::convert::FromSpecImpl<ShortCode> for String {
    open spec fn obeys_from_spec() -> bool {
        false
    }

    open spec fn from_spec(short_code: ShortCode) -> Self {
        arbitrary()
    }
}

impl From<ShortCode> for String {
    fn from(short_code: ShortCode) -> (s: Self)
        ensures
            s@ == short_code@,
    {
        short_code.0
    }
}

impl FromStr for ShortCode {
    type Err = ValidationError;

    fn from_str(s: &str) -> (parsed: Result<Self, Self::Err>)
        ensures
            parsed is Ok,
            parsed->Ok_0@ == s@,
    {
        Ok(Self(s.to_owned()))
    }
}

} // verus!
