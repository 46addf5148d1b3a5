//! Text predicates shared by the field validators.

use vstd::prelude::*;

verus! {

/// Whether `c` is white space: the code points that the Unicode character
/// database lists under the property `White_Space`.
pub open spec fn is_white_space(c: char) -> bool {
    let v = c as u32;
    ||| 0x0009 <= v <= 0x000D
    ||| v == 0x0020
    ||| v == 0x0085
    ||| v == 0x00A0
    ||| v == 0x1680
    ||| 0x2000 <= v <= 0x200A
    ||| v == 0x2028
    ||| v == 0x2029
    ||| v == 0x202F
    ||| v == 0x205F
    ||| v == 0x3000
}

/// Whether `text` is empty once leading and trailing white space is removed,
/// which is to say that it holds nothing but white space.
pub open spec fn is_blank(text: Seq<char>) -> bool {
    forall|i: int| 0 <= i < text.len() ==> is_white_space(#[trigger] text[i])
}

/// The optional text that a raw field value stands for: the empty string
/// stands for an absent value, any other string for itself.
pub open spec fn present(raw: Seq<char>) -> Option<Seq<char>> {
    if raw.len() == 0 {
        None
    } else {
        Some(raw)
    }
}

/// Tells whether `c` is white space.
pub fn is_white_space_char(c: char) -> (white: bool)
    ensures
        white == is_white_space(c),
{
    let v: u32 = c as u32;
    (0x0009 <= v && v <= 0x000D) || v == 0x0020 || v == 0x0085 || v == 0x00A0 || v == 0x1680 || (
    0x2000 <= v && v <= 0x200A) || v == 0x2028 || v == 0x2029 || v == 0x202F || v == 0x205F || v
        == 0x3000
}

/// Tells whether `text` holds nothing but white space.
pub fn is_blank_str(text: &str) -> (blank: bool)
    ensures
        blank == is_blank(text@),
{
    for c in it: text.chars()
        invariant
            it.seq() == text@,
            is_blank(text@.take(it.index() as int)),
    {
        if !is_white_space_char(c) {
            assert(!is_white_space(text@[it.index() as int]));
            return false;
        }
        assert forall|i: int| 0 <= i < it.index() + 1 implies is_white_space(
            #[trigger] text@.take(it.index() + 1)[i],
        ) by {
            if i < it.index() {
                assert(text@.take(it.index() as int)[i] == text@[i]);
            }
        }
    }
    assert(text@.take(text@.len() as int) =~= text@);
    true
}

/// Tells whether `left` and `right` are the same text. Once the byte lengths
/// agree, every pair of bytes goes into the result, so that no byte, equal
/// or not, ends the comparison early.
pub fn constant_time_eq(left: &str, right: &str) -> (same: bool)
    ensures
        same == (left@ == right@),
{
    let x = left.as_bytes();
    let y = right.as_bytes();
    proof {
        vstd::utf8::encode_utf8_decode_utf8(left@);
        vstd::utf8::encode_utf8_decode_utf8(right@);
    }
    if x.len() != y.len() {
        return false;
    }
    let mut diff: u8 = 0;
    let mut i: usize = 0;
    while i < x.len()
        invariant
            x@.len() == y@.len(),
            i <= x@.len(),
            diff == 0 <==> (forall|j: int| 0 <= j < i ==> x@[j] == y@[j]),
        decreases x@.len() - i,
    {
        let a: u8 = x[i];
        let b: u8 = y[i];
        let d: u8 = a ^ b;
        assert(d == 0 <==> a == b) by (bit_vector)
            requires
                d == a ^ b,
        ;
        assert((diff | d) == 0 <==> diff == 0 && d == 0) by (bit_vector);
        diff = diff | d;
        i += 1;
    }
    assert(diff == 0 <==> x@ =~= y@);
    diff == 0
}

} // verus!
