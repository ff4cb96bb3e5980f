//! Promotion codes: six characters drawn from the 36-symbol alphabet
//! `A`–`Z`, `1`–`9`, `0`.

use vstd::prelude::*;

verus! {

/// Is `b` one of the 36 symbols a promotion code may contain?
pub open spec fn is_code_byte(b: u8) -> bool {
    (65 <= b <= 90) || (48 <= b <= 57)
}

/// A promotion code: exactly six bytes, each from the code alphabet.
pub open spec fn is_code(s: Seq<u8>) -> bool {
    s.len() == 6 && (forall|i: int| 0 <= i < 6 ==> is_code_byte(s[i]))
}

/// The code alphabet, in the order the codes draw from it:
/// `A`–`Z` at 0..26, then `1`–`9`, then `0`.
pub open spec fn alphabet_at(i: int) -> u8 {
    if i < 26 {
        (65 + i) as u8
    } else if i < 35 {
        (49 + (i - 26)) as u8
    } else {
        48
    }
}

pub fn alphabet_byte(i: usize) -> (r: u8)
    requires
        i < 36,
    ensures
        r == alphabet_at(i as int),
{
    if i < 26 {
        65 + i as u8
    } else if i < 35 {
        49 + (i as u8 - 26)
    } else {
        48
    }
}

/// The alphabet holds exactly the code bytes: 36 pairwise distinct symbols,
/// each a letter `A`–`Z` or a digit `0`–`9`, and every such byte occurs.
pub proof fn lemma_alphabet_exact()
    ensures
        forall|i: int| 0 <= i < 36 ==> is_code_byte(#[trigger] alphabet_at(i)),
        forall|b: u8| is_code_byte(b)
            ==> exists|i: int| 0 <= i < 36 && alphabet_at(i) == b,
        forall|i: int, j: int| 0 <= i < j < 36 ==> alphabet_at(i) != alphabet_at(j),
{
    assert forall|b: u8| is_code_byte(b)
        implies exists|i: int| 0 <= i < 36 && alphabet_at(i) == b by {
        if 65 <= b <= 90 {
            assert(alphabet_at(b - 65) == b);
        } else if 49 <= b <= 57 {
            assert(alphabet_at(26 + (b - 49)) == b);
        } else {
            assert(alphabet_at(35) == b);
        }
    }
}

/// Relies on `rand::random::<u32>`: a fresh draw from the thread-local
/// generator.  Nothing is assumed of the value.
#[verifier::external_body]
fn random_u32() -> u32 {
    rand::random::<u32>()
}

/// Generates a fresh promotion code: six bytes, each drawn from the
/// 36-symbol alphabet.
pub fn generate_random_code() -> (r: Vec<u8>)
    ensures
        is_code(r@),
{
    let mut out: Vec<u8> = Vec::new();
    let mut k: usize = 0;
    while k < 6
        invariant
            k <= 6,
            out@.len() == k,
            forall|i: int| 0 <= i < k ==> is_code_byte(out@[i]),
        decreases 6 - k,
    {
        let draw = random_u32();
        let idx = (draw % 36) as usize;
        out.push(alphabet_byte(idx));
        k = k + 1;
    }
    out
}

} // verus!
