//! Decimal text for integers, both directions: rendering a nonce as the
//! digits that go into the signed envelope, and reading numeric JSON fields
//! (timestamps, identifiers) from their exact decimal text.
use vstd::prelude::*;
use crate::json::push_char;

verus! {

/// The decimal text of a natural number, most significant digit first.
pub open spec fn dec_chars(n: nat) -> Seq<char>
    decreases n,
{
    if n < 10 {
        seq![((n + 48) as u8) as char]
    } else {
        dec_chars(n / 10).push(((n % 10 + 48) as u8) as char)
    }
}

/// Renders a number as its decimal text.
pub fn u64_to_dec(n: u64) -> (r: String)
    ensures
        r@ == dec_chars(n as nat),
    decreases n,
{
    if n < 10 {
        let mut s = String::new();
        push_char(&mut s, ((n as u8) + 48) as char);
        s
    } else {
        let mut s = u64_to_dec(n / 10);
        push_char(&mut s, (((n % 10) as u8) + 48) as char);
        s
    }
}

/// Whether the text is one or more decimal digits and nothing else.
pub open spec fn is_dec_digits(s: Seq<char>) -> bool {
    s.len() > 0 && forall|j: int| 0 <= j < s.len() ==> 48 <= #[trigger] (s[j] as u32) <= 57
}

/// The numeric value of decimal digit text.
pub open spec fn dec_val(s: Seq<char>) -> int
    decreases s.len(),
{
    if s.len() == 0 {
        0
    } else {
        dec_val(s.drop_last()) * 10 + (s.last() as u32 - 48)
    }
}

/// The number a text denotes: defined when the text is all digits and the
/// value fits in 64 bits, as for the exchange's numeric identifiers.
pub open spec fn parse_u64_spec(s: Seq<char>) -> Option<u64> {
    if is_dec_digits(s) && dec_val(s) <= u64::MAX {
        Some(dec_val(s) as u64)
    } else {
        None
    }
}

proof fn lemma_dec_val_nonneg(s: Seq<char>)
    requires
        forall|j: int| 0 <= j < s.len() ==> 48 <= #[trigger] (s[j] as u32) <= 57,
    ensures
        dec_val(s) >= 0,
    decreases s.len(),
{
    if s.len() > 0 {
        assert(forall|j: int|
            0 <= j < s.drop_last().len() ==> 48 <= #[trigger] (s.drop_last()[j] as u32) <= 57);
        lemma_dec_val_nonneg(s.drop_last());
        assert(s.last() == s[s.len() - 1]);
        assert(48 <= (s[s.len() - 1] as u32) <= 57);
        assert(dec_val(s) == dec_val(s.drop_last()) * 10 + (s.last() as u32 - 48));
    }
}

proof fn lemma_dec_val_mono(s: Seq<char>, i: int)
    requires
        0 <= i <= s.len(),
        forall|j: int| 0 <= j < s.len() ==> 48 <= #[trigger] (s[j] as u32) <= 57,
    ensures
        dec_val(s.take(i)) <= dec_val(s),
    decreases s.len() - i,
{
    if i < s.len() {
        assert(forall|j: int|
            0 <= j < s.take(i).len() ==> 48 <= #[trigger] (s.take(i)[j] as u32) <= 57);
        lemma_dec_val_nonneg(s.take(i));
        assert(s.take(i + 1).drop_last() =~= s.take(i));
        assert(s.take(i + 1).last() == s[i]);
        assert(48 <= (s[i] as u32) <= 57);
        assert(dec_val(s.take(i + 1)) == dec_val(s.take(i)) * 10 + (s[i] as u32 - 48));
        assert(dec_val(s.take(i)) <= dec_val(s.take(i + 1)));
        lemma_dec_val_mono(s, i + 1);
    } else {
        assert(s.take(i) =~= s);
    }
}

/// Reads an unsigned 64-bit number from its decimal text, rejecting any
/// other text and any value that does not fit.
#[verifier::loop_isolation(false)]
pub fn parse_u64(s: &str) -> (r: Option<u64>)
    ensures
        r == parse_u64_spec(s@),
{
    let n = s.unicode_len();
    if n == 0 {
        return None;
    }
    let mut acc: u64 = 0;
    let mut i: usize = 0;
    while i < n
        invariant
            0 <= i <= n,
            forall|j: int| 0 <= j < i ==> 48 <= #[trigger] (s@[j] as u32) <= 57,
            acc == dec_val(s@.take(i as int)),
        decreases n - i,
    {
        let c = s.get_char(i);
        let u = c as u32;
        if u < 48 || u > 57 {
            return None;
        }
        let d = (u - 48) as u64;
        proof {
            assert(s@.take(i + 1 as int).drop_last() =~= s@.take(i as int));
            assert(s@.take(i + 1 as int).last() == s@[i as int]);
            assert(dec_val(s@.take(i + 1 as int)) == dec_val(s@.take(i as int)) * 10 + (
            s@[i as int] as u32 - 48));
        }
        let next = match acc.checked_mul(10) {
            Some(m) => m.checked_add(d),
            None => None,
        };
        match next {
            Some(v) => {
                acc = v;
            },
            None => {
                proof {
                    if is_dec_digits(s@) {
                        lemma_dec_val_mono(s@, i + 1 as int);
                    }
                }
                return None;
            },
        }
        i = i + 1;
    }
    proof {
        assert(s@.take(n as int) =~= s@);
    }
    Some(acc)
}

} // verus!
