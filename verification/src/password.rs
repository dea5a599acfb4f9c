//! Passwords generated for a new repository.

use vstd::prelude::*;
use crate::text::{chars_of, string_of};

verus! {

/// The characters a generated password is made of.
pub open spec fn password_charset() -> Seq<char> {
    "ABCDEFGHIJKLMNOPQRSTUVWXYZabcdefghijklmnopqrstuvwxyz0123456789"@
}

/// The length of a generated password.
pub open spec fn password_length() -> nat {
    24
}

/// A text that `generate_password` can give: of the password length, each
/// character from the password character set.
pub open spec fn is_generated_password(p: Seq<char>) -> bool {
    &&& p.len() == password_length()
    &&& forall|i: int| 0 <= i < p.len() ==> password_charset().contains(#[trigger] p[i])
}

/// Calls `rand::random_range` on `0..bound` with the thread's generator.
/// The value is random; every outcome lies in the range.
#[verifier::external_body]
fn random_below(bound: usize) -> (res: usize)
    requires
        bound > 0,
    ensures
        res < bound,
{
    rand::random_range(0..bound)
}

/// Draws that can spell a password: one per character, each an index into
/// the password character set.
pub open spec fn valid_draws(draws: Seq<usize>) -> bool {
    &&& draws.len() == password_length()
    &&& forall|i: int| 0 <= i < draws.len() ==> #[trigger] draws[i] < password_charset().len()
}

/// The password that the draws spell: the character of the set at each
/// drawn index.
pub open spec fn password_of_draws(draws: Seq<usize>) -> Seq<char> {
    Seq::new(draws.len(), |i: int| password_charset()[draws[i] as int])
}

/// The password spelt by 24 draws, each an index into the password
/// character set.
pub fn password_from_draws(draws: &Vec<usize>) -> (res: String)
    requires
        valid_draws(draws@),
    ensures
        res@ == password_of_draws(draws@),
{
    let charset = chars_of("ABCDEFGHIJKLMNOPQRSTUVWXYZabcdefghijklmnopqrstuvwxyz0123456789");
    proof {
        reveal_strlit("ABCDEFGHIJKLMNOPQRSTUVWXYZabcdefghijklmnopqrstuvwxyz0123456789");
    }
    let mut out: Vec<char> = Vec::new();
    let mut i: usize = 0;
    while i < draws.len()
        invariant
            charset@ == password_charset(),
            valid_draws(draws@),
            i <= draws@.len(),
            out@.len() == i,
            forall|j: int| 0 <= j < i ==> #[trigger] out@[j] == password_charset()[draws@[j] as int],
        decreases draws@.len() - i,
    {
        let c = charset[draws[i]];
        out.push(c);
        i = i + 1;
    }
    let res = string_of(out.as_slice());
    assert(res@ =~= password_of_draws(draws@));
    res
}

/// A random password of 24 letters and digits: 24 random draws from the
/// character set, spelt out.
pub fn generate_password() -> (res: String)
    ensures
        is_generated_password(res@),
        exists|draws: Seq<usize>| valid_draws(draws) && res@ == #[trigger] password_of_draws(draws),
{
    proof {
        reveal_strlit("ABCDEFGHIJKLMNOPQRSTUVWXYZabcdefghijklmnopqrstuvwxyz0123456789");
    }
    let bound: usize = 62;
    let mut draws: Vec<usize> = Vec::new();
    let mut i: usize = 0;
    while i < 24
        invariant
            bound == password_charset().len(),
            bound > 0,
            i <= 24,
            draws@.len() == i,
            forall|j: int| 0 <= j < draws@.len() ==> #[trigger] draws@[j] < password_charset().len(),
        decreases 24 - i,
    {
        let k = random_below(bound);
        draws.push(k);
        i = i + 1;
    }
    let res = password_from_draws(&draws);
    assert forall|i: int| 0 <= i < res@.len() implies password_charset().contains(
        #[trigger] res@[i],
    ) by {
        assert(res@[i] == password_charset()[draws@[i] as int]);
    }
    res
}

} // verus!
