//! Runner identities: the shared name that joins a registration to the
//! instance created for it.
use vstd::prelude::*;
use crate::model::PoolRunner;
use rand::Rng;

verus! {

/// Number of random letters after the prefix of a generated name.
pub const SUFFIX_LEN: usize = 5;

/// The prefix that marks every name managed by this system.
pub open spec fn managed_prefix() -> Seq<char> {
    seq!['g', 'h', 'a', '-']
}

/// Whether a name belongs to the managed fleet.
pub open spec fn is_managed(name: Seq<char>) -> bool {
    name.len() >= 4 && name.subrange(0, 4) == managed_prefix()
}

/// Whether a byte is an ASCII lower-case letter.
pub open spec fn is_lower(b: u8) -> bool {
    0x61 <= b <= 0x7a
}

/// Whether `name` has the form `gha-` followed by five lower-case letters.
pub open spec fn is_generated_name(name: Seq<char>) -> bool {
    &&& name.len() == 4 + SUFFIX_LEN
    &&& name.subrange(0, 4) == managed_prefix()
    &&& forall|i: int| 4 <= i < name.len() ==> 'a' <= #[trigger] name[i] <= 'z'
}

/// Relies on rand::rng with rand::distr::Uniform over `b'a'..=b'z'`: `n`
/// bytes, each an ASCII lower-case letter.
#[verifier::external_body]
fn draw_lowercase(n: usize) -> (r: Vec<u8>)
    ensures
        r@.len() == n,
        forall|i: int| 0 <= i < n ==> is_lower(#[trigger] r@[i]),
{
    rand::rng().sample_iter(rand::distr::Uniform::new_inclusive(b'a', b'z').unwrap()).take(n).collect()
}

/// Relies on String::push: appends one character.
#[verifier::external_body]
fn push_char(s: &mut String, c: char)
    ensures
        final(s)@ == old(s)@.push(c),
{
    s.push(c)
}

/// Whether `name` starts with the managed prefix `gha-`.
pub fn is_managed_name(name: &str) -> (r: bool)
    ensures
        r == is_managed(name@),
{
    let n = name.unicode_len();
    if n < 4 {
        return false;
    }
    let r = name.get_char(0) == 'g' && name.get_char(1) == 'h' && name.get_char(2) == 'a'
        && name.get_char(3) == '-';
    assert(r == (name@.subrange(0, 4) =~= managed_prefix()));
    r
}

impl PoolRunner {
    /// A fresh runner name: `gha-` followed by five random lower-case letters.
    pub fn generate_name(&self) -> (r: String)
        ensures
            is_generated_name(r@),
    {
        let letters = draw_lowercase(SUFFIX_LEN);
        let mut name = String::from_str("gha-");
        proof {
            reveal_strlit("gha-");
        }
        assert(name@ =~= managed_prefix());
        let mut i: usize = 0;
        while i < letters.len()
            invariant
                letters@.len() == SUFFIX_LEN,
                forall|k: int| 0 <= k < SUFFIX_LEN ==> is_lower(#[trigger] letters@[k]),
                i <= SUFFIX_LEN,
                name@.len() == 4 + i,
                name@.subrange(0, 4) == managed_prefix(),
                forall|k: int| 4 <= k < name@.len() ==> 'a' <= #[trigger] name@[k] <= 'z',
            decreases letters.len() - i,
        {
            let b = letters[i];
            let ghost before = name@;
            push_char(&mut name, b as char);
            assert(name@.subrange(0, 4) =~= before.subrange(0, 4));
            assert forall|k: int| 4 <= k < name@.len() implies 'a' <= #[trigger] name@[k] <= 'z' by {
                if k < before.len() {
                    assert(name@[k] == before[k]);
                }
            }
            i = i + 1;
        }
        name
    }
}

} // verus!
