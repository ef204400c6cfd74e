//! Token metadata fields that the bridge consumes.
use vstd::prelude::*;
use vstd::string::StrSliceExecFns;

verus! {

/// `s` without its trailing NUL characters.
pub open spec fn strip_trailing_nul(s: Seq<char>) -> Seq<char>
    decreases s.len(),
{
    if s.len() > 0 && s.last() == '\0' {
        strip_trailing_nul(s.drop_last())
    } else {
        s
    }
}

/// `s` without its trailing NUL characters.
pub fn trim_nul(s: &String) -> (r: String)
    ensures
        r@ == strip_trailing_nul(s@),
{
    let t = s.as_str();
    let mut n = t.unicode_len();
    assert(t@.subrange(0, n as int) =~= t@);
    while n > 0 && t.get_char(n - 1) == '\0'
        invariant
            n <= t@.len(),
            t@ == s@,
            strip_trailing_nul(t@) == strip_trailing_nul(t@.subrange(0, n as int)),
        decreases n,
    {
        assert(t@.subrange(0, n as int).drop_last() =~= t@.subrange(0, n - 1));
        n = n - 1;
    }
    let kept = t.substring_char(0, n);
    proof {
        if n > 0 {
            assert(t@.subrange(0, n as int).last() == t@[n - 1]);
        }
    }
    kept.to_owned()
}

/// The fields of a token's metadata record that the bridge reads, as stored
/// (strings may carry NUL padding).
pub struct TokenMetadata {
    pub name: String,
    pub symbol: String,
    pub uri: String,
    /// The collection the token belongs to, if any.
    pub collection: Option<[u8; 32]>,
}

/// The metadata account of a collection and the name and symbol it holds.
pub struct CollectionMetadata {
    pub address: [u8; 32],
    pub name: String,
    pub symbol: String,
}

/// Metadata given with a withdrawal for a token that the bridge mints.
pub struct SignedMetadata {
    pub name: String,
    pub symbol: String,
    pub uri: String,
    pub decimals: u8,
}

} // verus!
