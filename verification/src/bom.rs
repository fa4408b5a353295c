//! Byte-order-mark stripping: the one decode step performed on a raw
//! payload before it enters the cache.

use vstd::prelude::*;

verus! {

/// The length in bytes of the byte-order mark that `bytes` begins with,
/// zero when there is none.
pub uninterp spec fn bom_len_of(bytes: Seq<u8>) -> nat;

/// Relies on unicode_bom's `Bom::from(&[u8])` and `Bom::len`: a detected
/// byte-order mark is a prefix of the slice, so its length never exceeds
/// the slice's; no mark is longer than four bytes; fewer than two bytes
/// never hold a mark; and the UTF-8 mark `EF BB BF` has length three.
#[verifier::external_body]
fn bom_len(bytes: &[u8]) -> (r: usize)
    ensures
        r as nat == bom_len_of(bytes@),
        r <= bytes@.len(),
        r <= 4,
        bytes@.len() < 2 ==> r == 0,
        (bytes@.len() >= 3 && bytes@[0] == 0xefu8 && bytes@[1] == 0xbbu8 && bytes@[2] == 0xbfu8)
            ==> r == 3,
{
    unicode_bom::Bom::from(bytes).len()
}

/// A raw payload with its leading byte-order mark, if any, removed.
pub fn strip_bom(raw: &[u8]) -> (r: Vec<u8>)
    ensures
        r@ == raw@.skip(bom_len_of(raw@) as int),
{
    let n = bom_len(raw);
    let tail = vstd::slice::slice_subrange(raw, n, raw.len());
    let r = vstd::slice::slice_to_vec(tail);
    proof {
        assert(r@ =~= raw@.skip(bom_len_of(raw@) as int));
    }
    r
}

} // verus!
