use vstd::prelude::*;

use std::collections::hash_map::DefaultHasher;
use std::hash::{Hash, Hasher};
use vstd::std_specs::hash::DefaultHasherAdditionalSpecFns;

use crate::text::{lower_hex_text, sorted_texts, text_order, texts, u64_lower_hex};

verus! {

/// The writes that `<String as Hash>::hash` makes into a `DefaultHasher` for a string with
/// these characters (as `DefaultHasher`'s view counts writes: each a sequence of bytes).
pub uninterp spec fn string_hash_writes(s: Seq<char>) -> Seq<Seq<u8>>;

/// `<String as Hash>::hash` into `h`: the writes it makes, which depend on the string alone,
/// are appended to what `h` was fed.
#[verifier::external_body]
fn feed_hasher(h: &mut DefaultHasher, s: &String)
    ensures
        final(h)@ == old(h)@ + string_hash_writes(s@),
{
    s.hash(h);
}

/// The writes made by hashing these strings in this order.
pub open spec fn strings_hash_writes(keys: Seq<Seq<char>>) -> Seq<Seq<u8>>
    decreases keys.len(),
{
    if keys.len() == 0 {
        Seq::empty()
    } else {
        strings_hash_writes(keys.drop_last()) + string_hash_writes(keys.last())
    }
}

/// The identity hash of a set of record keys: the `DefaultHasher` hash of the keys in `String`
/// order, in lower-case hexadecimal.
pub open spec fn data_hash_text(keys: Seq<Seq<char>>) -> Seq<char> {
    lower_hex_text(DefaultHasher::spec_finish(strings_hash_writes(keys.sort_by(text_order()))) as nat)
}

/// Computes a data hash for issue identity and change detection: the same keys in any order
/// give the same hash.
pub fn compute_data_hash(record_ids: &[String]) -> (r: String)
    ensures
        r@ == data_hash_text(texts(record_ids@)),
{
    let sorted = sorted_texts(record_ids);
    let mut hasher = DefaultHasher::new();
    let mut i: usize = 0;
    while i < sorted.len()
        invariant
            i <= sorted@.len(),
            hasher@ == strings_hash_writes(texts(sorted@).take(i as int)),
        decreases sorted.len() - i,
    {
        feed_hasher(&mut hasher, &sorted[i]);
        assert(texts(sorted@).take(i + 1).drop_last() =~= texts(sorted@).take(i as int));
        i += 1;
    }
    assert(texts(sorted@).take(sorted@.len() as int) =~= texts(sorted@));
    u64_lower_hex(hasher.finish())
}

/// The data hash does not depend on the order of the keys.
pub proof fn lemma_data_hash_order_free(a: Seq<Seq<char>>, b: Seq<Seq<char>>)
    requires
        a.to_multiset() == b.to_multiset(),
    ensures
        data_hash_text(a) == data_hash_text(b),
{
    crate::text::lemma_text_order_total();
    a.lemma_sort_by_ensures(text_order());
    b.lemma_sort_by_ensures(text_order());
    vstd::seq_lib::lemma_sorted_unique(a.sort_by(text_order()), b.sort_by(text_order()), text_order());
}

} // verus!
