//! Byte sizes of the record's encoding.
//!
//! A record is stored as its name followed by its list of items. A string is
//! encoded as a little-endian `u32` byte count followed by its UTF-8 bytes; a
//! list as a `u32` element count followed by each element in order.
use vstd::prelude::*;
use vstd::utf8::encode_utf8;

verus! {

/// Bytes taken by the `u32` length prefix that precedes a string or a list.
pub const LEN_PREFIX: usize = 4;

/// Number of bytes in the UTF-8 encoding of `s`.
pub open spec fn utf8_len(s: Seq<char>) -> nat {
    encode_utf8(s).len()
}

/// Byte size of an encoded string: its length prefix, then its UTF-8 bytes.
pub open spec fn encoded_str_len(s: Seq<char>) -> nat {
    LEN_PREFIX as nat + utf8_len(s)
}

/// Total byte size of the encoded elements of a list (without the list's own prefix).
pub open spec fn encoded_items_len(items: Seq<Seq<char>>) -> nat
    decreases items.len(),
{
    if items.len() == 0 {
        0
    } else {
        encoded_items_len(items.drop_last()) + encoded_str_len(items.last())
    }
}

/// Byte size of an encoded record: the name, the list prefix, then the items.
pub open spec fn encoded_record_len(name: Seq<char>, items: Seq<Seq<char>>) -> nat {
    encoded_str_len(name) + LEN_PREFIX as nat + encoded_items_len(items)
}

/// Appending an item adds exactly the size of its encoding.
pub proof fn lemma_items_len_push(items: Seq<Seq<char>>, item: Seq<char>)
    ensures
        encoded_items_len(items.push(item)) == encoded_items_len(items) + encoded_str_len(item),
{
    assert(items.push(item).drop_last() =~= items);
}

/// A longer prefix of a list never encodes to fewer bytes.
pub proof fn lemma_items_len_prefix(items: Seq<Seq<char>>, i: int, j: int)
    requires
        0 <= i <= j <= items.len(),
    ensures
        encoded_items_len(items.take(i)) <= encoded_items_len(items.take(j)),
    decreases j - i,
{
    if i < j {
        lemma_items_len_prefix(items, i, j - 1);
        assert(items.take(j).drop_last() =~= items.take(j - 1));
    }
}

/// Relies on `String::len`: the number of bytes in the string's UTF-8 encoding.
#[verifier::external_body]
pub(crate) fn byte_len(s: &String) -> (r: usize)
    ensures
        r as nat == utf8_len(s@),
{
    s.len()
}

/// The view of a list of strings as a sequence of character sequences.
pub open spec fn strings_view(v: Seq<String>) -> Seq<Seq<char>> {
    v.map_values(|t: String| t@)
}

/// Computes the encoded size of a record with this name and these items, or
/// returns `None` exactly when that size exceeds `limit`.
pub fn record_size(name: &String, items: &Vec<String>, limit: usize) -> (r: Option<usize>)
    ensures
        encoded_record_len(name@, strings_view(items@)) <= limit ==> r == Some(
            encoded_record_len(name@, strings_view(items@)) as usize,
        ),
        encoded_record_len(name@, strings_view(items@)) > limit ==> r is None,
{
    let ghost all = strings_view(items@);
    proof {
        lemma_items_len_prefix(all, 0, all.len() as int);
        assert(all.take(all.len() as int) =~= all);
    }
    let n: usize = byte_len(name);
    if n > limit || limit - n < 2 * LEN_PREFIX {
        return None;
    }
    let mut total: usize = n + 2 * LEN_PREFIX;
    let mut i: usize = 0;
    while i < items.len()
        invariant
            i <= items.len(),
            all == strings_view(items@),
            total as nat == encoded_str_len(name@) + LEN_PREFIX as nat + encoded_items_len(
                all.take(i as int),
            ),
            total <= limit,
        decreases items.len() - i,
    {
        let m: usize = byte_len(&items[i]);
        proof {
            assert(all.take(i as int).push(all[i as int]) =~= all.take(i as int + 1));
            lemma_items_len_push(all.take(i as int), all[i as int]);
        }
        if m > limit - total || limit - total - m < LEN_PREFIX {
            proof {
                lemma_items_len_prefix(all, i as int + 1, all.len() as int);
                assert(all.take(all.len() as int) =~= all);
            }
            return None;
        }
        total = total + m + LEN_PREFIX;
        i = i + 1;
    }
    proof {
        assert(all.take(all.len() as int) =~= all);
    }
    Some(total)
}

} // verus!
