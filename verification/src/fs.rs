//! The listing of a directory on the SD card, as the firmware writes it.
//!
//! The firmware fills a buffer with the names of the files in a directory,
//! one after the other with a line feed between them and a zero byte after
//! the last.

use vstd::prelude::*;

verus! {

/// The byte that ends the listing.
pub const END: u8 = 0;

/// The byte that stands between two names.
pub const SEPARATOR: u8 = 10;

/// The entries `entries` written one after the other with a separator
/// between them.
pub open spec fn joined(entries: Seq<Seq<u8>>) -> Seq<u8>
    decreases entries.len(),
{
    if entries.len() == 0 {
        Seq::empty()
    } else if entries.len() == 1 {
        entries[0]
    } else {
        joined(entries.drop_last()) + seq![SEPARATOR] + entries.last()
    }
}

/// Whether `k` is the place of the first end byte of `buffer`.
pub open spec fn is_end_of(buffer: Seq<u8>, k: int) -> bool {
    &&& 0 <= k < buffer.len()
    &&& buffer[k] == END
    &&& forall|j: int| 0 <= j < k ==> buffer[j] != END
}

/// Whether `entries` is the listing that `buffer` holds: the entries hold no
/// separator, there is at least one, and joined they give what `buffer`
/// holds before its first end byte.
pub open spec fn is_listing_of(entries: Seq<Seq<u8>>, buffer: Seq<u8>) -> bool {
    &&& entries.len() >= 1
    &&& separator_free(entries)
    &&& exists|k: int| is_end_of(buffer, k) && joined(entries) == buffer.take(k)
}

/// Whether none of `entries` holds a separator.
pub open spec fn separator_free(entries: Seq<Seq<u8>>) -> bool {
    forall|i: int, j: int|
        0 <= i < entries.len() && 0 <= j < entries[i].len() ==> #[trigger] entries[i][j]
            != SEPARATOR
}

/// Entries without separators can be told apart once they are joined: two
/// lists of such entries that give the same when joined are the same list.
pub proof fn lemma_joined_is_one_to_one(first: Seq<Seq<u8>>, second: Seq<Seq<u8>>)
    requires
        first.len() >= 1,
        second.len() >= 1,
        separator_free(first),
        separator_free(second),
        joined(first) == joined(second),
    ensures
        first == second,
    decreases first.len(),
{
    let text = joined(first);
    if first.len() == 1 || second.len() == 1 {
        if first.len() > 1 {
            let at = joined(first.drop_last()).len() as int;
            assert(text[at] == SEPARATOR);
            assert(second[0][at] == SEPARATOR);
        } else if second.len() > 1 {
            let at = joined(second.drop_last()).len() as int;
            assert(text[at] == SEPARATOR);
            assert(first[0][at] == SEPARATOR);
        }
        assert(first =~= second);
    } else {
        let at = joined(first.drop_last()).len() as int;
        let other = joined(second.drop_last()).len() as int;
        assert(text == joined(first.drop_last()) + seq![SEPARATOR] + first.last());
        assert(text == joined(second.drop_last()) + seq![SEPARATOR] + second.last());
        assert(text.len() == at + 1 + first.last().len());
        assert(text.len() == other + 1 + second.last().len());
        assert(text[at] == SEPARATOR);
        assert(text[other] == SEPARATOR);
        if at < other {
            assert(first.last()[other - at - 1] == text[other]);
        } else if other < at {
            assert(second.last()[at - other - 1] == text[at]);
        }
        assert(first.last() =~= text.skip(at + 1));
        assert(second.last() =~= text.skip(at + 1));
        assert(joined(first.drop_last()) =~= text.take(at));
        assert(joined(second.drop_last()) =~= text.take(at));
        lemma_joined_is_one_to_one(first.drop_last(), second.drop_last());
        assert(first =~= first.drop_last().push(first.last()));
        assert(second =~= second.drop_last().push(second.last()));
    }
}

/// A buffer holds one listing at most.
pub proof fn lemma_listing_is_unique(first: Seq<Seq<u8>>, second: Seq<Seq<u8>>, buffer: Seq<u8>)
    requires
        is_listing_of(first, buffer),
        is_listing_of(second, buffer),
    ensures
        first == second,
{
    let k = choose|k: int| is_end_of(buffer, k) && joined(first) == buffer.take(k);
    let l = choose|l: int| is_end_of(buffer, l) && joined(second) == buffer.take(l);
    if k < l {
        assert(buffer[k] != END);
    } else if l < k {
        assert(buffer[l] != END);
    }
    lemma_joined_is_one_to_one(first, second);
}

/// The views of the entries of a listing.
pub open spec fn views(entries: Seq<Vec<u8>>) -> Seq<Seq<u8>> {
    entries.map_values(|entry: Vec<u8>| entry@)
}

/// Splits the listing in `buffer` into its entries. There is no listing in a
/// buffer without an end byte. An empty listing has one entry, which is
/// empty.
pub fn split_listing(buffer: &[u8]) -> (listing: Option<Vec<Vec<u8>>>)
    ensures
        match listing {
            Some(entries) => is_listing_of(views(entries@), buffer@),
            None => forall|k: int| 0 <= k < buffer@.len() ==> buffer@[k] != END,
        },
{
    let mut entries: Vec<Vec<u8>> = Vec::new();
    let mut current: Vec<u8> = Vec::new();
    let mut i: usize = 0;
    while i < buffer.len()
        invariant
            i <= buffer.len(),
            forall|j: int| 0 <= j < i ==> buffer@[j] != END,
            forall|a: int, b: int|
                0 <= a < entries@.len() && 0 <= b < entries@[a]@.len() ==> #[trigger] entries@[a]@[b]
                    != SEPARATOR,
            forall|b: int| 0 <= b < current@.len() ==> current@[b] != SEPARATOR,
            joined(views(entries@).push(current@)) == buffer@.take(i as int),
        decreases buffer.len() - i,
    {
        let byte = buffer[i];
        let ghost before = views(entries@).push(current@);
        if byte == END {
            entries.push(current);
            proof {
                assert(views(entries@) =~= before);
                assert(is_end_of(buffer@, i as int));
                assert forall|a: int, b: int|
                    0 <= a < views(entries@).len() && 0 <= b < views(entries@)[a].len() implies #[trigger] views(
                    entries@,
                )[a][b] != SEPARATOR by {
                    assert(views(entries@)[a] == entries@[a]@);
                }
            }
            return Some(entries);
        }
        if byte == SEPARATOR {
            entries.push(current);
            current = Vec::new();
            proof {
                let after = views(entries@).push(current@);
                assert(views(entries@) =~= before);
                assert(after.drop_last() =~= before);
                assert(after.last() =~= Seq::<u8>::empty());
                assert(joined(after) =~= joined(before) + seq![SEPARATOR]);
                assert(buffer@.take(i + 1) =~= buffer@.take(i as int).push(byte));
            }
        } else {
            current.push(byte);
            proof {
                let after = views(entries@).push(current@);
                assert(after.drop_last() =~= before.drop_last());
                assert(after.last() =~= before.last().push(byte));
                lemma_joined_grows(before, byte);
                assert(after =~= before.drop_last().push(before.last().push(byte)));
                assert(buffer@.take(i + 1) =~= buffer@.take(i as int).push(byte));
            }
        }
        i = i + 1;
    }
    None
}

/// A byte appended to the last entry is a byte appended to what the entries
/// give when joined.
proof fn lemma_joined_grows(entries: Seq<Seq<u8>>, byte: u8)
    requires
        entries.len() >= 1,
    ensures
        joined(entries.drop_last().push(entries.last().push(byte))) == joined(entries).push(byte),
{
    let grown = entries.drop_last().push(entries.last().push(byte));
    assert(grown.drop_last() =~= entries.drop_last());
    if entries.len() == 1 {
        assert(joined(grown) =~= joined(entries).push(byte));
    } else {
        assert(joined(grown) =~= joined(entries.drop_last()) + seq![SEPARATOR] + entries.last().push(
            byte,
        ));
        assert(joined(grown) =~= joined(entries).push(byte));
    }
}

} // verus!
