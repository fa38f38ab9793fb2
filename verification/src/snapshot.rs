//! Snapshot images: a block header and the full key-value state at that
//! block, serialized into one self-contained byte string.
//!
//! An image is the header as a chunk, the number of entries, and for each
//! entry its key and its value as chunks. A chunk is a length followed by
//! that many bytes. Lengths and the count are 64-bit little-endian numbers.
//! Nothing follows the last entry.

use vstd::prelude::*;
use vstd::bytes::{
    lemma_auto_spec_u64_to_from_le_bytes, spec_u64_from_le_bytes, spec_u64_to_le_bytes,
    u64_from_le_bytes, u64_to_le_bytes,
};
use vstd::slice::{slice_subrange, slice_to_vec};
use crate::error::ReplayError;
use crate::overlay::{entries_view, map_of, CodeRecordView, Entry, StateOverlay};

verus! {

/// What a snapshot image holds.
pub struct SnapshotView {
    /// The encoded block header.
    pub header: Seq<u8>,
    /// The entries of the state, in the order of the image.
    pub entries: Seq<(Seq<u8>, Seq<u8>)>,
}

/// A byte string as a chunk: its length, then its bytes.
pub open spec fn chunk(bytes: Seq<u8>) -> Seq<u8> {
    spec_u64_to_le_bytes(bytes.len() as u64) + bytes
}

/// The entries, each as the chunk of its key and the chunk of its value.
pub open spec fn entries_image(entries: Seq<(Seq<u8>, Seq<u8>)>) -> Seq<u8>
    decreases entries.len(),
{
    if entries.len() == 0 {
        Seq::empty()
    } else {
        chunk(entries[0].0) + chunk(entries[0].1) + entries_image(entries.drop_first())
    }
}

/// The image of a header and entries.
pub open spec fn image_of(header: Seq<u8>, entries: Seq<(Seq<u8>, Seq<u8>)>) -> Seq<u8> {
    chunk(header) + spec_u64_to_le_bytes(entries.len() as u64) + entries_image(entries)
}

/// Every length that the image of these values holds fits its 64-bit field.
pub open spec fn fits_image(header: Seq<u8>, entries: Seq<(Seq<u8>, Seq<u8>)>) -> bool {
    &&& header.len() <= u64::MAX
    &&& entries.len() <= u64::MAX
    &&& forall|i: int|
        0 <= i < entries.len() ==> (#[trigger] entries[i]).0.len() <= u64::MAX && entries[i].1.len()
            <= u64::MAX
}

/// Reads a number from the front of the bytes: the number and what follows
/// it, or `None` where fewer than eight bytes are left.
pub open spec fn take_number(bytes: Seq<u8>) -> Option<(u64, Seq<u8>)> {
    if bytes.len() < 8 {
        None
    } else {
        Some((spec_u64_from_le_bytes(bytes.subrange(0, 8)), bytes.subrange(8, bytes.len() as int)))
    }
}

/// Reads a chunk from the front of the bytes: its content and what follows
/// it, or `None` where the bytes end before the chunk does.
pub open spec fn take_chunk(bytes: Seq<u8>) -> Option<(Seq<u8>, Seq<u8>)> {
    match take_number(bytes) {
        Some((n, rest)) => if rest.len() < n {
            None
        } else {
            Some((rest.subrange(0, n as int), rest.subrange(n as int, rest.len() as int)))
        },
        None => None,
    }
}

/// Reads `count` entries from the front of the bytes: the entries and what
/// follows them, or `None` where the bytes end before the entries do.
pub open spec fn take_entries(bytes: Seq<u8>, count: nat) -> Option<
    (Seq<(Seq<u8>, Seq<u8>)>, Seq<u8>),
>
    decreases count,
{
    if count == 0 {
        Some((Seq::empty(), bytes))
    } else {
        match take_chunk(bytes) {
            Some((key, after_key)) => match take_chunk(after_key) {
                Some((value, after_value)) => match take_entries(after_value, (count - 1) as nat) {
                    Some((more, rest)) => Some((seq![(key, value)] + more, rest)),
                    None => None,
                },
                None => None,
            },
            None => None,
        }
    }
}

/// What the bytes hold if they are a snapshot image, and `None` if they are
/// not: where a section is missing or cut short, or bytes are left over.
pub open spec fn parsed(image: Seq<u8>) -> Option<SnapshotView> {
    match take_chunk(image) {
        Some((header, after_header)) => match take_number(after_header) {
            Some((count, after_count)) => match take_entries(after_count, count as nat) {
                Some((entries, rest)) => if rest.len() == 0 {
                    Some(SnapshotView { header, entries })
                } else {
                    None
                },
                None => None,
            },
            None => None,
        },
        None => None,
    }
}

/// A number written in front of any bytes is read back, and those bytes
/// are what follows it.
pub proof fn lemma_take_number(n: u64, rest: Seq<u8>)
    ensures
        take_number(spec_u64_to_le_bytes(n) + rest) == Some((n, rest)),
{
    lemma_auto_spec_u64_to_from_le_bytes();
    let bytes = spec_u64_to_le_bytes(n) + rest;
    assert(bytes.subrange(0, 8) =~= spec_u64_to_le_bytes(n));
    assert(bytes.subrange(8, bytes.len() as int) =~= rest);
}

/// A chunk written in front of any bytes is read back, and those bytes are
/// what follows it.
pub proof fn lemma_take_chunk(content: Seq<u8>, rest: Seq<u8>)
    requires
        content.len() <= u64::MAX,
    ensures
        take_chunk(chunk(content) + rest) == Some((content, rest)),
{
    let n = content.len() as u64;
    lemma_take_number(n, content + rest);
    assert(chunk(content) + rest =~= spec_u64_to_le_bytes(n) + (content + rest));
    assert((content + rest).subrange(0, n as int) =~= content);
    assert((content + rest).subrange(n as int, (content + rest).len() as int) =~= rest);
}

/// Entries written in front of any bytes are read back, and those bytes are
/// what follows them.
pub proof fn lemma_take_entries(entries: Seq<(Seq<u8>, Seq<u8>)>, rest: Seq<u8>)
    requires
        forall|i: int|
            0 <= i < entries.len() ==> (#[trigger] entries[i]).0.len() <= u64::MAX && entries[i].1.len()
                <= u64::MAX,
    ensures
        take_entries(entries_image(entries) + rest, entries.len()) == Some((entries, rest)),
    decreases entries.len(),
{
    if entries.len() == 0 {
        assert(entries_image(entries) + rest =~= rest);
        assert(entries =~= Seq::empty());
    } else {
        let key = entries[0].0;
        let value = entries[0].1;
        let more = entries.drop_first();
        let after_value = entries_image(more) + rest;
        let after_key = chunk(value) + after_value;
        assert(entries_image(entries) + rest =~= chunk(key) + after_key);
        lemma_take_chunk(key, after_key);
        lemma_take_chunk(value, after_value);
        assert forall|i: int| 0 <= i < more.len() implies (#[trigger] more[i]).0.len() <= u64::MAX
            && more[i].1.len() <= u64::MAX by {
            assert(more[i] == entries[i + 1]);
        }
        lemma_take_entries(more, rest);
        assert(seq![(key, value)] + more =~= entries);
    }
}

/// Capturing and resolving agree: the image of a header and entries parses
/// back into that header and those entries, so that a state captured from a
/// live peer resolves to the mapping that the peer delivered.
pub proof fn law_capture_then_resolve(header: Seq<u8>, entries: Seq<(Seq<u8>, Seq<u8>)>)
    requires
        fits_image(header, entries),
    ensures
        parsed(image_of(header, entries)) == Some(SnapshotView { header, entries }),
{
    let count = entries.len() as u64;
    let after_count = entries_image(entries);
    let after_header = spec_u64_to_le_bytes(count) + after_count;
    assert(image_of(header, entries) =~= chunk(header) + after_header);
    lemma_take_chunk(header, after_header);
    lemma_take_number(count, after_count);
    lemma_take_entries(entries, Seq::empty());
    assert(after_count + Seq::<u8>::empty() =~= after_count);
}

/// A resolved state source: the header of a block and the state at it.
#[derive(Debug)]
pub struct Resolution {
    /// The encoded block header.
    pub header: Vec<u8>,
    /// The state at that block.
    pub overlay: StateOverlay,
}

/// Writes the image of a header and entries.
pub fn capture_snapshot(header: &[u8], entries: &Vec<Entry>) -> (image: Vec<u8>)
    ensures
        image@ == image_of(header@, entries_view(entries@)),
{
    let ghost all = entries_view(entries@);
    let mut image = u64_to_le_bytes(header.len() as u64);
    image.extend_from_slice(header);
    let mut count = u64_to_le_bytes(entries.len() as u64);
    image.append(&mut count);
    let mut i: usize = 0;
    proof {
        assert(all.subrange(0, all.len() as int) =~= all);
    }
    while i < entries.len()
        invariant
            i <= entries@.len(),
            all == entries_view(entries@),
            image@ + entries_image(all.subrange(i as int, all.len() as int)) == image_of(header@, all),
        decreases entries@.len() - i,
    {
        let ghost before = image@;
        let key = entries[i].0.as_slice();
        let value = entries[i].1.as_slice();
        let mut key_len = u64_to_le_bytes(key.len() as u64);
        image.append(&mut key_len);
        image.extend_from_slice(key);
        let mut value_len = u64_to_le_bytes(value.len() as u64);
        image.append(&mut value_len);
        image.extend_from_slice(value);
        proof {
            let left = all.subrange(i as int, all.len() as int);
            assert(left.drop_first() =~= all.subrange(i + 1, all.len() as int));
            assert(left[0] == (key@, value@));
            assert(image@ =~= before + chunk(key@) + chunk(value@));
            assert(image@ + entries_image(left.drop_first()) =~= before + entries_image(left));
        }
        i += 1;
    }
    proof {
        assert(image@ + Seq::<u8>::empty() =~= image@);
    }
    image
}

/// Reads a number at `pos`.
fn read_number(image: &[u8], pos: usize) -> (read: Option<(u64, usize)>)
    requires
        pos <= image@.len(),
    ensures
        match take_number(image@.subrange(pos as int, image@.len() as int)) {
            Some((n, rest)) => read matches Some((number, next)) && number == n && next <= image@.len()
                && rest == image@.subrange(next as int, image@.len() as int),
            None => read is None,
        },
{
    if image.len() - pos < 8 {
        return None;
    }
    let n = u64_from_le_bytes(slice_subrange(image, pos, pos + 8));
    proof {
        let left = image@.subrange(pos as int, image@.len() as int);
        assert(left.subrange(0, 8) =~= image@.subrange(pos as int, pos + 8));
        assert(left.subrange(8, left.len() as int) =~= image@.subrange(pos + 8, image@.len() as int));
    }
    Some((n, pos + 8))
}

/// Reads a chunk at `pos`.
fn read_chunk(image: &[u8], pos: usize) -> (read: Option<(Vec<u8>, usize)>)
    requires
        pos <= image@.len(),
    ensures
        match take_chunk(image@.subrange(pos as int, image@.len() as int)) {
            Some((content, rest)) => read matches Some((bytes, next)) && bytes@ == content && next
                <= image@.len() && rest == image@.subrange(next as int, image@.len() as int),
            None => read is None,
        },
{
    match read_number(image, pos) {
        Some((n, start)) => {
            if ((image.len() - start) as u64) < n {
                return None;
            }
            let end = start + (n as usize);
            let content = slice_to_vec(slice_subrange(image, start, end));
            proof {
                let left = image@.subrange(start as int, image@.len() as int);
                assert(left.subrange(0, n as int) =~= image@.subrange(start as int, end as int));
                assert(left.subrange(n as int, left.len() as int) =~= image@.subrange(
                    end as int,
                    image@.len() as int,
                ));
            }
            Some((content, end))
        },
        None => None,
    }
}

/// Reads `count` entries at `pos`.
fn read_entries(image: &[u8], pos: usize, count: u64) -> (read: Option<(Vec<Entry>, usize)>)
    requires
        pos <= image@.len(),
    ensures
        match take_entries(image@.subrange(pos as int, image@.len() as int), count as nat) {
            Some((entries, rest)) => read matches Some((list, next)) && entries_view(list@) == entries
                && next <= image@.len() && rest == image@.subrange(next as int, image@.len() as int),
            None => read is None,
        },
{
    let ghost whole = take_entries(image@.subrange(pos as int, image@.len() as int), count as nat);
    let mut entries: Vec<Entry> = Vec::new();
    let mut at: usize = pos;
    let mut i: u64 = 0;
    proof {
        let left = take_entries(image@.subrange(at as int, image@.len() as int), count as nat);
        if let Some((more, rest)) = left {
            assert(entries_view(entries@) + more =~= more);
        }
    }
    while i < count
        invariant
            i <= count,
            pos <= at <= image@.len(),
            whole == take_entries(image@.subrange(pos as int, image@.len() as int), count as nat),
            whole == match take_entries(
                image@.subrange(at as int, image@.len() as int),
                (count - i) as nat,
            ) {
                Some((more, rest)) => Some((entries_view(entries@) + more, rest)),
                None => None,
            },
        decreases count - i,
    {
        let ghost done = entries_view(entries@);
        let ghost left = image@.subrange(at as int, image@.len() as int);
        let (key, after_key) = match read_chunk(image, at) {
            Some(read) => read,
            None => {
                return None;
            },
        };
        let (value, after_value) = match read_chunk(image, after_key) {
            Some(read) => read,
            None => {
                return None;
            },
        };
        proof {
            let next = image@.subrange(after_value as int, image@.len() as int);
            if let Some((more, rest)) = take_entries(next, (count - i - 1) as nat) {
                assert(entries_view(entries@.push((key, value))) =~= done.push((key@, value@)));
                assert(done + (seq![(key@, value@)] + more) =~= done.push((key@, value@)) + more);
            }
        }
        entries.push((key, value));
        at = after_value;
        i += 1;
    }
    proof {
        assert(entries_view(entries@) + Seq::<(Seq<u8>, Seq<u8>)>::empty() =~= entries_view(entries@));
    }
    Some((entries, at))
}

/// Parses a snapshot image into its header and its entries.
pub fn parse_snapshot(image: &[u8]) -> (snapshot: Option<(Vec<u8>, Vec<Entry>)>)
    ensures
        match parsed(image@) {
            Some(held) => snapshot matches Some((header, entries)) && header@ == held.header
                && entries_view(entries@) == held.entries,
            None => snapshot is None,
        },
{
    proof {
        assert(image@.subrange(0, image@.len() as int) =~= image@);
    }
    let (header, after_header) = match read_chunk(image, 0) {
        Some(read) => read,
        None => {
            return None;
        },
    };
    let (count, after_count) = match read_number(image, after_header) {
        Some(read) => read,
        None => {
            return None;
        },
    };
    let (entries, end) = match read_entries(image, after_count, count) {
        Some(read) => read,
        None => {
            return None;
        },
    };
    if end != image.len() {
        return None;
    }
    Some((header, entries))
}

/// Resolves a snapshot image into the header and the state that it holds.
///
/// The result depends on the bytes of the image alone. Bytes that are not
/// an image are rejected as `CorruptSnapshot`.
pub fn resolve_snapshot(image: &[u8]) -> (resolved: Result<Resolution, ReplayError>)
    ensures
        match parsed(image@) {
            Some(held) => resolved is Ok && resolved->Ok_0.header@ == held.header
                && resolved->Ok_0.overlay.wf() && resolved->Ok_0.overlay@.map == map_of(held.entries)
                && resolved->Ok_0.overlay@.record == CodeRecordView::Untouched,
            None => resolved is Err && resolved->Err_0 == ReplayError::CorruptSnapshot,
        },
{
    match parse_snapshot(image) {
        Some((header, entries)) => Ok(Resolution { header, overlay: StateOverlay::from_entries(entries) }),
        None => Err(ReplayError::CorruptSnapshot),
    }
}

} // verus!
