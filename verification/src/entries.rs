//! Lookup data as bytes: the form in which entries reach the runtime from a
//! file or a download.
//!
//! The bytes are a run of entries. An entry is a key and a value, each as its
//! length in four bytes, least significant first, followed by that many bytes.

use crate::endian::{le_bytes, le_value, lemma_le_round_trip, spec_le_bytes, spec_le_value};
use crate::lookup::spec_pairs;
use vstd::prelude::*;
use vstd::slice::*;

verus! {

/// A length-prefixed field at the start of the bytes: its content and the
/// number of bytes that it takes up. Bytes that end before the field does hold
/// no field.
pub open spec fn spec_decode_field(bytes: Seq<u8>) -> Option<(Seq<u8>, int)> {
    if bytes.len() < 4 {
        None
    } else {
        let len = spec_le_value(bytes.take(4));
        if bytes.len() < 4 + len {
            None
        } else {
            Some((bytes.subrange(4, 4 + len), 4 + len))
        }
    }
}

/// An entry at the start of the bytes: its key, its value and the number of
/// bytes that it takes up.
pub open spec fn spec_decode_entry(bytes: Seq<u8>) -> Option<(Seq<u8>, Seq<u8>, int)> {
    match spec_decode_field(bytes) {
        None => None,
        Some((key, key_end)) => match spec_decode_field(bytes.skip(key_end)) {
            None => None,
            Some((value, value_end)) => Some((key, value, key_end + value_end)),
        },
    }
}

/// The entries that bytes hold, in their order, or nothing where the bytes are
/// malformed: where they end in the middle of an entry.
pub open spec fn spec_decode_entries(bytes: Seq<u8>) -> Option<Seq<(Seq<u8>, Seq<u8>)>>
    decreases bytes.len(),
{
    if bytes.len() == 0 {
        Some(Seq::empty())
    } else {
        match spec_decode_entry(bytes) {
            None => None,
            Some((key, value, used)) => if used <= 0 || used > bytes.len() {
                None
            } else {
                match spec_decode_entries(bytes.skip(used)) {
                    None => None,
                    Some(rest) => Some(seq![(key, value)] + rest),
                }
            },
        }
    }
}

/// A field as bytes: its length, then its content.
pub open spec fn spec_encode_field(content: Seq<u8>) -> Seq<u8> {
    spec_le_bytes(content.len() as u32) + content
}

/// Entries as bytes, one after the other.
pub open spec fn spec_encode_entries(entries: Seq<(Seq<u8>, Seq<u8>)>) -> Seq<u8>
    decreases entries.len(),
{
    if entries.len() == 0 {
        Seq::empty()
    } else {
        spec_encode_field(entries[0].0) + spec_encode_field(entries[0].1) + spec_encode_entries(
            entries.drop_first(),
        )
    }
}

/// Whether every key and value is short enough for its length to fit in four
/// bytes.
pub open spec fn spec_encodable(entries: Seq<(Seq<u8>, Seq<u8>)>) -> bool {
    forall|i: int|
        0 <= i < entries.len() ==> (#[trigger] entries[i]).0.len() <= u32::MAX
            && entries[i].1.len() <= u32::MAX
}

fn decode_field(bytes: &[u8], start: usize) -> (field: Option<(Vec<u8>, usize)>)
    requires
        start <= bytes@.len(),
    ensures
        match spec_decode_field(bytes@.skip(start as int)) {
            None => field is None,
            Some((content, used)) => field matches Some((found, end)) && found@ == content && end
                == start + used && start + 4 <= end <= bytes@.len(),
        },
{
    let ghost rest = bytes@.skip(start as int);
    if bytes.len() - start < 4 {
        return None;
    }
    let prefix = slice_subrange(bytes, start, start + 4);
    proof {
        assert(prefix@ =~= rest.take(4));
        assert(prefix@.take(4) =~= prefix@);
    }
    let len = le_value(prefix) as usize;
    if bytes.len() - start - 4 < len {
        return None;
    }
    let content = slice_to_vec(slice_subrange(bytes, start + 4, start + 4 + len));
    proof {
        assert(content@ =~= rest.subrange(4, 4 + len));
    }
    Some((content, start + 4 + len))
}

/// Reads the entries that bytes hold. Bytes that end in the middle of an entry
/// are malformed and give nothing.
pub fn decode_entries(bytes: &[u8]) -> (entries: Option<Vec<(Vec<u8>, Vec<u8>)>>)
    ensures
        match spec_decode_entries(bytes@) {
            None => entries is None,
            Some(expected) => entries matches Some(found) && spec_pairs(found@) == expected,
        },
{
    let mut entries: Vec<(Vec<u8>, Vec<u8>)> = Vec::new();
    let mut position: usize = 0;
    proof {
        assert(bytes@.skip(0) =~= bytes@);
        match spec_decode_entries(bytes@) {
            Some(rest) => {
                assert(spec_pairs(entries@) + rest =~= rest);
            },
            None => {},
        }
    }
    while position < bytes.len()
        invariant
            position <= bytes@.len(),
            spec_decode_entries(bytes@) == match spec_decode_entries(bytes@.skip(position as int)) {
                None => None::<Seq<(Seq<u8>, Seq<u8>)>>,
                Some(rest) => Some(spec_pairs(entries@) + rest),
            },
        decreases bytes@.len() - position,
    {
        let ghost rest = bytes@.skip(position as int);
        let ghost done = spec_pairs(entries@);
        let (key, key_end) = match decode_field(bytes, position) {
            Some(field) => field,
            None => {
                return None;
            },
        };
        proof {
            assert(bytes@.skip(key_end as int) =~= rest.skip(key_end - position));
        }
        let (value, value_end) = match decode_field(bytes, key_end) {
            Some(field) => field,
            None => {
                return None;
            },
        };
        proof {
            assert(bytes@.skip(value_end as int) =~= rest.skip(value_end - position));
            assert(spec_decode_entry(rest) == Some((key@, value@, value_end - position)));
        }
        entries.push((key, value));
        proof {
            assert(spec_pairs(entries@) =~= done.push((key@, value@)));
            match spec_decode_entries(bytes@.skip(value_end as int)) {
                Some(tail) => {
                    assert(done + (seq![(key@, value@)] + tail) =~= spec_pairs(entries@) + tail);
                },
                None => {},
            }
        }
        position = value_end;
    }
    proof {
        assert(bytes@.skip(position as int).len() == 0);
        assert(spec_pairs(entries@) + Seq::<(Seq<u8>, Seq<u8>)>::empty() =~= spec_pairs(entries@));
    }
    Some(entries)
}

fn encode_field(out: &mut Vec<u8>, content: &[u8])
    requires
        content@.len() <= u32::MAX,
    ensures
        final(out)@ == old(out)@ + spec_encode_field(content@),
{
    let ghost before = out@;
    let prefix = le_bytes(content.len() as u32);
    out.extend_from_slice(prefix.as_slice());
    out.extend_from_slice(content);
    proof {
        assert(out@ =~= before + spec_encode_field(content@));
    }
}

/// Writes entries as bytes. Entries with a key or a value of 4 GiB or more
/// cannot be written and give nothing.
pub fn encode_entries(entries: &[(Vec<u8>, Vec<u8>)]) -> (bytes: Option<Vec<u8>>)
    ensures
        spec_encodable(spec_pairs(entries@)) <==> bytes is Some,
        bytes matches Some(found) ==> found@ == spec_encode_entries(spec_pairs(entries@)),
{
    let ghost all = spec_pairs(entries@);
    let mut out: Vec<u8> = Vec::new();
    let mut i: usize = 0;
    proof {
        assert(all.skip(0) =~= all);
        assert(out@ + spec_encode_entries(all) =~= spec_encode_entries(all));
    }
    while i < entries.len()
        invariant
            i <= entries@.len(),
            all == spec_pairs(entries@),
            spec_encodable(all.take(i as int)),
            out@ + spec_encode_entries(all.skip(i as int)) == spec_encode_entries(all),
        decreases entries@.len() - i,
    {
        let key = entries[i].0.as_slice();
        let value = entries[i].1.as_slice();
        if key.len() > 0xffff_ffff || value.len() > 0xffff_ffff {
            proof {
                assert(all[i as int] == (key@, value@));
            }
            return None;
        }
        let ghost before = out@;
        encode_field(&mut out, key);
        encode_field(&mut out, value);
        proof {
            let rest = all.skip(i as int);
            assert(rest[0] == (key@, value@));
            assert(rest.drop_first() =~= all.skip(i + 1));
            assert(out@ + spec_encode_entries(all.skip(i + 1)) =~= before + spec_encode_entries(
                rest,
            ));
            assert forall|j: int| 0 <= j < all.take(i + 1).len() implies (#[trigger] all.take(
                i + 1,
            )[j]).0.len() <= u32::MAX && all.take(i + 1)[j].1.len() <= u32::MAX by {
                if j < i {
                    assert(all.take(i as int)[j] == all.take(i + 1)[j]);
                }
            }
        }
        i = i + 1;
    }
    proof {
        assert(all.take(i as int) =~= all);
        assert(all.skip(i as int).len() == 0);
        assert(out@ + Seq::<u8>::empty() =~= out@);
    }
    Some(out)
}

/// Reading a field that was written gives its content back, whatever follows.
pub proof fn lemma_field_round_trip(content: Seq<u8>, tail: Seq<u8>)
    requires
        content.len() <= u32::MAX,
    ensures
        spec_decode_field(spec_encode_field(content) + tail) == Some(
            (content, 4 + content.len() as int),
        ),
        (spec_encode_field(content) + tail).skip(4 + content.len() as int) == tail,
{
    let bytes = spec_encode_field(content) + tail;
    lemma_le_round_trip(content.len() as u32);
    assert(bytes.take(4) =~= spec_le_bytes(content.len() as u32));
    assert(bytes.subrange(4, 4 + content.len() as int) =~= content);
    assert(bytes.skip(4 + content.len() as int) =~= tail);
}

/// Reading entries that were written gives the entries back.
pub proof fn lemma_entries_round_trip(entries: Seq<(Seq<u8>, Seq<u8>)>)
    requires
        spec_encodable(entries),
    ensures
        spec_decode_entries(spec_encode_entries(entries)) == Some(entries),
    decreases entries.len(),
{
    if entries.len() == 0 {
        assert(entries =~= Seq::empty());
    } else {
        let key = entries[0].0;
        let value = entries[0].1;
        let rest = entries.drop_first();
        let tail = spec_encode_entries(rest);
        let bytes = spec_encode_entries(entries);
        assert(bytes =~= spec_encode_field(key) + (spec_encode_field(value) + tail));
        lemma_field_round_trip(key, spec_encode_field(value) + tail);
        lemma_field_round_trip(value, tail);
        let key_end = 4 + key.len() as int;
        let value_end = 4 + value.len() as int;
        assert(bytes.skip(key_end) == spec_encode_field(value) + tail);
        assert(spec_decode_entry(bytes) == Some((key, value, key_end + value_end)));
        assert(bytes.skip(key_end + value_end) =~= bytes.skip(key_end).skip(value_end));
        assert(bytes.skip(key_end + value_end) == tail);
        assert forall|i: int| 0 <= i < rest.len() implies (#[trigger] rest[i]).0.len() <= u32::MAX
            && rest[i].1.len() <= u32::MAX by {
            assert(rest[i] == entries[i + 1]);
        }
        lemma_entries_round_trip(rest);
        assert(bytes.len() >= key_end + value_end);
        assert(seq![(key, value)] + rest =~= entries);
    }
}

} // verus!
