//! The extension map, which says which optional fields legacy flow records carry.

use vstd::prelude::*;
use crate::bytes::{u16_at, ByteCursor};
use crate::error::{IoFailure, NfdumpError};
use crate::record::NfFileRecordHeader;

verus! {

/// An extension map: the ids of the optional fields that the legacy flow
/// records after it carry. No id in `ex_id` is zero.
#[derive(Debug, Clone, PartialEq, Eq)]
pub struct ExtensionMap {
    pub header: NfFileRecordHeader,
    pub map_id: u16,
    pub extension_size: u16,
    pub ex_id: Vec<u16>,
}

/// An extension map with its ids as a sequence.
pub struct ExtensionMapView {
    pub header: NfFileRecordHeader,
    pub map_id: u16,
    pub extension_size: u16,
    pub ex_id: Seq<u16>,
}

impl View for ExtensionMap {
    type V = ExtensionMapView;

    open spec fn view(&self) -> ExtensionMapView {
        ExtensionMapView {
            header: self.header,
            map_id: self.map_id,
            extension_size: self.extension_size,
            ex_id: self.ex_id@,
        }
    }
}

/// The first `count` numbers of two bytes that `d` holds from index `from` on.
pub open spec fn listed_ids(d: Seq<u8>, from: int, count: nat) -> Seq<u16> {
    Seq::new(count, |i: int| u16_at(d, from + 2 * i))
}

/// The test that an id is not zero.
pub open spec fn nonzero() -> spec_fn(u16) -> bool {
    |id: u16| id != 0
}

/// The number of whole two-byte ids that follow the four leading bytes of a
/// payload of `len` bytes.
pub open spec fn id_count(len: nat) -> nat {
    if len < 4 {
        0
    } else {
        ((len - 4) / 2) as nat
    }
}

/// What the payload `d` of an extension map record decodes to: the map's id,
/// its declared size, and then every id that is not zero, in order. A last odd
/// byte is left out.
pub open spec fn decode_extension_map(header: NfFileRecordHeader, d: Seq<u8>) -> Result<
    ExtensionMapView,
    NfdumpError,
> {
    if d.len() < 4 {
        Err(NfdumpError::IoError(IoFailure::UnexpectedEof))
    } else {
        Ok(
            ExtensionMapView {
                header,
                map_id: u16_at(d, 0),
                extension_size: u16_at(d, 2),
                ex_id: listed_ids(d, 4, id_count(d.len())).filter(nonzero()),
            },
        )
    }
}

/// No id of a decoded extension map is zero.
pub proof fn lemma_extension_ids_are_nonzero(header: NfFileRecordHeader, d: Seq<u8>)
    requires
        decode_extension_map(header, d) is Ok,
    ensures
        forall|i: int|
            0 <= i < decode_extension_map(header, d).unwrap().ex_id.len() ==> decode_extension_map(
                header,
                d,
            ).unwrap().ex_id[i] != 0,
{
    let ids = listed_ids(d, 4, id_count(d.len()));
    assert forall|i: int| 0 <= i < ids.filter(nonzero()).len() implies ids.filter(nonzero())[i]
        != 0 by {
        ids.lemma_filter_pred(nonzero(), i);
    }
}

/// Filtering a sequence with one more element: the element is kept at the
/// end where it meets `pred`, and left out where it does not.
proof fn lemma_filter_push(s: Seq<u16>, x: u16, pred: spec_fn(u16) -> bool)
    ensures
        s.push(x).filter(pred) == if pred(x) {
            s.filter(pred).push(x)
        } else {
            s.filter(pred)
        },
{
    reveal(Seq::filter);
    assert(s.push(x).drop_last() == s);
}

/// Decodes an extension map record from its payload.
pub fn read_extension_map(header: NfFileRecordHeader, record_data: Vec<u8>) -> (r: Result<
    ExtensionMap,
    NfdumpError,
>)
    ensures
        match decode_extension_map(header, record_data@) {
            Ok(v) => r matches Ok(map) && map@ == v,
            Err(e) => r matches Err(x) && x == e,
        },
{
    let ghost d = record_data@;
    let mut cursor = ByteCursor::new(record_data);
    let map_id = match cursor.read_u16() {
        Some(v) => v,
        None => {
            return Err(NfdumpError::IoError(IoFailure::UnexpectedEof));
        },
    };
    let extension_size = match cursor.read_u16() {
        Some(v) => v,
        None => {
            return Err(NfdumpError::IoError(IoFailure::UnexpectedEof));
        },
    };
    let mut ex_id: Vec<u16> = Vec::new();
    let ghost mut seen: nat = 0;
    assert(listed_ids(d, 4, 0).filter(nonzero()) == Seq::<u16>::empty()) by {
        reveal(Seq::filter);
    }
    loop
        invariant_except_break
            cursor.position() == 4 + 2 * seen,
            cursor.position() <= d.len(),
        invariant
            cursor.bytes() == d,
            d.len() >= 4,
            4 + 2 * seen <= d.len(),
            ex_id@ == listed_ids(d, 4, seen).filter(nonzero()),
        ensures
            seen == id_count(d.len()),
        decreases d.len() - cursor.position(),
    {
        match cursor.read_u16() {
            Some(id) => {
                proof {
                    assert(listed_ids(d, 4, seen + 1) == listed_ids(d, 4, seen).push(id));
                    lemma_filter_push(listed_ids(d, 4, seen), id, nonzero());
                    seen = seen + 1;
                }
                if id != 0 {
                    ex_id.push(id);
                }
            },
            None => {
                break ;
            },
        }
    }
    Ok(ExtensionMap { header, map_id, extension_size, ex_id })
}

} // verus!
