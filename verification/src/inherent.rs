//! The wire form of the author-inherent error report.
//!
//! A node that rejects a block over the author inherent reports why as a
//! small encoded value: a variant tag, a compact-encoded length, and the
//! message's bytes. `InherentError::try_from` recovers the report from the
//! identifier it was keyed under and the raw bytes.

use vstd::prelude::*;
use crate::pow_params::{inherent_identifier, inherent_identifier_spec};

verus! {

/// The error report an inherent failure travels as.
#[derive(Clone, PartialEq, Eq, Debug)]
pub enum InherentError {
    /// A free-form message naming what went wrong.
    Other(Vec<u8>),
}

impl View for InherentError {
    type V = Seq<u8>;

    open spec fn view(&self) -> Seq<u8> {
        match self {
            InherentError::Other(m) => m@,
        }
    }
}

/// The value and byte count of a compact-encoded 32-bit length at the front
/// of `data`, or nothing if no canonical compact encoding starts there.
///
/// The low two bits of the first byte pick the width: one, two or four bytes
/// holding the value shifted up by two, or a marker byte followed by four
/// plain little-endian bytes; each width is only valid for the value range
/// that no narrower width can hold.
pub open spec fn spec_decode_compact_u32(data: Seq<u8>) -> Option<(u32, int)> {
    if data.len() < 1 {
        None
    } else {
        let b0 = data[0] as int;
        let mode = b0 % 4;
        if mode == 0 {
            Some(((b0 / 4) as u32, 1))
        } else if mode == 1 {
            if data.len() < 2 {
                None
            } else {
                let x = (b0 + data[1] as int * 256) / 4;
                if 64 <= x <= 16383 {
                    Some((x as u32, 2))
                } else {
                    None
                }
            }
        } else if mode == 2 {
            if data.len() < 4 {
                None
            } else {
                let x = (b0 + data[1] as int * 256 + data[2] as int * 65536 + data[3] as int
                    * 16777216) / 4;
                if 16384 <= x <= 1073741823 {
                    Some((x as u32, 4))
                } else {
                    None
                }
            }
        } else {
            if b0 != 3 {
                None
            } else if data.len() < 5 {
                None
            } else {
                let x = data[1] as int + data[2] as int * 256 + data[3] as int * 65536 + data[4]
                    as int * 16777216;
                if x > 1073741823 {
                    Some((x as u32, 5))
                } else {
                    None
                }
            }
        }
    }
}

/// The message bytes of an encoded error report: a zero tag byte, a compact
/// length, then exactly that many message bytes (anything after them is
/// ignored, as a stream decoder would leave it unread).
pub open spec fn spec_error_payload(data: Seq<u8>) -> Option<Seq<u8>> {
    if data.len() < 1 || data[0] != 0 {
        None
    } else {
        match spec_decode_compact_u32(data.subrange(1, data.len() as int)) {
            None => None,
            Some((n, used)) => {
                if data.len() >= 1 + used + n {
                    Some(data.subrange(1 + used, 1 + used + n))
                } else {
                    None
                }
            },
        }
    }
}

/// Reads a compact-encoded 32-bit length from the front of `data`, returning
/// the value and how many bytes it occupied.
fn decode_compact_u32(data: &[u8]) -> (r: Option<(u32, usize)>)
    ensures
        r is Some <==> spec_decode_compact_u32(data@) is Some,
        r matches Some((v, used)) ==> spec_decode_compact_u32(data@) == Some((v, used as int)),
{
    if data.len() < 1 {
        return None;
    }
    let b0 = data[0];
    let mode = b0 % 4;
    if mode == 0 {
        Some(((b0 / 4) as u32, 1))
    } else if mode == 1 {
        if data.len() < 2 {
            return None;
        }
        let x: u32 = (b0 as u32 + (data[1] as u32) * 256) / 4;
        if 64 <= x && x <= 16383 {
            Some((x, 2))
        } else {
            None
        }
    } else if mode == 2 {
        if data.len() < 4 {
            return None;
        }
        let raw: u32 = b0 as u32 + (data[1] as u32) * 256 + (data[2] as u32) * 65536 + (
        data[3] as u32) * 16777216;
        let x = raw / 4;
        if 16384 <= x && x <= 1073741823 {
            Some((x, 4))
        } else {
            None
        }
    } else {
        if b0 != 3 {
            return None;
        }
        if data.len() < 5 {
            return None;
        }
        let x: u32 = data[1] as u32 + (data[2] as u32) * 256 + (data[3] as u32) * 65536 + (
        data[4] as u32) * 16777216;
        if x > 1073741823 {
            Some((x, 5))
        } else {
            None
        }
    }
}

impl InherentError {
    /// Every variant of this report is fatal: the block it concerns must be
    /// rejected in its entirety.
    pub fn is_fatal_error(&self) -> (r: bool)
        ensures
            r,
    {
        match self {
            InherentError::Other(_) => true,
        }
    }

    /// Recovers an error report from the identifier it was keyed under and
    /// its encoded bytes; reports keyed under any other identifier, and
    /// bytes that are not a well-formed report, yield nothing.
    pub fn try_from(id: &[u8; 8], data: &[u8]) -> (r: Option<InherentError>)
        ensures
            id@ != inherent_identifier_spec() ==> r is None,
            id@ == inherent_identifier_spec() ==> (r is Some <==> spec_error_payload(data@)
                is Some),
            r matches Some(e) ==> id@ == inherent_identifier_spec() && Some(e@)
                == spec_error_payload(data@),
    {
        let ident = inherent_identifier();
        let mut i: usize = 0;
        while i < 8
            invariant
                i <= 8,
                ident@ == inherent_identifier_spec(),
                forall|k: int| 0 <= k < i ==> id@[k] == ident@[k],
            decreases 8 - i,
        {
            if id[i] != ident[i] {
                proof {
                    assert(id@[i as int] != inherent_identifier_spec()[i as int]);
                }
                return None;
            }
            i += 1;
        }
        proof {
            assert(id@ =~= inherent_identifier_spec());
        }
        if data.len() < 1 || data[0] != 0 {
            return None;
        }
        let rest = vstd::slice::slice_subrange(data, 1, data.len());
        proof {
            assert(rest@ == data@.subrange(1, data@.len() as int));
        }
        match decode_compact_u32(rest) {
            Option::None => None,
            Option::Some((n, used)) => {
                let n = n as usize;
                if data.len() - 1 - used < n {
                    return None;
                }
                let start = 1 + used;
                let mut message: Vec<u8> = Vec::new();
                let mut k: usize = 0;
                while k < n
                    invariant
                        k <= n,
                        start + n <= data@.len(),
                        data@.len() <= usize::MAX,
                        message@.len() == k,
                        forall|j: int| 0 <= j < k ==> message@[j] == data@[start + j],
                    decreases n - k,
                {
                    message.push(data[start + k]);
                    k += 1;
                }
                proof {
                    assert(message@ =~= data@.subrange(
                        start as int,
                        start as int + n as int,
                    ));
                }
                Some(InherentError::Other(message))
            },
        }
    }
}

} // verus!
