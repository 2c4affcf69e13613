//! Transaction ids and their text form.
use vstd::prelude::*;
use vstd::string::StringSliceAdditionalSpecFns;
use vstd::utf8::encode_utf8;

use crate::encoding::{base32_decode, base32_decoded_of, base32_encode, base32_text_of};
use crate::error::Error;
use crate::text::text_bytes;

verus! {

/// The id of a transaction: 32 bytes, written as unpadded base32.
#[derive(Debug, Clone, Copy, PartialEq, Eq, Hash)]
pub struct TxId(pub [u8; 32]);

/// The bytes of the transaction id that a text (given as bytes) names: its base32 decoding,
/// where that is 32 bytes long.
pub open spec fn tx_id_of_text(text: Seq<u8>) -> Option<Seq<u8>> {
    match base32_decoded_of(text) {
        Some(b) => if b.len() == 32 {
            Some(b)
        } else {
            None
        },
        None => None,
    }
}

/// The 32 bytes of a vector of that length.
fn to_array(v: &Vec<u8>) -> (r: [u8; 32])
    requires
        v.len() == 32,
    ensures
        r@ == v@,
{
    let mut a: [u8; 32] = [0u8; 32];
    let mut i: usize = 0;
    while i < 32
        invariant
            i <= 32,
            v.len() == 32,
            forall|j: int| 0 <= j < i ==> a@[j] == v@[j],
        decreases 32 - i,
    {
        a.set(i, v[i]);
        i = i + 1;
    }
    proof {
        assert(a@ =~= v@);
    }
    a
}

impl TxId {
    /// The id of a 32-byte digest.
    pub fn from(digest: [u8; 32]) -> (r: TxId)
        ensures
            r.0 == digest,
    {
        TxId(digest)
    }

    /// The id of 32 bytes; refused where the slice has another length.
    pub fn try_from(slice: &[u8]) -> (r: Result<TxId, Error>)
        ensures
            r is Ok <==> slice@.len() == 32,
            r matches Ok(id) ==> id.0@ == slice@,
            r matches Err(e) ==> e == Error::InvalidLength,
    {
        if slice.len() != 32 {
            return Err(Error::InvalidLength);
        }
        let v = vstd::slice::slice_to_vec(slice);
        Ok(TxId(to_array(&v)))
    }

    /// Reads a transaction id from its base32 text; refused where the text is not base32 or
    /// does not decode to 32 bytes.
    pub fn from_str(s: &str) -> (r: Result<TxId, Error>)
        ensures
            r is Ok <==> tx_id_of_text(s.spec_bytes()) is Some,
            r matches Ok(id) ==> tx_id_of_text(s.spec_bytes()) == Some(id.0@),
            r matches Err(e) ==> e == Error::InvalidEncoding || e == Error::InvalidLength,
    {
        let bytes = match base32_decode(&text_bytes(s)) {
            Some(b) => b,
            None => {
                return Err(Error::InvalidEncoding);
            },
        };
        if bytes.len() != 32 {
            return Err(Error::InvalidLength);
        }
        let a = to_array(&bytes);
        Ok(TxId(a))
    }

    /// The base32 text of the id. Reading it back gives the same id.
    pub fn to_string(&self) -> (r: String)
        ensures
            encode_utf8(r@) == base32_text_of(self.0@),
            tx_id_of_text(encode_utf8(r@)) == Some(self.0@),
    {
        let mut bytes: Vec<u8> = Vec::new();
        let mut i: usize = 0;
        while i < 32
            invariant
                i <= 32,
                bytes@ =~= self.0@.subrange(0, i as int),
            decreases 32 - i,
        {
            bytes.push(self.0[i]);
            i = i + 1;
        }
        proof {
            assert(self.0@.subrange(0, 32) =~= self.0@);
        }
        base32_encode(&bytes)
    }
}

} // verus!
