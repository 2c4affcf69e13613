//! Hashing and text encodings of bytes, by the `sha2` and `data-encoding` crates.
use vstd::prelude::*;
use vstd::utf8::encode_utf8;

verus! {

/// The SHA-512/256 digest of bytes, as `sha2` computes it.
pub uninterp spec fn sha512_256_of(bytes: Seq<u8>) -> Seq<u8>;

/// The padded standard base64 text of bytes, as `data_encoding::BASE64` writes it.
pub uninterp spec fn base64_text_of(bytes: Seq<u8>) -> Seq<char>;

/// What `data_encoding::BASE64` decodes of a text (given as bytes); `None` where the text is
/// not valid base64.
pub uninterp spec fn base64_decoded_of(text: Seq<u8>) -> Option<Seq<u8>>;

/// The unpadded base32 text of bytes, as `data_encoding::BASE32_NOPAD` writes it, in bytes.
pub uninterp spec fn base32_text_of(bytes: Seq<u8>) -> Seq<u8>;

/// What `data_encoding::BASE32_NOPAD` decodes of a text (given as bytes); `None` where the
/// text is not valid unpadded base32.
pub uninterp spec fn base32_decoded_of(text: Seq<u8>) -> Option<Seq<u8>>;

/// `sha2::Sha512_256::digest`: the 32-byte digest of the bytes.
#[verifier::external_body]
pub(crate) fn sha512_256(bytes: &Vec<u8>) -> (r: [u8; 32])
    ensures
        r@ == sha512_256_of(bytes@),
{
    let digest = <sha2::Sha512_256 as sha2::Digest>::digest(bytes);
    digest.into()
}

/// `data_encoding::BASE64.encode`: the padded base64 text of the bytes.
#[verifier::external_body]
pub(crate) fn base64_encode(bytes: &Vec<u8>) -> (r: String)
    ensures
        r@ == base64_text_of(bytes@),
{
    data_encoding::BASE64.encode(bytes)
}

/// `data_encoding::BASE64.decode`: the bytes of a base64 text; `None` where the text is
/// invalid.
#[verifier::external_body]
pub(crate) fn base64_decode(text: &Vec<u8>) -> (r: Option<Vec<u8>>)
    ensures
        match r {
            Some(b) => base64_decoded_of(text@) == Some(b@),
            None => base64_decoded_of(text@) is None,
        },
{
    data_encoding::BASE64.decode(text).ok()
}

/// `data_encoding::BASE32_NOPAD.encode`: the unpadded base32 text of the bytes. The crate
/// documents its encodings as correct: decoding the text gives the bytes back.
#[verifier::external_body]
pub(crate) fn base32_encode(bytes: &Vec<u8>) -> (r: String)
    ensures
        encode_utf8(r@) == base32_text_of(bytes@),
        base32_decoded_of(encode_utf8(r@)) == Some(bytes@),
{
    data_encoding::BASE32_NOPAD.encode(bytes)
}

/// `data_encoding::BASE32_NOPAD.decode`: the bytes of an unpadded base32 text; `None` where
/// the text is invalid.
#[verifier::external_body]
pub(crate) fn base32_decode(text: &Vec<u8>) -> (r: Option<Vec<u8>>)
    ensures
        match r {
            Some(b) => base32_decoded_of(text@) == Some(b@),
            None => base32_decoded_of(text@) is None,
        },
{
    data_encoding::BASE32_NOPAD.decode(text).ok()
}

} // verus!
