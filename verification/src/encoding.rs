//! Conversion of the page from its legacy encoding, EUC-JP, to UTF-8.

use vstd::prelude::*;
use vstd::string::StringSliceAdditionalSpecFns;

verus! {

/// Why a buffer cannot be converted.
#[derive(Debug, Clone, Copy, PartialEq, Eq, Structural)]
pub enum ConvertError {
    /// The buffer holds a byte sequence that is not valid in the legacy
    /// encoding.
    Decode,
    /// The decoded text cannot be written in the target encoding.
    Encode,
}

/// The text that `encoding_rs` decodes `bytes` to from EUC-JP, a byte order
/// mark at the front deciding otherwise; `None` where it meets a malformed
/// sequence.
pub uninterp spec fn euc_jp_text(bytes: Seq<u8>) -> Option<Seq<char>>;

/// Calls `encoding_rs::Encoding::decode` on `EUC_JP` and hands out the text
/// unless the call reports a malformed sequence. The contract only gives that
/// result its name: the same bytes always decode alike.
#[verifier::external_body]
pub(crate) fn decode_euc_jp(bytes: &[u8]) -> (r: Option<String>)
    ensures
        match r {
            Some(text) => euc_jp_text(bytes@) == Some(text@),
            None => euc_jp_text(bytes@) is None,
        },
{
    let (text, _, malformed) = encoding_rs::EUC_JP.decode(bytes);
    if malformed {
        None
    } else {
        Some(text.into_owned())
    }
}

/// Calls `encoding_rs::Encoding::encode` on `UTF_8`, which hands back the
/// bytes of the text as they are and reports no unmappable character.
#[verifier::external_body]
pub(crate) fn encode_utf8(text: &str) -> (r: Option<Vec<u8>>)
    ensures
        r is Some,
        r matches Some(bytes) ==> bytes@ == text.spec_bytes(),
{
    let (bytes, _, unmappable) = encoding_rs::UTF_8.encode(text);
    if unmappable {
        None
    } else {
        Some(bytes.into_owned())
    }
}

/// The UTF-8 form of the text that `raw` holds in EUC-JP.
pub open spec fn utf8_of(raw: Seq<u8>) -> Result<Seq<u8>, ConvertError> {
    match euc_jp_text(raw) {
        None => Err(ConvertError::Decode),
        Some(text) => Ok(vstd::utf8::encode_utf8(text)),
    }
}

/// Converts a buffer from EUC-JP to UTF-8.
///
/// Fails with `Decode` exactly where the buffer is not valid EUC-JP; a text
/// that was decoded can always be written as UTF-8.
pub fn to_utf8(raw: &[u8]) -> (r: Result<Vec<u8>, ConvertError>)
    ensures
        match r {
            Ok(bytes) => utf8_of(raw@) == Ok::<Seq<u8>, ConvertError>(bytes@),
            Err(why) => utf8_of(raw@) == Err::<Seq<u8>, ConvertError>(why),
        },
{
    let text = match decode_euc_jp(raw) {
        None => {
            return Err(ConvertError::Decode);
        },
        Some(t) => t,
    };
    match encode_utf8(text.as_str()) {
        Some(bytes) => Ok(bytes),
        None => Err(ConvertError::Encode),
    }
}

} // verus!
