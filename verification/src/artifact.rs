//! The settlement artifact: a partially signed Bitcoin transaction in its
//! binary encoding, and the decoder that the `bitcoin` crate provides for it.

use bitcoincore_rpc::bitcoin::psbt::Error;
use bitcoincore_rpc::bitcoin::psbt::Psbt;
use vstd::prelude::*;

verus! {

/// `bitcoin::psbt::Psbt`, carried through the library as an opaque value.
#[verifier::external_type_specification]
#[verifier::external_body]
pub struct ExPsbt(Psbt);

/// `bitcoin::psbt::Error`, the reason a blob was refused by the decoder.
#[verifier::external_type_specification]
#[verifier::external_body]
pub struct ExPsbtError(Error);

/// What `Psbt::deserialize` makes of `bytes`: the transaction it reads from
/// them, or the error with which it refuses them.
pub uninterp spec fn deserialized_psbt(bytes: Seq<u8>) -> Result<Psbt, Error>;

/// The text that the `Display` impl of `bitcoin::psbt::Error` renders for
/// `error`.
pub uninterp spec fn psbt_error_display(error: Error) -> Seq<char>;

/// Calls `Psbt::deserialize` on the blob. The decoder reads nothing but the
/// bytes, so that its result is the one that `deserialized_psbt` names.
#[verifier::external_body]
fn deserialize_psbt(blob: &Vec<u8>) -> (decoded: Result<Psbt, Error>)
    ensures
        decoded == deserialized_psbt(blob@),
{
    Psbt::deserialize(blob.as_slice())
}

/// Calls `to_string` on a decoding error, which gives the text that its
/// `Display` impl renders, named by `psbt_error_display`.
#[verifier::external_body]
fn psbt_error_text(error: &Error) -> (text: String)
    ensures
        text@ == psbt_error_display(*error),
{
    error.to_string()
}

/// Why a blob is no settlement transaction.
#[derive(Clone, Debug, PartialEq, Eq)]
pub struct DecodeFailure {
    /// The decoder's own words.
    pub reason: String,
}

/// What decoding `bytes` comes to: the transaction, or the decoder's words
/// for refusing them.
pub open spec fn decoded(bytes: Seq<u8>) -> Result<Psbt, Seq<char>> {
    match deserialized_psbt(bytes) {
        Ok(psbt) => Ok(psbt),
        Err(error) => Err(psbt_error_display(error)),
    }
}

/// Decodes a blob into the settlement transaction it holds. A blob that the
/// decoder refuses gives the failure with the decoder's reason.
pub fn decode_artifact(blob: &Vec<u8>) -> (artifact: Result<Psbt, DecodeFailure>)
    ensures
        match artifact {
            Ok(psbt) => decoded(blob@) == Ok::<Psbt, Seq<char>>(psbt),
            Err(failure) => decoded(blob@) == Err::<Psbt, Seq<char>>(failure.reason@),
        },
{
    match deserialize_psbt(blob) {
        Ok(psbt) => Ok(psbt),
        Err(error) => Err(DecodeFailure { reason: psbt_error_text(&error) }),
    }
}

} // verus!
