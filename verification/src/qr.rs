//! The boundary to the external QR encoding collaborator. Encoding a byte
//! payload into the module matrix is the one step the library does not
//! compute itself; everything downstream of the returned matrix is verified.

use qrcode_generator::QRCodeError;
use qrcode_generator::QrCodeEcc;
use vstd::prelude::*;

verus! {

/// qrcode-generator's error type, declared so signatures may carry it;
/// its contents stay opaque to the verifier.
#[verifier::external_type_specification]
#[verifier::external_body]
pub struct ExQRCodeError(QRCodeError);

/// The module matrix that QR encoding assigns to a byte payload at the low
/// error-correction level: `Some` of the rows of booleans when the payload
/// fits some QR version, `None` when it is too long. The encoding is a pure
/// function of the payload, so its result is named rather than spelled out.
pub uninterp spec fn qr_encoding(input: Seq<u8>) -> Option<Seq<Seq<bool>>>;

/// Relies on qrcode_generator::to_matrix at error-correction level Low: it
/// returns the encoded symbol's module matrix — square, one inner vector
/// per module row, with the documented side length between 21 and 177 —
/// or fails exactly when the payload fits no QR version.
#[verifier::external_body]
pub fn qr_encode(input: &[u8]) -> (r: Result<Vec<Vec<bool>>, QRCodeError>)
    ensures
        match r {
            Ok(rows) => {
                &&& qr_encoding(input@) == Some(rows.deep_view())
                &&& 21 <= rows.deep_view().len() <= 177
                &&& forall|i: int|
                    0 <= i < rows.deep_view().len() ==> #[trigger] rows.deep_view()[i].len()
                        == rows.deep_view().len()
            },
            Err(_) => qr_encoding(input@) is None,
        },
{
    qrcode_generator::to_matrix(input, QrCodeEcc::Low)
}

} // verus!
