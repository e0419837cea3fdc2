//! Proof requests and their validation.
//!
//! A request must carry a byte offset, and that offset must fit an unsigned
//! 32-bit value; otherwise the request fails as an input error before any
//! backend is touched.

use vstd::prelude::*;

verus! {

/// A client's ask for a proof, as it arrives.
#[derive(Debug)]
pub struct ProofRequest {
    /// The document to prove facts about.
    pub pdf_bytes: Vec<u8>,
    /// The page said to contain the substring.
    pub page_number: u8,
    /// The substring whose presence is to be proved.
    pub sub_string: String,
    /// Byte offset of the substring on the page; must be present.
    pub offset: Option<u64>,
}

/// A validated proving input, ready to hand to a backend.
#[derive(Clone, Debug, PartialEq, Eq)]
pub struct ProofInput {
    /// The document to prove facts about.
    pub pdf_bytes: Vec<u8>,
    /// The page said to contain the substring.
    pub page_number: u8,
    /// Byte offset of the substring on the page.
    pub offset: u32,
    /// The substring whose presence is to be proved.
    pub substring: String,
}

/// A malformed request, surfaced before proving starts.
#[derive(Clone, Copy, Debug, PartialEq, Eq, Structural)]
pub enum InputError {
    /// The request carried no offset.
    MissingOffset,
    /// The offset does not fit an unsigned 32-bit value.
    OffsetOverflow,
}

/// Check a request and shape it into a proving input. Returns
/// `MissingOffset` exactly when the offset is absent, `OffsetOverflow`
/// exactly when it exceeds `u32::MAX`, and otherwise the input with every
/// field carried over unchanged.
pub fn validate(request: ProofRequest) -> (r: Result<ProofInput, InputError>)
    ensures
        request.offset is None ==> r == Err::<ProofInput, InputError>(InputError::MissingOffset),
        (request.offset matches Some(v) && v > u32::MAX) ==> r == Err::<ProofInput, InputError>(
            InputError::OffsetOverflow,
        ),
        (request.offset matches Some(v) && v <= u32::MAX) ==> ({
            &&& r is Ok
            &&& r->Ok_0.pdf_bytes == request.pdf_bytes
            &&& r->Ok_0.page_number == request.page_number
            &&& r->Ok_0.offset == request.offset->0
            &&& r->Ok_0.substring == request.sub_string
        }),
{
    let ProofRequest { pdf_bytes, page_number, sub_string, offset } = request;
    match offset {
        None => Err(InputError::MissingOffset),
        Some(v) => {
            if v > u32::MAX as u64 {
                Err(InputError::OffsetOverflow)
            } else {
                Ok(ProofInput { pdf_bytes, page_number, offset: v as u32, substring: sub_string })
            }
        },
    }
}

} // verus!
