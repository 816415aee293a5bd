//! Face-liveness sessions: the answer to a session request and the result of
//! a finished session, as the façade hands them to its callers.
use vstd::prelude::*;
use crate::encoding::{base64_of, base64_standard};
use crate::error::{AppError, Field};

verus! {

/// A session the provider allocated, with the region the capture clients must use.
#[derive(Clone, Debug)]
pub struct LivenessSession {
    pub region: String,
    pub session_id: String,
}

/// What the session endpoint answers for the identifier the provider allocated.
pub open spec fn session_outcome(session_id: String, region: String) -> Result<LivenessSession, AppError> {
    if session_id@.len() == 0 {
        Err(AppError::MissingField(Field::SessionId))
    } else {
        Ok(LivenessSession { region, session_id })
    }
}

/// Pairs the session identifier the provider allocated with the configured
/// region. An empty identifier is refused: nobody could fetch its result.
pub fn create_liveness_session(session_id: String, region: &String) -> (r: Result<LivenessSession, AppError>)
    ensures
        r is Ok ==> r->Ok_0.region@ == region@ && r->Ok_0.session_id@ == session_id@,
        r is Ok <==> session_id@.len() > 0,
        r is Err ==> r->Err_0 == AppError::MissingField(Field::SessionId),
        r is Ok ==> r->Ok_0.session_id@.len() > 0,
{
    if session_id.as_str().is_empty() {
        Err(AppError::MissingField(Field::SessionId))
    } else {
        Ok(LivenessSession { region: region.clone(), session_id })
    }
}

/// The result of a liveness session. The provider's confidence score is
/// carried as the bit pattern of its IEEE-754 single-precision value; the
/// reference image is carried as base64 text.
#[derive(Clone, Debug)]
pub struct LivenessResult {
    pub status: String,
    pub confidence_bits: Option<u32>,
    pub reference_image: Option<String>,
}

/// The base64 text of an optional image.
pub open spec fn encoded_image(image: Option<Seq<u8>>) -> Option<Seq<char>> {
    match image {
        Some(bytes) => Some(base64_of(bytes)),
        None => None,
    }
}

/// Builds the result of a session from the provider's status text, its
/// confidence score and the bytes of its reference image. The status and the
/// score are passed on as they are; the image is base64-encoded.
pub fn get_liveness_session_result(status: String, confidence_bits: Option<u32>, reference_image: Option<Vec<u8>>) -> (r: LivenessResult)
    requires
        reference_image matches Some(bytes) ==> bytes@.len() <= isize::MAX,
    ensures
        r.status@ == status@,
        r.confidence_bits == confidence_bits,
        (match r.reference_image { Some(t) => Some(t@), None => None })
            == encoded_image(match reference_image { Some(b) => Some(b@), None => None }),
{
    let image = match reference_image {
        Some(bytes) => Some(base64_standard(bytes.as_slice())),
        None => None,
    };
    LivenessResult { status, confidence_bits, reference_image: image }
}

} // verus!
