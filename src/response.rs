use crate::error::{error_status, GatewayError, STATUS_OK};
use vstd::prelude::*;

verus! {

/// An image ready to be written back to a client.
pub struct ImageResponse {
    pub content_type: String,
    pub body: Vec<u8>,
}

/// What an `ImageResponse` holds, as mathematical values.
pub ghost struct ImageModel {
    pub content_type: Seq<char>,
    pub body: Seq<u8>,
}

impl View for ImageResponse {
    type V = ImageModel;

    open spec fn view(&self) -> ImageModel {
        ImageModel { content_type: self.content_type@, body: self.body@ }
    }
}

/// The bytes of an optional buffer.
pub open spec fn opt_bytes(v: Option<Vec<u8>>) -> Option<Seq<u8>> {
    match v {
        Some(b) => Some(b@),
        None => None,
    }
}

/// The outcome of one resolution attempt, as mathematical values.
pub open spec fn outcome_model(r: Result<ImageResponse, GatewayError>) -> Result<
    ImageModel,
    GatewayError,
> {
    match r {
        Ok(img) => Ok(img@),
        Err(e) => Err(e),
    }
}

/// The HTTP status that a client sees for an outcome.
pub open spec fn outcome_status(r: Result<ImageModel, GatewayError>) -> u16 {
    match r {
        Ok(_) => STATUS_OK,
        Err(e) => error_status(e),
    }
}

/// The HTTP status that a client sees for the outcome of a resolution.
pub fn response_status(r: &Result<ImageResponse, GatewayError>) -> (s: u16)
    ensures
        s == outcome_status(outcome_model(*r)),
{
    match r {
        Ok(_) => STATUS_OK,
        Err(e) => e.http_status(),
    }
}

} // verus!
