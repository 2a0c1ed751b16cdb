use crate::config::Config;
use crate::error::GatewayError;
use crate::proxy::default_content_type;
use crate::response::{opt_bytes, outcome_model, ImageModel, ImageResponse};
use vstd::prelude::*;
use vstd::string::StringExecFns;

verus! {

/// The path of a token's image: the image root, a separator, the token, then
/// `.jpg`. The token is not checked.
pub open spec fn local_path_of(root: Seq<char>, token: Seq<char>) -> Seq<char> {
    root + "/"@ + token + ".jpg"@
}

/// The outcome of a local resolution, from what reading the file gave: its
/// contents, or `None` when it is absent or cannot be read.
pub open spec fn local_outcome(contents: Option<Seq<u8>>) -> Result<ImageModel, GatewayError> {
    match contents {
        Some(b) => Ok(ImageModel { content_type: default_content_type(), body: b }),
        None => Err(GatewayError::NotFound),
    }
}

/// The file to read for a token, under the configured image root.
pub fn local_path(cfg: &Config, token: &str) -> (r: String)
    ensures
        r@ == local_path_of(cfg.local_image_root@, token@),
{
    cfg.local_image_root.clone().concat("/").concat(token).concat(".jpg")
}

/// Resolves a local image from the result of reading its file: the file's
/// bytes as a JPEG image, or `NotFound` when there was nothing to read.
pub fn resolve_local(contents: Option<Vec<u8>>) -> (r: Result<ImageResponse, GatewayError>)
    ensures
        outcome_model(r) == local_outcome(opt_bytes(contents)),
{
    match contents {
        Some(body) => Ok(ImageResponse { content_type: String::from_str("image/jpeg"), body }),
        None => Err(GatewayError::NotFound),
    }
}

} // verus!
