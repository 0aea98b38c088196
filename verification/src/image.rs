//! Handles to images that the rendering pipeline keeps.

use vstd::prelude::*;
use webrender_api::ImageKey;

verus! {

/// `webrender_api::ImageKey`: the name under which the rendering pipeline
/// keeps an image. The library carries such a key from the surface to the
/// caller and never looks inside.
#[verifier::external_type_specification]
#[verifier::external_body]
pub struct ExImageKey(webrender_api::ImageKey);

/// `ImageKey::clone`, which `webrender_api` derives for a type that is
/// `Copy`: the clone is the key itself.
pub assume_specification[ <webrender_api::ImageKey as Clone>::clone ](
    key: &webrender_api::ImageKey,
) -> (copy: webrender_api::ImageKey)
    ensures
        copy == *key,
;

/// What the rendering pipeline needs to present a canvas.
#[derive(Clone, Debug, PartialEq)]
pub struct CanvasImageData {
    pub image_key: ImageKey,
}

} // verus!
