//! Colours.

use vstd::prelude::*;

verus! {

/// `cssparser::RGBA`: a colour of four byte-sized channels. The library
/// carries such a value from a command to the surface and never looks
/// inside.
#[verifier::external_type_specification]
#[verifier::external_body]
pub struct ExRGBA(cssparser::RGBA);

/// `RGBA::clone`, which `cssparser` derives for a type that is `Copy`: the
/// clone is the colour itself.
pub assume_specification[ <cssparser::RGBA as Clone>::clone ](color: &cssparser::RGBA) -> (copy:
    cssparser::RGBA)
    ensures
        copy == *color,
;

} // verus!
