use vstd::prelude::*;

use crate::enums::Framebuffer;
use crate::types::ColorValue;

verus! {

/// The values that `glClear` writes, as last set by the clear-value calls.
#[derive(Debug, Clone, Copy, PartialEq, Eq, Structural)]
pub struct ClearState {
    pub color_clear_value: ColorValue,
    /// IEEE-754 single-precision bit pattern of the depth clear value.
    pub depth_clear_value: u32,
    pub stencil_clear_value: u8,
}

impl ClearState {
    pub open spec fn spec_initial() -> ClearState {
        ClearState { color_clear_value: ColorValue::zero(), depth_clear_value: 0, stencil_clear_value: 0 }
    }

    /// Color, depth and stencil clear values all zero.
    pub fn initial() -> (r: ClearState)
        ensures
            r == Self::spec_initial(),
    {
        ClearState {
            color_clear_value: ColorValue { red: 0, green: 0, blue: 0, alpha: 0 },
            depth_clear_value: 0,
            stencil_clear_value: 0,
        }
    }
}

/// The two binding selectors: where reads come from and where writes go.
#[derive(Debug, Clone, Copy, PartialEq, Eq, Structural)]
pub struct FramebufferState {
    pub read_framebuffer: Framebuffer,
    pub write_framebuffer: Framebuffer,
}

} // verus!
