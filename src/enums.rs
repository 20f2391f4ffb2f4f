use vstd::prelude::*;

verus! {

/// Number of color attachment slots of a framebuffer object, and of draw-buffer positions.
pub const GL_MAX_COLOR_ATTACHMENTS: usize = 16;

/// Mask bit that requests a clear of the color buffers.
pub const GL_COLOR_BUFFER_BIT: u32 = 0x4000;

/// Mask bit that requests a clear of the depth buffer.
pub const GL_DEPTH_BUFFER_BIT: u32 = 0x100;

/// Mask bit that requests a clear of the stencil buffer.
pub const GL_STENCIL_BUFFER_BIT: u32 = 0x400;

/// The buffers that one `glClear` call may clear, one mask bit each.
#[derive(Debug, Clone, Copy, PartialEq, Eq, Structural)]
pub enum ClearBufferMask {
    COLOR,
    DEPTH,
    STENCIL,
}

impl ClearBufferMask {
    pub open spec fn spec_bit(self) -> u32 {
        match self {
            ClearBufferMask::COLOR => GL_COLOR_BUFFER_BIT,
            ClearBufferMask::DEPTH => GL_DEPTH_BUFFER_BIT,
            ClearBufferMask::STENCIL => GL_STENCIL_BUFFER_BIT,
        }
    }

    /// The mask bit of this buffer kind.
    pub fn bit(&self) -> (r: u32)
        ensures
            r == self.spec_bit(),
    {
        match self {
            ClearBufferMask::COLOR => GL_COLOR_BUFFER_BIT,
            ClearBufferMask::DEPTH => GL_DEPTH_BUFFER_BIT,
            ClearBufferMask::STENCIL => GL_STENCIL_BUFFER_BIT,
        }
    }
}

/// What a binding selector names: the default framebuffer or a framebuffer object by id.
#[derive(Debug, Clone, Copy, PartialEq, Eq, Structural)]
pub enum Framebuffer {
    Default,
    UserDefined(u32),
}

/// The binding targets of `glBindFramebuffer`.
#[derive(Debug, Clone, Copy, PartialEq, Eq, Structural)]
pub enum FramebufferTypes {
    DrawFramebuffer,
    ReadFramebuffer,
    Framebuffer,
}

impl FramebufferTypes {
    pub open spec fn spec_from_u32(value: u32) -> Option<FramebufferTypes> {
        if value == 0x8ca9 {
            Some(FramebufferTypes::DrawFramebuffer)
        } else if value == 0x8ca8 {
            Some(FramebufferTypes::ReadFramebuffer)
        } else if value == 0x8d40 {
            Some(FramebufferTypes::Framebuffer)
        } else {
            None
        }
    }

    /// Decodes a binding-target token.
    pub fn from_u32(value: u32) -> (r: Option<FramebufferTypes>)
        ensures
            r == Self::spec_from_u32(value),
    {
        if value == 0x8ca9 {
            Some(FramebufferTypes::DrawFramebuffer)
        } else if value == 0x8ca8 {
            Some(FramebufferTypes::ReadFramebuffer)
        } else if value == 0x8d40 {
            Some(FramebufferTypes::Framebuffer)
        } else {
            None
        }
    }

    /// Whether binding this target updates the draw (write) selector.
    pub open spec fn binds_draw(self) -> bool {
        self != FramebufferTypes::ReadFramebuffer
    }

    /// Whether binding this target updates the read selector.
    pub open spec fn binds_read(self) -> bool {
        self != FramebufferTypes::DrawFramebuffer
    }
}

/// Draw-buffer tokens of the default framebuffer.
#[derive(Debug, Clone, Copy, PartialEq, Eq, Structural)]
pub enum DrawBufferSys {
    NONE,
    /// Alias of `FrontLeft`.
    Front,
    /// Alias of `BackLeft`.
    Back,
    FrontLeft,
    /// Recognized, not supported.
    FrontRight,
    BackLeft,
    /// Recognized, not supported.
    BackRight,
}

impl DrawBufferSys {
    pub open spec fn spec_from_u32(value: u32) -> Option<DrawBufferSys> {
        if value == 0x0 {
            Some(DrawBufferSys::NONE)
        } else if value == 0x404 {
            Some(DrawBufferSys::Front)
        } else if value == 0x405 {
            Some(DrawBufferSys::Back)
        } else if value == 0x400 {
            Some(DrawBufferSys::FrontLeft)
        } else if value == 0x401 {
            Some(DrawBufferSys::FrontRight)
        } else if value == 0x402 {
            Some(DrawBufferSys::BackLeft)
        } else if value == 0x403 {
            Some(DrawBufferSys::BackRight)
        } else {
            None
        }
    }

    /// Decodes a default-framebuffer draw-buffer token.
    pub fn from_u32(value: u32) -> (r: Option<DrawBufferSys>)
        ensures
            r == Self::spec_from_u32(value),
    {
        if value == 0x0 {
            Some(DrawBufferSys::NONE)
        } else if value == 0x404 {
            Some(DrawBufferSys::Front)
        } else if value == 0x405 {
            Some(DrawBufferSys::Back)
        } else if value == 0x400 {
            Some(DrawBufferSys::FrontLeft)
        } else if value == 0x401 {
            Some(DrawBufferSys::FrontRight)
        } else if value == 0x402 {
            Some(DrawBufferSys::BackLeft)
        } else if value == 0x403 {
            Some(DrawBufferSys::BackRight)
        } else {
            None
        }
    }

    /// The token as stored after a draw-buffer selection: aliases resolve to the left buffers.
    pub open spec fn normalized(self) -> DrawBufferSys {
        match self {
            DrawBufferSys::Front => DrawBufferSys::FrontLeft,
            DrawBufferSys::Back => DrawBufferSys::BackLeft,
            other => other,
        }
    }

    /// Whether the token names a buffer that this implementation can draw into (or none).
    pub open spec fn is_supported(self) -> bool {
        self != DrawBufferSys::FrontRight && self != DrawBufferSys::BackRight
    }

    /// Whether the token selects the front color buffer.
    pub open spec fn is_front(self) -> bool {
        self == DrawBufferSys::Front || self == DrawBufferSys::FrontLeft
    }

    /// Whether the token selects the back color buffer.
    pub open spec fn is_back(self) -> bool {
        self == DrawBufferSys::Back || self == DrawBufferSys::BackLeft
    }
}

/// Draw-buffer tokens of a framebuffer object.
#[derive(Debug, Clone, Copy, PartialEq, Eq, Structural)]
pub enum DrawBufferFBO {
    NONE,
    ColorAttachment0,
    ColorAttachment1,
    ColorAttachment2,
    ColorAttachment3,
    ColorAttachment4,
    ColorAttachment5,
    ColorAttachment6,
    ColorAttachment7,
    ColorAttachment8,
    ColorAttachment9,
    ColorAttachment10,
    ColorAttachment11,
    ColorAttachment12,
    ColorAttachment13,
    ColorAttachment14,
    ColorAttachment15,
}

/// The color-attachment token of attachment slot `i` (`NONE` outside `0..16`).
pub open spec fn attachment_at(i: int) -> DrawBufferFBO {
    if i == 0 {
        DrawBufferFBO::ColorAttachment0
    } else if i == 1 {
        DrawBufferFBO::ColorAttachment1
    } else if i == 2 {
        DrawBufferFBO::ColorAttachment2
    } else if i == 3 {
        DrawBufferFBO::ColorAttachment3
    } else if i == 4 {
        DrawBufferFBO::ColorAttachment4
    } else if i == 5 {
        DrawBufferFBO::ColorAttachment5
    } else if i == 6 {
        DrawBufferFBO::ColorAttachment6
    } else if i == 7 {
        DrawBufferFBO::ColorAttachment7
    } else if i == 8 {
        DrawBufferFBO::ColorAttachment8
    } else if i == 9 {
        DrawBufferFBO::ColorAttachment9
    } else if i == 10 {
        DrawBufferFBO::ColorAttachment10
    } else if i == 11 {
        DrawBufferFBO::ColorAttachment11
    } else if i == 12 {
        DrawBufferFBO::ColorAttachment12
    } else if i == 13 {
        DrawBufferFBO::ColorAttachment13
    } else if i == 14 {
        DrawBufferFBO::ColorAttachment14
    } else if i == 15 {
        DrawBufferFBO::ColorAttachment15
    } else {
        DrawBufferFBO::NONE
    }
}

impl DrawBufferFBO {
    pub open spec fn spec_from_u32(value: u32) -> Option<DrawBufferFBO> {
        if value == 0 {
            Some(DrawBufferFBO::NONE)
        } else if 0x8ce0 <= value <= 0x8cef {
            Some(attachment_at(value - 0x8ce0))
        } else {
            None
        }
    }

    /// The attachment slot the token names; `usize::MAX` for `NONE`.
    pub open spec fn spec_index(self) -> usize {
        match self {
            DrawBufferFBO::NONE => usize::MAX,
            DrawBufferFBO::ColorAttachment0 => 0,
            DrawBufferFBO::ColorAttachment1 => 1,
            DrawBufferFBO::ColorAttachment2 => 2,
            DrawBufferFBO::ColorAttachment3 => 3,
            DrawBufferFBO::ColorAttachment4 => 4,
            DrawBufferFBO::ColorAttachment5 => 5,
            DrawBufferFBO::ColorAttachment6 => 6,
            DrawBufferFBO::ColorAttachment7 => 7,
            DrawBufferFBO::ColorAttachment8 => 8,
            DrawBufferFBO::ColorAttachment9 => 9,
            DrawBufferFBO::ColorAttachment10 => 10,
            DrawBufferFBO::ColorAttachment11 => 11,
            DrawBufferFBO::ColorAttachment12 => 12,
            DrawBufferFBO::ColorAttachment13 => 13,
            DrawBufferFBO::ColorAttachment14 => 14,
            DrawBufferFBO::ColorAttachment15 => 15,
        }
    }

    /// Decodes a framebuffer-object draw-buffer token.
    pub fn from_u32(value: u32) -> (r: Option<DrawBufferFBO>)
        ensures
            r == Self::spec_from_u32(value),
    {
        if value == 0 {
            return Some(DrawBufferFBO::NONE);
        }
        if value < 0x8ce0 || value > 0x8cef {
            return None;
        }
        let i = value - 0x8ce0;
        let t = if i == 0 {
            DrawBufferFBO::ColorAttachment0
        } else if i == 1 {
            DrawBufferFBO::ColorAttachment1
        } else if i == 2 {
            DrawBufferFBO::ColorAttachment2
        } else if i == 3 {
            DrawBufferFBO::ColorAttachment3
        } else if i == 4 {
            DrawBufferFBO::ColorAttachment4
        } else if i == 5 {
            DrawBufferFBO::ColorAttachment5
        } else if i == 6 {
            DrawBufferFBO::ColorAttachment6
        } else if i == 7 {
            DrawBufferFBO::ColorAttachment7
        } else if i == 8 {
            DrawBufferFBO::ColorAttachment8
        } else if i == 9 {
            DrawBufferFBO::ColorAttachment9
        } else if i == 10 {
            DrawBufferFBO::ColorAttachment10
        } else if i == 11 {
            DrawBufferFBO::ColorAttachment11
        } else if i == 12 {
            DrawBufferFBO::ColorAttachment12
        } else if i == 13 {
            DrawBufferFBO::ColorAttachment13
        } else if i == 14 {
            DrawBufferFBO::ColorAttachment14
        } else {
            DrawBufferFBO::ColorAttachment15
        };
        Some(t)
    }

    /// Whether the token names a color attachment (anything but `NONE`).
    pub fn is_color_attachment(&self) -> (r: bool)
        ensures
            r == (*self != DrawBufferFBO::NONE),
    {
        !matches!(self, DrawBufferFBO::NONE)
    }

    /// The attachment slot the token names; `usize::MAX` for `NONE`.
    pub fn get_attachment_index(&self) -> (r: usize)
        ensures
            r == self.spec_index(),
            *self != DrawBufferFBO::NONE ==> r < GL_MAX_COLOR_ATTACHMENTS,
            *self != DrawBufferFBO::NONE ==> attachment_at(r as int) == *self,
    {
        match self {
            DrawBufferFBO::NONE => usize::MAX,
            DrawBufferFBO::ColorAttachment0 => 0,
            DrawBufferFBO::ColorAttachment1 => 1,
            DrawBufferFBO::ColorAttachment2 => 2,
            DrawBufferFBO::ColorAttachment3 => 3,
            DrawBufferFBO::ColorAttachment4 => 4,
            DrawBufferFBO::ColorAttachment5 => 5,
            DrawBufferFBO::ColorAttachment6 => 6,
            DrawBufferFBO::ColorAttachment7 => 7,
            DrawBufferFBO::ColorAttachment8 => 8,
            DrawBufferFBO::ColorAttachment9 => 9,
            DrawBufferFBO::ColorAttachment10 => 10,
            DrawBufferFBO::ColorAttachment11 => 11,
            DrawBufferFBO::ColorAttachment12 => 12,
            DrawBufferFBO::ColorAttachment13 => 13,
            DrawBufferFBO::ColorAttachment14 => 14,
            DrawBufferFBO::ColorAttachment15 => 15,
        }
    }
}

} // verus!

verus! {

/// Why an operation was refused. Every refusal leaves the state as it was.
#[derive(Debug, Clone, Copy, PartialEq, Eq, Structural)]
pub enum GlError {
    /// A count is negative.
    NegativeCount,
    /// A count is larger than the list of values handed in with it.
    ShortInput,
    /// A token that the operation does not recognize.
    UnknownToken,
    /// More draw buffers than the bound framebuffer accepts.
    TooManyDrawBuffers,
    /// A recognized draw buffer that this implementation does not provide.
    UnsupportedBuffer,
    /// No context has that id (or no context is current).
    UnknownContext,
    /// The context has no framebuffer object with that id.
    UnknownFramebuffer,
    /// The operation is declared but not provided.
    Unsupported,
    /// No further ids can be issued.
    IdsExhausted,
}

} // verus!
