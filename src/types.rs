use vstd::prelude::*;

use crate::enums::{DrawBufferFBO, DrawBufferSys, GL_MAX_COLOR_ATTACHMENTS};
use crate::states::ClearState;

verus! {

/// 32 independent flag bits.
pub type GlBitfield = u32;

/// Any value other than 0 counts as true.
pub type GlBool = u8;

/// A signed count; negative values are rejected.
pub type GlSizei = i32;

/// A color sample. Each component holds the IEEE-754 single-precision bit pattern of its
/// value, stored as given (no clamping).
#[derive(Debug, Clone, Copy, PartialEq, Eq, Structural)]
pub struct ColorValue {
    pub red: u32,
    pub green: u32,
    pub blue: u32,
    pub alpha: u32,
}

impl ColorValue {
    /// All four components 0.0: the initial content of every color buffer.
    pub open spec fn zero() -> ColorValue {
        ColorValue { red: 0, green: 0, blue: 0, alpha: 0 }
    }

    pub fn new(red: u32, green: u32, blue: u32, alpha: u32) -> (r: ColorValue)
        ensures
            r == (ColorValue { red, green, blue, alpha }),
    {
        ColorValue { red, green, blue, alpha }
    }
}

/// A vector of `n` copies of `x`.
pub fn filled_vec<T: Copy>(x: T, n: usize) -> (r: Vec<T>)
    ensures
        r@ == Seq::new(n as nat, |_i: int| x),
{
    let mut r: Vec<T> = Vec::new();
    let mut i: usize = 0;
    while i < n
        invariant
            i <= n,
            r@ == Seq::new(i as nat, |_i: int| x),
        decreases n - i,
    {
        r.push(x);
        i += 1;
        assert(r@ =~= Seq::new(i as nat, |_i: int| x));
    }
    r
}

/// Overwrites every element of `v` with `x`, keeping its length.
pub fn fill_vec<T: Copy>(v: &mut Vec<T>, x: T)
    ensures
        final(v)@ == Seq::new(old(v)@.len(), |_i: int| x),
{
    let n = v.len();
    let mut i: usize = 0;
    while i < n
        invariant
            i <= n,
            v@.len() == n,
            forall|j: int| 0 <= j < i ==> v@[j] == x,
        decreases n - i,
    {
        v[i] = x;
        i += 1;
    }
    assert(v@ =~= Seq::new(n as nat, |_i: int| x));
}

/// Color samples for a `width` x `height` surface, row by row.
pub struct ColorBuffer {
    pub width: usize,
    pub height: usize,
    pub pixels: Vec<ColorValue>,
}

impl ColorBuffer {
    pub open spec fn wf(&self) -> bool {
        self.pixels@.len() == self.width * self.height
    }

    /// Every sample of the buffer equals `c`.
    pub open spec fn is_filled_with(&self, c: ColorValue) -> bool {
        self.pixels@ == Seq::new(self.pixels@.len(), |_i: int| c)
    }

    pub fn new(width: usize, height: usize) -> (r: ColorBuffer)
        requires
            width * height <= usize::MAX,
        ensures
            r.wf(),
            r.width == width,
            r.height == height,
            r.is_filled_with(ColorValue::zero()),
    {
        let n = width * height;
        ColorBuffer { width, height, pixels: filled_vec(ColorValue { red: 0, green: 0, blue: 0, alpha: 0 }, n) }
    }

    /// Sets every sample to `c`.
    pub fn fill(&mut self, c: ColorValue)
        ensures
            final(self).width == old(self).width,
            final(self).height == old(self).height,
            final(self).pixels@.len() == old(self).pixels@.len(),
            final(self).is_filled_with(c),
    {
        fill_vec(&mut self.pixels, c);
    }
}

/// Depth samples; each holds the IEEE-754 single-precision bit pattern of its value.
pub struct DepthBuffer {
    pub width: usize,
    pub height: usize,
    pub pixels: Vec<u32>,
}

impl DepthBuffer {
    pub open spec fn wf(&self) -> bool {
        self.pixels@.len() == self.width * self.height
    }

    pub fn new(width: usize, height: usize) -> (r: DepthBuffer)
        requires
            width * height <= usize::MAX,
        ensures
            r.wf(),
            r.width == width,
            r.height == height,
            r.pixels@ == Seq::new((width * height) as nat, |_i: int| 0u32),
    {
        let n = width * height;
        DepthBuffer { width, height, pixels: filled_vec(0u32, n) }
    }
}

/// Stencil samples.
pub struct StencilBuffer {
    pub width: usize,
    pub height: usize,
    pub pixels: Vec<u8>,
}

impl StencilBuffer {
    pub open spec fn wf(&self) -> bool {
        self.pixels@.len() == self.width * self.height
    }
}

/// A combined depth and stencil attachment.
pub struct DepthStencilBuffer {
    pub width: usize,
    pub height: usize,
    pub depth: Vec<u32>,
    pub stencil: Vec<u8>,
}

impl DepthStencilBuffer {
    pub open spec fn wf(&self) -> bool {
        &&& self.depth@.len() == self.width * self.height
        &&& self.stencil@.len() == self.width * self.height
    }
}

/// A framebuffer object: sixteen color attachments, at most one of the depth, stencil and
/// combined depth-stencil attachments, and the attachment that each draw-buffer position
/// targets.
pub struct FBO {
    pub width: usize,
    pub height: usize,
    pub color_attachments: Vec<ColorBuffer>,
    pub depth_attachment: Option<DepthBuffer>,
    pub stencil_attachment: Option<StencilBuffer>,
    pub depth_stencil_attachment: Option<DepthStencilBuffer>,
    pub draw_buffers: Vec<Option<DrawBufferFBO>>,
}

impl FBO {
    pub open spec fn wf(&self) -> bool {
        &&& self.color_attachments@.len() == GL_MAX_COLOR_ATTACHMENTS
        &&& forall|i: int|
            0 <= i < GL_MAX_COLOR_ATTACHMENTS ==> {
                &&& (#[trigger] self.color_attachments@[i]).wf()
                &&& self.color_attachments@[i].width == self.width
                &&& self.color_attachments@[i].height == self.height
            }
        &&& self.draw_buffers@.len() == GL_MAX_COLOR_ATTACHMENTS
        &&& forall|i: int|
            0 <= i < GL_MAX_COLOR_ATTACHMENTS ==> (#[trigger] self.draw_buffers@[i] matches Some(
                t,
            ) ==> t != DrawBufferFBO::NONE)
        &&& self.depth_attachment matches Some(d) ==> d.wf() && d.width == self.width && d.height
            == self.height
        &&& self.stencil_attachment matches Some(s) ==> s.wf() && s.width == self.width && s.height
            == self.height
        &&& self.depth_stencil_attachment matches Some(ds) ==> ds.wf() && ds.width == self.width
            && ds.height == self.height
        &&& self.attachment_count() <= 1
    }

    /// How many of the depth, stencil and combined depth-stencil attachments are present.
    pub open spec fn attachment_count(&self) -> int {
        (if self.depth_attachment is Some { 1int } else { 0 }) + (if self.stencil_attachment is Some {
            1int
        } else {
            0
        }) + (if self.depth_stencil_attachment is Some { 1int } else { 0 })
    }

    /// Whether color attachment `k` is targeted by some draw-buffer position.
    pub open spec fn is_mapped(&self, k: int) -> bool {
        exists|i: int|
            0 <= i < GL_MAX_COLOR_ATTACHMENTS && (#[trigger] self.draw_buffers@[i] matches Some(t)
                && t.spec_index() == k)
    }

    pub fn new(width: usize, height: usize) -> (r: FBO)
        requires
            width * height <= usize::MAX,
        ensures
            r.wf(),
            r.width == width,
            r.height == height,
            forall|i: int|
                0 <= i < GL_MAX_COLOR_ATTACHMENTS ==> (#[trigger] r.color_attachments@[i]).is_filled_with(
                    ColorValue::zero(),
                ),
            r.draw_buffers@ == Seq::new(GL_MAX_COLOR_ATTACHMENTS as nat, |_i: int| None::<DrawBufferFBO>),
            r.depth_attachment is None,
            r.stencil_attachment is None,
            r.depth_stencil_attachment is None,
    {
        let mut color_attachments: Vec<ColorBuffer> = Vec::new();
        let mut i: usize = 0;
        while i < GL_MAX_COLOR_ATTACHMENTS
            invariant
                i <= GL_MAX_COLOR_ATTACHMENTS,
                width * height <= usize::MAX,
                color_attachments@.len() == i,
                forall|j: int|
                    0 <= j < i ==> {
                        &&& (#[trigger] color_attachments@[j]).wf()
                        &&& color_attachments@[j].width == width
                        &&& color_attachments@[j].height == height
                        &&& color_attachments@[j].is_filled_with(ColorValue::zero())
                    },
            decreases GL_MAX_COLOR_ATTACHMENTS - i,
        {
            color_attachments.push(ColorBuffer::new(width, height));
            i += 1;
        }
        FBO {
            width,
            height,
            color_attachments,
            depth_attachment: None,
            stencil_attachment: None,
            depth_stencil_attachment: None,
            draw_buffers: filled_vec(None, GL_MAX_COLOR_ATTACHMENTS),
        }
    }
}

/// The framebuffer that every context owns: front and back color storage, a depth buffer,
/// an optional stencil buffer, and the draw-buffer token that color writes go to.
pub struct DefaultFramebuffer {
    pub width: usize,
    pub height: usize,
    pub color_buffer_front: ColorBuffer,
    pub color_buffer_back: ColorBuffer,
    pub depth_buffer: Option<DepthBuffer>,
    pub stencil_buffer: Option<StencilBuffer>,
    pub draw_buffer: DrawBufferSys,
}

impl DefaultFramebuffer {
    pub open spec fn wf(&self) -> bool {
        &&& self.width * self.height <= usize::MAX
        &&& self.color_buffer_front.wf()
        &&& self.color_buffer_front.width == self.width
        &&& self.color_buffer_front.height == self.height
        &&& self.color_buffer_back.wf()
        &&& self.color_buffer_back.width == self.width
        &&& self.color_buffer_back.height == self.height
        &&& self.depth_buffer matches Some(d) ==> d.wf() && d.width == self.width && d.height
            == self.height
        &&& self.stencil_buffer matches Some(s) ==> s.wf() && s.width == self.width && s.height
            == self.height
        &&& self.draw_buffer.is_supported()
    }

    /// The draw-buffer token that a newly created context starts with.
    pub open spec fn initial_draw_buffer(double_buffered: GlBool) -> DrawBufferSys {
        if double_buffered != 0 {
            DrawBufferSys::Back
        } else {
            DrawBufferSys::Front
        }
    }

    pub fn init(width: usize, height: usize, double_buffered: GlBool) -> (r: DefaultFramebuffer)
        requires
            width * height <= usize::MAX,
        ensures
            r.wf(),
            r.width == width,
            r.height == height,
            r.color_buffer_front.is_filled_with(ColorValue::zero()),
            r.color_buffer_back.is_filled_with(ColorValue::zero()),
            r.depth_buffer is Some,
            r.depth_buffer->0.width == width,
            r.depth_buffer->0.height == height,
            r.depth_buffer->0.pixels@ == Seq::new((width * height) as nat, |_i: int| 0u32),
            r.stencil_buffer is None,
            r.draw_buffer == Self::initial_draw_buffer(double_buffered),
    {
        DefaultFramebuffer {
            width,
            height,
            color_buffer_front: ColorBuffer::new(width, height),
            color_buffer_back: ColorBuffer::new(width, height),
            depth_buffer: Some(DepthBuffer::new(width, height)),
            stencil_buffer: None,
            draw_buffer: if double_buffered != 0 {
                DrawBufferSys::Back
            } else {
                DrawBufferSys::Front
            },
        }
    }

    /// Exchanges the front and back color storage without copying samples.
    pub fn swap_buffers(&mut self)
        ensures
            final(self).color_buffer_front == old(self).color_buffer_back,
            final(self).color_buffer_back == old(self).color_buffer_front,
            final(self).width == old(self).width,
            final(self).height == old(self).height,
            final(self).depth_buffer == old(self).depth_buffer,
            final(self).stencil_buffer == old(self).stencil_buffer,
            final(self).draw_buffer == old(self).draw_buffer,
    {
        core::mem::swap(&mut self.color_buffer_front, &mut self.color_buffer_back);
    }

    /// The samples of the color buffer that `buffer` names, row by row: the front buffer for
    /// `Front`/`FrontLeft`, the back buffer for `Back`/`BackLeft`, nothing for other tokens.
    pub fn color_pixels(&self, buffer: DrawBufferSys) -> (r: Vec<ColorValue>)
        ensures
            buffer.is_front() ==> r@ == self.color_buffer_front.pixels@,
            buffer.is_back() ==> r@ == self.color_buffer_back.pixels@,
            !buffer.is_front() && !buffer.is_back() ==> r@.len() == 0,
    {
        let src = if buffer == DrawBufferSys::Front || buffer == DrawBufferSys::FrontLeft {
            &self.color_buffer_front.pixels
        } else if buffer == DrawBufferSys::Back || buffer == DrawBufferSys::BackLeft {
            &self.color_buffer_back.pixels
        } else {
            return Vec::new();
        };
        let mut r: Vec<ColorValue> = Vec::new();
        let mut i: usize = 0;
        while i < src.len()
            invariant
                i <= src@.len(),
                r@ == src@.subrange(0, i as int),
            decreases src@.len() - i,
        {
            r.push(src[i]);
            i += 1;
            assert(r@ =~= src@.subrange(0, i as int));
        }
        assert(r@ =~= src@);
        r
    }
}

} // verus!

verus! {

/// `new` holds the samples of `old`, or, where `clear` holds, as many copies of `v`.
pub open spec fn samples_cleared<T>(old: Seq<T>, new: Seq<T>, clear: bool, v: T) -> bool {
    if clear {
        new == Seq::new(old.len(), |_i: int| v)
    } else {
        new == old
    }
}

/// `new` is `old` with, where `clear` holds, every sample set to `c`.
pub open spec fn color_cleared(old: ColorBuffer, new: ColorBuffer, clear: bool, c: ColorValue) -> bool {
    &&& new.width == old.width
    &&& new.height == old.height
    &&& samples_cleared(old.pixels@, new.pixels@, clear, c)
}

pub open spec fn depth_cleared(old: Option<DepthBuffer>, new: Option<DepthBuffer>, clear: bool, v: u32) -> bool {
    match old {
        None => new is None,
        Some(d) => new matches Some(n) && n.width == d.width && n.height == d.height
            && samples_cleared(d.pixels@, n.pixels@, clear, v),
    }
}

pub open spec fn stencil_cleared(old: Option<StencilBuffer>, new: Option<StencilBuffer>, clear: bool, v: u8) -> bool {
    match old {
        None => new is None,
        Some(s) => new matches Some(n) && n.width == s.width && n.height == s.height
            && samples_cleared(s.pixels@, n.pixels@, clear, v),
    }
}

pub open spec fn depth_stencil_cleared(
    old: Option<DepthStencilBuffer>,
    new: Option<DepthStencilBuffer>,
    clear_depth: bool,
    clear_stencil: bool,
    depth: u32,
    stencil: u8,
) -> bool {
    match old {
        None => new is None,
        Some(b) => new matches Some(n) && n.width == b.width && n.height == b.height
            && samples_cleared(b.depth@, n.depth@, clear_depth, depth)
            && samples_cleared(b.stencil@, n.stencil@, clear_stencil, stencil),
    }
}

fn clear_depth_buffer(b: &mut Option<DepthBuffer>, clear: bool, v: u32)
    ensures
        depth_cleared(*old(b), *final(b), clear, v),
{
    if clear {
        if let Some(mut d) = b.take() {
            fill_vec(&mut d.pixels, v);
            *b = Some(d);
        }
    }
}

fn clear_stencil_buffer(b: &mut Option<StencilBuffer>, clear: bool, v: u8)
    ensures
        stencil_cleared(*old(b), *final(b), clear, v),
{
    if clear {
        if let Some(mut s) = b.take() {
            fill_vec(&mut s.pixels, v);
            *b = Some(s);
        }
    }
}

fn clear_depth_stencil_buffer(
    b: &mut Option<DepthStencilBuffer>,
    clear_depth: bool,
    clear_stencil: bool,
    depth: u32,
    stencil: u8,
)
    ensures
        depth_stencil_cleared(*old(b), *final(b), clear_depth, clear_stencil, depth, stencil),
{
    if let Some(mut ds) = b.take() {
        if clear_depth {
            fill_vec(&mut ds.depth, depth);
        }
        if clear_stencil {
            fill_vec(&mut ds.stencil, stencil);
        }
        *b = Some(ds);
    }
}

impl FBO {
    /// `new` is `old` after a clear with the given buffer requests: every color attachment
    /// that some draw-buffer position targets, and the depth and stencil attachments.
    pub open spec fn cleared(
        old: FBO,
        new: FBO,
        color: bool,
        depth: bool,
        stencil: bool,
        values: ClearState,
    ) -> bool {
        &&& new.width == old.width
        &&& new.height == old.height
        &&& new.draw_buffers@ == old.draw_buffers@
        &&& new.color_attachments@.len() == old.color_attachments@.len()
        &&& forall|k: int|
            0 <= k < GL_MAX_COLOR_ATTACHMENTS ==> color_cleared(
                old.color_attachments@[k],
                #[trigger] new.color_attachments@[k],
                color && old.is_mapped(k),
                values.color_clear_value,
            )
        &&& depth_cleared(old.depth_attachment, new.depth_attachment, depth, values.depth_clear_value)
        &&& stencil_cleared(
            old.stencil_attachment,
            new.stencil_attachment,
            stencil,
            values.stencil_clear_value,
        )
        &&& depth_stencil_cleared(
            old.depth_stencil_attachment,
            new.depth_stencil_attachment,
            depth,
            stencil,
            values.depth_clear_value,
            values.stencil_clear_value,
        )
    }

    pub fn clear_buffers(&mut self, color: bool, depth: bool, stencil: bool, values: ClearState)
        requires
            old(self).wf(),
        ensures
            final(self).wf(),
            FBO::cleared(*old(self), *final(self), color, depth, stencil, values),
    {
        if color {
            let mut mapped: Vec<bool> = filled_vec(false, GL_MAX_COLOR_ATTACHMENTS);
            let mut i: usize = 0;
            while i < GL_MAX_COLOR_ATTACHMENTS
                invariant
                    self.wf(),
                    i <= GL_MAX_COLOR_ATTACHMENTS,
                    mapped@.len() == GL_MAX_COLOR_ATTACHMENTS,
                    forall|k: int|
                        0 <= k < GL_MAX_COLOR_ATTACHMENTS ==> (#[trigger] mapped@[k] <==> exists|j: int|
                            0 <= j < i && (#[trigger] self.draw_buffers@[j] matches Some(t)
                                && t.spec_index() == k)),
                decreases GL_MAX_COLOR_ATTACHMENTS - i,
            {
                if let Some(t) = self.draw_buffers[i] {
                    let k = t.get_attachment_index();
                    mapped[k] = true;
                }
                i += 1;
            }
            let ghost start = *self;
            let mut k: usize = 0;
            while k < GL_MAX_COLOR_ATTACHMENTS
                invariant
                    self.wf(),
                    start.wf(),
                    mapped@.len() == GL_MAX_COLOR_ATTACHMENTS,
                    k <= GL_MAX_COLOR_ATTACHMENTS,
                    self.width == start.width,
                    self.height == start.height,
                    self.draw_buffers == start.draw_buffers,
                    self.depth_attachment == start.depth_attachment,
                    self.stencil_attachment == start.stencil_attachment,
                    self.depth_stencil_attachment == start.depth_stencil_attachment,
                    forall|m: int| 0 <= m < GL_MAX_COLOR_ATTACHMENTS ==> (#[trigger] mapped@[m] <==> start.is_mapped(m)),
                    forall|m: int|
                        0 <= m < GL_MAX_COLOR_ATTACHMENTS ==> color_cleared(
                            start.color_attachments@[m],
                            #[trigger] self.color_attachments@[m],
                            m < k && start.is_mapped(m),
                            values.color_clear_value,
                        ),
                decreases GL_MAX_COLOR_ATTACHMENTS - k,
            {
                if mapped[k] {
                    self.color_attachments[k].fill(values.color_clear_value);
                }
                k += 1;
            }
        }
        clear_depth_buffer(&mut self.depth_attachment, depth, values.depth_clear_value);
        clear_stencil_buffer(&mut self.stencil_attachment, stencil, values.stencil_clear_value);
        clear_depth_stencil_buffer(
            &mut self.depth_stencil_attachment,
            depth,
            stencil,
            values.depth_clear_value,
            values.stencil_clear_value,
        );
    }
}

impl DefaultFramebuffer {
    /// `new` is `old` after a clear with the given buffer requests: the color buffer that the
    /// draw-buffer token names (none for `NONE`), the depth buffer and the stencil buffer, each
    /// where present.
    pub open spec fn cleared(
        old: DefaultFramebuffer,
        new: DefaultFramebuffer,
        color: bool,
        depth: bool,
        stencil: bool,
        values: ClearState,
    ) -> bool {
        &&& new.width == old.width
        &&& new.height == old.height
        &&& new.draw_buffer == old.draw_buffer
        &&& color_cleared(
            old.color_buffer_front,
            new.color_buffer_front,
            color && old.draw_buffer.is_front(),
            values.color_clear_value,
        )
        &&& color_cleared(
            old.color_buffer_back,
            new.color_buffer_back,
            color && old.draw_buffer.is_back(),
            values.color_clear_value,
        )
        &&& depth_cleared(old.depth_buffer, new.depth_buffer, depth, values.depth_clear_value)
        &&& stencil_cleared(old.stencil_buffer, new.stencil_buffer, stencil, values.stencil_clear_value)
    }

    pub fn clear_buffers(&mut self, color: bool, depth: bool, stencil: bool, values: ClearState)
        requires
            old(self).wf(),
        ensures
            final(self).wf(),
            DefaultFramebuffer::cleared(*old(self), *final(self), color, depth, stencil, values),
    {
        if color {
            match self.draw_buffer {
                DrawBufferSys::Front | DrawBufferSys::FrontLeft => {
                    self.color_buffer_front.fill(values.color_clear_value);
                },
                DrawBufferSys::Back | DrawBufferSys::BackLeft => {
                    self.color_buffer_back.fill(values.color_clear_value);
                },
                _ => {},
            }
        }
        clear_depth_buffer(&mut self.depth_buffer, depth, values.depth_clear_value);
        clear_stencil_buffer(&mut self.stencil_buffer, stencil, values.stencil_clear_value);
    }
}

} // verus!
