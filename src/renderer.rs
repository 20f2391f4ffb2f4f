use vstd::prelude::*;

use crate::context::{GlContext, GlobalState};
use crate::enums::{
    DrawBufferFBO, DrawBufferSys, Framebuffer, FramebufferTypes, GlError, GL_COLOR_BUFFER_BIT,
    GL_DEPTH_BUFFER_BIT, GL_MAX_COLOR_ATTACHMENTS, GL_STENCIL_BUFFER_BIT,
};
use crate::states::{ClearState, FramebufferState};
use crate::types::{filled_vec, ColorValue, DefaultFramebuffer, GlBitfield, GlSizei, FBO};

verus! {

/// What one entry of a framebuffer-object draw-buffer list maps its position to.
pub open spec fn fbo_slot(token: u32) -> Option<DrawBufferFBO> {
    match DrawBufferFBO::spec_from_u32(token) {
        Some(t) => if t == DrawBufferFBO::NONE {
            None
        } else {
            Some(t)
        },
        None => None,
    }
}

/// The draw-buffer mapping that a token list sets on a framebuffer object: position `i`
/// targets the attachment that the `i`-th token names; positions past the list, and `NONE`
/// entries, target nothing.
pub open spec fn fbo_draw_list(tokens: Seq<u32>) -> Seq<Option<DrawBufferFBO>> {
    Seq::new(
        GL_MAX_COLOR_ATTACHMENTS as nat,
        |i: int|
            if i < tokens.len() {
                fbo_slot(tokens[i])
            } else {
                None
            },
    )
}

/// Whether every token of the list is a framebuffer-object draw-buffer token.
pub open spec fn all_fbo_tokens(tokens: Seq<u32>) -> bool {
    forall|i: int| 0 <= i < tokens.len() ==> (#[trigger] DrawBufferFBO::spec_from_u32(tokens[i])) is Some
}

/// Whether the id list names `id`.
pub open spec fn lists(ids: Seq<u32>, id: int) -> bool {
    exists|j: int| 0 <= j < ids.len() && ids[j] == id
}

/// A framebuffer object as `glGenFramebuffers` makes it for a context whose default
/// framebuffer is `width` x `height`.
pub open spec fn is_fresh_fbo(f: FBO, width: usize, height: usize) -> bool {
    &&& f.wf()
    &&& f.width == width
    &&& f.height == height
    &&& forall|k: int|
        0 <= k < GL_MAX_COLOR_ATTACHMENTS ==> (#[trigger] f.color_attachments@[k]).is_filled_with(
            ColorValue::zero(),
        )
    &&& f.draw_buffers@ == Seq::new(GL_MAX_COLOR_ATTACHMENTS as nat, |_i: int| None::<DrawBufferFBO>)
    &&& f.depth_attachment is None
    &&& f.stencil_attachment is None
    &&& f.depth_stencil_attachment is None
}

impl GlContext {
    /// `new` is `old` with framebuffer object `id` replaced by `f` and nothing else changed.
    pub open spec fn with_fbo(old: GlContext, new: GlContext, id: u32, f: FBO) -> bool {
        &&& new == GlContext { framebuffer_objects: new.framebuffer_objects, ..old }
        &&& new.framebuffer_objects@ == old.framebuffer_objects@.update(id - 1, Some(f))
    }

    /// What `clear` does: refuses a dangling binding, and otherwise clears exactly what each
    /// recognized bit of the mask requests in the write framebuffer; other bits are ignored.
    pub open spec fn clear_post(old: GlContext, new: GlContext, mask: u32, r: Result<(), GlError>) -> bool {
        let color = mask & GL_COLOR_BUFFER_BIT != 0;
        let depth = mask & GL_DEPTH_BUFFER_BIT != 0;
        let stencil = mask & GL_STENCIL_BUFFER_BIT != 0;
        match old.framebuffer_state.write_framebuffer {
            Framebuffer::Default => {
                &&& r == Ok::<(), GlError>(())
                &&& new == GlContext { default_framebuffer: new.default_framebuffer, ..old }
                &&& DefaultFramebuffer::cleared(
                    old.default_framebuffer,
                    new.default_framebuffer,
                    color,
                    depth,
                    stencil,
                    old.clear_state,
                )
            },
            Framebuffer::UserDefined(id) => if !old.has_fbo(id) {
                r == Err::<(), GlError>(GlError::UnknownFramebuffer) && new == old
            } else {
                &&& r == Ok::<(), GlError>(())
                &&& Self::with_fbo(old, new, id, new.fbo(id))
                &&& FBO::cleared(old.fbo(id), new.fbo(id), color, depth, stencil, old.clear_state)
            },
        }
    }

    /// Clears, with the stored clear values, every buffer that a bit of `mask` requests, in the
    /// framebuffer bound for writing.
    pub fn clear(&mut self, mask: GlBitfield) -> (r: Result<(), GlError>)
        requires
            old(self).wf(),
        ensures
            final(self).wf(),
            final(self).shared == old(self).shared,
            Self::clear_post(*old(self), *final(self), mask, r),
    {
        let color = mask & GL_COLOR_BUFFER_BIT != 0;
        let depth = mask & GL_DEPTH_BUFFER_BIT != 0;
        let stencil = mask & GL_STENCIL_BUFFER_BIT != 0;
        let values = self.clear_state;
        let ghost start = *self;
        match self.framebuffer_state.write_framebuffer {
            Framebuffer::Default => {
                self.default_framebuffer.clear_buffers(color, depth, stencil, values);
                Ok(())
            },
            Framebuffer::UserDefined(id) => {
                if id == 0 || id >= self.next_fb_id {
                    return Err(GlError::UnknownFramebuffer);
                }
                let idx = (id - 1) as usize;
                if self.framebuffer_objects[idx].is_none() {
                    return Err(GlError::UnknownFramebuffer);
                }
                let mut f = self.framebuffer_objects[idx].take().unwrap();
                f.clear_buffers(color, depth, stencil, values);
                self.framebuffer_objects[idx] = Some(f);
                assert(self.framebuffer_objects@ =~= start.framebuffer_objects@.update(
                    idx as int,
                    self.framebuffer_objects@[idx as int],
                ));
                Ok(())
            },
        }
    }

    /// Selecting the draw buffer of the default framebuffer from one system token.
    pub open spec fn default_draw_post(old: GlContext, new: GlContext, token: u32, r: Result<(), GlError>) -> bool {
        match DrawBufferSys::spec_from_u32(token) {
            None => r == Err::<(), GlError>(GlError::UnknownToken) && new == old,
            Some(t) => if !t.is_supported() {
                r == Err::<(), GlError>(GlError::UnsupportedBuffer) && new == old
            } else {
                &&& r == Ok::<(), GlError>(())
                &&& new == GlContext {
                    default_framebuffer: DefaultFramebuffer {
                        draw_buffer: t.normalized(),
                        ..old.default_framebuffer
                    },
                    ..old
                }
            },
        }
    }

    /// Replacing the whole draw-buffer mapping of framebuffer object `id` with `tokens`.
    pub open spec fn fbo_draw_post(
        old: GlContext,
        new: GlContext,
        id: u32,
        tokens: Seq<u32>,
        r: Result<(), GlError>,
    ) -> bool {
        if tokens.len() > GL_MAX_COLOR_ATTACHMENTS {
            r == Err::<(), GlError>(GlError::TooManyDrawBuffers) && new == old
        } else if !old.has_fbo(id) {
            r == Err::<(), GlError>(GlError::UnknownFramebuffer) && new == old
        } else if !all_fbo_tokens(tokens) {
            r == Err::<(), GlError>(GlError::UnknownToken) && new == old
        } else {
            &&& r == Ok::<(), GlError>(())
            &&& Self::with_fbo(old, new, id, FBO { draw_buffers: new.fbo(id).draw_buffers, ..old.fbo(id) })
            &&& new.fbo(id).draw_buffers@ == fbo_draw_list(tokens)
        }
    }

    /// Checks of a count and its list that come before any target is looked at.
    pub open spec fn list_refusal(n: GlSizei, tokens: Seq<u32>) -> Option<GlError> {
        if n < 0 {
            Some(GlError::NegativeCount)
        } else if n > tokens.len() {
            Some(GlError::ShortInput)
        } else {
            None
        }
    }

    /// What `draw_buffers` does, by the framebuffer bound for writing.
    pub open spec fn draw_buffers_post(
        old: GlContext,
        new: GlContext,
        n: GlSizei,
        tokens: Seq<u32>,
        r: Result<(), GlError>,
    ) -> bool {
        if let Some(e) = Self::list_refusal(n, tokens) {
            r == Err::<(), GlError>(e) && new == old
        } else if n == 0 {
            r == Ok::<(), GlError>(()) && new == old
        } else {
            match old.framebuffer_state.write_framebuffer {
                Framebuffer::Default => if n > 1 {
                    r == Err::<(), GlError>(GlError::TooManyDrawBuffers) && new == old
                } else {
                    Self::default_draw_post(old, new, tokens[0], r)
                },
                Framebuffer::UserDefined(id) => Self::fbo_draw_post(
                    old,
                    new,
                    id,
                    tokens.subrange(0, n as int),
                    r,
                ),
            }
        }
    }

    /// What `named_draw_buffers` does; bindings never change.
    pub open spec fn named_draw_buffers_post(
        old: GlContext,
        new: GlContext,
        framebuffer: u32,
        n: GlSizei,
        tokens: Seq<u32>,
        r: Result<(), GlError>,
    ) -> bool {
        if let Some(e) = Self::list_refusal(n, tokens) {
            r == Err::<(), GlError>(e) && new == old
        } else if n == 0 {
            r == Ok::<(), GlError>(()) && new == old
        } else {
            Self::fbo_draw_post(old, new, framebuffer, tokens.subrange(0, n as int), r)
        }
    }

    fn set_default_draw_buffer(&mut self, token: u32) -> (r: Result<(), GlError>)
        requires
            old(self).wf(),
        ensures
            final(self).wf(),
            Self::default_draw_post(*old(self), *final(self), token, r),
    {
        match DrawBufferSys::from_u32(token) {
            Some(DrawBufferSys::Back) | Some(DrawBufferSys::BackLeft) => {
                self.default_framebuffer.draw_buffer = DrawBufferSys::BackLeft;
                Ok(())
            },
            Some(DrawBufferSys::Front) | Some(DrawBufferSys::FrontLeft) => {
                self.default_framebuffer.draw_buffer = DrawBufferSys::FrontLeft;
                Ok(())
            },
            Some(DrawBufferSys::NONE) => {
                self.default_framebuffer.draw_buffer = DrawBufferSys::NONE;
                Ok(())
            },
            Some(_) => Err(GlError::UnsupportedBuffer),
            None => Err(GlError::UnknownToken),
        }
    }

    fn set_fbo_draw_buffers(&mut self, id: u32, tokens: &[u32], n: usize) -> (r: Result<(), GlError>)
        requires
            old(self).wf(),
            n <= tokens@.len(),
        ensures
            final(self).wf(),
            Self::fbo_draw_post(*old(self), *final(self), id, tokens@.subrange(0, n as int), r),
    {
        let ghost list = tokens@.subrange(0, n as int);
        if n > GL_MAX_COLOR_ATTACHMENTS {
            return Err(GlError::TooManyDrawBuffers);
        }
        if id == 0 || id >= self.next_fb_id {
            return Err(GlError::UnknownFramebuffer);
        }
        let idx = (id - 1) as usize;
        if self.framebuffer_objects[idx].is_none() {
            return Err(GlError::UnknownFramebuffer);
        }
        let ghost start = *self;
        let mut slots: Vec<Option<DrawBufferFBO>> = filled_vec(None, GL_MAX_COLOR_ATTACHMENTS);
        let mut i: usize = 0;
        while i < n
            invariant
                *self == start,
                start.wf(),
                start.has_fbo(id),
                idx == id - 1,
                n <= tokens@.len(),
                n <= GL_MAX_COLOR_ATTACHMENTS,
                list == tokens@.subrange(0, n as int),
                i <= n,
                slots@.len() == GL_MAX_COLOR_ATTACHMENTS,
                forall|j: int| 0 <= j < i ==> (#[trigger] DrawBufferFBO::spec_from_u32(list[j])) is Some,
                forall|j: int|
                    0 <= j < GL_MAX_COLOR_ATTACHMENTS ==> #[trigger] slots@[j] == (if j < i {
                        fbo_slot(list[j])
                    } else {
                        None
                    }),
            decreases n - i,
        {
            match DrawBufferFBO::from_u32(tokens[i]) {
                Some(DrawBufferFBO::NONE) => {},
                Some(t) => {
                    slots[i] = Some(t);
                },
                None => {
                    assert(list[i as int] == tokens@[i as int]);
                    return Err(GlError::UnknownToken);
                },
            }
            i += 1;
        }
        assert(slots@ =~= fbo_draw_list(list));
        let mut f = self.framebuffer_objects[idx].take().unwrap();
        f.draw_buffers = slots;
        self.framebuffer_objects[idx] = Some(f);
        assert(self.framebuffer_objects@ =~= start.framebuffer_objects@.update(
            idx as int,
            self.framebuffer_objects@[idx as int],
        ));
        Ok(())
    }

    /// Selects the draw buffers of the framebuffer bound for writing from the first `n` tokens:
    /// one system token for the default framebuffer, up to sixteen attachment tokens (one per
    /// draw-buffer position, replacing the whole mapping) for a framebuffer object.
    pub fn draw_buffers(&mut self, n: GlSizei, bufs: &[u32]) -> (r: Result<(), GlError>)
        requires
            old(self).wf(),
        ensures
            final(self).wf(),
            final(self).shared == old(self).shared,
            Self::draw_buffers_post(*old(self), *final(self), n, bufs@, r),
    {
        if n < 0 {
            return Err(GlError::NegativeCount);
        }
        let count = n as usize;
        if count > bufs.len() {
            return Err(GlError::ShortInput);
        }
        if count == 0 {
            return Ok(());
        }
        match self.framebuffer_state.write_framebuffer {
            Framebuffer::Default => {
                if count > 1 {
                    return Err(GlError::TooManyDrawBuffers);
                }
                self.set_default_draw_buffer(bufs[0])
            },
            Framebuffer::UserDefined(id) => self.set_fbo_draw_buffers(id, bufs, count),
        }
    }

    /// As `draw_buffers`, on the framebuffer object `framebuffer`, whatever is bound.
    pub fn named_draw_buffers(&mut self, framebuffer: u32, n: GlSizei, bufs: &[u32]) -> (r: Result<(), GlError>)
        requires
            old(self).wf(),
        ensures
            final(self).wf(),
            final(self).shared == old(self).shared,
            Self::named_draw_buffers_post(*old(self), *final(self), framebuffer, n, bufs@, r),
    {
        if n < 0 {
            return Err(GlError::NegativeCount);
        }
        let count = n as usize;
        if count > bufs.len() {
            return Err(GlError::ShortInput);
        }
        if count == 0 {
            return Ok(());
        }
        self.set_fbo_draw_buffers(framebuffer, bufs, count)
    }

    /// What `gen_framebuffers` does: `n` new objects with the next `n` ids of the counter.
    pub open spec fn gen_post(old: GlContext, new: GlContext, n: GlSizei, r: Result<Vec<u32>, GlError>) -> bool {
        if n < 0 {
            r is Err && r->Err_0 == GlError::NegativeCount && new == old
        } else if old.next_fb_id + n > u32::MAX {
            r is Err && r->Err_0 == GlError::IdsExhausted && new == old
        } else {
            &&& r is Ok
            &&& r->Ok_0@ == Seq::new(n as nat, |i: int| (old.next_fb_id + i) as u32)
            &&& new == GlContext {
                framebuffer_objects: new.framebuffer_objects,
                next_fb_id: new.next_fb_id,
                ..old
            }
            &&& new.next_fb_id == old.next_fb_id + n
            &&& new.framebuffer_objects@.subrange(0, old.framebuffer_objects@.len() as int)
                == old.framebuffer_objects@
            &&& forall|id: u32|
                old.next_fb_id <= id < new.next_fb_id ==> #[trigger] new.has_fbo(id) && is_fresh_fbo(
                    new.fbo(id),
                    old.default_framebuffer.width,
                    old.default_framebuffer.height,
                )
        }
    }

    /// Makes `n` framebuffer objects the size of the default framebuffer and returns their
    /// ids, in creation order, from the context's counter.
    pub fn gen_framebuffers(&mut self, n: GlSizei) -> (r: Result<Vec<u32>, GlError>)
        requires
            old(self).wf(),
        ensures
            final(self).wf(),
            final(self).shared == old(self).shared,
            Self::gen_post(*old(self), *final(self), n, r),
    {
        if n < 0 {
            return Err(GlError::NegativeCount);
        }
        if n as u32 > u32::MAX - self.next_fb_id {
            return Err(GlError::IdsExhausted);
        }
        let ghost start = *self;
        let count = n as u32;
        let mut ids: Vec<u32> = Vec::new();
        let mut i: u32 = 0;
        while i < count
            invariant
                self.wf(),
                start.wf(),
                count == n,
                start.next_fb_id + count <= u32::MAX,
                i <= count,
                self.next_fb_id == start.next_fb_id + i,
                *self == (GlContext {
                    framebuffer_objects: self.framebuffer_objects,
                    next_fb_id: self.next_fb_id,
                    ..start
                }),
                self.framebuffer_objects@.subrange(0, start.framebuffer_objects@.len() as int)
                    == start.framebuffer_objects@,
                ids@ == Seq::new(i as nat, |j: int| (start.next_fb_id + j) as u32),
                forall|id: u32|
                    start.next_fb_id <= id < self.next_fb_id ==> #[trigger] self.has_fbo(id)
                        && is_fresh_fbo(
                        self.fbo(id),
                        start.default_framebuffer.width,
                        start.default_framebuffer.height,
                    ),
            decreases count - i,
        {
            let key = self.next_fb_id;
            let ghost before = *self;
            let framebuffer = FBO::new(self.default_framebuffer.width, self.default_framebuffer.height);
            self.framebuffer_objects.push(Some(framebuffer));
            self.next_fb_id = key + 1;
            ids.push(key);
            i += 1;
            assert forall|id: u32| start.next_fb_id <= id < self.next_fb_id implies #[trigger] self.has_fbo(id)
                && is_fresh_fbo(
                self.fbo(id),
                start.default_framebuffer.width,
                start.default_framebuffer.height,
            ) by {
                if id < key {
                    assert(before.has_fbo(id));
                    assert(self.framebuffer_objects@[id - 1] == before.framebuffer_objects@[id - 1]);
                } else {
                    assert(id == key);
                    assert(self.framebuffer_objects@[id - 1] == self.framebuffer_objects@.last());
                }
            }
            assert(self.framebuffer_objects@.subrange(0, start.framebuffer_objects@.len() as int)
                =~= start.framebuffer_objects@);
            assert(ids@ =~= Seq::new(i as nat, |j: int| (start.next_fb_id + j) as u32));
        }
        Ok(ids)
    }

    /// What `delete_framebuffers` does: every listed id that names an object loses it.
    pub open spec fn delete_post(old: GlContext, new: GlContext, n: GlSizei, ids: Seq<u32>, r: Result<(), GlError>) -> bool {
        if let Some(e) = Self::list_refusal(n, ids) {
            r == Err::<(), GlError>(e) && new == old
        } else {
            &&& r == Ok::<(), GlError>(())
            &&& new == GlContext { framebuffer_objects: new.framebuffer_objects, ..old }
            &&& new.framebuffer_objects@.len() == old.framebuffer_objects@.len()
            &&& forall|k: int|
                0 <= k < old.framebuffer_objects@.len() ==> #[trigger] new.framebuffer_objects@[k] == if lists(
                    ids.subrange(0, n as int),
                    k + 1,
                ) {
                    None
                } else {
                    old.framebuffer_objects@[k]
                }
        }
    }

    /// Removes the framebuffer objects that the first `n` ids name; ids that name none are
    /// passed over. Bindings to a removed object are left as they are.
    pub fn delete_framebuffers(&mut self, n: GlSizei, framebuffers: &[u32]) -> (r: Result<(), GlError>)
        requires
            old(self).wf(),
        ensures
            final(self).wf(),
            final(self).shared == old(self).shared,
            Self::delete_post(*old(self), *final(self), n, framebuffers@, r),
    {
        if n < 0 {
            return Err(GlError::NegativeCount);
        }
        let count = n as usize;
        if count > framebuffers.len() {
            return Err(GlError::ShortInput);
        }
        let ghost start = *self;
        let ghost list = framebuffers@.subrange(0, count as int);
        let mut i: usize = 0;
        while i < count
            invariant
                self.wf(),
                count <= framebuffers@.len(),
                list == framebuffers@.subrange(0, count as int),
                i <= count,
                *self == (GlContext { framebuffer_objects: self.framebuffer_objects, ..start }),
                self.framebuffer_objects@.len() == start.framebuffer_objects@.len(),
                forall|k: int|
                    0 <= k < start.framebuffer_objects@.len() ==> #[trigger] self.framebuffer_objects@[k]
                        == if lists(list.subrange(0, i as int), k + 1) {
                        None
                    } else {
                        start.framebuffer_objects@[k]
                    },
            decreases count - i,
        {
            let key = framebuffers[i];
            if key != 0 && key < self.next_fb_id {
                self.framebuffer_objects[(key - 1) as usize] = None;
            }
            i += 1;
            assert forall|k: int| 0 <= k < start.framebuffer_objects@.len() implies
                #[trigger] self.framebuffer_objects@[k] == if lists(list.subrange(0, i as int), k + 1) {
                    None
                } else {
                    start.framebuffer_objects@[k]
                } by {
                let prev = list.subrange(0, i - 1);
                let cur = list.subrange(0, i as int);
                if lists(prev, k + 1) {
                    let j = choose|j: int| 0 <= j < prev.len() && prev[j] == k + 1;
                    assert(cur[j] == k + 1);
                }
                if lists(cur, k + 1) && !lists(prev, k + 1) {
                    let j = choose|j: int| 0 <= j < cur.len() && cur[j] == k + 1;
                    if j < i - 1 {
                        assert(prev[j] == k + 1);
                    }
                }
                if key == k + 1 {
                    assert(cur[i - 1] == k + 1);
                }
            }
        }
        assert(list.subrange(0, count as int) =~= list);
        Ok(())
    }

    /// What `bind_framebuffer` does: checks the target and the id, then sets the selectors
    /// that the target names.
    pub open spec fn bind_post(old: GlContext, new: GlContext, target: u32, framebuffer: u32, r: Result<(), GlError>) -> bool {
        match FramebufferTypes::spec_from_u32(target) {
            None => r == Err::<(), GlError>(GlError::UnknownToken) && new == old,
            Some(t) => if framebuffer != 0 && !old.has_fbo(framebuffer) {
                r == Err::<(), GlError>(GlError::UnknownFramebuffer) && new == old
            } else {
                let fb = if framebuffer == 0 {
                    Framebuffer::Default
                } else {
                    Framebuffer::UserDefined(framebuffer)
                };
                &&& r == Ok::<(), GlError>(())
                &&& new == GlContext {
                    framebuffer_state: FramebufferState {
                        read_framebuffer: if t.binds_read() {
                            fb
                        } else {
                            old.framebuffer_state.read_framebuffer
                        },
                        write_framebuffer: if t.binds_draw() {
                            fb
                        } else {
                            old.framebuffer_state.write_framebuffer
                        },
                    },
                    ..old
                }
            },
        }
    }

    /// Binds the default framebuffer (id 0) or an existing framebuffer object to the read
    /// selector, the draw selector, or both, as `target` says.
    pub fn bind_framebuffer(&mut self, target: u32, framebuffer: u32) -> (r: Result<(), GlError>)
        requires
            old(self).wf(),
        ensures
            final(self).wf(),
            final(self).shared == old(self).shared,
            Self::bind_post(*old(self), *final(self), target, framebuffer, r),
    {
        let t = match FramebufferTypes::from_u32(target) {
            Some(t) => t,
            None => {
                return Err(GlError::UnknownToken);
            },
        };
        let fb = if framebuffer == 0 {
            Framebuffer::Default
        } else {
            if framebuffer >= self.next_fb_id || self.framebuffer_objects[(framebuffer - 1) as usize].is_none() {
                return Err(GlError::UnknownFramebuffer);
            }
            Framebuffer::UserDefined(framebuffer)
        };
        match t {
            FramebufferTypes::DrawFramebuffer => {
                self.framebuffer_state.write_framebuffer = fb;
            },
            FramebufferTypes::ReadFramebuffer => {
                self.framebuffer_state.read_framebuffer = fb;
            },
            FramebufferTypes::Framebuffer => {
                self.framebuffer_state.read_framebuffer = fb;
                self.framebuffer_state.write_framebuffer = fb;
            },
        }
        Ok(())
    }

    /// Stores the color that later clears write.
    pub fn clear_color(&mut self, red: u32, green: u32, blue: u32, alpha: u32)
        requires
            old(self).wf(),
        ensures
            final(self).wf(),
            final(self).shared == old(self).shared,
            *final(self) == (GlContext {
                clear_state: ClearState {
                    color_clear_value: ColorValue { red, green, blue, alpha },
                    ..old(self).clear_state
                },
                ..*old(self)
            }),
    {
        self.clear_state.color_clear_value = ColorValue::new(red, green, blue, alpha);
    }

    /// Stores the depth value that later clears write.
    pub fn clear_depth(&mut self, depth: u32)
        requires
            old(self).wf(),
        ensures
            final(self).wf(),
            final(self).shared == old(self).shared,
            *final(self) == (GlContext {
                clear_state: ClearState { depth_clear_value: depth, ..old(self).clear_state },
                ..*old(self)
            }),
    {
        self.clear_state.depth_clear_value = depth;
    }

    /// Stores the stencil value that later clears write.
    pub fn clear_stencil(&mut self, stencil: u8)
        requires
            old(self).wf(),
        ensures
            final(self).wf(),
            final(self).shared == old(self).shared,
            *final(self) == (GlContext {
                clear_state: ClearState { stencil_clear_value: stencil, ..old(self).clear_state },
                ..*old(self)
            }),
    {
        self.clear_state.stencil_clear_value = stencil;
    }

    /// What `swap_buffers` does: front and back color storage trade places.
    pub open spec fn swap_post(old: GlContext, new: GlContext) -> bool {
        &&& new == GlContext { default_framebuffer: new.default_framebuffer, ..old }
        &&& new.default_framebuffer == DefaultFramebuffer {
            color_buffer_front: old.default_framebuffer.color_buffer_back,
            color_buffer_back: old.default_framebuffer.color_buffer_front,
            ..old.default_framebuffer
        }
    }

    /// Exchanges the front and back color storage of the default framebuffer.
    pub fn swap_buffers(&mut self)
        requires
            old(self).wf(),
        ensures
            final(self).wf(),
            final(self).shared == old(self).shared,
            Self::swap_post(*old(self), *final(self)),
    {
        self.default_framebuffer.swap_buffers();
    }
}

} // verus!

verus! {

/// Sets the clear color of the current context; each component is the IEEE-754
/// single-precision bit pattern of its value, kept as given.
pub fn glClearColor(state: &mut GlobalState, red: u32, green: u32, blue: u32, alpha: u32) -> (r: Result<(), GlError>)
    requires
        old(state).wf(),
    ensures
        final(state).wf(),
        GlobalState::on_current(
            *old(state),
            *final(state),
            r,
            |a: GlContext, b: GlContext, r: Result<(), GlError>|
                r is Ok && b == (GlContext {
                    clear_state: ClearState {
                        color_clear_value: ColorValue { red, green, blue, alpha },
                        ..a.clear_state
                    },
                    ..a
                }),
        ),
{
    let i = match state.current_index() {
        Some(i) => i,
        None => {
            return Err(GlError::UnknownContext);
        },
    };
    let ghost start = *state;
    state.contexts[i].clear_color(red, green, blue, alpha);
    proof {
        GlobalState::lemma_current_replaced(start, *state);
    }
    Ok(())
}

/// Sets the depth clear value of the current context (an IEEE-754 single-precision bit
/// pattern).
pub fn glClearDepth(state: &mut GlobalState, depth: u32) -> (r: Result<(), GlError>)
    requires
        old(state).wf(),
    ensures
        final(state).wf(),
        GlobalState::on_current(
            *old(state),
            *final(state),
            r,
            |a: GlContext, b: GlContext, r: Result<(), GlError>|
                r is Ok && b == (GlContext {
                    clear_state: ClearState { depth_clear_value: depth, ..a.clear_state },
                    ..a
                }),
        ),
{
    let i = match state.current_index() {
        Some(i) => i,
        None => {
            return Err(GlError::UnknownContext);
        },
    };
    let ghost start = *state;
    state.contexts[i].clear_depth(depth);
    proof {
        GlobalState::lemma_current_replaced(start, *state);
    }
    Ok(())
}

/// Sets the stencil clear value of the current context.
pub fn glClearStencil(state: &mut GlobalState, stencil: u8) -> (r: Result<(), GlError>)
    requires
        old(state).wf(),
    ensures
        final(state).wf(),
        GlobalState::on_current(
            *old(state),
            *final(state),
            r,
            |a: GlContext, b: GlContext, r: Result<(), GlError>|
                r is Ok && b == (GlContext {
                    clear_state: ClearState { stencil_clear_value: stencil, ..a.clear_state },
                    ..a
                }),
        ),
{
    let i = match state.current_index() {
        Some(i) => i,
        None => {
            return Err(GlError::UnknownContext);
        },
    };
    let ghost start = *state;
    state.contexts[i].clear_stencil(stencil);
    proof {
        GlobalState::lemma_current_replaced(start, *state);
    }
    Ok(())
}

/// Clears the buffers that `mask` requests in the current context's write framebuffer.
pub fn glClear(state: &mut GlobalState, mask: GlBitfield) -> (r: Result<(), GlError>)
    requires
        old(state).wf(),
    ensures
        final(state).wf(),
        GlobalState::on_current(
            *old(state),
            *final(state),
            r,
            |a: GlContext, b: GlContext, r: Result<(), GlError>| GlContext::clear_post(a, b, mask, r),
        ),
{
    let i = match state.current_index() {
        Some(i) => i,
        None => {
            return Err(GlError::UnknownContext);
        },
    };
    let ghost start = *state;
    let r = state.contexts[i].clear(mask);
    proof {
        GlobalState::lemma_current_replaced(start, *state);
    }
    r
}

/// Selects the draw buffers of the current context's write framebuffer from the first `n`
/// tokens of `bufs`.
pub fn glDrawBuffers(state: &mut GlobalState, n: GlSizei, bufs: &[u32]) -> (r: Result<(), GlError>)
    requires
        old(state).wf(),
    ensures
        final(state).wf(),
        GlobalState::on_current(
            *old(state),
            *final(state),
            r,
            |a: GlContext, b: GlContext, r: Result<(), GlError>|
                GlContext::draw_buffers_post(a, b, n, bufs@, r),
        ),
{
    let i = match state.current_index() {
        Some(i) => i,
        None => {
            return Err(GlError::UnknownContext);
        },
    };
    let ghost start = *state;
    let r = state.contexts[i].draw_buffers(n, bufs);
    proof {
        GlobalState::lemma_current_replaced(start, *state);
    }
    r
}

/// As `glDrawBuffers`, on the framebuffer object `framebuffer` of the current context,
/// whatever is bound.
pub fn glNamedFramebufferDrawBuffers(state: &mut GlobalState, framebuffer: u32, n: GlSizei, bufs: &[u32]) -> (r: Result<(), GlError>)
    requires
        old(state).wf(),
    ensures
        final(state).wf(),
        GlobalState::on_current(
            *old(state),
            *final(state),
            r,
            |a: GlContext, b: GlContext, r: Result<(), GlError>|
                GlContext::named_draw_buffers_post(a, b, framebuffer, n, bufs@, r),
        ),
{
    let i = match state.current_index() {
        Some(i) => i,
        None => {
            return Err(GlError::UnknownContext);
        },
    };
    let ghost start = *state;
    let r = state.contexts[i].named_draw_buffers(framebuffer, n, bufs);
    proof {
        GlobalState::lemma_current_replaced(start, *state);
    }
    r
}

/// `glDrawBuffers` with the single token `buf`.
pub fn glDrawBuffer(state: &mut GlobalState, buf: u32) -> (r: Result<(), GlError>)
    requires
        old(state).wf(),
    ensures
        final(state).wf(),
        GlobalState::on_current(
            *old(state),
            *final(state),
            r,
            |a: GlContext, b: GlContext, r: Result<(), GlError>|
                GlContext::draw_buffers_post(a, b, 1, seq![buf], r),
        ),
{
    let bufs: Vec<u32> = vec![buf];
    assert(bufs@ =~= seq![buf]);
    glDrawBuffers(state, 1, bufs.as_slice())
}

/// `glNamedFramebufferDrawBuffers` with the single token `buf`.
pub fn glNamedFramebufferDrawBuffer(state: &mut GlobalState, framebuffer: u32, buf: u32) -> (r: Result<(), GlError>)
    requires
        old(state).wf(),
    ensures
        final(state).wf(),
        GlobalState::on_current(
            *old(state),
            *final(state),
            r,
            |a: GlContext, b: GlContext, r: Result<(), GlError>|
                GlContext::named_draw_buffers_post(a, b, framebuffer, 1, seq![buf], r),
        ),
{
    let bufs: Vec<u32> = vec![buf];
    assert(bufs@ =~= seq![buf]);
    glNamedFramebufferDrawBuffers(state, framebuffer, 1, bufs.as_slice())
}

/// Makes `n` framebuffer objects in the current context and returns their ids.
pub fn glGenFramebuffers(state: &mut GlobalState, n: GlSizei) -> (r: Result<Vec<u32>, GlError>)
    requires
        old(state).wf(),
    ensures
        final(state).wf(),
        GlobalState::on_current(
            *old(state),
            *final(state),
            r,
            |a: GlContext, b: GlContext, r: Result<Vec<u32>, GlError>| GlContext::gen_post(a, b, n, r),
        ),
{
    let i = match state.current_index() {
        Some(i) => i,
        None => {
            return Err(GlError::UnknownContext);
        },
    };
    let ghost start = *state;
    let r = state.contexts[i].gen_framebuffers(n);
    proof {
        GlobalState::lemma_current_replaced(start, *state);
    }
    r
}

/// Removes the framebuffer objects that the first `n` ids name from the current context.
pub fn glDeleteFramebuffers(state: &mut GlobalState, n: GlSizei, framebuffers: &[u32]) -> (r: Result<(), GlError>)
    requires
        old(state).wf(),
    ensures
        final(state).wf(),
        GlobalState::on_current(
            *old(state),
            *final(state),
            r,
            |a: GlContext, b: GlContext, r: Result<(), GlError>|
                GlContext::delete_post(a, b, n, framebuffers@, r),
        ),
{
    let i = match state.current_index() {
        Some(i) => i,
        None => {
            return Err(GlError::UnknownContext);
        },
    };
    let ghost start = *state;
    let r = state.contexts[i].delete_framebuffers(n, framebuffers);
    proof {
        GlobalState::lemma_current_replaced(start, *state);
    }
    r
}

/// Binds a framebuffer of the current context for reading, writing, or both.
pub fn glBindFramebuffer(state: &mut GlobalState, target: u32, framebuffer: u32) -> (r: Result<(), GlError>)
    requires
        old(state).wf(),
    ensures
        final(state).wf(),
        GlobalState::on_current(
            *old(state),
            *final(state),
            r,
            |a: GlContext, b: GlContext, r: Result<(), GlError>|
                GlContext::bind_post(a, b, target, framebuffer, r),
        ),
{
    let i = match state.current_index() {
        Some(i) => i,
        None => {
            return Err(GlError::UnknownContext);
        },
    };
    let ghost start = *state;
    let r = state.contexts[i].bind_framebuffer(target, framebuffer);
    proof {
        GlobalState::lemma_current_replaced(start, *state);
    }
    r
}

/// Copying a region between the bound framebuffers is not provided: always `Unsupported`.
pub fn glBlitFramebuffer(
    src_x0: i32,
    src_y0: i32,
    src_x1: i32,
    src_y1: i32,
    dst_x0: i32,
    dst_y0: i32,
    dst_x1: i32,
    dst_y1: i32,
    mask: GlBitfield,
    filter: u32,
) -> (r: Result<(), GlError>)
    ensures
        r == Err::<(), GlError>(GlError::Unsupported),
{
    Err(GlError::Unsupported)
}

/// Copying a region between two named framebuffers is not provided: always `Unsupported`.
pub fn glBlitNamedFramebuffer(
    read_framebuffer: u32,
    draw_framebuffer: u32,
    src_x0: i32,
    src_y0: i32,
    src_x1: i32,
    src_y1: i32,
    dst_x0: i32,
    dst_y0: i32,
    dst_x1: i32,
    dst_y1: i32,
    mask: GlBitfield,
    filter: u32,
) -> (r: Result<(), GlError>)
    ensures
        r == Err::<(), GlError>(GlError::Unsupported),
{
    Err(GlError::Unsupported)
}

} // verus!

verus! {

/// Clearing color and depth together fills both the color buffer that the default
/// framebuffer draws into and its depth buffer; clearing color alone leaves depth as it was.
pub proof fn lemma_clear_color_and_depth(
    old: GlContext,
    new: GlContext,
    mask: u32,
    r: Result<(), GlError>,
)
    requires
        old.wf(),
        GlContext::clear_post(old, new, mask, r),
        old.framebuffer_state.write_framebuffer == Framebuffer::Default,
        old.default_framebuffer.draw_buffer.is_back() || old.default_framebuffer.draw_buffer.is_front(),
        old.default_framebuffer.depth_buffer is Some,
        mask == GL_COLOR_BUFFER_BIT | GL_DEPTH_BUFFER_BIT || mask == GL_COLOR_BUFFER_BIT,
    ensures
        r is Ok,
        old.default_framebuffer.draw_buffer.is_back() ==> new.default_framebuffer.color_buffer_back.is_filled_with(
            old.clear_state.color_clear_value,
        ),
        old.default_framebuffer.draw_buffer.is_front() ==> new.default_framebuffer.color_buffer_front.is_filled_with(
            old.clear_state.color_clear_value,
        ),
        mask == GL_COLOR_BUFFER_BIT | GL_DEPTH_BUFFER_BIT ==> new.default_framebuffer.depth_buffer->0.pixels@
            == Seq::new(
            old.default_framebuffer.depth_buffer->0.pixels@.len(),
            |_i: int| old.clear_state.depth_clear_value,
        ),
        mask == GL_COLOR_BUFFER_BIT ==> new.default_framebuffer.depth_buffer->0.pixels@
            == old.default_framebuffer.depth_buffer->0.pixels@,
{
    assert((0x4000u32 | 0x100u32) & 0x4000u32 != 0) by (bit_vector);
    assert((0x4000u32 | 0x100u32) & 0x100u32 != 0) by (bit_vector);
    assert(0x4000u32 & 0x4000u32 != 0) by (bit_vector);
    assert(0x4000u32 & 0x100u32 == 0) by (bit_vector);
}

/// Swapping twice gives back the context as it was.
pub proof fn lemma_swap_twice(a: GlContext, b: GlContext, c: GlContext)
    requires
        GlContext::swap_post(a, b),
        GlContext::swap_post(b, c),
    ensures
        c == a,
{
}

/// Where the id counter has room for `n` more ids, `gen_framebuffers` succeeds, and the ids
/// it returns are nonzero, were never issued by the context before, are pairwise distinct,
/// and each names a framebuffer object afterwards.
pub proof fn lemma_generated_ids_fresh(old: GlContext, new: GlContext, n: GlSizei, r: Result<Vec<u32>, GlError>)
    requires
        old.wf(),
        n >= 0,
        old.next_fb_id + n <= u32::MAX,
        GlContext::gen_post(old, new, n, r),
    ensures
        r is Ok,
        r->Ok_0@.len() == n,
        forall|i: int| 0 <= i < r->Ok_0@.len() ==> #[trigger] r->Ok_0@[i] != 0,
        forall|i: int| 0 <= i < r->Ok_0@.len() ==> !old.issued(#[trigger] r->Ok_0@[i]),
        forall|i: int| 0 <= i < r->Ok_0@.len() ==> new.has_fbo(#[trigger] r->Ok_0@[i]),
        forall|i: int, j: int| 0 <= i < j < r->Ok_0@.len() ==> r->Ok_0@[i] < r->Ok_0@[j],
{
    let ids = r->Ok_0@;
    assert forall|i: int| 0 <= i < ids.len() implies new.has_fbo(#[trigger] ids[i]) by {
        assert(old.next_fb_id <= ids[i] < new.next_fb_id);
    }
}

/// Once a framebuffer object is deleted, binding its id, or clearing through a binding
/// that still names it, fails with `UnknownFramebuffer`.
pub proof fn lemma_deleted_id_lookup(
    a: GlContext,
    b: GlContext,
    n: GlSizei,
    ids: Seq<u32>,
    id: u32,
    target: u32,
    c: GlContext,
    r_bind: Result<(), GlError>,
    mask: u32,
    d: GlContext,
    r_clear: Result<(), GlError>,
)
    requires
        a.wf(),
        GlContext::delete_post(a, b, n, ids, Ok(())),
        id != 0,
        lists(ids.subrange(0, n as int), id as int),
        FramebufferTypes::spec_from_u32(target) is Some,
        GlContext::bind_post(b, c, target, id, r_bind),
        b.framebuffer_state.write_framebuffer == Framebuffer::UserDefined(id),
        GlContext::clear_post(b, d, mask, r_clear),
    ensures
        !b.has_fbo(id),
        r_bind == Err::<(), GlError>(GlError::UnknownFramebuffer),
        r_clear == Err::<(), GlError>(GlError::UnknownFramebuffer),
{
    if 1 <= id < a.next_fb_id {
        assert(b.framebuffer_objects@[id - 1] == None::<FBO>);
    }
}

/// With the default framebuffer bound for writing, a request for two draw buffers is refused
/// and changes nothing, so the earlier selection stays.
pub proof fn lemma_default_refuses_two_draw_buffers(
    a: GlContext,
    b: GlContext,
    bufs: Seq<u32>,
    r: Result<(), GlError>,
)
    requires
        GlContext::draw_buffers_post(a, b, 2, bufs, r),
        bufs.len() >= 2,
        a.framebuffer_state.write_framebuffer == Framebuffer::Default,
    ensures
        r == Err::<(), GlError>(GlError::TooManyDrawBuffers),
        b == a,
        b.default_framebuffer.draw_buffer == a.default_framebuffer.draw_buffer,
{
}

} // verus!
