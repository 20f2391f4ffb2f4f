use vstd::prelude::*;

use crate::enums::{Framebuffer, GlError};
use crate::states::{ClearState, FramebufferState};
use crate::types::{ColorValue, DefaultFramebuffer, GlBool, FBO};

verus! {

/// Resources shared by every context of one sharing group. It holds nothing yet; it is the
/// place where cross-context resources go.
#[derive(Debug, Clone, Copy, PartialEq, Eq, Structural)]
pub struct GLSharedState {}

impl GLSharedState {
    pub fn init() -> (r: GLSharedState)
        ensures
            r == (GLSharedState {}),
    {
        GLSharedState {}
    }
}

/// Viewport rectangle of a context.
#[derive(Debug, Clone, Copy, PartialEq, Eq, Structural)]
pub struct Viewport {
    pub x: i32,
    pub y: i32,
    pub width: i32,
    pub height: i32,
}

/// Scissor rectangle of a context, with its enable flag.
#[derive(Debug, Clone, Copy, PartialEq, Eq, Structural)]
pub struct Scissor {
    pub x: i32,
    pub y: i32,
    pub width: i32,
    pub height: i32,
    pub enabled: bool,
}

impl Scissor {
    /// A disabled scissor rectangle; negative sizes become 0.
    pub fn new(x: i32, y: i32, width: i32, height: i32) -> (r: Scissor)
        ensures
            r.x == x,
            r.y == y,
            r.width == (if width < 0 { 0 } else { width }),
            r.height == (if height < 0 { 0 } else { height }),
            !r.enabled,
    {
        Scissor {
            x,
            y,
            width: if width < 0 { 0 } else { width },
            height: if height < 0 { 0 } else { height },
            enabled: false,
        }
    }

    pub fn enable(&mut self)
        ensures
            *final(self) == (Scissor { enabled: true, ..*old(self) }),
    {
        self.enabled = true;
    }

    pub fn disable(&mut self)
        ensures
            *final(self) == (Scissor { enabled: false, ..*old(self) }),
    {
        self.enabled = false;
    }

    pub fn get_state(&self) -> (r: bool)
        ensures
            r == self.enabled,
    {
        self.enabled
    }
}

/// One rendering context: its default framebuffer, its framebuffer objects (the object with
/// id `k` sits at slot `k - 1`; a deleted one leaves `None`), clear values, bindings, and the
/// index of its sharing group's pool, if it has joined one.
pub struct GlContext {
    pub shared: Option<usize>,
    pub clear_state: ClearState,
    pub next_fb_id: u32,
    pub framebuffer_objects: Vec<Option<FBO>>,
    pub default_framebuffer: DefaultFramebuffer,
    pub framebuffer_state: FramebufferState,
    pub viewport: Viewport,
    pub scissor: Scissor,
}

impl GlContext {
    pub open spec fn wf(&self) -> bool {
        &&& self.default_framebuffer.wf()
        &&& self.framebuffer_objects@.len() + 1 == self.next_fb_id
        &&& forall|k: int|
            0 <= k < self.framebuffer_objects@.len() ==> (#[trigger] self.framebuffer_objects@[k] matches Some(
                f,
            ) ==> {
                &&& f.wf()
                &&& f.width == self.default_framebuffer.width
                &&& f.height == self.default_framebuffer.height
            })
    }

    /// Whether a framebuffer object with this id exists in the context.
    pub open spec fn has_fbo(&self, id: u32) -> bool {
        &&& 1 <= id < self.next_fb_id
        &&& self.framebuffer_objects@[id - 1] is Some
    }

    /// The framebuffer object with this id (meaningful where `has_fbo(id)`).
    pub open spec fn fbo(&self, id: u32) -> FBO {
        self.framebuffer_objects@[id - 1]->0
    }

    /// Whether an id was ever issued by this context (whether or not it was deleted since).
    pub open spec fn issued(&self, id: u32) -> bool {
        1 <= id < self.next_fb_id
    }

    /// A context as `init` makes it.
    pub open spec fn is_fresh(&self, width: usize, height: usize, double_buffered: GlBool) -> bool {
        &&& self.wf()
        &&& self.default_framebuffer.width == width
        &&& self.default_framebuffer.height == height
        &&& self.default_framebuffer.color_buffer_front.is_filled_with(ColorValue::zero())
        &&& self.default_framebuffer.color_buffer_back.is_filled_with(ColorValue::zero())
        &&& self.default_framebuffer.depth_buffer is Some
        &&& self.default_framebuffer.depth_buffer->0.width == width
        &&& self.default_framebuffer.depth_buffer->0.height == height
        &&& self.default_framebuffer.depth_buffer->0.pixels@ == Seq::new(
            (width * height) as nat,
            |_i: int| 0u32,
        )
        &&& self.default_framebuffer.stencil_buffer is None
        &&& self.default_framebuffer.draw_buffer == DefaultFramebuffer::initial_draw_buffer(
            double_buffered,
        )
        &&& self.clear_state == ClearState::spec_initial()
        &&& self.next_fb_id == 1
        &&& self.framebuffer_state == (FramebufferState {
            read_framebuffer: Framebuffer::Default,
            write_framebuffer: Framebuffer::Default,
        })
        &&& self.shared is None
    }

    pub fn init(width: usize, height: usize, double_buffered: GlBool) -> (r: GlContext)
        requires
            width * height <= usize::MAX,
        ensures
            r.is_fresh(width, height, double_buffered),
    {
        let system_fb = DefaultFramebuffer::init(width, height, double_buffered);
        GlContext {
            shared: None,
            clear_state: ClearState::initial(),
            next_fb_id: 1,
            framebuffer_objects: Vec::new(),
            default_framebuffer: system_fb,
            framebuffer_state: FramebufferState {
                read_framebuffer: Framebuffer::Default,
                write_framebuffer: Framebuffer::Default,
            },
            viewport: Viewport { x: 0, y: 0, width: 0, height: 0 },
            scissor: Scissor { x: 0, y: 0, width: 0, height: 0, enabled: false },
        }
    }
}

/// The registry of contexts. The context with id `k` sits at index `k - 1`: ids start at 1,
/// rise by one per created context, and are never reused. Sharing-group pools sit in
/// `pools`, and a context names its group's pool by index.
pub struct GlobalState {
    pub contexts: Vec<GlContext>,
    pub pools: Vec<GLSharedState>,
    pub current_context: usize,
}

impl GlobalState {
    pub open spec fn wf(&self) -> bool {
        &&& forall|i: int| 0 <= i < self.contexts@.len() ==> (#[trigger] self.contexts@[i]).wf()
        &&& forall|i: int|
            0 <= i < self.contexts@.len() ==> (#[trigger] self.contexts@[i].shared matches Some(p)
                ==> p < self.pools@.len())
        &&& self.current_context >= 1
        &&& self.current_context <= self.contexts@.len() || self.current_context == 1
    }

    /// Once a context exists, the current one names a live context.
    pub proof fn lemma_current_is_live(&self)
        requires
            self.wf(),
            self.contexts@.len() > 0,
        ensures
            self.has_current(),
    {
    }

    pub open spec fn has_context(&self, id: usize) -> bool {
        1 <= id <= self.contexts@.len()
    }

    pub open spec fn context(&self, id: usize) -> GlContext {
        self.contexts@[id - 1]
    }

    pub open spec fn has_current(&self) -> bool {
        self.has_context(self.current_context)
    }

    pub open spec fn current(&self) -> GlContext {
        self.context(self.current_context)
    }

    /// `self` differs from `old` at most in the current context.
    pub open spec fn only_current_changed(&self, old: GlobalState) -> bool {
        &&& self.contexts@.len() == old.contexts@.len()
        &&& self.pools == old.pools
        &&& self.current_context == old.current_context
        &&& forall|i: int|
            0 <= i < old.contexts@.len() && i != old.current_context - 1 ==> #[trigger] self.contexts@[i]
                == old.contexts@[i]
    }

    /// An empty registry; the first context created will be the current one.
    pub fn init() -> (r: GlobalState)
        ensures
            r.wf(),
            r.contexts@.len() == 0,
            r.pools@.len() == 0,
            r.current_context == 1,
    {
        GlobalState { contexts: Vec::new(), pools: Vec::new(), current_context: 1 }
    }

    /// What `glKCreateContext` does to the registry and returns.
    pub open spec fn create_post(
        old: GlobalState,
        new: GlobalState,
        width: usize,
        height: usize,
        share_with: usize,
        double_buffered: GlBool,
        r: Result<usize, GlError>,
    ) -> bool {
        if old.contexts@.len() + 1 >= usize::MAX {
            r == Err::<usize, GlError>(GlError::IdsExhausted) && new == old
        } else {
            let id = (old.contexts@.len() + 1) as usize;
            let fresh = new.context(id);
            &&& r == Ok::<usize, GlError>(id)
            &&& new.contexts@.len() == old.contexts@.len() + 1
            &&& new.current_context == old.current_context
            &&& GlContext { shared: None, ..fresh }.is_fresh(width, height, double_buffered)
            &&& if share_with != 0 && old.has_context(share_with) {
                let peer = old.context(share_with);
                &&& new.context(share_with) == GlContext { shared: fresh.shared, ..peer }
                &&& if peer.shared is Some {
                    fresh.shared == peer.shared && new.pools == old.pools
                } else {
                    &&& fresh.shared == Some(old.pools@.len() as usize)
                    &&& new.pools@ == old.pools@.push(GLSharedState {})
                }
            } else {
                fresh.shared is None && new.pools == old.pools
            }
            &&& forall|i: int|
                0 <= i < old.contexts@.len() && i != share_with - 1 ==> #[trigger] new.contexts@[i]
                    == old.contexts@[i]
        }
    }

    /// Creates a context of `width` x `height` and returns its id. Where `share_with` names an
    /// existing context, both end up in one sharing group, whose pool is made on first use.
    pub fn create_context(
        &mut self,
        width: usize,
        height: usize,
        share_with: usize,
        double_buffered: GlBool,
    ) -> (r: Result<usize, GlError>)
        requires
            old(self).wf(),
            width * height <= usize::MAX,
        ensures
            final(self).wf(),
            Self::create_post(*old(self), *final(self), width, height, share_with, double_buffered, r),
    {
        let n = self.contexts.len();
        if n >= usize::MAX - 1 {
            return Err(GlError::IdsExhausted);
        }
        let mut context = GlContext::init(width, height, double_buffered);
        if share_with != 0 && share_with <= n {
            let peer = share_with - 1;
            match self.contexts[peer].shared {
                Some(p) => {
                    context.shared = Some(p);
                },
                None => {
                    let p = self.pools.len();
                    self.pools.push(GLSharedState::init());
                    self.contexts[peer].shared = Some(p);
                    context.shared = Some(p);
                },
            }
        }
        self.contexts.push(context);
        Ok(n + 1)
    }

    /// Makes the context with this id the current one.
    pub fn set_current_context(&mut self, id: usize) -> (r: Result<(), GlError>)
        requires
            old(self).wf(),
        ensures
            final(self).wf(),
            r is Ok <==> old(self).has_context(id),
            r is Ok ==> *final(self) == (GlobalState { current_context: id, ..*old(self) }),
            r is Err ==> r == Err::<(), GlError>(GlError::UnknownContext) && *final(self) == *old(self),
    {
        if id == 0 || id > self.contexts.len() {
            return Err(GlError::UnknownContext);
        }
        self.current_context = id;
        Ok(())
    }
}

} // verus!

verus! {

impl GlobalState {
    /// `new` and `r` are what an operation gives when it is applied to the current context,
    /// where `post` states its effect on one context. Without a current context it is refused.
    pub open spec fn on_current<R>(
        old: GlobalState,
        new: GlobalState,
        r: Result<R, GlError>,
        post: spec_fn(GlContext, GlContext, Result<R, GlError>) -> bool,
    ) -> bool {
        if old.has_current() {
            new.only_current_changed(old) && post(old.current(), new.current(), r)
        } else {
            r is Err && r->Err_0 == GlError::UnknownContext && new == old
        }
    }

    /// The index in `contexts` of the current context, if there is one.
    pub fn current_index(&self) -> (r: Option<usize>)
        ensures
            r == (if self.has_current() {
                Some((self.current_context - 1) as usize)
            } else {
                None::<usize>
            }),
    {
        if self.current_context == 0 || self.current_context > self.contexts.len() {
            None
        } else {
            Some(self.current_context - 1)
        }
    }

    /// The current context, if there is one.
    pub fn current_context_ref(&self) -> (r: Option<&GlContext>)
        ensures
            r == (if self.has_current() {
                Some(&self.current())
            } else {
                None::<&GlContext>
            }),
    {
        match self.current_index() {
            Some(i) => Some(&self.contexts[i]),
            None => None,
        }
    }

    /// A registry whose current context was replaced by a valid one in the same sharing group
    /// is valid.
    pub proof fn lemma_current_replaced(old: GlobalState, new: GlobalState)
        requires
            old.wf(),
            old.has_current(),
            new.only_current_changed(old),
            new.current().wf(),
            new.current().shared == old.current().shared,
        ensures
            new.wf(),
    {
        assert forall|i: int| 0 <= i < new.contexts@.len() implies (#[trigger] new.contexts@[i]).wf() by {
            if i != old.current_context - 1 {
                assert(new.contexts@[i] == old.contexts@[i]);
            }
        }
        assert forall|i: int| 0 <= i < new.contexts@.len() implies (#[trigger] new.contexts@[i].shared
            matches Some(p) ==> p < new.pools@.len()) by {
            if i != old.current_context - 1 {
                assert(new.contexts@[i] == old.contexts@[i]);
            }
        }
    }
}

} // verus!

verus! {

/// Two successful context creations in a row hand out ids that are new to the registry and
/// strictly increasing.
pub proof fn lemma_context_ids_increase(
    s0: GlobalState,
    s1: GlobalState,
    s2: GlobalState,
    width1: usize,
    height1: usize,
    share1: usize,
    double1: GlBool,
    width2: usize,
    height2: usize,
    share2: usize,
    double2: GlBool,
    r1: Result<usize, GlError>,
    r2: Result<usize, GlError>,
)
    requires
        s0.contexts@.len() + 2 < usize::MAX,
        GlobalState::create_post(s0, s1, width1, height1, share1, double1, r1),
        GlobalState::create_post(s1, s2, width2, height2, share2, double2, r2),
    ensures
        r1 is Ok && r2 is Ok,
        0 < r1->Ok_0 < r2->Ok_0,
        !s0.has_context(r1->Ok_0),
        !s1.has_context(r2->Ok_0),
        s1.has_context(r1->Ok_0),
        s2.has_context(r1->Ok_0),
        s2.has_context(r2->Ok_0),
        s0.contexts@.len() == 0 ==> r1->Ok_0 == 1,
{
}

/// Below the id limit, creating a context succeeds with an id that no context had, and the
/// registry grows by exactly that context; every earlier id keeps its context but the peer's
/// group membership.
pub proof fn lemma_created_id_is_new(
    old: GlobalState,
    new: GlobalState,
    width: usize,
    height: usize,
    share_with: usize,
    double_buffered: GlBool,
    r: Result<usize, GlError>,
)
    requires
        old.contexts@.len() + 1 < usize::MAX,
        GlobalState::create_post(old, new, width, height, share_with, double_buffered, r),
    ensures
        r is Ok,
        r->Ok_0 != 0,
        !old.has_context(r->Ok_0),
        new.has_context(r->Ok_0),
        forall|id: usize| #[trigger] new.has_context(id) <==> old.has_context(id) || id == r->Ok_0,
        forall|id: usize|
            old.has_context(id) && id != share_with ==> #[trigger] new.context(id) == old.context(id),
{
    assert forall|id: usize| old.has_context(id) && id != share_with implies #[trigger] new.context(id)
        == old.context(id) by {
        assert(new.contexts@[id - 1] == old.contexts@[id - 1]);
    }
}

} // verus!

verus! {

/// Runs `f` on the current context, for reading, and returns what it returns.
pub fn with_current_context<F, R>(state: &GlobalState, f: F) -> (r: Result<R, GlError>)
    where
        F: FnOnce(&GlContext) -> R,
    requires
        state.has_current() ==> f.requires((&state.current(),)),
    ensures
        state.has_current() ==> r is Ok && f.ensures((&state.current(),), r->Ok_0),
        !state.has_current() ==> r is Err && r->Err_0 == GlError::UnknownContext,
{
    match state.current_context_ref() {
        Some(context) => Ok(f(context)),
        None => Err(GlError::UnknownContext),
    }
}

} // verus!
