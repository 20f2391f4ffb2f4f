use vstd::prelude::*;

use crate::context::{GlContext, GlobalState};
use crate::enums::{DrawBufferSys, GlError};
use crate::types::{ColorValue, GlBool};

verus! {

/// Creates a context of `width` x `height` in the registry and returns its id; see
/// `GlobalState::create_context`.
pub fn glKCreateContext(
    state: &mut GlobalState,
    width: usize,
    height: usize,
    share_with: usize,
    double_buffered: GlBool,
) -> (r: Result<usize, GlError>)
    requires
        old(state).wf(),
        width * height <= usize::MAX,
    ensures
        final(state).wf(),
        GlobalState::create_post(*old(state), *final(state), width, height, share_with, double_buffered, r),
{
    state.create_context(width, height, share_with, double_buffered)
}

/// Makes the context with id `context_id` the current one.
pub fn glKMakeCurrent(state: &mut GlobalState, context_id: usize) -> (r: Result<(), GlError>)
    requires
        old(state).wf(),
    ensures
        final(state).wf(),
        r is Ok <==> old(state).has_context(context_id),
        r is Ok ==> *final(state) == (GlobalState { current_context: context_id, ..*old(state) }),
        r is Err ==> r == Err::<(), GlError>(GlError::UnknownContext) && *final(state) == *old(state),
{
    state.set_current_context(context_id)
}

/// Exchanges the front and back color storage of the current context's default framebuffer.
pub fn glKSwapBuffers(state: &mut GlobalState) -> (r: Result<(), GlError>)
    requires
        old(state).wf(),
    ensures
        final(state).wf(),
        GlobalState::on_current(
            *old(state),
            *final(state),
            r,
            |a: GlContext, b: GlContext, r: Result<(), GlError>| r is Ok && GlContext::swap_post(a, b),
        ),
{
    let i = match state.current_index() {
        Some(i) => i,
        None => {
            return Err(GlError::UnknownContext);
        },
    };
    let ghost start = *state;
    state.contexts[i].swap_buffers();
    proof {
        GlobalState::lemma_current_replaced(start, *state);
    }
    Ok(())
}

/// The samples of the current context's front color buffer (the one last swapped to the
/// front), row by row, for presentation.
pub fn glKReadFrontBuffer(state: &GlobalState) -> (r: Result<Vec<ColorValue>, GlError>)
    ensures
        state.has_current() ==> r is Ok && r->Ok_0@
            == state.current().default_framebuffer.color_buffer_front.pixels@,
        !state.has_current() ==> r is Err && r->Err_0 == GlError::UnknownContext,
{
    match state.current_context_ref() {
        Some(context) => Ok(context.default_framebuffer.color_pixels(DrawBufferSys::FrontLeft)),
        None => Err(GlError::UnknownContext),
    }
}

} // verus!

verus! {

/// Two `glKSwapBuffers` calls in a row leave the registry's contexts as they were.
pub proof fn lemma_swap_buffers_twice(
    s0: GlobalState,
    s1: GlobalState,
    s2: GlobalState,
    r1: Result<(), GlError>,
    r2: Result<(), GlError>,
)
    requires
        GlobalState::on_current(
            s0,
            s1,
            r1,
            |a: GlContext, b: GlContext, r: Result<(), GlError>| r is Ok && GlContext::swap_post(a, b),
        ),
        GlobalState::on_current(
            s1,
            s2,
            r2,
            |a: GlContext, b: GlContext, r: Result<(), GlError>| r is Ok && GlContext::swap_post(a, b),
        ),
    ensures
        s2.contexts@ == s0.contexts@,
        s2.pools == s0.pools,
        s2.current_context == s0.current_context,
{
    if s0.has_current() {
        crate::renderer::lemma_swap_twice(s0.current(), s1.current(), s2.current());
        assert(s2.contexts@ =~= s0.contexts@);
    }
}

} // verus!
