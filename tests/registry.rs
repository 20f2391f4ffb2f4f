use kori::context::{with_current_context, GLSharedState, GlobalState, Scissor};
use kori::enums::{DrawBufferSys, GlError};
use kori::kori_ext::{glKCreateContext, glKMakeCurrent, glKReadFrontBuffer, glKSwapBuffers};
use kori::renderer::{glClear, glClearColor};
use kori::types::ColorValue;

const COLOR: u32 = 0x4000;

fn red() -> ColorValue {
    ColorValue::new(1.0f32.to_bits(), 0.0f32.to_bits(), 0.0f32.to_bits(), 1.0f32.to_bits())
}

#[test]
fn context_ids_start_at_one_and_increase() {
    let mut state = GlobalState::init();
    let a = glKCreateContext(&mut state, 2, 2, 0, 1).unwrap();
    let b = glKCreateContext(&mut state, 3, 1, 0, 0).unwrap();
    let c = glKCreateContext(&mut state, 1, 1, 0, 1).unwrap();
    assert_eq!(a, 1);
    assert_eq!(b, 2);
    assert_eq!(c, 3);
    assert!(a < b && b < c);
    assert_eq!(state.contexts.len(), 3);
}

#[test]
fn new_context_draw_buffer_follows_double_buffering() {
    let mut state = GlobalState::init();
    glKCreateContext(&mut state, 2, 2, 0, 1).unwrap();
    glKCreateContext(&mut state, 2, 2, 0, 0).unwrap();
    assert_eq!(state.contexts[0].default_framebuffer.draw_buffer, DrawBufferSys::Back);
    assert_eq!(state.contexts[1].default_framebuffer.draw_buffer, DrawBufferSys::Front);
    assert!(state.contexts[0].default_framebuffer.depth_buffer.is_some());
    assert!(state.contexts[0].default_framebuffer.stencil_buffer.is_none());
    assert_eq!(state.contexts[0].default_framebuffer.color_buffer_back.pixels.len(), 4);
}

#[test]
fn sharing_joins_one_pool() {
    let mut state = GlobalState::init();
    let a = glKCreateContext(&mut state, 1, 1, 0, 1).unwrap();
    assert_eq!(state.contexts[0].shared, None);
    let b = glKCreateContext(&mut state, 1, 1, a, 1).unwrap();
    assert_eq!(state.pools.len(), 1);
    assert_eq!(state.contexts[0].shared, Some(0));
    assert_eq!(state.contexts[1].shared, Some(0));
    let _c = glKCreateContext(&mut state, 1, 1, b, 1).unwrap();
    assert_eq!(state.pools.len(), 1);
    assert_eq!(state.contexts[2].shared, Some(0));
    let _d = glKCreateContext(&mut state, 1, 1, 99, 1).unwrap();
    assert_eq!(state.contexts[3].shared, None);
    assert_eq!(state.pools.len(), 1);
    assert_eq!(GLSharedState::init(), GLSharedState {});
}

#[test]
fn no_current_context_is_refused() {
    let mut state = GlobalState::init();
    assert_eq!(glClear(&mut state, COLOR), Err(GlError::UnknownContext));
    assert_eq!(glKSwapBuffers(&mut state), Err(GlError::UnknownContext));
    assert_eq!(glKReadFrontBuffer(&state), Err(GlError::UnknownContext));
    assert_eq!(glKMakeCurrent(&mut state, 1), Err(GlError::UnknownContext));
}

#[test]
fn make_current_switches_context() {
    let mut state = GlobalState::init();
    glKCreateContext(&mut state, 1, 1, 0, 1).unwrap();
    glKCreateContext(&mut state, 1, 1, 0, 1).unwrap();
    assert_eq!(glKMakeCurrent(&mut state, 2), Ok(()));
    assert_eq!(state.current_context, 2);
    glClearColor(&mut state, 5, 6, 7, 8).unwrap();
    assert_eq!(state.contexts[1].clear_state.color_clear_value, ColorValue::new(5, 6, 7, 8));
    assert_eq!(state.contexts[0].clear_state.color_clear_value, ColorValue::new(0, 0, 0, 0));
    assert_eq!(glKMakeCurrent(&mut state, 0), Err(GlError::UnknownContext));
    assert_eq!(glKMakeCurrent(&mut state, 3), Err(GlError::UnknownContext));
    assert_eq!(state.current_context, 2);
}

#[test]
fn swap_twice_restores_front_and_back() {
    let mut state = GlobalState::init();
    glKCreateContext(&mut state, 2, 2, 0, 1).unwrap();
    glClearColor(&mut state, 1, 2, 3, 4).unwrap();
    glClear(&mut state, COLOR).unwrap();
    let front = state.contexts[0].default_framebuffer.color_buffer_front.pixels.clone();
    let back = state.contexts[0].default_framebuffer.color_buffer_back.pixels.clone();
    assert_ne!(front, back);
    glKSwapBuffers(&mut state).unwrap();
    assert_eq!(state.contexts[0].default_framebuffer.color_buffer_front.pixels, back);
    assert_eq!(state.contexts[0].default_framebuffer.color_buffer_back.pixels, front);
    glKSwapBuffers(&mut state).unwrap();
    assert_eq!(state.contexts[0].default_framebuffer.color_buffer_front.pixels, front);
    assert_eq!(state.contexts[0].default_framebuffer.color_buffer_back.pixels, back);
}

#[test]
fn red_clear_scenario() {
    let mut state = GlobalState::init();
    let id = glKCreateContext(&mut state, 4, 4, 0, 1).unwrap();
    assert_eq!(id, 1);
    glClearColor(&mut state, 1.0f32.to_bits(), 0.0f32.to_bits(), 0.0f32.to_bits(), 1.0f32.to_bits())
        .unwrap();
    glClear(&mut state, COLOR).unwrap();
    let back = &state.contexts[0].default_framebuffer.color_buffer_back.pixels;
    assert_eq!(back.len(), 16);
    assert!(back.iter().all(|p| *p == red()));
    glKSwapBuffers(&mut state).unwrap();
    let front = glKReadFrontBuffer(&state).unwrap();
    assert_eq!(front.len(), 16);
    assert!(front.iter().all(|p| *p == red()));
}

#[test]
fn scissor_new_clamps_and_toggles() {
    let mut s = Scissor::new(1, 2, -5, 7);
    assert_eq!(s.x, 1);
    assert_eq!(s.y, 2);
    assert_eq!(s.width, 0);
    assert_eq!(s.height, 7);
    assert!(!s.get_state());
    s.enable();
    assert!(s.get_state());
    s.disable();
    assert!(!s.get_state());
}

#[test]
fn with_current_context_reads_current() {
    let mut state = GlobalState::init();
    assert_eq!(with_current_context(&state, |ctx| ctx.next_fb_id), Err(GlError::UnknownContext));
    glKCreateContext(&mut state, 3, 2, 0, 1).unwrap();
    glKCreateContext(&mut state, 5, 1, 0, 1).unwrap();
    assert_eq!(with_current_context(&state, |ctx| ctx.default_framebuffer.width), Ok(3));
    glKMakeCurrent(&mut state, 2).unwrap();
    assert_eq!(with_current_context(&state, |ctx| ctx.default_framebuffer.width), Ok(5));
}
