use kori::context::GlobalState;
use kori::enums::{
    ClearBufferMask, DrawBufferFBO, DrawBufferSys, Framebuffer, FramebufferTypes, GlError,
};
use kori::kori_ext::glKCreateContext;
use kori::renderer::{
    glBindFramebuffer, glBlitFramebuffer, glBlitNamedFramebuffer, glClear, glClearColor,
    glClearDepth, glClearStencil, glDeleteFramebuffers, glDrawBuffer, glDrawBuffers,
    glGenFramebuffers, glNamedFramebufferDrawBuffer, glNamedFramebufferDrawBuffers,
};
use kori::types::{ColorValue, DepthBuffer};

const COLOR: u32 = 0x4000;
const DEPTH: u32 = 0x100;
const STENCIL: u32 = 0x400;
const FRAMEBUFFER: u32 = 0x8d40;
const DRAW_FRAMEBUFFER: u32 = 0x8ca9;
const READ_FRAMEBUFFER: u32 = 0x8ca8;
const ATTACHMENT0: u32 = 0x8ce0;

fn state_with_context(width: usize, height: usize) -> GlobalState {
    let mut state = GlobalState::init();
    glKCreateContext(&mut state, width, height, 0, 1).unwrap();
    state
}

fn zero() -> ColorValue {
    ColorValue::new(0, 0, 0, 0)
}

#[test]
fn clear_color_and_depth_changes_both() {
    let mut state = state_with_context(2, 3);
    glClearColor(&mut state, 11, 12, 13, 14).unwrap();
    glClearDepth(&mut state, 1.0f32.to_bits()).unwrap();
    glClear(&mut state, COLOR | DEPTH).unwrap();
    let fb = &state.contexts[0].default_framebuffer;
    assert!(fb.color_buffer_back.pixels.iter().all(|p| *p == ColorValue::new(11, 12, 13, 14)));
    assert!(fb.color_buffer_front.pixels.iter().all(|p| *p == zero()));
    let depth: &DepthBuffer = fb.depth_buffer.as_ref().unwrap();
    assert_eq!(depth.pixels.len(), 6);
    assert!(depth.pixels.iter().all(|d| *d == 1.0f32.to_bits()));
}

#[test]
fn clear_color_alone_keeps_depth() {
    let mut state = state_with_context(2, 2);
    glClearDepth(&mut state, 7).unwrap();
    glClear(&mut state, DEPTH).unwrap();
    glClearDepth(&mut state, 9).unwrap();
    glClearColor(&mut state, 1, 1, 1, 1).unwrap();
    glClear(&mut state, COLOR).unwrap();
    let fb = &state.contexts[0].default_framebuffer;
    assert!(fb.depth_buffer.as_ref().unwrap().pixels.iter().all(|d| *d == 7));
    assert!(fb.color_buffer_back.pixels.iter().all(|p| *p == ColorValue::new(1, 1, 1, 1)));
}

#[test]
fn clear_follows_front_selection_and_none() {
    let mut state = state_with_context(1, 2);
    glClearColor(&mut state, 3, 3, 3, 3).unwrap();
    glDrawBuffer(&mut state, 0x404).unwrap();
    assert_eq!(state.contexts[0].default_framebuffer.draw_buffer, DrawBufferSys::FrontLeft);
    glClear(&mut state, COLOR).unwrap();
    let fb = &state.contexts[0].default_framebuffer;
    assert!(fb.color_buffer_front.pixels.iter().all(|p| *p == ColorValue::new(3, 3, 3, 3)));
    assert!(fb.color_buffer_back.pixels.iter().all(|p| *p == zero()));
    glDrawBuffer(&mut state, 0).unwrap();
    assert_eq!(state.contexts[0].default_framebuffer.draw_buffer, DrawBufferSys::NONE);
    glClearColor(&mut state, 4, 4, 4, 4).unwrap();
    glClear(&mut state, COLOR).unwrap();
    let fb = &state.contexts[0].default_framebuffer;
    assert!(fb.color_buffer_front.pixels.iter().all(|p| *p == ColorValue::new(3, 3, 3, 3)));
    assert!(fb.color_buffer_back.pixels.iter().all(|p| *p == zero()));
}

#[test]
fn clear_stencil_without_stencil_buffer_is_no_op() {
    let mut state = state_with_context(1, 1);
    glClearStencil(&mut state, 5).unwrap();
    assert_eq!(state.contexts[0].clear_state.stencil_clear_value, 5);
    assert_eq!(glClear(&mut state, STENCIL), Ok(()));
    assert!(state.contexts[0].default_framebuffer.stencil_buffer.is_none());
    assert_eq!(glClear(&mut state, 0), Ok(()));
}

#[test]
fn clear_ignores_unrecognized_mask_bits() {
    let mut state = state_with_context(1, 1);
    glClearColor(&mut state, 2, 2, 2, 2).unwrap();
    assert_eq!(glClear(&mut state, COLOR | 0x1), Ok(()));
    let fb = &state.contexts[0].default_framebuffer;
    assert!(fb.color_buffer_back.pixels.iter().all(|p| *p == ColorValue::new(2, 2, 2, 2)));
    assert!(fb.depth_buffer.as_ref().unwrap().pixels.iter().all(|d| *d == 0));
    assert_eq!(glClear(&mut state, 0x1), Ok(()));
}

#[test]
fn new_depth_buffer_is_full_size_and_zero() {
    let state = state_with_context(3, 2);
    let depth = state.contexts[0].default_framebuffer.depth_buffer.as_ref().unwrap();
    assert_eq!(depth.width, 3);
    assert_eq!(depth.height, 2);
    assert_eq!(depth.pixels, vec![0u32; 6]);
}

#[test]
fn two_draw_buffers_on_default_framebuffer_refused() {
    let mut state = state_with_context(1, 1);
    glDrawBuffers(&mut state, 1, &[0x404]).unwrap();
    assert_eq!(
        glDrawBuffers(&mut state, 2, &[0x405, 0x404]),
        Err(GlError::TooManyDrawBuffers)
    );
    assert_eq!(state.contexts[0].default_framebuffer.draw_buffer, DrawBufferSys::FrontLeft);
}

#[test]
fn draw_buffer_list_errors() {
    let mut state = state_with_context(1, 1);
    assert_eq!(glDrawBuffers(&mut state, -1, &[0x405]), Err(GlError::NegativeCount));
    assert_eq!(glDrawBuffers(&mut state, 2, &[0x405]), Err(GlError::ShortInput));
    assert_eq!(glDrawBuffers(&mut state, 1, &[0x999]), Err(GlError::UnknownToken));
    assert_eq!(glDrawBuffers(&mut state, 1, &[0x401]), Err(GlError::UnsupportedBuffer));
    assert_eq!(glDrawBuffer(&mut state, 0x403), Err(GlError::UnsupportedBuffer));
    assert_eq!(glDrawBuffers(&mut state, 0, &[]), Ok(()));
    assert_eq!(state.contexts[0].default_framebuffer.draw_buffer, DrawBufferSys::Back);
    glDrawBuffers(&mut state, 1, &[0x405]).unwrap();
    assert_eq!(state.contexts[0].default_framebuffer.draw_buffer, DrawBufferSys::BackLeft);
}

#[test]
fn gen_framebuffers_issues_new_ids() {
    let mut state = state_with_context(2, 2);
    let ids = glGenFramebuffers(&mut state, 3).unwrap();
    assert_eq!(ids, vec![1, 2, 3]);
    let more = glGenFramebuffers(&mut state, 2).unwrap();
    assert_eq!(more, vec![4, 5]);
    assert_eq!(glGenFramebuffers(&mut state, 0).unwrap(), Vec::<u32>::new());
    assert_eq!(glGenFramebuffers(&mut state, -2), Err(GlError::NegativeCount));
    let ctx = &state.contexts[0];
    assert_eq!(ctx.next_fb_id, 6);
    let fbo = ctx.framebuffer_objects[0].as_ref().unwrap();
    assert_eq!(fbo.width, 2);
    assert_eq!(fbo.height, 2);
    assert_eq!(fbo.color_attachments.len(), 16);
    assert_eq!(fbo.color_attachments[15].pixels.len(), 4);
    assert!(fbo.draw_buffers.iter().all(|d| d.is_none()));
}

#[test]
fn deleted_framebuffer_lookups_fail() {
    let mut state = state_with_context(2, 2);
    let ids = glGenFramebuffers(&mut state, 3).unwrap();
    glBindFramebuffer(&mut state, FRAMEBUFFER, ids[1]).unwrap();
    glDeleteFramebuffers(&mut state, 1, &[ids[1]]).unwrap();
    assert!(state.contexts[0].framebuffer_objects[1].is_none());
    assert!(state.contexts[0].framebuffer_objects[0].is_some());
    assert_eq!(glBindFramebuffer(&mut state, FRAMEBUFFER, ids[1]), Err(GlError::UnknownFramebuffer));
    assert_eq!(glClear(&mut state, COLOR), Err(GlError::UnknownFramebuffer));
    assert_eq!(glClear(&mut state, COLOR | 0x1), Err(GlError::UnknownFramebuffer));
    assert_eq!(glDrawBuffers(&mut state, 1, &[ATTACHMENT0]), Err(GlError::UnknownFramebuffer));
    assert_eq!(
        glNamedFramebufferDrawBuffer(&mut state, ids[1], ATTACHMENT0),
        Err(GlError::UnknownFramebuffer)
    );
    assert_eq!(glBindFramebuffer(&mut state, FRAMEBUFFER, ids[2]), Ok(()));
    assert_eq!(glBindFramebuffer(&mut state, FRAMEBUFFER, 42), Err(GlError::UnknownFramebuffer));
}

#[test]
fn delete_errors_and_unknown_ids() {
    let mut state = state_with_context(1, 1);
    glGenFramebuffers(&mut state, 2).unwrap();
    assert_eq!(glDeleteFramebuffers(&mut state, -1, &[1]), Err(GlError::NegativeCount));
    assert_eq!(glDeleteFramebuffers(&mut state, 3, &[1]), Err(GlError::ShortInput));
    assert_eq!(glDeleteFramebuffers(&mut state, 3, &[0, 7, 2]), Ok(()));
    assert!(state.contexts[0].framebuffer_objects[0].is_some());
    assert!(state.contexts[0].framebuffer_objects[1].is_none());
}

#[test]
fn bind_targets_select_read_and_draw() {
    let mut state = state_with_context(1, 1);
    let ids = glGenFramebuffers(&mut state, 2).unwrap();
    glBindFramebuffer(&mut state, DRAW_FRAMEBUFFER, ids[0]).unwrap();
    let fs = state.contexts[0].framebuffer_state;
    assert_eq!(fs.write_framebuffer, Framebuffer::UserDefined(1));
    assert_eq!(fs.read_framebuffer, Framebuffer::Default);
    glBindFramebuffer(&mut state, READ_FRAMEBUFFER, ids[1]).unwrap();
    let fs = state.contexts[0].framebuffer_state;
    assert_eq!(fs.write_framebuffer, Framebuffer::UserDefined(1));
    assert_eq!(fs.read_framebuffer, Framebuffer::UserDefined(2));
    glBindFramebuffer(&mut state, FRAMEBUFFER, 0).unwrap();
    let fs = state.contexts[0].framebuffer_state;
    assert_eq!(fs.write_framebuffer, Framebuffer::Default);
    assert_eq!(fs.read_framebuffer, Framebuffer::Default);
    assert_eq!(glBindFramebuffer(&mut state, 0x1234, 0), Err(GlError::UnknownToken));
}

#[test]
fn fbo_draw_buffers_replace_mapping_and_drive_clear() {
    let mut state = state_with_context(2, 1);
    let ids = glGenFramebuffers(&mut state, 1).unwrap();
    glBindFramebuffer(&mut state, FRAMEBUFFER, ids[0]).unwrap();
    glDrawBuffers(&mut state, 3, &[ATTACHMENT0 + 2, 0, ATTACHMENT0 + 5]).unwrap();
    {
        let fbo = state.contexts[0].framebuffer_objects[0].as_ref().unwrap();
        assert_eq!(fbo.draw_buffers[0], Some(DrawBufferFBO::ColorAttachment2));
        assert_eq!(fbo.draw_buffers[1], None);
        assert_eq!(fbo.draw_buffers[2], Some(DrawBufferFBO::ColorAttachment5));
        assert!(fbo.draw_buffers[3..].iter().all(|d| d.is_none()));
    }
    glClearColor(&mut state, 9, 9, 9, 9).unwrap();
    glClear(&mut state, COLOR).unwrap();
    {
        let fbo = state.contexts[0].framebuffer_objects[0].as_ref().unwrap();
        for (k, att) in fbo.color_attachments.iter().enumerate() {
            let expected = if k == 2 || k == 5 { ColorValue::new(9, 9, 9, 9) } else { zero() };
            assert!(att.pixels.iter().all(|p| *p == expected));
        }
    }
    let fb = &state.contexts[0].default_framebuffer;
    assert!(fb.color_buffer_back.pixels.iter().all(|p| *p == zero()));
    glDrawBuffer(&mut state, ATTACHMENT0 + 7).unwrap();
    let fbo = state.contexts[0].framebuffer_objects[0].as_ref().unwrap();
    assert_eq!(fbo.draw_buffers[0], Some(DrawBufferFBO::ColorAttachment7));
    assert!(fbo.draw_buffers[1..].iter().all(|d| d.is_none()));
}

#[test]
fn fbo_draw_buffer_errors_leave_mapping() {
    let mut state = state_with_context(1, 1);
    let ids = glGenFramebuffers(&mut state, 1).unwrap();
    glBindFramebuffer(&mut state, FRAMEBUFFER, ids[0]).unwrap();
    glDrawBuffers(&mut state, 1, &[ATTACHMENT0]).unwrap();
    let seventeen = [ATTACHMENT0; 17];
    assert_eq!(glDrawBuffers(&mut state, 17, &seventeen), Err(GlError::TooManyDrawBuffers));
    assert_eq!(
        glDrawBuffers(&mut state, 2, &[ATTACHMENT0 + 1, 0x405]),
        Err(GlError::UnknownToken)
    );
    let fbo = state.contexts[0].framebuffer_objects[0].as_ref().unwrap();
    assert_eq!(fbo.draw_buffers[0], Some(DrawBufferFBO::ColorAttachment0));
    assert!(fbo.draw_buffers[1..].iter().all(|d| d.is_none()));
}

#[test]
fn named_draw_buffers_leave_bindings() {
    let mut state = state_with_context(1, 1);
    let ids = glGenFramebuffers(&mut state, 2).unwrap();
    glNamedFramebufferDrawBuffers(&mut state, ids[1], 2, &[ATTACHMENT0 + 15, ATTACHMENT0 + 1])
        .unwrap();
    let ctx = &state.contexts[0];
    assert_eq!(ctx.framebuffer_state.write_framebuffer, Framebuffer::Default);
    let fbo = ctx.framebuffer_objects[1].as_ref().unwrap();
    assert_eq!(fbo.draw_buffers[0], Some(DrawBufferFBO::ColorAttachment15));
    assert_eq!(fbo.draw_buffers[1], Some(DrawBufferFBO::ColorAttachment1));
    assert!(ctx.framebuffer_objects[0].as_ref().unwrap().draw_buffers.iter().all(|d| d.is_none()));
    glNamedFramebufferDrawBuffer(&mut state, ids[1], 0).unwrap();
    let fbo = state.contexts[0].framebuffer_objects[1].as_ref().unwrap();
    assert!(fbo.draw_buffers.iter().all(|d| d.is_none()));
    assert_eq!(
        glNamedFramebufferDrawBuffers(&mut state, 0, 1, &[ATTACHMENT0]),
        Err(GlError::UnknownFramebuffer)
    );
    assert_eq!(
        glNamedFramebufferDrawBuffers(&mut state, ids[0], -3, &[ATTACHMENT0]),
        Err(GlError::NegativeCount)
    );
}

#[test]
fn blit_is_unsupported() {
    assert_eq!(glBlitFramebuffer(0, 0, 1, 1, 0, 0, 1, 1, COLOR, 0), Err(GlError::Unsupported));
    assert_eq!(
        glBlitNamedFramebuffer(1, 0, 0, 0, 1, 1, 0, 0, 1, 1, COLOR, 0),
        Err(GlError::Unsupported)
    );
}

#[test]
fn token_decoding() {
    assert_eq!(FramebufferTypes::from_u32(0x8ca9), Some(FramebufferTypes::DrawFramebuffer));
    assert_eq!(FramebufferTypes::from_u32(0x8ca8), Some(FramebufferTypes::ReadFramebuffer));
    assert_eq!(FramebufferTypes::from_u32(0x8d40), Some(FramebufferTypes::Framebuffer));
    assert_eq!(FramebufferTypes::from_u32(0), None);
    assert_eq!(DrawBufferSys::from_u32(0x404), Some(DrawBufferSys::Front));
    assert_eq!(DrawBufferSys::from_u32(0x405), Some(DrawBufferSys::Back));
    assert_eq!(DrawBufferSys::from_u32(0x400), Some(DrawBufferSys::FrontLeft));
    assert_eq!(DrawBufferSys::from_u32(0x401), Some(DrawBufferSys::FrontRight));
    assert_eq!(DrawBufferSys::from_u32(0x402), Some(DrawBufferSys::BackLeft));
    assert_eq!(DrawBufferSys::from_u32(0x403), Some(DrawBufferSys::BackRight));
    assert_eq!(DrawBufferSys::from_u32(0), Some(DrawBufferSys::NONE));
    assert_eq!(DrawBufferSys::from_u32(0x406), None);
    assert_eq!(DrawBufferFBO::from_u32(0), Some(DrawBufferFBO::NONE));
    assert_eq!(DrawBufferFBO::from_u32(0x8ce0), Some(DrawBufferFBO::ColorAttachment0));
    assert_eq!(DrawBufferFBO::from_u32(0x8ce9), Some(DrawBufferFBO::ColorAttachment9));
    assert_eq!(DrawBufferFBO::from_u32(0x8cef), Some(DrawBufferFBO::ColorAttachment15));
    assert_eq!(DrawBufferFBO::from_u32(0x8cf0), None);
    assert_eq!(DrawBufferFBO::from_u32(0x8cdf), None);
}

#[test]
fn attachment_indices() {
    assert_eq!(DrawBufferFBO::ColorAttachment0.get_attachment_index(), 0);
    assert_eq!(DrawBufferFBO::ColorAttachment11.get_attachment_index(), 11);
    assert_eq!(DrawBufferFBO::ColorAttachment15.get_attachment_index(), 15);
    assert_eq!(DrawBufferFBO::NONE.get_attachment_index(), usize::MAX);
    assert!(DrawBufferFBO::ColorAttachment3.is_color_attachment());
    assert!(!DrawBufferFBO::NONE.is_color_attachment());
    assert_eq!(ClearBufferMask::COLOR.bit(), COLOR);
    assert_eq!(ClearBufferMask::DEPTH.bit(), DEPTH);
    assert_eq!(ClearBufferMask::STENCIL.bit(), STENCIL);
}
