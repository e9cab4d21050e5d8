//! Frames as the pass state machine records and settles them.

use mtld3d_core::metal::{
    BlitCommand, BlitCommandType, Command, CommandType, CullMode, DepthResolveFilter, DirtyRange,
    PixelFormat, RenderScale, F32_ONE, VISIBILITY_COUNTING,
};
use mtld3d_core::passes::{
    null_texture_tex_sentinel, occupied_bytes, sampler_cache_key, ColorClearOutcome, ColorLoad, DebugBoundShadow,
    DepthClearOutcome, DepthLoad, DepthResolve, ExtraColorSlot, FrameReset, LastBoundCache,
    PassState, StencilClearOutcome, StencilLoad, StoreAction, UploadPassTarget, VertexBufferBind,
    NULL_TEXTURE_SAMPLER_SENTINEL,
};
use rustc_hash::FxHashMap;

const BACK: u64 = 100;
const DEPTH: u64 = 200;
const FORMAT: PixelFormat = PixelFormat::Bgra8Unorm;

fn reset() -> FrameReset {
    FrameReset {
        backbuffer: BACK,
        backbuffer_srgb: 0,
        backbuffer_msaa: 0,
        backbuffer_msaa_srgb: 0,
        backbuffer_sample_count: 1,
        backbuffer_size: (640, 480),
        backbuffer_format: FORMAT,
        depth_texture: DEPTH,
        depth_size: (640, 480),
        depth_has_stencil: true,
        render_scale: RenderScale::identity(),
        continues_frame: false,
    }
}

fn started(reset: FrameReset) -> PassState {
    let mut s = PassState::new();
    s.reset_frame(&reset);
    s.set_viewport(0, 0, 640, 480, 0, F32_ONE);
    s
}

fn frame() -> PassState {
    started(reset())
}

/// A frame without a depth attachment.
fn flat_frame() -> PassState {
    started(FrameReset { depth_texture: 0, depth_size: (0, 0), ..reset() })
}

fn command(cmd: CommandType, param_a: u32, param_b: u64) -> Command {
    Command { cmd, param_a, param_b, param_c: 0, param_d: 0 }
}

fn draw() -> Command {
    command(CommandType::DrawPrimitives, 3, 0)
}

fn sample(texture: u64) -> Command {
    command(CommandType::SetFragmentTexture, 0, texture)
}

fn target(s: &mut PassState, texture: u64) {
    s.set_color_render_target(texture, 640, 480, FORMAT, RenderScale::identity());
}

fn draw_count(s: &PassState) -> usize {
    s.passes().iter().flat_map(|p| p.commands().iter()).filter(|c| c.is_draw()).count()
}

#[test]
fn a_pass_opens_once_and_sets_its_viewport_first() {
    let mut s = frame();
    s.ensure_pass_open();
    s.ensure_pass_open();
    assert_eq!(s.passes().len(), 1);
    assert_eq!(
        s.passes()[0].commands(),
        &[Command::set_viewport(0, 0, 640, 480, 0, F32_ONE)][..]
    );
    assert_eq!(s.passes()[0].viewport(), (0, 0, 640, 480));
    assert_eq!(s.current_pass_index(), 0);
    assert!(!s.current_pass_closed());
}

#[test]
fn commands_are_appended_to_the_open_pass() {
    let mut s = frame();
    s.emit_command(draw());
    s.end_current_pass();
    s.emit_command(command(CommandType::SetCullMode, 1, 0));
    s.emit_command(draw());
    assert_eq!(s.passes().len(), 2);
    assert_eq!(s.passes()[0].commands().len(), 2);
    assert_eq!(s.passes()[0].commands()[1], draw());
    assert_eq!(s.passes()[1].commands().len(), 3);
    assert_eq!(s.passes()[1].commands()[2], draw());
}

#[test]
fn folded_clears_become_load_actions() {
    let mut s = frame();
    assert_eq!(s.clear_color(1, 2, 3, 4), ColorClearOutcome::Folded);
    assert_eq!(s.clear_depth(F32_ONE), DepthClearOutcome::Folded);
    assert_eq!(s.clear_stencil(7), StencilClearOutcome::Folded);
    assert_eq!(s.pending_color_clear(), Some((1, 2, 3, 4)));
    assert_eq!(s.pending_depth_clear(), Some(F32_ONE));
    assert_eq!(s.passes().len(), 0);
    s.emit_command(draw());
    let p = &s.passes()[0];
    assert_eq!(p.color_load(), ColorLoad::Clear { r: 1, g: 2, b: 3, a: 4 });
    assert_eq!(p.depth_load(), DepthLoad::Clear { value: F32_ONE });
    assert_eq!(p.stencil_load(), StencilLoad::Clear { value: 7 });
    assert_eq!(s.pending_color_clear(), None);
}

#[test]
fn a_clear_reaches_a_pass_that_has_not_drawn() {
    // Before the game sets a viewport.
    let mut s = PassState::new();
    s.reset_frame(&reset());
    s.ensure_pass_open();
    assert_eq!(s.passes()[0].color_load(), ColorLoad::DontCare);
    assert_eq!(s.clear_stencil(1), StencilClearOutcome::Folded);
    assert_eq!(s.passes()[0].stencil_load(), StencilLoad::Clear { value: 1 });
    assert_eq!(s.passes()[0].depth_load(), DepthLoad::DontCare);
}

#[test]
fn a_clear_in_the_middle_of_a_pass_is_painted() {
    let mut s = frame();
    s.emit_command(draw());
    assert_eq!(
        s.clear_color(1, 2, 3, 4),
        ColorClearOutcome::EmitQuad {
            rgba: (1, 2, 3, 4),
            viewport: (0, 0, 640, 480),
            color_format: FORMAT,
        }
    );
    assert_eq!(
        s.clear_depth(5),
        DepthClearOutcome::EmitQuad {
            value: 5,
            viewport: (0, 0, 640, 480),
            has_color: true,
            color_format: FORMAT,
        }
    );
    assert_eq!(
        s.clear_stencil(6),
        StencilClearOutcome::EmitQuad {
            value: 6,
            viewport: (0, 0, 640, 480),
            has_color: true,
            color_format: FORMAT,
        }
    );
    assert_eq!(s.passes().len(), 1);
    assert_eq!(s.passes()[0].color_load(), ColorLoad::DontCare);
}

#[test]
fn counting_samples_ends_the_pass_before_a_clear() {
    let mut s = frame();
    s.emit_command(command(CommandType::SetVisibilityResultMode, VISIBILITY_COUNTING, 0));
    assert!(s.passes()[0].has_counting_visibility());
    let outcome = s.clear_color(0, 0, 0, 0);
    assert_eq!(
        outcome,
        ColorClearOutcome::EmitQuad {
            rgba: (0, 0, 0, 0),
            viewport: (0, 0, 640, 480),
            color_format: FORMAT,
        }
    );
    assert_eq!(s.passes().len(), 2);
    assert_eq!(s.passes()[1].color_load(), ColorLoad::Load);
}

#[test]
fn depth_clears_without_depth_do_nothing() {
    let mut s = flat_frame();
    assert_eq!(s.clear_depth(0), DepthClearOutcome::NoOp);
    assert_eq!(s.clear_stencil(0), StencilClearOutcome::NoOp);
    assert_eq!(s.pending_depth_clear(), None);
}

#[test]
fn legacy_clears_wait_for_a_new_pass() {
    let mut s = frame();
    s.emit_command(draw());
    s.clear_color_legacy_break(1, 1, 1, 1);
    s.clear_depth_legacy_break(2);
    s.clear_stencil_legacy_break(3);
    s.emit_command(draw());
    assert_eq!(s.passes().len(), 2);
    let p = &s.passes()[1];
    assert_eq!(p.color_load(), ColorLoad::Clear { r: 1, g: 1, b: 1, a: 1 });
    assert_eq!(p.depth_load(), DepthLoad::Clear { value: 2 });
    assert_eq!(p.stencil_load(), StencilLoad::Clear { value: 3 });
}

#[test]
fn a_region_clear_keeps_what_lies_around_it() {
    let mut s = frame();
    assert_eq!(s.begin_region_color_clear(), FORMAT);
    assert_eq!(s.passes()[0].color_load(), ColorLoad::Load);
    let mut s = frame();
    assert_eq!(s.begin_region_depth_stencil_clear(), Some((true, FORMAT)));
    assert_eq!(s.passes()[0].depth_load(), DepthLoad::Load);
    assert_eq!(s.passes()[0].stencil_load(), StencilLoad::Load);
    assert_eq!(flat_frame().begin_region_depth_stencil_clear(), None);
}

#[test]
fn first_uses_are_discarded_and_later_ones_load() {
    let mut s = frame();
    s.emit_command(draw());
    assert_eq!(s.passes()[0].color_load(), ColorLoad::DontCare);
    assert_eq!(s.passes()[0].depth_load(), DepthLoad::DontCare);
    target(&mut s, 300);
    s.emit_command(draw());
    target(&mut s, BACK);
    s.emit_command(draw());
    assert_eq!(s.passes()[1].color_load(), ColorLoad::DontCare);
    assert_eq!(s.passes()[2].color_load(), ColorLoad::Load);
    assert_eq!(s.passes()[1].depth_load(), DepthLoad::Load);
}

#[test]
fn sampled_targets_are_loaded() {
    let mut s = frame();
    s.emit_command(sample(300));
    target(&mut s, 300);
    s.emit_command(draw());
    assert_eq!(s.passes()[1].color_load(), ColorLoad::Load);
    assert!(s.texture_sampled_this_frame(300));
    // It stays sampled in the next frame.
    s.reset_frame(&reset());
    assert!(!s.texture_sampled_this_frame(300));
    target(&mut s, 300);
    s.emit_command(draw());
    assert_eq!(s.passes()[0].color_load(), ColorLoad::Load);
}

#[test]
fn a_viewport_that_leaves_a_margin_loads() {
    let mut s = frame();
    s.set_viewport(0, 0, 320, 480, 0, F32_ONE);
    s.emit_command(draw());
    assert_eq!(s.passes()[0].color_load(), ColorLoad::Load);
    assert_eq!(s.passes()[0].depth_load(), DepthLoad::Load);
    assert!(!s.viewport_covers_color_attachment());
}

#[test]
fn settled_loads_keep_what_is_sampled_later() {
    let mut s = frame();
    target(&mut s, 300);
    s.emit_command(draw());
    assert_eq!(s.passes()[0].color_load(), ColorLoad::DontCare);
    target(&mut s, BACK);
    s.emit_command(sample(300));
    s.emit_command(draw());
    s.finalize_load_actions();
    assert_eq!(s.passes()[0].color_load(), ColorLoad::Load);
    assert_eq!(s.passes()[1].color_load(), ColorLoad::DontCare);
}

#[test]
fn binding_the_same_target_keeps_the_pass() {
    let mut s = frame();
    s.emit_command(draw());
    target(&mut s, BACK);
    assert!(!s.current_pass_closed());
    target(&mut s, 300);
    assert!(s.current_pass_closed());
    s.emit_command(draw());
    s.set_depth_stencil_attachment(DEPTH, (640, 480), false, true);
    assert!(!s.current_pass_closed());
    s.set_depth_stencil_attachment(201, (640, 480), false, true);
    assert!(s.current_pass_closed());
}

#[test]
fn a_waiting_clear_lands_on_the_outgoing_target() {
    let mut s = frame();
    s.clear_color(9, 9, 9, 9);
    target(&mut s, 300);
    assert_eq!(s.passes().len(), 1);
    assert_eq!(s.passes()[0].color_texture(), BACK);
    assert_eq!(s.passes()[0].color_load(), ColorLoad::Clear { r: 9, g: 9, b: 9, a: 9 });
    assert_eq!(s.pending_color_clear(), None);
}

fn extra(texture: u64) -> ExtraColorSlot {
    ExtraColorSlot {
        texture,
        size: (640, 480),
        logical_size: (640, 480),
        format: FORMAT,
        ..ExtraColorSlot::none()
    }
}

#[test]
fn taken_colour_bindings_come_back() {
    let mut s = frame();
    s.set_extra_color_render_target(1, Some(extra(301)));
    s.set_extra_color_render_target(3, Some(extra(303)));
    assert_eq!(s.extra_present_mask(), 0b101);
    assert!(s.has_extra_color_targets());
    let saved = s.take_color_attachments();
    assert_eq!(s.extra_present_mask(), 0);
    assert_eq!(saved.slot(1).map(|e| e.texture), Some(301));
    assert_eq!(saved.slot(2).map(|e| e.texture), None);
    target(&mut s, 300);
    s.restore_color_attachments(saved);
    assert_eq!(s.current_color_texture(), BACK);
    assert_eq!(s.current_color_size(), (640, 480));
    assert_eq!(s.extra_present_mask(), 0b101);
    s.emit_command(draw());
    assert_eq!(s.passes().last().unwrap().extra_color()[2].texture(), 303);
}

#[test]
fn targets_of_another_size_take_no_part() {
    let mut s = frame();
    s.set_extra_color_render_target(
        2,
        Some(ExtraColorSlot { size: (320, 240), logical_size: (320, 240), ..extra(302) }),
    );
    assert_eq!(s.extra_present_mask(), 0);
    assert!(s.has_extra_color_targets_outside_pass());
}

#[test]
fn unregistered_textures_leave_no_trace() {
    let mut s = frame();
    s.emit_command(sample(300));
    target(&mut s, 300);
    s.emit_command(draw());
    s.unregister_texture(300);
    assert!(!s.texture_sampled_this_frame(300));
    target(&mut s, BACK);
    target(&mut s, 300);
    s.emit_command(draw());
    assert_eq!(s.passes().last().unwrap().color_load(), ColorLoad::DontCare);
}

#[test]
fn retired_depth_is_unbound() {
    let mut s = frame();
    s.set_depth_stencil_attachment(201, (640, 480), true, false);
    assert!(s.current_depth_is_sampleable());
    assert!(s.is_depth_handle_sampleable(201));
    s.retire_depth_texture(201);
    assert_eq!(s.current_depth_texture(), 0);
    assert!(!s.is_depth_handle_sampleable(201));
    assert!(!s.pass_binds_depth());
}

#[test]
fn srgb_views_are_attached_where_there_is_one() {
    let mut s = frame();
    s.set_srgb_write_enabled(true);
    assert!(!s.pass_srgb_write());
    s.register_srgb_twin(101, BACK);
    s.set_srgb_write_enabled(true);
    assert!(s.pass_srgb_write());
    assert_eq!(s.current_color_format(), PixelFormat::Bgra8UnormSrgb);
    s.emit_command(draw());
    assert_eq!(s.passes()[0].color_attachment_texture(), 101);
    assert_eq!(s.passes()[0].color_format(), PixelFormat::Bgra8UnormSrgb);
    s.unregister_srgb_twin(101);
    s.set_srgb_write_enabled(false);
    assert!(!s.pass_srgb_write());
}

#[test]
fn sampling_a_view_samples_its_texture() {
    let mut s = frame();
    s.register_srgb_twin(301, 300);
    s.emit_command(sample(301));
    assert!(s.texture_sampled_this_frame(300));
    assert!(s.texture_sampled_this_frame(301));
}

#[test]
fn frames_keep_what_outlives_them() {
    let mut s = frame();
    s.emit_command(draw());
    s.reset_frame(&FrameReset { continues_frame: true, ..reset() });
    assert_eq!(s.passes().len(), 0);
    assert_eq!(s.viewport(), (0, 0, 640, 480));
    s.emit_command(draw());
    assert_eq!(s.passes()[0].color_load(), ColorLoad::Load);
    s.reset_frame(&reset());
    s.emit_command(draw());
    assert_eq!(s.passes()[0].color_load(), ColorLoad::DontCare);
}

#[test]
fn only_what_is_needed_later_is_stored() {
    let mut s = frame();
    target(&mut s, 300);
    s.emit_command(draw());
    target(&mut s, 301);
    s.emit_command(draw());
    target(&mut s, BACK);
    s.emit_command(sample(301));
    s.emit_command(draw());
    s.finalize_store_actions(false);
    assert_eq!(s.passes()[0].color_store(), StoreAction::DontCare);
    assert_eq!(s.passes()[1].color_store(), StoreAction::Store);
    assert_eq!(s.passes()[2].color_store(), StoreAction::Store);
    assert_eq!(s.passes()[0].depth_store(), StoreAction::Store);
    assert_eq!(s.passes()[2].depth_store(), StoreAction::DontCare);
}

#[test]
fn a_flush_stores_everything() {
    let mut s = frame();
    target(&mut s, 300);
    s.emit_command(draw());
    s.finalize_store_actions(true);
    assert_eq!(s.passes()[0].color_store(), StoreAction::Store);
    assert_eq!(s.passes()[0].depth_store(), StoreAction::Store);
}

#[test]
fn sampleable_depth_is_stored() {
    let mut s = frame();
    s.set_depth_stencil_attachment(201, (640, 480), true, false);
    s.emit_command(draw());
    s.finalize_store_actions(false);
    assert_eq!(s.passes()[0].depth_store(), StoreAction::Store);
    assert_eq!(s.passes()[0].depth_load(), DepthLoad::Load);
}

#[test]
fn what_the_next_user_clears_is_not_stored() {
    let mut s = flat_frame();
    target(&mut s, 300);
    s.emit_command(draw());
    target(&mut s, BACK);
    s.emit_command(draw());
    target(&mut s, 300);
    s.clear_color_legacy_break(0, 0, 0, 0);
    s.emit_command(draw());
    s.finalize_store_actions(false);
    assert_eq!(s.passes()[0].color_store(), StoreAction::DontCare);
    assert_eq!(s.passes()[1].color_store(), StoreAction::Store);
    assert_eq!(s.passes()[2].color_store(), StoreAction::DontCare);
}

#[test]
fn what_is_read_back_is_stored() {
    let mut s = flat_frame();
    target(&mut s, 300);
    s.emit_command(draw());
    s.note_color_read_back(300);
    s.finalize_store_actions(false);
    assert_eq!(s.passes()[0].color_store(), StoreAction::Store);
}

#[test]
fn multisampled_targets_are_resolved_by_their_last_pass() {
    let mut s = started(FrameReset {
        backbuffer_msaa: 110,
        backbuffer_sample_count: 4,
        depth_texture: 0,
        ..reset()
    });
    assert_eq!(s.current_color_sample_count(), 4);
    s.emit_command(draw());
    s.end_current_pass();
    s.emit_command(draw());
    s.finalize_store_actions(false);
    assert_eq!(s.passes()[0].color_attachment_texture(), 110);
    assert_eq!(s.passes()[0].color_resolve_texture(), 0);
    assert_eq!(s.passes()[1].color_resolve_texture(), BACK);
}

#[test]
fn clear_only_passes_fold_into_the_next_user() {
    let mut s = flat_frame();
    target(&mut s, 300);
    s.clear_color(5, 6, 7, 8);
    s.flush_pending_clears();
    target(&mut s, 301);
    s.emit_command(draw());
    target(&mut s, 300);
    s.emit_command(draw());
    assert_eq!(s.passes().len(), 3);
    let draws = draw_count(&s);
    s.coalesce_clear_only_passes();
    assert_eq!(s.passes().len(), 2);
    assert_eq!(s.passes()[0].color_texture(), 301);
    assert_eq!(s.passes()[1].color_texture(), 300);
    assert_eq!(s.passes()[1].color_load(), ColorLoad::Clear { r: 5, g: 6, b: 7, a: 8 });
    assert_eq!(draw_count(&s), draws);
}

#[test]
fn a_clear_does_not_pass_a_reader() {
    let mut s = flat_frame();
    target(&mut s, 300);
    s.clear_color(5, 6, 7, 8);
    s.flush_pending_clears();
    target(&mut s, 301);
    s.emit_command(sample(300));
    s.emit_command(draw());
    target(&mut s, 300);
    s.emit_command(draw());
    s.coalesce_clear_only_passes();
    assert_eq!(s.passes().len(), 3);
    assert_eq!(s.passes()[0].color_load(), ColorLoad::Clear { r: 5, g: 6, b: 7, a: 8 });
}

#[test]
fn passes_nobody_sees_are_dropped() {
    let mut s = flat_frame();
    target(&mut s, 300);
    s.clear_color(0, 0, 0, 0);
    s.flush_pending_clears();
    target(&mut s, BACK);
    s.emit_command(draw());
    s.finalize_store_actions(false);
    assert_eq!(s.passes()[0].color_store(), StoreAction::DontCare);
    s.cull_dead_clear_only_passes();
    assert_eq!(s.passes().len(), 1);
    assert_eq!(s.passes()[0].color_texture(), BACK);
    assert_eq!(draw_count(&s), 1);
}

#[test]
fn dead_colour_leaves_a_pass_that_only_clears() {
    let mut s = frame();
    target(&mut s, 300);
    s.clear_color(0, 0, 0, 0);
    s.clear_depth(0);
    s.flush_pending_clears();
    target(&mut s, BACK);
    s.emit_command(draw());
    s.finalize_store_actions(false);
    s.strip_dead_color_in_clear_only_passes();
    assert_eq!(s.passes()[0].color_texture(), 0);
    assert_eq!(s.passes()[0].depth_texture(), DEPTH);
    assert_eq!(s.passes()[1].color_texture(), BACK);
}

#[test]
fn masked_passes_lose_their_colour() {
    let mut s = frame();
    target(&mut s, 300);
    s.emit_command(command(CommandType::SetRenderPipelineState, 0, 10));
    s.note_draw_color_write_mask(0);
    s.emit_command(draw());
    assert!(!s.passes()[0].color_writes_observed());
    target(&mut s, BACK);
    s.emit_command(command(CommandType::SetRenderPipelineState, 0, 10));
    s.note_draw_color_write_mask(0xf);
    s.emit_command(draw());
    assert!(s.passes()[1].color_writes_observed());
    let mut alt: FxHashMap<u64, u64> = FxHashMap::default();
    alt.insert(10, 20);
    s.strip_color_from_no_color_draw_passes(&alt);
    assert_eq!(s.passes()[0].color_texture(), 0);
    assert_eq!(s.passes()[0].commands()[1], command(CommandType::SetRenderPipelineState, 0, 20));
    assert_eq!(s.passes()[0].commands()[2], draw());
    assert_eq!(s.passes()[1].color_texture(), BACK);
    assert_eq!(s.passes()[1].commands()[1], command(CommandType::SetRenderPipelineState, 0, 10));
}

#[test]
fn painted_clears_of_lost_colour_go_with_it() {
    let mut s = frame();
    target(&mut s, 300);
    s.emit_command(command(CommandType::SetRenderPipelineState, 0, 10));
    s.emit_command(draw());
    let start = s.open_color_clear_quad_block();
    s.emit_command(command(CommandType::SetRenderPipelineState, 0, 99));
    s.emit_command(draw());
    s.close_color_clear_quad_block(start);
    assert_eq!(s.passes()[0].color_clear_quad_ranges(), &[(start, start + 2)][..]);
    let mut alt: FxHashMap<u64, u64> = FxHashMap::default();
    alt.insert(10, 20);
    s.strip_color_from_no_color_draw_passes(&alt);
    assert_eq!(s.passes()[0].color_texture(), 0);
    assert_eq!(s.passes()[0].commands().len(), 3);
    assert_eq!(draw_count(&s), 1);
}

#[test]
fn independent_passes_are_merged() {
    let mut s = flat_frame();
    target(&mut s, 300);
    s.emit_command(draw());
    target(&mut s, 301);
    s.emit_command(draw());
    target(&mut s, 300);
    s.emit_command(draw());
    s.merge_independent_draw_passes();
    assert_eq!(s.passes().len(), 2);
    assert_eq!(s.passes()[0].color_texture(), 300);
    let viewport = Command::set_viewport(0, 0, 640, 480, 0, F32_ONE);
    assert_eq!(
        s.passes()[0].commands(),
        &[
            viewport,
            draw(),
            Command::set_blend_color(F32_ONE, F32_ONE, F32_ONE, F32_ONE),
            Command::set_depth_bias(0, 0),
            Command::set_stencil_reference(0),
            viewport,
            draw(),
        ][..]
    );
    assert_eq!(draw_count(&s), 3);
}

#[test]
fn passes_do_not_move_across_what_they_depend_on() {
    let mut s = flat_frame();
    target(&mut s, 300);
    s.emit_command(draw());
    target(&mut s, 301);
    s.emit_command(sample(300));
    s.emit_command(draw());
    target(&mut s, 300);
    s.emit_command(draw());
    s.merge_independent_draw_passes();
    assert_eq!(s.passes().len(), 3);
}

#[test]
fn uploads_come_before_everything() {
    let mut s = frame();
    s.emit_command(draw());
    let upload = UploadPassTarget {
        texture: 400,
        subresource: (0, 1),
        size: (64, 64),
        format: PixelFormat::Rgba8Unorm,
        rect: (0, 0, 64, 64),
    };
    s.push_upload_pass(&upload, &[draw()]);
    s.push_upload_pass(&UploadPassTarget { rect: (8, 8, 8, 8), ..upload }, &[draw()]);
    assert_eq!(s.passes().len(), 3);
    assert_eq!(s.passes()[0].color_texture(), 400);
    assert_eq!(s.passes()[0].color_level(), 1);
    assert_eq!(s.passes()[0].color_slice(), 0);
    assert_eq!(s.passes()[0].color_load(), ColorLoad::DontCare);
    assert_eq!(s.passes()[1].color_load(), ColorLoad::Load);
    assert_eq!(s.passes()[1].viewport(), (8, 8, 8, 8));
    assert_eq!(s.passes()[2].color_texture(), BACK);
    assert_eq!(s.current_pass_index(), 2);
}

#[test]
fn blits_run_before_the_next_pass() {
    let mut s = frame();
    let blit = BlitCommand {
        cmd: BlitCommandType::CopyTextureToTexture,
        src_handle: 500,
        dst_handle: BACK,
    };
    s.push_pending_leading_blit(blit);
    s.emit_command(draw());
    assert_eq!(s.passes()[0].leading_blits(), &[blit][..]);
    // What a blit wrote is content, so the first use loads it.
    assert_eq!(s.passes()[0].color_load(), ColorLoad::Load);
    s.push_pending_leading_blit(blit);
    assert_eq!(s.take_pending_leading_blits(), vec![blit]);
    assert_eq!(s.take_pending_leading_blits(), vec![]);
}

#[test]
fn depth_is_resolved_in_a_pass() {
    let mut s = frame();
    s.emit_command(draw());
    assert!(s.resolve_depth_attachment(600, DepthResolveFilter::Max));
    let resolve = DepthResolve {
        source: 201,
        level: 0,
        size: (16, 16),
        destination: 601,
        filter: DepthResolveFilter::Min,
        source_is_sampleable: true,
    };
    assert!(s.resolve_depth_texture(&resolve));
    let p = s.passes().last().unwrap();
    assert_eq!(p.depth_texture(), 201);
    assert_eq!(p.depth_resolve_texture(), 601);
    assert_eq!(p.depth_resolve_filter(), DepthResolveFilter::Min);
    assert_eq!(p.commands().len(), 0);
    assert!(!s.resolve_depth_texture(&DepthResolve { destination: 0, ..resolve }));
}

#[test]
fn cascades_are_counted_while_the_probe_is_on() {
    let mut s = frame();
    s.set_cascade_probe(true);
    s.set_depth_stencil_attachment(210, (64, 64), true, false);
    s.note_caster_draw(210);
    s.note_caster_draw(210);
    s.set_depth_stencil_attachment(205, (64, 64), true, false);
    s.emit_command(sample(205));
    s.emit_command(sample(210));
    assert_eq!(s.take_cascade_frame_summary(), (1, vec![(205, 0, 1), (210, 2, 1)]));
    assert_eq!(s.take_cascade_frame_summary(), (1, vec![]));
}

#[test]
fn drawn_ranges_are_remembered() {
    let mut s = frame();
    s.note_draw_range(7, 100, 50, 1000);
    assert!(s.drawn_range_overlaps(7, 149, 200));
    assert!(!s.drawn_range_overlaps(7, 150, 200));
    assert!(!s.drawn_range_overlaps(8, 0, 1000));
    s.note_draw_range(7, 900, 0, 1000);
    assert!(s.drawn_range_overlaps(7, 999, 1000));
    s.clear_drawn_range(7);
    assert!(!s.drawn_range_overlaps(7, 0, 1000));
}

#[test]
fn command_vectors_are_reused() {
    let mut s = frame();
    s.emit_command(draw());
    assert!(s.cmd_vec_capacity_bytes() > 0);
    let mut taken = s.take_finished_passes();
    assert_eq!(taken.len(), 1);
    s.recycle_passes(&mut taken);
    assert_eq!(taken.len(), 0);
    s.take_cmd_vec_realloc_bytes();
    assert_eq!(s.take_cmd_vec_realloc_bytes(), 0);
}

#[test]
fn a_scaled_target_scales_its_rectangles() {
    let mut s = started(FrameReset { render_scale: RenderScale::from_percent(50), ..reset() });
    assert_eq!(s.current_color_size(), (320, 240));
    assert_eq!(s.current_color_logical_size(), (640, 480));
    assert_eq!(s.effective_viewport(), (0, 0, 320, 240));
    assert_eq!(s.resolved_scissor_rect(true, [10, 20, 100, 200]), (5, 10, 50, 100));
    assert_eq!(s.resolved_scissor_rect(true, [10, 20, 0, 200]), (0, 0, 320, 240));
    assert_eq!(s.resolved_scissor_rect(false, [10, 20, 100, 200]), (0, 0, 320, 240));
    assert!(s.scale_wasted(640, 480, RenderScale::identity()));
    assert!(s.scale_wasted(576, 432, RenderScale::identity()));
    assert!(!s.scale_wasted(575, 432, RenderScale::identity()));
    assert!(!s.scale_wasted(640, 480, RenderScale::from_percent(50)));
    s.set_viewport(0, 0, 320, 480, 0, F32_ONE);
    assert!(!s.viewport_covers_color_attachment());
}

#[test]
fn scales_round_down_but_not_to_nothing() {
    let half = RenderScale::from_percent(50);
    assert_eq!(half.dimension(101), 50);
    assert_eq!(half.dimension(1), 1);
    assert_eq!(half.dimension(0), 0);
    assert_eq!(half.rect(3, 5, 7, 1), (1, 2, 3, 0));
    assert_eq!(RenderScale::from_percent(0).percent(), 1);
    assert_eq!(RenderScale::from_percent(250).percent(), 100);
    assert_eq!(RenderScale::identity().rect(3, 5, 7, 1), (3, 5, 7, 1));
}

#[test]
fn dirty_ranges_grow() {
    let mut r = DirtyRange::empty();
    assert!(!r.overlaps(0, u32::MAX));
    r.conjoin(10, 5, 100);
    r.conjoin(50, 500, 100);
    assert_eq!(r, DirtyRange { start: 10, end: 100 });
    r.conjoin(200, 5, 100);
    assert_eq!(r, DirtyRange { start: 10, end: 100 });
}

#[test]
fn binds_are_repeated_only_when_they_change() {
    let mut c = LastBoundCache::new();
    assert!(c.pipeline_changed(5));
    assert!(!c.pipeline_changed(5));
    assert!(c.cull_mode_changed(CullMode::Back));
    assert!(!c.cull_mode_changed(CullMode::Back));
    assert!(c.scissor_rect_changed((0, 0, 1, 1)));
    assert!(!c.scissor_rect_changed((0, 0, 1, 1)));
    assert!(c.fragment_texture_changed(15, 9));
    assert!(!c.fragment_texture_changed(15, 9));
    assert!(c.vs_constants_changed(&[1, 2, 3]));
    assert!(!c.vs_constants_changed(&[1, 2, 3]));
    assert!(c.vs_constants_changed(&[1, 2, 4]));
    c.reset();
    assert!(c.pipeline_changed(5));
    assert!(c.vs_constants_changed(&[1, 2, 4]));
}

#[test]
fn a_buffer_handle_that_is_reused_is_bound_again() {
    let mut c = LastBoundCache::new();
    assert_eq!(c.vertex_buffer_changed(0, 7, 0, 1), VertexBufferBind::Changed);
    assert_eq!(c.vertex_buffer_changed(0, 7, 0, 1), VertexBufferBind::Same);
    assert_eq!(c.vertex_buffer_changed(0, 7, 0, 2), VertexBufferBind::ReusedHandle);
    assert_eq!(c.vertex_buffer_changed(0, 7, 4, 2), VertexBufferBind::Changed);
    c.invalidate_vertex_buffer_slot(0);
    assert_eq!(c.vertex_buffer_changed(0, 7, 4, 2), VertexBufferBind::Changed);
    c.invalidate_vertex_buffer();
    assert_eq!(c.vertex_buffer_changed(0, 7, 4, 2), VertexBufferBind::Changed);
}

#[test]
fn gated_binds_agree_with_what_was_emitted() {
    let mut c = LastBoundCache::new();
    let mut shadow = DebugBoundShadow::new();
    assert!(c.in_sync(&shadow));
    let bind = sample(77);
    assert!(c.fragment_texture_changed(0, 77));
    shadow.record(&bind);
    assert!(c.in_sync(&shadow));
    shadow.record(&sample(78));
    assert!(!c.in_sync(&shadow));
}

#[test]
fn stand_ins_have_handles_of_their_own() {
    assert_eq!(null_texture_tex_sentinel(0), u64::MAX);
    assert_eq!(null_texture_tex_sentinel(3), u64::MAX - 3);
    assert_eq!(sampler_cache_key(0), NULL_TEXTURE_SAMPLER_SENTINEL);
    assert_eq!(sampler_cache_key(5), 5);
}

#[test]
fn occupied_bytes_are_added_up() {
    assert_eq!(occupied_bytes(&[64, 3], 40), 67 * 40);
    assert_eq!(occupied_bytes(&[], 40), 0);
    assert_eq!(occupied_bytes(&[usize::MAX, 1], 2), u64::MAX);
}

#[test]
fn painted_clears_move_with_their_commands() {
    let mut s = flat_frame();
    target(&mut s, 300);
    s.emit_command(draw());
    let start = s.open_color_clear_quad_block();
    s.emit_command(draw());
    s.close_color_clear_quad_block(start);
    target(&mut s, 301);
    s.emit_command(draw());
    target(&mut s, 300);
    let start = s.open_color_clear_quad_block();
    s.emit_command(draw());
    s.close_color_clear_quad_block(start);
    // A block that begins behind the commands is none.
    s.close_color_clear_quad_block(100);
    s.merge_independent_draw_passes();
    assert_eq!(s.passes().len(), 2);
    assert_eq!(s.passes()[0].commands().len(), 8);
    assert_eq!(s.passes()[0].color_clear_quad_ranges(), &[(2, 3), (7, 8)][..]);
}
