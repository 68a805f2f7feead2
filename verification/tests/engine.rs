use std::time::Duration;

use nyon::backend::{BackendKind, GraphicsBackend};
use nyon::input::{
    Action, InputState, KeyPress, NavigationAction, action_for_character, action_for_key,
    navigation_for_key,
};
use nyon::presentation::GraphicsQuality;
use nyon::quality::{GraphicsResourceState, resolve_quality};
use nyon::render::{
    INITIAL_VERTEX_CAPACITY, RendererError, SceneRendererError, UiRendererError, VERTEX_SIZE,
    check_capacity, check_device_buffer_limit, checked_next_power_of_two, vertex_upload_plan,
};
use nyon::time::FixedClock;

fn alpha(clock: &FixedClock) -> f32 {
    clock.remainder_nanos() as f32 / 1_000_000_000.0
}

#[test]
fn auto_and_high_fall_back_monotonically_when_optional_resources_are_missing() {
    for requested in [GraphicsQuality::Auto, GraphicsQuality::High] {
        assert_eq!(
            resolve_quality(requested, false).effective,
            GraphicsQuality::Low
        );
        assert_eq!(resolve_quality(requested, false).sample_count, 1);
        assert!(!resolve_quality(requested, false).bloom);
    }
    assert_eq!(resolve_quality(GraphicsQuality::Auto, true).sample_count, 4);
    assert!(resolve_quality(GraphicsQuality::High, true).bloom);
    assert_eq!(resolve_quality(GraphicsQuality::Low, true).sample_count, 1);
}

#[test]
fn injected_high_creation_failure_disables_high_for_the_device_epoch() {
    let mut resources = GraphicsResourceState::new(true);
    assert_eq!(
        resources.resolve(GraphicsQuality::Auto).effective,
        GraphicsQuality::High
    );

    resources.disable_high();
    for requested in [GraphicsQuality::Auto, GraphicsQuality::High] {
        let resolved = resources.resolve(requested);
        assert_eq!(resolved.effective, GraphicsQuality::Low);
        assert_eq!(resolved.sample_count, 1);
        assert!(!resolved.bloom);
    }

    resources.disable_high();
    assert!(!resources.high_available());
}

#[test]
fn resolved_quality_keeps_the_request_and_scales_particles() {
    let high = resolve_quality(GraphicsQuality::High, true);
    assert_eq!(high.requested, GraphicsQuality::High);
    assert_eq!(high.particle_divisor, 1);
    let low = resolve_quality(GraphicsQuality::Auto, false);
    assert_eq!(low.requested, GraphicsQuality::Auto);
    assert_eq!(low.particle_divisor, 4);
}

#[test]
fn upload_plan_rejects_vertex_counts_that_cannot_be_drawn() {
    let count = usize::try_from(u64::from(u32::MAX) + 1).unwrap();
    assert!(matches!(
        vertex_upload_plan(count, INITIAL_VERTEX_CAPACITY, u64::MAX),
        Err(RendererError::VertexCountTooLarge { .. })
    ));
}

#[test]
fn upload_plan_rejects_byte_ranges_above_the_device_limit() {
    let required = 10 * VERTEX_SIZE;
    assert!(matches!(
        vertex_upload_plan(10, INITIAL_VERTEX_CAPACITY, required - 1),
        Err(RendererError::VertexBufferLimitExceeded {
            required: actual,
            maximum,
        }) if actual == required && maximum == required - 1
    ));
}

#[test]
fn upload_plan_uses_checked_growth_and_an_exact_limit_fallback() {
    let required = 3 * VERTEX_SIZE;
    let power_of_two = required.checked_next_power_of_two().unwrap();

    let grown = vertex_upload_plan(3, INITIAL_VERTEX_CAPACITY, power_of_two).unwrap();
    assert_eq!(grown.new_capacity, Some(power_of_two));

    let exact = vertex_upload_plan(3, INITIAL_VERTEX_CAPACITY, required).unwrap();
    assert_eq!(exact.new_capacity, Some(required));
    assert_eq!(exact.vertex_count, 3);
    assert_eq!(exact.byte_len, required);
}

#[test]
fn upload_plan_keeps_a_sufficient_nonzero_buffer_for_an_empty_batch() {
    let plan = vertex_upload_plan(0, INITIAL_VERTEX_CAPACITY, u64::MAX).unwrap();
    assert_eq!(plan.vertex_count, 0);
    assert_eq!(plan.byte_len, 0);
    assert_eq!(plan.new_capacity, None);
}

#[test]
fn a_batch_that_fits_the_current_buffer_needs_no_growth() {
    let plan = vertex_upload_plan(1, INITIAL_VERTEX_CAPACITY, u64::MAX).unwrap();
    assert_eq!(plan.vertex_count, 1);
    assert_eq!(plan.byte_len, 36);
    assert_eq!(plan.new_capacity, None);

    let grown = vertex_upload_plan(2, INITIAL_VERTEX_CAPACITY, u64::MAX).unwrap();
    assert_eq!(grown.byte_len, 72);
    assert_eq!(grown.new_capacity, Some(128));
}

#[test]
fn next_power_of_two_matches_the_standard_library() {
    for value in [0u64, 1, 2, 3, 36, 108, 1 << 40, (1 << 63) - 1, 1 << 63] {
        assert_eq!(
            checked_next_power_of_two(value),
            value.checked_next_power_of_two()
        );
    }
    assert_eq!(checked_next_power_of_two((1 << 63) + 1), None);
    assert_eq!(checked_next_power_of_two(u64::MAX), None);
    assert_eq!(checked_next_power_of_two(108), Some(128));
}

#[test]
fn capacity_checks_refuse_only_what_exceeds_the_limit() {
    assert_eq!(check_capacity("planets", 4, 4), Ok(()));
    assert_eq!(
        check_capacity("planets", 5, 4),
        Err(SceneRendererError::InstanceCapacity {
            kind: "planets",
            actual: 5,
            maximum: 4,
        })
    );
    assert_eq!(check_device_buffer_limit("panels", 256, 256), Ok(()));
    assert_eq!(
        check_device_buffer_limit("panels", 257, 256),
        Err(UiRendererError::InstanceBufferLimitExceeded {
            kind: "panels",
            required: 257,
            maximum: 256,
        })
    );
}

#[test]
fn fixed_clock_clamps_long_frames_and_limits_work() {
    let mut clock = FixedClock::new(60, 15);
    clock.push_frame(Duration::from_secs(2));
    let mut steps = 0;
    while clock.take_step() {
        steps += 1;
    }
    assert_eq!(steps, 15);
    assert!((0.0..1.0).contains(&alpha(&clock)));
}

#[test]
fn exact_sixtieth_carries_rational_remainder() {
    let mut clock = FixedClock::new(60, 15);
    clock.push_frame(Duration::from_nanos(16_666_666));
    assert!(!clock.take_step());
    assert_eq!(alpha(&clock), 999_999_960.0 / 1_000_000_000.0);
    clock.push_frame(Duration::from_nanos(1));
    assert!(clock.take_step());
    assert_eq!(alpha(&clock), 20.0 / 1_000_000_000.0);
}

#[test]
fn clear_discards_pending_work_and_remainder() {
    let mut clock = FixedClock::new(60, 15);
    clock.push_frame(Duration::from_millis(100));
    clock.clear();
    assert!(!clock.take_step());
    assert_eq!(alpha(&clock), 0.0);
}

#[test]
fn a_clamped_frame_yields_a_quarter_second_of_steps() {
    let mut clock = FixedClock::new(60, 100);
    clock.push_frame(Duration::from_secs(10));
    let mut steps = 0;
    while clock.take_step() {
        steps += 1;
    }
    assert_eq!(steps, 15);
    assert_eq!(clock.remainder_nanos(), 0);
}

#[test]
fn pending_steps_never_pass_the_limit_across_frames() {
    let mut clock = FixedClock::new(60, 3);
    clock.push_frame_nanos(50_000_000);
    clock.push_frame_nanos(50_000_000);
    let mut steps = 0;
    while clock.take_step() {
        steps += 1;
    }
    assert_eq!(steps, 3);
}

#[test]
fn a_pressed_action_is_consumed_once() {
    let mut input = InputState::default();
    input.set_action(Action::Launch, true);
    assert!(input.take_pressed(Action::Launch));
    assert!(!input.take_pressed(Action::Launch));
}

#[test]
fn release_then_repress_creates_a_new_edge() {
    let mut input = InputState::default();
    input.set_action(Action::Launch, true);
    assert!(input.take_pressed(Action::Launch));
    input.set_action(Action::Launch, false);
    input.set_action(Action::Launch, true);
    assert!(input.take_pressed(Action::Launch));
}

#[test]
fn finish_frame_clears_only_edges_and_clicks() {
    let mut input = InputState::default();
    input.set_action(Action::Launch, true);
    input.left_clicked = true;
    input.right_clicked = true;
    input.finish_frame();
    assert!(!input.take_pressed(Action::Launch));
    assert!(!input.left_clicked);
    assert!(!input.right_clicked);
    input.set_action(Action::Launch, false);
    assert!(!input.take_pressed(Action::Launch));
}

#[test]
fn editor_text_ime_and_navigation_are_transient() {
    let mut input = InputState::default();
    input.push_text("A");
    input.set_ime_preedit("ST");
    input.commit_ime("ER");
    input.press_navigation(NavigationAction::TabForward);
    assert_eq!(input.take_text(), "AER");
    assert_eq!(input.ime_preedit(), "");
    assert!(input.take_navigation(NavigationAction::TabForward));
    assert!(!input.take_navigation(NavigationAction::TabForward));
    input.push_text("B");
    input.finish_frame();
    assert_eq!(input.take_text(), "");
}

#[test]
fn a_held_key_repeat_records_no_new_edge() {
    let mut input = InputState::default();
    input.set_action(Action::Pause, true);
    assert!(input.take_pressed(Action::Pause));
    input.set_action(Action::Pause, true);
    assert!(!input.take_pressed(Action::Pause));
}

#[test]
fn keys_map_to_actions_and_navigation() {
    assert_eq!(action_for_character('q'), Some(Action::Decrease));
    assert_eq!(action_for_character('E'), Some(Action::Increase));
    assert_eq!(action_for_character('x'), None);
    assert_eq!(action_for_key(KeyPress::Space), Some(Action::Launch));
    assert_eq!(action_for_key(KeyPress::Escape), Some(Action::Cancel));
    assert_eq!(action_for_key(KeyPress::F4), Some(Action::Scenario));
    assert_eq!(action_for_key(KeyPress::Tab), None);
    assert_eq!(
        navigation_for_key(KeyPress::Tab, true),
        Some(NavigationAction::TabBackward)
    );
    assert_eq!(
        navigation_for_key(KeyPress::Tab, false),
        Some(NavigationAction::TabForward)
    );
    assert_eq!(
        navigation_for_key(KeyPress::Space, false),
        Some(NavigationAction::Activate)
    );
    assert_eq!(navigation_for_key(KeyPress::F4, false), None);
}

#[test]
fn native_wgpu_backends_have_stable_diagnostic_labels() {
    let cases = [
        (GraphicsBackend::Metal, BackendKind::Metal, "METAL"),
        (GraphicsBackend::Dx12, BackendKind::Dx12, "DX12"),
        (GraphicsBackend::Vulkan, BackendKind::Vulkan, "VULKAN"),
        (GraphicsBackend::Gl, BackendKind::Gl, "GL"),
        (GraphicsBackend::BrowserWebGpu, BackendKind::WebGpu, "WEBGPU"),
    ];

    for (wgpu_backend, expected, label) in cases {
        let backend = BackendKind::from_wgpu(wgpu_backend);
        assert_eq!(backend, Some(expected));
        assert_eq!(expected.label(), label);
    }
    assert_eq!(BackendKind::from_wgpu(GraphicsBackend::Noop), None);
    assert!(!BackendKind::Gl.is_low_capability());
    assert!(BackendKind::WebGl2Low.is_low_capability());
    assert_eq!(BackendKind::WebGl2Low.label(), "WEBGL2 LOW");
}
