use nyon::durable_exit::{DurableExitAction, DurableExitState};
use nyon::lifecycle::{
    CompletionDecision, CompletionInbox, GpuStartup, SurfaceDecision, SurfaceState, has_presentable_extent, next_gpu_generation,
    requires_surface_targets, should_start_gpu_initialization, surface_decision,
};

#[test]
fn matching_generation_accepts_its_result() {
    let mut inbox = CompletionInbox::new();
    inbox.deliver(7, "current");

    assert_eq!(inbox.take(7), Some("current"));
}

#[test]
fn stale_generation_is_discarded_without_replacing_current() {
    let mut inbox = CompletionInbox::new();
    inbox.deliver(4, "stale");
    inbox.deliver(6, "current");

    let _ = inbox.take(4);
    assert_eq!(inbox.take(6), Some("current"));
}

#[test]
fn out_of_order_result_remains_pending_until_its_marker() {
    let mut inbox = CompletionInbox::new();
    inbox.deliver(12, "newer");
    inbox.deliver(11, "older");

    assert_eq!(inbox.take(11), Some("older"));
    assert_eq!(inbox.take(12), Some("newer"));
}

#[test]
fn suspend_invalidation_makes_old_completion_stale() {
    let active = 22;
    let invalidated = next_gpu_generation(active);
    let mut inbox = CompletionInbox::new();
    inbox.deliver(active, "completed after suspend");

    assert_ne!(active, invalidated);
    let _ = inbox.take(active);
    assert_eq!(inbox.take(invalidated), None);
}

#[test]
fn redundant_resume_does_not_start_a_second_initialization() {
    assert!(should_start_gpu_initialization(false, false));
    assert!(!should_start_gpu_initialization(true, false));
    assert!(!should_start_gpu_initialization(false, true));
    assert!(!should_start_gpu_initialization(true, true));
}

#[test]
fn durable_exit_waits_for_continue_selection_and_can_be_cancelled() {
    let mut state = DurableExitState::default();
    assert_eq!(state.request(true), DurableExitAction::PrepareWorkshop);
    assert!(state.is_pending());
    assert_eq!(state.request(true), DurableExitAction::Wait);
    assert_eq!(state.observe_workshop(false), DurableExitAction::Wait);
    assert!(state.cancel());
    assert!(!state.is_pending());

    assert_eq!(state.request(true), DurableExitAction::PrepareWorkshop);
    assert_eq!(state.observe_workshop(true), DurableExitAction::ExitNow);
    assert!(!state.is_pending());
    assert_eq!(state.request(false), DurableExitAction::ExitNow);
}

#[test]
fn zero_extent_suspends_surface_configuration() {
    assert!(!has_presentable_extent(0, 720));
    assert!(!has_presentable_extent(1280, 0));
    assert!(!has_presentable_extent(0, 0));
    assert!(has_presentable_extent(1, 1));
}

#[test]
fn zero_sized_targets_never_require_surface_dependent_resources() {
    assert!(!requires_surface_targets([0, 900]));
    assert!(!requires_surface_targets([1440, 0]));
    assert!(requires_surface_targets([1, 1]));
}

#[test]
fn surface_states_map_to_their_frame_decisions() {
    assert_eq!(surface_decision(SurfaceState::Success), SurfaceDecision::Render);
    assert_eq!(
        surface_decision(SurfaceState::Suboptimal),
        SurfaceDecision::RenderThenReconfigure
    );
    assert_eq!(surface_decision(SurfaceState::Timeout), SurfaceDecision::Skip);
    assert_eq!(surface_decision(SurfaceState::Occluded), SurfaceDecision::Skip);
    assert_eq!(surface_decision(SurfaceState::Outdated), SurfaceDecision::Reconfigure);
    assert_eq!(surface_decision(SurfaceState::Lost), SurfaceDecision::Recreate);
    assert_eq!(surface_decision(SurfaceState::Validation), SurfaceDecision::Fatal);
}

#[test]
fn gpu_generation_wraps_at_the_end_of_its_range() {
    assert_eq!(next_gpu_generation(0), 1);
    assert_eq!(next_gpu_generation(u64::MAX), 0);
}

#[test]
fn a_delivered_result_is_taken_once_and_clear_drops_the_rest() {
    let mut inbox = CompletionInbox::new();
    inbox.deliver(3, 30);
    inbox.deliver(3, 31);
    inbox.deliver(5, 50);
    assert_eq!(inbox.take(3), Some(31));
    assert_eq!(inbox.take(3), None);
    inbox.clear();
    assert_eq!(inbox.take(5), None);
}

#[test]
fn an_unsaved_exit_needs_a_saved_workshop_before_it_leaves() {
    let mut state = DurableExitState::default();
    assert_eq!(state.observe_workshop(true), DurableExitAction::Wait);
    assert!(!state.cancel());
    assert_eq!(state.request(true), DurableExitAction::PrepareWorkshop);
    assert_eq!(state.request(false), DurableExitAction::ExitNow);
    assert!(state.is_pending());
}

#[test]
fn gpu_startup_installs_only_the_current_generation() {
    let mut startup = GpuStartup::new();
    assert!(startup.should_start());
    let first = startup.begin();
    assert!(!startup.should_start());

    startup.suspend();
    assert_eq!(startup.complete(first, true), CompletionDecision::Stale);
    assert!(startup.should_start());

    let second = startup.begin();
    assert_ne!(first, second);
    assert_eq!(startup.complete(second, true), CompletionDecision::Install);
    assert_eq!(startup.installed(), 1);
    assert!(!startup.should_start());

    startup.suspend();
    let third = startup.begin();
    assert_eq!(startup.complete(third, false), CompletionDecision::Missing);
    startup.fail("GPU initialization completed without a result".to_string());
    startup.fail("later failure".to_string());
    assert_eq!(
        startup.take_fatal_message(),
        Some("GPU initialization completed without a result".to_string())
    );
    assert_eq!(startup.take_fatal_message(), None);
}
