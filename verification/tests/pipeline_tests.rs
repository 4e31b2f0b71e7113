use fluxcore_ng::pipeline::{RenderAction, RenderPhase, RenderPipeline, WindowDims};
use fluxcore_ng::scheduler::FrameScheduler;

fn settle_to_idle(p: &mut RenderPipeline, now: u64) -> u64 {
    let act = p.begin_frame(now);
    assert_eq!(act, RenderAction::RenderLow);
    let act = p.begin_frame(now + 501);
    assert_eq!(act, RenderAction::RenderFull);
    p.end_frame();
    assert_eq!(p.phase, RenderPhase::Idle);
    now + 501
}

#[test]
fn debounce_promotes_after_quiet_period() {
    let mut p = RenderPipeline::new();
    // a fresh pipeline is dirty; settle it
    let t = settle_to_idle(&mut p, 0);
    // a mutation makes it dirty, the next frame renders the proxy
    p.mark_dirty();
    assert_eq!(p.phase, RenderPhase::Dirty);
    let act = p.begin_frame(t + 100);
    assert_eq!(act, RenderAction::RenderLow);
    assert_eq!(p.phase, RenderPhase::LowResShown);
    assert!(p.composite_lowres());
    // within the debounce delay nothing further renders
    let act = p.begin_frame(t + 300);
    assert_eq!(act, RenderAction::NoRender);
    assert_eq!(p.phase, RenderPhase::LowResShown);
    // once the delay elapses without a new mutation, the full-resolution
    // render happens and the pipeline returns to idle
    let act = p.begin_frame(t + 100 + 501);
    assert_eq!(act, RenderAction::RenderFull);
    assert_eq!(p.phase, RenderPhase::Promoting);
    assert!(!p.composite_lowres());
    p.end_frame();
    assert_eq!(p.phase, RenderPhase::Idle);
}

#[test]
fn new_mutation_restarts_debounce_and_skips_promotion() {
    let mut p = RenderPipeline::new();
    let t = settle_to_idle(&mut p, 0);
    p.mark_dirty();
    let act = p.begin_frame(t + 100);
    assert_eq!(act, RenderAction::RenderLow);
    // a second mutation arrives before the delay elapses
    p.mark_dirty();
    assert_eq!(p.phase, RenderPhase::Dirty);
    let act = p.begin_frame(t + 400);
    assert_eq!(act, RenderAction::RenderLow);
    assert_eq!(p.lowres_since, t + 400);
    // the old deadline passing does not promote: the timer restarted
    let act = p.begin_frame(t + 700);
    assert_eq!(act, RenderAction::NoRender);
    assert_eq!(p.phase, RenderPhase::LowResShown);
    // only the new deadline does
    let act = p.begin_frame(t + 400 + 501);
    assert_eq!(act, RenderAction::RenderFull);
}

#[test]
fn lowres_dimensions_scale_by_factor() {
    let d = WindowDims { width: 800, height: 600 };
    let low = d.to_lowres();
    assert_eq!((low.width, low.height), (160, 120));
    let d2 = WindowDims { width: 403, height: 301 };
    let low2 = d2.to_lowres();
    assert_eq!((low2.width, low2.height), (80, 60));
}

#[test]
fn scheduler_caps_frame_rate() {
    let mut s = FrameScheduler::new(1000);
    // 20 ms of a 50 ms budget elapsed: sleep the remaining 30
    assert_eq!(s.wait_millis(1020), 30);
    assert_eq!(s.last_frame, 1050);
    // a slow frame sleeps nothing
    assert_eq!(s.wait_millis(1200), 0);
    assert_eq!(s.last_frame, 1200);
    // an instant frame sleeps the whole budget
    assert_eq!(s.wait_millis(1200), 50);
    assert_eq!(s.last_frame, 1250);
}
