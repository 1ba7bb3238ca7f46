use rust_game::constants::MAX_FRAMES_IN_FLIGHT;
use rust_game::frame_loop::{Action, Event, FrameLoop, Phase};
use rust_game::resources::{rebuild_plan, Capabilities, RebuildStep, ResourceKind};

fn caps() -> Capabilities {
    Capabilities { has_depth: false, has_texture: true, has_model: false, validation: true }
}

/// Runs one tick in which everything succeeds; returns the actions issued.
fn steady_tick(l: &mut FrameLoop, delta_micros: u32, image: u32) -> Vec<Action> {
    let mut out = vec![l.begin_tick(delta_micros).unwrap()];
    let events = [
        Event::FenceSignaled,
        Event::Acquired { image, suboptimal: false },
        Event::TransformWritten,
        Event::Submitted,
        Event::Presented { suboptimal: false },
    ];
    for e in events.iter() {
        let a = l.step(*e).unwrap();
        out.push(a);
        if a == Action::Done {
            break;
        }
    }
    while *out.last().unwrap() != Action::Done {
        out.push(l.step(Event::StepDone).unwrap());
    }
    out
}

fn rebuild_actions(c: Capabilities) -> Vec<Action> {
    rebuild_plan(c).into_iter().map(Action::Rebuild).collect()
}

#[test]
fn slot_index_is_tick_count_modulo_flight_count() {
    let mut l = FrameLoop::new(caps());
    for n in 0..7usize {
        assert_eq!(l.current_frame(), n % MAX_FRAMES_IN_FLIGHT);
        steady_tick(&mut l, 16_000, (n % 3) as u32);
    }
    assert_eq!(l.current_frame(), 7 % MAX_FRAMES_IN_FLIGHT);
}

#[test]
fn two_ticks_return_to_slot_zero() {
    assert_eq!(MAX_FRAMES_IN_FLIGHT, 2);
    let mut l = FrameLoop::new(caps());
    let t0 = steady_tick(&mut l, 1000, 0);
    assert_eq!(t0[0], Action::WaitFence { slot: 0 });
    assert_eq!(t0[3], Action::Submit { image: 0, slot: 0 });
    let t1 = steady_tick(&mut l, 1000, 1);
    assert_eq!(t1[0], Action::WaitFence { slot: 1 });
    assert_eq!(l.current_frame(), 0);
    // the next tick waits on the marker that tick 0's submission armed
    let t2 = steady_tick(&mut l, 1000, 2);
    assert_eq!(t2[0], Action::WaitFence { slot: 0 });
}

#[test]
fn wait_precedes_every_submission_on_its_slot() {
    let mut l = FrameLoop::new(caps());
    let mut all = Vec::new();
    for n in 0..5u32 {
        all.extend(steady_tick(&mut l, 500, n % 3));
    }
    for (i, a) in all.iter().enumerate() {
        if let Action::Submit { slot, .. } = a {
            assert!(i >= 3);
            assert_eq!(all[i - 3], Action::WaitFence { slot: *slot });
            assert_eq!(all[i - 2], Action::AcquireImage { slot: *slot });
        }
    }
}

#[test]
fn steady_tick_issues_render_actions_in_order() {
    let mut l = FrameLoop::new(caps());
    let t = steady_tick(&mut l, 0, 2);
    assert_eq!(
        t,
        vec![
            Action::WaitFence { slot: 0 },
            Action::AcquireImage { slot: 0 },
            Action::WriteTransform { image: 2, rotation: 90_000_000 },
            Action::Submit { image: 2, slot: 0 },
            Action::Present { image: 2, slot: 0 },
            Action::Done,
        ]
    );
    assert_eq!(l.phase(), Phase::Idle);
}

#[test]
fn stale_acquire_skips_submission_and_keeps_slot() {
    let mut l = FrameLoop::new(caps());
    steady_tick(&mut l, 1000, 0);
    assert_eq!(l.current_frame(), 1);
    let rotation = l.rotation();
    let mut out = vec![l.begin_tick(1000).unwrap()];
    out.push(l.step(Event::FenceSignaled).unwrap());
    out.push(l.step(Event::AcquireStale).unwrap());
    while *out.last().unwrap() != Action::Done {
        out.push(l.step(Event::StepDone).unwrap());
    }
    let mut expected = vec![Action::WaitFence { slot: 1 }, Action::AcquireImage { slot: 1 }];
    expected.extend(rebuild_actions(caps()));
    expected.push(Action::Done);
    assert_eq!(out, expected);
    assert!(!out.iter().any(|a| matches!(a, Action::Submit { .. } | Action::Present { .. })));
    assert_eq!(l.current_frame(), 1);
    assert_eq!(l.rotation(), rotation);
}

#[test]
fn resize_notification_rebuilds_once() {
    let mut l = FrameLoop::new(caps());
    steady_tick(&mut l, 1000, 0);
    l.notify_resize();
    assert!(l.resize_pending());
    let t = steady_tick(&mut l, 1000, 1);
    let idle_waits = t.iter().filter(|a| **a == Action::Rebuild(RebuildStep::WaitIdle)).count();
    assert_eq!(idle_waits, 1);
    assert!(!t.iter().any(|a| matches!(
        a,
        Action::Rebuild(RebuildStep::Destroy(ResourceKind::SyncObjects))
            | Action::Rebuild(RebuildStep::Create(ResourceKind::SyncObjects))
    )));
    let mut expected = vec![
        Action::WaitFence { slot: 1 },
        Action::AcquireImage { slot: 1 },
        Action::WriteTransform { image: 1, rotation: 90_180_000 },
        Action::Submit { image: 1, slot: 1 },
        Action::Present { image: 1, slot: 1 },
    ];
    expected.extend(rebuild_actions(caps()));
    expected.push(Action::Done);
    assert_eq!(t, expected);
    assert!(!l.resize_pending());
    assert_eq!(l.current_frame(), 0);
    // the following tick is steady again
    let t2 = steady_tick(&mut l, 1000, 0);
    assert_eq!(t2.len(), 6);
    assert_eq!(l.current_frame(), 1);
}

#[test]
fn suboptimal_or_stale_present_rebuilds() {
    for e in [Event::Presented { suboptimal: true }, Event::PresentStale].iter() {
        let mut l = FrameLoop::new(caps());
        l.begin_tick(10).unwrap();
        l.step(Event::FenceSignaled).unwrap();
        l.step(Event::Acquired { image: 0, suboptimal: true }).unwrap();
        l.step(Event::TransformWritten).unwrap();
        l.step(Event::Submitted).unwrap();
        assert_eq!(l.step(*e), Some(Action::Rebuild(RebuildStep::WaitIdle)));
        let mut n = 1;
        loop {
            let a = l.step(Event::StepDone).unwrap();
            if a == Action::Done {
                break;
            }
            n += 1;
        }
        assert_eq!(n, rebuild_plan(caps()).len());
        assert_eq!(l.current_frame(), 1);
    }
}

#[test]
fn events_out_of_turn_are_refused() {
    let mut l = FrameLoop::new(caps());
    assert_eq!(l.step(Event::FenceSignaled), None);
    assert_eq!(l.begin_tick(5), Some(Action::WaitFence { slot: 0 }));
    assert_eq!(l.begin_tick(5), None);
    assert_eq!(l.step(Event::Submitted), None);
    assert_eq!(l.phase(), Phase::AwaitFence { delta_micros: 5 });
    assert_eq!(l.step(Event::FenceSignaled), Some(Action::AcquireImage { slot: 0 }));
}

#[test]
fn one_second_adds_a_quarter_turn() {
    let mut l = FrameLoop::new(caps());
    assert_eq!(l.rotation(), 90_000_000);
    let t = steady_tick(&mut l, 1_000_000, 0);
    assert_eq!(t[2], Action::WriteTransform { image: 0, rotation: 180_000_000 });
    assert_eq!(l.rotation(), 180_000_000);
}
