use rust_game::program_proc::{respond, Response, WindowSignal};

#[test]
fn window_signals_map_to_responses() {
    assert_eq!(respond(WindowSignal::CloseRequested), Response::WaitIdleAndExit);
    assert_eq!(
        respond(WindowSignal::KeyboardInput { escape: true, pressed: true }),
        Response::WaitIdleAndExit
    );
    assert_eq!(respond(WindowSignal::KeyboardInput { escape: true, pressed: false }), Response::Nothing);
    assert_eq!(respond(WindowSignal::KeyboardInput { escape: false, pressed: true }), Response::Nothing);
    assert_eq!(respond(WindowSignal::Resized), Response::WaitIdleAndNotifyResize);
    assert_eq!(respond(WindowSignal::MainEventsCleared), Response::RequestRedraw);
    assert_eq!(respond(WindowSignal::RedrawRequested), Response::DrawFrame);
    assert_eq!(respond(WindowSignal::LoopDestroyed), Response::WaitIdle);
    assert_eq!(respond(WindowSignal::Other), Response::Nothing);
}
