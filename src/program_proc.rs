use vstd::prelude::*;

verus! {

/// The window-system notifications the program reacts to.
#[derive(Clone, Copy, Debug, PartialEq, Eq, Structural)]
pub enum WindowSignal {
    CloseRequested,
    KeyboardInput { escape: bool, pressed: bool },
    Resized,
    MainEventsCleared,
    RedrawRequested,
    LoopDestroyed,
    Other,
}

/// What the event loop does in answer to a notification.
#[derive(Clone, Copy, Debug, PartialEq, Eq, Structural)]
pub enum Response {
    Nothing,
    /// Wait for the device to go idle, then leave the loop.
    WaitIdleAndExit,
    /// Wait for the device to go idle, then tell the frame loop of the resize.
    WaitIdleAndNotifyResize,
    RequestRedraw,
    /// Run one tick of the frame loop.
    DrawFrame,
    WaitIdle,
}

/// The event loop's answer to each notification: closing the window or
/// pressing escape ends the program after an idle wait, a resize is passed
/// on to the frame loop, and each redraw runs one tick.
pub fn respond(signal: WindowSignal) -> (r: Response)
    ensures
        r == match signal {
            WindowSignal::CloseRequested => Response::WaitIdleAndExit,
            WindowSignal::KeyboardInput { escape, pressed } => if escape && pressed {
                Response::WaitIdleAndExit
            } else {
                Response::Nothing
            },
            WindowSignal::Resized => Response::WaitIdleAndNotifyResize,
            WindowSignal::MainEventsCleared => Response::RequestRedraw,
            WindowSignal::RedrawRequested => Response::DrawFrame,
            WindowSignal::LoopDestroyed => Response::WaitIdle,
            WindowSignal::Other => Response::Nothing,
        },
{
    match signal {
        WindowSignal::CloseRequested => Response::WaitIdleAndExit,
        WindowSignal::KeyboardInput { escape, pressed } => {
            if escape && pressed {
                Response::WaitIdleAndExit
            } else {
                Response::Nothing
            }
        },
        WindowSignal::Resized => Response::WaitIdleAndNotifyResize,
        WindowSignal::MainEventsCleared => Response::RequestRedraw,
        WindowSignal::RedrawRequested => Response::DrawFrame,
        WindowSignal::LoopDestroyed => Response::WaitIdle,
        WindowSignal::Other => Response::Nothing,
    }
}

} // verus!
