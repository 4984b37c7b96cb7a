pub mod win32;

use vstd::prelude::*;
use crate::window::win32::LiquidWindowWin32;
pub use crate::window::win32::PumpStep;

verus! {

/// What a caller asks for when creating a window.
pub struct CreateWindowInfo {
    pub title: String,
    pub width: u32,
    pub height: u32,
    pub close_exits_program: bool,
    pub parent_window: Option<u128>,
}

/// Whether closing a window ends the program: only a window without a parent
/// can, and only if that was asked for.
pub open spec fn closes_program(close_exits_program: bool, parent_window: Option<u128>) -> bool {
    parent_window is None && close_exits_program
}

/// A native window owned by the engine, one variant per windowing backend.
#[derive(Debug)]
pub enum LiquidWindow {
    Win32(LiquidWindowWin32),
}

impl LiquidWindow {
    /// The identifier the window was registered under.
    pub open spec fn id(&self) -> u128 {
        match self {
            LiquidWindow::Win32(w) => w.proc_data.window_id,
        }
    }

    /// The native window handle and the owning-process handle.
    pub open spec fn handles(&self) -> (isize, isize) {
        match self {
            LiquidWindow::Win32(w) => (w.window_handle, w.instance),
        }
    }

    /// Whether closing this window ends the program.
    pub open spec fn ends_program(&self) -> bool {
        match self {
            LiquidWindow::Win32(w) => w.proc_data.close_exits_program,
        }
    }

    /// The callback context that the window procedure reads back.
    pub fn proc_data(&self) -> (r: &win32::WinProcData)
        ensures
            r.window_id == self.id(),
            r.close_exits_program == self.ends_program(),
    {
        match self {
            LiquidWindow::Win32(w) => &w.proc_data,
        }
    }
}

/// One turn of the blocking message loop: the OS reports zero when it retrieved
/// the quit signal, and the loop stops there; any other report dispatches.
pub fn message_pump(get_message_result: i32) -> (r: PumpStep)
    ensures
        r == (if get_message_result == 0 { PumpStep::Quit } else { PumpStep::Dispatch }),
{
    LiquidWindowWin32::message_pump(get_message_result)
}

} // verus!
