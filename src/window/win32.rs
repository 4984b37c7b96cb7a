use vstd::prelude::*;
use crate::io::{text_with_uuid, uuid_text, LiquidError, LiquidErrorKind};
use crate::liquid_engine::{drained, Event};
use crate::window::{closes_program, CreateWindowInfo};

verus! {

pub const WM_CREATE: u32 = 0x0001;
pub const WM_CLOSE: u32 = 0x0010;
pub const WM_QUIT: u32 = 0x0012;
pub const WM_GETMINMAXINFO: u32 = 0x0024;
pub const WM_NCCREATE: u32 = 0x0081;
pub const WM_NCCALCSIZE: u32 = 0x0083;

/// The context a window procedure reads back from the native window's user
/// data. The event queue it feeds is shared separately.
#[derive(Clone, Copy, Debug, PartialEq, Eq, Structural)]
pub struct WinProcData {
    pub window_id: u128,
    pub close_exits_program: bool,
}

impl WinProcData {
    pub fn new(window_id: u128, close_exits_program: bool) -> (r: WinProcData)
        ensures
            r.window_id == window_id,
            r.close_exits_program == close_exits_program,
    {
        WinProcData { window_id, close_exits_program }
    }
}

/// A Win32 window: its native handles, held as the integers the OS hands out,
/// and its heap-allocated callback context.
#[derive(Debug)]
pub struct LiquidWindowWin32 {
    pub window_handle: isize,
    pub instance: isize,
    pub proc_data: Box<WinProcData>,
}

/// What the OS answered when asked to register the class and create the window.
#[derive(Clone, Copy, Debug, PartialEq, Eq, Structural)]
pub enum NativeCreation {
    ClassRejected,
    WindowRejected,
    Created { window_handle: isize, instance: isize },
}

impl LiquidWindowWin32 {
    /// Builds the window `uuid` around what the OS answered. A window with a
    /// parent never ends the program when closed, whatever was asked.
    pub fn new(uuid: u128, create_window_info: &CreateWindowInfo, native: NativeCreation) -> (r:
        Result<LiquidWindowWin32, LiquidError>)
        ensures
            native == NativeCreation::ClassRejected ==> (r matches Err(e) && e.kind
                == LiquidErrorKind::ClassRegistration(uuid) && e.msg@ == "Unable to register class: "@
                + uuid_text(uuid)),
            native == NativeCreation::WindowRejected ==> (r matches Err(e) && e.kind
                == LiquidErrorKind::WindowCreation(uuid) && e.msg@ == "Unable to create window: "@
                + uuid_text(uuid)),
            native matches NativeCreation::Created { window_handle, instance } ==> (r matches Ok(w)
                && w.window_handle == window_handle && w.instance == instance
                && w.proc_data.window_id == uuid && w.proc_data.close_exits_program
                == closes_program(
                create_window_info.close_exits_program,
                create_window_info.parent_window,
            )),
    {
        match native {
            NativeCreation::ClassRejected => Err(
                LiquidError::at(
                    LiquidErrorKind::ClassRegistration(uuid),
                    text_with_uuid("Unable to register class: ", uuid).as_str(),
                    "src/window/win32.rs",
                    72,
                    17,
                ),
            ),
            NativeCreation::WindowRejected => Err(
                LiquidError::at(
                    LiquidErrorKind::WindowCreation(uuid),
                    text_with_uuid("Unable to create window: ", uuid).as_str(),
                    "src/window/win32.rs",
                    81,
                    17,
                ),
            ),
            NativeCreation::Created { window_handle, instance } => {
                let should_window_close_program = match create_window_info.parent_window {
                    Some(_) => false,
                    None => create_window_info.close_exits_program,
                };
                Ok(
                    LiquidWindowWin32 {
                        window_handle,
                        instance,
                        proc_data: Box::new(WinProcData::new(uuid, should_window_close_program)),
                    },
                )
            },
        }
    }

    /// One turn of the Win32 message loop: `GetMessageW` reports zero when it
    /// retrieved the quit signal, and the loop stops there; any other report
    /// dispatches.
    pub fn message_pump(get_message_result: i32) -> (r: PumpStep)
        ensures
            r == (if get_message_result == 0 { PumpStep::Quit } else { PumpStep::Dispatch }),
    {
        if get_message_result == 0 {
            PumpStep::Quit
        } else {
            PumpStep::Dispatch
        }
    }
}

/// What the native message loop does with the value the OS returned when asked
/// for the next message.
#[derive(Clone, Copy, Debug, PartialEq, Eq, Structural)]
pub enum PumpStep {
    /// Translate and dispatch the retrieved message, then ask again.
    Dispatch,
    /// The quit signal was retrieved: the loop returns.
    Quit,
}

/// One thing the window procedure does; a message yields a sequence of them,
/// carried out in order.
#[derive(Clone, Copy, Debug, PartialEq, Eq, Structural)]
pub enum NativeAction {
    /// Append the event to the shared queue.
    Push(Event),
    /// Post the quit signal to the message loop.
    PostQuit,
    /// Destroy the native window.
    DestroyWindow,
    /// Hand the message to the OS default procedure.
    DefaultHandling,
}

/// Messages that arrive while a window is being created, before its context is
/// installed.
pub open spec fn is_creation_message(u_msg: u32) -> bool {
    u_msg == WM_GETMINMAXINFO || u_msg == WM_NCCREATE || u_msg == WM_NCCALCSIZE || u_msg
        == WM_CREATE
}

/// Whether the procedure acts on the message itself rather than deferring to the OS.
pub open spec fn handled_here(context: Option<WinProcData>, u_msg: u32) -> bool {
    !is_creation_message(u_msg) && context is Some && (u_msg == WM_CLOSE || u_msg == WM_QUIT)
}

/// The events a close request of the window with context `c` produces.
pub open spec fn close_events(c: WinProcData) -> Seq<Event> {
    if c.close_exits_program {
        seq![Event::Close(c.window_id), Event::Exit]
    } else {
        seq![Event::Close(c.window_id)]
    }
}

/// The events the procedure queues for a message.
pub open spec fn message_events(context: Option<WinProcData>, u_msg: u32) -> Seq<Event> {
    if !handled_here(context, u_msg) {
        Seq::empty()
    } else if u_msg == WM_CLOSE {
        close_events(context.unwrap())
    } else {
        seq![Event::Exit]
    }
}

/// Whether the procedure posts the quit signal for a message.
pub open spec fn message_quits(context: Option<WinProcData>, u_msg: u32) -> bool {
    handled_here(context, u_msg) && u_msg == WM_CLOSE && context.unwrap().close_exits_program
}

/// The context as a value.
pub open spec fn read_back(context: Option<&WinProcData>) -> Option<WinProcData> {
    match context {
        Some(c) => Some(*c),
        None => None,
    }
}

/// What the procedure does for a message, in order: for a message it handles,
/// first queue its events, then post the quit signal where the window ends the
/// program, then destroy the window on a close request; anything else goes to
/// the OS default procedure.
pub open spec fn message_actions(context: Option<WinProcData>, u_msg: u32) -> Seq<NativeAction> {
    if !handled_here(context, u_msg) {
        seq![NativeAction::DefaultHandling]
    } else {
        message_events(context, u_msg).map_values(|e: Event| NativeAction::Push(e)) + (if message_quits(
            context,
            u_msg,
        ) {
            seq![NativeAction::PostQuit]
        } else {
            Seq::empty()
        }) + (if u_msg == WM_CLOSE {
            seq![NativeAction::DestroyWindow]
        } else {
            Seq::empty()
        })
    }
}

/// The window procedure's decision for message `u_msg`, given the context read
/// back from the window (`None` where none is installed yet). A close request
/// queues `Close`, then `Exit` and posts the quit signal if the window ends
/// the program, and then destroys the window; an already posted quit queues
/// `Exit`; everything else goes to the OS default procedure.
pub fn win_proc(context: Option<&WinProcData>, u_msg: u32) -> (r: Vec<NativeAction>)
    ensures
        r@ == message_actions(read_back(context), u_msg),
{
    let mut actions: Vec<NativeAction> = Vec::new();
    if u_msg == WM_GETMINMAXINFO || u_msg == WM_NCCREATE || u_msg == WM_NCCALCSIZE || u_msg
        == WM_CREATE {
        actions.push(NativeAction::DefaultHandling);
        proof {
            assert(actions@ =~= message_actions(read_back(context), u_msg));
        }
        return actions;
    }
    match context {
        None => {
            actions.push(NativeAction::DefaultHandling);
        },
        Some(data) => {
            if u_msg == WM_CLOSE {
                actions.push(NativeAction::Push(Event::Close(data.window_id)));
                if data.close_exits_program {
                    actions.push(NativeAction::Push(Event::Exit));
                    actions.push(NativeAction::PostQuit);
                }
                actions.push(NativeAction::DestroyWindow);
            } else if u_msg == WM_QUIT {
                actions.push(NativeAction::Push(Event::Exit));
            } else {
                actions.push(NativeAction::DefaultHandling);
            }
        },
    }
    proof {
        assert(actions@ =~= message_actions(read_back(context), u_msg));
    }
    actions
}

/// The context that `LiquidWindowWin32::new` installs for window `id` built from `info`.
pub open spec fn context_for(id: u128, info: CreateWindowInfo) -> WinProcData {
    WinProcData {
        window_id: id,
        close_exits_program: closes_program(info.close_exits_program, info.parent_window),
    }
}

/// Closing a window that was asked to end the program and has no parent makes
/// the next drain observe `Close(id)` and then `Exit`, after whatever was queued
/// before; the procedure queues both, then posts the quit signal, and only then
/// destroys the window.
pub proof fn lemma_program_window_close(id: u128, info: CreateWindowInfo, queue: Seq<Event>)
    requires
        info.close_exits_program,
        info.parent_window is None,
    ensures
        drained(queue + message_events(Some(context_for(id, info)), WM_CLOSE)).0 == queue
            + seq![Event::Close(id), Event::Exit],
        message_quits(Some(context_for(id, info)), WM_CLOSE),
        message_actions(Some(context_for(id, info)), WM_CLOSE) == seq![
            NativeAction::Push(Event::Close(id)),
            NativeAction::Push(Event::Exit),
            NativeAction::PostQuit,
            NativeAction::DestroyWindow,
        ],
{
    assert(message_actions(Some(context_for(id, info)), WM_CLOSE) =~= seq![
        NativeAction::Push(Event::Close(id)),
        NativeAction::Push(Event::Exit),
        NativeAction::PostQuit,
        NativeAction::DestroyWindow,
    ]);
}

/// A window with a parent never ends the program: whatever was asked, closing it
/// queues `Close(id)` alone, never `Exit`, posts no quit signal, and then
/// destroys the window.
pub proof fn lemma_child_window_close(id: u128, info: CreateWindowInfo)
    requires
        info.parent_window is Some,
    ensures
        !context_for(id, info).close_exits_program,
        message_events(Some(context_for(id, info)), WM_CLOSE) == seq![Event::Close(id)],
        !message_events(Some(context_for(id, info)), WM_CLOSE).contains(Event::Exit),
        !message_quits(Some(context_for(id, info)), WM_CLOSE),
        message_actions(Some(context_for(id, info)), WM_CLOSE) == seq![
            NativeAction::Push(Event::Close(id)),
            NativeAction::DestroyWindow,
        ],
{
    assert(message_actions(Some(context_for(id, info)), WM_CLOSE) =~= seq![
        NativeAction::Push(Event::Close(id)),
        NativeAction::DestroyWindow,
    ]);
    let evs = message_events(Some(context_for(id, info)), WM_CLOSE);
    assert(evs[0] != Event::Exit);
}

} // verus!
