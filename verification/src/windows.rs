//! What the closing and the destruction of a window lead to.

use vstd::prelude::*;

verus! {

/// The windows of the application.
#[derive(Clone, Copy, Debug, PartialEq, Eq)]
pub enum HyprWindow {
    Main,
    Control,
    Other,
}

/// What happened to a window.
#[derive(Clone, Copy, Debug, PartialEq, Eq)]
pub enum WindowEvent {
    CloseRequested,
    Destroyed,
    Other,
}

/// One step for the host to carry out.
#[derive(Clone, Copy, Debug, PartialEq, Eq)]
pub enum WindowAction {
    /// Report that the window's label names no window of the application.
    WarnUnknownWindow,
    /// Hide the window.
    Hide,
    /// Keep the window from closing.
    PreventClose,
    /// Forget the window.
    Forget(HyprWindow),
    /// Tell the user interface that the window is gone.
    EmitDestroyed(HyprWindow),
    /// Take note that the main window is not visible.
    MainWindowHidden,
}

/// The steps taken before the attempt to hide a window that is asked to
/// close: the main window is hidden in place of being closed.
pub open spec fn close_plan(window: Option<HyprWindow>) -> Seq<WindowAction> {
    match window {
        None => seq![WindowAction::WarnUnknownWindow],
        Some(HyprWindow::Main) => seq![WindowAction::Hide],
        Some(_) => Seq::empty(),
    }
}

/// The steps taken once the attempt to hide the main window has been made:
/// where it went well the window is kept from closing.
pub open spec fn hidden_plan(hidden: bool) -> Seq<WindowAction> {
    if hidden {
        seq![WindowAction::PreventClose, WindowAction::MainWindowHidden]
    } else {
        Seq::empty()
    }
}

/// The steps taken when a window is gone.
pub open spec fn destroyed_plan(window: Option<HyprWindow>) -> Seq<WindowAction> {
    match window {
        None => seq![WindowAction::WarnUnknownWindow],
        Some(w) => seq![
            WindowAction::Forget(w),
            WindowAction::EmitDestroyed(w),
            WindowAction::MainWindowHidden,
        ],
    }
}

/// The steps an event of a window leads to. `window` is what the window's
/// label names, if anything.
pub fn on_window_event(event: WindowEvent, window: Option<HyprWindow>) -> (out: Vec<WindowAction>)
    ensures
        out@ == match event {
            WindowEvent::CloseRequested => close_plan(window),
            WindowEvent::Destroyed => destroyed_plan(window),
            WindowEvent::Other => Seq::<WindowAction>::empty(),
        },
{
    let mut out: Vec<WindowAction> = Vec::new();
    match event {
        WindowEvent::CloseRequested => match window {
            None => {
                out.push(WindowAction::WarnUnknownWindow);
            },
            Some(HyprWindow::Main) => {
                out.push(WindowAction::Hide);
            },
            Some(_) => {},
        },
        WindowEvent::Destroyed => match window {
            None => {
                out.push(WindowAction::WarnUnknownWindow);
            },
            Some(w) => {
                out.push(WindowAction::Forget(w));
                out.push(WindowAction::EmitDestroyed(w));
                out.push(WindowAction::MainWindowHidden);
            },
        },
        WindowEvent::Other => {},
    }
    assert(out@ =~= match event {
        WindowEvent::CloseRequested => close_plan(window),
        WindowEvent::Destroyed => destroyed_plan(window),
        WindowEvent::Other => Seq::<WindowAction>::empty(),
    });
    out
}

/// The steps taken once the attempt to hide the main window has been made.
pub fn after_hide(hidden: bool) -> (out: Vec<WindowAction>)
    ensures
        out@ == hidden_plan(hidden),
{
    let mut out: Vec<WindowAction> = Vec::new();
    if hidden {
        out.push(WindowAction::PreventClose);
        out.push(WindowAction::MainWindowHidden);
    }
    assert(out@ =~= hidden_plan(hidden));
    out
}

} // verus!
