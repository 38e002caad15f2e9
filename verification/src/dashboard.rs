//! The dashboard's loop: what each event does, and how the screen switches
//! between the widgets and a raw program (a shell, a log stream).
use vstd::prelude::*;
use crate::events::{Input, Keypress};
use crate::wipe::Area;

verus! {

/// The size of a terminal window.
#[derive(Debug, Clone, Copy, PartialEq, Eq, Structural)]
pub struct WindowSize {
    pub columns: u16,
    pub rows: u16,
    pub width: u16,
    pub height: u16,
}

/// The size a client reports for its window (columns, rows, then width and
/// height in pixels), each kept to its lower 16 bits.
pub fn window_size(columns: u32, rows: u32, width: u32, height: u32) -> (r: WindowSize)
    ensures
        r.columns == columns as u16,
        r.rows == rows as u16,
        r.width == width as u16,
        r.height == height as u16,
{
    WindowSize {
        columns: columns as u16,
        rows: rows as u16,
        width: width as u16,
        height: height as u16,
    }
}

/// The area the dashboard draws on: the whole window, from the top left.
pub fn screen_area(size: WindowSize) -> (r: Area)
    ensures
        r == (Area { x: 0, y: 0, width: size.columns, height: size.rows }),
{
    Area { x: 0, y: 0, width: size.columns, height: size.rows }
}

/// What the dashboard reacts to.
pub enum Event {
    Input(Input),
    Resize(WindowSize),
    Goto(Vec<String>),
    Error(String),
    Shutdown,
    Render,
    /// A raw program ended, with its error where it failed.
    Finished(Result<(), String>),
}

impl Event {
    /// The key of an input event.
    pub fn key(&self) -> (k: Option<&Keypress>)
        ensures
            match *self {
                Event::Input(i) => k matches Some(p) && *p == i.pressed(),
                _ => k is None,
            },
    {
        match self {
            Event::Input(i) => Some(i.key()),
            _ => None,
        }
    }
}

/// What a widget answers to an event. `R` is a raw program to hand the
/// screen to.
pub enum Broadcast<R> {
    Consumed,
    Ignored,
    Exited,
    Raw(R),
}

/// What the screen shows: the widgets (`W`), or a raw program (`R`) with
/// the widget to come back to.
pub enum Mode<W, R> {
    UI(W),
    Raw(R, W),
}

/// The mode once a raw program takes the screen: the widget that was shown
/// is kept to come back to.
pub open spec fn after_raw<W, R>(m: Mode<W, R>, raw: R) -> Mode<W, R> {
    match m {
        Mode::UI(w) => Mode::Raw(raw, w),
        Mode::Raw(_, w) => Mode::Raw(raw, w),
    }
}

/// The mode once the raw program is done: back to its widget.
pub open spec fn after_ui<W, R>(m: Mode<W, R>) -> Mode<W, R> {
    match m {
        Mode::Raw(_, w) => Mode::UI(w),
        Mode::UI(w) => Mode::UI(w),
    }
}

impl<W, R> Mode<W, R> {
    /// A raw program takes the screen.
    pub fn raw(self, raw: R) -> (m: Mode<W, R>)
        ensures
            m == after_raw(self, raw),
    {
        match self {
            Mode::UI(w) => Mode::Raw(raw, w),
            Mode::Raw(_, w) => Mode::Raw(raw, w),
        }
    }

    /// The raw program is done: back to the widget.
    pub fn ui(self) -> (m: Mode<W, R>)
        ensures
            m == after_ui(self),
    {
        match self {
            Mode::Raw(_, w) => Mode::UI(w),
            Mode::UI(w) => Mode::UI(w),
        }
    }
}

/// Where an event goes.
#[derive(Debug, Clone, Copy, PartialEq, Eq, Structural)]
pub enum Route {
    /// Ctrl-C: the dashboard ends.
    Exit,
    /// A render tick: nothing to hand on.
    Ignore,
    /// Hand the event to the widget.
    Widget,
}

/// `Control('c')` ends the dashboard; render ticks are nobody's business;
/// everything else goes to the widget.
pub open spec fn route_of(ev: Event) -> Route {
    match ev {
        Event::Input(i) => if i.pressed() == Keypress::Control('c') {
            Route::Exit
        } else {
            Route::Widget
        },
        Event::Render => Route::Ignore,
        _ => Route::Widget,
    }
}

pub fn route(ev: &Event) -> (r: Route)
    ensures
        r == route_of(*ev),
{
    match ev {
        Event::Input(i) => match i.key() {
            Keypress::Control(c) => if *c == 'c' {
                Route::Exit
            } else {
                Route::Widget
            },
            _ => Route::Widget,
        },
        Event::Render => Route::Ignore,
        _ => Route::Widget,
    }
}

/// What the loop does after a widget's answer.
pub enum LoopStep<R> {
    /// End the dashboard.
    Stop,
    /// Hand the screen to the raw program.
    EnterRaw(R),
    /// Draw again right away.
    Redraw,
    /// Wait for the next event.
    Wait,
}

pub fn loop_step<R>(answer: Broadcast<R>) -> (r: LoopStep<R>)
    ensures
        match answer {
            Broadcast::Exited => r is Stop,
            Broadcast::Raw(p) => r == LoopStep::EnterRaw(p),
            Broadcast::Consumed => r is Redraw,
            Broadcast::Ignored => r is Wait,
        },
{
    match answer {
        Broadcast::Exited => LoopStep::Stop,
        Broadcast::Raw(p) => LoopStep::EnterRaw(p),
        Broadcast::Consumed => LoopStep::Redraw,
        Broadcast::Ignored => LoopStep::Wait,
    }
}

/// A raw program and the widget it returns to: leaving the raw program
/// gives back exactly the widget that was shown before it.
pub proof fn law_raw_then_ui<W, R>(w: W, raw: R)
    ensures
        after_ui(after_raw(Mode::<W, R>::UI(w), raw)) == Mode::<W, R>::UI(w),
{
}

} // verus!
