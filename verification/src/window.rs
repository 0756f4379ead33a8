//! The window of the program and what the program does on its events.
use vstd::prelude::*;

verus! {

/// What the window is created with.
pub struct WindowSettings {
    pub title: String,
    /// Inner width in logical pixels.
    pub width: u32,
    /// Inner height in logical pixels.
    pub height: u32,
    pub resizable: bool,
}

/// A key of the keyboard, as far as the program tells keys apart.
#[derive(Clone, Copy, Debug, PartialEq, Eq, Structural)]
pub enum Key {
    Space,
    Other,
}

/// An event of the window system, as far as the program tells events apart.
#[derive(Clone, Copy, Debug, PartialEq, Eq, Structural)]
pub enum WindowInput {
    /// The user asked for the window to be closed.
    CloseRequested,
    /// The window has a new inner size.
    Resized { width: u32, height: u32 },
    /// A key went up.
    KeyReleased(Key),
    /// A key went down.
    KeyPressed(Key),
    /// Anything else.
    Other,
}

/// What the program does on an event.
#[derive(Clone, Copy, Debug, PartialEq, Eq, Structural)]
pub enum Reaction {
    /// Keep polling for events.
    Poll,
    /// Keep polling, and note that the space bar was released.
    AnnounceSpace,
    /// Keep polling, and tell the render loop the new size.
    Resize { width: u32, height: u32 },
    /// Leave the event loop.
    Exit,
}

/// The reaction to an event: a request to close ends the event loop, the
/// release of the space bar is announced, a new size is passed on, and
/// everything else is polled past.
pub open spec fn reaction_to(input: WindowInput) -> Reaction {
    match input {
        WindowInput::CloseRequested => Reaction::Exit,
        WindowInput::Resized { width, height } => Reaction::Resize { width, height },
        WindowInput::KeyReleased(Key::Space) => Reaction::AnnounceSpace,
        _ => Reaction::Poll,
    }
}

/// Decides what to do on an event of the window system.
pub fn react(input: WindowInput) -> (reaction: Reaction)
    ensures
        reaction == reaction_to(input),
{
    match input {
        WindowInput::CloseRequested => Reaction::Exit,
        WindowInput::Resized { width, height } => Reaction::Resize { width, height },
        WindowInput::KeyReleased(Key::Space) => Reaction::AnnounceSpace,
        _ => Reaction::Poll,
    }
}

/// Describes the window: 800 by 800 logical pixels, resizable.
pub fn window_settings() -> (settings: WindowSettings)
    ensures
        settings.title@ == "vulkan_tutorial"@,
        settings.width == 800,
        settings.height == 800,
        settings.resizable,
{
    WindowSettings { title: "vulkan_tutorial".to_owned(), width: 800, height: 800, resizable: true }
}

} // verus!
