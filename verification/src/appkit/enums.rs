//! Enumerated constants of the application-kit layer. The native framework
//! identifies each constant by a fixed number; `value` returns that number,
//! and its contract pins it for every variant.

use vstd::prelude::*;

verus! {

/// Whether a copy or print operation succeeded, was cancelled, or failed.
#[derive(Debug, Clone, Copy, PartialEq, Eq, Structural)]
pub enum NSApplicationDelegateReply {
    /// The operation succeeded.
    Success,
    /// The user cancelled the operation.
    Cancel,
    /// An error occurred processing the operation.
    Failure,
}

impl NSApplicationDelegateReply {
    /// The number the native framework uses for this constant.
    pub open spec fn value_spec(self) -> u64 {
        match self {
            Self::Success => 0,
            Self::Cancel => 1,
            Self::Failure => 2,
        }
    }

    /// Returns the number the native framework uses for this constant.
    pub fn value(self) -> (r: u64)
        ensures
            r == self.value_spec(),
    {
        match self {
            Self::Success => 0,
            Self::Cancel => 1,
            Self::Failure => 2,
        }
    }
}

/// The types of events that responder objects can handle.
#[derive(Debug, Clone, Copy, PartialEq, Eq, Structural)]
pub enum NSEventType {
    /// The user pressed the left mouse button.
    LeftMouseDown,
    /// The user released the left mouse button.
    LeftMouseUp,
    /// The user pressed the right mouse button.
    RightMouseDown,
    /// The user released the right mouse button.
    RightMouseUp,
    /// The cursor moved onscreen.
    MouseMoved,
    /// The mouse moved while the left button was held.
    LeftMouseDragged,
    /// The mouse moved while the right button was held.
    RightMouseDragged,
    /// The cursor entered a well-defined area.
    MouseEntered,
    /// The cursor exited a well-defined area.
    MouseExited,
    /// The user pressed a key.
    KeyDown,
    /// The user released a key.
    KeyUp,
    /// The event flags changed.
    FlagsChanged,
    /// An event defined by the application kit.
    AppKitDefined,
    /// A system-defined event.
    SystemDefined,
    /// An app-defined event.
    ApplicationDefined,
    /// An event that provides execution time to periodic tasks.
    Periodic,
    /// An event that updates the cursor.
    CursorUpdate,
    /// The scroll wheel position changed.
    ScrollWheel,
    /// The user touched a point on a tablet.
    TabletPoint,
    /// A pointing device is near, but not touching, its tablet.
    TabletProximity,
    /// The user pressed a tertiary mouse button.
    OtherMouseDown,
    /// The user released a tertiary mouse button.
    OtherMouseUp,
    /// The mouse moved while a tertiary button was held.
    OtherMouseDragged,
    /// A nonspecific gesture.
    Gesture,
    /// A pinch-open or pinch-close gesture.
    Magnify,
    /// A swipe gesture.
    Swipe,
    /// A rotate gesture.
    Rotate,
    /// The beginning of a gesture.
    BeginGesture,
    /// The end of a gesture.
    EndGesture,
    /// A smart-zoom gesture.
    SmartMagnify,
    /// An event that initiates a quick-look request.
    QuickLook,
    /// A change in pressure on a pressure-sensitive device.
    Pressure,
    /// A touch on a portion of the touch bar.
    DirectTouch,
    /// A change of mode of a connected device.
    ChangeMode,
}

impl NSEventType {
    /// The number the native framework uses for this constant.
    pub open spec fn value_spec(self) -> u64 {
        match self {
            Self::LeftMouseDown => 1,
            Self::LeftMouseUp => 2,
            Self::RightMouseDown => 3,
            Self::RightMouseUp => 4,
            Self::MouseMoved => 5,
            Self::LeftMouseDragged => 6,
            Self::RightMouseDragged => 7,
            Self::MouseEntered => 8,
            Self::MouseExited => 9,
            Self::KeyDown => 10,
            Self::KeyUp => 11,
            Self::FlagsChanged => 12,
            Self::AppKitDefined => 13,
            Self::SystemDefined => 14,
            Self::ApplicationDefined => 15,
            Self::Periodic => 16,
            Self::CursorUpdate => 17,
            Self::ScrollWheel => 22,
            Self::TabletPoint => 23,
            Self::TabletProximity => 24,
            Self::OtherMouseDown => 25,
            Self::OtherMouseUp => 26,
            Self::OtherMouseDragged => 27,
            Self::Gesture => 29,
            Self::Magnify => 30,
            Self::Swipe => 31,
            Self::Rotate => 18,
            Self::BeginGesture => 19,
            Self::EndGesture => 20,
            Self::SmartMagnify => 32,
            Self::QuickLook => 33,
            Self::Pressure => 34,
            Self::DirectTouch => 37,
            Self::ChangeMode => 38,
        }
    }

    /// Returns the number the native framework uses for this constant.
    pub fn value(self) -> (r: u64)
        ensures
            r == self.value_spec(),
    {
        match self {
            Self::LeftMouseDown => 1,
            Self::LeftMouseUp => 2,
            Self::RightMouseDown => 3,
            Self::RightMouseUp => 4,
            Self::MouseMoved => 5,
            Self::LeftMouseDragged => 6,
            Self::RightMouseDragged => 7,
            Self::MouseEntered => 8,
            Self::MouseExited => 9,
            Self::KeyDown => 10,
            Self::KeyUp => 11,
            Self::FlagsChanged => 12,
            Self::AppKitDefined => 13,
            Self::SystemDefined => 14,
            Self::ApplicationDefined => 15,
            Self::Periodic => 16,
            Self::CursorUpdate => 17,
            Self::ScrollWheel => 22,
            Self::TabletPoint => 23,
            Self::TabletProximity => 24,
            Self::OtherMouseDown => 25,
            Self::OtherMouseUp => 26,
            Self::OtherMouseDragged => 27,
            Self::Gesture => 29,
            Self::Magnify => 30,
            Self::Swipe => 31,
            Self::Rotate => 18,
            Self::BeginGesture => 19,
            Self::EndGesture => 20,
            Self::SmartMagnify => 32,
            Self::QuickLook => 33,
            Self::Pressure => 34,
            Self::DirectTouch => 37,
            Self::ChangeMode => 38,
        }
    }
}

/// Masks that filter specific event types out of the incoming event stream.
/// Each mask is the bit whose index is the corresponding event type's number.
#[derive(Debug, Clone, Copy, PartialEq, Eq, Structural)]
pub enum NSEventMask {
    /// Matches left mouse-down events.
    LeftMouseDown,
    /// Matches left mouse-up events.
    LeftMouseUp,
    /// Matches right mouse-down events.
    RightMouseDown,
    /// Matches right mouse-up events.
    RightMouseUp,
    /// Matches mouse-moved events.
    MouseMoved,
    /// Matches left mouse-dragged events.
    LeftMouseDragged,
    /// Matches right mouse-dragged events.
    RightMouseDragged,
    /// Matches mouse-entered events.
    MouseEntered,
    /// Matches mouse-exited events.
    MouseExited,
    /// Matches key-down events.
    KeyDown,
    /// Matches key-up events.
    KeyUp,
    /// Matches flags-changed events.
    FlagsChanged,
    /// Matches events defined by the application kit.
    AppKitDefined,
    /// Matches system-defined events.
    SystemDefined,
    /// Matches app-defined events.
    ApplicationDefined,
    /// Matches periodic events.
    Periodic,
    /// Matches cursor-update events.
    CursorUpdate,
    /// Matches scroll-wheel events.
    ScrollWheel,
    /// Matches tablet-point events.
    TabletPoint,
    /// Matches tablet-proximity events.
    TabletProximity,
    /// Matches tertiary mouse-down events.
    OtherMouseDown,
    /// Matches tertiary mouse-up events.
    OtherMouseUp,
    /// Matches tertiary mouse-dragged events.
    OtherMouseDragged,
    /// Matches generic gesture events.
    Gesture,
    /// Matches magnify-gesture events.
    Magnify,
    /// Matches swipe-gesture events.
    Swipe,
    /// Matches rotate-gesture events.
    Rotate,
    /// Matches begin-gesture events.
    BeginGesture,
    /// Matches end-gesture events.
    EndGesture,
    /// Matches smart-zoom gesture events.
    SmartMagnify,
    /// Matches pressure-change events.
    Pressure,
    /// Matches touch-bar touch events.
    DirectTouch,
    /// Matches change-mode events.
    ChangeMode,
    /// Matches any type of event.
    AnyEvent,
}

impl NSEventMask {
    /// The bit mask the native framework uses for this constant: one bit at
    /// the index of the matching event type's number, or all bits for
    /// `AnyEvent`.
    pub open spec fn value_spec(self) -> u64 {
        match self {
            Self::LeftMouseDown => 1u64 << 1,
            Self::LeftMouseUp => 1u64 << 2,
            Self::RightMouseDown => 1u64 << 3,
            Self::RightMouseUp => 1u64 << 4,
            Self::MouseMoved => 1u64 << 5,
            Self::LeftMouseDragged => 1u64 << 6,
            Self::RightMouseDragged => 1u64 << 7,
            Self::MouseEntered => 1u64 << 8,
            Self::MouseExited => 1u64 << 9,
            Self::KeyDown => 1u64 << 10,
            Self::KeyUp => 1u64 << 11,
            Self::FlagsChanged => 1u64 << 12,
            Self::AppKitDefined => 1u64 << 13,
            Self::SystemDefined => 1u64 << 14,
            Self::ApplicationDefined => 1u64 << 15,
            Self::Periodic => 1u64 << 16,
            Self::CursorUpdate => 1u64 << 17,
            Self::ScrollWheel => 1u64 << 22,
            Self::TabletPoint => 1u64 << 23,
            Self::TabletProximity => 1u64 << 24,
            Self::OtherMouseDown => 1u64 << 25,
            Self::OtherMouseUp => 1u64 << 26,
            Self::OtherMouseDragged => 1u64 << 27,
            Self::Gesture => 1u64 << 29,
            Self::Magnify => 1u64 << 30,
            Self::Swipe => 1u64 << 31,
            Self::Rotate => 1u64 << 18,
            Self::BeginGesture => 1u64 << 19,
            Self::EndGesture => 1u64 << 20,
            Self::SmartMagnify => 1u64 << 32,
            Self::Pressure => 1u64 << 34,
            Self::DirectTouch => 1u64 << 37,
            Self::ChangeMode => 1u64 << 38,
            Self::AnyEvent => u64::MAX,
        }
    }

    /// Returns the bit mask the native framework uses for this constant.
    pub fn value(self) -> (r: u64)
        ensures
            r == self.value_spec(),
    {
        match self {
            Self::LeftMouseDown => 1u64 << 1,
            Self::LeftMouseUp => 1u64 << 2,
            Self::RightMouseDown => 1u64 << 3,
            Self::RightMouseUp => 1u64 << 4,
            Self::MouseMoved => 1u64 << 5,
            Self::LeftMouseDragged => 1u64 << 6,
            Self::RightMouseDragged => 1u64 << 7,
            Self::MouseEntered => 1u64 << 8,
            Self::MouseExited => 1u64 << 9,
            Self::KeyDown => 1u64 << 10,
            Self::KeyUp => 1u64 << 11,
            Self::FlagsChanged => 1u64 << 12,
            Self::AppKitDefined => 1u64 << 13,
            Self::SystemDefined => 1u64 << 14,
            Self::ApplicationDefined => 1u64 << 15,
            Self::Periodic => 1u64 << 16,
            Self::CursorUpdate => 1u64 << 17,
            Self::ScrollWheel => 1u64 << 22,
            Self::TabletPoint => 1u64 << 23,
            Self::TabletProximity => 1u64 << 24,
            Self::OtherMouseDown => 1u64 << 25,
            Self::OtherMouseUp => 1u64 << 26,
            Self::OtherMouseDragged => 1u64 << 27,
            Self::Gesture => 1u64 << 29,
            Self::Magnify => 1u64 << 30,
            Self::Swipe => 1u64 << 31,
            Self::Rotate => 1u64 << 18,
            Self::BeginGesture => 1u64 << 19,
            Self::EndGesture => 1u64 << 20,
            Self::SmartMagnify => 1u64 << 32,
            Self::Pressure => 1u64 << 34,
            Self::DirectTouch => 1u64 << 37,
            Self::ChangeMode => 1u64 << 38,
            Self::AnyEvent => u64::MAX,
        }
    }
}

/// Whether and how an app may be activated.
#[derive(Debug, Clone, Copy, PartialEq, Eq, Structural)]
pub enum NSApplicationActivationPolicy {
    /// An ordinary app that appears in the dock and may have an interface.
    Regular,
    /// An app without dock presence or menu bar, activated programmatically.
    Accessory,
    /// An app that may not create windows or be activated.
    Prohibited,
}

impl NSApplicationActivationPolicy {
    /// The number the native framework uses for this constant.
    pub open spec fn value_spec(self) -> i64 {
        match self {
            Self::Regular => 0,
            Self::Accessory => 1,
            Self::Prohibited => 2,
        }
    }

    /// Returns the number the native framework uses for this constant.
    pub fn value(self) -> (r: i64)
        ensures
            r == self.value_spec(),
    {
        match self {
            Self::Regular => 0,
            Self::Accessory => 1,
            Self::Prohibited => 2,
        }
    }
}

/// Options that control how an application is activated.
#[derive(Debug, Clone, Copy, PartialEq, Eq, Structural)]
pub enum NSApplicationActivationOptions {
    /// Bring all of the application's windows forward, not only the main
    /// and key windows.
    AllWindows,
    /// Activate the application regardless of the currently active app.
    IgnoringOtherWindows,
}

impl NSApplicationActivationOptions {
    /// The bit mask the native framework uses for this constant.
    pub open spec fn value_spec(self) -> u64 {
        match self {
            Self::AllWindows => 1u64 << 0,
            Self::IgnoringOtherWindows => 1u64 << 1,
        }
    }

    /// Returns the bit mask the native framework uses for this constant.
    pub fn value(self) -> (r: u64)
        ensures
            r == self.value_spec(),
    {
        match self {
            Self::AllWindows => 1u64 << 0,
            Self::IgnoringOtherWindows => 1u64 << 1,
        }
    }
}

/// Whether an app should terminate.
#[derive(Debug, Clone, Copy, PartialEq, Eq, Structural)]
pub enum NSApplicationTerminateReply {
    /// The app should not be terminated.
    Cancel,
    /// It is all right to proceed with termination.
    Now,
    /// The app should be terminated, but the user should be asked first.
    Later,
}

impl NSApplicationTerminateReply {
    /// The number the native framework uses for this constant.
    pub open spec fn value_spec(self) -> u64 {
        match self {
            Self::Cancel => 0,
            Self::Now => 1,
            Self::Later => 2,
        }
    }

    /// Returns the number the native framework uses for this constant.
    pub fn value(self) -> (r: u64)
        ensures
            r == self.value_spec(),
    {
        match self {
            Self::Cancel => 0,
            Self::Now => 1,
            Self::Later => 2,
        }
    }
}

/// Styles of a window, combinable as a bit mask.
#[derive(Debug, Clone, Copy, PartialEq, Eq, Structural)]
pub enum NSWindowStyleMask {
    /// The window displays none of the usual peripheral elements.
    Borderless,
    /// The window displays a title bar.
    Titled,
    /// The window displays a close button.
    Closable,
    /// The window displays a minimize button.
    Miniaturizable,
    /// The window can be resized by the user.
    Resizable,
    /// The window is a utility panel.
    Utility,
    /// The window is a document-modal panel.
    DocModal,
    /// The window is a panel that does not activate the owning app.
    NonactivatingPanel,
    /// The window uses a textured background.
    TexturedBackground,
    /// The window content is not scaled.
    Unscaled,
    /// The window uses a unified title and toolbar look.
    UnifiedTitleAndToolbar,
    /// The window is a heads-up-display panel.
    Hud,
    /// The window can appear full screen.
    FullScreenWindow,
    /// The window's content view consumes the full window size.
    FullSizeContentView,
}

impl NSWindowStyleMask {
    /// The bit mask the native framework uses for this constant.
    pub open spec fn value_spec(self) -> u64 {
        match self {
            Self::Borderless => 0,
            Self::Titled => 1u64 << 0,
            Self::Closable => 1u64 << 1,
            Self::Miniaturizable => 1u64 << 2,
            Self::Resizable => 1u64 << 3,
            Self::Utility => 1u64 << 4,
            Self::DocModal => 1u64 << 6,
            Self::NonactivatingPanel => 1u64 << 7,
            Self::TexturedBackground => 1u64 << 8,
            Self::Unscaled => 1u64 << 11,
            Self::UnifiedTitleAndToolbar => 1u64 << 12,
            Self::Hud => 1u64 << 13,
            Self::FullScreenWindow => 1u64 << 14,
            Self::FullSizeContentView => 1u64 << 15,
        }
    }

    /// Returns the bit mask the native framework uses for this constant.
    pub fn value(self) -> (r: u64)
        ensures
            r == self.value_spec(),
    {
        match self {
            Self::Borderless => 0,
            Self::Titled => 1u64 << 0,
            Self::Closable => 1u64 << 1,
            Self::Miniaturizable => 1u64 << 2,
            Self::Resizable => 1u64 << 3,
            Self::Utility => 1u64 << 4,
            Self::DocModal => 1u64 << 6,
            Self::NonactivatingPanel => 1u64 << 7,
            Self::TexturedBackground => 1u64 << 8,
            Self::Unscaled => 1u64 << 11,
            Self::UnifiedTitleAndToolbar => 1u64 << 12,
            Self::Hud => 1u64 << 13,
            Self::FullScreenWindow => 1u64 << 14,
            Self::FullSizeContentView => 1u64 << 15,
        }
    }
}

/// The appearance and location of a window's toolbar relative to its title
/// bar.
#[derive(Debug, Clone, Copy, PartialEq, Eq, Structural)]
pub enum NSWindowToolbarStyle {
    /// The system determines the toolbar's appearance and location.
    Automatic,
    /// The toolbar appears below the window title.
    Expanded,
    /// The toolbar appears below the window title with centred items.
    Preference,
    /// The toolbar appears next to the window title.
    Unified,
    /// The toolbar appears next to the window title with reduced margins.
    UnifiedCompact,
}

impl NSWindowToolbarStyle {
    /// The number the native framework uses for this constant.
    pub open spec fn value_spec(self) -> i64 {
        match self {
            Self::Automatic => 0,
            Self::Expanded => 1,
            Self::Preference => 2,
            Self::Unified => 3,
            Self::UnifiedCompact => 4,
        }
    }

    /// Returns the number the native framework uses for this constant.
    pub fn value(self) -> (r: i64)
        ensures
            r == self.value_spec(),
    {
        match self {
            Self::Automatic => 0,
            Self::Expanded => 1,
            Self::Preference => 2,
            Self::Unified => 3,
            Self::UnifiedCompact => 4,
        }
    }
}

/// The appearance of the window's title bar area.
#[derive(Debug, Clone, Copy, PartialEq, Eq, Structural)]
pub enum NSWindowTitleVisibility {
    /// The window has the regular title and title bar buttons.
    Visible,
    /// The window has no title bar buttons.
    Hidden,
}

impl NSWindowTitleVisibility {
    /// The number the native framework uses for this constant.
    pub open spec fn value_spec(self) -> i64 {
        match self {
            Self::Visible => 0,
            Self::Hidden => 1,
        }
    }

    /// Returns the number the native framework uses for this constant.
    pub fn value(self) -> (r: i64)
        ensures
            r == self.value_spec(),
    {
        match self {
            Self::Visible => 0,
            Self::Hidden => 1,
        }
    }
}

/// How the window device buffers the drawing done in a window.
#[derive(Debug, Clone, Copy, PartialEq, Eq, Structural)]
pub enum NSBackingStoreType {
    /// Draw directly to the screen where possible, buffering obscured parts.
    Retained,
    /// Draw directly to the screen without any buffer.
    Nonretained,
    /// Render into a display buffer, then flush it to the screen.
    Buffered,
}

impl NSBackingStoreType {
    /// The number the native framework uses for this constant.
    pub open spec fn value_spec(self) -> u64 {
        match self {
            Self::Retained => 0,
            Self::Nonretained => 1,
            Self::Buffered => 2,
        }
    }

    /// Returns the number the native framework uses for this constant.
    pub fn value(self) -> (r: u64)
        ensures
            r == self.value_spec(),
    {
        match self {
            Self::Retained => 0,
            Self::Nonretained => 1,
            Self::Buffered => 2,
        }
    }
}

/// Window collection behaviours related to spaces and window exposure.
#[derive(Debug, Clone, Copy, PartialEq, Eq, Structural)]
pub enum NSWindowCollectionBehavior {
    /// The window appears in only one space at a time.
    Default,
    /// The window appears in all spaces.
    CanJoinAllSpaces,
    /// Move the window to the active space when it becomes active.
    MoveToActiveSpace,
    /// The window participates in spaces and window exposure.
    Managed,
    /// The window floats in spaces and hides while windows are exposed.
    Transient,
    /// The window stays visible and stationary, like the desktop window.
    Stationary,
    /// The window takes part in the window cycle.
    ParticipatesInCycle,
    /// The window is not part of the window cycle.
    IgnoresCycle,
    /// The window can enter full-screen mode.
    FullScreenPrimary,
    /// The window can display on the same space as a full-screen window.
    FullScreenAuxiliary,
    /// The window does not support full-screen mode.
    FullScreenNone,
    /// The window can be a secondary full-screen tile.
    FullScreenAllowsTiling,
    /// The window does not support being a full-screen tile.
    FullScreenDisallowsTiling,
}

impl NSWindowCollectionBehavior {
    /// The bit mask the native framework uses for this constant.
    pub open spec fn value_spec(self) -> u64 {
        match self {
            Self::Default => 0,
            Self::CanJoinAllSpaces => 1u64 << 0,
            Self::MoveToActiveSpace => 1u64 << 1,
            Self::Managed => 1u64 << 2,
            Self::Transient => 1u64 << 3,
            Self::Stationary => 1u64 << 4,
            Self::ParticipatesInCycle => 1u64 << 5,
            Self::IgnoresCycle => 1u64 << 6,
            Self::FullScreenPrimary => 1u64 << 7,
            Self::FullScreenAuxiliary => 1u64 << 8,
            Self::FullScreenNone => 1u64 << 9,
            Self::FullScreenAllowsTiling => 1u64 << 11,
            Self::FullScreenDisallowsTiling => 1u64 << 12,
        }
    }

    /// Returns the bit mask the native framework uses for this constant.
    pub fn value(self) -> (r: u64)
        ensures
            r == self.value_spec(),
    {
        match self {
            Self::Default => 0,
            Self::CanJoinAllSpaces => 1u64 << 0,
            Self::MoveToActiveSpace => 1u64 << 1,
            Self::Managed => 1u64 << 2,
            Self::Transient => 1u64 << 3,
            Self::Stationary => 1u64 << 4,
            Self::ParticipatesInCycle => 1u64 << 5,
            Self::IgnoresCycle => 1u64 << 6,
            Self::FullScreenPrimary => 1u64 << 7,
            Self::FullScreenAuxiliary => 1u64 << 8,
            Self::FullScreenNone => 1u64 << 9,
            Self::FullScreenAllowsTiling => 1u64 << 11,
            Self::FullScreenDisallowsTiling => 1u64 << 12,
        }
    }
}

/// The amount of memory for a single pixel in a window or screen.
#[derive(Debug, Clone, Copy, PartialEq, Eq, Structural)]
pub enum NSWindowDepth {
    /// Twenty-four-bit RGB depth limit.
    TwentyfourBitRgb,
    /// Sixty-four-bit RGB depth limit.
    SixtyfourBitRgb,
    /// One-hundred-and-twenty-eight-bit RGB depth limit.
    OneHundredTwentyEightBitRgb,
}

impl NSWindowDepth {
    /// The number the native framework uses for this constant.
    pub open spec fn value_spec(self) -> i32 {
        match self {
            Self::TwentyfourBitRgb => 0x208,
            Self::SixtyfourBitRgb => 0x210,
            Self::OneHundredTwentyEightBitRgb => 0x220,
        }
    }

    /// Returns the number the native framework uses for this constant.
    pub fn value(self) -> (r: i32)
        ensures
            r == self.value_spec(),
    {
        match self {
            Self::TwentyfourBitRgb => 0x208,
            Self::SixtyfourBitRgb => 0x210,
            Self::OneHundredTwentyEightBitRgb => 0x220,
        }
    }
}

/// Options used when retrieving window numbers from the system.
#[derive(Debug, Clone, Copy, PartialEq, Eq, Structural)]
pub enum NSWindowNumberListOptions {
    /// Include windows of all applications.
    AllApplication,
    /// Include windows in all spaces.
    AllSpaces,
}

impl NSWindowNumberListOptions {
    /// The bit mask the native framework uses for this constant.
    pub open spec fn value_spec(self) -> u64 {
        match self {
            Self::AllApplication => 1u64 << 0,
            Self::AllSpaces => 1u64 << 4,
        }
    }

    /// Returns the bit mask the native framework uses for this constant.
    pub fn value(self) -> (r: u64)
        ensures
            r == self.value_spec(),
    {
        match self {
            Self::AllApplication => 1u64 << 0,
            Self::AllSpaces => 1u64 << 4,
        }
    }
}

/// The access other processes can have to a window's content.
#[derive(Debug, Clone, Copy, PartialEq, Eq, Structural)]
pub enum NSWindowSharingType {
    /// The window's contents cannot be read by another process.
    NoSharing,
    /// The window's contents can be read by another process.
    ReadOnly,
    /// The window's contents can be read and modified by another process.
    ReadWrite,
}

impl NSWindowSharingType {
    /// The number the native framework uses for this constant.
    pub open spec fn value_spec(self) -> u64 {
        match self {
            Self::NoSharing => 0,
            Self::ReadOnly => 1,
            Self::ReadWrite => 2,
        }
    }

    /// Returns the number the native framework uses for this constant.
    pub fn value(self) -> (r: u64)
        ensures
            r == self.value_spec(),
    {
        match self {
            Self::NoSharing => 0,
            Self::ReadOnly => 1,
            Self::ReadWrite => 2,
        }
    }
}

/// How a window is ordered relative to another window.
#[derive(Debug, Clone, Copy, PartialEq, Eq, Structural)]
pub enum NSWindowOrderingMode {
    /// Moves the window below the indicated window.
    Below,
    /// Moves the window off the screen.
    Out,
    /// Moves the window above the indicated window.
    Above,
}

impl NSWindowOrderingMode {
    /// The number the native framework uses for this constant.
    pub open spec fn value_spec(self) -> i64 {
        match self {
            Self::Below => -1i64,
            Self::Out => 0,
            Self::Above => 1,
        }
    }

    /// Returns the number the native framework uses for this constant.
    pub fn value(self) -> (r: i64)
        ensures
            r == self.value_spec(),
    {
        match self {
            Self::Below => -1,
            Self::Out => 0,
            Self::Above => 1,
        }
    }
}

/// Whether the window is occluded.
#[derive(Debug, Clone, Copy, PartialEq, Eq, Structural)]
pub enum NSWindowOcclusionState {
    /// At least part of the window is visible.
    Visible,
}

impl NSWindowOcclusionState {
    /// The bit mask the native framework uses for this constant.
    pub open spec fn value_spec(self) -> u64 {
        match self {
            Self::Visible => 1u64 << 1,
        }
    }

    /// Returns the bit mask the native framework uses for this constant.
    pub fn value(self) -> (r: u64)
        ensures
            r == self.value_spec(),
    {
        match self {
            Self::Visible => 1u64 << 1,
        }
    }
}

/// The standard title bar buttons.
#[derive(Debug, Clone, Copy, PartialEq, Eq, Structural)]
pub enum NSWindowButton {
    /// The close button.
    CloseButton,
    /// The minimize button.
    MiniaturizeButton,
    /// The zoom button.
    ZoomButton,
    /// The toolbar button.
    ToolbarButton,
    /// The document icon button.
    DocumentIconButton,
    /// The document versions button.
    DocumentVersionsButton,
    /// The full-screen icon button.
    FullScreenButton,
}

impl NSWindowButton {
    /// The number the native framework uses for this constant.
    pub open spec fn value_spec(self) -> u64 {
        match self {
            Self::CloseButton => 0,
            Self::MiniaturizeButton => 1,
            Self::ZoomButton => 2,
            Self::ToolbarButton => 3,
            Self::DocumentIconButton => 4,
            Self::DocumentVersionsButton => 6,
            Self::FullScreenButton => 7,
        }
    }

    /// Returns the number the native framework uses for this constant.
    pub fn value(self) -> (r: u64)
        ensures
            r == self.value_spec(),
    {
        match self {
            Self::CloseButton => 0,
            Self::MiniaturizeButton => 1,
            Self::ZoomButton => 2,
            Self::ToolbarButton => 3,
            Self::DocumentIconButton => 4,
            Self::DocumentVersionsButton => 6,
            Self::FullScreenButton => 7,
        }
    }
}

/// The type of separator between the title bar and the window content.
#[derive(Debug, Clone, Copy, PartialEq, Eq, Structural)]
pub enum NSTitlebarSeparatorStyle {
    /// The system determines the type of separator.
    Automatic,
    /// No title bar separator.
    NoSeparator,
    /// The title bar separator is a line.
    Line,
    /// The title bar separator is a shadow.
    Shadow,
}

impl NSTitlebarSeparatorStyle {
    /// The number the native framework uses for this constant.
    pub open spec fn value_spec(self) -> i64 {
        match self {
            Self::Automatic => 0,
            Self::NoSeparator => 1,
            Self::Line => 2,
            Self::Shadow => 3,
        }
    }

    /// Returns the number the native framework uses for this constant.
    pub fn value(self) -> (r: i64)
        ensures
            r == self.value_spec(),
    {
        match self {
            Self::Automatic => 0,
            Self::NoSeparator => 1,
            Self::Line => 2,
            Self::Shadow => 3,
        }
    }
}

/// The directional flow of the user interface.
#[derive(Debug, Clone, Copy, PartialEq, Eq, Structural)]
pub enum NSUserInterfaceLayoutDirection {
    /// Layout flows from left to right.
    LeftToRight,
    /// Layout flows from right to left.
    RightToLeft,
}

impl NSUserInterfaceLayoutDirection {
    /// The number the native framework uses for this constant.
    pub open spec fn value_spec(self) -> i64 {
        match self {
            Self::LeftToRight => 0,
            Self::RightToLeft => 1,
        }
    }

    /// Returns the number the native framework uses for this constant.
    pub fn value(self) -> (r: i64)
        ensures
            r == self.value_spec(),
    {
        match self {
            Self::LeftToRight => 0,
            Self::RightToLeft => 1,
        }
    }
}

/// The appearance and disappearance behaviour of a popover.
#[derive(Debug, Clone, Copy, PartialEq, Eq, Structural)]
pub enum NSPopoverBehavior {
    /// The application is responsible for closing the popover.
    ApplicationDefined,
    /// The system closes the popover on interaction outside it.
    Transient,
    /// The system closes the popover on interaction with the window that
    /// holds the popover's positioning view.
    Semitransient,
}

impl NSPopoverBehavior {
    /// The number the native framework uses for this constant.
    pub open spec fn value_spec(self) -> i64 {
        match self {
            Self::ApplicationDefined => 0,
            Self::Transient => 1,
            Self::Semitransient => 2,
        }
    }

    /// Returns the number the native framework uses for this constant.
    pub fn value(self) -> (r: i64)
        ensures
            r == self.value_spec(),
    {
        match self {
            Self::ApplicationDefined => 0,
            Self::Transient => 1,
            Self::Semitransient => 2,
        }
    }
}

/// Optional status item behaviours.
#[derive(Debug, Clone, Copy, PartialEq, Eq, Structural)]
pub enum NSStatusItemBehavior {
    /// A status item that allows interactive removal.
    RemovalAllowed,
    /// A status item that quits the application upon removal.
    TerminationOnRemoval,
}

impl NSStatusItemBehavior {
    /// The bit mask the native framework uses for this constant.
    pub open spec fn value_spec(self) -> u64 {
        match self {
            Self::RemovalAllowed => 1u64 << 1,
            Self::TerminationOnRemoval => 1u64 << 2,
        }
    }

    /// Returns the bit mask the native framework uses for this constant.
    pub fn value(self) -> (r: u64)
        ensures
            r == self.value_spec(),
    {
        match self {
            Self::RemovalAllowed => 1u64 << 1,
            Self::TerminationOnRemoval => 1u64 << 2,
        }
    }
}

} // verus!
