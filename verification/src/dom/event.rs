//! The inbound half of the render seam: events flowing from the platform
//! back into the engine — the dual of [`Mutation`](crate::dom::mutation::Mutation).
//!
//! A backend translates native input and lifecycle callbacks into [`Event`]s;
//! the engine routes them to handlers registered on widgets by their
//! [`EventKind`] and [`target`](Event::target).

use crate::core_types::{F32Bits, F64Bits, Point, Rect};
use crate::dom::mutation::{PermissionKind, PermissionStatus, WidgetId};
use crate::runtime::NetworkStatus;
use vstd::prelude::*;

verus! {

/// Identifies one active pointer/touch so multi-touch streams can be told apart.
#[derive(Debug, Clone, Copy, PartialEq, Eq, Hash, Structural)]
pub struct PointerId(pub u64);

/// The selection range inside a text input, as byte offsets into its value.
/// A collapsed selection (`start == end`) is a caret.
#[derive(Debug, Clone, Copy, PartialEq, Eq, Hash, Structural)]
pub struct TextSelection {
    /// Start offset (inclusive).
    pub start: usize,
    /// End offset (exclusive).
    pub end: usize,
}

impl TextSelection {
    /// A collapsed selection (caret) at `offset`.
    pub fn caret(offset: usize) -> (r: TextSelection)
        ensures
            r == (TextSelection { start: offset, end: offset }),
    {
        TextSelection { start: offset, end: offset }
    }
}

/// Application lifecycle transitions delivered by the platform.
#[derive(Debug, Clone, Copy, PartialEq, Eq, Hash, Structural)]
pub enum Lifecycle {
    /// Became active/foreground and interactive.
    Resumed,
    /// Lost focus but still visible (e.g. system dialog).
    Inactive,
    /// No longer visible.
    Backgrounded,
    /// About to be terminated.
    Terminating,
}

/// An input or lifecycle event entering the engine.
///
/// Targeted variants carry the `WidgetId` the platform hit-tested; untargeted
/// variants are app-global. New variants are added here and handled by backends
/// and app code — this enum is part of the frozen seam contract (audit R3).
#[derive(Debug, Clone, PartialEq)]
pub enum Event {
    /// A discrete tap/click on a widget.
    Tap {
        target: WidgetId,
    },
    /// A double tap on a widget.
    DoubleTap {
        target: WidgetId,
    },
    /// A long press on a widget.
    LongPress {
        target: WidgetId,
    },
    /// A pointer pressed down.
    PointerDown {
        target: WidgetId,
        position: Point,
        pointer: PointerId,
    },
    /// A pointer moved while down.
    PointerMove {
        target: WidgetId,
        position: Point,
        pointer: PointerId,
    },
    /// A pointer released.
    PointerUp {
        target: WidgetId,
        position: Point,
        pointer: PointerId,
    },
    /// A scroll container's content offset changed.
    ScrollChanged {
        target: WidgetId,
        offset: Point,
    },
    /// A text field's value/selection changed (controlled input).
    TextChanged {
        target: WidgetId,
        value: String,
        selection: TextSelection,
    },
    /// A widget gained or lost focus.
    FocusChanged {
        target: WidgetId,
        focused: bool,
    },
    /// A control's value changed (switch on/off as 0/1, slider position, etc.).
    ValueChanged {
        target: WidgetId,
        value: F64Bits,
    },
    /// A pan/drag gesture updated. Fires repeatedly through the drag.
    PanChanged {
        target: WidgetId,
        translation: Point,
        velocity: Point,
        phase: GesturePhase,
    },
    /// Pull-to-refresh was triggered on `target`.
    Refresh {
        target: WidgetId,
    },
    /// Return/Done key pressed in `target` text field.
    Submit {
        target: WidgetId,
    },
    /// Android system back / iOS interactive-pop intent. App-global.
    BackPressed,
    /// The soft keyboard is about to appear, occupying `frame`. App-global.
    KeyboardWillShow {
        frame: Rect,
    },
    /// The soft keyboard is about to hide. App-global.
    KeyboardWillHide,
    /// An application lifecycle transition. App-global.
    AppLifecycle(Lifecycle),
    /// A QR code was detected in the camera feed.
    QrDetected {
        target: WidgetId,
        value: String,
    },
    /// A pinch gesture updated on `target`. Fires repeatedly through the gesture.
    PinchChanged {
        target: WidgetId,
        scale: F32Bits,
        velocity: F32Bits,
        phase: GesturePhase,
    },
    /// A rotation gesture updated on `target`. Fires repeatedly through the gesture.
    RotateChanged {
        target: WidgetId,
        rotation: F32Bits,
        velocity: F32Bits,
        phase: GesturePhase,
    },
    /// The app received a deep link URL (from openURL: or continueUserActivity:).
    DeepLink {
        url: String,
    },
    /// Result of a biometric authentication attempt triggered by
    /// [`Mutation::AuthenticateBiometric`](crate::Mutation::AuthenticateBiometric).
    BiometricResult {
        success: bool,
        error: Option<String>,
    },
    /// GPS location update from CoreLocation.
    LocationUpdated {
        latitude: F64Bits,
        longitude: F64Bits,
        accuracy: F64Bits,
    },
    /// Location permission was denied by the user.
    LocationDenied,
    /// Motion sensor update (accelerometer and/or gyroscope).
    MotionUpdated {
        accel_x: Option<F64Bits>,
        accel_y: Option<F64Bits>,
        accel_z: Option<F64Bits>,
        gyro_x: Option<F64Bits>,
        gyro_y: Option<F64Bits>,
        gyro_z: Option<F64Bits>,
    },
    /// The user picked media items from the library.
    MediaPicked {
        images: Vec<Vec<u8>>,
    },
    /// The user cancelled the media picker without selecting anything.
    MediaPickerCancelled,
    /// The user picked one or more documents from the file picker.
    DocumentPicked {
        files: Vec<(String, Vec<u8>)>,
    },
    /// A background task was launched by the system (BGTaskScheduler).
    BackgroundTaskStarted {
        identifier: String,
    },
    /// The platform reported the authorization state of a permission.
    PermissionChanged {
        permission: PermissionKind,
        status: PermissionStatus,
    },
    /// The device's internet reachability changed.
    NetworkStatusChanged {
        status: NetworkStatus,
    },
    /// An assistive technology invoked a named custom action on a widget.
    AccessibilityAction {
        target: WidgetId,
        action: String,
    },
}

/// The lifecycle phase of a continuous gesture such as a pan.
#[derive(Debug, Clone, Copy, PartialEq, Eq, Hash, Structural)]
pub enum GesturePhase {
    /// The gesture has just started.
    Began,
    /// The gesture is in progress (translation updated).
    Changed,
    /// The gesture finished (finger lifted / recognizer ended or cancelled).
    Ended,
}

/// The discriminant used to register and match handlers, independent of an
/// event's payload.
#[derive(Debug, Clone, Copy, PartialEq, Eq, Hash, Structural)]
pub enum EventKind {
    /// [`Event::Tap`].
    Tap,
    /// [`Event::DoubleTap`].
    DoubleTap,
    /// [`Event::LongPress`].
    LongPress,
    /// [`Event::PointerDown`].
    PointerDown,
    /// [`Event::PointerMove`].
    PointerMove,
    /// [`Event::PointerUp`].
    PointerUp,
    /// [`Event::ScrollChanged`].
    ScrollChanged,
    /// [`Event::TextChanged`].
    TextChanged,
    /// [`Event::FocusChanged`].
    FocusChanged,
    /// [`Event::ValueChanged`].
    ValueChanged,
    /// [`Event::PanChanged`].
    Pan,
    /// [`Event::Refresh`].
    Refresh,
    /// [`Event::Submit`].
    Submit,
    /// [`Event::BackPressed`].
    BackPressed,
    /// [`Event::KeyboardWillShow`].
    KeyboardWillShow,
    /// [`Event::KeyboardWillHide`].
    KeyboardWillHide,
    /// [`Event::AppLifecycle`].
    AppLifecycle,
    /// [`Event::QrDetected`].
    QrDetected,
    /// [`Event::PinchChanged`].
    Pinch,
    /// [`Event::DeepLink`].
    DeepLink,
    /// [`Event::BiometricResult`].
    BiometricResult,
    /// [`Event::RotateChanged`].
    RotateChanged,
    /// [`Event::LocationUpdated`].
    LocationUpdated,
    /// [`Event::LocationDenied`].
    LocationDenied,
    /// [`Event::MotionUpdated`].
    MotionUpdated,
    /// [`Event::MediaPicked`].
    MediaPicked,
    /// [`Event::MediaPickerCancelled`].
    MediaPickerCancelled,
    /// [`Event::DocumentPicked`].
    DocumentPicked,
    /// [`Event::BackgroundTaskStarted`].
    BackgroundTaskStarted,
    /// [`Event::PermissionChanged`].
    PermissionChanged,
    /// [`Event::NetworkStatusChanged`].
    NetworkStatusChanged,
    /// [`Event::AccessibilityAction`].
    AccessibilityAction,
}

/// The kind under which handlers for `event` are registered.
pub open spec fn spec_event_kind(event: Event) -> EventKind {
    match event {
        Event::Tap { .. } => EventKind::Tap,
        Event::DoubleTap { .. } => EventKind::DoubleTap,
        Event::LongPress { .. } => EventKind::LongPress,
        Event::PointerDown { .. } => EventKind::PointerDown,
        Event::PointerMove { .. } => EventKind::PointerMove,
        Event::PointerUp { .. } => EventKind::PointerUp,
        Event::ScrollChanged { .. } => EventKind::ScrollChanged,
        Event::TextChanged { .. } => EventKind::TextChanged,
        Event::FocusChanged { .. } => EventKind::FocusChanged,
        Event::ValueChanged { .. } => EventKind::ValueChanged,
        Event::PanChanged { .. } => EventKind::Pan,
        Event::Refresh { .. } => EventKind::Refresh,
        Event::Submit { .. } => EventKind::Submit,
        Event::BackPressed => EventKind::BackPressed,
        Event::KeyboardWillShow { .. } => EventKind::KeyboardWillShow,
        Event::KeyboardWillHide => EventKind::KeyboardWillHide,
        Event::AppLifecycle(_) => EventKind::AppLifecycle,
        Event::QrDetected { .. } => EventKind::QrDetected,
        Event::PinchChanged { .. } => EventKind::Pinch,
        Event::RotateChanged { .. } => EventKind::RotateChanged,
        Event::DeepLink { .. } => EventKind::DeepLink,
        Event::BiometricResult { .. } => EventKind::BiometricResult,
        Event::LocationUpdated { .. } => EventKind::LocationUpdated,
        Event::LocationDenied => EventKind::LocationDenied,
        Event::MotionUpdated { .. } => EventKind::MotionUpdated,
        Event::MediaPicked { .. } => EventKind::MediaPicked,
        Event::MediaPickerCancelled => EventKind::MediaPickerCancelled,
        Event::DocumentPicked { .. } => EventKind::DocumentPicked,
        Event::BackgroundTaskStarted { .. } => EventKind::BackgroundTaskStarted,
        Event::PermissionChanged { .. } => EventKind::PermissionChanged,
        Event::NetworkStatusChanged { .. } => EventKind::NetworkStatusChanged,
        Event::AccessibilityAction { .. } => EventKind::AccessibilityAction,
    }
}

/// The widget an event is addressed to; `None` for app-wide events.
pub open spec fn spec_event_target(event: Event) -> Option<WidgetId> {
    match event {
        Event::Tap { target, .. } => Some(target),
        Event::DoubleTap { target, .. } => Some(target),
        Event::LongPress { target, .. } => Some(target),
        Event::PointerDown { target, .. } => Some(target),
        Event::PointerMove { target, .. } => Some(target),
        Event::PointerUp { target, .. } => Some(target),
        Event::ScrollChanged { target, .. } => Some(target),
        Event::TextChanged { target, .. } => Some(target),
        Event::FocusChanged { target, .. } => Some(target),
        Event::ValueChanged { target, .. } => Some(target),
        Event::PanChanged { target, .. } => Some(target),
        Event::Refresh { target, .. } => Some(target),
        Event::Submit { target, .. } => Some(target),
        Event::BackPressed => None,
        Event::KeyboardWillShow { .. } => None,
        Event::KeyboardWillHide => None,
        Event::AppLifecycle(_) => None,
        Event::QrDetected { target, .. } => Some(target),
        Event::PinchChanged { target, .. } => Some(target),
        Event::RotateChanged { target, .. } => Some(target),
        Event::DeepLink { .. } => None,
        Event::BiometricResult { .. } => None,
        Event::LocationUpdated { .. } => None,
        Event::LocationDenied => None,
        Event::MotionUpdated { .. } => None,
        Event::MediaPicked { .. } => None,
        Event::MediaPickerCancelled => None,
        Event::DocumentPicked { .. } => None,
        Event::BackgroundTaskStarted { .. } => None,
        Event::PermissionChanged { .. } => None,
        Event::NetworkStatusChanged { .. } => None,
        Event::AccessibilityAction { target, .. } => Some(target),
    }
}

/// Whether events of `kind` are addressed to one widget (rather than to
/// the app as a whole).
pub open spec fn is_widget_event_kind(kind: EventKind) -> bool {
    kind is Tap
        || kind is DoubleTap
        || kind is LongPress
        || kind is PointerDown
        || kind is PointerMove
        || kind is PointerUp
        || kind is ScrollChanged
        || kind is TextChanged
        || kind is FocusChanged
        || kind is ValueChanged
        || kind is Pan
        || kind is Refresh
        || kind is Submit
        || kind is QrDetected
        || kind is Pinch
        || kind is RotateChanged
        || kind is AccessibilityAction
}

/// An event has a target exactly when its kind is one addressed to a
/// widget: pointer, gesture, scroll, text, focus, value, refresh, submit,
/// scan and accessibility events; app-wide events (lifecycle, keyboard,
/// deep links, platform results) have none.
pub proof fn lemma_event_target_follows_kind(event: Event)
    ensures
        spec_event_target(event) is Some <==> is_widget_event_kind(spec_event_kind(event)),
{
}

/// The target of an event addressed to a widget is the widget the event
/// carries: a text change goes to the input that changed, a tap to the
/// widget tapped, and so on.
pub proof fn lemma_event_target_is_carried_widget(event: Event)
    ensures
        event matches Event::Tap { target, .. } ==> spec_event_target(event) == Some(target),
        event matches Event::DoubleTap { target, .. } ==> spec_event_target(event) == Some(target),
        event matches Event::LongPress { target, .. } ==> spec_event_target(event) == Some(target),
        event matches Event::PointerDown { target, .. } ==> spec_event_target(event) == Some(target),
        event matches Event::PointerMove { target, .. } ==> spec_event_target(event) == Some(target),
        event matches Event::PointerUp { target, .. } ==> spec_event_target(event) == Some(target),
        event matches Event::ScrollChanged { target, .. } ==> spec_event_target(event) == Some(target),
        event matches Event::TextChanged { target, .. } ==> spec_event_target(event) == Some(target),
        event matches Event::FocusChanged { target, .. } ==> spec_event_target(event) == Some(target),
        event matches Event::ValueChanged { target, .. } ==> spec_event_target(event) == Some(target),
        event matches Event::PanChanged { target, .. } ==> spec_event_target(event) == Some(target),
        event matches Event::Refresh { target, .. } ==> spec_event_target(event) == Some(target),
        event matches Event::Submit { target, .. } ==> spec_event_target(event) == Some(target),
        event matches Event::QrDetected { target, .. } ==> spec_event_target(event) == Some(target),
        event matches Event::PinchChanged { target, .. } ==> spec_event_target(event) == Some(target),
        event matches Event::RotateChanged { target, .. } ==> spec_event_target(event) == Some(target),
        event matches Event::AccessibilityAction { target, .. } ==> spec_event_target(event) == Some(target),
{
}

impl Event {
    /// The kind under which handlers for this event are registered.
    pub fn kind(&self) -> (r: EventKind)
        ensures
            r == spec_event_kind(*self),
    {
        match self {
            Event::Tap { .. } => EventKind::Tap,
            Event::DoubleTap { .. } => EventKind::DoubleTap,
            Event::LongPress { .. } => EventKind::LongPress,
            Event::PointerDown { .. } => EventKind::PointerDown,
            Event::PointerMove { .. } => EventKind::PointerMove,
            Event::PointerUp { .. } => EventKind::PointerUp,
            Event::ScrollChanged { .. } => EventKind::ScrollChanged,
            Event::TextChanged { .. } => EventKind::TextChanged,
            Event::FocusChanged { .. } => EventKind::FocusChanged,
            Event::ValueChanged { .. } => EventKind::ValueChanged,
            Event::PanChanged { .. } => EventKind::Pan,
            Event::Refresh { .. } => EventKind::Refresh,
            Event::Submit { .. } => EventKind::Submit,
            Event::BackPressed => EventKind::BackPressed,
            Event::KeyboardWillShow { .. } => EventKind::KeyboardWillShow,
            Event::KeyboardWillHide => EventKind::KeyboardWillHide,
            Event::AppLifecycle(_) => EventKind::AppLifecycle,
            Event::QrDetected { .. } => EventKind::QrDetected,
            Event::PinchChanged { .. } => EventKind::Pinch,
            Event::RotateChanged { .. } => EventKind::RotateChanged,
            Event::DeepLink { .. } => EventKind::DeepLink,
            Event::BiometricResult { .. } => EventKind::BiometricResult,
            Event::LocationUpdated { .. } => EventKind::LocationUpdated,
            Event::LocationDenied => EventKind::LocationDenied,
            Event::MotionUpdated { .. } => EventKind::MotionUpdated,
            Event::MediaPicked { .. } => EventKind::MediaPicked,
            Event::MediaPickerCancelled => EventKind::MediaPickerCancelled,
            Event::DocumentPicked { .. } => EventKind::DocumentPicked,
            Event::BackgroundTaskStarted { .. } => EventKind::BackgroundTaskStarted,
            Event::PermissionChanged { .. } => EventKind::PermissionChanged,
            Event::NetworkStatusChanged { .. } => EventKind::NetworkStatusChanged,
            Event::AccessibilityAction { .. } => EventKind::AccessibilityAction,
        }
    }

    /// The widget this event is addressed to, or `None` for app-wide events.
    pub fn target(&self) -> (r: Option<WidgetId>)
        ensures
            r == spec_event_target(*self),
    {
        match self {
            Event::Tap { target, .. } => Some(*target),
            Event::DoubleTap { target, .. } => Some(*target),
            Event::LongPress { target, .. } => Some(*target),
            Event::PointerDown { target, .. } => Some(*target),
            Event::PointerMove { target, .. } => Some(*target),
            Event::PointerUp { target, .. } => Some(*target),
            Event::ScrollChanged { target, .. } => Some(*target),
            Event::TextChanged { target, .. } => Some(*target),
            Event::FocusChanged { target, .. } => Some(*target),
            Event::ValueChanged { target, .. } => Some(*target),
            Event::PanChanged { target, .. } => Some(*target),
            Event::Refresh { target, .. } => Some(*target),
            Event::Submit { target, .. } => Some(*target),
            Event::BackPressed => None,
            Event::KeyboardWillShow { .. } => None,
            Event::KeyboardWillHide => None,
            Event::AppLifecycle(_) => None,
            Event::QrDetected { target, .. } => Some(*target),
            Event::PinchChanged { target, .. } => Some(*target),
            Event::RotateChanged { target, .. } => Some(*target),
            Event::DeepLink { .. } => None,
            Event::BiometricResult { .. } => None,
            Event::LocationUpdated { .. } => None,
            Event::LocationDenied => None,
            Event::MotionUpdated { .. } => None,
            Event::MediaPicked { .. } => None,
            Event::MediaPickerCancelled => None,
            Event::DocumentPicked { .. } => None,
            Event::BackgroundTaskStarted { .. } => None,
            Event::PermissionChanged { .. } => None,
            Event::NetworkStatusChanged { .. } => None,
            Event::AccessibilityAction { target, .. } => Some(*target),
        }
    }
}

} // verus!
