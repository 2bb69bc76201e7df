//! The widget/mutation model: the data crossing the render seam.
//!
//! The engine never touches a platform view directly. Instead it produces a
//! stream of [`Mutation`]s — a flat, comparable command list — and a backend
//! applies them to real platform views. Keeping this an inspectable value type
//! is what makes the framework testable with zero platform code.
//!
//! Lengths, coordinates and other float-valued properties are carried as
//! their IEEE-754 bit patterns ([`F32Bits`], [`F64Bits`]); callbacks are
//! carried as handles into a registry owned by the platform glue.

use crate::core_types::{Color, F32Bits, F64Bits, Point, Rect, Size};
use vstd::prelude::*;

verus! {









/// A stable handle to a node in the retained element tree: an arena slot and
/// the generation of that slot.
#[derive(Debug, Clone, Copy, PartialEq, Eq, Hash)]
pub struct WidgetId {
    pub(crate) slot: u32,
    pub(crate) generation: u32,
}

/// The packed 64-bit form of a widget id: slot in the high half, generation
/// in the low half.
pub open spec fn packed_widget_id(slot: u32, generation: u32) -> nat {
    (slot as nat) * 0x1_0000_0000 + generation as nat
}

impl WidgetId {
    /// The slot of this id.
    pub closed spec fn spec_slot(self) -> u32 {
        self.slot
    }

    /// The generation of this id.
    pub closed spec fn spec_generation(self) -> u32 {
        self.generation
    }

    /// The raw slot, for debugging / inspector tooling.
    pub fn raw(self) -> (r: u32)
        ensures
            r == self.spec_slot(),
    {
        self.slot
    }

    /// Packs this id into a `u64` (slot in the high 32 bits, generation in the
    /// low 32).
    pub fn to_u64(self) -> (r: u64)
        ensures
            r as nat == packed_widget_id(self.spec_slot(), self.spec_generation()),
    {
        let s: u64 = self.slot as u64;
        let g: u64 = self.generation as u64;
        assert((s << 32u64) | g == s * 0x1_0000_0000 + g) by (bit_vector)
            requires
                s < 0x1_0000_0000,
                g < 0x1_0000_0000,
        ;
        (s << 32u64) | g
    }

    /// The id whose packed form is `bits`.
    pub closed spec fn spec_from_u64(bits: u64) -> WidgetId {
        WidgetId { slot: (bits >> 32u64) as u32, generation: bits as u32 }
    }

    /// Inverse of [`to_u64`](WidgetId::to_u64).
    pub fn from_u64(bits: u64) -> (r: WidgetId)
        ensures
            packed_widget_id(r.spec_slot(), r.spec_generation()) == bits as nat,
            r == WidgetId::spec_from_u64(bits),
    {
        let slot: u32 = (bits >> 32u64) as u32;
        let generation: u32 = bits as u32;
        assert(((bits >> 32u64) as u32) as u64 * 0x1_0000_0000 + (bits as u32) as u64 == bits)
            by (bit_vector);
        WidgetId { slot, generation }
    }
}

/// Packing a widget id and unpacking it gives the same id back.
pub proof fn lemma_widget_id_round_trip(id: WidgetId, bits: u64, back: WidgetId)
    requires
        bits as nat == packed_widget_id(id.spec_slot(), id.spec_generation()),
        packed_widget_id(back.spec_slot(), back.spec_generation()) == bits as nat,
    ensures
        back == id,
{
    let a = back.slot as int;
    let b = back.generation as int;
    let c = id.slot as int;
    let d = id.generation as int;
    assert(a == c && b == d) by (nonlinear_arith)
        requires
            a * 0x1_0000_0000 + b == c * 0x1_0000_0000 + d,
            0 <= b < 0x1_0000_0000,
            0 <= d < 0x1_0000_0000,
            0 <= a,
            0 <= c,
    ;
}



/// The kind of native view to materialize. Intentionally tiny for now; new kinds
/// are added here and matched in each backend (open/closed: the engine is closed
/// to modification, backends extend by handling new variants).
#[derive(Debug, Clone, Copy, PartialEq, Eq, Hash, Structural)]
pub enum WidgetKind {
    /// A layout container (maps to a plain `UIView` / `ViewGroup`).
    View,
    /// A text label (maps to `UILabel` / `TextView`).
    Text,
    /// A tappable button (maps to `UIButton` / `Button`).
    Button,
    /// An image view (maps to `UIImageView` / `ImageView`).
    Image,
    /// An on/off switch (maps to `UISwitch` / `Switch`).
    Switch,
    /// A value slider (maps to `UISlider` / `SeekBar`).
    Slider,
    /// A single-line editable text field (maps to `UITextField` / `EditText`).
    TextInput,
    /// A scroll container (maps to `UIScrollView` / `ScrollView`).
    Scroll,
    /// A spinning activity indicator (maps to `UIActivityIndicatorView`).
    ActivityIndicator,
    /// A determinate progress bar (maps to `UIProgressView`); uses `FloatValue`.
    Progress,
    /// A horizontal segmented control (maps to `UISegmentedControl` /
    /// `MaterialButtonToggleGroup`); segment titles come from `Items` and the
    /// selected index from `FloatValue`.
    Segmented,
    /// A -/+ stepper for a bounded numeric value (maps to `UIStepper`); the
    /// current value comes from `FloatValue` and the bounds from `Range`.
    Stepper,
    /// A native date/time picker (maps to `UIDatePicker`); current value is
    /// epoch seconds via `DateValue`.
    DatePicker,
    /// A multi-line editable text area (maps to `UITextView`).
    TextArea,
    /// An absolute-position container — children layer on top of each other (ZStack).
    Stack,
    /// A camera preview view that optionally decodes QR codes (maps to an
    /// `AVCaptureSession`-backed `UIView`).
    Camera,
    /// An embedded web view (WKWebView). Receives a URL or HTML string via Attribute::Url.
    WebView,
    /// A virtualized, recycling list widget (maps to UITableView on iOS).
    LazyList,
    /// A map view (MKMapView).
    MapView,
    /// A vector drawing surface rendered from a [`DrawList`](Attribute::DrawList)
    /// of [`DrawCmd`]s (maps to a `CALayer`-backed `UIView` on iOS). The chart
    /// builders in `crate::view` produce one of these.
    Canvas,
}

/// A local notification to schedule via the UserNotifications framework.
#[derive(Debug, Clone, PartialEq)]
pub struct LocalNotification {
    /// Unique identifier for this notification (used to cancel it later).
    pub id: String,
    /// The notification title.
    pub title: String,
    /// The notification body text.
    pub body: String,
    /// Delay in seconds from now before the notification fires. 0 = 1 second (minimum).
    pub delay_seconds: u32,
}

/// A platform permission Raxon can check or request.
#[derive(Debug, Clone, Copy, PartialEq, Eq, Hash, Structural)]
pub enum PermissionKind {
    /// Foreground location access.
    Location,
    /// Camera capture / preview access.
    Camera,
    /// Microphone capture access.
    Microphone,
    /// Photo-library read access.
    Photos,
    /// User notification authorization.
    Notifications,
    /// Motion sensor access.
    Motion,
}

/// Current platform authorization state for a [`PermissionKind`].
#[derive(Debug, Clone, Copy, PartialEq, Eq, Hash, Structural)]
pub enum PermissionStatus {
    /// The backend has not reported a value yet.
    Unknown,
    /// The permission is not supported on this platform.
    Unsupported,
    /// The OS can still prompt the user.
    NotDetermined,
    /// The OS or device policy restricts the permission.
    Restricted,
    /// The user denied the permission.
    Denied,
    /// The permission is granted.
    Granted,
    /// The permission is granted for a limited subset, such as selected photos.
    Limited,
}

/// iOS `UIKeyboardType` — the style of keyboard shown for a text input.
#[derive(Debug, Clone, Copy, PartialEq, Eq, Hash, Structural)]
pub enum KeyboardType {
    /// The default keyboard for the current input method.
    Default,
    /// A keyboard that displays standard ASCII characters.
    Ascii,
    /// A keyboard that displays numbers and punctuation.
    NumbersAndPunctuation,
    /// A keyboard optimized for URL entry.
    Url,
    /// A numeric keypad (0–9 only).
    NumberPad,
    /// A keypad for entering phone numbers.
    PhonePad,
    /// A keypad for name or phone number entry.
    NamePhonePad,
    /// A keyboard optimized for email address entry.
    Email,
    /// A numeric keypad that can also display a decimal point.
    DecimalPad,
}

impl KeyboardType {
    /// The variant's name as the derived `Debug` output spells it.
    pub open spec fn spec_label(self) -> Seq<char> {
        match self {
            KeyboardType::Default => "Default"@,
            KeyboardType::Ascii => "Ascii"@,
            KeyboardType::NumbersAndPunctuation => "NumbersAndPunctuation"@,
            KeyboardType::Url => "Url"@,
            KeyboardType::NumberPad => "NumberPad"@,
            KeyboardType::PhonePad => "PhonePad"@,
            KeyboardType::NamePhonePad => "NamePhonePad"@,
            KeyboardType::Email => "Email"@,
            KeyboardType::DecimalPad => "DecimalPad"@,
        }
    }

    /// The variant's name as the derived `Debug` output spells it; the wire
    /// encodings carry enum values in this form.
    pub fn label(&self) -> (r: String)
        ensures
            r@ == self.spec_label(),
    {
        match self {
            KeyboardType::Default => "Default".to_owned(),
            KeyboardType::Ascii => "Ascii".to_owned(),
            KeyboardType::NumbersAndPunctuation => "NumbersAndPunctuation".to_owned(),
            KeyboardType::Url => "Url".to_owned(),
            KeyboardType::NumberPad => "NumberPad".to_owned(),
            KeyboardType::PhonePad => "PhonePad".to_owned(),
            KeyboardType::NamePhonePad => "NamePhonePad".to_owned(),
            KeyboardType::Email => "Email".to_owned(),
            KeyboardType::DecimalPad => "DecimalPad".to_owned(),
        }
    }
}

/// The label on the keyboard's return key.
#[derive(Debug, Clone, Copy, PartialEq, Eq, Hash, Structural)]
pub enum ReturnKeyType {
    /// Default label.
    Default,
    /// "Done" label.
    Done,
    /// "Go" label.
    Go,
    /// "Search" label.
    Search,
    /// "Send" label.
    Send,
    /// "Next" label.
    Next,
}

impl ReturnKeyType {
    /// The variant's name as the derived `Debug` output spells it.
    pub open spec fn spec_label(self) -> Seq<char> {
        match self {
            ReturnKeyType::Default => "Default"@,
            ReturnKeyType::Done => "Done"@,
            ReturnKeyType::Go => "Go"@,
            ReturnKeyType::Search => "Search"@,
            ReturnKeyType::Send => "Send"@,
            ReturnKeyType::Next => "Next"@,
        }
    }

    /// The variant's name as the derived `Debug` output spells it; the wire
    /// encodings carry enum values in this form.
    pub fn label(&self) -> (r: String)
        ensures
            r@ == self.spec_label(),
    {
        match self {
            ReturnKeyType::Default => "Default".to_owned(),
            ReturnKeyType::Done => "Done".to_owned(),
            ReturnKeyType::Go => "Go".to_owned(),
            ReturnKeyType::Search => "Search".to_owned(),
            ReturnKeyType::Send => "Send".to_owned(),
            ReturnKeyType::Next => "Next".to_owned(),
        }
    }
}

/// Horizontal text alignment.
#[derive(Debug, Clone, Copy, PartialEq, Eq, Hash, Structural)]
pub enum TextAlign {
    /// Leading edge (left in LTR).
    Start,
    /// Centered.
    Center,
    /// Trailing edge (right in LTR).
    End,
}

impl TextAlign {
    /// The variant's name as the derived `Debug` output spells it.
    pub open spec fn spec_label(self) -> Seq<char> {
        match self {
            TextAlign::Start => "Start"@,
            TextAlign::Center => "Center"@,
            TextAlign::End => "End"@,
        }
    }

    /// The variant's name as the derived `Debug` output spells it; the wire
    /// encodings carry enum values in this form.
    pub fn label(&self) -> (r: String)
        ensures
            r@ == self.spec_label(),
    {
        match self {
            TextAlign::Start => "Start".to_owned(),
            TextAlign::Center => "Center".to_owned(),
            TextAlign::End => "End".to_owned(),
        }
    }
}

impl Default for TextAlign {
    fn default() -> (r: Self)
        ensures
            r == TextAlign::Start,
    {
        TextAlign::Start
    }
}

/// Accessibility role, mapped to platform a11y traits (VoiceOver/TalkBack).
#[derive(Debug, Clone, Copy, PartialEq, Eq, Hash, Structural)]
pub enum Role {
    /// No special role.
    Plain,
    /// Activatable button.
    Button,
    /// Section header.
    Header,
    /// Image/graphic.
    Image,
    /// Link.
    Link,
    /// Adjustable (slider-like).
    Adjustable,
    /// Search field.
    Search,
}

impl Role {
    /// The variant's name as the derived `Debug` output spells it.
    pub open spec fn spec_label(self) -> Seq<char> {
        match self {
            Role::Plain => "None"@,
            Role::Button => "Button"@,
            Role::Header => "Header"@,
            Role::Image => "Image"@,
            Role::Link => "Link"@,
            Role::Adjustable => "Adjustable"@,
            Role::Search => "Search"@,
        }
    }

    /// The variant's name as the derived `Debug` output spells it; the wire
    /// encodings carry enum values in this form.
    pub fn label(&self) -> (r: String)
        ensures
            r@ == self.spec_label(),
    {
        match self {
            Role::Plain => "None".to_owned(),
            Role::Button => "Button".to_owned(),
            Role::Header => "Header".to_owned(),
            Role::Image => "Image".to_owned(),
            Role::Link => "Link".to_owned(),
            Role::Adjustable => "Adjustable".to_owned(),
            Role::Search => "Search".to_owned(),
        }
    }
}

impl Default for Role {
    fn default() -> (r: Self)
        ensures
            r == Role::Plain,
    {
        Role::Plain
    }
}

/// Layout direction for a view and all of its descendants.
///
/// Maps to `UISemanticContentAttribute` on iOS so that `UIView` subviews,
/// text, and gesture directions are automatically mirrored for RTL locales.
#[derive(Debug, Clone, Copy, PartialEq, Eq, Hash, Structural)]
pub enum LayoutDirection {
    /// Left-to-right layout (the default on most locales).
    Ltr,
    /// Right-to-left layout (Arabic, Hebrew, Persian, …).
    Rtl,
}

impl LayoutDirection {
    /// The variant's name as the derived `Debug` output spells it.
    pub open spec fn spec_label(self) -> Seq<char> {
        match self {
            LayoutDirection::Ltr => "Ltr"@,
            LayoutDirection::Rtl => "Rtl"@,
        }
    }

    /// The variant's name as the derived `Debug` output spells it; the wire
    /// encodings carry enum values in this form.
    pub fn label(&self) -> (r: String)
        ensures
            r@ == self.spec_label(),
    {
        match self {
            LayoutDirection::Ltr => "Ltr".to_owned(),
            LayoutDirection::Rtl => "Rtl".to_owned(),
        }
    }
}

/// The style of haptic feedback to generate, mapping to iOS feedback generators.
#[derive(Debug, Clone, Copy, PartialEq, Eq, Hash, Structural)]
pub enum HapticStyle {
    /// Light impact (`UIImpactFeedbackGenerator` style light).
    Light,
    /// Medium impact (`UIImpactFeedbackGenerator` style medium).
    Medium,
    /// Heavy impact (`UIImpactFeedbackGenerator` style heavy).
    Heavy,
    /// Selection changed feedback (`UISelectionFeedbackGenerator`).
    Selection,
    /// Success notification (`UINotificationFeedbackGenerator`).
    Success,
    /// Warning notification (`UINotificationFeedbackGenerator`).
    Warning,
    /// Error notification (`UINotificationFeedbackGenerator`).
    Error,
}

impl HapticStyle {
    /// The variant's name as the derived `Debug` output spells it.
    pub open spec fn spec_label(self) -> Seq<char> {
        match self {
            HapticStyle::Light => "Light"@,
            HapticStyle::Medium => "Medium"@,
            HapticStyle::Heavy => "Heavy"@,
            HapticStyle::Selection => "Selection"@,
            HapticStyle::Success => "Success"@,
            HapticStyle::Warning => "Warning"@,
            HapticStyle::Error => "Error"@,
        }
    }

    /// The variant's name as the derived `Debug` output spells it; the wire
    /// encodings carry enum values in this form.
    pub fn label(&self) -> (r: String)
        ensures
            r@ == self.spec_label(),
    {
        match self {
            HapticStyle::Light => "Light".to_owned(),
            HapticStyle::Medium => "Medium".to_owned(),
            HapticStyle::Heavy => "Heavy".to_owned(),
            HapticStyle::Selection => "Selection".to_owned(),
            HapticStyle::Success => "Success".to_owned(),
            HapticStyle::Warning => "Warning".to_owned(),
            HapticStyle::Error => "Error".to_owned(),
        }
    }
}

/// A gesture a widget should recognize (the backend attaches a recognizer).
#[derive(Debug, Clone, Copy, PartialEq, Eq, Hash, Structural)]
pub enum GestureKind {
    /// Single tap.
    Tap,
    /// Double tap.
    DoubleTap,
    /// Long press.
    LongPress,
    /// Pan / drag (continuous; reports translation + velocity).
    Pan,
    /// Pinch / scale (continuous; reports scale factor + velocity).
    Pinch,
    /// Rotation gesture (continuous; reports rotation in radians + velocity).
    Rotate,
    /// Swipe in a cardinal direction (discrete).
    Swipe,
}

impl GestureKind {
    /// The variant's name as the derived `Debug` output spells it.
    pub open spec fn spec_label(self) -> Seq<char> {
        match self {
            GestureKind::Tap => "Tap"@,
            GestureKind::DoubleTap => "DoubleTap"@,
            GestureKind::LongPress => "LongPress"@,
            GestureKind::Pan => "Pan"@,
            GestureKind::Pinch => "Pinch"@,
            GestureKind::Rotate => "Rotate"@,
            GestureKind::Swipe => "Swipe"@,
        }
    }

    /// The variant's name as the derived `Debug` output spells it; the wire
    /// encodings carry enum values in this form.
    pub fn label(&self) -> (r: String)
        ensures
            r@ == self.spec_label(),
    {
        match self {
            GestureKind::Tap => "Tap".to_owned(),
            GestureKind::DoubleTap => "DoubleTap".to_owned(),
            GestureKind::LongPress => "LongPress".to_owned(),
            GestureKind::Pan => "Pan".to_owned(),
            GestureKind::Pinch => "Pinch".to_owned(),
            GestureKind::Rotate => "Rotate".to_owned(),
            GestureKind::Swipe => "Swipe".to_owned(),
        }
    }
}

/// Cardinal direction for a swipe gesture.
#[derive(Debug, Clone, Copy, PartialEq, Eq, Hash, Structural)]
pub enum SwipeDirection {
    /// Swipe toward the left edge.
    Left,
    /// Swipe toward the right edge.
    Right,
    /// Swipe toward the top edge.
    Up,
    /// Swipe toward the bottom edge.
    Down,
}

impl SwipeDirection {
    /// The variant's name as the derived `Debug` output spells it.
    pub open spec fn spec_label(self) -> Seq<char> {
        match self {
            SwipeDirection::Left => "Left"@,
            SwipeDirection::Right => "Right"@,
            SwipeDirection::Up => "Up"@,
            SwipeDirection::Down => "Down"@,
        }
    }

    /// The variant's name as the derived `Debug` output spells it; the wire
    /// encodings carry enum values in this form.
    pub fn label(&self) -> (r: String)
        ensures
            r@ == self.spec_label(),
    {
        match self {
            SwipeDirection::Left => "Left".to_owned(),
            SwipeDirection::Right => "Right".to_owned(),
            SwipeDirection::Up => "Up".to_owned(),
            SwipeDirection::Down => "Down".to_owned(),
        }
    }
}

/// Mouse / pointer cursor style. On mobile this is a no-op; on desktop / iPad
/// pointer-device contexts it controls the system cursor shape.
#[derive(Debug, Clone, Copy, PartialEq, Eq, Hash, Structural)]
pub enum CursorStyle {
    /// The default system cursor (arrow).
    Default,
    /// A pointing-hand cursor, e.g. for links and buttons.
    Pointer,
    /// An I-beam cursor, e.g. for text fields.
    Text,
    /// An open-hand (grab) cursor, e.g. for draggable content.
    Grab,
}

impl CursorStyle {
    /// The variant's name as the derived `Debug` output spells it.
    pub open spec fn spec_label(self) -> Seq<char> {
        match self {
            CursorStyle::Default => "Default"@,
            CursorStyle::Pointer => "Pointer"@,
            CursorStyle::Text => "Text"@,
            CursorStyle::Grab => "Grab"@,
        }
    }

    /// The variant's name as the derived `Debug` output spells it; the wire
    /// encodings carry enum values in this form.
    pub fn label(&self) -> (r: String)
        ensures
            r@ == self.spec_label(),
    {
        match self {
            CursorStyle::Default => "Default".to_owned(),
            CursorStyle::Pointer => "Pointer".to_owned(),
            CursorStyle::Text => "Text".to_owned(),
            CursorStyle::Grab => "Grab".to_owned(),
        }
    }
}

/// Controls how the keyboard is dismissed when the user drags a scroll view.
///
/// Maps to `UIScrollView.keyboardDismissMode` on iOS.
#[derive(Debug, Clone, Copy, PartialEq, Eq, Hash, Structural)]
pub enum KeyboardDismissMode {
    /// The keyboard is not dismissed automatically (default).
    Manual,
    /// The keyboard is dismissed when a drag begins.
    OnDrag,
    /// The keyboard follows the drag gesture interactively.
    Interactive,
}

impl KeyboardDismissMode {
    /// The variant's name as the derived `Debug` output spells it.
    pub open spec fn spec_label(self) -> Seq<char> {
        match self {
            KeyboardDismissMode::Manual => "None"@,
            KeyboardDismissMode::OnDrag => "OnDrag"@,
            KeyboardDismissMode::Interactive => "Interactive"@,
        }
    }

    /// The variant's name as the derived `Debug` output spells it; the wire
    /// encodings carry enum values in this form.
    pub fn label(&self) -> (r: String)
        ensures
            r@ == self.spec_label(),
    {
        match self {
            KeyboardDismissMode::Manual => "None".to_owned(),
            KeyboardDismissMode::OnDrag => "OnDrag".to_owned(),
            KeyboardDismissMode::Interactive => "Interactive".to_owned(),
        }
    }
}

/// Date picker display mode.
#[derive(Debug, Clone, Copy, PartialEq, Eq, Hash, Structural)]
pub enum DatePickerMode {
    /// Calendar date only.
    Date,
    /// Time of day only.
    Time,
    /// Calendar date and time of day.
    DateTime,
}

impl DatePickerMode {
    /// The variant's name as the derived `Debug` output spells it.
    pub open spec fn spec_label(self) -> Seq<char> {
        match self {
            DatePickerMode::Date => "Date"@,
            DatePickerMode::Time => "Time"@,
            DatePickerMode::DateTime => "DateTime"@,
        }
    }

    /// The variant's name as the derived `Debug` output spells it; the wire
    /// encodings carry enum values in this form.
    pub fn label(&self) -> (r: String)
        ensures
            r@ == self.spec_label(),
    {
        match self {
            DatePickerMode::Date => "Date".to_owned(),
            DatePickerMode::Time => "Time".to_owned(),
            DatePickerMode::DateTime => "DateTime".to_owned(),
        }
    }
}

/// Native date picker presentation style.
#[derive(Debug, Clone, Copy, PartialEq, Eq, Hash, Structural)]
pub enum DatePickerStyle {
    /// Let the platform choose.
    Automatic,
    /// Wheel picker.
    Wheels,
    /// Compact field that opens the picker in an overlay.
    Compact,
    /// Inline calendar/time controls.
    Inline,
}

impl DatePickerStyle {
    /// The variant's name as the derived `Debug` output spells it.
    pub open spec fn spec_label(self) -> Seq<char> {
        match self {
            DatePickerStyle::Automatic => "Automatic"@,
            DatePickerStyle::Wheels => "Wheels"@,
            DatePickerStyle::Compact => "Compact"@,
            DatePickerStyle::Inline => "Inline"@,
        }
    }

    /// The variant's name as the derived `Debug` output spells it; the wire
    /// encodings carry enum values in this form.
    pub fn label(&self) -> (r: String)
        ensures
            r@ == self.spec_label(),
    {
        match self {
            DatePickerStyle::Automatic => "Automatic".to_owned(),
            DatePickerStyle::Wheels => "Wheels".to_owned(),
            DatePickerStyle::Compact => "Compact".to_owned(),
            DatePickerStyle::Inline => "Inline".to_owned(),
        }
    }
}

/// A callback registered by the platform glue, named by its handle.
///
/// Equality is identity of the handle, so re-setting a callback attribute with
/// a fresh registration always compares unequal and triggers a re-render.
#[derive(Debug, Clone, Copy, PartialEq, Eq, Hash, Structural)]
pub struct Callback(pub u64);

/// A callback that receives the scroll position, named by its handle.
#[derive(Debug, Clone, Copy, PartialEq, Eq, Hash, Structural)]
pub struct ScrollCallback(pub u64);

/// A callback fired when an image loads successfully, named by its handle.
#[derive(Debug, Clone, Copy, PartialEq, Eq, Hash, Structural)]
pub struct ImageLoadCallback(pub u64);

/// A callback fired with a short error description when an image fails to
/// load, named by its handle.
#[derive(Debug, Clone, Copy, PartialEq, Eq, Hash, Structural)]
pub struct ImageErrorCallback(pub u64);

/// A single settable **paint** property on a widget.
///
/// These are forwarded to the backend and not retained. Layout *inputs*
/// (direction, padding, gap, size) are not here — they live in
/// [`LayoutStyle`](crate::core::LayoutStyle), retained on the node, and produce
/// [`Mutation::SetFrame`] via the layout pass.
#[derive(Debug, Clone, PartialEq)]
pub enum Attribute {
    /// Text content (valid on [`WidgetKind::Text`]/[`WidgetKind::Button`]).
    Text(String),
    /// Font size in logical pixels.
    FontSize(F32Bits),
    /// Foreground / text color.
    TextColor(Color),
    /// Background fill.
    BackgroundColor(Color),
    /// Corner radius in logical points (rounds the view's layer).
    CornerRadius(F32Bits),
    /// Opacity, `0.0` transparent .. `1.0` opaque.
    Opacity(F32Bits),
    /// Border width in logical points.
    BorderWidth(F32Bits),
    /// Border color.
    BorderColor(Color),
    /// Drop shadow.
    Shadow(Shadow),
    /// Image source: an asset name or system-symbol name.
    ImageSource(String),
    /// Boolean value (e.g. a switch's on/off state).
    BoolValue(bool),
    /// Floating-point value (e.g. a slider's position, `0.0..=1.0`).
    FloatValue(F32Bits),
    /// Tint color (e.g. image tint, control accent).
    TintColor(Color),
    /// Placeholder text (e.g. for a text field).
    Placeholder(String),
    /// An ordered list of string items (e.g. segmented-control titles).
    Items(Vec<String>),
    /// A bounded numeric range with a step increment (e.g. for a stepper or a
    /// ranged slider): `(min, max, step)`.
    Range {
        min: F32Bits,
        max: F32Bits,
        step: F32Bits,
    },
    /// Accessibility label read by screen readers.
    AccessibilityLabel(String),
    /// Accessibility hint — describes the result of activating this element
    /// (e.g. "Opens the settings screen"). Read by VoiceOver after the label.
    AccessibilityHint(String),
    /// Accessibility role / traits.
    AccessibilityRole(Role),
    /// Whether this element is hidden from assistive technologies. Use `true`
    /// for purely decorative elements that add no semantic value.
    AccessibilityHidden(bool),
    /// Layout direction for this view and its subtree.
    Direction(LayoutDirection),
    /// Font weight (100–900, where 400 is regular and 700 is bold).
    FontWeight(F32Bits),
    /// Italic style.
    Italic(bool),
    /// Horizontal text alignment.
    TextAlign(TextAlign),
    /// A 2D affine transform (scale/rotate/translate) on the rendered view.
    Transform(Transform),
    /// A linear gradient background fill.
    Gradient(LinearGradient),
    /// Number of lines for a text label (0 = unlimited).
    NumberOfLines(u32),
    /// Raw image bytes (PNG/JPEG) to display in an image view.
    ImageData(Vec<u8>),
    /// Whether the scroll view scrolls horizontally instead of vertically.
    Horizontal(bool),
    /// Enables pull-to-refresh on a scroll view; the value is whether it's currently refreshing.
    Refreshing(bool),
    /// Label on the keyboard's return key.
    ReturnKey(ReturnKeyType),
    /// Whether the text field is secure (password).
    Secure(bool),
    /// Enables QR code scanning on a Camera widget.
    QrScanning(bool),
    /// Custom font family by PostScript name (e.g. `"Georgia-Bold"`). Falls
    /// back to the system font if the name is not found on device.
    FontFamily(String),
    /// Keyboard type for text inputs (maps to `UIKeyboardType` on iOS).
    KeyboardType(KeyboardType),
    /// Rich text with inline spans (overrides `Text` if present).
    RichText(Vec<TextSpan>),
    /// URL to load in a WebView widget.
    Url(String),
    /// Raw HTML to load in a WebView widget.
    Html(String),
    /// Use a dynamic-type text style instead of a fixed font size.
    TextStyle(TextStyle),
    /// Native date picker mode.
    DatePickerMode(DatePickerMode),
    /// Native date picker presentation style.
    DatePickerStyle(DatePickerStyle),
    /// Native date picker current value as seconds since the Unix epoch.
    DateValue(F64Bits),
    /// Minimum selectable date as seconds since the Unix epoch.
    DateMin(F64Bits),
    /// Maximum selectable date as seconds since the Unix epoch.
    DateMax(F64Bits),
    /// For LazyList: total number of items in the data set.
    ItemCount(usize),
    /// For LazyList: estimated height per item in points.
    EstimatedItemHeight(F32Bits),
    /// When true, animate any frame changes to this view with a spring.
    AnimateLayout(bool),
    /// For MapView: set the center coordinate.
    MapCenter {
        latitude: F64Bits,
        longitude: F64Bits,
    },
    /// For MapView: set the zoom level (degrees of span; smaller = more zoomed in).
    MapSpan {
        lat_span: F64Bits,
        lon_span: F64Bits,
    },
    /// For MapView: add or update an annotation at a coordinate.
    MapAnnotation {
        annotation_id: String,
        latitude: F64Bits,
        longitude: F64Bits,
        title: String,
    },
    /// Whether this element is currently selected (e.g. a list row, tab, or
    /// toggle). Maps to `accessibilityTraits.selected` on iOS.
    AccessibilitySelected(bool),
    /// Whether this element is disabled. Maps to `accessibilityTraits.notEnabled`
    /// on iOS / `ViewCompat.setEnabled(false)` on Android.
    AccessibilityDisabled(bool),
    /// Whether this element represents an expanded disclosure region.
    /// Maps to `UIAccessibilityTraitNone` + custom state on iOS.
    AccessibilityExpanded(bool),
    /// Whether this element is currently loading or updating content.
    /// Maps to `accessibilityTraits.updatesFrequently` on iOS.
    AccessibilityBusy(bool),
    /// Extra touch area beyond the view's bounds, in points.
    /// Maps to `UIView` hit-test override on iOS / `TouchDelegate` on Android.
    HitSlop {
        top: F32Bits,
        right: F32Bits,
        bottom: F32Bits,
        left: F32Bits,
    },
    /// Letter spacing (tracking) in points. Maps to `NSKernAttributeName` on iOS.
    LetterSpacing(F32Bits),
    /// Line height multiplier. Maps to `NSParagraphStyle.lineSpacing` on iOS.
    LineHeight(F32Bits),
    /// Text decoration (underline / strikethrough). Maps to NSUnderline /
    /// NSStrikethrough attribute keys on iOS.
    TextDecoration(TextDecoration),
    /// Text shadow. Maps to `NSShadowAttributeName` on iOS.
    TextShadow {
        color: Color,
        offset_x: F32Bits,
        offset_y: F32Bits,
        blur: F32Bits,
    },
    /// Enable or disable scrolling on a scroll view (`UIScrollView.isScrollEnabled`).
    ScrollEnabled(bool),
    /// Show or hide both horizontal and vertical scroll indicators
    /// (`UIScrollView.showsHorizontalScrollIndicator` /
    /// `UIScrollView.showsVerticalScrollIndicator`).
    ShowsScrollIndicator(bool),
    /// Enable paged scrolling so the scroll view snaps to page boundaries
    /// (`UIScrollView.isPagingEnabled`). Used by carousel-style layouts.
    PagingEnabled(bool),
    /// Inset the scrollable content area from each edge, in points
    /// (`UIScrollView.contentInset`).
    ContentInset {
        top: F32Bits,
        right: F32Bits,
        bottom: F32Bits,
        left: F32Bits,
    },
    /// Fires when a touch begins on this view (touch-down / press-in).
    OnPressIn(Callback),
    /// Fires when a touch ends (or is cancelled) on this view (press-out).
    OnPressOut(Callback),
    /// Pointer cursor style shown over this view on pointer-device contexts.
    /// No-op on touch-only platforms.
    Cursor(CursorStyle),
    /// Fires when the user performs a swipe gesture in `direction`.
    OnSwipe {
        direction: SwipeDirection,
        handler: Callback,
    },
    /// Color applied to the placeholder text of a text field.
    PlaceholderColor(Color),
    /// A short label shown to the left of the text field's content (prefix).
    InputPrefix(String),
    /// A short label shown to the right of the text field's content (suffix).
    InputSuffix(String),
    /// Show or hide the built-in clear (×) button on a text field.
    ClearButton(bool),
    /// If `true`, the text field / area is non-editable (read-only).
    ReadOnly(bool),
    /// Maximum number of characters the text field will accept.
    MaxLength(usize),
    /// Blur / backdrop-filter effect radius in points. iOS maps to
    /// `UIBlurEffect` + `UIVisualEffectView` as a subview.
    BlurRadius(F32Bits),
    /// Clip subviews to the view's bounds (`clipsToBounds` / `masksToBounds`).
    ClipToBounds(bool),
    /// Z-order on the CALayer (higher values render on top of lower ones).
    ZIndex(i32),
    /// The visual style of the iOS status bar (dark / light / auto).
    /// Maps to `UIStatusBarStyle` on iOS.
    StatusBarStyle(StatusBarStyle),
    /// Enforce a fixed width-to-height aspect ratio on this view.
    /// Maps to an `NSLayoutConstraint` aspect-ratio constraint on iOS.
    AspectRatio(F32Bits),
    /// Flex order (CSS `order`). Lower values render/lay-out first.
    /// Maps to `UIStackView` ordering or manual sort in the backend.
    FlexOrder(i32),
    /// Whether the text in this label is user-selectable (copy/select).
    /// On iOS, enabling requires a `UITextView` swap — set as a hint for now.
    UserSelectText(bool),
    /// Paragraph spacing in points added after each paragraph break.
    /// Maps to `NSParagraphStyle.paragraphSpacing` on iOS.
    ParagraphSpacing(F32Bits),
    /// Italic / oblique style for a text label.
    /// Maps to `UIFont.italicSystemFont` or a slanted variant on iOS.
    FontStyle(FontStyle),
    /// Group this element's children into a single accessibility container.
    /// When `true`, the view itself is not an accessibility element but its
    /// children are grouped. Maps to `isAccessibilityElement = false` on iOS.
    AccessibilityGroup(bool),
    /// Heading level for this element (1–6). When `level > 0`, adds the
    /// `UIAccessibilityTraitHeader` bitmask (0x10000) to the view's traits.
    /// Level 0 means no heading.
    AccessibilityHeadingLevel(u8),
    /// Named custom accessibility actions to expose on this element.
    /// Each string becomes a `UIAccessibilityCustomAction` on iOS and emits
    /// [`Event::AccessibilityAction`](crate::dom::Event::AccessibilityAction)
    /// when selected.
    AccessibilityActions(Vec<String>),
    /// When `true`, the view's font adjusts for the user's preferred content
    /// size category (Dynamic Type). Maps to
    /// `adjustsFontForContentSizeCategory = true` on iOS.
    DynamicType(bool),
    /// A string read by VoiceOver as the element's current value (e.g. "50%"
    /// for a progress indicator). Maps to `accessibilityValue` on iOS.
    AccessibilityValueString(String),
    /// Fires continuously while the user scrolls a scroll view, reporting
    /// the current offset and estimated velocity.
    OnScrollChange(ScrollCallback),
    /// Fires when the user begins dragging a scroll view.
    OnScrollBegin(Callback),
    /// Fires when the scroll view comes to rest after scrolling.
    OnScrollEnd(Callback),
    /// How the keyboard is dismissed when the user drags a scroll view.
    /// Maps to `UIScrollView.keyboardDismissMode` on iOS.
    KeyboardDismissMode(KeyboardDismissMode),
    /// How the image view scales/positions its content to fit its bounds.
    /// Maps to `UIView.contentMode` on iOS.
    ImageResizeMode(ImageResizeMode),
    /// Fired when the image view successfully loads its image.
    /// iOS: fired for native asset/system-symbol and decoded raw-data loads.
    ImageOnLoad(ImageLoadCallback),
    /// Fired when the image view fails to load its image.
    /// The `String` argument carries a short error description.
    /// iOS: fired for missing native sources and undecodable raw image data.
    ImageOnError(ImageErrorCallback),
    /// The list of vector commands to render on a [`WidgetKind::Canvas`].
    /// Re-applying replaces the previous drawing.
    DrawList(Vec<DrawCmd>),
    /// A long-press context menu for any view: an ordered list of menu items.
    /// On iOS this installs a `UIContextMenuInteraction`.
    ContextMenu(Vec<MenuItem>),
}

/// One entry in a [`ContextMenu`](Attribute::ContextMenu).
///
/// Selecting the item invokes its `action`; equality compares title, icon,
/// style and the action's handle.
#[derive(Debug, Clone, PartialEq)]
pub struct MenuItem {
    /// The menu row's title.
    pub title: String,
    /// Optional leading SF Symbol name (e.g. `"trash"`); `None` for no icon.
    pub icon: Option<String>,
    /// Whether the item is rendered in a destructive (red) style.
    pub destructive: bool,
    /// Invoked when the user selects this item.
    pub action: Callback,
}

impl MenuItem {
    /// A menu item titled `title` that runs `action` when selected.
    pub fn new(title: &str, action: Callback) -> (r: MenuItem)
        ensures
            r.title@ == title@,
            r.icon is None,
            !r.destructive,
            r.action == action,
    {
        MenuItem { title: title.to_owned(), icon: None, destructive: false, action }
    }

    /// Adds a leading SF Symbol icon (e.g. `"trash"`).
    pub fn icon(self, name: &str) -> (r: MenuItem)
        ensures
            r.title == self.title,
            r.icon matches Some(i) && i@ == name@,
            r.destructive == self.destructive,
            r.action == self.action,
    {
        MenuItem { icon: Some(name.to_owned()), ..self }
    }

    /// Renders the item in a destructive (red) style.
    pub fn destructive(self) -> (r: MenuItem)
        ensures
            r == (MenuItem { destructive: true, ..self }),
    {
        MenuItem { destructive: true, ..self }
    }
}

/// How an image view scales/positions its content to fit its bounds.
///
/// Maps to `UIView.contentMode` on iOS.
#[derive(Debug, Clone, Copy, PartialEq, Eq, Hash, Structural)]
pub enum ImageResizeMode {
    /// Scale to fill, clipping excess (UIViewContentModeScaleAspectFill = 1).
    Cover,
    /// Scale to fit, letter-boxing if needed (UIViewContentModeScaleAspectFit = 2).
    Contain,
    /// Scale to fill the bounds exactly, ignoring aspect ratio
    /// (UIViewContentModeScaleToFill = 0).
    Stretch,
    /// Center without scaling (UIViewContentModeCenter = 4).
    Center,
    /// Tile the image (stub; actual tiling requires a CALayer pattern fill).
    Repeat,
}

impl ImageResizeMode {
    /// The variant's name as the derived `Debug` output spells it.
    pub open spec fn spec_label(self) -> Seq<char> {
        match self {
            ImageResizeMode::Cover => "Cover"@,
            ImageResizeMode::Contain => "Contain"@,
            ImageResizeMode::Stretch => "Stretch"@,
            ImageResizeMode::Center => "Center"@,
            ImageResizeMode::Repeat => "Repeat"@,
        }
    }

    /// The variant's name as the derived `Debug` output spells it; the wire
    /// encodings carry enum values in this form.
    pub fn label(&self) -> (r: String)
        ensures
            r@ == self.spec_label(),
    {
        match self {
            ImageResizeMode::Cover => "Cover".to_owned(),
            ImageResizeMode::Contain => "Contain".to_owned(),
            ImageResizeMode::Stretch => "Stretch".to_owned(),
            ImageResizeMode::Center => "Center".to_owned(),
            ImageResizeMode::Repeat => "Repeat".to_owned(),
        }
    }
}

/// The visual style of the iOS status bar.
#[derive(Debug, Clone, Copy, PartialEq, Eq, Hash, Structural)]
pub enum StatusBarStyle {
    /// Dark content (use on light backgrounds).
    Dark,
    /// Light content (use on dark backgrounds).
    Light,
    /// Follows the system / device appearance setting.
    Auto,
}

impl StatusBarStyle {
    /// The variant's name as the derived `Debug` output spells it.
    pub open spec fn spec_label(self) -> Seq<char> {
        match self {
            StatusBarStyle::Dark => "Dark"@,
            StatusBarStyle::Light => "Light"@,
            StatusBarStyle::Auto => "Auto"@,
        }
    }

    /// The variant's name as the derived `Debug` output spells it; the wire
    /// encodings carry enum values in this form.
    pub fn label(&self) -> (r: String)
        ensures
            r@ == self.spec_label(),
    {
        match self {
            StatusBarStyle::Dark => "Dark".to_owned(),
            StatusBarStyle::Light => "Light".to_owned(),
            StatusBarStyle::Auto => "Auto".to_owned(),
        }
    }
}

/// Text decoration applied to a label or span.
#[derive(Debug, Clone, Copy, PartialEq, Eq, Hash, Structural)]
pub enum TextDecoration {
    /// No decoration.
    Plain,
    /// Single underline.
    Underline,
    /// Horizontal strikethrough.
    Strikethrough,
    /// Double underline.
    UnderlineDouble,
}

impl TextDecoration {
    /// The variant's name as the derived `Debug` output spells it.
    pub open spec fn spec_label(self) -> Seq<char> {
        match self {
            TextDecoration::Plain => "None"@,
            TextDecoration::Underline => "Underline"@,
            TextDecoration::Strikethrough => "Strikethrough"@,
            TextDecoration::UnderlineDouble => "UnderlineDouble"@,
        }
    }

    /// The variant's name as the derived `Debug` output spells it; the wire
    /// encodings carry enum values in this form.
    pub fn label(&self) -> (r: String)
        ensures
            r@ == self.spec_label(),
    {
        match self {
            TextDecoration::Plain => "None".to_owned(),
            TextDecoration::Underline => "Underline".to_owned(),
            TextDecoration::Strikethrough => "Strikethrough".to_owned(),
            TextDecoration::UnderlineDouble => "UnderlineDouble".to_owned(),
        }
    }
}

/// The italic/oblique style of a font.
#[derive(Debug, Clone, Copy, PartialEq, Eq, Hash, Structural)]
pub enum FontStyle {
    /// Upright (roman) text — the default.
    Normal,
    /// Italic text (UIFont italic system font or a named italic variant).
    Italic,
    /// Oblique text (slanted without a true italic variant; falls back to italic on iOS).
    Oblique,
}

impl FontStyle {
    /// The variant's name as the derived `Debug` output spells it.
    pub open spec fn spec_label(self) -> Seq<char> {
        match self {
            FontStyle::Normal => "Normal"@,
            FontStyle::Italic => "Italic"@,
            FontStyle::Oblique => "Oblique"@,
        }
    }

    /// The variant's name as the derived `Debug` output spells it; the wire
    /// encodings carry enum values in this form.
    pub fn label(&self) -> (r: String)
        ensures
            r@ == self.spec_label(),
    {
        match self {
            FontStyle::Normal => "Normal".to_owned(),
            FontStyle::Italic => "Italic".to_owned(),
            FontStyle::Oblique => "Oblique".to_owned(),
        }
    }
}

impl Default for FontStyle {
    fn default() -> (r: Self)
        ensures
            r == FontStyle::Normal,
    {
        FontStyle::Normal
    }
}

/// A semantic text style that scales with the user's preferred reading size
/// (maps to `UIFontTextStyle` on iOS).
#[derive(Debug, Clone, Copy, PartialEq, Eq, Hash, Structural)]
pub enum TextStyle {
    /// Large title.
    LargeTitle,
    /// Title 1.
    Title1,
    /// Title 2.
    Title2,
    /// Title 3.
    Title3,
    /// Headline.
    Headline,
    /// Subheadline.
    Subheadline,
    /// Body text.
    Body,
    /// Callout.
    Callout,
    /// Footnote.
    Footnote,
    /// Caption 1.
    Caption1,
    /// Caption 2.
    Caption2,
}

impl TextStyle {
    /// The variant's name as the derived `Debug` output spells it.
    pub open spec fn spec_label(self) -> Seq<char> {
        match self {
            TextStyle::LargeTitle => "LargeTitle"@,
            TextStyle::Title1 => "Title1"@,
            TextStyle::Title2 => "Title2"@,
            TextStyle::Title3 => "Title3"@,
            TextStyle::Headline => "Headline"@,
            TextStyle::Subheadline => "Subheadline"@,
            TextStyle::Body => "Body"@,
            TextStyle::Callout => "Callout"@,
            TextStyle::Footnote => "Footnote"@,
            TextStyle::Caption1 => "Caption1"@,
            TextStyle::Caption2 => "Caption2"@,
        }
    }

    /// The variant's name as the derived `Debug` output spells it; the wire
    /// encodings carry enum values in this form.
    pub fn label(&self) -> (r: String)
        ensures
            r@ == self.spec_label(),
    {
        match self {
            TextStyle::LargeTitle => "LargeTitle".to_owned(),
            TextStyle::Title1 => "Title1".to_owned(),
            TextStyle::Title2 => "Title2".to_owned(),
            TextStyle::Title3 => "Title3".to_owned(),
            TextStyle::Headline => "Headline".to_owned(),
            TextStyle::Subheadline => "Subheadline".to_owned(),
            TextStyle::Body => "Body".to_owned(),
            TextStyle::Callout => "Callout".to_owned(),
            TextStyle::Footnote => "Footnote".to_owned(),
            TextStyle::Caption1 => "Caption1".to_owned(),
            TextStyle::Caption2 => "Caption2".to_owned(),
        }
    }
}

/// A text span with inline styling.
#[derive(Debug, Clone, PartialEq)]
pub struct TextSpan {
    /// The text content of this span.
    pub text: String,
    /// Optional text color.
    pub color: Option<Color>,
    /// Optional font size in points.
    pub font_size: Option<F32Bits>,
    /// Bold weight.
    pub bold: bool,
    /// Italic style.
    pub italic: bool,
    /// Underline decoration.
    pub underline: bool,
    /// Strikethrough decoration.
    pub strikethrough: bool,
    /// Letter spacing (tracking) in points.
    pub letter_spacing: Option<F32Bits>,
}

impl TextSpan {
    /// Create a new span with the given text and all styling defaults.
    pub fn new(text: &str) -> (r: TextSpan)
        ensures
            r.text@ == text@,
            r.color is None,
            r.font_size is None,
            !r.bold && !r.italic && !r.underline && !r.strikethrough,
            r.letter_spacing is None,
    {
        TextSpan {
            text: text.to_owned(),
            color: None,
            font_size: None,
            bold: false,
            italic: false,
            underline: false,
            strikethrough: false,
            letter_spacing: None,
        }
    }

    /// Set the span color.
    pub fn color(self, c: Color) -> (r: TextSpan)
        ensures
            r == (TextSpan { color: Some(c), ..self }),
    {
        TextSpan { color: Some(c), ..self }
    }

    /// Set the span font size.
    pub fn font_size(self, s: F32Bits) -> (r: TextSpan)
        ensures
            r == (TextSpan { font_size: Some(s), ..self }),
    {
        TextSpan { font_size: Some(s), ..self }
    }

    /// Make this span bold.
    pub fn bold(self) -> (r: TextSpan)
        ensures
            r == (TextSpan { bold: true, ..self }),
    {
        TextSpan { bold: true, ..self }
    }

    /// Make this span italic.
    pub fn italic(self) -> (r: TextSpan)
        ensures
            r == (TextSpan { italic: true, ..self }),
    {
        TextSpan { italic: true, ..self }
    }

    /// Underline this span.
    pub fn underline(self) -> (r: TextSpan)
        ensures
            r == (TextSpan { underline: true, ..self }),
    {
        TextSpan { underline: true, ..self }
    }

    /// Strikethrough this span.
    pub fn strikethrough(self) -> (r: TextSpan)
        ensures
            r == (TextSpan { strikethrough: true, ..self }),
    {
        TextSpan { strikethrough: true, ..self }
    }

    /// Set letter spacing (tracking) in points.
    pub fn letter_spacing(self, kern: F32Bits) -> (r: TextSpan)
        ensures
            r == (TextSpan { letter_spacing: Some(kern), ..self }),
    {
        TextSpan { letter_spacing: Some(kern), ..self }
    }
}

/// `0.0f32`.
pub const F32_ZERO: F32Bits = 0x0000_0000;

/// `0.5f32`.
pub const F32_HALF: F32Bits = 0x3f00_0000;

/// `1.0f32`.
pub const F32_ONE: F32Bits = 0x3f80_0000;

/// A linear color gradient used as a background fill. `start` and `end` are in
/// unit coordinates (`0,0` = top-left, `1,1` = bottom-right).
#[derive(Debug, Clone, PartialEq)]
pub struct LinearGradient {
    /// Two or more color stops, evenly distributed.
    pub colors: Vec<Color>,
    /// Gradient start point in unit coordinates.
    pub start: Point,
    /// Gradient end point in unit coordinates.
    pub end: Point,
}

impl LinearGradient {
    /// A vertical (top-to-bottom) gradient through `colors`.
    pub fn vertical(colors: Vec<Color>) -> (r: LinearGradient)
        ensures
            r == (LinearGradient { colors, start: Point { x: F32_HALF, y: F32_ZERO }, end: Point { x: F32_HALF, y: F32_ONE } }),
    {
        LinearGradient { colors, start: Point { x: F32_HALF, y: F32_ZERO }, end: Point { x: F32_HALF, y: F32_ONE } }
    }

    /// A horizontal (leading-to-trailing) gradient through `colors`.
    pub fn horizontal(colors: Vec<Color>) -> (r: LinearGradient)
        ensures
            r == (LinearGradient { colors, start: Point { x: F32_ZERO, y: F32_HALF }, end: Point { x: F32_ONE, y: F32_HALF } }),
    {
        LinearGradient { colors, start: Point { x: F32_ZERO, y: F32_HALF }, end: Point { x: F32_ONE, y: F32_HALF } }
    }
}

/// A 2D affine transform applied to a widget's rendering: scale, then rotate,
/// then translate (composed in that order). Build from [`Transform::identity`]
/// with the chainable setters.
#[derive(Debug, Clone, Copy, PartialEq, Eq, Hash, Structural)]
pub struct Transform {
    /// Horizontal translation in points.
    pub translate_x: F32Bits,
    /// Vertical translation in points.
    pub translate_y: F32Bits,
    /// Horizontal scale factor.
    pub scale_x: F32Bits,
    /// Vertical scale factor.
    pub scale_y: F32Bits,
    /// Rotation in radians (clockwise).
    pub rotate: F32Bits,
}

impl Transform {
    /// The identity transform (no change).
    pub open spec fn spec_identity() -> Transform {
        Transform {
            translate_x: F32_ZERO,
            translate_y: F32_ZERO,
            scale_x: F32_ONE,
            scale_y: F32_ONE,
            rotate: F32_ZERO,
        }
    }

    /// The identity transform (no change).
    pub fn identity() -> (r: Transform)
        ensures
            r == Self::spec_identity(),
    {
        Transform {
            translate_x: F32_ZERO,
            translate_y: F32_ZERO,
            scale_x: F32_ONE,
            scale_y: F32_ONE,
            rotate: F32_ZERO,
        }
    }

    /// Sets uniform scale.
    pub fn scale(self, factor: F32Bits) -> (r: Transform)
        ensures
            r == (Transform { scale_x: factor, scale_y: factor, ..self }),
    {
        Transform { scale_x: factor, scale_y: factor, ..self }
    }

    /// Sets non-uniform scale.
    pub fn scale_xy(self, x: F32Bits, y: F32Bits) -> (r: Transform)
        ensures
            r == (Transform { scale_x: x, scale_y: y, ..self }),
    {
        Transform { scale_x: x, scale_y: y, ..self }
    }

    /// Sets rotation in radians.
    pub fn rotate(self, radians: F32Bits) -> (r: Transform)
        ensures
            r == (Transform { rotate: radians, ..self }),
    {
        Transform { rotate: radians, ..self }
    }

    /// Sets translation in points.
    pub fn translate(self, x: F32Bits, y: F32Bits) -> (r: Transform)
        ensures
            r == (Transform { translate_x: x, translate_y: y, ..self }),
    {
        Transform { translate_x: x, translate_y: y, ..self }
    }
}

impl Default for Transform {
    fn default() -> (r: Self)
        ensures
            r == Transform::spec_identity(),
    {
        Transform::identity()
    }
}

/// A drop shadow specification.
#[derive(Debug, Clone, Copy, PartialEq, Eq, Hash, Structural)]
pub struct Shadow {
    /// Shadow color (alpha is used as shadow opacity).
    pub color: Color,
    /// Blur radius in points.
    pub radius: F32Bits,
    /// Horizontal offset in points.
    pub dx: F32Bits,
    /// Vertical offset in points.
    pub dy: F32Bits,
}

/// A stroke (outline) style for a [`DrawCmd`]: a line width and color.
#[derive(Debug, Clone, Copy, PartialEq, Eq, Hash, Structural)]
pub struct Stroke {
    /// Line width in logical points.
    pub width: F32Bits,
    /// Stroke color.
    pub color: Color,
}

impl Stroke {
    /// A stroke of `width` points in `color`.
    pub fn new(width: F32Bits, color: Color) -> (r: Stroke)
        ensures
            r == (Stroke { width, color }),
    {
        Stroke { width, color }
    }
}

/// A single vector drawing command for a [`WidgetKind::Canvas`].
///
/// Coordinates are in the canvas's local space — logical points, origin at the
/// top-left with `y` growing downward (matching screen space). The chart
/// builders in `crate::view` emit a `Vec<DrawCmd>` for a fixed size; the iOS
/// backend renders each command with CoreGraphics into a `CALayer`.
#[derive(Debug, Clone, PartialEq)]
pub enum DrawCmd {
    /// A straight line segment from `(x1, y1)` to `(x2, y2)`.
    Line {
        x1: F32Bits,
        y1: F32Bits,
        x2: F32Bits,
        y2: F32Bits,
        width: F32Bits,
        color: Color,
    },
    /// An axis-aligned (optionally rounded) rectangle, optionally filled and/or
    /// stroked.
    Rect {
        x: F32Bits,
        y: F32Bits,
        w: F32Bits,
        h: F32Bits,
        radius: F32Bits,
        fill: Option<Color>,
        stroke: Option<Stroke>,
    },
    /// A circle centered at `(cx, cy)` with radius `r`.
    Circle {
        cx: F32Bits,
        cy: F32Bits,
        r: F32Bits,
        fill: Option<Color>,
        stroke: Option<Stroke>,
    },
    /// A polyline (or polygon when `closed`) through `points`. A `fill` paints
    /// the enclosed area (closed shapes); a `stroke` outlines the path.
    Path {
        points: Vec<Point>,
        closed: bool,
        fill: Option<Color>,
        stroke: Option<Stroke>,
    },
    /// A run of text with its top-left anchored at `(x, y)`.
    Text {
        x: F32Bits,
        y: F32Bits,
        text: String,
        size: F32Bits,
        color: Color,
        align: TextAlign,
    },
}

/// One atomic change to the native view tree.
#[derive(Debug, Clone, PartialEq)]
pub enum Mutation {
    /// Allocate a native view of `kind` for `id`.
    Create {
        id: WidgetId,
        kind: WidgetKind,
    },
    /// Set or update a paint property on an existing widget.
    SetAttribute {
        id: WidgetId,
        attr: Attribute,
    },
    /// Position and size a widget's native view (output of the layout pass), in
    /// the coordinate space of its parent.
    SetFrame {
        id: WidgetId,
        rect: Rect,
    },
    /// Insert `child` into `parent`'s child list at `index`.
    InsertChild {
        parent: WidgetId,
        index: usize,
        child: WidgetId,
    },
    /// Detach `child` from `parent` (the child may still be re-inserted).
    RemoveChild {
        parent: WidgetId,
        child: WidgetId,
    },
    /// Free the native view backing `id`.
    Destroy {
        id: WidgetId,
    },
    /// Designate `id` as the root view, to be attached to the platform's content
    /// view (window / view-controller view).
    SetRoot {
        id: WidgetId,
    },
    /// Attach a gesture recognizer to `id` so it emits the corresponding event.
    AddGesture {
        id: WidgetId,
        gesture: GestureKind,
    },
    /// Set a scroll container's scrollable content size.
    SetContentSize {
        id: WidgetId,
        size: Size,
    },
    /// Set the backdrop fill shown behind the root — i.e. the safe-area region
    /// (notch/status-bar/home-indicator) not covered by app content. Applied to
    /// the platform window, not any widget.
    SetBackdrop {
        color: Color,
    },
    /// Trigger a one-shot haptic feedback pulse. Not retained state — the backend
    /// fires the generator once and discards it.
    Haptic {
        style: HapticStyle,
    },
    /// Schedule a local notification via the UserNotifications framework.
    ScheduleNotification(LocalNotification),
    /// Cancel a pending local notification by its id.
    CancelNotification {
        id: String,
    },
    /// Trigger a biometric authentication prompt (Face ID / Touch ID).
    /// The result is delivered as a global [`Event::BiometricResult`].
    AuthenticateBiometric {
        reason: String,
    },
    /// Query the current authorization state for a platform permission.
    /// The result is delivered as a global [`Event::PermissionChanged`].
    CheckPermission {
        permission: PermissionKind,
    },
    /// Request a platform permission from the user.
    /// The result is delivered as a global [`Event::PermissionChanged`].
    RequestPermission {
        permission: PermissionKind,
    },
    /// Start receiving location updates. Results arrive via `Event::LocationUpdated`.
    StartLocation,
    /// Stop location updates.
    StopLocation,
    /// Start motion sensor updates. Delivers `Event::MotionUpdated` at ~60 Hz.
    StartMotion {
        accelerometer: bool,
        gyroscope: bool,
    },
    /// Stop motion sensor updates.
    StopMotion,
    /// Present a media picker (PHPickerViewController). Results arrive via `Event::MediaPicked`.
    PresentMediaPicker {
        max_selection: usize,
    },
    /// Present a document picker (UIDocumentPickerViewController). Results arrive
    /// via `Event::DocumentPicked`.
    PresentDocumentPicker {
        types: Vec<String>,
    },
    /// Register a background task identifier with BGTaskScheduler.
    /// Must be called during app launch before the first background task fires.
    /// The identifier must also appear in `BGTaskSchedulerPermittedIdentifiers` in Info.plist.
    RegisterBackgroundTask {
        identifier: String,
    },
    /// Schedule the next execution of a registered background task.
    ScheduleBackgroundTask {
        identifier: String,
        earliest_seconds: F64Bits,
    },
    /// Copy text to the system clipboard (UIPasteboard on iOS).
    SetClipboard {
        text: String,
    },
    /// Present the system share sheet (UIActivityViewController on iOS) with the given text.
    ShareText {
        text: String,
    },
    /// Open a URL with the platform's default external handler.
    OpenExternalUrl {
        url: String,
    },
    /// Post an accessibility announcement via `UIAccessibilityPostNotification`.
    /// VoiceOver reads the message immediately, interrupting any in-progress speech.
    AnnounceAccessibility {
        message: String,
    },
    /// Move VoiceOver focus to the native view backing `id`.
    /// Maps to `UIAccessibilityPostNotification(UIAccessibilityScreenChangedNotification, view)`.
    RequestFocus {
        id: WidgetId,
    },
    /// Request GPS location updates. Results arrive via `Event::LocationUpdated`.
    /// iOS: calls `[CLLocationManager startUpdatingLocation]`.
    RequestLocation,
    /// Stop GPS location updates.
    StopLocationUpdates,
    /// Enable or disable the device torch (flashlight).
    /// iOS: sets `AVCaptureDevice` torch mode via `AVCaptureDevice.torchMode`.
    SetTorch {
        on: bool,
    },
    /// Register for Apple Push Notification Service (APNS) remote notifications.
    /// iOS: calls `[UIApplication registerForRemoteNotifications]`.
    /// The device token is published to `runtime::use_push_token()`.
    RegisterForPushNotifications,
    /// Set the app badge count shown on the home screen icon.
    /// iOS: calls `[[UIApplication sharedApplication] setApplicationIconBadgeNumber: count]`.
    SetAppBadge {
        count: u32,
    },
    /// Programmatically scroll a scroll view to the given content offset.
    /// iOS: `[UIScrollView setContentOffset:animated:]`.
    ScrollTo {
        id: WidgetId,
        offset_x: F32Bits,
        offset_y: F32Bits,
        animated: bool,
    },
    /// Programmatically scroll a scroll view back to the top (offset 0, 0).
    /// iOS: `[UIScrollView setContentOffset:{0,0} animated:]`.
    ScrollToTop {
        id: WidgetId,
        animated: bool,
    },
}

} // verus!
