//! Android backend foundation: the pure half of the Android backend.
//!
//! Framework [`Mutation`]s are translated into [`AndroidCommand`]s for the host
//! layer, and commands into their wire form ([`AndroidWireCommand`]) for the
//! JNI glue, which serializes them and applies them to real Android views.

use crate::core_types::{argb_u32, Color, F32Bits, F64Bits, Rect};
use crate::dom::mutation::{
    packed_widget_id, Attribute, GestureKind, HapticStyle, LocalNotification, MenuItem, Mutation,
    PermissionKind, TextSpan, WidgetId, WidgetKind,
};
use vstd::prelude::*;

verus! {

/// Android view classes used by the first native backend pass.
#[derive(Debug, Clone, Copy, PartialEq, Eq, Hash, Structural)]
pub enum AndroidViewClass {
    /// A generic `FrameLayout` container.
    FrameLayout,
    /// A `TextView`.
    TextView,
    /// A `Button`.
    Button,
    /// An `ImageView`.
    ImageView,
    /// A `Switch`.
    Switch,
    /// A `SeekBar`.
    SeekBar,
    /// An `EditText`.
    EditText,
    /// A `ScrollView` / `HorizontalScrollView`.
    ScrollView,
    /// A `ProgressBar` in indeterminate mode.
    ActivityIndicator,
    /// A determinate `ProgressBar`.
    ProgressBar,
    /// A segmented-control host, typically backed by Material buttons.
    SegmentedControl,
    /// A numeric stepper host.
    Stepper,
    /// A `DatePicker` or `TimePicker` host.
    DatePicker,
    /// A camera preview host.
    CameraPreview,
    /// A `WebView`.
    WebView,
    /// A `RecyclerView`.
    RecyclerView,
    /// A map view host.
    MapView,
    /// A custom canvas view.
    CanvasView,
}

/// The Android view class that backs each framework widget kind.
pub open spec fn spec_view_class(kind: WidgetKind) -> AndroidViewClass {
    match kind {
        WidgetKind::View => AndroidViewClass::FrameLayout,
        WidgetKind::Text => AndroidViewClass::TextView,
        WidgetKind::Button => AndroidViewClass::Button,
        WidgetKind::Image => AndroidViewClass::ImageView,
        WidgetKind::Switch => AndroidViewClass::Switch,
        WidgetKind::Slider => AndroidViewClass::SeekBar,
        WidgetKind::TextInput => AndroidViewClass::EditText,
        WidgetKind::Scroll => AndroidViewClass::ScrollView,
        WidgetKind::ActivityIndicator => AndroidViewClass::ActivityIndicator,
        WidgetKind::Progress => AndroidViewClass::ProgressBar,
        WidgetKind::Segmented => AndroidViewClass::SegmentedControl,
        WidgetKind::Stepper => AndroidViewClass::Stepper,
        WidgetKind::DatePicker => AndroidViewClass::DatePicker,
        WidgetKind::TextArea => AndroidViewClass::EditText,
        WidgetKind::Stack => AndroidViewClass::FrameLayout,
        WidgetKind::Camera => AndroidViewClass::CameraPreview,
        WidgetKind::WebView => AndroidViewClass::WebView,
        WidgetKind::LazyList => AndroidViewClass::RecyclerView,
        WidgetKind::MapView => AndroidViewClass::MapView,
        WidgetKind::Canvas => AndroidViewClass::CanvasView,
    }
}

/// Whether a widget kind is a plain layout container.
pub open spec fn is_container_kind(kind: WidgetKind) -> bool {
    kind is View || kind is Stack
}

/// Whether a widget kind is an editable text field.
pub open spec fn is_text_entry_kind(kind: WidgetKind) -> bool {
    kind is TextInput || kind is TextArea
}

/// Two widget kinds are backed by the same Android class exactly when they
/// are the same kind, or both are layout containers (`View`, `Stack`), or
/// both are editable text (`TextInput`, `TextArea`): no two other kinds are
/// ever confused on the device.
pub proof fn lemma_view_class_distinguishes_kinds(k1: WidgetKind, k2: WidgetKind)
    ensures
        spec_view_class(k1) == spec_view_class(k2) <==> (k1 == k2 || (is_container_kind(k1)
            && is_container_kind(k2)) || (is_text_entry_kind(k1) && is_text_entry_kind(k2))),
{
}

/// Each widget kind is backed by the Android view its documentation names:
/// a switch by `Switch`, a button by `Button`, a slider by `SeekBar`, a
/// text field by `EditText`, and so on.
pub proof fn lemma_view_class_of_each_kind()
    ensures
        spec_view_class(WidgetKind::View) == AndroidViewClass::FrameLayout,
        spec_view_class(WidgetKind::Stack) == AndroidViewClass::FrameLayout,
        spec_view_class(WidgetKind::Text) == AndroidViewClass::TextView,
        spec_view_class(WidgetKind::Button) == AndroidViewClass::Button,
        spec_view_class(WidgetKind::Image) == AndroidViewClass::ImageView,
        spec_view_class(WidgetKind::Switch) == AndroidViewClass::Switch,
        spec_view_class(WidgetKind::Slider) == AndroidViewClass::SeekBar,
        spec_view_class(WidgetKind::TextInput) == AndroidViewClass::EditText,
        spec_view_class(WidgetKind::TextArea) == AndroidViewClass::EditText,
        spec_view_class(WidgetKind::Scroll) == AndroidViewClass::ScrollView,
        spec_view_class(WidgetKind::ActivityIndicator) == AndroidViewClass::ActivityIndicator,
        spec_view_class(WidgetKind::Progress) == AndroidViewClass::ProgressBar,
        spec_view_class(WidgetKind::Segmented) == AndroidViewClass::SegmentedControl,
        spec_view_class(WidgetKind::Stepper) == AndroidViewClass::Stepper,
        spec_view_class(WidgetKind::DatePicker) == AndroidViewClass::DatePicker,
        spec_view_class(WidgetKind::Camera) == AndroidViewClass::CameraPreview,
        spec_view_class(WidgetKind::WebView) == AndroidViewClass::WebView,
        spec_view_class(WidgetKind::LazyList) == AndroidViewClass::RecyclerView,
        spec_view_class(WidgetKind::MapView) == AndroidViewClass::MapView,
        spec_view_class(WidgetKind::Canvas) == AndroidViewClass::CanvasView,
{
}

impl AndroidViewClass {
    /// Fully-qualified Android class name for the default host implementation.
    pub open spec fn spec_class_name(self) -> Seq<char> {
        match self {
            AndroidViewClass::FrameLayout => "android.widget.FrameLayout"@,
            AndroidViewClass::TextView => "android.widget.TextView"@,
            AndroidViewClass::Button => "android.widget.Button"@,
            AndroidViewClass::ImageView => "android.widget.ImageView"@,
            AndroidViewClass::Switch => "android.widget.Switch"@,
            AndroidViewClass::SeekBar => "android.widget.SeekBar"@,
            AndroidViewClass::EditText => "android.widget.EditText"@,
            AndroidViewClass::ScrollView => "android.widget.ScrollView"@,
            AndroidViewClass::ActivityIndicator => "android.widget.ProgressBar"@,
            AndroidViewClass::ProgressBar => "android.widget.ProgressBar"@,
            AndroidViewClass::SegmentedControl => "com.google.android.material.button.MaterialButtonToggleGroup"@,
            AndroidViewClass::Stepper => "android.widget.NumberPicker"@,
            AndroidViewClass::DatePicker => "android.widget.DatePicker"@,
            AndroidViewClass::CameraPreview => "android.view.TextureView"@,
            AndroidViewClass::WebView => "android.webkit.WebView"@,
            AndroidViewClass::RecyclerView => "androidx.recyclerview.widget.RecyclerView"@,
            AndroidViewClass::MapView => "com.google.android.gms.maps.MapView"@,
            AndroidViewClass::CanvasView => "android.view.View"@,
        }
    }

    /// Maps a framework widget kind to the Android view class that should back it.
    pub fn from_widget_kind(kind: WidgetKind) -> (r: AndroidViewClass)
        ensures
            r == spec_view_class(kind),
    {
        match kind {
            WidgetKind::View | WidgetKind::Stack => AndroidViewClass::FrameLayout,
            WidgetKind::Text => AndroidViewClass::TextView,
            WidgetKind::Button => AndroidViewClass::Button,
            WidgetKind::Image => AndroidViewClass::ImageView,
            WidgetKind::Switch => AndroidViewClass::Switch,
            WidgetKind::Slider => AndroidViewClass::SeekBar,
            WidgetKind::TextInput | WidgetKind::TextArea => AndroidViewClass::EditText,
            WidgetKind::Scroll => AndroidViewClass::ScrollView,
            WidgetKind::ActivityIndicator => AndroidViewClass::ActivityIndicator,
            WidgetKind::Progress => AndroidViewClass::ProgressBar,
            WidgetKind::Segmented => AndroidViewClass::SegmentedControl,
            WidgetKind::Stepper => AndroidViewClass::Stepper,
            WidgetKind::DatePicker => AndroidViewClass::DatePicker,
            WidgetKind::Camera => AndroidViewClass::CameraPreview,
            WidgetKind::WebView => AndroidViewClass::WebView,
            WidgetKind::LazyList => AndroidViewClass::RecyclerView,
            WidgetKind::MapView => AndroidViewClass::MapView,
            WidgetKind::Canvas => AndroidViewClass::CanvasView,
        }
    }

    /// Fully-qualified Android class name for the default host implementation.
    pub fn class_name(self) -> (r: &'static str)
        ensures
            r@ == self.spec_class_name(),
    {
        match self {
            AndroidViewClass::FrameLayout => "android.widget.FrameLayout",
            AndroidViewClass::TextView => "android.widget.TextView",
            AndroidViewClass::Button => "android.widget.Button",
            AndroidViewClass::ImageView => "android.widget.ImageView",
            AndroidViewClass::Switch => "android.widget.Switch",
            AndroidViewClass::SeekBar => "android.widget.SeekBar",
            AndroidViewClass::EditText => "android.widget.EditText",
            AndroidViewClass::ScrollView => "android.widget.ScrollView",
            AndroidViewClass::ActivityIndicator => "android.widget.ProgressBar",
            AndroidViewClass::ProgressBar => "android.widget.ProgressBar",
            AndroidViewClass::SegmentedControl => "com.google.android.material.button.MaterialButtonToggleGroup",
            AndroidViewClass::Stepper => "android.widget.NumberPicker",
            AndroidViewClass::DatePicker => "android.widget.DatePicker",
            AndroidViewClass::CameraPreview => "android.view.TextureView",
            AndroidViewClass::WebView => "android.webkit.WebView",
            AndroidViewClass::RecyclerView => "androidx.recyclerview.widget.RecyclerView",
            AndroidViewClass::MapView => "com.google.android.gms.maps.MapView",
            AndroidViewClass::CanvasView => "android.view.View",
        }
    }
}

/// A command for the Android host layer to apply to real views.
#[derive(Debug, Clone, PartialEq)]
pub enum AndroidCommand {
    /// Create a native view.
    Create {
        id: u64,
        class: AndroidViewClass,
    },
    /// Set a platform-neutral attribute on a view.
    SetAttribute {
        id: u64,
        attr: Attribute,
    },
    /// Set a view frame in logical pixels.
    SetFrame {
        id: u64,
        x: F32Bits,
        y: F32Bits,
        width: F32Bits,
        height: F32Bits,
    },
    /// Insert a child into a parent container.
    InsertChild {
        parent: u64,
        child: u64,
        index: usize,
    },
    /// Remove a child from a parent container.
    RemoveChild {
        parent: u64,
        child: u64,
    },
    /// Destroy a native view.
    Destroy {
        id: u64,
    },
    /// Attach the root view to the Activity content view.
    SetRoot {
        id: u64,
    },
    /// Register a gesture recognizer/listener.
    AddGesture {
        id: u64,
        gesture: GestureKind,
    },
    /// Set a scrollable content size.
    SetContentSize {
        id: u64,
        width: F32Bits,
        height: F32Bits,
    },
    /// Set the Activity/window backdrop color as Android `0xAARRGGBB`.
    SetBackdrop {
        argb: u32,
    },
    /// Trigger Android haptic feedback.
    Haptic {
        style: HapticStyle,
    },
    /// Invoke a platform service.
    Request(AndroidPlatformRequest),
    /// Scroll a scroll view to an explicit offset.
    ScrollTo {
        id: u64,
        offset_x: F32Bits,
        offset_y: F32Bits,
        animated: bool,
    },
    /// Scroll a scroll view to the top-left origin.
    ScrollToTop {
        id: u64,
        animated: bool,
    },
}

/// A platform service invocation carried by [`AndroidCommand::Request`].
#[derive(Debug, Clone, PartialEq)]
pub enum AndroidPlatformRequest {
    ScheduleNotification(LocalNotification),
    CancelNotification {
        id: String,
    },
    AuthenticateBiometric {
        reason: String,
    },
    StartLocation,
    StopLocation,
    StartMotion {
        accelerometer: bool,
        gyroscope: bool,
    },
    StopMotion,
    PresentMediaPicker {
        max_selection: usize,
    },
    PresentDocumentPicker {
        types: Vec<String>,
    },
    RegisterBackgroundTask {
        identifier: String,
    },
    ScheduleBackgroundTask {
        identifier: String,
        earliest_seconds: F64Bits,
    },
    SetClipboard {
        text: String,
    },
    ShareText {
        text: String,
    },
    AnnounceAccessibility {
        message: String,
    },
    RequestFocus {
        id: u64,
    },
    SetTorch {
        on: bool,
    },
    RegisterForPushNotifications,
    SetAppBadge {
        count: u32,
    },
    CheckPermission {
        permission: PermissionKind,
    },
    RequestPermission {
        permission: PermissionKind,
    },
    OpenExternalUrl {
        url: String,
    },
}

/// The Android host command for a framework mutation.
pub open spec fn spec_command_of(mutation: Mutation) -> AndroidCommand {
    match mutation {
        Mutation::Create { id, kind } => AndroidCommand::Create { id: packed_widget_id(id.spec_slot(), id.spec_generation()) as u64, class: spec_view_class(kind) },
        Mutation::SetAttribute { id, attr } => AndroidCommand::SetAttribute { id: packed_widget_id(id.spec_slot(), id.spec_generation()) as u64, attr },
        Mutation::SetFrame { id, rect } => AndroidCommand::SetFrame { id: packed_widget_id(id.spec_slot(), id.spec_generation()) as u64, x: rect.origin.x, y: rect.origin.y, width: rect.size.width, height: rect.size.height },
        Mutation::InsertChild { parent, index, child } => AndroidCommand::InsertChild { parent: packed_widget_id(parent.spec_slot(), parent.spec_generation()) as u64, child: packed_widget_id(child.spec_slot(), child.spec_generation()) as u64, index },
        Mutation::RemoveChild { parent, child } => AndroidCommand::RemoveChild { parent: packed_widget_id(parent.spec_slot(), parent.spec_generation()) as u64, child: packed_widget_id(child.spec_slot(), child.spec_generation()) as u64 },
        Mutation::Destroy { id } => AndroidCommand::Destroy { id: packed_widget_id(id.spec_slot(), id.spec_generation()) as u64 },
        Mutation::SetRoot { id } => AndroidCommand::SetRoot { id: packed_widget_id(id.spec_slot(), id.spec_generation()) as u64 },
        Mutation::AddGesture { id, gesture } => AndroidCommand::AddGesture { id: packed_widget_id(id.spec_slot(), id.spec_generation()) as u64, gesture },
        Mutation::SetContentSize { id, size } => AndroidCommand::SetContentSize { id: packed_widget_id(id.spec_slot(), id.spec_generation()) as u64, width: size.width, height: size.height },
        Mutation::SetBackdrop { color } => AndroidCommand::SetBackdrop { argb: argb_u32(color) },
        Mutation::Haptic { style } => AndroidCommand::Haptic { style },
        Mutation::ScheduleNotification(notification) => AndroidCommand::Request(AndroidPlatformRequest::ScheduleNotification(notification)),
        Mutation::CancelNotification { id } => AndroidCommand::Request(AndroidPlatformRequest::CancelNotification { id }),
        Mutation::AuthenticateBiometric { reason } => AndroidCommand::Request(AndroidPlatformRequest::AuthenticateBiometric { reason }),
        Mutation::CheckPermission { permission } => AndroidCommand::Request(AndroidPlatformRequest::CheckPermission { permission }),
        Mutation::RequestPermission { permission } => AndroidCommand::Request(AndroidPlatformRequest::RequestPermission { permission }),
        Mutation::StartLocation => AndroidCommand::Request(AndroidPlatformRequest::StartLocation),
        Mutation::StopLocation => AndroidCommand::Request(AndroidPlatformRequest::StopLocation),
        Mutation::StartMotion { accelerometer, gyroscope } => AndroidCommand::Request(AndroidPlatformRequest::StartMotion { accelerometer, gyroscope }),
        Mutation::StopMotion => AndroidCommand::Request(AndroidPlatformRequest::StopMotion),
        Mutation::PresentMediaPicker { max_selection } => AndroidCommand::Request(AndroidPlatformRequest::PresentMediaPicker { max_selection }),
        Mutation::PresentDocumentPicker { types } => AndroidCommand::Request(AndroidPlatformRequest::PresentDocumentPicker { types }),
        Mutation::RegisterBackgroundTask { identifier } => AndroidCommand::Request(AndroidPlatformRequest::RegisterBackgroundTask { identifier }),
        Mutation::ScheduleBackgroundTask { identifier, earliest_seconds } => AndroidCommand::Request(AndroidPlatformRequest::ScheduleBackgroundTask { identifier, earliest_seconds }),
        Mutation::SetClipboard { text } => AndroidCommand::Request(AndroidPlatformRequest::SetClipboard { text }),
        Mutation::ShareText { text } => AndroidCommand::Request(AndroidPlatformRequest::ShareText { text }),
        Mutation::OpenExternalUrl { url } => AndroidCommand::Request(AndroidPlatformRequest::OpenExternalUrl { url }),
        Mutation::AnnounceAccessibility { message } => AndroidCommand::Request(AndroidPlatformRequest::AnnounceAccessibility { message }),
        Mutation::RequestFocus { id } => AndroidCommand::Request(AndroidPlatformRequest::RequestFocus { id: packed_widget_id(id.spec_slot(), id.spec_generation()) as u64 }),
        Mutation::RequestLocation => AndroidCommand::Request(AndroidPlatformRequest::StartLocation),
        Mutation::StopLocationUpdates => AndroidCommand::Request(AndroidPlatformRequest::StopLocation),
        Mutation::SetTorch { on } => AndroidCommand::Request(AndroidPlatformRequest::SetTorch { on }),
        Mutation::RegisterForPushNotifications => AndroidCommand::Request(AndroidPlatformRequest::RegisterForPushNotifications),
        Mutation::SetAppBadge { count } => AndroidCommand::Request(AndroidPlatformRequest::SetAppBadge { count }),
        Mutation::ScrollTo { id, offset_x, offset_y, animated } => AndroidCommand::ScrollTo { id: packed_widget_id(id.spec_slot(), id.spec_generation()) as u64, offset_x, offset_y, animated },
        Mutation::ScrollToTop { id, animated } => AndroidCommand::ScrollToTop { id: packed_widget_id(id.spec_slot(), id.spec_generation()) as u64, animated },
    }
}

impl AndroidCommand {
    /// Translates a framework mutation into an Android host command.
    pub fn from_mutation(mutation: Mutation) -> (r: AndroidCommand)
        ensures
            r == spec_command_of(mutation),
    {
        match mutation {
            Mutation::Create { id, kind } => AndroidCommand::Create { id: widget_key(id), class: AndroidViewClass::from_widget_kind(kind) },
            Mutation::SetAttribute { id, attr } => AndroidCommand::SetAttribute { id: widget_key(id), attr },
            Mutation::SetFrame { id, rect } => AndroidCommand::SetFrame { id: widget_key(id), x: rect.origin.x, y: rect.origin.y, width: rect.size.width, height: rect.size.height },
            Mutation::InsertChild { parent, index, child } => AndroidCommand::InsertChild { parent: widget_key(parent), child: widget_key(child), index },
            Mutation::RemoveChild { parent, child } => AndroidCommand::RemoveChild { parent: widget_key(parent), child: widget_key(child) },
            Mutation::Destroy { id } => AndroidCommand::Destroy { id: widget_key(id) },
            Mutation::SetRoot { id } => AndroidCommand::SetRoot { id: widget_key(id) },
            Mutation::AddGesture { id, gesture } => AndroidCommand::AddGesture { id: widget_key(id), gesture },
            Mutation::SetContentSize { id, size } => AndroidCommand::SetContentSize { id: widget_key(id), width: size.width, height: size.height },
            Mutation::SetBackdrop { color } => AndroidCommand::SetBackdrop { argb: color.to_argb_u32() },
            Mutation::Haptic { style } => AndroidCommand::Haptic { style },
            Mutation::ScheduleNotification(notification) => AndroidCommand::Request(AndroidPlatformRequest::ScheduleNotification(notification)),
            Mutation::CancelNotification { id } => AndroidCommand::Request(AndroidPlatformRequest::CancelNotification { id }),
            Mutation::AuthenticateBiometric { reason } => AndroidCommand::Request(AndroidPlatformRequest::AuthenticateBiometric { reason }),
            Mutation::CheckPermission { permission } => AndroidCommand::Request(AndroidPlatformRequest::CheckPermission { permission }),
            Mutation::RequestPermission { permission } => AndroidCommand::Request(AndroidPlatformRequest::RequestPermission { permission }),
            Mutation::StartLocation => AndroidCommand::Request(AndroidPlatformRequest::StartLocation),
            Mutation::StopLocation => AndroidCommand::Request(AndroidPlatformRequest::StopLocation),
            Mutation::StartMotion { accelerometer, gyroscope } => AndroidCommand::Request(AndroidPlatformRequest::StartMotion { accelerometer, gyroscope }),
            Mutation::StopMotion => AndroidCommand::Request(AndroidPlatformRequest::StopMotion),
            Mutation::PresentMediaPicker { max_selection } => AndroidCommand::Request(AndroidPlatformRequest::PresentMediaPicker { max_selection }),
            Mutation::PresentDocumentPicker { types } => AndroidCommand::Request(AndroidPlatformRequest::PresentDocumentPicker { types }),
            Mutation::RegisterBackgroundTask { identifier } => AndroidCommand::Request(AndroidPlatformRequest::RegisterBackgroundTask { identifier }),
            Mutation::ScheduleBackgroundTask { identifier, earliest_seconds } => AndroidCommand::Request(AndroidPlatformRequest::ScheduleBackgroundTask { identifier, earliest_seconds }),
            Mutation::SetClipboard { text } => AndroidCommand::Request(AndroidPlatformRequest::SetClipboard { text }),
            Mutation::ShareText { text } => AndroidCommand::Request(AndroidPlatformRequest::ShareText { text }),
            Mutation::OpenExternalUrl { url } => AndroidCommand::Request(AndroidPlatformRequest::OpenExternalUrl { url }),
            Mutation::AnnounceAccessibility { message } => AndroidCommand::Request(AndroidPlatformRequest::AnnounceAccessibility { message }),
            Mutation::RequestFocus { id } => AndroidCommand::Request(AndroidPlatformRequest::RequestFocus { id: widget_key(id) }),
            Mutation::RequestLocation => AndroidCommand::Request(AndroidPlatformRequest::StartLocation),
            Mutation::StopLocationUpdates => AndroidCommand::Request(AndroidPlatformRequest::StopLocation),
            Mutation::SetTorch { on } => AndroidCommand::Request(AndroidPlatformRequest::SetTorch { on }),
            Mutation::RegisterForPushNotifications => AndroidCommand::Request(AndroidPlatformRequest::RegisterForPushNotifications),
            Mutation::SetAppBadge { count } => AndroidCommand::Request(AndroidPlatformRequest::SetAppBadge { count }),
            Mutation::ScrollTo { id, offset_x, offset_y, animated } => AndroidCommand::ScrollTo { id: widget_key(id), offset_x, offset_y, animated },
            Mutation::ScrollToTop { id, animated } => AndroidCommand::ScrollToTop { id: widget_key(id), animated },
        }
    }
}

/// A batch of wire commands, as the JNI glue receives it.
#[derive(Debug, Clone, PartialEq)]
pub struct AndroidCommandBatch {
    /// The commands, in the order they were produced.
    pub commands: Vec<AndroidWireCommand>,
}

/// A host command in its wire form.
#[derive(Debug, Clone, PartialEq)]
pub enum AndroidWireCommand {
    Create {
        id: u64,
        class_name: String,
    },
    SetAttribute {
        id: u64,
        attr: AndroidWireAttribute,
    },
    SetFrame {
        id: u64,
        x: F32Bits,
        y: F32Bits,
        width: F32Bits,
        height: F32Bits,
    },
    InsertChild {
        parent: u64,
        child: u64,
        index: u64,
    },
    RemoveChild {
        parent: u64,
        child: u64,
    },
    Destroy {
        id: u64,
    },
    SetRoot {
        id: u64,
    },
    AddGesture {
        id: u64,
        gesture: String,
    },
    SetContentSize {
        id: u64,
        width: F32Bits,
        height: F32Bits,
    },
    SetBackdrop {
        argb: u32,
    },
    Haptic {
        style: String,
    },
    Request {
        request: AndroidWirePlatformRequest,
    },
    ScrollTo {
        id: u64,
        offset_x: F32Bits,
        offset_y: F32Bits,
        animated: bool,
    },
    ScrollToTop {
        id: u64,
        animated: bool,
    },
}

/// A platform service invocation in its wire form.
#[derive(Debug, Clone, PartialEq)]
pub enum AndroidWirePlatformRequest {
    ScheduleNotification {
        id: String,
        title: String,
        body: String,
        delay_seconds: u32,
    },
    CancelNotification {
        id: String,
    },
    AuthenticateBiometric {
        reason: String,
    },
    StartLocation,
    StopLocation,
    StartMotion {
        accelerometer: bool,
        gyroscope: bool,
    },
    StopMotion,
    PresentMediaPicker {
        max_selection: u64,
    },
    PresentDocumentPicker {
        types: Vec<String>,
    },
    RegisterBackgroundTask {
        identifier: String,
    },
    ScheduleBackgroundTask {
        identifier: String,
        earliest_seconds: F64Bits,
    },
    SetClipboard {
        text: String,
    },
    ShareText {
        text: String,
    },
    AnnounceAccessibility {
        message: String,
    },
    RequestFocus {
        id: u64,
    },
    SetTorch {
        on: bool,
    },
    RegisterForPushNotifications,
    SetAppBadge {
        count: u32,
    },
    CheckPermission {
        permission: PermissionKind,
    },
    RequestPermission {
        permission: PermissionKind,
    },
    OpenExternalUrl {
        url: String,
    },
}

/// A widget attribute in its wire form: colors packed as `0xAARRGGBB`,
/// enum values by name, callbacks as listener registrations.
#[derive(Debug, Clone, PartialEq)]
pub enum AndroidWireAttribute {
    Text(String),
    FontSize(F32Bits),
    TextColor(u32),
    BackgroundColor(u32),
    CornerRadius(F32Bits),
    Opacity(F32Bits),
    BorderWidth(F32Bits),
    BorderColor(u32),
    Shadow {
        color_argb: u32,
        radius: F32Bits,
        dx: F32Bits,
        dy: F32Bits,
    },
    ImageSource(String),
    ImageData(Vec<u8>),
    BoolValue(bool),
    FloatValue(F32Bits),
    TintColor(u32),
    Placeholder(String),
    Items(Vec<String>),
    Range {
        min: F32Bits,
        max: F32Bits,
        step: F32Bits,
    },
    AccessibilityLabel(String),
    AccessibilityHint(String),
    AccessibilityRole(String),
    AccessibilityHidden(bool),
    Direction(String),
    FontWeight(F32Bits),
    Italic(bool),
    TextAlign(String),
    Transform {
        translate_x: F32Bits,
        translate_y: F32Bits,
        scale_x: F32Bits,
        scale_y: F32Bits,
        rotate: F32Bits,
    },
    Gradient {
        colors_argb: Vec<u32>,
        start_x: F32Bits,
        start_y: F32Bits,
        end_x: F32Bits,
        end_y: F32Bits,
    },
    NumberOfLines(u32),
    Horizontal(bool),
    Refreshing(bool),
    ReturnKey(String),
    Secure(bool),
    QrScanning(bool),
    FontFamily(String),
    KeyboardType(String),
    RichText(Vec<AndroidWireTextSpan>),
    Url(String),
    Html(String),
    TextStyle(String),
    DatePickerMode(String),
    DatePickerStyle(String),
    DateValue(F64Bits),
    DateMin(F64Bits),
    DateMax(F64Bits),
    ItemCount(u64),
    EstimatedItemHeight(F32Bits),
    AnimateLayout(bool),
    MapCenter {
        latitude: F64Bits,
        longitude: F64Bits,
    },
    MapSpan {
        lat_span: F64Bits,
        lon_span: F64Bits,
    },
    MapAnnotation {
        annotation_id: String,
        latitude: F64Bits,
        longitude: F64Bits,
        title: String,
    },
    AccessibilitySelected(bool),
    AccessibilityDisabled(bool),
    AccessibilityExpanded(bool),
    AccessibilityBusy(bool),
    HitSlop {
        top: F32Bits,
        right: F32Bits,
        bottom: F32Bits,
        left: F32Bits,
    },
    LetterSpacing(F32Bits),
    LineHeight(F32Bits),
    TextDecoration(String),
    TextShadow {
        color_argb: u32,
        offset_x: F32Bits,
        offset_y: F32Bits,
        blur: F32Bits,
    },
    ScrollEnabled(bool),
    ShowsScrollIndicator(bool),
    PagingEnabled(bool),
    ContentInset {
        top: F32Bits,
        right: F32Bits,
        bottom: F32Bits,
        left: F32Bits,
    },
    EventListener {
        event: String,
    },
    SwipeListener {
        direction: String,
    },
    Cursor(String),
    PlaceholderColor(u32),
    InputPrefix(String),
    InputSuffix(String),
    ClearButton(bool),
    ReadOnly(bool),
    MaxLength(u64),
    BlurRadius(F32Bits),
    ClipToBounds(bool),
    ZIndex(i32),
    StatusBarStyle(String),
    AspectRatio(F32Bits),
    FlexOrder(i32),
    UserSelectText(bool),
    ParagraphSpacing(F32Bits),
    FontStyle(String),
    AccessibilityGroup(bool),
    AccessibilityHeadingLevel(u8),
    AccessibilityActions(Vec<String>),
    DynamicType(bool),
    AccessibilityValueString(String),
    KeyboardDismissMode(String),
    ImageResizeMode(String),
    ContextMenu(Vec<AndroidWireMenuItem>),
    Unsupported {
        name: String,
    },
}

/// A rich-text span in its wire form.
#[derive(Debug, Clone, PartialEq)]
pub struct AndroidWireTextSpan {
    /// The text content.
    pub text: String,
    /// Optional color, packed as `0xAARRGGBB`.
    pub color_argb: Option<u32>,
    /// Optional font size in points.
    pub font_size: Option<F32Bits>,
    /// Bold weight.
    pub bold: bool,
    /// Italic style.
    pub italic: bool,
    /// Underline decoration.
    pub underline: bool,
    /// Strikethrough decoration.
    pub strikethrough: bool,
    /// Letter spacing in points.
    pub letter_spacing: Option<F32Bits>,
}

/// A context-menu entry in its wire form (the action stays on the Rust side).
#[derive(Debug, Clone, PartialEq)]
pub struct AndroidWireMenuItem {
    /// The menu row's title.
    pub title: String,
    /// Optional leading icon name.
    pub icon: Option<String>,
    /// Whether the item is rendered in a destructive style.
    pub destructive: bool,
}

/// The wire form of a platform request.
pub open spec fn spec_wire_request(request: AndroidPlatformRequest) -> AndroidWirePlatformRequest {
    match request {
        AndroidPlatformRequest::ScheduleNotification(n) => AndroidWirePlatformRequest::ScheduleNotification { id: n.id, title: n.title, body: n.body, delay_seconds: n.delay_seconds },
        AndroidPlatformRequest::CancelNotification { id } => AndroidWirePlatformRequest::CancelNotification { id },
        AndroidPlatformRequest::AuthenticateBiometric { reason } => AndroidWirePlatformRequest::AuthenticateBiometric { reason },
        AndroidPlatformRequest::StartLocation => AndroidWirePlatformRequest::StartLocation,
        AndroidPlatformRequest::StopLocation => AndroidWirePlatformRequest::StopLocation,
        AndroidPlatformRequest::StartMotion { accelerometer, gyroscope } => AndroidWirePlatformRequest::StartMotion { accelerometer, gyroscope },
        AndroidPlatformRequest::StopMotion => AndroidWirePlatformRequest::StopMotion,
        AndroidPlatformRequest::PresentMediaPicker { max_selection } => AndroidWirePlatformRequest::PresentMediaPicker { max_selection: max_selection as u64 },
        AndroidPlatformRequest::PresentDocumentPicker { types } => AndroidWirePlatformRequest::PresentDocumentPicker { types },
        AndroidPlatformRequest::RegisterBackgroundTask { identifier } => AndroidWirePlatformRequest::RegisterBackgroundTask { identifier },
        AndroidPlatformRequest::ScheduleBackgroundTask { identifier, earliest_seconds } => AndroidWirePlatformRequest::ScheduleBackgroundTask { identifier, earliest_seconds },
        AndroidPlatformRequest::SetClipboard { text } => AndroidWirePlatformRequest::SetClipboard { text },
        AndroidPlatformRequest::ShareText { text } => AndroidWirePlatformRequest::ShareText { text },
        AndroidPlatformRequest::AnnounceAccessibility { message } => AndroidWirePlatformRequest::AnnounceAccessibility { message },
        AndroidPlatformRequest::RequestFocus { id } => AndroidWirePlatformRequest::RequestFocus { id },
        AndroidPlatformRequest::SetTorch { on } => AndroidWirePlatformRequest::SetTorch { on },
        AndroidPlatformRequest::RegisterForPushNotifications => AndroidWirePlatformRequest::RegisterForPushNotifications,
        AndroidPlatformRequest::SetAppBadge { count } => AndroidWirePlatformRequest::SetAppBadge { count },
        AndroidPlatformRequest::CheckPermission { permission } => AndroidWirePlatformRequest::CheckPermission { permission },
        AndroidPlatformRequest::RequestPermission { permission } => AndroidWirePlatformRequest::RequestPermission { permission },
        AndroidPlatformRequest::OpenExternalUrl { url } => AndroidWirePlatformRequest::OpenExternalUrl { url },
    }
}

impl From<AndroidPlatformRequest> for AndroidWirePlatformRequest {
    fn from(request: AndroidPlatformRequest) -> (r: AndroidWirePlatformRequest) {
        match request {
            AndroidPlatformRequest::ScheduleNotification(n) => AndroidWirePlatformRequest::ScheduleNotification { id: n.id, title: n.title, body: n.body, delay_seconds: n.delay_seconds },
            AndroidPlatformRequest::CancelNotification { id } => AndroidWirePlatformRequest::CancelNotification { id },
            AndroidPlatformRequest::AuthenticateBiometric { reason } => AndroidWirePlatformRequest::AuthenticateBiometric { reason },
            AndroidPlatformRequest::StartLocation => AndroidWirePlatformRequest::StartLocation,
            AndroidPlatformRequest::StopLocation => AndroidWirePlatformRequest::StopLocation,
            AndroidPlatformRequest::StartMotion { accelerometer, gyroscope } => AndroidWirePlatformRequest::StartMotion { accelerometer, gyroscope },
            AndroidPlatformRequest::StopMotion => AndroidWirePlatformRequest::StopMotion,
            AndroidPlatformRequest::PresentMediaPicker { max_selection } => AndroidWirePlatformRequest::PresentMediaPicker { max_selection: max_selection as u64 },
            AndroidPlatformRequest::PresentDocumentPicker { types } => AndroidWirePlatformRequest::PresentDocumentPicker { types },
            AndroidPlatformRequest::RegisterBackgroundTask { identifier } => AndroidWirePlatformRequest::RegisterBackgroundTask { identifier },
            AndroidPlatformRequest::ScheduleBackgroundTask { identifier, earliest_seconds } => AndroidWirePlatformRequest::ScheduleBackgroundTask { identifier, earliest_seconds },
            AndroidPlatformRequest::SetClipboard { text } => AndroidWirePlatformRequest::SetClipboard { text },
            AndroidPlatformRequest::ShareText { text } => AndroidWirePlatformRequest::ShareText { text },
            AndroidPlatformRequest::AnnounceAccessibility { message } => AndroidWirePlatformRequest::AnnounceAccessibility { message },
            AndroidPlatformRequest::RequestFocus { id } => AndroidWirePlatformRequest::RequestFocus { id },
            AndroidPlatformRequest::SetTorch { on } => AndroidWirePlatformRequest::SetTorch { on },
            AndroidPlatformRequest::RegisterForPushNotifications => AndroidWirePlatformRequest::RegisterForPushNotifications,
            AndroidPlatformRequest::SetAppBadge { count } => AndroidWirePlatformRequest::SetAppBadge { count },
            AndroidPlatformRequest::CheckPermission { permission } => AndroidWirePlatformRequest::CheckPermission { permission },
            AndroidPlatformRequest::RequestPermission { permission } => AndroidWirePlatformRequest::RequestPermission { permission },
            AndroidPlatformRequest::OpenExternalUrl { url } => AndroidWirePlatformRequest::OpenExternalUrl { url },
        }
    }
}

impl vstd::std_specs::convert::FromSpecImpl<AndroidPlatformRequest> for AndroidWirePlatformRequest {
    open spec fn obeys_from_spec() -> bool {
        true
    }

    open spec fn from_spec(request: AndroidPlatformRequest) -> AndroidWirePlatformRequest {
        spec_wire_request(request)
    }
}

/// The wire form of a rich-text span.
pub open spec fn spec_wire_text_span(span: TextSpan) -> AndroidWireTextSpan {
    AndroidWireTextSpan {
        text: span.text,
        color_argb: match span.color {
            Some(c) => Some(argb_u32(c)),
            None => None,
        },
        font_size: span.font_size,
        bold: span.bold,
        italic: span.italic,
        underline: span.underline,
        strikethrough: span.strikethrough,
        letter_spacing: span.letter_spacing,
    }
}

/// The wire form of a context-menu entry.
pub open spec fn spec_wire_menu_item(item: MenuItem) -> AndroidWireMenuItem {
    AndroidWireMenuItem { title: item.title, icon: item.icon, destructive: item.destructive }
}

/// Whether `w` is the wire form of the attribute `a`.
pub open spec fn wire_attribute_of(a: Attribute, w: AndroidWireAttribute) -> bool {
    match a {
        Attribute::Text(x) => w == AndroidWireAttribute::Text(x),
        Attribute::FontSize(x) => w == AndroidWireAttribute::FontSize(x),
        Attribute::TextColor(c) => w == AndroidWireAttribute::TextColor(argb_u32(c)),
        Attribute::BackgroundColor(c) => w == AndroidWireAttribute::BackgroundColor(argb_u32(c)),
        Attribute::CornerRadius(x) => w == AndroidWireAttribute::CornerRadius(x),
        Attribute::Opacity(x) => w == AndroidWireAttribute::Opacity(x),
        Attribute::BorderWidth(x) => w == AndroidWireAttribute::BorderWidth(x),
        Attribute::BorderColor(c) => w == AndroidWireAttribute::BorderColor(argb_u32(c)),
        Attribute::Shadow(s) => w == (AndroidWireAttribute::Shadow { color_argb: argb_u32(s.color), radius: s.radius, dx: s.dx, dy: s.dy }),
        Attribute::ImageSource(x) => w == AndroidWireAttribute::ImageSource(x),
        Attribute::BoolValue(x) => w == AndroidWireAttribute::BoolValue(x),
        Attribute::FloatValue(x) => w == AndroidWireAttribute::FloatValue(x),
        Attribute::TintColor(c) => w == AndroidWireAttribute::TintColor(argb_u32(c)),
        Attribute::Placeholder(x) => w == AndroidWireAttribute::Placeholder(x),
        Attribute::Items(x) => w == AndroidWireAttribute::Items(x),
        Attribute::Range { min, max, step } => w == (AndroidWireAttribute::Range { min, max, step }),
        Attribute::AccessibilityLabel(x) => w == AndroidWireAttribute::AccessibilityLabel(x),
        Attribute::AccessibilityHint(x) => w == AndroidWireAttribute::AccessibilityHint(x),
        Attribute::AccessibilityRole(x) => w matches AndroidWireAttribute::AccessibilityRole(s) && s@ == x.spec_label(),
        Attribute::AccessibilityHidden(x) => w == AndroidWireAttribute::AccessibilityHidden(x),
        Attribute::Direction(x) => w matches AndroidWireAttribute::Direction(s) && s@ == x.spec_label(),
        Attribute::FontWeight(x) => w == AndroidWireAttribute::FontWeight(x),
        Attribute::Italic(x) => w == AndroidWireAttribute::Italic(x),
        Attribute::TextAlign(x) => w matches AndroidWireAttribute::TextAlign(s) && s@ == x.spec_label(),
        Attribute::Transform(t) => w == (AndroidWireAttribute::Transform { translate_x: t.translate_x, translate_y: t.translate_y, scale_x: t.scale_x, scale_y: t.scale_y, rotate: t.rotate }),
        Attribute::Gradient(g) => w matches AndroidWireAttribute::Gradient { colors_argb, start_x, start_y, end_x, end_y } && colors_argb@ == g.colors@.map_values(|c: Color| argb_u32(c)) && start_x == g.start.x && start_y == g.start.y && end_x == g.end.x && end_y == g.end.y,
        Attribute::NumberOfLines(x) => w == AndroidWireAttribute::NumberOfLines(x),
        Attribute::ImageData(x) => w == AndroidWireAttribute::ImageData(x),
        Attribute::Horizontal(x) => w == AndroidWireAttribute::Horizontal(x),
        Attribute::Refreshing(x) => w == AndroidWireAttribute::Refreshing(x),
        Attribute::ReturnKey(x) => w matches AndroidWireAttribute::ReturnKey(s) && s@ == x.spec_label(),
        Attribute::Secure(x) => w == AndroidWireAttribute::Secure(x),
        Attribute::QrScanning(x) => w == AndroidWireAttribute::QrScanning(x),
        Attribute::FontFamily(x) => w == AndroidWireAttribute::FontFamily(x),
        Attribute::KeyboardType(x) => w matches AndroidWireAttribute::KeyboardType(s) && s@ == x.spec_label(),
        Attribute::RichText(spans) => w matches AndroidWireAttribute::RichText(ws) && ws@ == spans@.map_values(|s: TextSpan| spec_wire_text_span(s)),
        Attribute::Url(x) => w == AndroidWireAttribute::Url(x),
        Attribute::Html(x) => w == AndroidWireAttribute::Html(x),
        Attribute::TextStyle(x) => w matches AndroidWireAttribute::TextStyle(s) && s@ == x.spec_label(),
        Attribute::DatePickerMode(x) => w matches AndroidWireAttribute::DatePickerMode(s) && s@ == x.spec_label(),
        Attribute::DatePickerStyle(x) => w matches AndroidWireAttribute::DatePickerStyle(s) && s@ == x.spec_label(),
        Attribute::DateValue(x) => w == AndroidWireAttribute::DateValue(x),
        Attribute::DateMin(x) => w == AndroidWireAttribute::DateMin(x),
        Attribute::DateMax(x) => w == AndroidWireAttribute::DateMax(x),
        Attribute::ItemCount(x) => w == AndroidWireAttribute::ItemCount(x as u64),
        Attribute::EstimatedItemHeight(x) => w == AndroidWireAttribute::EstimatedItemHeight(x),
        Attribute::AnimateLayout(x) => w == AndroidWireAttribute::AnimateLayout(x),
        Attribute::MapCenter { latitude, longitude } => w == (AndroidWireAttribute::MapCenter { latitude, longitude }),
        Attribute::MapSpan { lat_span, lon_span } => w == (AndroidWireAttribute::MapSpan { lat_span, lon_span }),
        Attribute::MapAnnotation { annotation_id, latitude, longitude, title } => w == (AndroidWireAttribute::MapAnnotation { annotation_id, latitude, longitude, title }),
        Attribute::AccessibilitySelected(x) => w == AndroidWireAttribute::AccessibilitySelected(x),
        Attribute::AccessibilityDisabled(x) => w == AndroidWireAttribute::AccessibilityDisabled(x),
        Attribute::AccessibilityExpanded(x) => w == AndroidWireAttribute::AccessibilityExpanded(x),
        Attribute::AccessibilityBusy(x) => w == AndroidWireAttribute::AccessibilityBusy(x),
        Attribute::HitSlop { top, right, bottom, left } => w == (AndroidWireAttribute::HitSlop { top, right, bottom, left }),
        Attribute::LetterSpacing(x) => w == AndroidWireAttribute::LetterSpacing(x),
        Attribute::LineHeight(x) => w == AndroidWireAttribute::LineHeight(x),
        Attribute::TextDecoration(x) => w matches AndroidWireAttribute::TextDecoration(s) && s@ == x.spec_label(),
        Attribute::TextShadow { color, offset_x, offset_y, blur } => w == (AndroidWireAttribute::TextShadow { color_argb: argb_u32(color), offset_x, offset_y, blur }),
        Attribute::ScrollEnabled(x) => w == AndroidWireAttribute::ScrollEnabled(x),
        Attribute::ShowsScrollIndicator(x) => w == AndroidWireAttribute::ShowsScrollIndicator(x),
        Attribute::PagingEnabled(x) => w == AndroidWireAttribute::PagingEnabled(x),
        Attribute::ContentInset { top, right, bottom, left } => w == (AndroidWireAttribute::ContentInset { top, right, bottom, left }),
        Attribute::OnPressIn(_) => w matches AndroidWireAttribute::EventListener { event } && event@ == "press_in"@,
        Attribute::OnPressOut(_) => w matches AndroidWireAttribute::EventListener { event } && event@ == "press_out"@,
        Attribute::Cursor(x) => w matches AndroidWireAttribute::Cursor(s) && s@ == x.spec_label(),
        Attribute::OnSwipe { direction, .. } => w matches AndroidWireAttribute::SwipeListener { direction: d } && d@ == direction.spec_label(),
        Attribute::PlaceholderColor(c) => w == AndroidWireAttribute::PlaceholderColor(argb_u32(c)),
        Attribute::InputPrefix(x) => w == AndroidWireAttribute::InputPrefix(x),
        Attribute::InputSuffix(x) => w == AndroidWireAttribute::InputSuffix(x),
        Attribute::ClearButton(x) => w == AndroidWireAttribute::ClearButton(x),
        Attribute::ReadOnly(x) => w == AndroidWireAttribute::ReadOnly(x),
        Attribute::MaxLength(x) => w == AndroidWireAttribute::MaxLength(x as u64),
        Attribute::BlurRadius(x) => w == AndroidWireAttribute::BlurRadius(x),
        Attribute::ClipToBounds(x) => w == AndroidWireAttribute::ClipToBounds(x),
        Attribute::ZIndex(x) => w == AndroidWireAttribute::ZIndex(x),
        Attribute::StatusBarStyle(x) => w matches AndroidWireAttribute::StatusBarStyle(s) && s@ == x.spec_label(),
        Attribute::AspectRatio(x) => w == AndroidWireAttribute::AspectRatio(x),
        Attribute::FlexOrder(x) => w == AndroidWireAttribute::FlexOrder(x),
        Attribute::UserSelectText(x) => w == AndroidWireAttribute::UserSelectText(x),
        Attribute::ParagraphSpacing(x) => w == AndroidWireAttribute::ParagraphSpacing(x),
        Attribute::FontStyle(x) => w matches AndroidWireAttribute::FontStyle(s) && s@ == x.spec_label(),
        Attribute::AccessibilityGroup(x) => w == AndroidWireAttribute::AccessibilityGroup(x),
        Attribute::AccessibilityHeadingLevel(x) => w == AndroidWireAttribute::AccessibilityHeadingLevel(x),
        Attribute::AccessibilityActions(x) => w == AndroidWireAttribute::AccessibilityActions(x),
        Attribute::DynamicType(x) => w == AndroidWireAttribute::DynamicType(x),
        Attribute::AccessibilityValueString(x) => w == AndroidWireAttribute::AccessibilityValueString(x),
        Attribute::OnScrollChange(_) => w matches AndroidWireAttribute::EventListener { event } && event@ == "scroll_change"@,
        Attribute::OnScrollBegin(_) => w matches AndroidWireAttribute::EventListener { event } && event@ == "scroll_begin"@,
        Attribute::OnScrollEnd(_) => w matches AndroidWireAttribute::EventListener { event } && event@ == "scroll_end"@,
        Attribute::KeyboardDismissMode(x) => w matches AndroidWireAttribute::KeyboardDismissMode(s) && s@ == x.spec_label(),
        Attribute::ImageResizeMode(x) => w matches AndroidWireAttribute::ImageResizeMode(s) && s@ == x.spec_label(),
        Attribute::ImageOnLoad(_) => w matches AndroidWireAttribute::EventListener { event } && event@ == "image_load"@,
        Attribute::ImageOnError(_) => w matches AndroidWireAttribute::EventListener { event } && event@ == "image_error"@,
        Attribute::DrawList(_) => w matches AndroidWireAttribute::Unsupported { name } && name@ == "draw_list"@,
        Attribute::ContextMenu(items) => w matches AndroidWireAttribute::ContextMenu(ws) && ws@ == items@.map_values(|i: MenuItem| spec_wire_menu_item(i)),
    }
}

/// Whether `w` is the wire form of the command `c`.
pub open spec fn wire_command_of(c: AndroidCommand, w: AndroidWireCommand) -> bool {
    match c {
        AndroidCommand::Create { id, class } => w matches AndroidWireCommand::Create { id: i, class_name } && i == id && class_name@ == class.spec_class_name(),
        AndroidCommand::SetAttribute { id, attr } => w matches AndroidWireCommand::SetAttribute { id: i, attr: wa } && i == id && wire_attribute_of(attr, wa),
        AndroidCommand::SetFrame { id, x, y, width, height } => w == (AndroidWireCommand::SetFrame { id, x, y, width, height }),
        AndroidCommand::InsertChild { parent, child, index } => w == (AndroidWireCommand::InsertChild { parent, child, index: index as u64 }),
        AndroidCommand::RemoveChild { parent, child } => w == (AndroidWireCommand::RemoveChild { parent, child }),
        AndroidCommand::Destroy { id } => w == (AndroidWireCommand::Destroy { id }),
        AndroidCommand::SetRoot { id } => w == (AndroidWireCommand::SetRoot { id }),
        AndroidCommand::AddGesture { id, gesture } => w matches AndroidWireCommand::AddGesture { id: i, gesture: g } && i == id && g@ == gesture.spec_label(),
        AndroidCommand::SetContentSize { id, width, height } => w == (AndroidWireCommand::SetContentSize { id, width, height }),
        AndroidCommand::SetBackdrop { argb } => w == (AndroidWireCommand::SetBackdrop { argb }),
        AndroidCommand::Haptic { style } => w matches AndroidWireCommand::Haptic { style: s } && s@ == style.spec_label(),
        AndroidCommand::Request(request) => w == (AndroidWireCommand::Request { request: spec_wire_request(request) }),
        AndroidCommand::ScrollTo { id, offset_x, offset_y, animated } => w == (AndroidWireCommand::ScrollTo { id, offset_x, offset_y, animated }),
        AndroidCommand::ScrollToTop { id, animated } => w == (AndroidWireCommand::ScrollToTop { id, animated }),
    }
}

/// Packs each color as `0xAARRGGBB`.
fn argb_colors(colors: &Vec<Color>) -> (r: Vec<u32>)
    ensures
        r@ == colors@.map_values(|c: Color| argb_u32(c)),
{
    let mut out: Vec<u32> = Vec::new();
    let mut i: usize = 0;
    while i < colors.len()
        invariant
            i <= colors.len(),
            out@ == colors@.subrange(0, i as int).map_values(|c: Color| argb_u32(c)),
        decreases colors.len() - i,
    {
        out.push(colors[i].to_argb_u32());
        i = i + 1;
        assert(colors@.subrange(0, i as int) == colors@.subrange(0, i - 1).push(colors@[i - 1]));
    }
    assert(colors@.subrange(0, i as int) == colors@);
    out
}

/// The wire form of one rich-text span.
fn android_wire_text_span(span: &TextSpan) -> (r: AndroidWireTextSpan)
    ensures
        r == spec_wire_text_span(*span),
{
    AndroidWireTextSpan {
        text: span.text.clone(),
        color_argb: match span.color {
            Some(c) => Some(c.to_argb_u32()),
            None => None,
        },
        font_size: span.font_size,
        bold: span.bold,
        italic: span.italic,
        underline: span.underline,
        strikethrough: span.strikethrough,
        letter_spacing: span.letter_spacing,
    }
}

/// The wire form of each rich-text span, in order.
fn android_wire_text_spans(spans: &Vec<TextSpan>) -> (r: Vec<AndroidWireTextSpan>)
    ensures
        r@ == spans@.map_values(|s: TextSpan| spec_wire_text_span(s)),
{
    let mut out: Vec<AndroidWireTextSpan> = Vec::new();
    let mut i: usize = 0;
    while i < spans.len()
        invariant
            i <= spans.len(),
            out@ == spans@.subrange(0, i as int).map_values(|s: TextSpan| spec_wire_text_span(s)),
        decreases spans.len() - i,
    {
        out.push(android_wire_text_span(&spans[i]));
        i = i + 1;
        assert(spans@.subrange(0, i as int) == spans@.subrange(0, i - 1).push(spans@[i - 1]));
    }
    assert(spans@.subrange(0, i as int) == spans@);
    out
}

/// The wire form of one context-menu entry.
fn android_wire_menu_item(item: &MenuItem) -> (r: AndroidWireMenuItem)
    ensures
        r == spec_wire_menu_item(*item),
{
    AndroidWireMenuItem {
        title: item.title.clone(),
        icon: match &item.icon {
            Some(icon) => Some(icon.clone()),
            None => None,
        },
        destructive: item.destructive,
    }
}

/// The wire form of each context-menu entry, in order.
fn android_wire_menu_items(items: &Vec<MenuItem>) -> (r: Vec<AndroidWireMenuItem>)
    ensures
        r@ == items@.map_values(|i: MenuItem| spec_wire_menu_item(i)),
{
    let mut out: Vec<AndroidWireMenuItem> = Vec::new();
    let mut i: usize = 0;
    while i < items.len()
        invariant
            i <= items.len(),
            out@ == items@.subrange(0, i as int).map_values(|m: MenuItem| spec_wire_menu_item(m)),
        decreases items.len() - i,
    {
        out.push(android_wire_menu_item(&items[i]));
        i = i + 1;
        assert(items@.subrange(0, i as int) == items@.subrange(0, i - 1).push(items@[i - 1]));
    }
    assert(items@.subrange(0, i as int) == items@);
    out
}

/// Translates a framework attribute into its wire form.
#[verifier::rlimit(50)]
pub fn android_wire_attribute(attr: Attribute) -> (w: AndroidWireAttribute)
    ensures
        wire_attribute_of(attr, w),
{
    match attr {
        Attribute::Text(x) => AndroidWireAttribute::Text(x),
        Attribute::FontSize(x) => AndroidWireAttribute::FontSize(x),
        Attribute::TextColor(c) => AndroidWireAttribute::TextColor(c.to_argb_u32()),
        Attribute::BackgroundColor(c) => AndroidWireAttribute::BackgroundColor(c.to_argb_u32()),
        Attribute::CornerRadius(x) => AndroidWireAttribute::CornerRadius(x),
        Attribute::Opacity(x) => AndroidWireAttribute::Opacity(x),
        Attribute::BorderWidth(x) => AndroidWireAttribute::BorderWidth(x),
        Attribute::BorderColor(c) => AndroidWireAttribute::BorderColor(c.to_argb_u32()),
        Attribute::Shadow(s) => AndroidWireAttribute::Shadow { color_argb: s.color.to_argb_u32(), radius: s.radius, dx: s.dx, dy: s.dy },
        Attribute::ImageSource(x) => AndroidWireAttribute::ImageSource(x),
        Attribute::BoolValue(x) => AndroidWireAttribute::BoolValue(x),
        Attribute::FloatValue(x) => AndroidWireAttribute::FloatValue(x),
        Attribute::TintColor(c) => AndroidWireAttribute::TintColor(c.to_argb_u32()),
        Attribute::Placeholder(x) => AndroidWireAttribute::Placeholder(x),
        Attribute::Items(x) => AndroidWireAttribute::Items(x),
        Attribute::Range { min, max, step } => AndroidWireAttribute::Range { min, max, step },
        Attribute::AccessibilityLabel(x) => AndroidWireAttribute::AccessibilityLabel(x),
        Attribute::AccessibilityHint(x) => AndroidWireAttribute::AccessibilityHint(x),
        Attribute::AccessibilityRole(x) => AndroidWireAttribute::AccessibilityRole(x.label()),
        Attribute::AccessibilityHidden(x) => AndroidWireAttribute::AccessibilityHidden(x),
        Attribute::Direction(x) => AndroidWireAttribute::Direction(x.label()),
        Attribute::FontWeight(x) => AndroidWireAttribute::FontWeight(x),
        Attribute::Italic(x) => AndroidWireAttribute::Italic(x),
        Attribute::TextAlign(x) => AndroidWireAttribute::TextAlign(x.label()),
        Attribute::Transform(t) => AndroidWireAttribute::Transform { translate_x: t.translate_x, translate_y: t.translate_y, scale_x: t.scale_x, scale_y: t.scale_y, rotate: t.rotate },
        Attribute::Gradient(g) => AndroidWireAttribute::Gradient { colors_argb: argb_colors(&g.colors), start_x: g.start.x, start_y: g.start.y, end_x: g.end.x, end_y: g.end.y },
        Attribute::NumberOfLines(x) => AndroidWireAttribute::NumberOfLines(x),
        Attribute::ImageData(x) => AndroidWireAttribute::ImageData(x),
        Attribute::Horizontal(x) => AndroidWireAttribute::Horizontal(x),
        Attribute::Refreshing(x) => AndroidWireAttribute::Refreshing(x),
        Attribute::ReturnKey(x) => AndroidWireAttribute::ReturnKey(x.label()),
        Attribute::Secure(x) => AndroidWireAttribute::Secure(x),
        Attribute::QrScanning(x) => AndroidWireAttribute::QrScanning(x),
        Attribute::FontFamily(x) => AndroidWireAttribute::FontFamily(x),
        Attribute::KeyboardType(x) => AndroidWireAttribute::KeyboardType(x.label()),
        Attribute::RichText(spans) => AndroidWireAttribute::RichText(android_wire_text_spans(&spans)),
        Attribute::Url(x) => AndroidWireAttribute::Url(x),
        Attribute::Html(x) => AndroidWireAttribute::Html(x),
        Attribute::TextStyle(x) => AndroidWireAttribute::TextStyle(x.label()),
        Attribute::DatePickerMode(x) => AndroidWireAttribute::DatePickerMode(x.label()),
        Attribute::DatePickerStyle(x) => AndroidWireAttribute::DatePickerStyle(x.label()),
        Attribute::DateValue(x) => AndroidWireAttribute::DateValue(x),
        Attribute::DateMin(x) => AndroidWireAttribute::DateMin(x),
        Attribute::DateMax(x) => AndroidWireAttribute::DateMax(x),
        Attribute::ItemCount(x) => AndroidWireAttribute::ItemCount(x as u64),
        Attribute::EstimatedItemHeight(x) => AndroidWireAttribute::EstimatedItemHeight(x),
        Attribute::AnimateLayout(x) => AndroidWireAttribute::AnimateLayout(x),
        Attribute::MapCenter { latitude, longitude } => AndroidWireAttribute::MapCenter { latitude, longitude },
        Attribute::MapSpan { lat_span, lon_span } => AndroidWireAttribute::MapSpan { lat_span, lon_span },
        Attribute::MapAnnotation { annotation_id, latitude, longitude, title } => AndroidWireAttribute::MapAnnotation { annotation_id, latitude, longitude, title },
        Attribute::AccessibilitySelected(x) => AndroidWireAttribute::AccessibilitySelected(x),
        Attribute::AccessibilityDisabled(x) => AndroidWireAttribute::AccessibilityDisabled(x),
        Attribute::AccessibilityExpanded(x) => AndroidWireAttribute::AccessibilityExpanded(x),
        Attribute::AccessibilityBusy(x) => AndroidWireAttribute::AccessibilityBusy(x),
        Attribute::HitSlop { top, right, bottom, left } => AndroidWireAttribute::HitSlop { top, right, bottom, left },
        Attribute::LetterSpacing(x) => AndroidWireAttribute::LetterSpacing(x),
        Attribute::LineHeight(x) => AndroidWireAttribute::LineHeight(x),
        Attribute::TextDecoration(x) => AndroidWireAttribute::TextDecoration(x.label()),
        Attribute::TextShadow { color, offset_x, offset_y, blur } => AndroidWireAttribute::TextShadow { color_argb: color.to_argb_u32(), offset_x, offset_y, blur },
        Attribute::ScrollEnabled(x) => AndroidWireAttribute::ScrollEnabled(x),
        Attribute::ShowsScrollIndicator(x) => AndroidWireAttribute::ShowsScrollIndicator(x),
        Attribute::PagingEnabled(x) => AndroidWireAttribute::PagingEnabled(x),
        Attribute::ContentInset { top, right, bottom, left } => AndroidWireAttribute::ContentInset { top, right, bottom, left },
        Attribute::OnPressIn(_) => AndroidWireAttribute::EventListener { event: "press_in".to_owned() },
        Attribute::OnPressOut(_) => AndroidWireAttribute::EventListener { event: "press_out".to_owned() },
        Attribute::Cursor(x) => AndroidWireAttribute::Cursor(x.label()),
        Attribute::OnSwipe { direction, .. } => AndroidWireAttribute::SwipeListener { direction: direction.label() },
        Attribute::PlaceholderColor(c) => AndroidWireAttribute::PlaceholderColor(c.to_argb_u32()),
        Attribute::InputPrefix(x) => AndroidWireAttribute::InputPrefix(x),
        Attribute::InputSuffix(x) => AndroidWireAttribute::InputSuffix(x),
        Attribute::ClearButton(x) => AndroidWireAttribute::ClearButton(x),
        Attribute::ReadOnly(x) => AndroidWireAttribute::ReadOnly(x),
        Attribute::MaxLength(x) => AndroidWireAttribute::MaxLength(x as u64),
        Attribute::BlurRadius(x) => AndroidWireAttribute::BlurRadius(x),
        Attribute::ClipToBounds(x) => AndroidWireAttribute::ClipToBounds(x),
        Attribute::ZIndex(x) => AndroidWireAttribute::ZIndex(x),
        Attribute::StatusBarStyle(x) => AndroidWireAttribute::StatusBarStyle(x.label()),
        Attribute::AspectRatio(x) => AndroidWireAttribute::AspectRatio(x),
        Attribute::FlexOrder(x) => AndroidWireAttribute::FlexOrder(x),
        Attribute::UserSelectText(x) => AndroidWireAttribute::UserSelectText(x),
        Attribute::ParagraphSpacing(x) => AndroidWireAttribute::ParagraphSpacing(x),
        Attribute::FontStyle(x) => AndroidWireAttribute::FontStyle(x.label()),
        Attribute::AccessibilityGroup(x) => AndroidWireAttribute::AccessibilityGroup(x),
        Attribute::AccessibilityHeadingLevel(x) => AndroidWireAttribute::AccessibilityHeadingLevel(x),
        Attribute::AccessibilityActions(x) => AndroidWireAttribute::AccessibilityActions(x),
        Attribute::DynamicType(x) => AndroidWireAttribute::DynamicType(x),
        Attribute::AccessibilityValueString(x) => AndroidWireAttribute::AccessibilityValueString(x),
        Attribute::OnScrollChange(_) => AndroidWireAttribute::EventListener { event: "scroll_change".to_owned() },
        Attribute::OnScrollBegin(_) => AndroidWireAttribute::EventListener { event: "scroll_begin".to_owned() },
        Attribute::OnScrollEnd(_) => AndroidWireAttribute::EventListener { event: "scroll_end".to_owned() },
        Attribute::KeyboardDismissMode(x) => AndroidWireAttribute::KeyboardDismissMode(x.label()),
        Attribute::ImageResizeMode(x) => AndroidWireAttribute::ImageResizeMode(x.label()),
        Attribute::ImageOnLoad(_) => AndroidWireAttribute::EventListener { event: "image_load".to_owned() },
        Attribute::ImageOnError(_) => AndroidWireAttribute::EventListener { event: "image_error".to_owned() },
        Attribute::DrawList(_) => AndroidWireAttribute::Unsupported { name: "draw_list".to_owned() },
        Attribute::ContextMenu(items) => AndroidWireAttribute::ContextMenu(android_wire_menu_items(&items)),
    }
}

impl AndroidWireCommand {
    /// Translates a host command into its wire form.
    pub fn from_command(command: AndroidCommand) -> (w: AndroidWireCommand)
        ensures
            wire_command_of(command, w),
    {
        match command {
            AndroidCommand::Create { id, class } => AndroidWireCommand::Create { id, class_name: class.class_name().to_owned() },
            AndroidCommand::SetAttribute { id, attr } => AndroidWireCommand::SetAttribute { id, attr: android_wire_attribute(attr) },
            AndroidCommand::SetFrame { id, x, y, width, height } => AndroidWireCommand::SetFrame { id, x, y, width, height },
            AndroidCommand::InsertChild { parent, child, index } => AndroidWireCommand::InsertChild { parent, child, index: index as u64 },
            AndroidCommand::RemoveChild { parent, child } => AndroidWireCommand::RemoveChild { parent, child },
            AndroidCommand::Destroy { id } => AndroidWireCommand::Destroy { id },
            AndroidCommand::SetRoot { id } => AndroidWireCommand::SetRoot { id },
            AndroidCommand::AddGesture { id, gesture } => AndroidWireCommand::AddGesture { id, gesture: gesture.label() },
            AndroidCommand::SetContentSize { id, width, height } => AndroidWireCommand::SetContentSize { id, width, height },
            AndroidCommand::SetBackdrop { argb } => AndroidWireCommand::SetBackdrop { argb },
            AndroidCommand::Haptic { style } => AndroidWireCommand::Haptic { style: style.label() },
            AndroidCommand::Request(request) => AndroidWireCommand::Request { request: AndroidWirePlatformRequest::from(request) },
            AndroidCommand::ScrollTo { id, offset_x, offset_y, animated } => AndroidWireCommand::ScrollTo { id, offset_x, offset_y, animated },
            AndroidCommand::ScrollToTop { id, animated } => AndroidWireCommand::ScrollToTop { id, animated },
        }
    }
}
/// Whether `ws` is, position by position, the wire form of `cs`.
pub open spec fn wire_commands_of(cs: Seq<AndroidCommand>, ws: Seq<AndroidWireCommand>) -> bool {
    &&& ws.len() == cs.len()
    &&& forall|i: int| #![trigger cs[i]] 0 <= i < cs.len() ==> wire_command_of(cs[i], ws[i])
}

impl AndroidCommandBatch {
    /// The wire form of `commands`, in order.
    pub fn from_commands(commands: Vec<AndroidCommand>) -> (r: AndroidCommandBatch)
        ensures
            wire_commands_of(commands@, r.commands@),
    {
        let ghost cs = commands@;
        let mut rest = commands;
        let mut reversed: Vec<AndroidWireCommand> = Vec::new();
        while rest.len() > 0
            invariant
                rest@.len() + reversed@.len() == cs.len(),
                rest@ == cs.subrange(0, rest@.len() as int),
                forall|j: int|
                    #![trigger reversed@[j]]
                    0 <= j < reversed@.len() ==> wire_command_of(cs[cs.len() - 1 - j], reversed@[j]),
            decreases rest.len(),
        {
            let command = rest.pop().unwrap();
            reversed.push(AndroidWireCommand::from_command(command));
        }
        let ghost rev = reversed@;
        let mut out: Vec<AndroidWireCommand> = Vec::new();
        while reversed.len() > 0
            invariant
                reversed@ == rev.subrange(0, reversed@.len() as int),
                out@.len() + reversed@.len() == cs.len(),
                rev.len() == cs.len(),
                forall|j: int|
                    #![trigger rev[j]]
                    0 <= j < rev.len() ==> wire_command_of(cs[cs.len() - 1 - j], rev[j]),
                forall|k: int| #![trigger out@[k]] 0 <= k < out@.len() ==> out@[k] == rev[cs.len() - 1 - k],
            decreases reversed.len(),
        {
            let w = reversed.pop().unwrap();
            out.push(w);
        }
        assert forall|i: int| #![trigger cs[i]] 0 <= i < cs.len() implies wire_command_of(cs[i], out@[i]) by {
            assert(out@[i] == rev[cs.len() - 1 - i]);
            assert(wire_command_of(cs[cs.len() - 1 - (cs.len() - 1 - i)], rev[cs.len() - 1 - i]));
        }
        AndroidCommandBatch { commands: out }
    }

    /// Number of commands in the batch.
    pub fn len(&self) -> (r: usize)
        ensures
            r == self.commands@.len(),
    {
        self.commands.len()
    }

    /// Whether the batch holds no command.
    pub fn is_empty(&self) -> (r: bool)
        ensures
            r == (self.commands@.len() == 0),
    {
        self.commands.len() == 0
    }
}

impl Default for AndroidCommandBatch {
    fn default() -> (r: Self)
        ensures
            r.commands@.len() == 0,
    {
        AndroidCommandBatch { commands: Vec::new() }
    }
}

/// The pure half of the Android backend: a queue of host commands, filled
/// by applying mutations and emptied by the host once per frame.
pub struct AndroidBackend {
    commands: Vec<AndroidCommand>,
}

impl View for AndroidBackend {
    type V = Seq<AndroidCommand>;

    closed spec fn view(&self) -> Seq<AndroidCommand> {
        self.commands@
    }
}

impl AndroidBackend {
    /// A backend with an empty command queue.
    pub fn new() -> (r: AndroidBackend)
        ensures
            r@ == Seq::<AndroidCommand>::empty(),
    {
        AndroidBackend { commands: Vec::new() }
    }

    /// Queues the host command for `mutation`.
    pub fn apply(&mut self, mutation: Mutation)
        ensures
            final(self)@ == old(self)@.push(spec_command_of(mutation)),
    {
        let command = AndroidCommand::from_mutation(mutation);
        self.commands.push(command);
    }

    /// Takes every queued command, oldest first, leaving the queue empty.
    pub fn drain_commands(&mut self) -> (r: Vec<AndroidCommand>)
        ensures
            r@ == old(self)@,
            final(self)@ == Seq::<AndroidCommand>::empty(),
    {
        let mut taken: Vec<AndroidCommand> = Vec::new();
        std::mem::swap(&mut taken, &mut self.commands);
        taken
    }

    /// Takes every queued command in its wire form, leaving the queue empty.
    pub fn drain_command_batch(&mut self) -> (r: AndroidCommandBatch)
        ensures
            wire_commands_of(old(self)@, r.commands@),
            final(self)@ == Seq::<AndroidCommand>::empty(),
    {
        AndroidCommandBatch::from_commands(self.drain_commands())
    }
}

impl Default for AndroidBackend {
    fn default() -> (r: Self)
        ensures
            r@ == Seq::<AndroidCommand>::empty(),
    {
        AndroidBackend::new()
    }
}

/// Applying mutations one by one to an empty backend queues exactly their
/// host commands, in the order they were applied.
pub proof fn lemma_applied_commands_in_order(queues: Seq<Seq<AndroidCommand>>, applied: Seq<Mutation>)
    requires
        queues.len() == applied.len() + 1,
        queues[0] == Seq::<AndroidCommand>::empty(),
        forall|k: int|
            0 <= k < applied.len() ==> #[trigger] queues[k + 1] == queues[k].push(spec_command_of(applied[k])),
    ensures
        queues.last() == applied.map_values(|m: Mutation| spec_command_of(m)),
    decreases applied.len(),
{
    if applied.len() > 0 {
        let n = applied.len() - 1;
        lemma_applied_commands_in_order(queues.take(n + 1), applied.take(n));
        assert(queues[n + 1] == queues[n].push(spec_command_of(applied[n])));
        assert(queues.take(n + 1).last() == queues[n]);
        assert(applied.map_values(|m: Mutation| spec_command_of(m)) =~= applied.take(n).map_values(
            |m: Mutation| spec_command_of(m),
        ).push(spec_command_of(applied[n])));
    }
}

/// A color packed as Android's `0xAARRGGBB`.
pub fn color_to_argb(color: Color) -> (r: u32)
    ensures
        r == argb_u32(color),
        r as nat == crate::core_types::spec_argb(color),
{
    color.to_argb_u32()
}

/// The stable 64-bit key that identifies a widget on the Android side.
pub fn widget_key(id: WidgetId) -> (r: u64)
    ensures
        r as nat == packed_widget_id(id.spec_slot(), id.spec_generation()),
{
    id.to_u64()
}

/// The host command that positions and sizes a widget.
pub fn frame_command(id: WidgetId, rect: Rect) -> (r: AndroidCommand)
    ensures
        r == spec_command_of(Mutation::SetFrame { id, rect }),
{
    AndroidCommand::SetFrame {
        id: widget_key(id),
        x: rect.origin.x,
        y: rect.origin.y,
        width: rect.size.width,
        height: rect.size.height,
    }
}

} // verus!
