//! Bookkeeping of the UIKit backend.
//!
//! The UIKit glue reads platform status codes, gesture states and text
//! edits, and keeps per-widget callback tables keyed by the view tag (the
//! widget id packed into a `u64`). This module holds those decisions and
//! tables: decoding reachability flags and authorization codes, which
//! callback a recognizer or delegate fires, text length limits, the image
//! load state, and the per-frame queue of platform results turned into
//! events. Calling into UIKit stays with the glue.

use std::collections::BTreeMap;
use vstd::prelude::*;
use vstd::utf8::encode_utf8;
use crate::assoc::{
    alist_map, keys_distinct, lemma_alist_dom, lemma_alist_filter, lemma_alist_lookup,
    lemma_alist_push_distinct, lemma_alist_update,
};
use crate::core_types::{F32Bits, F64Bits, Point};
use crate::dom::event::{Event, Lifecycle, TextSelection};
use crate::dom::mutation::{
    Callback, HapticStyle, ImageErrorCallback, ImageLoadCallback, ImageResizeMode,
    KeyboardDismissMode, KeyboardType, LayoutDirection, PermissionKind, PermissionStatus,
    ReturnKeyType, Role, ScrollCallback, StatusBarStyle, SwipeDirection, TextDecoration,
    TextStyle, WidgetId,
};
use crate::net::{hex_digits, push_hex_digits};
use crate::runtime::{DeviceState, NetworkStatus, update_permission};

verus! {

/// `kSCNetworkReachabilityFlagsReachable`.
pub const SC_NETWORK_REACHABILITY_FLAGS_REACHABLE: u32 = 0x2;

/// `kSCNetworkReachabilityFlagsConnectionRequired`.
pub const SC_NETWORK_REACHABILITY_FLAGS_CONNECTION_REQUIRED: u32 = 0x4;

/// `kSCNetworkReachabilityFlagsConnectionOnTraffic`.
pub const SC_NETWORK_REACHABILITY_FLAGS_CONNECTION_ON_TRAFFIC: u32 = 0x8;

/// `kSCNetworkReachabilityFlagsInterventionRequired`.
pub const SC_NETWORK_REACHABILITY_FLAGS_INTERVENTION_REQUIRED: u32 = 0x10;

/// `kSCNetworkReachabilityFlagsConnectionOnDemand`.
pub const SC_NETWORK_REACHABILITY_FLAGS_CONNECTION_ON_DEMAND: u32 = 0x20;

/// `kSCNetworkReachabilityFlagsIsWWAN`.
pub const SC_NETWORK_REACHABILITY_FLAGS_IS_WWAN: u32 = 0x40000;

/// Whether any bit of `flag` is set in `flags`.
pub open spec fn has_flag(flags: u32, flag: u32) -> bool {
    flags & flag != 0
}

/// The reachability that a set of SystemConfiguration flags describes: the
/// host is online when reachable and either no connection is required or
/// one is made automatically without user intervention; an online host is
/// on cellular when the WWAN flag is set and on Wi-Fi otherwise.
pub open spec fn spec_network_status_from_flags(flags: u32) -> NetworkStatus {
    let reachable = has_flag(flags, SC_NETWORK_REACHABILITY_FLAGS_REACHABLE);
    let connection_required = has_flag(flags, SC_NETWORK_REACHABILITY_FLAGS_CONNECTION_REQUIRED);
    let automatic = has_flag(flags, SC_NETWORK_REACHABILITY_FLAGS_CONNECTION_ON_DEMAND)
        || has_flag(flags, SC_NETWORK_REACHABILITY_FLAGS_CONNECTION_ON_TRAFFIC);
    let intervention = has_flag(flags, SC_NETWORK_REACHABILITY_FLAGS_INTERVENTION_REQUIRED);
    if !(reachable && (!connection_required || (automatic && !intervention))) {
        NetworkStatus::Offline
    } else if has_flag(flags, SC_NETWORK_REACHABILITY_FLAGS_IS_WWAN) {
        NetworkStatus::Cellular
    } else {
        NetworkStatus::WiFi
    }
}

/// Decodes SystemConfiguration reachability flags into a network status.
pub fn ios_network_status_from_flags(flags: u32) -> (r: NetworkStatus)
    ensures
        r == spec_network_status_from_flags(flags),
{
    let reachable = flags & SC_NETWORK_REACHABILITY_FLAGS_REACHABLE != 0;
    let connection_required = flags & SC_NETWORK_REACHABILITY_FLAGS_CONNECTION_REQUIRED != 0;
    let on_demand = flags & SC_NETWORK_REACHABILITY_FLAGS_CONNECTION_ON_DEMAND != 0;
    let on_traffic = flags & SC_NETWORK_REACHABILITY_FLAGS_CONNECTION_ON_TRAFFIC != 0;
    let can_connect_automatically = on_demand || on_traffic;
    let intervention_required = flags & SC_NETWORK_REACHABILITY_FLAGS_INTERVENTION_REQUIRED != 0;
    let online = reachable && (!connection_required || (can_connect_automatically
        && !intervention_required));
    if !online {
        return NetworkStatus::Offline;
    }
    if flags & SC_NETWORK_REACHABILITY_FLAGS_IS_WWAN != 0 {
        NetworkStatus::Cellular
    } else {
        NetworkStatus::WiFi
    }
}

/// The permission state an `AVAuthorizationStatus` code stands for.
pub open spec fn spec_permission_from_av_status(status: isize) -> PermissionStatus {
    if status == 0 {
        PermissionStatus::NotDetermined
    } else if status == 1 {
        PermissionStatus::Restricted
    } else if status == 2 {
        PermissionStatus::Denied
    } else if status == 3 {
        PermissionStatus::Granted
    } else {
        PermissionStatus::Unknown
    }
}

/// Decodes an `AVAuthorizationStatus` (camera, microphone).
pub fn permission_from_av_status(status: isize) -> (r: PermissionStatus)
    ensures
        r == spec_permission_from_av_status(status),
{
    match status {
        0 => PermissionStatus::NotDetermined,
        1 => PermissionStatus::Restricted,
        2 => PermissionStatus::Denied,
        3 => PermissionStatus::Granted,
        _ => PermissionStatus::Unknown,
    }
}

/// The permission state a `CLAuthorizationStatus` code stands for; both
/// "always" and "when in use" count as granted.
pub open spec fn spec_permission_from_location_status(status: isize) -> PermissionStatus {
    if status == 0 {
        PermissionStatus::NotDetermined
    } else if status == 1 {
        PermissionStatus::Restricted
    } else if status == 2 {
        PermissionStatus::Denied
    } else if status == 3 || status == 4 {
        PermissionStatus::Granted
    } else {
        PermissionStatus::Unknown
    }
}

/// Decodes a `CLAuthorizationStatus` (location).
pub fn permission_from_location_status(status: isize) -> (r: PermissionStatus)
    ensures
        r == spec_permission_from_location_status(status),
{
    match status {
        0 => PermissionStatus::NotDetermined,
        1 => PermissionStatus::Restricted,
        2 => PermissionStatus::Denied,
        3 | 4 => PermissionStatus::Granted,
        _ => PermissionStatus::Unknown,
    }
}

/// The permission state a `PHAuthorizationStatus` code stands for.
pub open spec fn spec_permission_from_photo_status(status: isize) -> PermissionStatus {
    if status == 0 {
        PermissionStatus::NotDetermined
    } else if status == 1 {
        PermissionStatus::Restricted
    } else if status == 2 {
        PermissionStatus::Denied
    } else if status == 3 {
        PermissionStatus::Granted
    } else if status == 4 {
        PermissionStatus::Limited
    } else {
        PermissionStatus::Unknown
    }
}

/// Decodes a `PHAuthorizationStatus` (photo library).
pub fn permission_from_photo_status(status: isize) -> (r: PermissionStatus)
    ensures
        r == spec_permission_from_photo_status(status),
{
    match status {
        0 => PermissionStatus::NotDetermined,
        1 => PermissionStatus::Restricted,
        2 => PermissionStatus::Denied,
        3 => PermissionStatus::Granted,
        4 => PermissionStatus::Limited,
        _ => PermissionStatus::Unknown,
    }
}

/// The permission state a `UNAuthorizationStatus` code stands for;
/// authorized, provisional and ephemeral all count as granted.
pub open spec fn spec_permission_from_notification_status(status: isize) -> PermissionStatus {
    if status == 0 {
        PermissionStatus::NotDetermined
    } else if status == 1 {
        PermissionStatus::Denied
    } else if 2 <= status <= 4 {
        PermissionStatus::Granted
    } else {
        PermissionStatus::Unknown
    }
}

/// Decodes a `UNAuthorizationStatus` (notifications).
pub fn permission_from_notification_status(status: isize) -> (r: PermissionStatus)
    ensures
        r == spec_permission_from_notification_status(status),
{
    match status {
        0 => PermissionStatus::NotDetermined,
        1 => PermissionStatus::Denied,
        2 | 3 | 4 => PermissionStatus::Granted,
        _ => PermissionStatus::Unknown,
    }
}

/// The `UISwipeGestureRecognizerDirection` bit of a swipe direction.
pub open spec fn spec_swipe_direction_bits(direction: SwipeDirection) -> u8 {
    match direction {
        SwipeDirection::Right => 1,
        SwipeDirection::Left => 2,
        SwipeDirection::Up => 4,
        SwipeDirection::Down => 8,
    }
}

/// The `UISwipeGestureRecognizerDirection` bit of a swipe direction.
pub fn swipe_direction_bits(direction: SwipeDirection) -> (r: u8)
    ensures
        r == spec_swipe_direction_bits(direction),
{
    match direction {
        SwipeDirection::Right => 1,
        SwipeDirection::Left => 2,
        SwipeDirection::Up => 4,
        SwipeDirection::Down => 8,
    }
}

/// Whether a `UIDeviceBatteryState` code means the device is on power:
/// charging or full.
pub fn battery_charging_from_state(state: isize) -> (r: bool)
    ensures
        r == (state == 2 || state == 3),
{
    state == 2 || state == 3
}

/// How many frame ticks pass between two polls of a platform reading.
pub const POLL_INTERVAL_TICKS: u64 = 60;

/// The tick counter after one more tick (wrapping at the top).
pub open spec fn next_tick(tick: u64) -> u64 {
    if tick == u64::MAX {
        0
    } else {
        (tick + 1) as u64
    }
}

/// A frame-tick counter for readings that are polled once every
/// [`POLL_INTERVAL_TICKS`] ticks, starting with the first tick.
#[derive(Debug, Clone, Copy, PartialEq, Eq, Structural)]
pub struct PollCadence {
    /// Ticks seen so far (wrapping).
    pub tick: u64,
}

impl PollCadence {
    /// A counter before its first tick.
    pub fn new() -> (r: PollCadence)
        ensures
            r.tick == 0,
    {
        PollCadence { tick: 0 }
    }

    /// Counts one tick; returns whether the reading is due on it.
    pub fn due(&mut self) -> (r: bool)
        ensures
            r == (old(self).tick % POLL_INTERVAL_TICKS == 0),
            final(self).tick == next_tick(old(self).tick),
    {
        let current = self.tick;
        self.tick = current.wrapping_add(1);
        current % POLL_INTERVAL_TICKS == 0
    }
}

/// Throttled reachability polling: the platform is queried on due ticks
/// only, and a status is reported only when it differs from the last one
/// reported.
#[derive(Debug, Clone, Copy, PartialEq, Eq, Structural)]
pub struct NetworkPoll {
    /// The tick counter.
    pub cadence: PollCadence,
    /// The last status reported.
    pub last: Option<NetworkStatus>,
}

impl NetworkPoll {
    /// Nothing polled yet.
    pub fn new() -> (r: NetworkPoll)
        ensures
            r.cadence.tick == 0,
            r.last is None,
    {
        NetworkPoll { cadence: PollCadence::new(), last: None }
    }
}

/// Counts a frame tick and, when a poll is due, runs `query` (which reads
/// the platform's reachability). Returns the status when it changed since
/// the last report, and `None` otherwise or when no poll was due.
pub fn poll_ios_network_status_if_due<F: FnOnce() -> NetworkStatus>(poll: &mut NetworkPoll, query: F) -> (r:
    Option<NetworkStatus>)
    requires
        call_requires(query, ()),
    ensures
        final(poll).cadence.tick == next_tick(old(poll).cadence.tick),
        old(poll).cadence.tick % POLL_INTERVAL_TICKS != 0 ==> r is None && final(poll).last
            == old(poll).last,
        old(poll).cadence.tick % POLL_INTERVAL_TICKS == 0 ==> exists|status: NetworkStatus|
            #[trigger] call_ensures(query, (), status) && final(poll).last == Some(status) && r == (
            if old(poll).last == Some(status) {
                None
            } else {
                Some(status)
            }),
{
    if !poll.cadence.due() {
        return None;
    }
    let status = query();
    if poll.last == Some(status) {
        None
    } else {
        poll.last = Some(status);
        Some(status)
    }
}

} // verus!

verus! {

/// Text length limits of text inputs, by view tag.
pub struct TextInputLimits {
    max_lengths: BTreeMap<u64, usize>,
}

impl View for TextInputLimits {
    type V = Map<u64, usize>;

    closed spec fn view(&self) -> Map<u64, usize> {
        self.max_lengths@
    }
}

impl TextInputLimits {
    /// No limits.
    pub fn new() -> (r: TextInputLimits)
        ensures
            r@ == Map::<u64, usize>::empty(),
    {
        TextInputLimits { max_lengths: BTreeMap::new() }
    }
}

/// Limits the text input behind `tag` to `max_len` UTF-16 units.
pub fn set_text_max_length(limits: &mut TextInputLimits, tag: u64, max_len: usize)
    ensures
        final(limits)@ == old(limits)@.insert(tag, max_len),
{
    limits.max_lengths.insert(tag, max_len);
}

/// Forgets the text input state of `tag` (its view is gone).
pub fn clear_text_input_state(limits: &mut TextInputLimits, tag: u64)
    ensures
        final(limits)@ == old(limits)@.remove(tag),
{
    limits.max_lengths.remove(&tag);
}

/// The length of a text after replacing `length` units at `location` with
/// `replacement_len` units: the replaced range is clipped to the text (and
/// is empty when it starts past the end), and the sum saturates.
pub open spec fn edited_length(current_len: usize, location: usize, length: usize, replacement_len: usize) -> int {
    let removed: int = if location <= current_len {
        if length <= current_len - location {
            length as int
        } else {
            current_len - location
        }
    } else {
        0
    };
    let kept: int = current_len - removed;
    if kept + replacement_len > usize::MAX {
        usize::MAX as int
    } else {
        kept + replacement_len
    }
}

/// Whether an edit of the text input behind `tag` may go ahead: always when
/// the input has no limit, otherwise when the edited text fits the limit.
/// `current_len` is the length of the current text (0 when there is none);
/// the edit replaces `length` units at `location` with `replacement_len`
/// units.
pub fn should_allow_text_edit(
    limits: &TextInputLimits,
    tag: u64,
    current_len: usize,
    location: usize,
    length: usize,
    replacement_len: usize,
) -> (r: bool)
    ensures
        r == (!limits@.contains_key(tag) || edited_length(current_len, location, length, replacement_len)
            <= limits@[tag]),
{
    let max_len = match limits.max_lengths.get(&tag) {
        Some(m) => *m,
        None => return true,
    };
    let removed_len = if location <= current_len {
        let available = current_len - location;
        if length <= available {
            length
        } else {
            available
        }
    } else {
        0
    };
    let next_len = (current_len - removed_len).saturating_add(replacement_len);
    next_len <= max_len
}

/// The outcome of the latest native image load of a view.
#[derive(Debug, Clone, PartialEq, Eq)]
pub enum ImageLoadResult {
    /// The image loaded.
    Loaded,
    /// The image failed to load, with a short description.
    Error(String),
}

/// The image callbacks of one view and its latest load outcome, kept so a
/// callback installed after the load still observes it.
#[derive(Debug, Clone, PartialEq, Eq)]
pub struct ImageHandlers {
    /// Fired when the image loads.
    pub on_load: Option<ImageLoadCallback>,
    /// Fired with the error when the image fails to load.
    pub on_error: Option<ImageErrorCallback>,
    /// The latest load outcome.
    pub last_result: Option<ImageLoadResult>,
}

/// The entry of a view in an image table: its handlers, or empty ones.
pub open spec fn image_entry(m: Map<u64, ImageHandlers>, tag: u64) -> ImageHandlers {
    if m.contains_key(tag) {
        m[tag]
    } else {
        ImageHandlers { on_load: None, on_error: None, last_result: None }
    }
}

/// Image callbacks and load outcomes, by view tag.
pub struct ImageHandlerTable {
    handlers: BTreeMap<u64, ImageHandlers>,
}

impl View for ImageHandlerTable {
    type V = Map<u64, ImageHandlers>;

    closed spec fn view(&self) -> Map<u64, ImageHandlers> {
        self.handlers@
    }
}

impl ImageHandlerTable {
    /// No views.
    pub fn new() -> (r: ImageHandlerTable)
        ensures
            r@ == Map::<u64, ImageHandlers>::empty(),
    {
        ImageHandlerTable { handlers: BTreeMap::new() }
    }

    /// Takes the entry of `tag` out of the table (empty handlers when it has
    /// none).
    fn take_entry(&mut self, tag: u64) -> (r: ImageHandlers)
        ensures
            r == image_entry(old(self)@, tag),
            final(self)@ == old(self)@.remove(tag),
    {
        match self.handlers.remove(&tag) {
            Some(h) => h,
            None => {
                assert(old(self)@.remove(tag) =~= old(self)@);
                ImageHandlers { on_load: None, on_error: None, last_result: None }
            },
        }
    }
}

/// Installs the load callback of `tag`. Returns the callback when the image
/// has already loaded, for the caller to fire at once.
pub fn set_image_on_load(table: &mut ImageHandlerTable, tag: u64, callback: ImageLoadCallback) -> (r:
    Option<ImageLoadCallback>)
    ensures
        final(table)@ == old(table)@.insert(
            tag,
            ImageHandlers { on_load: Some(callback), ..image_entry(old(table)@, tag) },
        ),
        r == (if image_entry(old(table)@, tag).last_result == Some(ImageLoadResult::Loaded) {
            Some(callback)
        } else {
            None
        }),
{
    let mut state = table.take_entry(tag);
    let fire_now = match &state.last_result {
        Some(ImageLoadResult::Loaded) => true,
        _ => false,
    };
    state.on_load = Some(callback);
    table.handlers.insert(tag, state);
    assert(final(table)@ =~= old(table)@.insert(
        tag,
        ImageHandlers { on_load: Some(callback), ..image_entry(old(table)@, tag) },
    ));
    if fire_now {
        Some(callback)
    } else {
        None
    }
}

/// Installs the error callback of `tag`. Returns the callback and the error
/// when the image has already failed, for the caller to fire at once.
pub fn set_image_on_error(table: &mut ImageHandlerTable, tag: u64, callback: ImageErrorCallback) -> (r:
    Option<(ImageErrorCallback, String)>)
    ensures
        final(table)@ == old(table)@.insert(
            tag,
            ImageHandlers { on_error: Some(callback), ..image_entry(old(table)@, tag) },
        ),
        r == (match image_entry(old(table)@, tag).last_result {
            Some(ImageLoadResult::Error(e)) => Some((callback, e)),
            _ => None,
        }),
{
    let mut state = table.take_entry(tag);
    let last_error = match &state.last_result {
        Some(ImageLoadResult::Error(error)) => Some(error.clone()),
        _ => None,
    };
    state.on_error = Some(callback);
    table.handlers.insert(tag, state);
    assert(final(table)@ =~= old(table)@.insert(
        tag,
        ImageHandlers { on_error: Some(callback), ..image_entry(old(table)@, tag) },
    ));
    match last_error {
        Some(error) => Some((callback, error)),
        None => None,
    }
}

/// Records that the image of `tag` loaded. Returns its load callback, if
/// one is installed, for the caller to fire.
pub fn mark_image_loaded(table: &mut ImageHandlerTable, tag: u64) -> (r: Option<ImageLoadCallback>)
    ensures
        final(table)@ == old(table)@.insert(
            tag,
            ImageHandlers {
                last_result: Some(ImageLoadResult::Loaded),
                ..image_entry(old(table)@, tag)
            },
        ),
        r == image_entry(old(table)@, tag).on_load,
{
    let mut state = table.take_entry(tag);
    state.last_result = Some(ImageLoadResult::Loaded);
    let callback = state.on_load;
    table.handlers.insert(tag, state);
    assert(final(table)@ =~= old(table)@.insert(
        tag,
        ImageHandlers {
            last_result: Some(ImageLoadResult::Loaded),
            ..image_entry(old(table)@, tag)
        },
    ));
    callback
}

/// Records that the image of `tag` failed with `error`. Returns its error
/// callback with the error, if one is installed, for the caller to fire.
pub fn mark_image_error(table: &mut ImageHandlerTable, tag: u64, error: String) -> (r: Option<
    (ImageErrorCallback, String),
>)
    ensures
        final(table)@ == old(table)@.insert(
            tag,
            ImageHandlers {
                last_result: Some(ImageLoadResult::Error(error)),
                ..image_entry(old(table)@, tag)
            },
        ),
        r == (match image_entry(old(table)@, tag).on_error {
            Some(cb) => Some((cb, error)),
            None => None,
        }),
{
    let mut state = table.take_entry(tag);
    state.last_result = Some(ImageLoadResult::Error(error.clone()));
    let callback = state.on_error;
    table.handlers.insert(tag, state);
    assert(final(table)@ =~= old(table)@.insert(
        tag,
        ImageHandlers {
            last_result: Some(ImageLoadResult::Error(error)),
            ..image_entry(old(table)@, tag)
        },
    ));
    match callback {
        Some(cb) => Some((cb, error)),
        None => None,
    }
}

/// Forgets the image state of `tag` (its view is gone).
pub fn clear_image_handlers(table: &mut ImageHandlerTable, tag: u64)
    ensures
        final(table)@ == old(table)@.remove(tag),
{
    table.handlers.remove(&tag);
}

} // verus!

verus! {

/// The press callbacks of one view and whether a press is in progress.
#[derive(Debug, Clone, Copy, PartialEq, Eq, Structural)]
pub struct PressHandlers {
    /// Fired when a long press begins.
    pub on_press_in: Option<Callback>,
    /// Fired when a begun press ends, is cancelled or fails.
    pub on_press_out: Option<Callback>,
    /// A press has begun and not yet ended.
    pub pressed: bool,
}

/// The entry of a view in a press table: its handlers, or empty ones.
pub open spec fn press_entry(m: Map<u64, PressHandlers>, tag: u64) -> PressHandlers {
    if m.contains_key(tag) {
        m[tag]
    } else {
        PressHandlers { on_press_in: None, on_press_out: None, pressed: false }
    }
}

/// The state a long-press recognizer reports.
#[derive(Debug, Clone, Copy, PartialEq, Eq, Structural)]
pub enum PressState {
    /// The press began.
    Began,
    /// The press ended, was cancelled or failed.
    Finished,
    /// Any other recognizer state (possible, changed).
    Other,
}

/// Press callbacks, by view tag.
pub struct PressHandlerTable {
    handlers: BTreeMap<u64, PressHandlers>,
}

impl View for PressHandlerTable {
    type V = Map<u64, PressHandlers>;

    closed spec fn view(&self) -> Map<u64, PressHandlers> {
        self.handlers@
    }
}

impl PressHandlerTable {
    /// No views.
    pub fn new() -> (r: PressHandlerTable)
        ensures
            r@ == Map::<u64, PressHandlers>::empty(),
    {
        PressHandlerTable { handlers: BTreeMap::new() }
    }
}

/// Replaces the press handlers of `tag` (empty ones when it has none) with
/// what `update` makes of them.
pub fn update_press_handlers<F: FnOnce(PressHandlers) -> PressHandlers>(
    table: &mut PressHandlerTable,
    tag: u64,
    update: F,
)
    requires
        call_requires(update, (press_entry(old(table)@, tag),)),
    ensures
        exists|h: PressHandlers|
            #[trigger] call_ensures(update, (press_entry(old(table)@, tag),), h) && final(table)@
                == old(table)@.insert(tag, h),
{
    let current = match table.handlers.remove(&tag) {
        Some(h) => h,
        None => PressHandlers { on_press_in: None, on_press_out: None, pressed: false },
    };
    let next = update(current);
    table.handlers.insert(tag, next);
    assert(final(table)@ =~= old(table)@.insert(tag, next));
}

/// The press table after a recognizer of `tag` reports `state`, and the
/// callback to fire: a begun press marks the view pressed and fires its
/// press-in callback; a finished press of a pressed view clears the mark
/// and fires its press-out callback; views without handlers are ignored.
pub open spec fn spec_press_recognized(m: Map<u64, PressHandlers>, tag: u64, state: PressState) -> (
    Map<u64, PressHandlers>,
    Option<Callback>,
) {
    if !m.contains_key(tag) {
        (m, None)
    } else {
        let h = m[tag];
        match state {
            PressState::Began => (m.insert(tag, PressHandlers { pressed: true, ..h }), h.on_press_in),
            PressState::Finished => if h.pressed {
                (m.insert(tag, PressHandlers { pressed: false, ..h }), h.on_press_out)
            } else {
                (m, None)
            },
            PressState::Other => (m, None),
        }
    }
}

/// Handles a long-press recognizer of `tag` reporting `state`; returns the
/// callback to fire.
pub fn handle_press_recognized(table: &mut PressHandlerTable, tag: u64, state: PressState) -> (r:
    Option<Callback>)
    ensures
        (final(table)@, r) == spec_press_recognized(old(table)@, tag, state),
{
    let mut h = match table.handlers.remove(&tag) {
        Some(h) => h,
        None => {
            assert(old(table)@.remove(tag) =~= old(table)@);
            return None;
        },
    };
    let callback = match state {
        PressState::Began => {
            h.pressed = true;
            h.on_press_in
        },
        PressState::Finished => {
            if h.pressed {
                h.pressed = false;
                h.on_press_out
            } else {
                None
            }
        },
        PressState::Other => None,
    };
    table.handlers.insert(tag, h);
    assert(final(table)@ =~= spec_press_recognized(old(table)@, tag, state).0);
    callback
}

/// The swipe callbacks of one view, one per direction.
#[derive(Debug, Clone, Copy, PartialEq, Eq, Structural)]
pub struct SwipeHandlers {
    /// Fired on a swipe toward the right edge.
    pub right: Option<Callback>,
    /// Fired on a swipe toward the left edge.
    pub left: Option<Callback>,
    /// Fired on a swipe toward the top edge.
    pub up: Option<Callback>,
    /// Fired on a swipe toward the bottom edge.
    pub down: Option<Callback>,
}

/// The callback registered for the direction whose recognizer bit is
/// `bits`; no direction has any other bit.
pub open spec fn swipe_slot(h: SwipeHandlers, bits: u8) -> Option<Callback> {
    if bits == 1 {
        h.right
    } else if bits == 2 {
        h.left
    } else if bits == 4 {
        h.up
    } else if bits == 8 {
        h.down
    } else {
        None
    }
}

/// Swipe callbacks, by view tag.
pub struct SwipeHandlerTable {
    handlers: BTreeMap<u64, SwipeHandlers>,
}

impl View for SwipeHandlerTable {
    type V = Map<u64, SwipeHandlers>;

    closed spec fn view(&self) -> Map<u64, SwipeHandlers> {
        self.handlers@
    }
}

impl SwipeHandlerTable {
    /// No views.
    pub fn new() -> (r: SwipeHandlerTable)
        ensures
            r@ == Map::<u64, SwipeHandlers>::empty(),
    {
        SwipeHandlerTable { handlers: BTreeMap::new() }
    }
}

/// The callback a recognizer of `tag` with direction bit `bits` fires.
pub open spec fn registered_swipe(m: Map<u64, SwipeHandlers>, tag: u64, bits: u8) -> Option<Callback> {
    if m.contains_key(tag) {
        swipe_slot(m[tag], bits)
    } else {
        None
    }
}

/// Registers `callback` for swipes of `tag` in `direction`, replacing the
/// one registered for that direction before; the other directions keep
/// theirs.
pub fn set_swipe_handler(table: &mut SwipeHandlerTable, tag: u64, direction: SwipeDirection, callback: Callback)
    ensures
        final(table)@.dom() == old(table)@.dom().insert(tag),
        forall|t: u64| t != tag && #[trigger] old(table)@.contains_key(t) ==> final(table)@[t] == old(table)@[t],
        forall|bits: u8| #[trigger] registered_swipe(final(table)@, tag, bits) == (if bits == spec_swipe_direction_bits(direction) {
            Some(callback)
        } else {
            registered_swipe(old(table)@, tag, bits)
        }),
{
    let mut h = match table.handlers.remove(&tag) {
        Some(h) => h,
        None => SwipeHandlers { right: None, left: None, up: None, down: None },
    };
    match direction {
        SwipeDirection::Right => h.right = Some(callback),
        SwipeDirection::Left => h.left = Some(callback),
        SwipeDirection::Up => h.up = Some(callback),
        SwipeDirection::Down => h.down = Some(callback),
    }
    table.handlers.insert(tag, h);
    assert(final(table)@.dom() =~= old(table)@.dom().insert(tag));
}

/// The callback to fire for a recognized swipe of `tag` whose recognizer
/// reports direction bit `bits`.
pub fn handle_swipe_recognized(table: &SwipeHandlerTable, tag: u64, bits: u8) -> (r: Option<Callback>)
    ensures
        r == registered_swipe(table@, tag, bits),
{
    match table.handlers.get(&tag) {
        Some(h) => {
            if bits == 1 {
                h.right
            } else if bits == 2 {
                h.left
            } else if bits == 4 {
                h.up
            } else if bits == 8 {
                h.down
            } else {
                None
            }
        },
        None => None,
    }
}

/// Forgets the press and swipe callbacks of `tag` (its view is gone).
pub fn clear_interaction_handlers(press: &mut PressHandlerTable, swipe: &mut SwipeHandlerTable, tag: u64)
    ensures
        final(press)@ == old(press)@.remove(tag),
        final(swipe)@ == old(swipe)@.remove(tag),
{
    press.handlers.remove(&tag);
    swipe.handlers.remove(&tag);
}

/// The scroll callbacks of one view and its latest scroll sample.
#[derive(Debug, Clone, Copy, PartialEq, Eq, Structural)]
pub struct ScrollHandlers {
    /// Fired with the scroll position and velocity on every scroll.
    pub on_scroll: Option<ScrollCallback>,
    /// Fired when a drag begins.
    pub on_begin: Option<Callback>,
    /// Fired when scrolling comes to rest.
    pub on_end: Option<Callback>,
    /// The offset of the latest scroll sample.
    pub last_offset: Option<Point>,
    /// The time of the latest scroll sample, in monotonic nanoseconds.
    pub last_instant: Option<u64>,
}

/// The entry of a view in a scroll table: its handlers, or empty ones.
pub open spec fn scroll_entry(m: Map<u64, ScrollHandlers>, tag: u64) -> ScrollHandlers {
    if m.contains_key(tag) {
        m[tag]
    } else {
        ScrollHandlers { on_scroll: None, on_begin: None, on_end: None, last_offset: None, last_instant: None }
    }
}

/// Scroll callbacks and samples, by view tag.
pub struct ScrollHandlerTable {
    handlers: BTreeMap<u64, ScrollHandlers>,
}

impl View for ScrollHandlerTable {
    type V = Map<u64, ScrollHandlers>;

    closed spec fn view(&self) -> Map<u64, ScrollHandlers> {
        self.handlers@
    }
}

impl ScrollHandlerTable {
    /// No views.
    pub fn new() -> (r: ScrollHandlerTable)
        ensures
            r@ == Map::<u64, ScrollHandlers>::empty(),
    {
        ScrollHandlerTable { handlers: BTreeMap::new() }
    }
}

/// Replaces the scroll handlers of `tag` (empty ones when it has none) with
/// what `update` makes of them.
pub fn update_scroll_handlers<F: FnOnce(ScrollHandlers) -> ScrollHandlers>(
    table: &mut ScrollHandlerTable,
    tag: u64,
    update: F,
)
    requires
        call_requires(update, (scroll_entry(old(table)@, tag),)),
    ensures
        exists|h: ScrollHandlers|
            #[trigger] call_ensures(update, (scroll_entry(old(table)@, tag),), h) && final(table)@
                == old(table)@.insert(tag, h),
{
    let current = match table.handlers.remove(&tag) {
        Some(h) => h,
        None => ScrollHandlers {
            on_scroll: None,
            on_begin: None,
            on_end: None,
            last_offset: None,
            last_instant: None,
        },
    };
    let next = update(current);
    table.handlers.insert(tag, next);
    assert(final(table)@ =~= old(table)@.insert(tag, next));
}

/// Forgets the scroll state of `tag` (its view is gone).
pub fn clear_scroll_handlers(table: &mut ScrollHandlerTable, tag: u64)
    ensures
        final(table)@ == old(table)@.remove(tag),
{
    table.handlers.remove(&tag);
}

/// The scroll table with the sample of `tag` forgotten, if it has handlers.
pub open spec fn without_sample(m: Map<u64, ScrollHandlers>, tag: u64) -> Map<u64, ScrollHandlers> {
    if m.contains_key(tag) {
        m.insert(tag, ScrollHandlers { last_offset: None, last_instant: None, ..m[tag] })
    } else {
        m
    }
}

/// A drag of the scroll view `tag` begins: its sample is forgotten, so the
/// first scroll of the drag reports no velocity. Returns the callback to
/// fire.
pub fn handle_scroll_begin(table: &mut ScrollHandlerTable, tag: u64) -> (r: Option<Callback>)
    ensures
        final(table)@ == without_sample(old(table)@, tag),
        r == (if old(table)@.contains_key(tag) {
            old(table)@[tag].on_begin
        } else {
            None
        }),
{
    let mut h = match table.handlers.remove(&tag) {
        Some(h) => h,
        None => {
            assert(old(table)@.remove(tag) =~= old(table)@);
            return None;
        },
    };
    h.last_offset = None;
    h.last_instant = None;
    let callback = h.on_begin;
    table.handlers.insert(tag, h);
    assert(final(table)@ =~= without_sample(old(table)@, tag));
    callback
}

/// Scrolling of `tag` comes to rest: its sample is forgotten. Returns the
/// callback to fire.
pub fn handle_scroll_end(table: &mut ScrollHandlerTable, tag: u64) -> (r: Option<Callback>)
    ensures
        final(table)@ == without_sample(old(table)@, tag),
        r == (if old(table)@.contains_key(tag) {
            old(table)@[tag].on_end
        } else {
            None
        }),
{
    let mut h = match table.handlers.remove(&tag) {
        Some(h) => h,
        None => {
            assert(old(table)@.remove(tag) =~= old(table)@);
            return None;
        },
    };
    h.last_offset = None;
    h.last_instant = None;
    let callback = h.on_end;
    table.handlers.insert(tag, h);
    assert(final(table)@ =~= without_sample(old(table)@, tag));
    callback
}

/// What a scroll of a view with handlers hands the glue: its scroll
/// callback, if any, and the previous sample (offset and time), from which
/// the glue computes the velocity.
#[derive(Debug, Clone, Copy, PartialEq, Eq, Structural)]
pub struct ScrollStep {
    /// The callback to fire with the position and velocity.
    pub callback: Option<ScrollCallback>,
    /// The previous offset, if the drag has one.
    pub previous_offset: Option<Point>,
    /// The time of the previous offset.
    pub previous_instant: Option<u64>,
}

/// The scroll view `tag` moved to `(offset_x, offset_y)` at time `now`: the
/// sample is recorded. Views without handlers are ignored (`None`).
pub fn handle_scroll_did_scroll(
    table: &mut ScrollHandlerTable,
    tag: u64,
    offset_x: F32Bits,
    offset_y: F32Bits,
    now: u64,
) -> (r: Option<ScrollStep>)
    ensures
        !old(table)@.contains_key(tag) ==> r is None && final(table)@ == old(table)@,
        old(table)@.contains_key(tag) ==> final(table)@ == old(table)@.insert(
            tag,
            ScrollHandlers {
                last_offset: Some(Point { x: offset_x, y: offset_y }),
                last_instant: Some(now),
                ..old(table)@[tag]
            },
        ) && r == Some(
            ScrollStep {
                callback: old(table)@[tag].on_scroll,
                previous_offset: old(table)@[tag].last_offset,
                previous_instant: old(table)@[tag].last_instant,
            },
        ),
{
    let mut h = match table.handlers.remove(&tag) {
        Some(h) => h,
        None => {
            assert(old(table)@.remove(tag) =~= old(table)@);
            return None;
        },
    };
    let step = ScrollStep {
        callback: h.on_scroll,
        previous_offset: h.last_offset,
        previous_instant: h.last_instant,
    };
    h.last_offset = Some(Point { x: offset_x, y: offset_y });
    h.last_instant = Some(now);
    table.handlers.insert(tag, h);
    assert(final(table)@ =~= old(table)@.insert(
        tag,
        ScrollHandlers {
            last_offset: Some(Point { x: offset_x, y: offset_y }),
            last_instant: Some(now),
            ..old(table)@[tag]
        },
    ));
    Some(step)
}

} // verus!

verus! {

/// One motion-sensor reading: accelerometer and gyroscope axes, each absent
/// when that sensor had no data.
#[derive(Debug, Clone, Copy, PartialEq, Eq, Structural)]
pub struct MotionReading {
    /// Acceleration along x.
    pub accel_x: Option<F64Bits>,
    /// Acceleration along y.
    pub accel_y: Option<F64Bits>,
    /// Acceleration along z.
    pub accel_z: Option<F64Bits>,
    /// Rotation rate about x.
    pub gyro_x: Option<F64Bits>,
    /// Rotation rate about y.
    pub gyro_y: Option<F64Bits>,
    /// Rotation rate about z.
    pub gyro_z: Option<F64Bits>,
}

/// Platform results collected between two frame ticks, by the delegates and
/// completion blocks of the UIKit glue, in arrival order.
pub struct IosPending {
    /// QR detections: the scanning view's tag and the payload.
    pub qr: Vec<(u64, String)>,
    /// URLs the app was opened with.
    pub deep_links: Vec<String>,
    /// App lifecycle transitions.
    pub lifecycle: Vec<Lifecycle>,
    /// Biometric prompt results: success, and the error when it failed.
    pub biometric: Vec<(bool, Option<String>)>,
    /// GPS fixes: latitude, longitude, accuracy.
    pub locations: Vec<(F64Bits, F64Bits, F64Bits)>,
    /// Location permission was denied.
    pub location_denied: bool,
    /// Authorization states the platform reported.
    pub permission_results: Vec<(PermissionKind, PermissionStatus)>,
    /// Motion readings.
    pub motion: Vec<MotionReading>,
    /// Media picks, each the images of one pick.
    pub media_results: Vec<Vec<Vec<u8>>>,
    /// Media picks that ended without an image.
    pub media_cancels: usize,
    /// Document picks, each the files (name, bytes) of one pick.
    pub documents: Vec<Vec<(String, Vec<u8>)>>,
}

/// Nothing is pending.
pub open spec fn nothing_pending(p: &IosPending) -> bool {
    &&& p.qr@.len() == 0
    &&& p.deep_links@.len() == 0
    &&& p.lifecycle@.len() == 0
    &&& p.biometric@.len() == 0
    &&& p.locations@.len() == 0
    &&& !p.location_denied
    &&& p.permission_results@.len() == 0
    &&& p.motion@.len() == 0
    &&& p.media_results@.len() == 0
    &&& p.media_cancels == 0
    &&& p.documents@.len() == 0
}

impl IosPending {
    /// Nothing pending.
    pub fn new() -> (r: IosPending)
        ensures
            nothing_pending(&r),
    {
        IosPending {
            qr: Vec::new(),
            deep_links: Vec::new(),
            lifecycle: Vec::new(),
            biometric: Vec::new(),
            locations: Vec::new(),
            location_denied: false,
            permission_results: Vec::new(),
            motion: Vec::new(),
            media_results: Vec::new(),
            media_cancels: 0,
            documents: Vec::new(),
        }
    }
}

/// Queues an app lifecycle transition.
pub fn queue_app_lifecycle(pending: &mut IosPending, lifecycle: Lifecycle)
    ensures
        final(pending).lifecycle@ == old(pending).lifecycle@.push(lifecycle),
        final(pending).qr@ == old(pending).qr@,
        final(pending).deep_links@ == old(pending).deep_links@,
        final(pending).biometric@ == old(pending).biometric@,
        final(pending).locations@ == old(pending).locations@,
        final(pending).location_denied == old(pending).location_denied,
        final(pending).permission_results@ == old(pending).permission_results@,
        final(pending).motion@ == old(pending).motion@,
        final(pending).media_results@ == old(pending).media_results@,
        final(pending).media_cancels == old(pending).media_cancels,
        final(pending).documents@ == old(pending).documents@,
{
    pending.lifecycle.push(lifecycle);
}

/// Queues an authorization state the platform reported.
pub fn queue_permission_result(pending: &mut IosPending, permission: PermissionKind, status: PermissionStatus)
    ensures
        final(pending).permission_results@ == old(pending).permission_results@.push((permission, status)),
        final(pending).qr@ == old(pending).qr@,
        final(pending).deep_links@ == old(pending).deep_links@,
        final(pending).lifecycle@ == old(pending).lifecycle@,
        final(pending).biometric@ == old(pending).biometric@,
        final(pending).locations@ == old(pending).locations@,
        final(pending).location_denied == old(pending).location_denied,
        final(pending).motion@ == old(pending).motion@,
        final(pending).media_results@ == old(pending).media_results@,
        final(pending).media_cancels == old(pending).media_cancels,
        final(pending).documents@ == old(pending).documents@,
{
    pending.permission_results.push((permission, status));
}

/// Queues the images of a media pick.
pub fn queue_media_result(pending: &mut IosPending, images: Vec<Vec<u8>>)
    ensures
        final(pending).media_results@ == old(pending).media_results@.push(images),
        final(pending).qr@ == old(pending).qr@,
        final(pending).deep_links@ == old(pending).deep_links@,
        final(pending).lifecycle@ == old(pending).lifecycle@,
        final(pending).biometric@ == old(pending).biometric@,
        final(pending).locations@ == old(pending).locations@,
        final(pending).location_denied == old(pending).location_denied,
        final(pending).permission_results@ == old(pending).permission_results@,
        final(pending).motion@ == old(pending).motion@,
        final(pending).media_cancels == old(pending).media_cancels,
        final(pending).documents@ == old(pending).documents@,
{
    pending.media_results.push(images);
}

/// Queues a media pick that ended without an image (the count saturates).
pub fn queue_media_cancel(pending: &mut IosPending)
    ensures
        final(pending).media_cancels == (if old(pending).media_cancels == usize::MAX {
            usize::MAX
        } else {
            (old(pending).media_cancels + 1) as usize
        }),
        final(pending).qr@ == old(pending).qr@,
        final(pending).deep_links@ == old(pending).deep_links@,
        final(pending).lifecycle@ == old(pending).lifecycle@,
        final(pending).biometric@ == old(pending).biometric@,
        final(pending).locations@ == old(pending).locations@,
        final(pending).location_denied == old(pending).location_denied,
        final(pending).permission_results@ == old(pending).permission_results@,
        final(pending).motion@ == old(pending).motion@,
        final(pending).media_results@ == old(pending).media_results@,
        final(pending).documents@ == old(pending).documents@,
{
    pending.media_cancels = pending.media_cancels.saturating_add(1);
}

/// Requests the platform prompt for `permission`. Motion needs no prompt on
/// iOS: it is granted at once, and `false` is returned. For the others the
/// glue shows the prompt (and queues its answer), and `true` is returned.
pub fn request_ios_permission(pending: &mut IosPending, permission: PermissionKind) -> (r: bool)
    ensures
        r == (permission != PermissionKind::Motion),
        r ==> final(pending).permission_results@ == old(pending).permission_results@,
        !r ==> final(pending).permission_results@ == old(pending).permission_results@.push(
            (PermissionKind::Motion, PermissionStatus::Granted),
        ),
        final(pending).qr@ == old(pending).qr@,
        final(pending).deep_links@ == old(pending).deep_links@,
        final(pending).lifecycle@ == old(pending).lifecycle@,
        final(pending).biometric@ == old(pending).biometric@,
        final(pending).locations@ == old(pending).locations@,
        final(pending).location_denied == old(pending).location_denied,
        final(pending).motion@ == old(pending).motion@,
        final(pending).media_results@ == old(pending).media_results@,
        final(pending).media_cancels == old(pending).media_cancels,
        final(pending).documents@ == old(pending).documents@,
{
    match permission {
        PermissionKind::Motion => {
            queue_permission_result(pending, PermissionKind::Motion, PermissionStatus::Granted);
            false
        },
        _ => true,
    }
}

/// The images collected for a media pick whose items load one by one.
pub struct MediaLoadState {
    /// Items still loading.
    pub remaining: usize,
    /// Images loaded so far, in completion order.
    pub images: Vec<Vec<u8>>,
}

/// One completion of a media pick that has `remaining` items loading and
/// `images` loaded: the item's bytes (if any) join the images and one item
/// fewer is loading. While items remain nothing is queued (`None`); the last
/// completion queues the collected images (`Some`, empty for a pick that
/// loaded nothing) and starts over empty.
pub open spec fn media_step(remaining: usize, images: Seq<Vec<u8>>, bytes: Option<Vec<u8>>) -> (
    usize,
    Seq<Vec<u8>>,
    Option<Seq<Vec<u8>>>,
) {
    let collected = match bytes {
        Some(b) => images.push(b),
        None => images,
    };
    let left: usize = if remaining == 0 {
        0
    } else {
        (remaining - 1) as usize
    };
    if left > 0 {
        (left, collected, None)
    } else {
        (0, Seq::empty(), Some(collected))
    }
}

/// A run of completions, in order: the items still loading, the images
/// collected, and what each completion queued.
pub open spec fn media_run(remaining: usize, images: Seq<Vec<u8>>, completions: Seq<Option<Vec<u8>>>) -> (
    usize,
    Seq<Vec<u8>>,
    Seq<Option<Seq<Vec<u8>>>>,
)
    decreases completions.len(),
{
    if completions.len() == 0 {
        (remaining, images, Seq::empty())
    } else {
        let before = media_run(remaining, images, completions.drop_last());
        let step = media_step(before.0, before.1, completions.last());
        (step.0, step.1, before.2.push(step.2))
    }
}

/// The bytes of the completions that loaded, in completion order.
pub open spec fn loaded_payloads(completions: Seq<Option<Vec<u8>>>) -> Seq<Vec<u8>>
    decreases completions.len(),
{
    if completions.len() == 0 {
        Seq::empty()
    } else {
        match completions.last() {
            Some(b) => loaded_payloads(completions.drop_last()).push(b),
            None => loaded_payloads(completions.drop_last()),
        }
    }
}

/// A pick of `n` items queues nothing until its last item completes; the
/// `n`-th completion queues exactly once, the images that loaded in
/// completion order (a cancellation when none did).
pub proof fn lemma_media_pick_queues_once(n: usize, completions: Seq<Option<Vec<u8>>>)
    requires
        1 <= n,
        completions.len() <= n,
    ensures
        completions.len() < n ==> media_run(n, Seq::empty(), completions)
            == (((n - completions.len()) as usize, loaded_payloads(completions), Seq::new(
            completions.len(),
            |i: int| None::<Seq<Vec<u8>>>,
        ))),
        completions.len() == n ==> media_run(n, Seq::empty(), completions) == ((
            0usize,
            Seq::<Vec<u8>>::empty(),
            Seq::new((n - 1) as nat, |i: int| None::<Seq<Vec<u8>>>).push(Some(loaded_payloads(completions))),
        )),
    decreases completions.len(),
{
    if completions.len() == 0 {
        assert(Seq::new(0, |i: int| None::<Seq<Vec<u8>>>) =~= Seq::<Option<Seq<Vec<u8>>>>::empty());
    } else {
        let d = completions.drop_last();
        lemma_media_pick_queues_once(n, d);
        assert(Seq::new(d.len(), |i: int| None::<Seq<Vec<u8>>>).push(None) =~= Seq::new(
            completions.len(),
            |i: int| None::<Seq<Vec<u8>>>,
        ));
        if completions.len() == n {
            assert(Seq::new(d.len(), |i: int| None::<Seq<Vec<u8>>>) =~= Seq::new(
                (n - 1) as nat,
                |i: int| None::<Seq<Vec<u8>>>,
            ));
        }
    }
}

/// One item of a media pick finished loading, with its bytes or without
/// (`None`). When it was the last item, the pick is queued: its images, or
/// a cancellation when none loaded.
pub fn complete_ios_media_load(state: &mut MediaLoadState, pending: &mut IosPending, bytes: Option<Vec<u8>>)
    ensures
        ({
            let step = media_step(old(state).remaining, old(state).images@, bytes);
            &&& final(state).remaining == step.0
            &&& final(state).images@ == step.1
            &&& match step.2 {
                None => final(pending).media_results@ == old(pending).media_results@
                    && final(pending).media_cancels == old(pending).media_cancels,
                Some(collected) => {
                    &&& collected.len() == 0 ==> final(pending).media_results@ == old(pending).media_results@
                        && final(pending).media_cancels == (if old(pending).media_cancels == usize::MAX {
                        usize::MAX
                    } else {
                        (old(pending).media_cancels + 1) as usize
                    })
                    &&& collected.len() > 0 ==> final(pending).media_results@.len()
                        == old(pending).media_results@.len() + 1
                        && final(pending).media_results@.drop_last() == old(pending).media_results@
                        && final(pending).media_results@.last()@ == collected
                        && final(pending).media_cancels == old(pending).media_cancels
                },
            }
        }),
        final(pending).qr@ == old(pending).qr@,
        final(pending).deep_links@ == old(pending).deep_links@,
        final(pending).lifecycle@ == old(pending).lifecycle@,
        final(pending).biometric@ == old(pending).biometric@,
        final(pending).locations@ == old(pending).locations@,
        final(pending).location_denied == old(pending).location_denied,
        final(pending).permission_results@ == old(pending).permission_results@,
        final(pending).motion@ == old(pending).motion@,
        final(pending).documents@ == old(pending).documents@,
{
    if let Some(b) = bytes {
        state.images.push(b);
    }
    state.remaining = state.remaining.saturating_sub(1);
    if state.remaining == 0 {
        let mut images: Vec<Vec<u8>> = Vec::new();
        std::mem::swap(&mut images, &mut state.images);
        if images.len() == 0 {
            queue_media_cancel(pending);
        } else {
            queue_media_result(pending, images);
        }
    }
}

} // verus!

verus! {

/// The events a list of QR detections `(view tag, payload)` turns into.
pub open spec fn qr_events(s: Seq<(u64, String)>) -> Seq<Event> {
    s.map_values(|e: (u64, String)| Event::QrDetected { target: WidgetId::spec_from_u64(e.0), value: e.1 })
}

fn push_qr_events(out: &mut Vec<Event>, items: Vec<(u64, String)>)
    ensures
        final(out)@ == old(out)@ + qr_events(items@),
{
    let ghost start = out@;
    let ghost all = items@;
    for item in it: items.into_iter()
        invariant
            it.seq() == all,
            out@ == start + qr_events(all.take(it.index() as int)),
    {
        proof {
            assert(all.take(it.index() as int + 1) == all.take(it.index() as int).push(all[it.index() as int]));
        }
        let (tag, value) = item;
        out.push(Event::QrDetected { target: WidgetId::from_u64(tag), value });
        assert(out@ =~= start + qr_events(all.take(it.index() as int + 1)));
    }
    assert(all.take(all.len() as int) == all);
}

/// The events a list of deep-link URLs turns into.
pub open spec fn deep_link_events(s: Seq<String>) -> Seq<Event> {
    s.map_values(|e: String| Event::DeepLink { url: e })
}

fn push_deep_link_events(out: &mut Vec<Event>, items: Vec<String>)
    ensures
        final(out)@ == old(out)@ + deep_link_events(items@),
{
    let ghost start = out@;
    let ghost all = items@;
    for item in it: items.into_iter()
        invariant
            it.seq() == all,
            out@ == start + deep_link_events(all.take(it.index() as int)),
    {
        proof {
            assert(all.take(it.index() as int + 1) == all.take(it.index() as int).push(all[it.index() as int]));
        }
        let url = item;
        out.push(Event::DeepLink { url });
        assert(out@ =~= start + deep_link_events(all.take(it.index() as int + 1)));
    }
    assert(all.take(all.len() as int) == all);
}

/// The events a list of lifecycle transitions turns into.
pub open spec fn lifecycle_events(s: Seq<Lifecycle>) -> Seq<Event> {
    s.map_values(|e: Lifecycle| Event::AppLifecycle(e))
}

fn push_lifecycle_events(out: &mut Vec<Event>, items: Vec<Lifecycle>)
    ensures
        final(out)@ == old(out)@ + lifecycle_events(items@),
{
    let ghost start = out@;
    let ghost all = items@;
    for item in it: items.into_iter()
        invariant
            it.seq() == all,
            out@ == start + lifecycle_events(all.take(it.index() as int)),
    {
        proof {
            assert(all.take(it.index() as int + 1) == all.take(it.index() as int).push(all[it.index() as int]));
        }
        let lifecycle = item;
        out.push(Event::AppLifecycle(lifecycle));
        assert(out@ =~= start + lifecycle_events(all.take(it.index() as int + 1)));
    }
    assert(all.take(all.len() as int) == all);
}

/// The events a list of biometric results turns into.
pub open spec fn biometric_events(s: Seq<(bool, Option<String>)>) -> Seq<Event> {
    s.map_values(|e: (bool, Option<String>)| Event::BiometricResult { success: e.0, error: e.1 })
}

fn push_biometric_events(out: &mut Vec<Event>, items: Vec<(bool, Option<String>)>)
    ensures
        final(out)@ == old(out)@ + biometric_events(items@),
{
    let ghost start = out@;
    let ghost all = items@;
    for item in it: items.into_iter()
        invariant
            it.seq() == all,
            out@ == start + biometric_events(all.take(it.index() as int)),
    {
        proof {
            assert(all.take(it.index() as int + 1) == all.take(it.index() as int).push(all[it.index() as int]));
        }
        let (success, error) = item;
        out.push(Event::BiometricResult { success, error });
        assert(out@ =~= start + biometric_events(all.take(it.index() as int + 1)));
    }
    assert(all.take(all.len() as int) == all);
}

/// The events a list of GPS fixes turns into.
pub open spec fn location_events(s: Seq<(F64Bits, F64Bits, F64Bits)>) -> Seq<Event> {
    s.map_values(|e: (F64Bits, F64Bits, F64Bits)| Event::LocationUpdated { latitude: e.0, longitude: e.1, accuracy: e.2 })
}

fn push_location_events(out: &mut Vec<Event>, items: Vec<(F64Bits, F64Bits, F64Bits)>)
    ensures
        final(out)@ == old(out)@ + location_events(items@),
{
    let ghost start = out@;
    let ghost all = items@;
    for item in it: items.into_iter()
        invariant
            it.seq() == all,
            out@ == start + location_events(all.take(it.index() as int)),
    {
        proof {
            assert(all.take(it.index() as int + 1) == all.take(it.index() as int).push(all[it.index() as int]));
        }
        let (latitude, longitude, accuracy) = item;
        out.push(Event::LocationUpdated { latitude, longitude, accuracy });
        assert(out@ =~= start + location_events(all.take(it.index() as int + 1)));
    }
    assert(all.take(all.len() as int) == all);
}

/// The events a list of motion readings turns into.
pub open spec fn motion_events(s: Seq<MotionReading>) -> Seq<Event> {
    s.map_values(|e: MotionReading| Event::MotionUpdated { accel_x: e.accel_x, accel_y: e.accel_y, accel_z: e.accel_z, gyro_x: e.gyro_x, gyro_y: e.gyro_y, gyro_z: e.gyro_z })
}

fn push_motion_events(out: &mut Vec<Event>, items: Vec<MotionReading>)
    ensures
        final(out)@ == old(out)@ + motion_events(items@),
{
    let ghost start = out@;
    let ghost all = items@;
    for item in it: items.into_iter()
        invariant
            it.seq() == all,
            out@ == start + motion_events(all.take(it.index() as int)),
    {
        proof {
            assert(all.take(it.index() as int + 1) == all.take(it.index() as int).push(all[it.index() as int]));
        }
        let m = item;
        out.push(Event::MotionUpdated {
            accel_x: m.accel_x,
            accel_y: m.accel_y,
            accel_z: m.accel_z,
            gyro_x: m.gyro_x,
            gyro_y: m.gyro_y,
            gyro_z: m.gyro_z,
        });
        assert(out@ =~= start + motion_events(all.take(it.index() as int + 1)));
    }
    assert(all.take(all.len() as int) == all);
}

/// The events a list of media picks turns into.
pub open spec fn media_events(s: Seq<Vec<Vec<u8>>>) -> Seq<Event> {
    s.map_values(|e: Vec<Vec<u8>>| Event::MediaPicked { images: e })
}

fn push_media_events(out: &mut Vec<Event>, items: Vec<Vec<Vec<u8>>>)
    ensures
        final(out)@ == old(out)@ + media_events(items@),
{
    let ghost start = out@;
    let ghost all = items@;
    for item in it: items.into_iter()
        invariant
            it.seq() == all,
            out@ == start + media_events(all.take(it.index() as int)),
    {
        proof {
            assert(all.take(it.index() as int + 1) == all.take(it.index() as int).push(all[it.index() as int]));
        }
        let images = item;
        out.push(Event::MediaPicked { images });
        assert(out@ =~= start + media_events(all.take(it.index() as int + 1)));
    }
    assert(all.take(all.len() as int) == all);
}

/// The events a list of document picks turns into.
pub open spec fn document_events(s: Seq<Vec<(String, Vec<u8>)>>) -> Seq<Event> {
    s.map_values(|e: Vec<(String, Vec<u8>)>| Event::DocumentPicked { files: e })
}

fn push_document_events(out: &mut Vec<Event>, items: Vec<Vec<(String, Vec<u8>)>>)
    ensures
        final(out)@ == old(out)@ + document_events(items@),
{
    let ghost start = out@;
    let ghost all = items@;
    for item in it: items.into_iter()
        invariant
            it.seq() == all,
            out@ == start + document_events(all.take(it.index() as int)),
    {
        proof {
            assert(all.take(it.index() as int + 1) == all.take(it.index() as int).push(all[it.index() as int]));
        }
        let files = item;
        out.push(Event::DocumentPicked { files });
        assert(out@ =~= start + document_events(all.take(it.index() as int + 1)));
    }
    assert(all.take(all.len() as int) == all);
}

/// The device state after the platform reports `status` for `permission`:
/// recorded when views observe that permission.
pub open spec fn spec_update_permission(d: DeviceState, permission: PermissionKind, status: PermissionStatus) -> DeviceState {
    if d.permissions.slot(permission) is Some {
        DeviceState { permissions: d.permissions.with_slot(permission, Some(status)), ..d }
    } else {
        d
    }
}

/// The device state after a list of permission reports, in order.
pub open spec fn permissions_applied(d: DeviceState, s: Seq<(PermissionKind, PermissionStatus)>) -> DeviceState
    decreases s.len(),
{
    if s.len() == 0 {
        d
    } else {
        spec_update_permission(permissions_applied(d, s.drop_last()), s.last().0, s.last().1)
    }
}

/// The events a list of permission reports turns into.
pub open spec fn permission_events(s: Seq<(PermissionKind, PermissionStatus)>) -> Seq<Event> {
    s.map_values(|e: (PermissionKind, PermissionStatus)| Event::PermissionChanged { permission: e.0, status: e.1 })
}

fn push_permission_events(
    out: &mut Vec<Event>,
    device: &mut DeviceState,
    items: Vec<(PermissionKind, PermissionStatus)>,
)
    ensures
        final(out)@ == old(out)@ + permission_events(items@),
        *final(device) == permissions_applied(*old(device), items@),
{
    let ghost start = out@;
    let ghost d0 = *device;
    let ghost all = items@;
    for item in it: items.into_iter()
        invariant
            it.seq() == all,
            out@ == start + permission_events(all.take(it.index() as int)),
            *device == permissions_applied(d0, all.take(it.index() as int)),
    {
        proof {
            assert(all.take(it.index() as int + 1) == all.take(it.index() as int).push(all[it.index() as int]));
            assert(all.take(it.index() as int + 1).drop_last() == all.take(it.index() as int));
        }
        let (permission, status) = item;
        update_permission(device, permission, status);
        out.push(Event::PermissionChanged { permission, status });
        assert(out@ =~= start + permission_events(all.take(it.index() as int + 1)));
    }
    assert(all.take(all.len() as int) == all);
}

/// The single event a flag raises, or none.
pub open spec fn flag_event(raised: bool, event: Event) -> Seq<Event> {
    if raised {
        seq![event]
    } else {
        Seq::empty()
    }
}

/// The event a changed network status raises, or none.
pub open spec fn network_event(network: Option<NetworkStatus>) -> Seq<Event> {
    match network {
        Some(status) => seq![Event::NetworkStatusChanged { status }],
        None => Seq::empty(),
    }
}

/// The events one frame tick dispatches, in order: QR detections, deep
/// links, lifecycle transitions, biometric results, permission reports, GPS
/// fixes, a location denial, a network status change, motion readings,
/// media picks, a media-picker cancellation, document picks.
pub open spec fn tick_events(p: &IosPending, network: Option<NetworkStatus>) -> Seq<Event> {
    qr_events(p.qr@) + deep_link_events(p.deep_links@) + lifecycle_events(p.lifecycle@)
        + biometric_events(p.biometric@) + permission_events(p.permission_results@)
        + location_events(p.locations@) + flag_event(p.location_denied, Event::LocationDenied)
        + network_event(network) + motion_events(p.motion@) + media_events(p.media_results@)
        + flag_event(p.media_cancels > 0, Event::MediaPickerCancelled) + document_events(p.documents@)
}

/// Takes everything pending for a frame tick and returns the events to
/// dispatch, in [`tick_events`] order; `network` is the status change the
/// tick's reachability poll found, if any. Each permission report is also
/// recorded on `device`. Nothing is left pending.
pub fn drain_tick_events(pending: &mut IosPending, device: &mut DeviceState, network: Option<NetworkStatus>) -> (r:
    Vec<Event>)
    ensures
        r@ == tick_events(old(pending), network),
        *final(device) == permissions_applied(*old(device), old(pending).permission_results@),
        nothing_pending(final(pending)),
{
    let mut taken = IosPending::new();
    std::mem::swap(&mut taken, pending);
    let mut out: Vec<Event> = Vec::new();
    push_qr_events(&mut out, taken.qr);
    push_deep_link_events(&mut out, taken.deep_links);
    push_lifecycle_events(&mut out, taken.lifecycle);
    push_biometric_events(&mut out, taken.biometric);
    push_permission_events(&mut out, device, taken.permission_results);
    push_location_events(&mut out, taken.locations);
    if taken.location_denied {
        out.push(Event::LocationDenied);
    }
    match network {
        Some(status) => out.push(Event::NetworkStatusChanged { status }),
        None => {},
    }
    push_motion_events(&mut out, taken.motion);
    push_media_events(&mut out, taken.media_results);
    if taken.media_cancels > 0 {
        out.push(Event::MediaPickerCancelled);
    }
    push_document_events(&mut out, taken.documents);
    assert(out@ =~= tick_events(old(pending), network));
    out
}

} // verus!

verus! {

/// An entry of the accessibility-action table: the action object's key,
/// and the tag and name of the action it stands for.
pub type ActionPayload = (usize, (u64, String));

/// The named accessibility actions installed on views, by the key of the
/// platform action object that triggers them.
pub struct AccessibilityActions {
    payloads: Vec<ActionPayload>,
}

impl View for AccessibilityActions {
    type V = Map<usize, (u64, String)>;

    closed spec fn view(&self) -> Map<usize, (u64, String)> {
        alist_map(self.payloads@)
    }
}

/// Whether an entry belongs to a view other than `tag`.
pub open spec fn not_of_view(tag: u64) -> spec_fn(ActionPayload) -> bool {
    |e: ActionPayload| e.1.0 != tag
}

impl AccessibilityActions {
    /// Each action key occurs once.
    #[verifier::type_invariant]
    closed spec fn wf(self) -> bool {
        keys_distinct(self.payloads@)
    }

    /// No actions.
    pub fn new() -> (r: AccessibilityActions)
        ensures
            r@ == Map::<usize, (u64, String)>::empty(),
    {
        let r = AccessibilityActions { payloads: Vec::new() };
        assert(r@ =~= Map::<usize, (u64, String)>::empty());
        r
    }

    fn find(&self, key: usize) -> (r: Option<usize>)
        ensures
            match r {
                Some(i) => i < self.payloads@.len() && self.payloads@[i as int].0 == key,
                None => !self@.contains_key(key),
            },
    {
        let n = self.payloads.len();
        let mut i: usize = 0;
        while i < n
            invariant
                n == self.payloads@.len(),
                i <= n,
                forall|j: int| 0 <= j < i ==> self.payloads@[j].0 != key,
            decreases n - i,
        {
            if self.payloads[i].0 == key {
                return Some(i);
            }
            i = i + 1;
        }
        proof {
            lemma_alist_dom(self.payloads@, key);
        }
        None
    }
}

/// Records that the action object `key` triggers the action `name` of the
/// view `tag`.
pub fn register_accessibility_action_payload(actions: &mut AccessibilityActions, key: usize, tag: u64, name: String)
    ensures
        final(actions)@ == old(actions)@.insert(key, (tag, name)),
{
    proof {
        use_type_invariant(&*actions);
    }
    let ghost before = actions.payloads@;
    match actions.find(key) {
        Some(i) => {
            proof {
                lemma_alist_update(before, i as int, (tag, name));
            }
            let mut payloads: Vec<ActionPayload> = Vec::new();
            std::mem::swap(&mut payloads, &mut actions.payloads);
            payloads.set(i, (key, (tag, name)));
            actions.payloads = payloads;
        },
        None => {
            proof {
                lemma_alist_push_distinct(before, key, (tag, name));
            }
            let mut payloads: Vec<ActionPayload> = Vec::new();
            std::mem::swap(&mut payloads, &mut actions.payloads);
            payloads.push((key, (tag, name)));
            actions.payloads = payloads;
        },
    }
}

/// Forgets the actions of the view `tag` (its actions were replaced or it
/// is gone).
pub fn clear_accessibility_action_payloads(actions: &mut AccessibilityActions, tag: u64)
    ensures
        final(actions)@ == Map::new(
            |k: usize| old(actions)@.contains_key(k) && old(actions)@[k].0 != tag,
            |k: usize| old(actions)@[k],
        ),
{
    proof {
        use_type_invariant(&*actions);
    }
    let ghost all = actions.payloads@;
    let mut taken: Vec<ActionPayload> = Vec::new();
    std::mem::swap(&mut taken, &mut actions.payloads);
    let mut kept: Vec<ActionPayload> = Vec::new();
    for entry in it: taken.into_iter()
        invariant
            it.seq() == all,
            kept@ == all.take(it.index() as int).filter(not_of_view(tag)),
    {
        proof {
            reveal(Seq::filter);
            assert(all.take(it.index() as int + 1).drop_last() == all.take(it.index() as int));
        }
        if entry.1.0 != tag {
            kept.push(entry);
        }
    }
    proof {
        assert(all.take(all.len() as int) == all);
        lemma_alist_filter(all, not_of_view(tag));
    }
    actions.payloads = kept;
    assert(final(actions)@ =~= Map::new(
        |k: usize| old(actions)@.contains_key(k) && old(actions)@[k].0 != tag,
        |k: usize| old(actions)@[k],
    ));
}

/// The event an assistive technology's use of the action object `key`
/// raises: the named action on its view. `None` when the key is unknown.
pub fn handle_accessibility_custom_action(actions: &AccessibilityActions, key: usize) -> (r: Option<Event>)
    ensures
        r == (if actions@.contains_key(key) {
            Some(
                Event::AccessibilityAction {
                    target: WidgetId::spec_from_u64(actions@[key].0),
                    action: actions@[key].1,
                },
            )
        } else {
            None
        }),
{
    proof {
        use_type_invariant(actions);
    }
    match actions.find(key) {
        Some(i) => {
            proof {
                lemma_alist_lookup(actions.payloads@, i as int);
            }
            let tag = actions.payloads[i].1.0;
            let action = actions.payloads[i].1.1.clone();
            Some(Event::AccessibilityAction { target: WidgetId::from_u64(tag), action })
        },
        None => None,
    }
}

/// The event a tap on the view `tag_bits` raises.
pub fn handle_tap(tag_bits: u64) -> (r: Event)
    ensures
        r == (Event::Tap { target: WidgetId::spec_from_u64(tag_bits) }),
{
    Event::Tap { target: WidgetId::from_u64(tag_bits) }
}

/// The event a slider, stepper or picker of the view `tag_bits` raises when
/// its value changes.
pub fn handle_value_changed(tag_bits: u64, value: F64Bits) -> (r: Event)
    ensures
        r == (Event::ValueChanged { target: WidgetId::spec_from_u64(tag_bits), value }),
{
    Event::ValueChanged { target: WidgetId::from_u64(tag_bits), value }
}

/// The event an edit of the text input `tag_bits` raises: the new value,
/// with the caret at its end (its length in UTF-8 bytes).
pub fn handle_text_changed(tag_bits: u64, value: String) -> (r: Event)
    ensures
        r == (Event::TextChanged {
            target: WidgetId::spec_from_u64(tag_bits),
            value,
            selection: TextSelection {
                start: encode_utf8(value@).len() as usize,
                end: encode_utf8(value@).len() as usize,
            },
        }),
{
    let selection = TextSelection::caret(value.as_str().len());
    Event::TextChanged { target: WidgetId::from_u64(tag_bits), value, selection }
}

} // verus!

verus! {

/// The span of the frame-rate window, in nanoseconds.
pub const FRAME_WINDOW_NANOS: u64 = 1_000_000_000;

/// Whether a frame stamped `stamp` lies more than a window before `now`.
pub open spec fn frame_expired(stamp: u64, now: u64) -> bool {
    stamp < now && now - stamp > FRAME_WINDOW_NANOS
}

/// The frame stamps left after dropping, from the oldest on, those that
/// lie more than a window before `now`.
pub open spec fn drop_expired(s: Seq<u64>, now: u64) -> Seq<u64>
    decreases s.len(),
{
    if s.len() > 0 && frame_expired(s[0], now) {
        drop_expired(s.drop_first(), now)
    } else {
        s
    }
}

/// Dropping expired stamps from `s` is dropping the first `k` of them, when
/// those are expired and the next one (if any) is not.
proof fn lemma_drop_expired_prefix(s: Seq<u64>, now: u64, k: int)
    requires
        0 <= k <= s.len(),
        forall|j: int| 0 <= j < k ==> frame_expired(#[trigger] s[j], now),
        k < s.len() ==> !frame_expired(s[k], now),
    ensures
        drop_expired(s, now) == s.subrange(k, s.len() as int),
    decreases k,
{
    if k == 0 {
        assert(s.subrange(0, s.len() as int) == s);
    } else {
        let t = s.drop_first();
        assert forall|j: int| 0 <= j < k - 1 implies frame_expired(#[trigger] t[j], now) by {
            assert(t[j] == s[j + 1]);
        }
        if k - 1 < t.len() {
            assert(t[k - 1] == s[k]);
        }
        lemma_drop_expired_prefix(t, now, k - 1);
        assert(t.subrange(k - 1, t.len() as int) == s.subrange(k, s.len() as int));
    }
}

/// The stamps of the frames drawn in the last second, oldest first.
pub struct FrameTimes {
    stamps: Vec<u64>,
}

impl View for FrameTimes {
    type V = Seq<u64>;

    closed spec fn view(&self) -> Seq<u64> {
        self.stamps@
    }
}

impl FrameTimes {
    /// No frames.
    pub fn new() -> (r: FrameTimes)
        ensures
            r@ == Seq::<u64>::empty(),
    {
        FrameTimes { stamps: Vec::new() }
    }
}

/// Records a frame drawn at `now` (monotonic nanoseconds) and drops the
/// frames more than a second older; returns how many frames remain, the
/// frame rate over the last second.
pub fn record_frame(times: &mut FrameTimes, now: u64) -> (r: usize)
    ensures
        final(times)@ == drop_expired(old(times)@.push(now), now),
        r == final(times)@.len(),
{
    times.stamps.push(now);
    let ghost all = times.stamps@;
    let n = times.stamps.len();
    let mut k: usize = 0;
    while k < n && times.stamps[k] < now && now - times.stamps[k] > FRAME_WINDOW_NANOS
        invariant
            n == times.stamps@.len(),
            all == times.stamps@,
            k <= n,
            forall|j: int| 0 <= j < k ==> frame_expired(#[trigger] all[j], now),
        decreases n - k,
    {
        k = k + 1;
    }
    proof {
        lemma_drop_expired_prefix(all, now, k as int);
    }
    let mut kept: Vec<u64> = Vec::new();
    let mut i: usize = k;
    while i < n
        invariant
            n == times.stamps@.len(),
            all == times.stamps@,
            k <= i <= n,
            kept@ == all.subrange(k as int, i as int),
        decreases n - i,
    {
        kept.push(times.stamps[i]);
        i = i + 1;
        assert(kept@ =~= all.subrange(k as int, i as int));
    }
    times.stamps = kept;
    times.stamps.len()
}

} // verus!

verus! {

/// Bytes as lower-case hexadecimal, two digits per byte.
pub open spec fn hex_bytes(s: Seq<u8>) -> Seq<char>
    decreases s.len(),
{
    if s.len() == 0 {
        Seq::empty()
    } else {
        hex_bytes(s.drop_last()) + hex_digits(s.last() as nat, 2)
    }
}

/// The APNs device token as the provider API expects it: its bytes in
/// lower-case hexadecimal. `None` for an empty token.
pub fn apns_device_token_hex(device_token: &[u8]) -> (r: Option<String>)
    ensures
        device_token@.len() == 0 ==> r is None,
        device_token@.len() > 0 ==> (r matches Some(t) && t@ == hex_bytes(device_token@)),
{
    let n = device_token.len();
    if n == 0 {
        return None;
    }
    let mut token = String::new();
    let mut i: usize = 0;
    while i < n
        invariant
            n == device_token@.len(),
            i <= n,
            token@ == hex_bytes(device_token@.take(i as int)),
        decreases n - i,
    {
        proof {
            assert(device_token@.take(i as int + 1).drop_last() == device_token@.take(i as int));
        }
        push_hex_digits(&mut token, device_token[i] as u64, 2);
        i = i + 1;
    }
    assert(device_token@.take(n as int) == device_token@);
    Some(token)
}

} // verus!

verus! {

/// The `UIAccessibilityTraits` bits a widget role sets.
pub open spec fn spec_ui_accessibility_traits(role: Role) -> i64 {
    match role {
        Role::Plain => 0,
        Role::Button => 1,
        Role::Link => 2,
        Role::Image => 4,
        Role::Search => 1024,
        Role::Adjustable => 4096,
        Role::Header => 32768,
    }
}

/// The `UIAccessibilityTraits` bits a widget role sets.
pub fn ui_accessibility_traits(role: Role) -> (r: i64)
    ensures
        r == spec_ui_accessibility_traits(role),
{
    match role {
        Role::Plain => 0,
        Role::Button => 1,
        Role::Link => 2,
        Role::Image => 4,
        Role::Search => 1024,
        Role::Adjustable => 4096,
        Role::Header => 32768,
    }
}

/// The `UIViewContentMode` an image resize mode uses; tiling has no content mode and falls back to scaling to fill.
pub open spec fn spec_ui_content_mode(mode: ImageResizeMode) -> isize {
    match mode {
        ImageResizeMode::Stretch => 0,
        ImageResizeMode::Cover => 1,
        ImageResizeMode::Contain => 2,
        ImageResizeMode::Center => 4,
        ImageResizeMode::Repeat => 0,
    }
}

/// The `UIViewContentMode` an image resize mode uses; tiling has no content mode and falls back to scaling to fill.
pub fn ui_content_mode(mode: ImageResizeMode) -> (r: isize)
    ensures
        r == spec_ui_content_mode(mode),
{
    match mode {
        ImageResizeMode::Stretch => 0,
        ImageResizeMode::Cover => 1,
        ImageResizeMode::Contain => 2,
        ImageResizeMode::Center => 4,
        ImageResizeMode::Repeat => 0,
    }
}

/// The `UIScrollViewKeyboardDismissMode` of a keyboard dismiss mode.
pub open spec fn spec_ui_keyboard_dismiss_mode(mode: KeyboardDismissMode) -> isize {
    match mode {
        KeyboardDismissMode::Manual => 0,
        KeyboardDismissMode::OnDrag => 1,
        KeyboardDismissMode::Interactive => 2,
    }
}

/// The `UIScrollViewKeyboardDismissMode` of a keyboard dismiss mode.
pub fn ui_keyboard_dismiss_mode(mode: KeyboardDismissMode) -> (r: isize)
    ensures
        r == spec_ui_keyboard_dismiss_mode(mode),
{
    match mode {
        KeyboardDismissMode::Manual => 0,
        KeyboardDismissMode::OnDrag => 1,
        KeyboardDismissMode::Interactive => 2,
    }
}

/// The `UIReturnKeyType` of a return key type.
pub open spec fn spec_ui_return_key_type(key: ReturnKeyType) -> isize {
    match key {
        ReturnKeyType::Default => 0,
        ReturnKeyType::Go => 1,
        ReturnKeyType::Next => 4,
        ReturnKeyType::Search => 8,
        ReturnKeyType::Send => 9,
        ReturnKeyType::Done => 9,
    }
}

/// The `UIReturnKeyType` of a return key type.
pub fn ui_return_key_type(key: ReturnKeyType) -> (r: isize)
    ensures
        r == spec_ui_return_key_type(key),
{
    match key {
        ReturnKeyType::Default => 0,
        ReturnKeyType::Go => 1,
        ReturnKeyType::Next => 4,
        ReturnKeyType::Search => 8,
        ReturnKeyType::Send => 9,
        ReturnKeyType::Done => 9,
    }
}

/// The `UIKeyboardType` of a keyboard type.
pub open spec fn spec_ui_keyboard_type(keyboard: KeyboardType) -> isize {
    match keyboard {
        KeyboardType::Default => 0,
        KeyboardType::Ascii => 1,
        KeyboardType::NumbersAndPunctuation => 2,
        KeyboardType::Url => 3,
        KeyboardType::NumberPad => 4,
        KeyboardType::PhonePad => 5,
        KeyboardType::NamePhonePad => 7,
        KeyboardType::Email => 7,
        KeyboardType::DecimalPad => 8,
    }
}

/// The `UIKeyboardType` of a keyboard type.
pub fn ui_keyboard_type(keyboard: KeyboardType) -> (r: isize)
    ensures
        r == spec_ui_keyboard_type(keyboard),
{
    match keyboard {
        KeyboardType::Default => 0,
        KeyboardType::Ascii => 1,
        KeyboardType::NumbersAndPunctuation => 2,
        KeyboardType::Url => 3,
        KeyboardType::NumberPad => 4,
        KeyboardType::PhonePad => 5,
        KeyboardType::NamePhonePad => 7,
        KeyboardType::Email => 7,
        KeyboardType::DecimalPad => 8,
    }
}

/// The `UISemanticContentAttribute` that forces a layout direction.
pub open spec fn spec_ui_semantic_content_attribute(direction: LayoutDirection) -> isize {
    match direction {
        LayoutDirection::Ltr => 3,
        LayoutDirection::Rtl => 4,
    }
}

/// The `UISemanticContentAttribute` that forces a layout direction.
pub fn ui_semantic_content_attribute(direction: LayoutDirection) -> (r: isize)
    ensures
        r == spec_ui_semantic_content_attribute(direction),
{
    match direction {
        LayoutDirection::Ltr => 3,
        LayoutDirection::Rtl => 4,
    }
}

/// The `UIStatusBarStyle` of a status bar style.
pub open spec fn spec_ui_status_bar_style(style: StatusBarStyle) -> i64 {
    match style {
        StatusBarStyle::Dark => 3,
        StatusBarStyle::Light => 1,
        StatusBarStyle::Auto => 0,
    }
}

/// The `UIStatusBarStyle` of a status bar style.
pub fn ui_status_bar_style(style: StatusBarStyle) -> (r: i64)
    ensures
        r == spec_ui_status_bar_style(style),
{
    match style {
        StatusBarStyle::Dark => 3,
        StatusBarStyle::Light => 1,
        StatusBarStyle::Auto => 0,
    }
}

/// The name of the `UIFontTextStyle` a Dynamic Type text style uses.
pub open spec fn spec_ui_text_style_name(style: TextStyle) -> Seq<char> {
    match style {
        TextStyle::LargeTitle => "UICTFontTextStyleLargeTitle"@,
        TextStyle::Title1 => "UICTFontTextStyleTitle1"@,
        TextStyle::Title2 => "UICTFontTextStyleTitle2"@,
        TextStyle::Title3 => "UICTFontTextStyleTitle3"@,
        TextStyle::Headline => "UIFontTextStyleHeadline"@,
        TextStyle::Subheadline => "UIFontTextStyleSubheadline"@,
        TextStyle::Body => "UIFontTextStyleBody"@,
        TextStyle::Callout => "UIFontTextStyleCallout"@,
        TextStyle::Footnote => "UIFontTextStyleFootnote"@,
        TextStyle::Caption1 => "UIFontTextStyleCaption1"@,
        TextStyle::Caption2 => "UIFontTextStyleCaption2"@,
    }
}

/// The name of the `UIFontTextStyle` a Dynamic Type text style uses.
pub fn ui_text_style_name(style: TextStyle) -> (r: &'static str)
    ensures
        r@ == spec_ui_text_style_name(style),
{
    match style {
        TextStyle::LargeTitle => "UICTFontTextStyleLargeTitle",
        TextStyle::Title1 => "UICTFontTextStyleTitle1",
        TextStyle::Title2 => "UICTFontTextStyleTitle2",
        TextStyle::Title3 => "UICTFontTextStyleTitle3",
        TextStyle::Headline => "UIFontTextStyleHeadline",
        TextStyle::Subheadline => "UIFontTextStyleSubheadline",
        TextStyle::Body => "UIFontTextStyleBody",
        TextStyle::Callout => "UIFontTextStyleCallout",
        TextStyle::Footnote => "UIFontTextStyleFootnote",
        TextStyle::Caption1 => "UIFontTextStyleCaption1",
        TextStyle::Caption2 => "UIFontTextStyleCaption2",
    }
}

/// The `NSUnderlineStyle` values (underline, strikethrough) a text
/// decoration sets.
pub open spec fn spec_ui_text_decoration(decoration: TextDecoration) -> (i32, i32) {
    match decoration {
        TextDecoration::Plain => (0, 0),
        TextDecoration::Underline => (1, 0),
        TextDecoration::Strikethrough => (0, 1),
        TextDecoration::UnderlineDouble => (9, 0),
    }
}

/// The `NSUnderlineStyle` values (underline, strikethrough) a text
/// decoration sets.
pub fn ui_text_decoration(decoration: TextDecoration) -> (r: (i32, i32))
    ensures
        r == spec_ui_text_decoration(decoration),
{
    match decoration {
        TextDecoration::Plain => (0, 0),
        TextDecoration::Underline => (1, 0),
        TextDecoration::Strikethrough => (0, 1),
        TextDecoration::UnderlineDouble => (9, 0),
    }
}

/// The UIKit feedback generator a haptic style plays on, with its value.
#[derive(Debug, Clone, Copy, PartialEq, Eq, Structural)]
pub enum UiHaptic {
    /// `UISelectionFeedbackGenerator.selectionChanged`.
    Selection,
    /// `UINotificationFeedbackGenerator` with this `UINotificationFeedbackType`.
    Notification(isize),
    /// `UIImpactFeedbackGenerator` with this `UIImpactFeedbackStyle`.
    Impact(isize),
}

/// The feedback generator and value of a haptic style.
pub open spec fn spec_ui_haptic(style: HapticStyle) -> UiHaptic {
    match style {
        HapticStyle::Selection => UiHaptic::Selection,
        HapticStyle::Success => UiHaptic::Notification(0),
        HapticStyle::Warning => UiHaptic::Notification(1),
        HapticStyle::Error => UiHaptic::Notification(2),
        HapticStyle::Light => UiHaptic::Impact(0),
        HapticStyle::Medium => UiHaptic::Impact(1),
        HapticStyle::Heavy => UiHaptic::Impact(2),
    }
}

/// The feedback generator and value of a haptic style.
pub fn ui_haptic(style: HapticStyle) -> (r: UiHaptic)
    ensures
        r == spec_ui_haptic(style),
{
    match style {
        HapticStyle::Selection => UiHaptic::Selection,
        HapticStyle::Success => UiHaptic::Notification(0),
        HapticStyle::Warning => UiHaptic::Notification(1),
        HapticStyle::Error => UiHaptic::Notification(2),
        HapticStyle::Light => UiHaptic::Impact(0),
        HapticStyle::Medium => UiHaptic::Impact(1),
        HapticStyle::Heavy => UiHaptic::Impact(2),
    }
}

} // verus!

verus! {

/// With nothing pending and no network change, a frame tick dispatches no
/// event; in particular a second drain right after a drain dispatches
/// nothing.
pub proof fn lemma_nothing_pending_dispatches_nothing(p: &IosPending)
    requires
        nothing_pending(p),
    ensures
        tick_events(p, None) == Seq::<Event>::empty(),
{
    assert(tick_events(p, None) =~= Seq::<Event>::empty());
}

/// The image table keeps the latest load outcome for callbacks installed
/// later: after a load, a load callback installed for that view fires at
/// once; after a failure, an error callback installed for it fires at once
/// with the error.
pub proof fn lemma_late_image_callbacks_see_the_outcome(m: Map<u64, ImageHandlers>, tag: u64, error: String)
    ensures
        image_entry(
            m.insert(
                tag,
                ImageHandlers { last_result: Some(ImageLoadResult::Loaded), ..image_entry(m, tag) },
            ),
            tag,
        ).last_result == Some(ImageLoadResult::Loaded),
        image_entry(
            m.insert(
                tag,
                ImageHandlers {
                    last_result: Some(ImageLoadResult::Error(error)),
                    ..image_entry(m, tag)
                },
            ),
            tag,
        ).last_result == Some(ImageLoadResult::Error(error)),
{
}

/// A press-out callback fires only for a view whose press began and has
/// not finished yet, and a finished press leaves the view unpressed.
pub proof fn lemma_press_out_needs_press_in(m: Map<u64, PressHandlers>, tag: u64)
    ensures
        spec_press_recognized(m, tag, PressState::Finished).1 is Some ==> m.contains_key(tag)
            && m[tag].pressed,
        m.contains_key(tag) ==> !spec_press_recognized(m, tag, PressState::Finished).0[tag].pressed,
        m.contains_key(tag) ==> spec_press_recognized(m, tag, PressState::Began).0[tag].pressed,
{
}

} // verus!
