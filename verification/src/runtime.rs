//! The app runtime's decision state.
//!
//! App code queues platform requests (haptics, notifications, permission
//! prompts, …) that the runtime turns into [`Mutation`]s once per frame, in a
//! fixed order; the platform pushes device readings (network, lifecycle,
//! locale, safe area, …) that views observe once they have asked for them.
//! This module holds that state and those decisions; the reactive signals
//! and the per-frame driver live with the platform glue.

use crate::assoc::StringMap;
use crate::core_types::{Color, ColorScheme, EdgeInsets, F32Bits, F64Bits};
use crate::dom::event::Lifecycle;
use crate::dom::mutation::{
    HapticStyle, LayoutDirection, LocalNotification, Mutation, PermissionKind, PermissionStatus, F32_ONE,
};
use crate::text::{first_index_of2, find_either, slice_range, spec_split_once, spec_trim, split_once, string_from_utf8_lossy, trim, utf8_lossy};
use vstd::prelude::*;
use vstd::std_specs::cmp::PartialEqSpec;

verus! {

/// A background-task run request: the task and the earliest start.
#[derive(Debug, Clone, PartialEq)]
pub struct BackgroundSchedule {
    /// The task identifier.
    pub identifier: String,
    /// Earliest start, in seconds from now.
    pub earliest_seconds: F64Bits,
}

/// Which motion sensors to start.
#[derive(Debug, Clone, Copy, PartialEq, Eq, Hash, Structural)]
pub struct MotionRequest {
    /// Start accelerometer updates.
    pub accelerometer: bool,
    /// Start gyroscope updates.
    pub gyroscope: bool,
}

/// The platform requests app code has queued since the last frame.
#[derive(Debug)]
pub struct PendingRequests {
    /// Queued haptics, oldest first.
    pub haptics: Vec<HapticStyle>,
    /// Queued document pickers, oldest first.
    pub document_pickers: Vec<Vec<String>>,
    /// Queued notifications, oldest first.
    pub notifications: Vec<LocalNotification>,
    /// Queued cancellations, oldest first.
    pub cancellations: Vec<String>,
    /// Queued biometrics, oldest first.
    pub biometrics: Vec<String>,
    /// Queued permission checks, oldest first.
    pub permission_checks: Vec<PermissionKind>,
    /// Queued permission requests, oldest first.
    pub permission_requests: Vec<PermissionKind>,
    /// Queued bg registrations, oldest first.
    pub bg_registrations: Vec<String>,
    /// Queued bg schedules, oldest first.
    pub bg_schedules: Vec<BackgroundSchedule>,
    /// Queued clipboard writes, oldest first.
    pub clipboard_writes: Vec<String>,
    /// Queued share texts, oldest first.
    pub share_texts: Vec<String>,
    /// Queued external urls, oldest first.
    pub external_urls: Vec<String>,
    /// A location start was requested.
    pub location_start: bool,
    /// A location stop was requested.
    pub location_stop: bool,
    /// The latest motion start request.
    pub motion_start: Option<MotionRequest>,
    /// A motion stop was requested.
    pub motion_stop: bool,
    /// The latest torch state requested.
    pub torch: Option<bool>,
    /// A push-notification registration was requested.
    pub push_registration: bool,
    /// The latest app-badge count requested.
    pub app_badge: Option<u32>,
}

/// The mutations a frame emits for the queued requests, in emission order.
pub open spec fn spec_drained(p: PendingRequests) -> Seq<Mutation> {
    p.haptics@.map_values(|s: HapticStyle| Mutation::Haptic { style: s })
        + p.document_pickers@.map_values(|t: Vec<String>| Mutation::PresentDocumentPicker { types: t })
        + p.notifications@.map_values(|n: LocalNotification| Mutation::ScheduleNotification(n))
        + p.cancellations@.map_values(|i: String| Mutation::CancelNotification { id: i })
        + p.biometrics@.map_values(|r: String| Mutation::AuthenticateBiometric { reason: r })
        + p.permission_checks@.map_values(|p: PermissionKind| Mutation::CheckPermission { permission: p })
        + p.permission_requests@.map_values(|p: PermissionKind| Mutation::RequestPermission { permission: p })
        + (if p.location_start { seq![Mutation::StartLocation] } else { Seq::empty() })
        + (if p.location_stop { seq![Mutation::StopLocation] } else { Seq::empty() })
        + (match p.motion_start { Some(m) => seq![Mutation::StartMotion { accelerometer: m.accelerometer, gyroscope: m.gyroscope }], None => Seq::empty() })
        + (if p.motion_stop { seq![Mutation::StopMotion] } else { Seq::empty() })
        + p.bg_registrations@.map_values(|i: String| Mutation::RegisterBackgroundTask { identifier: i })
        + p.bg_schedules@.map_values(|b: BackgroundSchedule| Mutation::ScheduleBackgroundTask { identifier: b.identifier, earliest_seconds: b.earliest_seconds })
        + p.clipboard_writes@.map_values(|t: String| Mutation::SetClipboard { text: t })
        + p.share_texts@.map_values(|t: String| Mutation::ShareText { text: t })
        + p.external_urls@.map_values(|u: String| Mutation::OpenExternalUrl { url: u })
        + (match p.torch { Some(on) => seq![Mutation::SetTorch { on }], None => Seq::empty() })
        + (if p.push_registration { seq![Mutation::RegisterForPushNotifications] } else { Seq::empty() })
        + (match p.app_badge { Some(count) => seq![Mutation::SetAppBadge { count }], None => Seq::empty() })
}

/// Whether no request is queued.
pub open spec fn spec_nothing_pending(p: PendingRequests) -> bool {
    p.haptics@.len() == 0
    && p.document_pickers@.len() == 0
    && p.notifications@.len() == 0
    && p.cancellations@.len() == 0
    && p.biometrics@.len() == 0
    && p.permission_checks@.len() == 0
    && p.permission_requests@.len() == 0
    && p.bg_registrations@.len() == 0
    && p.bg_schedules@.len() == 0
    && p.clipboard_writes@.len() == 0
    && p.share_texts@.len() == 0
    && p.external_urls@.len() == 0
    && !p.location_start
    && !p.location_stop
    && p.motion_start is None
    && !p.motion_stop
    && p.torch is None
    && !p.push_registration
    && p.app_badge is None
}

/// Appends the mutation for each queued item, in order.
fn emit_haptics(out: &mut Vec<Mutation>, items: Vec<HapticStyle>)
    ensures
        final(out)@ == old(out)@ + items@.map_values(|s: HapticStyle| Mutation::Haptic { style: s }),
{
    let ghost start = out@;
    let ghost all = items@;
    let mut rest = reversed(items);
    let ghost n = all.len();
    while rest.len() > 0
        invariant
            rest@ == all.subrange(n - rest@.len(), n as int).reverse(),
            rest@.len() <= n,
            n == all.len(),
            out@ == start + all.subrange(0, n - rest@.len()).map_values(|s: HapticStyle| Mutation::Haptic { style: s }),
        decreases rest.len(),
    {
        let ghost k = n - rest@.len();
        let x = rest.pop().unwrap();
        proof {
            assert(x == all[k]);
        }
        out.push(Mutation::Haptic { style: x });
        proof {
            assert(all.subrange(0, k + 1) == all.subrange(0, k).push(all[k]));
            assert(all.subrange(k + 1, n as int).reverse() =~= rest@);
        }
    }
    assert(all.subrange(0, n as int) == all);
}

/// Appends the mutation for each queued item, in order.
fn emit_document_pickers(out: &mut Vec<Mutation>, items: Vec<Vec<String>>)
    ensures
        final(out)@ == old(out)@ + items@.map_values(|t: Vec<String>| Mutation::PresentDocumentPicker { types: t }),
{
    let ghost start = out@;
    let ghost all = items@;
    let mut rest = reversed(items);
    let ghost n = all.len();
    while rest.len() > 0
        invariant
            rest@ == all.subrange(n - rest@.len(), n as int).reverse(),
            rest@.len() <= n,
            n == all.len(),
            out@ == start + all.subrange(0, n - rest@.len()).map_values(|t: Vec<String>| Mutation::PresentDocumentPicker { types: t }),
        decreases rest.len(),
    {
        let ghost k = n - rest@.len();
        let x = rest.pop().unwrap();
        proof {
            assert(x == all[k]);
        }
        out.push(Mutation::PresentDocumentPicker { types: x });
        proof {
            assert(all.subrange(0, k + 1) == all.subrange(0, k).push(all[k]));
            assert(all.subrange(k + 1, n as int).reverse() =~= rest@);
        }
    }
    assert(all.subrange(0, n as int) == all);
}

/// Appends the mutation for each queued item, in order.
fn emit_notifications(out: &mut Vec<Mutation>, items: Vec<LocalNotification>)
    ensures
        final(out)@ == old(out)@ + items@.map_values(|n: LocalNotification| Mutation::ScheduleNotification(n)),
{
    let ghost start = out@;
    let ghost all = items@;
    let mut rest = reversed(items);
    let ghost n = all.len();
    while rest.len() > 0
        invariant
            rest@ == all.subrange(n - rest@.len(), n as int).reverse(),
            rest@.len() <= n,
            n == all.len(),
            out@ == start + all.subrange(0, n - rest@.len()).map_values(|n: LocalNotification| Mutation::ScheduleNotification(n)),
        decreases rest.len(),
    {
        let ghost k = n - rest@.len();
        let x = rest.pop().unwrap();
        proof {
            assert(x == all[k]);
        }
        out.push(Mutation::ScheduleNotification(x));
        proof {
            assert(all.subrange(0, k + 1) == all.subrange(0, k).push(all[k]));
            assert(all.subrange(k + 1, n as int).reverse() =~= rest@);
        }
    }
    assert(all.subrange(0, n as int) == all);
}

/// Appends the mutation for each queued item, in order.
fn emit_cancellations(out: &mut Vec<Mutation>, items: Vec<String>)
    ensures
        final(out)@ == old(out)@ + items@.map_values(|i: String| Mutation::CancelNotification { id: i }),
{
    let ghost start = out@;
    let ghost all = items@;
    let mut rest = reversed(items);
    let ghost n = all.len();
    while rest.len() > 0
        invariant
            rest@ == all.subrange(n - rest@.len(), n as int).reverse(),
            rest@.len() <= n,
            n == all.len(),
            out@ == start + all.subrange(0, n - rest@.len()).map_values(|i: String| Mutation::CancelNotification { id: i }),
        decreases rest.len(),
    {
        let ghost k = n - rest@.len();
        let x = rest.pop().unwrap();
        proof {
            assert(x == all[k]);
        }
        out.push(Mutation::CancelNotification { id: x });
        proof {
            assert(all.subrange(0, k + 1) == all.subrange(0, k).push(all[k]));
            assert(all.subrange(k + 1, n as int).reverse() =~= rest@);
        }
    }
    assert(all.subrange(0, n as int) == all);
}

/// Appends the mutation for each queued item, in order.
fn emit_biometrics(out: &mut Vec<Mutation>, items: Vec<String>)
    ensures
        final(out)@ == old(out)@ + items@.map_values(|r: String| Mutation::AuthenticateBiometric { reason: r }),
{
    let ghost start = out@;
    let ghost all = items@;
    let mut rest = reversed(items);
    let ghost n = all.len();
    while rest.len() > 0
        invariant
            rest@ == all.subrange(n - rest@.len(), n as int).reverse(),
            rest@.len() <= n,
            n == all.len(),
            out@ == start + all.subrange(0, n - rest@.len()).map_values(|r: String| Mutation::AuthenticateBiometric { reason: r }),
        decreases rest.len(),
    {
        let ghost k = n - rest@.len();
        let x = rest.pop().unwrap();
        proof {
            assert(x == all[k]);
        }
        out.push(Mutation::AuthenticateBiometric { reason: x });
        proof {
            assert(all.subrange(0, k + 1) == all.subrange(0, k).push(all[k]));
            assert(all.subrange(k + 1, n as int).reverse() =~= rest@);
        }
    }
    assert(all.subrange(0, n as int) == all);
}

/// Appends the mutation for each queued item, in order.
fn emit_permission_checks(out: &mut Vec<Mutation>, items: Vec<PermissionKind>)
    ensures
        final(out)@ == old(out)@ + items@.map_values(|p: PermissionKind| Mutation::CheckPermission { permission: p }),
{
    let ghost start = out@;
    let ghost all = items@;
    let mut rest = reversed(items);
    let ghost n = all.len();
    while rest.len() > 0
        invariant
            rest@ == all.subrange(n - rest@.len(), n as int).reverse(),
            rest@.len() <= n,
            n == all.len(),
            out@ == start + all.subrange(0, n - rest@.len()).map_values(|p: PermissionKind| Mutation::CheckPermission { permission: p }),
        decreases rest.len(),
    {
        let ghost k = n - rest@.len();
        let x = rest.pop().unwrap();
        proof {
            assert(x == all[k]);
        }
        out.push(Mutation::CheckPermission { permission: x });
        proof {
            assert(all.subrange(0, k + 1) == all.subrange(0, k).push(all[k]));
            assert(all.subrange(k + 1, n as int).reverse() =~= rest@);
        }
    }
    assert(all.subrange(0, n as int) == all);
}

/// Appends the mutation for each queued item, in order.
fn emit_permission_requests(out: &mut Vec<Mutation>, items: Vec<PermissionKind>)
    ensures
        final(out)@ == old(out)@ + items@.map_values(|p: PermissionKind| Mutation::RequestPermission { permission: p }),
{
    let ghost start = out@;
    let ghost all = items@;
    let mut rest = reversed(items);
    let ghost n = all.len();
    while rest.len() > 0
        invariant
            rest@ == all.subrange(n - rest@.len(), n as int).reverse(),
            rest@.len() <= n,
            n == all.len(),
            out@ == start + all.subrange(0, n - rest@.len()).map_values(|p: PermissionKind| Mutation::RequestPermission { permission: p }),
        decreases rest.len(),
    {
        let ghost k = n - rest@.len();
        let x = rest.pop().unwrap();
        proof {
            assert(x == all[k]);
        }
        out.push(Mutation::RequestPermission { permission: x });
        proof {
            assert(all.subrange(0, k + 1) == all.subrange(0, k).push(all[k]));
            assert(all.subrange(k + 1, n as int).reverse() =~= rest@);
        }
    }
    assert(all.subrange(0, n as int) == all);
}

/// Appends the mutation for each queued item, in order.
fn emit_bg_registrations(out: &mut Vec<Mutation>, items: Vec<String>)
    ensures
        final(out)@ == old(out)@ + items@.map_values(|i: String| Mutation::RegisterBackgroundTask { identifier: i }),
{
    let ghost start = out@;
    let ghost all = items@;
    let mut rest = reversed(items);
    let ghost n = all.len();
    while rest.len() > 0
        invariant
            rest@ == all.subrange(n - rest@.len(), n as int).reverse(),
            rest@.len() <= n,
            n == all.len(),
            out@ == start + all.subrange(0, n - rest@.len()).map_values(|i: String| Mutation::RegisterBackgroundTask { identifier: i }),
        decreases rest.len(),
    {
        let ghost k = n - rest@.len();
        let x = rest.pop().unwrap();
        proof {
            assert(x == all[k]);
        }
        out.push(Mutation::RegisterBackgroundTask { identifier: x });
        proof {
            assert(all.subrange(0, k + 1) == all.subrange(0, k).push(all[k]));
            assert(all.subrange(k + 1, n as int).reverse() =~= rest@);
        }
    }
    assert(all.subrange(0, n as int) == all);
}

/// Appends the mutation for each queued item, in order.
fn emit_bg_schedules(out: &mut Vec<Mutation>, items: Vec<BackgroundSchedule>)
    ensures
        final(out)@ == old(out)@ + items@.map_values(|b: BackgroundSchedule| Mutation::ScheduleBackgroundTask { identifier: b.identifier, earliest_seconds: b.earliest_seconds }),
{
    let ghost start = out@;
    let ghost all = items@;
    let mut rest = reversed(items);
    let ghost n = all.len();
    while rest.len() > 0
        invariant
            rest@ == all.subrange(n - rest@.len(), n as int).reverse(),
            rest@.len() <= n,
            n == all.len(),
            out@ == start + all.subrange(0, n - rest@.len()).map_values(|b: BackgroundSchedule| Mutation::ScheduleBackgroundTask { identifier: b.identifier, earliest_seconds: b.earliest_seconds }),
        decreases rest.len(),
    {
        let ghost k = n - rest@.len();
        let x = rest.pop().unwrap();
        proof {
            assert(x == all[k]);
        }
        out.push(Mutation::ScheduleBackgroundTask { identifier: x.identifier, earliest_seconds: x.earliest_seconds });
        proof {
            assert(all.subrange(0, k + 1) == all.subrange(0, k).push(all[k]));
            assert(all.subrange(k + 1, n as int).reverse() =~= rest@);
        }
    }
    assert(all.subrange(0, n as int) == all);
}

/// Appends the mutation for each queued item, in order.
fn emit_clipboard_writes(out: &mut Vec<Mutation>, items: Vec<String>)
    ensures
        final(out)@ == old(out)@ + items@.map_values(|t: String| Mutation::SetClipboard { text: t }),
{
    let ghost start = out@;
    let ghost all = items@;
    let mut rest = reversed(items);
    let ghost n = all.len();
    while rest.len() > 0
        invariant
            rest@ == all.subrange(n - rest@.len(), n as int).reverse(),
            rest@.len() <= n,
            n == all.len(),
            out@ == start + all.subrange(0, n - rest@.len()).map_values(|t: String| Mutation::SetClipboard { text: t }),
        decreases rest.len(),
    {
        let ghost k = n - rest@.len();
        let x = rest.pop().unwrap();
        proof {
            assert(x == all[k]);
        }
        out.push(Mutation::SetClipboard { text: x });
        proof {
            assert(all.subrange(0, k + 1) == all.subrange(0, k).push(all[k]));
            assert(all.subrange(k + 1, n as int).reverse() =~= rest@);
        }
    }
    assert(all.subrange(0, n as int) == all);
}

/// Appends the mutation for each queued item, in order.
fn emit_share_texts(out: &mut Vec<Mutation>, items: Vec<String>)
    ensures
        final(out)@ == old(out)@ + items@.map_values(|t: String| Mutation::ShareText { text: t }),
{
    let ghost start = out@;
    let ghost all = items@;
    let mut rest = reversed(items);
    let ghost n = all.len();
    while rest.len() > 0
        invariant
            rest@ == all.subrange(n - rest@.len(), n as int).reverse(),
            rest@.len() <= n,
            n == all.len(),
            out@ == start + all.subrange(0, n - rest@.len()).map_values(|t: String| Mutation::ShareText { text: t }),
        decreases rest.len(),
    {
        let ghost k = n - rest@.len();
        let x = rest.pop().unwrap();
        proof {
            assert(x == all[k]);
        }
        out.push(Mutation::ShareText { text: x });
        proof {
            assert(all.subrange(0, k + 1) == all.subrange(0, k).push(all[k]));
            assert(all.subrange(k + 1, n as int).reverse() =~= rest@);
        }
    }
    assert(all.subrange(0, n as int) == all);
}

/// Appends the mutation for each queued item, in order.
fn emit_external_urls(out: &mut Vec<Mutation>, items: Vec<String>)
    ensures
        final(out)@ == old(out)@ + items@.map_values(|u: String| Mutation::OpenExternalUrl { url: u }),
{
    let ghost start = out@;
    let ghost all = items@;
    let mut rest = reversed(items);
    let ghost n = all.len();
    while rest.len() > 0
        invariant
            rest@ == all.subrange(n - rest@.len(), n as int).reverse(),
            rest@.len() <= n,
            n == all.len(),
            out@ == start + all.subrange(0, n - rest@.len()).map_values(|u: String| Mutation::OpenExternalUrl { url: u }),
        decreases rest.len(),
    {
        let ghost k = n - rest@.len();
        let x = rest.pop().unwrap();
        proof {
            assert(x == all[k]);
        }
        out.push(Mutation::OpenExternalUrl { url: x });
        proof {
            assert(all.subrange(0, k + 1) == all.subrange(0, k).push(all[k]));
            assert(all.subrange(k + 1, n as int).reverse() =~= rest@);
        }
    }
    assert(all.subrange(0, n as int) == all);
}

/// The elements of `v` in reverse order.
fn reversed<T>(v: Vec<T>) -> (r: Vec<T>)
    ensures
        r@ == v@.reverse(),
{
    let ghost all = v@;
    let mut rest = v;
    let mut out: Vec<T> = Vec::new();
    while rest.len() > 0
        invariant
            rest@.len() <= all.len(),
            rest@ == all.subrange(0, rest@.len() as int),
            out@ == all.subrange(rest@.len() as int, all.len() as int).reverse(),
        decreases rest.len(),
    {
        let ghost k = rest@.len();
        let x = rest.pop().unwrap();
        out.push(x);
        assert(out@ =~= all.subrange(k - 1, all.len() as int).reverse());
    }
    assert(all.subrange(0, all.len() as int) == all);
    out
}

impl PendingRequests {
    /// Nothing queued.
    pub fn new() -> (r: PendingRequests)
        ensures
            spec_nothing_pending(r),
    {
        PendingRequests {
            haptics: Vec::new(),
            document_pickers: Vec::new(),
            notifications: Vec::new(),
            cancellations: Vec::new(),
            biometrics: Vec::new(),
            permission_checks: Vec::new(),
            permission_requests: Vec::new(),
            bg_registrations: Vec::new(),
            bg_schedules: Vec::new(),
            clipboard_writes: Vec::new(),
            share_texts: Vec::new(),
            external_urls: Vec::new(),
            location_start: false,
            location_stop: false,
            motion_start: None,
            motion_stop: false,
            torch: None,
            push_registration: false,
            app_badge: None,
        }
    }

    /// Takes every queued request as the mutations a frame emits for them, in
    /// emission order, leaving nothing queued.
    #[verifier::rlimit(80)]
    #[verifier::spinoff_prover]
    pub fn drain(&mut self) -> (r: Vec<Mutation>)
        ensures
            r@ == spec_drained(*old(self)),
            spec_nothing_pending(*final(self)),
    {
        let mut out: Vec<Mutation> = Vec::new();
        let ghost p = *self;
        let mut haptics: Vec<HapticStyle> = Vec::new();
        std::mem::swap(&mut haptics, &mut self.haptics);
        emit_haptics(&mut out, haptics);
        let mut document_pickers: Vec<Vec<String>> = Vec::new();
        std::mem::swap(&mut document_pickers, &mut self.document_pickers);
        emit_document_pickers(&mut out, document_pickers);
        let mut notifications: Vec<LocalNotification> = Vec::new();
        std::mem::swap(&mut notifications, &mut self.notifications);
        emit_notifications(&mut out, notifications);
        let mut cancellations: Vec<String> = Vec::new();
        std::mem::swap(&mut cancellations, &mut self.cancellations);
        emit_cancellations(&mut out, cancellations);
        let mut biometrics: Vec<String> = Vec::new();
        std::mem::swap(&mut biometrics, &mut self.biometrics);
        emit_biometrics(&mut out, biometrics);
        let mut permission_checks: Vec<PermissionKind> = Vec::new();
        std::mem::swap(&mut permission_checks, &mut self.permission_checks);
        emit_permission_checks(&mut out, permission_checks);
        let mut permission_requests: Vec<PermissionKind> = Vec::new();
        std::mem::swap(&mut permission_requests, &mut self.permission_requests);
        emit_permission_requests(&mut out, permission_requests);
        if self.location_start {
            out.push(Mutation::StartLocation);
        }
        self.location_start = false;
        if self.location_stop {
            out.push(Mutation::StopLocation);
        }
        self.location_stop = false;
        if let Some(m) = self.motion_start {
            out.push(Mutation::StartMotion { accelerometer: m.accelerometer, gyroscope: m.gyroscope });
        }
        self.motion_start = None;
        if self.motion_stop {
            out.push(Mutation::StopMotion);
        }
        self.motion_stop = false;
        let mut bg_registrations: Vec<String> = Vec::new();
        std::mem::swap(&mut bg_registrations, &mut self.bg_registrations);
        emit_bg_registrations(&mut out, bg_registrations);
        let mut bg_schedules: Vec<BackgroundSchedule> = Vec::new();
        std::mem::swap(&mut bg_schedules, &mut self.bg_schedules);
        emit_bg_schedules(&mut out, bg_schedules);
        let mut clipboard_writes: Vec<String> = Vec::new();
        std::mem::swap(&mut clipboard_writes, &mut self.clipboard_writes);
        emit_clipboard_writes(&mut out, clipboard_writes);
        let mut share_texts: Vec<String> = Vec::new();
        std::mem::swap(&mut share_texts, &mut self.share_texts);
        emit_share_texts(&mut out, share_texts);
        let mut external_urls: Vec<String> = Vec::new();
        std::mem::swap(&mut external_urls, &mut self.external_urls);
        emit_external_urls(&mut out, external_urls);
        if let Some(on) = self.torch {
            out.push(Mutation::SetTorch { on });
        }
        self.torch = None;
        if self.push_registration {
            out.push(Mutation::RegisterForPushNotifications);
        }
        self.push_registration = false;
        if let Some(count) = self.app_badge {
            out.push(Mutation::SetAppBadge { count });
        }
        self.app_badge = None;
        proof {
            assert(out@ =~= spec_drained(p));
        }
        out
    }
}

/// Requests one haptic feedback pulse.
pub fn haptic(pending: &mut PendingRequests, style: HapticStyle)
    ensures
        *final(pending) == (PendingRequests { haptics: final(pending).haptics, ..*old(pending) }),
        final(pending).haptics@ == old(pending).haptics@.push(style),
{
    pending.haptics.push(style);
}

/// Requests the system document picker, limited to the given type identifiers (empty for any file).
pub fn present_document_picker(pending: &mut PendingRequests, types: Vec<String>)
    ensures
        *final(pending) == (PendingRequests { document_pickers: final(pending).document_pickers, ..*old(pending) }),
        final(pending).document_pickers@ == old(pending).document_pickers@.push(types),
{
    pending.document_pickers.push(types);
}

/// Schedules a local notification.
pub fn schedule_notification(pending: &mut PendingRequests, notification: LocalNotification)
    ensures
        *final(pending) == (PendingRequests { notifications: final(pending).notifications, ..*old(pending) }),
        final(pending).notifications@ == old(pending).notifications@.push(notification),
{
    pending.notifications.push(notification);
}

/// Cancels the pending local notification with this id.
pub fn cancel_notification(pending: &mut PendingRequests, id: &str)
    ensures
        *final(pending) == (PendingRequests { cancellations: final(pending).cancellations, ..*old(pending) }),
        final(pending).cancellations@.drop_last() == old(pending).cancellations@,
        final(pending).cancellations@.len() == old(pending).cancellations@.len() + 1,
        final(pending).cancellations@.last()@ == id@,
{
    pending.cancellations.push(id.to_owned());
}

/// Requests a biometric authentication prompt with this reason.
pub fn authenticate_biometric(pending: &mut PendingRequests, reason: &str)
    ensures
        *final(pending) == (PendingRequests { biometrics: final(pending).biometrics, ..*old(pending) }),
        final(pending).biometrics@.drop_last() == old(pending).biometrics@,
        final(pending).biometrics@.len() == old(pending).biometrics@.len() + 1,
        final(pending).biometrics@.last()@ == reason@,
{
    pending.biometrics.push(reason.to_owned());
}

/// Asks the platform for the current state of a permission.
pub fn check_permission(pending: &mut PendingRequests, permission: PermissionKind)
    ensures
        *final(pending) == (PendingRequests { permission_checks: final(pending).permission_checks, ..*old(pending) }),
        final(pending).permission_checks@ == old(pending).permission_checks@.push(permission),
{
    pending.permission_checks.push(permission);
}

/// Asks the platform to prompt for a permission.
pub fn request_permission(pending: &mut PendingRequests, permission: PermissionKind)
    ensures
        *final(pending) == (PendingRequests { permission_requests: final(pending).permission_requests, ..*old(pending) }),
        final(pending).permission_requests@ == old(pending).permission_requests@.push(permission),
{
    pending.permission_requests.push(permission);
}

/// Registers a background task identifier with the platform scheduler.
pub fn register_background_task(pending: &mut PendingRequests, identifier: &str)
    ensures
        *final(pending) == (PendingRequests { bg_registrations: final(pending).bg_registrations, ..*old(pending) }),
        final(pending).bg_registrations@.drop_last() == old(pending).bg_registrations@,
        final(pending).bg_registrations@.len() == old(pending).bg_registrations@.len() + 1,
        final(pending).bg_registrations@.last()@ == identifier@,
{
    pending.bg_registrations.push(identifier.to_owned());
}

/// Schedules the next run of a registered background task, no earlier than `earliest_seconds` from now.
pub fn schedule_background_task(pending: &mut PendingRequests, identifier: &str, earliest_seconds: F64Bits)
    ensures
        *final(pending) == (PendingRequests { bg_schedules: final(pending).bg_schedules, ..*old(pending) }),
        final(pending).bg_schedules@.drop_last() == old(pending).bg_schedules@,
        final(pending).bg_schedules@.len() == old(pending).bg_schedules@.len() + 1,
        final(pending).bg_schedules@.last().identifier@ == identifier@,
        final(pending).bg_schedules@.last().earliest_seconds == earliest_seconds,
{
    pending.bg_schedules.push(BackgroundSchedule { identifier: identifier.to_owned(), earliest_seconds });
}

/// Copies text to the system clipboard.
pub fn set_clipboard(pending: &mut PendingRequests, text: &str)
    ensures
        *final(pending) == (PendingRequests { clipboard_writes: final(pending).clipboard_writes, ..*old(pending) }),
        final(pending).clipboard_writes@.drop_last() == old(pending).clipboard_writes@,
        final(pending).clipboard_writes@.len() == old(pending).clipboard_writes@.len() + 1,
        final(pending).clipboard_writes@.last()@ == text@,
{
    pending.clipboard_writes.push(text.to_owned());
}

/// Presents the system share sheet with this text.
pub fn share_text(pending: &mut PendingRequests, text: &str)
    ensures
        *final(pending) == (PendingRequests { share_texts: final(pending).share_texts, ..*old(pending) }),
        final(pending).share_texts@.drop_last() == old(pending).share_texts@,
        final(pending).share_texts@.len() == old(pending).share_texts@.len() + 1,
        final(pending).share_texts@.last()@ == text@,
{
    pending.share_texts.push(text.to_owned());
}

/// Opens a URL with the platform's default handler.
pub fn open_external_url(pending: &mut PendingRequests, url: &str)
    ensures
        *final(pending) == (PendingRequests { external_urls: final(pending).external_urls, ..*old(pending) }),
        final(pending).external_urls@.drop_last() == old(pending).external_urls@,
        final(pending).external_urls@.len() == old(pending).external_urls@.len() + 1,
        final(pending).external_urls@.last()@ == url@,
{
    pending.external_urls.push(url.to_owned());
}
/// With nothing queued a frame emits nothing, so a second drain right after
/// a drain returns no mutation.
pub proof fn lemma_nothing_pending_emits_nothing(p: PendingRequests)
    requires
        spec_nothing_pending(p),
    ensures
        spec_drained(p) == Seq::<Mutation>::empty(),
{
    assert(spec_drained(p) =~= Seq::<Mutation>::empty());
}

/// Requests location updates.
pub fn start_location(pending: &mut PendingRequests)
    ensures
        *final(pending) == (PendingRequests { location_start: true, ..*old(pending) }),
{
    pending.location_start = true;
}

/// Requests that location updates stop.
pub fn stop_location(pending: &mut PendingRequests)
    ensures
        *final(pending) == (PendingRequests { location_stop: true, ..*old(pending) }),
{
    pending.location_stop = true;
}

/// Requests motion-sensor updates; a later request replaces an earlier one
/// in the same frame.
pub fn start_motion(pending: &mut PendingRequests, accelerometer: bool, gyroscope: bool)
    ensures
        *final(pending) == (PendingRequests {
            motion_start: Some(MotionRequest { accelerometer, gyroscope }),
            ..*old(pending)
        }),
{
    pending.motion_start = Some(MotionRequest { accelerometer, gyroscope });
}

/// Requests that motion-sensor updates stop.
pub fn stop_motion(pending: &mut PendingRequests)
    ensures
        *final(pending) == (PendingRequests { motion_stop: true, ..*old(pending) }),
{
    pending.motion_stop = true;
}

/// Requests the torch on or off; the last request in a frame wins.
pub fn set_torch(pending: &mut PendingRequests, on: bool)
    ensures
        *final(pending) == (PendingRequests { torch: Some(on), ..*old(pending) }),
{
    pending.torch = Some(on);
}

/// Requests registration for remote push notifications.
pub fn register_for_push(pending: &mut PendingRequests)
    ensures
        *final(pending) == (PendingRequests { push_registration: true, ..*old(pending) }),
{
    pending.push_registration = true;
}

/// Requests the app-badge count; the last request in a frame wins.
pub fn set_app_badge(pending: &mut PendingRequests, count: u32)
    ensures
        *final(pending) == (PendingRequests { app_badge: Some(count), ..*old(pending) }),
{
    pending.app_badge = Some(count);
}

/// Internet reachability of the device.
#[derive(Debug, Clone, Copy, PartialEq, Eq, Hash, Structural)]
pub enum NetworkStatus {
    /// Not reported yet.
    Unknown,
    /// No connection.
    Offline,
    /// Connected over a cellular network.
    Cellular,
    /// Connected over Wi-Fi.
    WiFi,
}

/// The authorization state the platform reported for each permission, for
/// the permissions that views have asked about.
#[derive(Debug, Clone, Copy, PartialEq, Eq, Structural)]
pub struct PermissionSlots {
    /// The state of the location permission, once observed.
    pub location: Option<PermissionStatus>,
    /// The state of the camera permission, once observed.
    pub camera: Option<PermissionStatus>,
    /// The state of the microphone permission, once observed.
    pub microphone: Option<PermissionStatus>,
    /// The state of the photos permission, once observed.
    pub photos: Option<PermissionStatus>,
    /// The state of the notifications permission, once observed.
    pub notifications: Option<PermissionStatus>,
    /// The state of the motion permission, once observed.
    pub motion: Option<PermissionStatus>,
}

impl PermissionSlots {
    /// The slot of one permission.
    pub open spec fn slot(self, kind: PermissionKind) -> Option<PermissionStatus> {
        match kind {
            PermissionKind::Location => self.location,
            PermissionKind::Camera => self.camera,
            PermissionKind::Microphone => self.microphone,
            PermissionKind::Photos => self.photos,
            PermissionKind::Notifications => self.notifications,
            PermissionKind::Motion => self.motion,
        }
    }

    /// The slots with one permission's slot replaced.
    pub open spec fn with_slot(self, kind: PermissionKind, v: Option<PermissionStatus>) -> PermissionSlots {
        match kind {
            PermissionKind::Location => PermissionSlots { location: v, ..self },
            PermissionKind::Camera => PermissionSlots { camera: v, ..self },
            PermissionKind::Microphone => PermissionSlots { microphone: v, ..self },
            PermissionKind::Photos => PermissionSlots { photos: v, ..self },
            PermissionKind::Notifications => PermissionSlots { notifications: v, ..self },
            PermissionKind::Motion => PermissionSlots { motion: v, ..self },
        }
    }

    fn get(&self, kind: PermissionKind) -> (r: Option<PermissionStatus>)
        ensures
            r == self.slot(kind),
    {
        match kind {
            PermissionKind::Location => self.location,
            PermissionKind::Camera => self.camera,
            PermissionKind::Microphone => self.microphone,
            PermissionKind::Photos => self.photos,
            PermissionKind::Notifications => self.notifications,
            PermissionKind::Motion => self.motion,
        }
    }

    fn set(&mut self, kind: PermissionKind, v: Option<PermissionStatus>)
        ensures
            *final(self) == old(self).with_slot(kind, v),
    {
        match kind {
            PermissionKind::Location => self.location = v,
            PermissionKind::Camera => self.camera = v,
            PermissionKind::Microphone => self.microphone = v,
            PermissionKind::Photos => self.photos = v,
            PermissionKind::Notifications => self.notifications = v,
            PermissionKind::Motion => self.motion = v,
        }
    }
}

/// Device readings the platform pushes in. Each reading is observed only
/// once a view has asked for it: until then its slot is empty and updates
/// to it are dropped.
#[derive(Debug)]
pub struct DeviceState {
    /// Reachability, once observed.
    pub network_status: Option<NetworkStatus>,
    /// Foreground/background state, once observed.
    pub app_lifecycle: Option<Lifecycle>,
    /// The push token (`None` until registration succeeds), once observed.
    pub push_token: Option<Option<String>>,
    /// The normalized system locale tag, once observed.
    pub system_locale: Option<String>,
    /// The safe-area insets, once observed.
    pub safe_area_insets: Option<EdgeInsets>,
    /// The battery level in `0.0..=1.0`, once observed.
    pub battery_level: Option<F32Bits>,
    /// Whether the device is charging, once observed.
    pub battery_charging: Option<bool>,
    /// Permission states, once observed.
    pub permissions: PermissionSlots,
}

impl DeviceState {
    /// No reading observed yet.
    pub fn new() -> (r: DeviceState)
        ensures
            r.network_status is None,
            r.app_lifecycle is None,
            r.push_token is None,
            r.system_locale is None,
            r.safe_area_insets is None,
            r.battery_level is None,
            r.battery_charging is None,
            forall|k: PermissionKind| r.permissions.slot(k) is None,
    {
        DeviceState {
            network_status: None,
            app_lifecycle: None,
            push_token: None,
            system_locale: None,
            safe_area_insets: None,
            battery_level: None,
            battery_charging: None,
            permissions: PermissionSlots {
                location: None,
                camera: None,
                microphone: None,
                photos: None,
                notifications: None,
                motion: None,
            },
        }
    }
}

/// The observed state of a permission, starting at `Unknown`.
pub fn use_permission(device: &mut DeviceState, permission: PermissionKind) -> (r: PermissionStatus)
    ensures
        old(device).permissions.slot(permission) matches Some(s) ==> r == s && *final(device) == *old(device),
        old(device).permissions.slot(permission) is None ==> r == PermissionStatus::Unknown
            && *final(device) == (DeviceState {
                permissions: old(device).permissions.with_slot(permission, Some(PermissionStatus::Unknown)),
                ..*old(device)
            }),
{
    match device.permissions.get(permission) {
        Some(s) => s,
        None => {
            device.permissions.set(permission, Some(PermissionStatus::Unknown));
            PermissionStatus::Unknown
        },
    }
}

/// Records a permission state reported by the platform, if views observe it.
pub fn update_permission(device: &mut DeviceState, permission: PermissionKind, status: PermissionStatus)
    ensures
        old(device).permissions.slot(permission) is Some ==> *final(device) == (DeviceState {
            permissions: old(device).permissions.with_slot(permission, Some(status)),
            ..*old(device)
        }),
        old(device).permissions.slot(permission) is None ==> *final(device) == *old(device),
{
    if device.permissions.get(permission).is_some() {
        device.permissions.set(permission, Some(status));
    }
}

/// The observed push token, starting unset.
pub fn use_push_token(device: &mut DeviceState) -> (r: Option<String>)
    ensures
        old(device).push_token matches Some(t) ==> r == t && *final(device) == *old(device),
        old(device).push_token is None ==> r is None && *final(device) == (DeviceState {
            push_token: Some(None),
            ..*old(device)
        }),
{
    match &device.push_token {
        Some(t) => match t {
            Some(s) => Some(s.clone()),
            None => None,
        },
        None => {
            device.push_token = Some(None);
            None
        },
    }
}

/// Records the push token the platform obtained, if views observe it.
pub fn update_push_token(device: &mut DeviceState, token: String)
    ensures
        old(device).push_token is Some ==> *final(device) == (DeviceState {
            push_token: Some(Some(token)),
            ..*old(device)
        }),
        old(device).push_token is None ==> *final(device) == *old(device),
{
    if device.push_token.is_some() {
        device.push_token = Some(Some(token));
    }
}

/// Forgets the push token, if views observe it.
pub fn clear_push_token(device: &mut DeviceState)
    ensures
        old(device).push_token is Some ==> *final(device) == (DeviceState {
            push_token: Some(None),
            ..*old(device)
        }),
        old(device).push_token is None ==> *final(device) == *old(device),
{
    if device.push_token.is_some() {
        device.push_token = Some(None);
    }
}

/// Whether the device is charging, starting at `false`.
pub fn use_battery_charging(device: &mut DeviceState) -> (r: bool)
    ensures
        old(device).battery_charging matches Some(c) ==> r == c && *final(device) == *old(device),
        old(device).battery_charging is None ==> !r && *final(device) == (DeviceState {
            battery_charging: Some(false),
            ..*old(device)
        }),
{
    match device.battery_charging {
        Some(c) => c,
        None => {
            device.battery_charging = Some(false);
            false
        },
    }
}

/// The battery level, starting at `1.0`.
pub fn use_battery_level(device: &mut DeviceState) -> (r: F32Bits)
    ensures
        old(device).battery_level matches Some(l) ==> r == l && *final(device) == *old(device),
        old(device).battery_level is None ==> r == F32_ONE && *final(device) == (DeviceState {
            battery_level: Some(F32_ONE),
            ..*old(device)
        }),
{
    match device.battery_level {
        Some(l) => l,
        None => {
            device.battery_level = Some(F32_ONE);
            F32_ONE
        },
    }
}

/// Records a battery reading; each half lands only if views observe it.
pub fn update_battery(device: &mut DeviceState, level: F32Bits, charging: bool)
    ensures
        final(device).battery_level == (if old(device).battery_level is Some {
            Some(level)
        } else {
            None
        }),
        final(device).battery_charging == (if old(device).battery_charging is Some {
            Some(charging)
        } else {
            None
        }),
        *final(device) == (DeviceState {
            battery_level: final(device).battery_level,
            battery_charging: final(device).battery_charging,
            ..*old(device)
        }),
{
    if device.battery_level.is_some() {
        device.battery_level = Some(level);
    }
    if device.battery_charging.is_some() {
        device.battery_charging = Some(charging);
    }
}

/// The observed network reachability, starting at `Unknown`.
pub fn use_network_status(device: &mut DeviceState) -> (r: NetworkStatus)
    ensures
        old(device).network_status matches Some(s) ==> r == s && *final(device) == *old(device),
        old(device).network_status is None ==> r == NetworkStatus::Unknown && *final(device) == (
        DeviceState { network_status: Some(NetworkStatus::Unknown), ..*old(device) }),
{
    match device.network_status {
        Some(s) => s,
        None => {
            device.network_status = Some(NetworkStatus::Unknown);
            NetworkStatus::Unknown
        },
    }
}

/// Records the reachability the platform reported, if views observe it.
pub fn update_network_status(device: &mut DeviceState, status: NetworkStatus)
    ensures
        old(device).network_status is Some ==> *final(device) == (DeviceState {
            network_status: Some(status),
            ..*old(device)
        }),
        old(device).network_status is None ==> *final(device) == *old(device),
{
    if device.network_status.is_some() {
        device.network_status = Some(status);
    }
}

/// The observed app lifecycle, starting at `Resumed`.
pub fn use_app_lifecycle(device: &mut DeviceState) -> (r: Lifecycle)
    ensures
        old(device).app_lifecycle matches Some(s) ==> r == s && *final(device) == *old(device),
        old(device).app_lifecycle is None ==> r == Lifecycle::Resumed && *final(device) == (
        DeviceState { app_lifecycle: Some(Lifecycle::Resumed), ..*old(device) }),
{
    match device.app_lifecycle {
        Some(s) => s,
        None => {
            device.app_lifecycle = Some(Lifecycle::Resumed);
            Lifecycle::Resumed
        },
    }
}

/// Records the lifecycle state the platform reported, if views observe it.
pub fn update_app_lifecycle(device: &mut DeviceState, lifecycle: Lifecycle)
    ensures
        old(device).app_lifecycle is Some ==> *final(device) == (DeviceState {
            app_lifecycle: Some(lifecycle),
            ..*old(device)
        }),
        old(device).app_lifecycle is None ==> *final(device) == *old(device),
{
    if device.app_lifecycle.is_some() {
        device.app_lifecycle = Some(lifecycle);
    }
}

/// The observed safe-area insets, starting at zero.
pub fn use_safe_area_insets(device: &mut DeviceState) -> (r: EdgeInsets)
    ensures
        old(device).safe_area_insets matches Some(s) ==> r == s && *final(device) == *old(device),
        old(device).safe_area_insets is None ==> r == EdgeInsets::spec_zero() && *final(device) == (
        DeviceState { safe_area_insets: Some(EdgeInsets::spec_zero()), ..*old(device) }),
{
    match device.safe_area_insets {
        Some(s) => s,
        None => {
            let z = EdgeInsets::zero();
            device.safe_area_insets = Some(z);
            z
        },
    }
}

/// Records the safe-area insets the platform reported, if views observe them.
pub fn update_safe_area_insets(device: &mut DeviceState, insets: EdgeInsets)
    ensures
        old(device).safe_area_insets is Some ==> *final(device) == (DeviceState {
            safe_area_insets: Some(insets),
            ..*old(device)
        }),
        old(device).safe_area_insets is None ==> *final(device) == *old(device),
{
    if device.safe_area_insets.is_some() {
        device.safe_area_insets = Some(insets);
    }
}

/// The observed system locale tag. The first call normalizes and records
/// `platform_locale`, the locale the platform reports at that moment.
pub fn use_system_locale(device: &mut DeviceState, platform_locale: &str) -> (r: String)
    ensures
        old(device).system_locale matches Some(s) ==> r == s && *final(device) == *old(device),
        old(device).system_locale is None ==> r@ == spec_normalize_locale_tag(platform_locale@)
            && *final(device) == (DeviceState { system_locale: Some(r), ..*old(device) }),
{
    match &device.system_locale {
        Some(s) => s.clone(),
        None => {
            let tag = normalize_locale_tag(platform_locale);
            device.system_locale = Some(tag.clone());
            tag
        },
    }
}

/// Records a locale change reported by the platform (normalized), if views
/// observe the locale, and returns the layout direction the new locale calls
/// for, which applies either way.
pub fn update_system_locale(device: &mut DeviceState, locale: &str) -> (r: LayoutDirection)
    ensures
        old(device).system_locale is Some ==> (final(device).system_locale matches Some(s) && s@
            == spec_normalize_locale_tag(locale@)),
        *final(device) == (DeviceState { system_locale: final(device).system_locale, ..*old(device) }),
        old(device).system_locale is None ==> final(device).system_locale is None,
        r == spec_layout_direction(spec_normalize_locale_tag(locale@)),
{
    let tag = normalize_locale_tag(locale);
    let direction = layout_direction_for_locale(tag.as_str());
    if device.system_locale.is_some() {
        device.system_locale = Some(tag);
    }
    direction
}

/// The locale tag in canonical form: the part before any `.` (an encoding
/// suffix such as `.UTF-8`), trimmed, with `_` written as `-`; `"en"` when
/// nothing is left.
pub open spec fn spec_normalize_locale_tag(locale: Seq<char>) -> Seq<char> {
    let tag = spec_trim(spec_split_once(vstd::utf8::encode_utf8(locale), 46u8).0).map_values(
        |b: u8| if b == 95u8 { 45u8 } else { b },
    );
    if tag.len() == 0 {
        "en"@
    } else {
        utf8_lossy(tag)
    }
}

/// Normalizes a locale tag: drops any encoding suffix after `.`, trims it,
/// writes `_` as `-`, and falls back to `"en"` when nothing is left.
pub fn normalize_locale_tag(locale: &str) -> (r: String)
    ensures
        r@ == spec_normalize_locale_tag(locale@),
{
    let bytes = locale.as_bytes();
    let (head, _) = split_once(bytes, 46u8);
    let trimmed = trim(head);
    let mut out: Vec<u8> = Vec::new();
    let mut i: usize = 0;
    while i < trimmed.len()
        invariant
            i <= trimmed@.len(),
            out@ == trimmed@.subrange(0, i as int).map_values(|b: u8| if b == 95u8 { 45u8 } else { b }),
        decreases trimmed.len() - i,
    {
        let b = trimmed[i];
        out.push(if b == 95u8 { 45u8 } else { b });
        i = i + 1;
        assert(trimmed@.subrange(0, i as int) == trimmed@.subrange(0, i - 1).push(trimmed@[i - 1]));
    }
    assert(trimmed@.subrange(0, i as int) == trimmed@);
    if out.len() == 0 {
        "en".to_owned()
    } else {
        string_from_utf8_lossy(out.as_slice())
    }
}

/// The language subtag of a locale tag: the part before the first `-` or
/// `_`, lower-cased (ASCII).
pub open spec fn spec_language_subtag(tag: Seq<u8>) -> Seq<u8> {
    let end = match first_index_of2(tag, 45u8, 95u8, 0) {
        Some(k) => k as int,
        None => tag.len() as int,
    };
    tag.subrange(0, end).map_values(|b: u8| if 65u8 <= b <= 90u8 { (b + 32) as u8 } else { b })
}

/// Whether a language subtag names a right-to-left script language.
pub open spec fn is_rtl_language(lang: Seq<u8>) -> bool {
    ||| lang == seq![97u8, 114u8]  // "ar"
    ||| lang == seq![104u8, 101u8]  // "he"
    ||| lang == seq![102u8, 97u8]  // "fa"
    ||| lang == seq![117u8, 114u8]  // "ur"
    ||| lang == seq![121u8, 105u8]  // "yi"
    ||| lang == seq![106u8, 105u8]  // "ji"
    ||| lang == seq![105u8, 119u8]  // "iw"
    ||| lang == seq![112u8, 115u8]  // "ps"
    ||| lang == seq![115u8, 100u8]  // "sd"
    ||| lang == seq![117u8, 103u8]  // "ug"
}

/// The layout direction a locale calls for.
pub open spec fn spec_layout_direction(locale: Seq<char>) -> LayoutDirection {
    if is_rtl_language(spec_language_subtag(vstd::utf8::encode_utf8(locale))) {
        LayoutDirection::Rtl
    } else {
        LayoutDirection::Ltr
    }
}

/// Whether `lang` is the two ASCII letters `a`, `b`.
fn is_pair(lang: &[u8], a: u8, b: u8) -> (r: bool)
    ensures
        r == (lang@ == seq![a, b]),
{
    if lang.len() == 2 && lang[0] == a && lang[1] == b {
        assert(lang@ == seq![a, b]);
        true
    } else {
        false
    }
}

/// The layout direction a locale calls for: right-to-left for Arabic,
/// Hebrew, Persian, Urdu, Yiddish, Pashto, Sindhi and Uyghur.
pub fn layout_direction_for_locale(locale: &str) -> (r: LayoutDirection)
    ensures
        r == spec_layout_direction(locale@),
{
    let bytes = locale.as_bytes();
    let end = match find_either(bytes, 45u8, 95u8, 0) {
        Some(k) => k,
        None => bytes.len(),
    };
    let head = slice_range(bytes, 0, end);
    let mut lang: Vec<u8> = Vec::new();
    let mut i: usize = 0;
    while i < head.len()
        invariant
            i <= head@.len(),
            lang@ == head@.subrange(0, i as int).map_values(
                |b: u8| if 65u8 <= b <= 90u8 { (b + 32) as u8 } else { b },
            ),
        decreases head.len() - i,
    {
        let b = head[i];
        lang.push(if 65u8 <= b && b <= 90u8 { b + 32 } else { b });
        i = i + 1;
        assert(head@.subrange(0, i as int) == head@.subrange(0, i - 1).push(head@[i - 1]));
    }
    assert(head@.subrange(0, i as int) == head@);
    let l = lang.as_slice();
    if is_pair(l, 97, 114) || is_pair(l, 104, 101) || is_pair(l, 102, 97) || is_pair(l, 117, 114)
        || is_pair(l, 121, 105) || is_pair(l, 106, 105) || is_pair(l, 105, 119) || is_pair(l, 112, 115)
        || is_pair(l, 115, 100) || is_pair(l, 117, 103) {
        LayoutDirection::Rtl
    } else {
        LayoutDirection::Ltr
    }
}

/// The fill behind the app's content in the safe-area region.
#[derive(Debug, Clone, Copy, PartialEq, Eq, Hash, Structural)]
pub enum Backdrop {
    /// One color in both appearances.
    Solid(Color),
    /// A color per system appearance.
    System {
        /// Color in the light appearance.
        light: Color,
        /// Color in the dark appearance.
        dark: Color,
    },
}

/// The color a backdrop shows in an appearance.
pub open spec fn spec_resolve(backdrop: Backdrop, scheme: ColorScheme) -> Color {
    match backdrop {
        Backdrop::Solid(c) => c,
        Backdrop::System { light, dark } => if scheme == ColorScheme::Dark {
            dark
        } else {
            light
        },
    }
}

impl Backdrop {
    /// The color this backdrop shows in `scheme`.
    pub fn resolve(self, scheme: ColorScheme) -> (r: Color)
        ensures
            r == spec_resolve(self, scheme),
    {
        match self {
            Backdrop::Solid(c) => c,
            Backdrop::System { light, dark } => {
                if scheme.is_dark() {
                    dark
                } else {
                    light
                }
            },
        }
    }
}

/// The appearance state of a running app: the system color scheme and
/// contrast setting, the backdrop app code asked for, and the backdrop color
/// last sent to the platform.
#[derive(Debug, Clone, Copy, PartialEq, Eq, Structural)]
pub struct Appearance {
    /// The current system color scheme.
    pub color_scheme: ColorScheme,
    /// Whether the system asks for increased contrast.
    pub high_contrast: bool,
    /// The backdrop app code asked for, if any.
    pub backdrop: Option<Backdrop>,
    /// The backdrop color last sent to the platform, if any.
    pub last_backdrop: Option<Color>,
}

/// The backdrop color to send, if it differs from what was last sent.
pub open spec fn spec_backdrop_update(a: Appearance) -> Option<Color> {
    match a.backdrop {
        Some(b) => if a.last_backdrop == Some(spec_resolve(b, a.color_scheme)) {
            None
        } else {
            Some(spec_resolve(b, a.color_scheme))
        },
        None => None,
    }
}

/// The appearance once a refresh has sent its backdrop color, if any.
pub open spec fn spec_after_refresh(a: Appearance) -> Appearance {
    Appearance {
        last_backdrop: match spec_backdrop_update(a) {
            Some(c) => Some(c),
            None => a.last_backdrop,
        },
        ..a
    }
}

/// Refreshing twice in a row sends the backdrop at most once: right after a
/// refresh there is nothing new to send.
pub proof fn lemma_refresh_backdrop_idempotent(a: Appearance)
    ensures
        spec_backdrop_update(spec_after_refresh(a)) is None,
{
}

impl Appearance {
    /// Light appearance, normal contrast, no backdrop.
    pub fn new() -> (r: Appearance)
        ensures
            r == (Appearance {
                color_scheme: ColorScheme::Light,
                high_contrast: false,
                backdrop: None,
                last_backdrop: None,
            }),
    {
        Appearance { color_scheme: ColorScheme::Light, high_contrast: false, backdrop: None, last_backdrop: None }
    }

    /// Resolves the requested backdrop in the current scheme and returns the
    /// color to send to the platform, when it differs from the last one sent.
    pub fn refresh_backdrop(&mut self) -> (r: Option<Color>)
        ensures
            r == spec_backdrop_update(*old(self)),
            *final(self) == spec_after_refresh(*old(self)),
    {
        match self.backdrop {
            Some(b) => {
                let color = b.resolve(self.color_scheme);
                match self.last_backdrop {
                    Some(last) => {
                        if last == color {
                            return None;
                        }
                    },
                    None => {},
                }
                self.last_backdrop = Some(color);
                Some(color)
            },
            None => None,
        }
    }

    /// Switches the system color scheme; when it changes, re-resolves the
    /// backdrop and returns the color to send, if any.
    pub fn set_color_scheme(&mut self, scheme: ColorScheme) -> (r: Option<Color>)
        ensures
            scheme == old(self).color_scheme ==> r is None && *final(self) == *old(self),
            scheme != old(self).color_scheme ==> {
                let switched = Appearance { color_scheme: scheme, ..*old(self) };
                &&& r == spec_backdrop_update(switched)
                &&& *final(self) == spec_after_refresh(switched)
            },
    {
        if scheme == self.color_scheme {
            None
        } else {
            self.color_scheme = scheme;
            self.refresh_backdrop()
        }
    }

    /// Records the system's contrast setting.
    pub fn set_high_contrast(&mut self, high_contrast: bool)
        ensures
            *final(self) == (Appearance { high_contrast, ..*old(self) }),
    {
        self.high_contrast = high_contrast;
    }
}

/// Records the backdrop app code asks for; it is sent to the platform the
/// next time the appearance is refreshed.
pub fn set_backdrop(appearance: &mut Appearance, backdrop: Backdrop)
    ensures
        *final(appearance) == (Appearance { backdrop: Some(backdrop), ..*old(appearance) }),
{
    appearance.backdrop = Some(backdrop);
}

/// The current system color scheme.
pub fn use_color_scheme(appearance: &Appearance) -> (r: ColorScheme)
    ensures
        r == appearance.color_scheme,
{
    appearance.color_scheme
}

/// Whether the system currently asks for increased contrast.
pub fn use_high_contrast(appearance: &Appearance) -> (r: bool)
    ensures
        r == appearance.high_contrast,
{
    appearance.high_contrast
}

/// The frame clock: how many frames the app has ticked (wrapping), and
/// whether a view observes the count.
#[derive(Debug, Clone, Copy, PartialEq, Eq, Structural)]
pub struct FrameClock {
    /// Frames ticked so far, modulo 2^64.
    pub frame: u64,
    /// Whether a view observes the frame count.
    pub observed: bool,
}

impl FrameClock {
    /// No frame ticked yet.
    pub fn new() -> (r: FrameClock)
        ensures
            r == (FrameClock { frame: 0, observed: false }),
    {
        FrameClock { frame: 0, observed: false }
    }

    /// Ticks one frame and returns the new count.
    pub fn advance(&mut self) -> (r: u64)
        ensures
            r == (if old(self).frame == u64::MAX {
                0
            } else {
                (old(self).frame + 1) as u64
            }),
            *final(self) == (FrameClock { frame: r, ..*old(self) }),
    {
        self.frame = self.frame.wrapping_add(1);
        self.frame
    }
}

/// The number of frames ticked so far.
pub fn current_frame(clock: &FrameClock) -> (r: u64)
    ensures
        r == clock.frame,
{
    clock.frame
}

/// The frame count, as a view observes it.
pub fn use_frame_counter(clock: &mut FrameClock) -> (r: u64)
    ensures
        r == old(clock).frame,
        *final(clock) == (FrameClock { observed: true, ..*old(clock) }),
{
    clock.observed = true;
    clock.frame
}

/// A debounced value: it follows its source only once the source has held
/// the same value for a number of consecutive frames.
#[derive(Debug, Clone, Copy, PartialEq, Eq)]
pub struct Debounce<T> {
    /// The source value seen on the last frame.
    pub last: T,
    /// For how many frames since then the source has held `last`.
    pub stable: u32,
    /// The value the debounced output shows.
    pub committed: T,
    /// How many stable frames commit a new value.
    pub frames: u32,
}

/// A debounced view of a value that starts at `initial`.
pub fn debounce<T: Copy>(initial: T, frames: u32) -> (r: Debounce<T>)
    ensures
        r == (Debounce { last: initial, stable: 0, committed: initial, frames }),
{
    Debounce { last: initial, stable: 0, committed: initial, frames }
}

impl<T: Copy + PartialEq> Debounce<T> {
    /// Feeds the source value of one frame and returns the debounced value.
    pub fn observe(&mut self, current: T) -> (r: T)
        ensures
            T::obeys_eq_spec() ==> {
                let same = current.eq_spec(&old(self).last);
                let stable = if same {
                    if old(self).stable == u32::MAX {
                        u32::MAX
                    } else {
                        (old(self).stable + 1) as u32
                    }
                } else {
                    0u32
                };
                let last = if same {
                    old(self).last
                } else {
                    current
                };
                let committed = if stable >= old(self).frames {
                    last
                } else {
                    old(self).committed
                };
                &&& *final(self) == (Debounce { last, stable, committed, frames: old(self).frames })
                &&& r == committed
            },
    {
        if current == self.last {
            self.stable = self.stable.saturating_add(1);
        } else {
            self.last = current;
            self.stable = 0;
        }
        if self.stable >= self.frames {
            self.committed = self.last;
        }
        self.committed
    }
}

/// A throttled value: it follows its source at most once per window of
/// frames.
#[derive(Debug, Clone, Copy, PartialEq, Eq)]
pub struct Throttle<T> {
    /// The frame at which the value last followed its source.
    pub last_frame: u64,
    /// The value the throttled output shows.
    pub value: T,
    /// The window length in frames.
    pub frames: u32,
}

/// A throttled view of a value that starts at `initial`.
pub fn throttle<T>(initial: T, frames: u32) -> (r: Throttle<T>)
    ensures
        r == (Throttle { last_frame: 0, value: initial, frames }),
{
    Throttle { last_frame: 0, value: initial, frames }
}

/// The throttle after seeing `current` at frame `now`: it follows the source
/// when a whole window has passed since it last did.
pub open spec fn spec_throttle_step<T>(t: Throttle<T>, now: u64, current: T) -> Throttle<T> {
    if (if now >= t.last_frame { now - t.last_frame } else { 0 }) >= t.frames {
        Throttle { last_frame: now, value: current, frames: t.frames }
    } else {
        t
    }
}

/// Once a throttle has followed its source, it holds that value for the
/// rest of the window.
pub proof fn lemma_throttle_holds_within_window<T>(t: Throttle<T>, now: u64, current: T, later: u64, next: T)
    requires
        spec_throttle_step(t, now, current).last_frame == now,
        now <= later,
        later - now < t.frames,
    ensures
        spec_throttle_step(spec_throttle_step(t, now, current), later, next).value
            == spec_throttle_step(t, now, current).value,
{
}

impl<T> Throttle<T> {
    /// Feeds the source value at frame `now` and returns the throttled value.
    pub fn observe(&mut self, now: u64, current: T) -> (r: &T)
        ensures
            *final(self) == spec_throttle_step(*old(self), now, current),
            *r == final(self).value,
    {
        if now.saturating_sub(self.last_frame) >= self.frames as u64 {
            self.last_frame = now;
            self.value = current;
        }
        &self.value
    }
}

/// Saves a piece of UI state under `key`, replacing any earlier value.
pub fn save_ui_state(state: &mut StringMap, key: &str, value: &str)
    ensures
        final(state)@ == old(state)@.insert(key@, value@),
{
    state.insert(key.to_owned(), value.to_owned());
}

/// The UI state saved under `key`, if any.
pub fn restore_ui_state(state: &StringMap, key: &str) -> (r: Option<String>)
    ensures
        r matches Some(v) ==> state@.contains_key(key@) && v@ == state@[key@],
        r is None <==> !state@.contains_key(key@),
{
    match state.get(key) {
        Some(v) => Some(v.to_owned()),
        None => None,
    }
}

/// Forgets the UI state saved under `key`.
pub fn clear_ui_state(state: &mut StringMap, key: &str)
    ensures
        final(state)@ == old(state)@.remove(key@),
{
    state.remove(key);
}

/// The UI state after a run of saves and clears, in order: a pair
/// `(key, Some(value))` saves `value` under `key`, `(key, None)` clears
/// `key`.
pub open spec fn apply_ui_state_ops(
    m: Map<Seq<char>, Seq<char>>,
    ops: Seq<(Seq<char>, Option<Seq<char>>)>,
) -> Map<Seq<char>, Seq<char>>
    decreases ops.len(),
{
    if ops.len() == 0 {
        m
    } else {
        let before = apply_ui_state_ops(m, ops.drop_last());
        match ops.last().1 {
            Some(v) => before.insert(ops.last().0, v),
            None => before.remove(ops.last().0),
        }
    }
}

/// Over any run of saves and clears, restoring `key` gives what the last
/// save or clear of `key` left: its value after a save, nothing after a
/// clear; saves and clears of other keys never change it, and with none of
/// `key` it is as before the run.
pub proof fn lemma_restore_gives_last_write(
    m: Map<Seq<char>, Seq<char>>,
    ops: Seq<(Seq<char>, Option<Seq<char>>)>,
    key: Seq<char>,
)
    ensures
        (forall|j: int| 0 <= j < ops.len() ==> (#[trigger] ops[j]).0 != key) ==> (apply_ui_state_ops(m, ops).contains_key(key)
            == m.contains_key(key) && (m.contains_key(key) ==> apply_ui_state_ops(m, ops)[key] == m[key])),
        forall|i: int|
            0 <= i < ops.len() && (#[trigger] ops[i]).0 == key && (forall|j: int| i < j < ops.len() ==> (#[trigger] ops[j]).0 != key)
                ==> match ops[i].1 {
                Some(v) => apply_ui_state_ops(m, ops).contains_key(key) && apply_ui_state_ops(m, ops)[key] == v,
                None => !apply_ui_state_ops(m, ops).contains_key(key),
            },
    decreases ops.len(),
{
    if ops.len() > 0 {
        let init = ops.drop_last();
        lemma_restore_gives_last_write(m, init, key);
        assert forall|j: int| 0 <= j < init.len() implies init[j] == ops[j] by {}
        assert forall|i: int|
            0 <= i < ops.len() && (#[trigger] ops[i]).0 == key && (forall|j: int| i < j < ops.len() ==> (#[trigger] ops[j]).0 != key)
                implies match ops[i].1 {
                Some(v) => apply_ui_state_ops(m, ops).contains_key(key) && apply_ui_state_ops(m, ops)[key] == v,
                None => !apply_ui_state_ops(m, ops).contains_key(key),
            } by {
            if i < ops.len() - 1 {
                assert(ops[ops.len() - 1].0 != key);
                assert(init[i] == ops[i]);
                assert forall|j: int| i < j < init.len() implies (#[trigger] init[j]).0 != key by {
                    assert(init[j] == ops[j]);
                }
            }
        }
        if forall|j: int| 0 <= j < ops.len() ==> (#[trigger] ops[j]).0 != key {
            assert(ops[ops.len() - 1].0 != key);
            assert forall|j: int| 0 <= j < init.len() implies (#[trigger] init[j]).0 != key by {
                assert(init[j] == ops[j]);
            }
        }
    }
}

} // verus!
