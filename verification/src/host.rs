//! Shared host-session lifecycle for generated platform glue.
//!
//! Android JNI bindings, browser shims and desktop hosts all drive the same
//! loop: deliver host events, advance the app, and drain platform commands.
//! This module keeps that orchestration in one place: a registry of sessions
//! behind opaque handles, and the bridge protocol that routes requests to them.

use crate::core_types::{F32Bits, Size};
use crate::text::{decimal_chars, push_decimal};
use std::collections::BTreeMap;
use vstd::prelude::*;

verus! {

/// The version of the JSON host-bridge protocol this library speaks.
pub const HOST_BRIDGE_PROTOCOL_VERSION: u32 = 1;

#[verifier::external_type_specification]
#[verifier::external_body]
pub struct ExJsonError(serde_json::Error);

#[verifier::external_type_specification]
#[verifier::external_body]
pub struct ExJsonValue(serde_json::Value);

/// A host event payload that the driver could not decode or dispatch.
#[derive(Debug, Clone, PartialEq, Eq)]
pub struct WireProtocolError {
    /// What went wrong, as the driver reports it.
    pub message: String,
}

/// Errors surfaced by the host-session registry and bridge.
#[derive(Debug, Clone, PartialEq, Eq)]
pub enum HostSessionError {
    /// The request JSON could not be decoded.
    RequestJson(String),
    /// The request was made with a protocol version this library does not speak.
    UnsupportedBridgeVersion {
        /// The version this library speaks.
        expected: u32,
        /// The version the request carried.
        found: u32,
    },
    /// No live session has this handle.
    UnknownSession {
        /// The raw handle that was asked for.
        handle: u64,
    },
    /// The driver rejected the event payload.
    Event(WireProtocolError),
    /// The driver's command batch could not be encoded or decoded as JSON.
    CommandJson(String),
    /// The response could not be encoded as JSON.
    ResponseJson(String),
}

impl From<WireProtocolError> for HostSessionError {
    fn from(error: WireProtocolError) -> (r: HostSessionError) {
        HostSessionError::Event(error)
    }
}

impl vstd::std_specs::convert::FromSpecImpl<WireProtocolError> for HostSessionError {
    open spec fn obeys_from_spec() -> bool {
        true
    }

    open spec fn from_spec(error: WireProtocolError) -> HostSessionError {
        HostSessionError::Event(error)
    }
}

/// The human-readable text of an error.
pub open spec fn spec_error_message(e: HostSessionError) -> Seq<char> {
    match e {
        HostSessionError::RequestJson(m) => "invalid host request JSON: "@ + m@,
        HostSessionError::UnsupportedBridgeVersion { expected, found } =>
            "unsupported host bridge protocol version "@ + decimal_chars(found as nat)
                + "; expected "@ + decimal_chars(expected as nat),
        HostSessionError::UnknownSession { handle } =>
            "unknown host session handle "@ + decimal_chars(handle as nat),
        HostSessionError::Event(w) => w.message@,
        HostSessionError::CommandJson(m) => "failed to encode host command batch: "@ + m@,
        HostSessionError::ResponseJson(m) => "failed to encode host response: "@ + m@,
    }
}

impl HostSessionError {
    /// The human-readable text of this error.
    pub fn message(&self) -> (r: String)
        ensures
            r@ == spec_error_message(*self),
    {
        match self {
            HostSessionError::RequestJson(m) => {
                let mut s = "invalid host request JSON: ".to_owned();
                s.append(m.as_str());
                s
            },
            HostSessionError::UnsupportedBridgeVersion { expected, found } => {
                let mut s = "unsupported host bridge protocol version ".to_owned();
                push_decimal(&mut s, *found as u64);
                s.append("; expected ");
                push_decimal(&mut s, *expected as u64);
                s
            },
            HostSessionError::UnknownSession { handle } => {
                let mut s = "unknown host session handle ".to_owned();
                push_decimal(&mut s, *handle);
                s
            },
            HostSessionError::Event(w) => w.message.clone(),
            HostSessionError::CommandJson(m) => {
                let mut s = "failed to encode host command batch: ".to_owned();
                s.append(m.as_str());
                s
            },
            HostSessionError::ResponseJson(m) => {
                let mut s = "failed to encode host response: ".to_owned();
                s.append(m.as_str());
                s
            },
        }
    }
}

/// The text `serde_json` gives for one of its errors.
///
/// Wraps `<serde_json::Error as Display>::fmt` through `to_string`. Nothing
/// is stated of the text: the error value is opaque here, so no clause can
/// tie the text to it.
#[verifier::external_body]
fn json_error_text(error: &serde_json::Error) -> String {
    error.to_string()
}

/// Whether `text` is a complete JSON document as `serde_json` parses it.
pub uninterp spec fn is_json_text(text: Seq<char>) -> bool;

/// Parses a driver's command batch into a JSON value.
///
/// Wraps `serde_json::from_str::<serde_json::Value>`. The parse succeeds
/// exactly on the texts [`is_json_text`] names; the error text, and the
/// parsed value, are opaque here.
#[verifier::external_body]
pub(crate) fn parse_json_value(text: &str) -> (r: Result<serde_json::Value, String>)
    ensures
        r is Ok <==> is_json_text(text@),
{
    serde_json::from_str::<serde_json::Value>(text).map_err(|e| e.to_string())
}

/// Mutable access to the value under a key of a map.
///
/// Wraps `BTreeMap::get_mut`, which returns a mutable reference to the value
/// under `key` when the key is present and `None` otherwise, without
/// changing which keys are present.
#[verifier::external_body]
fn btree_get_mut<V>(map: &mut BTreeMap<u64, V>, key: u64) -> (r: Option<&mut V>)
    ensures
        r is Some <==> old(map)@.contains_key(key),
        r is None ==> final(map)@ == old(map)@,
        r matches Some(v) ==> *v == old(map)@[key] && final(map)@ == old(map)@.insert(key, *final(v)),
{
    map.get_mut(&key)
}

/// The driver side of a host session: what the platform glue implements.
///
/// A driver is modelled by the viewport it was last given, the number of
/// frames it has advanced and of drains it has served, how it answers an
/// event batch, and the command batch it has pending; an implementation
/// keeps these as its methods promise. The model's default
/// bodies leave each value unspecified; a driver written with a proof gives
/// its own.
pub trait HostDriver {
    /// The viewport the driver was last given.
    closed spec fn spec_viewport(&self) -> Size {
        arbitrary()
    }

    /// How many frames the driver has advanced.
    closed spec fn spec_ticks(&self) -> nat {
        arbitrary()
    }

    /// How many times the driver's commands have been drained.
    closed spec fn spec_drains(&self) -> nat {
        arbitrary()
    }

    /// How the driver answers the event batch `payload` in its present
    /// state.
    closed spec fn spec_dispatch(&self, payload: Seq<char>) -> Result<(), WireProtocolError> {
        arbitrary()
    }

    /// Advances the app by one frame.
    fn tick(&mut self)
        ensures
            final(self).spec_ticks() == old(self).spec_ticks() + 1,
            final(self).spec_viewport() == old(self).spec_viewport(),
            final(self).spec_drains() == old(self).spec_drains(),
    ;

    /// Resizes the app's viewport.
    fn set_viewport(&mut self, viewport: Size)
        ensures
            final(self).spec_viewport() == viewport,
            final(self).spec_ticks() == old(self).spec_ticks(),
            final(self).spec_drains() == old(self).spec_drains(),
    ;

    /// Dispatches a JSON batch of host events, in order.
    fn dispatch_wire_event_batch_json(&self, payload: &str) -> (r: Result<(), WireProtocolError>)
        ensures
            r == self.spec_dispatch(payload@),
    ;

    /// The platform commands pending in the driver, as the JSON text its
    /// drain gives; `None` when the drain fails.
    closed spec fn spec_drain(&self) -> Option<Seq<char>> {
        arbitrary()
    }

    /// Drains the pending platform commands as a JSON batch: the pending
    /// batch, or an error exactly when there is none to give. The viewport
    /// and the frame count are kept and one more drain is counted; what
    /// stays pending afterwards is the driver's.
    fn drain_command_batch_json(&mut self) -> (r: Result<String, serde_json::Error>)
        ensures
            r is Ok <==> old(self).spec_drain() is Some,
            r matches Ok(s) ==> s@ == old(self).spec_drain()->0,
            final(self).spec_viewport() == old(self).spec_viewport(),
            final(self).spec_ticks() == old(self).spec_ticks(),
            final(self).spec_drains() == old(self).spec_drains() + 1,
    ;
}

/// One app session driven by a host.
pub struct HostSession<D> {
    driver: D,
}

impl<D> HostSession<D> {
    /// The driver behind this session.
    pub closed spec fn spec_driver(self) -> D {
        self.driver
    }

    /// A session around `driver`.
    pub fn new(driver: D) -> (r: HostSession<D>)
        ensures
            r.spec_driver() == driver,
    {
        HostSession { driver }
    }

    /// The driver behind this session.
    pub fn driver(&self) -> (r: &D)
        ensures
            *r == self.spec_driver(),
    {
        &self.driver
    }

    /// Mutable access to the driver behind this session.
    pub fn driver_mut(&mut self) -> (r: &mut D)
        ensures
            *r == old(self).spec_driver(),
            final(self).spec_driver() == *final(r),
    {
        &mut self.driver
    }

    /// The driver behind this session, ending the session.
    pub fn into_driver(self) -> (r: D)
        ensures
            r == self.spec_driver(),
    {
        self.driver
    }
}

/// The driver after one more frame: ticks counted up, viewport and drains
/// kept.
pub open spec fn ticked<D: HostDriver>(before: D, after: D) -> bool {
    &&& after.spec_ticks() == before.spec_ticks() + 1
    &&& after.spec_viewport() == before.spec_viewport()
    &&& after.spec_drains() == before.spec_drains()
}

/// The driver after a resize to `viewport`: no frame advanced.
pub open spec fn resized<D: HostDriver>(before: D, after: D, viewport: Size) -> bool {
    &&& after.spec_viewport() == viewport
    &&& after.spec_ticks() == before.spec_ticks()
    &&& after.spec_drains() == before.spec_drains()
}

/// The driver after a resize to `viewport` and one more frame.
pub open spec fn resized_and_ticked<D: HostDriver>(before: D, after: D, viewport: Size) -> bool {
    &&& after.spec_viewport() == viewport
    &&& after.spec_ticks() == before.spec_ticks() + 1
    &&& after.spec_drains() == before.spec_drains()
}

/// The driver after one drain: viewport and frame count kept, one more
/// drain counted.
pub open spec fn drained<D: HostDriver>(before: D, after: D) -> bool {
    &&& after.spec_viewport() == before.spec_viewport()
    &&& after.spec_ticks() == before.spec_ticks()
    &&& after.spec_drains() == before.spec_drains() + 1
}

/// What a driver's drain gives, for a driver whose pending batch is
/// `pending`: that text, or an error when there is none.
pub open spec fn session_drain(pending: Option<Seq<char>>, r: Result<String, serde_json::Error>) -> bool {
    match pending {
        Some(t) => r matches Ok(s) && s@ == t,
        None => r is Err,
    }
}

/// What a session's drain answers, for a driver whose pending batch is
/// `pending`: that text, or a `CommandJson` error when there is none.
pub open spec fn drain_answer(pending: Option<Seq<char>>, r: Result<String, HostSessionError>) -> bool {
    match pending {
        Some(t) => r matches Ok(s) && s@ == t,
        None => r matches Err(HostSessionError::CommandJson(_)),
    }
}

/// The driver went from `before` through one more frame to `mid`, drained
/// there, and ended at `after`.
pub open spec fn ticked_then_drained<D: HostDriver>(before: D, mid: D, after: D) -> bool {
    &&& ticked(before, mid)
    &&& drained(mid, after)
}

/// What a dispatch–tick–drain round trip owes, over the driver before and
/// after and its result: a rejected batch is the `Event` error carrying the
/// driver's error, with the driver unchanged; an accepted one advances one
/// frame and answers the batch pending after that frame (its text, or a
/// `CommandJson` error when there is none).
pub open spec fn round_trip_outcome<D: HostDriver>(
    before: D,
    after: D,
    payload: Seq<char>,
    r: Result<String, HostSessionError>,
) -> bool {
    match before.spec_dispatch(payload) {
        Err(e) => r == Err::<String, HostSessionError>(HostSessionError::Event(e)) && after == before,
        Ok(()) => exists|mid: D|
            #![trigger mid.spec_drain()]
            ticked_then_drained(before, mid, after) && drain_answer(mid.spec_drain(), r),
    }
}

impl<D: HostDriver> HostSession<D> {
    /// Advances the app by one frame.
    pub fn tick(&mut self)
        ensures
            ticked(old(self).spec_driver(), final(self).spec_driver()),
    {
        self.driver.tick();
    }

    /// Resizes the app's viewport.
    pub fn set_viewport(&mut self, viewport: Size)
        ensures
            resized(old(self).spec_driver(), final(self).spec_driver(), viewport),
    {
        self.driver.set_viewport(viewport);
    }

    /// Resizes the app's viewport to `width` × `height` logical pixels.
    pub fn set_viewport_size(&mut self, width: F32Bits, height: F32Bits)
        ensures
            resized(old(self).spec_driver(), final(self).spec_driver(), Size { width, height }),
    {
        self.set_viewport(Size::new(width, height));
    }

    /// Dispatches a JSON batch of host events.
    pub fn dispatch_event_batch_json(&self, payload: &str) -> (r: Result<(), WireProtocolError>)
        ensures
            r == self.spec_driver().spec_dispatch(payload@),
    {
        self.driver.dispatch_wire_event_batch_json(payload)
    }

    /// Drains the pending platform commands as a JSON batch.
    pub fn drain_command_batch_json(&mut self) -> (r: Result<String, serde_json::Error>)
        ensures
            session_drain(old(self).spec_driver().spec_drain(), r),
            drained(old(self).spec_driver(), final(self).spec_driver()),
    {
        self.driver.drain_command_batch_json()
    }

    /// Advances one frame, then drains the pending platform commands.
    pub fn tick_and_drain_command_batch_json(&mut self) -> (r: Result<String, serde_json::Error>)
        ensures
            exists|mid: D|
                #![trigger mid.spec_drain()]
                ticked_then_drained(old(self).spec_driver(), mid, final(self).spec_driver())
                    && session_drain(mid.spec_drain(), r),
    {
        self.tick();
        let ghost mid = self.driver;
        let r = self.drain_command_batch_json();
        assert(ticked_then_drained(old(self).spec_driver(), mid, self.spec_driver())
            && session_drain(mid.spec_drain(), r));
        r
    }

    /// Dispatches a JSON batch of host events, advances one frame, and drains
    /// the pending platform commands. A rejected event batch stops the round
    /// trip before the frame.
    pub fn dispatch_events_tick_and_drain_command_batch_json(&mut self, payload: &str) -> (r: Result<
        String,
        HostSessionError,
    >)
        ensures
            round_trip_outcome(old(self).spec_driver(), final(self).spec_driver(), payload@, r),
    {
        match self.dispatch_event_batch_json(payload) {
            Err(e) => Err(HostSessionError::Event(e)),
            Ok(()) => drain_outcome(self.tick_and_drain_command_batch_json()),
        }
    }

    /// Resizes the viewport, advances one frame, and drains the pending
    /// platform commands.
    pub fn resize_tick_and_drain_command_batch_json(&mut self, width: F32Bits, height: F32Bits) -> (r:
        Result<String, serde_json::Error>)
        ensures
            exists|mid: D|
                #![trigger mid.spec_drain()]
                resized_and_ticked(old(self).spec_driver(), mid, Size { width, height })
                    && drained(mid, final(self).spec_driver()) && session_drain(mid.spec_drain(), r),
    {
        self.set_viewport_size(width, height);
        self.tick();
        let ghost mid = self.driver;
        let r = self.drain_command_batch_json();
        assert(resized_and_ticked(old(self).spec_driver(), mid, Size { width, height })
            && drained(mid, self.spec_driver()) && session_drain(mid.spec_drain(), r));
        r
    }
}

/// What a registry answers for a session's answer to an event batch: the
/// driver's error becomes the `Event` error.
pub open spec fn dispatch_answer(answer: Result<(), WireProtocolError>) -> Result<(), HostSessionError> {
    match answer {
        Ok(()) => Ok(()),
        Err(e) => Err(HostSessionError::Event(e)),
    }
}

/// What a round trip answers once the driver's drain ran: the drained text,
/// or a `CommandJson` error carrying the text of the drain's error.
pub fn drain_outcome(drained: Result<String, serde_json::Error>) -> (r: Result<String, HostSessionError>)
    ensures
        drained matches Ok(json) ==> r == Ok::<String, HostSessionError>(json),
        drained is Err ==> r matches Err(HostSessionError::CommandJson(_)),
{
    match drained {
        Ok(json) => Ok(json),
        Err(e) => Err(HostSessionError::CommandJson(json_error_text(&e))),
    }
}

/// An opaque, JNI-safe handle to a session in a [`HostSessionRegistry`].
#[derive(Debug, Clone, Copy, PartialEq, Eq, PartialOrd, Ord, Hash, Structural)]
pub struct HostSessionHandle(u64);

impl HostSessionHandle {
    /// The raw value of this handle.
    pub closed spec fn spec_raw(self) -> u64 {
        self.0
    }

    /// The handle with raw value `raw`.
    pub fn from_raw(raw: u64) -> (r: HostSessionHandle)
        ensures
            r.spec_raw() == raw,
    {
        HostSessionHandle(raw)
    }

    /// The raw value of this handle.
    pub fn to_raw(self) -> (r: u64)
        ensures
            r == self.spec_raw(),
    {
        self.0
    }
}

/// Two handles with the same raw value are the same handle.
pub proof fn lemma_handle_raw_injective(a: HostSessionHandle, b: HostSessionHandle)
    requires
        a.spec_raw() == b.spec_raw(),
    ensures
        a == b,
{
}

/// The handle that follows `raw` in allocation order: handles run from 1 to
/// `u64::MAX` and wrap back to 1.
pub open spec fn successor_handle(raw: u64) -> u64 {
    if raw == u64::MAX {
        1
    } else {
        (raw + 1) as u64
    }
}

/// The position of `x` in the allocation cycle that starts at `start`.
pub open spec fn cycle_distance(start: u64, x: u64) -> int {
    if x >= start {
        x - start
    } else {
        x + u64::MAX - start
    }
}

/// Where allocation resumes when the stored cursor is `next`.
pub open spec fn allocation_start(next: u64) -> u64 {
    if next == 0 {
        1
    } else {
        next
    }
}

/// The handle that allocation hands out from cursor `next` over the
/// sessions `live`: the first handle, in cycle order from
/// [`allocation_start`], that is not live.
pub open spec fn allocated_handle(next: u64, live: Set<u64>, h: u64) -> bool {
    &&& 1 <= h
    &&& !live.contains(h)
    &&& forall|x: u64|
        1 <= x && cycle_distance(allocation_start(next), x) < cycle_distance(allocation_start(next), h)
            ==> #[trigger] live.contains(x)
}

/// A handle that allocation hands out is never one of a live session, and
/// never 0.
pub proof fn lemma_allocated_handle_is_fresh(next: u64, live: Set<u64>, h: u64)
    requires
        allocated_handle(next, live, h),
    ensures
        !live.contains(h),
        h != 0,
{
}

/// With no live session, allocation hands out the cursor itself: a new
/// registry hands out 1, then 2, and so on.
pub proof fn lemma_allocation_without_sessions(next: u64, h: u64)
    requires
        allocated_handle(next, Set::empty(), h),
    ensures
        h == allocation_start(next),
{
    let s = allocation_start(next);
    if h != s {
        assert(cycle_distance(s, s) == 0);
        assert(cycle_distance(s, s) < cycle_distance(s, h));
        assert(Set::<u64>::empty().contains(s));
    }
}

/// Removing the session that was just inserted under a fresh handle gives
/// back the registry as it was.
pub proof fn lemma_remove_undoes_insert<D>(m: Map<u64, HostSession<D>>, h: u64, s: HostSession<D>)
    requires
        !m.contains_key(h),
    ensures
        m.insert(h, s).remove(h) == m,
{
    assert(m.insert(h, s).remove(h) =~= m);
}

/// A registry of host sessions behind opaque handles.
pub struct HostSessionRegistry<D> {
    next_handle: u64,
    sessions: BTreeMap<u64, HostSession<D>>,
}

impl<D> View for HostSessionRegistry<D> {
    type V = Map<u64, HostSession<D>>;

    closed spec fn view(&self) -> Map<u64, HostSession<D>> {
        self.sessions@
    }
}

impl<D> HostSessionRegistry<D> {
    /// The allocation cursor: where the search for the next free handle starts.
    pub closed spec fn spec_next_handle(&self) -> u64 {
        self.next_handle
    }

    /// An empty registry; the first handle it hands out is 1.
    pub fn new() -> (r: HostSessionRegistry<D>)
        ensures
            r@ == Map::<u64, HostSession<D>>::empty(),
            r.spec_next_handle() == 1,
    {
        HostSessionRegistry { next_handle: 1, sessions: BTreeMap::new() }
    }

    /// Adds a session under a fresh handle and returns the handle.
    pub fn insert_session(&mut self, session: HostSession<D>) -> (h: HostSessionHandle)
        requires
            old(self)@.len() < u64::MAX,
        ensures
            allocated_handle(old(self).spec_next_handle(), old(self)@.dom(), h.spec_raw()),
            final(self)@ == old(self)@.insert(h.spec_raw(), session),
            final(self).spec_next_handle() == successor_handle(h.spec_raw()),
    {
        let raw = self.allocate_handle();
        self.sessions.insert(raw, session);
        HostSessionHandle(raw)
    }

    /// Adds a session around `driver` under a fresh handle.
    pub fn insert_driver(&mut self, driver: D) -> (h: HostSessionHandle)
        requires
            old(self)@.len() < u64::MAX,
        ensures
            allocated_handle(old(self).spec_next_handle(), old(self)@.dom(), h.spec_raw()),
            final(self)@ == old(self)@.insert(h.spec_raw(), final(self)@[h.spec_raw()]),
            final(self)@[h.spec_raw()].spec_driver() == driver,
            final(self).spec_next_handle() == successor_handle(h.spec_raw()),
    {
        self.insert_session(HostSession::new(driver))
    }

    /// Removes and returns the session behind `handle`, if it is live.
    pub fn remove(&mut self, handle: HostSessionHandle) -> (r: Option<HostSession<D>>)
        ensures
            final(self)@ == old(self)@.remove(handle.spec_raw()),
            final(self).spec_next_handle() == old(self).spec_next_handle(),
            r == (if old(self)@.contains_key(handle.spec_raw()) {
                Some(old(self)@[handle.spec_raw()])
            } else {
                None
            }),
    {
        let raw = handle.0;
        self.sessions.remove(&raw)
    }

    /// Whether `handle` names a live session.
    pub fn contains(&self, handle: HostSessionHandle) -> (r: bool)
        ensures
            r == self@.contains_key(handle.spec_raw()),
    {
        let raw = handle.0;
        self.sessions.contains_key(&raw)
    }

    /// Number of live sessions.
    pub fn len(&self) -> (r: usize)
        ensures
            r == self@.len(),
            self@.dom().finite(),
    {
        self.sessions.len()
    }

    /// Whether no session is live.
    pub fn is_empty(&self) -> (r: bool)
        ensures
            r == (self@.len() == 0),
    {
        proof {
            if self@.len() == 0 {
                assert(self@.dom() =~= Set::empty());
            }
        }
        self.sessions.is_empty()
    }

    /// The session behind `handle`, if it is live.
    pub fn get(&self, handle: HostSessionHandle) -> (r: Option<&HostSession<D>>)
        ensures
            r matches Some(s) ==> self@.contains_key(handle.spec_raw()) && *s == self@[handle.spec_raw()],
            r is None <==> !self@.contains_key(handle.spec_raw()),
    {
        let raw = handle.0;
        self.sessions.get(&raw)
    }

    /// Mutable access to the session behind `handle`, if it is live.
    pub fn get_mut(&mut self, handle: HostSessionHandle) -> (r: Option<&mut HostSession<D>>)
        ensures
            r is Some <==> old(self)@.contains_key(handle.spec_raw()),
            r is None ==> final(self)@ == old(self)@,
            r matches Some(s) ==> *s == old(self)@[handle.spec_raw()] && final(self)@ == old(
                self,
            )@.insert(handle.spec_raw(), *final(s)),
            final(self).spec_next_handle() == old(self).spec_next_handle(),
    {
        btree_get_mut(&mut self.sessions, handle.0)
    }

    /// Finds the first free handle from the allocation cursor on, and moves the
    /// cursor past it.
    fn allocate_handle(&mut self) -> (h: u64)
        requires
            old(self)@.len() < u64::MAX,
        ensures
            allocated_handle(old(self).spec_next_handle(), old(self)@.dom(), h),
            final(self)@ == old(self)@,
            final(self).spec_next_handle() == successor_handle(h),
    {
        let ghost live = self@.dom();
        let ghost start = allocation_start(self.next_handle);
        let ghost mut tried: Set<u64> = Set::empty();
        let ghost mut count: nat = 0;
        proof {
            assert(self@.dom().finite());
        }
        loop
            invariant
                self@ == old(self)@,
                live == old(self)@.dom(),
                live.finite(),
                live.len() < u64::MAX,
                start == allocation_start(old(self).next_handle),
                1 <= start,
                tried.finite(),
                tried.len() == count,
                tried.subset_of(live),
                count < u64::MAX,
                cycle_distance(start, allocation_start(self.next_handle)) == count,
                forall|x: u64| #[trigger]
                    tried.contains(x) <==> (1 <= x && cycle_distance(start, x) < count),
            decreases u64::MAX - count,
        {
            let raw: u64 = if self.next_handle > 1 { self.next_handle } else { 1 };
            self.next_handle = match raw.checked_add(1) {
                Some(n) => n,
                None => 1,
            };
            if !self.sessions.contains_key(&raw) {
                assert forall|x: u64|
                    1 <= x && cycle_distance(start, x) < cycle_distance(start, raw)
                        implies #[trigger] live.contains(x) by {
                    assert(tried.contains(x));
                }
                return raw;
            }
            proof {
                assert(!tried.contains(raw));
                let new_tried = tried.insert(raw);
                assert forall|x: u64| #[trigger]
                    new_tried.contains(x) <==> (1 <= x && cycle_distance(start, x) < count + 1) by {
                    if 1 <= x && cycle_distance(start, x) == count {
                        assert(x == raw);
                    }
                }
                vstd::set_lib::lemma_len_subset(new_tried, live);
                tried = new_tried;
                count = count + 1;
            }
        }
    }
}

impl<D> Default for HostSessionRegistry<D> {
    fn default() -> (r: Self)
        ensures
            r@ == Map::<u64, HostSession<D>>::empty(),
            r.spec_next_handle() == 1,
    {
        Self::new()
    }
}

/// `new` is `old` with the session behind `raw` possibly changed: the same
/// live handles, and every other session untouched.
pub open spec fn same_sessions_except<D>(
    old: Map<u64, HostSession<D>>,
    new: Map<u64, HostSession<D>>,
    raw: u64,
) -> bool {
    &&& new.dom() == old.dom()
    &&& forall|k: u64| k != raw && #[trigger] old.contains_key(k) ==> new[k] == old[k]
}

/// What a registry operation on `raw` owes when the handle is not live: the
/// `UnknownSession` error, and the sessions untouched.
pub open spec fn unknown_session_outcome<D, T>(
    old: Map<u64, HostSession<D>>,
    new: Map<u64, HostSession<D>>,
    raw: u64,
    r: Result<T, HostSessionError>,
) -> bool {
    !old.contains_key(raw) ==> r == Err::<T, HostSessionError>(
        HostSessionError::UnknownSession { handle: raw },
    ) && new == old
}

/// Removing a handle that is not live leaves the sessions as they were.
proof fn lemma_remove_absent<D>(m: Map<u64, HostSession<D>>, raw: u64)
    requires
        !m.contains_key(raw),
    ensures
        m.remove(raw) == m,
{
    assert(m.remove(raw) =~= m);
}

/// Taking a live session out and putting one back under the same handle
/// changes only that session.
proof fn lemma_remove_insert<D>(m: Map<u64, HostSession<D>>, raw: u64, s: HostSession<D>)
    requires
        m.contains_key(raw),
    ensures
        same_sessions_except(m, m.remove(raw).insert(raw, s), raw),
{
    assert(m.remove(raw).insert(raw, s).dom() =~= m.dom());
}

impl<D: HostDriver> HostSessionRegistry<D> {
    /// Advances the session behind `handle` by one frame.
    pub fn tick(&mut self, handle: HostSessionHandle) -> (r: Result<(), HostSessionError>)
        ensures
            unknown_session_outcome(old(self)@, final(self)@, handle.spec_raw(), r),
            old(self)@.contains_key(handle.spec_raw()) ==> r is Ok,
            old(self)@.contains_key(handle.spec_raw()) ==> ticked(
                old(self)@[handle.spec_raw()].spec_driver(),
                final(self)@[handle.spec_raw()].spec_driver(),
            ),
            same_sessions_except(old(self)@, final(self)@, handle.spec_raw()),
            final(self).spec_next_handle() == old(self).spec_next_handle(),
    {
        let raw = handle.0;
        let ghost before = self@;
        match self.sessions.remove(&raw) {
            None => {
                proof {
                    lemma_remove_absent(before, raw);
                }
                Err(HostSessionError::UnknownSession { handle: raw })
            },
            Some(mut session) => {
                session.tick();
                self.sessions.insert(raw, session);
                proof {
                    lemma_remove_insert(before, raw, self@[raw]);
                }
                Ok(())
            },
        }
    }

    /// Resizes the viewport of the session behind `handle`.
    pub fn set_viewport_size(&mut self, handle: HostSessionHandle, width: F32Bits, height: F32Bits) -> (r:
        Result<(), HostSessionError>)
        ensures
            unknown_session_outcome(old(self)@, final(self)@, handle.spec_raw(), r),
            old(self)@.contains_key(handle.spec_raw()) ==> r is Ok,
            old(self)@.contains_key(handle.spec_raw()) ==> resized(
                old(self)@[handle.spec_raw()].spec_driver(),
                final(self)@[handle.spec_raw()].spec_driver(),
                Size { width, height },
            ),
            same_sessions_except(old(self)@, final(self)@, handle.spec_raw()),
            final(self).spec_next_handle() == old(self).spec_next_handle(),
    {
        let raw = handle.0;
        let ghost before = self@;
        match self.sessions.remove(&raw) {
            None => {
                proof {
                    lemma_remove_absent(before, raw);
                }
                Err(HostSessionError::UnknownSession { handle: raw })
            },
            Some(mut session) => {
                session.set_viewport_size(width, height);
                self.sessions.insert(raw, session);
                proof {
                    lemma_remove_insert(before, raw, self@[raw]);
                }
                Ok(())
            },
        }
    }

    /// Dispatches a JSON batch of host events to the session behind `handle`.
    pub fn dispatch_event_batch_json(&self, handle: HostSessionHandle, payload: &str) -> (r: Result<
        (),
        HostSessionError,
    >)
        ensures
            unknown_session_outcome(self@, self@, handle.spec_raw(), r),
            self@.contains_key(handle.spec_raw()) ==> r == dispatch_answer(
                self@[handle.spec_raw()].spec_driver().spec_dispatch(payload@),
            ),
    {
        let raw = handle.0;
        match self.sessions.get(&raw) {
            None => Err(HostSessionError::UnknownSession { handle: raw }),
            Some(session) => match session.dispatch_event_batch_json(payload) {
                Ok(()) => Ok(()),
                Err(e) => Err(HostSessionError::Event(e)),
            },
        }
    }

    /// Drains the pending platform commands of the session behind `handle`:
    /// the batch pending in its driver, or a `CommandJson` error when there
    /// is none.
    pub fn drain_command_batch_json(&mut self, handle: HostSessionHandle) -> (r: Result<
        String,
        HostSessionError,
    >)
        ensures
            unknown_session_outcome(old(self)@, final(self)@, handle.spec_raw(), r),
            old(self)@.contains_key(handle.spec_raw()) ==> drain_answer(
                old(self)@[handle.spec_raw()].spec_driver().spec_drain(),
                r,
            ) && drained(
                old(self)@[handle.spec_raw()].spec_driver(),
                final(self)@[handle.spec_raw()].spec_driver(),
            ),
            same_sessions_except(old(self)@, final(self)@, handle.spec_raw()),
            final(self).spec_next_handle() == old(self).spec_next_handle(),
    {
        let raw = handle.0;
        let ghost before = self@;
        match self.sessions.remove(&raw) {
            None => {
                proof {
                    lemma_remove_absent(before, raw);
                }
                Err(HostSessionError::UnknownSession { handle: raw })
            },
            Some(mut session) => {
                let drained = session.drain_command_batch_json();
                self.sessions.insert(raw, session);
                proof {
                    lemma_remove_insert(before, raw, self@[raw]);
                }
                drain_outcome(drained)
            },
        }
    }

    /// Advances the session behind `handle` by one frame and drains its
    /// pending platform commands: the batch pending after that frame.
    pub fn tick_and_drain_command_batch_json(&mut self, handle: HostSessionHandle) -> (r: Result<
        String,
        HostSessionError,
    >)
        ensures
            unknown_session_outcome(old(self)@, final(self)@, handle.spec_raw(), r),
            old(self)@.contains_key(handle.spec_raw()) ==> exists|mid: D|
                #![trigger mid.spec_drain()]
                ticked_then_drained(
                    old(self)@[handle.spec_raw()].spec_driver(),
                    mid,
                    final(self)@[handle.spec_raw()].spec_driver(),
                ) && drain_answer(mid.spec_drain(), r),
            same_sessions_except(old(self)@, final(self)@, handle.spec_raw()),
            final(self).spec_next_handle() == old(self).spec_next_handle(),
    {
        let raw = handle.0;
        let ghost before = self@;
        match self.sessions.remove(&raw) {
            None => {
                proof {
                    lemma_remove_absent(before, raw);
                }
                Err(HostSessionError::UnknownSession { handle: raw })
            },
            Some(mut session) => {
                let drained = session.tick_and_drain_command_batch_json();
                self.sessions.insert(raw, session);
                proof {
                    lemma_remove_insert(before, raw, self@[raw]);
                }
                drain_outcome(drained)
            },
        }
    }

    /// Dispatches events to the session behind `handle`, advances it one
    /// frame, and drains its pending platform commands.
    pub fn dispatch_events_tick_and_drain_command_batch_json(
        &mut self,
        handle: HostSessionHandle,
        payload: &str,
    ) -> (r: Result<String, HostSessionError>)
        ensures
            unknown_session_outcome(old(self)@, final(self)@, handle.spec_raw(), r),
            old(self)@.contains_key(handle.spec_raw()) ==> round_trip_outcome(
                old(self)@[handle.spec_raw()].spec_driver(),
                final(self)@[handle.spec_raw()].spec_driver(),
                payload@,
                r,
            ),
            same_sessions_except(old(self)@, final(self)@, handle.spec_raw()),
            final(self).spec_next_handle() == old(self).spec_next_handle(),
    {
        let raw = handle.0;
        let ghost before = self@;
        match self.sessions.remove(&raw) {
            None => {
                proof {
                    lemma_remove_absent(before, raw);
                }
                Err(HostSessionError::UnknownSession { handle: raw })
            },
            Some(mut session) => {
                let r = session.dispatch_events_tick_and_drain_command_batch_json(payload);
                self.sessions.insert(raw, session);
                proof {
                    lemma_remove_insert(before, raw, self@[raw]);
                }
                r
            },
        }
    }

    /// Resizes the session behind `handle`, advances it one frame, and drains
    /// its pending platform commands.
    pub fn resize_tick_and_drain_command_batch_json(
        &mut self,
        handle: HostSessionHandle,
        width: F32Bits,
        height: F32Bits,
    ) -> (r: Result<String, HostSessionError>)
        ensures
            unknown_session_outcome(old(self)@, final(self)@, handle.spec_raw(), r),
            old(self)@.contains_key(handle.spec_raw()) ==> exists|mid: D|
                #![trigger mid.spec_drain()]
                resized_and_ticked(old(self)@[handle.spec_raw()].spec_driver(), mid, Size { width, height })
                    && drained(mid, final(self)@[handle.spec_raw()].spec_driver()) && drain_answer(
                    mid.spec_drain(),
                    r,
                ),
            same_sessions_except(old(self)@, final(self)@, handle.spec_raw()),
            final(self).spec_next_handle() == old(self).spec_next_handle(),
    {
        let raw = handle.0;
        let ghost before = self@;
        match self.sessions.remove(&raw) {
            None => {
                proof {
                    lemma_remove_absent(before, raw);
                }
                Err(HostSessionError::UnknownSession { handle: raw })
            },
            Some(mut session) => {
                let drained = session.resize_tick_and_drain_command_batch_json(width, height);
                self.sessions.insert(raw, session);
                proof {
                    lemma_remove_insert(before, raw, self@[raw]);
                }
                drain_outcome(drained)
            },
        }
    }

    /// Routes one bridge request to the session it names.
    #[verifier::rlimit(30)]
    pub fn handle_request(&mut self, request: HostBridgeRequest) -> (r: Result<
        HostBridgeResponse,
        HostSessionError,
    >)
        ensures
            request_outcome(old(self)@, final(self)@, request, r),
            final(self).spec_next_handle() == old(self).spec_next_handle(),
    {
        match request {
            HostBridgeRequest::Destroy { handle } => {
                let handle = HostSessionHandle::from_raw(handle);
                if !self.contains(handle) {
                    return Err(HostSessionError::UnknownSession { handle: handle.to_raw() });
                }
                self.remove(handle);
                Ok(HostBridgeResponse::Destroyed { handle: handle.to_raw() })
            },
            HostBridgeRequest::SetViewport { handle, width, height } => {
                match self.set_viewport_size(HostSessionHandle::from_raw(handle), width, height) {
                    Ok(()) => Ok(HostBridgeResponse::Acknowledged),
                    Err(e) => Err(e),
                }
            },
            HostBridgeRequest::DispatchEventBatch { handle, batch } => {
                match self.dispatch_event_batch_json(HostSessionHandle::from_raw(handle), batch.as_str()) {
                    Ok(()) => Ok(HostBridgeResponse::Acknowledged),
                    Err(e) => Err(e),
                }
            },
            HostBridgeRequest::DrainCommandBatch { handle } => {
                match self.drain_command_batch_json(HostSessionHandle::from_raw(handle)) {
                    drained => command_batch_response(drained),
                }
            },
            HostBridgeRequest::TickAndDrainCommandBatch { handle } => {
                match self.tick_and_drain_command_batch_json(HostSessionHandle::from_raw(handle)) {
                    drained => command_batch_response(drained),
                }
            },
            HostBridgeRequest::DispatchEventsTickAndDrainCommandBatch { handle, batch } => {
                match self.dispatch_events_tick_and_drain_command_batch_json(
                    HostSessionHandle::from_raw(handle),
                    batch.as_str(),
                ) {
                    drained => command_batch_response(drained),
                }
            },
            HostBridgeRequest::ResizeTickAndDrainCommandBatch { handle, width, height } => {
                match self.resize_tick_and_drain_command_batch_json(
                    HostSessionHandle::from_raw(handle),
                    width,
                    height,
                ) {
                    drained => command_batch_response(drained),
                }
            },
        }
    }

    /// Handles a bridge request that arrived as JSON, given the outcome of
    /// decoding it (`Err` carries the decoder's message).
    pub fn handle_decoded_request(&mut self, decoded: Result<HostBridgeJsonRequest, String>) -> (r:
        Result<HostBridgeResponse, HostSessionError>)
        ensures
            decoded_request_outcome(old(self)@, final(self)@, decoded, r),
            final(self).spec_next_handle() == old(self).spec_next_handle(),
    {
        match decoded {
            Err(message) => Err(HostSessionError::RequestJson(message)),
            Ok(request) => {
                match request.ensure_supported() {
                    Err(e) => Err(e),
                    Ok(()) => self.handle_request(request.request),
                }
            },
        }
    }

    /// Handles a bridge request that arrived as JSON, given the outcome of
    /// decoding it, and wraps the outcome in a reply envelope.
    pub fn handle_decoded_request_reply(&mut self, decoded: Result<HostBridgeJsonRequest, String>) -> (r:
        HostBridgeJsonReply)
        ensures
            exists|outcome: Result<HostBridgeResponse, HostSessionError>|
                {
                    &&& decoded_request_outcome(old(self)@, final(self)@, decoded, outcome)
                    &&& is_reply_for(outcome, r)
                },
            final(self).spec_next_handle() == old(self).spec_next_handle(),
    {
        let outcome = self.handle_decoded_request(decoded);
        let ghost witness = outcome;
        let reply = match outcome {
            Ok(response) => HostBridgeJsonReply::ok(response),
            Err(error) => HostBridgeJsonReply::error(error),
        };
        assert(is_reply_for(witness, reply));
        reply
    }
}

/// What a bridge request owes, over the sessions before (`old`) and after
/// (`new`) it, and its result `r`.
pub open spec fn request_outcome<D: HostDriver>(
    old: Map<u64, HostSession<D>>,
    new: Map<u64, HostSession<D>>,
    request: HostBridgeRequest,
    r: Result<HostBridgeResponse, HostSessionError>,
) -> bool {
    let raw = spec_request_handle(request);
    let before = old[raw].spec_driver();
    let after = new[raw].spec_driver();
    &&& unknown_session_outcome(old, new, raw, r)
    &&& old.contains_key(raw) ==> match request {
        HostBridgeRequest::Destroy { .. } => r == Ok::<HostBridgeResponse, HostSessionError>(
            HostBridgeResponse::Destroyed { handle: raw },
        ) && new == old.remove(raw),
        HostBridgeRequest::SetViewport { width, height, .. } => r == Ok::<HostBridgeResponse, HostSessionError>(
            HostBridgeResponse::Acknowledged,
        ) && same_sessions_except(old, new, raw) && resized(before, after, Size { width, height }),
        HostBridgeRequest::DispatchEventBatch { batch, .. } => r == (match before.spec_dispatch(batch@) {
            Ok(()) => Ok::<HostBridgeResponse, HostSessionError>(HostBridgeResponse::Acknowledged),
            Err(e) => Err::<HostBridgeResponse, HostSessionError>(HostSessionError::Event(e)),
        }) && new == old,
        HostBridgeRequest::DrainCommandBatch { .. } => drain_reply(before.spec_drain(), r)
            && same_sessions_except(old, new, raw) && drained(before, after),
        HostBridgeRequest::TickAndDrainCommandBatch { .. } => same_sessions_except(old, new, raw)
            && exists|mid: D|
            #![trigger mid.spec_drain()]
            ticked_then_drained(before, mid, after) && drain_reply(mid.spec_drain(), r),
        HostBridgeRequest::DispatchEventsTickAndDrainCommandBatch { batch, .. } => same_sessions_except(
            old,
            new,
            raw,
        ) && match before.spec_dispatch(batch@) {
            Err(e) => r == Err::<HostBridgeResponse, HostSessionError>(HostSessionError::Event(e))
                && after == before,
            Ok(()) => exists|mid: D|
                #![trigger mid.spec_drain()]
                ticked_then_drained(before, mid, after) && drain_reply(mid.spec_drain(), r),
        },
        HostBridgeRequest::ResizeTickAndDrainCommandBatch { width, height, .. } => same_sessions_except(
            old,
            new,
            raw,
        ) && exists|mid: D|
            #![trigger mid.spec_drain()]
            resized_and_ticked(before, mid, Size { width, height }) && drained(mid, after)
                && drain_reply(mid.spec_drain(), r),
    }
}

/// What a draining request answers for the batch pending in the session's
/// driver: that text itself as the `CommandBatch` when it is JSON; a
/// `CommandJson` error when it is not, or when nothing could be drained.
pub open spec fn drain_reply(pending: Option<Seq<char>>, r: Result<HostBridgeResponse, HostSessionError>) -> bool {
    match pending {
        Some(t) => if is_json_text(t) {
            r matches Ok(HostBridgeResponse::CommandBatch { batch }) && batch@ == t
        } else {
            r matches Err(HostSessionError::CommandJson(_))
        },
        None => r matches Err(HostSessionError::CommandJson(_)),
    }
}

/// What a request that arrived as JSON owes, given the outcome of decoding it.
pub open spec fn decoded_request_outcome<D: HostDriver>(
    old: Map<u64, HostSession<D>>,
    new: Map<u64, HostSession<D>>,
    decoded: Result<HostBridgeJsonRequest, String>,
    r: Result<HostBridgeResponse, HostSessionError>,
) -> bool {
    match decoded {
        Err(message) => r == Err::<HostBridgeResponse, HostSessionError>(
            HostSessionError::RequestJson(message),
        ) && new == old,
        Ok(request) => if request.protocol_version != HOST_BRIDGE_PROTOCOL_VERSION {
            r == Err::<HostBridgeResponse, HostSessionError>(
                HostSessionError::UnsupportedBridgeVersion {
                    expected: HOST_BRIDGE_PROTOCOL_VERSION,
                    found: request.protocol_version,
                },
            ) && new == old
        } else {
            request_outcome(old, new, request.request, r)
        },
    }
}

/// A request naming a handle that is not live is answered with
/// `UnknownSession` and changes nothing.
pub proof fn lemma_unknown_handle_changes_nothing<D: HostDriver>(
    old: Map<u64, HostSession<D>>,
    new: Map<u64, HostSession<D>>,
    request: HostBridgeRequest,
    r: Result<HostBridgeResponse, HostSessionError>,
)
    requires
        request_outcome(old, new, request, r),
        !old.contains_key(spec_request_handle(request)),
    ensures
        r == Err::<HostBridgeResponse, HostSessionError>(
            HostSessionError::UnknownSession { handle: spec_request_handle(request) },
        ),
        new == old,
{
}

/// A request only ever touches the session it names: every other session
/// stays live and unchanged.
pub proof fn lemma_request_touches_only_its_session<D: HostDriver>(
    old: Map<u64, HostSession<D>>,
    new: Map<u64, HostSession<D>>,
    request: HostBridgeRequest,
    r: Result<HostBridgeResponse, HostSessionError>,
    k: u64,
)
    requires
        request_outcome(old, new, request, r),
        k != spec_request_handle(request),
    ensures
        old.contains_key(k) <==> new.contains_key(k),
        old.contains_key(k) ==> new[k] == old[k],
{
}

/// A request written for another protocol version is refused with
/// `UnsupportedBridgeVersion` and changes nothing.
pub proof fn lemma_unsupported_version_changes_nothing<D: HostDriver>(
    old: Map<u64, HostSession<D>>,
    new: Map<u64, HostSession<D>>,
    request: HostBridgeJsonRequest,
    r: Result<HostBridgeResponse, HostSessionError>,
)
    requires
        decoded_request_outcome(old, new, Ok(request), r),
        request.protocol_version != HOST_BRIDGE_PROTOCOL_VERSION,
    ensures
        r matches Err(HostSessionError::UnsupportedBridgeVersion { expected, found })
            && expected == HOST_BRIDGE_PROTOCOL_VERSION && found == request.protocol_version,
        new == old,
{
}

/// The raw session handle a bridge request names.
pub open spec fn spec_request_handle(request: HostBridgeRequest) -> u64 {
    match request {
        HostBridgeRequest::Destroy { handle } => handle,
        HostBridgeRequest::SetViewport { handle, .. } => handle,
        HostBridgeRequest::DispatchEventBatch { handle, .. } => handle,
        HostBridgeRequest::DrainCommandBatch { handle } => handle,
        HostBridgeRequest::TickAndDrainCommandBatch { handle } => handle,
        HostBridgeRequest::DispatchEventsTickAndDrainCommandBatch { handle, .. } => handle,
        HostBridgeRequest::ResizeTickAndDrainCommandBatch { handle, .. } => handle,
    }
}

/// What a request that drains commands answers, given what the session's
/// drain gave: its error unchanged; the drained text itself as the
/// `CommandBatch` when it is JSON; a `CommandJson` error (with the parser's
/// message) when it is not.
pub open spec fn spec_command_batch_response(
    drained: Result<String, HostSessionError>,
    r: Result<HostBridgeResponse, HostSessionError>,
) -> bool {
    match drained {
        Err(e) => r == Err::<HostBridgeResponse, HostSessionError>(e),
        Ok(json) => if is_json_text(json@) {
            r == Ok::<HostBridgeResponse, HostSessionError>(HostBridgeResponse::CommandBatch { batch: json })
        } else {
            r matches Err(HostSessionError::CommandJson(_))
        },
    }
}

/// The answer to a draining request, given what the session's drain gave:
/// see [`spec_command_batch_response`].
pub fn command_batch_response(drained: Result<String, HostSessionError>) -> (r: Result<
    HostBridgeResponse,
    HostSessionError,
>)
    ensures
        spec_command_batch_response(drained, r),
{
    match drained {
        Err(e) => Err(e),
        Ok(json) => match parse_json_value(json.as_str()) {
            Ok(_) => Ok(HostBridgeResponse::CommandBatch { batch: json }),
            Err(message) => Err(HostSessionError::CommandJson(message)),
        },
    }
}

/// A registry of sessions that owns the JSON bridge entry points.
pub struct HostBridge<D> {
    registry: HostSessionRegistry<D>,
}

impl<D> View for HostBridge<D> {
    type V = Map<u64, HostSession<D>>;

    closed spec fn view(&self) -> Map<u64, HostSession<D>> {
        self.registry@
    }
}

impl<D> HostBridge<D> {
    /// The registry this bridge owns.
    pub closed spec fn spec_registry(self) -> HostSessionRegistry<D> {
        self.registry
    }

    /// A bridge over an empty registry.
    pub fn new() -> (r: HostBridge<D>)
        ensures
            r@ == Map::<u64, HostSession<D>>::empty(),
            r.spec_registry().spec_next_handle() == 1,
    {
        HostBridge { registry: HostSessionRegistry::new() }
    }

    /// A bridge over an existing registry.
    pub fn with_registry(registry: HostSessionRegistry<D>) -> (r: HostBridge<D>)
        ensures
            r.spec_registry() == registry,
    {
        HostBridge { registry }
    }

    /// The registry this bridge owns.
    pub fn registry(&self) -> (r: &HostSessionRegistry<D>)
        ensures
            *r == self.spec_registry(),
    {
        &self.registry
    }

    /// Mutable access to the registry this bridge owns.
    pub fn registry_mut(&mut self) -> (r: &mut HostSessionRegistry<D>)
        ensures
            *r == old(self).spec_registry(),
            final(self).spec_registry() == *final(r),
    {
        &mut self.registry
    }

    /// Adds a session under a fresh handle.
    pub fn insert_session(&mut self, session: HostSession<D>) -> (h: HostSessionHandle)
        requires
            old(self)@.len() < u64::MAX,
        ensures
            allocated_handle(old(self).spec_registry().spec_next_handle(), old(self)@.dom(), h.spec_raw()),
            final(self)@ == old(self)@.insert(h.spec_raw(), session),
    {
        self.registry.insert_session(session)
    }

    /// Adds a session around `driver` under a fresh handle.
    pub fn insert_driver(&mut self, driver: D) -> (h: HostSessionHandle)
        requires
            old(self)@.len() < u64::MAX,
        ensures
            allocated_handle(old(self).spec_registry().spec_next_handle(), old(self)@.dom(), h.spec_raw()),
            final(self)@ == old(self)@.insert(h.spec_raw(), final(self)@[h.spec_raw()]),
            final(self)@[h.spec_raw()].spec_driver() == driver,
    {
        self.registry.insert_driver(driver)
    }

    /// Removes and returns the session behind `handle`, if it is live.
    pub fn remove(&mut self, handle: HostSessionHandle) -> (r: Option<HostSession<D>>)
        ensures
            final(self)@ == old(self)@.remove(handle.spec_raw()),
            r == (if old(self)@.contains_key(handle.spec_raw()) {
                Some(old(self)@[handle.spec_raw()])
            } else {
                None
            }),
    {
        self.registry.remove(handle)
    }

    /// Whether `handle` names a live session.
    pub fn contains(&self, handle: HostSessionHandle) -> (r: bool)
        ensures
            r == self@.contains_key(handle.spec_raw()),
    {
        self.registry.contains(handle)
    }

    /// Number of live sessions.
    pub fn len(&self) -> (r: usize)
        ensures
            r == self@.len(),
            self@.dom().finite(),
    {
        self.registry.len()
    }

    /// Whether no session is live.
    pub fn is_empty(&self) -> (r: bool)
        ensures
            r == (self@.len() == 0),
    {
        self.registry.is_empty()
    }
}

impl<D: HostDriver> HostBridge<D> {
    /// Routes one bridge request to the session it names.
    pub fn handle_request(&mut self, request: HostBridgeRequest) -> (r: Result<
        HostBridgeResponse,
        HostSessionError,
    >)
        ensures
            request_outcome(old(self)@, final(self)@, request, r),
    {
        self.registry.handle_request(request)
    }

    /// Handles a bridge request that arrived as JSON, given the outcome of
    /// decoding it.
    pub fn handle_decoded_request(&mut self, decoded: Result<HostBridgeJsonRequest, String>) -> (r:
        Result<HostBridgeResponse, HostSessionError>)
        ensures
            decoded_request_outcome(old(self)@, final(self)@, decoded, r),
    {
        self.registry.handle_decoded_request(decoded)
    }

    /// Handles a bridge request that arrived as JSON, given the outcome of
    /// decoding it, and wraps the outcome in a reply envelope.
    pub fn handle_decoded_request_reply(&mut self, decoded: Result<HostBridgeJsonRequest, String>) -> (r:
        HostBridgeJsonReply)
        ensures
            exists|outcome: Result<HostBridgeResponse, HostSessionError>|
                {
                    &&& decoded_request_outcome(old(self)@, final(self)@, decoded, outcome)
                    &&& is_reply_for(outcome, r)
                },
    {
        self.registry.handle_decoded_request_reply(decoded)
    }
}

impl<D> Default for HostBridge<D> {
    fn default() -> (r: Self)
        ensures
            r@ == Map::<u64, HostSession<D>>::empty(),
    {
        Self::new()
    }
}

/// A bridge request: what a host asks of one session.
#[derive(Debug, Clone, PartialEq)]
pub enum HostBridgeRequest {
    /// End the session.
    Destroy {
        /// Raw session handle.
        handle: u64,
    },
    /// Resize the session's viewport.
    SetViewport {
        /// Raw session handle.
        handle: u64,
        /// New width in logical pixels.
        width: F32Bits,
        /// New height in logical pixels.
        height: F32Bits,
    },
    /// Dispatch a batch of host events.
    DispatchEventBatch {
        /// Raw session handle.
        handle: u64,
        /// The event batch, JSON-encoded.
        batch: String,
    },
    /// Drain the pending platform commands.
    DrainCommandBatch {
        /// Raw session handle.
        handle: u64,
    },
    /// Advance one frame, then drain the pending platform commands.
    TickAndDrainCommandBatch {
        /// Raw session handle.
        handle: u64,
    },
    /// Dispatch events, advance one frame, and drain the pending commands.
    DispatchEventsTickAndDrainCommandBatch {
        /// Raw session handle.
        handle: u64,
        /// The event batch, JSON-encoded.
        batch: String,
    },
    /// Resize, advance one frame, and drain the pending commands.
    ResizeTickAndDrainCommandBatch {
        /// Raw session handle.
        handle: u64,
        /// New width in logical pixels.
        width: F32Bits,
        /// New height in logical pixels.
        height: F32Bits,
    },
}

/// What a bridge request answers.
#[derive(Debug, PartialEq)]
pub enum HostBridgeResponse {
    /// The request succeeded with nothing to report.
    Acknowledged,
    /// The session was destroyed.
    Destroyed {
        /// Raw handle of the destroyed session.
        handle: u64,
    },
    /// The drained platform commands: the JSON text the session drained.
    CommandBatch {
        /// The command batch, as JSON text.
        batch: String,
    },
}

/// A bridge request with its protocol version, as it travels as JSON.
#[derive(Debug, Clone, PartialEq)]
pub struct HostBridgeJsonRequest {
    /// Protocol version the request was written for.
    pub protocol_version: u32,
    /// The request itself.
    pub request: HostBridgeRequest,
}

impl HostBridgeJsonRequest {
    /// A request envelope at the current protocol version.
    pub fn new(request: HostBridgeRequest) -> (r: HostBridgeJsonRequest)
        ensures
            r == (HostBridgeJsonRequest { protocol_version: HOST_BRIDGE_PROTOCOL_VERSION, request }),
    {
        HostBridgeJsonRequest { protocol_version: HOST_BRIDGE_PROTOCOL_VERSION, request }
    }

    /// Succeeds exactly when the request speaks this library's protocol version.
    pub fn ensure_supported(&self) -> (r: Result<(), HostSessionError>)
        ensures
            self.protocol_version == HOST_BRIDGE_PROTOCOL_VERSION ==> r is Ok,
            self.protocol_version != HOST_BRIDGE_PROTOCOL_VERSION ==> r == Err::<(), HostSessionError>(
                HostSessionError::UnsupportedBridgeVersion {
                    expected: HOST_BRIDGE_PROTOCOL_VERSION,
                    found: self.protocol_version,
                },
            ),
    {
        if self.protocol_version == HOST_BRIDGE_PROTOCOL_VERSION {
            Ok(())
        } else {
            Err(
                HostSessionError::UnsupportedBridgeVersion {
                    expected: HOST_BRIDGE_PROTOCOL_VERSION,
                    found: self.protocol_version,
                },
            )
        }
    }
}

/// A bridge response with its protocol version, as it travels as JSON.
#[derive(Debug, PartialEq)]
pub struct HostBridgeJsonResponse {
    /// Protocol version of the response.
    pub protocol_version: u32,
    /// The response itself.
    pub response: HostBridgeResponse,
}

impl HostBridgeJsonResponse {
    /// A response envelope at the current protocol version.
    pub fn new(response: HostBridgeResponse) -> (r: HostBridgeJsonResponse)
        ensures
            r == (HostBridgeJsonResponse { protocol_version: HOST_BRIDGE_PROTOCOL_VERSION, response }),
    {
        HostBridgeJsonResponse { protocol_version: HOST_BRIDGE_PROTOCOL_VERSION, response }
    }
}

/// A reply envelope that carries either a response or an error.
#[derive(Debug, PartialEq)]
pub struct HostBridgeJsonReply {
    /// Protocol version of the reply.
    pub protocol_version: u32,
    /// The outcome.
    pub result: HostBridgeJsonReplyResult,
}

/// The outcome carried by a [`HostBridgeJsonReply`].
#[derive(Debug, PartialEq)]
pub enum HostBridgeJsonReplyResult {
    /// The request succeeded.
    Success {
        /// Its response.
        response: HostBridgeResponse,
    },
    /// The request failed.
    Error {
        /// What went wrong.
        error: HostBridgeJsonError,
    },
}

/// Whether `r` is the reply envelope for the outcome of a request.
pub open spec fn is_reply_for(outcome: Result<HostBridgeResponse, HostSessionError>, r: HostBridgeJsonReply) -> bool {
    &&& r.protocol_version == HOST_BRIDGE_PROTOCOL_VERSION
    &&& match outcome {
        Ok(response) => r.result == (HostBridgeJsonReplyResult::Success { response }),
        Err(error) => r.result matches HostBridgeJsonReplyResult::Error { error: j } && json_error_of(error, j),
    }
}

impl HostBridgeJsonReply {
    /// A successful reply.
    pub fn ok(response: HostBridgeResponse) -> (r: HostBridgeJsonReply)
        ensures
            is_reply_for(Ok(response), r),
    {
        HostBridgeJsonReply {
            protocol_version: HOST_BRIDGE_PROTOCOL_VERSION,
            result: HostBridgeJsonReplyResult::Success { response },
        }
    }

    /// An error reply.
    pub fn error(error: HostSessionError) -> (r: HostBridgeJsonReply)
        ensures
            is_reply_for(Err(error), r),
    {
        HostBridgeJsonReply {
            protocol_version: HOST_BRIDGE_PROTOCOL_VERSION,
            result: HostBridgeJsonReplyResult::Error { error: HostBridgeJsonError::from_error(&error) },
        }
    }
}

/// A machine-readable error in a reply envelope.
#[derive(Debug, Clone, PartialEq)]
pub struct HostBridgeJsonError {
    /// Which kind of error.
    pub code: HostBridgeJsonErrorCode,
    /// Human-readable text.
    pub message: String,
    /// The unknown handle, for `UnknownSession`.
    pub handle: Option<u64>,
    /// The version this library speaks, for `UnsupportedBridgeVersion`.
    pub expected_version: Option<u32>,
    /// The version the request carried, for `UnsupportedBridgeVersion`.
    pub found_version: Option<u32>,
}

/// The error code for each kind of error.
pub open spec fn spec_error_code(e: HostSessionError) -> HostBridgeJsonErrorCode {
    match e {
        HostSessionError::RequestJson(_) => HostBridgeJsonErrorCode::RequestJson,
        HostSessionError::UnsupportedBridgeVersion { .. } => HostBridgeJsonErrorCode::UnsupportedBridgeVersion,
        HostSessionError::UnknownSession { .. } => HostBridgeJsonErrorCode::UnknownSession,
        HostSessionError::Event(_) => HostBridgeJsonErrorCode::Event,
        HostSessionError::CommandJson(_) => HostBridgeJsonErrorCode::CommandJson,
        HostSessionError::ResponseJson(_) => HostBridgeJsonErrorCode::ResponseJson,
    }
}

/// Whether `j` is the reply form of `e`: its code, its text, and the
/// handle or versions it carries.
pub open spec fn json_error_of(e: HostSessionError, j: HostBridgeJsonError) -> bool {
    &&& j.code == spec_error_code(e)
    &&& j.message@ == spec_error_message(e)
    &&& j.handle == match e {
        HostSessionError::UnknownSession { handle } => Some(handle),
        _ => None,
    }
    &&& j.expected_version == match e {
        HostSessionError::UnsupportedBridgeVersion { expected, .. } => Some(expected),
        _ => None,
    }
    &&& j.found_version == match e {
        HostSessionError::UnsupportedBridgeVersion { found, .. } => Some(found),
        _ => None,
    }
}

impl HostBridgeJsonError {
    /// The reply form of `error`.
    pub fn from_error(error: &HostSessionError) -> (r: HostBridgeJsonError)
        ensures
            json_error_of(*error, r),
    {
        let message = error.message();
        let (code, handle, expected_version, found_version) = match error {
            HostSessionError::RequestJson(_) => (HostBridgeJsonErrorCode::RequestJson, None, None, None),
            HostSessionError::UnsupportedBridgeVersion { expected, found } => (
                HostBridgeJsonErrorCode::UnsupportedBridgeVersion,
                None,
                Some(*expected),
                Some(*found),
            ),
            HostSessionError::UnknownSession { handle } => (
                HostBridgeJsonErrorCode::UnknownSession,
                Some(*handle),
                None,
                None,
            ),
            HostSessionError::Event(_) => (HostBridgeJsonErrorCode::Event, None, None, None),
            HostSessionError::CommandJson(_) => (HostBridgeJsonErrorCode::CommandJson, None, None, None),
            HostSessionError::ResponseJson(_) => (HostBridgeJsonErrorCode::ResponseJson, None, None, None),
        };
        HostBridgeJsonError { code, message, handle, expected_version, found_version }
    }
}

/// Machine-readable error codes of the bridge protocol.
#[derive(Debug, Clone, Copy, PartialEq, Eq, Hash, Structural)]
pub enum HostBridgeJsonErrorCode {
    /// The request JSON could not be decoded.
    RequestJson,
    /// The request's protocol version is not supported.
    UnsupportedBridgeVersion,
    /// No live session has the requested handle.
    UnknownSession,
    /// The driver rejected the event payload.
    Event,
    /// The command batch could not be encoded or decoded.
    CommandJson,
    /// The response could not be encoded.
    ResponseJson,
}

} // verus!
