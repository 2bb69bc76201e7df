//! Navigation: URL route parsing and matching, a typed navigation stack and
//! the string router's history and modal stacks.
//!
//! A [`Navigator`] holds a stack of routes. The string-based [`Router`] keeps
//! the history of visited routes, the modal stack, the registered route
//! guards, back handlers and navigation listeners, and the navigation events
//! fired but not yet delivered; [`ScreenLifecycle`] keeps the screen
//! lifecycle registrations. The callbacks that guards, back handlers,
//! listeners and lifecycle hooks run are held by the caller and invoked
//! through the index that registration returns.

pub mod url;

pub use self::url::{
    match_route, match_route_location, parse_deep_link, parse_query, parse_query_all,
    parse_route_location, route, url_routes, RouteLocation, RouteMatch, UrlRoute,
};

use vstd::prelude::*;
use vstd::pervasive::cloned;
use vstd::utf8::encode_utf8;
use crate::assoc::StringMap;
use crate::text::str_eq;
use self::url::{spec_location, LocationView};

verus! {

/// The stack after a pop: the top route removed, unless only the root is
/// left.
pub open spec fn spec_pop<R>(s: Seq<R>) -> Seq<R> {
    if s.len() > 1 {
        s.drop_last()
    } else {
        s
    }
}

/// Pushing a route and popping it again leaves the stack as it was.
pub proof fn lemma_pop_undoes_push<R>(s: Seq<R>, route: R)
    requires
        s.len() >= 1,
    ensures
        spec_pop(s.push(route)) == s,
{
    assert(s.push(route).drop_last() == s);
}

/// A navigation stack over routes of type `R`: the root route and the
/// routes pushed above it, so it is never empty.
pub struct Navigator<R> {
    root: R,
    above: Vec<R>,
}

impl<R> View for Navigator<R> {
    type V = Seq<R>;

    closed spec fn view(&self) -> Seq<R> {
        seq![self.root] + self.above@
    }
}

impl<R> Navigator<R> {
    /// Pushes a new route onto the stack.
    pub fn push(&mut self, route: R)
        ensures
            final(self)@ == old(self)@.push(route),
    {
        self.above.push(route);
        assert(final(self)@ =~= old(self)@.push(route));
    }

    /// Pops the top route (no-op at the root).
    pub fn pop(&mut self)
        ensures
            final(self)@ == spec_pop(old(self)@),
    {
        if self.above.len() > 0 {
            self.above.pop();
            assert(self@ =~= old(self)@.drop_last());
        }
    }

    /// Replaces the top route.
    pub fn replace(&mut self, route: R)
        ensures
            final(self)@ == old(self)@.drop_last().push(route),
    {
        let n = self.above.len();
        if n > 0 {
            self.above.set(n - 1, route);
        } else {
            self.root = route;
        }
        assert(self@ =~= old(self)@.drop_last().push(route));
    }

    /// Resets the stack to a single route.
    pub fn reset(&mut self, route: R)
        ensures
            final(self)@ == seq![route],
    {
        self.root = route;
        self.above.clear();
        assert(self@ =~= seq![route]);
    }

    /// Pops back to the root route.
    pub fn pop_to_root(&mut self)
        ensures
            final(self)@ == old(self)@.subrange(0, 1),
    {
        self.above.clear();
        assert(self@ =~= old(self)@.subrange(0, 1));
    }

    /// Number of routes on the stack. A stack deeper than `usize::MAX`
    /// (possible only for routes that take no memory) reports `usize::MAX`.
    pub fn depth(&self) -> (r: usize)
        ensures
            self@.len() <= usize::MAX ==> r == self@.len(),
            self@.len() > usize::MAX ==> r == usize::MAX,
            r >= 1,
    {
        self.above.len().saturating_add(1)
    }

    /// Whether there is a route to pop back to.
    pub fn can_pop(&self) -> (r: bool)
        ensures
            r == (self@.len() > 1),
    {
        self.above.len() > 0
    }
}

impl<R: Clone> Navigator<R> {
    /// The current (top) route.
    pub fn top(&self) -> (r: R)
        ensures
            cloned(self@.last(), r),
    {
        let n = self.above.len();
        if n > 0 {
            self.above[n - 1].clone()
        } else {
            self.root.clone()
        }
    }
}

/// Creates a navigator with `initial` as the root route.
pub fn create_navigator<R>(initial: R) -> (r: Navigator<R>)
    ensures
        r@ == seq![initial],
{
    let r = Navigator { root: initial, above: Vec::new() };
    assert(r@ =~= seq![initial]);
    r
}

/// A navigator's stack is never empty: the root route always stays.
pub proof fn lemma_navigator_never_empty<R>(nav: &Navigator<R>)
    ensures
        nav@.len() >= 1,
{
}

/// How a pushed screen enters (and how a popped screen exits in reverse).
#[derive(Clone, Copy, PartialEq, Eq, Debug)]
pub enum NavigationTransition {
    /// Standard slide from the right on push; slide out to the right on pop.
    Slide,
    /// Fade in on push; fade out on pop.
    Fade,
    /// No animation — instant cut.
    Instant,
}

impl Default for NavigationTransition {
    fn default() -> (r: Self)
        ensures
            r == NavigationTransition::Slide,
    {
        NavigationTransition::Slide
    }
}

} // verus!

verus! {

/// A route guard: where navigation is redirected when its condition fails.
/// The condition itself is held by the caller under the guard's index.
#[derive(Clone, Debug, PartialEq, Eq)]
pub struct RouteGuard {
    redirect: String,
}

impl RouteGuard {
    /// The redirect target.
    pub closed spec fn spec_redirect(&self) -> Seq<char> {
        self.redirect@
    }

    /// The redirect target.
    pub fn redirect(&self) -> (r: &str)
        ensures
            r@ == self.spec_redirect(),
    {
        self.redirect.as_str()
    }
}

/// The abstract state of the string router.
#[verifier::ext_equal]
pub struct RouterView {
    /// The current route.
    pub current: Seq<char>,
    /// Visited routes, oldest first.
    pub history: Seq<Seq<char>>,
    /// Presented modal routes, bottom to top.
    pub modals: Seq<Seq<char>>,
    /// Redirect targets of the registered guards, in registration order.
    pub guards: Seq<Seq<char>>,
    /// Number of registered back handlers.
    pub back_handlers: nat,
    /// Number of registered navigation listeners.
    pub listeners: nat,
    /// Navigation events `(from, to)` fired and not yet delivered to the
    /// listeners, oldest first.
    pub events: Seq<(Seq<char>, Seq<char>)>,
}

/// The route a navigation starts from: the last visited route, or the empty
/// route before the first visit.
pub open spec fn navigation_origin(v: RouterView) -> Seq<char> {
    if v.history.len() > 0 {
        v.history.last()
    } else {
        Seq::<char>::empty()
    }
}

/// The router after visiting `dest`: it becomes the current route, is
/// pushed on the history, and the event from the previous visit to `dest`
/// is fired.
pub open spec fn spec_visit(v: RouterView, dest: Seq<char>) -> RouterView {
    RouterView {
        current: dest,
        history: v.history.push(dest),
        events: v.events.push((navigation_origin(v), dest)),
        ..v
    }
}

/// The router after going back: the last visit is dropped and the one
/// before it becomes current; nothing changes with fewer than two visits.
pub open spec fn spec_go_back(v: RouterView) -> RouterView {
    if v.history.len() > 1 {
        RouterView { current: v.history.drop_last().last(), history: v.history.drop_last(), ..v }
    } else {
        v
    }
}

/// The router with `route` presented as a modal on top.
pub open spec fn spec_present(v: RouterView, route: Seq<char>) -> RouterView {
    RouterView { modals: v.modals.push(route), ..v }
}

/// The router with the top modal dismissed, if there is one.
pub open spec fn spec_dismiss(v: RouterView) -> RouterView {
    if v.modals.len() > 0 {
        RouterView { modals: v.modals.drop_last(), ..v }
    } else {
        v
    }
}

/// The current route is the last visited route (the empty route before the
/// first visit).
pub open spec fn current_is_last_visit(v: RouterView) -> bool {
    if v.history.len() == 0 {
        v.current == Seq::<char>::empty()
    } else {
        v.current == v.history.last()
    }
}

/// Going back right after a visit returns the router to where it was, once
/// something has been visited; only the navigation event that the visit
/// fired stays fired.
pub proof fn lemma_go_back_undoes_visit(v: RouterView, dest: Seq<char>)
    requires
        current_is_last_visit(v),
        v.history.len() >= 1,
    ensures
        spec_go_back(spec_visit(v, dest)) == (RouterView {
            events: v.events.push((v.current, dest)),
            ..v
        }),
{
    assert(v.history.push(dest).drop_last() == v.history);
}

/// Every router operation keeps the current route equal to the last visit.
pub proof fn lemma_current_is_last_visit_kept(v: RouterView, dest: Seq<char>, modal: Seq<char>)
    requires
        current_is_last_visit(v),
    ensures
        current_is_last_visit(spec_visit(v, dest)),
        current_is_last_visit(spec_replace(v, dest)),
        current_is_last_visit(spec_go_back(v)),
        current_is_last_visit(spec_present(v, modal)),
        current_is_last_visit(spec_dismiss(v)),
{
}

/// Dismissing right after presenting a modal restores the modal stack.
pub proof fn lemma_dismiss_undoes_present(v: RouterView, modal: Seq<char>)
    ensures
        spec_dismiss(spec_present(v, modal)) == v,
{
    assert(v.modals.push(modal).drop_last() == v.modals);
}

/// The string-based router: current route, history stack, modal stack,
/// registered guards, back handlers and navigation listeners, and the
/// navigation events not yet delivered.
pub struct Router {
    current: String,
    history: Vec<String>,
    modals: Vec<String>,
    guards: Vec<RouteGuard>,
    back_handlers: usize,
    listeners: usize,
    events: Vec<NavigateEvent>,
}

/// A navigation from one route to another, as delivered to the navigation
/// listeners.
#[derive(Clone, Debug, PartialEq, Eq)]
pub struct NavigateEvent {
    /// The route navigated away from (empty before the first visit).
    pub from: String,
    /// The route navigated to.
    pub to: String,
}

/// The views of a list of navigation events.
pub open spec fn events_view(v: Seq<NavigateEvent>) -> Seq<(Seq<char>, Seq<char>)> {
    v.map_values(|e: NavigateEvent| (e.from@, e.to@))
}

/// The views of a list of strings.
pub open spec fn strings_view(v: Seq<String>) -> Seq<Seq<char>> {
    v.map_values(|s: String| s@)
}

impl View for Router {
    type V = RouterView;

    closed spec fn view(&self) -> RouterView {
        RouterView {
            current: self.current@,
            history: strings_view(self.history@),
            modals: strings_view(self.modals@),
            guards: self.guards@.map_values(|g: RouteGuard| g.redirect@),
            back_handlers: self.back_handlers as nat,
            listeners: self.listeners as nat,
            events: events_view(self.events@),
        }
    }
}

impl Router {
    /// A router with no history, no modals, no guards and the empty route.
    pub fn new() -> (r: Router)
        ensures
            r@.current == Seq::<char>::empty(),
            r@.history == Seq::<Seq<char>>::empty(),
            r@.modals == Seq::<Seq<char>>::empty(),
            r@.guards == Seq::<Seq<char>>::empty(),
            r@.back_handlers == 0,
            r@.listeners == 0,
            r@.events == Seq::<(Seq<char>, Seq<char>)>::empty(),
    {
        let r = Router {
            current: String::new(),
            history: Vec::new(),
            modals: Vec::new(),
            guards: Vec::new(),
            back_handlers: 0,
            listeners: 0,
            events: Vec::new(),
        };
        assert(r@.events =~= Seq::<(Seq<char>, Seq<char>)>::empty());
        assert(r@.history =~= Seq::<Seq<char>>::empty());
        assert(r@.modals =~= Seq::<Seq<char>>::empty());
        assert(r@.guards =~= Seq::<Seq<char>>::empty());
        r
    }

    /// The registered guards.
    pub fn guards(&self) -> (r: &[RouteGuard])
        ensures
            r@.map_values(|g: RouteGuard| g.spec_redirect()) == self@.guards,
    {
        let r = self.guards.as_slice();
        assert(r@.map_values(|g: RouteGuard| g.spec_redirect()) =~= self@.guards);
        r
    }
}

/// Register a route guard redirecting to `redirect`; returns its index, under
/// which the caller keeps its condition.
pub fn add_route_guard(router: &mut Router, redirect: &str) -> (r: usize)
    requires
        old(router)@.guards.len() < usize::MAX,
    ensures
        r == old(router)@.guards.len(),
        final(router)@ == (RouterView { guards: old(router)@.guards.push(redirect@), ..old(router)@ }),
{
    let index = router.guards.len();
    router.guards.push(RouteGuard { redirect: redirect.to_owned() });
    assert(router@.guards =~= old(router)@.guards.push(redirect@));
    index
}

/// Evaluate the guards in registration order: `condition(i)` runs the
/// condition of guard `i`. Returns the redirect of the first guard whose
/// condition fails (later guards are not evaluated), or `None` if all pass.
pub fn check_guards<F: Fn(usize) -> bool>(router: &Router, route: &str, condition: F) -> (r:
    Option<String>)
    requires
        forall|i: usize| call_requires(condition, (i,)),
    ensures
        match r {
            Some(target) => exists|i: usize| (i as int) < router@.guards.len() && target@ == router@.guards[i as int] && #[trigger] call_ensures(condition, (i,), false) && forall|j: usize| (j as int) < i ==> #[trigger] call_ensures(condition, (j,), true),
            None => forall|j: usize| (j as int) < router@.guards.len() ==> #[trigger] call_ensures(condition, (j,), true),
        },
{
    let n = router.guards.len();
    let mut i: usize = 0;
    while i < n
        invariant
            n == router.guards@.len(),
            n == router@.guards.len(),
            i <= n,
            forall|i: usize| call_requires(condition, (i,)),
            forall|j: usize| (j as int) < i ==> #[trigger] call_ensures(condition, (j,), true),
        decreases n - i,
    {
        let passes = condition(i);
        if !passes {
            let target = router.guards[i].redirect.clone();
            assert(router@.guards[i as int] == router.guards@[i as int].redirect@);
            return Some(target);
        }
        i = i + 1;
    }
    None
}

/// Navigate to `route`, checking guards first (`condition(i)` runs guard
/// `i`'s condition). The destination (the route, or the first failing
/// guard's redirect) is pushed on the history and becomes current; it is
/// returned.
pub fn navigate<F: Fn(usize) -> bool>(router: &mut Router, route: &str, condition: F) -> (r:
    String)
    requires
        forall|i: usize| call_requires(condition, (i,)),
    ensures
        (r@ == route@ && forall|j: usize| (j as int) < old(router)@.guards.len() ==> #[trigger] call_ensures(condition, (j,), true))
            || (exists|i: usize| (i as int) < old(router)@.guards.len() && r@ == old(router)@.guards[i as int] && #[trigger] call_ensures(condition, (i,), false) && forall|j: usize| (j as int) < i ==> #[trigger] call_ensures(condition, (j,), true)),
        final(router)@ == spec_visit(old(router)@, r@),
{
    let destination = match check_guards(router, route, condition) {
        Some(target) => target,
        None => route.to_owned(),
    };
    let from = last_visit(router);
    router.history.push(destination.clone());
    router.current = destination.clone();
    assert(router@.history =~= old(router)@.history.push(destination@));
    fire_navigate_event(router, from.as_str(), destination.as_str());
    destination
}

/// The router after the browser replaced the current route with `dest`:
/// `dest` takes the place of the last visit (or becomes the first one), is
/// current, and the event from the replaced visit to `dest` is fired.
pub open spec fn spec_replace(v: RouterView, dest: Seq<char>) -> RouterView {
    RouterView {
        current: dest,
        history: if v.history.len() == 0 {
            seq![dest]
        } else {
            v.history.update(v.history.len() - 1, dest)
        },
        events: v.events.push((navigation_origin(v), dest)),
        ..v
    }
}

/// The browser moved to `route` (back/forward, or the initial location):
/// after the guards (`condition(i)` runs guard `i`'s condition), the
/// destination replaces the current history entry instead of adding one.
/// Returns the destination; when it differs from `route`, the address bar
/// is to be rewritten to it.
pub fn replace_route_from_browser<F: Fn(usize) -> bool>(router: &mut Router, route: &str, condition: F) -> (r:
    String)
    requires
        forall|i: usize| call_requires(condition, (i,)),
    ensures
        (r@ == route@ && forall|j: usize| (j as int) < old(router)@.guards.len() ==> #[trigger] call_ensures(condition, (j,), true))
            || (exists|i: usize| (i as int) < old(router)@.guards.len() && r@ == old(router)@.guards[i as int] && #[trigger] call_ensures(condition, (i,), false) && forall|j: usize| (j as int) < i ==> #[trigger] call_ensures(condition, (j,), true)),
        final(router)@ == spec_replace(old(router)@, r@),
{
    let destination = match check_guards(router, route, condition) {
        Some(target) => target,
        None => route.to_owned(),
    };
    let from = last_visit(router);
    let n = router.history.len();
    if n == 0 {
        router.history.push(destination.clone());
        assert(router@.history =~= seq![destination@]);
    } else {
        router.history.set(n - 1, destination.clone());
        assert(router@.history =~= old(router)@.history.update(n - 1, destination@));
    }
    router.current = destination.clone();
    fire_navigate_event(router, from.as_str(), destination.as_str());
    destination
}

/// The route a navigation from here starts at.
fn last_visit(router: &Router) -> (r: String)
    ensures
        r@ == navigation_origin(router@),
{
    let n = router.history.len();
    if n == 0 {
        String::new()
    } else {
        router.history[n - 1].clone()
    }
}

/// Register a navigation listener; returns its index, under which the
/// caller keeps it. Every fired event is delivered to the listeners in
/// registration order.
pub fn on_navigate(router: &mut Router) -> (r: usize)
    requires
        old(router)@.listeners < usize::MAX,
    ensures
        r == old(router)@.listeners,
        final(router)@ == (RouterView { listeners: old(router)@.listeners + 1, ..old(router)@ }),
{
    let index = router.listeners;
    router.listeners = router.listeners + 1;
    index
}

/// Fire a navigation event: `(from, to)` is queued for delivery to every
/// registered listener.
pub fn fire_navigate_event(router: &mut Router, from: &str, to: &str)
    ensures
        final(router)@ == (RouterView {
            events: old(router)@.events.push((from@, to@)),
            ..old(router)@
        }),
{
    router.events.push(NavigateEvent { from: from.to_owned(), to: to.to_owned() });
    assert(router@.events =~= old(router)@.events.push((from@, to@)));
}

/// Take the fired navigation events, oldest first, for delivery to the
/// listeners; none is left pending.
pub fn drain_navigate_events(router: &mut Router) -> (r: Vec<NavigateEvent>)
    ensures
        events_view(r@) == old(router)@.events,
        final(router)@ == (RouterView {
            events: Seq::<(Seq<char>, Seq<char>)>::empty(),
            ..old(router)@
        }),
{
    let mut taken: Vec<NavigateEvent> = Vec::new();
    std::mem::swap(&mut taken, &mut router.events);
    assert(router@.events =~= Seq::<(Seq<char>, Seq<char>)>::empty());
    taken
}

/// The number of registered navigation listeners.
pub fn navigation_listeners(router: &Router) -> (r: usize)
    ensures
        r == router@.listeners,
{
    router.listeners
}

/// Pop the current route from the history stack and return to the previous
/// one. Returns `false` (and changes nothing) when there is no earlier route.
pub fn go_back(router: &mut Router) -> (r: bool)
    ensures
        r == (old(router)@.history.len() > 1),
        final(router)@ == spec_go_back(old(router)@),
{
    let n = router.history.len();
    if n <= 1 {
        return false;
    }
    router.history.pop();
    let prev = router.history[n - 2].clone();
    router.current = prev;
    assert(router@.history =~= old(router)@.history.drop_last());
    true
}

/// Returns `true` if there is at least one route to go back to.
pub fn can_go_back(router: &Router) -> (r: bool)
    ensures
        r == (router@.history.len() > 1),
{
    router.history.len() > 1
}

/// The current route.
pub fn current_route(router: &Router) -> (r: String)
    ensures
        r@ == router@.current,
{
    router.current.clone()
}

/// Returns the parsed current route, including path, query params, and fragment.
pub fn current_route_location(router: &Router) -> (r: RouteLocation)
    ensures
        r@ == spec_location(encode_utf8(router@.current)),
{
    parse_route_location(router.current.as_str())
}

/// Returns decoded query parameters for the current route (the first value
/// of each key).
pub fn use_query_params(router: &Router) -> (r: StringMap)
    ensures
        r@ == spec_location(encode_utf8(router@.current)).query,
{
    current_route_location(router).query
}

/// Convenience wrapper: push a route via the string-based router.
pub fn push_route<F: Fn(usize) -> bool>(router: &mut Router, route: &str, condition: F)
    requires
        forall|i: usize| call_requires(condition, (i,)),
    ensures
        exists|r: Seq<char>|
            final(router)@ == spec_visit(old(router)@, r) && ((r == route@ && forall|j: usize| (j as int) < old(router)@.guards.len() ==> #[trigger] call_ensures(condition, (j,), true))
                || (exists|i: usize| (i as int) < old(router)@.guards.len() && r == old(router)@.guards[i as int] && #[trigger] call_ensures(condition, (i,), false) && forall|j: usize| (j as int) < i ==> #[trigger] call_ensures(condition, (j,), true))),
{
    let _ = navigate(router, route, condition);
}

/// Convenience wrapper: go back in the string-based router history.
pub fn pop_route(router: &mut Router)
    ensures
        final(router)@ == spec_go_back(old(router)@),
{
    let _ = go_back(router);
}

/// Like [`navigate`] but returns `true` if navigation reached `route` and
/// `false` if a guard redirected it to a different destination.
pub fn try_navigate<F: Fn(usize) -> bool>(router: &mut Router, route: &str, condition: F) -> (r:
    bool)
    requires
        forall|i: usize| call_requires(condition, (i,)),
    ensures
        r == (final(router)@.current == route@),
        final(router)@ == spec_visit(old(router)@, final(router)@.current),
        (final(router)@.current == route@ && forall|j: usize| (j as int) < old(router)@.guards.len() ==> #[trigger] call_ensures(condition, (j,), true))
            || (exists|i: usize| (i as int) < old(router)@.guards.len() && final(router)@.current == old(router)@.guards[i as int] && #[trigger] call_ensures(condition, (i,), false) && forall|j: usize| (j as int) < i ==> #[trigger] call_ensures(condition, (j,), true)),
{
    let actual = navigate(router, route, condition);
    str_eq(actual.as_str(), route)
}

/// Register a back handler; returns its index, under which the caller keeps
/// it. Handlers are tried in registration order.
pub fn on_back(router: &mut Router) -> (r: usize)
    requires
        old(router)@.back_handlers < usize::MAX,
    ensures
        r == old(router)@.back_handlers,
        final(router)@ == (RouterView { back_handlers: old(router)@.back_handlers + 1, ..old(router)@ }),
{
    let index = router.back_handlers;
    router.back_handlers = router.back_handlers + 1;
    index
}

/// Handle a back-navigation event. `handler(i)` runs back handler `i`; they
/// are tried in order and the first that returns `true` consumes the event.
/// If none does, the router goes back. Returns whether the event was
/// handled (by a handler or by going back in history).
pub fn handle_back<F: Fn(usize) -> bool>(router: &mut Router, handler: F) -> (r: bool)
    requires
        forall|i: usize| call_requires(handler, (i,)),
    ensures
        (exists|i: usize| (i as int) < old(router)@.back_handlers && #[trigger] call_ensures(handler, (i,), true)
                && final(router)@ == old(router)@ && r) || ((forall|j: usize| (j as int) < old(router)@.back_handlers ==> #[trigger] call_ensures(handler, (j,), false))
            && r == (old(router)@.history.len() > 1) && final(router)@ == spec_go_back(old(router)@)),
{
    let n = router.back_handlers;
    let mut i: usize = 0;
    while i < n
        invariant
            n == router@.back_handlers,
            i <= n,
            forall|i: usize| call_requires(handler, (i,)),
            forall|j: usize| (j as int) < i ==> #[trigger] call_ensures(handler, (j,), false),
        decreases n - i,
    {
        if handler(i) {
            return true;
        }
        i = i + 1;
    }
    go_back(router)
}

/// Push a modal route on top of the modal stack without affecting the main
/// history.
pub fn present_modal(router: &mut Router, route: &str)
    ensures
        final(router)@ == spec_present(old(router)@, route@),
{
    router.modals.push(route.to_owned());
    assert(router@.modals =~= old(router)@.modals.push(route@));
}

/// Dismiss the top-most modal. Returns `false` if there is no modal to dismiss.
pub fn dismiss_modal(router: &mut Router) -> (r: bool)
    ensures
        r == (old(router)@.modals.len() > 0),
        final(router)@ == spec_dismiss(old(router)@),
{
    if router.modals.len() == 0 {
        return false;
    }
    router.modals.pop();
    assert(router@.modals =~= old(router)@.modals.drop_last());
    true
}

/// Returns the current top-most modal route, if any modal is presented.
pub fn current_modal(router: &Router) -> (r: Option<String>)
    ensures
        router@.modals.len() == 0 ==> r is None,
        router@.modals.len() > 0 ==> (r matches Some(m) && m@ == router@.modals.last()),
{
    let n = router.modals.len();
    if n == 0 {
        None
    } else {
        Some(router.modals[n - 1].clone())
    }
}

/// Returns the full modal stack (bottom to top).
pub fn modal_stack(router: &Router) -> (r: Vec<String>)
    ensures
        strings_view(r@) == router@.modals,
{
    let n = router.modals.len();
    let mut out: Vec<String> = Vec::new();
    let mut i: usize = 0;
    while i < n
        invariant
            n == router.modals@.len(),
            i <= n,
            out@.len() == i,
            forall|j: int| 0 <= j < i ==> #[trigger] out@[j]@ == router.modals@[j]@,
        decreases n - i,
    {
        out.push(router.modals[i].clone());
        i = i + 1;
    }
    assert(strings_view(out@) =~= router@.modals);
    out
}

/// Binds the string router to browser history on the web target; on native
/// targets there is nothing to bind.
pub fn bind_web_history() {
}

} // verus!

verus! {

/// Parameters of the current route against the registered route patterns:
/// the first pattern that matches gives its `:param` captures, and the map
/// is empty when no pattern matches or none is registered. The string router
/// registers no route pattern, so the map is empty; match a pattern with
/// [`match_route`] for its parameters.
pub fn use_params(router: &Router) -> (r: StringMap)
    ensures
        r@ == Map::<Seq<char>, Seq<char>>::empty(),
{
    let _ = router;
    StringMap::new()
}

/// Indices of the registrations whose route key equals `route`, in order.
pub open spec fn matching_indices(keys: Seq<Seq<char>>, route: Seq<char>, n: int) -> Seq<usize>
    decreases n,
{
    if n <= 0 {
        Seq::empty()
    } else if keys[n - 1] == route {
        matching_indices(keys, route, n - 1).push((n - 1) as usize)
    } else {
        matching_indices(keys, route, n - 1)
    }
}

/// The registrations that fire for `route` are exactly those registered
/// under `route`, each once, in registration order: every listed index is
/// a registration under `route`, the indices strictly increase, and every
/// registration under `route` is listed. Firing leaves the registrations as
/// they are, so firing again lists the same ones.
pub proof fn lemma_fired_registrations(keys: Seq<Seq<char>>, route: Seq<char>, n: int)
    requires
        0 <= n <= keys.len(),
        n <= usize::MAX,
    ensures
        forall|i: int|
            0 <= i < matching_indices(keys, route, n).len() ==> (#[trigger] matching_indices(keys, route, n)[i]) < n
                && keys[matching_indices(keys, route, n)[i] as int] == route,
        forall|i: int, j: int|
            0 <= i < j < matching_indices(keys, route, n).len() ==> #[trigger] matching_indices(keys, route, n)[i]
                < #[trigger] matching_indices(keys, route, n)[j],
        forall|k: int|
            0 <= k < n && #[trigger] keys[k] == route ==> exists|i: int|
                0 <= i < matching_indices(keys, route, n).len() && matching_indices(keys, route, n)[i] == k,
    decreases n,
{
    if n > 0 {
        lemma_fired_registrations(keys, route, n - 1);
        let prev = matching_indices(keys, route, n - 1);
        let m = matching_indices(keys, route, n);
        if keys[n - 1] == route {
            assert(m == prev.push((n - 1) as usize));
            assert forall|k: int| 0 <= k < n && #[trigger] keys[k] == route implies exists|i: int|
                0 <= i < m.len() && m[i] == k by {
                if k == n - 1 {
                    assert(m[m.len() - 1] == k);
                } else {
                    let i = choose|i: int| 0 <= i < prev.len() && prev[i] == k;
                    assert(m[i] == k);
                }
            }
        } else {
            assert(m == prev);
        }
    }
}

/// Screen appear/disappear registrations, keyed by route. The callbacks are
/// held by the caller under the index that registration returns.
pub struct ScreenLifecycle {
    appear: Vec<String>,
    disappear: Vec<String>,
}

impl ScreenLifecycle {
    /// No registrations.
    pub fn new() -> (r: ScreenLifecycle)
        ensures
            r.appear_keys() == Seq::<Seq<char>>::empty(),
            r.disappear_keys() == Seq::<Seq<char>>::empty(),
    {
        let r = ScreenLifecycle { appear: Vec::new(), disappear: Vec::new() };
        assert(r.appear_keys() =~= Seq::<Seq<char>>::empty());
        assert(r.disappear_keys() =~= Seq::<Seq<char>>::empty());
        r
    }

    /// Route keys of the appear registrations, in order.
    pub closed spec fn appear_keys(&self) -> Seq<Seq<char>> {
        strings_view(self.appear@)
    }

    /// Route keys of the disappear registrations, in order.
    pub closed spec fn disappear_keys(&self) -> Seq<Seq<char>> {
        strings_view(self.disappear@)
    }
}

/// A lifecycle holds at most `usize::MAX` registrations of each kind, so
/// every registration index fits a `usize`.
pub proof fn lemma_lifecycle_len_bound(lifecycle: &ScreenLifecycle)
    ensures
        lifecycle.appear_keys().len() <= usize::MAX,
        lifecycle.disappear_keys().len() <= usize::MAX,
{
    assert(lifecycle.appear@.len() == lifecycle.appear.len());
    assert(lifecycle.disappear@.len() == lifecycle.disappear.len());
}


fn matching(keys: &Vec<String>, route: &str) -> (r: Vec<usize>)
    ensures
        r@ == matching_indices(strings_view(keys@), route@, keys@.len() as int),
{
    let n = keys.len();
    let mut out: Vec<usize> = Vec::new();
    let mut i: usize = 0;
    while i < n
        invariant
            n == keys@.len(),
            i <= n,
            out@ == matching_indices(strings_view(keys@), route@, i as int),
        decreases n - i,
    {
        if str_eq(keys[i].as_str(), route) {
            out.push(i);
        }
        i = i + 1;
    }
    out
}

/// Register an appear callback for the screen with the given route key;
/// returns its index.
pub fn on_appear(lifecycle: &mut ScreenLifecycle, route: &str) -> (r: usize)
    ensures
        r == old(lifecycle).appear_keys().len(),
        final(lifecycle).appear_keys() == old(lifecycle).appear_keys().push(route@),
        final(lifecycle).disappear_keys() == old(lifecycle).disappear_keys(),
{
    let index = lifecycle.appear.len();
    lifecycle.appear.push(route.to_owned());
    assert(lifecycle.appear_keys() =~= old(lifecycle).appear_keys().push(route@));
    index
}

/// Register a disappear callback for the screen with the given route key;
/// returns its index.
pub fn on_disappear(lifecycle: &mut ScreenLifecycle, route: &str) -> (r: usize)
    ensures
        r == old(lifecycle).disappear_keys().len(),
        final(lifecycle).disappear_keys() == old(lifecycle).disappear_keys().push(route@),
        final(lifecycle).appear_keys() == old(lifecycle).appear_keys(),
{
    let index = lifecycle.disappear.len();
    lifecycle.disappear.push(route.to_owned());
    assert(lifecycle.disappear_keys() =~= old(lifecycle).disappear_keys().push(route@));
    index
}

/// The appear callbacks to run when the screen `route` appears: the indices
/// of the registrations for that route, in registration order.
pub fn fire_appear(lifecycle: &ScreenLifecycle, route: &str) -> (r: Vec<usize>)
    ensures
        r@ == matching_indices(
            lifecycle.appear_keys(),
            route@,
            lifecycle.appear_keys().len() as int,
        ),
{
    matching(&lifecycle.appear, route)
}

/// Registering one more appear callback under `key` leaves the callbacks
/// fired for `route` as they were, with the new registration added last
/// exactly when `key` is `route`.
pub proof fn lemma_register_then_fire(keys: Seq<Seq<char>>, key: Seq<char>, route: Seq<char>)
    ensures
        matching_indices(keys.push(key), route, keys.len() + 1int) == if key == route {
            matching_indices(keys, route, keys.len() as int).push(keys.len() as usize)
        } else {
            matching_indices(keys, route, keys.len() as int)
        },
{
    lemma_matching_prefix(keys, key, route, keys.len() as int);
}

/// Extending the registrations does not change which of the first `n` fire.
proof fn lemma_matching_prefix(keys: Seq<Seq<char>>, key: Seq<char>, route: Seq<char>, n: int)
    requires
        n <= keys.len(),
    ensures
        matching_indices(keys.push(key), route, n) == matching_indices(keys, route, n),
    decreases n,
{
    if n > 0 {
        lemma_matching_prefix(keys, key, route, n - 1);
        assert(keys.push(key)[n - 1] == keys[n - 1]);
    }
}

/// What `fire_appear` lists for a lifecycle: exactly the appear
/// registrations made under `route`, each once, in registration order; the
/// lifecycle is left as it is, so firing again lists the same ones.
pub proof fn lemma_fire_appear_lists_matching(lifecycle: &ScreenLifecycle, route: Seq<char>)
    ensures
        ({
            let keys = lifecycle.appear_keys();
            let fired = matching_indices(keys, route, keys.len() as int);
            &&& forall|i: int| 0 <= i < fired.len() ==> (#[trigger] fired[i]) < keys.len() && keys[fired[i] as int] == route
            &&& forall|i: int, j: int| 0 <= i < j < fired.len() ==> #[trigger] fired[i] < #[trigger] fired[j]
            &&& forall|k: int| 0 <= k < keys.len() && #[trigger] keys[k] == route ==> exists|i: int|
                0 <= i < fired.len() && fired[i] == k
        }),
{
    lemma_lifecycle_len_bound(lifecycle);
    let keys = lifecycle.appear_keys();
    lemma_fired_registrations(keys, route, keys.len() as int);
}

/// The disappear callbacks to run when the screen `route` disappears.
pub fn fire_disappear(lifecycle: &ScreenLifecycle, route: &str) -> (r: Vec<usize>)
    ensures
        r@ == matching_indices(
            lifecycle.disappear_keys(),
            route@,
            lifecycle.disappear_keys().len() as int,
        ),
{
    matching(&lifecycle.disappear, route)
}

/// Run a side effect whenever the current screen gains focus: it runs at
/// once, and then on every appear of `route`. The effect is registered as an
/// appear callback; the result lists the callbacks to run now, which is
/// that new registration alone (the caller keeps the effect under that
/// index).
pub fn use_focus_effect(lifecycle: &mut ScreenLifecycle, route: &str) -> (r: Vec<usize>)
    ensures
        r@ == seq![old(lifecycle).appear_keys().len() as usize],
        final(lifecycle).appear_keys() == old(lifecycle).appear_keys().push(route@),
        final(lifecycle).disappear_keys() == old(lifecycle).disappear_keys(),
{
    let index = on_appear(lifecycle, route);
    let mut now: Vec<usize> = Vec::new();
    now.push(index);
    now
}

} // verus!
