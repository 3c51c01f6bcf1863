use vstd::prelude::*;
use crate::actor::OnAirActor;
use crate::error::Error;
use crate::props::PropertyBag;
use crate::props::all_names;
use crate::state::State;
use crate::state::any_name_listed;
use crate::state::link_added_links;
use crate::state::link_event_error;

verus! {

/// The watcher that the graph event source drives: it owns the shared state
/// aggregate and turns the source's three event kinds into state mutations.
/// The surrounding process holds it behind a mutual-exclusion guard and calls
/// one handler per delivered event.
pub struct RecordingWatcher<T: OnAirActor> {
    state: State<T>,
}

impl<T: OnAirActor> RecordingWatcher<T> {
    /// The owned state aggregate.
    pub closed spec fn state(self) -> State<T> {
        self.state
    }

    /// A watcher over a fresh state: nothing classified, off the air.
    pub fn new(devices_in_scope: Vec<String>, devices_ignored: Vec<String>, actor: T) -> (w: Self)
        ensures
            w.state().wf(),
            w.state().in_scope_names() == devices_in_scope@,
            w.state().ignored_names() == devices_ignored@,
            w.state().ids_in_scope() == Set::<u32>::empty(),
            w.state().ids_ignored() == Set::<u32>::empty(),
            w.state().active_links() == Set::<u32>::empty(),
            !w.state().on_air(),
            w.state().actor() == actor,
    {
        RecordingWatcher { state: State::new(devices_in_scope, devices_ignored, actor) }
    }

    /// Handles a node-added event: classifies the node by its aliases and
    /// records its primary name. Never touches links, the flag, or the actor.
    pub fn handle_node_added(&mut self, id: u32, props: &PropertyBag)
        requires
            old(self).state().wf(),
            id != u32::MAX,
        ensures
            final(self).state().wf(),
            final(self).state().on_air() == old(self).state().on_air(),
            final(self).state().active_links() == old(self).state().active_links(),
            final(self).state().actor() == old(self).state().actor(),
            final(self).state().in_scope_names() == old(self).state().in_scope_names(),
            final(self).state().ignored_names() == old(self).state().ignored_names(),
            all_names(props@).len() > 0 ==> final(self).state().ids_in_scope() == (
            if any_name_listed(old(self).state().in_scope_names(), all_names(props@)) {
                old(self).state().ids_in_scope().insert(id)
            } else {
                old(self).state().ids_in_scope()
            }),
            all_names(props@).len() == 0 ==> final(self).state().ids_in_scope() == old(
                self,
            ).state().ids_in_scope(),
    {
        self.state.add_node(id, props);
    }

    /// Handles a link-added event: evaluates the link, inserts it into the
    /// active set when it qualifies, recomputes the flag, and fires the
    /// on-air hook exactly when the flag turned true.
    pub fn handle_link_added(&mut self, id: u32, props: &PropertyBag) -> (r: Result<(), Error>)
        requires
            old(self).state().wf(),
        ensures
            final(self).state().wf(),
            match r {
                Ok(_) => link_event_error(props@) is None,
                Err(e) => link_event_error(props@) == Some(e),
            },
            final(self).state().active_links() == link_added_links(
                old(self).state().ids_in_scope(),
                old(self).state().ids_ignored(),
                old(self).state().active_links(),
                id,
                props@,
            ),
            final(self).state().on_air() == !final(self).state().active_links().is_empty(),
            final(self).state().ids_in_scope() == old(self).state().ids_in_scope(),
            final(self).state().ids_ignored() == old(self).state().ids_ignored(),
            final(self).state().actor().on_air_calls() == old(
                self,
            ).state().actor().on_air_calls() + (
            if !old(self).state().on_air() && final(self).state().on_air() {
                1nat
            } else {
                0nat
            }),
            final(self).state().actor().off_air_calls() == old(
                self,
            ).state().actor().off_air_calls() + (
            if old(self).state().on_air() && !final(self).state().on_air() {
                1nat
            } else {
                0nat
            }),
    {
        self.state.add_link(&id, props)
    }

    /// Handles an id-removed event. The source reports removal of any object
    /// kind, so the watcher itself first checks membership in the active
    /// links and only then treats the event as a link removal; either way the
    /// result is that `id` is no longer an active link, and the off-air hook
    /// fired exactly when the last active link disappeared.
    pub fn handle_global_removed(&mut self, id: u32)
        requires
            old(self).state().wf(),
        ensures
            final(self).state().wf(),
            final(self).state().active_links() == old(self).state().active_links().remove(id),
            final(self).state().on_air() == !final(self).state().active_links().is_empty(),
            final(self).state().ids_in_scope() == old(self).state().ids_in_scope(),
            final(self).state().ids_ignored() == old(self).state().ids_ignored(),
            final(self).state().actor().on_air_calls() == old(
                self,
            ).state().actor().on_air_calls(),
            final(self).state().actor().off_air_calls() == old(
                self,
            ).state().actor().off_air_calls() + (
            if old(self).state().on_air() && !final(self).state().on_air() {
                1nat
            } else {
                0nat
            }),
    {
        proof {
            self.state.lemma_wf_flag();
        }
        if self.state.is_link_active(&id) {
            proof {
                assert(!old(self).state().active_links().is_empty()) by {
                    assert(old(self).state().active_links().contains(id));
                }
            }
            self.state.remove_link(&id);
        } else {
            proof {
                assert(old(self).state().active_links().remove(id) =~= old(
                    self,
                ).state().active_links());
            }
        }
    }

    /// The current value of the edge-triggered flag.
    pub fn check_if_on_air(&self) -> (r: bool)
        ensures
            r == self.state().on_air(),
    {
        self.state.check_if_on_air()
    }

    /// Whether `id` is currently an active recording link.
    pub fn is_link_active(&self, id: u32) -> (r: bool)
        ensures
            r == self.state().active_links().contains(id),
    {
        self.state.is_link_active(&id)
    }

    /// The registry's primary name for `id`, or the sentinel "unresolved"
    /// placeholder when the id was never recorded.
    pub fn resolve_node_id<'a>(&'a self, id: u32) -> (r: &'a String)
        requires
            self.state().wf(),
        ensures
            self.state().name_map().contains_key(id) ==> r@ == self.state().name_map()[id],
            !self.state().name_map().contains_key(id) ==> r@ == "unresolved"@,
    {
        self.state.resolve_node_id(&id)
    }

    /// Read access to the hook actor, so its recorded invocations can be
    /// observed.
    pub fn actor_ref(&self) -> (r: &T)
        ensures
            *r == self.state().actor(),
    {
        self.state.actor_ref()
    }
}

} // verus!
