use vstd::prelude::*;
use std::collections::HashMap;
use std::collections::HashSet;
use crate::actor::OnAirActor;
use crate::error::Error;
use crate::parse::decimal_val;
use crate::parse::is_decimal;
use crate::parse::parse_u32;
use crate::props::PropertyBag;
use crate::props::all_names;
use crate::props::get_all_names;
use crate::props::get_input_node;
use crate::props::get_output_node;
use crate::props::lookup;

verus! {

broadcast use vstd::std_specs::hash::group_hash_axioms;

/// Does any entry of `list` equal `name` exactly (case-sensitive)?
pub open spec fn name_listed(list: Seq<String>, name: Seq<char>) -> bool {
    exists|i: int| 0 <= i < list.len() && #[trigger] list[i]@ == name
}

/// Does any of `names` occur in `list`?
pub open spec fn any_name_listed(list: Seq<String>, names: Seq<Seq<char>>) -> bool {
    exists|i: int| 0 <= i < names.len() && name_listed(list, #[trigger] names[i])
}

/// The property key that holds a link's output endpoint node id.
pub open spec fn output_key() -> Seq<char> {
    "link.output.node"@
}

/// The property key that holds a link's input endpoint node id.
pub open spec fn input_key() -> Seq<char> {
    "link.input.node"@
}

/// The endpoint node id stored under `key`, if present and well-formed.
pub open spec fn endpoint_id(props: Seq<(String, String)>, key: Seq<char>) -> Option<u32> {
    match lookup(props, key) {
        Some(v) => if is_decimal(v) && decimal_val(v) <= u32::MAX {
            Some(decimal_val(v) as u32)
        } else {
            None
        },
        None => None,
    }
}

/// The error a link-added event produces, if any: the input endpoint is
/// examined first, then the output endpoint, each first for presence and then
/// for well-formedness.
pub open spec fn link_event_error(props: Seq<(String, String)>) -> Option<Error> {
    if lookup(props, input_key()) is None {
        Some(Error::MissingEndpoint)
    } else if endpoint_id(props, input_key()) is None {
        Some(Error::MalformedEndpoint)
    } else if lookup(props, output_key()) is None {
        Some(Error::MissingEndpoint)
    } else if endpoint_id(props, output_key()) is None {
        Some(Error::MalformedEndpoint)
    } else {
        None
    }
}

/// The link evaluator: a link counts as an active recording link exactly when
/// its output endpoint is in scope and its input endpoint is not ignored.
pub open spec fn link_qualifies(in_scope: Set<u32>, ignored: Set<u32>, out_id: u32, in_id: u32) -> bool {
    in_scope.contains(out_id) && !ignored.contains(in_id)
}

/// The set of active links after a well-formed link-added event.
pub open spec fn link_step(
    in_scope: Set<u32>,
    ignored: Set<u32>,
    links: Set<u32>,
    link_id: u32,
    out_id: u32,
    in_id: u32,
) -> Set<u32> {
    if link_qualifies(in_scope, ignored, out_id, in_id) {
        links.insert(link_id)
    } else {
        links
    }
}

/// The set of active links after any link-added event: an event whose
/// endpoints are missing or malformed changes nothing.
pub open spec fn link_added_links(
    in_scope: Set<u32>,
    ignored: Set<u32>,
    links: Set<u32>,
    link_id: u32,
    props: Seq<(String, String)>,
) -> Set<u32> {
    match (endpoint_id(props, output_key()), endpoint_id(props, input_key())) {
        (Some(out_id), Some(in_id)) => link_step(in_scope, ignored, links, link_id, out_id, in_id),
        _ => links,
    }
}

/// The shared aggregate: scope configuration, derived id sets, the active
/// recording links, the on-air flag, the diagnostic name registry, and the
/// hook actor invoked on flag transitions.
pub struct State<T: OnAirActor> {
    devices_in_scope: Vec<String>,
    devices_ignored: Vec<String>,
    ids_in_scope: HashSet<u32>,
    ids_ignored: HashSet<u32>,
    active_links: HashSet<u32>,
    on_air: bool,
    registry: HashMap<u32, String>,
    actor: T,
}

impl<T: OnAirActor> State<T> {
    /// The configured in-scope (monitored) device names.
    pub closed spec fn in_scope_names(self) -> Seq<String> {
        self.devices_in_scope@
    }

    /// The configured ignored device names.
    pub closed spec fn ignored_names(self) -> Seq<String> {
        self.devices_ignored@
    }

    /// The ids classified as in scope so far.
    pub closed spec fn ids_in_scope(self) -> Set<u32> {
        self.ids_in_scope@
    }

    /// The ids classified as ignored so far.
    pub closed spec fn ids_ignored(self) -> Set<u32> {
        self.ids_ignored@
    }

    /// The ids of the currently active recording links.
    pub closed spec fn active_links(self) -> Set<u32> {
        self.active_links@
    }

    /// The edge-triggered public flag.
    pub closed spec fn on_air(self) -> bool {
        self.on_air
    }

    /// The id-to-primary-name registry used for diagnostics.
    pub closed spec fn name_map(self) -> Map<u32, Seq<char>> {
        self.registry@.map_values(|v: String| v@)
    }

    /// The hook actor.
    pub closed spec fn actor(self) -> T {
        self.actor
    }

    /// The registry holds the sentinel fallback entry under the maximum
    /// representable id.
    pub closed spec fn sentinel_ok(self) -> bool {
        &&& self.registry@.contains_key(u32::MAX)
        &&& self.registry@[u32::MAX]@ == "unresolved"@
    }

    /// The state's invariant: the flag equals "some active link exists", and
    /// the registry holds its sentinel fallback entry.
    pub closed spec fn wf(self) -> bool {
        &&& self.on_air == !self.active_links@.is_empty()
        &&& self.sentinel_ok()
    }

    /// In a well-formed state the flag equals "some active link exists": the
    /// invariant every mutation re-establishes.
    pub proof fn lemma_wf_flag(self)
        requires
            self.wf(),
        ensures
            self.on_air() == !self.active_links().is_empty(),
    {
    }

    /// A fresh state: nothing classified, no active link, off the air, and
    /// the registry holding only the sentinel entry.
    pub fn new(devices_in_scope: Vec<String>, devices_ignored: Vec<String>, actor: T) -> (s: Self)
        ensures
            s.wf(),
            s.in_scope_names() == devices_in_scope@,
            s.ignored_names() == devices_ignored@,
            s.ids_in_scope() == Set::<u32>::empty(),
            s.ids_ignored() == Set::<u32>::empty(),
            s.active_links() == Set::<u32>::empty(),
            !s.on_air(),
            s.name_map() == Map::<u32, Seq<char>>::empty().insert(u32::MAX, "unresolved"@),
            s.actor() == actor,
    {
        let mut registry: HashMap<u32, String> = HashMap::new();
        registry.insert(u32::MAX, "unresolved".to_owned());
        let s = State {
            devices_in_scope,
            devices_ignored,
            ids_in_scope: HashSet::new(),
            ids_ignored: HashSet::new(),
            active_links: HashSet::new(),
            on_air: false,
            registry,
            actor,
        };
        proof {
            assert(s.name_map() =~= Map::<u32, Seq<char>>::empty().insert(u32::MAX, "unresolved"@));
            assert(s.active_links@.is_empty());
        }
        s
    }

    /// Whether a link whose output endpoint is `output_node` would be
    /// considered relevant: the output endpoint has been classified in scope.
    pub fn is_link_in_scope(&self, output_node: &u32) -> (r: bool)
        ensures
            r == self.ids_in_scope().contains(*output_node),
    {
        self.ids_in_scope.contains(output_node)
    }

    /// Whether `id` is currently an active recording link: the membership test
    /// the id-removed handler performs before treating a removal as a link
    /// removal.
    pub fn is_link_active(&self, id: &u32) -> (r: bool)
        ensures
            r == self.active_links().contains(*id),
    {
        self.active_links.contains(id)
    }

    /// Read access to the hook actor, so its recorded invocations can be
    /// observed.
    pub fn actor_ref(&self) -> (r: &T)
        ensures
            *r == self.actor(),
    {
        &self.actor
    }

    /// The current value of the edge-triggered flag.
    pub fn check_if_on_air(&self) -> (r: bool)
        ensures
            r == self.on_air(),
    {
        self.on_air
    }

    /// The registry's primary name for `id`, or the sentinel "unresolved"
    /// placeholder when the id was never recorded. Never fails.
    pub fn resolve_node_id<'a>(&'a self, id: &u32) -> (r: &'a String)
        requires
            self.wf(),
        ensures
            self.name_map().contains_key(*id) ==> r@ == self.name_map()[*id],
            !self.name_map().contains_key(*id) ==> r@ == "unresolved"@,
    {
        proof {
            assert(self.name_map().dom() =~= self.registry@.dom());
        }
        match self.registry.get(id) {
            Some(name) => name,
            None => {
                let max_id: u32 = u32::MAX;
                self.registry.get(&max_id).unwrap()
            },
        }
    }

    /// Recomputes the flag as "the active link set is non-empty" and, exactly
    /// when that changed its value, invokes the matching hook once.
    fn update_on_air(&mut self)
        ensures
            final(self).on_air() == !old(self).active_links().is_empty(),
            final(self).in_scope_names() == old(self).in_scope_names(),
            final(self).ignored_names() == old(self).ignored_names(),
            final(self).ids_in_scope() == old(self).ids_in_scope(),
            final(self).ids_ignored() == old(self).ids_ignored(),
            final(self).active_links() == old(self).active_links(),
            final(self).name_map() == old(self).name_map(),
            final(self).sentinel_ok() == old(self).sentinel_ok(),
            final(self).actor().on_air_calls() == old(self).actor().on_air_calls() + (
            if !old(self).on_air() && !old(self).active_links().is_empty() {
                1nat
            } else {
                0nat
            }),
            final(self).actor().off_air_calls() == old(self).actor().off_air_calls() + (
            if old(self).on_air() && old(self).active_links().is_empty() {
                1nat
            } else {
                0nat
            }),
            old(self).on_air() == final(self).on_air() ==> final(self).actor() == old(self).actor(),
    {
        let current_state = self.on_air;
        let target_state = !self.active_links.is_empty();
        if current_state != target_state {
            self.on_air = target_state;
            if target_state {
                let _ = self.run_on_air_hook();
            } else {
                let _ = self.run_off_air_hook();
            }
        }
    }

    /// Dispatches the on-air transition to the actor. Never an error itself:
    /// hook failures are the actor's own concern.
    fn run_on_air_hook(&mut self) -> (r: Result<(), Error>)
        ensures
            r is Ok,
            final(self).actor().on_air_calls() == old(self).actor().on_air_calls() + 1,
            final(self).actor().off_air_calls() == old(self).actor().off_air_calls(),
            final(self).in_scope_names() == old(self).in_scope_names(),
            final(self).ignored_names() == old(self).ignored_names(),
            final(self).ids_in_scope() == old(self).ids_in_scope(),
            final(self).ids_ignored() == old(self).ids_ignored(),
            final(self).active_links() == old(self).active_links(),
            final(self).on_air() == old(self).on_air(),
            final(self).name_map() == old(self).name_map(),
            final(self).sentinel_ok() == old(self).sentinel_ok(),
    {
        self.actor.go_on_air();
        Ok(())
    }

    /// Dispatches the off-air transition to the actor.
    fn run_off_air_hook(&mut self) -> (r: Result<(), Error>)
        ensures
            r is Ok,
            final(self).actor().off_air_calls() == old(self).actor().off_air_calls() + 1,
            final(self).actor().on_air_calls() == old(self).actor().on_air_calls(),
            final(self).in_scope_names() == old(self).in_scope_names(),
            final(self).ignored_names() == old(self).ignored_names(),
            final(self).ids_in_scope() == old(self).ids_in_scope(),
            final(self).ids_ignored() == old(self).ids_ignored(),
            final(self).active_links() == old(self).active_links(),
            final(self).on_air() == old(self).on_air(),
            final(self).name_map() == old(self).name_map(),
            final(self).sentinel_ok() == old(self).sentinel_ok(),
    {
        self.actor.go_off_air();
        Ok(())
    }

    /// Handles a node-added event. Extracts the node's aliases; when there is
    /// none, the node is recorded nowhere. Otherwise the first alias becomes
    /// the node's primary name in the registry, and the id is added to the
    /// in-scope id set exactly when some alias matches a configured in-scope
    /// name, and to the ignored id set exactly when some alias matches a
    /// configured ignored name (both matches are case-sensitive and exact, and
    /// both may fire). Classification is sticky: ids are never removed here.
    /// The maximum representable id is reserved for the registry's sentinel.
    pub fn add_node(&mut self, id: u32, props: &PropertyBag)
        requires
            old(self).wf(),
            id != u32::MAX,
        ensures
            final(self).wf(),
            final(self).in_scope_names() == old(self).in_scope_names(),
            final(self).ignored_names() == old(self).ignored_names(),
            final(self).active_links() == old(self).active_links(),
            final(self).on_air() == old(self).on_air(),
            final(self).on_air() == !final(self).active_links().is_empty(),
            final(self).actor() == old(self).actor(),
            all_names(props@).len() == 0 ==> {
                &&& final(self).name_map() == old(self).name_map()
                &&& final(self).ids_in_scope() == old(self).ids_in_scope()
                &&& final(self).ids_ignored() == old(self).ids_ignored()
            },
            all_names(props@).len() > 0 ==> {
                &&& final(self).name_map() == old(self).name_map().insert(
                    id,
                    all_names(props@)[0],
                )
                &&& final(self).ids_in_scope() == (
                if any_name_listed(old(self).in_scope_names(), all_names(props@)) {
                    old(self).ids_in_scope().insert(id)
                } else {
                    old(self).ids_in_scope()
                })
                &&& final(self).ids_ignored() == (
                if any_name_listed(old(self).ignored_names(), all_names(props@)) {
                    old(self).ids_ignored().insert(id)
                } else {
                    old(self).ids_ignored()
                })
            },
    {
        let node_names = get_all_names(props);
        if node_names.len() > 0 {
            let primary_name = node_names[0].clone();
            self.registry.insert(id, primary_name);
            proof {
                assert(self.name_map() =~= old(self).name_map().insert(
                    id,
                    all_names(props@)[0],
                ));
            }
            if any_listed(&self.devices_in_scope, &node_names) {
                self.ids_in_scope.insert(id);
            }
            if any_listed(&self.devices_ignored, &node_names) {
                self.ids_ignored.insert(id);
            }
        }
    }

    /// Handles a link-added event. Parses the two mandatory endpoint ids out
    /// of the property bag (the input endpoint first, then the output), and
    /// fails without touching any state when one is absent or malformed. On
    /// success the link id is inserted into the active links exactly when the
    /// output endpoint is in scope and the input endpoint is not ignored;
    /// then the flag is recomputed, firing the on-air hook exactly when the
    /// flag turned true.
    pub fn add_link(&mut self, id: &u32, props: &PropertyBag) -> (r: Result<(), Error>)
        requires
            old(self).wf(),
        ensures
            final(self).wf(),
            match r {
                Ok(_) => link_event_error(props@) is None,
                Err(e) => link_event_error(props@) == Some(e),
            },
            final(self).active_links() == link_added_links(
                old(self).ids_in_scope(),
                old(self).ids_ignored(),
                old(self).active_links(),
                *id,
                props@,
            ),
            final(self).on_air() == !final(self).active_links().is_empty(),
            final(self).in_scope_names() == old(self).in_scope_names(),
            final(self).ignored_names() == old(self).ignored_names(),
            final(self).ids_in_scope() == old(self).ids_in_scope(),
            final(self).ids_ignored() == old(self).ids_ignored(),
            final(self).name_map() == old(self).name_map(),
            final(self).actor().on_air_calls() == old(self).actor().on_air_calls() + (
            if !old(self).on_air() && final(self).on_air() {
                1nat
            } else {
                0nat
            }),
            final(self).actor().off_air_calls() == old(self).actor().off_air_calls() + (
            if old(self).on_air() && !final(self).on_air() {
                1nat
            } else {
                0nat
            }),
            old(self).on_air() == final(self).on_air() ==> final(self).actor() == old(self).actor(),
    {
        let input_str = match get_input_node(props) {
            Ok(v) => v,
            Err(e) => {
                return Err(e);
            },
        };
        let input_node = match parse_u32(input_str.as_str()) {
            Some(v) => v,
            None => {
                return Err(Error::MalformedEndpoint);
            },
        };
        let output_str = match get_output_node(props) {
            Ok(v) => v,
            Err(e) => {
                return Err(e);
            },
        };
        let output_node = match parse_u32(output_str.as_str()) {
            Some(v) => v,
            None => {
                return Err(Error::MalformedEndpoint);
            },
        };
        if self.is_link_in_scope(&output_node) {
            if !self.ids_ignored.contains(&input_node) {
                self.active_links.insert(*id);
            }
        }
        self.update_on_air();
        Ok(())
    }

    /// Marks `id` as in scope directly, bypassing name classification.
    pub fn add_headset_id(&mut self, id: &u32)
        requires
            old(self).wf(),
        ensures
            final(self).wf(),
            final(self).ids_in_scope() == old(self).ids_in_scope().insert(*id),
            final(self).on_air() == !final(self).active_links().is_empty(),
            final(self).in_scope_names() == old(self).in_scope_names(),
            final(self).ignored_names() == old(self).ignored_names(),
            final(self).ids_ignored() == old(self).ids_ignored(),
            final(self).active_links() == old(self).active_links(),
            final(self).on_air() == old(self).on_air(),
            final(self).name_map() == old(self).name_map(),
            final(self).actor() == old(self).actor(),
    {
        self.ids_in_scope.insert(*id);
        self.update_on_air();
    }

    /// Removes `id` from the active recording links (a no-op when it is not
    /// a member), then recomputes the flag, firing the off-air hook exactly
    /// when the last active link disappeared.
    pub fn remove_link(&mut self, id: &u32)
        requires
            old(self).wf(),
        ensures
            final(self).wf(),
            final(self).active_links() == old(self).active_links().remove(*id),
            final(self).on_air() == !final(self).active_links().is_empty(),
            final(self).in_scope_names() == old(self).in_scope_names(),
            final(self).ignored_names() == old(self).ignored_names(),
            final(self).ids_in_scope() == old(self).ids_in_scope(),
            final(self).ids_ignored() == old(self).ids_ignored(),
            final(self).name_map() == old(self).name_map(),
            final(self).actor().on_air_calls() == old(self).actor().on_air_calls() + (
            if !old(self).on_air() && final(self).on_air() {
                1nat
            } else {
                0nat
            }),
            final(self).actor().off_air_calls() == old(self).actor().off_air_calls() + (
            if old(self).on_air() && !final(self).on_air() {
                1nat
            } else {
                0nat
            }),
            old(self).on_air() == final(self).on_air() ==> final(self).actor() == old(self).actor(),
    {
        self.active_links.remove(id);
        self.update_on_air();
    }
}

/// Every link active before a link-added event is still active after it:
/// the event can only insert a link, never remove one.
pub proof fn lemma_link_added_monotone(
    in_scope: Set<u32>,
    ignored: Set<u32>,
    links: Set<u32>,
    link_id: u32,
    props: Seq<(String, String)>,
)
    ensures
        links.subset_of(link_added_links(in_scope, ignored, links, link_id, props)),
{
    assert forall|x: u32| links.contains(x) implies link_added_links(
        in_scope,
        ignored,
        links,
        link_id,
        props,
    ).contains(x) by {}
}

/// Edge-trigger idempotence: while the active link set is non-empty (the
/// state is on the air), no link-added event can empty it, so the flag stays
/// raised and, by `add_link`'s contract, adding further active links fires no
/// additional on-air hook.
pub proof fn lemma_on_air_stable_under_link_added(
    in_scope: Set<u32>,
    ignored: Set<u32>,
    links: Set<u32>,
    link_id: u32,
    props: Seq<(String, String)>,
)
    requires
        !links.is_empty(),
    ensures
        !link_added_links(in_scope, ignored, links, link_id, props).is_empty(),
{
    lemma_link_added_monotone(in_scope, ignored, links, link_id, props);
    let after = link_added_links(in_scope, ignored, links, link_id, props);
    if after.is_empty() {
        assert forall|x: u32| !links.contains(x) by {
            if links.contains(x) {
                assert(after.contains(x));
            }
        }
        assert(links =~= Set::<u32>::empty());
    }
}

/// Whether `name` occurs in `list`, by exact, case-sensitive comparison.
fn contains_name(list: &Vec<String>, name: &String) -> (r: bool)
    ensures
        r == name_listed(list@, name@),
{
    let n = list.len();
    let mut i: usize = 0;
    while i < n
        invariant
            0 <= i <= n == list@.len(),
            forall|k: int| 0 <= k < i ==> #[trigger] list@[k]@ != name@,
        decreases n - i,
    {
        if list[i] == *name {
            proof {
                assert(name_listed(list@, name@)) by {
                    assert(list@[i as int]@ == name@);
                }
            }
            return true;
        }
        i = i + 1;
    }
    false
}

/// Whether any of `names` occurs in `list`.
fn any_listed(list: &Vec<String>, names: &Vec<String>) -> (r: bool)
    ensures
        r == any_name_listed(list@, names.deep_view()),
{
    let n = names.len();
    let mut i: usize = 0;
    while i < n
        invariant
            0 <= i <= n == names@.len(),
            forall|k: int| 0 <= k < i ==> !name_listed(list@, #[trigger] names.deep_view()[k]),
        decreases n - i,
    {
        if contains_name(list, &names[i]) {
            proof {
                assert(any_name_listed(list@, names.deep_view())) by {
                    assert(names.deep_view()[i as int] == names@[i as int]@);
                    assert(name_listed(list@, names.deep_view()[i as int]));
                }
            }
            return true;
        }
        i = i + 1;
    }
    false
}

} // verus!
