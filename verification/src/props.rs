use vstd::prelude::*;
use crate::error::Error;

verus! {

/// An ordered string-to-string property bag, the shape in which the graph
/// event source reports a node's or link's properties. Lookups return the
/// value of the first entry whose key matches exactly.
pub struct PropertyBag {
    entries: Vec<(String, String)>,
}

impl View for PropertyBag {
    type V = Seq<(String, String)>;

    closed spec fn view(&self) -> Seq<(String, String)> {
        self.entries@
    }
}

/// The value for `key` among the entries from index `from` on: the first
/// entry whose key matches exactly.
pub open spec fn lookup_from(
    entries: Seq<(String, String)>,
    from: int,
    key: Seq<char>,
) -> Option<Seq<char>>
    decreases entries.len() - from,
{
    if from < 0 || from >= entries.len() {
        None
    } else if entries[from].0@ == key {
        Some(entries[from].1@)
    } else {
        lookup_from(entries, from + 1, key)
    }
}

/// The value for `key`, or `None` when no entry has that key.
pub open spec fn lookup(entries: Seq<(String, String)>, key: Seq<char>) -> Option<Seq<char>> {
    lookup_from(entries, 0, key)
}

impl PropertyBag {
    /// An empty bag.
    pub fn new() -> (b: Self)
        ensures
            b@ == Seq::<(String, String)>::empty(),
    {
        PropertyBag { entries: Vec::new() }
    }

    /// Appends one property. Earlier entries keep priority on lookup.
    pub fn push(&mut self, key: String, value: String)
        ensures
            final(self)@ == old(self)@.push((key, value)),
    {
        self.entries.push((key, value));
    }

    /// The value of the first entry whose key equals `key` exactly
    /// (case-sensitive), if any.
    pub fn get<'a>(&'a self, key: &str) -> (r: Option<&'a String>)
        ensures
            match r {
                Some(v) => lookup(self@, key@) == Some(v@),
                None => lookup(self@, key@) is None,
            },
    {
        let owned: String = key.to_owned();
        let n = self.entries.len();
        let mut i: usize = 0;
        while i < n
            invariant
                0 <= i <= n == self@.len(),
                owned@ == key@,
                lookup_from(self@, 0, key@) == lookup_from(self@, i as int, key@),
            decreases n - i,
        {
            if self.entries[i].0 == owned {
                return Some(&self.entries[i].1);
            }
            i = i + 1;
        }
        None
    }
}

/// The string-encoded output endpoint node id of a link event.
pub fn get_output_node<'a>(props: &'a PropertyBag) -> (r: Result<&'a String, Error>)
    ensures
        match r {
            Ok(v) => lookup(props@, "link.output.node"@) == Some(v@),
            Err(e) => e == Error::MissingEndpoint && lookup(props@, "link.output.node"@) is None,
        },
{
    match props.get("link.output.node") {
        Some(v) => Ok(v),
        None => Err(Error::MissingEndpoint),
    }
}

/// The string-encoded input endpoint node id of a link event.
pub fn get_input_node<'a>(props: &'a PropertyBag) -> (r: Result<&'a String, Error>)
    ensures
        match r {
            Ok(v) => lookup(props@, "link.input.node"@) == Some(v@),
            Err(e) => e == Error::MissingEndpoint && lookup(props@, "link.input.node"@) is None,
        },
{
    match props.get("link.input.node") {
        Some(v) => Ok(v),
        None => Err(Error::MissingEndpoint),
    }
}

/// Lifts an optional alias into a sequence of zero or one aliases.
pub open spec fn opt_name(o: Option<Seq<char>>) -> Seq<Seq<char>> {
    match o {
        Some(v) => seq![v],
        None => Seq::empty(),
    }
}

/// The alias list of a node: the values of the description, nickname and name
/// keys that are present, in that probe order.
pub open spec fn all_names(entries: Seq<(String, String)>) -> Seq<Seq<char>> {
    opt_name(lookup(entries, "node.description"@)) + opt_name(lookup(entries, "node.nick"@))
        + opt_name(lookup(entries, "node.name"@))
}

/// Collects a node's aliases from its property bag, preserving probe order.
pub fn get_all_names(props: &PropertyBag) -> (names: Vec<String>)
    ensures
        names.deep_view() == all_names(props@),
{
    let mut names: Vec<String> = Vec::new();
    if let Some(v) = props.get("node.description") {
        names.push(v.clone());
    }
    if let Some(v) = props.get("node.nick") {
        names.push(v.clone());
    }
    if let Some(v) = props.get("node.name") {
        names.push(v.clone());
    }
    proof {
        assert(names.deep_view() =~= all_names(props@));
    }
    names
}

} // verus!
