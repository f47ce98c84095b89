//! All the networks of a ship under their names, the relays between them, and
//! the tick.

use vstd::prelude::*;
use crate::deserializer::Deserializer;
use crate::devices::chip::CodeRunner;
use crate::devices::Rack;
use crate::field::clone_fields;
use crate::field::Field;
use crate::field::FieldModel;
use crate::field::merge;
use crate::field::models;
use crate::network::describes;
use crate::network::Network;
use crate::text::lemma_lex_irreflexive;
use crate::text::lemma_lex_total;
use crate::text::lemma_lex_transitive;
use crate::text::lex_lt;
use crate::text::str_equal;
use crate::text::str_less;

verus! {

/// A relay: the name of the network it reads and of the network it writes.
pub type Edge = (Seq<char>, Seq<char>);

/// The names stand in strictly ascending lexicographic order.
pub open spec fn ascending(names: Seq<Seq<char>>) -> bool {
    forall|i: int, j: int| 0 <= i < j < names.len() ==> lex_lt(#[trigger] names[i], #[trigger] names[j])
}

/// Where `name` stands among `names`.
pub open spec fn index_of(names: Seq<Seq<char>>, name: Seq<char>) -> Option<int>
    decreases names.len(),
{
    if names.len() == 0 {
        None
    } else if names[0] == name {
        Some(0)
    } else {
        match index_of(names.drop_first(), name) {
            Some(i) => Some(i + 1),
            None => None,
        }
    }
}

/// `index_of` finds the first place where the name stands, and finds none only
/// where it stands nowhere.
pub proof fn lemma_index_of(names: Seq<Seq<char>>, name: Seq<char>)
    ensures
        match index_of(names, name) {
            Some(i) => 0 <= i < names.len() && names[i] == name && forall|j: int|
                0 <= j < i ==> names[j] != name,
            None => forall|j: int| 0 <= j < names.len() ==> names[j] != name,
        },
    decreases names.len(),
{
    if names.len() > 0 && names[0] != name {
        lemma_index_of(names.drop_first(), name);
        match index_of(names.drop_first(), name) {
            Some(i) => {
                assert forall|j: int| 0 <= j < i + 1 implies names[j] != name by {
                    if j > 0 {
                        assert(names[j] == names.drop_first()[j - 1]);
                    }
                }
            },
            None => {
                assert forall|j: int| 0 <= j < names.len() implies names[j] != name by {
                    if j > 0 {
                        assert(names[j] == names.drop_first()[j - 1]);
                    }
                }
            },
        }
    }
}

/// How many of `names` come before `name`: the place of `name` among names in
/// ascending order.
pub open spec fn rank(names: Seq<Seq<char>>, name: Seq<char>) -> int
    decreases names.len(),
{
    if names.len() == 0 {
        0
    } else {
        rank(names.drop_last(), name) + (if lex_lt(names.last(), name) {
            1int
        } else {
            0int
        })
    }
}

/// Among names in ascending order, the names before `name` are the first
/// `rank` of them.
pub proof fn lemma_rank(names: Seq<Seq<char>>, name: Seq<char>, i: int)
    requires
        ascending(names),
        0 <= i <= names.len(),
        forall|k: int| 0 <= k < i ==> lex_lt(names[k], name),
        i < names.len() ==> !lex_lt(names[i], name),
    ensures
        rank(names, name) == i,
    decreases names.len(),
{
    if names.len() > 0 {
        let front = names.drop_last();
        assert forall|a: int, b: int| 0 <= a < b < front.len() implies lex_lt(
            #[trigger] front[a],
            #[trigger] front[b],
        ) by {
            assert(front[b] == names[b]);
        }
        if i == names.len() {
            assert forall|k: int| 0 <= k < i - 1 implies lex_lt(front[k], name) by {
                assert(front[k] == names[k]);
            }
            lemma_rank(front, name, i - 1);
        } else {
            assert forall|k: int| 0 <= k < i implies lex_lt(front[k], name) by {
                assert(front[k] == names[k]);
            }
            if i < front.len() {
                assert(front[i] == names[i]);
            }
            lemma_rank(front, name, i);
            if lex_lt(names.last(), name) {
                if i < names.len() - 1 {
                    lemma_lex_transitive(names[i], names.last(), name);
                }
            }
        }
    }
}

/// Names in ascending order are all different.
pub proof fn lemma_ascending_distinct(names: Seq<Seq<char>>, i: int, k: int)
    requires
        ascending(names),
        0 <= i < names.len(),
        0 <= k < names.len(),
        names[i] == names[k],
    ensures
        i == k,
{
    lemma_lex_irreflexive(names[i]);
}

/// The rank of a name lies within the names.
pub proof fn lemma_rank_bounds(names: Seq<Seq<char>>, name: Seq<char>)
    ensures
        0 <= rank(names, name) <= names.len(),
    decreases names.len(),
{
    if names.len() > 0 {
        lemma_rank_bounds(names.drop_last(), name);
    }
}

/// The buses after the relays were applied one after the other: each relay
/// merges the bus that `snapshot` holds for its source into the bus of its
/// destination; a relay that names an unknown network does nothing.
pub open spec fn relayed(
    buses: Seq<Seq<FieldModel>>,
    snapshot: Seq<Seq<FieldModel>>,
    names: Seq<Seq<char>>,
    relays: Seq<Edge>,
) -> Seq<Seq<FieldModel>>
    decreases relays.len(),
{
    if relays.len() == 0 {
        buses
    } else {
        let before = relayed(buses, snapshot, names, relays.drop_last());
        match (index_of(names, relays.last().0), index_of(names, relays.last().1)) {
            (Some(src), Some(dst)) => before.update(dst, merge(before[dst], snapshot[src])),
            _ => before,
        }
    }
}

/// The names of named networks, in order.
pub open spec fn names_of<R: CodeRunner>(all: Seq<(String, Network<R>)>) -> Seq<Seq<char>> {
    Seq::new(all.len(), |i: int| all[i].0@)
}

/// The networks of named networks, in order.
pub open spec fn nets_of<R: CodeRunner>(all: Seq<(String, Network<R>)>) -> Seq<Network<R>> {
    Seq::new(all.len(), |i: int| all[i].1)
}

/// The relays that pairs of names stand for.
pub open spec fn edges_of(relays: Seq<(String, String)>) -> Seq<Edge> {
    Seq::new(relays.len(), |i: int| (relays[i].0@, relays[i].1@))
}

/// Whether `after` has a network for each of `before`, taken to a state that
/// `to` accepts.
pub open spec fn all_move<R: CodeRunner>(
    before: Seq<Network<R>>,
    after: Seq<Network<R>>,
    to: spec_fn(Network<R>, Network<R>) -> bool,
) -> bool {
    &&& after.len() == before.len()
    &&& forall|i: int| 0 <= i < before.len() ==> to(before[i], #[trigger] after[i])
}

/// The bus of each network.
pub open spec fn buses<R: CodeRunner>(nets: Seq<Network<R>>) -> Seq<Seq<FieldModel>> {
    Seq::new(nets.len(), |i: int| nets[i].bus())
}

/// Where the network named `name` stands among `all`.
fn find_in<R: CodeRunner>(all: &Vec<(String, Network<R>)>, name: &str) -> (r: Option<usize>)
    ensures
        match r {
            Some(i) => index_of(names_of(all@), name@) == Some(i as int) && i < all.len(),
            None => index_of(names_of(all@), name@) is None,
        },
{
    let mut i: usize = 0;
    while i < all.len()
        invariant
            i <= all.len(),
            forall|j: int| 0 <= j < i ==> names_of(all@)[j] != name@,
        decreases all.len() - i,
    {
        if str_equal(all[i].0.as_str(), name) {
            proof {
                assert(names_of(all@)[i as int] == name@);
                lemma_index_of(names_of(all@), name@);
            }
            return Some(i);
        }
        i += 1;
    }
    proof {
        lemma_index_of(names_of(all@), name@);
    }
    None
}

/// Loads the chips of every rack of every network.
fn load_all<R: CodeRunner>(all: &mut Vec<(String, Network<R>)>)
    ensures
        names_of(final(all)@) == names_of(old(all)@),
        all_move(
            nets_of(old(all)@),
            nets_of(final(all)@),
            |a: Network<R>, b: Network<R>| a.loads(&b),
        ),
{
    let n = all.len();
    let mut i: usize = 0;
    while i < n
        invariant
            i <= n,
            n == all.len(),
            n == old(all).len(),
            forall|j: int| 0 <= j < n ==> (#[trigger] all[j]).0 == old(all)[j].0,
            forall|j: int| 0 <= j < i ==> old(all)[j].1.loads(&(#[trigger] all[j]).1),
            forall|j: int| i <= j < n ==> (#[trigger] all[j]).1 == old(all)[j].1,
        decreases n - i,
    {
        all[i].1.parse_all_chip_file();
        i += 1;
    }
}

/// Hands every network's bus to its racks.
fn push_all<R: CodeRunner>(all: &mut Vec<(String, Network<R>)>)
    ensures
        names_of(final(all)@) == names_of(old(all)@),
        all_move(
            nets_of(old(all)@),
            nets_of(final(all)@),
            |a: Network<R>, b: Network<R>| a.pushes(&b),
        ),
{
    let n = all.len();
    let mut i: usize = 0;
    while i < n
        invariant
            i <= n,
            n == all.len(),
            n == old(all).len(),
            forall|j: int| 0 <= j < n ==> (#[trigger] all[j]).0 == old(all)[j].0,
            forall|j: int| 0 <= j < i ==> old(all)[j].1.pushes(&(#[trigger] all[j]).1),
            forall|j: int| i <= j < n ==> (#[trigger] all[j]).1 == old(all)[j].1,
        decreases n - i,
    {
        all[i].1.update_globals();
        i += 1;
    }
}

/// Steps the racks of every network.
fn step_all<R: CodeRunner>(all: &mut Vec<(String, Network<R>)>)
    ensures
        names_of(final(all)@) == names_of(old(all)@),
        all_move(
            nets_of(old(all)@),
            nets_of(final(all)@),
            |a: Network<R>, b: Network<R>| a.steps(&b),
        ),
{
    let n = all.len();
    let mut i: usize = 0;
    while i < n
        invariant
            i <= n,
            n == all.len(),
            n == old(all).len(),
            forall|j: int| 0 <= j < n ==> (#[trigger] all[j]).0 == old(all)[j].0,
            forall|j: int| 0 <= j < i ==> old(all)[j].1.steps(&(#[trigger] all[j]).1),
            forall|j: int| i <= j < n ==> (#[trigger] all[j]).1 == old(all)[j].1,
        decreases n - i,
    {
        all[i].1.step();
        i += 1;
    }
}

/// Merges into every network's bus the values that its racks share.
fn pull_all<R: CodeRunner>(all: &mut Vec<(String, Network<R>)>)
    ensures
        names_of(final(all)@) == names_of(old(all)@),
        all_move(
            nets_of(old(all)@),
            nets_of(final(all)@),
            |a: Network<R>, b: Network<R>| a.pulls(&b),
        ),
{
    let n = all.len();
    let mut i: usize = 0;
    while i < n
        invariant
            i <= n,
            n == all.len(),
            n == old(all).len(),
            forall|j: int| 0 <= j < n ==> (#[trigger] all[j]).0 == old(all)[j].0,
            forall|j: int| 0 <= j < i ==> old(all)[j].1.pulls(&(#[trigger] all[j]).1),
            forall|j: int| i <= j < n ==> (#[trigger] all[j]).1 == old(all)[j].1,
        decreases n - i,
    {
        all[i].1.update();
        i += 1;
    }
}

/// Applies the relays one after the other: each merges the bus that its
/// source had before any relay was applied into the bus of its destination.
fn relay_all<R: CodeRunner>(all: &mut Vec<(String, Network<R>)>, relays: &Vec<(String, String)>)
    ensures
        names_of(final(all)@) == names_of(old(all)@),
        all_move(
            nets_of(old(all)@),
            nets_of(final(all)@),
            |a: Network<R>, b: Network<R>| b.devices() == a.devices(),
        ),
        buses(nets_of(final(all)@)) == relayed(
            buses(nets_of(old(all)@)),
            buses(nets_of(old(all)@)),
            names_of(old(all)@),
            edges_of(relays@),
        ),
{
    let n = all.len();
    let ghost names = names_of(all@);
    let ghost start = buses(nets_of(all@));
    let mut snapshot: Vec<Vec<Field>> = Vec::new();
    let mut i: usize = 0;
    while i < n
        invariant
            i <= n,
            n == all.len(),
            *all == *old(all),
            snapshot.len() == i,
            forall|j: int| 0 <= j < i ==> models((#[trigger] snapshot[j])@) == all[j].1.bus(),
        decreases n - i,
    {
        snapshot.push(all[i].1.globals());
        i += 1;
    }
    let mut k: usize = 0;
    while k < relays.len()
        invariant
            k <= relays.len(),
            n == all.len(),
            n == old(all).len(),
            snapshot.len() == n,
            names == names_of(old(all)@),
            start == buses(nets_of(old(all)@)),
            forall|j: int| 0 <= j < n ==> models((#[trigger] snapshot[j])@) == start[j],
            forall|j: int| 0 <= j < n ==> (#[trigger] all[j]).0 == old(all)[j].0,
            forall|j: int| 0 <= j < n ==> (#[trigger] all[j]).1.devices() == old(all)[j].1.devices(),
            buses(nets_of(all@)) == relayed(
                start,
                start,
                names,
                edges_of(relays@).subrange(0, k as int),
            ),
        decreases relays.len() - k,
    {
        let ghost upto = edges_of(relays@).subrange(0, k + 1);
        assert(upto.drop_last() =~= edges_of(relays@).subrange(0, k as int));
        assert(names_of(all@) =~= names);
        let ghost before = buses(nets_of(all@));
        let src = find_in(all, relays[k].0.as_str());
        let dst = find_in(all, relays[k].1.as_str());
        match (src, dst) {
            (Some(s), Some(d)) => {
                let incoming = clone_fields(&snapshot[s]);
                all[d].1.set_globals(incoming);
                assert(buses(nets_of(all@)) =~= before.update(
                    d as int,
                    merge(before[d as int], start[s as int]),
                ));
            },
            _ => {},
        }
        k += 1;
    }
    assert(edges_of(relays@).subrange(0, relays.len() as int) =~= edges_of(relays@));
}

/// The name that a document gives to what it describes: the string under
/// `name`.
pub open spec fn name_in<D: Deserializer>(doc: &D) -> Option<Seq<char>> {
    match doc.field_of("name"@) {
        Some(entry) => entry.text(),
        None => None,
    }
}

/// The documents of the networks: the items of the sequence under `networks`.
pub open spec fn network_items<D: Deserializer>(doc: &D) -> Option<Seq<D>> {
    match doc.field_of("networks"@) {
        Some(list) => list.items(),
        None => None,
    }
}

/// The last of `items` that is named `name`.
pub open spec fn last_named<D: Deserializer>(items: Seq<D>, name: Seq<char>) -> Option<int>
    decreases items.len(),
{
    if items.len() == 0 {
        None
    } else if name_in(&items.last()) == Some(name) {
        Some(items.len() - 1)
    } else {
        last_named(items.drop_last(), name)
    }
}

/// Whether `network` is what the last of `items` that is named `name`
/// describes.
pub open spec fn stands_for<R: CodeRunner, D: Deserializer>(
    items: Seq<D>,
    name: Seq<char>,
    network: Network<R>,
) -> bool {
    match last_named(items, name) {
        Some(j) => 0 <= j < items.len() && describes(&items[j], &network),
        None => false,
    }
}

/// Whether the networks `nets` under the names `names` are what the documents
/// `items` describe: every document with a name has its name among `names`,
/// and under each name stands the network that the last document of that name
/// describes. A document without a name leaves no trace.
pub open spec fn holds<R: CodeRunner, D: Deserializer>(
    items: Seq<D>,
    names: Seq<Seq<char>>,
    nets: Seq<Network<R>>,
) -> bool {
    &&& names.len() == nets.len()
    &&& forall|j: int|
        0 <= j < items.len() && name_in(&items[j]) is Some ==> names.contains(
            #[trigger] name_in(&items[j])->0,
        )
    &&& forall|k: int| 0 <= k < names.len() ==> #[trigger] stands_for(items, names[k], nets[k])
}

/// The name of the network that a relay's document names under `key`.
pub open spec fn end_in<D: Deserializer>(relay: &D, key: Seq<char>) -> Option<Seq<char>> {
    match relay.field_of(key) {
        Some(end) => name_in(&end),
        None => None,
    }
}

/// The relay that a document describes: a mapping that names a network under
/// `src` and one under `dst`.
pub open spec fn edge_in<D: Deserializer>(relay: &D) -> Option<Edge> {
    if !relay.is_mapping() {
        None
    } else {
        match (end_in(relay, "src"@), end_in(relay, "dst"@)) {
            (Some(src), Some(dst)) => Some((src, dst)),
            _ => None,
        }
    }
}

/// The relays that the documents describe, in order; a document that
/// describes none is left out.
pub open spec fn edges_in<D: Deserializer>(items: Seq<D>) -> Seq<Edge>
    decreases items.len(),
{
    if items.len() == 0 {
        Seq::empty()
    } else {
        match edge_in(&items.last()) {
            Some(edge) => edges_in(items.drop_last()).push(edge),
            None => edges_in(items.drop_last()),
        }
    }
}

/// The relays of a document: those that the items of the sequence under
/// `relays` describe, and none where there is no such sequence.
pub open spec fn relays_in<D: Deserializer>(doc: &D) -> Seq<Edge> {
    match doc.field_of("relays"@) {
        Some(list) => match list.items() {
            Some(items) => edges_in(items),
            None => Seq::empty(),
        },
        None => Seq::empty(),
    }
}

/// A document without a name changes the last document of no name.
pub proof fn lemma_last_named_push<D: Deserializer>(items: Seq<D>, item: D, name: Seq<char>)
    ensures
        last_named(items.push(item), name) == (if name_in(&item) == Some(name) {
            Some(items.len() as int)
        } else {
            last_named(items, name)
        }),
{
    assert(items.push(item).drop_last() =~= items);
}

/// The name that a document gives to what it describes.
fn read_name<D: Deserializer>(doc: &D) -> (r: Option<String>)
    ensures
        match r {
            Some(name) => name_in(doc) == Some(name@),
            None => name_in(doc) is None,
        },
{
    match doc.get_field("name") {
        Some(entry) => match entry.as_str() {
            Some(name) => Some(name.to_string()),
            None => None,
        },
        None => None,
    }
}

/// The name of the network that a relay's document names under `key`.
fn read_end<D: Deserializer>(relay: &D, key: &str) -> (r: Option<String>)
    ensures
        match r {
            Some(name) => end_in(relay, key@) == Some(name@),
            None => end_in(relay, key@) is None,
        },
{
    match relay.get_field(key) {
        Some(end) => read_name(end),
        None => None,
    }
}

/// The relays that the items of the sequence under `relays` describe.
fn read_relays<D: Deserializer>(doc: &D) -> (r: Vec<(String, String)>)
    ensures
        edges_of(r@) == relays_in(doc),
{
    let mut relays: Vec<(String, String)> = Vec::new();
    match doc.get_field("relays") {
        Some(list) => match list.as_set() {
            Some(items) => {
                let ghost all = list.items()->0;
                let mut i: usize = 0;
                while i < items.len()
                    invariant
                        i <= items.len(),
                        items.len() == all.len(),
                        forall|j: int| 0 <= j < items.len() ==> *items[j] == all[j],
                        edges_of(relays@) == edges_in(all.subrange(0, i as int)),
                    decreases items.len() - i,
                {
                    let ghost upto = all.subrange(0, i + 1);
                    assert(upto.drop_last() =~= all.subrange(0, i as int));
                    let ghost before = edges_of(relays@);
                    let relay = items[i];
                    if relay.as_map().is_some() {
                        let src = read_end(relay, "src");
                        let dst = read_end(relay, "dst");
                        match (src, dst) {
                            (Some(src), Some(dst)) => {
                                relays.push((src, dst));
                                assert(edges_of(relays@) =~= before.push((src@, dst@)));
                            },
                            _ => {},
                        }
                    }
                    i += 1;
                }
                assert(all.subrange(0, all.len() as int) =~= all);
            },
            None => {},
        },
        None => {},
    }
    relays
}

/// The networks of a ship under their names, in ascending order of the names,
/// and the relays between them.
#[derive(Debug)]
pub struct Networks<R: CodeRunner> {
    networks: Vec<(String, Network<R>)>,
    relays: Vec<(String, String)>,
}

impl<R: CodeRunner> Networks<R> {
    #[verifier::type_invariant]
    spec fn sorted(&self) -> bool {
        ascending(names_of(self.networks@))
    }

    /// The names of the networks, in ascending order.
    pub closed spec fn names(&self) -> Seq<Seq<char>> {
        names_of(self.networks@)
    }

    /// The networks, in the order of their names.
    pub closed spec fn networks(&self) -> Seq<Network<R>> {
        nets_of(self.networks@)
    }

    /// The relays, in the order in which they are applied.
    pub closed spec fn relays(&self) -> Seq<Edge> {
        edges_of(self.relays@)
    }

    /// Every network has a name.
    pub proof fn lemma_lengths(&self)
        ensures
            self.names().len() == self.networks().len(),
    {
    }

    /// No networks and no relays.
    pub fn new() -> (r: Self)
        ensures
            r.names() == Seq::<Seq<char>>::empty(),
            r.networks() == Seq::<Network<R>>::empty(),
            r.relays() == Seq::<Edge>::empty(),
    {
        Networks { networks: Vec::new(), relays: Vec::new() }
    }

    /// The network named `name`.
    pub fn get(&self, name: &str) -> (r: Option<&Network<R>>)
        ensures
            ascending(self.names()),
            match r {
                Some(n) => index_of(self.names(), name@) matches Some(i) && *n
                    == self.networks()[i],
                None => index_of(self.names(), name@) is None,
            },
    {
        proof {
            use_type_invariant(self);
        }
        match find_in(&self.networks, name) {
            Some(i) => Some(&self.networks[i].1),
            None => None,
        }
    }

    /// The names of the networks, in ascending order.
    pub fn network_names(&self) -> (r: Vec<String>)
        ensures
            r@.len() == self.names().len(),
            forall|i: int| 0 <= i < r@.len() ==> (#[trigger] r@[i])@ == self.names()[i],
    {
        let mut out: Vec<String> = Vec::new();
        let mut i: usize = 0;
        while i < self.networks.len()
            invariant
                i <= self.networks.len(),
                out@.len() == i,
                forall|j: int| 0 <= j < i ==> (#[trigger] out@[j])@ == self.names()[j],
            decreases self.networks.len() - i,
        {
            out.push(self.networks[i].0.clone());
            i += 1;
        }
        out
    }

    /// The relays, each a pair of the name of the network it reads and the
    /// name of the network it writes.
    pub fn relay_names(&self) -> (r: Vec<(String, String)>)
        ensures
            edges_of(r@) == self.relays(),
    {
        let mut out: Vec<(String, String)> = Vec::new();
        let mut i: usize = 0;
        while i < self.relays.len()
            invariant
                i <= self.relays.len(),
                out@.len() == i,
                forall|j: int|
                    0 <= j < i ==> (#[trigger] out@[j]).0@ == self.relays@[j].0@ && out@[j].1@
                        == self.relays@[j].1@,
            decreases self.relays.len() - i,
        {
            out.push((self.relays[i].0.clone(), self.relays[i].1.clone()));
            i += 1;
        }
        out
    }

    /// Replaces the relays by the given ones, each a pair of the name of the
    /// network it reads and the name of the network it writes.
    pub fn set_relays(&mut self, relays: Vec<(String, String)>)
        ensures
            final(self).names() == old(self).names(),
            final(self).networks() == old(self).networks(),
            final(self).relays() == edges_of(relays@),
    {
        proof {
            use_type_invariant(&*self);
        }
        self.relays = relays;
    }

    /// Puts a network under a name. A network that stood under that name is
    /// replaced and handed back; otherwise the network takes its place in the
    /// ascending order of the names.
    pub fn insert(&mut self, name: String, network: Network<R>) -> (r: Option<Network<R>>)
        ensures
            final(self).relays() == old(self).relays(),
            match index_of(old(self).names(), name@) {
                Some(i) => {
                    &&& final(self).names() == old(self).names()
                    &&& final(self).networks() == old(self).networks().update(i, network)
                    &&& r == Some(old(self).networks()[i])
                },
                None => {
                    let at = rank(old(self).names(), name@);
                    &&& final(self).names() == old(self).names().insert(at, name@)
                    &&& final(self).networks() == old(self).networks().insert(at, network)
                    &&& r is None
                },
            },
    {
        proof {
            use_type_invariant(&*self);
        }
        let ghost names = self.names();
        let ghost nets = self.networks();
        let n = self.networks.len();
        let mut i: usize = 0;
        let mut searching = true;
        while searching && i < n
            invariant
                i <= n,
                n == self.networks.len(),
                *self == *old(self),
                names == self.names(),
                forall|k: int| 0 <= k < i ==> lex_lt(names[k], name@),
                !searching ==> i < n && !lex_lt(names[i as int], name@),
            decreases n - i, if searching { 1int } else { 0int },
        {
            if str_less(self.networks[i].0.as_str(), name.as_str()) {
                i += 1;
            } else {
                searching = false;
            }
        }
        proof {
            lemma_rank(names, name@, i as int);
            lemma_index_of(names, name@);
            assert forall|k: int| 0 <= k < names.len() && k != i implies names[k] != name@ by {
                if k < i {
                    lemma_lex_irreflexive(name@);
                } else {
                    lemma_lex_irreflexive(names[k]);
                    if lex_lt(names[k], name@) {
                        lemma_lex_transitive(names[i as int], names[k], name@);
                    }
                    lemma_lex_total(names[i as int], names[k]);
                }
            }
        }
        if i < n && str_equal(self.networks[i].0.as_str(), name.as_str()) {
            let mut swapped = network;
            let mut all: Vec<(String, Network<R>)> = Vec::new();
            std::mem::swap(&mut self.networks, &mut all);
            std::mem::swap(&mut all[i].1, &mut swapped);
            assert(names_of(all@) =~= names);
            std::mem::swap(&mut self.networks, &mut all);
            assert(self.networks() =~= nets.update(i as int, network));
            Some(swapped)
        } else {
            proof {
                if i < n {
                    lemma_lex_total(names[i as int], name@);
                }
                let grown = names.insert(i as int, name@);
                assert forall|a: int, b: int| 0 <= a < b < grown.len() implies lex_lt(
                    #[trigger] grown[a],
                    #[trigger] grown[b],
                ) by {
                    if b == i {
                        assert(grown[a] == names[a]);
                    } else if a == i {
                        if b - 1 > i {
                            lemma_lex_transitive(name@, names[i as int], names[b - 1]);
                        }
                    } else {
                        let a0 = if a < i { a } else { a - 1 };
                        let b0 = if b < i { b } else { b - 1 };
                        assert(grown[a] == names[a0]);
                        assert(grown[b] == names[b0]);
                    }
                }
            }
            let mut all: Vec<(String, Network<R>)> = Vec::new();
            std::mem::swap(&mut self.networks, &mut all);
            all.insert(i, (name, network));
            assert(names_of(all@) =~= names.insert(i as int, name@));
            std::mem::swap(&mut self.networks, &mut all);
            None
        }
    }

    /// What `parse_all_chip_file` does: the chips of every rack of every
    /// network are loaded.
    pub open spec fn loads(&self, after: &Self) -> bool {
        &&& after.names() == self.names()
        &&& after.relays() == self.relays()
        &&& all_move(
            self.networks(),
            after.networks(),
            |a: Network<R>, b: Network<R>| a.loads(&b),
        )
    }

    /// Whether `after` is what one tick makes of this state, by way of the
    /// networks `pushed` after the first phase, `stepped` after the second and
    /// `drawn` after the third: every network hands its bus to its racks; then
    /// every network steps its racks; then every bus takes in what the racks of
    /// its network share; then the relays are applied to the buses, each
    /// reading the bus that its source had when the third phase ended.
    pub open spec fn tick_via(
        &self,
        pushed: Seq<Network<R>>,
        stepped: Seq<Network<R>>,
        drawn: Seq<Network<R>>,
        after: &Self,
    ) -> bool {
        &&& after.names() == self.names()
        &&& after.relays() == self.relays()
        &&& all_move(self.networks(), pushed, |a: Network<R>, b: Network<R>| a.pushes(&b))
        &&& all_move(pushed, stepped, |a: Network<R>, b: Network<R>| a.steps(&b))
        &&& all_move(stepped, drawn, |a: Network<R>, b: Network<R>| a.pulls(&b))
        &&& all_move(
            drawn,
            after.networks(),
            |a: Network<R>, b: Network<R>| b.devices() == a.devices(),
        )
        &&& buses(after.networks()) == relayed(
            buses(drawn),
            buses(drawn),
            self.names(),
            self.relays(),
        )
    }

    /// What `step` does: one tick, by way of some networks after each of its
    /// first three phases.
    pub open spec fn ticks(&self, after: &Self) -> bool {
        exists|pushed: Seq<Network<R>>, stepped: Seq<Network<R>>, drawn: Seq<Network<R>>|
            #[trigger] self.tick_via(pushed, stepped, drawn, after)
    }

    /// Where no network has a rack, a tick does nothing but apply the relays
    /// to the buses as they were; without relays it leaves every bus as it
    /// was.
    pub proof fn lemma_tick_without_racks(&self, after: &Self)
        requires
            self.ticks(after),
            forall|i: int|
                0 <= i < self.networks().len() ==> (#[trigger] self.networks()[i]).rackless(),
        ensures
            buses(after.networks()) == relayed(
                buses(self.networks()),
                buses(self.networks()),
                self.names(),
                self.relays(),
            ),
            self.relays().len() == 0 ==> buses(after.networks()) == buses(self.networks()),
    {
        let (pushed, stepped, drawn) = choose|
            pushed: Seq<Network<R>>,
            stepped: Seq<Network<R>>,
            drawn: Seq<Network<R>>,
        | #[trigger] self.tick_via(pushed, stepped, drawn, after);
        let start = self.networks();
        assert forall|i: int| 0 <= i < start.len() implies (#[trigger] drawn[i]).bus()
            == start[i].bus() by {
            assert(start[i].rackless());
            assert(start[i].pushes(&pushed[i]));
            start[i].lemma_rackless_stays(
                &pushed[i],
                |r: Rack<R>, q: Rack<R>| r.updates(start[i].bus(), &q),
            );
            assert(pushed[i].steps(&stepped[i]));
            pushed[i].lemma_rackless_stays(&stepped[i], |r: Rack<R>, q: Rack<R>| r.steps(&q));
            assert(stepped[i].pulls(&drawn[i]));
            stepped[i].lemma_rackless_pulls(&drawn[i]);
        }
        assert(buses(drawn) =~= buses(start));
    }

    /// Loads the chips of every rack of every network.
    pub fn parse_all_chip_file(&mut self)
        ensures
            old(self).loads(final(self)),
    {
        proof {
            use_type_invariant(&*self);
        }
        let mut all: Vec<(String, Network<R>)> = Vec::new();
        std::mem::swap(&mut self.networks, &mut all);
        load_all(&mut all);
        std::mem::swap(&mut self.networks, &mut all);
    }

    /// One tick of the simulation, in four phases, each finished for every
    /// network before the next begins.
    pub fn step(&mut self)
        ensures
            old(self).ticks(final(self)),
    {
        proof {
            use_type_invariant(&*self);
        }
        let mut all: Vec<(String, Network<R>)> = Vec::new();
        std::mem::swap(&mut self.networks, &mut all);
        push_all(&mut all);
        let ghost pushed = nets_of(all@);
        step_all(&mut all);
        let ghost stepped = nets_of(all@);
        pull_all(&mut all);
        let ghost drawn = nets_of(all@);
        relay_all(&mut all, &self.relays);
        std::mem::swap(&mut self.networks, &mut all);
        proof {
            assert(old(self).tick_via(pushed, stepped, drawn, self));
        }
    }

    /// The networks and relays that a document describes. The document must
    /// have a `version` and a sequence of `networks`, or nothing is loaded.
    /// Each network with a name is set up from its document and stands under
    /// that name, a later one replacing an earlier one of the same name; a
    /// network without a name and a relay that does not name both its ends are
    /// left out.
    pub fn deserialize<D: Deserializer>(doc: &D) -> (r: Option<Self>)
        ensures
            match r {
                Some(loaded) => {
                    &&& doc.field_of("version"@) is Some
                    &&& network_items(doc) matches Some(items)
                    &&& holds(items, loaded.names(), loaded.networks())
                    &&& ascending(loaded.names())
                    &&& loaded.relays() == relays_in(doc)
                },
                None => doc.field_of("version"@) is None || network_items(doc) is None,
            },
    {
        if doc.get_field("version").is_none() {
            return None;
        }
        let items = match doc.get_field("networks") {
            Some(list) => match list.as_set() {
                Some(items) => items,
                None => {
                    return None;
                },
            },
            None => {
                return None;
            },
        };
        let ghost all = network_items(doc)->0;
        let mut loaded: Networks<R> = Networks::new();
        let mut i: usize = 0;
        while i < items.len()
            invariant
                i <= items.len(),
                items.len() == all.len(),
                forall|j: int| 0 <= j < items.len() ==> *items[j] == all[j],
                loaded.relays() == Seq::<Edge>::empty(),
                holds(all.subrange(0, i as int), loaded.names(), loaded.networks()),
            decreases items.len() - i,
        {
            let ghost done = all.subrange(0, i as int);
            let ghost upto = all.subrange(0, i + 1);
            let ghost names = loaded.names();
            let ghost nets = loaded.networks();
            assert(upto =~= done.push(all[i as int]));
            proof {
                use_type_invariant(&loaded);
            }
            match read_name(items[i]) {
                Some(name) => {
                    let network = Network::deserialize(items[i]);
                    loaded.insert(name, network);
                    proof {
                        lemma_holds_insert(done, all[i as int], names, nets, name@, network);
                    }
                },
                None => {
                    proof {
                        lemma_holds_skip(done, all[i as int], names, nets);
                    }
                },
            }
            i += 1;
        }
        assert(all.subrange(0, all.len() as int) =~= all);
        loaded.set_relays(read_relays(doc));
        proof {
            use_type_invariant(&loaded);
        }
        Some(loaded)
    }
}

/// What holds of some documents holds of them and a further document that
/// has no name.
pub proof fn lemma_holds_skip<R: CodeRunner, D: Deserializer>(
    items: Seq<D>,
    item: D,
    names: Seq<Seq<char>>,
    nets: Seq<Network<R>>,
)
    requires
        holds(items, names, nets),
        name_in(&item) is None,
    ensures
        holds(items.push(item), names, nets),
{
    let grown = items.push(item);
    assert forall|j: int| 0 <= j < grown.len() && name_in(&grown[j]) is Some implies names.contains(
        #[trigger] name_in(&grown[j])->0,
    ) by {
        assert(grown[j] == items[j]);
    }
    assert forall|k: int| 0 <= k < names.len() implies #[trigger] stands_for(
        grown,
        names[k],
        nets[k],
    ) by {
        assert(stands_for(items, names[k], nets[k]));
        lemma_last_named_push(items, item, names[k]);
        let j = last_named(items, names[k])->0;
    }
}

/// What holds of some documents holds of them and a further document with a
/// name, once the network that the document describes was put under that
/// name.
pub proof fn lemma_holds_insert<R: CodeRunner, D: Deserializer>(
    items: Seq<D>,
    item: D,
    names: Seq<Seq<char>>,
    nets: Seq<Network<R>>,
    name: Seq<char>,
    network: Network<R>,
)
    requires
        holds(items, names, nets),
        ascending(names),
        name_in(&item) == Some(name),
        describes(&item, &network),
    ensures
        match index_of(names, name) {
            Some(i) => holds(items.push(item), names, nets.update(i, network)),
            None => holds(
                items.push(item),
                names.insert(rank(names, name), name),
                nets.insert(rank(names, name), network),
            ),
        },
{
    let grown = items.push(item);
    lemma_index_of(names, name);
    lemma_rank_bounds(names, name);
    match index_of(names, name) {
        Some(i) => {
            let after = nets.update(i, network);
            assert forall|j: int|
                0 <= j < grown.len() && name_in(&grown[j]) is Some implies names.contains(
                #[trigger] name_in(&grown[j])->0,
            ) by {
                if j < items.len() {
                    assert(grown[j] == items[j]);
                }
            }
            assert forall|k: int| 0 <= k < names.len() implies #[trigger] stands_for(
                grown,
                names[k],
                after[k],
            ) by {
                assert(stands_for(items, names[k], nets[k]));
                lemma_last_named_push(items, item, names[k]);
                if names[k] != name {
                    let j = last_named(items, names[k])->0;
                } else {
                    lemma_ascending_distinct(names, i, k);
                }
            }
        },
        None => {
            let at = rank(names, name);
            let wider = names.insert(at, name);
            let after = nets.insert(at, network);
            assert(wider[at] == name);
            assert forall|j: int|
                0 <= j < grown.len() && name_in(&grown[j]) is Some implies wider.contains(
                #[trigger] name_in(&grown[j])->0,
            ) by {
                if j < items.len() {
                    let x = name_in(&items[j])->0;
                    let a = choose|a: int| 0 <= a < names.len() && names[a] == x;
                    if a < at {
                        assert(wider[a] == x);
                    } else {
                        assert(wider[a + 1] == x);
                    }
                }
            }
            assert forall|k: int| 0 <= k < wider.len() implies #[trigger] stands_for(
                grown,
                wider[k],
                after[k],
            ) by {
                lemma_last_named_push(items, item, wider[k]);
                if k == at {
                    assert(after[k] == network);
                } else {
                    let k0 = if k < at {
                        k
                    } else {
                        k - 1
                    };
                    assert(stands_for(items, names[k0], nets[k0]));
                    let j = last_named(items, names[k0])->0;
                    assert(grown[j] == items[j]);
                }
            }
        },
    }
}

} // verus!
