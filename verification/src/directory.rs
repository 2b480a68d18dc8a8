//! The directory of peers: for each identity the display name it last announced.

use crate::identity::NodeIdentity;
use vstd::prelude::*;

verus! {

/// One peer of the directory.
struct Peer {
    id: NodeIdentity,
    name: String,
}

/// The display names of the peers that have announced themselves, by identity.
/// An identity has at most one name: the one it announced last.
pub struct PeerDirectory {
    peers: Vec<Peer>,
}

/// The names after `name` is recorded for `id`: the name replaces the one that
/// `id` had, and no other identity is touched.
pub open spec fn recorded(names: Map<Seq<u8>, Seq<char>>, id: Seq<u8>, name: Seq<char>) -> Map<
    Seq<u8>,
    Seq<char>,
> {
    names.insert(id, name)
}

/// The name that `names` holds for `id`, if it holds one.
pub open spec fn looked_up(names: Map<Seq<u8>, Seq<char>>, id: Seq<u8>) -> Option<Seq<char>> {
    if names.contains_key(id) {
        Some(names[id])
    } else {
        None
    }
}

/// The names after each of `announcements` is recorded, the first one first.
pub open spec fn recorded_all(
    names: Map<Seq<u8>, Seq<char>>,
    announcements: Seq<(Seq<u8>, Seq<char>)>,
) -> Map<Seq<u8>, Seq<char>>
    decreases announcements.len(),
{
    if announcements.len() == 0 {
        names
    } else {
        recorded(
            recorded_all(names, announcements.drop_last()),
            announcements.last().0,
            announcements.last().1,
        )
    }
}

/// The name that an identity announced last is the one that is found.
pub proof fn law_latest_wins(
    names: Map<Seq<u8>, Seq<char>>,
    id: Seq<u8>,
    first: Seq<char>,
    second: Seq<char>,
)
    ensures
        looked_up(recorded(recorded(names, id, first), id, second), id) == Some(second),
{
}

/// Recording a name for one identity changes what is found for no other.
pub proof fn law_record_keeps_others(
    names: Map<Seq<u8>, Seq<char>>,
    id: Seq<u8>,
    name: Seq<char>,
    other: Seq<u8>,
)
    requires
        other != id,
    ensures
        looked_up(recorded(names, id, name), other) == looked_up(names, other),
{
}

/// Announcements of distinct identities, recorded in whatever order they
/// arrive, are all found afterwards: none overwrites another.
pub proof fn law_no_lost_update(
    names: Map<Seq<u8>, Seq<char>>,
    announcements: Seq<(Seq<u8>, Seq<char>)>,
    i: int,
)
    requires
        0 <= i < announcements.len(),
        forall|j: int, k: int|
            0 <= j < k < announcements.len() ==> announcements[j].0 != announcements[k].0,
    ensures
        looked_up(recorded_all(names, announcements), announcements[i].0) == Some(
            announcements[i].1,
        ),
    decreases announcements.len(),
{
    if i < announcements.len() - 1 {
        law_no_lost_update(names, announcements.drop_last(), i);
    }
}

/// An identity that never announced itself is not found.
pub proof fn law_unknown_is_absent(announcements: Seq<(Seq<u8>, Seq<char>)>, id: Seq<u8>)
    requires
        forall|j: int| 0 <= j < announcements.len() ==> announcements[j].0 != id,
    ensures
        looked_up(recorded_all(Map::empty(), announcements), id) is None,
    decreases announcements.len(),
{
    if announcements.len() > 0 {
        law_unknown_is_absent(announcements.drop_last(), id);
    }
}

/// Whether `id` stands at index `i` of `peers`.
spec fn stands_at(peers: Seq<Peer>, id: Seq<u8>, i: int) -> bool {
    0 <= i < peers.len() && peers[i].id@ == id
}

/// Whether no identity stands at two indices of `peers`.
spec fn distinct(peers: Seq<Peer>) -> bool {
    forall|i: int, j: int| 0 <= i < j < peers.len() ==> peers[i].id@ != peers[j].id@
}

/// An index at which `id` stands in `peers`, where there is one.
spec fn index_of(peers: Seq<Peer>, id: Seq<u8>) -> int {
    choose|i: int| stands_at(peers, id, i)
}

/// The names of `peers` by identity.
spec fn names_of(peers: Seq<Peer>) -> Map<Seq<u8>, Seq<char>> {
    Map::new(
        |id: Seq<u8>| exists|i: int| stands_at(peers, id, i),
        |id: Seq<u8>| peers[index_of(peers, id)].name@,
    )
}

proof fn lemma_index_of(peers: Seq<Peer>, id: Seq<u8>, i: int)
    requires
        distinct(peers),
        stands_at(peers, id, i),
    ensures
        index_of(peers, id) == i,
        names_of(peers).contains_key(id),
        names_of(peers)[id] == peers[i].name@,
{
    let k = index_of(peers, id);
    if k < i {
        assert(peers[k].id@ != peers[i].id@);
    }
    if i < k {
        assert(peers[i].id@ != peers[k].id@);
    }
}

/// Replacing the peer at `at` by one of the same identity, or appending a peer
/// of a new identity there, keeps the names of all other identities.
proof fn lemma_others_kept(before: Seq<Peer>, after: Seq<Peer>, at: int, other: Seq<u8>)
    requires
        distinct(before),
        distinct(after),
        0 <= at <= before.len(),
        after.len() > at,
        after[at].id@ != other,
        at < before.len() ==> after == before.update(at, after[at]) && before[at].id@
            == after[at].id@,
        at == before.len() ==> after == before.push(after[at]),
    ensures
        names_of(after).contains_key(other) <==> names_of(before).contains_key(other),
        names_of(before).contains_key(other) ==> names_of(after)[other] == names_of(before)[other],
{
    if names_of(before).contains_key(other) {
        let i = index_of(before, other);
        assert(stands_at(before, other, i));
        assert(stands_at(after, other, i));
        lemma_index_of(before, other, i);
        lemma_index_of(after, other, i);
    }
    if names_of(after).contains_key(other) {
        let i = index_of(after, other);
        assert(stands_at(after, other, i));
        assert(stands_at(before, other, i));
    }
}

impl PeerDirectory {
    /// No identity is listed twice.
    #[verifier::type_invariant]
    pub closed spec fn wf(&self) -> bool {
        distinct(self.peers@)
    }

    /// The identities of the directory, in the order in which they were first recorded.
    pub closed spec fn order(&self) -> Seq<Seq<u8>> {
        Seq::new(self.peers@.len(), |i: int| self.peers@[i].id@)
    }

    /// The name recorded for each identity.
    pub closed spec fn view(&self) -> Map<Seq<u8>, Seq<char>> {
        names_of(self.peers@)
    }

    /// The order lists the identities of the directory, each once.
    pub proof fn lemma_order(&self)
        requires
            self.wf(),
        ensures
            self.order().no_duplicates(),
            forall|id: Seq<u8>| self@.contains_key(id) <==> self.order().contains(id),
    {
        assert forall|id: Seq<u8>| self@.contains_key(id) <==> self.order().contains(id) by {
            if self@.contains_key(id) {
                let i = choose|i: int| stands_at(self.peers@, id, i);
                assert(self.order()[i] == id);
            }
            if self.order().contains(id) {
                let i = choose|i: int| 0 <= i < self.order().len() && self.order()[i] == id;
                assert(stands_at(self.peers@, id, i));
            }
        }
    }

    /// The empty directory.
    pub fn new() -> (directory: PeerDirectory)
        ensures
            directory@ == Map::<Seq<u8>, Seq<char>>::empty(),
            directory.order() == Seq::<Seq<u8>>::empty(),
    {
        let directory = PeerDirectory { peers: Vec::new() };
        assert(directory@ =~= Map::<Seq<u8>, Seq<char>>::empty());
        assert(directory.order() =~= Seq::<Seq<u8>>::empty());
        directory
    }

    /// The index at which `id` stands, or the number of peers where it is absent.
    fn find(&self, id: &NodeIdentity) -> (at: usize)
        ensures
            at <= self.peers@.len(),
            at < self.peers@.len() ==> stands_at(self.peers@, id@, at as int),
            at == self.peers@.len() ==> forall|i: int| !stands_at(self.peers@, id@, i),
    {
        let mut i: usize = 0;
        while i < self.peers.len()
            invariant
                i <= self.peers@.len(),
                forall|j: int| 0 <= j < i ==> self.peers@[j].id@ != id@,
            decreases self.peers@.len() - i,
        {
            if self.peers[i].id.same(id) {
                return i;
            }
            i += 1;
        }
        i
    }

    /// The name recorded for `id`, if it has announced one.
    pub fn lookup(&self, id: &NodeIdentity) -> (name: Option<&String>)
        ensures
            match name {
                Some(name) => looked_up(self@, id@) == Some(name@),
                None => looked_up(self@, id@) is None,
            },
    {
        proof {
            use_type_invariant(self);
        }
        let at = self.find(id);
        if at < self.peers.len() {
            proof {
                lemma_index_of(self.peers@, id@, at as int);
            }
            Some(&self.peers[at].name)
        } else {
            None
        }
    }

    /// Records `name` for `id`, in place of the name it had, if any.
    pub fn record(&mut self, id: NodeIdentity, name: String)
        ensures
            final(self)@ == recorded(old(self)@, id@, name@),
            final(self).order() == if old(self)@.contains_key(id@) {
                old(self).order()
            } else {
                old(self).order().push(id@)
            },
    {
        proof {
            use_type_invariant(&*self);
        }
        let at = self.find(&id);
        let ghost before = self.peers@;
        let mut taken = PeerDirectory { peers: Vec::new() };
        core::mem::swap(self, &mut taken);
        let mut peers = taken.peers;
        if at < peers.len() {
            peers.set(at, Peer { id, name });
        } else {
            peers.push(Peer { id, name });
        }
        let ghost after = peers@;
        proof {
            assert(stands_at(after, id@, at as int));
            assert forall|i: int, j: int| 0 <= i < j < after.len() implies after[i].id@
                != after[j].id@ by {
                if j == at && at == before.len() {
                    assert(!stands_at(before, id@, i));
                }
            }
        }
        *self = PeerDirectory { peers };
        proof {
            lemma_index_of(after, id@, at as int);
            assert forall|key: Seq<u8>|
                names_of(after).contains_key(key) <==> #[trigger] names_of(before).insert(
                    id@,
                    name@,
                ).contains_key(key) by {
                if key != id@ {
                    lemma_others_kept(before, after, at as int, key);
                }
            }
            assert forall|key: Seq<u8>| names_of(after).contains_key(key) implies names_of(
                after,
            )[key] == #[trigger] names_of(before).insert(id@, name@)[key] by {
                if key != id@ {
                    lemma_others_kept(before, after, at as int, key);
                }
            }
            assert(names_of(after) =~= names_of(before).insert(id@, name@));
            if at < before.len() {
                assert(stands_at(before, id@, at as int));
            }
            assert(final(self).order() =~= if old(self)@.contains_key(id@) {
                old(self).order()
            } else {
                old(self).order().push(id@)
            });
        }
    }

    /// The names of the directory at this moment, in the order of [`Self::order`].
    pub fn snapshot_values(&self) -> (names: Vec<String>)
        ensures
            names@.len() == self.order().len(),
            forall|i: int|
                0 <= i < names@.len() ==> self@.contains_key(#[trigger] self.order()[i]),
            forall|i: int| 0 <= i < names@.len() ==> names@[i]@ == self@[self.order()[i]],
    {
        let mut names: Vec<String> = Vec::new();
        let mut i: usize = 0;
        while i < self.peers.len()
            invariant
                i <= self.peers@.len(),
                names@.len() == i,
                forall|j: int| 0 <= j < i ==> names@[j]@ == self.peers@[j].name@,
            decreases self.peers@.len() - i,
        {
            names.push(self.peers[i].name.clone());
            i += 1;
        }
        proof {
            use_type_invariant(self);
            assert forall|j: int| 0 <= j < names@.len() implies self@.contains_key(
                #[trigger] self.order()[j],
            ) && names@[j]@ == self@[self.order()[j]] by {
                assert(stands_at(self.peers@, self.peers@[j].id@, j));
                lemma_index_of(self.peers@, self.peers@[j].id@, j);
            }
        }
        names
    }
}

} // verus!
