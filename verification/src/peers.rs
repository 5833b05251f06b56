//! The table of connected peers.

use vstd::prelude::*;

use crate::message::{NodeType, SocketAddr};

verus! {

/// The connected peers: the address of each, its kind, and the handle `O` by
/// which messages are handed to it. No address occurs twice.
pub struct PeerTable<O> {
    entries: Vec<(SocketAddr, NodeType, O)>,
}

/// Whether an address occurs at an index.
spec fn occurs_at<O>(entries: Seq<(SocketAddr, NodeType, O)>, ip: SocketAddr, i: int) -> bool {
    0 <= i < entries.len() && entries[i].0 == ip
}

/// What the entries hold, by address.
spec fn table_of<O>(entries: Seq<(SocketAddr, NodeType, O)>) -> Map<SocketAddr, (NodeType, O)> {
    Map::new(
        |ip: SocketAddr| exists|i: int| occurs_at(entries, ip, i),
        |ip: SocketAddr|
            {
                let i = choose|i: int| occurs_at(entries, ip, i);
                (entries[i].1, entries[i].2)
            },
    )
}

/// Whether no address occurs twice.
spec fn distinct<O>(entries: Seq<(SocketAddr, NodeType, O)>) -> bool {
    forall|i: int, j: int| 0 <= i < j < entries.len() ==> entries[i].0 != entries[j].0
}

/// The addresses of the entries.
spec fn addresses<O>(entries: Seq<(SocketAddr, NodeType, O)>) -> Seq<SocketAddr> {
    entries.map_values(|entry: (SocketAddr, NodeType, O)| entry.0)
}

/// The table has at each entry's address what the entry holds.
proof fn lemma_table_at<O>(entries: Seq<(SocketAddr, NodeType, O)>, i: int)
    requires
        distinct(entries),
        0 <= i < entries.len(),
    ensures
        table_of(entries).contains_key(entries[i].0),
        table_of(entries)[entries[i].0] == (entries[i].1, entries[i].2),
{
    let ip = entries[i].0;
    assert(occurs_at(entries, ip, i));
    let j = choose|j: int| occurs_at(entries, ip, j);
    assert(occurs_at(entries, ip, j));
    assert(i == j);
}

/// The addresses are those of the table, once each.
proof fn lemma_addresses<O>(entries: Seq<(SocketAddr, NodeType, O)>)
    requires
        distinct(entries),
    ensures
        addresses(entries).no_duplicates(),
        addresses(entries).to_set() == table_of(entries).dom(),
        table_of(entries).dom().finite(),
        table_of(entries).len() == entries.len(),
{
    let keys = addresses(entries);
    assert forall|ip: SocketAddr| keys.to_set().contains(ip) <==> table_of(entries).dom().contains(
        ip,
    ) by {
        if keys.contains(ip) {
            let i = choose|i: int| 0 <= i < keys.len() && keys[i] == ip;
            assert(occurs_at(entries, ip, i));
        }
        if table_of(entries).dom().contains(ip) {
            let i = choose|i: int| occurs_at(entries, ip, i);
            assert(keys[i] == ip);
        }
    }
    assert(keys.to_set() =~= table_of(entries).dom());
    keys.unique_seq_to_set();
}

impl<O> View for PeerTable<O> {
    type V = Map<SocketAddr, (NodeType, O)>;

    closed spec fn view(&self) -> Map<SocketAddr, (NodeType, O)> {
        table_of(self.entries@)
    }
}

impl<O> PeerTable<O> {
    #[verifier::type_invariant]
    closed spec fn inv(&self) -> bool {
        distinct(self.entries@)
    }

    /// Makes a table without peers.
    pub fn new() -> (r: Self)
        ensures
            r@ == Map::<SocketAddr, (NodeType, O)>::empty(),
    {
        let r = PeerTable { entries: Vec::new() };
        assert(r@ =~= Map::<SocketAddr, (NodeType, O)>::empty());
        r
    }

    /// The number of peers.
    pub fn len(&self) -> (r: usize)
        ensures
            self@.dom().finite(),
            r == self@.len(),
    {
        proof {
            use_type_invariant(self);
            lemma_addresses(self.entries@);
        }
        self.entries.len()
    }

    /// The index of an address.
    fn position(&self, ip: SocketAddr) -> (r: Option<usize>)
        ensures
            match r {
                Some(i) => occurs_at(self.entries@, ip, i as int),
                None => !self@.contains_key(ip),
            },
    {
        for i in 0..self.entries.len()
            invariant
                forall|j: int| 0 <= j < i ==> self.entries@[j].0 != ip,
        {
            if self.entries[i].0 == ip {
                return Some(i);
            }
        }
        None
    }

    /// Whether an address is in the table.
    pub fn contains_key(&self, ip: SocketAddr) -> (r: bool)
        ensures
            r == self@.contains_key(ip),
    {
        match self.position(ip) {
            Some(_) => true,
            None => false,
        }
    }

    /// What the table has at an address.
    pub fn get(&self, ip: SocketAddr) -> (r: Option<(NodeType, &O)>)
        ensures
            r is Some <==> self@.contains_key(ip),
            r matches Some((node_type, outbound)) ==> self@[ip] == (node_type, *outbound),
    {
        proof {
            use_type_invariant(self);
        }
        match self.position(ip) {
            Some(i) => {
                proof {
                    lemma_table_at(self.entries@, i as int);
                }
                Some((self.entries[i].1, &self.entries[i].2))
            },
            None => None,
        }
    }

    /// Removes an address, if it is there.
    pub fn remove(&mut self, ip: SocketAddr)
        ensures
            final(self)@ == old(self)@.remove(ip),
    {
        proof {
            use_type_invariant(&*self);
        }
        let ghost before = self.entries@;
        match self.position(ip) {
            Some(i) => {
                let mut entries: Vec<(SocketAddr, NodeType, O)> = Vec::new();
                std::mem::swap(&mut self.entries, &mut entries);
                let _ = entries.remove(i);
                std::mem::swap(&mut self.entries, &mut entries);
                proof {
                    let after = self.entries@;
                    assert forall|other: SocketAddr| #[trigger]
                        table_of(after).contains_key(other) <==> table_of(before).remove(
                            ip,
                        ).contains_key(other) by {
                        if table_of(after).contains_key(other) {
                            let j = choose|j: int| occurs_at(after, other, j);
                            let k = if j < i { j } else { j + 1 };
                            assert(occurs_at(before, other, k));
                            assert(occurs_at(before, ip, i as int));
                        }
                        if table_of(before).contains_key(other) && other != ip {
                            let j = choose|j: int| occurs_at(before, other, j);
                            let k = if j < i { j } else { j - 1 };
                            assert(occurs_at(after, other, k));
                        }
                    }
                    assert forall|other: SocketAddr| #[trigger]
                        table_of(after).contains_key(other) implies table_of(after)[other]
                        == table_of(before)[other] by {
                        let j = choose|j: int| occurs_at(after, other, j);
                        let k = if j < i { j } else { j + 1 };
                        lemma_table_at(after, j);
                        lemma_table_at(before, k);
                    }
                    assert(table_of(after) =~= table_of(before).remove(ip));
                }
            },
            None => {
                assert(self@ =~= self@.remove(ip));
            },
        }
    }

    /// Sets what the table has at an address.
    pub fn insert(&mut self, ip: SocketAddr, node_type: NodeType, outbound: O)
        ensures
            final(self)@ == old(self)@.insert(ip, (node_type, outbound)),
    {
        let ghost before = self@;
        self.remove(ip);
        proof {
            use_type_invariant(&*self);
        }
        let ghost kept = self.entries@;
        proof {
            assert forall|i: int| 0 <= i < kept.len() implies kept[i].0 != ip by {
                lemma_table_at(kept, i);
            }
        }
        let mut entries: Vec<(SocketAddr, NodeType, O)> = Vec::new();
        std::mem::swap(&mut self.entries, &mut entries);
        entries.push((ip, node_type, outbound));
        std::mem::swap(&mut self.entries, &mut entries);
        proof {
            let after = self.entries@;
            assert forall|other: SocketAddr| #[trigger]
                table_of(after).contains_key(other) <==> before.insert(
                    ip,
                    (node_type, outbound),
                ).contains_key(other) by {
                if table_of(after).contains_key(other) && other != ip {
                    let j = choose|j: int| occurs_at(after, other, j);
                    lemma_table_at(kept, j);
                }
                if other == ip {
                    assert(occurs_at(after, ip, kept.len() as int));
                } else if before.contains_key(other) {
                    assert(table_of(kept).contains_key(other));
                    let j = choose|j: int| occurs_at(kept, other, j);
                    assert(occurs_at(after, other, j));
                }
            }
            assert forall|other: SocketAddr| #[trigger]
                table_of(after).contains_key(other) implies table_of(after)[other] == before.insert(
                ip,
                (node_type, outbound),
            )[other] by {
                let j = choose|j: int| occurs_at(after, other, j);
                lemma_table_at(after, j);
                if j < kept.len() {
                    lemma_table_at(kept, j);
                }
            }
            assert(table_of(after) =~= before.insert(ip, (node_type, outbound)));
        }
    }

    /// The addresses in the table, once each.
    pub fn keys(&self) -> (r: Vec<SocketAddr>)
        ensures
            r@.no_duplicates(),
            r@.to_set() == self@.dom(),
    {
        let mut keys: Vec<SocketAddr> = Vec::new();
        for i in 0..self.entries.len()
            invariant
                keys@ == addresses(self.entries@.take(i as int)),
        {
            keys.push(self.entries[i].0);
            assert(keys@ =~= addresses(self.entries@.take(i + 1)));
        }
        proof {
            use_type_invariant(self);
            assert(self.entries@.take(self.entries@.len() as int) =~= self.entries@);
            lemma_addresses(self.entries@);
        }
        keys
    }
}

} // verus!
