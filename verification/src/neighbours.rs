//! The neighbour set of a node: peer addresses, none of them twice.

use vstd::prelude::*;
use vstd::std_specs::cmp::PartialEqSpecImpl;
use crate::address::Address;

verus! {

/// The serializations of a sequence of addresses.
pub open spec fn serializations(list: Seq<Address>) -> Seq<Seq<char>> {
    list.map_values(|address: Address| address@)
}

/// A list of members after `address` has joined it: the list itself where
/// the address is a member already, else the list with the address at its
/// end.
pub open spec fn with_member(list: Seq<Address>, address: Address) -> Seq<Address> {
    if serializations(list).contains(address@) {
        list
    } else {
        list.push(address)
    }
}

/// A list of members after the addresses of `more` have joined it one by
/// one.
pub open spec fn with_members(list: Seq<Address>, more: Seq<Address>) -> Seq<Address>
    decreases more.len(),
{
    if more.len() == 0 {
        list
    } else {
        with_member(with_members(list, more.drop_last()), more.last())
    }
}

/// A set of peer addresses. It keeps its members in the order in which
/// they were added.
#[derive(Debug)]
pub struct Neighbours {
    list: Vec<Address>,
}

impl View for Neighbours {
    type V = Seq<Seq<char>>;

    /// The serializations of the members, in the order of their arrival.
    open spec fn view(&self) -> Seq<Seq<char>> {
        serializations(self.addresses())
    }
}

impl Neighbours {
    #[verifier::type_invariant]
    spec fn distinct(self) -> bool {
        serializations(self.list@).no_duplicates()
    }

    /// The members, in the order of their arrival.
    pub closed spec fn addresses(&self) -> Seq<Address> {
        self.list@
    }

    /// The members as a set.
    pub open spec fn members(&self) -> Set<Seq<char>> {
        self@.to_set()
    }

    /// Makes an empty set.
    pub fn new() -> (set: Neighbours)
        ensures
            set.addresses() == Seq::<Address>::empty(),
            set@ == Seq::<Seq<char>>::empty(),
    {
        let set = Neighbours { list: Vec::new() };
        assert(set@ =~= Seq::<Seq<char>>::empty());
        set
    }

    /// The number of members. No member occurs twice, so this is the size
    /// of the set.
    pub fn len(&self) -> (count: usize)
        ensures
            count == self@.len(),
            count == self.members().len(),
            self@.no_duplicates(),
    {
        proof {
            use_type_invariant(self);
            self@.unique_seq_to_set();
        }
        self.list.len()
    }

    /// Tells whether the set has no member.
    pub fn is_empty(&self) -> (empty: bool)
        ensures
            empty == (self@.len() == 0),
    {
        self.list.len() == 0
    }

    /// Tells whether `address` is a member.
    pub fn contains(&self, address: &Address) -> (found: bool)
        ensures
            found == self@.contains(address@),
    {
        let mut i: usize = 0;
        while i < self.list.len()
            invariant
                i <= self.list.len(),
                forall|j: int| 0 <= j < i ==> self@[j] != address@,
            decreases self.list.len() - i,
        {
            if self.list[i].same(address) {
                assert(self@[i as int] == address@);
                return true;
            }
            i += 1;
        }
        false
    }

    /// Adds `address`; tells whether it was new.
    pub fn insert(&mut self, address: Address) -> (added: bool)
        ensures
            added == !old(self)@.contains(address@),
            final(self).addresses() == with_member(old(self).addresses(), address),
            final(self).members() == old(self).members().insert(address@),
    {
        proof {
            use_type_invariant(&*self);
        }
        if self.contains(&address) {
            assert(self.members().insert(address@) =~= self.members());
            false
        } else {
            let ghost before = self@;
            let mut taken = Neighbours { list: Vec::new() };
            std::mem::swap(self, &mut taken);
            let mut list = taken.list;
            list.push(address);
            assert(serializations(list@) =~= before.push(address@));
            assert(list@ =~= old(self).addresses().push(address));
            assert(before.push(address@).no_duplicates());
            *self = Neighbours { list };
            proof {
                before.lemma_push_to_set_commute(address@);
            }
            true
        }
    }

    /// Removes `address`; tells whether it was a member.
    pub fn remove(&mut self, address: &Address) -> (removed: bool)
        ensures
            removed == old(self)@.contains(address@),
            final(self).addresses() == old(self).addresses().filter(
                |member: Address| member@ != address@,
            ),
            final(self)@ == old(self)@.filter(|member: Seq<char>| member != address@),
            final(self).members() == old(self).members().remove(address@),
    {
        proof {
            use_type_invariant(&*self);
        }
        let ghost before = self@;
        let ghost members = self.addresses();
        let ghost keep = |member: Seq<char>| member != address@;
        let ghost stay = |member: Address| member@ != address@;
        let mut kept: Vec<Address> = Vec::new();
        let mut removed = false;
        let mut i: usize = 0;
        while i < self.list.len()
            invariant
                i <= self.list.len(),
                self@ == before,
                before.no_duplicates(),
                self.addresses() == members,
                keep == |member: Seq<char>| member != address@,
                stay == |member: Address| member@ != address@,
                kept@ == members.subrange(0, i as int).filter(stay),
                serializations(kept@) == before.subrange(0, i as int).filter(keep),
                removed == before.subrange(0, i as int).contains(address@),
            decreases self.list.len() - i,
        {
            proof {
                let head = before.subrange(0, i as int);
                let next = before.subrange(0, i as int + 1);
                assert(next =~= head.push(before[i as int]));
                head.lemma_filter_push(before[i as int], keep);
                assert(members.subrange(0, i as int + 1) =~= members.subrange(0, i as int).push(
                    members[i as int],
                ));
                members.subrange(0, i as int).lemma_filter_push(members[i as int], stay);
                assert(next.contains(address@) <==> head.contains(address@) || before[i as int]
                    == address@) by {
                    if head.contains(address@) {
                        let j = choose|j: int| 0 <= j < head.len() && head[j] == address@;
                        assert(next[j] == address@);
                    }
                    if before[i as int] == address@ {
                        assert(next[i as int] == address@);
                    }
                }
            }
            if self.list[i].same(address) {
                removed = true;
            } else {
                let ghost shorter = serializations(kept@);
                kept.push(self.list[i].clone());
                assert(serializations(kept@) =~= shorter.push(before[i as int]));
            }
            i += 1;
        }
        proof {
            assert(before.subrange(0, before.len() as int) =~= before);
            assert(members.subrange(0, members.len() as int) =~= members);
            lemma_filter_distinct(before, keep);
            assert(before.filter(keep).to_set() =~= before.to_set().remove(address@)) by {
                assert forall|member: Seq<char>|
                    before.filter(keep).to_set().contains(member) <==> before.to_set().remove(
                        address@,
                    ).contains(member) by {
                    lemma_filter_contains(before, keep, member);
                }
            }
        }
        *self = Neighbours { list: kept };
        removed
    }

    /// Copies the members out, in the order of their arrival.
    pub fn to_vec(&self) -> (list: Vec<Address>)
        ensures
            list@ == self.addresses(),
            serializations(list@).no_duplicates(),
    {
        proof {
            use_type_invariant(self);
        }
        let mut list: Vec<Address> = Vec::new();
        let mut i: usize = 0;
        while i < self.list.len()
            invariant
                i <= self.list.len(),
                list@ == self.list@.subrange(0, i as int),
            decreases self.list.len() - i,
        {
            list.push(self.list[i].clone());
            assert(list@ =~= self.list@.subrange(0, i as int + 1));
            i += 1;
        }
        assert(list@ =~= self.list@);
        list
    }

    /// Adds every address of a list, in its order.
    pub fn extend(&mut self, more: &Vec<Address>)
        ensures
            final(self).addresses() == with_members(old(self).addresses(), more@),
            final(self).members() == old(self).members().union(serializations(more@).to_set()),
    {
        let mut i: usize = 0;
        while i < more.len()
            invariant
                i <= more.len(),
                self.addresses() == with_members(
                    old(self).addresses(),
                    more@.subrange(0, i as int),
                ),
                self.members() == old(self).members().union(
                    serializations(more@.subrange(0, i as int)).to_set(),
                ),
            decreases more.len() - i,
        {
            proof {
                let head = serializations(more@.subrange(0, i as int));
                let next = serializations(more@.subrange(0, i as int + 1));
                assert(next =~= head.push(more@[i as int]@));
                assert(next.to_set() =~= head.to_set().insert(more@[i as int]@)) by {
                    assert forall|member: Seq<char>|
                        next.to_set().contains(member) <==> head.to_set().insert(
                            more@[i as int]@,
                        ).contains(member) by {
                        if head.contains(member) {
                            let j = choose|j: int| 0 <= j < head.len() && head[j] == member;
                            assert(next[j] == member);
                        }
                        if member == more@[i as int]@ {
                            assert(next[i as int] == member);
                        }
                    }
                }
                assert(old(self).members().union(head.to_set()).insert(more@[i as int]@)
                    =~= old(self).members().union(next.to_set()));
                assert(more@.subrange(0, i as int + 1).drop_last() =~= more@.subrange(
                    0,
                    i as int,
                ));
            }
            self.insert(more[i].clone());
            i += 1;
        }
        proof {
            assert(more@.subrange(0, more.len() as int) =~= more@);
        }
    }

    /// Makes the set of the addresses of a list; of two equal addresses
    /// the first stays.
    pub fn from_vec(list: &Vec<Address>) -> (set: Neighbours)
        ensures
            set.addresses() == with_members(Seq::empty(), list@),
            set.members() == serializations(list@).to_set(),
    {
        let mut set = Neighbours::new();
        assert(set.members() =~= Set::<Seq<char>>::empty());
        set.extend(list);
        assert(set.members() =~= serializations(list@).to_set());
        set
    }
}

impl Neighbours {
    /// Tells whether two sets have the same members, in whatever order.
    pub fn same_members(&self, other: &Neighbours) -> (equal: bool)
        ensures
            equal == (self.members() == other.members()),
    {
        proof {
            use_type_invariant(self);
            use_type_invariant(other);
            self@.unique_seq_to_set();
            other@.unique_seq_to_set();
        }
        if self.list.len() != other.list.len() {
            return false;
        }
        let mut i: usize = 0;
        while i < self.list.len()
            invariant
                i <= self.list.len(),
                forall|j: int| 0 <= j < i ==> other@.contains(self@[j]),
            decreases self.list.len() - i,
        {
            if !other.contains(&self.list[i]) {
                assert(self.members().contains(self@[i as int]));
                return false;
            }
            i += 1;
        }
        proof {
            assert(self.members().subset_of(other.members())) by {
                assert forall|member: Seq<char>| self.members().contains(member) implies
                    other.members().contains(member) by {
                    let j = choose|j: int| 0 <= j < self@.len() && self@[j] == member;
                    assert(other@.contains(self@[j]));
                }
            }
            vstd::seq_lib::seq_to_set_is_finite(self@);
            vstd::seq_lib::seq_to_set_is_finite(other@);
            vstd::set_lib::lemma_subset_equality(self.members(), other.members());
        }
        true
    }
}

impl PartialEq for Neighbours {
    fn eq(&self, other: &Neighbours) -> (equal: bool) {
        self.same_members(other)
    }
}

impl PartialEqSpecImpl for Neighbours {
    open spec fn obeys_eq_spec() -> bool {
        true
    }

    open spec fn eq_spec(&self, other: &Neighbours) -> bool {
        self.members() == other.members()
    }
}

impl Clone for Neighbours {
    fn clone(&self) -> (copy: Neighbours)
        ensures
            copy.addresses() == self.addresses(),
    {
        proof {
            use_type_invariant(self);
        }
        let list = self.to_vec();
        Neighbours { list }
    }
}

/// An element is in a filtered sequence exactly when it is in the
/// sequence and is kept.
pub proof fn lemma_filter_contains<A>(s: Seq<A>, keep: spec_fn(A) -> bool, x: A)
    ensures
        s.filter(keep).contains(x) <==> s.contains(x) && keep(x),
    decreases s.len(),
{
    reveal(Seq::filter);
    if s.len() > 0 {
        lemma_filter_contains(s.drop_last(), keep, x);
        assert(s =~= s.drop_last().push(s.last()));
        s.drop_last().lemma_filter_push(s.last(), keep);
        if s.contains(x) {
            let j = choose|j: int| 0 <= j < s.len() && s[j] == x;
            if j < s.len() - 1 {
                assert(s.drop_last()[j] == x);
            }
        }
        if s.drop_last().contains(x) {
            let j = choose|j: int| 0 <= j < s.drop_last().len() && s.drop_last()[j] == x;
            assert(s[j] == x);
        }
        if s.filter(keep).contains(x) {
            let t = s.drop_last().filter(keep);
            if keep(s.last()) {
                let j = choose|j: int| 0 <= j < t.push(s.last()).len() && t.push(s.last())[j] == x;
                if j < t.len() {
                    assert(t[j] == x);
                } else {
                    assert(s[s.len() - 1] == x);
                }
            }
        }
        if s.contains(x) && keep(x) {
            let t = s.drop_last().filter(keep);
            if s.drop_last().contains(x) {
                let j = choose|j: int| 0 <= j < t.len() && t[j] == x;
                if keep(s.last()) {
                    assert(t.push(s.last())[j] == x);
                }
            } else {
                assert(s.last() == x);
                assert(t.push(s.last())[t.len() as int] == x);
            }
        }
    }
}

/// Filtering keeps a sequence free of duplicates.
pub proof fn lemma_filter_distinct<A>(s: Seq<A>, keep: spec_fn(A) -> bool)
    requires
        s.no_duplicates(),
    ensures
        s.filter(keep).no_duplicates(),
    decreases s.len(),
{
    reveal(Seq::filter);
    if s.len() > 0 {
        lemma_filter_distinct(s.drop_last(), keep);
        assert(s =~= s.drop_last().push(s.last()));
        s.drop_last().lemma_filter_push(s.last(), keep);
        lemma_filter_contains(s.drop_last(), keep, s.last());
        let t = s.drop_last().filter(keep);
        if t.contains(s.last()) {
            let j = choose|j: int| 0 <= j < s.drop_last().len() && s.drop_last()[j] == s.last();
            assert(s[j] == s[s.len() - 1]);
        }
    }
}

} // verus!
