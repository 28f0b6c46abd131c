//! Listeners kept by name, each name with its listeners in the order they were added.
use vstd::prelude::*;

verus! {

/// The listeners of the first entry named `name`, or none.
pub open spec fn lookup<L>(entries: Seq<(String, Vec<L>)>, name: Seq<char>) -> Seq<L>
    decreases entries.len(),
{
    if entries.len() == 0 {
        Seq::empty()
    } else if entries[0].0@ == name {
        entries[0].1@
    } else {
        lookup(entries.drop_first(), name)
    }
}

/// Entries before `i` that are not named `name` do not matter to its lookup.
proof fn lemma_lookup_skip<L>(entries: Seq<(String, Vec<L>)>, name: Seq<char>, i: int)
    requires
        0 <= i <= entries.len(),
        forall|k: int| 0 <= k < i ==> (#[trigger] entries[k]).0@ != name,
    ensures
        lookup(entries, name) == lookup(entries.skip(i), name),
    decreases i,
{
    if i == 0 {
        assert(entries.skip(0) =~= entries);
    } else {
        let rest = entries.drop_first();
        assert(entries[0].0@ != name);
        assert forall|k: int| 0 <= k < i - 1 implies (#[trigger] rest[k]).0@ != name by {
            assert(rest[k] == entries[k + 1]);
        }
        lemma_lookup_skip(rest, name, i - 1);
        assert(rest.skip(i - 1) =~= entries.skip(i));
    }
}

/// Replacing an entry that is not named `name` by another that is not either
/// leaves the lookup of `name` as it was.
proof fn lemma_lookup_update_other<L>(
    entries: Seq<(String, Vec<L>)>,
    name: Seq<char>,
    i: int,
    e: (String, Vec<L>),
)
    requires
        0 <= i < entries.len(),
        entries[i].0@ != name,
        e.0@ != name,
    ensures
        lookup(entries.update(i, e), name) == lookup(entries, name),
    decreases entries.len(),
{
    let u = entries.update(i, e);
    if i > 0 {
        if entries[0].0@ != name {
            assert(u.drop_first() =~= entries.drop_first().update(i - 1, e));
            lemma_lookup_update_other(entries.drop_first(), name, i - 1, e);
        }
    } else {
        assert(u.drop_first() =~= entries.drop_first());
    }
}

/// Appending an entry not named `name` leaves the lookup of `name` as it was.
proof fn lemma_lookup_push_other<L>(
    entries: Seq<(String, Vec<L>)>,
    name: Seq<char>,
    e: (String, Vec<L>),
)
    requires
        e.0@ != name,
    ensures
        lookup(entries.push(e), name) == lookup(entries, name),
    decreases entries.len(),
{
    let p = entries.push(e);
    if entries.len() == 0 {
        assert(p[0] == e);
        assert(p.drop_first().len() == 0);
        assert(lookup(p.drop_first(), name) == Seq::<L>::empty());
    } else {
        assert(p[0] == entries[0]);
        if entries[0].0@ != name {
            assert(p.drop_first() =~= entries.drop_first().push(e));
            lemma_lookup_push_other(entries.drop_first(), name, e);
        }
    }
}

/// Named lists of listeners; no name has two lists.
pub struct Registry<L> {
    entries: Vec<(String, Vec<L>)>,
}

impl<L> Registry<L> {
    #[verifier::type_invariant]
    closed spec fn names_are_distinct(self) -> bool {
        forall|i: int, j: int|
            0 <= i < j < self.entries@.len() ==> (#[trigger] self.entries@[i]).0@ != (
            #[trigger] self.entries@[j]).0@
    }

    /// The listeners added under `name`, oldest first.
    pub closed spec fn listeners(&self, name: Seq<char>) -> Seq<L> {
        lookup(self.entries@, name)
    }

    pub fn new() -> (res: Self)
        ensures
            forall|name: Seq<char>| (#[trigger] res.listeners(name)) == Seq::<L>::empty(),
    {
        Registry { entries: Vec::new() }
    }

    /// The position of the first entry named `name`, if there is one.
    fn position(&self, name: &String) -> (res: Option<usize>)
        ensures
            match res {
                Some(i) => i < self.entries@.len() && self.entries@[i as int].0@ == name@
                    && forall|k: int| 0 <= k < i ==> (#[trigger] self.entries@[k]).0@ != name@,
                None => forall|k: int|
                    0 <= k < self.entries@.len() ==> (#[trigger] self.entries@[k]).0@ != name@,
            },
    {
        let mut i: usize = 0;
        while i < self.entries.len()
            invariant
                i <= self.entries@.len(),
                forall|k: int| 0 <= k < i ==> (#[trigger] self.entries@[k]).0@ != name@,
            decreases self.entries@.len() - i,
        {
            if self.entries[i].0 == *name {
                return Some(i);
            }
            i = i + 1;
        }
        None
    }

    /// Adds `listener` after the listeners already kept under `name`.
    pub fn add(&mut self, name: String, listener: L)
        ensures
            forall|n: Seq<char>|
                #![trigger final(self).listeners(n)]
                final(self).listeners(n) == if n == name@ {
                    old(self).listeners(n).push(listener)
                } else {
                    old(self).listeners(n)
                },
    {
        proof {
            use_type_invariant(&*self);
        }
        let ghost old_entries = self.entries@;
        let found = self.position(&name);
        let mut entries: Vec<(String, Vec<L>)> = Vec::new();
        std::mem::swap(&mut entries, &mut self.entries);
        match found {
            Some(i) => {
                let (key, mut list) = entries.remove(i);
                list.push(listener);
                entries.insert(i, (key, list));
                proof {
                    let e = entries@[i as int];
                    assert(entries@ =~= old_entries.update(i as int, e));
                    assert forall|k: int| 0 <= k < entries@.len() implies (#[trigger] entries@[k]).0@
                        == old_entries[k].0@ by {}
                    lemma_lookup_skip(old_entries, name@, i as int);
                    lemma_lookup_skip(entries@, name@, i as int);
                    assert forall|n: Seq<char>| n != name@ implies lookup(entries@, n) == lookup(
                        old_entries,
                        n,
                    ) by {
                        lemma_lookup_update_other(old_entries, n, i as int, e);
                    }
                }
            },
            None => {
                let mut list = Vec::new();
                list.push(listener);
                let ghost e = (name, list);
                entries.push((name, list));
                proof {
                    let len = old_entries.len() as int;
                    assert(entries@ =~= old_entries.push(e));
                    lemma_lookup_skip(old_entries, name@, len);
                    assert(old_entries.skip(len).len() == 0);
                    assert forall|k: int| 0 <= k < len implies (#[trigger] entries@[k]).0@
                        != name@ by {
                        assert(entries@[k] == old_entries[k]);
                    }
                    lemma_lookup_skip(entries@, name@, len);
                    assert(entries@.skip(len) =~= seq![e]);
                    assert(seq![e].drop_first().len() == 0);
                    assert(list@ =~= Seq::<L>::empty().push(listener));
                    assert forall|n: Seq<char>| n != name@ implies lookup(entries@, n) == lookup(
                        old_entries,
                        n,
                    ) by {
                        lemma_lookup_push_other(old_entries, n, e);
                    }
                }
            },
        }
        self.entries = entries;
    }

    /// The listeners kept under `name`, or `None` when there are none.
    pub fn get(&self, name: &String) -> (res: Option<&Vec<L>>)
        ensures
            match res {
                Some(list) => list@ == self.listeners(name@),
                None => self.listeners(name@) == Seq::<L>::empty(),
            },
    {
        match self.position(name) {
            Some(i) => {
                proof {
                    lemma_lookup_skip(self.entries@, name@, i as int);
                }
                Some(&self.entries[i].1)
            },
            None => {
                proof {
                    let len = self.entries@.len() as int;
                    lemma_lookup_skip(self.entries@, name@, len);
                    assert(self.entries@.skip(len).len() == 0);
                }
                None
            },
        }
    }
}

/// The listeners subscribed under `name` in `subscriptions`, in order.
pub open spec fn subscribed_under<L>(subscriptions: Seq<(Seq<char>, L)>, name: Seq<char>) -> Seq<L>
    decreases subscriptions.len(),
{
    if subscriptions.len() == 0 {
        Seq::empty()
    } else {
        let earlier = subscribed_under(subscriptions.drop_last(), name);
        if subscriptions.last().0 == name {
            earlier.push(subscriptions.last().1)
        } else {
            earlier
        }
    }
}

/// `after` is `before` with `listener` added under `name`.
pub open spec fn adds<L>(
    before: spec_fn(Seq<char>) -> Seq<L>,
    after: spec_fn(Seq<char>) -> Seq<L>,
    name: Seq<char>,
    listener: L,
) -> bool {
    forall|n: Seq<char>|
        #![trigger after(n)]
        after(n) == if n == name {
            before(n).push(listener)
        } else {
            before(n)
        }
}

/// The listeners under each name are exactly those subscribed under it, oldest
/// first: holding for some subscriptions, it still holds after one more.
pub proof fn law_listeners_are_the_subscriptions<L>(
    before: spec_fn(Seq<char>) -> Seq<L>,
    after: spec_fn(Seq<char>) -> Seq<L>,
    subscriptions: Seq<(Seq<char>, L)>,
    name: Seq<char>,
    listener: L,
)
    requires
        forall|n: Seq<char>| #[trigger] before(n) == subscribed_under(subscriptions, n),
        adds(before, after, name, listener),
    ensures
        forall|n: Seq<char>|
            #[trigger] after(n) == subscribed_under(subscriptions.push((name, listener)), n),
{
    assert forall|n: Seq<char>|
        #[trigger] after(n) == subscribed_under(subscriptions.push((name, listener)), n) by {
        let all = subscriptions.push((name, listener));
        assert(all.drop_last() =~= subscriptions);
        assert(before(n) == subscribed_under(subscriptions, n));
    }
}

} // verus!
