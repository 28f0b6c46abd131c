//! A bus that hands published data to the listeners subscribed under a name.
use vstd::prelude::*;
use crate::registry::Registry;

verus! {

/// Listeners by name; publishing under a name calls each of its listeners,
/// oldest first, with a clone of the data.
pub struct Bus<ListenerData, L = Box<dyn Fn(ListenerData) + Send>> where ListenerData: Clone {
    listeners: Registry<L>,
    data: core::marker::PhantomData<ListenerData>,
}

impl<ListenerData: Clone, L> Bus<ListenerData, L> {
    /// The listeners subscribed under `name`, oldest first.
    pub closed spec fn listeners(&self, name: Seq<char>) -> Seq<L> {
        self.listeners.listeners(name)
    }

    pub fn new() -> (res: Bus<ListenerData, L>)
        ensures
            forall|name: Seq<char>| (#[trigger] res.listeners(name)) == Seq::<L>::empty(),
    {
        Bus { listeners: Registry::new(), data: core::marker::PhantomData }
    }

    /// Adds `listener` after those already subscribed under `name`.
    pub fn subscribe(&mut self, name: String, listener: L)
        ensures
            forall|n: Seq<char>|
                #![trigger final(self).listeners(n)]
                final(self).listeners(n) == if n == name@ {
                    old(self).listeners(n).push(listener)
                } else {
                    old(self).listeners(n)
                },
    {
        self.listeners.add(name, listener);
    }
}

/// `listener` may be called with any data.
pub open spec fn accepts_any<D, L: Fn(D)>(listener: L) -> bool {
    forall|d: D| #[trigger] call_requires(listener, (d,))
}

/// `listener` has been called with a clone of `data`.
pub open spec fn heard<D: Clone, L: Fn(D)>(listener: L, data: D) -> bool {
    exists|d: D| cloned(data, d) && #[trigger] call_ensures(listener, (d,), ())
}

impl<ListenerData: Clone, L: Fn(ListenerData)> Bus<ListenerData, L> {
    /// Every listener under every name may be called with any data.
    pub open spec fn listeners_accept_any(&self) -> bool {
        forall|name: Seq<char>, i: int|
            0 <= i < self.listeners(name).len() ==> accepts_any(
                #[trigger] self.listeners(name)[i],
            )
    }

    /// Calls every listener subscribed under `name`, oldest first, with a clone of `data`.
    pub fn publish(&self, name: String, data: ListenerData)
        requires
            forall|i: int|
                0 <= i < self.listeners(name@).len() ==> accepts_any(
                    #[trigger] self.listeners(name@)[i],
                ),
        ensures
            forall|i: int|
                0 <= i < self.listeners(name@).len() ==> heard(
                    #[trigger] self.listeners(name@)[i],
                    data,
                ),
    {
        if let Some(list) = self.listeners.get(&name) {
            let mut i: usize = 0;
            while i < list.len()
                invariant
                    i <= list@.len(),
                    list@ == self.listeners(name@),
                    forall|k: int| 0 <= k < list@.len() ==> accepts_any(#[trigger] list@[k]),
                    forall|k: int| 0 <= k < i ==> heard(#[trigger] list@[k], data),
                decreases list@.len() - i,
            {
                let listener = &list[i];
                let d = data.clone();
                proof {
                    assert(accepts_any(list@[i as int]));
                    assert(call_requires(*listener, (d,)));
                }
                listener(d);
                proof {
                    assert(cloned(data, d));
                    assert(heard(list@[i as int], data));
                }
                i = i + 1;
            }
        }
    }
}

} // verus!
