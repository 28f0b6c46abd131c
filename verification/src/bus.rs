//! A publish/subscribe hub for text messages: listeners subscribed under an
//! event name receive, in subscription order, each message published under it.
use vstd::prelude::*;
use crate::registry::Registry;

verus! {

/// Listeners of text messages, by event name.
pub struct PubSub<L> {
    listeners: Registry<L>,
}

/// `listener` may be called with any message.
pub open spec fn takes_any_message<L: Fn(&str)>(listener: L) -> bool {
    forall|message: &str| #[trigger] call_requires(listener, (message,))
}

impl<L> PubSub<L> {
    /// The listeners subscribed under `event`, oldest first.
    pub closed spec fn listeners(&self, event: Seq<char>) -> Seq<L> {
        self.listeners.listeners(event)
    }

    pub fn new() -> (res: PubSub<L>)
        ensures
            forall|event: Seq<char>| (#[trigger] res.listeners(event)) == Seq::<L>::empty(),
    {
        let listeners = Registry::new();
        PubSub { listeners }
    }

    /// Adds `listener` after those already subscribed under `event`.
    pub fn subscribe(&mut self, event: &str, listener: L)
        ensures
            forall|n: Seq<char>|
                #![trigger final(self).listeners(n)]
                final(self).listeners(n) == if n == event@ {
                    old(self).listeners(n).push(listener)
                } else {
                    old(self).listeners(n)
                },
    {
        self.listeners.add(String::from_str(event), listener);
    }
}

impl<L: Fn(&str)> PubSub<L> {
    /// Calls every listener subscribed under `event`, oldest first, with `data`.
    pub fn publish(&self, event: &str, data: &str)
        requires
            forall|i: int|
                0 <= i < self.listeners(event@).len() ==> takes_any_message(
                    #[trigger] self.listeners(event@)[i],
                ),
        ensures
            forall|i: int|
                0 <= i < self.listeners(event@).len() ==> call_ensures(
                    #[trigger] self.listeners(event@)[i],
                    (data,),
                    (),
                ),
    {
        let name = String::from_str(event);
        if let Some(list) = self.listeners.get(&name) {
            let mut i: usize = 0;
            while i < list.len()
                invariant
                    i <= list@.len(),
                    list@ == self.listeners(event@),
                    forall|k: int| 0 <= k < list@.len() ==> takes_any_message(#[trigger] list@[k]),
                    forall|k: int| 0 <= k < i ==> call_ensures(#[trigger] list@[k], (data,), ()),
                decreases list@.len() - i,
            {
                let listener = &list[i];
                proof {
                    assert(takes_any_message(list@[i as int]));
                    assert(call_requires(*listener, (data,)));
                }
                listener(data);
                i = i + 1;
            }
        }
    }
}

} // verus!
