use vstd::prelude::*;
use std::collections::HashMap;
use crate::sink::TokenSink;

verus! {

broadcast use vstd::std_specs::hash::group_hash_axioms;

/// The process-wide mapping from a boundary-stable identity to the one
/// active token consumer of the generation call running under that
/// identity. At most one entry is live per identity; registering again
/// under the same identity replaces the earlier entry (last write wins).
///
/// The registry is viewed as a `Map<u64, C>` from identities to consumers.
pub struct CallbackRegistry<C> {
    entries: HashMap<u64, C>,
}

impl<C> View for CallbackRegistry<C> {
    type V = Map<u64, C>;

    closed spec fn view(&self) -> Map<u64, C> {
        self.entries@
    }
}

impl<C: TokenSink> CallbackRegistry<C> {
    /// An empty registry: no identity has an active consumer.
    pub fn new() -> (r: Self)
        ensures
            r@ == Map::<u64, C>::empty(),
    {
        CallbackRegistry { entries: HashMap::new() }
    }

    /// How many identities currently have an active consumer.
    pub fn len(&self) -> (n: usize)
        ensures
            n == self@.dom().len(),
    {
        self.entries.len()
    }

    /// Whether `identity` currently has an active consumer.
    pub fn contains(&self, identity: u64) -> (r: bool)
        ensures
            r == self@.contains_key(identity),
    {
        self.entries.contains_key(&identity)
    }

    /// Makes `sink` the active consumer under `identity`, replacing any
    /// earlier entry (last write wins).
    pub fn register(&mut self, identity: u64, sink: C)
        ensures
            final(self)@ == old(self)@.insert(identity, sink),
    {
        self.entries.insert(identity, sink);
    }

    /// Removes the entry under `identity`, handing its consumer back;
    /// a no-op returning `None` when the identity is unknown.
    pub fn unregister(&mut self, identity: u64) -> (removed: Option<C>)
        ensures
            final(self)@ == old(self)@.remove(identity),
            !final(self)@.contains_key(identity),
            removed matches Some(sink) ==> old(self)@.contains_key(identity) && sink == old(
                self,
            )@[identity],
            removed is None ==> !old(self)@.contains_key(identity),
    {
        self.entries.remove(&identity)
    }

    /// Forwards one produced token to the consumer registered under
    /// `identity` and returns its continue/stop answer. An unknown identity
    /// is a dispatch miss: the registry is left as it is and generation is
    /// allowed to continue, since silently stopping an in-flight call would
    /// be the worse failure.
    pub fn dispatch(&mut self, identity: u64, token: String) -> (cont: bool)
        ensures
            old(self)@.contains_key(identity) ==> {
                &&& cont == C::answer(old(self)@[identity].model(), token@)
                &&& final(self)@.dom() == old(self)@.dom()
                &&& final(self)@[identity].model() == C::step(
                    old(self)@[identity].model(),
                    token@,
                )
                &&& forall|k: u64|
                    k != identity && old(self)@.contains_key(k) ==> final(self)@[k] == old(
                        self,
                    )@[k]
            },
            !old(self)@.contains_key(identity) ==> final(self)@ == old(self)@ && cont,
    {
        match self.entries.remove(&identity) {
            Some(mut sink) => {
                let cont = sink.consume(token);
                self.entries.insert(identity, sink);
                proof {
                    assert(self@.dom() =~= old(self)@.dom());
                }
                cont
            },
            None => true,
        }
    }

    /// The decision step behind the one trampoline function whose address
    /// ever crosses the boundary. The boundary layer converts the native
    /// token text and passes `Some(token)`, or `None` when the text was
    /// not valid UTF-8; a decode failure never unwinds across the boundary
    /// and is answered with the always-safe stop signal. Otherwise the
    /// token is dispatched and the consumer's answer is returned exactly.
    pub fn trampoline_step(&mut self, identity: u64, token: Option<String>) -> (cont: bool)
        ensures
            token is None ==> !cont && final(self)@ == old(self)@,
            token matches Some(t) ==> {
                &&& old(self)@.contains_key(identity) ==> {
                    &&& cont == C::answer(old(self)@[identity].model(), t@)
                    &&& final(self)@.dom() == old(self)@.dom()
                    &&& final(self)@[identity].model() == C::step(
                        old(self)@[identity].model(),
                        t@,
                    )
                    &&& forall|k: u64|
                        k != identity && old(self)@.contains_key(k) ==> final(self)@[k] == old(
                            self,
                        )@[k]
                }
                &&& !old(self)@.contains_key(identity) ==> final(self)@ == old(self)@ && cont
            },
    {
        match token {
            Some(t) => self.dispatch(identity, t),
            None => false,
        }
    }
}

} // verus!
