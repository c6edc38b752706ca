use vstd::prelude::*;

verus! {

/// A per-call token consumer: the capturing, mutable callback of one
/// generation call. It receives each produced token as text and answers
/// with the continue (`true`) / stop (`false`) signal.
///
/// The consumer's observable behaviour is pinned by an abstract model:
/// `consume` moves the model by `step` and answers exactly `answer`, so the
/// whole delivery protocol can be reasoned about from the model alone.
pub trait TokenSink: Sized {
    /// Abstract state of the consumer.
    type Model;

    /// The consumer's current abstract state.
    spec fn model(&self) -> Self::Model;

    /// The abstract state after consuming one token.
    spec fn step(m: Self::Model, token: Seq<char>) -> Self::Model;

    /// The continue/stop signal the consumer gives for `token` in state `m`.
    spec fn answer(m: Self::Model, token: Seq<char>) -> bool;

    /// Consumes one produced token; `true` lets generation continue,
    /// `false` requests a stop at the next token boundary.
    fn consume(&mut self, token: String) -> (cont: bool)
        ensures
            final(self).model() == Self::step(old(self).model(), token@),
            cont == Self::answer(old(self).model(), token@);
}

/// Abstract state of a [`TokenRecorder`]: the tokens consumed so far and the
/// optional position at which the recorder asks generation to stop.
pub struct RecorderModel {
    pub consumed: Seq<Seq<char>>,
    pub stop_after: Option<usize>,
}

/// A token consumer that records every delivered token in order and, when
/// built with a stop position `k`, answers `false` on the `k`-th token.
#[derive(Debug)]
pub struct TokenRecorder {
    pub tokens: Vec<String>,
    pub stop_after: Option<usize>,
}

impl TokenRecorder {
    /// The tokens recorded so far, in delivery order.
    pub open spec fn recorded(&self) -> Seq<Seq<char>> {
        self.tokens.deep_view()
    }

    /// A recorder that always answers continue.
    pub fn new() -> (r: Self)
        ensures
            r.recorded() =~= Seq::<Seq<char>>::empty(),
            r.model().consumed =~= Seq::<Seq<char>>::empty(),
            r.model().stop_after is None,
    {
        TokenRecorder { tokens: Vec::new(), stop_after: None }
    }

    /// A recorder that answers stop on the `k`-th delivered token.
    pub fn stopping_after(k: usize) -> (r: Self)
        ensures
            r.recorded() =~= Seq::<Seq<char>>::empty(),
            r.model().consumed =~= Seq::<Seq<char>>::empty(),
            r.model().stop_after == Some(k),
    {
        TokenRecorder { tokens: Vec::new(), stop_after: Some(k) }
    }

    /// How many tokens have been recorded.
    pub fn len(&self) -> (n: usize)
        ensures
            n == self.recorded().len(),
    {
        self.tokens.len()
    }

    /// The `i`-th recorded token.
    pub fn token_at(&self, i: usize) -> (t: &String)
        requires
            i < self.recorded().len(),
        ensures
            t@ == self.recorded()[i as int],
    {
        &self.tokens[i]
    }
}

impl TokenSink for TokenRecorder {
    type Model = RecorderModel;

    open spec fn model(&self) -> RecorderModel {
        RecorderModel { consumed: self.tokens.deep_view(), stop_after: self.stop_after }
    }

    open spec fn step(m: RecorderModel, token: Seq<char>) -> RecorderModel {
        RecorderModel { consumed: m.consumed.push(token), stop_after: m.stop_after }
    }

    open spec fn answer(m: RecorderModel, token: Seq<char>) -> bool {
        match m.stop_after {
            Some(k) => m.consumed.len() + 1 < k as nat,
            None => true,
        }
    }

    fn consume(&mut self, token: String) -> (cont: bool) {
        let ghost prev = self.tokens.deep_view();
        let ghost tv = token@;
        self.tokens.push(token);
        proof {
            assert(self.tokens.deep_view() =~= prev.push(tv));
        }
        match self.stop_after {
            Some(k) => self.tokens.len() < k,
            None => true,
        }
    }
}

} // verus!
