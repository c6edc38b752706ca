use vstd::prelude::*;
use crate::errors::EncodingError;
use crate::handle::LlamaCppSimple;
use crate::options::contains_nul_byte;
use crate::options::has_embedded_nul;
use crate::registry::CallbackRegistry;
use crate::sink::RecorderModel;
use crate::sink::TokenRecorder;
use crate::sink::TokenSink;

verus! {

/// The consumer model after the tokens at positions `i..j` of `tokens`
/// have been consumed in production order, starting from `m`.
pub open spec fn model_between<C: TokenSink>(
    m: C::Model,
    tokens: Seq<Seq<char>>,
    i: int,
    j: int,
) -> C::Model
    decreases j - i,
{
    if j <= i {
        m
    } else {
        C::step(model_between::<C>(m, tokens, i, j - 1), tokens[j - 1])
    }
}

/// How many tokens the delivery loop hands to the consumer, walking
/// `tokens` in production order from position `i` with `m` the consumer
/// model at that position: delivery ends with the token on which the
/// consumer answers stop (that token is still delivered and counted),
/// after `budget` deliveries, or when the production runs out.
pub open spec fn delivered_from<C: TokenSink>(
    m: C::Model,
    tokens: Seq<Seq<char>>,
    i: int,
    budget: nat,
) -> nat
    decreases tokens.len() - i,
{
    if i < 0 || i >= tokens.len() || budget == 0 {
        0
    } else if C::answer(m, tokens[i]) {
        1 + delivered_from::<C>(C::step(m, tokens[i]), tokens, i + 1, (budget - 1) as nat)
    } else {
        1
    }
}

/// The number of tokens one generation call delivers to a consumer whose
/// model starts at `m`, out of the production `tokens`, with at most
/// `budget` deliveries.
pub open spec fn delivered_count<C: TokenSink>(
    m: C::Model,
    tokens: Seq<Seq<char>>,
    budget: nat,
) -> nat {
    delivered_from::<C>(m, tokens, 0, budget)
}

/// Consuming `tokens[i..j)` from `m` is consuming `tokens[i]` first and
/// `tokens[i+1..j)` from the stepped model after.
proof fn lemma_model_between_unfold_left<C: TokenSink>(
    m: C::Model,
    tokens: Seq<Seq<char>>,
    i: int,
    j: int,
)
    requires
        i < j,
    ensures
        model_between::<C>(m, tokens, i, j) == model_between::<C>(
            C::step(m, tokens[i]),
            tokens,
            i + 1,
            j,
        ),
    decreases j - i,
{
    if j > i + 1 {
        lemma_model_between_unfold_left::<C>(m, tokens, i, j - 1);
    } else {
        assert(model_between::<C>(m, tokens, i, i) == m);
    }
}

proof fn lemma_delivers_all_from<C: TokenSink>(
    m: C::Model,
    tokens: Seq<Seq<char>>,
    i: int,
    budget: nat,
)
    requires
        0 <= i <= tokens.len(),
        forall|j: int|
            i <= j < tokens.len() && j - i < budget ==> C::answer(
                #[trigger] model_between::<C>(m, tokens, i, j),
                tokens[j],
            ),
    ensures
        delivered_from::<C>(m, tokens, i, budget) == if tokens.len() - i <= budget {
            (tokens.len() - i) as nat
        } else {
            budget
        },
    decreases tokens.len() - i,
{
    if i < tokens.len() && budget > 0 {
        assert(model_between::<C>(m, tokens, i, i) == m);
        assert(C::answer(m, tokens[i]));
        let stepped = C::step(m, tokens[i]);
        assert forall|j: int|
            i + 1 <= j < tokens.len() && j - (i + 1) < (budget - 1) as nat implies C::answer(
            #[trigger] model_between::<C>(stepped, tokens, i + 1, j),
            tokens[j],
        ) by {
            lemma_model_between_unfold_left::<C>(m, tokens, i, j);
        }
        lemma_delivers_all_from::<C>(stepped, tokens, i + 1, (budget - 1) as nat);
    }
}

/// Token ordering: when the consumer answers continue on every token it is
/// offered, the delivery loop hands over the production in order, with no
/// gaps, until either the production or the delivery budget runs out — so
/// the count equals the whole production length when it fits the budget,
/// and equals the budget otherwise.
pub proof fn lemma_token_ordering<C: TokenSink>(m: C::Model, tokens: Seq<Seq<char>>, budget: nat)
    requires
        forall|j: int|
            0 <= j < tokens.len() && j < budget ==> C::answer(
                #[trigger] model_between::<C>(m, tokens, 0, j),
                tokens[j],
            ),
    ensures
        tokens.len() <= budget ==> delivered_count::<C>(m, tokens, budget) == tokens.len(),
        budget <= tokens.len() ==> delivered_count::<C>(m, tokens, budget) == budget,
{
    lemma_delivers_all_from::<C>(m, tokens, 0, budget);
}

proof fn lemma_stops_from<C: TokenSink>(
    m: C::Model,
    tokens: Seq<Seq<char>>,
    i: int,
    budget: nat,
    k: int,
)
    requires
        0 <= i <= k < tokens.len(),
        k - i < budget,
        forall|j: int|
            i <= j < k ==> C::answer(#[trigger] model_between::<C>(m, tokens, i, j), tokens[j]),
        !C::answer(model_between::<C>(m, tokens, i, k), tokens[k]),
    ensures
        delivered_from::<C>(m, tokens, i, budget) == k - i + 1,
    decreases k - i,
{
    if k == i {
        assert(model_between::<C>(m, tokens, i, i) == m);
    } else {
        assert(model_between::<C>(m, tokens, i, i) == m);
        assert(C::answer(m, tokens[i]));
        let stepped = C::step(m, tokens[i]);
        assert forall|j: int| i + 1 <= j < k implies C::answer(
            #[trigger] model_between::<C>(stepped, tokens, i + 1, j),
            tokens[j],
        ) by {
            lemma_model_between_unfold_left::<C>(m, tokens, i, j);
        }
        lemma_model_between_unfold_left::<C>(m, tokens, i, k);
        lemma_stops_from::<C>(stepped, tokens, i + 1, (budget - 1) as nat, k);
    }
}

/// Early stop: if the consumer answers continue on the tokens before
/// position `k` (counting from zero) and stop on the token at `k`, the
/// delivery loop hands over exactly the first `k + 1` tokens — the
/// stopping token is the last one delivered, and none follows it.
pub proof fn lemma_early_stop<C: TokenSink>(
    m: C::Model,
    tokens: Seq<Seq<char>>,
    budget: nat,
    k: int,
)
    requires
        0 <= k < tokens.len(),
        k < budget,
        forall|j: int|
            0 <= j < k ==> C::answer(#[trigger] model_between::<C>(m, tokens, 0, j), tokens[j]),
        !C::answer(model_between::<C>(m, tokens, 0, k), tokens[k]),
    ensures
        delivered_count::<C>(m, tokens, budget) == k + 1,
{
    lemma_stops_from::<C>(m, tokens, 0, budget, k);
}

/// Along any delivery, a recorder keeps its stop position and records
/// exactly the consumed tokens, in order, after what it already held.
pub proof fn lemma_recorder_path(m: RecorderModel, tokens: Seq<Seq<char>>, i: int, j: int)
    requires
        0 <= i <= j <= tokens.len(),
    ensures
        model_between::<TokenRecorder>(m, tokens, i, j).stop_after == m.stop_after,
        model_between::<TokenRecorder>(m, tokens, i, j).consumed =~= m.consumed + tokens.subrange(
            i,
            j,
        ),
    decreases j - i,
{
    if j > i {
        lemma_recorder_path(m, tokens, i, j - 1);
        assert(m.consumed + tokens.subrange(i, j) =~= (m.consumed + tokens.subrange(i, j - 1)).push(
            tokens[j - 1],
        ));
    } else {
        assert(m.consumed + tokens.subrange(i, i) =~= m.consumed);
    }
}

/// A recorder built without a stop position answers continue on every
/// token, so a generation driven by it delivers the whole production up
/// to the budget.
pub proof fn lemma_recorder_delivers_all(m: RecorderModel, tokens: Seq<Seq<char>>, budget: nat)
    requires
        m.stop_after is None,
    ensures
        tokens.len() <= budget ==> delivered_count::<TokenRecorder>(m, tokens, budget)
            == tokens.len(),
        budget <= tokens.len() ==> delivered_count::<TokenRecorder>(m, tokens, budget) == budget,
{
    assert forall|j: int| 0 <= j < tokens.len() && j < budget implies TokenRecorder::answer(
        #[trigger] model_between::<TokenRecorder>(m, tokens, 0, j),
        tokens[j],
    ) by {
        lemma_recorder_path(m, tokens, 0, j);
    }
    lemma_token_ordering::<TokenRecorder>(m, tokens, budget);
}

/// Token ordering, seen whole on the recorder: a generation call driven
/// by a fresh recorder without a stop position delivers exactly the first
/// `min(budget, tokens.len())` produced tokens, and afterwards the
/// recorder holds precisely that prefix, in production order, no token
/// missing, duplicated or reordered.
pub proof fn lemma_recorder_receives_prefix(m: RecorderModel, tokens: Seq<Seq<char>>, budget: nat)
    requires
        m.stop_after is None,
        m.consumed.len() == 0,
    ensures
        ({
            let count = delivered_count::<TokenRecorder>(m, tokens, budget);
            &&& count == if tokens.len() <= budget {
                tokens.len()
            } else {
                budget
            }
            &&& model_between::<TokenRecorder>(m, tokens, 0, count as int).consumed
                =~= tokens.subrange(0, count as int)
        }),
{
    lemma_recorder_delivers_all(m, tokens, budget);
    let count = delivered_count::<TokenRecorder>(m, tokens, budget);
    lemma_recorder_path(m, tokens, 0, count as int);
}

/// A fresh recorder with stop position `k` lets exactly `k` tokens
/// through: it answers continue on the first `k - 1` and stop on the
/// `k`-th, which is still delivered and counted.
pub proof fn lemma_recorder_stops_at(
    m: RecorderModel,
    tokens: Seq<Seq<char>>,
    budget: nat,
    k: usize,
)
    requires
        m.stop_after == Some(k),
        m.consumed.len() == 0,
        1 <= k,
        k as int <= tokens.len(),
        k as nat <= budget,
    ensures
        delivered_count::<TokenRecorder>(m, tokens, budget) == k,
{
    assert forall|j: int| 0 <= j < k as int - 1 implies TokenRecorder::answer(
        #[trigger] model_between::<TokenRecorder>(m, tokens, 0, j),
        tokens[j],
    ) by {
        lemma_recorder_path(m, tokens, 0, j);
        assert(model_between::<TokenRecorder>(m, tokens, 0, j).consumed.len() == j);
    }
    lemma_recorder_path(m, tokens, 0, k as int - 1);
    assert(model_between::<TokenRecorder>(m, tokens, 0, k as int - 1).consumed.len() == k - 1);
    assert(!TokenRecorder::answer(
        model_between::<TokenRecorder>(m, tokens, 0, k as int - 1),
        tokens[k as int - 1],
    ));
    lemma_early_stop::<TokenRecorder>(m, tokens, budget, k as int - 1);
}

/// Drives the delivery loop of one generation call the way the blocking
/// native call does: hands tokens of `produced` to the consumer registered
/// under `identity`, one at a time and in production order, stopping at
/// the next token boundary once the consumer answers stop, after
/// `max_tokens` deliveries, or when the production runs out. Returns how
/// many tokens were delivered.
pub fn deliver_tokens<C: TokenSink>(
    registry: &mut CallbackRegistry<C>,
    identity: u64,
    produced: &Vec<String>,
    max_tokens: usize,
) -> (count: usize)
    requires
        old(registry)@.contains_key(identity),
    ensures
        count == delivered_count::<C>(
            old(registry)@[identity].model(),
            produced.deep_view(),
            max_tokens as nat,
        ),
        count <= produced.deep_view().len(),
        count <= max_tokens,
        final(registry)@.dom() == old(registry)@.dom(),
        final(registry)@[identity].model() == model_between::<C>(
            old(registry)@[identity].model(),
            produced.deep_view(),
            0,
            count as int,
        ),
        forall|k: u64|
            k != identity && old(registry)@.contains_key(k) ==> final(registry)@[k] == old(
                registry,
            )@[k],
{
    let ghost m0 = old(registry)@[identity].model();
    let ghost toks = produced.deep_view();
    let n = produced.len();
    let mut i: usize = 0;
    let mut stopped = false;
    while i < n && i < max_tokens && !stopped
        invariant
            n == produced@.len(),
            toks == produced.deep_view(),
            toks.len() == n,
            0 <= i <= n,
            i <= max_tokens,
            registry@.contains_key(identity),
            registry@.dom() == old(registry)@.dom(),
            forall|k: u64|
                k != identity && old(registry)@.contains_key(k) ==> registry@[k] == old(
                    registry,
                )@[k],
            registry@[identity].model() == model_between::<C>(m0, toks, 0, i as int),
            !stopped ==> delivered_count::<C>(m0, toks, max_tokens as nat) == i + delivered_from::<
                C,
            >(registry@[identity].model(), toks, i as int, (max_tokens - i) as nat),
            stopped ==> delivered_count::<C>(m0, toks, max_tokens as nat) == i,
        decreases n - i,
    {
        let token = produced[i].clone();
        let ghost cur = registry@[identity].model();
        assert(token@ == toks[i as int]);
        let cont = registry.dispatch(identity, token);
        proof {
            assert(model_between::<C>(m0, toks, 0, i + 1) == C::step(
                model_between::<C>(m0, toks, 0, i as int),
                toks[i as int],
            ));
            assert(delivered_from::<C>(cur, toks, i as int, (max_tokens - i) as nat) == if C::answer(
                cur,
                toks[i as int],
            ) {
                1 + delivered_from::<C>(
                    C::step(cur, toks[i as int]),
                    toks,
                    i + 1,
                    (max_tokens - i - 1) as nat,
                )
            } else {
                1
            });
        }
        i = i + 1;
        if !cont {
            stopped = true;
        }
    }
    i
}

/// One whole streaming generation call, composed exactly as the boundary
/// runs it: reject a prompt that embeds a null byte before anything else
/// happens, register the consumer under the handle's identity, let the
/// engine's production stream drive the trampoline one token at a time,
/// then remove the registry entry unconditionally and report the count.
/// `produced` is the token stream the engine produces for this call; the
/// unverified boundary layer performs the same sequence with the tokens
/// arriving through the native callback instead.
///
/// On success the result carries the delivered-token count and the
/// consumer, whose model shows exactly the delivered prefix, in order.
/// On either path, no entry for this call's identity remains registered.
pub fn generate<C: TokenSink>(
    handle: &mut LlamaCppSimple,
    registry: &mut CallbackRegistry<C>,
    prompt: &str,
    max_tokens: i32,
    produced: &Vec<String>,
    sink: C,
) -> (r: Result<(i32, C), EncodingError>)
    requires
        old(handle).can_generate(),
        max_tokens >= 0,
    ensures
        has_embedded_nul(prompt@) <==> r is Err,
        r is Err ==> {
            &&& r == Err::<(i32, C), EncodingError>(EncodingError::EmbeddedNul)
            &&& *final(handle) == *old(handle)
            &&& final(registry)@ == old(registry)@
        },
        r matches Ok((count, consumer)) ==> {
            &&& count == delivered_count::<C>(
                sink.model(),
                produced.deep_view(),
                max_tokens as nat,
            ) as i32
            &&& 0 <= count <= max_tokens
            &&& count <= produced.deep_view().len()
            &&& consumer.model() == model_between::<C>(
                sink.model(),
                produced.deep_view(),
                0,
                count as int,
            )
            &&& final(registry)@ == old(registry)@.remove(old(handle).identity())
            &&& !final(registry)@.contains_key(old(handle).identity())
            &&& final(handle).can_generate()
            &&& final(handle).can_destroy()
            &&& final(handle).identity() == old(handle).identity()
            &&& final(handle).config() == old(handle).config()
        },
{
    if contains_nul_byte(prompt) {
        return Err(EncodingError::EmbeddedNul);
    }
    let identity = handle.begin_generation(registry, sink);
    let count = deliver_tokens(registry, identity, produced, max_tokens as usize);
    let (native_count, removed) = handle.finish_generation(registry, count as i32);
    proof {
        assert(registry@ =~= old(registry)@.remove(old(handle).identity()));
    }
    match removed {
        Some(consumer) => Ok((native_count, consumer)),
        None => unreached(),
    }
}

} // verus!
