use vstd::prelude::*;
use crate::errors::CreationError;
use crate::options::LlamaOptions;
use crate::registry::CallbackRegistry;
use crate::sink::TokenSink;

verus! {

/// The checked model of one native engine instance. It carries the
/// write-once configuration captured at creation, the identity value under
/// which the instance's generation calls register their consumer (derived
/// from the instance's context pointer, stable for the instance's
/// lifetime), and the two lifecycle facts the contracts guard: whether the
/// native resource is still owned, and whether a generation call is in
/// flight. The unverified boundary layer owns the raw native pointers and
/// keeps one value of this type beside them.
#[derive(Debug)]
pub struct LlamaCppSimple {
    config: LlamaOptions,
    identity: u64,
    live: bool,
    generating: bool,
}

impl LlamaCppSimple {
    /// The handle still owns its native instance: it has been created and
    /// not yet destroyed.
    pub closed spec fn is_live(&self) -> bool {
        self.live
    }

    /// A generation call on this handle is in flight.
    pub closed spec fn is_generating(&self) -> bool {
        self.generating
    }

    /// The identity under which this handle's generation calls register.
    pub closed spec fn identity(&self) -> u64 {
        self.identity
    }

    /// The configuration captured at creation, immutable afterwards.
    pub closed spec fn config(&self) -> LlamaOptions {
        self.config
    }

    /// A generation call may start: the handle is live and no other call
    /// on it is in flight (at most one in-flight generation per handle).
    pub open spec fn can_generate(&self) -> bool {
        self.is_live() && !self.is_generating()
    }

    /// The handle may be destroyed: it is live and no generation call on
    /// it is in flight.
    pub open spec fn can_destroy(&self) -> bool {
        self.is_live() && !self.is_generating()
    }

    /// Builds the handle from the outcome of the native create call:
    /// `native_context` carries the new instance's context identity when
    /// the engine returned an instance, and is `None` when the engine
    /// returned null. On `None` the creation fails and no resource is
    /// held; on success the handle exclusively owns the instance.
    pub fn create(config: LlamaOptions, native_context: Option<u64>) -> (r: Result<
        LlamaCppSimple,
        CreationError,
    >)
        requires
            config.model_path_ok(),
        ensures
            native_context is None <==> r is Err,
            r is Err ==> r == Err::<LlamaCppSimple, CreationError>(CreationError::NativeInitFailed),
            r matches Ok(h) ==> {
                &&& h.can_generate()
                &&& h.can_destroy()
                &&& native_context == Some(h.identity())
                &&& h.config() == config
            },
    {
        match native_context {
            Some(identity) => Ok(LlamaCppSimple { config, identity, live: true, generating: false }),
            None => Err(CreationError::NativeInitFailed),
        }
    }

    /// Gives up ownership of the native instance. Its precondition makes
    /// destruction run at most once per created handle, and never while a
    /// generation call is in flight; afterwards the handle is dead for
    /// good.
    pub fn destroy(&mut self)
        requires
            old(self).can_destroy(),
        ensures
            !final(self).is_live(),
            !final(self).is_generating(),
            final(self).identity() == old(self).identity(),
            final(self).config() == old(self).config(),
    {
        self.live = false;
    }

    /// The identity source for the registry: the value standing for the
    /// instance's context pointer. It is only a key, not an ownership
    /// relation.
    pub fn context_identity(&self) -> (identity: u64)
        ensures
            identity == self.identity(),
    {
        self.identity
    }

    /// The configuration captured at creation.
    pub fn options(&self) -> (config: &LlamaOptions)
        ensures
            *config == self.config(),
    {
        &self.config
    }

    /// Whether the handle still owns its native instance.
    pub fn alive(&self) -> (r: bool)
        ensures
            r == self.is_live(),
    {
        self.live
    }

    /// Opens a generation call on this handle: marks the call in flight
    /// and makes `sink` the active consumer under the handle's identity.
    pub fn begin_generation<C: TokenSink>(
        &mut self,
        registry: &mut CallbackRegistry<C>,
        sink: C,
    ) -> (identity: u64)
        requires
            old(self).can_generate(),
        ensures
            identity == old(self).identity(),
            final(registry)@ == old(registry)@.insert(identity, sink),
            final(self).is_live(),
            final(self).is_generating(),
            final(self).identity() == old(self).identity(),
            final(self).config() == old(self).config(),
    {
        self.generating = true;
        registry.register(self.identity, sink);
        self.identity
    }

    /// Closes a generation call on whatever path it ended: removes the
    /// handle's registry entry unconditionally, hands the consumer back,
    /// and passes the count the native side reported through unchanged.
    /// After it returns, a lookup of this call's identity finds nothing.
    pub fn finish_generation<C: TokenSink>(
        &mut self,
        registry: &mut CallbackRegistry<C>,
        native_count: i32,
    ) -> (r: (i32, Option<C>))
        requires
            old(self).is_live(),
            old(self).is_generating(),
        ensures
            final(registry)@ == old(registry)@.remove(old(self).identity()),
            !final(registry)@.contains_key(old(self).identity()),
            r.0 == native_count,
            r.1 matches Some(sink) ==> old(registry)@.contains_key(old(self).identity())
                && sink == old(registry)@[old(self).identity()],
            r.1 is None ==> !old(registry)@.contains_key(old(self).identity()),
            final(self).can_generate(),
            final(self).can_destroy(),
            final(self).identity() == old(self).identity(),
            final(self).config() == old(self).config(),
    {
        self.generating = false;
        let removed = registry.unregister(self.identity);
        (native_count, removed)
    }
}

/// Create/destroy pairing: once a handle is destroyed it is not live, and
/// a handle that is not live can neither be destroyed again nor open a
/// generation call — `destroy` runs exactly once per successful `create`,
/// and no generation follows destruction.
pub proof fn lemma_no_use_after_destroy(h: LlamaCppSimple)
    requires
        !h.is_live(),
    ensures
        !h.can_destroy(),
        !h.can_generate(),
{
}

} // verus!
