//! Client-side configuration: the builder that fixes how many targets a
//! client may manage before it connects to the bus. Connecting itself
//! opens the shared bus handle, which lives with the I/O shell around this
//! library; the builder's arithmetic and the registry it configures are
//! what is pinned down here.

use vstd::prelude::*;

verus! {

use crate::registry::TargetRegistry;

/// How many targets a client manages when the builder sets no limit.
pub const DEFAULT_VIGEM_TARGETS_MAX: u32 = 16;

/// A builder for a client: collects options before the connect call.
#[derive(Debug, Clone, Copy, PartialEq, Eq, Structural)]
pub struct ClientBuilder {
    /// The configured target limit, or `None` for the default.
    pub max_targets: Option<u32>,
}

/// The capacity a builder resolves to: the configured limit, or the
/// default where none was set.
pub open spec fn spec_effective_max_targets(b: ClientBuilder) -> u32 {
    match b.max_targets {
        Some(n) => n,
        None => DEFAULT_VIGEM_TARGETS_MAX,
    }
}

impl ClientBuilder {
    /// A builder with default settings.
    pub fn new() -> (r: Self)
        ensures
            r.max_targets is None,
    {
        ClientBuilder { max_targets: None }
    }

    /// Sets the maximum number of virtual targets this client can manage.
    /// The default is 16.
    pub fn max_targets(self, count: u32) -> (r: Self)
        ensures
            r.max_targets == Some(count),
    {
        ClientBuilder { max_targets: Some(count) }
    }

    /// Resolves the capacity this builder stands for.
    pub fn effective_max_targets(&self) -> (r: u32)
        ensures
            r == spec_effective_max_targets(*self),
    {
        match self.max_targets {
            Some(n) => n,
            None => DEFAULT_VIGEM_TARGETS_MAX,
        }
    }

    /// Builds the empty registry a freshly connected client starts with:
    /// no live slots, capacity as configured.
    pub fn build_registry(&self) -> (r: TargetRegistry)
        ensures
            r.wf(),
            r.slots() == Seq::<u32>::empty(),
            r.spec_max_targets() == spec_effective_max_targets(*self),
    {
        TargetRegistry::new(self.effective_max_targets())
    }
}

impl Default for ClientBuilder {
    /// The same settings as a fresh builder: no limit configured.
    fn default() -> (r: Self)
        ensures
            r.max_targets is None,
    {
        ClientBuilder { max_targets: None }
    }
}

} // verus!
