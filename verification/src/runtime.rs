use vstd::prelude::*;

use crate::error::Error;

verus! {

/// No optional capability requested.
pub const FEATURE_NONE: u8 = 0;

/// Requests the WebGL compute backend.
pub const FEATURE_WEBGL: u8 = 1;

/// Requests the WebGPU compute backend.
pub const FEATURE_WEBGPU: u8 = 2;

/// Requests the WebNN compute backend. WebNN rides on the same negotiated
/// backend as WebGPU, so this flag is defined as an alias of
/// [`FEATURE_WEBGPU`] and the two bitmasks behave identically.
pub const FEATURE_WEBNN: u8 = FEATURE_WEBGPU;

/// What the host reported it can provide, discovered by the embedding glue
/// during the asynchronous part of the handshake and handed in as a plain
/// value.
#[derive(Debug, Clone, Copy, PartialEq, Eq, Structural)]
pub struct HostCapabilities {
    /// The host can load a WebGL-backed compute backend.
    pub webgl: bool,
    /// The host can load a WebGPU-backed compute backend (which also serves
    /// WebNN requests).
    pub webgpu: bool,
}

/// The native API function table, retrievable once initialization has
/// succeeded. A token on this side of the boundary: the engine's actual
/// entry points live on the native side, and the embedding glue maps the
/// token to them.
#[derive(Debug, Clone, Copy, PartialEq, Eq, Structural)]
pub struct ApiTable {}

/// The process-wide readiness flag: unset at process start, set by the
/// first successful initialization, and never reset within a process
/// lifetime.
#[derive(Debug, Clone, Copy, PartialEq, Eq, Structural)]
pub struct RuntimeState {
    initialized: bool,
}

/// Whether the bitmask requests the WebGL backend. Unknown bits are ignored.
pub open spec fn spec_wants_webgl(features: u8) -> bool {
    features & FEATURE_WEBGL != 0
}

/// Whether the bitmask requests the WebGPU backend; the WebNN flag is the
/// same bit. Unknown bits are ignored.
pub open spec fn spec_wants_webgpu(features: u8) -> bool {
    features & FEATURE_WEBGPU != 0
}

/// Whether the host can provide every backend the bitmask requests.
pub open spec fn host_satisfies(features: u8, host: HostCapabilities) -> bool {
    (spec_wants_webgl(features) ==> host.webgl) && (spec_wants_webgpu(features) ==> host.webgpu)
}

/// The message reported when the host cannot provide a requested backend:
/// it names the first unmet capability, WebGL checked first.
pub open spec fn spec_denial_message(features: u8, host: HostCapabilities) -> Seq<char> {
    if spec_wants_webgl(features) && !host.webgl {
        "the host does not provide the requested WebGL backend"@
    } else {
        "the host does not provide the requested WebGPU backend"@
    }
}

/// Whether one initialization attempt succeeds: trivially if the process is
/// already initialized, else exactly when the host satisfies the request.
pub open spec fn spec_init_succeeds(s: RuntimeState, features: u8, host: HostCapabilities) -> bool {
    s.is_initialized() || host_satisfies(features, host)
}

/// Whether the bitmask requests the WebGL backend. Unknown bits are ignored.
pub fn wants_webgl(features: u8) -> (b: bool)
    ensures
        b == spec_wants_webgl(features),
{
    features & FEATURE_WEBGL != 0
}

/// Whether the bitmask requests the WebGPU backend (the WebNN flag is the
/// same bit). Unknown bits are ignored.
pub fn wants_webgpu(features: u8) -> (b: bool)
    ensures
        b == spec_wants_webgpu(features),
{
    features & FEATURE_WEBGPU != 0
}

impl RuntimeState {
    /// Whether the first successful initialization has happened in this
    /// process.
    pub closed spec fn is_initialized(&self) -> bool {
        self.initialized
    }

    /// Whether the first successful initialization has happened in this
    /// process.
    pub fn initialized(&self) -> (b: bool)
        ensures
            b == self.is_initialized(),
    {
        self.initialized
    }

    /// A fresh process: no initialization has happened yet.
    pub fn new() -> (s: RuntimeState)
        ensures
            !s.is_initialized(),
    {
        RuntimeState { initialized: false }
    }

    /// One initialization attempt with the requested capability bitmask,
    /// held against what the host reported it can provide.
    ///
    /// Idempotent per process: once initialized, later attempts are
    /// successful no-ops whatever they request. A first attempt succeeds
    /// exactly when the host provides every requested backend; a failed
    /// attempt leaves the process uninitialized, so a retry with another
    /// bitmask stays possible, and its error names the unmet capability.
    pub fn initialize(&mut self, features: u8, host: HostCapabilities) -> (r: Result<(), Error>)
        ensures
            final(self).is_initialized() == spec_init_succeeds(*old(self), features, host),
            r is Ok <==> spec_init_succeeds(*old(self), features, host),
            old(self).is_initialized() ==> *final(self) == *old(self),
            !(r is Ok) ==> *final(self) == *old(self),
            r matches Err(e) ==> e@ == spec_denial_message(features, host),
    {
        if self.initialized {
            return Ok(());
        }
        if wants_webgl(features) && !host.webgl {
            return Err(Error::new("the host does not provide the requested WebGL backend"));
        }
        if wants_webgpu(features) && !host.webgpu {
            return Err(Error::new("the host does not provide the requested WebGPU backend"));
        }
        self.initialized = true;
        Ok(())
    }
}

/// The sole externally documented way to obtain the native function table:
/// one initialization attempt, then the table on success.
///
/// Repeating the call with the same bitmask against the same host either
/// yields the one table both times or fails with the same denial both
/// times; see [`lemma_initialize_idempotent`].
pub fn api(state: &mut RuntimeState, features: u8, host: HostCapabilities) -> (r: Result<
    ApiTable,
    Error,
>)
    ensures
        final(state).is_initialized() == spec_init_succeeds(*old(state), features, host),
        r is Ok <==> spec_init_succeeds(*old(state), features, host),
        r matches Ok(t) ==> t == (ApiTable {}),
        !(r is Ok) ==> *final(state) == *old(state),
        r matches Err(e) ==> e@ == spec_denial_message(features, host),
{
    match state.initialize(features, host) {
        Ok(()) => Ok(ApiTable {}),
        Err(e) => Err(e),
    }
}

/// Repeated initialization with one bitmask against one host is idempotent.
///
/// `s` is the readiness state before a first attempt and `s1` the state that
/// attempt leaves behind (as [`RuntimeState::initialize`] ensures). A second
/// attempt with the same bitmask against the same host then succeeds exactly
/// when the first did; and since a denial's message depends only on the
/// bitmask and the host, two failing attempts fail identically.
pub proof fn lemma_initialize_idempotent(
    s: RuntimeState,
    s1: RuntimeState,
    features: u8,
    host: HostCapabilities,
)
    requires
        s1.is_initialized() == spec_init_succeeds(s, features, host),
    ensures
        spec_init_succeeds(s1, features, host) == spec_init_succeeds(s, features, host),
{
}

/// The WebNN flag is an alias of the WebGPU flag, so requesting WebNN is
/// requesting WebGPU: every observable of an initialization attempt (the
/// flag itself, the success condition and the denial message) is the same
/// for the two bitmasks.
pub proof fn lemma_webnn_is_webgpu(s: RuntimeState, host: HostCapabilities)
    ensures
        FEATURE_WEBNN == FEATURE_WEBGPU,
        spec_init_succeeds(s, FEATURE_WEBNN, host) == spec_init_succeeds(s, FEATURE_WEBGPU, host),
        spec_denial_message(FEATURE_WEBNN, host) == spec_denial_message(FEATURE_WEBGPU, host),
{
}

} // verus!
