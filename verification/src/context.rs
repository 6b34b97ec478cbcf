//! The connection-context state of the daemon protocol layer, and the
//! predicate that tells the connected states apart.

use vstd::prelude::*;

verus! {

/// The states a connection context can be in.
#[allow(non_camel_case_types)]
#[derive(Clone, Copy, PartialEq, Eq, Structural, Debug)]
pub enum pa_context_state_t {
    Unconnected,
    Connecting,
    Authorizing,
    SettingName,
    Ready,
    Failed,
    Terminated,
}

pub const PA_CONTEXT_NOFLAGS: u32 = 0x0;

pub const PA_CONTEXT_NOAUTOSPAWN: u32 = 0x1;

pub const PA_CONTEXT_NOFAIL: u32 = 0x2;

/// Returns `true` if the passed state is one of the connected states.
pub fn pa_context_is_good(state: pa_context_state_t) -> (r: bool)
    ensures
        r == (state == pa_context_state_t::Connecting || state == pa_context_state_t::Authorizing
            || state == pa_context_state_t::SettingName || state == pa_context_state_t::Ready),
{
    state == pa_context_state_t::Connecting || state == pa_context_state_t::Authorizing
        || state == pa_context_state_t::SettingName || state == pa_context_state_t::Ready
}

} // verus!
