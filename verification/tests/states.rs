use pulse::context::{pa_context_is_good, pa_context_state_t};
use pulse::def::{
    pa_sink_is_opened, pa_sink_is_running, pa_sink_state_t, pa_source_is_opened,
    pa_source_is_running, pa_source_state_t, PA_INVALID_INDEX,
};

#[test]
fn context_is_good_on_connected_states_only() {
    assert!(!pa_context_is_good(pa_context_state_t::Unconnected));
    assert!(pa_context_is_good(pa_context_state_t::Connecting));
    assert!(pa_context_is_good(pa_context_state_t::Authorizing));
    assert!(pa_context_is_good(pa_context_state_t::SettingName));
    assert!(pa_context_is_good(pa_context_state_t::Ready));
    assert!(!pa_context_is_good(pa_context_state_t::Failed));
    assert!(!pa_context_is_good(pa_context_state_t::Terminated));
}

#[test]
fn sink_state_predicates() {
    assert!(pa_sink_is_opened(pa_sink_state_t::Running));
    assert!(pa_sink_is_opened(pa_sink_state_t::Idle));
    assert!(!pa_sink_is_opened(pa_sink_state_t::Suspended));
    assert!(!pa_sink_is_opened(pa_sink_state_t::Invalid));
    assert!(pa_sink_is_running(pa_sink_state_t::Running));
    assert!(!pa_sink_is_running(pa_sink_state_t::Idle));
}

#[test]
fn source_state_predicates() {
    assert!(pa_source_is_opened(pa_source_state_t::Running));
    assert!(pa_source_is_opened(pa_source_state_t::Idle));
    assert!(!pa_source_is_opened(pa_source_state_t::Suspended));
    assert!(!pa_source_is_opened(pa_source_state_t::Invalid));
    assert!(pa_source_is_running(pa_source_state_t::Running));
    assert!(!pa_source_is_running(pa_source_state_t::Idle));
}

#[test]
fn invalid_index_is_all_ones() {
    assert_eq!(PA_INVALID_INDEX, u32::MAX);
}
