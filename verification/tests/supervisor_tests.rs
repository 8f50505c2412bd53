use neopixel::supervisor::{
    ConnectionState, ConnectivitySupervisor, SupervisorAction, CONNECT_BACKOFF_MICROS,
    HEARTBEAT_INTERVAL_MICROS,
};

#[test]
fn supervisor_starts_disconnected() {
    let sup = ConnectivitySupervisor::new();
    assert_eq!(sup.state, ConnectionState::Disconnected);
}

#[test]
fn failing_connects_keep_retrying_and_never_reach_connected() {
    // A link that stays down and a connect request that keeps failing:
    // Disconnected -> Connecting -> (backoff) -> Connecting -> ... with a
    // finite backoff asked for on every failed attempt.
    let mut sup = ConnectivitySupervisor::new();
    assert_eq!(sup.state, ConnectionState::Disconnected);
    for _ in 0..3 {
        let action = sup.poll_link(false);
        assert_eq!(action, SupervisorAction::Attempt);
        assert_eq!(sup.state, ConnectionState::Connecting);
        let action = sup.on_start_result(true);
        assert_eq!(action, SupervisorAction::Connect);
        assert_eq!(sup.state, ConnectionState::Connecting);
        let action = sup.on_connect_result(false);
        assert_eq!(action, SupervisorAction::Backoff);
        assert_eq!(sup.state, ConnectionState::Connecting);
    }
}

#[test]
fn failed_start_ends_the_iteration_and_retries_without_backoff() {
    // A failed radio start is non-fatal: the supervisor stays in
    // Connecting, asks for an immediate retry (no backoff wait), and the
    // next iteration re-attempts the start.
    let mut sup = ConnectivitySupervisor::new();
    sup.poll_link(false);
    let action = sup.on_start_result(false);
    assert_eq!(action, SupervisorAction::Retry);
    assert_eq!(sup.state, ConnectionState::Connecting);
    // Next iteration: the start is attempted again and succeeds this
    // time; the iteration goes on to the connection request.
    let action = sup.poll_link(false);
    assert_eq!(action, SupervisorAction::Attempt);
    let action = sup.on_start_result(true);
    assert_eq!(action, SupervisorAction::Connect);
    let action = sup.on_connect_result(false);
    assert_eq!(action, SupervisorAction::Backoff);
    assert_eq!(sup.state, ConnectionState::Connecting);
}

#[test]
fn successful_connect_reaches_connected() {
    let mut sup = ConnectivitySupervisor::new();
    let action = sup.poll_link(false);
    assert_eq!(action, SupervisorAction::Attempt);
    let action = sup.on_start_result(true);
    assert_eq!(action, SupervisorAction::Connect);
    let action = sup.on_connect_result(true);
    assert_eq!(action, SupervisorAction::Proceed);
    assert_eq!(sup.state, ConnectionState::Connected);
}

#[test]
fn link_up_settles_into_a_heartbeat() {
    let mut sup = ConnectivitySupervisor::new();
    let action = sup.poll_link(true);
    assert_eq!(action, SupervisorAction::Heartbeat);
    assert_eq!(sup.state, ConnectionState::Connected);
    // The steady state keeps polling on the heartbeat, not spinning.
    let action = sup.poll_link(true);
    assert_eq!(action, SupervisorAction::Heartbeat);
    assert_eq!(sup.state, ConnectionState::Connected);
}

#[test]
fn lost_link_leaves_connected_again() {
    let mut sup = ConnectivitySupervisor::new();
    sup.poll_link(true);
    assert_eq!(sup.state, ConnectionState::Connected);
    let action = sup.poll_link(false);
    assert_eq!(action, SupervisorAction::Attempt);
    assert_eq!(sup.state, ConnectionState::Connecting);
}

#[test]
fn wait_intervals_hold_the_documented_values() {
    assert_eq!(HEARTBEAT_INTERVAL_MICROS, 5_000_000);
    assert_eq!(CONNECT_BACKOFF_MICROS, 2_000_000);
}
