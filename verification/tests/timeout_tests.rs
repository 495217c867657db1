use stor_core::timeout::{base_timeout_from_config, op_timeout, request_timeout, Context,
    OperationId, DEFAULT_REQ_TIMEOUT_MS};

#[test]
fn unset_configuration_falls_back_to_the_default() {
    assert_eq!(base_timeout_from_config(&None), DEFAULT_REQ_TIMEOUT_MS);
    assert_eq!(base_timeout_from_config(&None), 5000);
}

#[test]
fn configured_duration_is_parsed_to_milliseconds() {
    assert_eq!(base_timeout_from_config(&Some("2s".to_string())), 2000);
    assert_eq!(base_timeout_from_config(&Some("250ms".to_string())), 250);
    assert_eq!(base_timeout_from_config(&Some("1min 5s".to_string())), 65000);
}

#[test]
fn unparsable_duration_falls_back_to_the_default() {
    assert_eq!(base_timeout_from_config(&Some("soon".to_string())), 5000);
    assert_eq!(base_timeout_from_config(&Some(String::new())), 5000);
}

#[test]
fn creation_gets_a_larger_budget_than_listing() {
    let base: u64 = 1000;
    assert_eq!(op_timeout(OperationId::CreatePool, base), 4000);
    assert_eq!(op_timeout(OperationId::CreateReplica, base), 4000);
    assert_eq!(op_timeout(OperationId::DestroyPool, base), 2000);
    assert_eq!(op_timeout(OperationId::ShareReplica, base), 2000);
    assert_eq!(op_timeout(OperationId::UnshareReplica, base), 2000);
    assert_eq!(op_timeout(OperationId::GetPools, base), 1000);
    assert_eq!(op_timeout(OperationId::GetReplicas, base), 1000);
}

#[test]
fn scaling_saturates_instead_of_overflowing() {
    assert_eq!(op_timeout(OperationId::CreatePool, u64::MAX / 2), u64::MAX);
    assert_eq!(op_timeout(OperationId::GetPools, u64::MAX), u64::MAX);
}

#[test]
fn caller_scoped_timeout_wins_over_the_computed_budget() {
    let ctx = Some(Context { timeout_ms: Some(123) });
    assert_eq!(request_timeout(&ctx, OperationId::CreatePool, 1000), 123);
    let ctx = Some(Context { timeout_ms: None });
    assert_eq!(request_timeout(&ctx, OperationId::CreatePool, 1000), 4000);
    assert_eq!(request_timeout(&None, OperationId::GetPools, 1000), 1000);
}

#[test]
fn replica_connect_budget_is_fixed() {
    assert_eq!(stor_core::timeout::REPLICA_CONNECT_TIMEOUT_MS, 500);
}
