use std::sync::Arc;

use load_reth::rpc::backpressure::{
    enter_from, parse_env_limit, parse_env_mb_as_bytes, release_from, BatchEntry, BatchReply,
    CallDecision, EnvValue, GuardedMethod, LoadRpcBackpressureConfig, LoadRpcBackpressureEnv,
    LoadRpcBackpressureLayer, LoadRpcBackpressureState, MethodGate,
};

fn one_each() -> LoadRpcBackpressureConfig {
    LoadRpcBackpressureConfig {
        send_raw_transaction_limit: 1,
        get_transaction_count_limit: 1,
        send_raw_transaction_sync_limit: 1,
        batch_response_limit_bytes: 1024 * 1024,
    }
}

fn unset() -> LoadRpcBackpressureEnv {
    LoadRpcBackpressureEnv {
        send_raw_transaction_limit: EnvValue::NotPresent,
        get_transaction_count_limit: EnvValue::NotPresent,
        send_raw_transaction_sync_limit: EnvValue::NotPresent,
        batch_response_limit_mb: EnvValue::NotPresent,
    }
}

fn present(text: &str) -> EnvValue {
    EnvValue::Present(text.to_string())
}

#[test]
fn classifies_required_methods() {
    let layer = LoadRpcBackpressureLayer::new(LoadRpcBackpressureConfig::default());
    let state = layer.state();

    assert_eq!(
        state.classify_method("eth_sendRawTransaction"),
        Some(GuardedMethod::SendRawTransaction)
    );
    assert_eq!(
        state.classify_method("eth_getTransactionCount"),
        Some(GuardedMethod::GetTransactionCount)
    );
    assert_eq!(
        state.classify_method("eth_sendRawTransactionSync"),
        Some(GuardedMethod::SendRawTransactionSync)
    );
    assert_eq!(state.classify_method("debug_traceTransaction"), None);
}

#[test]
fn disabled_limit_skips_method_guard() {
    let cfg = LoadRpcBackpressureConfig {
        send_raw_transaction_limit: 1,
        get_transaction_count_limit: 0,
        send_raw_transaction_sync_limit: 1,
        batch_response_limit_bytes: 1024 * 1024,
    };
    let state = LoadRpcBackpressureState::new(cfg);

    assert_eq!(state.classify_method("eth_getTransactionCount"), None);
    assert_eq!(
        state.classify_method("eth_sendRawTransaction"),
        Some(GuardedMethod::SendRawTransaction)
    );
}

#[test]
fn rejects_immediately_at_capacity() {
    let cfg = one_each();
    let state = std::sync::Arc::new(LoadRpcBackpressureState::new(cfg));

    let first = state.try_acquire(GuardedMethod::SendRawTransaction)
        .expect("first request should be admitted");
    let second = state.try_acquire(GuardedMethod::SendRawTransaction);
    assert!(second.is_none(), "second request must fail fast at limit");

    drop(first);
    let third = state.try_acquire(GuardedMethod::SendRawTransaction);
    assert!(third.is_some(), "slot should reopen immediately after release");
}

#[test]
fn methods_do_not_block_each_other() {
    let state = Arc::new(LoadRpcBackpressureState::new(one_each()));
    let send = state.try_acquire(GuardedMethod::SendRawTransaction);
    let count = state.try_acquire(GuardedMethod::GetTransactionCount);
    let sync = state.try_acquire(GuardedMethod::SendRawTransactionSync);
    assert!(send.is_some() && count.is_some() && sync.is_some());
    assert_eq!(send.as_ref().unwrap().method(), GuardedMethod::SendRawTransaction);
    assert_eq!(send.as_ref().unwrap().level(), 1);
    assert_eq!(state.gate(GuardedMethod::SendRawTransaction).inflight(), 1);
    assert_eq!(state.gate(GuardedMethod::GetTransactionCount).inflight(), 1);
    drop(count);
    assert_eq!(state.gate(GuardedMethod::SendRawTransaction).inflight(), 1);
    assert_eq!(state.gate(GuardedMethod::GetTransactionCount).inflight(), 0);
    drop(send);
    drop(sync);
    assert_eq!(state.gate(GuardedMethod::SendRawTransaction).inflight(), 0);
    assert_eq!(state.gate(GuardedMethod::SendRawTransactionSync).inflight(), 0);
}

#[test]
fn accounting_is_exact_up_to_the_limit() {
    let gate = MethodGate::new(3);
    assert_eq!(gate.limit(), 3);
    assert_eq!(gate.try_enter(), Some(1));
    assert_eq!(gate.try_enter(), Some(2));
    assert_eq!(gate.try_enter(), Some(3));
    assert_eq!(gate.try_enter(), None);
    assert_eq!(gate.inflight(), 3);
    assert_eq!(gate.leave(), 2);
    assert_eq!(gate.try_enter(), Some(3));
    assert_eq!(gate.leave(), 2);
    assert_eq!(gate.leave(), 1);
    assert_eq!(gate.leave(), 0);
    assert_eq!(gate.inflight(), 0);
    // a release too many leaves the counter at zero
    assert_eq!(gate.leave(), 0);
    assert_eq!(gate.inflight(), 0);
    assert_eq!(gate.try_enter(), Some(1));

    assert_eq!(enter_from(0, 1), Some(1));
    assert_eq!(enter_from(1, 1), None);
    assert_eq!(enter_from(5, 1), None);
    assert_eq!(enter_from(0, 0), None);
    assert_eq!(release_from(1), 0);
    assert_eq!(release_from(0), 0);
    assert_eq!(release_from(usize::MAX), usize::MAX - 1);
}

#[test]
fn permits_release_on_every_path() {
    let state = Arc::new(LoadRpcBackpressureState::new(LoadRpcBackpressureConfig {
        send_raw_transaction_limit: 4,
        get_transaction_count_limit: 1,
        send_raw_transaction_sync_limit: 1,
        batch_response_limit_bytes: 1,
    }));
    let guarded = |fail: bool| -> Result<usize, usize> {
        let permit =
            state.try_acquire(GuardedMethod::SendRawTransaction)
                .ok_or(0usize)?;
        if fail {
            return Err(permit.level());
        }
        Ok(permit.level())
    };
    for round in 0..1_000 {
        assert_eq!(guarded(round % 3 == 0), if round % 3 == 0 { Err(1) } else { Ok(1) });
    }
    assert_eq!(state.gate(GuardedMethod::SendRawTransaction).inflight(), 0);
    let mut held = Vec::new();
    for level in 1..=4 {
        let permit =
            state.try_acquire(GuardedMethod::SendRawTransaction)
                .unwrap();
        assert_eq!(permit.level(), level);
        held.push(permit);
    }
    assert!(
        state.try_acquire(GuardedMethod::SendRawTransaction).is_none()
    );
    held.clear();
    assert_eq!(state.gate(GuardedMethod::SendRawTransaction).inflight(), 0);
    assert_eq!(state.release(GuardedMethod::SendRawTransaction), 0);
}

#[test]
fn overload_names_method_and_limit() {
    let layer = LoadRpcBackpressureLayer::new(one_each());
    let service = layer.layer(());
    let first = service.call("eth_sendRawTransaction");
    assert!(matches!(first, CallDecision::Admitted(_)));
    match service.call("eth_sendRawTransaction") {
        CallDecision::Overloaded(error) => {
            assert_eq!(error.code, -32005);
            assert_eq!(error.message, "load-reth RPC overload: method concurrency limit reached");
            assert_eq!(error.data.method, "eth_sendRawTransaction");
            assert_eq!(error.data.limit, 1);
        }
        _ => panic!("the second call must be refused"),
    }
    // services of one layer share its counters
    assert!(matches!(layer.layer(()).call("eth_sendRawTransaction"), CallDecision::Overloaded(_)));
    assert!(matches!(service.call("eth_getTransactionCount"), CallDecision::Admitted(_)));
    assert!(matches!(service.call("eth_chainId"), CallDecision::Forward));
    drop(first);
    assert!(matches!(service.call("eth_sendRawTransaction"), CallDecision::Admitted(_)));
    assert_eq!(service.batch_response_limit(), 1024 * 1024);
    assert_eq!(*service.inner(), ());
}

#[test]
fn batches_without_guarded_calls_pass_whole() {
    let mut config = one_each();
    config.get_transaction_count_limit = 0;
    let service = LoadRpcBackpressureLayer::new(config).layer(());
    let call = |name: &str| BatchEntry::Call(name.to_string());
    assert!(!service.has_guarded_call(&Vec::new()));
    assert!(!service
        .has_guarded_call(&vec![call("eth_chainId"), BatchEntry::Notification, BatchEntry::Invalid]));
    assert!(!service.has_guarded_call(&vec![call("eth_getTransactionCount")]));
    assert!(service.has_guarded_call(&vec![
        call("eth_chainId"),
        BatchEntry::Invalid,
        call("eth_sendRawTransactionSync")
    ]));
    assert_eq!(service.batch_reply(true, true), BatchReply::Notification);
    assert_eq!(service.batch_reply(true, false), BatchReply::Batch);
    assert_eq!(service.batch_reply(false, true), BatchReply::Batch);
    assert_eq!(service.batch_reply(false, false), BatchReply::Batch);
}

#[test]
fn method_names_round_trip() {
    for method in [
        GuardedMethod::SendRawTransaction,
        GuardedMethod::GetTransactionCount,
        GuardedMethod::SendRawTransactionSync,
    ] {
        assert_eq!(GuardedMethod::from_rpc_method(method.rpc_method_name()), Some(method));
    }
    assert_eq!(GuardedMethod::from_rpc_method("eth_sendRawTransactio"), None);
    assert_eq!(GuardedMethod::from_rpc_method("eth_sendRawTransactionSyncs"), None);
    assert_eq!(GuardedMethod::from_rpc_method(""), None);
}

#[test]
fn limits_come_from_the_environment() {
    let defaults = LoadRpcBackpressureConfig::default();
    assert_eq!(defaults.send_raw_transaction_limit, 1024);
    assert_eq!(defaults.get_transaction_count_limit, 2048);
    assert_eq!(defaults.send_raw_transaction_sync_limit, 256);
    assert_eq!(defaults.batch_response_limit_bytes, 200 * 1024 * 1024);
    assert_eq!(LoadRpcBackpressureConfig::from_env(&unset()), defaults);

    let mut env = unset();
    env.send_raw_transaction_limit = present("7");
    env.get_transaction_count_limit = present("0");
    env.send_raw_transaction_sync_limit = present("many");
    env.batch_response_limit_mb = present("3");
    let config = LoadRpcBackpressureConfig::from_env(&env);
    assert_eq!(
        config,
        LoadRpcBackpressureConfig {
            send_raw_transaction_limit: 7,
            get_transaction_count_limit: 0,
            send_raw_transaction_sync_limit: 256,
            batch_response_limit_bytes: 3 * 1024 * 1024,
        }
    );
    assert_eq!(config.limit_for(GuardedMethod::SendRawTransaction), 7);
    assert_eq!(config.limit_for(GuardedMethod::GetTransactionCount), 0);
    assert_eq!(config.limit_for(GuardedMethod::SendRawTransactionSync), 256);
    let layer = LoadRpcBackpressureLayer::from_env(&env);
    assert_eq!(layer.state().config(), config);
}

#[test]
fn numerals_are_read_as_the_standard_library_reads_them() {
    assert_eq!(parse_env_limit(&present("42"), 9), 42);
    assert_eq!(parse_env_limit(&present("+42"), 9), 42);
    assert_eq!(parse_env_limit(&present("007"), 9), 7);
    assert_eq!(parse_env_limit(&present("0"), 9), 0);
    for text in ["", "+", "-1", " 42", "42 ", "4_2", "0x10", "1.5", "++1", "٣"] {
        assert_eq!(parse_env_limit(&present(text), 9), 9, "{text:?}");
    }
    assert_eq!(parse_env_limit(&present(&usize::MAX.to_string()), 9), usize::MAX);
    assert_eq!(parse_env_limit(&present("340282366920938463463374607431768211456"), 9), 9);
    assert_eq!(parse_env_limit(&EnvValue::NotPresent, 9), 9);
    assert_eq!(parse_env_limit(&EnvValue::NotUnicode, 9), 9);

    assert_eq!(parse_env_mb_as_bytes(&present("1"), 200), 1_048_576);
    assert_eq!(parse_env_mb_as_bytes(&EnvValue::NotPresent, 200), 209_715_200);
    assert_eq!(parse_env_mb_as_bytes(&present(&usize::MAX.to_string()), 200), usize::MAX);
}
