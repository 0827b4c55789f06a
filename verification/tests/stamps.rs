use chatgpt_codex_bridge::relay::RelayModuleInput;
use chatgpt_codex_bridge::stamps::{
    create_relay_codex_cycle_record, create_relay_module_record, elapsed_nanos, runtime_elapsed,
};

#[test]
fn running_time_is_counted_from_the_stored_start() {
    assert_eq!(elapsed_nanos(5, 0), 5_000_000_000);
    assert_eq!(elapsed_nanos(59, 999_999_999), 59_999_999_999);
    assert_eq!(elapsed_nanos(-1, -500_000_000), -1_500_000_000);
    assert_eq!(elapsed_nanos(i64::MIN, -999_999_999), i64::MIN as i128 * 1_000_000_000 - 999_999_999);
    assert_eq!(runtime_elapsed(None), Ok(None));
    let error = runtime_elapsed(Some("yesterday")).unwrap_err();
    assert!(error.starts_with("模块开始时间无法读取："), "{error}");
    assert!(error.len() > "模块开始时间无法读取：".len());
    let since_2000 = runtime_elapsed(Some("2000-01-01T00:00:00Z")).expect("readable").expect("started");
    assert!(since_2000 > 0);
    let same_instant = runtime_elapsed(Some("2000-01-01T08:00:00+08:00")).expect("readable").expect("started");
    assert!(same_instant >= since_2000);
    assert!(same_instant - since_2000 < 60 * 1_000_000_000i128);
}

#[test]
fn new_records_get_fresh_ids() {
    let input = RelayModuleInput {
        name: " 模块 ".into(),
        working_directory: "/work".into(),
        max_cycles: 2,
        max_runtime_minutes: 10,
        retry_template: "重试".into(),
    };
    let first = create_relay_module_record(&input).expect("valid");
    let second = create_relay_module_record(&input).expect("valid");
    assert_eq!(first.id.len(), 36);
    assert_ne!(first.id, second.id);
    assert_eq!(first.name, "模块");
    assert_eq!(first.phase, "READY");
    assert_eq!(first.created_at, first.updated_at);
    let mut bad = input.clone();
    bad.max_cycles = -1;
    assert_eq!(create_relay_module_record(&bad).err(), Some("最大循环次数和最长运行时间必须为正数。".to_string()));

    let cycle = create_relay_codex_cycle_record(&first.id, 1, "做事");
    assert_eq!(cycle.id.len(), 36);
    assert_eq!(cycle.module_id, first.id);
    assert_eq!(cycle.status, "WAITING_TO_SEND_CODEX");
}
