use chatgpt_codex_bridge::relay::new_relay_codex_cycle;
use chatgpt_codex_bridge::relay_channel::{
    chatgpt_channel_snapshot, check_relay_codex_cycle_failure, codex_channel_snapshot,
    relay_codex_cycle_block_reason, relay_codex_cycle_delivery_sync, ActiveChatGptMessage,
    ActiveCodexCycle, RelayChatGptChannelSnapshot,
};

fn message(module: &str) -> ActiveChatGptMessage {
    ActiveChatGptMessage {
        module_id: module.into(),
        module_name: "模块 B".into(),
        message_id: "message-9".into(),
        kind: "AUTOMATION".into(),
        delivery_state: "SENT".into(),
    }
}

fn idle() -> RelayChatGptChannelSnapshot {
    chatgpt_channel_snapshot(0, None)
}

#[test]
fn the_chatgpt_channel_is_idle_in_flight_or_blocked() {
    let s = idle();
    assert_eq!(s.status, "IDLE");
    assert!(s.active_message_id.is_none());
    assert_eq!(s.recovery_blocker_count, 0);

    let s = chatgpt_channel_snapshot(0, Some(message("b")));
    assert_eq!(s.status, "IN_FLIGHT");
    assert_eq!(s.active_module_id.as_deref(), Some("b"));
    assert_eq!(s.active_phase.as_deref(), Some("SENT"));

    let s = chatgpt_channel_snapshot(2, Some(message("b")));
    assert_eq!(s.status, "RECOVERY_BLOCKED");
    assert_eq!(s.recovery_blocker_count, 2);
}

#[test]
fn the_codex_channel_shows_the_running_cycle() {
    let s = codex_channel_snapshot(None);
    assert_eq!(s.status, "IDLE");
    let s = codex_channel_snapshot(Some(ActiveCodexCycle {
        module_id: "a".into(),
        module_name: "模块 A".into(),
        cycle_number: 3,
        codex_thread_id: Some("thread-1".into()),
        codex_turn_id: None,
        cycle_status: "CODEX_RUNNING".into(),
    }));
    assert_eq!(s.status, "RUNNING");
    assert_eq!(s.cycle_number, Some(3));
    assert_eq!(s.codex_thread_id.as_deref(), Some("thread-1"));
    assert_eq!(s.cycle_status.as_deref(), Some("CODEX_RUNNING"));
}

#[test]
fn a_waiting_cycle_explains_what_it_waits_for() {
    let mut c = new_relay_codex_cycle("c".into(), "a", 1, "p", "now".into());
    c.status = "WAITING_FOR_CHATGPT".into();
    assert_eq!(
        relay_codex_cycle_block_reason(&c, Some("READY"), None, &chatgpt_channel_snapshot(0, Some(message("b")))),
        Some("ChatGPT 通道当前被模块「模块 B」占用（消息 message-9）。".into())
    );
    assert_eq!(
        relay_codex_cycle_block_reason(&c, Some("READY"), None, &chatgpt_channel_snapshot(3, Some(message("b")))),
        Some("存在待人工处理的不确定送达消息（3 条）。".into())
    );
    assert_eq!(
        relay_codex_cycle_block_reason(&c, Some("READY"), Some("UNKNOWN"), &idle()),
        Some("回传结果不确定，等待人工恢复。".into())
    );
    assert_eq!(
        relay_codex_cycle_block_reason(&c, Some("READY"), None, &idle()),
        Some("等待全局 FIFO 调度。".into())
    );
    assert_eq!(
        relay_codex_cycle_block_reason(&c, Some("READY"), None, &chatgpt_channel_snapshot(0, Some(message("a")))),
        Some("等待全局 FIFO 调度。".into())
    );
    c.status = "SENDING_TO_CHATGPT".into();
    assert_eq!(
        relay_codex_cycle_block_reason(&c, Some("READY"), Some("SENT"), &idle()),
        Some("等待 ChatGPT 完成回复。".into())
    );
}

#[test]
fn finished_and_failed_cycles_have_their_own_reasons() {
    let mut c = new_relay_codex_cycle("c".into(), "a", 1, "p", "now".into());
    c.status = "CODEX_COMPLETED".into();
    assert_eq!(
        relay_codex_cycle_block_reason(&c, Some("STOPPED"), None, &idle()),
        Some("模块已由用户终止，结果未回传 ChatGPT".into())
    );
    assert_eq!(relay_codex_cycle_block_reason(&c, Some("READY"), None, &idle()), None);
    c.status = "FAILED".into();
    c.error_text = Some("Codex 对话已经退出。".into());
    assert_eq!(
        relay_codex_cycle_block_reason(&c, Some("READY"), None, &idle()),
        Some("Codex 对话已经退出。".into())
    );
    c.status = "DELIVERED_TO_CHATGPT".into();
    assert_eq!(relay_codex_cycle_block_reason(&c, Some("READY"), None, &idle()), None);
}

#[test]
fn a_cycle_follows_the_delivery_of_its_result() {
    let sync = relay_codex_cycle_delivery_sync("WAITING_FOR_CHATGPT", false, "SENT", None).expect("sent");
    assert_eq!(sync.target_status, "SENDING_TO_CHATGPT");
    assert_eq!(sync.event_type, Some("CODEX_RESULT_SEND_STARTED"));
    assert!(sync.error_text.is_none());

    let sync = relay_codex_cycle_delivery_sync("SENDING_TO_CHATGPT", false, "DELIVERED", None).expect("delivered");
    assert_eq!(sync.target_status, "DELIVERED_TO_CHATGPT");
    assert_eq!(sync.event_type, Some("CODEX_RESULT_DELIVERED_TO_CHATGPT"));
    assert!(sync.stamp_delivered_at);

    let again = relay_codex_cycle_delivery_sync("DELIVERED_TO_CHATGPT", true, "DELIVERED", None).expect("again");
    assert_eq!(again.event_type, None);
    assert!(!again.stamp_delivered_at);

    let unknown = relay_codex_cycle_delivery_sync("SENDING_TO_CHATGPT", false, "UNKNOWN", None).expect("unknown");
    assert_eq!(unknown.target_status, "WAITING_FOR_CHATGPT");
    assert_eq!(unknown.error_text.as_deref(), Some("ChatGPT 回传送达结果不确定，等待人工恢复。"));

    let failed = relay_codex_cycle_delivery_sync("WAITING_FOR_CHATGPT", false, "FAILED", Some("用户放弃")).expect("failed");
    assert_eq!(failed.target_status, "FAILED");
    assert_eq!(failed.error_text.as_deref(), Some("用户放弃"));

    assert_eq!(
        relay_codex_cycle_delivery_sync("WAITING_FOR_CHATGPT", false, "LOST", None).err(),
        Some("不支持同步的 ChatGPT 送达状态：`LOST`。".to_string())
    );
}

#[test]
fn only_a_cycle_without_result_can_fail() {
    let mut c = new_relay_codex_cycle("c".into(), "a", 1, "p", "now".into());
    assert_eq!(check_relay_codex_cycle_failure(Some(&c)), Ok(()));
    c.result_text = Some("done".into());
    assert_eq!(
        check_relay_codex_cycle_failure(Some(&c)),
        Err("Codex 通讯循环已拥有结果，不能标记为失败。".into())
    );
    assert!(check_relay_codex_cycle_failure(None).is_err());
}
