use runbot_desktop::outbound::{
    get_forward_message, on_ack, on_message_fetched, on_remote_id_stored, route_chain,
    send_runbot_message, AfterStore, ChainRoute, ChainSend, ContentUpdate, RemoteIdUpdate,
    SendError, SendPlan,
};
use runbot_desktop::session::{
    after_login_failure, backoff_delay_ms, connect_runbot, connection_url, disconnect_runbot,
    get_runbot_self_id, get_runbot_status, report, ConnectionStatus, LoginStep, Phase, RunbotState,
};

fn status(tag: &str, message: &str) -> ConnectionStatus {
    ConnectionStatus { status: tag.to_string(), message: Some(message.to_string()) }
}

fn doc(text: &str) -> serde_json::Value {
    serde_json::from_str(text).unwrap()
}

#[test]
fn backoff_doubles_from_half_a_second() {
    assert_eq!(backoff_delay_ms(1), 500);
    assert_eq!(backoff_delay_ms(2), 1000);
    assert_eq!(backoff_delay_ms(3), 2000);
    assert_eq!(backoff_delay_ms(4), 4000);
    assert_eq!(backoff_delay_ms(5), 8000);
    assert_eq!(after_login_failure(1), LoginStep::RetryAfter(500));
    assert_eq!(after_login_failure(2), LoginStep::RetryAfter(1000));
    assert_eq!(after_login_failure(3), LoginStep::RetryAfter(2000));
    assert_eq!(after_login_failure(4), LoginStep::RetryAfter(4000));
    assert_eq!(after_login_failure(5), LoginStep::GiveUpAfter(8000));
    assert_eq!(after_login_failure(6), LoginStep::GiveUp);
}

#[test]
fn credential_is_appended_to_the_endpoint() {
    assert_eq!(connection_url("ws://h:1", &None), "ws://h:1");
    assert_eq!(
        connection_url("ws://h:1", &Some("SECRET-REDACTED".to_string())),
        "ws://h:1?access_token=SECRET-REDACTED"
    );
    assert_eq!(report("a", "b"), status("a", "b"));
}

#[test]
fn connect_walks_through_connecting_to_connected() {
    let mut state = RunbotState::new();
    assert_eq!(get_runbot_status(&state), status("disconnected", "未连接"));
    let plan = connect_runbot(&mut state, "ws://h", &Some("t".to_string()));
    assert_eq!(plan.retire, None);
    assert_eq!(plan.url, "ws://h?access_token=t");
    assert_eq!(state, RunbotState::new());
    let (session, connecting) = state.install_session("ws://h", &Some("t".to_string())).unwrap();
    assert_eq!(session, 0);
    assert_eq!(connecting, status("connecting", "正在连接..."));
    assert_eq!(get_runbot_status(&state), connecting);
    assert!(state.connected);
    assert_eq!(state.ws_url, Some("ws://h".to_string()));
    assert_eq!(state.access_token, Some("t".to_string()));
    assert!(state.is_active(session));
    assert!(state.install_session("ws://other", &None).is_none());
    assert_eq!(state.mark_connected(session), status("connected", "已连接"));
    assert_eq!(state.phase, Phase::Connected);
    assert_eq!(get_runbot_status(&state), status("connected", "已连接"));
    assert_eq!(get_runbot_self_id(&state), None);
}

#[test]
fn reconnect_retires_the_live_session() {
    let mut state = RunbotState::new();
    let (first, _) = state.install_session("ws://h", &None).unwrap();
    state.latch_identity(first, 100);
    assert_eq!(connect_runbot(&mut state, "ws://h", &None).retire, Some(first));
    assert!(!state.connected);
    assert_eq!(state.self_id, None);
    let (second, _) = state.install_session("ws://h", &None).unwrap();
    assert_eq!(second, first + 1);
    assert!(!state.is_active(first));
    assert_eq!(state.latch_identity(first, 100), None);
    assert_eq!(state.identity_failed(first), None);
    state.run_loop_failed(first, "late");
    assert!(state.connected);
    assert_eq!(state.mark_connected(first), status("connected", "已连接"));
    assert_eq!(state.phase, Phase::Connecting);
}

#[test]
fn identity_is_first_writer_wins() {
    let mut state = RunbotState::new();
    let (session, _) = state.install_session("ws://h", &None).unwrap();
    assert_eq!(state.latch_identity(session, 0), None);
    assert_eq!(state.latch_identity(session, 100), Some(100));
    assert_eq!(state.latch_identity(session, 200), None);
    assert_eq!(get_runbot_self_id(&state), Some(100));
}

#[test]
fn failures_end_in_error() {
    let mut state = RunbotState::new();
    let (session, _) = state.install_session("ws://h", &None).unwrap();
    assert_eq!(state.run_loop_failed(session, "boom"), status("error", "连接错误: boom"));
    assert!(!state.connected);
    assert_eq!(state.session, None);
    assert_eq!(state.phase, Phase::Error);
    assert_eq!(get_runbot_status(&state), status("error", "连接错误: boom"));
    let (session, _) = state.install_session("ws://h", &None).unwrap();
    state.latch_identity(session, 5);
    assert_eq!(
        state.identity_failed(session),
        Some(status("error", "获取登录信息失败，已断开连接"))
    );
    assert_eq!(state.self_id, None);
    assert_eq!(get_runbot_status(&state), status("error", "获取登录信息失败，已断开连接"));
}

#[test]
fn disconnect_is_idempotent() {
    let mut state = RunbotState::new();
    let (session, _) = state.install_session("ws://h", &None).unwrap();
    state.latch_identity(session, 5);
    let (retired, report) = disconnect_runbot(&mut state);
    assert_eq!(retired, Some(session));
    assert_eq!(report, status("disconnected", "已断开连接"));
    let once = state.clone();
    let (retired, report) = disconnect_runbot(&mut state);
    assert_eq!(retired, None);
    assert_eq!(report, status("disconnected", "已断开连接"));
    assert_eq!(state, once);
    assert_eq!(state.self_id, None);
    assert_eq!(get_runbot_status(&state), status("disconnected", "未连接"));
}

#[test]
fn identity_needs_a_live_session() {
    let mut state = RunbotState::new();
    assert!(state.is_well_formed());
    state.self_id = Some(9);
    assert!(!state.is_well_formed());
    let mut state = RunbotState::new();
    let (session, _) = state.install_session("ws://h", &None).unwrap();
    state.latch_identity(session, 9);
    assert!(state.is_well_formed());
    disconnect_runbot(&mut state);
    assert!(state.is_well_formed());
    assert_eq!(state.self_id, None);
    let (session, _) = state.install_session("ws://h", &None).unwrap();
    assert_eq!(state.latch_identity(session, 10), Some(10));
}

#[test]
fn session_numbers_run_out() {
    let mut state = RunbotState::new();
    state.next_session = u64::MAX;
    assert!(state.install_session("ws://h", &None).is_none());
    assert_eq!(state.phase, Phase::Disconnected);
}

#[test]
fn sends_need_a_session() {
    let state = RunbotState::new();
    assert_eq!(send_runbot_message(&state, "get_status", &doc("{}")), Err(SendError::NotConnected));
    let mut broken = RunbotState::new();
    broken.connected = true;
    assert_eq!(send_runbot_message(&broken, "get_status", &doc("{}")), Err(SendError::NoSession));
    assert_eq!(get_forward_message(&state), Err(SendError::NotConnected));
    assert_eq!(get_forward_message(&broken), Err(SendError::NotConnected));
    let mut live = RunbotState::new();
    let (session, _) = live.install_session("ws://h", &None).unwrap();
    assert_eq!(get_forward_message(&live), Ok(session));
    assert_eq!(SendError::NotConnected.message(), "未连接到 Runbot 服务器");
    assert_eq!(SendError::NoSession.message(), "BotContext 不存在");
}

#[test]
fn chat_sends_with_a_message_array_go_typed() {
    let mut state = RunbotState::new();
    state.install_session("ws://h", &None).unwrap();
    let params = doc(
        "{\"user_id\":42,\"group_id\":9,\"message\":[{\"type\":\"text\"}],\"local_message_id\":\"a1\",\"need_reload\":true}",
    );
    assert_eq!(
        send_runbot_message(&state, "send_private_msg", &params),
        Ok(SendPlan::Chain(ChainSend {
            private: true,
            target: Some(42),
            local_message_id: Some("a1".to_string()),
            need_reload: true,
        }))
    );
    assert_eq!(
        send_runbot_message(&state, "send_group_msg", &doc("{\"user_id\":42,\"message\":[]}")),
        Ok(SendPlan::Chain(ChainSend {
            private: false,
            target: None,
            local_message_id: None,
            need_reload: false,
        }))
    );
    assert_eq!(
        send_runbot_message(&state, "send_private_msg", &doc("{\"user_id\":42,\"message\":\"text\"}")),
        Ok(SendPlan::Raw)
    );
    assert_eq!(send_runbot_message(&state, "send_private_msg", &doc("{\"user_id\":42}")), Ok(SendPlan::Raw));
    assert_eq!(send_runbot_message(&state, "send_like", &params), Ok(SendPlan::Raw));
}

#[test]
fn parsed_chain_goes_typed_or_raw() {
    let send = ChainSend {
        private: false,
        target: Some(9),
        local_message_id: None,
        need_reload: false,
    };
    assert_eq!(route_chain(&send, true), ChainRoute::Typed { private: false, target: 9 });
    assert_eq!(route_chain(&send, false), ChainRoute::Refuse);
    let aimless = ChainSend { target: None, ..send.clone() };
    assert_eq!(route_chain(&aimless, true), ChainRoute::Raw);
    assert_eq!(route_chain(&aimless, false), ChainRoute::Refuse);
}

#[test]
fn acknowledgement_is_reconciled_step_by_step() {
    let send = ChainSend {
        private: true,
        target: Some(42),
        local_message_id: Some("a1".to_string()),
        need_reload: true,
    };
    assert_eq!(
        on_ack(&send, Some(7)),
        Some(RemoteIdUpdate { local_message_id: "a1".to_string(), message_id: 7 })
    );
    assert_eq!(on_ack(&send, None), None);
    let untracked = ChainSend { local_message_id: None, ..send.clone() };
    assert_eq!(on_ack(&untracked, Some(7)), None);
    assert_eq!(on_remote_id_stored(&send, 7, false), AfterStore::Stop);
    assert_eq!(on_remote_id_stored(&send, 7, true), AfterStore::Reload(7));
    let plain = ChainSend { need_reload: false, ..send.clone() };
    assert_eq!(on_remote_id_stored(&plain, 7, true), AfterStore::Acknowledge);
    assert_eq!(
        on_message_fetched("a1", 7, Some("[CQ:image,file=x]")),
        Some(ContentUpdate {
            local_message_id: "a1".to_string(),
            message_id: 7,
            message: "[CQ:image,file=x]".to_string(),
            raw_message: "[CQ:image,file=x]".to_string(),
        })
    );
    assert_eq!(on_message_fetched("a1", 7, None), None);
}
