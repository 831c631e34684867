use nexus_call_hub::auth_state::AuthState;
use nexus_call_hub::auth_state::User;
use nexus_call_hub::auth_state::UserPublic;
use nexus_call_hub::events::plan_broadcast;
use nexus_call_hub::events::AppEvent;
use nexus_call_hub::queue_state::AgentStatus;
use nexus_call_hub::queue_state::QueueState;
use nexus_call_hub::queue_state::QueueStatus;
use nexus_call_hub::window_manager::WindowManager;
use nexus_call_hub::window_type::WindowType;

fn sample_user() -> User {
    User {
        id: "u-1".to_string(),
        name: "Dana".to_string(),
        email: Some("dana@example.com".to_string()),
        department: "support".to_string(),
        role: "agent".to_string(),
        token: "tok-demo-1".to_string(),
        permissions: Some(vec!["calls.answer".to_string(), "stats.read".to_string()]),
    }
}

fn agent(id: &str, status: &str) -> AgentStatus {
    AgentStatus {
        id: id.to_string(),
        name: format!("agent {}", id),
        status: status.to_string(),
        current_call: None,
        call_duration: None,
    }
}

#[test]
fn set_user_resets_attempts_and_authenticates() {
    let mut auth = AuthState::default();
    auth.increment_login_attempts();
    auth.increment_login_attempts();
    assert_eq!(auth.get_login_attempts(), 2);
    let ev = auth.set_user_state(sample_user());
    assert_eq!(auth.get_login_attempts(), 0);
    assert!(auth.is_authenticated());
    let stored = auth.get_user().expect("a session was just set");
    assert_eq!(stored, sample_user());
    match ev {
        // The broadcast carries the token-free projection of the record.
        AppEvent::UserLoggedIn(public) => assert_eq!(public, UserPublic::of(&sample_user())),
        other => panic!("wrong event: {:?}", other.name()),
    }
}

#[test]
fn logout_clears_session_whatever_the_prior_state() {
    let mut fresh = AuthState::default();
    let ev = fresh.logout_user();
    assert!(fresh.get_user().is_none());
    assert!(!fresh.is_authenticated());
    assert!(matches!(ev, AppEvent::UserLoggedOut));

    let mut logged_in = AuthState::default();
    logged_in.set_user_state(sample_user());
    assert!(logged_in.is_authenticated());
    logged_in.logout_user();
    assert!(logged_in.get_user().is_none());
    assert!(!logged_in.is_authenticated());
    assert!(!logged_in.validate_user_session());
    assert!(!logged_in.is_logged_in());
}

#[test]
fn permission_checks_follow_the_session() {
    let mut auth = AuthState::default();
    assert!(!auth.check_permission("calls.answer".to_string()));

    auth.set_user_state(sample_user());
    assert!(auth.check_permission("calls.answer".to_string()));
    assert!(auth.check_permission("stats.read".to_string()));
    assert!(!auth.check_permission("admin.manage".to_string()));

    let mut no_permissions = AuthState::default();
    let mut user = sample_user();
    user.permissions = None;
    no_permissions.set_user_state(user);
    assert!(!no_permissions.check_permission("calls.answer".to_string()));
}

#[test]
fn attempt_counter_is_independent_of_the_session() {
    let mut auth = AuthState::default();
    assert_eq!(auth.get_login_attempts(), 0);
    assert_eq!(auth.increment_login_attempts(), 1);
    assert_eq!(auth.increment_login_attempts(), 2);
    assert!(!auth.is_authenticated());
    auth.reset_login_attempts();
    assert_eq!(auth.get_login_attempts(), 0);
}

#[test]
fn aliases_mirror_the_core_operations() {
    let mut auth = AuthState::default();
    auth.login_user(sample_user());
    assert_eq!(auth.get_user_info(), auth.get_user_state());
    assert_eq!(auth.get_user_role(), Some("agent".to_string()));
    assert_eq!(auth.get_user_department(), Some("support".to_string()));
    auth.clear_user_info();
    assert!(auth.get_user_state().is_none());
    assert_eq!(auth.get_user_role(), None);
    assert_eq!(auth.get_user_department(), None);
}

#[test]
fn debug_snapshot_reports_the_whole_cell() {
    let mut auth = AuthState::default();
    let before = auth.get_auth_state_debug();
    assert!(before.user.is_none());
    assert!(!before.has_valid_session);
    assert!(before.last_login.is_none());

    auth.set_user_state(sample_user());
    let after = auth.get_auth_state_debug();
    assert_eq!(after.user, Some(UserPublic::of(&sample_user())));
    assert!(after.is_authenticated);
    assert_eq!(after.login_attempts, 0);
    assert!(after.has_valid_session);
    let stamp = after.last_login.expect("login must be stamped");
    assert!(!stamp.is_empty());
}

#[test]
fn agent_upsert_keeps_one_record_per_id() {
    let mut queue = QueueState::default();
    queue.update_agent_status(agent("a1", "available"));
    let ev = queue.update_agent_status(agent("a1", "busy"));
    let agents = queue.get_all_agents();
    assert_eq!(agents.len(), 1);
    assert_eq!(agents[0].id, "a1");
    assert_eq!(agents[0].status, "busy");
    match ev {
        AppEvent::AgentStatusUpdated(record) => assert_eq!(record.status, "busy"),
        other => panic!("wrong event: {:?}", other.name()),
    }
}

#[test]
fn agent_upsert_appends_new_ids_in_order() {
    let mut queue = QueueState::default();
    queue.update_agent_status(agent("a1", "available"));
    queue.update_agent_status(agent("a2", "busy"));
    queue.update_agent_status(agent("a3", "break"));
    let agents = queue.get_all_agents();
    assert_eq!(agents.len(), 3);
    assert_eq!(agents[0].id, "a1");
    assert_eq!(agents[1].id, "a2");
    assert_eq!(agents[2].id, "a3");
}

#[test]
fn filtered_reads_select_by_status() {
    let mut queue = QueueState::default();
    queue.update_agent_status(agent("a1", "available"));
    queue.update_agent_status(agent("a2", "busy"));
    queue.update_agent_status(agent("a3", "available"));
    queue.update_agent_status(agent("a4", "offline"));
    let available = queue.get_available_agents();
    assert_eq!(available.len(), 2);
    assert_eq!(available[0].id, "a1");
    assert_eq!(available[1].id, "a3");
    let busy = queue.get_busy_agents();
    assert_eq!(busy.len(), 1);
    assert_eq!(busy[0].id, "a2");
}

#[test]
fn queue_status_is_replaced_as_a_whole() {
    let mut queue = QueueState::default();
    assert_eq!(queue.get_queue_status(), QueueStatus::default());
    let snapshot = QueueStatus {
        inbound_waiting: 4,
        inbound_agents_available: 2,
        inbound_agents_total: 7,
        outbound_active_campaigns: 1,
        outbound_calls_in_progress: 3,
        outbound_calls_today: 55,
    };
    let ev = queue.update_queue_status(snapshot);
    assert_eq!(queue.get_queue_status(), snapshot);
    assert!(matches!(ev, AppEvent::QueueStatusUpdated(s) if s == snapshot));
}

#[test]
fn statistics_count_agents_per_status() {
    let mut queue = QueueState::default();
    queue.update_agent_status(agent("a1", "available"));
    queue.update_agent_status(agent("a2", "available"));
    queue.update_agent_status(agent("a3", "busy"));
    queue.update_agent_status(agent("a4", "break"));
    queue.update_agent_status(agent("a5", "offline"));
    queue.update_agent_status(agent("a6", "lunch"));
    let stats = queue.get_queue_statistics();
    assert_eq!(stats.total_agents, 6);
    assert_eq!(stats.available, 2);
    assert_eq!(stats.busy, 1);
    assert_eq!(stats.on_break, 1);
    assert_eq!(stats.offline, 1);
    assert!(stats.last_updated.is_none());

    queue.update_queue_status(QueueStatus::default());
    let stamped = queue.get_queue_statistics();
    let stamp = stamped.last_updated.expect("queue mutation must stamp the time");
    assert!(!stamp.is_empty());
}

#[test]
fn events_carry_their_routing_names() {
    assert_eq!(AppEvent::UserLoggedIn(UserPublic::of(&sample_user())).name(), "user-logged-in");
    assert_eq!(AppEvent::UserLoggedOut.name(), "user-logged-out");
    assert_eq!(AppEvent::QueueStatusUpdated(QueueStatus::default()).name(), "queue-status-updated");
    assert_eq!(AppEvent::AgentStatusUpdated(agent("a1", "busy")).name(), "agent-status-updated");
}

#[test]
fn broadcast_reaches_every_open_window() {
    let mut mgr = WindowManager::new();
    let none = plan_broadcast(&AppEvent::UserLoggedOut, &mgr);
    assert!(none.is_empty());

    mgr.open_window(WindowType::Launcher);
    mgr.open_window(WindowType::Statistics);
    let deliveries = plan_broadcast(&AppEvent::UserLoggedOut, &mgr);
    assert_eq!(deliveries.len(), 2);
    assert_eq!(deliveries[0].target, "launcher");
    assert_eq!(deliveries[1].target, "statistics");
    assert!(deliveries.iter().all(|d| d.event == "user-logged-out"));
}
