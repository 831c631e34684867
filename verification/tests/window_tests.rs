use nexus_call_hub::window_config::WindowConfigManager;
use nexus_call_hub::window_manager::OpenOutcome;
use nexus_call_hub::window_manager::WindowAction;
use nexus_call_hub::window_manager::WindowManager;
use nexus_call_hub::window_type::WindowType;

#[test]
fn open_twice_yields_one_window() {
    let mut mgr = WindowManager::new();
    let first = mgr.open_window(WindowType::Login);
    assert!(matches!(first, OpenOutcome::Created(_)));
    let second = mgr.open_window(WindowType::Login);
    match second {
        OpenOutcome::Focused(label) => assert_eq!(label, "login"),
        OpenOutcome::Created(_) => panic!("second open must not create a duplicate"),
    }
    assert_eq!(mgr.list_windows(), vec!["login".to_string()]);
}

#[test]
fn open_returns_catalog_config() {
    let mut mgr = WindowManager::new();
    match mgr.open_window(WindowType::Launcher) {
        OpenOutcome::Created(config) => {
            assert_eq!(config.label, "launcher");
            assert_eq!(config.url, "launcher.html");
            assert_eq!(config.width, 400);
            assert_eq!(config.height, 600);
            assert_eq!(config.min_width, Some(380));
            assert_eq!(config.min_height, Some(500));
            assert_eq!(config.max_width, Some(450));
            assert_eq!(config.max_height, Some(700));
            assert!(config.resizable);
            assert!(config.center);
            assert!(!config.always_on_top);
        }
        OpenOutcome::Focused(_) => panic!("nothing was open yet"),
    }
}

#[test]
fn switch_creates_before_closing() {
    let mut mgr = WindowManager::new();
    mgr.open_window(WindowType::Login);
    let actions = mgr.switch_window("login".to_string(), WindowType::Statistics);
    assert_eq!(actions.len(), 2);
    match &actions[0] {
        WindowAction::Create(config) => assert_eq!(config.label, "statistics"),
        other => panic!("the create step must come first, got {:?}", other),
    }
    assert_eq!(actions[1], WindowAction::Close("login".to_string()));
    assert_eq!(mgr.list_windows(), vec!["statistics".to_string()]);
}

#[test]
fn switch_to_same_type_skips_the_close() {
    let mut mgr = WindowManager::new();
    mgr.open_window(WindowType::Login);
    let actions = mgr.switch_window("login".to_string(), WindowType::Login);
    assert_eq!(actions.len(), 1);
    assert_eq!(actions[0], WindowAction::Focus("login".to_string()));
    assert_eq!(mgr.list_windows(), vec!["login".to_string()]);
}

#[test]
fn switch_from_absent_label_just_opens() {
    let mut mgr = WindowManager::new();
    let actions = mgr.switch_window("launcher".to_string(), WindowType::Settings);
    assert_eq!(actions.len(), 1);
    assert!(matches!(actions[0], WindowAction::Create(_)));
    assert_eq!(mgr.list_windows(), vec!["settings".to_string()]);
}

#[test]
fn replace_all_leaves_exactly_one_window() {
    let mut mgr = WindowManager::new();
    mgr.open_window(WindowType::Launcher);
    mgr.open_window(WindowType::Login);
    mgr.open_window(WindowType::Statistics);
    let actions = mgr.replace_all_windows(WindowType::Settings);
    assert_eq!(mgr.list_windows(), vec!["settings".to_string()]);
    assert_eq!(actions.len(), 4);
    match &actions[0] {
        WindowAction::Create(config) => assert_eq!(config.label, "settings"),
        other => panic!("the create step must come first, got {:?}", other),
    }
    assert_eq!(actions[1], WindowAction::Close("launcher".to_string()));
    assert_eq!(actions[2], WindowAction::Close("login".to_string()));
    assert_eq!(actions[3], WindowAction::Close("statistics".to_string()));
}

#[test]
fn replace_all_keeps_an_already_open_destination() {
    let mut mgr = WindowManager::new();
    mgr.open_window(WindowType::Settings);
    mgr.open_window(WindowType::Login);
    let actions = mgr.replace_all_windows(WindowType::Settings);
    assert_eq!(actions[0], WindowAction::Focus("settings".to_string()));
    assert_eq!(actions[1], WindowAction::Close("login".to_string()));
    assert_eq!(mgr.list_windows(), vec!["settings".to_string()]);
}

#[test]
fn close_of_absent_label_is_a_no_op() {
    let mut mgr = WindowManager::new();
    assert_eq!(mgr.close_window("login".to_string()), None);
    mgr.open_window(WindowType::Login);
    assert_eq!(
        mgr.close_window("login".to_string()),
        Some(WindowAction::Close("login".to_string()))
    );
    assert!(mgr.list_windows().is_empty());
    assert_eq!(mgr.close_window("login".to_string()), None);
}

#[test]
fn focus_of_absent_label_is_a_no_op() {
    let mut mgr = WindowManager::new();
    assert_eq!(mgr.focus_window("settings".to_string()), None);
    mgr.open_window(WindowType::Settings);
    assert_eq!(
        mgr.focus_window("settings".to_string()),
        Some(WindowAction::Focus("settings".to_string()))
    );
}

#[test]
fn window_exists_tracks_open_and_close() {
    let mut mgr = WindowManager::new();
    assert!(!mgr.window_exists("launcher"));
    mgr.open_window(WindowType::Launcher);
    assert!(mgr.window_exists("launcher"));
    mgr.close_window("launcher".to_string());
    assert!(!mgr.window_exists("launcher"));
}

#[test]
fn adjust_operations_are_no_ops_on_absent_labels() {
    let mut mgr = WindowManager::new();
    assert_eq!(mgr.hide_window("login".to_string()), None);
    assert_eq!(mgr.show_window("login".to_string()), None);
    assert_eq!(mgr.minimize_window("login".to_string()), None);
    assert_eq!(mgr.maximize_window("login".to_string()), None);
    assert_eq!(mgr.unmaximize_window("login".to_string()), None);
    assert_eq!(mgr.resize_window("login".to_string(), 500, 500), None);
    assert_eq!(mgr.move_window("login".to_string(), 10, 20), None);
    assert_eq!(mgr.set_always_on_top("login".to_string(), true), None);
    assert!(mgr.list_windows().is_empty());
}

#[test]
fn adjust_operations_forward_to_the_backend() {
    let mut mgr = WindowManager::new();
    mgr.open_window(WindowType::Statistics);
    let label = || "statistics".to_string();
    assert_eq!(mgr.hide_window(label()), Some(WindowAction::Hide(label())));
    assert_eq!(mgr.show_window(label()), Some(WindowAction::Show(label())));
    assert_eq!(mgr.minimize_window(label()), Some(WindowAction::Minimize(label())));
    assert_eq!(mgr.maximize_window(label()), Some(WindowAction::Maximize(label())));
    assert_eq!(mgr.unmaximize_window(label()), Some(WindowAction::Unmaximize(label())));
    assert_eq!(
        mgr.resize_window(label(), 1200, 900),
        Some(WindowAction::Resize(label(), 1200, 900))
    );
    assert_eq!(mgr.move_window(label(), -5, 40), Some(WindowAction::Move(label(), -5, 40)));
    assert_eq!(
        mgr.set_always_on_top(label(), true),
        Some(WindowAction::SetAlwaysOnTop(label(), true))
    );
}

#[test]
fn labels_are_stable_and_unique_per_type() {
    assert_eq!(WindowType::Launcher.as_str(), "launcher");
    assert_eq!(WindowType::Login.as_str(), "login");
    assert_eq!(WindowType::CallOutbound.as_str(), "call_outbound");
    assert_eq!(WindowType::CallInbound.as_str(), "call_inbound");
    assert_eq!(WindowType::CallBot.as_str(), "call_bot");
    assert_eq!(WindowType::ChatBot.as_str(), "chat_bot");
    assert_eq!(WindowType::QueueMonitor.as_str(), "queue_monitor");
    assert_eq!(WindowType::Statistics.as_str(), "statistics");
    assert_eq!(WindowType::Settings.as_str(), "settings");
    assert_eq!(WindowType::ShareTaskInfo.as_str(), "share_task_info");
    assert_eq!(WindowType::CompanyChat.as_str(), "company_chat");
    assert_eq!(WindowType::Login.to_label(), WindowType::Login.as_str());
}

#[test]
fn catalog_attributes_match_the_configs() {
    assert_eq!(WindowType::Login.size(), (450, 500));
    assert_eq!(WindowType::Login.min_size(), (400, 450));
    assert_eq!(WindowType::Login.max_size(), None);
    assert_eq!(WindowType::Launcher.max_size(), Some((450, 700)));
    assert!(!WindowType::Login.is_resizable());
    assert!(WindowType::Statistics.is_resizable());
    assert_eq!(WindowType::CallInbound.default_position_offset(), Some((100, 50)));
    assert_eq!(WindowType::CallOutbound.default_position_offset(), Some((-100, 50)));
    assert_eq!(WindowType::Settings.default_position_offset(), None);
    assert_eq!(WindowType::default(), WindowType::Login);
    assert_eq!(WindowType::ChatBot.url(), "chat_bot.html");
}

#[test]
fn get_config_is_total_and_well_formed() {
    let all = [
        WindowType::Launcher,
        WindowType::Login,
        WindowType::CallOutbound,
        WindowType::CallInbound,
        WindowType::CallBot,
        WindowType::ChatBot,
        WindowType::QueueMonitor,
        WindowType::Statistics,
        WindowType::Settings,
        WindowType::ShareTaskInfo,
        WindowType::CompanyChat,
    ];
    for window_type in all {
        let config = WindowConfigManager::get_config(window_type);
        assert_eq!(config.label, window_type.as_str());
        assert_eq!(config.title, window_type.title());
        assert_eq!(config.url, window_type.url());
        assert_eq!((config.width, config.height), window_type.size());
        assert!(config.min_width.unwrap() <= config.width);
        assert!(config.min_height.unwrap() <= config.height);
        if let Some(max_width) = config.max_width {
            assert!(config.width <= max_width);
        }
        if let Some(max_height) = config.max_height {
            assert!(config.height <= max_height);
        }
        assert!(config.center);
        assert!(config.decorations);
        assert!(!config.transparent);
        assert!(config.shadow);
        assert!(config.devtools);
    }
}

#[test]
fn window_count_stays_positive_across_replacements() {
    let mut mgr = WindowManager::new();
    mgr.open_window(WindowType::Login);
    let hops = [
        ("login", WindowType::Launcher),
        ("launcher", WindowType::CallOutbound),
        ("call_outbound", WindowType::CallOutbound),
        ("call_outbound", WindowType::QueueMonitor),
    ];
    for (from, to) in hops {
        let actions = mgr.switch_window(from.to_string(), to);
        assert!(!mgr.list_windows().is_empty());
        assert!(matches!(
            actions[0],
            WindowAction::Create(_) | WindowAction::Focus(_)
        ));
    }
    mgr.open_window(WindowType::Statistics);
    mgr.replace_all_windows(WindowType::CompanyChat);
    assert_eq!(mgr.list_windows(), vec!["company_chat".to_string()]);
    mgr.replace_all_windows(WindowType::CompanyChat);
    assert_eq!(mgr.list_windows(), vec!["company_chat".to_string()]);
}

#[test]
fn get_url_resolves_routes() {
    assert_eq!(WindowConfigManager::get_url("/"), "index.html");
    assert_eq!(WindowConfigManager::get_url("/login"), "index.html#/login");
    assert_eq!(WindowConfigManager::get_url("/statistics"), "index.html#/statistics");
}
