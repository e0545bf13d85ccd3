use easy_kpf::config_cache::ConfigCache;
use easy_kpf::edit_field::{derive_config_name, parse_ports, EditField};
use easy_kpf::events::{handle_process_event, ProcessEvent};
use easy_kpf::interface::{InterfaceAction, InterfaceStage, Platform, SystemInterfaceManager, WindowsInterfaceManager};
use easy_kpf::kubectl::{format_kubectl_error, get_kubectl_command};
use easy_kpf::ports::{calculate_scroll_offset, check_privileged_ports, find_privileged_ports, parse_local_port};
use easy_kpf::text::decimal_string;
use easy_kpf::types::{AppConfig, AppError, ForwardType, PortForwardConfig};
use easy_kpf::ui_state::AutocompleteState;

fn config(name: &str) -> PortForwardConfig {
    PortForwardConfig {
        name: name.to_string(),
        context: "ctx".to_string(),
        namespace: "ns".to_string(),
        service: "svc/x".to_string(),
        ports: vec!["8080:80".to_string(), "443".to_string()],
        local_interface: None,
        forward_type: ForwardType::Kubectl,
    }
}

#[test]
fn edit_field_positions() {
    assert_eq!(EditField::count(), 7);
    for i in 0..7 {
        assert_eq!(EditField::from_index(i).unwrap().index(), i);
    }
    assert_eq!(EditField::from_index(7), None);
    assert_eq!(EditField::LocalInterface.name(), "Local Interface");
    assert_eq!(EditField::Name.description(), "");
    assert!(EditField::Ports.supports_autocomplete());
    assert!(!EditField::Name.supports_autocomplete());
    assert!(EditField::ForwardType.triggers_name_generation());
    assert!(!EditField::Context.triggers_name_generation());
}

#[test]
fn edit_field_values() {
    let mut c = config("a");
    assert_eq!(EditField::Ports.get_value(&c), "8080:80, 443");
    assert_eq!(EditField::ForwardType.get_value(&c), "kubectl");
    assert_eq!(EditField::LocalInterface.get_value(&c), "");
    EditField::Ports.set_value(&mut c, " 1:2 , ,3 ".to_string());
    assert_eq!(c.ports, vec!["1:2".to_string(), "3".to_string()]);
    EditField::ForwardType.set_value(&mut c, "SSH".to_string());
    assert_eq!(c.forward_type, ForwardType::Ssh);
    EditField::ForwardType.set_value(&mut c, "other".to_string());
    assert_eq!(c.forward_type, ForwardType::Kubectl);
    EditField::LocalInterface.set_value(&mut c, "127.0.0.2".to_string());
    assert_eq!(c.local_interface, Some("127.0.0.2".to_string()));
    EditField::LocalInterface.set_value(&mut c, String::new());
    assert_eq!(c.local_interface, None);
    assert!(parse_ports("").is_empty());
}

#[test]
fn config_list_operations() {
    let list = vec![config("a"), config("b"), config("c")];
    assert_eq!(ConfigCache::find_config(&list, "b").unwrap().name, "b");
    assert!(ConfigCache::find_config(&list, "z").is_none());
    let list = ConfigCache::add_config(list, config("d"));
    assert_eq!(list.len(), 4);
    let list = ConfigCache::remove_config(list, "a");
    let names: Vec<String> = list.iter().map(|c| c.name.clone()).collect();
    assert_eq!(names, vec!["b", "c", "d"]);
    let list = ConfigCache::reorder_config(list, "d", 0).unwrap();
    let names: Vec<String> = list.iter().map(|c| c.name.clone()).collect();
    assert_eq!(names, vec!["d", "b", "c"]);
    let list = ConfigCache::update_config(list, "b", config("e")).unwrap();
    assert_eq!(list[1].name, "e");
    match ConfigCache::update_config(list, "zz", config("f")) {
        Err(AppError::NotFound(m)) => assert_eq!(m, "Configuration not found for service: zz"),
        _ => panic!("expected not found"),
    }
    let list = vec![config("a")];
    match ConfigCache::reorder_config(list, "a", 1) {
        Err(AppError::InvalidInput(m)) => assert_eq!(m, "Invalid new index"),
        _ => panic!("expected invalid input"),
    }
    assert!(matches!(ConfigCache::reorder_config(vec![], "a", 0), Err(AppError::NotFound(_))));
}

#[test]
fn config_cache_freshness() {
    let mut cache = ConfigCache::with_ttl(100);
    assert!(!cache.is_cache_valid(0));
    assert!(cache.get_configs(0).is_none());
    cache.update_configs(vec![config("a")], 1000);
    assert!(cache.is_cache_valid(1099));
    assert!(!cache.is_cache_valid(1100));
    assert_eq!(cache.get_configs(1050).unwrap().len(), 1);
    cache.invalidate();
    assert!(!cache.is_cache_valid(1000));
    let fresh = ConfigCache::new();
    assert!(!fresh.is_cache_valid(0));
}

#[test]
fn kubectl_error_guidance() {
    assert!(format_kubectl_error("Unable to connect to the server").contains("Unable to connect to cluster"));
    assert!(format_kubectl_error("error: You must be logged in (Unauthorized)").contains("Authentication failed"));
    assert!(format_kubectl_error("the TOKEN has EXPIRED").contains("token expired"));
    assert!(format_kubectl_error("current-context is not set").contains("No active kubectl context"));
    assert!(format_kubectl_error("gke_gcloud_auth_plugin missing").contains("GKE auth plugin"));
    assert_eq!(format_kubectl_error("boom"), "❌ kubectl error: boom");
}

#[test]
fn kubectl_path_settings() {
    let mut cfg = AppConfig::empty();
    assert_eq!(get_kubectl_command(&cfg), "kubectl");
    match cfg.load_kubectl_path() {
        Err(AppError::Config(m)) => assert_eq!(m, "kubectl path not configured"),
        _ => panic!("expected config error"),
    }
    cfg.save_kubectl_path("/opt/kubectl".to_string());
    cfg.save_kubeconfig_path("/k".to_string());
    assert_eq!(get_kubectl_command(&cfg), "/opt/kubectl");
    assert_eq!(cfg.load_kubeconfig_path(), Some("/k".to_string()));
}

#[test]
fn local_ports_and_privileges() {
    assert_eq!(parse_local_port("8080:80"), Some(8080));
    assert_eq!(parse_local_port("8080"), Some(8080));
    assert_eq!(parse_local_port("+22"), Some(22));
    assert_eq!(parse_local_port("70000"), None);
    assert_eq!(parse_local_port("x:1"), None);
    let mut c = config("a");
    c.ports = vec!["80:8080".to_string(), "8443".to_string(), "22".to_string()];
    assert_eq!(find_privileged_ports(&c), vec![80, 22]);
    assert_eq!(
        check_privileged_ports(&c, false),
        Some("Warning: Port(s) 80, 22 require root privileges. Run with sudo or use ports >= 1024.".to_string())
    );
    assert_eq!(check_privileged_ports(&c, true), None);
    c.ports = vec!["8080".to_string()];
    assert_eq!(check_privileged_ports(&c, false), None);
}

#[test]
fn scroll_offset() {
    assert_eq!(calculate_scroll_offset(1, 20, 10), 0);
    assert_eq!(calculate_scroll_offset(10, 20, 10), 5);
    assert_eq!(calculate_scroll_offset(18, 20, 10), 10);
    assert_eq!(calculate_scroll_offset(3, 4, 10), 0);
}

#[test]
fn process_events_become_log_lines() {
    let (e, stop) = handle_process_event(ProcessEvent::Stdout(b"hello".to_vec()));
    assert_eq!((e.line.as_str(), e.is_stderr, stop), ("hello", false, false));
    let (e, stop) = handle_process_event(ProcessEvent::Stderr(vec![0x66, 0xff]));
    assert_eq!((e.line.as_str(), e.is_stderr, stop), ("f\u{fffd}", true, false));
    let (e, stop) = handle_process_event(ProcessEvent::Terminated { code: Some(-1) });
    assert_eq!((e.line.as_str(), stop), ("Process exited with code Some(-1)", true));
    let (e, _) = handle_process_event(ProcessEvent::Terminated { code: None });
    assert_eq!(e.line, "Process exited with code None");
    let (e, stop) = handle_process_event(ProcessEvent::Error("bad".to_string()));
    assert_eq!((e.line.as_str(), e.is_stderr, stop), ("bad", true, false));
}

#[test]
fn decimal_spelling() {
    assert_eq!(decimal_string(0), "0");
    assert_eq!(decimal_string(4294967295), "4294967295");
}

#[test]
fn interface_flow_linux() {
    let m = SystemInterfaceManager;
    assert!(matches!(m.ensure_interface_exists(Platform::Linux, "127.0.0.1:8080"), InterfaceAction::Ready));
    assert!(matches!(m.ensure_interface_exists(Platform::Linux, "localhost"), InterfaceAction::Ready));
    match m.ensure_interface_exists(Platform::Linux, "127.0.0.2:9090") {
        InterfaceAction::Run { stage, program, args } => {
            assert_eq!(stage, InterfaceStage::Probe);
            assert_eq!(program, "ip");
            assert_eq!(args, vec!["addr".to_string(), "show".to_string()]);
        }
        _ => panic!("expected a probe"),
    }
    let listing = "1: lo: <LOOPBACK>\n    inet 127.0.0.1/8 scope host lo\n    inet 127.0.0.2/32 scope host lo\n";
    assert!(matches!(
        m.advance(Platform::Linux, "127.0.0.2:9090", InterfaceStage::Probe, true, listing, ""),
        InterfaceAction::Ready
    ));
    match m.advance(Platform::Linux, "127.0.0.3", InterfaceStage::Probe, true, listing, "") {
        InterfaceAction::Run { stage, program, args } => {
            assert_eq!(stage, InterfaceStage::CreateUnprivileged);
            assert_eq!(program, "ip");
            assert_eq!(args, vec!["addr", "add", "127.0.0.3/32", "dev", "lo"]);
        }
        _ => panic!("expected the alias command"),
    }
    match m.advance(Platform::Linux, "127.0.0.3", InterfaceStage::CreateUnprivileged, false, "", "") {
        InterfaceAction::Run { stage, program, args } => {
            assert_eq!(stage, InterfaceStage::CreatePrivileged);
            assert_eq!(program, "sudo");
            assert_eq!(args, vec!["-n", "ip", "addr", "add", "127.0.0.3/32", "dev", "lo"]);
        }
        _ => panic!("expected the privileged command"),
    }
    match m.advance(Platform::Linux, "127.0.0.3", InterfaceStage::CreatePrivileged, false, "", "sudo: a password is required") {
        InterfaceAction::Fail(AppError::System(msg)) => assert_eq!(
            msg,
            "Interface 127.0.0.3 requires admin privileges to create. Please run: 'sudo ip addr add 127.0.0.3/32 dev lo'"
        ),
        _ => panic!("expected a failure"),
    }
    match m.advance(Platform::Linux, "127.0.0.3", InterfaceStage::CreatePrivileged, false, "", "RTNETLINK: exists") {
        InterfaceAction::Fail(AppError::System(msg)) => {
            assert_eq!(msg, "Failed to create interface 127.0.0.3: RTNETLINK: exists")
        }
        _ => panic!("expected a failure"),
    }
}

#[test]
fn interface_flow_macos() {
    let m = SystemInterfaceManager;
    match m.advance(Platform::Macos, "10.1.1.1", InterfaceStage::Probe, false, "", "") {
        InterfaceAction::Run { program, args, .. } => {
            assert_eq!(program, "ifconfig");
            assert_eq!(args, vec!["lo0", "alias", "10.1.1.1"]);
        }
        _ => panic!("expected the alias command"),
    }
    assert_eq!(m.manual_command(Platform::Macos, "10.1.1.1"), "sudo ifconfig lo0 alias 10.1.1.1");
    let listing = "lo0: flags\n\tinet 10.1.1.1 netmask 0xff000000\n";
    assert!(m.address_listed(listing, "10.1.1.1"));
    assert!(!m.address_listed("ether 10.1.1.1\n", "10.1.1.1"));
    match WindowsInterfaceManager.invalid_address("x.y") {
        AppError::InvalidInput(msg) => assert_eq!(msg, "Invalid IP address: x.y"),
        _ => panic!("expected invalid input"),
    }
}

#[test]
fn error_messages_and_defaults() {
    assert_eq!(AppError::NotFound("x".to_string()).message(), "Not found: x");
    assert_eq!(AppError::Process("p".to_string()).message(), "Process management error: p");
    let s = AutocompleteState::default();
    assert_eq!(s.types, vec!["kubectl".to_string(), "ssh".to_string()]);
    assert_eq!(ForwardType::default(), ForwardType::Kubectl);
}

#[test]
fn derived_names() {
    let mut c = config("x");
    assert_eq!(derive_config_name(&c), "svc/x-8080");
    c.forward_type = ForwardType::Ssh;
    c.service = "deploy@bastion.example".to_string();
    assert_eq!(derive_config_name(&c), "bastion.example-8080");
    c.ports.clear();
    assert_eq!(derive_config_name(&c), "bastion.example-unknown");
    c.forward_type = ForwardType::Kubectl;
    c.service = String::new();
    assert_eq!(derive_config_name(&c), "new-forward");
}
