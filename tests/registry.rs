use easy_kpf::detector::ProcessDetector;
use easy_kpf::registry::ProcessManager;
use easy_kpf::types::{ForwardType, ProcessManagerState, SerializableProcessInfo};
use easy_kpf::{plan_start, AppError, KubectlCommandBuilder, PortForwardConfig};

fn config(name: &str) -> PortForwardConfig {
    PortForwardConfig {
        name: name.to_string(),
        context: String::new(),
        namespace: "default".to_string(),
        service: format!("svc/{}", name),
        ports: vec!["8080:80".to_string()],
        local_interface: None,
        forward_type: ForwardType::Kubectl,
    }
}

fn sorted(mut v: Vec<String>) -> Vec<String> {
    v.sort();
    v
}

#[test]
fn start_lists_and_stop_unlists() {
    let mut m = ProcessManager::new();
    m.add_process("a".to_string(), 42, config("a"), 0);
    assert_eq!(m.get_running_services(), vec!["a".to_string()]);
    assert_eq!(m.stop("a").unwrap(), 42);
    assert!(m.get_running_services().is_empty());
}

#[test]
fn stop_unknown_is_not_found() {
    let mut m = ProcessManager::new();
    match m.stop("ghost") {
        Err(AppError::NotFound(msg)) => assert_eq!(msg, "ghost port forwarding is not running"),
        other => panic!("unexpected {:?}", other),
    }
    assert_eq!(m.remove_process("ghost"), None);
}

#[test]
fn reload_reproduces_live_state() {
    let mut m = ProcessManager::with_state_file("/tmp/state.json".to_string());
    m.add_process("a".to_string(), 1, config("a"), 0);
    m.add_process("b".to_string(), 2, config("b"), 0);
    m.update_process_name("a", "c".to_string());
    m.remove_process("b");
    m.add_process("d".to_string(), 4, config("d"), 0);
    let snap = m.snapshot();
    let alive = vec![true; snap.processes.len()];
    let r = ProcessManager::restore(snap, &alive, 7, m.state_file_path());
    assert_eq!(sorted(r.get_running_services()), vec!["c".to_string(), "d".to_string()]);
    assert_eq!(r.get_process_pid("c"), Some(1));
    assert_eq!(r.get_process_pid("d"), Some(4));
    assert_eq!(r.state_file_path(), Some("/tmp/state.json".to_string()));
    let names: Vec<String> = r.snapshot().processes.iter().map(|(_, i)| i.config.name.clone()).collect();
    assert_eq!(sorted(names), vec!["c".to_string(), "d".to_string()]);
}

#[test]
fn load_discards_dead_entries() {
    let state = ProcessManagerState {
        processes: vec![
            ("A".to_string(), SerializableProcessInfo { pid: 111, config: config("A") }),
            ("B".to_string(), SerializableProcessInfo { pid: 222, config: config("B") }),
        ],
    };
    let r = ProcessManager::restore(state, &vec![false, true], 0, None);
    assert_eq!(r.get_running_services(), vec!["B".to_string()]);
    assert_eq!(r.get_process_pid("B"), Some(222));
    assert!(!r.contains_process("A"));
    assert_eq!(r.len(), 1);
}

#[test]
fn start_while_running_is_refused() {
    let mut m = ProcessManager::new();
    m.add_process("a".to_string(), 9, config("a"), 0);
    let before = m.snapshot().processes.len();
    let k = KubectlCommandBuilder::new("kubectl".to_string(), None);
    match plan_start(&m, &config("a"), &k) {
        Err(AppError::Process(msg)) => assert_eq!(msg, "a port forwarding is already running"),
        _ => panic!("expected an already-running error"),
    }
    assert_eq!(m.snapshot().processes.len(), before);
    assert_eq!(m.get_process_pid("a"), Some(9));
    let plan = plan_start(&m, &config("b"), &k).unwrap();
    assert_eq!(plan.program, "kubectl");
    assert_eq!(plan.interface, None);
}

#[test]
fn rename_moves_pid() {
    let mut m = ProcessManager::new();
    m.add_process("A".to_string(), 5, config("A"), 0);
    m.update_process_name("A", "B".to_string());
    assert_eq!(m.get_process_pid("B"), Some(5));
    assert_eq!(m.get_process_pid("A"), None);
    let snap = m.snapshot();
    assert_eq!(snap.processes.len(), 1);
    assert_eq!(snap.processes[0].0, "B");
    assert_eq!(snap.processes[0].1.config.name, "B");
    m.update_process_name("missing", "X".to_string());
    assert_eq!(m.get_running_services(), vec!["B".to_string()]);
}

#[test]
fn verify_prunes_dead() {
    let mut m = ProcessManager::new();
    m.add_process("a".to_string(), 1, config("a"), 0);
    m.add_process("b".to_string(), 2, config("b"), 0);
    let results = vec![("a".to_string(), false), ("b".to_string(), true)];
    let out = m.verify_port_forwards(results.clone());
    assert_eq!(out, results);
    assert_eq!(m.get_running_services(), vec!["b".to_string()]);
}

#[test]
fn cleanup_returns_all_pids() {
    let mut m = ProcessManager::new();
    m.add_process("a".to_string(), 1, config("a"), 0);
    m.add_process("b".to_string(), 2, config("b"), 0);
    let mut pids = m.cleanup_all();
    pids.sort();
    assert_eq!(pids, vec![1, 2]);
    assert!(m.snapshot().processes.is_empty());
}

#[test]
fn add_replaces_same_name() {
    let mut m = ProcessManager::new();
    m.add_process("a".to_string(), 1, config("a"), 0);
    m.add_process("a".to_string(), 3, config("a"), 0);
    assert_eq!(m.get_running_services_with_pids(), vec![("a".to_string(), 3)]);
}

#[test]
fn api_tunnel_round_trip_then_stop() {
    let mut m = ProcessManager::with_state_file("/tmp/s.json".to_string());
    let mut c = config("api");
    c.service = "svc/api".to_string();
    let k = KubectlCommandBuilder::new("kubectl".to_string(), None);
    let plan = plan_start(&m, &c, &k).unwrap();
    assert_eq!(
        plan.args,
        vec!["-n", "default", "port-forward", "svc/api", "8080:80"]
            .into_iter()
            .map(String::from)
            .collect::<Vec<_>>()
    );
    m.add_process("api".to_string(), 4321, c, 0);
    assert!(m.contains_process("api"));
    let snap = m.snapshot();
    let alive = vec![true; snap.processes.len()];
    let mut m = ProcessManager::restore(snap, &alive, 1, m.state_file_path());
    assert_eq!(m.get_process_pid("api"), Some(4321));
    assert_eq!(m.stop("api").unwrap(), 4321);
    assert!(m.get_running_services().is_empty());
    assert!(m.snapshot().processes.is_empty());
}

#[test]
fn orphans_are_detected_and_adopted() {
    let table = "USER PID %CPU\n\
                 me 999 0.0 kubectl -n default port-forward svc/a 8080:80\r\n\
                 me 1000 0.0 vim notes\n";
    let configs = vec![config("a"), config("b")];
    let mut m = ProcessManager::new();
    assert_eq!(m.detect_existing_port_forwards(&configs, table), vec!["a".to_string()]);
    let adopted = m.sync_with_existing_processes(&configs, table, 5);
    assert_eq!(adopted, vec!["a".to_string()]);
    assert_eq!(m.get_process_pid("a"), Some(999));
    assert!(m.detect_existing_port_forwards(&configs, table).is_empty());
    let d = ProcessDetector::new();
    assert!(d.is_kubectl_process_running(&configs[0], table));
    assert!(!d.is_kubectl_process_running(&configs[1], table));
}
