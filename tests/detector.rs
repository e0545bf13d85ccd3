use easy_kpf::detector::{lines, ProcessDetector};
use easy_kpf::types::ForwardType;
use easy_kpf::PortForwardConfig;

fn config(ns: &str, svc: &str, ports: &[&str], kind: ForwardType) -> PortForwardConfig {
    PortForwardConfig {
        name: "n".to_string(),
        context: String::new(),
        namespace: ns.to_string(),
        service: svc.to_string(),
        ports: ports.iter().map(|p| p.to_string()).collect(),
        local_interface: None,
        forward_type: kind,
    }
}

#[test]
fn namespace_spellings() {
    let d = ProcessDetector::new();
    for line in [
        "kubectl -n web port-forward",
        "kubectl --namespace=web port-forward",
        "kubectl --namespace web port-forward",
    ] {
        let cs: Vec<char> = line.chars().collect();
        assert!(d.matches_namespace(&cs, "web"));
    }
    let cs: Vec<char> = "kubectl -n api port-forward".chars().collect();
    assert!(!d.matches_namespace(&cs, "web"));
}

#[test]
fn pid_from_second_column() {
    let d = ProcessDetector::new();
    assert_eq!(d.extract_pid_from_ps_line("root   1234  0.0 kubectl"), Some(1234));
    assert_eq!(d.extract_pid_from_ps_line("  root\t77 x"), Some(77));
    assert_eq!(d.extract_pid_from_ps_line("root"), None);
    assert_eq!(d.extract_pid_from_ps_line("root abc"), None);
    assert_eq!(d.extract_pid_from_ps_line("root 99999999999"), None);
}

#[test]
fn finds_pid_of_matching_kubectl() {
    let d = ProcessDetector::new();
    let table = "u 10 kubectl -n ns port-forward svc/other 80:80\nu 20 kubectl -n ns port-forward svc/x 9000:90\n";
    let c = config("ns", "svc/x", &["1:1", "9000:90"], ForwardType::Kubectl);
    assert_eq!(d.find_kubectl_process_pid(&c, table), Some(20));
    let ssh = config("ns", "svc/x", &["9000:90"], ForwardType::Ssh);
    assert_eq!(d.find_kubectl_process_pid(&ssh, table), None);
    assert!(!d.is_kubectl_process_running(&ssh, table));
    let none = config("ns", "svc/x", &["1234"], ForwardType::Kubectl);
    assert!(!d.is_kubectl_process_running(&none, table));
}

#[test]
fn probe_commands() {
    let d = ProcessDetector::new();
    assert_eq!(d.liveness_probe_command(4321), ("ps".to_string(), vec!["-p".to_string(), "4321".to_string()]));
    assert_eq!(d.process_list_command(), ("ps".to_string(), vec!["aux".to_string()]));
    assert_eq!(
        d.windows_probe_command(0),
        ("tasklist".to_string(), vec!["/FI".to_string(), "PID eq 0".to_string()])
    );
    assert!(d.windows_probe_shows("kubectl.exe  4321 Console", 4321));
    assert!(!d.windows_probe_shows("INFO: No tasks", 4321));
}

#[test]
fn lines_drop_final_newline_and_carriage_returns() {
    let ls = lines("a\r\nb\n\nc\n");
    let got: Vec<String> = ls.iter().map(|l| l.iter().collect()).collect();
    assert_eq!(got, vec!["a", "b", "", "c"]);
    assert!(lines("").is_empty());
}
