use easy_kpf::command_builder::{credential_plugin_dirs, passthrough_variable_names};
use easy_kpf::{
    build_command, ForwardType, HostEnvironment, KubectlCommandBuilder, PortForwardConfig,
    SshCommandBuilder, SshPortMapper,
};

fn config(context: &str, iface: Option<&str>, ports: &[&str], kind: ForwardType) -> PortForwardConfig {
    PortForwardConfig {
        name: "api".to_string(),
        context: context.to_string(),
        namespace: "ns".to_string(),
        service: "svc/x".to_string(),
        ports: ports.iter().map(|p| p.to_string()).collect(),
        local_interface: iface.map(|s| s.to_string()),
        forward_type: kind,
    }
}

fn strings(v: &[&str]) -> Vec<String> {
    v.iter().map(|s| s.to_string()).collect()
}

#[test]
fn kubectl_without_context_omits_flag() {
    let b = KubectlCommandBuilder::new("kubectl".to_string(), None);
    let (program, args, env) = b.build_port_forward_command(&config("", None, &["8080:80"], ForwardType::Kubectl));
    assert_eq!(program, "kubectl");
    assert_eq!(args, strings(&["-n", "ns", "port-forward", "svc/x", "8080:80"]));
    assert!(!args.contains(&"--context".to_string()));
    assert!(env.is_empty());
}

#[test]
fn kubectl_with_context_address_and_kubeconfig() {
    let b = KubectlCommandBuilder::new("/usr/bin/kubectl".to_string(), Some("/tmp/kc".to_string()));
    let (program, args, env) = b.build_port_forward_command(&config(
        "prod",
        Some("127.0.0.2:9090"),
        &["8080:80", "9000"],
        ForwardType::Kubectl,
    ));
    assert_eq!(program, "/usr/bin/kubectl");
    assert_eq!(
        args,
        strings(&[
            "--context", "prod", "-n", "ns", "port-forward", "svc/x", "--address", "127.0.0.2",
            "8080:80", "9000"
        ])
    );
    assert_eq!(env, vec![("KUBECONFIG".to_string(), "/tmp/kc".to_string())]);
}

#[test]
fn kubectl_environment_passes_path_and_credentials() {
    let host = HostEnvironment {
        path: Some("/usr/bin:/bin".to_string()),
        existing_plugin_dirs: strings(&["/usr/local/bin", "/snap/bin"]),
        variables: vec![
            ("AWS_PROFILE".to_string(), "dev".to_string()),
            ("HOME".to_string(), "/home/u".to_string()),
            ("SECRET_THING".to_string(), "x".to_string()),
        ],
    };
    let b = KubectlCommandBuilder::new("kubectl".to_string(), Some("/k".to_string()))
        .with_host_environment(host);
    let (_, _, env) = b.build_port_forward_command(&config("", None, &["1"], ForwardType::Kubectl));
    assert_eq!(
        env,
        vec![
            ("PATH".to_string(), "/usr/bin:/bin:/usr/local/bin:/snap/bin".to_string()),
            ("HOME".to_string(), "/home/u".to_string()),
            ("AWS_PROFILE".to_string(), "dev".to_string()),
            ("KUBECONFIG".to_string(), "/k".to_string()),
        ]
    );
}

#[test]
fn fixed_lists_are_known() {
    assert!(passthrough_variable_names().contains(&"HOME".to_string()));
    assert!(passthrough_variable_names().contains(&"GOOGLE_APPLICATION_CREDENTIALS".to_string()));
    assert_eq!(credential_plugin_dirs().len(), 6);
}

#[test]
fn ssh_single_port_defaults_to_loopback() {
    let m = SshPortMapper::new();
    assert_eq!(
        m.build_port_mappings(&strings(&["8080"]), None),
        strings(&["127.0.0.1:8080:localhost:8080"])
    );
}

#[test]
fn ssh_forced_port_overrides_local() {
    let m = SshPortMapper::new();
    assert_eq!(
        m.build_port_mappings(&strings(&["8080:80"]), Some("127.0.0.2:9090")),
        strings(&["127.0.0.2:9090:localhost:80"])
    );
    assert_eq!(
        m.build_port_mappings(&strings(&["8080"]), Some("127.0.0.2:9090")),
        strings(&["127.0.0.2:9090:localhost:8080"])
    );
}

#[test]
fn ssh_bare_interface_and_custom_entries() {
    let m = SshPortMapper::new();
    assert_eq!(
        m.build_port_mappings(&strings(&["5432:5433", "a:b:c"]), Some("10.0.0.5")),
        strings(&["10.0.0.5:5432:localhost:5433", "10.0.0.5:a:b:c"])
    );
    assert!(m.build_port_mappings(&[], None).is_empty());
}

#[test]
fn ssh_command_has_fixed_flags_forwards_and_target() {
    let b = SshCommandBuilder::new();
    let mut c = config("", None, &["8080:80", "9000"], ForwardType::Ssh);
    c.service = "user@host".to_string();
    let (program, args) = b.build_port_forward_command(&c);
    assert_eq!(program, "ssh");
    assert_eq!(
        args,
        strings(&[
            "-N",
            "-o",
            "BatchMode=yes",
            "-o",
            "StrictHostKeyChecking=no",
            "-o",
            "ConnectTimeout=10",
            "-o",
            "ServerAliveInterval=60",
            "-o",
            "ServerAliveCountMax=3",
            "-L",
            "127.0.0.1:8080:localhost:80",
            "-L",
            "127.0.0.1:9000:localhost:9000",
            "user@host"
        ])
    );
}

#[test]
fn build_command_picks_backend() {
    let k = KubectlCommandBuilder::new("kubectl".to_string(), Some("/k".to_string()));
    let (p, _, env) = build_command(&config("", None, &["1"], ForwardType::Ssh), &k);
    assert_eq!(p, "ssh");
    assert!(env.is_empty());
    let (p, _, env) = build_command(&config("", None, &["1"], ForwardType::Kubectl), &k);
    assert_eq!(p, "kubectl");
    assert_eq!(env.len(), 1);
}
