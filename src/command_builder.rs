use vstd::prelude::*;
use vstd::string::*;

use crate::text::{
    chars_of, find_char, first_index, slice_chars, string_of, join, join_strings,
};
use crate::types::{ConfigView, PortForwardConfig, strings_view};

verus! {

/// The bind address of a local interface setting: the part before any `:port`.
pub open spec fn bind_address(iface: Seq<char>) -> Seq<char> {
    match first_index(iface, ':') {
        Some(i) => iface.subrange(0, i),
        None => iface,
    }
}

/// The local port that a local interface setting forces, if it is `ip:port`.
pub open spec fn forced_port(iface: Seq<char>) -> Option<Seq<char>> {
    match first_index(iface, ':') {
        Some(i) => Some(iface.subrange(i + 1, iface.len() as int)),
        None => None,
    }
}

/// `local`, unless a forced port replaces it.
pub open spec fn local_or_forced(forced: Option<Seq<char>>, local: Seq<char>) -> Seq<char> {
    match forced {
        Some(p) => p,
        None => local,
    }
}

/// The `-L` value for one port entry: `bind:local:localhost:remote`; an entry with more than one
/// colon is kept verbatim after `bind:`.
pub open spec fn ssh_forward(entry: Seq<char>, bind: Seq<char>, forced: Option<Seq<char>>) -> Seq<
    char,
> {
    match first_index(entry, ':') {
        None => bind + ":"@ + local_or_forced(forced, entry) + ":localhost:"@ + entry,
        Some(i) => {
            let remote = entry.subrange(i + 1, entry.len() as int);
            if first_index(remote, ':') is None {
                bind + ":"@ + local_or_forced(forced, entry.subrange(0, i)) + ":localhost:"@
                    + remote
            } else {
                bind + ":"@ + entry
            }
        },
    }
}

/// The bind address that SSH forwards use for a local interface setting.
pub open spec fn ssh_bind(iface: Option<Seq<char>>) -> Seq<char> {
    match iface {
        Some(i) => bind_address(i),
        None => "127.0.0.1"@,
    }
}

/// The forced local port of a local interface setting, if any.
pub open spec fn ssh_forced(iface: Option<Seq<char>>) -> Option<Seq<char>> {
    match iface {
        Some(i) => forced_port(i),
        None => None,
    }
}

/// The `-L` values for all port entries.
pub open spec fn ssh_forwards(ports: Seq<Seq<char>>, iface: Option<Seq<char>>) -> Seq<Seq<char>> {
    ports.map_values(|p: Seq<char>| ssh_forward(p, ssh_bind(iface), ssh_forced(iface)))
}

/// `flag value` for each value, in order.
pub open spec fn flagged(flag: Seq<char>, values: Seq<Seq<char>>) -> Seq<Seq<char>>
    decreases values.len(),
{
    if values.len() == 0 {
        Seq::empty()
    } else {
        flagged(flag, values.drop_last()) + seq![flag, values.last()]
    }
}

/// The options that every SSH tunnel runs with: no remote command, batch mode, no host-key
/// prompt, a ten second connect timeout and keep-alive probing.
pub open spec fn ssh_fixed_args() -> Seq<Seq<char>> {
    seq![
        "-N"@,
        "-o"@,
        "BatchMode=yes"@,
        "-o"@,
        "StrictHostKeyChecking=no"@,
        "-o"@,
        "ConnectTimeout=10"@,
        "-o"@,
        "ServerAliveInterval=60"@,
        "-o"@,
        "ServerAliveCountMax=3"@,
    ]
}

/// The arguments of the SSH command for a tunnel.
pub open spec fn ssh_args(c: ConfigView) -> Seq<Seq<char>> {
    ssh_fixed_args() + flagged("-L"@, ssh_forwards(c.ports, c.local_interface)) + seq![c.service]
}

/// The arguments of the kubectl command for a tunnel.
pub open spec fn kubectl_args(c: ConfigView) -> Seq<Seq<char>> {
    (if c.context.len() > 0 {
        seq!["--context"@, c.context]
    } else {
        Seq::empty()
    }) + seq!["-n"@, c.namespace, "port-forward"@, c.service] + (match c.local_interface {
        Some(i) => seq!["--address"@, bind_address(i)],
        None => Seq::empty(),
    }) + c.ports
}

/// The first value bound to `name` in `vars`.
pub open spec fn lookup(vars: Seq<(Seq<char>, Seq<char>)>, name: Seq<char>) -> Option<Seq<char>>
    decreases vars.len(),
{
    if vars.len() == 0 {
        None
    } else if vars[0].0 == name {
        Some(vars[0].1)
    } else {
        lookup(vars.drop_first(), name)
    }
}

/// For each name that `vars` binds, in the order of `names`, the name and its value.
pub open spec fn passthrough(names: Seq<Seq<char>>, vars: Seq<(Seq<char>, Seq<char>)>) -> Seq<
    (Seq<char>, Seq<char>),
>
    decreases names.len(),
{
    if names.len() == 0 {
        Seq::empty()
    } else {
        passthrough(names.drop_last(), vars) + match lookup(vars, names.last()) {
            Some(v) => seq![(names.last(), v)],
            None => Seq::empty(),
        }
    }
}

/// The directories of the search path: the current one, if set and not empty, then the
/// credential-plugin directories that exist.
pub open spec fn path_entries(path: Option<Seq<char>>, dirs: Seq<Seq<char>>) -> Seq<Seq<char>> {
    match path {
        Some(p) => if p.len() > 0 {
            seq![p] + dirs
        } else {
            dirs
        },
        None => dirs,
    }
}

/// The `PATH` binding handed to kubectl, if there is any directory to name.
pub open spec fn path_binding(path: Option<Seq<char>>, dirs: Seq<Seq<char>>) -> Seq<
    (Seq<char>, Seq<char>),
> {
    let entries = path_entries(path, dirs);
    if entries.len() == 0 {
        Seq::empty()
    } else {
        seq![("PATH"@, join(entries, ":"@))]
    }
}

/// The view of a list of variable bindings.
pub open spec fn vars_view(v: Seq<(String, String)>) -> Seq<(Seq<char>, Seq<char>)> {
    v.map_values(|p: (String, String)| (p.0@, p.1@))
}

/// The environment of the kubectl command: `PATH`, then the passed-through variables, then
/// `KUBECONFIG` when an override is configured.
pub open spec fn kubectl_env(host: HostView, kubeconfig: Option<Seq<char>>) -> Seq<
    (Seq<char>, Seq<char>),
> {
    path_binding(host.path, host.plugin_dirs) + passthrough(passthrough_names(), host.variables)
        + match kubeconfig {
        Some(k) => seq![("KUBECONFIG"@, k)],
        None => Seq::empty(),
    }
}

/// The variables that kubectl receives from the caller's environment when they are set: `HOME`
/// and the credential settings of Google Cloud, AWS and Azure.
pub open spec fn passthrough_names() -> Seq<Seq<char>> {
    seq![
        "HOME"@,
        "USER"@,
        "GOOGLE_APPLICATION_CREDENTIALS"@,
        "CLOUDSDK_CONFIG"@,
        "CLOUDSDK_CORE_PROJECT"@,
        "USE_GKE_GCLOUD_AUTH_PLUGIN"@,
        "AWS_PROFILE"@,
        "AWS_REGION"@,
        "AWS_DEFAULT_REGION"@,
        "AWS_ACCESS_KEY_ID"@,
        "AWS_SECRET_ACCESS_KEY"@,
        "AWS_SESSION_TOKEN"@,
        "AWS_CONFIG_FILE"@,
        "AWS_SHARED_CREDENTIALS_FILE"@,
        "AZURE_CONFIG_DIR"@,
        "AZURE_CLIENT_ID"@,
        "AZURE_TENANT_ID"@,
        "AZURE_CLIENT_SECRET"@,
    ]
}

/// The directories where credential plugins of kubectl are commonly installed.
pub open spec fn plugin_dirs() -> Seq<Seq<char>> {
    seq![
        "/usr/local/bin"@,
        "/opt/homebrew/bin"@,
        "/usr/local/google-cloud-sdk/bin"@,
        "/opt/google-cloud-sdk/bin"@,
        "/usr/lib/google-cloud-sdk/bin"@,
        "/snap/bin"@,
    ]
}

/// The strings of `lits`, in order.
fn strings_from(lits: &[&str]) -> (r: Vec<String>)
    ensures
        strings_view(r@) == lits@.map_values(|s: &str| s@),
{
    let mut r: Vec<String> = Vec::new();
    let mut i: usize = 0;
    while i < lits.len()
        invariant
            i <= lits@.len(),
            strings_view(r@) == lits@.subrange(0, i as int).map_values(|s: &str| s@),
        decreases lits@.len() - i,
    {
        let ghost before = r@;
        let s = lits[i].to_string();
        r.push(s);
        assert(strings_view(r@) =~= strings_view(before).push(lits@[i as int]@));
        assert(lits@.subrange(0, i + 1).map_values(|s: &str| s@) =~= lits@.subrange(
            0,
            i as int,
        ).map_values(|s: &str| s@).push(lits@[i as int]@));
        i = i + 1;
    }
    assert(lits@.subrange(0, i as int) =~= lits@);
    r
}

/// The variable names that kubectl receives from the caller's environment.
pub fn passthrough_variable_names() -> (r: Vec<String>)
    ensures
        strings_view(r@) == passthrough_names(),
{
    let lits: [&str; 18] = [
        "HOME",
        "USER",
        "GOOGLE_APPLICATION_CREDENTIALS",
        "CLOUDSDK_CONFIG",
        "CLOUDSDK_CORE_PROJECT",
        "USE_GKE_GCLOUD_AUTH_PLUGIN",
        "AWS_PROFILE",
        "AWS_REGION",
        "AWS_DEFAULT_REGION",
        "AWS_ACCESS_KEY_ID",
        "AWS_SECRET_ACCESS_KEY",
        "AWS_SESSION_TOKEN",
        "AWS_CONFIG_FILE",
        "AWS_SHARED_CREDENTIALS_FILE",
        "AZURE_CONFIG_DIR",
        "AZURE_CLIENT_ID",
        "AZURE_TENANT_ID",
        "AZURE_CLIENT_SECRET",
    ];
    let r = strings_from(&lits);
    assert(lits@.map_values(|s: &str| s@) =~= passthrough_names());
    r
}

/// The directories where credential plugins of kubectl are commonly installed.
pub fn credential_plugin_dirs() -> (r: Vec<String>)
    ensures
        strings_view(r@) == plugin_dirs(),
{
    let lits: [&str; 6] = [
        "/usr/local/bin",
        "/opt/homebrew/bin",
        "/usr/local/google-cloud-sdk/bin",
        "/opt/google-cloud-sdk/bin",
        "/usr/lib/google-cloud-sdk/bin",
        "/snap/bin",
    ];
    let r = strings_from(&lits);
    assert(lits@.map_values(|s: &str| s@) =~= plugin_dirs());
    r
}

/// What the caller's environment offers kubectl: its search path, the credential-plugin
/// directories that exist on disk, and the variables that are set.
pub struct HostEnvironment {
    pub path: Option<String>,
    pub existing_plugin_dirs: Vec<String>,
    pub variables: Vec<(String, String)>,
}

/// The value of a caller's environment.
pub struct HostView {
    pub path: Option<Seq<char>>,
    pub plugin_dirs: Seq<Seq<char>>,
    pub variables: Seq<(Seq<char>, Seq<char>)>,
}

impl View for HostEnvironment {
    type V = HostView;

    open spec fn view(&self) -> HostView {
        HostView {
            path: crate::types::opt_view(self.path),
            plugin_dirs: strings_view(self.existing_plugin_dirs@),
            variables: vars_view(self.variables@),
        }
    }
}

impl HostEnvironment {
    /// An environment with no search path and no variables.
    pub fn empty() -> (r: HostEnvironment)
        ensures
            r@.path is None,
            r@.plugin_dirs.len() == 0,
            r@.variables.len() == 0,
    {
        HostEnvironment { path: None, existing_plugin_dirs: Vec::new(), variables: Vec::new() }
    }
}

/// The value bound to `name` first in `vars`.
fn lookup_var(vars: &Vec<(String, String)>, name: &String) -> (r: Option<String>)
    ensures
        crate::types::opt_view(r) == lookup(vars_view(vars@), name@),
{
    let mut i: usize = 0;
    assert(vars@.subrange(0, vars@.len() as int) =~= vars@);
    while i < vars.len()
        invariant
            i <= vars@.len(),
            lookup(vars_view(vars@), name@) == lookup(
                vars_view(vars@.subrange(i as int, vars@.len() as int)),
                name@,
            ),
        decreases vars@.len() - i,
    {
        let ghost rest = vars_view(vars@.subrange(i as int, vars@.len() as int));
        assert(rest[0] == (vars@[i as int].0@, vars@[i as int].1@));
        if vars[i].0 == *name {
            return Some(vars[i].1.clone());
        }
        assert(rest.drop_first() =~= vars_view(vars@.subrange(i + 1, vars@.len() as int)));
        i = i + 1;
    }
    None
}

/// Builds the kubectl command of a tunnel.
pub struct KubectlCommandBuilder {
    kubectl_path: String,
    kubeconfig_path: Option<String>,
    host: HostEnvironment,
}

impl KubectlCommandBuilder {
    /// A builder that runs `kubectl_path`, with `kubeconfig_path` as the kubeconfig override, in
    /// an empty host environment.
    pub fn new(kubectl_path: String, kubeconfig_path: Option<String>) -> (r: KubectlCommandBuilder)
        ensures
            r.program() == kubectl_path@,
            r.kubeconfig() == crate::types::opt_view(kubeconfig_path),
            r.host_env().path is None,
            r.host_env().plugin_dirs.len() == 0,
            r.host_env().variables.len() == 0,
    {
        KubectlCommandBuilder { kubectl_path, kubeconfig_path, host: HostEnvironment::empty() }
    }

    /// The same builder, taking its environment from `host`.
    pub fn with_host_environment(self, host: HostEnvironment) -> (r: KubectlCommandBuilder)
        ensures
            r.program() == self.program(),
            r.kubeconfig() == self.kubeconfig(),
            r.host_env() == host@,
    {
        KubectlCommandBuilder { host, ..self }
    }

    /// The program that the command runs.
    pub closed spec fn program(&self) -> Seq<char> {
        self.kubectl_path@
    }

    /// The kubeconfig override.
    pub closed spec fn kubeconfig(&self) -> Option<Seq<char>> {
        crate::types::opt_view(self.kubeconfig_path)
    }

    /// The caller's environment.
    pub closed spec fn host_env(&self) -> HostView {
        self.host@
    }

    /// The program, arguments and environment of the kubectl port-forward for `config`.
    pub fn build_port_forward_command(&self, config: &PortForwardConfig) -> (r: (
        String,
        Vec<String>,
        Vec<(String, String)>,
    ))
        ensures
            r.0@ == self.program(),
            strings_view(r.1@) == kubectl_args(config@),
            vars_view(r.2@) == kubectl_env(self.host_env(), self.kubeconfig()),
    {
        let mut args: Vec<String> = Vec::new();
        if !config.context.as_str().is_empty() {
            args.push("--context".to_string());
            args.push(config.context.clone());
        }
        args.push("-n".to_string());
        args.push(config.namespace.clone());
        args.push("port-forward".to_string());
        args.push(config.service.clone());
        let ghost head = strings_view(args@);
        match &config.local_interface {
            Some(iface) => {
                args.push("--address".to_string());
                args.push(bind_of(iface.as_str()));
            },
            None => {},
        }
        let ghost middle = strings_view(args@);
        let mut i: usize = 0;
        while i < config.ports.len()
            invariant
                i <= config.ports@.len(),
                strings_view(args@) == middle + strings_view(config.ports@.subrange(0, i as int)),
            decreases config.ports@.len() - i,
        {
            let ghost before = args@;
            args.push(config.ports[i].clone());
            assert(strings_view(args@) =~= strings_view(before).push(config.ports@[i as int]@));
            assert(config.ports@.subrange(0, i + 1) =~= config.ports@.subrange(0, i as int).push(
                config.ports@[i as int],
            ));
            assert(strings_view(config.ports@.subrange(0, i + 1)) =~= strings_view(
                config.ports@.subrange(0, i as int),
            ).push(config.ports@[i as int]@));
            i = i + 1;
        }
        assert(config.ports@.subrange(0, i as int) =~= config.ports@);
        assert(config.context@.len() == 0 ==> head =~= seq![
            "-n"@,
            config.namespace@,
            "port-forward"@,
            config.service@,
        ]);
        assert(strings_view(args@) =~= kubectl_args(config@));
        let env = self.build_environment();
        (self.kubectl_path.clone(), args, env)
    }

    /// The environment of the kubectl command.
    fn build_environment(&self) -> (r: Vec<(String, String)>)
        ensures
            vars_view(r@) == kubectl_env(self.host_env(), self.kubeconfig()),
    {
        let mut env: Vec<(String, String)> = Vec::new();
        let mut entries: Vec<String> = Vec::new();
        match &self.host.path {
            Some(p) => {
                if !p.as_str().is_empty() {
                    entries.push(p.clone());
                }
            },
            None => {},
        }
        let ghost first = strings_view(entries@);
        let dirs = &self.host.existing_plugin_dirs;
        let mut i: usize = 0;
        while i < dirs.len()
            invariant
                i <= dirs@.len(),
                strings_view(entries@) == first + strings_view(dirs@.subrange(0, i as int)),
            decreases dirs@.len() - i,
        {
            let ghost before = entries@;
            entries.push(dirs[i].clone());
            assert(strings_view(entries@) =~= strings_view(before).push(dirs@[i as int]@));
            assert(strings_view(dirs@.subrange(0, i + 1)) =~= strings_view(
                dirs@.subrange(0, i as int),
            ).push(dirs@[i as int]@));
            i = i + 1;
        }
        assert(dirs@.subrange(0, i as int) =~= dirs@);
        assert(strings_view(entries@) =~= path_entries(self.host@.path, self.host@.plugin_dirs));
        if entries.len() > 0 {
            let joined = join_strings(entries.as_slice(), ":");
            env.push(("PATH".to_string(), joined));
        }
        assert(vars_view(env@) =~= path_binding(self.host@.path, self.host@.plugin_dirs));
        let ghost base = vars_view(env@);
        let names = passthrough_variable_names();
        let mut k: usize = 0;
        while k < names.len()
            invariant
                k <= names@.len(),
                strings_view(names@) == passthrough_names(),
                vars_view(env@) == base + passthrough(
                    strings_view(names@).subrange(0, k as int),
                    vars_view(self.host.variables@),
                ),
            decreases names@.len() - k,
        {
            let ghost sub = strings_view(names@).subrange(0, k + 1);
            assert(sub.drop_last() =~= strings_view(names@).subrange(0, k as int));
            let ghost before = vars_view(env@);
            match lookup_var(&self.host.variables, &names[k]) {
                Some(v) => {
                    env.push((names[k].clone(), v));
                    assert(vars_view(env@) =~= before.push((names@[k as int]@, v@)));
                },
                None => {},
            }
            assert(vars_view(env@) =~= base + passthrough(sub, vars_view(self.host.variables@)));
            k = k + 1;
        }
        assert(strings_view(names@).subrange(0, k as int) =~= passthrough_names());
        let ghost withvars = vars_view(env@);
        match &self.kubeconfig_path {
            Some(k) => {
                env.push(("KUBECONFIG".to_string(), k.clone()));
                assert(vars_view(env@) =~= withvars.push(("KUBECONFIG"@, k@)));
            },
            None => {},
        }
        assert(vars_view(env@) =~= kubectl_env(self.host_env(), self.kubeconfig()));
        env
    }
}

/// The bind address of a local interface setting, as a string.
pub fn bind_of(iface: &str) -> (r: String)
    ensures
        r@ == bind_address(iface@),
{
    let cs = chars_of(iface);
    match find_char(&cs, ':') {
        Some(i) => {
            let head = slice_chars(&cs, 0, i);
            string_of(head.as_slice())
        },
        None => iface.to_string(),
    }
}

/// The forced local port of a local interface setting, as a string.
fn forced_of(iface: &str) -> (r: Option<String>)
    ensures
        crate::types::opt_view(r) == forced_port(iface@),
{
    let cs = chars_of(iface);
    match find_char(&cs, ':') {
        Some(i) => {
            let n: usize = cs.len();
            let tail = slice_chars(&cs, i + 1, n);
            Some(string_of(tail.as_slice()))
        },
        None => None,
    }
}

/// Builds the SSH command of a tunnel.
pub struct SshCommandBuilder;

impl SshCommandBuilder {
    pub fn new() -> (r: SshCommandBuilder) {
        SshCommandBuilder
    }

    /// The program and arguments of the SSH local forward for `config`.
    pub fn build_port_forward_command(&self, config: &PortForwardConfig) -> (r: (
        String,
        Vec<String>,
    ))
        ensures
            r.0@ == "ssh"@,
            strings_view(r.1@) == ssh_args(config@),
    {
        let fixed: [&str; 11] = [
            "-N",
            "-o",
            "BatchMode=yes",
            "-o",
            "StrictHostKeyChecking=no",
            "-o",
            "ConnectTimeout=10",
            "-o",
            "ServerAliveInterval=60",
            "-o",
            "ServerAliveCountMax=3",
        ];
        let mut args = strings_from(&fixed);
        assert(fixed@.map_values(|s: &str| s@) =~= ssh_fixed_args());
        let mapper = SshPortMapper::new();
        let iface: Option<&str> = match &config.local_interface {
            Some(s) => Some(s.as_str()),
            None => None,
        };
        let forwards = mapper.build_port_mappings(config.ports.as_slice(), iface);
        let ghost fw = strings_view(forwards@);
        assert(fw == ssh_forwards(config@.ports, config@.local_interface));
        let mut i: usize = 0;
        while i < forwards.len()
            invariant
                i <= forwards@.len(),
                fw == strings_view(forwards@),
                strings_view(args@) == ssh_fixed_args() + flagged("-L"@, fw.subrange(0, i as int)),
            decreases forwards@.len() - i,
        {
            let ghost before = strings_view(args@);
            args.push("-L".to_string());
            args.push(forwards[i].clone());
            assert(fw.subrange(0, i + 1).drop_last() =~= fw.subrange(0, i as int));
            assert(strings_view(args@) =~= before + seq!["-L"@, fw[i as int]]);
            assert(strings_view(args@) =~= ssh_fixed_args() + flagged("-L"@, fw.subrange(0, i + 1)));
            i = i + 1;
        }
        assert(fw.subrange(0, i as int) =~= fw);
        let ghost before = strings_view(args@);
        args.push(config.service.clone());
        assert(strings_view(args@) =~= before.push(config.service@));
        ("ssh".to_string(), args)
    }
}

/// Turns port entries into SSH `-L` values.
pub struct SshPortMapper;

impl SshPortMapper {
    pub fn new() -> (r: SshPortMapper) {
        SshPortMapper
    }

    /// The `-L` value of each port entry, bound to the address of `local_interface` (by default
    /// `127.0.0.1`) and to its forced local port, if it has one.
    pub fn build_port_mappings(&self, ports: &[String], local_interface: Option<&str>) -> (r: Vec<
        String,
    >)
        ensures
            strings_view(r@) == ssh_forwards(
                strings_view(ports@),
                match local_interface {
                    Some(s) => Some(s@),
                    None => None,
                },
            ),
    {
        let ghost iface: Option<Seq<char>> = match local_interface {
            Some(s) => Some(s@),
            None => None,
        };
        let bind: String = match local_interface {
            Some(s) => bind_of(s),
            None => "127.0.0.1".to_string(),
        };
        let forced: Option<String> = match local_interface {
            Some(s) => forced_of(s),
            None => None,
        };
        let mut r: Vec<String> = Vec::new();
        let mut i: usize = 0;
        while i < ports.len()
            invariant
                i <= ports@.len(),
                bind@ == ssh_bind(iface),
                crate::types::opt_view(forced) == ssh_forced(iface),
                strings_view(r@) == ssh_forwards(
                    strings_view(ports@.subrange(0, i as int)),
                    iface,
                ),
            decreases ports@.len() - i,
        {
            let forced_ref: Option<&str> = match &forced {
                Some(f) => Some(f.as_str()),
                None => None,
            };
            let m = self.format_port_mapping(ports[i].as_str(), bind.as_str(), forced_ref);
            let ghost before = r@;
            r.push(m);
            assert(strings_view(ports@.subrange(0, i + 1)) =~= strings_view(
                ports@.subrange(0, i as int),
            ).push(ports@[i as int]@));
            assert(strings_view(r@) =~= strings_view(before).push(m@));
            i = i + 1;
        }
        assert(ports@.subrange(0, i as int) =~= ports@);
        r
    }

    /// The `-L` value of one port entry.
    pub fn format_port_mapping(&self, port_mapping: &str, bind: &str, forced: Option<&str>) -> (r:
        String)
        ensures
            r@ == ssh_forward(
                port_mapping@,
                bind@,
                match forced {
                    Some(f) => Some(f@),
                    None => None,
                },
            ),
    {
        let cs = chars_of(port_mapping);
        let mut r = bind.to_string();
        r.append(":");
        match find_char(&cs, ':') {
            None => {
                match forced {
                    Some(f) => r.append(f),
                    None => r.append(port_mapping),
                }
                r.append(":localhost:");
                r.append(port_mapping);
            },
            Some(i) => {
                let n: usize = cs.len();
                let remote = slice_chars(&cs, i + 1, n);
                match find_char(&remote, ':') {
                    None => {
                        match forced {
                            Some(f) => r.append(f),
                            None => {
                                let local = slice_chars(&cs, 0, i);
                                let local_s = string_of(local.as_slice());
                                r.append(local_s.as_str());
                            },
                        }
                        r.append(":localhost:");
                        let remote_s = string_of(remote.as_slice());
                        r.append(remote_s.as_str());
                    },
                    Some(_) => {
                        r.append(port_mapping);
                    },
                }
            },
        }
        r
    }
}

} // verus!
