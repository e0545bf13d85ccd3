use vstd::prelude::*;

verus! {

/// The program family that realises a tunnel.
#[derive(Debug, Clone, Copy, PartialEq, Eq, Structural)]
pub enum ForwardType {
    Kubectl,
    Ssh,
}

impl Default for ForwardType {
    /// A definition that names no backend is a Kubernetes port-forward.
    fn default() -> (r: ForwardType)
        ensures
            r == ForwardType::Kubectl,
    {
        ForwardType::Kubectl
    }
}

/// A named tunnel definition.
#[derive(Debug)]
pub struct PortForwardConfig {
    pub name: String,
    pub context: String,
    pub namespace: String,
    pub service: String,
    /// Each entry is `"local"` or `"local:remote"`.
    pub ports: Vec<String>,
    /// A bind address, optionally `"ip:port"` where the port replaces every local port.
    pub local_interface: Option<String>,
    pub forward_type: ForwardType,
}

/// The value of a tunnel definition.
pub struct ConfigView {
    pub name: Seq<char>,
    pub context: Seq<char>,
    pub namespace: Seq<char>,
    pub service: Seq<char>,
    pub ports: Seq<Seq<char>>,
    pub local_interface: Option<Seq<char>>,
    pub forward_type: ForwardType,
}

/// The characters of each string.
pub open spec fn strings_view(v: Seq<String>) -> Seq<Seq<char>> {
    v.map_values(|s: String| s@)
}

/// The characters of an optional string.
pub open spec fn opt_view(o: Option<String>) -> Option<Seq<char>> {
    match o {
        Some(s) => Some(s@),
        None => None,
    }
}

impl View for PortForwardConfig {
    type V = ConfigView;

    open spec fn view(&self) -> ConfigView {
        ConfigView {
            name: self.name@,
            context: self.context@,
            namespace: self.namespace@,
            service: self.service@,
            ports: strings_view(self.ports@),
            local_interface: opt_view(self.local_interface),
            forward_type: self.forward_type,
        }
    }
}

/// A copy of each string.
pub fn clone_strings(v: &Vec<String>) -> (r: Vec<String>)
    ensures
        strings_view(r@) == strings_view(v@),
{
    let mut r: Vec<String> = Vec::new();
    let mut i: usize = 0;
    while i < v.len()
        invariant
            i <= v@.len(),
            strings_view(r@) == strings_view(v@.subrange(0, i as int)),
        decreases v@.len() - i,
    {
        let c = v[i].clone();
        let ghost before = r@;
        r.push(c);
        assert(v@.subrange(0, i + 1) =~= v@.subrange(0, i as int).push(v@[i as int]));
        assert(strings_view(r@) =~= strings_view(before).push(c@));
        assert(strings_view(v@.subrange(0, i + 1)) =~= strings_view(v@.subrange(0, i as int)).push(
            v@[i as int]@,
        ));
        i = i + 1;
    }
    assert(v@.subrange(0, i as int) =~= v@);
    r
}

/// A copy of an optional string.
pub fn clone_opt(o: &Option<String>) -> (r: Option<String>)
    ensures
        opt_view(r) == opt_view(*o),
{
    match o {
        Some(s) => Some(s.clone()),
        None => None,
    }
}

impl Clone for PortForwardConfig {
    fn clone(&self) -> (r: PortForwardConfig)
        ensures
            r@ == self@,
    {
        PortForwardConfig {
            name: self.name.clone(),
            context: self.context.clone(),
            namespace: self.namespace.clone(),
            service: self.service.clone(),
            ports: clone_strings(&self.ports),
            local_interface: clone_opt(&self.local_interface),
            forward_type: self.forward_type,
        }
    }
}

/// Application settings: where kubectl lives and which kubeconfig to use.
#[derive(Debug)]
pub struct AppConfig {
    pub kubectl_path: Option<String>,
    pub kubeconfig_path: Option<String>,
}

/// A running tunnel: its process, the definition it was started from, and when.
#[derive(Debug)]
pub struct ProcessInfo {
    pub pid: u32,
    pub config: PortForwardConfig,
    /// Start time, in seconds since the Unix epoch.
    pub started_at: u64,
}

/// The persisted part of a running tunnel.
#[derive(Debug)]
pub struct SerializableProcessInfo {
    pub pid: u32,
    pub config: PortForwardConfig,
}

impl SerializableProcessInfo {
    /// The persisted part of `info`.
    pub fn from_info(info: &ProcessInfo) -> (r: SerializableProcessInfo)
        ensures
            r.pid == info.pid,
            r.config@ == info.config@,
    {
        SerializableProcessInfo { pid: info.pid, config: info.config.clone() }
    }
}

impl ProcessInfo {
    /// A running tunnel restored from its persisted part, stamped with `started_at`.
    pub fn from_serializable(info: SerializableProcessInfo, started_at: u64) -> (r: ProcessInfo)
        ensures
            r.pid == info.pid,
            r.config@ == info.config@,
            r.started_at == started_at,
    {
        ProcessInfo { pid: info.pid, config: info.config, started_at }
    }
}

/// The list of tunnel definitions, as the configuration file holds it.
#[derive(Debug)]
pub struct PortForwardConfigs {
    pub configs: Vec<PortForwardConfig>,
}

/// The persisted registry: each running tunnel's name with its pid and definition.
#[derive(Debug)]
pub struct ProcessManagerState {
    pub processes: Vec<(String, SerializableProcessInfo)>,
}

/// What the persisted registry records of a tunnel: its pid and definition.
pub type RecordView = (u32, ConfigView);

/// What an error is about.
#[derive(Debug)]
pub enum AppError {
    /// Loading or parsing a configuration or state file failed.
    Config(String),
    /// The kubectl invocation itself reported a failure.
    Kubectl(String),
    /// Starting a tunnel failed.
    PortForward(String),
    /// Spawning or killing a process failed, or the tunnel is already running.
    Process(String),
    /// Reading or writing a file failed.
    Io(String),
    /// Encoding or decoding a document failed.
    Serde(String),
    /// No tunnel or definition has that name.
    NotFound(String),
    /// A malformed index or address.
    InvalidInput(String),
    /// Interface creation, liveness probing or persistence failed.
    System(String),
}

impl AppError {
    /// The text that describes the error to a user.
    pub fn message(&self) -> (r: String)
        ensures
            r@ == self.message_spec(),
    {
        let (prefix, detail) = match self {
            AppError::Config(m) => ("Configuration error: ", m),
            AppError::Kubectl(m) => ("Kubectl error: ", m),
            AppError::PortForward(m) => ("Port forward error: ", m),
            AppError::Process(m) => ("Process management error: ", m),
            AppError::Io(m) => ("IO error: ", m),
            AppError::Serde(m) => ("Serialization error: ", m),
            AppError::NotFound(m) => ("Not found: ", m),
            AppError::InvalidInput(m) => ("Invalid input: ", m),
            AppError::System(m) => ("System error: ", m),
        };
        let p = prefix.to_string();
        p.concat(detail.as_str())
    }

    /// The text that describes the error to a user.
    pub open spec fn message_spec(&self) -> Seq<char> {
        match self {
            AppError::Config(m) => "Configuration error: "@ + m@,
            AppError::Kubectl(m) => "Kubectl error: "@ + m@,
            AppError::PortForward(m) => "Port forward error: "@ + m@,
            AppError::Process(m) => "Process management error: "@ + m@,
            AppError::Io(m) => "IO error: "@ + m@,
            AppError::Serde(m) => "Serialization error: "@ + m@,
            AppError::NotFound(m) => "Not found: "@ + m@,
            AppError::InvalidInput(m) => "Invalid input: "@ + m@,
            AppError::System(m) => "System error: "@ + m@,
        }
    }
}

} // verus!
