use vstd::prelude::*;

use crate::command_builder::{
    kubectl_args, kubectl_env, ssh_args, vars_view, KubectlCommandBuilder, SshCommandBuilder,
};
use crate::registry::{already_running_message, ProcessManager};
use crate::types::{opt_view, strings_view, AppError, ConfigView, ForwardType, PortForwardConfig};

verus! {

/// The program, arguments and environment that start the tunnel `c`.
pub open spec fn command_spec(c: ConfigView, kubectl: KubectlCommandBuilder) -> (
    Seq<char>,
    Seq<Seq<char>>,
    Seq<(Seq<char>, Seq<char>)>,
) {
    match c.forward_type {
        ForwardType::Ssh => ("ssh"@, ssh_args(c), Seq::empty()),
        ForwardType::Kubectl => (
            kubectl.program(),
            kubectl_args(c),
            kubectl_env(kubectl.host_env(), kubectl.kubeconfig()),
        ),
    }
}

/// The program, arguments and environment that start the tunnel `config`: `ssh` for an SSH
/// tunnel, kubectl as `kubectl` builds it otherwise.
pub fn build_command(config: &PortForwardConfig, kubectl: &KubectlCommandBuilder) -> (r: (
    String,
    Vec<String>,
    Vec<(String, String)>,
))
    ensures
        (r.0@, strings_view(r.1@), vars_view(r.2@)) == command_spec(config@, *kubectl),
{
    match config.forward_type {
        ForwardType::Ssh => {
            let (program, args) = SshCommandBuilder::new().build_port_forward_command(config);
            let env: Vec<(String, String)> = Vec::new();
            assert(vars_view(env@) =~= Seq::empty());
            (program, args, env)
        },
        ForwardType::Kubectl => kubectl.build_port_forward_command(config),
    }
}

/// What it takes to start a tunnel: the bind address to make sure of first, if any, then the
/// command to spawn.
pub struct StartPlan {
    pub interface: Option<String>,
    pub program: String,
    pub args: Vec<String>,
    pub env: Vec<(String, String)>,
}

/// The plan to start `config`, or the refusal to start a tunnel whose name is running. The
/// registry is not changed either way; the caller records the tunnel once it is spawned.
pub fn plan_start(
    registry: &ProcessManager,
    config: &PortForwardConfig,
    kubectl: &KubectlCommandBuilder,
) -> (r: Result<StartPlan, AppError>)
    requires
        registry.wf(),
    ensures
        r is Err <==> registry@.contains_key(config.name@),
        r is Err ==> (r matches Err(AppError::Process(m)) && m@ == already_running_message(
            config.name@,
        )),
        r matches Ok(p) ==> opt_view(p.interface) == config@.local_interface && (
            p.program@,
            strings_view(p.args@),
            vars_view(p.env@),
        ) == command_spec(config@, *kubectl),
{
    match registry.check_not_running(config) {
        Err(e) => Err(e),
        Ok(()) => {
            let (program, args, env) = build_command(config, kubectl);
            let interface = crate::types::clone_opt(&config.local_interface);
            Ok(StartPlan { interface, program, args, env })
        },
    }
}

} // verus!
