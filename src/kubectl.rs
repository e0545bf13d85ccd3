use vstd::prelude::*;

use crate::text::{chars_of, contains, has_infix, lowercase_of, to_lowercase};
use crate::types::{opt_view, AppConfig, AppError};

verus! {

/// The guidance for a kubectl failure that printed `error`, chosen from its lower-cased text.
pub open spec fn kubectl_guidance(error: Seq<char>) -> Seq<char> {
    let e = lowercase_of(error);
    if has_infix(e, "unable to connect"@) || has_infix(e, "connection refused"@) {
        "⚠️  Unable to connect to cluster. Check your internet connection and cluster status."@
    } else if has_infix(e, "unauthorized"@) || has_infix(e, "forbidden"@) {
        "🔐 Authentication failed. For GKE clusters, run: gcloud auth application-default login"@
    } else if has_infix(e, "token"@) && has_infix(e, "expired"@) {
        "⏰ Authentication token expired. For GKE clusters, run: gcloud auth application-default login"@
    } else if has_infix(e, "no cluster"@) || has_infix(e, "context"@) {
        "🚫 No active kubectl context found. Configure kubectl with: kubectl config use-context <context-name>"@
    } else if has_infix(e, "gke_gcloud_auth_plugin"@) {
        "🔧 GKE auth plugin required. Run: gcloud components install gke-gcloud-auth-plugin"@
    } else {
        "❌ kubectl error: "@ + error
    }
}

/// Turns what kubectl printed on failure into guidance: a lost connection, refused or expired
/// credentials, a missing context or a missing auth plugin each get their remedy.
pub fn format_kubectl_error(error: &str) -> (r: String)
    ensures
        r@ == kubectl_guidance(error@),
{
    let lower = to_lowercase(error);
    let e = chars_of(lower.as_str());
    if contains(&e, &chars_of("unable to connect")) || contains(&e, &chars_of("connection refused")) {
        "⚠️  Unable to connect to cluster. Check your internet connection and cluster status.".to_string()
    } else if contains(&e, &chars_of("unauthorized")) || contains(&e, &chars_of("forbidden")) {
        "🔐 Authentication failed. For GKE clusters, run: gcloud auth application-default login".to_string()
    } else if contains(&e, &chars_of("token")) && contains(&e, &chars_of("expired")) {
        "⏰ Authentication token expired. For GKE clusters, run: gcloud auth application-default login".to_string()
    } else if contains(&e, &chars_of("no cluster")) || contains(&e, &chars_of("context")) {
        "🚫 No active kubectl context found. Configure kubectl with: kubectl config use-context <context-name>".to_string()
    } else if contains(&e, &chars_of("gke_gcloud_auth_plugin")) {
        "🔧 GKE auth plugin required. Run: gcloud components install gke-gcloud-auth-plugin".to_string()
    } else {
        "❌ kubectl error: ".to_string().concat(error)
    }
}

/// The kubectl program to run: the configured path, or `kubectl` from the search path.
pub fn get_kubectl_command(config: &AppConfig) -> (r: String)
    ensures
        r@ == match opt_view(config.kubectl_path) {
            Some(p) => p,
            None => "kubectl"@,
        },
{
    match config.load_kubectl_path() {
        Ok(p) => p,
        Err(_) => "kubectl".to_string(),
    }
}

impl AppConfig {
    /// Settings with no kubectl path and no kubeconfig override.
    pub fn empty() -> (r: AppConfig)
        ensures
            r.kubectl_path is None,
            r.kubeconfig_path is None,
    {
        AppConfig { kubectl_path: None, kubeconfig_path: None }
    }

    /// The configured kubectl path, or an error when none is configured.
    pub fn load_kubectl_path(&self) -> (r: Result<String, AppError>)
        ensures
            self.kubectl_path matches Some(p) ==> r matches Ok(s) && s@ == p@,
            self.kubectl_path is None ==> (r matches Err(AppError::Config(m)) && m@
                == "kubectl path not configured"@),
    {
        match &self.kubectl_path {
            Some(p) => Ok(p.clone()),
            None => Err(AppError::Config("kubectl path not configured".to_string())),
        }
    }

    /// Configures the kubectl path.
    pub fn save_kubectl_path(&mut self, path: String)
        ensures
            opt_view(final(self).kubectl_path) == Some(path@),
            opt_view(final(self).kubeconfig_path) == opt_view(old(self).kubeconfig_path),
    {
        self.kubectl_path = Some(path);
    }

    /// The configured kubeconfig override, if any.
    pub fn load_kubeconfig_path(&self) -> (r: Option<String>)
        ensures
            opt_view(r) == opt_view(self.kubeconfig_path),
    {
        crate::types::clone_opt(&self.kubeconfig_path)
    }

    /// Configures the kubeconfig override.
    pub fn save_kubeconfig_path(&mut self, path: String)
        ensures
            opt_view(final(self).kubeconfig_path) == Some(path@),
            opt_view(final(self).kubectl_path) == opt_view(old(self).kubectl_path),
    {
        self.kubeconfig_path = Some(path);
    }
}

} // verus!
