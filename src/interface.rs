use vstd::prelude::*;

use crate::command_builder::{bind_address, bind_of};
use crate::detector::{lines, lines_of};
use crate::text::{chars_of, contains, has_infix, has_prefix, starts_with, trim, trim_chars};
use crate::types::{AppError, strings_view};

verus! {

/// The operating systems on which a loopback alias can be created.
#[derive(Debug, Clone, Copy, PartialEq, Eq, Structural)]
pub enum Platform {
    Linux,
    Macos,
}

/// The step of making sure that an address is bound to a local interface.
#[derive(Debug, Clone, Copy, PartialEq, Eq, Structural)]
pub enum InterfaceStage {
    /// Listing the addresses that are bound.
    Probe,
    /// Adding the alias without privileges.
    CreateUnprivileged,
    /// Adding the alias through `sudo -n`, which never prompts.
    CreatePrivileged,
}

/// What to do next to make sure that an address is bound.
#[derive(Debug)]
pub enum InterfaceAction {
    /// The address is bound; the tunnel may start.
    Ready,
    /// Run `program` with `args`, then report its outcome for `stage`.
    Run { stage: InterfaceStage, program: String, args: Vec<String> },
    /// The address cannot be bound; the tunnel must not start.
    Fail(AppError),
}

/// An address that every system has, which needs no alias.
pub open spec fn is_default_address(a: Seq<char>) -> bool {
    a == "127.0.0.1"@ || a == "0.0.0.0"@ || a == "localhost"@
}

/// Some `inet` line of the interface listing names the address.
pub open spec fn address_listed_spec(listing: Seq<char>, a: Seq<char>) -> bool {
    exists|i: int|
        0 <= i < lines_of(listing).len() && has_prefix(trim(#[trigger] lines_of(listing)[i]), "inet"@)
            && has_infix(lines_of(listing)[i], a)
}

/// The command that lists the bound addresses.
pub open spec fn probe_command_spec(p: Platform) -> (Seq<char>, Seq<Seq<char>>) {
    match p {
        Platform::Linux => ("ip"@, seq!["addr"@, "show"@]),
        Platform::Macos => ("ifconfig"@, Seq::empty()),
    }
}

/// The command that adds `a` as a loopback alias.
pub open spec fn alias_command_spec(p: Platform, a: Seq<char>) -> (Seq<char>, Seq<Seq<char>>) {
    match p {
        Platform::Linux => ("ip"@, seq!["addr"@, "add"@, a + "/32"@, "dev"@, "lo"@]),
        Platform::Macos => ("ifconfig"@, seq!["lo0"@, "alias"@, a]),
    }
}

/// The alias command run through `sudo -n`.
pub open spec fn privileged_command_spec(p: Platform, a: Seq<char>) -> (Seq<char>, Seq<Seq<char>>) {
    ("sudo"@, seq!["-n"@, alias_command_spec(p, a).0] + alias_command_spec(p, a).1)
}

/// The command line a user runs to add the alias by hand.
pub open spec fn manual_command_spec(p: Platform, a: Seq<char>) -> Seq<char> {
    match p {
        Platform::Linux => "sudo ip addr add "@ + a + "/32 dev lo"@,
        Platform::Macos => "sudo ifconfig lo0 alias "@ + a,
    }
}

/// The error when the privileged attempt failed with `stderr`: the command to run by hand
/// when `sudo` wanted a password, the tool's own words otherwise.
pub open spec fn privileged_failure_spec(p: Platform, a: Seq<char>, stderr: Seq<char>) -> Seq<char> {
    if has_infix(stderr, "password"@) || has_infix(stderr, "sudo:"@) {
        "Interface "@ + a + " requires admin privileges to create. Please run: '"@
            + manual_command_spec(p, a) + "'"@
    } else {
        "Failed to create interface "@ + a + ": "@ + stderr
    }
}

/// The view of a `Run` action's command.
pub open spec fn run_of(a: InterfaceAction) -> (InterfaceStage, Seq<char>, Seq<Seq<char>>) {
    match a {
        InterfaceAction::Run { stage, program, args } => (stage, program@, strings_view(args@)),
        _ => (InterfaceStage::Probe, Seq::empty(), Seq::empty()),
    }
}

/// Makes sure that a tunnel's bind address exists before the tunnel starts.
pub struct SystemInterfaceManager;

/// Only checks the address syntax on Windows, where aliases are not created.
pub struct WindowsInterfaceManager;

/// The strings of two-part command, as owned values.
fn command(program: &str, args: &[&str]) -> (r: (String, Vec<String>))
    ensures
        r.0@ == program@,
        strings_view(r.1@) == args@.map_values(|s: &str| s@),
{
    let mut v: Vec<String> = Vec::new();
    let mut i: usize = 0;
    while i < args.len()
        invariant
            i <= args@.len(),
            strings_view(v@) == args@.subrange(0, i as int).map_values(|s: &str| s@),
        decreases args@.len() - i,
    {
        let ghost before = v@;
        v.push(args[i].to_string());
        assert(strings_view(v@) =~= strings_view(before).push(args@[i as int]@));
        assert(args@.subrange(0, i + 1).map_values(|s: &str| s@) =~= args@.subrange(
            0,
            i as int,
        ).map_values(|s: &str| s@).push(args@[i as int]@));
        i = i + 1;
    }
    assert(args@.subrange(0, i as int) =~= args@);
    (program.to_string(), v)
}

impl SystemInterfaceManager {
    /// Whether `address` is one that every system has.
    pub fn is_default_address(&self, address: &str) -> (r: bool)
        ensures
            r == is_default_address(address@),
    {
        let a = address.to_string();
        a == "127.0.0.1".to_string() || a == "0.0.0.0".to_string() || a == "localhost".to_string()
    }

    /// Whether some `inet` line of `listing` names `address`.
    pub fn address_listed(&self, listing: &str, address: &str) -> (r: bool)
        ensures
            r == address_listed_spec(listing@, address@),
    {
        let ls = lines(listing);
        let ghost lv = ls@.map_values(|l: Vec<char>| l@);
        let inet = chars_of("inet");
        let a = chars_of(address);
        let mut i: usize = 0;
        while i < ls.len()
            invariant
                lv == ls@.map_values(|l: Vec<char>| l@),
                lv == lines_of(listing@),
                inet@ == "inet"@,
                a@ == address@,
                i <= ls@.len(),
                forall|j: int|
                    0 <= j < i ==> !(has_prefix(trim(#[trigger] lv[j]), "inet"@) && has_infix(
                        lv[j],
                        address@,
                    )),
            decreases ls@.len() - i,
        {
            assert(lv[i as int] == ls@[i as int]@);
            let t = trim_chars(&ls[i]);
            if starts_with(&t, &inet) && contains(&ls[i], &a) {
                return true;
            }
            i = i + 1;
        }
        false
    }

    /// The command that lists the bound addresses.
    pub fn probe_command(&self, platform: Platform) -> (r: (String, Vec<String>))
        ensures
            (r.0@, strings_view(r.1@)) == probe_command_spec(platform),
    {
        match platform {
            Platform::Linux => {
                let r = command("ip", &["addr", "show"]);
                proof {
                    assert(seq!["addr", "show"].map_values(|s: &str| s@) =~= seq!["addr"@, "show"@]);
                }
                r
            },
            Platform::Macos => {
                let r = command("ifconfig", &[]);
                proof {
                    assert(Seq::<&str>::empty().map_values(|s: &str| s@) =~= Seq::<Seq<char>>::empty());
                }
                r
            },
        }
    }

    /// The command that adds `address` as a loopback alias.
    pub fn alias_command(&self, platform: Platform, address: &str) -> (r: (String, Vec<String>))
        ensures
            (r.0@, strings_view(r.1@)) == alias_command_spec(platform, address@),
    {
        match platform {
            Platform::Linux => {
                let cidr = address.to_string().concat("/32");
                let c: &str = cidr.as_str();
                let r = command("ip", &["addr", "add", c, "dev", "lo"]);
                proof {
                    assert(seq!["addr", "add", c, "dev", "lo"].map_values(|s: &str| s@) =~= seq![
                        "addr"@,
                        "add"@,
                        address@ + "/32"@,
                        "dev"@,
                        "lo"@,
                    ]);
                }
                r
            },
            Platform::Macos => {
                let r = command("ifconfig", &["lo0", "alias", address]);
                proof {
                    assert(seq!["lo0", "alias", address].map_values(|s: &str| s@) =~= seq![
                        "lo0"@,
                        "alias"@,
                        address@,
                    ]);
                }
                r
            },
        }
    }

    /// The alias command run through `sudo -n`, which fails rather than prompt.
    pub fn privileged_command(&self, platform: Platform, address: &str) -> (r: (String, Vec<String>))
        ensures
            (r.0@, strings_view(r.1@)) == privileged_command_spec(platform, address@),
    {
        let (program, args) = self.alias_command(platform, address);
        let mut v: Vec<String> = Vec::new();
        v.push("-n".to_string());
        v.push(program);
        let ghost head = strings_view(v@);
        let mut i: usize = 0;
        while i < args.len()
            invariant
                i <= args@.len(),
                strings_view(v@) == head + strings_view(args@.subrange(0, i as int)),
            decreases args@.len() - i,
        {
            let ghost before = v@;
            v.push(args[i].clone());
            assert(strings_view(v@) =~= strings_view(before).push(args@[i as int]@));
            assert(strings_view(args@.subrange(0, i + 1)) =~= strings_view(
                args@.subrange(0, i as int),
            ).push(args@[i as int]@));
            i = i + 1;
        }
        assert(args@.subrange(0, i as int) =~= args@);
        ("sudo".to_string(), v)
    }

    /// The command line a user runs to add the alias by hand.
    pub fn manual_command(&self, platform: Platform, address: &str) -> (r: String)
        ensures
            r@ == manual_command_spec(platform, address@),
    {
        match platform {
            Platform::Linux => "sudo ip addr add ".to_string().concat(address).concat("/32 dev lo"),
            Platform::Macos => "sudo ifconfig lo0 alias ".to_string().concat(address),
        }
    }

    /// The error of a failed privileged attempt that printed `stderr`.
    pub fn privileged_failure(&self, platform: Platform, address: &str, stderr: &str) -> (r:
        AppError)
        ensures
            r matches AppError::System(m) && m@ == privileged_failure_spec(
                platform,
                address@,
                stderr@,
            ),
    {
        let err = chars_of(stderr);
        if contains(&err, &chars_of("password")) || contains(&err, &chars_of("sudo:")) {
            let manual = self.manual_command(platform, address);
            let m = "Interface ".to_string().concat(address).concat(
                " requires admin privileges to create. Please run: '",
            ).concat(manual.as_str()).concat("'");
            AppError::System(m)
        } else {
            let m = "Failed to create interface ".to_string().concat(address).concat(": ").concat(
                stderr,
            );
            AppError::System(m)
        }
    }

    /// The first step of making sure that the bind address of `interface` exists: nothing for
    /// an address that every system has, a listing of the bound addresses otherwise.
    pub fn ensure_interface_exists(&self, platform: Platform, interface: &str) -> (r:
        InterfaceAction)
        ensures
            is_default_address(bind_address(interface@)) ==> r is Ready,
            !is_default_address(bind_address(interface@)) ==> r is Run && run_of(r) == (
                InterfaceStage::Probe,
                probe_command_spec(platform).0,
                probe_command_spec(platform).1,
            ),
    {
        let address = bind_of(interface);
        if self.is_default_address(address.as_str()) {
            InterfaceAction::Ready
        } else {
            let (program, args) = self.probe_command(platform);
            InterfaceAction::Run { stage: InterfaceStage::Probe, program, args }
        }
    }

    /// The next step after `stage` ended with `success`, printing `stdout` and `stderr`: a
    /// listing that shows the address, or a creation that succeeded, ends in `Ready`; otherwise
    /// the unprivileged creation comes next, then the privileged one, then the failure that
    /// names the command to run by hand.
    pub fn advance(
        &self,
        platform: Platform,
        interface: &str,
        stage: InterfaceStage,
        success: bool,
        stdout: &str,
        stderr: &str,
    ) -> (r: InterfaceAction)
        ensures
            ({
                let a = bind_address(interface@);
                match stage {
                    InterfaceStage::Probe => if success && address_listed_spec(stdout@, a) {
                        r is Ready
                    } else {
                        r is Run && run_of(r) == (
                            InterfaceStage::CreateUnprivileged,
                            alias_command_spec(platform, a).0,
                            alias_command_spec(platform, a).1,
                        )
                    },
                    InterfaceStage::CreateUnprivileged => if success {
                        r is Ready
                    } else {
                        r is Run && run_of(r) == (
                            InterfaceStage::CreatePrivileged,
                            privileged_command_spec(platform, a).0,
                            privileged_command_spec(platform, a).1,
                        )
                    },
                    InterfaceStage::CreatePrivileged => if success {
                        r is Ready
                    } else {
                        r matches InterfaceAction::Fail(AppError::System(m)) && m@
                            == privileged_failure_spec(platform, a, stderr@)
                    },
                }
            }),
    {
        let address = bind_of(interface);
        match stage {
            InterfaceStage::Probe => {
                if success && self.address_listed(stdout, address.as_str()) {
                    InterfaceAction::Ready
                } else {
                    let (program, args) = self.alias_command(platform, address.as_str());
                    InterfaceAction::Run { stage: InterfaceStage::CreateUnprivileged, program, args }
                }
            },
            InterfaceStage::CreateUnprivileged => {
                if success {
                    InterfaceAction::Ready
                } else {
                    let (program, args) = self.privileged_command(platform, address.as_str());
                    InterfaceAction::Run { stage: InterfaceStage::CreatePrivileged, program, args }
                }
            },
            InterfaceStage::CreatePrivileged => {
                if success {
                    InterfaceAction::Ready
                } else {
                    InterfaceAction::Fail(
                        self.privileged_failure(platform, address.as_str(), stderr),
                    )
                }
            },
        }
    }
}

impl WindowsInterfaceManager {
    /// The error for an address that does not parse as an IP address.
    pub fn invalid_address(&self, interface: &str) -> (r: AppError)
        ensures
            r matches AppError::InvalidInput(m) && m@ == "Invalid IP address: "@ + interface@,
    {
        AppError::InvalidInput("Invalid IP address: ".to_string().concat(interface))
    }
}

} // verus!
