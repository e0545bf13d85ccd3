use vstd::prelude::*;

use crate::text::{chars_of, join, join_strings, lowercase_of, split_chars, split_on, string_of, to_lowercase, trim, trim_chars};
use crate::types::{strings_view, ConfigView, ForwardType, PortForwardConfig};

verus! {

/// A field of the form that edits a tunnel definition.
#[derive(Debug, Clone, Copy, PartialEq, Eq, Structural)]
pub enum EditField {
    Name,
    Context,
    Namespace,
    Service,
    Ports,
    LocalInterface,
    ForwardType,
}

/// The field at position `i` of the form.
pub open spec fn field_at(i: int) -> Option<EditField> {
    if i == 0 {
        Some(EditField::Name)
    } else if i == 1 {
        Some(EditField::Context)
    } else if i == 2 {
        Some(EditField::Namespace)
    } else if i == 3 {
        Some(EditField::Service)
    } else if i == 4 {
        Some(EditField::Ports)
    } else if i == 5 {
        Some(EditField::LocalInterface)
    } else if i == 6 {
        Some(EditField::ForwardType)
    } else {
        None
    }
}

/// The position of a field in the form.
pub open spec fn index_of(f: EditField) -> int {
    match f {
        EditField::Name => 0,
        EditField::Context => 1,
        EditField::Namespace => 2,
        EditField::Service => 3,
        EditField::Ports => 4,
        EditField::LocalInterface => 5,
        EditField::ForwardType => 6,
    }
}

/// The name of a backend, as the form shows it.
pub open spec fn forward_type_text(t: ForwardType) -> Seq<char> {
    match t {
        ForwardType::Kubectl => "kubectl"@,
        ForwardType::Ssh => "ssh"@,
    }
}

/// The text of field `f` of the definition `c`.
pub open spec fn value_of(f: EditField, c: ConfigView) -> Seq<char> {
    match f {
        EditField::Name => c.name,
        EditField::Context => c.context,
        EditField::Namespace => c.namespace,
        EditField::Service => c.service,
        EditField::Ports => join(c.ports, ", "@),
        EditField::LocalInterface => match c.local_interface {
            Some(i) => i,
            None => Seq::empty(),
        },
        EditField::ForwardType => forward_type_text(c.forward_type),
    }
}

/// The trimmed, non-empty pieces of `parts`.
pub open spec fn kept_pieces(parts: Seq<Seq<char>>) -> Seq<Seq<char>>
    decreases parts.len(),
{
    if parts.len() == 0 {
        Seq::empty()
    } else {
        kept_pieces(parts.drop_last()) + if trim(parts.last()).len() > 0 {
            seq![trim(parts.last())]
        } else {
            Seq::empty()
        }
    }
}

/// The port entries that a comma-separated text gives.
pub open spec fn ports_of_text(v: Seq<char>) -> Seq<Seq<char>> {
    kept_pieces(split_on(v, ','))
}

/// The definition `c` after field `f` was set to the text `v`.
pub open spec fn with_value(f: EditField, c: ConfigView, v: Seq<char>) -> ConfigView {
    match f {
        EditField::Name => ConfigView { name: v, ..c },
        EditField::Context => ConfigView { context: v, ..c },
        EditField::Namespace => ConfigView { namespace: v, ..c },
        EditField::Service => ConfigView { service: v, ..c },
        EditField::Ports => ConfigView { ports: ports_of_text(v), ..c },
        EditField::LocalInterface => ConfigView {
            local_interface: if v.len() == 0 {
                None
            } else {
                Some(v)
            },
            ..c
        },
        EditField::ForwardType => ConfigView {
            forward_type: if lowercase_of(v) == "ssh"@ {
                ForwardType::Ssh
            } else {
                ForwardType::Kubectl
            },
            ..c
        },
    }
}

/// The local part of the first port entry, or `unknown` when there is none.
pub open spec fn first_port_text(ports: Seq<Seq<char>>) -> Seq<char> {
    if ports.len() > 0 {
        split_on(ports[0], ':')[0]
    } else {
        "unknown"@
    }
}

/// The name proposed for a definition: `host-port` for SSH (the host after any `user@`),
/// `service-port` for kubectl, and `new-forward` while the service is empty.
pub open spec fn derived_name(c: ConfigView) -> Seq<char> {
    match c.forward_type {
        ForwardType::Ssh => split_on(c.service, '@').last() + "-"@ + first_port_text(c.ports),
        ForwardType::Kubectl => if c.service.len() == 0 {
            "new-forward"@
        } else {
            c.service + "-"@ + first_port_text(c.ports)
        },
    }
}

/// The local part of the first port entry, or `unknown`.
fn first_port(ports: &Vec<String>) -> (r: String)
    ensures
        r@ == first_port_text(strings_view(ports@)),
{
    if ports.len() == 0 {
        return "unknown".to_string();
    }
    let cs = chars_of(ports[0].as_str());
    let parts = split_chars(&cs, ':');
    proof {
        crate::text::lemma_split_nonempty(cs@, ':');
    }
    assert(parts@.map_values(|p: Vec<char>| p@)[0] == parts@[0]@);
    string_of(parts[0].as_slice())
}

/// The name proposed for `config` from its service, first port and backend.
pub fn derive_config_name(config: &PortForwardConfig) -> (r: String)
    ensures
        r@ == derived_name(config@),
{
    let port = first_port(&config.ports);
    match config.forward_type {
        ForwardType::Ssh => {
            let cs = chars_of(config.service.as_str());
            let parts = split_chars(&cs, '@');
            proof {
                crate::text::lemma_split_nonempty(cs@, '@');
            }
            let last: usize = parts.len() - 1;
            assert(parts@.map_values(|p: Vec<char>| p@)[last as int] == parts@[last as int]@);
            let host = string_of(parts[last].as_slice());
            host.concat("-").concat(port.as_str())
        },
        ForwardType::Kubectl => {
            if config.service.as_str().is_empty() {
                "new-forward".to_string()
            } else {
                config.service.clone().concat("-").concat(port.as_str())
            }
        },
    }
}

/// The port entries of a comma-separated text: each piece trimmed, empty pieces dropped.
pub fn parse_ports(value: &str) -> (r: Vec<String>)
    ensures
        strings_view(r@) == ports_of_text(value@),
{
    let cs = chars_of(value);
    let parts = split_chars(&cs, ',');
    let ghost pv = parts@.map_values(|p: Vec<char>| p@);
    let mut r: Vec<String> = Vec::new();
    let mut i: usize = 0;
    while i < parts.len()
        invariant
            pv == parts@.map_values(|p: Vec<char>| p@),
            pv == split_on(cs@, ','),
            i <= parts@.len(),
            strings_view(r@) == kept_pieces(pv.subrange(0, i as int)),
        decreases parts@.len() - i,
    {
        let ghost pre = pv.subrange(0, i + 1);
        assert(pre.drop_last() =~= pv.subrange(0, i as int));
        assert(pre.last() == parts@[i as int]@);
        let ghost before = strings_view(r@);
        let t = trim_chars(&parts[i]);
        if t.len() > 0 {
            r.push(string_of(t.as_slice()));
            assert(strings_view(r@) =~= before.push(t@));
        }
        i = i + 1;
    }
    assert(pv.subrange(0, i as int) =~= pv);
    r
}

impl EditField {
    /// The number of fields of the form.
    pub fn count() -> (r: usize)
        ensures
            r == 7,
    {
        7
    }

    /// The field at position `index` of the form, if there is one.
    pub fn from_index(index: usize) -> (r: Option<EditField>)
        ensures
            r == field_at(index as int),
    {
        match index {
            0 => Some(EditField::Name),
            1 => Some(EditField::Context),
            2 => Some(EditField::Namespace),
            3 => Some(EditField::Service),
            4 => Some(EditField::Ports),
            5 => Some(EditField::LocalInterface),
            6 => Some(EditField::ForwardType),
            _ => None,
        }
    }

    /// The position of this field in the form.
    pub fn index(&self) -> (r: usize)
        ensures
            r == index_of(*self),
            field_at(r as int) == Some(*self),
    {
        match self {
            EditField::Name => 0,
            EditField::Context => 1,
            EditField::Namespace => 2,
            EditField::Service => 3,
            EditField::Ports => 4,
            EditField::LocalInterface => 5,
            EditField::ForwardType => 6,
        }
    }

    /// The label of this field.
    pub fn name(&self) -> (r: &'static str)
        ensures
            r@ == match *self {
                EditField::Name => "Name"@,
                EditField::Context => "Context"@,
                EditField::Namespace => "Namespace"@,
                EditField::Service => "Service"@,
                EditField::Ports => "Ports"@,
                EditField::LocalInterface => "Local Interface"@,
                EditField::ForwardType => "Type (kubectl/ssh)"@,
            },
    {
        match self {
            EditField::Name => "Name",
            EditField::Context => "Context",
            EditField::Namespace => "Namespace",
            EditField::Service => "Service",
            EditField::Ports => "Ports",
            EditField::LocalInterface => "Local Interface",
            EditField::ForwardType => "Type (kubectl/ssh)",
        }
    }

    /// The help text of this field.
    pub fn description(&self) -> (r: &'static str)
        ensures
            *self == EditField::LocalInterface ==> r@
                == "Optional, e.g. 127.0.0.2 to avoid port conflicts"@,
            *self != EditField::LocalInterface ==> r@ == ""@,
    {
        match self {
            EditField::LocalInterface => "Optional, e.g. 127.0.0.2 to avoid port conflicts",
            _ => "",
        }
    }

    /// Whether the form offers suggestions for this field.
    pub fn supports_autocomplete(&self) -> (r: bool)
        ensures
            r == (*self != EditField::Name && *self != EditField::LocalInterface),
    {
        match self {
            EditField::Context | EditField::Namespace | EditField::Service | EditField::Ports
            | EditField::ForwardType => true,
            _ => false,
        }
    }

    /// Whether a change of this field makes the form propose a new name.
    pub fn triggers_name_generation(&self) -> (r: bool)
        ensures
            r == (*self == EditField::Service || *self == EditField::Ports || *self
                == EditField::ForwardType),
    {
        match self {
            EditField::Service | EditField::Ports | EditField::ForwardType => true,
            _ => false,
        }
    }

    /// The text of this field in `config`.
    pub fn get_value(&self, config: &PortForwardConfig) -> (r: String)
        ensures
            r@ == value_of(*self, config@),
    {
        match self {
            EditField::Name => config.name.clone(),
            EditField::Context => config.context.clone(),
            EditField::Namespace => config.namespace.clone(),
            EditField::Service => config.service.clone(),
            EditField::Ports => join_strings(config.ports.as_slice(), ", "),
            EditField::LocalInterface => match &config.local_interface {
                Some(i) => i.clone(),
                None => String::new(),
            },
            EditField::ForwardType => match config.forward_type {
                ForwardType::Kubectl => "kubectl".to_string(),
                ForwardType::Ssh => "ssh".to_string(),
            },
        }
    }

    /// Sets this field of `config` from the text `value`.
    pub fn set_value(&self, config: &mut PortForwardConfig, value: String)
        ensures
            final(config)@ == with_value(*self, old(config)@, value@),
    {
        match self {
            EditField::Name => config.name = value,
            EditField::Context => config.context = value,
            EditField::Namespace => config.namespace = value,
            EditField::Service => config.service = value,
            EditField::Ports => config.ports = parse_ports(value.as_str()),
            EditField::LocalInterface => {
                config.local_interface = if value.as_str().is_empty() {
                    None
                } else {
                    Some(value)
                };
            },
            EditField::ForwardType => {
                let lower = to_lowercase(value.as_str());
                config.forward_type = if lower == "ssh".to_string() {
                    ForwardType::Ssh
                } else {
                    ForwardType::Kubectl
                };
            },
        }
    }
}

} // verus!
