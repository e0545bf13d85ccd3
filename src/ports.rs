use vstd::prelude::*;

use crate::text::{chars_of, decimal, join, parse_unsigned, parse_unsigned_chars, split_chars, split_on};
use crate::types::{strings_view, PortForwardConfig};

verus! {

/// The local port of a port entry: its part before any colon, as a port number.
pub open spec fn local_port_of(entry: Seq<char>) -> Option<u16> {
    match parse_unsigned(split_on(entry, ':')[0], 65535) {
        Some(v) => Some(v as u16),
        None => None,
    }
}

/// The local ports below 1024 among the entries, in order.
pub open spec fn privileged_of(ports: Seq<Seq<char>>) -> Seq<u16>
    decreases ports.len(),
{
    if ports.len() == 0 {
        Seq::empty()
    } else {
        privileged_of(ports.drop_last()) + match local_port_of(ports.last()) {
            Some(p) => if p < 1024 {
                seq![p]
            } else {
                Seq::empty()
            },
            None => Seq::empty(),
        }
    }
}

/// The decimal spelling of each port.
pub open spec fn port_texts(ports: Seq<u16>) -> Seq<Seq<char>> {
    ports.map_values(|p: u16| decimal(p as nat))
}

/// The warning given when the ports need privileges that the process lacks.
pub open spec fn privilege_warning_text(ports: Seq<u16>) -> Seq<char> {
    "Warning: Port(s) "@ + join(port_texts(ports), ", "@)
        + " require root privileges. Run with sudo or use ports >= 1024."@
}

/// The local port of a port entry (`"8080:80"` and `"8080"` both give 8080).
pub fn parse_local_port(port_mapping: &str) -> (r: Option<u16>)
    ensures
        r == local_port_of(port_mapping@),
{
    let cs = chars_of(port_mapping);
    let parts = split_chars(&cs, ':');
    proof {
        crate::text::lemma_split_nonempty(cs@, ':');
    }
    assert(parts@.map_values(|p: Vec<char>| p@)[0] == parts@[0]@);
    match parse_unsigned_chars(&parts[0], 65535) {
        Some(v) => Some(v as u16),
        None => None,
    }
}

/// The local ports below 1024 that `config` forwards, in order.
pub fn find_privileged_ports(config: &PortForwardConfig) -> (r: Vec<u16>)
    ensures
        r@ == privileged_of(strings_view(config.ports@)),
{
    let ghost pv = strings_view(config.ports@);
    let mut r: Vec<u16> = Vec::new();
    let mut i: usize = 0;
    while i < config.ports.len()
        invariant
            pv == strings_view(config.ports@),
            i <= config.ports@.len(),
            r@ == privileged_of(pv.subrange(0, i as int)),
        decreases config.ports@.len() - i,
    {
        let ghost pre = pv.subrange(0, i + 1);
        assert(pre.drop_last() =~= pv.subrange(0, i as int));
        assert(pre.last() == config.ports@[i as int]@);
        match parse_local_port(config.ports[i].as_str()) {
            Some(p) => {
                if p < 1024 {
                    r.push(p);
                }
            },
            None => {},
        }
        i = i + 1;
    }
    assert(pv.subrange(0, i as int) =~= pv);
    r
}

/// The warning to show before starting `config`, if it forwards ports below 1024 and the
/// process does not run as root; `None` when the tunnel may start.
pub fn check_privileged_ports(config: &PortForwardConfig, running_as_root: bool) -> (r: Option<
    String,
>)
    ensures
        ({
            let ps = privileged_of(strings_view(config.ports@));
            if ps.len() == 0 || running_as_root {
                r is None
            } else {
                r matches Some(w) && w@ == privilege_warning_text(ps)
            }
        }),
{
    let ports = find_privileged_ports(config);
    if ports.len() == 0 || running_as_root {
        return None;
    }
    let mut texts: Vec<String> = Vec::new();
    let mut i: usize = 0;
    while i < ports.len()
        invariant
            i <= ports@.len(),
            strings_view(texts@) == port_texts(ports@.subrange(0, i as int)),
        decreases ports@.len() - i,
    {
        let ghost before = strings_view(texts@);
        let t = crate::text::decimal_string(ports[i] as u32);
        texts.push(t);
        assert(strings_view(texts@) =~= before.push(decimal(ports@[i as int] as nat)));
        assert(port_texts(ports@.subrange(0, i + 1)) =~= port_texts(ports@.subrange(0, i as int)).push(
            decimal(ports@[i as int] as nat),
        ));
        i = i + 1;
    }
    assert(ports@.subrange(0, i as int) =~= ports@);
    let list = crate::text::join_strings(texts.as_slice(), ", ");
    Some(
        "Warning: Port(s) ".to_string().concat(list.as_str()).concat(
            " require root privileges. Run with sudo or use ports >= 1024.",
        ),
    )
}

/// The first row to show so that row `selected` of `total` stays visible in a window of
/// `visible_height` rows: the top while the selection is in the first half window, the last
/// window near the end, and the selection centred otherwise.
pub fn calculate_scroll_offset(selected: usize, total: usize, visible_height: usize) -> (r: usize)
    ensures
        r == (if selected < visible_height / 2 {
            0
        } else if selected > (if total >= visible_height / 2 {
            total - visible_height / 2
        } else {
            0
        }) {
            if total >= visible_height {
                (total - visible_height) as int
            } else {
                0
            }
        } else {
            (selected - visible_height / 2) as int
        }),
{
    let half = visible_height / 2;
    if selected < half {
        0
    } else if selected > total.saturating_sub(half) {
        total.saturating_sub(visible_height)
    } else {
        selected - half
    }
}

} // verus!
