use vstd::prelude::*;

use crate::text::{
    chars_of, contains, decimal, decimal_string, has_infix, parse_unsigned, parse_unsigned_chars,
    split_chars, split_on, split_whitespace_chars, words,
};
use crate::types::{ConfigView, ForwardType, PortForwardConfig};

verus! {

/// `line` names the namespace in one of the spellings `-n NS`, `--namespace=NS` or
/// `--namespace NS`.
pub open spec fn matches_namespace_spec(line: Seq<char>, ns: Seq<char>) -> bool {
    has_infix(line, "-n "@ + ns) || has_infix(line, "--namespace="@ + ns) || has_infix(
        line,
        "--namespace "@ + ns,
    )
}

/// `line` holds at least one of the port entries.
pub open spec fn matches_any_port_spec(line: Seq<char>, ports: Seq<Seq<char>>) -> bool {
    exists|i: int| 0 <= i < ports.len() && has_infix(line, #[trigger] ports[i])
}

/// `line` of the process table looks like a kubectl port-forward of the definition `c`.
pub open spec fn matches_kubectl_spec(line: Seq<char>, c: ConfigView) -> bool {
    &&& has_infix(line, "kubectl"@)
    &&& has_infix(line, "port-forward"@)
    &&& matches_namespace_spec(line, c.namespace)
    &&& has_infix(line, c.service)
    &&& matches_any_port_spec(line, c.ports)
}

/// The pid in the second column of a process-table line.
pub open spec fn pid_of_line(line: Seq<char>) -> Option<u32> {
    let w = words(line);
    if w.len() >= 2 {
        match parse_unsigned(w[1], u32::MAX as int) {
            Some(v) => Some(v as u32),
            None => None,
        }
    } else {
        None
    }
}

/// A line without its trailing carriage return.
pub open spec fn strip_cr(l: Seq<char>) -> Seq<char> {
    if l.len() > 0 && l.last() == '\r' {
        l.drop_last()
    } else {
        l
    }
}

/// The lines of a text, as `str::lines` yields them.
pub open spec fn lines_of(s: Seq<char>) -> Seq<Seq<char>> {
    let parts = split_on(s, '\n');
    let kept = if parts.len() > 0 && parts.last().len() == 0 {
        parts.drop_last()
    } else {
        parts
    };
    kept.map_values(|l: Seq<char>| strip_cr(l))
}

/// The pid of the first line that matches `c`, if the first matching line has one.
pub open spec fn first_match_pid(lines: Seq<Seq<char>>, c: ConfigView) -> Option<u32>
    decreases lines.len(),
{
    if lines.len() == 0 {
        None
    } else if matches_kubectl_spec(lines[0], c) {
        pid_of_line(lines[0])
    } else {
        first_match_pid(lines.drop_first(), c)
    }
}

/// Some line of the process table matches the kubectl definition `c`.
pub open spec fn kubectl_running_spec(table: Seq<char>, c: ConfigView) -> bool {
    c.forward_type == ForwardType::Kubectl && exists|i: int|
        0 <= i < lines_of(table).len() && matches_kubectl_spec(#[trigger] lines_of(table)[i], c)
}

/// The pid of the process that runs the kubectl definition `c`, found in the process table.
pub open spec fn kubectl_pid_spec(table: Seq<char>, c: ConfigView) -> Option<u32> {
    if c.forward_type == ForwardType::Kubectl {
        first_match_pid(lines_of(table), c)
    } else {
        None
    }
}

/// The lines of a text.
pub fn lines(text: &str) -> (r: Vec<Vec<char>>)
    ensures
        r@.map_values(|l: Vec<char>| l@) == lines_of(text@),
{
    let cs = chars_of(text);
    let parts = split_chars(&cs, '\n');
    let ghost pv = parts@.map_values(|l: Vec<char>| l@);
    let n: usize = parts.len();
    let kept: usize = if n > 0 && parts[n - 1].len() == 0 {
        n - 1
    } else {
        n
    };
    let ghost kv = if pv.len() > 0 && pv.last().len() == 0 {
        pv.drop_last()
    } else {
        pv
    };
    assert(kv =~= pv.subrange(0, kept as int));
    let mut r: Vec<Vec<char>> = Vec::new();
    let mut i: usize = 0;
    while i < kept
        invariant
            kept <= n == parts@.len(),
            pv == parts@.map_values(|l: Vec<char>| l@),
            i <= kept,
            r@.len() == i,
            forall|j: int| 0 <= j < i ==> r@[j]@ == strip_cr(pv[j]),
        decreases kept - i,
    {
        let l = &parts[i];
        let m: usize = l.len();
        let line = if m > 0 && l[m - 1] == '\r' {
            crate::text::slice_chars(l, 0, m - 1)
        } else {
            crate::text::slice_chars(l, 0, m)
        };
        assert(l@.subrange(0, m as int) =~= l@);
        assert(m > 0 ==> l@.subrange(0, m - 1) =~= l@.drop_last());
        r.push(line);
        i = i + 1;
    }
    assert(r@.map_values(|l: Vec<char>| l@) =~= lines_of(text@));
    r
}

/// The pid in the second column of a process-table line, if it is a number.
pub fn pid_from_line(line: &Vec<char>) -> (r: Option<u32>)
    ensures
        r == pid_of_line(line@),
{
    let w = split_whitespace_chars(line);
    assert(w@.map_values(|p: Vec<char>| p@) == words(line@));
    if w.len() >= 2 {
        assert(w@[1]@ == words(line@)[1]);
        match parse_unsigned_chars(&w[1], 4294967295u64) {
            Some(v) => Some(v as u32),
            None => None,
        }
    } else {
        None
    }
}

/// Finds tunnel processes in the process table by matching their command lines.
pub struct ProcessDetector;

impl ProcessDetector {
    pub fn new() -> (r: ProcessDetector) {
        ProcessDetector
    }

    /// The command that lists the whole process table.
    pub fn process_list_command(&self) -> (r: (String, Vec<String>))
        ensures
            r.0@ == "ps"@,
            r.1@.len() == 1,
            r.1@[0]@ == "aux"@,
    {
        let mut args: Vec<String> = Vec::new();
        args.push("aux".to_string());
        ("ps".to_string(), args)
    }

    /// The command that tells whether process `pid` exists on a Unix-like system: it succeeds
    /// exactly when the process exists.
    pub fn liveness_probe_command(&self, pid: u32) -> (r: (String, Vec<String>))
        ensures
            r.0@ == "ps"@,
            r.1@.len() == 2,
            r.1@[0]@ == "-p"@,
            r.1@[1]@ == decimal(pid as nat),
    {
        let mut args: Vec<String> = Vec::new();
        args.push("-p".to_string());
        args.push(decimal_string(pid));
        ("ps".to_string(), args)
    }

    /// The command that lists process `pid` on Windows.
    pub fn windows_probe_command(&self, pid: u32) -> (r: (String, Vec<String>))
        ensures
            r.0@ == "tasklist"@,
            r.1@.len() == 2,
            r.1@[0]@ == "/FI"@,
            r.1@[1]@ == "PID eq "@ + decimal(pid as nat),
    {
        let mut args: Vec<String> = Vec::new();
        args.push("/FI".to_string());
        let filter = "PID eq ".to_string();
        let n = decimal_string(pid);
        args.push(filter.concat(n.as_str()));
        ("tasklist".to_string(), args)
    }

    /// Whether the output of the Windows probe shows process `pid`.
    pub fn windows_probe_shows(&self, output: &str, pid: u32) -> (r: bool)
        ensures
            r == has_infix(output@, decimal(pid as nat)),
    {
        let out = chars_of(output);
        let n = decimal_string(pid);
        let p = chars_of(n.as_str());
        contains(&out, &p)
    }

    /// Whether the process table holds a kubectl port-forward of `config`.
    pub fn is_kubectl_process_running(&self, config: &PortForwardConfig, process_table: &str) -> (r:
        bool)
        ensures
            r == kubectl_running_spec(process_table@, config@),
    {
        if let ForwardType::Ssh = config.forward_type {
            return false;
        }
        let ls = lines(process_table);
        let ghost lv = ls@.map_values(|l: Vec<char>| l@);
        let mut i: usize = 0;
        while i < ls.len()
            invariant
                lv == ls@.map_values(|l: Vec<char>| l@),
                lv == lines_of(process_table@),
                config.forward_type == ForwardType::Kubectl,
                i <= ls@.len(),
                forall|j: int| 0 <= j < i ==> !matches_kubectl_spec(lv[j], config@),
            decreases ls@.len() - i,
        {
            if self.matches_kubectl_command(&ls[i], config) {
                assert(lv[i as int] == ls@[i as int]@);
                assert(matches_kubectl_spec(lines_of(process_table@)[i as int], config@));
                return true;
            }
            i = i + 1;
        }
        false
    }

    /// The pid of the first process-table line that matches `config`.
    pub fn find_kubectl_process_pid(&self, config: &PortForwardConfig, process_table: &str) -> (r:
        Option<u32>)
        ensures
            r == kubectl_pid_spec(process_table@, config@),
    {
        if let ForwardType::Ssh = config.forward_type {
            return None;
        }
        let ls = lines(process_table);
        let ghost lv = ls@.map_values(|l: Vec<char>| l@);
        let mut i: usize = 0;
        assert(lv.subrange(0, lv.len() as int) =~= lv);
        while i < ls.len()
            invariant
                lv == ls@.map_values(|l: Vec<char>| l@),
                lv == lines_of(process_table@),
                config.forward_type == ForwardType::Kubectl,
                i <= ls@.len(),
                first_match_pid(lv, config@) == first_match_pid(
                    lv.subrange(i as int, lv.len() as int),
                    config@,
                ),
            decreases ls@.len() - i,
        {
            let ghost rest = lv.subrange(i as int, lv.len() as int);
            assert(rest[0] == ls@[i as int]@);
            if self.matches_kubectl_command(&ls[i], config) {
                assert(first_match_pid(rest, config@) == pid_of_line(ls@[i as int]@));
                return pid_from_line(&ls[i]);
            }
            assert(rest.drop_first() =~= lv.subrange(i + 1, lv.len() as int));
            i = i + 1;
        }
        None
    }

    /// Whether one process-table line matches `config`.
    pub fn matches_kubectl_command(&self, line: &Vec<char>, config: &PortForwardConfig) -> (r: bool)
        ensures
            r == matches_kubectl_spec(line@, config@),
    {
        let kubectl = chars_of("kubectl");
        let pf = chars_of("port-forward");
        if !contains(line, &kubectl) || !contains(line, &pf) {
            return false;
        }
        if !self.matches_namespace(line, config.namespace.as_str()) {
            return false;
        }
        let svc = chars_of(config.service.as_str());
        if !contains(line, &svc) {
            return false;
        }
        self.matches_any_port(line, &config.ports)
    }

    /// Whether `line` names namespace `namespace`.
    pub fn matches_namespace(&self, line: &Vec<char>, namespace: &str) -> (r: bool)
        ensures
            r == matches_namespace_spec(line@, namespace@),
    {
        let short = "-n ".to_string().concat(namespace);
        let eq = "--namespace=".to_string().concat(namespace);
        let long = "--namespace ".to_string().concat(namespace);
        contains(line, &chars_of(short.as_str())) || contains(line, &chars_of(eq.as_str()))
            || contains(line, &chars_of(long.as_str()))
    }

    /// Whether `line` holds one of `ports`.
    pub fn matches_any_port(&self, line: &Vec<char>, ports: &Vec<String>) -> (r: bool)
        ensures
            r == matches_any_port_spec(line@, crate::types::strings_view(ports@)),
    {
        let ghost pv = crate::types::strings_view(ports@);
        let mut i: usize = 0;
        while i < ports.len()
            invariant
                pv == crate::types::strings_view(ports@),
                i <= ports@.len(),
                forall|j: int| 0 <= j < i ==> !has_infix(line@, #[trigger] pv[j]),
            decreases ports@.len() - i,
        {
            let p = chars_of(ports[i].as_str());
            if contains(line, &p) {
                assert(has_infix(line@, pv[i as int]));
                return true;
            }
            i = i + 1;
        }
        false
    }

    /// The pid in the second column of a process-table line.
    pub fn extract_pid_from_ps_line(&self, line: &str) -> (r: Option<u32>)
        ensures
            r == pid_of_line(line@),
    {
        pid_from_line(&chars_of(line))
    }
}

} // verus!
