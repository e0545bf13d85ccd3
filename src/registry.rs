use vstd::prelude::*;

use crate::detector::{kubectl_pid_spec, kubectl_running_spec, ProcessDetector};
use crate::types::{
    AppError, ConfigView, PortForwardConfig, ProcessInfo, ProcessManagerState, RecordView,
    SerializableProcessInfo,
};

verus! {

/// The registry that a list of persisted entries describes: each name with the pid and
/// definition of its last entry.
pub open spec fn state_map(s: Seq<(String, SerializableProcessInfo)>) -> Map<Seq<char>, RecordView>
    decreases s.len(),
{
    if s.len() == 0 {
        Map::empty()
    } else {
        state_map(s.drop_last()).insert(s.last().0@, (s.last().1.pid, s.last().1.config@))
    }
}

/// The registry restored from persisted entries when the probe of entry `i` reported
/// `alive[i]`: each name's last entry is kept if its process is alive, and dropped otherwise.
pub open spec fn live_state_map(s: Seq<(String, SerializableProcessInfo)>, alive: Seq<bool>) -> Map<
    Seq<char>,
    RecordView,
>
    decreases s.len(),
{
    if s.len() == 0 {
        Map::empty()
    } else {
        let prev = live_state_map(s.drop_last(), alive);
        if alive[s.len() - 1] {
            prev.insert(s.last().0@, (s.last().1.pid, s.last().1.config@))
        } else {
            prev.remove(s.last().0@)
        }
    }
}

/// A definition with another name.
pub open spec fn renamed(c: ConfigView, name: Seq<char>) -> ConfigView {
    ConfigView { name, ..c }
}

/// The names whose probe, among the first `n` of `results`, reported the process dead.
pub open spec fn dead_among(results: Seq<(String, bool)>, n: int) -> Set<Seq<char>> {
    Set::new(
        |k: Seq<char>|
            exists|i: int| 0 <= i < n && #[trigger] results[i].0@ == k && !results[i].1,
    )
}

/// The names whose probe, in `results`, reported the process dead.
pub open spec fn dead_names(results: Seq<(String, bool)>) -> Set<Seq<char>> {
    dead_among(results, results.len() as int)
}

/// The names of the definitions, in order.
pub open spec fn configs_view(cs: Seq<PortForwardConfig>) -> Seq<ConfigView> {
    cs.map_values(|c: PortForwardConfig| c@)
}

/// The registry after adopting, in order, each definition whose kubectl process runs outside the
/// registry and shows its pid in the process table.
pub open spec fn adopted(m: Map<Seq<char>, RecordView>, cs: Seq<ConfigView>, table: Seq<char>) -> Map<
    Seq<char>,
    RecordView,
>
    decreases cs.len(),
{
    if cs.len() == 0 {
        m
    } else {
        let prev = adopted(m, cs.drop_last(), table);
        let c = cs.last();
        if !prev.contains_key(c.name) && kubectl_running_spec(table, c) && kubectl_pid_spec(
            table,
            c,
        ) is Some {
            prev.insert(c.name, (kubectl_pid_spec(table, c)->0, c))
        } else {
            prev
        }
    }
}

/// The names that `adopted` takes into the registry, in order.
pub open spec fn adopted_names(m: Map<Seq<char>, RecordView>, cs: Seq<ConfigView>, table: Seq<char>) -> Seq<
    Seq<char>,
>
    decreases cs.len(),
{
    if cs.len() == 0 {
        Seq::empty()
    } else {
        let prev = adopted(m, cs.drop_last(), table);
        let c = cs.last();
        adopted_names(m, cs.drop_last(), table) + if !prev.contains_key(c.name)
            && kubectl_running_spec(table, c) && kubectl_pid_spec(table, c) is Some {
            seq![c.name]
        } else {
            Seq::empty()
        }
    }
}

/// The names of the definitions whose kubectl process runs but that the registry does not hold.
pub open spec fn orphan_names(m: Map<Seq<char>, RecordView>, cs: Seq<ConfigView>, table: Seq<char>) -> Seq<
    Seq<char>,
>
    decreases cs.len(),
{
    if cs.len() == 0 {
        Seq::empty()
    } else {
        let c = cs.last();
        orphan_names(m, cs.drop_last(), table) + if kubectl_running_spec(table, c)
            && !m.contains_key(c.name) {
            seq![c.name]
        } else {
            Seq::empty()
        }
    }
}

/// The message of the error that refuses to start a tunnel twice.
pub open spec fn already_running_message(name: Seq<char>) -> Seq<char> {
    name + " port forwarding is already running"@
}

/// The message of the error that reports a tunnel that is not running.
pub open spec fn not_running_message(name: Seq<char>) -> Seq<char> {
    name + " port forwarding is not running"@
}

/// The pids that a registry records.
pub open spec fn pids_of(m: Map<Seq<char>, RecordView>) -> Set<u32> {
    Set::new(|p: u32| exists|k: Seq<char>| m.contains_key(k) && m[k].0 == p)
}

/// Starting a tunnel lists it among the running ones; stopping it afterwards no longer lists it.
pub proof fn lemma_start_then_stop(before: Map<Seq<char>, RecordView>, name: Seq<char>, rec: RecordView)
    ensures
        before.insert(name, rec).dom().contains(name),
        before.insert(name, rec)[name] == rec,
        !before.insert(name, rec).remove(name).dom().contains(name),
{
}

/// Reloading the persisted entries when every probe reports the process alive gives back the
/// registry they were persisted from.
pub proof fn lemma_reload_reproduces(
    live: Map<Seq<char>, RecordView>,
    persisted: Seq<(String, SerializableProcessInfo)>,
    alive: Seq<bool>,
)
    requires
        state_map(persisted) == live,
        alive.len() == persisted.len(),
        forall|i: int| 0 <= i < alive.len() ==> alive[i],
    ensures
        live_state_map(persisted, alive) == live,
{
    lemma_all_alive(persisted, alive);
}

/// With every probe alive, restoring keeps every persisted entry.
proof fn lemma_all_alive(s: Seq<(String, SerializableProcessInfo)>, alive: Seq<bool>)
    requires
        alive.len() >= s.len(),
        forall|i: int| 0 <= i < alive.len() ==> alive[i],
    ensures
        live_state_map(s, alive) == state_map(s),
    decreases s.len(),
{
    if s.len() > 0 {
        lemma_all_alive(s.drop_last(), alive);
    }
}

/// Renaming a running tunnel moves its pid to the new name and leaves nothing under the old
/// one.
pub proof fn lemma_rename_moves_pid(before: Map<Seq<char>, RecordView>, from: Seq<char>, to: Seq<char>)
    requires
        before.contains_key(from),
        from != to,
    ensures
        ({
            let after = before.remove(from).insert(to, (before[from].0, renamed(before[from].1, to)));
            &&& !after.contains_key(from)
            &&& after.contains_key(to)
            &&& after[to].0 == before[from].0
            &&& after[to].1.name == to
        }),
{
}

/// A tunnel whose probe reported it dead is no longer registered after verification.
pub proof fn lemma_dead_entries_pruned(
    before: Map<Seq<char>, RecordView>,
    results: Seq<(String, bool)>,
    i: int,
)
    requires
        0 <= i < results.len(),
        !results[i].1,
    ensures
        !before.remove_keys(dead_names(results)).contains_key(results[i].0@),
{
    assert(dead_names(results).contains(results[i].0@));
}

/// The persisted registry: which named tunnel runs as which process.
pub struct ProcessManager {
    entries: Vec<(String, ProcessInfo)>,
    state_file_path: Option<String>,
    records: Ghost<Map<Seq<char>, RecordView>>,
}

impl View for ProcessManager {
    type V = Map<Seq<char>, RecordView>;

    closed spec fn view(&self) -> Map<Seq<char>, RecordView> {
        self.records@
    }
}

impl ProcessManager {
    /// The entries hold each name once, and `records` is what they hold.
    pub closed spec fn wf(&self) -> bool {
        &&& forall|i: int, j: int|
            0 <= i < j < self.entries@.len() ==> self.entries@[i].0@ != self.entries@[j].0@
        &&& forall|k: Seq<char>|
            self.records@.contains_key(k) <==> exists|i: int|
                0 <= i < self.entries@.len() && self.entries@[i].0@ == k
        &&& forall|i: int|
            0 <= i < self.entries@.len() ==> self.records@[self.entries@[i].0@] == (
                self.entries@[i].1.pid,
                self.entries@[i].1.config@,
            )
    }

    /// Where the registry is persisted, if anywhere.
    pub closed spec fn state_file(&self) -> Option<Seq<char>> {
        crate::types::opt_view(self.state_file_path)
    }

    /// An empty registry that is not persisted.
    pub fn new() -> (r: ProcessManager)
        ensures
            r.wf(),
            r@ == Map::<Seq<char>, RecordView>::empty(),
            r.state_file() is None,
    {
        ProcessManager { entries: Vec::new(), state_file_path: None, records: Ghost(Map::empty()) }
    }

    /// An empty registry persisted at `state_file_path`.
    pub fn with_state_file(state_file_path: String) -> (r: ProcessManager)
        ensures
            r.wf(),
            r@ == Map::<Seq<char>, RecordView>::empty(),
            r.state_file() == Some(state_file_path@),
    {
        ProcessManager {
            entries: Vec::new(),
            state_file_path: Some(state_file_path),
            records: Ghost(Map::empty()),
        }
    }

    /// Where the registry is persisted, if anywhere.
    pub fn state_file_path(&self) -> (r: Option<String>)
        ensures
            crate::types::opt_view(r) == self.state_file(),
    {
        crate::types::clone_opt(&self.state_file_path)
    }

    /// The position of `name` among the entries.
    fn position(&self, name: &str) -> (r: Option<usize>)
        requires
            self.wf(),
        ensures
            r matches Some(i) ==> i < self.entries@.len() && self.entries@[i as int].0@ == name@,
            r is None <==> !self@.contains_key(name@),
    {
        let key = name.to_string();
        let mut i: usize = 0;
        while i < self.entries.len()
            invariant
                self.wf(),
                key@ == name@,
                i <= self.entries@.len(),
                forall|j: int| 0 <= j < i ==> self.entries@[j].0@ != name@,
            decreases self.entries@.len() - i,
        {
            if self.entries[i].0 == key {
                return Some(i);
            }
            i = i + 1;
        }
        None
    }

    /// Records that `name` runs as process `pid`, started from `config` at `started_at`; an
    /// entry of the same name is replaced.
    pub fn add_process(&mut self, name: String, pid: u32, config: PortForwardConfig, started_at: u64)
        requires
            old(self).wf(),
        ensures
            final(self).wf(),
            final(self)@ == old(self)@.insert(name@, (pid, config@)),
            final(self).state_file() == old(self).state_file(),
    {
        let ghost key = name@;
        let ghost rec = (pid, config@);
        let info = ProcessInfo { pid, config, started_at };
        match self.position(name.as_str()) {
            Some(i) => {
                self.entries.set(i, (name, info));
                self.records = Ghost(self.records@.insert(key, rec));
                assert forall|k: Seq<char>| self.records@.contains_key(k) <==> exists|j: int|
                    0 <= j < self.entries@.len() && self.entries@[j].0@ == k by {
                    if k == key {
                        assert(self.entries@[i as int].0@ == k);
                    }
                    if exists|j: int| 0 <= j < self.entries@.len() && self.entries@[j].0@ == k {
                        let j = choose|j: int|
                            0 <= j < self.entries@.len() && self.entries@[j].0@ == k;
                        if j != i {
                            assert(old(self).entries@[j].0@ == k);
                        }
                    }
                    if old(self).records@.contains_key(k) && k != key {
                        let j = choose|j: int|
                            0 <= j < old(self).entries@.len() && old(self).entries@[j].0@ == k;
                        assert(self.entries@[j].0@ == k);
                    }
                }
            },
            None => {
                self.entries.push((name, info));
                self.records = Ghost(self.records@.insert(key, rec));
                let ghost n = self.entries@.len() - 1;
                assert forall|k: Seq<char>| self.records@.contains_key(k) <==> exists|j: int|
                    0 <= j < self.entries@.len() && self.entries@[j].0@ == k by {
                    if k == key {
                        assert(self.entries@[n].0@ == k);
                    }
                    if exists|j: int| 0 <= j < self.entries@.len() && self.entries@[j].0@ == k {
                        let j = choose|j: int|
                            0 <= j < self.entries@.len() && self.entries@[j].0@ == k;
                        if j != n {
                            assert(old(self).entries@[j].0@ == k);
                        }
                    }
                    if old(self).records@.contains_key(k) && k != key {
                        let j = choose|j: int|
                            0 <= j < old(self).entries@.len() && old(self).entries@[j].0@ == k;
                        assert(self.entries@[j].0@ == k);
                    }
                }
                assert forall|j: int| 0 <= j < n implies self.entries@[j].0@ != key by {
                    assert(old(self).entries@[j].0@ != key);
                }
            },
        }
    }

    /// Takes the entry at `i` out of the registry.
    fn take_at(&mut self, i: usize) -> (r: (String, ProcessInfo))
        requires
            old(self).wf(),
            i < old(self).entries@.len(),
        ensures
            final(self).wf(),
            r.0@ == old(self).entries@[i as int].0@,
            old(self)@.contains_key(r.0@),
            old(self)@[r.0@] == (r.1.pid, r.1.config@),
            final(self)@ == old(self)@.remove(r.0@),
            final(self).state_file() == old(self).state_file(),
    {
        let ghost old_entries = self.entries@;
        let ghost name = self.entries@[i as int].0@;
        assert(self@.contains_key(name));
        let r = self.entries.remove(i);
        self.records = Ghost(self.records@.remove(name));
        assert forall|j: int| 0 <= j < self.entries@.len() implies self.records@[
            self.entries@[j].0@] == (self.entries@[j].1.pid, self.entries@[j].1.config@) by {
            if j < i {
                assert(self.entries@[j] == old_entries[j]);
            } else {
                assert(self.entries@[j] == old_entries[j + 1]);
            }
        }
        assert forall|k: Seq<char>| self.records@.contains_key(k) <==> exists|j: int|
            0 <= j < self.entries@.len() && self.entries@[j].0@ == k by {
            if self.records@.contains_key(k) {
                let j = choose|j: int| 0 <= j < old_entries.len() && old_entries[j].0@ == k;
                if j < i {
                    assert(self.entries@[j].0@ == k);
                } else {
                    assert(j != i);
                    assert(self.entries@[j - 1].0@ == k);
                }
            }
            if exists|j: int| 0 <= j < self.entries@.len() && self.entries@[j].0@ == k {
                let j = choose|j: int| 0 <= j < self.entries@.len() && self.entries@[j].0@ == k;
                if j < i {
                    assert(old_entries[j].0@ == k);
                    assert(k != name);
                } else {
                    assert(old_entries[j + 1].0@ == k);
                    assert(k != name);
                }
            }
        }
        assert forall|a: int, b: int|
            0 <= a < b < self.entries@.len() implies self.entries@[a].0@ != self.entries@[b].0@ by {
            let oa = if a < i {
                a
            } else {
                a + 1
            };
            let ob = if b < i {
                b
            } else {
                b + 1
            };
            assert(self.entries@[a] == old_entries[oa]);
            assert(self.entries@[b] == old_entries[ob]);
        }
        r
    }

    /// Takes `name` out of the registry and gives back its pid, if it was there.
    pub fn remove_process(&mut self, name: &str) -> (r: Option<u32>)
        requires
            old(self).wf(),
        ensures
            final(self).wf(),
            final(self)@ == old(self)@.remove(name@),
            final(self).state_file() == old(self).state_file(),
            r == (if old(self)@.contains_key(name@) {
                Some(old(self)@[name@].0)
            } else {
                None
            }),
    {
        match self.position(name) {
            Some(i) => {
                let (_, info) = self.take_at(i);
                Some(info.pid)
            },
            None => {
                assert(self.records@.remove(name@) =~= self.records@);
                None
            },
        }
    }

    /// The pid of `name`, if it is running.
    pub fn get_process_pid(&self, name: &str) -> (r: Option<u32>)
        requires
            self.wf(),
        ensures
            r == (if self@.contains_key(name@) {
                Some(self@[name@].0)
            } else {
                None
            }),
    {
        match self.position(name) {
            Some(i) => Some(self.entries[i].1.pid),
            None => None,
        }
    }

    /// Whether `name` is running.
    pub fn contains_process(&self, name: &str) -> (r: bool)
        requires
            self.wf(),
        ensures
            r == self@.contains_key(name@),
    {
        self.position(name).is_some()
    }

    /// The number of running tunnels.
    pub fn len(&self) -> (r: usize)
        requires
            self.wf(),
        ensures
            r == self@.dom().len(),
    {
        proof {
            self.lemma_dom_len();
        }
        self.entries.len()
    }

    /// The registry holds as many names as entries.
    proof fn lemma_dom_len(&self)
        requires
            self.wf(),
        ensures
            self@.dom().len() == self.entries@.len(),
        decreases self.entries@.len(),
    {
        let names = self.entries@.map_values(|e: (String, ProcessInfo)| e.0@);
        assert forall|i: int, j: int| 0 <= i < j < names.len() implies names[i] != names[j] by {}
        assert(names.no_duplicates());
        names.unique_seq_to_set();
        assert(names.to_set() =~= self@.dom()) by {
            assert forall|k: Seq<char>| names.to_set().contains(k) <==> self@.dom().contains(k) by {
                if self@.dom().contains(k) {
                    let j = choose|j: int|
                        0 <= j < self.entries@.len() && self.entries@[j].0@ == k;
                    assert(names[j] == k);
                }
            }
        }
    }

    /// The names of the running tunnels.
    pub fn get_running_services(&self) -> (r: Vec<String>)
        requires
            self.wf(),
        ensures
            r@.map_values(|s: String| s@).to_set() == self@.dom(),
            r@.map_values(|s: String| s@).no_duplicates(),
    {
        let mut r: Vec<String> = Vec::new();
        let mut i: usize = 0;
        while i < self.entries.len()
            invariant
                self.wf(),
                i <= self.entries@.len(),
                r@.len() == i,
                forall|j: int| 0 <= j < i ==> r@[j]@ == self.entries@[j].0@,
            decreases self.entries@.len() - i,
        {
            r.push(self.entries[i].0.clone());
            i = i + 1;
        }
        let ghost names = r@.map_values(|s: String| s@);
        assert forall|k: Seq<char>| names.to_set().contains(k) <==> self@.dom().contains(k) by {
            if self@.dom().contains(k) {
                let j = choose|j: int| 0 <= j < self.entries@.len() && self.entries@[j].0@ == k;
                assert(names[j] == k);
            }
            if names.to_set().contains(k) {
                let j = choose|j: int| 0 <= j < names.len() && names[j] == k;
                assert(self.entries@[j].0@ == k);
            }
        }
        assert(names.to_set() =~= self@.dom());
        r
    }

    /// Each running tunnel's name with its pid.
    pub fn get_running_services_with_pids(&self) -> (r: Vec<(String, u32)>)
        requires
            self.wf(),
        ensures
            forall|i: int|
                0 <= i < r@.len() ==> #[trigger] self@.contains_key(r@[i].0@) && self@[r@[i].0@].0
                    == r@[i].1,
            forall|k: Seq<char>|
                #[trigger] self@.contains_key(k) ==> exists|i: int| 0 <= i < r@.len() && r@[i].0@ == k,
            forall|i: int, j: int| 0 <= i < j < r@.len() ==> r@[i].0@ != r@[j].0@,
    {
        let mut r: Vec<(String, u32)> = Vec::new();
        let mut i: usize = 0;
        while i < self.entries.len()
            invariant
                self.wf(),
                i <= self.entries@.len(),
                r@.len() == i,
                forall|j: int|
                    0 <= j < i ==> r@[j].0@ == self.entries@[j].0@ && r@[j].1
                        == self.entries@[j].1.pid,
            decreases self.entries@.len() - i,
        {
            r.push((self.entries[i].0.clone(), self.entries[i].1.pid));
            i = i + 1;
        }
        assert forall|k: Seq<char>| #[trigger] self@.contains_key(k) implies exists|i: int|
            0 <= i < r@.len() && r@[i].0@ == k by {
            let j = choose|j: int| 0 <= j < self.entries@.len() && self.entries@[j].0@ == k;
            assert(r@[j].0@ == k);
        }
        r
    }

    /// Moves the tunnel `old_name` to the key `new_name`, renaming its definition too; an entry
    /// already under `new_name` is replaced. Nothing changes when `old_name` is not running.
    pub fn update_process_name(&mut self, old_name: &str, new_name: String)
        requires
            old(self).wf(),
        ensures
            final(self).wf(),
            final(self).state_file() == old(self).state_file(),
            old(self)@.contains_key(old_name@) ==> final(self)@ == old(self)@.remove(
                old_name@,
            ).insert(
                new_name@,
                (old(self)@[old_name@].0, renamed(old(self)@[old_name@].1, new_name@)),
            ),
            !old(self)@.contains_key(old_name@) ==> final(self)@ == old(self)@,
    {
        match self.position(old_name) {
            Some(i) => {
                let (_, info) = self.take_at(i);
                let ProcessInfo { pid, config, started_at } = info;
                let mut config = config;
                config.name = new_name.clone();
                self.add_process(new_name, pid, config, started_at);
            },
            None => {},
        }
    }

    /// The persisted form of the registry.
    pub fn snapshot(&self) -> (r: ProcessManagerState)
        requires
            self.wf(),
        ensures
            state_map(r.processes@) == self@,
            forall|i: int, j: int|
                0 <= i < j < r.processes@.len() ==> r.processes@[i].0@ != r.processes@[j].0@,
    {
        let mut out: Vec<(String, SerializableProcessInfo)> = Vec::new();
        let mut i: usize = 0;
        while i < self.entries.len()
            invariant
                self.wf(),
                i <= self.entries@.len(),
                out@.len() == i,
                forall|j: int|
                    0 <= j < i ==> out@[j].0@ == self.entries@[j].0@ && out@[j].1.pid
                        == self.entries@[j].1.pid && out@[j].1.config@ == self.entries@[j].1.config@,
                forall|k: Seq<char>|
                    state_map(out@).contains_key(k) <==> exists|j: int|
                        0 <= j < i && self.entries@[j].0@ == k,
                forall|j: int|
                    0 <= j < i ==> state_map(out@)[self.entries@[j].0@] == (
                        self.entries@[j].1.pid,
                        self.entries@[j].1.config@,
                    ),
            decreases self.entries@.len() - i,
        {
            let ghost before = out@;
            let name = self.entries[i].0.clone();
            let info = SerializableProcessInfo::from_info(&self.entries[i].1);
            out.push((name, info));
            assert(out@.drop_last() =~= before);
            assert forall|j: int| 0 <= j < i implies state_map(out@)[self.entries@[j].0@] == (
                self.entries@[j].1.pid,
                self.entries@[j].1.config@,
            ) by {
                assert(self.entries@[j].0@ != self.entries@[i as int].0@);
            }
            i = i + 1;
        }
        assert(state_map(out@) =~= self@);
        ProcessManagerState { processes: out }
    }

    /// The registry persisted at `state_file_path` as `state`, keeping each entry whose process
    /// the liveness probe reported alive (`alive[i]` for entry `i`), stamped with `started_at`.
    pub fn restore(
        state: ProcessManagerState,
        alive: &Vec<bool>,
        started_at: u64,
        state_file_path: Option<String>,
    ) -> (r: ProcessManager)
        requires
            alive@.len() == state.processes@.len(),
        ensures
            r.wf(),
            r@ == live_state_map(state.processes@, alive@),
            r.state_file() == crate::types::opt_view(state_file_path),
    {
        let mut m = ProcessManager {
            entries: Vec::new(),
            state_file_path,
            records: Ghost(Map::empty()),
        };
        let ghost file = m.state_file();
        let s = &state.processes;
        let mut i: usize = 0;
        while i < s.len()
            invariant
                m.wf(),
                m.state_file() == file,
                alive@.len() == s@.len(),
                i <= s@.len(),
                m@ == live_state_map(s@.subrange(0, i as int), alive@),
            decreases s@.len() - i,
        {
            let ghost pre = s@.subrange(0, i + 1);
            assert(pre.drop_last() =~= s@.subrange(0, i as int));
            if alive[i] {
                let name = s[i].0.clone();
                let config = s[i].1.config.clone();
                m.add_process(name, s[i].1.pid, config, started_at);
            } else {
                m.remove_process(s[i].0.as_str());
            }
            i = i + 1;
        }
        assert(s@.subrange(0, i as int) =~= s@);
        m
    }

    /// Refuses to start `config` while a tunnel of its name runs.
    pub fn check_not_running(&self, config: &PortForwardConfig) -> (r: Result<(), AppError>)
        requires
            self.wf(),
        ensures
            r is Ok <==> !self@.contains_key(config.name@),
            r is Err ==> (r matches Err(AppError::Process(m)) && m@ == already_running_message(
                config.name@,
            )),
    {
        if self.contains_process(config.name.as_str()) {
            let m = config.name.clone().concat(" port forwarding is already running");
            Err(AppError::Process(m))
        } else {
            Ok(())
        }
    }

    /// Takes `name` out of the registry and gives back the pid to be killed; a name that is not
    /// running is reported as not found.
    pub fn stop(&mut self, name: &str) -> (r: Result<u32, AppError>)
        requires
            old(self).wf(),
        ensures
            final(self).wf(),
            final(self)@ == old(self)@.remove(name@),
            final(self).state_file() == old(self).state_file(),
            old(self)@.contains_key(name@) ==> r == Ok::<u32, AppError>(old(self)@[name@].0),
            !old(self)@.contains_key(name@) ==> (r matches Err(AppError::NotFound(m)) && m@
                == not_running_message(name@)),
    {
        match self.remove_process(name) {
            Some(pid) => Ok(pid),
            None => {
                let m = name.to_string().concat(" port forwarding is not running");
                Err(AppError::NotFound(m))
            },
        }
    }

    /// Drops every tunnel whose liveness probe in `results` reported it dead, and hands the
    /// results back.
    pub fn verify_port_forwards(&mut self, results: Vec<(String, bool)>) -> (r: Vec<(String, bool)>)
        requires
            old(self).wf(),
        ensures
            final(self).wf(),
            final(self)@ == old(self)@.remove_keys(dead_names(results@)),
            final(self).state_file() == old(self).state_file(),
            r@ == results@,
    {
        let mut i: usize = 0;
        while i < results.len()
            invariant
                self.wf(),
                self.state_file() == old(self).state_file(),
                i <= results@.len(),
                self@ == old(self)@.remove_keys(dead_among(results@, i as int)),
            decreases results@.len() - i,
        {
            if !results[i].1 {
                self.remove_process(results[i].0.as_str());
            }
            assert(self@ =~= old(self)@.remove_keys(dead_among(results@, i + 1))) by {
                let d1 = dead_among(results@, i as int);
                let d2 = dead_among(results@, i + 1);
                assert forall|k: Seq<char>| d2.contains(k) <==> (d1.contains(k) || (
                    results@[i as int].0@ == k && !results@[i as int].1)) by {
                    if d2.contains(k) {
                        let j = choose|j: int|
                            0 <= j < i + 1 && #[trigger] results@[j].0@ == k && !results@[j].1;
                        if j < i {
                            assert(d1.contains(k));
                        }
                    }
                }
            }
            i = i + 1;
        }
        results
    }

    /// The definitions in `configs` whose kubectl process shows in the process table but that
    /// the registry does not hold.
    pub fn detect_existing_port_forwards(
        &self,
        configs: &Vec<PortForwardConfig>,
        process_table: &str,
    ) -> (r: Vec<String>)
        requires
            self.wf(),
        ensures
            crate::types::strings_view(r@) == orphan_names(self@, configs_view(configs@), process_table@),
    {
        let detector = ProcessDetector::new();
        let ghost cv = configs_view(configs@);
        let mut r: Vec<String> = Vec::new();
        let mut i: usize = 0;
        while i < configs.len()
            invariant
                self.wf(),
                cv == configs_view(configs@),
                i <= configs@.len(),
                crate::types::strings_view(r@) == orphan_names(self@, cv.subrange(0, i as int), process_table@),
            decreases configs@.len() - i,
        {
            let ghost pre = cv.subrange(0, i + 1);
            assert(pre.drop_last() =~= cv.subrange(0, i as int));
            assert(pre.last() == configs@[i as int]@);
            let ghost before = r@;
            if detector.is_kubectl_process_running(&configs[i], process_table)
                && !self.contains_process(configs[i].name.as_str()) {
                r.push(configs[i].name.clone());
                assert(crate::types::strings_view(r@) =~= crate::types::strings_view(before).push(
                    configs@[i as int].name@,
                ));
            }
            i = i + 1;
        }
        assert(cv.subrange(0, i as int) =~= cv);
        r
    }

    /// Takes into the registry, in order, each definition whose kubectl process runs outside it,
    /// with the pid that the process table shows, and gives back their names.
    pub fn sync_with_existing_processes(
        &mut self,
        configs: &Vec<PortForwardConfig>,
        process_table: &str,
        started_at: u64,
    ) -> (r: Vec<String>)
        requires
            old(self).wf(),
        ensures
            final(self).wf(),
            final(self).state_file() == old(self).state_file(),
            final(self)@ == adopted(old(self)@, configs_view(configs@), process_table@),
            crate::types::strings_view(r@) == adopted_names(
                old(self)@,
                configs_view(configs@),
                process_table@,
            ),
    {
        let detector = ProcessDetector::new();
        let ghost cv = configs_view(configs@);
        let mut r: Vec<String> = Vec::new();
        let mut i: usize = 0;
        while i < configs.len()
            invariant
                self.wf(),
                self.state_file() == old(self).state_file(),
                cv == configs_view(configs@),
                i <= configs@.len(),
                self@ == adopted(old(self)@, cv.subrange(0, i as int), process_table@),
                crate::types::strings_view(r@) == adopted_names(
                    old(self)@,
                    cv.subrange(0, i as int),
                    process_table@,
                ),
            decreases configs@.len() - i,
        {
            let ghost pre = cv.subrange(0, i + 1);
            assert(pre.drop_last() =~= cv.subrange(0, i as int));
            assert(pre.last() == configs@[i as int]@);
            let ghost before = r@;
            let c = &configs[i];
            if !self.contains_process(c.name.as_str()) && detector.is_kubectl_process_running(
                c,
                process_table,
            ) {
                match detector.find_kubectl_process_pid(c, process_table) {
                    Some(pid) => {
                        self.add_process(c.name.clone(), pid, c.clone(), started_at);
                        r.push(c.name.clone());
                        assert(crate::types::strings_view(r@) =~= crate::types::strings_view(
                            before,
                        ).push(c.name@));
                    },
                    None => {},
                }
            }
            i = i + 1;
        }
        assert(cv.subrange(0, i as int) =~= cv);
        r
    }

    /// Empties the registry and gives back the pid of every tunnel that was in it.
    pub fn cleanup_all(&mut self) -> (r: Vec<u32>)
        requires
            old(self).wf(),
        ensures
            final(self).wf(),
            final(self)@ == Map::<Seq<char>, RecordView>::empty(),
            final(self).state_file() == old(self).state_file(),
            r@.len() == old(self)@.dom().len(),
            r@.to_set() == pids_of(old(self)@),
    {
        proof {
            self.lemma_dom_len();
        }
        let mut r: Vec<u32> = Vec::new();
        let mut i: usize = 0;
        while i < self.entries.len()
            invariant
                self.wf(),
                i <= self.entries@.len(),
                r@.len() == i,
                forall|j: int| 0 <= j < i ==> r@[j] == self.entries@[j].1.pid,
            decreases self.entries@.len() - i,
        {
            r.push(self.entries[i].1.pid);
            i = i + 1;
        }
        assert forall|p: u32| r@.to_set().contains(p) <==> pids_of(self@).contains(p) by {
            if r@.to_set().contains(p) {
                let j = choose|j: int| 0 <= j < r@.len() && r@[j] == p;
                assert(self@.contains_key(self.entries@[j].0@));
            }
            if pids_of(self@).contains(p) {
                let k = choose|k: Seq<char>| self@.contains_key(k) && self@[k].0 == p;
                let j = choose|j: int| 0 <= j < self.entries@.len() && self.entries@[j].0@ == k;
                assert(r@[j] == p);
            }
        }
        assert(r@.to_set() =~= pids_of(self@));
        self.entries = Vec::new();
        self.records = Ghost(Map::empty());
        r
    }
}

} // verus!
