//! The process monitor: the replica of the protected names, the switch that
//! arms scanning, and one scan of a process snapshot.

use crate::matcher::{process_matches, process_matches_spec};
use crate::text::{chars_of, starts_with, upper, uppercase, whitespace};
use vstd::prelude::*;
use vstd::string::{StrSliceExecFns, StringExecFns};

verus! {

/// Milliseconds between two scans of the process table, unless the caller
/// chooses otherwise.
pub const SCAN_INTERVAL_MS: u64 = 1_000;

/// One live process as the process table showed it.
#[derive(Debug, Clone)]
pub struct ProcessInfo {
    pub pid: i32,
    pub name: String,
    pub exe_path: Option<String>,
}

/// A [`ProcessInfo`] as mathematical values.
pub struct ProcessInfoView {
    pub pid: i32,
    pub name: Seq<char>,
    pub exe_path: Option<Seq<char>>,
}

impl DeepView for ProcessInfo {
    type V = ProcessInfoView;

    open spec fn deep_view(&self) -> ProcessInfoView {
        ProcessInfoView {
            pid: self.pid,
            name: self.name@,
            exe_path: match self.exe_path {
                Some(p) => Some(p@),
                None => None,
            },
        }
    }
}

/// An application that can be offered for protection.
#[derive(Debug, Clone)]
pub struct AppCandidate {
    pub name: String,
    pub process_name: String,
    pub exe_path: Option<String>,
    pub category: String,
}

/// An [`AppCandidate`] as mathematical values.
pub struct AppCandidateView {
    pub name: Seq<char>,
    pub process_name: Seq<char>,
    pub exe_path: Option<Seq<char>>,
    pub category: Seq<char>,
}

impl DeepView for AppCandidate {
    type V = AppCandidateView;

    open spec fn deep_view(&self) -> AppCandidateView {
        AppCandidateView {
            name: self.name@,
            process_name: self.process_name@,
            exe_path: match self.exe_path {
                Some(p) => Some(p@),
                None => None,
            },
            category: self.category@,
        }
    }
}

/// Name prefixes of kernel threads, daemons and shells. A process whose name
/// begins with one of them is never scanned or offered.
pub open spec fn system_prefixes() -> Seq<Seq<char>> {
    seq![
        "systemd"@,
        "kthreadd"@,
        "kworker"@,
        "ksoftirqd"@,
        "rcu_"@,
        "migration"@,
        "watchdog"@,
        "cpuhp"@,
        "kdevtmpfs"@,
        "netns"@,
        "khungtaskd"@,
        "oom_reaper"@,
        "writeback"@,
        "kcompactd"@,
        "crypto"@,
        "kblockd"@,
        "md"@,
        "kswapd"@,
        "init"@,
        "bash"@,
        "sh"@,
        "dbus"@,
        "upstart"@,
        "snapd"@,
    ]
}

/// Whether `name` begins with one of the [`system_prefixes`]. Case counts.
pub open spec fn is_system_name(name: Seq<char>) -> bool {
    exists|i: int| 0 <= i < system_prefixes().len() && (#[trigger] system_prefixes()[i]).is_prefix_of(name)
}

/// The [`system_prefixes`] as strings.
fn system_prefix_list() -> (r: Vec<&'static str>)
    ensures
        r.deep_view() == system_prefixes(),
{
    let r = vec![
        "systemd",
        "kthreadd",
        "kworker",
        "ksoftirqd",
        "rcu_",
        "migration",
        "watchdog",
        "cpuhp",
        "kdevtmpfs",
        "netns",
        "khungtaskd",
        "oom_reaper",
        "writeback",
        "kcompactd",
        "crypto",
        "kblockd",
        "md",
        "kswapd",
        "init",
        "bash",
        "sh",
        "dbus",
        "upstart",
        "snapd",
    ];
    assert(r.deep_view() =~= system_prefixes());
    r
}

/// Whether a process of this name belongs to the system.
pub fn is_system_process(name: &str) -> (r: bool)
    ensures
        r == is_system_name(name@),
{
    let prefixes = system_prefix_list();
    let chars = chars_of(name);
    let mut i: usize = 0;
    while i < prefixes.len()
        invariant
            prefixes.deep_view() == system_prefixes(),
            chars@ == name@,
            i <= prefixes.len(),
            forall|j: int| 0 <= j < i ==> !(#[trigger] system_prefixes()[j]).is_prefix_of(name@),
        decreases prefixes.len() - i,
    {
        let prefix = chars_of(prefixes[i]);
        assert(prefix@ == prefixes.deep_view()[i as int]);
        if starts_with(&chars, &prefix) {
            return true;
        }
        i += 1;
    }
    false
}

/// A character that parts the words of a process name: a hyphen, an
/// underscore or white space.
pub open spec fn is_separator(c: char) -> bool {
    c == '-' || c == '_' || whitespace(c)
}

/// The words of a process name: its longest runs of characters that are not
/// separators, in order.
pub open spec fn split_words(s: Seq<char>) -> Seq<Seq<char>>
    decreases s.len(),
{
    if s.len() == 0 {
        Seq::empty()
    } else {
        let before = split_words(s.drop_last());
        let c = s.last();
        if is_separator(c) {
            before
        } else if s.len() >= 2 && !is_separator(s[s.len() - 2]) {
            before.drop_last().push(before.last().push(c))
        } else {
            before.push(seq![c])
        }
    }
}

/// A word with its first character in upper case.
pub open spec fn capitalize(word: Seq<char>) -> Seq<char> {
    if word.len() == 0 {
        word
    } else {
        uppercase(word[0]) + word.skip(1)
    }
}

/// The words, each capitalized, with one space between neighbours.
pub open spec fn join_capitalized(words: Seq<Seq<char>>) -> Seq<char>
    decreases words.len(),
{
    if words.len() == 0 {
        Seq::empty()
    } else if words.len() == 1 {
        capitalize(words[0])
    } else {
        join_capitalized(words.drop_last()) + seq![' '] + capitalize(words.last())
    }
}

/// The name under which a process is shown: its words in title case.
pub open spec fn display_name(process_name: Seq<char>) -> Seq<char> {
    join_capitalized(split_words(process_name))
}

/// Whether `c` parts words.
fn separates(c: char) -> (r: bool)
    ensures
        r == is_separator(c),
{
    c == '-' || c == '_' || c.is_whitespace()
}

/// The name under which a process is shown: hyphens and underscores count as
/// spaces, and every word begins with a capital.
pub fn format_display_name(process_name: &str) -> (r: String)
    ensures
        r@ == display_name(process_name@),
{
    let chars = chars_of(process_name);
    let n = chars.len();
    let mut out = String::new();
    let mut first = true;
    let ghost mut words: Seq<Seq<char>> = Seq::empty();
    let mut i: usize = 0;
    assert(chars@.take(0) =~= Seq::<char>::empty());
    while i < n
        invariant
            chars@ == process_name@,
            n == chars.len(),
            i <= n,
            words == split_words(chars@.take(i as int)),
            out@ == join_capitalized(words),
            first == (words.len() == 0),
            i < n && !is_separator(chars@[i as int]) ==> i == 0 || is_separator(chars@[i - 1]),
        decreases n - i,
    {
        if separates(chars[i]) {
            assert(chars@.take(i + 1).drop_last() =~= chars@.take(i as int));
            i += 1;
        } else {
            let start = i;
            assert(chars@.take(i + 1).drop_last() =~= chars@.take(i as int));
            assert(chars@.subrange(start as int, i + 1) =~= seq![chars@[i as int]]);
            i += 1;
            while i < n && !separates(chars[i])
                invariant
                    n == chars.len(),
                    start < i <= n,
                    forall|k: int| start <= k < i ==> !is_separator(chars@[k]),
                    split_words(chars@.take(i as int)) == words.push(
                        chars@.subrange(start as int, i as int),
                    ),
                decreases n - i,
            {
                assert(chars@.take(i + 1).drop_last() =~= chars@.take(i as int));
                assert(chars@.subrange(start as int, i as int).push(chars@[i as int])
                    =~= chars@.subrange(start as int, i + 1));
                assert(words.push(chars@.subrange(start as int, i as int)).drop_last() =~= words);
                i += 1;
            }
            let ghost word = chars@.subrange(start as int, i as int);
            if !first {
                out.append(" ");
            }
            let head = upper(chars[start]);
            out.append(head.as_str());
            out.append(process_name.substring_char(start + 1, i));
            proof {
                reveal_strlit(" ");
                assert(" "@ =~= seq![' ']);
                assert(word.skip(1) =~= chars@.subrange(start + 1, i as int));
                assert(words.push(word).drop_last() =~= words);
                words = words.push(word);
            }
            first = false;
        }
    }
    assert(chars@.take(n as int) =~= chars@);
    out
}

/// What a [`ProcessMonitor`] holds, as mathematical values.
pub struct MonitorView {
    pub monitoring: bool,
    pub protected: Seq<Seq<char>>,
}

/// Whether the process falls under one of the protected names.
pub open spec fn is_protected(protected: Seq<Seq<char>>, process: ProcessInfoView) -> bool {
    exists|i: int|
        0 <= i < protected.len() && process_matches_spec(
            #[trigger] protected[i],
            process.name,
            process.exe_path,
        )
}

impl MonitorView {
    /// Whether a scan is to terminate the process: scanning is armed, the
    /// process id names a single process, the process does not belong to the
    /// system, and it falls under a protected name.
    pub open spec fn is_target(self, process: ProcessInfoView) -> bool {
        &&& self.monitoring
        &&& process.pid > 0
        &&& !is_system_name(process.name)
        &&& is_protected(self.protected, process)
    }

    /// The processes of a snapshot that a scan is to terminate, in the order
    /// of the snapshot, each as its id and name.
    pub open spec fn targets(self, processes: Seq<ProcessInfoView>) -> Seq<(i32, Seq<char>)> {
        processes.filter_map(
            |p: ProcessInfoView|
                if self.is_target(p) {
                    Some((p.pid, p.name))
                } else {
                    None
                },
        )
    }
}

/// Whether the signal for the target at `i` was delivered.
pub open spec fn delivered_at(delivered: Seq<bool>, i: int) -> bool {
    0 <= i < delivered.len() && delivered[i]
}

/// The targets whose signal was delivered, where `wanted` holds, or was
/// not, where it does not; in order. A target for which `delivered` holds
/// no answer counts as not delivered.
pub open spec fn kills_where(targets: Seq<(i32, Seq<char>)>, delivered: Seq<bool>, wanted: bool)
    -> Seq<(i32, Seq<char>)>
    decreases targets.len(),
{
    if targets.len() == 0 {
        Seq::empty()
    } else {
        let before = kills_where(targets.drop_last(), delivered, wanted);
        if delivered_at(delivered, targets.len() - 1) == wanted {
            before.push(targets.last())
        } else {
            before
        }
    }
}

/// The targets whose termination signal was delivered, in order.
pub open spec fn delivered_kills(targets: Seq<(i32, Seq<char>)>, delivered: Seq<bool>) -> Seq<
    (i32, Seq<char>),
> {
    kills_where(targets, delivered, true)
}

/// The targets whose termination signal was not delivered, in order.
pub open spec fn failed_kills(targets: Seq<(i32, Seq<char>)>, delivered: Seq<bool>) -> Seq<
    (i32, Seq<char>),
> {
    kills_where(targets, delivered, false)
}

/// What one scan did: the processes that it terminated, and the targets
/// that it could not terminate because the system refused the signal. Each
/// is given by its id and name, in the order of the snapshot.
#[derive(Debug, Clone)]
pub struct ScanOutcome {
    pub killed: Vec<(i32, String)>,
    pub failed: Vec<(i32, String)>,
}

/// `nix::sys::signal::kill` with `SIGKILL`: asks the operating system to
/// terminate the process `pid` at once, and says whether the signal was
/// delivered. Nothing is claimed of the answer, which depends on the system.
/// A `pid` of zero or below would address a group of processes or all of
/// them, so it is not admitted.
#[verifier::external_body]
fn kill_process(pid: i32) -> (delivered: bool)
    requires
        pid > 0,
{
    nix::sys::signal::kill(nix::unistd::Pid::from_raw(pid), nix::sys::signal::Signal::SIGKILL).is_ok()
}

/// Holds the names of the protected applications and the switch that arms
/// scanning.
pub struct ProcessMonitor {
    is_monitoring: bool,
    protected_processes: Vec<String>,
}

impl View for ProcessMonitor {
    type V = MonitorView;

    closed spec fn view(&self) -> MonitorView {
        MonitorView {
            monitoring: self.is_monitoring,
            protected: self.protected_processes.deep_view(),
        }
    }
}

impl ProcessMonitor {
    /// A monitor that is not armed and protects nothing.
    pub fn new() -> (r: Self)
        ensures
            r@ == (MonitorView { monitoring: false, protected: Seq::empty() }),
    {
        let r = ProcessMonitor { is_monitoring: false, protected_processes: Vec::new() };
        assert(r.protected_processes.deep_view() =~= Seq::<Seq<char>>::empty());
        r
    }

    /// Arms or disarms scanning.
    pub fn set_monitoring(&mut self, enabled: bool)
        ensures
            final(self)@ == (MonitorView { monitoring: enabled, ..old(self)@ }),
    {
        self.is_monitoring = enabled;
    }

    /// Whether scanning is armed.
    pub fn is_monitoring(&self) -> (r: bool)
        ensures
            r == self@.monitoring,
    {
        self.is_monitoring
    }

    /// Replaces the protected names by `processes`, whole.
    pub fn update_protected_processes(&mut self, processes: Vec<String>)
        ensures
            final(self)@ == (MonitorView { protected: processes.deep_view(), ..old(self)@ }),
    {
        self.protected_processes = processes;
    }

    /// Whether the process falls under one of the protected names.
    pub fn is_protected_process(&self, process: &ProcessInfo) -> (r: bool)
        ensures
            r == is_protected(self@.protected, process.deep_view()),
    {
        let mut i: usize = 0;
        while i < self.protected_processes.len()
            invariant
                i <= self.protected_processes.len(),
                forall|j: int|
                    0 <= j < i ==> !process_matches_spec(
                        #[trigger] self@.protected[j],
                        process.deep_view().name,
                        process.deep_view().exe_path,
                    ),
            decreases self.protected_processes.len() - i,
        {
            assert(self@.protected[i as int] == self.protected_processes[i as int]@);
            if process_matches(
                self.protected_processes[i].as_str(),
                process.name.as_str(),
                &process.exe_path,
            ) {
                return true;
            }
            i += 1;
        }
        false
    }

    /// The processes of the snapshot that a scan is to terminate: none while
    /// scanning is not armed, else those that fall under a protected name
    /// and do not belong to the system.
    pub fn find_targets(&self, processes: &Vec<ProcessInfo>) -> (r: Vec<(i32, String)>)
        ensures
            r.deep_view() == self@.targets(processes.deep_view()),
    {
        let mut r: Vec<(i32, String)> = Vec::new();
        let ghost pick = |p: ProcessInfoView|
            if self@.is_target(p) {
                Some((p.pid, p.name))
            } else {
                None
            };
        let mut i: usize = 0;
        assert(processes.deep_view().take(0) =~= Seq::empty());
        assert(r.deep_view() =~= Seq::empty());
        while i < processes.len()
            invariant
                i <= processes.len(),
                pick == |p: ProcessInfoView|
                    if self@.is_target(p) {
                        Some((p.pid, p.name))
                    } else {
                        None
                    },
                r.deep_view() == processes.deep_view().take(i as int).filter_map(pick),
            decreases processes.len() - i,
        {
            let process = &processes[i];
            proof {
                processes.deep_view().lemma_filter_map_take_succ(pick, i as int);
                assert(processes.deep_view()[i as int] == process.deep_view());
            }
            let ghost before = r.deep_view();
            if self.is_monitoring && process.pid > 0 && !is_system_process(process.name.as_str())
                && self.is_protected_process(process) {
                r.push((process.pid, process.name.clone()));
                assert(r.deep_view() =~= before.push((process.pid, process.name@)));
            }
            i += 1;
        }
        assert(processes.deep_view().take(processes.len() as int) =~= processes.deep_view());
        r
    }

    /// One scan of a snapshot: sends the termination signal to every target
    /// and reports, in the order of the snapshot, those to which it was
    /// delivered and those to which it was not. An undelivered signal does
    /// not end the scan.
    pub fn scan(&self, processes: &Vec<ProcessInfo>) -> (outcome: ScanOutcome)
        ensures
            exists|delivered: Seq<bool>|
                delivered.len() == self@.targets(processes.deep_view()).len()
                    && outcome.killed.deep_view() == #[trigger] delivered_kills(
                    self@.targets(processes.deep_view()),
                    delivered,
                ) && outcome.failed.deep_view() == failed_kills(
                    self@.targets(processes.deep_view()),
                    delivered,
                ),
            !self@.monitoring ==> outcome.killed.deep_view() == Seq::<(i32, Seq<char>)>::empty()
                && outcome.failed.deep_view() == Seq::<(i32, Seq<char>)>::empty(),
    {
        let targets = self.find_targets(processes);
        let mut delivered: Vec<bool> = Vec::new();
        let mut i: usize = 0;
        while i < targets.len()
            invariant
                i <= targets.len(),
                delivered.len() == i,
                targets.deep_view() == self@.targets(processes.deep_view()),
            decreases targets.len() - i,
        {
            proof {
                lemma_targets_are_the_protected(self@, processes.deep_view());
                assert(targets.deep_view().contains(targets.deep_view()[i as int]));
                assert(targets.deep_view()[i as int].0 == targets[i as int].0);
            }
            delivered.push(kill_process(targets[i].0));
            i += 1;
        }
        let killed = report_kills(&targets, &delivered);
        let failed = report_failures(&targets, &delivered);
        proof {
            lemma_targets_are_the_protected(self@, processes.deep_view());
            assert(delivered@.len() == self@.targets(processes.deep_view()).len());
        }
        ScanOutcome { killed, failed }
    }

    /// One scan of a snapshot: sends the termination signal to every target
    /// and reports those to which it was delivered, in the order of the
    /// snapshot. [`ProcessMonitor::scan`] also reports the others.
    pub fn check_and_kill_protected(&self, processes: &Vec<ProcessInfo>) -> (killed: Vec<
        (i32, String),
    >)
        ensures
            exists|delivered: Seq<bool>|
                delivered.len() == self@.targets(processes.deep_view()).len()
                    && killed.deep_view() == #[trigger] delivered_kills(
                    self@.targets(processes.deep_view()),
                    delivered,
                ),
            !self@.monitoring ==> killed.deep_view() == Seq::<(i32, Seq<char>)>::empty(),
    {
        self.scan(processes).killed
    }
}

/// The targets whose signal was delivered, where `wanted` holds, or was not,
/// where it does not.
fn select_kills(targets: &Vec<(i32, String)>, delivered: &Vec<bool>, wanted: bool) -> (r: Vec<
    (i32, String),
>)
    ensures
        r.deep_view() == kills_where(targets.deep_view(), delivered@, wanted),
{
    let mut r: Vec<(i32, String)> = Vec::new();
    let mut i: usize = 0;
    assert(targets.deep_view().take(0) =~= Seq::empty());
    assert(r.deep_view() =~= Seq::empty());
    while i < targets.len()
        invariant
            i <= targets.len(),
            r.deep_view() == kills_where(targets.deep_view().take(i as int), delivered@, wanted),
        decreases targets.len() - i,
    {
        let ghost before = r.deep_view();
        assert(targets.deep_view().take(i + 1).drop_last() =~= targets.deep_view().take(i as int));
        assert(targets.deep_view().take(i + 1).last() == (targets[i as int].0, targets[i as int].1@));
        let answer = i < delivered.len() && delivered[i];
        if answer == wanted {
            r.push((targets[i].0, targets[i].1.clone()));
            assert(r.deep_view() =~= before.push((targets[i as int].0, targets[i as int].1@)));
        }
        i += 1;
    }
    assert(targets.deep_view().take(targets.len() as int) =~= targets.deep_view());
    r
}

/// The targets to which the termination signal was delivered, given the
/// answer for each target in order.
pub fn report_kills(targets: &Vec<(i32, String)>, delivered: &Vec<bool>) -> (killed: Vec<
    (i32, String),
>)
    ensures
        killed.deep_view() == delivered_kills(targets.deep_view(), delivered@),
{
    select_kills(targets, delivered, true)
}

/// The targets to which the termination signal was not delivered, given
/// the answer for each target in order. A target without an answer is among
/// them.
pub fn report_failures(targets: &Vec<(i32, String)>, delivered: &Vec<bool>) -> (failed: Vec<
    (i32, String),
>)
    ensures
        failed.deep_view() == failed_kills(targets.deep_view(), delivered@),
{
    select_kills(targets, delivered, false)
}

/// One scan reaches every protected process of the snapshot and nothing
/// else: each target stands for a process that is to be terminated, and
/// each such process is among the targets.
pub proof fn lemma_targets_are_the_protected(monitor: MonitorView, processes: Seq<ProcessInfoView>)
    ensures
        forall|i: int|
            0 <= i < processes.len() && monitor.is_target(#[trigger] processes[i])
                ==> monitor.targets(processes).contains((processes[i].pid, processes[i].name)),
        forall|t: (i32, Seq<char>)| #[trigger]
            monitor.targets(processes).contains(t) ==> exists|i: int|
                0 <= i < processes.len() && monitor.is_target(#[trigger] processes[i]) && t == (
                    processes[i].pid,
                    processes[i].name,
                ),
        !monitor.monitoring ==> monitor.targets(processes) == Seq::<(i32, Seq<char>)>::empty(),
    decreases processes.len(),
{
    let pick = |p: ProcessInfoView|
        if monitor.is_target(p) {
            Some((p.pid, p.name))
        } else {
            None
        };
    if processes.len() > 0 {
        let head = processes.drop_last();
        let last = processes.last();
        lemma_targets_are_the_protected(monitor, head);
        assert(monitor.targets(processes) == if monitor.is_target(last) {
            monitor.targets(head) + seq![(last.pid, last.name)]
        } else {
            monitor.targets(head)
        });
        assert forall|i: int|
            0 <= i < processes.len() && monitor.is_target(
                #[trigger] processes[i],
            ) implies monitor.targets(processes).contains((processes[i].pid, processes[i].name)) by {
            if i < head.len() {
                assert(head[i] == processes[i]);
                let k = choose|k: int|
                    0 <= k < monitor.targets(head).len() && monitor.targets(head)[k] == (
                        processes[i].pid,
                        processes[i].name,
                    );
                assert(monitor.targets(processes)[k] == (processes[i].pid, processes[i].name));
            } else {
                assert(monitor.targets(processes)[monitor.targets(head).len() as int] == (
                    last.pid,
                    last.name,
                ));
            }
        }
        assert forall|t: (i32, Seq<char>)| #[trigger]
            monitor.targets(processes).contains(t) implies exists|i: int|
            0 <= i < processes.len() && monitor.is_target(#[trigger] processes[i]) && t == (
                processes[i].pid,
                processes[i].name,
            ) by {
            let k = choose|k: int|
                0 <= k < monitor.targets(processes).len() && monitor.targets(processes)[k] == t;
            if k < monitor.targets(head).len() {
                assert(monitor.targets(head)[k] == t);
                assert(monitor.targets(head).contains(t));
                let i = choose|i: int|
                    0 <= i < head.len() && monitor.is_target(#[trigger] head[i]) && t == (
                        head[i].pid,
                        head[i].name,
                    );
                assert(processes[i] == head[i]);
            } else {
                assert(processes[processes.len() - 1] == last);
            }
        }
        if !monitor.monitoring {
            assert(monitor.targets(processes) =~= Seq::<(i32, Seq<char>)>::empty());
        }
    } else {
        assert(monitor.targets(processes) =~= Seq::<(i32, Seq<char>)>::empty());
    }
}

/// Every target is reported once, as terminated or as failed: where every
/// signal was delivered, all are terminated; where none was, all have
/// failed.
pub proof fn lemma_delivered_kills(targets: Seq<(i32, Seq<char>)>, delivered: Seq<bool>)
    ensures
        delivered_kills(targets, delivered).len() + failed_kills(targets, delivered).len()
            == targets.len(),
        (forall|i: int| 0 <= i < targets.len() ==> #[trigger] delivered_at(delivered, i)) ==> {
            &&& delivered_kills(targets, delivered) == targets
            &&& failed_kills(targets, delivered) == Seq::<(i32, Seq<char>)>::empty()
        },
        (forall|i: int| 0 <= i < targets.len() ==> !#[trigger] delivered_at(delivered, i)) ==> {
            &&& delivered_kills(targets, delivered) == Seq::<(i32, Seq<char>)>::empty()
            &&& failed_kills(targets, delivered) == targets
        },
    decreases targets.len(),
{
    if targets.len() > 0 {
        let head = targets.drop_last();
        lemma_delivered_kills(head, delivered);
        assert(head.push(targets.last()) =~= targets);
        if forall|i: int| 0 <= i < targets.len() ==> #[trigger] delivered_at(delivered, i) {
            assert(delivered_at(delivered, targets.len() - 1));
        }
        if forall|i: int| 0 <= i < targets.len() ==> !#[trigger] delivered_at(delivered, i) {
            assert(!delivered_at(delivered, targets.len() - 1));
        }
    } else {
        assert(targets =~= Seq::<(i32, Seq<char>)>::empty());
    }
}

} // verus!
