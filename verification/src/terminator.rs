//! Process-tree terminator: from a snapshot of the OS process table, compute
//! the kill-candidate set of a root process (every descendant, then the root
//! itself), and signal it in two passes — graceful terminate, then, after a
//! grace period the caller inserts, a forced kill of whatever is still alive.

use vstd::prelude::*;

verus! {

/// One row of a process-table snapshot: a process id and, when the platform
/// reports one, its parent's id.
#[derive(Debug, Clone, Copy, PartialEq, Eq)]
pub struct ProcessEntry {
    pub pid: u32,
    pub parent_pid: Option<u32>,
}

/// Which signal a termination pass sends.
#[derive(Debug, Clone, Copy, PartialEq, Eq, Structural)]
pub enum SignalKind {
    /// The graceful terminate/interrupt signal of the first pass.
    Terminate,
    /// The hard kill signal of the second pass.
    ForceKill,
}

/// `p` belongs to the process tree of `root` with a parent chain of length at
/// most `fuel`: either `p` is the root, or some snapshot entry for `p` names a
/// parent that reaches the root with less fuel.
pub open spec fn reaches_root(snap: Seq<ProcessEntry>, root: u32, p: u32, fuel: nat) -> bool
    decreases fuel,
{
    if p == root {
        true
    } else {
        fuel > 0 && exists|i: int, pp: u32|
            0 <= i < snap.len() && snap[i].pid == p && snap[i].parent_pid == Some(pp)
                && reaches_root(snap, root, pp, (fuel - 1) as nat)
    }
}

/// `p` is the root or a descendant of the root in the snapshot.
pub open spec fn in_process_tree(snap: Seq<ProcessEntry>, root: u32, p: u32) -> bool {
    exists|fuel: nat| reaches_root(snap, root, p, fuel)
}

/// Every pid listed is a strict descendant of the root.
pub open spec fn all_strict_descendants(snap: Seq<ProcessEntry>, root: u32, s: Seq<u32>) -> bool {
    forall|k: int|
        0 <= k < s.len() ==> #[trigger] s[k] != root && in_process_tree(snap, root, s[k])
}

/// No pid is listed twice.
pub open spec fn no_duplicates(s: Seq<u32>) -> bool {
    forall|j: int, k: int| 0 <= j < k < s.len() ==> s[j] != s[k]
}

/// Among the first `upto` snapshot entries, every child of the root or of a
/// listed pid is itself listed (the root is carried separately).
pub open spec fn children_listed(snap: Seq<ProcessEntry>, root: u32, s: Seq<u32>, upto: int) -> bool {
    forall|i: int|
        #![trigger snap[i].parent_pid]
        0 <= i < upto ==> ((snap[i].parent_pid matches Some(pp) && (pp == root || s.contains(pp))
            && snap[i].pid != root) ==> s.contains(snap[i].pid))
}

/// A snapshot entry whose parent is in the process tree puts its own pid in
/// the process tree.
proof fn lemma_child_in_tree(snap: Seq<ProcessEntry>, root: u32, i: int, pp: u32)
    requires
        0 <= i < snap.len(),
        snap[i].parent_pid == Some(pp),
        in_process_tree(snap, root, pp),
    ensures
        in_process_tree(snap, root, snap[i].pid),
{
    let fuel = choose|fuel: nat| reaches_root(snap, root, pp, fuel);
    if snap[i].pid == root {
        assert(reaches_root(snap, root, snap[i].pid, 0));
    } else {
        assert(reaches_root(snap, root, snap[i].pid, fuel + 1)) by {
            assert(0 <= i < snap.len() && snap[i].pid == snap[i].pid && snap[i].parent_pid
                == Some(pp) && reaches_root(snap, root, pp, fuel));
        }
    }
}

proof fn lemma_reaches_covered(snap: Seq<ProcessEntry>, root: u32, s: Seq<u32>, p: u32, fuel: nat)
    requires
        s.contains(root),
        forall|i: int|
            #![trigger snap[i].parent_pid]
            0 <= i < snap.len() ==> ((snap[i].parent_pid matches Some(pp) && s.contains(pp))
                ==> s.contains(snap[i].pid)),
        reaches_root(snap, root, p, fuel),
    ensures
        s.contains(p),
    decreases fuel,
{
    if p != root {
        let (i, pp) = choose|i: int, pp: u32|
            0 <= i < snap.len() && snap[i].pid == p && snap[i].parent_pid == Some(pp)
                && reaches_root(snap, root, pp, (fuel - 1) as nat);
        lemma_reaches_covered(snap, root, s, pp, (fuel - 1) as nat);
        assert(s.contains(snap[i].pid));
    }
}

/// A set of pids that contains the root and is closed under the parent-child
/// relation of a snapshot covers the root's whole process tree: after a
/// teardown that signals every listed pid, no descendant of the root was left
/// out of the kill-candidate set.
pub proof fn lemma_closed_set_covers_tree(snap: Seq<ProcessEntry>, root: u32, s: Seq<u32>)
    requires
        s.contains(root),
        forall|i: int|
            #![trigger snap[i].parent_pid]
            0 <= i < snap.len() ==> ((snap[i].parent_pid matches Some(pp) && s.contains(pp))
                ==> s.contains(snap[i].pid)),
    ensures
        forall|p: u32| in_process_tree(snap, root, p) ==> s.contains(p),
{
    assert forall|p: u32| in_process_tree(snap, root, p) implies s.contains(p) by {
        let fuel = choose|fuel: nat| reaches_root(snap, root, p, fuel);
        lemma_reaches_covered(snap, root, s, p, fuel);
    }
}

/// Whether a pid is already listed.
fn contains_pid(v: &Vec<u32>, x: u32) -> (b: bool)
    ensures
        b == v@.contains(x),
{
    let mut i: usize = 0;
    while i < v.len()
        invariant
            0 <= i <= v@.len(),
            forall|k: int| 0 <= k < i ==> v@[k] != x,
        decreases v@.len() - i,
    {
        if v[i] == x {
            assert(v@[i as int] == x);
            return true;
        }
        i += 1;
    }
    false
}

/// Collect every descendant of `parent_pid` in the snapshot: the returned
/// list holds strict descendants only, without duplicates, and is closed —
/// every child of the root or of a listed pid is listed, so (by
/// `lemma_closed_set_covers_tree`) the whole tree is covered once the root is
/// appended.
pub fn collect_child_processes(snapshot: &Vec<ProcessEntry>, parent_pid: u32) -> (descendants: Vec<
    u32,
>)
    ensures
        all_strict_descendants(snapshot@, parent_pid, descendants@),
        no_duplicates(descendants@),
        children_listed(snapshot@, parent_pid, descendants@, snapshot@.len() as int),
{
    let mut result: Vec<u32> = Vec::new();
    // Each listed pid is charged to the snapshot index that introduced it;
    // the set of charged indices bounds the list's length by the snapshot's,
    // which bounds the rounds of the closure loop.
    let ghost mut used: Set<int> = Set::empty();
    loop
        invariant
            all_strict_descendants(snapshot@, parent_pid, result@),
            no_duplicates(result@),
            used.finite(),
            used.len() == result@.len(),
            forall|idx: int| #[trigger]
                used.contains(idx) ==> 0 <= idx < snapshot@.len() && result@.contains(
                    snapshot@[idx].pid,
                ),
            result@.len() <= snapshot@.len(),
        decreases snapshot@.len() + 1 - result@.len(),
    {
        let ghost round_start_len = result@.len();
        let mut changed = false;
        let mut i: usize = 0;
        while i < snapshot.len()
            invariant
                0 <= i <= snapshot@.len(),
                all_strict_descendants(snapshot@, parent_pid, result@),
                no_duplicates(result@),
                used.finite(),
                used.len() == result@.len(),
                forall|idx: int| #[trigger]
                    used.contains(idx) ==> 0 <= idx < snapshot@.len() && result@.contains(
                        snapshot@[idx].pid,
                    ),
                result@.len() <= snapshot@.len(),
                result@.len() >= round_start_len,
                changed ==> result@.len() > round_start_len,
                !changed ==> children_listed(snapshot@, parent_pid, result@, i as int),
            decreases snapshot@.len() - i,
        {
            let entry = snapshot[i];
            match entry.parent_pid {
                Some(pp) => {
                    if entry.pid != parent_pid && (pp == parent_pid || contains_pid(&result, pp))
                        && !contains_pid(&result, entry.pid) {
                        proof {
                            if pp == parent_pid {
                                assert(reaches_root(snapshot@, parent_pid, pp, 0));
                            } else {
                                let k = choose|k: int| 0 <= k < result@.len() && result@[k] == pp;
                                assert(in_process_tree(snapshot@, parent_pid, pp));
                            }
                            lemma_child_in_tree(snapshot@, parent_pid, i as int, pp);
                        }
                        let ghost prev = result@;
                        result.push(entry.pid);
                        proof {
                            assert(!used.contains(i as int));
                            used = used.insert(i as int);
                            assert forall|idx: int| #[trigger]
                                used.contains(idx) implies 0 <= idx < snapshot@.len()
                                && result@.contains(snapshot@[idx].pid) by {
                                if idx == i as int {
                                    assert(result@[prev.len() as int] == snapshot@[idx].pid);
                                } else {
                                    let k = choose|k: int|
                                        0 <= k < prev.len() && prev[k] == snapshot@[idx].pid;
                                    assert(result@[k] == snapshot@[idx].pid);
                                }
                            }
                            assert(used.subset_of(
                                vstd::set_lib::set_int_range(0, snapshot@.len() as int),
                            ));
                            vstd::set_lib::lemma_int_range(0, snapshot@.len() as int);
                            vstd::set_lib::lemma_len_subset(
                                used,
                                vstd::set_lib::set_int_range(0, snapshot@.len() as int),
                            );
                        }
                        changed = true;
                    }
                },
                None => {},
            }
            i += 1;
        }
        if !changed {
            return result;
        }
    }
}

#[verifier::external_type_specification]
#[verifier::external_body]
pub struct ExSystem(sysinfo::System);

#[verifier::external_type_specification]
#[verifier::external_body]
pub struct ExProcess(sysinfo::Process);

/// Relies on sysinfo::System::new: a process-table holder with nothing loaded
/// yet; a refresh fills it.
#[verifier::external_body]
fn system_new() -> sysinfo::System {
    sysinfo::System::new()
}

/// Relies on sysinfo::System::refresh_all: reloads the process table from the
/// OS, dropping processes that have exited since the last refresh.
#[verifier::external_body]
fn system_refresh_all(sys: &mut sysinfo::System) {
    sys.refresh_all();
}

/// Relies on sysinfo::System::processes and sysinfo::Process::parent: the
/// refreshed process table, each process converted to its pid and its
/// parent's pid. What the table holds depends on the machine at the moment of
/// the refresh, so nothing is promised of the entries.
#[verifier::external_body]
fn system_process_entries(sys: &sysinfo::System) -> Vec<ProcessEntry> {
    let mut entries = Vec::new();
    for (pid, process) in sys.processes() {
        entries.push(ProcessEntry {
            pid: pid.as_u32(),
            parent_pid: process.parent().map(|pp| pp.as_u32()),
        });
    }
    entries
}

/// Relies on sysinfo::System::process: looks the pid up in the loaded table;
/// None when no such process is (or was, at refresh time) present.
#[verifier::external_body]
fn process_lookup<'a>(sys: &'a sysinfo::System, pid: u32) -> Option<&'a sysinfo::Process> {
    sys.process(sysinfo::Pid::from_u32(pid))
}

/// Relies on sysinfo::Process::kill_with: sends the terminate or the kill
/// signal, best effort. The result (unsupported signal, or a process that
/// already exited) is deliberately ignored: signaling an absent process is a
/// no-op here, never a failure.
#[verifier::external_body]
fn process_send_signal(process: &sysinfo::Process, kind: SignalKind) {
    let signal = match kind {
        SignalKind::Terminate => sysinfo::Signal::Term,
        SignalKind::ForceKill => sysinfo::Signal::Kill,
    };
    let _ = process.kill_with(signal);
}

/// One signaling pass: send the given signal to every kill candidate still
/// present in the loaded process table, ignoring the ones already gone.
pub fn signal_candidates(sys: &sysinfo::System, pids: &Vec<u32>, kind: SignalKind) {
    let mut i: usize = 0;
    while i < pids.len()
        decreases pids@.len() - i,
    {
        match process_lookup(sys, pids[i]) {
            Some(process) => process_send_signal(process, kind),
            None => {},
        }
        i += 1;
    }
}

/// First phase of tree termination: snapshot the process table, compute the
/// kill-candidate set — every descendant of the root in the snapshot, then
/// the root itself — and send every candidate the graceful terminate signal.
/// The caller waits the grace period, then calls `kill_process_tree_finish`
/// with the snapshot holder and the candidate set.
///
/// The returned candidate set is sound (root or descendants only, no
/// duplicates, root last) and complete: every pid of the returned snapshot
/// whose parent chain leads to the root is in it.
pub fn kill_process_tree_begin(root_pid: u32) -> (r: (sysinfo::System, Vec<ProcessEntry>, Vec<u32>))
    ensures
        r.2@.len() >= 1,
        r.2@.last() == root_pid,
        forall|k: int| 0 <= k < r.2@.len() ==> in_process_tree(r.1@, root_pid, #[trigger] r.2@[k]),
        no_duplicates(r.2@),
        forall|p: u32| in_process_tree(r.1@, root_pid, p) ==> r.2@.contains(p),
{
    let mut sys = system_new();
    system_refresh_all(&mut sys);
    let snapshot = system_process_entries(&sys);
    let mut candidates = collect_child_processes(&snapshot, root_pid);
    let ghost descendants = candidates@;
    candidates.push(root_pid);
    proof {
        assert(candidates@.last() == root_pid);
        assert(candidates@.contains(root_pid)) by {
            assert(candidates@[descendants.len() as int] == root_pid);
        }
        assert(reaches_root(snapshot@, root_pid, root_pid, 0));
        assert forall|k: int| 0 <= k < candidates@.len() implies in_process_tree(
            snapshot@,
            root_pid,
            #[trigger] candidates@[k],
        ) by {
            if k < descendants.len() {
                assert(candidates@[k] == descendants[k]);
            }
        }
        assert forall|i: int|
            0 <= i < snapshot@.len() && (#[trigger] snapshot@[i].parent_pid matches Some(pp)
                && candidates@.contains(pp)) implies candidates@.contains(snapshot@[i].pid) by {
            let ppv = snapshot@[i].parent_pid->0;
            if snapshot@[i].pid == root_pid {
            } else {
                if ppv != root_pid {
                    let k = choose|k: int| 0 <= k < candidates@.len() && candidates@[k] == ppv;
                    assert(k < descendants.len());
                    assert(descendants.contains(ppv)) by {
                        assert(descendants[k] == ppv);
                    }
                }
                assert(descendants.contains(snapshot@[i].pid));
                let k2 = choose|k2: int|
                    0 <= k2 < descendants.len() && descendants[k2] == snapshot@[i].pid;
                assert(candidates@[k2] == snapshot@[i].pid);
            }
        }
        lemma_closed_set_covers_tree(snapshot@, root_pid, candidates@);
    }
    signal_candidates(&sys, &candidates, SignalKind::Terminate);
    (sys, snapshot, candidates)
}

/// Second phase of tree termination, after the grace period: reload the
/// process table and hard-kill every kill candidate still alive.
pub fn kill_process_tree_finish(sys: &mut sysinfo::System, pids: &Vec<u32>) {
    system_refresh_all(sys);
    signal_candidates(sys, pids, SignalKind::ForceKill);
}

} // verus!
