//! Diagnostic lookup of processes by package name.
//!
//! The shell enumerates the operating system's process directories and
//! reads each one's command-line pseudo-file, handing this module one
//! snapshot per entry: the PID and, if the file was readable, its
//! contents. An entry whose command line exactly equals the package name
//! is a match; an entry that vanished or was unreadable mid-enumeration
//! is skipped, never fatal. The result feeds one diagnostic log line and
//! gates nothing.

use vstd::prelude::*;

verus! {

/// A point-in-time snapshot of one process directory entry: its PID and,
/// when the metadata file was readable, the reported command line.
pub struct ProcessEntry {
    pub pid: i64,
    pub cmdline: Option<String>,
}

impl ProcessEntry {
    /// The entry was readable and its command line equals the package name.
    pub open spec fn matches(self, package: Seq<char>) -> bool {
        match self.cmdline {
            Some(c) => c@ == package,
            None => false,
        }
    }
}

/// The PIDs of the entries that match the package name, in enumeration
/// order; unreadable entries contribute nothing.
pub open spec fn located_pids(entries: Seq<ProcessEntry>, package: Seq<char>) -> Seq<i64>
    decreases entries.len(),
{
    if entries.len() == 0 {
        Seq::empty()
    } else if entries[0].matches(package) {
        seq![entries[0].pid] + located_pids(entries.drop_first(), package)
    } else {
        located_pids(entries.drop_first(), package)
    }
}

/// Scanning one more entry extends the result by that entry's PID exactly
/// when it matches.
proof fn lemma_located_pids_push(entries: Seq<ProcessEntry>, entry: ProcessEntry, package: Seq<char>)
    ensures
        located_pids(entries.push(entry), package) == if entry.matches(package) {
            located_pids(entries, package).push(entry.pid)
        } else {
            located_pids(entries, package)
        },
    decreases entries.len(),
{
    let whole = entries.push(entry);
    let rest = located_pids(entries, package);
    if entries.len() == 0 {
        assert(whole[0] == entry);
        assert(whole.drop_first() =~= Seq::<ProcessEntry>::empty());
        assert(located_pids(whole.drop_first(), package) =~= Seq::<i64>::empty());
        assert(rest =~= Seq::<i64>::empty());
        if entry.matches(package) {
            assert(located_pids(whole, package) == seq![entry.pid] + located_pids(
                whole.drop_first(),
                package,
            ));
            assert(seq![entry.pid] + located_pids(whole.drop_first(), package) =~= rest.push(
                entry.pid,
            ));
        } else {
            assert(located_pids(whole, package) == located_pids(whole.drop_first(), package));
        }
    } else {
        assert(whole[0] == entries[0]);
        assert(whole.drop_first() =~= entries.drop_first().push(entry));
        lemma_located_pids_push(entries.drop_first(), entry, package);
        let sub = located_pids(entries.drop_first(), package);
        assert(located_pids(whole.drop_first(), package) == located_pids(
            entries.drop_first().push(entry),
            package,
        ));
        if entries[0].matches(package) {
            assert(located_pids(whole, package) == seq![entries[0].pid] + located_pids(
                whole.drop_first(),
                package,
            ));
            assert(rest == seq![entries[0].pid] + sub);
            if entry.matches(package) {
                assert(seq![entries[0].pid] + sub.push(entry.pid) =~= (seq![entries[0].pid]
                    + sub).push(entry.pid));
            }
        } else {
            assert(located_pids(whole, package) == located_pids(whole.drop_first(), package));
            assert(rest == sub);
        }
    }
}

/// Collects the PIDs of the snapshots whose command line exactly equals
/// the package name, in enumeration order. Unreadable entries are
/// skipped; they never abort the scan.
pub fn locate_processes(entries: &Vec<ProcessEntry>, package: &String) -> (pids: Vec<i64>)
    ensures
        pids@ == located_pids(entries@, package@),
{
    let mut pids: Vec<i64> = Vec::new();
    let mut i: usize = 0;
    proof {
        assert(entries@.take(0) =~= Seq::<ProcessEntry>::empty());
    }
    while i < entries.len()
        invariant
            i <= entries@.len(),
            pids@ == located_pids(entries@.take(i as int), package@),
        decreases entries@.len() - i,
    {
        let entry = &entries[i];
        let matched = match &entry.cmdline {
            Some(c) => *c == *package,
            None => false,
        };
        if matched {
            pids.push(entry.pid);
        }
        proof {
            lemma_located_pids_push(entries@.take(i as int), entries@[i as int], package@);
            assert(entries@.take(i + 1) =~= entries@.take(i as int).push(entries@[i as int]));
        }
        i = i + 1;
    }
    proof {
        assert(entries@.take(entries@.len() as int) =~= entries@);
    }
    pids
}

/// An unreadable entry is skipped, not fatal: removing it from the
/// snapshot sequence leaves the located PIDs unchanged, so the scan
/// returns the matches from the remaining readable entries.
pub proof fn lemma_unreadable_entry_skipped(
    entries: Seq<ProcessEntry>,
    package: Seq<char>,
    i: int,
)
    requires
        0 <= i < entries.len(),
        entries[i].cmdline is None,
    ensures
        located_pids(entries, package) == located_pids(entries.remove(i), package),
    decreases entries.len(),
{
    if i == 0 {
        assert(entries.remove(0) =~= entries.drop_first());
        assert(!entries[0].matches(package));
    } else {
        assert(entries.remove(i).drop_first() =~= entries.drop_first().remove(i - 1));
        lemma_unreadable_entry_skipped(entries.drop_first(), package, i - 1);
        assert(entries.remove(i)[0] == entries[0]);
    }
}

} // verus!
