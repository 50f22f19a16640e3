//! The trash monitor: the rule by which entries sink into the trash and come
//! back out of it.
//!
//! The monitor runs one pass when it starts and one every twelve hours. A pass
//! is two bulk updates, first the sink, then the restore. The store carries
//! them out; this module states what they do to an entry.

use crate::types::{Id, Vote};
use vstd::prelude::*;

verus! {

/// Seconds between two passes.
pub const PERIOD_SECS: u64 = 12 * 60 * 60;

/// An entry is judged from this age in days on.
pub const MIN_AGE_DAYS: i64 = 2;

/// An entry needs this many yes votes to stay out of the trash.
pub const MIN_YES_VOTES: i64 = 4;

/// What a pass reads of an entry: its trash flag, its age in whole days, and
/// how many fake and yes votes it has.
#[derive(Clone, Copy, Debug, PartialEq, Eq, Structural)]
pub struct Entry {
    pub id: Id,
    pub trash: bool,
    pub age_days: i64,
    pub fake_votes: i64,
    pub yes_votes: i64,
}

/// Whether the votes on an entry speak against it: more fake votes than yes
/// votes, or fewer yes votes than it needs.
pub open spec fn disputed(entry: Entry) -> bool {
    entry.fake_votes > entry.yes_votes || entry.yes_votes < MIN_YES_VOTES
}

/// Whether the sink moves an entry to the trash.
pub open spec fn sinks(entry: Entry) -> bool {
    !entry.trash && entry.age_days >= MIN_AGE_DAYS && disputed(entry)
}

/// Whether the restore takes an entry out of the trash.
pub open spec fn restores(entry: Entry) -> bool {
    entry.trash && !disputed(entry)
}

/// An entry after the sink.
pub open spec fn after_sink(entry: Entry) -> Entry {
    if sinks(entry) {
        Entry { trash: true, ..entry }
    } else {
        entry
    }
}

/// An entry after the restore.
pub open spec fn after_restore(entry: Entry) -> Entry {
    if restores(entry) {
        Entry { trash: false, ..entry }
    } else {
        entry
    }
}

/// An entry after one pass: the sink, then the restore.
pub open spec fn after_pass(entry: Entry) -> Entry {
    after_restore(after_sink(entry))
}

/// An entry after a number of passes, with its votes and its age as they were.
pub open spec fn after_passes(entry: Entry, passes: nat) -> Entry
    decreases passes,
{
    if passes == 0 {
        entry
    } else {
        after_pass(after_passes(entry, (passes - 1) as nat))
    }
}

/// How many entries of a table satisfy a condition.
pub open spec fn count(entries: Seq<Entry>, condition: spec_fn(Entry) -> bool) -> nat
    decreases entries.len(),
{
    if entries.len() == 0 {
        0
    } else {
        count(entries.drop_last(), condition) + if condition(entries.last()) {
            1nat
        } else {
            0nat
        }
    }
}

/// The two numbers that the sink statement is bound to: the codes of the fake
/// vote and of the yes vote, in this order. The restore statement takes the
/// same.
pub fn vote_bindings() -> (codes: (i32, i32))
    ensures
        codes.0 == Vote::Fake.spec_code(),
        codes.1 == Vote::Yes.spec_code(),
{
    (Vote::Fake.code(), Vote::Yes.code())
}

/// Tells whether the sink moves an entry to the trash.
pub fn should_sink(entry: &Entry) -> (res: bool)
    ensures
        res == sinks(*entry),
{
    !entry.trash && entry.age_days >= MIN_AGE_DAYS && (entry.fake_votes > entry.yes_votes
        || entry.yes_votes < MIN_YES_VOTES)
}

/// Tells whether the restore takes an entry out of the trash.
pub fn should_restore(entry: &Entry) -> (res: bool)
    ensures
        res == restores(*entry),
{
    entry.trash && entry.fake_votes <= entry.yes_votes && entry.yes_votes >= MIN_YES_VOTES
}

/// The sink on a table: every entry that sinks goes to the trash. Returns how
/// many went.
pub fn sink(entries: &mut Vec<Entry>) -> (moved: usize)
    ensures
        final(entries)@ == old(entries)@.map_values(|e: Entry| after_sink(e)),
        moved == count(old(entries)@, |e: Entry| sinks(e)),
{
    let mut moved: usize = 0;
    let mut i: usize = 0;
    while i < entries.len()
        invariant
            i <= entries.len(),
            entries.len() == old(entries).len(),
            moved <= i,
            moved == count(old(entries)@.take(i as int), |e: Entry| sinks(e)),
            forall|k: int| 0 <= k < i ==> #[trigger] entries[k] == after_sink(old(entries)[k]),
            forall|k: int| i <= k < entries.len() ==> #[trigger] entries[k] == old(entries)[k],
        decreases entries.len() - i,
    {
        let entry = entries[i];
        proof {
            assert(old(entries)@.take(i + 1).drop_last() =~= old(entries)@.take(i as int));
        }
        if should_sink(&entry) {
            entries.set(i, Entry { trash: true, ..entry });
            moved += 1;
        }
        i += 1;
    }
    proof {
        assert(old(entries)@.take(i as int) =~= old(entries)@);
        assert(entries@ =~= old(entries)@.map_values(|e: Entry| after_sink(e)));
    }
    moved
}

/// The restore on a table: every entry that is restored leaves the trash.
/// Returns how many left.
pub fn restore(entries: &mut Vec<Entry>) -> (restored: usize)
    ensures
        final(entries)@ == old(entries)@.map_values(|e: Entry| after_restore(e)),
        restored == count(old(entries)@, |e: Entry| restores(e)),
{
    let mut restored: usize = 0;
    let mut i: usize = 0;
    while i < entries.len()
        invariant
            i <= entries.len(),
            entries.len() == old(entries).len(),
            restored <= i,
            restored == count(old(entries)@.take(i as int), |e: Entry| restores(e)),
            forall|k: int| 0 <= k < i ==> #[trigger] entries[k] == after_restore(old(entries)[k]),
            forall|k: int| i <= k < entries.len() ==> #[trigger] entries[k] == old(entries)[k],
        decreases entries.len() - i,
    {
        let entry = entries[i];
        proof {
            assert(old(entries)@.take(i + 1).drop_last() =~= old(entries)@.take(i as int));
        }
        if should_restore(&entry) {
            entries.set(i, Entry { trash: false, ..entry });
            restored += 1;
        }
        i += 1;
    }
    proof {
        assert(old(entries)@.take(i as int) =~= old(entries)@);
        assert(entries@ =~= old(entries)@.map_values(|e: Entry| after_restore(e)));
    }
    restored
}

/// One pass over a table: the sink, then the restore. Returns how many entries
/// went to the trash and how many left it.
pub fn process_mandels(entries: &mut Vec<Entry>) -> (counts: (usize, usize))
    ensures
        final(entries)@ == old(entries)@.map_values(|e: Entry| after_pass(e)),
        counts.0 == count(old(entries)@, |e: Entry| sinks(e)),
        counts.1 == count(
            old(entries)@.map_values(|e: Entry| after_sink(e)),
            |e: Entry| restores(e),
        ),
{
    let moved = sink(entries);
    let restored = restore(entries);
    proof {
        assert(entries@ =~= old(entries)@.map_values(|e: Entry| after_pass(e)));
    }
    (moved, restored)
}

/// The sink and the restore never both touch an entry: what sinks is not
/// restored in the same pass, and what is restored had not just sunk.
pub proof fn lemma_sink_and_restore_exclude(entry: Entry)
    ensures
        sinks(entry) ==> !restores(after_sink(entry)),
        restores(after_sink(entry)) ==> entry.trash,
        after_pass(entry).id == entry.id,
        after_pass(entry).age_days == entry.age_days,
        after_pass(entry).fake_votes == entry.fake_votes,
        after_pass(entry).yes_votes == entry.yes_votes,
{
}

/// A second pass changes nothing, while votes and age stay as they are.
pub proof fn lemma_pass_is_idempotent(entry: Entry)
    ensures
        after_pass(after_pass(entry)) == after_pass(entry),
        !sinks(after_pass(entry)),
        !restores(after_sink(after_pass(entry))),
{
}

/// Any number of passes, one or more, leaves an entry as one pass does.
pub proof fn lemma_passes_settle(entry: Entry, passes: nat)
    requires
        passes >= 1,
    ensures
        after_passes(entry, passes) == after_pass(entry),
    decreases passes,
{
    if passes == 1 {
        assert(after_passes(entry, 0) == entry);
    } else {
        lemma_passes_settle(entry, (passes - 1) as nat);
        lemma_pass_is_idempotent(entry);
    }
}

/// Any number of passes, one or more, leaves a table in the state in which
/// one pass leaves it.
pub proof fn lemma_table_settles(entries: Seq<Entry>, passes: nat)
    requires
        passes >= 1,
    ensures
        entries.map_values(|e: Entry| after_passes(e, passes)) == entries.map_values(
            |e: Entry| after_pass(e),
        ),
{
    assert forall|i: int| 0 <= i < entries.len() implies after_passes(entries[i], passes)
        == after_pass(entries[i]) by {
        lemma_passes_settle(entries[i], passes);
    }
    assert(entries.map_values(|e: Entry| after_passes(e, passes)) =~= entries.map_values(
        |e: Entry| after_pass(e),
    ));
}

} // verus!
