use ocean::trash_monitor::{
    process_mandels, restore, should_restore, should_sink, sink, vote_bindings, Entry,
    MIN_AGE_DAYS, MIN_YES_VOTES, PERIOD_SECS,
};
use ocean::types::Vote;

fn entry(id: i32, trash: bool, age_days: i64, fake_votes: i64, yes_votes: i64) -> Entry {
    Entry { id, trash, age_days, fake_votes, yes_votes }
}

fn table() -> Vec<Entry> {
    vec![
        entry(1, false, 5, 0, 0),
        entry(2, false, 1, 9, 0),
        entry(3, false, 2, 5, 4),
        entry(4, false, 2, 4, 4),
        entry(5, false, 30, 0, 3),
        entry(6, true, 30, 4, 4),
        entry(7, true, 0, 0, 4),
        entry(8, true, 30, 5, 4),
        entry(9, true, 30, 0, 3),
        entry(10, false, 2, 0, 4),
    ]
}

#[test]
fn constants() {
    assert_eq!(PERIOD_SECS, 43200);
    assert_eq!(MIN_AGE_DAYS, 2);
    assert_eq!(MIN_YES_VOTES, 4);
    assert_eq!(vote_bindings(), (3, 0));
    assert_eq!(Vote::Yes.code(), 0);
    assert_eq!(Vote::No.code(), 1);
    assert_eq!(Vote::Neutral.code(), 2);
    assert_eq!(Vote::Fake.code(), 3);
}

#[test]
fn sink_rule() {
    assert!(should_sink(&entry(1, false, 2, 0, 0)));
    assert!(should_sink(&entry(1, false, 2, 0, 3)));
    assert!(should_sink(&entry(1, false, 2, 5, 4)));
    assert!(should_sink(&entry(1, false, 100, 10, 9)));
    assert!(!should_sink(&entry(1, false, 1, 0, 0)));
    assert!(!should_sink(&entry(1, false, 2, 4, 4)));
    assert!(!should_sink(&entry(1, false, 2, 0, 4)));
    assert!(!should_sink(&entry(1, true, 2, 0, 0)));
}

#[test]
fn restore_rule() {
    assert!(should_restore(&entry(1, true, 0, 4, 4)));
    assert!(should_restore(&entry(1, true, 9, 0, 4)));
    assert!(!should_restore(&entry(1, true, 9, 5, 4)));
    assert!(!should_restore(&entry(1, true, 9, 0, 3)));
    assert!(!should_restore(&entry(1, false, 9, 0, 4)));
}

#[test]
fn sink_moves_disputed_entries() {
    let mut entries = table();
    let moved = sink(&mut entries);
    assert_eq!(moved, 3);
    let trashed: Vec<i32> = entries.iter().filter(|e| e.trash).map(|e| e.id).collect();
    assert_eq!(trashed, vec![1, 3, 5, 6, 7, 8, 9]);
}

#[test]
fn restore_takes_settled_entries_out() {
    let mut entries = table();
    let restored = restore(&mut entries);
    assert_eq!(restored, 2);
    let trashed: Vec<i32> = entries.iter().filter(|e| e.trash).map(|e| e.id).collect();
    assert_eq!(trashed, vec![8, 9]);
}

#[test]
fn one_pass() {
    let mut entries = table();
    let counts = process_mandels(&mut entries);
    assert_eq!(counts, (3, 2));
    let trashed: Vec<i32> = entries.iter().filter(|e| e.trash).map(|e| e.id).collect();
    assert_eq!(trashed, vec![1, 3, 5, 8, 9]);
    for (before, after) in table().iter().zip(entries.iter()) {
        assert_eq!(
            (before.id, before.age_days, before.fake_votes, before.yes_votes),
            (after.id, after.age_days, after.fake_votes, after.yes_votes)
        );
    }
}

#[test]
fn further_passes_change_nothing() {
    let mut entries = table();
    process_mandels(&mut entries);
    let once = entries.clone();
    for _ in 0..5 {
        let counts = process_mandels(&mut entries);
        assert_eq!(counts, (0, 0));
        assert_eq!(entries, once);
    }
    let mut none: Vec<Entry> = Vec::new();
    assert_eq!(process_mandels(&mut none), (0, 0));
}
