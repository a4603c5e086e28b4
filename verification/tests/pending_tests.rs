use telescope_park_bridge::pending::{PendingCommand, PendingTable, COMMAND_TIMEOUT_MS};

fn all(table: &PendingTable) -> Vec<PendingCommand> {
    (0..table.len()).map(|i| table.get(i).unwrap()).collect()
}

fn entry(ticket: u64, command: &str, received_ack: bool, issued_at: u64) -> PendingCommand {
    PendingCommand { ticket, command: command.to_string(), received_ack, issued_at }
}

fn tickets(entries: &[PendingCommand]) -> Vec<u64> {
    entries.iter().map(|e| e.ticket).collect()
}

#[test]
fn the_command_timeout_is_fifteen_seconds() {
    assert_eq!(COMMAND_TIMEOUT_MS, 15_000);
}

#[test]
fn a_new_table_is_empty() {
    let mut t = PendingTable::new();
    assert_eq!(t.len(), 0);
    assert_eq!(t.get(0), None);
    assert!(!t.acknowledge("06"));
    assert_eq!(t.complete_oldest_acknowledged(), None);
    assert_eq!(t.fail_oldest(), None);
    assert!(t.sweep_expired(u64::MAX).is_empty());
    assert!(t.drain().is_empty());
}

#[test]
fn registered_commands_queue_up_unacknowledged() {
    let mut t = PendingTable::new();
    t.register(1, "06".to_string(), 100);
    t.register(2, "0D".to_string(), 200);
    assert_eq!(all(&t), vec![entry(1, "06", false, 100), entry(2, "0D", false, 200)]);
    assert_eq!(t.get(2), None);
}

#[test]
fn an_ack_marks_the_oldest_unacknowledged_entry_with_that_token() {
    let mut t = PendingTable::new();
    t.register(1, "06".to_string(), 1);
    t.register(2, "0D".to_string(), 2);
    t.register(3, "06".to_string(), 3);
    assert!(t.acknowledge("06"));
    assert_eq!(
        all(&t),
        vec![entry(1, "06", true, 1), entry(2, "0D", false, 2), entry(3, "06", false, 3)]
    );
    assert!(t.acknowledge("06"));
    assert_eq!(
        all(&t),
        vec![entry(1, "06", true, 1), entry(2, "0D", false, 2), entry(3, "06", true, 3)]
    );
    assert!(!t.acknowledge("06"));
    assert!(!t.acknowledge("0E"));
    assert_eq!(t.len(), 3);
}

#[test]
fn data_completes_the_oldest_acknowledged_entry_only() {
    let mut t = PendingTable::new();
    t.register(1, "06".to_string(), 1);
    t.register(2, "0D".to_string(), 2);
    t.register(3, "0E".to_string(), 3);
    assert_eq!(t.complete_oldest_acknowledged(), None);
    assert_eq!(t.len(), 3);
    t.acknowledge("0E");
    t.acknowledge("0D");
    assert_eq!(t.complete_oldest_acknowledged(), Some(entry(2, "0D", true, 2)));
    assert_eq!(tickets(&all(&t)), vec![1, 3]);
    assert_eq!(t.complete_oldest_acknowledged(), Some(entry(3, "0E", true, 3)));
    assert_eq!(t.complete_oldest_acknowledged(), None);
    assert_eq!(tickets(&all(&t)), vec![1]);
}

#[test]
fn an_error_fails_the_oldest_entry_acknowledged_or_not() {
    let mut t = PendingTable::new();
    t.register(1, "06".to_string(), 1);
    t.register(2, "0D".to_string(), 2);
    t.acknowledge("0D");
    assert_eq!(t.fail_oldest(), Some(entry(1, "06", false, 1)));
    assert_eq!(t.fail_oldest(), Some(entry(2, "0D", true, 2)));
    assert_eq!(t.fail_oldest(), None);
}

#[test]
fn a_sweep_takes_the_entries_older_than_the_timeout() {
    let mut t = PendingTable::new();
    t.register(1, "a".to_string(), 0);
    t.register(2, "b".to_string(), 5_000);
    t.register(3, "c".to_string(), 1);
    t.register(4, "d".to_string(), 20_000);
    // Exactly fifteen seconds old is not yet expired.
    assert!(t.sweep_expired(15_000).is_empty());
    assert_eq!(t.len(), 4);
    let gone = t.sweep_expired(15_001);
    assert_eq!(tickets(&gone), vec![1]);
    assert_eq!(tickets(&all(&t)), vec![2, 3, 4]);
    let gone = t.sweep_expired(20_001);
    assert_eq!(tickets(&gone), vec![2, 3]);
    assert_eq!(tickets(&all(&t)), vec![4]);
    // A clock that reads earlier than the entry expires nothing.
    assert!(t.sweep_expired(0).is_empty());
    let gone = t.sweep_expired(u64::MAX);
    assert_eq!(gone, vec![entry(4, "d", false, 20_000)]);
    assert_eq!(t.len(), 0);
}

#[test]
fn a_drain_hands_out_everything_in_order() {
    let mut t = PendingTable::new();
    t.register(7, "x".to_string(), 1);
    t.register(8, "y".to_string(), 2);
    t.acknowledge("y");
    assert_eq!(t.drain(), vec![entry(7, "x", false, 1), entry(8, "y", true, 2)]);
    assert_eq!(t.len(), 0);
    assert!(t.drain().is_empty());
}
