use sysdash::history::{blank, record};
use sysdash::system::{Reading, Snapshot, System};

fn reading(processor_usages: Vec<u64>, mem_used: u64, mem_free: u64) -> Reading {
    Reading { processor_usages, mem_used, mem_free }
}

#[test]
fn record_appends_and_evicts_the_oldest() {
    let mut history = vec![1, 2, 3];
    record(&mut history, 4);
    assert_eq!(history, vec![2, 3, 4]);
    record(&mut history, 5);
    assert_eq!(history, vec![3, 4, 5]);
}

#[test]
fn a_history_without_room_stays_empty() {
    let mut history: Vec<u64> = Vec::new();
    record(&mut history, 7);
    assert_eq!(history, Vec::<u64>::new());
}

#[test]
fn blank_histories_hold_zeros() {
    assert_eq!(blank(0), Vec::<u64>::new());
    assert_eq!(blank(3), vec![0, 0, 0]);
}

#[test]
fn history_keeps_length_and_ends_with_latest() {
    for capacity in 1usize..6 {
        let mut history = blank(capacity);
        for sample in 1u64..20 {
            record(&mut history, sample);
            assert_eq!(history.len(), capacity);
            assert_eq!(*history.last().unwrap(), sample);
        }
    }
}

#[test]
fn history_is_a_window_over_the_samples() {
    let mut history = blank(4);
    for sample in 1u64..=3 {
        record(&mut history, sample);
    }
    assert_eq!(history, vec![0, 1, 2, 3]);
    for sample in 4u64..=9 {
        record(&mut history, sample);
    }
    assert_eq!(history, vec![6, 7, 8, 9]);
}

#[test]
fn new_sampler_is_idle() {
    let system = System::new(5, 16000, 10);
    assert_eq!(
        system,
        System {
            cpu_usage_history: vec![0; 5],
            cpu_current_usage: 0,
            cpu_num_cores: 4,
            mem_total: 16000,
            mem_free: 0,
            mem_used: 0,
            mem_usage_history: vec![0; 5],
            cpu_core_usages: vec![],
        }
    );
    assert_eq!(system.snapshot().cpu_core_usages, Vec::<u16>::new());
}

#[test]
fn history_width_is_half_the_terminal_width() {
    assert_eq!(System::new(1, 0, 0).cpu_usage_history.len(), 0);
    assert_eq!(System::new(1, 0, 1).cpu_usage_history.len(), 0);
    assert_eq!(System::new(1, 0, 2).mem_usage_history.len(), 1);
    assert_eq!(System::new(1, 0, 81).cpu_usage_history.len(), 40);
    assert_eq!(System::new(1, 0, 65535).mem_usage_history.len(), 32767);
}

#[test]
fn a_machine_entry_alone_means_no_cores() {
    let system = System::new(1, 1, 4);
    assert_eq!(system.cpu_num_cores, 0);
    assert_eq!(system.cpu_core_usages, Vec::<u16>::new());
}

#[test]
fn update_takes_a_reading_in() {
    let mut system = System::new(5, 16000, 10);
    let snapshot = system.update(&reading(vec![50, 10, 20, 30, 40], 8000, 7000));
    assert_eq!(
        snapshot,
        Snapshot {
            cpu_current_usage: 50,
            cpu_usage_history: vec![0, 0, 0, 0, 50],
            cpu_core_usages: vec![10, 20, 30, 40],
            mem_total: 16000,
            mem_used: 8000,
            mem_free: 7000,
            mem_usage_history: vec![0, 0, 0, 0, 8000],
        }
    );
    assert_eq!(system.snapshot(), snapshot);
    assert_eq!(system.cpu_num_cores, 4);

    let snapshot = system.update(&reading(vec![75, 100, 0, 100, 100], 9000, 6000));
    assert_eq!(
        snapshot,
        Snapshot {
            cpu_current_usage: 75,
            cpu_usage_history: vec![0, 0, 0, 50, 75],
            cpu_core_usages: vec![100, 0, 100, 100],
            mem_total: 16000,
            mem_used: 9000,
            mem_free: 6000,
            mem_usage_history: vec![0, 0, 0, 8000, 9000],
        }
    );
}

#[test]
fn core_loads_stop_at_the_largest_value() {
    let mut system = System::new(4, 0, 2);
    let snapshot = system.update(&reading(vec![u64::MAX, 65535, 65536, u64::MAX], 0, 0));
    assert_eq!(snapshot.cpu_current_usage, u64::MAX);
    assert_eq!(snapshot.cpu_usage_history, vec![u64::MAX]);
    assert_eq!(snapshot.cpu_core_usages, vec![65535, 65535, 65535]);
}

#[test]
fn a_reading_of_the_wrong_length_changes_nothing() {
    let mut system = System::new(3, 500, 6);
    let first = system.update(&reading(vec![9, 8, 7], 100, 400));
    assert!(!system.accepts(&reading(vec![], 1, 1)));
    assert!(!system.accepts(&reading(vec![1, 2], 1, 1)));
    assert!(!system.accepts(&reading(vec![1, 2, 3, 4], 1, 1)));
    assert!(system.accepts(&reading(vec![1, 2, 3], 1, 1)));

    let stale = system.update(&reading(vec![], 1, 1));
    assert_eq!(stale, first);
    let stale = system.update(&reading(vec![1, 2], 1, 1));
    assert_eq!(stale, first);
    let stale = system.update(&reading(vec![1, 2, 3, 4], 1, 1));
    assert_eq!(stale, first);
    assert_eq!(system.cpu_usage_history, vec![0, 0, 9]);
    assert_eq!(system.mem_usage_history, vec![0, 0, 100]);
}

#[test]
fn histories_of_the_sampler_keep_their_length() {
    let mut system = System::new(2, 100, 8);
    for tick in 1u64..50 {
        let snapshot = system.update(&reading(vec![tick, tick + 1], tick * 2, 100 - tick));
        assert_eq!(snapshot.cpu_usage_history.len(), 4);
        assert_eq!(snapshot.mem_usage_history.len(), 4);
        assert_eq!(*snapshot.cpu_usage_history.last().unwrap(), tick);
        assert_eq!(*snapshot.mem_usage_history.last().unwrap(), tick * 2);
        assert_eq!(snapshot.cpu_core_usages.len(), 1);
        assert_eq!(snapshot.mem_total, 100);
    }
}

#[test]
fn a_sampler_without_history_still_samples() {
    let mut system = System::new(2, 10, 1);
    let snapshot = system.update(&reading(vec![5, 6], 3, 7));
    assert_eq!(snapshot.cpu_current_usage, 5);
    assert_eq!(snapshot.cpu_usage_history, Vec::<u64>::new());
    assert_eq!(snapshot.mem_usage_history, Vec::<u64>::new());
    assert_eq!(snapshot.cpu_core_usages, vec![6]);
}
