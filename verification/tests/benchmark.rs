use graph_punk::benchmark::BenchmarkManager;

#[test]
fn a_new_manager_has_no_names() {
    let manager = BenchmarkManager::default();

    assert!(manager.names().is_empty());
    assert_eq!(manager.average_micros("draw"), None);
}

#[test]
fn the_average_is_rounded_down() {
    let mut manager = BenchmarkManager::default();

    manager.record(String::from("draw"), 10);
    manager.record(String::from("draw"), 11);
    manager.record(String::from("update"), 7);
    manager.record(String::from("draw"), 13);

    assert_eq!(manager.average_micros("draw"), Some(11));
    assert_eq!(manager.average_micros("update"), Some(7));
    assert_eq!(manager.average_micros("other"), None);
    assert_eq!(manager.names(), vec![String::from("draw"), String::from("update")]);
}

#[test]
fn a_sum_that_does_not_fit_has_no_average() {
    let mut manager = BenchmarkManager::default();

    manager.record(String::from("long"), u128::MAX);
    assert_eq!(manager.average_micros("long"), Some(u128::MAX));

    manager.record(String::from("long"), 1);
    assert_eq!(manager.average_micros("long"), None);
}

#[test]
fn bench_runs_the_work_once_and_records_it() {
    let mut manager = BenchmarkManager::default();
    let mut runs = 0;

    manager.bench(String::from("work"), || runs += 1);
    manager.bench(String::from("work"), || ());

    assert_eq!(runs, 1);
    assert_eq!(manager.names(), vec![String::from("work")]);
    assert!(manager.average_micros("work").is_some());
}
