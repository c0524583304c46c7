use queue_pool::OnceLock;

#[test]
fn fresh_cell_is_empty() {
    let cell: OnceLock<u32> = OnceLock::new();
    assert!(cell.get().is_none());
}

#[test]
fn default_cell_is_empty() {
    let cell: OnceLock<u64> = Default::default();
    assert!(cell.get().is_none());
}

#[test]
fn get_or_init_stores_factory_result() {
    let mut cell: OnceLock<u32> = OnceLock::new();
    let v = *cell.get_or_init(|| 41 + 1);
    assert_eq!(v, 42);
    assert_eq!(cell.get().copied(), Some(42));
}

#[test]
fn first_factory_wins_and_runs_exactly_once() {
    let mut cell: OnceLock<String> = OnceLock::new();
    let mut first_runs = 0;
    let mut second_runs = 0;
    let a = cell
        .get_or_init(|| {
            first_runs += 1;
            String::from("first")
        })
        .clone();
    let b = cell
        .get_or_init(|| {
            second_runs += 1;
            String::from("second")
        })
        .clone();
    assert_eq!(a, "first");
    assert_eq!(b, "first");
    assert_eq!(first_runs, 1);
    assert_eq!(second_runs, 0);
}

#[test]
fn get_empty_before_init_and_value_after() {
    let mut cell: OnceLock<u8> = OnceLock::new();
    assert!(cell.get().is_none());
    cell.get_or_init(|| 5);
    assert_eq!(cell.get().copied(), Some(5));
}

#[test]
fn factory_never_reinvoked_after_initialization() {
    let mut cell: OnceLock<u8> = OnceLock::new();
    let mut runs = 0;
    for _ in 0..5 {
        cell.get_or_init(|| {
            runs += 1;
            9
        });
    }
    assert_eq!(runs, 1);
}
