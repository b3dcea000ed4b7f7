use cursor::error::Error;
use cursor::point::PointArg;
use cursor::provider::{Config, Provider, SetStep};
use cursor::storage::{FileConfig, RedisConfig, Storage};

fn pt(slot: u64) -> PointArg {
    PointArg::Specific(slot, format!("h{}", slot))
}

fn file_config(path: &str) -> Config {
    Config::File(FileConfig {
        path: path.to_string(),
    })
}

#[test]
fn memory_provider_starts_at_its_point() {
    let p = Provider::initialize(Config::Memory(pt(1)), Err(Error::NotFound("unused".to_string())), 0);
    assert_eq!(p.get_cursor(), Some(pt(1)));
}

#[test]
fn missing_cursor_file_gives_no_cursor() {
    let p = Provider::initialize(
        file_config("missing.cursor"),
        Err(Error::NotFound("missing.cursor".to_string())),
        0,
    );
    assert_eq!(p.get_cursor(), None);
}

#[test]
fn new_provider_knows_no_cursor() {
    let p = Provider::new(file_config("c"));
    assert_eq!(p.get_cursor(), None);
    assert!(matches!(p.storage(), Storage::File(_)));
}

#[test]
fn loaded_point_is_the_cursor() {
    let p = Provider::initialize(file_config("c"), Ok(pt(5)), 100);
    assert_eq!(p.get_cursor(), Some(pt(5)));
}

#[test]
fn update_within_window_moves_cache_only() {
    let mut p = Provider::initialize(file_config("c"), Ok(pt(5)), 0);
    assert_eq!(p.set_cursor(pt(6), 3000), SetStep::Done);
    assert_eq!(p.get_cursor(), Some(pt(6)));
    assert_eq!(p.set_cursor(pt(7), 9999), SetStep::Done);
    assert_eq!(p.get_cursor(), Some(pt(7)));
}

#[test]
fn two_updates_in_one_window_write_once() {
    let mut p = Provider::initialize(file_config("c"), Err(Error::NotFound("c".to_string())), 0);
    assert_eq!(p.set_cursor(pt(1), 1000), SetStep::Persist(pt(1)));
    assert_eq!(p.record_write(pt(1), 1000, Ok(())), Ok(()));
    assert_eq!(p.set_cursor(pt(2), 5000), SetStep::Done);
    assert_eq!(p.get_cursor(), Some(pt(2)));
}

#[test]
fn update_after_window_is_written() {
    let mut p = Provider::initialize(file_config("c"), Ok(pt(5)), 0);
    assert_eq!(p.set_cursor(pt(6), 3000), SetStep::Done);
    assert_eq!(p.set_cursor(pt(8), 10000), SetStep::Persist(pt(8)));
    assert_eq!(p.get_cursor(), Some(pt(6)));
    assert_eq!(p.record_write(pt(8), 10002, Ok(())), Ok(()));
    assert_eq!(p.get_cursor(), Some(pt(8)));
    assert_eq!(p.set_cursor(pt(9), 20001), SetStep::Done);
    assert_eq!(p.set_cursor(pt(10), 20002), SetStep::Persist(pt(10)));
}

#[test]
fn failed_write_keeps_previous_cursor() {
    let mut p = Provider::initialize(file_config("c"), Ok(pt(5)), 0);
    assert_eq!(p.set_cursor(pt(6), 20000), SetStep::Persist(pt(6)));
    let e = p.record_write(pt(6), 20001, Err(Error::IoError("disk full".to_string())));
    assert_eq!(e, Err(Error::IoError("disk full".to_string())));
    assert_eq!(p.get_cursor(), Some(pt(5)));
    assert_eq!(p.set_cursor(pt(7), 20002), SetStep::Persist(pt(7)));
}

#[test]
fn invalid_state_always_writes() {
    let mut p = Provider::initialize(
        Config::Redis(RedisConfig {
            url: "redis://127.0.0.1/".to_string(),
            key: "cursor".to_string(),
        }),
        Err(Error::ConnectionError("refused".to_string())),
        0,
    );
    assert_eq!(p.get_cursor(), None);
    assert_eq!(p.set_cursor(pt(1), 1), SetStep::Persist(pt(1)));
    let e = p.record_write(pt(1), 2, Err(Error::ConnectionError("refused".to_string())));
    assert!(e.is_err());
    assert_eq!(p.get_cursor(), None);
    assert_eq!(p.set_cursor(pt(1), 3), SetStep::Persist(pt(1)));
}

#[test]
fn memory_provider_persists_by_itself() {
    let mut p = Provider::initialize(Config::Memory(pt(1)), Ok(pt(100)), 0);
    assert_eq!(p.get_cursor(), Some(pt(1)));
    assert_eq!(p.set_cursor(pt(2), 4000), SetStep::Done);
    assert_eq!(p.get_cursor(), Some(pt(2)));
    assert_eq!(p.set_cursor(pt(3), 10000), SetStep::Done);
    assert_eq!(p.get_cursor(), Some(pt(3)));
    assert_eq!(p.set_cursor(pt(4), 15000), SetStep::Done);
    assert_eq!(p.get_cursor(), Some(pt(4)));
}

#[test]
fn clock_behind_last_write_counts_as_no_time() {
    let mut p = Provider::initialize(file_config("c"), Ok(pt(5)), 50000);
    assert_eq!(p.set_cursor(pt(6), 1000), SetStep::Done);
    assert_eq!(p.get_cursor(), Some(pt(6)));
}
