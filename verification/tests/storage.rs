use tukai::stats::Activity;
use tukai::stats::Stat;
use tukai::stats::TypingDuration;
use tukai::store::StorageDataType;
use tukai::store::StorageHandler;

fn get_storage_handler() -> StorageHandler {
    let (handler, bytes) = StorageHandler::new().default();
    let (handler, _seeded) = handler.init(Some(&bytes));
    handler
}

fn get_test_stat() -> Stat {
    Stat::new(TypingDuration::Minute, 80, 5, 60)
}

#[test]
fn storage_load() {
    let storage_handler = get_storage_handler();
    let bytes = storage_handler.flush();
    let storage_data = storage_handler.load(&bytes).unwrap();

    assert!(
        storage_data.get(&StorageDataType::Stats).is_some(),
        "Stats not initialized successfully"
    );
    assert!(
        storage_data.get(&StorageDataType::Activities).is_some(),
        "Activities not initialized successfully"
    );
}

#[test]
fn storage_insert_into_data_stats() {
    let mut storage_handler = get_storage_handler();

    let stat = get_test_stat();

    assert!(
        storage_handler.insert_into_stats(&stat),
        "Insert into the storage error occured"
    );

    let stats = storage_handler.get_data_stats();

    assert!(
        stats.is_some(),
        "Failed to read from the storage stats (stats is None)"
    );

    let stats_unwraped = stats.unwrap();

    let stat_from_memory = &stats_unwraped[0];

    assert_eq!(stat_from_memory.get_average_wpm(), stat.get_average_wpm());
}

#[test]
fn flush_data() {
    let mut storage_handler = get_storage_handler();
    storage_handler.insert_into_stats(&get_test_stat());

    let bytes = storage_handler.flush();
    assert!(storage_handler.load(&bytes).is_some());
}

#[test]
fn load_flushed_data() {
    let mut storage_handler = get_storage_handler();
    storage_handler.insert_into_stats(&get_test_stat());

    println!("{:?}", storage_handler.get_data());

    let bytes = storage_handler.flush();
    let data = storage_handler.load(&bytes).unwrap();
    println!("{:?}", data);
}

#[test]
fn insert_then_reversed_yields_newest_first() {
    let mut storage_handler = get_storage_handler();
    storage_handler.insert_into_stats(&Stat::new(TypingDuration::ThirtySec, 10, 1, 30));
    let newest = Stat::new(TypingDuration::Minute, 80, 5, 60);
    storage_handler.insert_into_stats(&newest);

    let reversed = storage_handler.get_data_stats_reversed().unwrap();
    assert_eq!(reversed.len(), 2);
    assert_eq!(reversed[0], newest);

    let in_order = storage_handler.get_data_stats().unwrap();
    assert_eq!(in_order[1], newest);
}

#[test]
fn init_on_missing_file_seeds_both_keys_empty() {
    let (handler, seeded) = StorageHandler::new().init(None);
    assert!(seeded);
    assert_eq!(handler.get_data_stats().unwrap().len(), 0);
    assert_eq!(handler.get_data_activities().unwrap().len(), 0);

    let bytes = handler.flush();
    let (reread, seeded_again) = StorageHandler::new().init(Some(&bytes));
    assert!(!seeded_again);
    assert_eq!(reread.get_data_stats().unwrap().len(), 0);
    assert_eq!(reread.get_data_activities().unwrap().len(), 0);
}

#[test]
fn flush_then_init_round_trips_records() {
    let mut storage_handler = get_storage_handler();
    let first = Stat::new(TypingDuration::ThreeMinutes, 120, 7, 180);
    let second = Stat::new(TypingDuration::Minute, 80, 5, 60);
    storage_handler.insert_into_stats(&first);
    storage_handler.insert_into_stats(&second);

    let bytes = storage_handler.flush();
    let (reread, seeded) = StorageHandler::new().init(Some(&bytes));
    assert!(!seeded);

    let stats = reread.get_data_stats().unwrap();
    assert_eq!(stats.len(), 2);
    assert_eq!(stats[0], first);
    assert_eq!(stats[1], second);
}

#[test]
fn activities_are_kept_across_flush_and_init() {
    let mut storage_handler = get_storage_handler();
    let marker = Activity {
        timestamp_secs: 1_700_000_000,
    };
    assert!(storage_handler.insert_into_activities(&marker));

    let bytes = storage_handler.flush();
    let (reread, seeded) = StorageHandler::new().init(Some(&bytes));
    assert!(!seeded);

    let activities = reread.get_data_activities().unwrap();
    assert_eq!(activities.len(), 1);
    assert_eq!(activities[0], marker);
    assert_eq!(reread.get_data_stats().unwrap().len(), 0);
}

#[test]
fn default_seeds_only_the_blob_and_keeps_memory() {
    let mut storage_handler = get_storage_handler();
    let stat = get_test_stat();
    storage_handler.insert_into_stats(&stat);

    let (storage_handler, seeded_bytes) = storage_handler.default();

    // the in-memory store passes through untouched
    let stats = storage_handler.get_data_stats().unwrap();
    assert_eq!(stats.len(), 1);
    assert_eq!(stats[0], stat);

    // while the blob holds the fresh two-key empty store
    let seeded = storage_handler.load(&seeded_bytes).unwrap();
    assert_eq!(seeded.stats.len(), 0);
    assert_eq!(seeded.activities.len(), 0);
}
