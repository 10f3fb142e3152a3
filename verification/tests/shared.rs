use std::sync::{Arc, Mutex};

use mf4_channels::cache::FileCache;
use mf4_channels::commands::{get_mf4_channel_data, record_open, OpenedFile};
use mf4_channels::error::CommandError;
use mf4_channels::reading::{ChannelSeries, MasterReading, ValueReading};

/// A decoded file with one channel, "Speed", whose only sample is the
/// file's number.
struct OneChannel {
    number: u32,
}

fn decode(number: u32) -> Option<OpenedFile<OneChannel>> {
    Some(OpenedFile { handle: OneChannel { number }, channel_names: vec!["Speed".to_string()] })
}

fn values_of(file: &OneChannel, name: &str) -> ValueReading<f64> {
    if name == "Speed" {
        ValueReading::Samples(vec![file.number as f64])
    } else {
        ValueReading::Absent
    }
}

fn master_of(_file: &OneChannel, name: &str) -> MasterReading<f64> {
    if name == "Speed" {
        MasterReading::Real(vec![0.0])
    } else {
        MasterReading::Absent
    }
}

#[test]
fn commands_run_under_one_lock() {
    let shared = Mutex::new(FileCache::new());
    let outcome = decode(4);
    let names = {
        let mut cache = shared.lock().unwrap();
        record_open("/data/run4.mf4", &mut *cache, outcome)
    };
    assert_eq!(names, Ok(vec!["Speed".to_string()]));
    let cache = shared.lock().unwrap();
    assert_eq!(
        get_mf4_channel_data("/data/run4.mf4", "Speed", &*cache, &values_of, &master_of),
        Ok(ChannelSeries { values: vec![4.0], time: vec![0.0] })
    );
    assert_eq!(
        get_mf4_channel_data("/data/run5.mf4", "Speed", &*cache, &values_of, &master_of),
        Err(CommandError::CacheMiss)
    );
}

#[test]
fn opens_through_a_shared_lock_are_all_kept() {
    let shared = Arc::new(Mutex::new(FileCache::new()));
    let order: [u32; 8] = [5, 0, 7, 2, 1, 6, 3, 4];
    for n in order.iter() {
        let holder = Arc::clone(&shared);
        let path = format!("/data/run{}.mf4", n);
        let outcome = decode(*n);
        let mut cache = holder.lock().unwrap();
        assert_eq!(record_open(&path, &mut *cache, outcome), Ok(vec!["Speed".to_string()]));
    }
    let cache = shared.lock().unwrap();
    let mut n: u32 = 0;
    while n < 8 {
        let path = format!("/data/run{}.mf4", n);
        assert_eq!(cache.lookup(&path).map(|f| f.number), Some(n));
        assert_eq!(
            get_mf4_channel_data(&path, "Speed", &*cache, &values_of, &master_of),
            Ok(ChannelSeries { values: vec![n as f64], time: vec![0.0] })
        );
        n += 1;
    }
}
