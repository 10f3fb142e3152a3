//! The two commands that the front-end issues.
//!
//! Opening and decoding a file is the decoder's work and is handed in as a
//! function: each command runs it where the rules call for it and decides
//! on what comes back. What a command answers for a given outcome of the
//! decoder is spelled out by the functions that take the outcome as an
//! argument: [`record_open`] and [`crate::reading::assemble_series`].

use vstd::prelude::*;
use crate::cache::FileCache;
use crate::error::CommandError;
use crate::reading::{series_of, ChannelSeries, MasterReading, ValueReading};

verus! {

/// A file that the decoder has opened: its handle and the names of its
/// channels, in the decoder's order.
#[derive(Debug)]
pub struct OpenedFile<H> {
    pub handle: H,
    pub channel_names: Vec<String>,
}

/// What an open answers, given what the decoder made of the file: the
/// channel names as the decoder listed them, or an open failure.
pub open spec fn open_reply<H>(outcome: Option<OpenedFile<H>>) -> Result<Vec<String>, CommandError> {
    match outcome {
        Some(file) => Ok(file.channel_names),
        None => Err(CommandError::OpenFailure),
    }
}

/// The cache after an open of `path`, given what the decoder made of the
/// file. A successful open stores the handle under `path`, in place of an
/// earlier one; a failed open changes nothing.
pub open spec fn cache_after_open<H>(
    before: Map<Seq<char>, H>,
    path: Seq<char>,
    outcome: Option<OpenedFile<H>>,
) -> Map<Seq<char>, H> {
    match outcome {
        Some(file) => before.insert(path, file.handle),
        None => before,
    }
}

/// Finishes an open of `mf4_path` once the decoder has returned: on
/// success the handle goes into the cache under the path as given and the
/// channel names are the reply; on failure the cache is left alone.
pub fn record_open<H>(
    mf4_path: &str,
    cache: &mut FileCache<H>,
    outcome: Option<OpenedFile<H>>,
) -> (reply: Result<Vec<String>, CommandError>)
    ensures
        reply == open_reply(outcome),
        final(cache)@ == cache_after_open(old(cache)@, mf4_path@, outcome),
{
    match outcome {
        Some(file) => {
            cache.insert(mf4_path.to_owned(), file.handle);
            Ok(file.channel_names)
        },
        None => Err(CommandError::OpenFailure),
    }
}

/// Opens the file at `mf4_path` with `open` and lists its channels.
///
/// The decoder is run exactly once, on the path as given. Whatever it
/// returns, the reply and the cache are those that [`record_open`] gives
/// for that outcome.
pub fn get_mf4_channels<H, F>(
    mf4_path: &str,
    cache: &mut FileCache<H>,
    open: F,
) -> (reply: Result<Vec<String>, CommandError>) where F: FnOnce(&str) -> Option<OpenedFile<H>>
    requires
        open.requires((mf4_path,)),
    ensures
        exists|outcome: Option<OpenedFile<H>>|
            (open.ensures((mf4_path,), outcome) && reply == open_reply(outcome) && final(cache)@
                == #[trigger] cache_after_open(old(cache)@, mf4_path@, outcome)),
{
    let outcome = open(mf4_path);
    record_open(mf4_path, cache, outcome)
}

/// What [`get_channel_data`] may answer for a handle and a channel name:
/// the values are read first, and the master only where the values were
/// accepted.
pub open spec fn channel_data_reply<H, S, V, M>(
    read_values: V,
    read_master: M,
    mf4: &H,
    channel_name: &str,
    reply: Result<ChannelSeries<S>, CommandError>,
) -> bool where V: Fn(&H, &str) -> ValueReading<S>, M: Fn(&H, &str) -> MasterReading<S> {
    exists|values: ValueReading<S>|
        {
            &&& #[trigger] read_values.ensures((mf4, channel_name), values)
            &&& match values.accepted() {
                Err(e) => reply == Err::<ChannelSeries<S>, CommandError>(e),
                Ok(_) => exists|master: MasterReading<S>|
                    {
                        &&& #[trigger] read_master.ensures((mf4, channel_name), master)
                        &&& reply == series_of(values, master)
                    },
            }
        }
}

/// Reads one channel of an opened file: its values through `read_values`,
/// then its master data through `read_master`.
pub fn get_channel_data<H, S, V, M>(
    mf4: &H,
    channel_name: &str,
    read_values: &V,
    read_master: &M,
) -> (reply: Result<ChannelSeries<S>, CommandError>) where
    V: Fn(&H, &str) -> ValueReading<S>,
    M: Fn(&H, &str) -> MasterReading<S>,

    requires
        read_values.requires((mf4, channel_name)),
        read_master.requires((mf4, channel_name)),
    ensures
        channel_data_reply(*read_values, *read_master, mf4, channel_name, reply),
{
    let values = read_values(mf4, channel_name);
    match values.accept() {
        Err(e) => Err(e),
        Ok(v) => {
            let master = read_master(mf4, channel_name);
            match master.accept() {
                Err(e) => Err(e),
                Ok(t) => Ok(ChannelSeries { values: v, time: t }),
            }
        },
    }
}

/// Reads the channel `channel_name` of the file that was opened under
/// `mf4_path`.
///
/// A path that is not in the cache is a miss, and the decoder is not
/// asked. Otherwise the reply is what [`get_channel_data`] makes of the
/// cached handle.
pub fn get_mf4_channel_data<H, S, V, M>(
    mf4_path: &str,
    channel_name: &str,
    cache: &FileCache<H>,
    read_values: &V,
    read_master: &M,
) -> (reply: Result<ChannelSeries<S>, CommandError>) where
    V: Fn(&H, &str) -> ValueReading<S>,
    M: Fn(&H, &str) -> MasterReading<S>,

    requires
        cache@.contains_key(mf4_path@) ==> read_values.requires((&cache@[mf4_path@], channel_name))
            && read_master.requires((&cache@[mf4_path@], channel_name)),
    ensures
        !cache@.contains_key(mf4_path@) ==> reply == Err::<ChannelSeries<S>, CommandError>(
            CommandError::CacheMiss,
        ),
        cache@.contains_key(mf4_path@) ==> channel_data_reply(
            *read_values,
            *read_master,
            &cache@[mf4_path@],
            channel_name,
            reply,
        ),
{
    match cache.lookup(mf4_path) {
        Some(mf4) => get_channel_data(mf4, channel_name, read_values, read_master),
        None => Err(CommandError::CacheMiss),
    }
}

} // verus!
