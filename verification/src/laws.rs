//! Properties of the commands that hold on every history of opens and for
//! every decoder.
//!
//! A history is the sequence of opens that were issued so far, each with
//! its path and with what the decoder made of the file. The cache starts
//! empty and changes only when a handle is stored under a path, which is
//! what a successful open does, so the cache at any moment is
//! [`cache_after_opens`] of the history.

use vstd::prelude::*;
use crate::commands::{cache_after_open, channel_data_reply, open_reply, OpenedFile};
use crate::error::CommandError;
use crate::reading::{series_of, ChannelSeries, MasterReading, ValueReading};

verus! {

/// The cache after the opens of `history`, issued in order on an empty
/// cache.
pub open spec fn cache_after_opens<H>(
    history: Seq<(Seq<char>, Option<OpenedFile<H>>)>,
) -> Map<Seq<char>, H>
    decreases history.len(),
{
    if history.len() == 0 {
        Map::empty()
    } else {
        cache_after_open(
            cache_after_opens(history.drop_last()),
            history.last().0,
            history.last().1,
        )
    }
}

/// Whether the open at index `i` of `history` succeeded.
pub open spec fn succeeded<H>(history: Seq<(Seq<char>, Option<OpenedFile<H>>)>, i: int) -> bool {
    0 <= i < history.len() && history[i].1 is Some
}

/// A path is in the cache exactly if some open of it has succeeded. There
/// is no other way in, and no way out.
pub proof fn lemma_cached_iff_opened<H>(
    history: Seq<(Seq<char>, Option<OpenedFile<H>>)>,
    path: Seq<char>,
)
    ensures
        cache_after_opens(history).contains_key(path) <==> exists|i: int|
            #[trigger] succeeded(history, i) && history[i].0 == path,
    decreases history.len(),
{
    if history.len() > 0 {
        let earlier = history.drop_last();
        let last = history.len() - 1;
        lemma_cached_iff_opened(earlier, path);
        if cache_after_opens(history).contains_key(path) {
            if succeeded(history, last) && history[last].0 == path {
            } else {
                assert(cache_after_opens(earlier).contains_key(path));
                let i = choose|i: int| #[trigger] succeeded(earlier, i) && earlier[i].0 == path;
                assert(succeeded(history, i) && history[i].0 == path);
            }
        }
        if exists|i: int| #[trigger] succeeded(history, i) && history[i].0 == path {
            let i = choose|i: int| #[trigger] succeeded(history, i) && history[i].0 == path;
            if i < last {
                assert(succeeded(earlier, i) && earlier[i].0 == path);
            }
        }
    }
}

/// A path that was never passed to an open is not in the cache, so a read
/// of it is a miss.
pub proof fn lemma_unopened_path_not_cached<H>(
    history: Seq<(Seq<char>, Option<OpenedFile<H>>)>,
    path: Seq<char>,
)
    requires
        forall|i: int| 0 <= i < history.len() ==> (#[trigger] history[i]).0 != path,
    ensures
        !cache_after_opens(history).contains_key(path),
{
    lemma_cached_iff_opened(history, path);
    if cache_after_opens(history).contains_key(path) {
        let i = choose|i: int| #[trigger] succeeded(history, i) && history[i].0 == path;
        assert(history[i].0 == path);
    }
}

/// A successful open answers with the channel names exactly as the decoder
/// listed them: as many, and in the same order. In particular the list is
/// not empty where the file has a channel.
pub proof fn lemma_open_lists_every_channel<H>(file: OpenedFile<H>)
    ensures
        open_reply(Some(file)) == Ok::<Vec<String>, CommandError>(file.channel_names),
        file.channel_names@.len() > 0 ==> open_reply(Some(file)).unwrap()@.len() > 0,
{
}

/// Once an open of a path has succeeded, the path stays in the cache
/// whatever is opened afterwards.
pub proof fn lemma_opened_path_stays_cached<H>(
    history: Seq<(Seq<char>, Option<OpenedFile<H>>)>,
    i: int,
)
    requires
        succeeded(history, i),
    ensures
        cache_after_opens(history).contains_key(history[i].0),
{
    lemma_cached_iff_opened(history, history[i].0);
}

/// A read of a path that is in the cache never answers with a miss,
/// whatever the decoder reports of the channel.
pub proof fn lemma_cached_path_never_misses<H, S, V, M>(
    read_values: V,
    read_master: M,
    mf4: &H,
    channel_name: &str,
    reply: Result<ChannelSeries<S>, CommandError>,
) where V: Fn(&H, &str) -> ValueReading<S>, M: Fn(&H, &str) -> MasterReading<S>
    requires
        channel_data_reply(read_values, read_master, mf4, channel_name, reply),
    ensures
        reply != Err::<ChannelSeries<S>, CommandError>(CommandError::CacheMiss),
{
}

/// The last successful open of a path decides what the cache holds for it:
/// a later open of the same path replaces the handle, and opens of other
/// paths, and failed opens, leave it alone.
pub proof fn lemma_last_open_wins<H>(history: Seq<(Seq<char>, Option<OpenedFile<H>>)>, i: int)
    requires
        succeeded(history, i),
        forall|j: int| i < j && #[trigger] succeeded(history, j) ==> history[j].0 != history[i].0,
    ensures
        cache_after_opens(history).contains_key(history[i].0),
        cache_after_opens(history)[history[i].0] == history[i].1.unwrap().handle,
    decreases history.len(),
{
    let last = history.len() - 1;
    if i < last {
        let earlier = history.drop_last();
        assert(succeeded(earlier, i));
        assert forall|j: int| i < j && #[trigger] succeeded(earlier, j) implies earlier[j].0
            != earlier[i].0 by {
            assert(succeeded(history, j));
        }
        lemma_last_open_wins(earlier, i);
        if history[last].1 is Some {
            assert(succeeded(history, last));
        }
    }
}

/// Opens of pairwise distinct paths that all succeed are all kept: each
/// path leads to its own handle afterwards, and none is lost to another.
/// This holds of every order in which the opens reach the cache, so also
/// of the order in which a lock admits opens that were issued at once.
pub proof fn lemma_distinct_opens_all_kept<H>(history: Seq<(Seq<char>, Option<OpenedFile<H>>)>)
    requires
        forall|i: int| 0 <= i < history.len() ==> (#[trigger] history[i]).1 is Some,
        forall|i: int, j: int|
            0 <= i < j < history.len() ==> (#[trigger] history[i]).0 != (#[trigger] history[j]).0,
    ensures
        forall|i: int|
            0 <= i < history.len() ==> (cache_after_opens(history).contains_key(
                (#[trigger] history[i]).0,
            ) && cache_after_opens(history)[history[i].0] == history[i].1.unwrap().handle),
{
    assert forall|i: int| 0 <= i < history.len() implies {
        &&& cache_after_opens(history).contains_key((#[trigger] history[i]).0)
        &&& cache_after_opens(history)[history[i].0] == history[i].1.unwrap().handle
    } by {
        assert(succeeded(history, i));
        lemma_last_open_wins(history, i);
    }
}

/// Opening a path a second time overwrites its entry and adds none: the
/// cache is what the second open alone would have left, it holds the
/// second handle, and it has the paths that it had after the first open.
pub proof fn lemma_reopen_overwrites<H>(
    before: Map<Seq<char>, H>,
    path: Seq<char>,
    first: OpenedFile<H>,
    second: OpenedFile<H>,
)
    ensures
        cache_after_open(cache_after_open(before, path, Some(first)), path, Some(second))
            == cache_after_open(before, path, Some(second)),
        cache_after_open(cache_after_open(before, path, Some(first)), path, Some(second))[path]
            == second.handle,
        cache_after_open(cache_after_open(before, path, Some(first)), path, Some(second)).dom()
            == cache_after_open(before, path, Some(first)).dom(),
{
    let once = cache_after_open(before, path, Some(first));
    let twice = cache_after_open(once, path, Some(second));
    assert(twice =~= cache_after_open(before, path, Some(second)));
    assert(twice.dom() =~= once.dom());
}

/// A failed open leaves the cache as it was.
pub proof fn lemma_failed_open_changes_nothing<H>(before: Map<Seq<char>, H>, path: Seq<char>)
    ensures
        cache_after_open(before, path, None::<OpenedFile<H>>) == before,
        open_reply(None::<OpenedFile<H>>) == Err::<Vec<String>, CommandError>(
            CommandError::OpenFailure,
        ),
{
}

/// Where the decoder reports values but a master that is not real-valued,
/// the read fails with `InvalidTimeRepresentation` and hands out no data.
pub proof fn lemma_non_real_master_rejected<H, S, V, M>(
    read_values: V,
    read_master: M,
    mf4: &H,
    channel_name: &str,
    reply: Result<ChannelSeries<S>, CommandError>,
) where V: Fn(&H, &str) -> ValueReading<S>, M: Fn(&H, &str) -> MasterReading<S>
    requires
        channel_data_reply(read_values, read_master, mf4, channel_name, reply),
        forall|values: ValueReading<S>| #[trigger]
            read_values.ensures((mf4, channel_name), values) ==> values is Samples,
        forall|master: MasterReading<S>| #[trigger]
            read_master.ensures((mf4, channel_name), master) ==> master is NotReal,
    ensures
        reply == Err::<ChannelSeries<S>, CommandError>(CommandError::InvalidTimeRepresentation),
{
}

/// Where the decoder knows no channel of the name, the read fails with
/// `ChannelMissing`, which is not the error of a path that was never
/// opened.
pub proof fn lemma_absent_channel_rejected<H, S, V, M>(
    read_values: V,
    read_master: M,
    mf4: &H,
    channel_name: &str,
    reply: Result<ChannelSeries<S>, CommandError>,
) where V: Fn(&H, &str) -> ValueReading<S>, M: Fn(&H, &str) -> MasterReading<S>
    requires
        channel_data_reply(read_values, read_master, mf4, channel_name, reply),
        forall|values: ValueReading<S>| #[trigger]
            read_values.ensures((mf4, channel_name), values) ==> values is Absent,
    ensures
        reply == Err::<ChannelSeries<S>, CommandError>(CommandError::ChannelMissing),
        reply != Err::<ChannelSeries<S>, CommandError>(CommandError::CacheMiss),
{
}

/// The answer to a read for each pair of readings: a fault of the values
/// wins over a fault of the master, and data comes only where both are
/// sound.
pub proof fn lemma_series_by_cases<S>(values: ValueReading<S>, master: MasterReading<S>)
    ensures
        values is Absent ==> series_of(values, master) == Err::<ChannelSeries<S>, CommandError>(
            CommandError::ChannelMissing,
        ),
        values is Unconvertible ==> series_of(values, master) == Err::<
            ChannelSeries<S>,
            CommandError,
        >(CommandError::ConversionFailure),
        values is Samples && master is Absent ==> series_of(values, master) == Err::<
            ChannelSeries<S>,
            CommandError,
        >(CommandError::ChannelMissing),
        values is Samples && master is NotReal ==> series_of(values, master) == Err::<
            ChannelSeries<S>,
            CommandError,
        >(CommandError::InvalidTimeRepresentation),
        values is Samples && master is Real ==> series_of(values, master) == Ok::<
            ChannelSeries<S>,
            CommandError,
        >((ChannelSeries { values: values->Samples_0, time: master->Real_0 })),
        series_of(values, master) is Ok <==> values is Samples && master is Real,
{
}

} // verus!
