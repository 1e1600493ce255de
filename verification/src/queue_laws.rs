//! What a play queue holds and where it leads.
use vstd::prelude::*;
use crate::media_ext::is_media;
use crate::play_queue::{
    dedup_key, has_key, keys_differ, media_only, ordered_selection, PlayQueue,
};

verus! {

/// From any file but the last the queue leads on, and from any but the first it leads
/// back.
pub proof fn queue_leads_from_end_to_end(q: PlayQueue)
    requires
        q.wf(),
        q@.len() > 0,
    ensures
        q.has_next() <==> q.cursor != q@.len() - 1,
        q.has_previous() <==> q.cursor != 0,
{
}

/// Files that are all media and all different are queued as they are given.
pub proof fn different_media_files_are_queued_as_given(paths: Seq<Seq<char>>)
    requires
        forall|i: int| 0 <= i < paths.len() ==> is_media(#[trigger] paths[i]),
        keys_differ(paths),
    ensures
        ordered_selection(paths) == paths,
    decreases paths.len(),
{
    if paths.len() > 0 {
        let rest = paths.drop_last();
        assert forall|i: int| 0 <= i < rest.len() implies is_media(#[trigger] rest[i]) by {
            assert(rest[i] == paths[i]);
        }
        assert forall|i: int, j: int| 0 <= i < j < rest.len() implies dedup_key(
            #[trigger] rest[i],
        ) != dedup_key(#[trigger] rest[j]) by {
            assert(rest[i] == paths[i] && rest[j] == paths[j]);
        }
        different_media_files_are_queued_as_given(rest);
        assert(is_media(paths[paths.len() - 1]));
        assert forall|i: int| 0 <= i < rest.len() implies dedup_key(#[trigger] rest[i])
            != dedup_key(paths.last()) by {
            assert(rest[i] == paths[i]);
            assert(dedup_key(paths[i]) != dedup_key(paths[paths.len() - 1]));
        }
        assert(paths =~= rest.push(paths.last()));
    } else {
        assert(ordered_selection(paths) =~= paths);
    }
}

/// Of files in a given order those that are media are queued, each once: a file that is
/// given again, or is no media, adds nothing, and a new one goes to the end.
pub proof fn given_order_is_kept(paths: Seq<Seq<char>>, path: Seq<char>)
    ensures
        ({
            let before = ordered_selection(paths);
            let after = ordered_selection(paths.push(path));
            &&& (!is_media(path) ==> after == before)
            &&& (has_key(before, dedup_key(path)) ==> after == before)
            &&& (is_media(path) && !has_key(before, dedup_key(path)) ==> after == before.push(
                path,
            ))
        }),
{
    assert(paths.push(path).drop_last() =~= paths);
}

/// Every media file that is given is queued, and nothing else is.
pub proof fn queue_holds_the_media_files(paths: Seq<Seq<char>>, at: int)
    requires
        0 <= at < paths.len(),
        is_media(paths[at]),
    ensures
        has_key(ordered_selection(paths), dedup_key(paths[at])),
    decreases paths.len(),
{
    let rest = paths.drop_last();
    let before = ordered_selection(rest);
    let after = ordered_selection(paths);
    if at < rest.len() {
        assert(rest[at] == paths[at]);
        queue_holds_the_media_files(rest, at);
        let i = choose|i: int|
            0 <= i < before.len() && dedup_key(#[trigger] before[i]) == dedup_key(paths[at]);
        assert(after[i] == before[i]);
    } else if !has_key(before, dedup_key(paths.last())) {
        assert(after[before.len() as int] == paths.last());
    }
}

/// The media files among some paths are just those that are media, in their order.
pub proof fn media_files_are_picked(paths: Seq<Seq<char>>, path: Seq<char>)
    ensures
        is_media(path) ==> media_only(paths.push(path)) == media_only(paths).push(path),
        !is_media(path) ==> media_only(paths.push(path)) == media_only(paths),
        media_only(Seq::empty()).len() == 0,
{
    assert(paths.push(path).drop_last() =~= paths);
}

} // verus!
