//! Synchronisation cycles: what a mirror does with the posts it fetched
//! from Reddit, and the cycle of posting to Mastodon.

use vstd::prelude::*;

use crate::config::Mirror;
use crate::error;
use crate::reddit::Post;

verus! {

/// Seconds to wait after reading one subreddit, before the next.
pub const REDDIT_SLEEP_SECS: u64 = 2;

/// Takes in what one fetch of the mirror's subreddit gave: the new posts
/// among them join the queue, in their order; an error leaves the mirror
/// as it was and is handed back to be reported.
pub fn record_fetch(mir: &mut Mirror, fetched: Result<Vec<Post>, error::Reddit>) -> (r: Result<
    (),
    error::Reddit,
>)
    ensures
        match fetched {
            Ok(posts) => {
                &&& r is Ok
                &&& final(mir).queued() == old(mir).queued() + old(mir).unposted(posts@)
                &&& old(mir).same_but_queue(&*final(mir))
            },
            Err(e) => r == Err::<(), error::Reddit>(e) && *final(mir) == *old(mir),
        },
{
    match fetched {
        Ok(data) => {
            let posts_to_mirror = mir.find_unposted_ids(data);
            mir.queue_posts(posts_to_mirror);
            Ok(())
        },
        Err(e) => Err(e),
    }
}

/// Posts everything that the mirrors have queued: every mirror posts its
/// queue, and the posts are handed out, one batch per mirror in the
/// mirrors' order and each batch oldest first, for the program to send to
/// that mirror's Mastodon account.
pub fn cylce_mastodon(mirrors: &mut Vec<Mirror>) -> (r: Result<Vec<Vec<Post>>, error::SyncData>)
    ensures
        r matches Ok(batches) && batches@.len() == old(mirrors)@.len() && forall|i: int|
            0 <= i < batches@.len() ==> #[trigger] batches@[i]@ == old(mirrors)@[i].queued(),
        final(mirrors)@.len() == old(mirrors)@.len(),
        forall|i: int|
            0 <= i < old(mirrors)@.len() ==> #[trigger] final(mirrors)@[i].posted_queue_of(
                &old(mirrors)@[i],
            ),
{
    let mut batches: Vec<Vec<Post>> = Vec::new();
    let mut i: usize = 0;
    while i < mirrors.len()
        invariant
            i <= mirrors@.len(),
            mirrors@.len() == old(mirrors)@.len(),
            batches@.len() == i,
            forall|k: int| 0 <= k < i ==> #[trigger] batches@[k]@ == old(mirrors)@[k].queued(),
            forall|k: int| 0 <= k < i ==> #[trigger] mirrors@[k].posted_queue_of(&old(mirrors)@[k]),
            forall|k: int| i <= k < mirrors@.len() ==> #[trigger] mirrors@[k] == old(mirrors)@[k],
        decreases mirrors@.len() - i,
    {
        match _cycle_mastodon_one(&mut mirrors[i]) {
            Ok(posts) => batches.push(posts),
            Err(_) => batches.push(Vec::new()),
        }
        i = i + 1;
    }
    Ok(batches)
}

/// Posts what one mirror has queued: when it has posts waiting, they are
/// handed out, oldest first, and the mirror counts them as posted; a
/// mirror with nothing queued hands out nothing and stays as it was.
fn _cycle_mastodon_one(mir: &mut Mirror) -> (r: Result<Vec<Post>, error::SyncData>)
    ensures
        r matches Ok(posts) && posts@ == old(mir).queued(),
        final(mir).posted_queue_of(&*old(mir)),
{
    if mir.can_update() {
        match mir.post() {
            Ok(posts) => Ok(posts),
            Err(_) => Ok(Vec::new()),
        }
    } else {
        assert(mir.queued_ids() =~= Set::<Seq<char>>::empty());
        assert(mir.posted_ids().union(mir.queued_ids()) =~= mir.posted_ids());
        assert(mir.queued() =~= Seq::<Post>::empty());
        Ok(Vec::new())
    }
}

} // verus!
