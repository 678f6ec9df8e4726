//! The configuration of the mirrors and the state of each mirror.

use vstd::prelude::*;

use crate::error;
use crate::mastodon;
use crate::reddit;

verus! {

/// The configuration of one mirror: a subreddit, how often it is read,
/// whether it is NSFW, its tags and the Mastodon account it posts to.
#[derive(Debug)]
pub struct Sync {
    pub subreddit_ext: String,
    pub update_interval: u64,
    pub nsfw: bool,
    pub tags: Vec<String>,
    pub mastodon: mastodon::Data,
}

/// One subreddit mirrored to one Mastodon account. Times are seconds on
/// the program's clock.
#[derive(Debug)]
pub struct Mirror {
    pub subreddit_url: String,
    pub mastodon_api: mastodon::Api,
    next_update: u64,
    previous_ids: Vec<String>,
    to_post: Vec<reddit::Post>,
    nsfw: bool,
}

/// The address of a subreddit, from the part after `reddit.com/`.
pub open spec fn subreddit_url_of(ext: Seq<char>) -> Seq<char> {
    "https://reddit.com/"@ + ext
}

/// The configuration file read when none is named.
pub open spec fn default_config_path() -> Seq<char> {
    "config.yaml"@
}

impl Mirror {
    /// The address of the subreddit that the mirror reads.
    pub closed spec fn url(&self) -> Seq<char> {
        self.subreddit_url@
    }

    /// The account that the mirror posts to.
    pub closed spec fn api(&self) -> mastodon::Api {
        self.mastodon_api
    }

    /// The ids of the posts that this mirror has posted.
    pub closed spec fn posted_ids(&self) -> Set<Seq<char>> {
        Set::new(|s: Seq<char>| exists|i: int| 0 <= i < self.previous_ids@.len() && self.previous_ids@[i]@ == s)
    }

    /// The posts waiting to be posted, oldest first.
    pub closed spec fn queued(&self) -> Seq<reddit::Post> {
        self.to_post@
    }

    /// When the mirror is next due to read its subreddit.
    pub closed spec fn next_update_at(&self) -> u64 {
        self.next_update
    }

    /// Whether the mirror is marked NSFW.
    pub closed spec fn is_nsfw(&self) -> bool {
        self.nsfw
    }

    /// The ids of the queued posts.
    pub open spec fn queued_ids(&self) -> Set<Seq<char>> {
        Set::new(|s: Seq<char>| exists|j: int| 0 <= j < self.queued().len() && self.queued()[j].id@ == s)
    }

    /// A post is new to the mirror when its id is neither posted nor queued.
    pub open spec fn is_new(&self, p: reddit::Post) -> bool {
        !self.posted_ids().contains(p.id@) && !self.queued_ids().contains(p.id@)
    }

    /// The new posts of a batch, in the batch's order.
    pub open spec fn unposted(&self, posts: Seq<reddit::Post>) -> Seq<reddit::Post> {
        posts.filter(|p: reddit::Post| self.is_new(p))
    }

    /// `self` is the mirror that `sync` sets up at time `now`.
    pub open spec fn set_up_from(&self, sync: Sync, now: u64) -> bool {
        &&& self.url() == subreddit_url_of(sync.subreddit_ext@)
        &&& self.api().token@ == sync.mastodon.code@
        &&& self.api().auth_data == sync.mastodon
        &&& self.api().expiration == now
        &&& self.api().created_at == now
        &&& self.next_update_at() == now + sync.update_interval
        &&& self.posted_ids() == Set::<Seq<char>>::empty()
        &&& self.queued() == Seq::<reddit::Post>::empty()
        &&& self.is_nsfw() == sync.nsfw
    }

    /// `other` differs from `self` in its queue alone.
    pub open spec fn same_but_queue(&self, other: &Mirror) -> bool {
        &&& other.url() == self.url()
        &&& other.api() == self.api()
        &&& other.next_update_at() == self.next_update_at()
        &&& other.posted_ids() == self.posted_ids()
        &&& other.is_nsfw() == self.is_nsfw()
    }

    /// `self` is `before` after posting its whole queue: the queue is empty,
    /// the ids of the queued posts are among the posted ids, and nothing
    /// else changed.
    pub open spec fn posted_queue_of(&self, before: &Mirror) -> bool {
        &&& self.url() == before.url()
        &&& self.api() == before.api()
        &&& self.next_update_at() == before.next_update_at()
        &&& self.is_nsfw() == before.is_nsfw()
        &&& self.queued() == Seq::<reddit::Post>::empty()
        &&& self.posted_ids() == before.posted_ids().union(before.queued_ids())
    }

    /// Sets up the mirror that `sync` describes, at time `now`: it reads
    /// `https://reddit.com/` followed by the subreddit, is first due
    /// `update_interval` seconds after `now`, and has posted and queued
    /// nothing.
    pub fn new(sync: Sync, now: u64) -> (r: Result<Self, error::Config>)
        requires
            now + sync.update_interval <= u64::MAX,
        ensures
            r matches Ok(m) && m.set_up_from(sync, now),
            r matches Ok(m) && m.url() == "https://reddit.com/"@ + sync.subreddit_ext@,
    {
        let api = match mastodon::Api::new(sync.mastodon, now) {
            Ok(api) => api,
            Err(e) => return Err(error::Config::Mastodon(e)),
        };
        let next_update = now + sync.update_interval;
        let mut subreddit_url = String::from_str("https://reddit.com/");
        subreddit_url.append(sync.subreddit_ext.as_str());
        let m = Mirror {
            next_update,
            subreddit_url,
            mastodon_api: api,
            previous_ids: Vec::new(),
            to_post: Vec::new(),
            nsfw: sync.nsfw,
        };
        assert(m.posted_ids() =~= Set::<Seq<char>>::empty());
        proof {
            lemma_unposted_are_exactly_new(m, Seq::empty());
        }
        Ok(m)
    }

    /// Whether the mirror has posted a post with id `id`.
    fn has_posted(&self, id: &String) -> (r: bool)
        ensures
            r == self.posted_ids().contains(id@),
    {
        let mut i: usize = 0;
        while i < self.previous_ids.len()
            invariant
                i <= self.previous_ids@.len(),
                forall|k: int| 0 <= k < i ==> self.previous_ids@[k]@ != id@,
            decreases self.previous_ids@.len() - i,
        {
            if self.previous_ids[i] == *id {
                return true;
            }
            i = i + 1;
        }
        false
    }

    /// Whether a post with the id of `p` is queued.
    fn has_queued(&self, p: &reddit::Post) -> (r: bool)
        ensures
            r == self.queued_ids().contains(p.id@),
    {
        let mut j: usize = 0;
        while j < self.to_post.len()
            invariant
                j <= self.to_post@.len(),
                forall|k: int| 0 <= k < j ==> self.to_post@[k].id@ != p.id@,
            decreases self.to_post@.len() - j,
        {
            if self.to_post[j] == *p {
                return true;
            }
            j = j + 1;
        }
        false
    }

    /// The posts of `input_ids` that are new to the mirror, in their
    /// order: those whose id the mirror has neither posted nor queued.
    pub fn find_unposted_ids(&self, input_ids: Vec<reddit::Post>) -> (r: Vec<reddit::Post>)
        ensures
            r@ == self.unposted(input_ids@),
            forall|i: int|
                0 <= i < input_ids@.len() ==> (r@.contains(#[trigger] input_ids@[i]) <== (
                !self.posted_ids().contains(input_ids@[i].id@) && !(exists|j: int|
                    0 <= j < self.queued().len() && self.queued()[j].id@ == input_ids@[i].id@))),
            forall|i: int|
                0 <= i < r@.len() ==> !self.posted_ids().contains(#[trigger] r@[i].id@) && !(exists|
                    j: int,
                | 0 <= j < self.queued().len() && self.queued()[j].id@ == r@[i].id@),
    {
        let ghost all = input_ids@;
        let mut out: Vec<reddit::Post> = Vec::new();
        for x in it: input_ids.into_iter()
            invariant
                it.seq() == all,
                out@ == self.unposted(all.take(it.index())),
        {
            let keep = !self.has_posted(&x.id) && !self.has_queued(&x);
            proof {
                reveal(Seq::filter);
                assert(all.take(it.index() + 1).drop_last() =~= all.take(it.index()));
            }
            if keep {
                out.push(x);
            }
        }
        assert(all.take(all.len() as int) =~= all);
        out
    }

    /// Puts `new_posts` at the end of the queue.
    pub fn queue_posts(&mut self, new_posts: Vec<reddit::Post>)
        ensures
            final(self).queued() == old(self).queued() + new_posts@,
            old(self).same_but_queue(&*final(self)),
    {
        let mut new_posts = new_posts;
        self.to_post.append(&mut new_posts);
    }

    /// Whether posts are waiting to be posted.
    pub fn can_update(&self) -> (r: bool)
        ensures
            r == (self.queued().len() > 0),
    {
        if self.to_post.len() > 0 {
            true
        } else {
            false
        }
    }

    /// Posts the queue: hands out the queued posts, oldest first, for the
    /// program to send to the Mastodon account, empties the queue and
    /// counts their ids as posted, so that they are never found new again.
    pub fn post(&mut self) -> (r: Result<Vec<reddit::Post>, error::Config>)
        ensures
            r matches Ok(posts) && posts@ == old(self).queued(),
            final(self).posted_queue_of(&*old(self)),
    {
        let mut taken: Vec<reddit::Post> = Vec::new();
        std::mem::swap(&mut taken, &mut self.to_post);
        let ghost before = old(self).previous_ids@;
        let mut k: usize = 0;
        while k < taken.len()
            invariant
                taken@ == old(self).to_post@,
                self.to_post@ == Seq::<reddit::Post>::empty(),
                self.subreddit_url == old(self).subreddit_url,
                self.mastodon_api == old(self).mastodon_api,
                self.next_update == old(self).next_update,
                self.nsfw == old(self).nsfw,
                before == old(self).previous_ids@,
                k <= taken@.len(),
                self.previous_ids@.len() == before.len() + k,
                forall|i: int| 0 <= i < before.len() ==> #[trigger] self.previous_ids@[i] == before[i],
                forall|j: int| 0 <= j < k ==> #[trigger] self.previous_ids@[before.len() + j]@ == taken@[j].id@,
            decreases taken@.len() - k,
        {
            let id = taken[k].id.clone();
            self.previous_ids.push(id);
            k = k + 1;
        }
        proof {
            let now = self.posted_ids();
            let want = old(self).posted_ids().union(old(self).queued_ids());
            assert forall|s: Seq<char>| now.contains(s) implies want.contains(s) by {
                let i = choose|i: int| 0 <= i < self.previous_ids@.len() && self.previous_ids@[i]@ == s;
                if i < before.len() {
                    assert(old(self).previous_ids@[i]@ == s);
                } else {
                    let j = i - before.len();
                    assert(self.previous_ids@[before.len() + j]@ == taken@[j].id@);
                    assert(old(self).queued()[j].id@ == s);
                }
            }
            assert forall|s: Seq<char>| want.contains(s) implies now.contains(s) by {
                if old(self).posted_ids().contains(s) {
                    let i = choose|i: int| 0 <= i < before.len() && before[i]@ == s;
                    assert(self.previous_ids@[i]@ == s);
                } else {
                    let j = choose|j: int| 0 <= j < old(self).queued().len() && old(self).queued()[j].id@ == s;
                    assert(self.previous_ids@[before.len() + j]@ == s);
                }
            }
            assert(now =~= want);
        }
        Ok(taken)
    }
}

/// The new posts of a batch are exactly the batch's posts whose id the
/// mirror has neither posted nor queued: each of them is new and comes
/// from the batch, each new post of the batch is among them, and there
/// are never more of them than posts in the batch.
pub proof fn lemma_unposted_are_exactly_new(m: Mirror, posts: Seq<reddit::Post>)
    ensures
        m.unposted(posts).len() <= posts.len(),
        forall|i: int| 0 <= i < m.unposted(posts).len() ==> m.is_new(#[trigger] m.unposted(posts)[i]),
        forall|p: reddit::Post| #[trigger] m.unposted(posts).contains(p) ==> posts.contains(p),
        forall|i: int| 0 <= i < posts.len() && m.is_new(posts[i]) ==> #[trigger] m.unposted(posts).contains(posts[i]),
{
    broadcast use vstd::seq_lib::group_filter_ensures;
    let pred = |p: reddit::Post| m.is_new(p);
    posts.lemma_filter_len(pred);
    assert forall|i: int| 0 <= i < m.unposted(posts).len() implies m.is_new(#[trigger] m.unposted(posts)[i]) by {
        posts.lemma_filter_pred(pred, i);
    }
    assert forall|i: int| 0 <= i < posts.len() && m.is_new(posts[i]) implies #[trigger] m.unposted(posts).contains(posts[i]) by {
        posts.lemma_filter_contains(pred, i);
    }
    assert forall|p: reddit::Post| #[trigger] m.unposted(posts).contains(p) implies posts.contains(p) by {
        posts.lemma_filter_contains_rev(pred, p);
    }
}

/// Queuing the new posts of a batch makes the same batch hold nothing new:
/// reading the same posts again queues nothing twice.
pub proof fn lemma_requeue_finds_nothing(m: Mirror, after: Mirror, posts: Seq<reddit::Post>)
    requires
        after.posted_ids() == m.posted_ids(),
        after.queued() == m.queued() + m.unposted(posts),
    ensures
        after.unposted(posts) == Seq::<reddit::Post>::empty(),
{
    broadcast use vstd::seq_lib::group_filter_ensures;
    let found = m.unposted(posts);
    lemma_unposted_are_exactly_new(m, posts);
    assert forall|i: int| 0 <= i < posts.len() implies !after.is_new(#[trigger] posts[i]) by {
        let p = posts[i];
        if m.is_new(p) {
            assert(m.unposted(posts).contains(posts[i]));
            let j = choose|j: int| 0 <= j < found.len() && found[j] == p;
            assert(after.queued()[m.queued().len() + j] == p);
            assert(after.queued_ids().contains(p.id@));
        } else if m.queued_ids().contains(p.id@) {
            let j = choose|j: int| 0 <= j < m.queued().len() && m.queued()[j].id@ == p.id@;
            assert(after.queued()[j] == m.queued()[j]);
            assert(after.queued_ids().contains(p.id@));
        }
    }
    lemma_unposted_empty(after, posts);
}

/// A batch of which no post is new has no new posts.
proof fn lemma_unposted_empty(m: Mirror, posts: Seq<reddit::Post>)
    requires
        forall|i: int| 0 <= i < posts.len() ==> !m.is_new(#[trigger] posts[i]),
    ensures
        m.unposted(posts) == Seq::<reddit::Post>::empty(),
{
    broadcast use vstd::seq_lib::group_filter_ensures;
    let pred = |p: reddit::Post| m.is_new(p);
    let rest = m.unposted(posts);
    if rest.len() > 0 {
        // The first post left would be new, yet it comes from the batch.
        posts.lemma_filter_pred(pred, 0);
        assert(rest.contains(rest[0]));
        posts.lemma_filter_contains_rev(pred, rest[0]);
        let k = choose|k: int| 0 <= k < posts.len() && posts[k] == rest[0];
        assert(!m.is_new(posts[k]));
    }
    assert(rest =~= Seq::<reddit::Post>::empty());
}

/// Once a mirror has posted its queue, no post whose id it had posted or
/// queued is new to it: in particular the posts it handed out are never
/// found new, and so never queued, again.
pub proof fn lemma_posted_not_found_again(m: Mirror, after: Mirror, p: reddit::Post)
    requires
        after.posted_queue_of(&m),
        m.posted_ids().contains(p.id@) || m.queued_ids().contains(p.id@),
    ensures
        !after.is_new(p),
        after.unposted(m.queued()) == Seq::<reddit::Post>::empty(),
{
    assert forall|i: int| 0 <= i < m.queued().len() implies !after.is_new(#[trigger] m.queued()[i]) by {
        assert(m.queued_ids().contains(m.queued()[i].id@));
    }
    lemma_unposted_empty(after, m.queued());
}

/// A mirror that queued a non-empty batch has posts to post.
pub proof fn lemma_queued_batch_allows_update(m: Mirror, after: Mirror, batch: Seq<reddit::Post>)
    requires
        after.queued() == m.queued() + batch,
        batch.len() > 0,
    ensures
        after.queued().len() > 0,
{
}

/// Whether a post is new depends on its id alone: two posts with the same
/// id are new together, whatever their other fields.
pub proof fn lemma_new_depends_on_id(m: Mirror, p: reddit::Post, q: reddit::Post)
    requires
        p.id@ == q.id@,
    ensures
        m.is_new(p) == m.is_new(q),
        m.is_new(p) == (!m.posted_ids().contains(p.id@) && !(exists|j: int|
            0 <= j < m.queued().len() && m.queued()[j].id@ == p.id@)),
{
}

/// A mirror that has posted and queued nothing finds every post of a
/// batch new, in the batch's order.
pub proof fn lemma_fresh_mirror_finds_all(m: Mirror, posts: Seq<reddit::Post>)
    requires
        m.posted_ids() == Set::<Seq<char>>::empty(),
        m.queued() == Seq::<reddit::Post>::empty(),
    ensures
        m.unposted(posts) == posts,
    decreases posts.len(),
{
    reveal(Seq::filter);
    if posts.len() > 0 {
        lemma_fresh_mirror_finds_all(m, posts.drop_last());
        assert(m.is_new(posts.last()));
        assert(posts.drop_last().push(posts.last()) =~= posts);
    }
}

/// The address of a subreddit is `https://reddit.com/` followed by the
/// whole configured part, character for character.
pub proof fn lemma_subreddit_url_keeps_ext(ext: Seq<char>)
    ensures
        subreddit_url_of(ext).len() == 19 + ext.len(),
        subreddit_url_of(ext).subrange(0, 19int) == "https://reddit.com/"@,
        subreddit_url_of(ext).subrange(19int, 19 + ext.len() as int) == ext,
{
    reveal_strlit("https://reddit.com/");
    assert(subreddit_url_of(ext).subrange(0, 19int) =~= "https://reddit.com/"@);
    assert(subreddit_url_of(ext).subrange(19int, 19 + ext.len() as int) =~= ext);
}

/// The configuration file to read: `path`, or `config.yaml` when none is
/// named.
pub fn config_path(path: Option<&str>) -> (r: &str)
    ensures
        r@ == match path {
            Some(p) => p@,
            None => default_config_path(),
        },
{
    match path {
        Some(p) => p,
        None => "config.yaml",
    }
}

/// Sets up one mirror per configuration, at time `now`, in the
/// configurations' order.
pub fn init_mirrors(config_input: Vec<Sync>, now: u64) -> (r: Result<Vec<Mirror>, error::Config>)
    requires
        forall|i: int| 0 <= i < config_input@.len() ==> now + #[trigger] config_input@[i].update_interval <= u64::MAX,
    ensures
        r matches Ok(ms) && ms@.len() == config_input@.len() && forall|i: int|
            0 <= i < ms@.len() ==> #[trigger] ms@[i].set_up_from(config_input@[i], now),
{
    let ghost all = config_input@;
    let mut mirrors: Vec<Mirror> = Vec::with_capacity(config_input.len());
    for mir in it: config_input.into_iter()
        invariant
            it.seq() == all,
            forall|i: int| 0 <= i < all.len() ==> now + #[trigger] all[i].update_interval <= u64::MAX,
            mirrors@.len() == it.index(),
            forall|i: int| 0 <= i < mirrors@.len() ==> #[trigger] mirrors@[i].set_up_from(all[i], now),
    {
        let m = Mirror::new(mir, now);
        if let Ok(data) = m {
            mirrors.push(data);
        }
    }
    Ok(mirrors)
}

} // verus!
