//! Reddit posts and gfycat links.

use vstd::prelude::*;

use vstd::std_specs::cmp::PartialEqSpecImpl;

use crate::error;
use crate::text::{ascii_lower, ascii_lowercase, contains_str, has_substring};

verus! {

/// A Reddit listing, as the API sends it.
#[derive(Debug)]
pub struct RedditData {
    pub data: DataInfo,
}

/// The body of a listing.
#[derive(Debug)]
pub struct DataInfo {
    pub children: Vec<PostWrapper>,
}

/// One entry of a listing.
#[derive(Debug)]
pub struct PostWrapper {
    pub data: Post,
}

/// A Reddit post. Two posts are equal when their ids are.
///
/// The listing also gives a creation time as a float; nothing here reads
/// it, so a post does not hold it.
#[derive(Debug)]
pub struct Post {
    pub title: String,
    pub link_flair_css_class: Option<String>,
    pub is_self: bool,
    pub upvotes: u32,
    pub downvotes: u32,
    pub id: String,
    pub url: String,
    pub domain: String,
}

impl PartialEq for Post {
    fn eq(&self, other: &Self) -> (r: bool) {
        self.id == other.id
    }
}

impl PartialEqSpecImpl for Post {
    open spec fn obeys_eq_spec() -> bool {
        true
    }

    open spec fn eq_spec(&self, other: &Self) -> bool {
        self.id@ == other.id@
    }
}

/// Whether a post links to media that can be mirrored: it is not a
/// text post, and its domain is `i.redd.it` or holds `i.imgur` or
/// `gfycat.com`.
pub open spec fn valid_post(p: Post) -> bool {
    &&& !p.is_self
    &&& {
        ||| p.domain@ == "i.redd.it"@
        ||| has_substring(p.domain@, "i.imgur"@)
        ||| has_substring(p.domain@, "gfycat.com"@)
    }
}

/// Where the media of a post is fetched from.
#[derive(Debug)]
pub enum DownloadTarget {
    /// A gfycat clip, by its name; its file address is asked of gfycat.
    Gfycat(String),
    /// A file at this address.
    Direct(String),
}

/// The download target of a link: the gfycat name when the link
/// mentions gfycat, the link itself otherwise.
pub open spec fn target_of(url: Seq<char>) -> (bool, Seq<char>) {
    if has_substring(url, "gfycat"@) {
        (true, gfycat_name(url))
    } else {
        (false, url)
    }
}

impl Post {
    /// Builds a post from the fields of a listing entry.
    pub fn new(
        title: String,
        link_flair_css_class: Option<String>,
        is_self: bool,
        upvotes: u32,
        downvotes: u32,
        id: String,
        url: String,
        domain: String,
    ) -> (p: Post)
        ensures
            p == (Post { title, link_flair_css_class, is_self, upvotes, downvotes, id, url, domain }),
    {
        Post { title, link_flair_css_class, is_self, upvotes, downvotes, id, url, domain }
    }

    /// Whether the post links to media that can be mirrored.
    pub fn is_valid(&self) -> (r: bool)
        ensures
            r == valid_post(*self),
            self.is_self ==> !r,
            !self.is_self ==> (r <==> (self.domain@ == "i.redd.it"@ || has_substring(
                self.domain@,
                "i.imgur"@,
            ) || has_substring(self.domain@, "gfycat.com"@))),
    {
        if self.is_self {
            return false;
        }
        if self.domain == String::from_str("i.redd.it") || contains_str(&self.domain, "i.imgur")
            || contains_str(&self.domain, "gfycat.com") {
            return true;
        }
        false
    }

    pub fn id(&self) -> (r: &String)
        ensures
            r == &self.id,
    {
        &self.id
    }

    pub fn id_own(self) -> (r: String)
        ensures
            r == self.id,
    {
        self.id
    }

    pub fn upvotes(&self) -> (r: &u32)
        ensures
            *r == self.upvotes,
    {
        &self.upvotes
    }

    pub fn url(&self) -> (r: &String)
        ensures
            r == &self.url,
    {
        &self.url
    }

    /// Decides where the media of the post is fetched from: a link that
    /// mentions gfycat is reduced to the clip's name, which gfycat then
    /// resolves; any other link is fetched as it is.
    pub fn download_target(self) -> (t: DownloadTarget)
        ensures
            target_of(self.url@).0 ==> (t matches DownloadTarget::Gfycat(name) && name@
                == target_of(self.url@).1),
            !target_of(self.url@).0 ==> (t matches DownloadTarget::Direct(u) && u@ == self.url@),
            has_substring(self.url@, "gfycat"@) ==> (t matches DownloadTarget::Gfycat(name) && name@
                == gfycat_name(self.url@)),
            !has_substring(self.url@, "gfycat"@) ==> (t matches DownloadTarget::Direct(u) && u@
                == self.url@),
    {
        if contains_str(&self.url, "gfycat") {
            // A link that holds `gfycat` is not empty, so it has a name.
            proof {
                reveal_strlit("gfycat");
            }
            match strip_gfycat(&self.url) {
                Ok(name) => DownloadTarget::Gfycat(name.to_owned()),
                Err(_) => DownloadTarget::Direct(self.url),
            }
        } else {
            DownloadTarget::Direct(self.url)
        }
    }
}

/// The posts of a listing, in the listing's order.
pub fn listing_posts(data: RedditData) -> (posts: Vec<Post>)
    ensures
        posts@ == data.data.children@.map_values(|w: PostWrapper| w.data),
{
    let children = data.data.children;
    let ghost all = children@;
    let mut posts: Vec<Post> = Vec::new();
    for w in it: children.into_iter()
        invariant
            it.seq() == all,
            posts@ == all.take(it.index()).map_values(|w: PostWrapper| w.data),
    {
        posts.push(w.data);
        proof {
            assert(all.take(it.index() + 1) =~= all.take(it.index()).push(w));
        }
    }
    assert(all.take(all.len() as int) =~= all);
    posts
}

/// The address at which gfycat would be expected to serve the webm file
/// of the clip `base_url`.
pub fn gfycat_webm(base_url: &str) -> (r: String)
    ensures
        r@ == "https://giant.gfycat.com/"@ + base_url@ + ".webm"@,
{
    let mut r = String::from_str("https://giant.gfycat.com/");
    r.append(base_url);
    r.append(".webm");
    r
}

/// Compares the expected webm address of a clip with the one gfycat
/// reported, both in lower case: the pair `(expected, reported)`.
pub fn webm_extrapolation(name: &str, reported: &str) -> (r: (String, String))
    ensures
        r.0@ == ascii_lower("https://giant.gfycat.com/"@ + name@ + ".webm"@),
        r.1@ == ascii_lower(reported@),
{
    let extrap = gfycat_webm(name);
    (ascii_lowercase(extrap.as_str()), ascii_lowercase(reported))
}

/// The part of `t` after its last `c`; all of `t` when it holds no `c`.
pub open spec fn after_last(t: Seq<char>, c: char) -> Seq<char>
    decreases t.len(),
{
    if t.len() == 0 {
        t
    } else if t.last() == c {
        Seq::empty()
    } else {
        after_last(t.drop_last(), c).push(t.last())
    }
}

/// The part of `t` before its first `c`; all of `t` when it holds no `c`.
pub open spec fn before_first(t: Seq<char>, c: char) -> Seq<char>
    decreases t.len(),
{
    if t.len() == 0 {
        t
    } else if t[0] == c {
        Seq::empty()
    } else {
        seq![t[0]] + before_first(t.drop_first(), c)
    }
}

/// `t` without one trailing `/`.
pub open spec fn trim_trailing_slash(t: Seq<char>) -> Seq<char> {
    if t.len() > 0 && t.last() == '/' {
        t.drop_last()
    } else {
        t
    }
}

/// The gfycat name in a link: the first hyphen-separated word of the
/// last path segment, after one trailing slash is dropped.
pub open spec fn gfycat_name(url: Seq<char>) -> Seq<char> {
    before_first(after_last(trim_trailing_slash(url), '/'), '-')
}

/// `after_last` is the suffix that starts after the position `i` found
/// by scanning back from the end.
proof fn lemma_after_last_at(t: Seq<char>, c: char, i: int)
    requires
        0 <= i <= t.len(),
        forall|k: int| i <= k < t.len() ==> t[k] != c,
        i == 0 || t[i - 1] == c,
    ensures
        after_last(t, c) =~= t.subrange(i, t.len() as int),
    decreases t.len(),
{
    if t.len() == 0 {
    } else if t.last() == c {
        assert(i == t.len());
    } else {
        lemma_after_last_at(t.drop_last(), c, i);
        assert(t.drop_last().subrange(i, t.len() - 1).push(t.last()) =~= t.subrange(
            i,
            t.len() as int,
        ));
    }
}

/// `before_first` is the prefix that ends at the position `m` found by
/// scanning forward from the start.
proof fn lemma_before_first_at(t: Seq<char>, c: char, m: int)
    requires
        0 <= m <= t.len(),
        forall|k: int| 0 <= k < m ==> t[k] != c,
        m == t.len() || t[m] == c,
    ensures
        before_first(t, c) =~= t.subrange(0, m),
    decreases t.len(),
{
    if t.len() == 0 {
    } else if t[0] == c {
        assert(m == 0);
    } else {
        lemma_before_first_at(t.drop_first(), c, m - 1);
        assert(seq![t[0]] + t.drop_first().subrange(0, m - 1) =~= t.subrange(0, m));
    }
}

/// `before_first(t, c)` is a prefix of `t` that holds no `c`; when `t`
/// holds no `c` it is all of `t`.
proof fn lemma_before_first_shape(t: Seq<char>, c: char)
    ensures
        before_first(t, c).len() <= t.len(),
        before_first(t, c) =~= t.subrange(0, before_first(t, c).len() as int),
        !before_first(t, c).contains(c),
        !t.contains(c) ==> before_first(t, c) =~= t,
    decreases t.len(),
{
    if t.len() == 0 {
    } else if t[0] == c {
        assert(t.contains(c));
    } else {
        let rest = t.drop_first();
        lemma_before_first_shape(rest, c);
        let r = before_first(t, c);
        assert(r =~= seq![t[0]] + before_first(rest, c));
        assert forall|k: int| 0 <= k < r.len() implies r[k] != c by {
            if k > 0 {
                assert(r[k] == before_first(rest, c)[k - 1]);
            }
        }
        if !t.contains(c) {
            assert forall|k: int| 0 <= k < rest.len() implies rest[k] != c by {
                assert(rest[k] == t[k + 1]);
            }
        }
    }
}

/// `after_last(t, c)` is a suffix of `t` that holds no `c`; when `t`
/// holds no `c` it is all of `t`.
proof fn lemma_after_last_shape(t: Seq<char>, c: char)
    ensures
        after_last(t, c).len() <= t.len(),
        after_last(t, c) =~= t.subrange(t.len() - after_last(t, c).len(), t.len() as int),
        !after_last(t, c).contains(c),
        !t.contains(c) ==> after_last(t, c) =~= t,
    decreases t.len(),
{
    if t.len() == 0 {
    } else if t.last() == c {
        assert(t.contains(c));
    } else {
        let rest = t.drop_last();
        lemma_after_last_shape(rest, c);
        let r = after_last(t, c);
        assert(r =~= after_last(rest, c).push(t.last()));
        assert forall|k: int| 0 <= k < r.len() implies r[k] != c by {
            if k < r.len() - 1 {
                assert(r[k] == after_last(rest, c)[k]);
            }
        }
        if !t.contains(c) {
            assert forall|k: int| 0 <= k < rest.len() implies rest[k] != c by {
                assert(rest[k] == t[k]);
            }
        }
    }
}

/// A gfycat name holds no `/` and no `-`: it is one word of one path
/// segment.
pub proof fn lemma_gfycat_name_is_one_word(url: Seq<char>)
    ensures
        !gfycat_name(url).contains('/'),
        !gfycat_name(url).contains('-'),
{
    let seg = after_last(trim_trailing_slash(url), '/');
    lemma_after_last_shape(trim_trailing_slash(url), '/');
    lemma_before_first_shape(seg, '-');
    let name = gfycat_name(url);
    assert forall|k: int| 0 <= k < name.len() implies name[k] != '/' by {
        assert(name[k] == seg[k]);
    }
}

/// Reducing a name once more changes nothing: the gfycat name of a gfycat
/// name is that name.
pub proof fn lemma_gfycat_name_idempotent(url: Seq<char>)
    ensures
        gfycat_name(gfycat_name(url)) == gfycat_name(url),
{
    let name = gfycat_name(url);
    lemma_gfycat_name_is_one_word(url);
    assert(trim_trailing_slash(name) =~= name) by {
        if name.len() > 0 {
            assert(name.contains(name.last()));
        }
    }
    lemma_after_last_shape(name, '/');
    lemma_before_first_shape(name, '-');
}

/// Which posts are media: a text post never is; any other post is exactly
/// when its domain is `i.redd.it` or holds `i.imgur` or `gfycat.com`.
pub proof fn lemma_valid_post_domains(p: Post)
    ensures
        p.is_self ==> !valid_post(p),
        !p.is_self ==> (valid_post(p) <==> (p.domain@ == "i.redd.it"@ || has_substring(
            p.domain@,
            "i.imgur"@,
        ) || has_substring(p.domain@, "gfycat.com"@))),
{
}

/// `needle` does not occur in `hay` when no position of `hay` starts it:
/// checking the first character of `needle` at every position suffices.
proof fn lemma_no_occurrence(hay: Seq<char>, needle: Seq<char>)
    requires
        needle.len() >= 2,
        forall|i: int|
            #![trigger hay[i]]
            0 <= i && i + needle.len() <= hay.len() ==> (hay[i] != needle[0] || hay[i + 1] != needle[1]),
    ensures
        !has_substring(hay, needle),
{
    assert forall|i: int| !crate::text::occurs_at(hay, needle, i) by {
        if crate::text::occurs_at(hay, needle, i) {
            assert(hay.subrange(i, i + needle.len())[0] == needle[0]);
            assert(hay.subrange(i, i + needle.len())[1] == needle[1]);
        }
    }
}

/// Page links of imgur are not media: a post on `imgur.com` or
/// `m.imgur.com` is never valid, though the domain holds `imgur`.
pub proof fn lemma_imgur_pages_are_not_media(p: Post)
    requires
        p.domain@ == "imgur.com"@ || p.domain@ == "m.imgur.com"@,
    ensures
        !valid_post(p),
{
    reveal_strlit("imgur.com");
    reveal_strlit("m.imgur.com");
    reveal_strlit("i.redd.it");
    reveal_strlit("i.imgur");
    reveal_strlit("gfycat.com");
    assert(p.domain@ != "i.redd.it"@) by {
        assert(p.domain@.len() != "i.redd.it"@.len() || p.domain@[1] != "i.redd.it"@[1]);
    }
    lemma_no_occurrence(p.domain@, "i.imgur"@);
    lemma_no_occurrence(p.domain@, "gfycat.com"@);
}

/// Every link that mentions `gfycat` anywhere is resolved through gfycat,
/// by its gfycat name; every other link is fetched as it is.
pub proof fn lemma_gfycat_links_resolve(url: Seq<char>)
    ensures
        has_substring(url, "gfycat"@) ==> target_of(url) == (true, gfycat_name(url)),
        !has_substring(url, "gfycat"@) ==> target_of(url) == (false, url),
{
}

/// Reduces a gfycat link to the name of its clip.
///
/// One trailing `/` is dropped; of what remains, the last path segment is
/// taken, and of that segment the part before its first `-`. An empty link
/// has no name.
pub fn strip_gfycat(input: &str) -> (res: Result<&str, error::Reddit>)
    ensures
        input@.len() == 0 ==> res matches Err(error::Reddit::ParseGfycat),
        input@.len() > 0 ==> (res matches Ok(name) && name@ == gfycat_name(input@)),
{
    let n = input.unicode_len();
    if n == 0 {
        return Err(error::Reddit::ParseGfycat);
    }
    let ghost t = trim_trailing_slash(input@);
    let end: usize = if input.get_char(n - 1) == '/' {
        n - 1
    } else {
        n
    };
    assert(t =~= input@.subrange(0, end as int));
    let mut start: usize = end;
    while start > 0 && input.get_char(start - 1) != '/'
        invariant
            0 <= start <= end <= n,
            n == input@.len(),
            t =~= input@.subrange(0, end as int),
            forall|k: int| start <= k < end ==> input@[k] != '/',
        decreases start,
    {
        start = start - 1;
    }
    proof {
        lemma_after_last_at(t, '/', start as int);
    }
    let ghost chunk = after_last(t, '/');
    assert(chunk =~= input@.subrange(start as int, end as int));
    let mut stop: usize = start;
    while stop < end && input.get_char(stop) != '-'
        invariant
            start <= stop <= end <= n,
            n == input@.len(),
            chunk =~= input@.subrange(start as int, end as int),
            forall|k: int| start <= k < stop ==> input@[k] != '-',
        decreases end - stop,
    {
        stop = stop + 1;
    }
    proof {
        lemma_before_first_at(chunk, '-', (stop - start) as int);
        assert(chunk.subrange(0, (stop - start) as int) =~= input@.subrange(
            start as int,
            stop as int,
        ));
    }
    Ok(input.substring_char(start, stop))
}

} // verus!
