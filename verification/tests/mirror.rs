use mastodon_mirror::config::{config_path, init_mirrors, Mirror, Sync};
use mastodon_mirror::error;
use mastodon_mirror::mastodon::Data;
use mastodon_mirror::reddit::Post;
use mastodon_mirror::sync_data::{cylce_mastodon, record_fetch, REDDIT_SLEEP_SECS};

fn data(code: &str) -> Data {
    Data {
        client_id: "cid".to_string(),
        client_secret: "secret".to_string(),
        redirect_uri: "urn:ietf:wg:oauth:2.0:oob".to_string(),
        scope: "read write".to_string(),
        grant_type: "client_credentials".to_string(),
        base: "https://mastodon.example".to_string(),
        code: code.to_string(),
        username: "user".to_string(),
        password: "pass".to_string(),
    }
}

fn sync(ext: &str, interval: u64) -> Sync {
    Sync {
        subreddit_ext: ext.to_string(),
        update_interval: interval,
        nsfw: false,
        tags: vec!["tag".to_string()],
        mastodon: data("code-1"),
    }
}

fn post(id: &str) -> Post {
    Post::new(
        format!("title {}", id),
        Some("flair".to_string()),
        false,
        3,
        0,
        id.to_string(),
        format!("https://i.redd.it/{}.jpg", id),
        "i.redd.it".to_string(),
    )
}

fn ids(posts: &[Post]) -> Vec<String> {
    posts.iter().map(|p| p.id().clone()).collect()
}

fn mirror() -> Mirror {
    Mirror::new(sync("r/pics/new.json", 60), 5).unwrap()
}

#[test]
fn new_mirror_reads_its_subreddit() {
    let m = mirror();
    assert_eq!(m.subreddit_url, "https://reddit.com/r/pics/new.json");
    assert_eq!(m.mastodon_api.token, "code-1");
    assert_eq!(m.mastodon_api.created_at, 5);
    assert_eq!(m.mastodon_api.expiration, 5);
    assert_eq!(m.mastodon_api.auth_data.base, "https://mastodon.example");
    assert!(!m.can_update());
}

#[test]
fn new_mirror_at_clock_limit() {
    let m = Mirror::new(sync("r/x", 10), u64::MAX - 10).unwrap();
    assert!(!m.can_update());
}

#[test]
fn find_unposted_ids_keeps_all_of_first_batch() {
    let m = mirror();
    let found = m.find_unposted_ids(vec![post("a"), post("b"), post("c")]);
    assert_eq!(ids(&found), vec!["a", "b", "c"]);
}

#[test]
fn find_unposted_ids_drops_queued_posts() {
    let mut m = mirror();
    m.queue_posts(vec![post("a"), post("c")]);
    let found = m.find_unposted_ids(vec![post("a"), post("b"), post("c"), post("d")]);
    assert_eq!(ids(&found), vec!["b", "d"]);
}

#[test]
fn find_unposted_ids_keeps_repeats_within_a_batch() {
    let m = mirror();
    let found = m.find_unposted_ids(vec![post("a"), post("a")]);
    assert_eq!(ids(&found), vec!["a", "a"]);
}

#[test]
fn queue_posts_appends_in_order() {
    let mut m = mirror();
    m.queue_posts(vec![post("a")]);
    m.queue_posts(vec![post("b"), post("c")]);
    let found = m.find_unposted_ids(vec![post("a"), post("b"), post("c"), post("z")]);
    assert_eq!(ids(&found), vec!["z"]);
    assert!(m.can_update());
}

#[test]
fn queue_of_empty_batch_keeps_nothing_to_post() {
    let mut m = mirror();
    m.queue_posts(vec![]);
    assert!(!m.can_update());
}

#[test]
fn requeue_finds_nothing() {
    let mut m = mirror();
    m.queue_posts(vec![post("x")]);
    let batch = vec![post("x"), post("y"), post("z"), post("y")];
    let found = m.find_unposted_ids(batch);
    assert_eq!(ids(&found), vec!["y", "z", "y"]);
    m.queue_posts(found);
    let again = m.find_unposted_ids(vec![post("x"), post("y"), post("z"), post("y")]);
    assert!(again.is_empty());
}

#[test]
fn record_fetch_queues_new_posts() {
    let mut m = mirror();
    assert!(record_fetch(&mut m, Ok(vec![post("a"), post("b")])).is_ok());
    assert!(m.can_update());
    assert!(record_fetch(&mut m, Ok(vec![post("a"), post("b")])).is_ok());
    let found = m.find_unposted_ids(vec![post("a"), post("b"), post("c")]);
    assert_eq!(ids(&found), vec!["c"]);
}

#[test]
fn record_fetch_hands_back_errors() {
    let mut m = mirror();
    let r = record_fetch(&mut m, Err(error::Reddit::ParseGfycat));
    assert!(matches!(r, Err(error::Reddit::ParseGfycat)));
    assert!(!m.can_update());
}

#[test]
fn cylce_mastodon_on_idle_mirrors() {
    let mut mirrors = vec![mirror(), mirror()];
    let batches = cylce_mastodon(&mut mirrors).unwrap();
    assert_eq!(batches.len(), 2);
    assert!(batches.iter().all(|b| b.is_empty()));
    assert_eq!(mirrors.len(), 2);
    assert!(!mirrors[0].can_update());
    let mut none: Vec<Mirror> = vec![];
    assert!(cylce_mastodon(&mut none).unwrap().is_empty());
}

#[test]
fn cylce_mastodon_hands_out_each_queue_in_order() {
    let mut a = mirror();
    a.queue_posts(vec![post("a1"), post("a2")]);
    let b = mirror();
    let mut c = mirror();
    c.queue_posts(vec![post("c1")]);
    let mut mirrors = vec![a, b, c];
    let batches = cylce_mastodon(&mut mirrors).unwrap();
    assert_eq!(batches.len(), 3);
    assert_eq!(ids(&batches[0]), vec!["a1", "a2"]);
    assert!(batches[1].is_empty());
    assert_eq!(ids(&batches[2]), vec!["c1"]);
    assert!(mirrors.iter().all(|m| !m.can_update()));
    let again = mirrors[0].find_unposted_ids(vec![post("a1"), post("a2"), post("a3")]);
    assert_eq!(ids(&again), vec!["a3"]);
    assert!(cylce_mastodon(&mut mirrors).unwrap().iter().all(|b| b.is_empty()));
}

#[test]
fn post_hands_out_the_queue_and_remembers_it() {
    let mut m = mirror();
    m.queue_posts(vec![post("x"), post("y")]);
    let posted = m.post().unwrap();
    assert_eq!(ids(&posted), vec!["x", "y"]);
    assert!(!m.can_update());
    assert!(m.find_unposted_ids(vec![post("y"), post("x")]).is_empty());
    assert!(m.post().unwrap().is_empty());
}

#[test]
fn posted_posts_are_not_fetched_again() {
    let mut m = mirror();
    assert!(record_fetch(&mut m, Ok(vec![post("p"), post("q")])).is_ok());
    let mut ms = vec![m];
    let batches = cylce_mastodon(&mut ms).unwrap();
    assert_eq!(ids(&batches[0]), vec!["p", "q"]);
    assert!(record_fetch(&mut ms[0], Ok(vec![post("p"), post("q"), post("r")])).is_ok());
    let batches = cylce_mastodon(&mut ms).unwrap();
    assert_eq!(ids(&batches[0]), vec!["r"]);
}

#[test]
fn init_mirrors_one_per_config() {
    let ms = init_mirrors(vec![sync("r/a", 1), sync("r/b", 2)], 100).unwrap();
    assert_eq!(ms.len(), 2);
    assert_eq!(ms[0].subreddit_url, "https://reddit.com/r/a");
    assert_eq!(ms[1].subreddit_url, "https://reddit.com/r/b");
    assert!(init_mirrors(vec![], 0).unwrap().is_empty());
}

#[test]
fn config_path_defaults() {
    assert_eq!(config_path(None), "config.yaml");
    assert_eq!(config_path(Some("other.yaml")), "other.yaml");
}

#[test]
fn reddit_sleep_is_two_seconds() {
    assert_eq!(REDDIT_SLEEP_SECS, 2);
}
