use mastodon_mirror::error;
use mastodon_mirror::mastodon::{finish_url, init_grant_type, Api, AppCredentials, Data};

fn data() -> Data {
    Data {
        client_id: "my id".to_string(),
        client_secret: "secret".to_string(),
        redirect_uri: "urn:ietf:wg:oauth:2.0:oob".to_string(),
        scope: "read write".to_string(),
        grant_type: init_grant_type(),
        base: "https://botsin.space".to_string(),
        code: "the-code".to_string(),
        username: "u".to_string(),
        password: "p".to_string(),
    }
}

#[test]
fn grant_type_default() {
    assert_eq!(init_grant_type(), "client_credentials");
}

#[test]
fn authorize_asks_for_a_code() {
    let d = data();
    let req = d.authorize();
    assert_eq!(req.client_id, "my id");
    assert_eq!(req.redirect_uri, "urn:ietf:wg:oauth:2.0:oob");
    assert_eq!(req.scope, "read write");
    assert_eq!(req.response_type, "code");
}

#[test]
fn authorize_url_is_form_encoded() {
    let d = data();
    let url = d.authorize().url("https://botsin.space/oauth/authorize?".to_string()).unwrap();
    assert_eq!(
        url,
        "https://botsin.space/oauth/authorize?client_id=my+id&redirect_uri=urn%3Aietf%3Awg%3Aoauth%3A2.0%3Aoob&scope=read+write&response_type=code"
    );
}

#[test]
fn finish_url_appends_query() {
    let r = finish_url("https://a.b/?".to_string(), Ok("x=1".to_string()));
    assert_eq!(r.unwrap(), "https://a.b/?x=1");
}

#[test]
fn finish_url_maps_encoding_errors() {
    let bad = serde_urlencoded::to_string(5u8).unwrap_err();
    let r = finish_url("https://a.b/?".to_string(), Err(bad));
    assert!(matches!(r, Err(error::Mastodon::SerdeUrl(_))));
}

#[test]
fn api_new_takes_the_code_as_token() {
    let api = Api::new(data(), 42).unwrap();
    assert_eq!(api.token, "the-code");
    assert_eq!(api.created_at, 42);
    assert_eq!(api.expiration, 42);
    assert_eq!(api.auth_data.client_id, "my id");
}

#[test]
fn api_endpoints() {
    let api = Api::new(data(), 0).unwrap();
    assert_eq!(api.media_endpoint(), "https://botsin.space/api/v1/media");
    assert_eq!(api.statuses_endpoint(), "https://botsin.space/api/v1/statuses");
    assert_eq!(
        api.verify_credentials_endpoint(),
        "https://botsin.space/api/v1/accounts/verify_credentials"
    );
}

#[test]
fn defaults_are_empty() {
    let d = Data::default();
    assert!(d.client_id.is_empty() && d.base.is_empty() && d.code.is_empty());
    let c = AppCredentials::default();
    assert!(c.id.is_empty() && !c.bot && c.followers_count == 0);
    assert!(c.last_status_at.is_none() && c.fields.is_empty() && c.source.langugae.is_none());
}

#[test]
fn config_error_from_mastodon() {
    let e: error::Config = error::Mastodon::Blank.into();
    assert!(matches!(e, error::Config::Mastodon(error::Mastodon::Blank)));
}

#[test]
fn config_error_from_io_and_yaml() {
    let io = std::io::Error::new(std::io::ErrorKind::NotFound, "missing");
    let e: error::Config = io.into();
    assert!(matches!(e, error::Config::OpenFile(_)));
    let yaml = serde_yaml::from_str::<Vec<u32>>("a: [").unwrap_err();
    let e: error::Config = yaml.into();
    assert!(matches!(e, error::Config::Serde(_)));
}

#[test]
fn reddit_and_mastodon_errors_from_json() {
    let json = serde_json::from_str::<u32>("x").unwrap_err();
    let e: error::Reddit = json.into();
    assert!(matches!(e, error::Reddit::Serde(_)));
    let json = serde_json::from_str::<u32>("x").unwrap_err();
    let e: error::Mastodon = json.into();
    assert!(matches!(e, error::Mastodon::Serde(_)));
    let url = serde_urlencoded::to_string(1u8).unwrap_err();
    let e: error::Mastodon = url.into();
    assert!(matches!(e, error::Mastodon::SerdeUrl(_)));
}
