use fmbot::apis::lastfm::api::{deserialize, ping_outcome, ApiError, LastFm};
use fmbot::apis::lastfm::params::ParamsMap;
use fmbot::apis::lastfm::structs::{LastFmError, TimePeriod};
use fmbot::apis::lastfm::user::{get_info, get_top_albums, param_with_auth, UserAuthentication};

fn pairs_of(params: &ParamsMap) -> Vec<(String, String)> {
    params.pairs().clone()
}

fn owned(pairs: &[(&str, &str)]) -> Vec<(String, String)> {
    pairs.iter().map(|(k, v)| (k.to_string(), v.to_string())).collect()
}

#[test]
fn apiformat_names_every_period() {
    assert_eq!(TimePeriod::Week.apiformat(), "7day");
    assert_eq!(TimePeriod::Month.apiformat(), "1month");
    assert_eq!(TimePeriod::Quarter.apiformat(), "3month");
    assert_eq!(TimePeriod::HalfYear.apiformat(), "6month");
    assert_eq!(TimePeriod::Year.apiformat(), "12month");
    assert_eq!(TimePeriod::Alltime.apiformat(), "overall");
}

#[test]
fn parse_accepts_every_alias() {
    for (text, period) in [
        ("week", TimePeriod::Week),
        ("7days", TimePeriod::Week),
        ("7day", TimePeriod::Week),
        ("month", TimePeriod::Month),
        ("1month", TimePeriod::Month),
        ("1months", TimePeriod::Month),
        ("3months", TimePeriod::Quarter),
        ("3month", TimePeriod::Quarter),
        ("6months", TimePeriod::HalfYear),
        ("6month", TimePeriod::HalfYear),
        ("halfyear", TimePeriod::HalfYear),
        ("year", TimePeriod::Year),
        ("12months", TimePeriod::Year),
        ("12month", TimePeriod::Year),
        ("overall", TimePeriod::Alltime),
        ("alltime", TimePeriod::Alltime),
        ("all", TimePeriod::Alltime),
    ] {
        assert_eq!(TimePeriod::parse(text), Ok(period), "{}", text);
        assert_eq!(text.parse::<TimePeriod>(), Ok(period), "{}", text);
    }
}

#[test]
fn parse_refuses_other_text() {
    assert_eq!(TimePeriod::parse("WEEK"), Err(()));
    assert_eq!(TimePeriod::parse(""), Err(()));
    assert_eq!(TimePeriod::parse("2month"), Err(()));
    assert_eq!("10".parse::<TimePeriod>(), Err(()));
}

#[test]
fn api_name_round_trips() {
    for p in [
        TimePeriod::Week,
        TimePeriod::Month,
        TimePeriod::Quarter,
        TimePeriod::HalfYear,
        TimePeriod::Year,
        TimePeriod::Alltime,
    ] {
        assert_eq!(TimePeriod::parse(p.apiformat()), Ok(p));
    }
}

#[test]
fn params_insert_overwrites_in_place() {
    let mut p = ParamsMap::new();
    assert_eq!(p.len(), 0);
    p.insert("a".to_string(), "1".to_string());
    p.insert("b".to_string(), "2".to_string());
    p.insert("a".to_string(), "3".to_string());
    assert_eq!(p.len(), 2);
    assert_eq!(pairs_of(&p), owned(&[("a", "3"), ("b", "2")]));
    assert!(p.contains_key("a"));
    assert!(p.contains_key("b"));
    assert!(!p.contains_key("c"));
    assert_eq!(p.into_pairs(), owned(&[("a", "3"), ("b", "2")]));
}

#[test]
fn new_client_uses_the_audioscrobbler_endpoint() {
    let fm = LastFm::new("KEY".to_string(), "secret".to_string());
    assert_eq!(fm.base_url(), "https://ws.audioscrobbler.com/2.0/");
    assert_eq!(fm.api_key(), "KEY");
}

#[test]
fn sign_call_of_nothing_is_md5_of_the_empty_text() {
    let fm = LastFm::new(String::new(), String::new());
    assert_eq!(fm.sign_call(&ParamsMap::new()), "d41d8cd98f00b204e9800998ecf8427e");
}

#[test]
fn sign_call_hashes_names_values_then_secret() {
    let fm = LastFm::new("KEY".to_string(), "secret".to_string());
    let mut p = ParamsMap::new();
    p.insert("user".to_string(), "rj".to_string());
    p.insert("method".to_string(), "user.getInfo".to_string());
    p.insert("api_key".to_string(), "KEY".to_string());
    p.insert("sk".to_string(), "SESSION".to_string());
    assert_eq!(fm.sign_call(&p), "9e3ad74ae8c0c20ea60e65b1855e1f2d");
}

#[test]
fn request_params_without_session_is_unsigned() {
    let fm = LastFm::new("KEY".to_string(), "secret".to_string());
    let call = get_info(UserAuthentication::Username("rj".to_string()));
    let params = fm.request_params(call.method, call.params);
    assert_eq!(
        pairs_of(&params),
        owned(&[("user", "rj"), ("method", "user.getInfo"), ("api_key", "KEY")])
    );
}

#[test]
fn request_params_with_session_is_signed() {
    let fm = LastFm::new("KEY".to_string(), "secret".to_string());
    let call = get_info(UserAuthentication::SessionKey("SESSION".to_string()));
    let params = fm.request_params(call.method, call.params);
    assert_eq!(
        pairs_of(&params),
        owned(&[
            ("sk", "SESSION"),
            ("method", "user.getInfo"),
            ("api_key", "KEY"),
            ("api_sig", "5e3bb1c0d4aa908378f7355a4c524dd5"),
        ])
    );
}

#[test]
fn request_params_replace_a_given_method() {
    let fm = LastFm::new("KEY".to_string(), "secret".to_string());
    let mut p = ParamsMap::new();
    p.insert("method".to_string(), "old".to_string());
    p.insert("limit".to_string(), "5".to_string());
    let params = fm.request_params("user.getInfo".to_string(), p);
    assert_eq!(
        pairs_of(&params),
        owned(&[("method", "user.getInfo"), ("limit", "5"), ("api_key", "KEY")])
    );
}

#[test]
fn request_query_asks_for_json_last() {
    let fm = LastFm::new("KEY".to_string(), "secret".to_string());
    let call = get_top_albums(UserAuthentication::Username("rj".to_string()), &[("limit", "5")]);
    let query = fm.request_query(call.method, call.params);
    assert_eq!(
        query,
        owned(&[
            ("user", "rj"),
            ("limit", "5"),
            ("method", "user.getTopAlbums"),
            ("api_key", "KEY"),
            ("format", "json"),
        ])
    );
}

#[test]
fn param_with_auth_puts_the_user_first_and_later_values_win() {
    let p = param_with_auth(
        UserAuthentication::Username("rj".to_string()),
        &[("limit", "5"), ("period", "7day"), ("limit", "8")],
    );
    assert_eq!(pairs_of(&p), owned(&[("user", "rj"), ("limit", "8"), ("period", "7day")]));
}

#[test]
fn user_authentication_params() {
    assert_eq!(
        UserAuthentication::Username("rj".to_string()).params(),
        ("user".to_string(), "rj".to_string())
    );
    assert_eq!(
        UserAuthentication::SessionKey("k".to_string()).params(),
        ("sk".to_string(), "k".to_string())
    );
}

#[test]
fn get_info_and_get_top_albums_name_their_methods() {
    let info = get_info(UserAuthentication::Username("rj".to_string()));
    assert_eq!(info.method, "user.getInfo");
    assert_eq!(pairs_of(&info.params), owned(&[("user", "rj")]));
    let top = get_top_albums(UserAuthentication::Username("rj".to_string()), &[("period", "overall")]);
    assert_eq!(top.method, "user.getTopAlbums");
    assert_eq!(pairs_of(&top.params), owned(&[("user", "rj"), ("period", "overall")]));
}

fn lastfm_error(code: u8, message: &str) -> LastFmError {
    LastFmError { error: code, message: message.to_string() }
}

#[test]
fn deserialize_keeps_a_parsed_body() {
    let parsed: Result<u32, serde_json::Error> = serde_json::from_str("7");
    match deserialize(parsed, Err("unused".to_string())) {
        Ok(v) => assert_eq!(v, 7),
        Err(_) => panic!("expected the body"),
    }
}

#[test]
fn deserialize_reports_the_lastfm_error() {
    let parsed: Result<u32, serde_json::Error> = serde_json::from_str("{}");
    match deserialize(parsed, Ok(lastfm_error(6, "User not found"))) {
        Err(ApiError::LastFmError(e)) => {
            assert_eq!(e.error, 6);
            assert_eq!(e.message, "User not found");
        }
        _ => panic!("expected a last.fm error"),
    }
}

#[test]
fn deserialize_reports_the_parse_failure() {
    let parsed: Result<u32, serde_json::Error> = serde_json::from_str("nope");
    let as_error: Result<LastFmError, String> = serde_json::from_str::<u8>("nope")
        .map(|_| lastfm_error(0, ""))
        .map_err(|e| format!("{:?}", e));
    match deserialize(parsed, as_error) {
        Err(e @ ApiError::ParsingError(_)) => {
            assert_eq!(e.message(), "Parsing Error: Error(\"expected ident\", line: 1, column: 2)");
        }
        _ => panic!("expected a parse failure"),
    }
}

#[test]
fn lastfm_error_message_shows_code_and_text() {
    let e = ApiError::LastFmError(lastfm_error(6, "User not found"));
    assert_eq!(e.message(), "Error code 6: User not found");
    let e = ApiError::LastFmError(lastfm_error(255, ""));
    assert_eq!(e.message(), "Error code 255: ");
}

#[test]
fn ping_outcome_keeps_the_delay_only_on_success() {
    assert!(matches!(ping_outcome(12u64, Ok(lastfm_error(6, "x"))), Ok(12)));
    match ping_outcome(12u64, Err(ApiError::LastFmError(lastfm_error(10, "Invalid API key")))) {
        Err(ApiError::LastFmError(e)) => assert_eq!(e.error, 10),
        _ => panic!("expected the error"),
    }
}

#[test]
fn http_error_message_shows_the_debug_rendering() {
    let e = reqwest::Client::new().get("::not a url").build().unwrap_err();
    let rendering = format!("{:?}", e);
    let m = ApiError::HttpError(rendering.clone()).message();
    assert_eq!(m, format!("HTTP Error {}", rendering));
    assert!(m.starts_with("HTTP Error reqwest::Error { kind: Builder"), "{}", m);
}

#[test]
fn ping_query_sends_the_key_as_json() {
    let fm = LastFm::new("KEY".to_string(), "secret".to_string());
    assert_eq!(fm.ping_query(), owned(&[("api_key", "KEY"), ("format", "json")]));
}
