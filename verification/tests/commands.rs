use fmbot::apis::lastfm::api::ApiError;
use fmbot::apis::lastfm::structs::{
    Album, AlbumArtist, GetInfo, GetTopAlbums, Image, LastFmError, PaginationAttr, TimePeriod, TopAlbums,
    UnixTime, User,
};
use fmbot::commands::general::{
    joke, joke_address, lookup_reply, menu_pages, ping_report, shard_latency_line, JokeAction, LookupKind,
};
use fmbot::commands::lastfm::{ping_reply, profile, topalbums_call, topalbums_reply, TopAlbumsReply};
use fmbot::commands::owner::{dbq_reply, quit};
use fmbot::modules::events::{
    after_hook, before_hook, dispatch_error, ready_message, CommandFailure, DispatchFailure, DispatchReply,
    LogLevel,
};
use fmbot::modules::parsers::optional_argument;

fn said(reply: DispatchReply) -> String {
    match reply {
        DispatchReply::Say(s) => s,
        DispatchReply::LogError(s) => panic!("logged: {}", s),
    }
}

#[test]
fn dispatch_error_messages() {
    assert_eq!(
        said(dispatch_error(&DispatchFailure::CheckFailed {
            check: "Owner".to_string(),
            reason: "Unknown".to_string()
        })),
        "The command checks have failed Owner\nUnknown"
    );
    assert_eq!(
        said(dispatch_error(&DispatchFailure::CommandDisabled("joke".to_string()))),
        "This command is disabled! joke"
    );
    assert_eq!(said(dispatch_error(&DispatchFailure::OnlyForDM)), "This command can only be used in DMs.");
    assert_eq!(
        said(dispatch_error(&DispatchFailure::OnlyForGuilds)),
        "This command can only be used in servers."
    );
    assert_eq!(
        said(dispatch_error(&DispatchFailure::NotEnoughArguments { min: 1, given: 0 })),
        "Not enough arguments! (0) This command requires at least 1"
    );
    assert_eq!(said(dispatch_error(&DispatchFailure::OnlyForOwners)), "Only the bot owner can use this!");
}

#[test]
fn dispatch_error_singles_out_the_administrator_permission() {
    assert_eq!(
        said(dispatch_error(&DispatchFailure::LackingPermissions {
            bits: 8,
            names: "ADMINISTRATOR".to_string()
        })),
        "You need to be an **Administrator** to execute this command!"
    );
    assert_eq!(
        said(dispatch_error(&DispatchFailure::LackingPermissions {
            bits: 8 | 16,
            names: "ADMINISTRATOR | MANAGE_CHANNELS".to_string()
        })),
        "You require **ADMINISTRATOR | MANAGE_CHANNELS** permission to execute this command!"
    );
}

#[test]
fn dispatch_error_logs_other_refusals() {
    match dispatch_error(&DispatchFailure::Unhandled("BlockedUser".to_string())) {
        DispatchReply::LogError(s) => assert_eq!(s, "Unhandled dispatch error: BlockedUser"),
        DispatchReply::Say(s) => panic!("said: {}", s),
    }
}

#[test]
fn after_hook_reports_a_failure() {
    let out = after_hook(
        "rj",
        42,
        "=fm profile",
        &Some(CommandFailure { debug: "Eos".to_string(), display: "end of string".to_string() }),
    );
    assert_eq!(out.level, LogLevel::Error);
    assert_eq!(out.log, "Command error [ rj#42 =fm profile ]: Eos");
    assert_eq!(out.reply, Some("```rs\nend of string\n```".to_string()));
}

#[test]
fn after_hook_logs_a_success() {
    let out = after_hook("rj", 1234, "=ping", &None);
    assert_eq!(out.level, LogLevel::Info);
    assert_eq!(out.log, "rj#1234 used =ping (took TODO)");
    assert_eq!(out.reply, None);
}

#[test]
fn before_hook_logs_and_goes_on() {
    assert_eq!(before_hook("ping"), ("Running command ping".to_string(), true));
}

#[test]
fn ready_names_the_bot() {
    assert_eq!(ready_message("fmbot"), "Connected as fmbot");
}

#[test]
fn optional_argument_falls_back_and_rewinds() {
    assert_eq!(optional_argument(Some(5usize), 10), (5, false));
    assert_eq!(optional_argument(None, 10usize), (10, true));
    assert_eq!(optional_argument("week".parse::<TimePeriod>().ok(), TimePeriod::Alltime), (TimePeriod::Week, false));
    assert_eq!(optional_argument("x".parse::<TimePeriod>().ok(), TimePeriod::Alltime), (TimePeriod::Alltime, true));
}

#[test]
fn shard_lines() {
    assert_eq!(
        shard_latency_line(0, "connected", Some(45)),
        "Shard 0 is connected with a latency of `45`ms"
    );
    assert_eq!(
        shard_latency_line(3, "handshaking", None),
        "Shard 3 is handshaking and waiting for heartbeat..."
    );
}

#[test]
fn ping_report_lists_every_shard() {
    let lines = vec!["a".to_string(), "b".to_string()];
    assert_eq!(ping_report(120, &lines), "Command roundtrip: `120` ms\na\nb");
    assert_eq!(ping_report(-3, &Vec::new()), "Command roundtrip: `-3` ms\n");
    assert_eq!(
        ping_report(i64::MIN, &vec!["x".to_string()]),
        "Command roundtrip: `-9223372036854775808` ms\nx"
    );
}

#[test]
fn joke_fetches_a_known_category_in_lower_case() {
    match joke("PUN") {
        JokeAction::Fetch(url) => assert_eq!(url, "https://sv443.net/jokeapi/v2/joke/pun?format=txt"),
        _ => panic!("expected a fetch"),
    }
    match joke("programming") {
        JokeAction::Fetch(url) => assert_eq!(url, "https://sv443.net/jokeapi/v2/joke/programming?format=txt"),
        _ => panic!("expected a fetch"),
    }
}

#[test]
fn joke_refuses_an_unknown_category() {
    match joke("Knock") {
        JokeAction::InvalidCategory(reply) => assert_eq!(
            reply,
            "Invalid category `knock`\nAvailable categories: `[ programming | miscellaneous | dark | pun ]`"
        ),
        _ => panic!("expected a refusal"),
    }
}

#[test]
fn menu_has_two_pages() {
    let pages = menu_pages();
    assert_eq!(pages.len(), 2);
    assert_eq!(pages[0].content, "Page number one!");
    assert_eq!(pages[0].description, "The first page!");
    assert_eq!(pages[1].content, "Page number two!");
    assert_eq!(pages[1].description, "The second page!");
}

#[test]
fn lookup_replies() {
    assert_eq!(lookup_reply(LookupKind::Member, Some("<@1>")), "u mean <@1> ?");
    assert_eq!(lookup_reply(LookupKind::Member, None), "No member found from the given input.");
    assert_eq!(lookup_reply(LookupKind::Role, None), "No role found from the given input.");
    assert_eq!(lookup_reply(LookupKind::Channel, None), "No channel found from the given input.");
}

#[test]
fn fm_ping_reply() {
    assert_eq!(ping_reply(&Ok("150ms".to_string())), "Current Last.FM API delay is `150ms`");
    let err = ApiError::LastFmError(LastFmError { error: 10, message: "Invalid API key".to_string() });
    assert_eq!(
        ping_reply(&Err(err)),
        ":warning: Unable to connect to the Last.FM API\n```rs\nError code 10: Invalid API key\n```"
    );
}

fn image(url: &str) -> Image {
    Image { url: url.to_string() }
}

#[test]
fn profile_embed_uses_the_last_picture() {
    let info = GetInfo {
        user: User {
            playcount: 10,
            name: "rj".to_string(),
            url: "https://www.last.fm/user/rj".to_string(),
            country: "US".to_string(),
            image: vec![image("small"), image("large")],
            registered: UnixTime { timestamp: 1037793040 },
            realname: "Richard".to_string(),
        },
    };
    let embed = profile(&info);
    assert_eq!(embed.title, "rj");
    assert_eq!(embed.field_name, "Profile");
    assert_eq!(embed.field_value, "https://www.last.fm/user/rj");
    assert!(embed.field_inline);
    assert_eq!(embed.thumbnail, "large");
}

#[test]
fn topalbums_call_sends_limit_and_period() {
    let call = topalbums_call("rj".to_string(), TimePeriod::Week, 5);
    assert_eq!(call.method, "user.getTopAlbums");
    let pairs: Vec<(String, String)> = call.params.pairs().clone();
    assert_eq!(
        pairs,
        vec![
            ("user".to_string(), "rj".to_string()),
            ("limit".to_string(), "5".to_string()),
            ("period".to_string(), "7day".to_string()),
        ]
    );
}

fn album(name: &str, plays: u32) -> Album {
    Album {
        artist: AlbumArtist { url: "u".to_string(), name: "artist".to_string() },
        image: vec![image(&format!("{}-small", name)), image(&format!("{}-large", name))],
        playcount: plays,
        name: name.to_string(),
        url: "u".to_string(),
    }
}

fn chart(albums: Vec<Album>) -> GetTopAlbums {
    GetTopAlbums {
        topalbums: TopAlbums {
            albums,
            attr: PaginationAttr { page: 1, per_page: 2, user: "rj".to_string(), total: 2, total_pages: 1 },
        },
    }
}

#[test]
fn topalbums_reply_charts_every_album() {
    match topalbums_reply(&chart(vec![album("Kid A", 120), album("OK Computer", 7)]), 2) {
        TopAlbumsReply::Chart { title, thumbnail, description } => {
            assert_eq!(title, "rj's top albums");
            assert_eq!(thumbnail, "Kid A-large");
            assert_eq!(description, "120 plays : Kid A\n7 plays : OK Computer");
        }
        _ => panic!("expected a chart"),
    }
    match topalbums_reply(&chart(vec![album("Kid A", 120), album("OK Computer", 7)]), 1) {
        TopAlbumsReply::Chart { description, .. } => {
            assert_eq!(description, "120 plays : Kid A\n7 plays : OK Computer")
        }
        _ => panic!("expected a chart"),
    }
}

#[test]
fn topalbums_reply_without_albums() {
    match topalbums_reply(&chart(Vec::new()), 10) {
        TopAlbumsReply::NoAlbums(m) => assert_eq!(m, "There are no albums to show!"),
        _ => panic!("expected no albums"),
    }
}

#[test]
fn quit_replies() {
    let q = quit(true);
    assert_eq!(q.reply, "Goodbye!");
    assert!(q.shutdown);
    let q = quit(false);
    assert_eq!(q.reply, "There was a problem getting the shard manager");
    assert!(!q.shutdown);
}

#[test]
fn dbq_reply_joins_columns_and_rows() {
    let rows = vec![
        vec!["1".to_string(), "\"a\"".to_string()],
        vec!["2".to_string(), "\"b\"".to_string()],
    ];
    assert_eq!(dbq_reply(&rows), "1, \"a\"\n2, \"b\"");
    assert_eq!(dbq_reply(&Vec::new()), "");
}

#[test]
fn joke_address_of_each_category() {
    assert_eq!(joke_address("dark"), Ok("https://sv443.net/jokeapi/v2/joke/dark".to_string()));
    assert_eq!(
        joke_address("miscellaneous"),
        Ok("https://sv443.net/jokeapi/v2/joke/miscellaneous".to_string())
    );
    assert_eq!(
        joke_address("Dark"),
        Err("Invalid category `Dark`\nAvailable categories: `[ programming | miscellaneous | dark | pun ]`".to_string())
    );
}
