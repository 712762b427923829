//! The general commands: latency report, jokes, the demo menu, and the
//! lookups of members, roles and channels.
use vstd::prelude::*;
use crate::text::{
    all_digits, decimal, digits_value, join, join_strings, lemma_decimal_reads_back, push_decimal, push_signed_decimal,
    signed_decimal, str_eq, views,
};

verus! {

#[verifier::external_type_specification]
#[verifier::external_body]
pub struct ExUrlParseError(url::ParseError);

/// What `str::to_lowercase` gives for a text (Unicode lower case).
pub uninterp spec fn lowercase(s: Seq<char>) -> Seq<char>;

/// `str::to_lowercase`.
#[verifier::external_body]
fn to_lowercase(s: &str) -> (res: String)
    ensures
        res@ == lowercase(s@),
{
    s.to_lowercase()
}

/// What `Url::parse_with_params(base, &[(key, value)])` gives, as the text of
/// the address, or `None` where the address does not parse.
pub uninterp spec fn url_with_query(base: Seq<char>, key: Seq<char>, value: Seq<char>) -> Option<Seq<char>>;

/// `url::Url::parse_with_params` with one query pair, the address as text.
#[verifier::external_body]
fn parse_url_with_param(base: &str, key: &str, value: &str) -> (res: Result<String, url::ParseError>)
    ensures
        match res {
            Ok(u) => url_with_query(base@, key@, value@) == Some(u@),
            Err(_) => url_with_query(base@, key@, value@) is None,
        },
{
    match reqwest::Url::parse_with_params(base, &[(key, value)]) {
        Ok(u) => Ok(String::from(u)),
        Err(e) => Err(e),
    }
}

/// One shard's line in the latency report.
pub open spec fn shard_line(id: u64, stage: Seq<char>, latency_ms: Option<u128>) -> Seq<char> {
    match latency_ms {
        Some(ms) => "Shard "@ + decimal(id as nat) + " is "@ + stage + " with a latency of `"@ + decimal(
            ms as nat,
        ) + "`ms"@,
        None => "Shard "@ + decimal(id as nat) + " is "@ + stage + " and waiting for heartbeat..."@,
    }
}

/// The line of the latency report for a shard in the given stage.
pub fn shard_latency_line(id: u64, stage: &str, latency_ms: Option<u128>) -> (res: String)
    ensures
        res@ == shard_line(id, stage@, latency_ms),
{
    let mut s = "Shard ".to_owned();
    push_decimal(&mut s, id as u128);
    s.append(" is ");
    s.append(stage);
    match latency_ms {
        Some(ms) => {
            s.append(" with a latency of `");
            push_decimal(&mut s, ms);
            s.append("`ms");
        },
        None => {
            s.append(" and waiting for heartbeat...");
        },
    }
    s
}

/// In a shard's line the latency between the backticks is a string of digits
/// that reads back as the latency given, whatever its size; the line ends
/// right after it with `` `ms ``.
pub proof fn lemma_shard_line_latency(id: u64, stage: Seq<char>, ms: u128)
    ensures
        ({
            let line = shard_line(id, stage, Some(ms));
            let head = "Shard "@ + decimal(id as nat) + " is "@ + stage + " with a latency of `"@;
            let digits = line.subrange(head.len() as int, line.len() - 3);
            &&& head.len() + 3 <= line.len()
            &&& line == head + digits + "`ms"@
            &&& all_digits(digits)
            &&& digits_value(digits) == ms
        }),
{
    reveal_strlit("`ms");
    lemma_decimal_reads_back(ms as nat);
    let line = shard_line(id, stage, Some(ms));
    let head = "Shard "@ + decimal(id as nat) + " is "@ + stage + " with a latency of `"@;
    assert(line =~= head + decimal(ms as nat) + "`ms"@);
    let digits = line.subrange(head.len() as int, line.len() - 3);
    assert(digits =~= decimal(ms as nat));
}

/// The latency report: the round trip of the command, then one line per
/// shard.
pub fn ping_report(round_trip_ms: i64, latencies: &Vec<String>) -> (res: String)
    ensures
        res@ == "Command roundtrip: `"@ + signed_decimal(round_trip_ms as int) + "` ms\n"@ + join(
            views(latencies@),
            "\n"@,
        ),
{
    let mut s = "Command roundtrip: `".to_owned();
    push_signed_decimal(&mut s, round_trip_ms);
    s.append("` ms\n");
    let lines = join_strings(latencies, "\n");
    s.append(lines.as_str());
    s
}

/// The joke categories that the joke service offers.
pub open spec fn joke_categories() -> Seq<Seq<char>> {
    seq!["programming"@, "miscellaneous"@, "dark"@, "pun"@]
}

/// The address of the joke service for a category.
pub open spec fn joke_base_url(category: Seq<char>) -> Seq<char> {
    "https://sv443.net/jokeapi/v2/joke/"@ + category
}

/// What the joke command does with its category.
pub enum JokeAction {
    /// The category is unknown: say this.
    InvalidCategory(String),
    /// Fetch a joke from this address.
    Fetch(String),
    /// The address of the category does not parse.
    InvalidUrl(url::ParseError),
}

/// The answer to an unknown joke category.
pub open spec fn joke_refusal(category: Seq<char>) -> Seq<char> {
    "Invalid category `"@ + category + "`\nAvailable categories: `[ "@ + join(joke_categories(), " | "@)
        + " ]`"@
}

/// The joke service's address for a category already in lower case, or the
/// refusal when the category is not one of the service's.
pub fn joke_address(category: &str) -> (res: Result<String, String>)
    ensures
        match res {
            Ok(a) => joke_categories().contains(category@) && a@ == joke_base_url(category@),
            Err(r) => !joke_categories().contains(category@) && r@ == joke_refusal(category@),
        },
{
    let mut categories: Vec<String> = Vec::new();
    categories.push("programming".to_owned());
    categories.push("miscellaneous".to_owned());
    categories.push("dark".to_owned());
    categories.push("pun".to_owned());
    assert(views(categories@) =~= joke_categories());
    let mut known = false;
    let n = categories.len();
    for i in 0..n
        invariant
            n == categories@.len(),
            views(categories@) == joke_categories(),
            known == (exists|j: int| 0 <= j < i && joke_categories()[j] == category@),
    {
        if str_eq(categories[i].as_str(), category) {
            known = true;
        }
        assert(views(categories@)[i as int] == categories@[i as int]@);
    }
    if !known {
        assert(!joke_categories().contains(category@)) by {
            if joke_categories().contains(category@) {
                let j = choose|j: int| 0 <= j < joke_categories().len() && joke_categories()[j] == category@;
                assert(0 <= j < 4);
            }
        }
        let mut reply = "Invalid category `".to_owned();
        reply.append(category);
        reply.append("`\nAvailable categories: `[ ");
        let listed = join_strings(&categories, " | ");
        reply.append(listed.as_str());
        reply.append(" ]`");
        return Err(reply);
    }
    let mut base = "https://sv443.net/jokeapi/v2/joke/".to_owned();
    base.append(category);
    Ok(base)
}

/// The joke command: the category, in lower case, must be one of the
/// service's categories; a known one gives the address to fetch a plain
/// text joke from.
pub fn joke(category: &str) -> (res: JokeAction)
    ensures
        ({
            let c = lowercase(category@);
            if joke_categories().contains(c) {
                match url_with_query(joke_base_url(c), "format"@, "txt"@) {
                    Some(u) => res matches JokeAction::Fetch(f) && f@ == u,
                    None => res is InvalidUrl,
                }
            } else {
                res matches JokeAction::InvalidCategory(reply) && reply@ == joke_refusal(c)
            }
        }),
{
    let category = to_lowercase(category);
    match joke_address(category.as_str()) {
        Err(reply) => JokeAction::InvalidCategory(reply),
        Ok(base) => match parse_url_with_param(base.as_str(), "format", "txt") {
            Ok(url) => JokeAction::Fetch(url),
            Err(e) => JokeAction::InvalidUrl(e),
        },
    }
}

/// A page of the demo menu.
pub struct MenuPage {
    pub content: String,
    pub description: String,
}

/// The two pages of the demo menu.
pub fn menu_pages() -> (res: Vec<MenuPage>)
    ensures
        res@.len() == 2,
        res@[0].content@ == "Page number one!"@,
        res@[0].description@ == "The first page!"@,
        res@[1].content@ == "Page number two!"@,
        res@[1].description@ == "The second page!"@,
{
    let mut pages: Vec<MenuPage> = Vec::new();
    pages.push(MenuPage { content: "Page number one!".to_owned(), description: "The first page!".to_owned() });
    pages.push(MenuPage { content: "Page number two!".to_owned(), description: "The second page!".to_owned() });
    pages
}

/// What a lookup command searches for.
#[derive(Clone, Copy, Debug, PartialEq, Eq, Structural)]
pub enum LookupKind {
    Member,
    Role,
    Channel,
}

/// The answer to a lookup: the mention of what was found, or that nothing
/// was.
pub open spec fn lookup_answer(kind: LookupKind, mention: Option<Seq<char>>) -> Seq<char> {
    match mention {
        Some(m) => "u mean "@ + m + " ?"@,
        None => match kind {
            LookupKind::Member => "No member found from the given input."@,
            LookupKind::Role => "No role found from the given input."@,
            LookupKind::Channel => "No channel found from the given input."@,
        },
    }
}

/// Whatever was looked up, a found mention is answered the same way, with the
/// mention after `u mean `; a "not found" answer is never given for a found
/// mention.
pub proof fn lemma_lookup_answer(kind: LookupKind, other: LookupKind, mention: Seq<char>)
    ensures
        lookup_answer(kind, Some(mention)) == lookup_answer(other, Some(mention)),
        lookup_answer(kind, Some(mention)).subrange(0, 7) == "u mean "@,
        lookup_answer(kind, Some(mention)).subrange(7, 7 + mention.len() as int) == mention,
        lookup_answer(kind, Some(mention)) != lookup_answer(other, None),
{
    reveal_strlit("u mean ");
    reveal_strlit(" ?");
    reveal_strlit("No member found from the given input.");
    reveal_strlit("No role found from the given input.");
    reveal_strlit("No channel found from the given input.");
    let found = lookup_answer(kind, Some(mention));
    assert(found.subrange(0, 7) =~= "u mean "@);
    assert(found.subrange(7, 7 + mention.len() as int) =~= mention);
    assert(found[0] == 'u');
    assert(lookup_answer(other, None)[0] == 'N');
}

/// The answer to the member, role or channel lookup, given the mention of
/// what the input named, if anything.
pub fn lookup_reply(kind: LookupKind, mention: Option<&str>) -> (res: String)
    ensures
        res@ == lookup_answer(
            kind,
            match mention {
                Some(m) => Some(m@),
                None => None,
            },
        ),
{
    match mention {
        Some(m) => {
            let mut s = "u mean ".to_owned();
            s.append(m);
            s.append(" ?");
            s
        },
        None => match kind {
            LookupKind::Member => "No member found from the given input.".to_owned(),
            LookupKind::Role => "No role found from the given input.".to_owned(),
            LookupKind::Channel => "No channel found from the given input.".to_owned(),
        },
    }
}

} // verus!
