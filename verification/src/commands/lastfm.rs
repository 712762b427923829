//! The `fm` commands: the API's latency, a user's profile, and a user's
//! most played albums.
use vstd::prelude::*;
use crate::apis::lastfm::api::{error_text, ApiError};
use crate::apis::lastfm::structs::{period_api_name, Album, GetInfo, GetTopAlbums, TimePeriod};
use crate::apis::lastfm::user::{get_top_albums, insert_all, str_pair_views, ApiCall, UserAuthentication};
use crate::text::{
    all_digits, decimal, decimal_string, digits_value, join, join_strings, lemma_decimal_reads_back, push_decimal, views,
};

verus! {

/// The answer to `fm ping`: the delay as rendered, or why the API could
/// not be reached.
pub fn ping_reply(outcome: &Result<String, ApiError>) -> (res: String)
    ensures
        match outcome {
            Ok(delay) => res@ == "Current Last.FM API delay is `"@ + delay@ + "`"@,
            Err(e) => res@ == ":warning: Unable to connect to the Last.FM API\n```rs\n"@ + error_text(*e)
                + "\n```"@,
        },
{
    match outcome {
        Ok(delay) => {
            let mut s = "Current Last.FM API delay is `".to_owned();
            s.append(delay.as_str());
            s.append("`");
            s
        },
        Err(e) => {
            let text = e.message();
            let mut s = ":warning: Unable to connect to the Last.FM API\n```rs\n".to_owned();
            s.append(text.as_str());
            s.append("\n```");
            s
        },
    }
}

/// The embed of a profile: the user's name as title, a `Profile` field with
/// the address of the profile, and the last (largest) picture as thumbnail.
pub struct ProfileEmbed {
    pub title: String,
    pub field_name: String,
    pub field_value: String,
    pub field_inline: bool,
    pub thumbnail: String,
}

/// The embed that answers `fm profile`. The profile must have a picture.
pub fn profile(body: &GetInfo) -> (res: ProfileEmbed)
    requires
        body.user.image@.len() > 0,
    ensures
        res.title@ == body.user.name@,
        res.field_name@ == "Profile"@,
        res.field_value@ == body.user.url@,
        res.field_inline,
        res.thumbnail@ == body.user.image@.last().url@,
{
    let last = body.user.image.len() - 1;
    ProfileEmbed {
        title: body.user.name.clone(),
        field_name: "Profile".to_owned(),
        field_value: body.user.url.clone(),
        field_inline: true,
        thumbnail: body.user.image[last].url.clone(),
    }
}

/// The call behind `fm topalbums`: the user's albums over the period, at
/// most `limit` of them.
pub fn topalbums_call(username: String, period: TimePeriod, limit: usize) -> (res: ApiCall)
    ensures
        res.method@ == "user.getTopAlbums"@,
        res.params@ == insert_all(
            seq![("user"@, username@)],
            seq![("limit"@, decimal(limit as nat)), ("period"@, period_api_name(period))],
        ),
{
    let limit_text = decimal_string(limit as u128);
    let optional: [(&str, &str); 2] = [("limit", limit_text.as_str()), ("period", period.apiformat())];
    assert(str_pair_views(optional@) =~= seq![("limit"@, decimal(limit as nat)), ("period"@, period_api_name(period))]);
    get_top_albums(UserAuthentication::Username(username), optional.as_slice())
}

/// One line of the album chart.
pub open spec fn album_row(a: Album) -> Seq<char> {
    decimal(a.playcount as nat) + " plays : "@ + a.name@
}

/// A chart line opens with a string of digits that reads back as the album's
/// play count, whatever its size, then ` plays : ` and the album's name.
pub proof fn lemma_album_row_reads_back(a: Album)
    ensures
        ({
            let row = album_row(a);
            let count = row.subrange(0, row.len() - (a.name@.len() + 9));
            &&& a.name@.len() + 9 <= row.len()
            &&& row == count + " plays : "@ + a.name@
            &&& all_digits(count)
            &&& digits_value(count) == a.playcount
        }),
{
    reveal_strlit(" plays : ");
    lemma_decimal_reads_back(a.playcount as nat);
    let row = album_row(a);
    let count = row.subrange(0, row.len() - (a.name@.len() + 9));
    assert(count =~= decimal(a.playcount as nat));
}

/// The answer to `fm topalbums`.
pub enum TopAlbumsReply {
    /// There is nothing to chart: say this.
    NoAlbums(String),
    /// The chart, as an embed.
    Chart { title: String, thumbnail: String, description: String },
}

/// The answer to `fm topalbums` for the albums received and the limit asked
/// for. The chart lists every album received, which takes at least `limit`
/// of them, and the first album must have a picture.
pub fn topalbums_reply(body: &GetTopAlbums, limit: usize) -> (res: TopAlbumsReply)
    requires
        body.topalbums.albums@.len() == 0 || (limit <= body.topalbums.albums@.len()
            && body.topalbums.albums@[0].image@.len() > 0),
    ensures
        ({
            let albums = body.topalbums.albums@;
            if albums.len() == 0 {
                res matches TopAlbumsReply::NoAlbums(m) && m@ == "There are no albums to show!"@
            } else {
                res matches TopAlbumsReply::Chart { title, thumbnail, description } && title@
                    == body.topalbums.attr.user@ + "'s top albums"@ && thumbnail@ == albums[0].image@.last().url@
                    && description@ == join(albums.map_values(|a: Album| album_row(a)), "\n"@)
            }
        }),
{
    let albums = &body.topalbums.albums;
    if albums.len() == 0 {
        return TopAlbumsReply::NoAlbums("There are no albums to show!".to_owned());
    }
    let count = if limit > albums.len() { limit } else { albums.len() };
    let mut rows: Vec<String> = Vec::new();
    for i in 0..count
        invariant
            count == albums@.len(),
            rows@.len() == i,
            forall|j: int| 0 <= j < i ==> #[trigger] rows@[j]@ == album_row(albums@[j]),
    {
        let album = &albums[i];
        let mut row = String::new();
        push_decimal(&mut row, album.playcount as u128);
        row.append(" plays : ");
        row.append(album.name.as_str());
        rows.push(row);
    }
    assert(views(rows@) =~= albums@.map_values(|a: Album| album_row(a)));
    let description = join_strings(&rows, "\n");
    let mut title = body.topalbums.attr.user.clone();
    title.append("'s top albums");
    let first_images = &albums[0].image;
    let thumbnail = first_images[first_images.len() - 1].url.clone();
    TopAlbumsReply::Chart { title, thumbnail, description }
}

} // verus!
