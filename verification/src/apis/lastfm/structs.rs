//! The periods that last.fm charts cover, and the values its replies carry.
use vstd::prelude::*;
use crate::text::str_eq;

verus! {

/// The span of time a chart covers.
#[derive(Clone, Copy, Debug, PartialEq, Eq, Structural)]
pub enum TimePeriod {
    Week,
    Month,
    Quarter,
    HalfYear,
    Year,
    Alltime,
}

/// The name last.fm's API gives a period.
pub open spec fn period_api_name(p: TimePeriod) -> Seq<char> {
    match p {
        TimePeriod::Week => "7day"@,
        TimePeriod::Month => "1month"@,
        TimePeriod::Quarter => "3month"@,
        TimePeriod::HalfYear => "6month"@,
        TimePeriod::Year => "12month"@,
        TimePeriod::Alltime => "overall"@,
    }
}

/// The period a user's word names, if it names one: each period has its own
/// aliases, the API's name among them.
pub open spec fn period_from_text(s: Seq<char>) -> Option<TimePeriod> {
    if s == "week"@ || s == "7days"@ || s == "7day"@ {
        Some(TimePeriod::Week)
    } else if s == "month"@ || s == "1month"@ || s == "1months"@ {
        Some(TimePeriod::Month)
    } else if s == "3months"@ || s == "3month"@ {
        Some(TimePeriod::Quarter)
    } else if s == "6months"@ || s == "6month"@ || s == "halfyear"@ {
        Some(TimePeriod::HalfYear)
    } else if s == "year"@ || s == "12months"@ || s == "12month"@ {
        Some(TimePeriod::Year)
    } else if s == "overall"@ || s == "alltime"@ || s == "all"@ {
        Some(TimePeriod::Alltime)
    } else {
        None
    }
}

impl TimePeriod {
    /// The name of the period in last.fm's API.
    pub fn apiformat(&self) -> (res: &str)
        ensures
            res@ == period_api_name(*self),
    {
        match *self {
            TimePeriod::Week => "7day",
            TimePeriod::Month => "1month",
            TimePeriod::Quarter => "3month",
            TimePeriod::HalfYear => "6month",
            TimePeriod::Year => "12month",
            TimePeriod::Alltime => "overall",
        }
    }

    /// Reads a period from one of its aliases; any other text is refused.
    pub fn parse(s: &str) -> (res: Result<TimePeriod, ()>)
        ensures
            match period_from_text(s@) {
                Some(p) => res == Ok::<TimePeriod, ()>(p),
                None => res is Err,
            },
    {
        if str_eq(s, "week") || str_eq(s, "7days") || str_eq(s, "7day") {
            Ok(TimePeriod::Week)
        } else if str_eq(s, "month") || str_eq(s, "1month") || str_eq(s, "1months") {
            Ok(TimePeriod::Month)
        } else if str_eq(s, "3months") || str_eq(s, "3month") {
            Ok(TimePeriod::Quarter)
        } else if str_eq(s, "6months") || str_eq(s, "6month") || str_eq(s, "halfyear") {
            Ok(TimePeriod::HalfYear)
        } else if str_eq(s, "year") || str_eq(s, "12months") || str_eq(s, "12month") {
            Ok(TimePeriod::Year)
        } else if str_eq(s, "overall") || str_eq(s, "alltime") || str_eq(s, "all") {
            Ok(TimePeriod::Alltime)
        } else {
            Err(())
        }
    }
}

impl std::str::FromStr for TimePeriod {
    type Err = ();

    fn from_str(s: &str) -> (res: Result<TimePeriod, ()>)
        ensures
            match period_from_text(s@) {
                Some(p) => res == Ok::<TimePeriod, ()>(p),
                None => res is Err,
            },
    {
        TimePeriod::parse(s)
    }
}

/// The API name of every period reads back as that period, so no two periods
/// share a name.
pub proof fn lemma_period_round_trip(p: TimePeriod)
    ensures
        period_from_text(period_api_name(p)) == Some(p),
{
    reveal_strlit("week");
    reveal_strlit("7days");
    reveal_strlit("7day");
    reveal_strlit("month");
    reveal_strlit("1month");
    reveal_strlit("1months");
    reveal_strlit("3months");
    reveal_strlit("3month");
    reveal_strlit("6months");
    reveal_strlit("6month");
    reveal_strlit("halfyear");
    reveal_strlit("year");
    reveal_strlit("12months");
    reveal_strlit("12month");
    reveal_strlit("overall");
    reveal_strlit("alltime");
    reveal_strlit("all");
    match p {
        TimePeriod::Week => {
            assert("7day"@[0] != "week"@[0]);
            assert("7day"@.len() != "7days"@.len());
        },
        TimePeriod::Month => {
            assert("1month"@.len() != "week"@.len());
            assert("1month"@.len() != "7days"@.len());
            assert("1month"@.len() != "7day"@.len());
            assert("1month"@.len() != "month"@.len());
        },
        TimePeriod::Quarter => {
            assert("3month"@.len() != "week"@.len());
            assert("3month"@.len() != "7days"@.len());
            assert("3month"@.len() != "7day"@.len());
            assert("3month"@.len() != "month"@.len());
            assert("3month"@[0] != "1month"@[0]);
            assert("3month"@.len() != "1months"@.len());
            assert("3month"@.len() != "3months"@.len());
        },
        TimePeriod::HalfYear => {
            assert("6month"@.len() != "week"@.len());
            assert("6month"@.len() != "7days"@.len());
            assert("6month"@.len() != "7day"@.len());
            assert("6month"@.len() != "month"@.len());
            assert("6month"@[0] != "1month"@[0]);
            assert("6month"@.len() != "1months"@.len());
            assert("6month"@.len() != "3months"@.len());
            assert("6month"@[0] != "3month"@[0]);
            assert("6month"@.len() != "6months"@.len());
        },
        TimePeriod::Year => {
            assert("12month"@.len() != "week"@.len());
            assert("12month"@.len() != "7days"@.len());
            assert("12month"@.len() != "7day"@.len());
            assert("12month"@.len() != "month"@.len());
            assert("12month"@.len() != "1month"@.len());
            assert("12month"@[1] != "1months"@[1]);
            assert("12month"@[0] != "3months"@[0]);
            assert("12month"@.len() != "3month"@.len());
            assert("12month"@[0] != "6months"@[0]);
            assert("12month"@.len() != "6month"@.len());
            assert("12month"@.len() != "halfyear"@.len());
            assert("12month"@.len() != "year"@.len());
            assert("12month"@.len() != "12months"@.len());
        },
        TimePeriod::Alltime => {
            assert("overall"@.len() != "week"@.len());
            assert("overall"@.len() != "7days"@.len());
            assert("overall"@.len() != "7day"@.len());
            assert("overall"@.len() != "month"@.len());
            assert("overall"@.len() != "1month"@.len());
            assert("overall"@[0] != "1months"@[0]);
            assert("overall"@[0] != "3months"@[0]);
            assert("overall"@.len() != "3month"@.len());
            assert("overall"@[0] != "6months"@[0]);
            assert("overall"@.len() != "6month"@.len());
            assert("overall"@.len() != "halfyear"@.len());
            assert("overall"@.len() != "year"@.len());
            assert("overall"@.len() != "12months"@.len());
            assert("overall"@[0] != "12month"@[0]);
        },
    }
}

/// An error that last.fm reports in place of a result.
#[derive(Clone, Debug)]
pub struct LastFmError {
    pub error: u8,
    pub message: String,
}

/// The reply to `user.getInfo`.
#[derive(Debug)]
pub struct GetInfo {
    pub user: User,
}

/// The reply to `user.getTopAlbums`.
#[derive(Debug)]
pub struct GetTopAlbums {
    pub topalbums: TopAlbums,
}

/// A picture, by its address.
#[derive(Debug)]
pub struct Image {
    pub url: String,
}

/// A moment, in seconds since the Unix epoch.
#[derive(Debug)]
pub struct UnixTime {
    pub timestamp: i64,
}

/// A last.fm user's profile.
#[derive(Debug)]
pub struct User {
    pub playcount: u32,
    pub name: String,
    pub url: String,
    pub country: String,
    pub image: Vec<Image>,
    pub registered: UnixTime,
    pub realname: String,
}

/// One page of a user's most played albums.
#[derive(Debug)]
pub struct TopAlbums {
    pub albums: Vec<Album>,
    pub attr: PaginationAttr,
}

/// The artist of an album.
#[derive(Debug)]
pub struct AlbumArtist {
    pub url: String,
    pub name: String,
}

/// An album with the number of times the user played it.
#[derive(Debug)]
pub struct Album {
    pub artist: AlbumArtist,
    pub image: Vec<Image>,
    pub playcount: u32,
    pub name: String,
    pub url: String,
}

/// Where a page stands in a paged reply.
#[derive(Debug)]
pub struct PaginationAttr {
    pub page: u32,
    pub per_page: u32,
    pub user: String,
    pub total: u32,
    pub total_pages: u32,
}

} // verus!
