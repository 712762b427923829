//! The last.fm client: the parameters of a call, their signature, and the
//! reading of what the API answers.
use vstd::prelude::*;
use vstd::utf8::encode_utf8;
use super::params::{key_index, keys_distinct, lookup, pair_views, with_entry, Entries, ParamsMap};
use super::params::lemma_with_entry;
use super::structs::LastFmError;
use crate::text::{decimal, hex_lower, hex_lower_string, lemma_hex_lower_len, push_decimal};

verus! {

/// The MD5 digest of a byte string, as `md5::compute` gives it.
pub uninterp spec fn md5_digest(data: Seq<u8>) -> Seq<u8>;

/// `md5::compute`: the 16 bytes of the MD5 digest of `data`.
#[verifier::external_body]
fn md5_compute(data: &[u8]) -> (digest: [u8; 16])
    ensures
        digest@ == md5_digest(data@),
{
    md5::compute(data).0
}

/// What can go wrong with a call to last.fm. The failures of the JSON
/// parser and of the HTTP client are carried as their `Debug` renderings,
/// which is all that is ever read of them.
pub enum ApiError {
    /// The reply is neither the expected value nor a last.fm error: the
    /// rendering of the parser's error.
    ParsingError(String),
    /// last.fm answered with an error.
    LastFmError(LastFmError),
    /// The request did not get through: the rendering of the client's error.
    HttpError(String),
}

pub type LastFmResult<T> = Result<T, ApiError>;

/// The text shown for an error: the code and message of a last.fm error, or
/// a fixed opening followed by the rendering of a parse or transport failure.
pub open spec fn error_text(e: ApiError) -> Seq<char> {
    match e {
        ApiError::ParsingError(rendering) => "Parsing Error: "@ + rendering@,
        ApiError::LastFmError(err) => "Error code "@ + decimal(err.error as nat) + ": "@ + err.message@,
        ApiError::HttpError(rendering) => "HTTP Error "@ + rendering@,
    }
}

impl ApiError {
    /// The text shown for the error.
    pub fn message(&self) -> (res: String)
        ensures
            res@ == error_text(*self),
    {
        match self {
            ApiError::ParsingError(rendering) => {
                let mut s = "Parsing Error: ".to_owned();
                s.append(rendering.as_str());
                s
            },
            ApiError::LastFmError(err) => {
                let mut s = "Error code ".to_owned();
                push_decimal(&mut s, err.error as u128);
                s.append(": ");
                s.append(err.message.as_str());
                s
            },
            ApiError::HttpError(rendering) => {
                let mut s = "HTTP Error ".to_owned();
                s.append(rendering.as_str());
                s
            },
        }
    }
}

/// Every name followed by its value, in walking order.
pub open spec fn concat_pairs(e: Entries) -> Seq<char>
    decreases e.len(),
{
    if e.len() == 0 {
        seq![]
    } else {
        concat_pairs(e.drop_last()) + e.last().0 + e.last().1
    }
}

/// The signed text of a list followed by one more parameter is the signed
/// text of the list, then that name, then that value: no parameter is left
/// out, whatever the length of the list.
pub proof fn lemma_concat_pairs_push(e: Entries, name: Seq<char>, value: Seq<char>)
    ensures
        concat_pairs(e.push((name, value))) == concat_pairs(e) + name + value,
{
    assert(e.push((name, value)).drop_last() =~= e);
}

/// The signed text of two lists one after the other is the signed text of
/// the first, then that of the second; the empty list signs as nothing.
pub proof fn lemma_concat_pairs_append(e1: Entries, e2: Entries)
    ensures
        concat_pairs(e1 + e2) == concat_pairs(e1) + concat_pairs(e2),
        concat_pairs(Seq::empty()) == Seq::<char>::empty(),
    decreases e2.len(),
{
    if e2.len() == 0 {
        assert(e1 + e2 =~= e1);
        assert(concat_pairs(e1) + concat_pairs(e2) =~= concat_pairs(e1));
    } else {
        let last = e2.last();
        lemma_concat_pairs_append(e1, e2.drop_last());
        assert(e1 + e2 =~= (e1 + e2.drop_last()).push(last));
        lemma_concat_pairs_push(e1 + e2.drop_last(), last.0, last.1);
        lemma_concat_pairs_push(e2.drop_last(), last.0, last.1);
        assert(e2.drop_last().push(last) =~= e2);
        assert(concat_pairs(e1 + e2) =~= concat_pairs(e1) + concat_pairs(e2));
    }
}

/// The signature of a call: the hexadecimal MD5 of its names and values in
/// walking order followed by the shared secret, in UTF-8.
pub open spec fn call_signature(e: Entries, secret: Seq<char>) -> Seq<char> {
    hex_lower(md5_digest(encode_utf8(concat_pairs(e) + secret)))
}

/// The parameters of a call to `method`: the method and the key added, and,
/// where a session key (`sk`) is among them, the signature of all of these.
pub open spec fn prepared_params(e: Entries, method: Seq<char>, api_key: Seq<char>, secret: Seq<char>) -> Entries {
    let named = with_entry(with_entry(e, "method"@, method), "api_key"@, api_key);
    if key_index(named, "sk"@) >= 0 {
        with_entry(named, "api_sig"@, call_signature(named, secret))
    } else {
        named
    }
}

/// A client of last.fm's API, holding the application's key and secret.
pub struct LastFm {
    api_key: String,
    secret: String,
    base_url: &'static str,
}

impl LastFm {
    /// The application's key.
    pub closed spec fn key(&self) -> Seq<char> {
        self.api_key@
    }

    /// The secret shared with last.fm.
    pub closed spec fn shared_secret(&self) -> Seq<char> {
        self.secret@
    }

    /// The address calls are sent to.
    pub closed spec fn endpoint(&self) -> Seq<char> {
        self.base_url@
    }

    /// A client for last.fm's API at its usual address.
    pub fn new(api_key: String, secret: String) -> (res: Self)
        ensures
            res.key() == api_key@,
            res.shared_secret() == secret@,
            res.endpoint() == "https://ws.audioscrobbler.com/2.0/"@,
    {
        Self { api_key, secret, base_url: "https://ws.audioscrobbler.com/2.0/" }
    }

    /// The address calls are sent to.
    pub fn base_url(&self) -> (res: &str)
        ensures
            res@ == self.endpoint(),
    {
        self.base_url
    }

    /// The application's key, as it is sent.
    pub fn api_key(&self) -> (res: &str)
        ensures
            res@ == self.key(),
    {
        self.api_key.as_str()
    }

    /// The query of a ping: the application's key, then `format=json`.
    pub fn ping_query(&self) -> (res: Vec<(String, String)>)
        ensures
            pair_views(res@) == seq![("api_key"@, self.key()), ("format"@, "json"@)],
    {
        let mut pairs: Vec<(String, String)> = Vec::new();
        pairs.push(("api_key".to_owned(), self.api_key.clone()));
        pairs.push(("format".to_owned(), "json".to_owned()));
        assert(pair_views(pairs@) =~= seq![("api_key"@, self.key()), ("format"@, "json"@)]);
        pairs
    }

    /// The signature of a call with these parameters.
    pub fn sign_call(&self, params: &ParamsMap) -> (res: String)
        ensures
            res@ == call_signature(params@, self.shared_secret()),
            res@.len() == 32,
    {
        let pairs = params.pairs();
        let n = pairs.len();
        let mut text = String::new();
        assert(pair_views(pairs@).take(0) =~= Seq::<(Seq<char>, Seq<char>)>::empty());
        for i in 0..n
            invariant
                n == pairs@.len(),
                pair_views(pairs@) == params@,
                text@ == concat_pairs(params@.take(i as int)),
        {
            text.append(pairs[i].0.as_str());
            text.append(pairs[i].1.as_str());
            proof {
                let cur = params@.take(i + 1);
                assert(cur.drop_last() =~= params@.take(i as int));
                assert(cur.last() == (pairs@[i as int].0@, pairs@[i as int].1@));
                assert(text@ =~= concat_pairs(cur));
            }
        }
        assert(params@.take(n as int) =~= params@);
        text.append(self.secret.as_str());
        let digest = md5_compute(text.as_str().as_bytes());
        let res = hex_lower_string(digest.as_slice());
        proof {
            lemma_hex_lower_len(digest@);
        }
        res
    }

    /// The parameters of a call to `method`: the method and the
    /// application's key are added, and when a session key is present, the
    /// signature of the call.
    pub fn request_params(&self, method: String, params: ParamsMap) -> (res: ParamsMap)
        ensures
            res@ == prepared_params(params@, method@, self.key(), self.shared_secret()),
    {
        let mut params = params;
        params.insert("method".to_owned(), method);
        params.insert("api_key".to_owned(), self.api_key.clone());
        if params.contains_key("sk") {
            let signature = self.sign_call(&params);
            params.insert("api_sig".to_owned(), signature);
        }
        params
    }

    /// The query of a call to `method`, in the order in which it is sent:
    /// the prepared parameters, then `format=json`.
    pub fn request_query(&self, method: String, params: ParamsMap) -> (res: Vec<(String, String)>)
        ensures
            pair_views(res@) == prepared_params(params@, method@, self.key(), self.shared_secret()).push(
                ("format"@, "json"@),
            ),
    {
        let prepared = self.request_params(method, params);
        let mut pairs = prepared.into_pairs();
        let ghost before = pairs@;
        pairs.push(("format".to_owned(), "json".to_owned()));
        assert(pair_views(pairs@) =~= pair_views(before).push(("format"@, "json"@)));
        pairs
    }
}

/// Reads a reply: the value when the reply parses as one; otherwise the error
/// that last.fm reported, when it parses as such; otherwise the parse failure,
/// given as the rendering of the parser's error.
pub fn deserialize<T, E>(
    parsed: Result<T, E>,
    parsed_as_error: Result<LastFmError, String>,
) -> (res: LastFmResult<T>)
    ensures
        match parsed {
            Ok(body) => res == Ok::<T, ApiError>(body),
            Err(_) => match parsed_as_error {
                Ok(e) => res == Err::<T, ApiError>(ApiError::LastFmError(e)),
                Err(e) => res == Err::<T, ApiError>(ApiError::ParsingError(e)),
            },
        },
{
    match parsed {
        Ok(body) => Ok(body),
        Err(_) => match parsed_as_error {
            Ok(lastfm_error) => Err(ApiError::LastFmError(lastfm_error)),
            Err(e) => Err(ApiError::ParsingError(e)),
        },
    }
}

/// The outcome of a ping: the time it took when the reply read as last.fm's
/// error object (what the bare endpoint answers), the error otherwise.
pub fn ping_outcome<D>(elapsed: D, reply: LastFmResult<LastFmError>) -> (res: Result<D, ApiError>)
    ensures
        match reply {
            Ok(_) => res == Ok::<D, ApiError>(elapsed),
            Err(e) => res == Err::<D, ApiError>(e),
        },
{
    match reply {
        Ok(_) => Ok(elapsed),
        Err(e) => Err(e),
    }
}

/// What preparing a call does to its parameters: the method and the key
/// are set, a session key is kept, the signature is set exactly when a
/// session key is present and then signs every other parameter, and all other
/// parameters keep their values.
pub proof fn lemma_prepared_params(e: Entries, method: Seq<char>, api_key: Seq<char>, secret: Seq<char>)
    requires
        keys_distinct(e),
    ensures
        ({
            let p = prepared_params(e, method, api_key, secret);
            let named = with_entry(with_entry(e, "method"@, method), "api_key"@, api_key);
            &&& keys_distinct(p)
            &&& lookup(p, "method"@) == Some(method)
            &&& lookup(p, "api_key"@) == Some(api_key)
            &&& lookup(p, "sk"@) == lookup(e, "sk"@)
            &&& lookup(e, "sk"@) is Some ==> lookup(p, "api_sig"@) == Some(call_signature(named, secret))
            &&& lookup(e, "sk"@) is None ==> lookup(p, "api_sig"@) == lookup(e, "api_sig"@)
            &&& forall|k: Seq<char>|
                k != "method"@ && k != "api_key"@ && k != "api_sig"@ ==> #[trigger] lookup(p, k) == lookup(e, k)
        }),
{
    reveal_strlit("method");
    reveal_strlit("api_key");
    reveal_strlit("api_sig");
    reveal_strlit("sk");
    assert("method"@.len() != "sk"@.len());
    assert("api_key"@.len() != "sk"@.len());
    assert("api_sig"@.len() != "sk"@.len());
    assert("method"@.len() != "api_key"@.len());
    assert("method"@.len() != "api_sig"@.len());
    assert("api_key"@[4] != "api_sig"@[4]);
    let e1 = with_entry(e, "method"@, method);
    lemma_with_entry(e, "method"@, method);
    let named = with_entry(e1, "api_key"@, api_key);
    lemma_with_entry(e1, "api_key"@, api_key);
    let sig = call_signature(named, secret);
    lemma_with_entry(named, "api_sig"@, sig);
    assert(lookup(named, "method"@) == Some(method));
    assert(lookup(named, "sk"@) == lookup(e, "sk"@));
    assert forall|k: Seq<char>| k != "method"@ && k != "api_key"@ implies #[trigger] lookup(named, k) == lookup(e, k) by {
        assert(lookup(named, k) == lookup(e1, k));
    }
    assert(lookup(named, "api_sig"@) == lookup(e, "api_sig"@));
    super::params::lemma_key_index(named, "sk"@);
}

} // verus!
