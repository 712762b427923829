//! The `user.*` calls of last.fm: which method they name and which
//! parameters they carry.
use vstd::prelude::*;
use super::params::{with_entry, Entries, ParamsMap};

verus! {

/// Whose data a call asks for: a user named publicly, or the user of an
/// authenticated session.
pub enum UserAuthentication {
    Username(String),
    SessionKey(String),
}

impl UserAuthentication {
    /// The parameter that identifies the user: `user` with the name, or `sk`
    /// with the session key.
    pub open spec fn param_view(&self) -> (Seq<char>, Seq<char>) {
        match self {
            UserAuthentication::Username(name) => ("user"@, name@),
            UserAuthentication::SessionKey(key) => ("sk"@, key@),
        }
    }

    /// The parameter that identifies the user, as a name and a value.
    pub fn params(self) -> (res: (String, String))
        ensures
            (res.0@, res.1@) == self.param_view(),
    {
        match self {
            UserAuthentication::Username(name) => ("user".to_owned(), name),
            UserAuthentication::SessionKey(key) => ("sk".to_owned(), key),
        }
    }
}

/// The parameters after storing each pair in turn.
pub open spec fn insert_all(e: Entries, pairs: Entries) -> Entries
    decreases pairs.len(),
{
    if pairs.len() == 0 {
        e
    } else {
        let rest = insert_all(e, pairs.drop_last());
        with_entry(rest, pairs.last().0, pairs.last().1)
    }
}

/// The name/value views of borrowed string pairs.
pub open spec fn str_pair_views(pairs: Seq<(&str, &str)>) -> Entries {
    pairs.map_values(|p: (&str, &str)| (p.0@, p.1@))
}

/// The parameters of a call for a user: the user's parameter first, then
/// each optional parameter in turn, a later one replacing an earlier value.
pub fn param_with_auth(user_auth: UserAuthentication, optional_params: &[(&str, &str)]) -> (res: ParamsMap)
    ensures
        res@ == insert_all(seq![user_auth.param_view()], str_pair_views(optional_params@)),
{
    let mut params = ParamsMap::new();
    let ghost auth = user_auth.param_view();
    let auth_param = user_auth.params();
    params.insert(auth_param.0, auth_param.1);
    assert(params@ =~= seq![auth]) by {
        reveal_with_fuel(super::params::key_index, 1);
    }
    let n = optional_params.len();
    assert(str_pair_views(optional_params@).take(0) =~= Seq::<(Seq<char>, Seq<char>)>::empty());
    for i in 0..n
        invariant
            n == optional_params@.len(),
            params@ == insert_all(seq![auth], str_pair_views(optional_params@).take(i as int)),
    {
        let (k, v) = optional_params[i];
        params.insert(k.to_owned(), v.to_owned());
        proof {
            let cur = str_pair_views(optional_params@).take(i + 1);
            assert(cur.drop_last() =~= str_pair_views(optional_params@).take(i as int));
            assert(cur.last() == (k@, v@));
        }
    }
    assert(str_pair_views(optional_params@).take(n as int) =~= str_pair_views(optional_params@));
    params
}

/// A call to make: the method and its parameters.
pub struct ApiCall {
    pub method: String,
    pub params: ParamsMap,
}

/// The call that fetches a user's profile.
pub fn get_info(user_auth: UserAuthentication) -> (res: ApiCall)
    ensures
        res.method@ == "user.getInfo"@,
        res.params@ == seq![user_auth.param_view()],
{
    let ghost auth = user_auth.param_view();
    let no_params: [(&str, &str); 0] = [];
    let params = param_with_auth(user_auth, no_params.as_slice());
    assert(str_pair_views(no_params@) =~= Seq::<(Seq<char>, Seq<char>)>::empty());
    assert(params@ == seq![auth]);
    ApiCall { method: "user.getInfo".to_owned(), params }
}

/// The call that fetches a user's most played albums, with the optional
/// parameters stored after the user's.
pub fn get_top_albums(user_auth: UserAuthentication, optional_params: &[(&str, &str)]) -> (res: ApiCall)
    ensures
        res.method@ == "user.getTopAlbums"@,
        res.params@ == insert_all(seq![user_auth.param_view()], str_pair_views(optional_params@)),
{
    ApiCall { method: "user.getTopAlbums".to_owned(), params: param_with_auth(user_auth, optional_params) }
}

} // verus!
