//! The access token and the request parts built from it.
use vstd::prelude::*;
use vstd::string::*;

verus! {

/// A bearer token granted by the credential exchange.
#[derive(Debug)]
pub struct RedditAccessToken {
    pub access_token: String,
}

/// Why the credential exchange gave no token.
#[derive(Clone, Copy, Debug, PartialEq, Eq)]
pub enum AuthError {
    /// The exchange failed in transport.
    Network,
    /// The reply held no token.
    Rejected,
}

impl RedditAccessToken {
    /// Takes the token out of the reply of the credential exchange, given
    /// the reply's `access_token` field where it held a string.
    pub fn get_access_token(access_token: Option<String>) -> (r: Result<RedditAccessToken, AuthError>)
        ensures
            match access_token {
                Some(t) => r matches Ok(tok) && tok.access_token@ == t@,
                None => r == Err::<RedditAccessToken, AuthError>(AuthError::Rejected),
            },
    {
        match access_token {
            Some(t) => Ok(RedditAccessToken { access_token: t }),
            None => Err(AuthError::Rejected),
        }
    }

    /// The form fields that ask for a token with a user's credentials.
    pub fn token_form(username: &str, password: &str) -> (r: Vec<(String, String)>)
        ensures
            pairs_view(r@) == token_form_of(username@, password@),
    {
        let mut form: Vec<(String, String)> = Vec::new();
        form.push((String::from_str("grant_type"), String::from_str("password")));
        form.push((String::from_str("username"), String::from_str(username)));
        form.push((String::from_str("password"), String::from_str(password)));
        assert(pairs_view(form@) == token_form_of(username@, password@));
        form
    }
}

/// The text of an authorised request's `Authorization` header.
pub open spec fn authorization_of(token: Seq<char>) -> Seq<char> {
    "bearer "@ + token
}

/// The address of the listing of a subreddit's newest posts.
pub open spec fn listing_url_of(subreddit: Seq<char>) -> Seq<char> {
    "https://oauth.reddit.com/r/"@ + subreddit + "/new.json"@
}

/// The form fields of the password-grant credential exchange.
pub open spec fn token_form_of(username: Seq<char>, password: Seq<char>) -> Seq<(Seq<char>, Seq<char>)> {
    seq![("grant_type"@, "password"@), ("username"@, username), ("password"@, password)]
}

/// The text of a list of form fields.
pub open spec fn pairs_view(v: Seq<(String, String)>) -> Seq<(Seq<char>, Seq<char>)> {
    v.map_values(|p: (String, String)| (p.0@, p.1@))
}

/// A client that makes its requests with one access token.
#[derive(Debug)]
pub struct RedditClient {
    pub access_token: RedditAccessToken,
}

impl RedditClient {
    /// A client that authorises its requests with `access_token`.
    pub fn new(access_token: RedditAccessToken) -> (r: RedditClient)
        ensures
            r.access_token == access_token,
    {
        RedditClient { access_token }
    }

    /// The `Authorization` header value for this client's requests.
    pub fn authorization(&self) -> (r: String)
        ensures
            r@ == authorization_of(self.access_token.access_token@),
    {
        let mut s = String::from_str("bearer ");
        s.append(self.access_token.access_token.as_str());
        s
    }

    /// The address of the listing of `subreddit`'s newest posts.
    pub fn listing_url(&self, subreddit: &str) -> (r: String)
        ensures
            r@ == listing_url_of(subreddit@),
    {
        let mut s = String::from_str("https://oauth.reddit.com/r/");
        s.append(subreddit);
        s.append("/new.json");
        s
    }
}

} // verus!
