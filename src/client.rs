use vstd::prelude::*;
use vstd::string::StringExecFns;
use crate::api::Api;
use crate::auth::{auth_params, is_salt, SunkAuth};
use crate::error::{Error, UriError};
use crate::query::{render, Query};

verus! {

/// What `hyper::Uri` parses out of a text: `None` when the text is no URI,
/// else its scheme and its authority (`host:port`), each where present.
pub uninterp spec fn uri_parts(s: Seq<char>) -> Option<(Option<Seq<char>>, Option<Seq<char>>)>;

/// The characters of an optional string.
pub open spec fn opt_view(o: Option<String>) -> Option<Seq<char>> {
    match o {
        Some(v) => Some(v@),
        None => None,
    }
}

/// Relies on `hyper::Uri`'s `FromStr`, and on `Uri::scheme_str` and
/// `Uri::authority` for the two parts of the parsed URI.
#[verifier::external_body]
fn parse_uri(s: &str) -> (r: Option<(Option<String>, Option<String>)>)
    ensures
        match r {
            None => uri_parts(s@) is None,
            Some((scheme, authority)) => uri_parts(s@) == Some(
                (opt_view(scheme), opt_view(authority)),
            ),
        },
{
    match s.parse::<hyper::Uri>() {
        Ok(u) => Some((u.scheme_str().map(String::from), u.authority().map(|a| a.to_string()))),
        Err(_) => None,
    }
}

/// The name by which this library introduces itself to the server.
pub open spec fn client_name() -> Seq<char> {
    seq!['s', 'u', 'n', 'k']
}

/// The version of the API that requests are made against.
pub open spec fn default_api() -> Api {
    Api { major: 1, minor: 14, patch: 0 }
}

/// `scheme://authority/rest/endpoint?auth&args`.
pub open spec fn url_text(
    scheme: Seq<char>,
    authority: Seq<char>,
    endpoint: Seq<char>,
    auth: Seq<char>,
    args: Seq<char>,
) -> Seq<char> {
    scheme + seq![':', '/', '/'] + authority + seq!['/', 'r', 'e', 's', 't', '/'] + endpoint
        + seq!['?'] + auth + seq!['&'] + args
}

/// The scheme used where the base URL names none.
pub open spec fn http() -> Seq<char> {
    seq!['h', 't', 't', 'p']
}

/// A client of one server: where it is, who asks, and in which version.
#[derive(Debug)]
pub struct Sunk {
    pub scheme: Option<String>,
    pub authority: Option<String>,
    pub auth: SunkAuth,
    pub api: Api,
    pub client: String,
}

impl Sunk {
    /// A client of the server at `url`, for `user` with `password`.
    /// Fails where `url` is no URI.
    pub fn new(url: &str, user: &str, password: &str) -> (r: Result<Sunk, Error>)
        ensures
            uri_parts(url@) is None <==> r is Err,
            r is Err ==> r == Err::<Sunk, Error>(Error::Uri(UriError::Invalid)),
            r matches Ok(s) ==> {
                &&& uri_parts(url@) == Some((opt_view(s.scheme), opt_view(s.authority)))
                &&& s.auth.user@ == user@
                &&& s.auth.password@ == password@
                &&& s.api == default_api()
                &&& s.client@ == client_name()
            },
    {
        let auth = SunkAuth::new(user, password);
        match parse_uri(url) {
            None => Err(Error::Uri(UriError::Invalid)),
            Some((scheme, authority)) => {
                let client = String::from_str("sunk");
                proof {
                    reveal_strlit("sunk");
                    assert(client@ =~= client_name());
                }
                Ok(Sunk { scheme, authority, auth, api: Api::new(1, 14, 0), client })
            },
        }
    }

    /// The scheme of requests: the base URL's, else `http`.
    pub open spec fn scheme_text(&self) -> Seq<char> {
        match self.scheme {
            Some(s) => s@,
            None => http(),
        }
    }

    /// The URL of a request to `endpoint` with `args`, authenticated by the
    /// fragment `auth`. Fails where the base URL has no authority.
    pub fn url_with_auth(&self, endpoint: &str, args: &Query, auth: &str) -> (r: Result<
        String,
        Error,
    >)
        ensures
            self.authority is None <==> r is Err,
            r is Err ==> r == Err::<String, Error>(Error::Uri(UriError::Address)),
            r matches Ok(u) ==> u@ == url_text(
                self.scheme_text(),
                self.authority->Some_0@,
                endpoint@,
                auth@,
                render(args@),
            ),
    {
        let addr = match &self.authority {
            Some(a) => a,
            None => {
                return Err(Error::Uri(UriError::Address));
            },
        };
        let mut url = match &self.scheme {
            Some(s) => s.clone(),
            None => String::from_str("http"),
        };
        url.append("://");
        url.append(addr.as_str());
        url.append("/rest/");
        url.append(endpoint);
        url.append("?");
        url.append(auth);
        url.append("&");
        url.append(args.build().as_str());
        proof {
            reveal_strlit("http");
            reveal_strlit("://");
            reveal_strlit("/rest/");
            reveal_strlit("?");
            reveal_strlit("&");
            assert("http"@ =~= http());
            assert(url@ =~= url_text(
                self.scheme_text(),
                self.authority->Some_0@,
                endpoint@,
                auth@,
                render(args@),
            ));
        }
        Ok(url)
    }

    /// The URL of a request to `endpoint` with `args`, authenticated with a
    /// fresh salt. Fails where the base URL has no authority.
    pub fn build_url(&self, endpoint: &str, args: &Query) -> (r: Result<String, Error>)
        ensures
            self.authority is None <==> r is Err,
            r is Err ==> r == Err::<String, Error>(Error::Uri(UriError::Address)),
            r matches Ok(u) ==> exists|salt: Seq<char>|
                is_salt(salt) && u@ == url_text(
                    self.scheme_text(),
                    self.authority->Some_0@,
                    endpoint@,
                    render(
                        #[trigger] auth_params(
                            self.auth.user@,
                            self.auth.password@,
                            self.api,
                            salt,
                            self.client@,
                        ),
                    ),
                    render(args@),
                ),
    {
        let auth = self.auth.as_uri(self.api, self.client.as_str());
        self.url_with_auth(endpoint, args, auth.as_str())
    }
}

} // verus!
