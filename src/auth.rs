use vstd::prelude::*;
use vstd::string::StringExecFns;
use crate::api::Api;
use crate::query::{render, Query};
use crate::text::push_char;

verus! {

/// The number of characters in a fresh salt.
pub const SALT_SIZE: usize = 36;

/// The lowercase hex MD5 digest of the UTF-8 encoding of `text`.
pub uninterp spec fn md5_hex(text: Seq<char>) -> Seq<char>;

/// Relies on `md5::compute` over the string's bytes, printed through the
/// digest's `LowerHex`, which writes each of the 16 bytes as two digits.
#[verifier::external_body]
fn md5_hex_string(s: &str) -> (r: String)
    ensures
        r@ == md5_hex(s@),
        r@.len() == 32,
{
    format!("{:x}", md5::compute(s.as_bytes()))
}

/// An ASCII letter or digit.
pub open spec fn is_alphanumeric(c: char) -> bool {
    ('a' <= c && c <= 'z') || ('A' <= c && c <= 'Z') || ('0' <= c && c <= '9')
}

/// What a salt may be: long enough, and letters and digits only.
pub open spec fn is_salt(salt: Seq<char>) -> bool {
    salt.len() == SALT_SIZE && forall|i: int| 0 <= i < salt.len() ==> is_alphanumeric(#[trigger] salt[i])
}

/// Relies on rand's `Alphanumeric` distribution, sampled from `thread_rng`:
/// one byte among `A-Z`, `a-z` and `0-9`.
#[verifier::external_body]
fn random_alphanumeric() -> (r: u8)
    ensures
        is_alphanumeric(r as char),
{
    rand::Rng::sample(&mut rand::thread_rng(), rand::distributions::Alphanumeric)
}

/// Draws a fresh random salt.
pub fn random_salt() -> (r: String)
    ensures
        is_salt(r@),
{
    let mut s = String::new();
    let mut i: usize = 0;
    while i < SALT_SIZE
        invariant
            i <= SALT_SIZE,
            s@.len() == i,
            forall|j: int| 0 <= j < i ==> is_alphanumeric(#[trigger] s@[j]),
        decreases SALT_SIZE - i,
    {
        let b = random_alphanumeric();
        push_char(&mut s, b as char);
        i = i + 1;
    }
    s
}

/// The first version that takes a salted token in place of the password.
pub open spec fn token_min() -> Api {
    Api { major: 1, minor: 13, patch: 0 }
}

/// The first version that answers in JSON.
pub open spec fn json_min() -> Api {
    Api { major: 1, minor: 14, patch: 0 }
}

/// The response format that a version is asked for.
pub open spec fn format_of(api: Api) -> Seq<char> {
    if api.spec_at_least(json_min()) {
        seq!['j', 's', 'o', 'n']
    } else {
        seq!['x', 'm', 'l']
    }
}

/// The credential parameters: user and salted token, or user and password.
pub open spec fn credential_params(
    user: Seq<char>,
    password: Seq<char>,
    api: Api,
    salt: Seq<char>,
) -> Seq<(Seq<char>, Seq<char>)> {
    if api.spec_at_least(token_min()) {
        seq![(seq!['u'], user), (seq!['t'], md5_hex(password + salt)), (seq!['s'], salt)]
    } else {
        seq![(seq!['u'], user), (seq!['p'], password)]
    }
}

/// All the parameters that authenticate a request.
pub open spec fn auth_params(
    user: Seq<char>,
    password: Seq<char>,
    api: Api,
    salt: Seq<char>,
    client: Seq<char>,
) -> Seq<(Seq<char>, Seq<char>)> {
    credential_params(user, password, api, salt) + seq![
        (seq!['v'], api.text()),
        (seq!['c'], client),
        (seq!['f'], format_of(api)),
    ]
}

/// Whether some parameter is named `key`.
pub open spec fn has_key(args: Seq<(Seq<char>, Seq<char>)>, key: Seq<char>) -> bool {
    exists|i: int| 0 <= i < args.len() && (#[trigger] args[i]).0 == key
}

proof fn lemma_one_char_keys_differ(a: char, b: char)
    requires
        a != b,
    ensures
        seq![a] != seq![b],
{
    assert(seq![a][0] != seq![b][0]);
}

/// From 1.13.0 on, a request carries a token and a salt and never the
/// password; before it, the password and neither a token nor a salt.
pub proof fn lemma_auth_scheme_by_version(
    user: Seq<char>,
    password: Seq<char>,
    api: Api,
    salt: Seq<char>,
    client: Seq<char>,
)
    ensures
        api.spec_at_least(token_min()) ==> {
            let p = auth_params(user, password, api, salt, client);
            has_key(p, seq!['t']) && has_key(p, seq!['s']) && !has_key(p, seq!['p'])
        },
        !api.spec_at_least(token_min()) ==> {
            let p = auth_params(user, password, api, salt, client);
            has_key(p, seq!['p']) && !has_key(p, seq!['t']) && !has_key(p, seq!['s'])
        },
{
    let p = auth_params(user, password, api, salt, client);
    lemma_one_char_keys_differ('u', 'p');
    lemma_one_char_keys_differ('t', 'p');
    lemma_one_char_keys_differ('s', 'p');
    lemma_one_char_keys_differ('v', 'p');
    lemma_one_char_keys_differ('c', 'p');
    lemma_one_char_keys_differ('f', 'p');
    lemma_one_char_keys_differ('u', 't');
    lemma_one_char_keys_differ('p', 't');
    lemma_one_char_keys_differ('v', 't');
    lemma_one_char_keys_differ('c', 't');
    lemma_one_char_keys_differ('f', 't');
    lemma_one_char_keys_differ('u', 's');
    lemma_one_char_keys_differ('p', 's');
    lemma_one_char_keys_differ('v', 's');
    lemma_one_char_keys_differ('c', 's');
    lemma_one_char_keys_differ('f', 's');
    if api.spec_at_least(token_min()) {
        assert(p.len() == 6);
        assert(p[1].0 == seq!['t']);
        assert(p[2].0 == seq!['s']);
        assert forall|i: int| 0 <= i < p.len() implies (#[trigger] p[i]).0 != seq!['p'] by {
            if i >= 3 {
                assert(p[i] == seq![
                    (seq!['v'], api.text()),
                    (seq!['c'], client),
                    (seq!['f'], format_of(api)),
                ][i - 3]);
            }
        }
    } else {
        assert(p.len() == 5);
        assert(p[1].0 == seq!['p']);
        assert forall|i: int| 0 <= i < p.len() implies (#[trigger] p[i]).0 != seq!['t'] && p[i].0
            != seq!['s'] by {
            if i >= 2 {
                assert(p[i] == seq![
                    (seq!['v'], api.text()),
                    (seq!['c'], client),
                    (seq!['f'], format_of(api)),
                ][i - 2]);
            }
        }
    }
}

/// From 1.14.0 on the format asked for is `json`; before it, `xml`.
pub proof fn lemma_format_by_version(
    user: Seq<char>,
    password: Seq<char>,
    api: Api,
    salt: Seq<char>,
    client: Seq<char>,
)
    ensures
        auth_params(user, password, api, salt, client).last() == (seq!['f'], if api.spec_at_least(
            json_min(),
        ) {
            seq!['j', 's', 'o', 'n']
        } else {
            seq!['x', 'm', 'l']
        }),
{
}

/// The credentials of one client.
#[derive(Debug)]
pub struct SunkAuth {
    pub user: String,
    pub password: String,
}

impl SunkAuth {
    pub fn new(user: &str, password: &str) -> (r: SunkAuth)
        ensures
            r.user@ == user@,
            r.password@ == password@,
    {
        SunkAuth { user: user.to_owned(), password: password.to_owned() }
    }

    /// The authentication parameters for `api`, sent by client `client`,
    /// with `salt` as the salt where a token is used.
    pub fn auth_query(&self, api: Api, client: &str, salt: &str) -> (r: Query)
        ensures
            r@ == auth_params(self.user@, self.password@, api, salt@, client@),
    {
        proof {
            reveal_strlit("u");
            reveal_strlit("t");
            reveal_strlit("s");
            reveal_strlit("p");
            reveal_strlit("v");
            reveal_strlit("c");
            reveal_strlit("f");
            reveal_strlit("json");
            reveal_strlit("xml");
            assert("u"@ =~= seq!['u']);
            assert("t"@ =~= seq!['t']);
            assert("s"@ =~= seq!['s']);
            assert("p"@ =~= seq!['p']);
            assert("v"@ =~= seq!['v']);
            assert("c"@ =~= seq!['c']);
            assert("f"@ =~= seq!['f']);
            assert("json"@ =~= seq!['j', 's', 'o', 'n']);
            assert("xml"@ =~= seq!['x', 'm', 'l']);
        }
        let ghost creds = credential_params(self.user@, self.password@, api, salt@);
        let q = Query::with("u", self.user.as_str());
        let q = if api.at_least(&Api::new(1, 13, 0)) {
            let mut pre = self.password.clone();
            pre.append(salt);
            let token = md5_hex_string(pre.as_str());
            let q = q.arg("t", token.as_str()).arg("s", salt);
            assert(q@ =~= creds);
            q
        } else {
            let q = q.arg("p", self.password.as_str());
            assert(q@ =~= creds);
            q
        };
        let format = if api.at_least(&Api::new(1, 14, 0)) {
            "json"
        } else {
            "xml"
        };
        assert(format@ == format_of(api));
        let version = api.to_text();
        let r = q.arg("v", version.as_str()).arg("c", client).arg("f", format);
        assert(r@ =~= auth_params(self.user@, self.password@, api, salt@, client@));
        r
    }

    /// The authentication fragment of a request URL, with a fresh salt.
    pub fn as_uri(&self, api: Api, client: &str) -> (r: String)
        ensures
            exists|salt: Seq<char>|
                is_salt(salt) && r@ == render(
                    #[trigger] auth_params(self.user@, self.password@, api, salt, client@),
                ),
    {
        let salt = random_salt();
        let r = self.auth_query(api, client, salt.as_str()).build();
        assert(is_salt(salt@) && r@ == render(
            auth_params(self.user@, self.password@, api, salt@, client@),
        ));
        r
    }
}

} // verus!
