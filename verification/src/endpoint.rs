//! The server addresses that the tool calls.
use vstd::prelude::*;
use vstd::string::*;

verus! {

/// Path of the login service, after the normalised base URL.
pub const LOGIN_PATH: &'static str = "/mge/service.sbr?serviceName=MobileLoginSP.login&outputType=json";

/// Endpoint that saves a dataset record (creates the module, adds the jar).
pub const SAVE_ENDPOINT: &'static str = "mge/service.sbr?serviceName=DatasetSP.save&outputType=json&mgeSession=";

/// Endpoint that receives the jar file.
pub const UPLOAD_ENDPOINT: &'static str = "mge/sessionUpload.mge?sessionkey=ModuloJava&fitem=S&salvar=S&useCache=N&mgeSession=";

/// Endpoint that loads dataset records (finds a jar already in the module).
pub const LOAD_ENDPOINT: &'static str = "mge/service.sbr?serviceName=DatasetSP.loadRecords&outputType=json&mgeSession=";

/// Endpoint that removes a dataset record (deletes a jar).
pub const REMOVE_ENDPOINT: &'static str = "mge/service.sbr?serviceName=DatasetSP.removeRecord&outputType=json&mgeSession=";

/// What `url::Url::parse` makes of `input`: the serialisation of the parsed
/// URL, or the text of the parse error.
pub uninterp spec fn url_parse(input: Seq<char>) -> Result<Seq<char>, Seq<char>>;

/// Parses an absolute URL with `url::Url::parse` and gives back its
/// serialisation (`to_string`), or the error's text (`to_string`). The
/// parser refuses the empty string: it finds no scheme there and has no base.
#[verifier::external_body]
pub(crate) fn parse_url(input: &str) -> (r: Result<String, String>)
    ensures
        match r {
            Ok(u) => url_parse(input@) == Ok::<Seq<char>, Seq<char>>(u@),
            Err(e) => url_parse(input@) == Err::<Seq<char>, Seq<char>>(e@),
        },
        r is Ok ==> input@.len() > 0,
{
    match url::Url::parse(input) {
        Ok(u) => Ok(u.to_string()),
        Err(e) => Err(e.to_string()),
    }
}

/// The address of a session service: the base URL, a `/` unless
/// `last_char` (the base URL's last character) is one, the endpoint and the
/// session token.
pub open spec fn service_url_spec(url: Seq<char>, last_char: char, endpoint: Seq<char>, token: Seq<char>) -> Seq<char> {
    if last_char == '/' {
        url + endpoint + token
    } else {
        url + "/"@ + endpoint + token
    }
}

/// Builds the address of a session service.
pub fn service_url(url: &str, last_char: char, endpoint: &str, token: &str) -> (r: String)
    ensures
        r@ == service_url_spec(url@, last_char, endpoint@, token@),
{
    let mut r = String::from_str(url);
    if last_char != '/' {
        r.append("/");
    }
    r.append(endpoint);
    r.append(token);
    r
}

/// The address of the login service for a normalised base URL.
pub open spec fn login_url_spec(base: Seq<char>) -> Seq<char> {
    base + LOGIN_PATH@
}

/// Builds the address of the login service.
pub fn login_url(base: &str) -> (r: String)
    ensures
        r@ == login_url_spec(base@),
{
    let mut r = String::from_str(base);
    r.append(LOGIN_PATH);
    r
}

/// The last character of a non-empty URL.
pub fn last_char(url: &str) -> (c: char)
    requires
        url@.len() > 0,
    ensures
        c == url@.last(),
{
    let n = url.unicode_len();
    url.get_char(n - 1)
}

/// A service address never holds two slashes where the base URL and the
/// endpoint meet, when `last_char` is the base URL's last character and the
/// endpoint does not begin with `/`: the base is followed by exactly one `/`.
pub proof fn lemma_single_slash(url: Seq<char>, endpoint: Seq<char>, token: Seq<char>)
    requires
        url.len() > 0,
        endpoint.len() > 0,
        endpoint[0] != '/',
    ensures
        ({
            let s = service_url_spec(url, url.last(), endpoint, token);
            let k = if url.last() == '/' { url.len() - 1 } else { url.len() as int };
            &&& s[k] == '/'
            &&& s[k + 1] != '/'
            &&& s.subrange(0, k) == url.subrange(0, k)
            &&& s.skip(k + 1) == endpoint + token
        }),
{
    reveal_strlit("/");
    let s = service_url_spec(url, url.last(), endpoint, token);
    if url.last() == '/' {
        assert(s.skip(url.len() as int) =~= endpoint + token);
    } else {
        assert(s.skip(url.len() as int + 1) =~= endpoint + token);
    }
}

/// The login address keeps the base URL exactly as given (scheme, host,
/// port and path) and only appends the login service's path to it.
pub proof fn lemma_login_url_extends_base(base: Seq<char>)
    ensures
        login_url_spec(base).len() == base.len() + LOGIN_PATH@.len(),
        login_url_spec(base).take(base.len() as int) == base,
        login_url_spec(base).skip(base.len() as int) == LOGIN_PATH@,
{
    let r = login_url_spec(base);
    assert(r.take(base.len() as int) =~= base);
    assert(r.skip(base.len() as int) =~= LOGIN_PATH@);
}

} // verus!
