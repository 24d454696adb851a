use vstd::prelude::*;
use vstd::string::StringExecFns;
use crate::bootstrap::{bootstrap, bootstrap_result, Cookie};
use crate::error::{expect_success, is_success, HrBoxError, ProtocolIssue};
use crate::model::Document;

verus! {

/// The address of the document box of `subdomain`.
pub open spec fn base_url_of(subdomain: Seq<char>) -> Seq<char> {
    "https://"@ + subdomain + ".hr-document-box.com"@
}

/// The decimal digits of `n`, most significant first, without leading zeros.
pub open spec fn decimal(n: nat) -> Seq<char>
    decreases n,
{
    if n < 10 {
        seq!["0123456789"@[n as int]]
    } else {
        decimal(n / 10) + seq!["0123456789"@[(n % 10) as int]]
    }
}

/// The name under which a document is saved.
pub open spec fn file_name_of(document: Document) -> Seq<char> {
    document.name@ + ".pdf"@
}

/// A character that may stand in an HTTP header value: no ASCII control
/// character but the tab.
pub open spec fn header_char(c: char) -> bool {
    (c as u32 >= 32 && c as u32 != 127) || c == '\t'
}

/// Every character of `s` may stand in an HTTP header value.
pub open spec fn is_header_value(s: Seq<char>) -> bool {
    forall|i: int| 0 <= i < s.len() ==> header_char(#[trigger] s[i])
}

/// Relies on `reqwest::header::HeaderValue::from_str` (the `http` crate's),
/// which accepts a string exactly when each of its bytes is a tab, or at
/// least 32 and not 127. The bytes of a character outside ASCII are all at
/// least 128, so this comes to the same test on characters.
#[verifier::external_body]
fn accepts_header_value(s: &str) -> (r: bool)
    ensures
        r == is_header_value(s@),
{
    reqwest::header::HeaderValue::from_str(s).is_ok()
}

/// Appends the decimal digits of `n` to `s`.
fn push_decimal(s: &mut String, n: u32)
    ensures
        final(s)@ == old(s)@ + decimal(n as nat),
    decreases n,
{
    if n >= 10 {
        push_decimal(s, n / 10);
    }
    let digits = "0123456789";
    proof {
        reveal_strlit("0123456789");
    }
    let d = (n % 10) as usize;
    let digit = digits.substring_ascii(d, d + 1);
    assert(digit@ =~= seq!["0123456789"@[(n % 10) as int]]);
    s.append(digit);
    assert(final(s)@ =~= old(s)@ + decimal(n as nat));
}

/// The name under which `document` is saved: its display name with the
/// `.pdf` extension.
pub fn file_name(document: &Document) -> (r: String)
    ensures
        r@ == file_name_of(*document),
{
    let mut name = document.name.clone();
    name.append(".pdf");
    name
}

/// A session with the document box, before login: its address and the
/// anti-CSRF token that every later request carries.
#[derive(Debug, Clone)]
pub struct HrBoxClient {
    base_url: String,
    xsrf_token: String,
}

impl HrBoxClient {
    /// The address of the service.
    pub closed spec fn base(&self) -> Seq<char> {
        self.base_url@
    }

    /// The anti-CSRF token.
    pub closed spec fn token(&self) -> Seq<char> {
        self.xsrf_token@
    }

    /// The address of the document box of `subdomain`, to which the first,
    /// unauthenticated request goes, without following redirects.
    pub fn base_url(subdomain: &str) -> (r: String)
        ensures
            r@ == base_url_of(subdomain@),
    {
        let mut url = "https://".to_string();
        url.append(subdomain);
        url.append(".hr-document-box.com");
        url
    }

    /// Starts a session from the answer to the first request: the token is
    /// the value of its first `XSRF-TOKEN` cookie, and must be fit to be sent
    /// as a header value.
    pub fn new(subdomain: &str, status: u16, cookies: &Vec<Cookie>) -> (r: Result<HrBoxClient, HrBoxError>)
        ensures
            r is Ok <==> (bootstrap_result(status, cookies@) matches Ok(t) && is_header_value(t)),
            r matches Ok(c) ==> c.base() == base_url_of(subdomain@)
                && bootstrap_result(status, cookies@) == Ok::<Seq<char>, HrBoxError>(c.token()),
            bootstrap_result(status, cookies@) matches Err(e) ==> r == Err::<HrBoxClient, HrBoxError>(e),
            bootstrap_result(status, cookies@) matches Ok(t) && !is_header_value(t)
                ==> r == Err::<HrBoxClient, HrBoxError>(HrBoxError::Protocol(ProtocolIssue::InvalidSessionToken)),
    {
        let token = match bootstrap(status, cookies) {
            Ok(t) => t,
            Err(e) => return Err(e),
        };
        if !accepts_header_value(token.as_str()) {
            return Err(HrBoxError::Protocol(ProtocolIssue::InvalidSessionToken));
        }
        Ok(HrBoxClient { base_url: HrBoxClient::base_url(subdomain), xsrf_token: token })
    }

    /// The anti-CSRF token, for the `X-XSRF-TOKEN` header.
    pub fn xsrf_token(&self) -> (r: &str)
        ensures
            r@ == self.token(),
    {
        self.xsrf_token.as_str()
    }

    /// Where the credentials are posted.
    pub fn login_url(&self) -> (r: String)
        ensures
            r@ == self.base() + "/external/login"@,
    {
        let mut url = self.base_url.clone();
        url.append("/external/login");
        url
    }

    /// The form fields of the login request.
    pub fn login_form(username: &str, password: &str) -> (r: Vec<(String, String)>)
        ensures
            r@.len() == 2,
            r@[0].0@ == "username"@ && r@[0].1@ == username@,
            r@[1].0@ == "password"@ && r@[1].1@ == password@,
    {
        let mut form: Vec<(String, String)> = Vec::new();
        form.push(("username".to_string(), username.to_string()));
        form.push(("password".to_string(), password.to_string()));
        form
    }

    /// Ends the login with the status that the login request answered: a
    /// successful status gives the authenticated session, any other is an
    /// authentication error.
    pub fn login(self, status: u16) -> (r: Result<HrBoxSession, HrBoxError>)
        ensures
            r is Ok <==> is_success(status),
            r matches Ok(s) ==> s.base() == self.base() && s.token() == self.token(),
            !is_success(status) ==> r == Err::<HrBoxSession, HrBoxError>(HrBoxError::Authentication { status }),
    {
        match expect_success(status) {
            Ok(()) => Ok(HrBoxSession { base_url: self.base_url, xsrf_token: self.xsrf_token }),
            Err(_) => Err(HrBoxError::Authentication { status }),
        }
    }
}

/// A session whose login was accepted: the catalog and the documents are
/// requested through it.
#[derive(Debug, Clone)]
pub struct HrBoxSession {
    base_url: String,
    xsrf_token: String,
}

impl HrBoxSession {
    /// The address of the service.
    pub closed spec fn base(&self) -> Seq<char> {
        self.base_url@
    }

    /// The anti-CSRF token.
    pub closed spec fn token(&self) -> Seq<char> {
        self.xsrf_token@
    }

    /// The anti-CSRF token, for the `X-XSRF-TOKEN` header.
    pub fn xsrf_token(&self) -> (r: &str)
        ensures
            r@ == self.token(),
    {
        self.xsrf_token.as_str()
    }

    /// The address of the catalog page that starts at `offset`.
    pub fn documents_url(&self, offset: u32) -> (r: String)
        ensures
            r@ == self.base() + "/api/v1/internal/documents?offset="@ + decimal(offset as nat),
    {
        let mut url = self.base_url.clone();
        url.append("/api/v1/internal/documents?offset=");
        push_decimal(&mut url, offset);
        url
    }

    /// The address of the content of `document`.
    pub fn document_url(&self, document: &Document) -> (r: String)
        ensures
            r@ == self.base() + "/api/v1/internal/documents/"@ + document.file_index@ + "/pdf"@,
    {
        let mut url = self.base_url.clone();
        url.append("/api/v1/internal/documents/");
        url.append(document.file_index.as_str());
        url.append("/pdf");
        url
    }

    /// Decides on the answer to the request for `document`'s content: with a
    /// successful status, the name of the file to write the body to (in the
    /// output folder); with any other, an HTTP error, and nothing is written.
    pub fn download_file(&self, document: &Document, status: u16) -> (r: Result<String, HrBoxError>)
        ensures
            r is Ok <==> is_success(status),
            r matches Ok(name) ==> name@ == file_name_of(*document),
            !is_success(status) ==> r == Err::<String, HrBoxError>(HrBoxError::Http { status }),
    {
        match expect_success(status) {
            Ok(()) => Ok(file_name(document)),
            Err(e) => Err(e),
        }
    }
}

} // verus!
