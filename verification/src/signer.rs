//! The capability-signing subsystem: time-limited authorized URLs computed
//! from a freshly obtained signing credential.
//!
//! Everything here is deterministic once the credential and the clock
//! reading are in hand; obtaining the clock reading is the one unverified
//! step, kept behind a trusted wrapper with no assumed properties.

use vstd::prelude::*;
use vstd::string::StringExecFns;
use crate::Error;
use crate::path::Path;

verus! {

/// HTTP method a signed request authorizes.
#[derive(Clone, Copy, PartialEq, Eq, Structural, Debug)]
pub enum Method {
    Get,
    Put,
    Delete,
    Head,
}

pub open spec fn spec_method_name(m: Method) -> Seq<char> {
    match m {
        Method::Get => "GET"@,
        Method::Put => "PUT"@,
        Method::Delete => "DELETE"@,
        Method::Head => "HEAD"@,
    }
}

pub fn method_name(m: Method) -> (r: &'static str)
    ensures
        r@ == spec_method_name(m),
{
    match m {
        Method::Get => "GET",
        Method::Put => "PUT",
        Method::Delete => "DELETE",
        Method::Head => "HEAD",
    }
}

/// The decimal digit characters of `n`, most significant first.
pub open spec fn spec_digit(d: int) -> char {
    if d == 0 {
        '0'
    } else if d == 1 {
        '1'
    } else if d == 2 {
        '2'
    } else if d == 3 {
        '3'
    } else if d == 4 {
        '4'
    } else if d == 5 {
        '5'
    } else if d == 6 {
        '6'
    } else if d == 7 {
        '7'
    } else if d == 8 {
        '8'
    } else {
        '9'
    }
}

pub open spec fn spec_dec(n: int) -> Seq<char>
    decreases n,
{
    if n < 10 {
        seq![spec_digit(n)]
    } else {
        spec_dec(n / 10).push(spec_digit(n % 10))
    }
}

fn dec_digit_str(d: u64) -> (r: &'static str)
    requires
        d < 10,
    ensures
        r@ == seq![spec_digit(d as int)],
{
    let r: &'static str = match d {
        0 => "0",
        1 => "1",
        2 => "2",
        3 => "3",
        4 => "4",
        5 => "5",
        6 => "6",
        7 => "7",
        8 => "8",
        _ => "9",
    };
    proof {
        reveal_strlit("0");
        reveal_strlit("1");
        reveal_strlit("2");
        reveal_strlit("3");
        reveal_strlit("4");
        reveal_strlit("5");
        reveal_strlit("6");
        reveal_strlit("7");
        reveal_strlit("8");
        reveal_strlit("9");
        assert(r@ =~= seq![spec_digit(d as int)]);
    }
    r
}

/// Decimal rendering of an unsigned integer.
pub fn format_u64(n: u64) -> (s: String)
    ensures
        s@ == spec_dec(n as int),
    decreases n,
{
    if n < 10 {
        dec_digit_str(n).to_owned()
    } else {
        let mut s = format_u64(n / 10);
        s.append(dec_digit_str(n % 10));
        proof {
            assert(s@ =~= spec_dec(n as int));
        }
        s
    }
}

pub open spec fn spec_hex_digit(d: int) -> char {
    if d < 10 {
        spec_digit(d)
    } else if d == 10 {
        'a'
    } else if d == 11 {
        'b'
    } else if d == 12 {
        'c'
    } else if d == 13 {
        'd'
    } else if d == 14 {
        'e'
    } else {
        'f'
    }
}

/// Lower-case hexadecimal digits of `bytes`, two per byte, in order.
pub open spec fn spec_hex(bytes: Seq<u8>) -> Seq<char>
    decreases bytes.len(),
{
    if bytes.len() == 0 {
        Seq::empty()
    } else {
        spec_hex(bytes.drop_last()) + seq![
            spec_hex_digit(bytes.last() as int / 16),
            spec_hex_digit(bytes.last() as int % 16),
        ]
    }
}

fn hex_digit_str(d: u8) -> (r: &'static str)
    requires
        d < 16,
    ensures
        r@ == seq![spec_hex_digit(d as int)],
{
    if d < 10 {
        dec_digit_str(d as u64)
    } else {
        let r: &'static str = match d {
            10 => "a",
            11 => "b",
            12 => "c",
            13 => "d",
            14 => "e",
            _ => "f",
        };
        proof {
            reveal_strlit("a");
            reveal_strlit("b");
            reveal_strlit("c");
            reveal_strlit("d");
            reveal_strlit("e");
            reveal_strlit("f");
            assert(r@ =~= seq![spec_hex_digit(d as int)]);
        }
        r
    }
}

/// Lower-case hexadecimal rendering of a byte string.
pub fn hex_string(bytes: &Vec<u8>) -> (s: String)
    ensures
        s@ == spec_hex(bytes@),
{
    let mut s = String::new();
    let mut i: usize = 0;
    while i < bytes.len()
        invariant
            i <= bytes@.len(),
            s@ == spec_hex(bytes@.take(i as int)),
        decreases bytes@.len() - i,
    {
        let b = bytes[i];
        s.append(hex_digit_str(b / 16));
        s.append(hex_digit_str(b % 16));
        proof {
            assert(bytes@.take(i + 1 as int).drop_last() =~= bytes@.take(i as int));
            assert(s@ =~= spec_hex(bytes@.take(i + 1 as int)));
        }
        i = i + 1;
    }
    proof {
        assert(bytes@.take(bytes@.len() as int) =~= bytes@);
    }
    s
}

/// A signing credential: the secret from which a URL's authorization token
/// is computed.
#[derive(Debug)]
pub struct AzureCredential {
    pub secret: Vec<u8>,
}

/// Source of signing credentials.
///
/// The fetch counter makes "one credential acquisition per signing call"
/// part of the signing functions' contracts.
#[derive(Debug)]
pub struct AzureCredentialProvider {
    /// The configured secret; when none is configured every acquisition
    /// fails.
    pub secret: Option<Vec<u8>>,
    /// How many times a credential was fetched from this provider.
    pub fetches: u64,
}

impl AzureCredentialProvider {
    pub fn new(secret: Option<Vec<u8>>) -> (p: AzureCredentialProvider)
        ensures
            p.secret == secret,
            p.fetches == 0,
    {
        AzureCredentialProvider { secret, fetches: 0 }
    }

    /// Obtain a fresh signing credential; fails exactly when no secret is
    /// configured.
    pub fn get_credential(&mut self) -> (r: Result<AzureCredential, Error>)
        requires
            old(self).fetches < u64::MAX,
        ensures
            final(self).fetches == old(self).fetches + 1,
            final(self).secret == old(self).secret,
            match r {
                Ok(c) => old(self).secret matches Some(s) && c.secret@ == s@,
                Err(e) => old(self).secret is None && e is Credential,
            },
    {
        self.fetches = self.fetches + 1;
        match &self.secret {
            Some(s) => Ok(AzureCredential { secret: vstd::slice::slice_to_vec(s.as_slice()) }),
            None => Err(Error::Credential("no signing credential is configured".to_owned())),
        }
    }
}

/// A time-limited authorized request: the URL embeds the authorization and
/// is valid strictly until `expiry` (seconds since the Unix epoch); the
/// signature is never recomputed or extended after issuance.
#[derive(Debug)]
pub struct SignedRequest {
    pub url: String,
    pub method: Method,
    pub expiry: u64,
}

/// The canonical URL of `path` inside one account's container.
pub open spec fn spec_path_url(account: Seq<char>, container: Seq<char>, path: Seq<char>) -> Seq<
    char,
> {
    "https://"@ + account + ".blob.core.windows.net/"@ + container + "/"@ + path
}

/// The full authorized URL: the canonical path URL plus the expiry, the
/// permitted method, and the authorization token computed from the secret.
pub open spec fn spec_signed_url(
    account: Seq<char>,
    container: Seq<char>,
    path: Seq<char>,
    method: Method,
    expiry: u64,
    secret: Seq<u8>,
) -> Seq<char> {
    spec_path_url(account, container, path) + "?se="@ + spec_dec(expiry as int) + "&sp="@
        + spec_method_name(method) + "&sig="@ + spec_hex(secret)
}

/// The canonical URL of `path` for this account and container.
pub fn path_url(account: &String, container: &String, path: &Path) -> (r: String)
    ensures
        r@ == spec_path_url(account@, container@, path@),
{
    let mut s = String::from_str("https://");
    s.append(account.as_str());
    s.append(".blob.core.windows.net/");
    s.append(container.as_str());
    s.append("/");
    s.append(path.as_str());
    proof {
        assert(s@ =~= spec_path_url(account@, container@, path@));
    }
    s
}

/// Build one signed request from an already-obtained credential and an
/// already-fixed absolute expiry. Deterministic and total.
pub fn sign_at(
    account: &String,
    container: &String,
    path: &Path,
    method: Method,
    expiry: u64,
    credential: &AzureCredential,
) -> (req: SignedRequest)
    ensures
        req.method == method,
        req.expiry == expiry,
        req.url@ == spec_signed_url(
            account@,
            container@,
            path@,
            method,
            expiry,
            credential.secret@,
        ),
{
    let mut url = path_url(account, container, path);
    url.append("?se=");
    let rendered_expiry = format_u64(expiry);
    url.append(rendered_expiry.as_str());
    url.append("&sp=");
    url.append(method_name(method));
    url.append("&sig=");
    let token = hex_string(&credential.secret);
    url.append(token.as_str());
    proof {
        assert(url@ =~= spec_signed_url(
            account@,
            container@,
            path@,
            method,
            expiry,
            credential.secret@,
        ));
    }
    SignedRequest { url, method, expiry }
}

/// Build one signed request from a clock reading and a relative expiry,
/// converted once to an absolute timestamp. Fails exactly when the expiry
/// cannot be represented.
pub fn sign_request(
    account: &String,
    container: &String,
    path: &Path,
    method: Method,
    now: u64,
    expires_in: u64,
    credential: &AzureCredential,
) -> (r: Result<SignedRequest, Error>)
    ensures
        match r {
            Ok(req) => {
                &&& now + expires_in <= u64::MAX
                &&& req.expiry == now + expires_in
                &&& req.method == method
                &&& req.url@ == spec_signed_url(
                    account@,
                    container@,
                    path@,
                    method,
                    req.expiry,
                    credential.secret@,
                )
            },
            Err(e) => e is Signing && now + expires_in > u64::MAX,
        },
{
    if expires_in > u64::MAX - now {
        return Err(
            Error::Signing("expiry is outside the representable time range".to_owned()),
        );
    }
    let expiry = now + expires_in;
    Ok(sign_at(account, container, path, method, expiry, credential))
}

/// Relies on std::time::SystemTime::now, read as whole seconds since the
/// Unix epoch. The clock is outside this crate's control, so nothing is
/// assumed about the value that comes back; callers state only what holds
/// for every reading.
#[verifier::external_body]
pub(crate) fn now_unix_seconds() -> u64 {
    match std::time::SystemTime::now().duration_since(std::time::UNIX_EPOCH) {
        Ok(elapsed) => elapsed.as_secs(),
        Err(_) => 0,
    }
}

} // verus!
