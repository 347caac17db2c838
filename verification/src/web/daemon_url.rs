//! The address of the daemon, as the user types it and as the browser connects to it.
use crate::text::{
    ascii_lowered, concat, contains, has_prefix, occurs_in, opt_view, same_text, starts_with,
    str_view, string_of_range, to_ascii_lower, trim, trimmed, trimming_adds_nothing, chars_of,
};
use vstd::prelude::*;

verus! {

/// The error of the url crate for a text that is no URL.
#[verifier::external_type_specification]
#[verifier::external_body]
pub struct ExParseError(url::ParseError);

/// What is read of a URL.
#[derive(Debug)]
pub struct UrlParts {
    pub scheme: String,
    pub host: Option<String>,
    pub username: String,
    pub password: Option<String>,
    pub path: String,
    pub query: Option<String>,
    pub fragment: Option<String>,
}

/// The contents of what is read of a URL.
pub ghost struct UrlPartsView {
    pub scheme: Seq<char>,
    pub host: Option<Seq<char>>,
    pub username: Seq<char>,
    pub password: Option<Seq<char>>,
    pub path: Seq<char>,
    pub query: Option<Seq<char>>,
    pub fragment: Option<Seq<char>>,
}

impl View for UrlParts {
    type V = UrlPartsView;

    open spec fn view(&self) -> UrlPartsView {
        UrlPartsView {
            scheme: self.scheme@,
            host: opt_view(self.host),
            username: self.username@,
            password: opt_view(self.password),
            path: self.path@,
            query: opt_view(self.query),
            fragment: opt_view(self.fragment),
        }
    }
}

/// The parts that the url crate reads in a text, where the text is a URL.
pub uninterp spec fn url_parts(text: Seq<char>) -> Option<UrlPartsView>;

/// The URL that the url crate writes for a text that is a URL, with this path, query and fragment.
pub uninterp spec fn url_with(
    text: Seq<char>,
    path: Seq<char>,
    query: Option<Seq<char>>,
    fragment: Option<Seq<char>>,
) -> Seq<char>;

/// Tells whether a text is made of small ASCII letters.
pub open spec fn is_small_word(w: Seq<char>) -> bool {
    w.len() > 0 && forall|i: int| 0 <= i < w.len() ==> 'a' <= #[trigger] w[i] <= 'z'
}

/// `url::Url::parse`, with `scheme`, `host_str`, `username`, `password`, `path`, `query` and `fragment`
/// of the URL: what they give follows from the text. The scheme is in small letters, and a word before a
/// colon at the start of the text is the scheme.
#[verifier::external_body]
fn parse_url(text: &str) -> (r: Result<UrlParts, url::ParseError>)
    ensures
        match r {
            Ok(parts) => url_parts(text@) == Some(parts@),
            Err(_) => url_parts(text@) is None,
        },
        r matches Ok(parts) ==> ascii_lowered(parts.scheme@) == parts.scheme@,
        r matches Ok(parts) ==> forall|w: Seq<char>| #[trigger]
            is_small_word(w) && has_prefix(ascii_lowered(text@), w + ":"@) ==> parts.scheme@ == w,
{
    let url = url::Url::parse(text)?;
    Ok(
        UrlParts {
            scheme: url.scheme().to_owned(),
            host: url.host_str().map(str::to_owned),
            username: url.username().to_owned(),
            password: url.password().map(str::to_owned),
            path: url.path().to_owned(),
            query: url.query().map(str::to_owned),
            fragment: url.fragment().map(str::to_owned),
        },
    )
}

/// The most characters that a URL may have. The url crate counts bytes in 32 bits and gives up where the
/// URL that it writes is longer; it writes no more than a hundred bytes for a character.
pub const MAX_URL_CHARS: usize = 42_949_672;

/// The most characters that an address may have, before it is made into a URL: a scheme and a path are
/// added to it.
pub const MAX_ADDRESS_CHARS: usize = 42_949_660;

/// The most characters of a host that the url crate is known to read again as it wrote it. A label of
/// letters beyond ASCII is written as digits behind a prefix of four characters, and no more than 2000 such
/// digits are read.
pub const MAX_READABLE_HOST: usize = 2004;

/// How many characters a text has that may be missing.
pub open spec fn str_len(s: Option<&str>) -> nat {
    match s {
        Some(text) => text@.len(),
        None => 0,
    }
}

/// Tells whether a URL is one of a WebSocket with a host and without credentials.
pub open spec fn is_bare_socket(parts: UrlPartsView) -> bool {
    &&& parts.scheme == "ws"@ || parts.scheme == "wss"@
    &&& parts.host is Some
    &&& parts.username.len() == 0
    &&& parts.password is None
}

/// Tells whether a path is a slash with ASCII letters and digits behind it.
pub open spec fn is_plain_path(path: Seq<char>) -> bool {
    &&& path.len() > 1
    &&& path[0] == '/'
    &&& forall|i: int|
        1 <= i < path.len() ==> ('a' <= #[trigger] path[i] <= 'z' || 'A' <= path[i] <= 'Z' || '0'
            <= path[i] <= '9')
}

/// `url::Url::parse`, then `set_path`, `set_query` and `set_fragment`, and the URL written out. It fails
/// where `parse` fails. What it writes follows from the arguments, and begins with the scheme and a colon. Of
/// a WebSocket with a host and without credentials, given a plain path and neither query nor fragment, it
/// begins with the scheme, a colon and two slashes and ends with the path. Where the host is no longer than
/// `MAX_READABLE_HOST`, it is a URL again, with the same scheme and host, with that path and without query
/// and fragment; and to set the same in it once more changes nothing.
#[verifier::external_body]
fn rewrite_url(text: &str, path: &str, query: Option<&str>, fragment: Option<&str>) -> (r: Result<
    String,
    url::ParseError,
>)
    requires
        text@.len() + path@.len() + str_len(query) + str_len(fragment) <= MAX_URL_CHARS,
    ensures
        match r {
            Ok(written) => url_parts(text@) is Some && written@ == url_with(
                text@,
                path@,
                str_view(query),
                str_view(fragment),
            ) && has_prefix(written@, (url_parts(text@)->0).scheme + ":"@),
            Err(_) => url_parts(text@) is None,
        },
        r matches Ok(written) ==> is_bare_socket(url_parts(text@)->0) && is_plain_path(path@)
            && query is None && fragment is None ==> {
            &&& has_prefix(written@, (url_parts(text@)->0).scheme + "://"@)
            &&& written@.skip(written@.len() - path@.len()) == path@
        },
        r matches Ok(written) ==> is_bare_socket(url_parts(text@)->0) && is_plain_path(path@)
            && query is None && fragment is None && (url_parts(text@)->0).host->0.len()
            <= MAX_READABLE_HOST ==> {
            &&& url_parts(written@) == Some(
                (UrlPartsView {
                    path: path@,
                    query: None,
                    fragment: None,
                    ..url_parts(text@)->0
                }),
            )
            &&& url_with(written@, path@, None, None) == written@
        },
{
    let mut url = url::Url::parse(text)?;
    url.set_path(path);
    url.set_query(query);
    url.set_fragment(fragment);
    Ok(url.to_string())
}

/// Why an address cannot be connected to.
#[derive(Clone, Copy, Debug, PartialEq, Eq, Structural)]
pub enum DaemonUrlError {
    AddressRequired,
    UnsupportedScheme,
    ExplicitSecureRequired,
    Invalid,
    SecureRequired,
    HostAndNoCredentials,
}

impl DaemonUrlError {
    /// The error in words.
    pub fn message(self) -> (r: &'static str)
        ensures
            r@ == (match self {
                DaemonUrlError::AddressRequired => "WakuWaku daemon address is required"@,
                DaemonUrlError::UnsupportedScheme =>
                "WakuWaku daemon URL must use ws:// or wss://"@,
                DaemonUrlError::ExplicitSecureRequired =>
                "This secure WakuWaku page requires an explicit wss:// daemon URL"@,
                DaemonUrlError::Invalid => "WakuWaku daemon address is invalid"@,
                DaemonUrlError::SecureRequired =>
                "This secure WakuWaku page requires a wss:// daemon URL"@,
                DaemonUrlError::HostAndNoCredentials =>
                "WakuWaku daemon URL must contain a host and no credentials"@,
            }),
    {
        match self {
            DaemonUrlError::AddressRequired => "WakuWaku daemon address is required",
            DaemonUrlError::UnsupportedScheme => "WakuWaku daemon URL must use ws:// or wss://",
            DaemonUrlError::ExplicitSecureRequired =>
            "This secure WakuWaku page requires an explicit wss:// daemon URL",
            DaemonUrlError::Invalid => "WakuWaku daemon address is invalid",
            DaemonUrlError::SecureRequired =>
            "This secure WakuWaku page requires a wss:// daemon URL",
            DaemonUrlError::HostAndNoCredentials =>
            "WakuWaku daemon URL must contain a host and no credentials",
        }
    }
}

/// An address as a URL of a WebSocket: web addresses are turned into it, and an address without a
/// scheme gets the plain one, except on a secure page.
pub open spec fn socket_address(address: Seq<char>, page_is_https: bool) -> Result<
    Seq<char>,
    DaemonUrlError,
> {
    let text = trimmed(address);
    let lower = ascii_lowered(text);
    if text.len() == 0 {
        Err(DaemonUrlError::AddressRequired)
    } else if has_prefix(lower, "ws://"@) || has_prefix(lower, "wss://"@) {
        Ok(text)
    } else if has_prefix(lower, "http://"@) {
        Ok("ws://"@ + text.skip("http://"@.len() as int))
    } else if has_prefix(lower, "https://"@) {
        Ok("wss://"@ + text.skip("https://"@.len() as int))
    } else if occurs_in(text, "://"@) {
        Err(DaemonUrlError::UnsupportedScheme)
    } else if page_is_https {
        Err(DaemonUrlError::ExplicitSecureRequired)
    } else {
        Ok("ws://"@ + text)
    }
}

/// An address as a URL of a WebSocket.
pub fn normalize_address(address: &str, page_is_https: bool) -> (r: Result<String, DaemonUrlError>)
    ensures
        match r {
            Ok(text) => socket_address(address@, page_is_https) == Ok::<_, DaemonUrlError>(text@),
            Err(error) => socket_address(address@, page_is_https) == Err::<Seq<char>, _>(error),
        },
{
    let text = trim(address);
    if text.as_str().is_empty() {
        return Err(DaemonUrlError::AddressRequired);
    }
    let lower = to_ascii_lower(text.as_str());
    if starts_with(lower.as_str(), "ws://") || starts_with(lower.as_str(), "wss://") {
        Ok(text)
    } else if starts_with(lower.as_str(), "http://") {
        Ok(concat("ws://", behind(text.as_str(), "http://").as_str()))
    } else if starts_with(lower.as_str(), "https://") {
        Ok(concat("wss://", behind(text.as_str(), "https://").as_str()))
    } else if contains(text.as_str(), "://") {
        Err(DaemonUrlError::UnsupportedScheme)
    } else if page_is_https {
        Err(DaemonUrlError::ExplicitSecureRequired)
    } else {
        Ok(concat("ws://", text.as_str()))
    }
}

fn behind(text: &str, prefix: &str) -> (r: String)
    requires
        prefix@.len() <= text@.len(),
    ensures
        r@ == text@.skip(prefix@.len() as int),
{
    let chars = chars_of(text);
    let head = chars_of(prefix);
    let r = string_of_range(chars.as_slice(), head.len(), chars.len());
    assert(r@ =~= text@.skip(prefix@.len() as int));
    r
}

/// Tells whether a scheme is `wanted`, whatever the case of its letters.
pub open spec fn is_scheme(scheme: Seq<char>, wanted: Seq<char>) -> bool {
    ascii_lowered(scheme) == wanted
}

/// What is wrong with a URL as the address of the daemon, if anything: it is no WebSocket, it is not
/// secure on a secure page, it names no host, or it holds credentials.
pub open spec fn url_fault(parts: UrlPartsView, page_is_https: bool) -> Option<DaemonUrlError> {
    if !is_scheme(parts.scheme, "ws"@) && !is_scheme(parts.scheme, "wss"@) {
        Some(DaemonUrlError::UnsupportedScheme)
    } else if page_is_https && !is_scheme(parts.scheme, "wss"@) {
        Some(DaemonUrlError::SecureRequired)
    } else if parts.host is None || parts.username.len() > 0 || parts.password is Some {
        Some(DaemonUrlError::HostAndNoCredentials)
    } else {
        None
    }
}

/// Checks a URL as the address of the daemon.
pub fn check_url(parts: &UrlParts, page_is_https: bool) -> (r: Result<(), DaemonUrlError>)
    ensures
        r == (match url_fault(parts@, page_is_https) {
            Some(error) => Err::<(), _>(error),
            None => Ok::<_, DaemonUrlError>(()),
        }),
{
    let scheme = to_ascii_lower(parts.scheme.as_str());
    let secure = same_text(scheme.as_str(), "wss");
    if !secure && !same_text(scheme.as_str(), "ws") {
        return Err(DaemonUrlError::UnsupportedScheme);
    }
    if page_is_https && !secure {
        return Err(DaemonUrlError::SecureRequired);
    }
    if parts.host.is_none() || !parts.username.as_str().is_empty() || parts.password.is_some() {
        return Err(DaemonUrlError::HostAndNoCredentials);
    }
    Ok(())
}

/// The endpoint of the daemon at an address, given what the url crate makes of it.
pub open spec fn endpoint(address: Seq<char>, page_is_https: bool) -> Result<
    Seq<char>,
    DaemonUrlError,
> {
    match socket_address(address, page_is_https) {
        Err(error) => Err(error),
        Ok(text) => match url_parts(text) {
            None => Err(DaemonUrlError::Invalid),
            Some(parts) => match url_fault(parts, page_is_https) {
                Some(error) => Err(error),
                None => Ok(url_with(text, "/v1"@, None, None)),
            },
        },
    }
}

proof fn socket_address_is_not_long(address: Seq<char>, page_is_https: bool)
    ensures
        socket_address(address, page_is_https) matches Ok(text) ==> text.len() <= address.len() + 6,
{
    trimming_adds_nothing(address);
    reveal_strlit("ws://");
    reveal_strlit("wss://");
    reveal_strlit("http://");
    reveal_strlit("https://");
}

/// The scheme that an address asks for.
pub open spec fn asked_scheme(address: Seq<char>) -> Seq<char> {
    let lower = ascii_lowered(trimmed(address));
    if has_prefix(lower, "wss://"@) || has_prefix(lower, "https://"@) {
        "wss"@
    } else {
        "ws"@
    }
}

/// Tells whether a text is the URL of a daemon's endpoint, as the url crate reads it: a WebSocket of this
/// scheme with a host, without credentials, with the path `/v1`, and without a query and a fragment.
pub open spec fn is_endpoint(url: Seq<char>, scheme: Seq<char>) -> bool {
    &&& url_parts(url) matches Some(parts) && {
        &&& is_bare_socket(parts)
        &&& parts.scheme == scheme
        &&& parts.path == "/v1"@
        &&& parts.query is None
        &&& parts.fragment is None
    }
}

proof fn lowering_keeps_prefix(prefix: Seq<char>, rest: Seq<char>)
    requires
        ascii_lowered(prefix) == prefix,
    ensures
        has_prefix(ascii_lowered(prefix + rest), prefix),
{
    let lower = ascii_lowered(prefix + rest);
    assert(lower.subrange(0, prefix.len() as int) =~= ascii_lowered(prefix));
}

proof fn shorter_prefix(text: Seq<char>, a: Seq<char>, b: Seq<char>)
    requires
        has_prefix(text, a + b),
    ensures
        has_prefix(text, a),
{
    assert(text.subrange(0, a.len() as int) =~= (a + b).subrange(0, a.len() as int));
    assert((a + b).subrange(0, a.len() as int) =~= a);
}

proof fn one_char_differs(text: Seq<char>, a: Seq<char>, b: Seq<char>, i: int)
    requires
        0 <= i < a.len(),
        i < b.len(),
        a[i] != b[i],
        has_prefix(text, a),
    ensures
        !has_prefix(text, b),
{
    if has_prefix(text, b) {
        assert(text.subrange(0, a.len() as int)[i] == text[i]);
        assert(text.subrange(0, b.len() as int)[i] == text[i]);
    }
}

/// The text that an address becomes begins with the scheme that it asks for.
proof fn socket_address_has_scheme(address: Seq<char>, page_is_https: bool)
    ensures
        socket_address(address, page_is_https) matches Ok(text) ==> has_prefix(
            ascii_lowered(text),
            asked_scheme(address) + ":"@,
        ) && is_small_word(asked_scheme(address)),
{
    reveal_strlit("ws");
    reveal_strlit("wss");
    reveal_strlit(":");
    reveal_strlit("://");
    reveal_strlit("ws://");
    reveal_strlit("wss://");
    reveal_strlit("http://");
    reveal_strlit("https://");
    let text = trimmed(address);
    let lower = ascii_lowered(text);
    let slashes = seq!['/', '/'];
    assert("ws://"@ =~= "ws"@ + ":"@ + slashes);
    assert("wss://"@ =~= "wss"@ + ":"@ + slashes);
    assert(ascii_lowered("ws://"@) =~= "ws://"@);
    assert(ascii_lowered("wss://"@) =~= "wss://"@);
    lowering_keeps_prefix("ws://"@, text);
    lowering_keeps_prefix("ws://"@, text.skip(7));
    lowering_keeps_prefix("wss://"@, text.skip(8));
    if has_prefix(lower, "ws://"@) {
        one_char_differs(lower, "ws://"@, "wss://"@, 2);
        one_char_differs(lower, "ws://"@, "https://"@, 0);
    }
    if has_prefix(lower, "http://"@) {
        one_char_differs(lower, "http://"@, "https://"@, 4);
        one_char_differs(lower, "http://"@, "wss://"@, 0);
    }
    if let Ok(t) = socket_address(address, page_is_https) {
        if asked_scheme(address) == "wss"@ {
            assert(has_prefix(ascii_lowered(t), "wss://"@)) by {
                if has_prefix(lower, "https://"@) {
                    one_char_differs(lower, "https://"@, "http://"@, 4);
                    one_char_differs(lower, "https://"@, "ws://"@, 0);
                    one_char_differs(lower, "https://"@, "wss://"@, 0);
                }
            }
            shorter_prefix(ascii_lowered(t), "wss"@ + ":"@, slashes);
        } else {
            assert(has_prefix(ascii_lowered(t), "ws://"@));
            shorter_prefix(ascii_lowered(t), "ws"@ + ":"@, slashes);
        }
    }
}

/// An endpoint that the url crate wrote is its own endpoint.
proof fn written_endpoint_stays(url: Seq<char>, scheme: Seq<char>, page_is_https: bool)
    requires
        scheme == "ws"@ || scheme == "wss"@,
        page_is_https ==> scheme == "wss"@,
        is_endpoint(url, scheme),
        has_prefix(url, scheme + "://"@),
        url.skip(url.len() - 3) == "/v1"@,
        url_with(url, "/v1"@, None, None) == url,
    ensures
        endpoint(url, page_is_https) == Ok::<_, DaemonUrlError>(url),
{
    reveal_strlit("ws");
    reveal_strlit("wss");
    reveal_strlit("/v1");
    reveal_strlit("://");
    reveal_strlit("ws://");
    reveal_strlit("wss://");
    let head = scheme + "://"@;
    assert("ws"@ + "://"@ =~= "ws://"@);
    assert("wss"@ + "://"@ =~= "wss://"@);
    assert(url.subrange(0, head.len() as int)[0] == url[0]);
    assert(url[0] == 'w');
    assert("/v1"@.len() == 3);
    assert(url.skip(url.len() - 3)[2] == url.last());
    assert(url.last() == '1');
    assert(trimmed(url) == url);
    assert(ascii_lowered(head) =~= head);
    let rest = url.skip(head.len() as int);
    assert(url =~= head + rest);
    lowering_keeps_prefix(head, rest);
    assert(ascii_lowered("ws"@) =~= "ws"@);
    assert(ascii_lowered("wss"@) =~= "wss"@);
}

/// The host of an address, as the url crate reads it in an address that it takes for a URL with a host.
pub open spec fn asked_host(address: Seq<char>, page_is_https: bool) -> Seq<char> {
    (url_parts(socket_address(address, page_is_https)->Ok_0)->0).host->0
}

/// The endpoint of the daemon at an address: a WebSocket with the path `/v1`. On a secure page only a
/// secure one will do. The endpoint begins with the scheme and ends with the path. Where the host is no
/// longer than `MAX_READABLE_HOST`, it reads as an endpoint, and the endpoint of it is that endpoint.
pub fn daemon_url(address: &str, page_is_https: bool) -> (r: Result<String, DaemonUrlError>)
    requires
        address@.len() <= MAX_ADDRESS_CHARS,
    ensures
        match r {
            Ok(url) => endpoint(address@, page_is_https) == Ok::<_, DaemonUrlError>(url@),
            Err(error) => endpoint(address@, page_is_https) == Err::<Seq<char>, _>(error),
        },
        r matches Ok(url) ==> has_prefix(url@, asked_scheme(address@) + "://"@),
        r matches Ok(url) ==> url@.skip(url@.len() - "/v1"@.len()) == "/v1"@,
        r matches Ok(url) ==> page_is_https ==> asked_scheme(address@) == "wss"@,
        r matches Ok(url) ==> asked_host(address@, page_is_https).len() <= MAX_READABLE_HOST ==> {
            &&& is_endpoint(url@, asked_scheme(address@))
            &&& endpoint(url@, page_is_https) == Ok::<_, DaemonUrlError>(url@)
        },
{
    let text = match normalize_address(address, page_is_https) {
        Ok(text) => text,
        Err(error) => return Err(error),
    };
    let parts = match parse_url(text.as_str()) {
        Ok(parts) => parts,
        Err(_) => return Err(DaemonUrlError::Invalid),
    };
    match check_url(&parts, page_is_https) {
        Ok(_) => {},
        Err(error) => return Err(error),
    }
    proof {
        socket_address_is_not_long(address@, page_is_https);
        socket_address_has_scheme(address@, page_is_https);
        reveal_strlit("/v1");
        reveal_strlit("ws");
        reveal_strlit("wss");
        assert("ws"@.len() != "wss"@.len());
        assert(parts@.scheme == asked_scheme(address@));
        assert(ascii_lowered("ws"@) =~= "ws"@);
        assert(is_bare_socket(parts@));
        assert(is_plain_path("/v1"@));
    }
    match rewrite_url(text.as_str(), "/v1", None, None) {
        Ok(url) => {
            proof {
                if parts@.host->0.len() <= MAX_READABLE_HOST {
                    written_endpoint_stays(url@, parts@.scheme, page_is_https);
                }
            }
            Ok(url)
        },
        Err(_) => Err(DaemonUrlError::Invalid),
    }
}

/// A blank address is refused, and so are one with a scheme that is neither of a WebSocket nor of the web,
/// and one with credentials in it.
pub proof fn bad_addresses_are_refused(address: Seq<char>, page_is_https: bool)
    ensures
        trimmed(address).len() == 0 ==> endpoint(address, page_is_https) == Err::<Seq<char>, _>(
            DaemonUrlError::AddressRequired,
        ),
        ({
            let text = trimmed(address);
            let lower = ascii_lowered(text);
            occurs_in(text, "://"@) && !has_prefix(lower, "ws://"@) && !has_prefix(lower, "wss://"@)
                && !has_prefix(lower, "http://"@) && !has_prefix(lower, "https://"@)
        }) && trimmed(address).len() > 0 ==> endpoint(address, page_is_https) == Err::<Seq<char>, _>(
            DaemonUrlError::UnsupportedScheme,
        ),
        socket_address(address, page_is_https) matches Ok(text) ==> (url_parts(text) matches Some(parts)
            ==> parts.username.len() > 0 || parts.password is Some ==> endpoint(
            address,
            page_is_https,
        ) is Err),
{
}

} // verus!
