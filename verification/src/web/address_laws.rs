//! What the address of the daemon promises: what was typed is what is connected to, and a secure page connects
//! securely.
use crate::text::{ascii_lower, ascii_lowered, has_prefix, occurs_in, opt_view, stands_at, trimmed};
use crate::web::daemon_url::{
    check_url, daemon_url, normalize_address, url_parts, url_with, DaemonUrlError, UrlParts,
    MAX_ADDRESS_CHARS,
};
use vstd::prelude::*;

verus! {

proof fn lowered_prefix(prefix: Seq<char>, rest: Seq<char>, known: Seq<char>)
    requires
        ascii_lowered(prefix) == known,
    ensures
        has_prefix(ascii_lowered(prefix + rest), known),
        (prefix + rest).skip(known.len() as int) == rest,
{
    let text = prefix + rest;
    let lower = ascii_lowered(text);
    assert(prefix.len() == known.len());
    assert(lower.subrange(0, known.len() as int) =~= known) by {
        assert forall|i: int| 0 <= i < known.len() implies lower[i] == known[i] by {
            assert(text[i] == prefix[i]);
            assert(ascii_lowered(prefix)[i] == known[i]);
        }
    }
    assert(text.skip(known.len() as int) =~= rest);
}

proof fn schemes_differ(lower: Seq<char>)
    ensures
        has_prefix(lower, "http://"@) ==> !has_prefix(lower, "ws://"@) && !has_prefix(
            lower,
            "wss://"@,
        ),
        has_prefix(lower, "https://"@) ==> !has_prefix(lower, "ws://"@) && !has_prefix(
            lower,
            "wss://"@,
        ) && !has_prefix(lower, "http://"@),
{
    reveal_strlit("http://");
    reveal_strlit("https://");
    reveal_strlit("ws://");
    reveal_strlit("wss://");
    if has_prefix(lower, "http://"@) {
        assert(lower.subrange(0, 7)[0] == 'h');
        assert(lower.subrange(0, 7)[4] == ':');
    }
    if has_prefix(lower, "https://"@) {
        assert(lower.subrange(0, 8)[0] == 'h');
        assert(lower.subrange(0, 8)[4] == 's');
        if has_prefix(lower, "http://"@) {
            assert(lower.subrange(0, 7)[4] == ':');
        }
    }
    if has_prefix(lower, "ws://"@) {
        assert(lower.subrange(0, 5)[0] == 'w');
    }
    if has_prefix(lower, "wss://"@) {
        assert(lower.subrange(0, 6)[0] == 'w');
    }
}

/// An address without text is asked for; one that names a socket is taken as it is, and one that names a page is
/// turned into the socket of the same kind. The case of the scheme does not matter.
pub proof fn named_schemes_are_kept(
    address: &str,
    secure_page: bool,
    r: Result<String, DaemonUrlError>,
    prefix: Seq<char>,
    rest: Seq<char>,
)
    requires
        call_ensures(normalize_address, (address, secure_page), r),
        trimmed(address@) == prefix + rest,
    ensures
        trimmed(address@).len() == 0 ==> r == Err::<String, _>(DaemonUrlError::AddressRequired),
        ascii_lowered(prefix) == "ws://"@ || ascii_lowered(prefix) == "wss://"@ ==> r is Ok && (
        r->Ok_0)@ == trimmed(address@),
        ascii_lowered(prefix) == "http://"@ ==> r is Ok && (r->Ok_0)@ == "ws://"@ + rest,
        ascii_lowered(prefix) == "https://"@ ==> r is Ok && (r->Ok_0)@ == "wss://"@ + rest,
{
    let known = ascii_lowered(prefix);
    lowered_prefix(prefix, rest, known);
    schemes_differ(ascii_lowered(trimmed(address@)));
    reveal_strlit("http://");
    reveal_strlit("https://");
    reveal_strlit("ws://");
    reveal_strlit("wss://");
    assert(prefix.len() == known.len());
}

proof fn scheme_has_colon(text: Seq<char>, known: Seq<char>, at: int)
    requires
        has_prefix(ascii_lowered(text), known),
        0 <= at,
        known.len() == at + 3,
        known[at] == ':',
        known[at + 1] == '/',
        known[at + 2] == '/',
    ensures
        occurs_in(text, "://"@),
{
    reveal_strlit("://");
    let lower = ascii_lowered(text);
    let head = lower.subrange(0, known.len() as int);
    assert(head =~= known);
    assert forall|i: int| at <= i < at + 3 implies text[i] == known[i] by {
        assert(head[i] == lower[i]);
        assert(lower[i] == ascii_lower(text[i]));
    }
    assert(text.subrange(at, at + 3) =~= "://"@);
    assert(stands_at(text, "://"@, at));
}

/// An address that names no scheme is that of a socket, but not from a secure page; any other scheme is refused.
pub proof fn unnamed_schemes_are_sockets(
    address: &str,
    secure_page: bool,
    r: Result<String, DaemonUrlError>,
)
    requires
        call_ensures(normalize_address, (address, secure_page), r),
        trimmed(address@).len() > 0,
    ensures
        !occurs_in(trimmed(address@), "://"@) && !secure_page ==> r is Ok && (r->Ok_0)@ == "ws://"@
            + trimmed(address@),
        !occurs_in(trimmed(address@), "://"@) && secure_page ==> r == Err::<String, _>(
            DaemonUrlError::ExplicitSecureRequired,
        ),
        occurs_in(trimmed(address@), "://"@) && !has_prefix(
            ascii_lowered(trimmed(address@)),
            "ws://"@,
        ) && !has_prefix(ascii_lowered(trimmed(address@)), "wss://"@) && !has_prefix(
            ascii_lowered(trimmed(address@)),
            "http://"@,
        ) && !has_prefix(ascii_lowered(trimmed(address@)), "https://"@) ==> r == Err::<String, _>(
            DaemonUrlError::UnsupportedScheme,
        ),
{
    let text = trimmed(address@);
    let lower = ascii_lowered(text);
    reveal_strlit("http://");
    reveal_strlit("https://");
    reveal_strlit("ws://");
    reveal_strlit("wss://");
    if has_prefix(lower, "ws://"@) {
        scheme_has_colon(text, "ws://"@, 2);
    }
    if has_prefix(lower, "wss://"@) {
        scheme_has_colon(text, "wss://"@, 3);
    }
    if has_prefix(lower, "http://"@) {
        scheme_has_colon(text, "http://"@, 4);
    }
    if has_prefix(lower, "https://"@) {
        scheme_has_colon(text, "https://"@, 5);
    }
}

/// An address can be connected to where it is that of a socket with a host and without credentials, and from a
/// secure page only where the socket is secure.
pub proof fn only_bare_sockets_are_connected_to(
    parts: &UrlParts,
    secure_page: bool,
    r: Result<(), DaemonUrlError>,
)
    requires
        call_ensures(check_url, (parts, secure_page), r),
    ensures
        ({
            let scheme = ascii_lowered(parts.scheme@);
            let is_socket = scheme == "ws"@ || scheme == "wss"@;
            let is_bare = parts.host is Some && parts.username@.len() == 0 && parts.password is None;
            &&& r is Ok <==> is_socket && (secure_page ==> scheme == "wss"@) && is_bare
            &&& !is_socket ==> r == Err::<(), _>(DaemonUrlError::UnsupportedScheme)
            &&& is_socket && secure_page && scheme != "wss"@ ==> r == Err::<(), _>(
                DaemonUrlError::SecureRequired,
            )
            &&& is_socket && (secure_page ==> scheme == "wss"@) && !is_bare ==> r == Err::<(), _>(
                DaemonUrlError::HostAndNoCredentials,
            )
        }),
{
    assert(opt_view(parts.host) is Some <==> parts.host is Some);
    assert(opt_view(parts.password) is Some <==> parts.password is Some);
}

/// What is connected to is the address that was typed, made a socket, with the path of the protocol and without a
/// query or a fragment; it is refused where the address is, where it is none, or where it cannot be connected to.
pub proof fn what_was_typed_is_connected_to(
    address: &str,
    secure_page: bool,
    r: Result<String, DaemonUrlError>,
    socket: Result<String, DaemonUrlError>,
    parts: &UrlParts,
    fit: Result<(), DaemonUrlError>,
)
    requires
        address@.len() <= MAX_ADDRESS_CHARS,
        call_ensures(daemon_url, (address, secure_page), r),
        call_ensures(normalize_address, (address, secure_page), socket),
        socket matches Ok(text) ==> (url_parts(text@) matches Some(p) ==> parts@ == p),
        call_ensures(check_url, (parts, secure_page), fit),
    ensures
        socket matches Err(e) ==> r == Err::<String, _>(e),
        socket matches Ok(text) ==> (url_parts(text@) is None ==> r == Err::<String, _>(
            DaemonUrlError::Invalid,
        )) && (url_parts(text@) is Some ==> (fit matches Err(e) ==> r == Err::<String, _>(e)) && (
        fit is Ok ==> r is Ok && (r->Ok_0)@ == url_with(text@, "/v1"@, None, None))),
        r is Ok && secure_page ==> has_prefix((r->Ok_0)@, "wss://"@),
        r is Ok ==> (r->Ok_0)@.len() >= 3 && (r->Ok_0)@.skip((r->Ok_0)@.len() - 3) == "/v1"@,
{
    reveal_strlit("/v1");
    reveal_strlit("wss");
    reveal_strlit("wss://");
    reveal_strlit("://");
    if r is Ok {
        assert("wss"@ + "://"@ =~= "wss://"@);
        let url = (r->Ok_0)@;
        assert(url.skip(url.len() - "/v1"@.len()) == "/v1"@);
    }
}

} // verus!
