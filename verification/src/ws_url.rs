//! Splitting a websocket URL into the parts of an HTTP upgrade request, and
//! the request itself.

use vstd::prelude::*;
use crate::text::{lemma_first_index_of, lemma_last_index_of, chars_of, find_char, first_index_of, last_index_of, rfind_char, string_of};

verus! {

/// A websocket URL split into host, port, and request path.
#[derive(Debug, PartialEq, Eq)]
pub struct SplitWsUrl {
    pub host: String,
    pub port: String,
    pub path: String,
}

/// The URL without its `ws://` or `http://` scheme, if it has one.
pub open spec fn without_scheme(url: Seq<char>) -> Option<Seq<char>> {
    if url.len() >= 5 && url.subrange(0, 5) == "ws://"@ {
        Some(url.subrange(5, url.len() as int))
    } else if url.len() >= 7 && url.subrange(0, 7) == "http://"@ {
        Some(url.subrange(7, url.len() as int))
    } else {
        None
    }
}

/// The authority (before the first `/`) and the path (from that `/` on, or
/// `/` when there is none).
pub open spec fn authority_and_path(rest: Seq<char>) -> (Seq<char>, Seq<char>) {
    match first_index_of(rest, '/') {
        Some(i) => (rest.subrange(0, i), seq!['/'] + rest.subrange(i + 1, rest.len() as int)),
        None => (rest, seq!['/']),
    }
}

/// The host (before the last `:`) and the port (after it, or `80` when there
/// is none).
pub open spec fn host_and_port(authority: Seq<char>) -> (Seq<char>, Seq<char>) {
    match last_index_of(authority, ':') {
        Some(j) => (authority.subrange(0, j), authority.subrange(j + 1, authority.len() as int)),
        None => (authority, "80"@),
    }
}

/// What splitting `url` gives: `Ok((host, port, path))` or the error message.
pub open spec fn split_ws_url(url: Seq<char>) -> Result<(Seq<char>, Seq<char>, Seq<char>), Seq<char>> {
    match without_scheme(url) {
        None => Err("unsupported websocket url: "@ + url),
        Some(rest) => {
            let (authority, path) = authority_and_path(rest);
            let (host, port) = host_and_port(authority);
            if host.len() == 0 || port.len() == 0 {
                Err("invalid websocket url: "@ + url)
            } else {
                Ok((host, port, path))
            }
        },
    }
}

fn starts_with_at(v: &Vec<char>, prefix: &str) -> (r: bool)
    ensures
        r == (v@.len() >= prefix@.len() && v@.subrange(0, prefix@.len() as int) == prefix@),
{
    let p = chars_of(prefix);
    if v.len() < p.len() {
        return false;
    }
    let mut i: usize = 0;
    while i < p.len()
        invariant
            0 <= i <= p@.len(),
            p@ == prefix@,
            v@.len() >= p@.len(),
            forall|j: int| 0 <= j < i ==> v@[j] == p@[j],
        decreases p@.len() - i,
    {
        if v[i] != p[i] {
            assert(v@.subrange(0, p@.len() as int)[i as int] != prefix@[i as int]);
            return false;
        }
        i = i + 1;
    }
    assert(v@.subrange(0, p@.len() as int) =~= prefix@);
    true
}

impl SplitWsUrl {
    /// Splits a `ws://` or `http://` URL into host, port (default `80`), and
    /// path (default `/`, query kept); the error names the URL.
    pub fn parse(url: &str) -> (r: Result<Self, String>)
        ensures
            match r {
                Ok(u) => split_ws_url(url@) == Ok::<_, Seq<char>>((u.host@, u.port@, u.path@)),
                Err(e) => split_ws_url(url@) == Err::<(Seq<char>, Seq<char>, Seq<char>), _>(e@),
            },
    {
        let chars = chars_of(url);
        proof {
            reveal_strlit("ws://");
            reveal_strlit("http://");
        }
        let skip: usize;
        if starts_with_at(&chars, "ws://") {
            skip = 5;
        } else if starts_with_at(&chars, "http://") {
            skip = 7;
        } else {
            let mut e = String::from_str("unsupported websocket url: ");
            e.append(url);
            return Err(e);
        }
        let ghost rest = chars@.subrange(skip as int, chars@.len() as int);
        assert(without_scheme(url@) == Some(rest));
        let tail = string_of(&chars, url, skip, chars.len());
        let tail_chars = chars_of(tail.as_str());
        assert(tail_chars@ == rest);
        let (auth_end, path) = match find_char(&tail_chars, '/') {
            Some(i) => {
                let mut p = String::from_str("/");
                let after = string_of(&tail_chars, tail.as_str(), i + 1, tail_chars.len());
                p.append(after.as_str());
                proof {
                    reveal_strlit("/");
                }
                (i, p)
            },
            None => {
                proof {
                    reveal_strlit("/");
                }
                (tail_chars.len(), String::from_str("/"))
            },
        };
        let ghost authority = authority_and_path(rest).0;
        assert(path@ == authority_and_path(rest).1);
        assert(authority == rest.subrange(0, auth_end as int));
        let auth = string_of(&tail_chars, tail.as_str(), 0, auth_end);
        let auth_chars = chars_of(auth.as_str());
        let (host, port) = match rfind_char(&auth_chars, ':') {
            Some(j) => {
                (
                    string_of(&auth_chars, auth.as_str(), 0, j),
                    string_of(&auth_chars, auth.as_str(), j + 1, auth_chars.len()),
                )
            },
            None => (auth, String::from_str("80")),
        };
        assert(host@ == host_and_port(authority).0);
        assert(port@ == host_and_port(authority).1);
        if host.unicode_len() == 0 || port.unicode_len() == 0 {
            let mut e = String::from_str("invalid websocket url: ");
            e.append(url);
            return Err(e);
        }
        Ok(SplitWsUrl { host, port, path })
    }
}

/// The `Host` header value: the host alone on port `80`, else `host:port`.
pub open spec fn host_header(host: Seq<char>, port: Seq<char>) -> Seq<char> {
    if port == "80"@ {
        host
    } else {
        host + ":"@ + port
    }
}

/// The HTTP request that asks the server to upgrade the connection to a
/// websocket for `path`.
pub open spec fn handshake_request_spec(host: Seq<char>, port: Seq<char>, path: Seq<char>) -> Seq<char> {
    "GET "@ + path + " HTTP/1.1\r\nHost: "@ + host_header(host, port)
        + "\r\nConnection: Upgrade\r\nUpgrade: websocket\r\nSec-WebSocket-Version: 13\r\nSec-WebSocket-Key: c3BhcnNoYS1ob3RwYXRjaA==\r\n\r\n"@
}

/// The websocket upgrade request for `url`.
pub fn handshake_request(url: &SplitWsUrl) -> (r: String)
    ensures
        r@ == handshake_request_spec(url.host@, url.port@, url.path@),
{
    let eighty = String::from_str("80");
    let mut r = String::from_str("GET ");
    r.append(url.path.as_str());
    r.append(" HTTP/1.1\r\nHost: ");
    r.append(url.host.as_str());
    if !url.port.eq(&eighty) {
        r.append(":");
        r.append(url.port.as_str());
    }
    r.append(
        "\r\nConnection: Upgrade\r\nUpgrade: websocket\r\nSec-WebSocket-Version: 13\r\nSec-WebSocket-Key: c3BhcnNoYS1ob3RwYXRjaA==\r\n\r\n",
    );
    r
}

/// How a split URL covers the URL: after the scheme come the host, then `:`
/// and the port unless the port is the default `80` taken when there is none,
/// then the path when the URL has one (the path is `/` otherwise). The
/// authority ends at the first `/`: neither host nor port holds a `/`, the
/// port holds no `:`, and the path starts with `/`.
pub proof fn lemma_split_ws_url_parts(url: Seq<char>)
    ensures
        split_ws_url(url) matches Ok((host, port, path)) ==> {
            let rest = without_scheme(url)->0;
            &&& without_scheme(url) is Some
            &&& !host.contains('/')
            &&& !port.contains('/')
            &&& !port.contains(':')
            &&& path.len() > 0 && path[0] == '/'
            &&& rest == host + seq![':'] + port + path
                || rest == host + seq![':'] + port && path == seq!['/']
                || rest == host + path && port == "80"@
                || rest == host && path == seq!['/'] && port == "80"@
        },
{
    if let Ok((host, port, path)) = split_ws_url(url) {
        let rest = without_scheme(url)->0;
        let (authority, p2) = authority_and_path(rest);
        assert(p2 == path);
        lemma_first_index_of(rest, '/');
        lemma_last_index_of(authority, ':');
        assert(!authority.contains('/')) by {
            if let Some(i) = first_index_of(rest, '/') {
                assert(authority == rest.subrange(0, i));
                if authority.contains('/') {
                    let k = choose|k: int| 0 <= k < authority.len() && authority[k] == '/';
                    assert(rest[k] == '/');
                }
            } else {
                if authority.contains('/') {
                    let k = choose|k: int| 0 <= k < authority.len() && authority[k] == '/';
                    assert(rest[k] == '/');
                }
            }
        }
        match first_index_of(rest, '/') {
            Some(i) => {
                assert(rest =~= authority + path);
            },
            None => {
                assert(authority == rest);
                assert(path == seq!['/']);
            },
        }
        match last_index_of(authority, ':') {
            Some(j) => {
                assert(host == authority.subrange(0, j));
                assert(port == authority.subrange(j + 1, authority.len() as int));
                assert(authority =~= host + seq![':'] + port);
                if host.contains('/') {
                    let k = choose|k: int| 0 <= k < host.len() && host[k] == '/';
                    assert(authority[k] == '/');
                }
                if port.contains('/') {
                    let k = choose|k: int| 0 <= k < port.len() && port[k] == '/';
                    assert(authority[j + 1 + k] == '/');
                }
                if port.contains(':') {
                    let k = choose|k: int| 0 <= k < port.len() && port[k] == ':';
                    assert(authority[j + 1 + k] == ':');
                }
            },
            None => {
                reveal_strlit("80");
                assert(host == authority);
                if port.contains('/') {
                    let k = choose|k: int| 0 <= k < port.len() && port[k] == '/';
                }
                if port.contains(':') {
                    let k = choose|k: int| 0 <= k < port.len() && port[k] == ':';
                }
            },
        }
    }
}

} // verus!
