use vstd::prelude::*;

use base64::Engine;
use http::header::HeaderName;
use http::HeaderMap;
use http::HeaderValue;
use std::time::Duration;
use url::Url;

verus! {

#[verifier::external_type_specification]
#[verifier::external_body]
pub struct ExHeaderValue(HeaderValue);

#[verifier::external_type_specification]
#[verifier::external_body]
#[verifier::reject_recursive_types(T)]
pub struct ExHeaderMap<T>(http::header::HeaderMap<T>);

/// The serialization (`Url::as_str`) of the URL that `url::Url::parse`
/// makes of a text, or `None` when the text is not a valid URL.
pub uninterp spec fn url_serialization(text: Seq<char>) -> Option<Seq<char>>;

/// The serialization of the URL that `url::Url::parse` makes of `url`, after
/// `key=value` was appended to its query with `append_pair`; `None` when
/// `url` is not a valid URL.
pub uninterp spec fn url_with_query_pair(url: Seq<char>, key: Seq<char>, value: Seq<char>) -> Option<
    Seq<char>,
>;

/// The host of the URL that `url::Url::parse` makes of a text, as
/// `url::Host` writes itself (a domain, an IPv4 address, or an IPv6 address
/// in brackets); `None` when the text is not a valid URL or the URL has no
/// host.
pub uninterp spec fn url_host(text: Seq<char>) -> Option<Seq<char>>;

/// A text, if any, as a sequence of characters.
pub open spec fn text_of(text: Option<String>) -> Option<Seq<char>> {
    match text {
        Some(t) => Some(t@),
        None => None,
    }
}

/// Whether appending `key=value` to the query of the serialization `url`
/// keeps it within the 32-bit offsets of `url`: the append adds at most a
/// separator, an `=` and three bytes per byte of key and value.
pub open spec fn url_length_fits(url: Seq<char>, key: Seq<char>, value: Seq<char>) -> bool {
    vstd::utf8::encode_utf8(url).len() + 2 + 3 * (vstd::utf8::encode_utf8(key).len()
        + vstd::utf8::encode_utf8(value).len()) <= u32::MAX
}

/// The room a query pair needs is exactly the 32-bit offset range of `url`:
/// a URL and a pair fit when the URL's bytes, a separator, an `=` and three
/// bytes for each byte of key and value come to at most 4294967295 bytes,
/// and only then. In particular every URL and pair of up to 768 MiB each fit.
pub proof fn lemma_query_pair_room(url: Seq<char>, key: Seq<char>, value: Seq<char>)
    ensures
        url_length_fits(url, key, value) <==> vstd::utf8::encode_utf8(url).len() + 2 + 3 * (
        vstd::utf8::encode_utf8(key).len() + vstd::utf8::encode_utf8(value).len())
            <= 4294967295,
        vstd::utf8::encode_utf8(url).len() <= 0x3000_0000 && vstd::utf8::encode_utf8(key).len()
            + vstd::utf8::encode_utf8(value).len() <= 0x3000_0000 ==> url_length_fits(
            url,
            key,
            value,
        ),
{
}

/// The character of the standard base64 alphabet at index `i` (0 to 63).
pub open spec fn base64_char(i: int) -> char {
    if i < 26 {
        (65 + i) as char
    } else if i < 52 {
        (97 + (i - 26)) as char
    } else if i < 62 {
        (48 + (i - 52)) as char
    } else if i == 62 {
        '+'
    } else {
        '/'
    }
}

/// The standard (RFC 4648) base64 encoding of some bytes: each group of
/// three bytes becomes four characters of six bits each, and a last group
/// of one or two bytes is padded with `=`.
pub open spec fn base64_standard(bytes: Seq<u8>) -> Seq<char>
    decreases bytes.len(),
{
    if bytes.len() == 0 {
        seq![]
    } else if bytes.len() == 1 {
        let b0 = bytes[0] as int;
        seq![base64_char(b0 / 4), base64_char((b0 % 4) * 16), '=', '=']
    } else if bytes.len() == 2 {
        let b0 = bytes[0] as int;
        let b1 = bytes[1] as int;
        seq![base64_char(b0 / 4), base64_char((b0 % 4) * 16 + b1 / 16), base64_char((b1 % 16) * 4), '=']
    } else {
        let b0 = bytes[0] as int;
        let b1 = bytes[1] as int;
        let b2 = bytes[2] as int;
        seq![
            base64_char(b0 / 4),
            base64_char((b0 % 4) * 16 + b1 / 16),
            base64_char((b1 % 16) * 4 + b2 / 64),
            base64_char(b2 % 64),
        ] + base64_standard(bytes.subrange(3, bytes.len() as int))
    }
}

proof fn lemma_base64_char(i: int)
    requires
        0 <= i < 64,
    ensures
        is_base64_char(base64_char(i)),
{
    if i < 26 {
        assert(('A' as u32) == 65u32);
        assert(('Z' as u32) == 90u32);
    } else if i < 52 {
        assert(('a' as u32) == 97u32);
        assert(('z' as u32) == 122u32);
    } else if i < 62 {
        assert(('0' as u32) == 48u32);
        assert(('9' as u32) == 57u32);
    }
}

/// Every character of a standard base64 encoding is in the alphabet or `=`.
pub proof fn lemma_base64_alphabet(bytes: Seq<u8>)
    ensures
        forall|i: int| 0 <= i < base64_standard(bytes).len() ==> is_base64_char(
            #[trigger] base64_standard(bytes)[i],
        ),
    decreases bytes.len(),
{
    if bytes.len() == 0 {
    } else if bytes.len() == 1 {
        let b0 = bytes[0] as int;
        lemma_base64_char(b0 / 4);
        lemma_base64_char((b0 % 4) * 16);
    } else if bytes.len() == 2 {
        let b0 = bytes[0] as int;
        let b1 = bytes[1] as int;
        lemma_base64_char(b0 / 4);
        lemma_base64_char((b0 % 4) * 16 + b1 / 16);
        lemma_base64_char((b1 % 16) * 4);
    } else {
        let b0 = bytes[0] as int;
        let b1 = bytes[1] as int;
        let b2 = bytes[2] as int;
        lemma_base64_char(b0 / 4);
        lemma_base64_char((b0 % 4) * 16 + b1 / 16);
        lemma_base64_char((b1 % 16) * 4 + b2 / 64);
        lemma_base64_char(b2 % 64);
        lemma_base64_alphabet(bytes.subrange(3, bytes.len() as int));
        let head = seq![
            base64_char(b0 / 4),
            base64_char((b0 % 4) * 16 + b1 / 16),
            base64_char((b1 % 16) * 4 + b2 / 64),
            base64_char(b2 % 64),
        ];
        let tail = base64_standard(bytes.subrange(3, bytes.len() as int));
        assert(base64_standard(bytes) == head + tail);
        assert forall|i: int| 0 <= i < base64_standard(bytes).len() implies is_base64_char(
            #[trigger] base64_standard(bytes)[i],
        ) by {
            if i >= 4 {
                assert(base64_standard(bytes)[i] == tail[i - 4]);
            }
        }
    }
}

/// What a header map holds: each header name, in lower case, with its
/// values as bytes, in the order they were added.
pub uninterp spec fn header_entries(map: HeaderMap) -> Map<Seq<char>, Seq<Seq<u8>>>;

/// A character of the standard base64 alphabet, or the padding `=`.
pub open spec fn is_base64_char(c: char) -> bool {
    ('A' <= c <= 'Z') || ('a' <= c <= 'z') || ('0' <= c <= '9') || c == '+' || c == '/' || c
        == '='
}

/// A character that `http` accepts in a header value: any byte from 32 up
/// but DEL, and tab. Characters beyond ASCII are encoded as bytes from 128
/// up, all accepted.
pub open spec fn is_header_value_char(c: char) -> bool {
    (c as u32 >= 32 && c as u32 != 127) || c == '\t'
}

/// A text that `http` accepts as a header value.
pub open spec fn is_header_value(text: Seq<char>) -> bool {
    forall|i: int| 0 <= i < text.len() ==> is_header_value_char(#[trigger] text[i])
}

/// A visible ASCII character: from space (32) to `~` (126).
pub open spec fn is_visible_ascii_char(c: char) -> bool {
    32 <= c as u32 <= 126
}

/// A text of visible ASCII characters only.
pub open spec fn is_visible_ascii(text: Seq<char>) -> bool {
    forall|i: int| 0 <= i < text.len() ==> is_visible_ascii_char(#[trigger] text[i])
}

/// A character that `http` accepts in a header name (a token character,
/// letters in either case).
pub open spec fn is_header_name_char(c: char) -> bool {
    ('a' <= c <= 'z') || ('A' <= c <= 'Z') || ('0' <= c <= '9') || c == '!' || c == '#' || c
        == '$' || c == '%' || c == '&' || c == '\'' || c == '*' || c == '+' || c == '-' || c == '.'
        || c == '^' || c == '_' || c == '`' || c == '|' || c == '~'
}

/// A text that `http` accepts as a header name: 1 to 65535 token
/// characters.
pub open spec fn is_header_name(text: Seq<char>) -> bool {
    1 <= text.len() <= 65535 && forall|i: int|
        0 <= i < text.len() ==> is_header_name_char(#[trigger] text[i])
}

/// A character in lower case (ASCII letters only are changed).
pub open spec fn lower_char(c: char) -> char {
    if 'A' <= c <= 'Z' {
        ((c as u32) + 32) as char
    } else {
        c
    }
}

/// A header name as `http` keeps it: in lower case.
pub open spec fn lower_name(text: Seq<char>) -> Seq<char> {
    text.map_values(|c: char| lower_char(c))
}

/// The most header names a map of this library takes: below it, `http`
/// grows the map without reaching its size limit.
pub open spec fn header_names_limit() -> nat {
    6553
}

/// `url::Url::parse`, then `Url::as_str` of the result: the serialization
/// of the parsed URL, or `None` when the text is not a valid URL.
#[verifier::external_body]
fn parse_url(text: &str) -> (serialization: Option<String>)
    ensures
        text_of(serialization) == url_serialization(text@),
{
    match Url::parse(text) {
        Ok(url) => Some(url.as_str().to_string()),
        Err(_) => None,
    }
}

/// `url::Url::parse` of `url`, then `form_urlencoded::Serializer::append_pair`
/// on its `query_pairs_mut`, then `Url::as_str`: the serialization with
/// `key=value` (percent-encoded) added to the query, or `None` when `url`
/// does not parse. The length limit on the parsed URL's serialization keeps
/// the 32-bit offsets that `url` sets while appending (with an `unwrap`) in
/// range.
#[verifier::external_body]
fn append_query_pair(url: &str, key: &str, value: &str) -> (appended: Option<String>)
    requires
        url_serialization(url@) matches Some(s) ==> url_length_fits(s, key@, value@),
    ensures
        text_of(appended) == url_with_query_pair(url@, key@, value@),
{
    match Url::parse(url) {
        Ok(mut parsed) => {
            parsed.query_pairs_mut().append_pair(key, value);
            Some(parsed.as_str().to_string())
        },
        Err(_) => None,
    }
}

/// `url::Url::parse`, then `Url::host` and the host's `to_string`: the
/// host of the URL written in `text`, or `None` when the text is not a valid
/// URL or the URL has no host.
#[verifier::external_body]
fn host_of(text: &str) -> (host: Option<String>)
    ensures
        text_of(host) == url_host(text@),
{
    match Url::parse(text) {
        Ok(url) => match url.host() {
            Some(h) => Some(h.to_string()),
            None => None,
        },
        Err(_) => None,
    }
}

/// Whether every character of `text` is one that a header value accepts.
fn header_value_text(text: &str) -> (ok: bool)
    ensures
        ok == is_header_value(text@),
{
    let n = text.unicode_len();
    let mut i: usize = 0;
    while i < n
        invariant
            n == text@.len(),
            i <= n,
            forall|j: int| 0 <= j < i ==> is_header_value_char(#[trigger] text@[j]),
        decreases n - i,
    {
        let c = text.get_char(i);
        let code: u32 = c as u32;
        if !((code >= 32 && code != 127) || c == '\t') {
            assert(!is_header_value_char(text@[i as int]));
            return false;
        }
        i = i + 1;
    }
    true
}

/// Whether the serialization `url` leaves room for `key=value` in its
/// query, computed on byte lengths.
fn query_pair_fits(url: &str, key: &str, value: &str) -> (ok: bool)
    ensures
        ok == url_length_fits(url@, key@, value@),
{
    let url_bytes: usize = url.as_bytes().len();
    let key_bytes: usize = key.as_bytes().len();
    let value_bytes: usize = value.as_bytes().len();
    let total: u128 = url_bytes as u128 + 2 + 3 * (key_bytes as u128 + value_bytes as u128);
    total <= 4294967295u128
}

/// `base64::engine::general_purpose::STANDARD.encode`: the padded standard
/// base64 encoding (RFC 4648, section 4). The
/// length limit keeps the size computation, which panics on overflow, in
/// range.
#[verifier::external_body]
fn base64_encode(bytes: &[u8]) -> (encoded: String)
    requires
        bytes@.len() <= usize::MAX / 2,
    ensures
        encoded@ == base64_standard(bytes@),
{
    base64::engine::general_purpose::STANDARD.encode(bytes)
}

/// `http::HeaderMap::new`: an empty map.
#[verifier::external_body]
fn new_header_map() -> (fresh: HeaderMap)
    ensures
        header_entries(fresh) =~= Map::empty(),
{
    HeaderMap::new()
}

/// `http::HeaderMap::keys_len`: the number of distinct header names.
#[verifier::external_body]
fn header_names_count(map: &HeaderMap) -> (n: usize)
    ensures
        n == header_entries(*map).dom().len(),
{
    map.keys_len()
}

/// `http::HeaderMap::insert`, with the name and value converted by
/// `HeaderName::from_bytes` and `HeaderValue::from_str`: the name, in lower
/// case, now has the one value given, and any earlier values are gone. The
/// name and value are ones `http` accepts, and the map is below the size at
/// which `http` fails to grow it.
#[verifier::external_body]
fn insert_header(map: &mut HeaderMap, name: &str, value: &str)
    requires
        is_header_name(name@),
        is_header_value(value@),
        header_entries(*old(map)).dom().finite(),
        header_entries(*old(map)).dom().len() < header_names_limit(),
    ensures
        header_entries(*final(map)) == header_entries(*old(map)).insert(
            lower_name(name@),
            seq![vstd::utf8::encode_utf8(value@)],
        ),
{
    let name = HeaderName::from_bytes(name.as_bytes()).expect("valid header name");
    let value = HeaderValue::from_str(value).expect("valid header value");
    map.insert(name, value);
}

/// `http::HeaderMap::clone`: a map with the same entries.
#[verifier::external_body]
fn clone_header_map(map: &HeaderMap) -> (copy: HeaderMap)
    ensures
        header_entries(copy) == header_entries(*map),
{
    map.clone()
}

/// `http::HeaderMap::contains_key` with a name that `http` accepts: whether
/// the name, in lower case, has a value in the map.
#[verifier::external_body]
fn has_header(map: &HeaderMap, name: &str) -> (present: bool)
    requires
        is_header_name(name@),
    ensures
        present == header_entries(*map).dom().contains(lower_name(name@)),
{
    map.contains_key(name)
}

/// The default wait between reconnection attempts, in seconds.
pub const DEFAULT_RECONNECT_INTERVAL_SECS: u64 = 5;

/// `Duration::from_secs`. `Duration` is opaque to the library, so the value
/// is not stated here.
#[verifier::external_body]
fn duration_from_secs(secs: u64) -> (interval: Duration) {
    Duration::from_secs(secs)
}

/// The headers of a WebSocket handshake request for `host` with the key
/// `key`, before the configured headers are added.
pub open spec fn handshake_defaults(host: Seq<char>, key: Seq<char>) -> Map<Seq<char>, Seq<Seq<u8>>> {
    map![
        "host"@ => seq![vstd::utf8::encode_utf8(host)],
        "connection"@ => seq![vstd::utf8::encode_utf8("Upgrade"@)],
        "upgrade"@ => seq![vstd::utf8::encode_utf8("websocket"@)],
        "sec-websocket-version"@ => seq![vstd::utf8::encode_utf8("13"@)],
        "sec-websocket-key"@ => seq![vstd::utf8::encode_utf8(key)],
    ]
}

/// Adds `name: value` to the map unless the name already has a value.
fn insert_if_absent(map: &mut HeaderMap, name: &str, value: &str)
    requires
        is_header_name(name@),
        is_header_value(value@),
        header_entries(*old(map)).dom().finite(),
        header_entries(*old(map)).dom().len() < header_names_limit(),
    ensures
        header_entries(*final(map)) == if header_entries(*old(map)).dom().contains(lower_name(name@)) {
            header_entries(*old(map))
        } else {
            header_entries(*old(map)).insert(lower_name(name@), seq![vstd::utf8::encode_utf8(value@)])
        },
{
    if !has_header(map, name) {
        insert_header(map, name, value);
    }
}

proof fn lemma_lower_name_of_lower(text: Seq<char>)
    requires
        forall|i: int| 0 <= i < text.len() ==> !('A' <= #[trigger] text[i] <= 'Z'),
    ensures
        lower_name(text) == text,
{
    assert(lower_name(text) =~= text);
}

/// The `Authorization` value for basic credentials: `Basic ` and the base64
/// encoding of `username:password`.
pub open spec fn basic_value(username: Seq<char>, password: Seq<char>) -> Seq<char> {
    "Basic "@ + base64_standard(vstd::utf8::encode_utf8(username + ":"@ + password))
}

/// The `Authorization` value for a bearer token: `Bearer ` and the token.
pub open spec fn bearer_value(token: Seq<char>) -> Seq<char> {
    "Bearer "@ + token
}

proof fn lemma_utf8_concat(a: Seq<char>, b: Seq<char>)
    ensures
        vstd::utf8::encode_utf8(a + b) == vstd::utf8::encode_utf8(a) + vstd::utf8::encode_utf8(b),
    decreases a.len(),
{
    if a.len() > 0 {
        lemma_utf8_concat(a.drop_first(), b);
        assert((a + b).drop_first() =~= a.drop_first() + b);
        assert((a + b)[0] == a[0]);
        assert(vstd::utf8::encode_utf8(a + b) =~= vstd::utf8::encode_scalar(a[0] as u32)
            + vstd::utf8::encode_utf8(a.drop_first() + b));
    } else {
        assert(a + b =~= b);
    }
}

/// Client configuration: where to connect, which headers to send, and how
/// persistently to connect. `S` is the socket configuration.
#[derive(Debug)]
pub struct ClientConfig<S> {
    url: String,
    max_initial_connect_attempts: usize,
    max_reconnect_attempts: usize,
    reconnect_interval: Duration,
    headers: HeaderMap,
    socket_config: Option<S>,
}

impl<S> ClientConfig<S> {
    /// The URL to connect to, as its serialization.
    pub closed spec fn url_text_spec(&self) -> Seq<char> {
        self.url@
    }

    /// The headers sent with the connection request.
    pub closed spec fn headers_spec(&self) -> Map<Seq<char>, Seq<Seq<u8>>> {
        header_entries(self.headers)
    }

    /// The most connection attempts when starting.
    pub closed spec fn max_initial_spec(&self) -> usize {
        self.max_initial_connect_attempts
    }

    /// The most attempts for each reconnection.
    pub closed spec fn max_reconnect_spec(&self) -> usize {
        self.max_reconnect_attempts
    }

    /// The wait between attempts.
    pub closed spec fn interval_spec(&self) -> Duration {
        self.reconnect_interval
    }

    /// The socket configuration, if one was set.
    pub closed spec fn socket_config_spec(&self) -> Option<S> {
        self.socket_config
    }

    /// The configuration's header map is below the size limit of the
    /// library.
    pub open spec fn headers_fit(&self) -> bool {
        self.headers_spec().dom().finite() && self.headers_spec().dom().len()
            < header_names_limit()
    }

    /// A configuration for the URL written in `url`, which is a valid URL:
    /// no headers, no socket configuration, unlimited attempts and the
    /// default reconnect interval. The URL is kept as `url` serializes it.
    pub fn new(url: &str) -> (config: ClientConfig<S>)
        requires
            url_serialization(url@) is Some,
        ensures
            url_serialization(url@) == Some(config.url_text_spec()),
            config.headers_spec() == Map::<Seq<char>, Seq<Seq<u8>>>::empty(),
            config.max_initial_spec() == usize::MAX,
            config.max_reconnect_spec() == usize::MAX,
            config.socket_config_spec() is None,
    {
        match Self::parse(url) {
            Some(config) => config,
            None => vstd::pervasive::unreached(),
        }
    }

    /// A configuration for the URL written in `url`, or `None` if it is not
    /// a valid URL.
    pub fn parse(url: &str) -> (config: Option<ClientConfig<S>>)
        ensures
            config is Some <==> url_serialization(url@) is Some,
            config matches Some(c) ==> url_serialization(url@) == Some(c.url_text_spec())
                && c.headers_spec() == Map::<Seq<char>, Seq<Seq<u8>>>::empty()
                && c.max_initial_spec() == usize::MAX && c.max_reconnect_spec() == usize::MAX
                && c.socket_config_spec() is None,
    {
        match parse_url(url) {
            Some(text) => Some(ClientConfig {
                url: text,
                max_initial_connect_attempts: usize::MAX,
                max_reconnect_attempts: usize::MAX,
                reconnect_interval: duration_from_secs(DEFAULT_RECONNECT_INTERVAL_SECS),
                headers: new_header_map(),
                socket_config: None,
            }),
            None => None,
        }
    }

    /// Adds a 'basic' authorization header.
    pub fn basic(self, username: &str, password: &str) -> (config: ClientConfig<S>)
        requires
            self.headers_fit(),
            vstd::utf8::encode_utf8(username@).len() + vstd::utf8::encode_utf8(password@).len()
                < isize::MAX,
        ensures
            config.headers_spec() == self.headers_spec().insert(
                "authorization"@,
                seq![vstd::utf8::encode_utf8(basic_value(username@, password@))],
            ),
            config.url_text_spec() == self.url_text_spec(),
            config.max_initial_spec() == self.max_initial_spec(),
            config.max_reconnect_spec() == self.max_reconnect_spec(),
            config.interval_spec() == self.interval_spec(),
            config.socket_config_spec() == self.socket_config_spec(),
    {
        let mut this = self;
        let credentials = String::from_str(username).concat(":").concat(password);
        proof {
            reveal_strlit(":");
            lemma_utf8_concat(username@, ":"@);
            lemma_utf8_concat(username@ + ":"@, password@);
            assert(":"@ =~= seq![':']);
            assert(seq![':'].drop_first() =~= Seq::<char>::empty());
            assert((':' as u32) == 58u32);
            assert(vstd::utf8::encode_scalar(58u32).len() == 1);
            assert(vstd::utf8::encode_utf8(seq![':']) =~= vstd::utf8::encode_scalar(58u32)
                + vstd::utf8::encode_utf8(Seq::<char>::empty()));
            assert(vstd::utf8::encode_utf8(":"@).len() == 1);
        }
        let encoded = base64_encode(credentials.as_str().as_bytes());
        proof {
            lemma_base64_alphabet(vstd::utf8::encode_utf8(credentials@));
        }
        let value = String::from_str("Basic ").concat(encoded.as_str());
        proof {
            reveal_strlit("Basic ");
            reveal_strlit("authorization");
            assert(is_header_value(value@)) by {
                assert forall|i: int| 0 <= i < value@.len() implies is_header_value_char(
                    #[trigger] value@[i],
                ) by {
                    if i >= 6 {
                        assert(value@[i] == encoded@[i - 6]);
                    }
                }
            }
            assert(lower_name("authorization"@) =~= "authorization"@);
        }
        insert_header(&mut this.headers, "authorization", value.as_str());
        this
    }

    /// Adds a 'bearer' authorization header. The token holds only visible
    /// ASCII characters (32 to 126).
    pub fn bearer(self, token: &str) -> (config: ClientConfig<S>)
        requires
            self.headers_fit(),
            is_visible_ascii(token@),
        ensures
            config.headers_spec() == self.headers_spec().insert(
                "authorization"@,
                seq![vstd::utf8::encode_utf8(bearer_value(token@))],
            ),
            config.url_text_spec() == self.url_text_spec(),
            config.max_initial_spec() == self.max_initial_spec(),
            config.max_reconnect_spec() == self.max_reconnect_spec(),
            config.interval_spec() == self.interval_spec(),
            config.socket_config_spec() == self.socket_config_spec(),
    {
        let mut this = self;
        let value = String::from_str("Bearer ").concat(token);
        proof {
            reveal_strlit("Bearer ");
            reveal_strlit("authorization");
            assert(is_header_value(value@)) by {
                assert forall|i: int| 0 <= i < value@.len() implies is_header_value_char(
                    #[trigger] value@[i],
                ) by {
                    if i >= 7 {
                        assert(value@[i] == token@[i - 7]);
                        assert(is_visible_ascii_char(token@[i - 7]));
                    }
                }
            }
            assert(lower_name("authorization"@) =~= "authorization"@);
        }
        insert_header(&mut this.headers, "authorization", value.as_str());
        this
    }

    /// Adds a custom header; the name is kept in lower case. The name and
    /// value are ones `http` accepts.
    pub fn header(self, name: &str, value: &str) -> (config: ClientConfig<S>)
        requires
            self.headers_fit(),
            is_header_name(name@),
            is_header_value(value@),
        ensures
            config.headers_spec() == self.headers_spec().insert(
                lower_name(name@),
                seq![vstd::utf8::encode_utf8(value@)],
            ),
            config.url_text_spec() == self.url_text_spec(),
            config.max_initial_spec() == self.max_initial_spec(),
            config.max_reconnect_spec() == self.max_reconnect_spec(),
            config.interval_spec() == self.interval_spec(),
            config.socket_config_spec() == self.socket_config_spec(),
    {
        let mut this = self;
        insert_header(&mut this.headers, name, value);
        this
    }

    /// Inserts a query parameter into the connection request URI: the URL
    /// becomes what `url` makes of it with `key=value` appended to its
    /// query. A stored text that `url` would not parse again is left as it
    /// is (texts stored here are `url`'s own serializations). The URL with
    /// the parameter stays within the 32-bit offsets of `url`.
    pub fn query_parameter(self, key: &str, value: &str) -> (config: ClientConfig<S>)
        requires
            url_serialization(self.url_text_spec()) matches Some(s) ==> url_length_fits(
                s,
                key@,
                value@,
            ),
        ensures
            config.url_text_spec() == (match url_with_query_pair(self.url_text_spec(), key@, value@) {
                Some(t) => t,
                None => self.url_text_spec(),
            }),
            config.headers_spec() == self.headers_spec(),
            config.max_initial_spec() == self.max_initial_spec(),
            config.max_reconnect_spec() == self.max_reconnect_spec(),
            config.interval_spec() == self.interval_spec(),
            config.socket_config_spec() == self.socket_config_spec(),
    {
        let mut this = self;
        match append_query_pair(this.url.as_str(), key, value) {
            Some(t) => {
                this.url = t;
            },
            None => {},
        }
        this
    }

    /// Inserts a query parameter as `query_parameter` does when the URL with
    /// the parameter stays within the 32-bit offsets of `url`; otherwise
    /// gives the configuration back unchanged, as `Err`.
    pub fn try_query_parameter(self, key: &str, value: &str) -> (result: Result<
        ClientConfig<S>,
        ClientConfig<S>,
    >)
        ensures
            result is Ok <==> (url_serialization(self.url_text_spec()) matches Some(s)
                ==> url_length_fits(s, key@, value@)),
            result matches Ok(config) ==> {
                &&& config.url_text_spec() == (match url_with_query_pair(
                    self.url_text_spec(),
                    key@,
                    value@,
                ) {
                    Some(t) => t,
                    None => self.url_text_spec(),
                })
                &&& config.headers_spec() == self.headers_spec()
                &&& config.max_initial_spec() == self.max_initial_spec()
                &&& config.max_reconnect_spec() == self.max_reconnect_spec()
                &&& config.interval_spec() == self.interval_spec()
                &&& config.socket_config_spec() == self.socket_config_spec()
            },
            result matches Err(config) ==> config == self,
    {
        let fits = match parse_url(self.url.as_str()) {
            Some(serialized) => query_pair_fits(serialized.as_str(), key, value),
            None => true,
        };
        if fits {
            Ok(self.query_parameter(key, value))
        } else {
            Err(self)
        }
    }

    /// Sets the maximum number of connection attempts when starting a client.
    pub fn max_initial_connect_attempts(self, max_initial_connect_attempts: usize) -> (config:
        ClientConfig<S>)
        ensures
            config.max_initial_spec() == max_initial_connect_attempts,
            config.url_text_spec() == self.url_text_spec(),
            config.headers_spec() == self.headers_spec(),
            config.max_reconnect_spec() == self.max_reconnect_spec(),
            config.interval_spec() == self.interval_spec(),
            config.socket_config_spec() == self.socket_config_spec(),
    {
        let mut this = self;
        this.max_initial_connect_attempts = max_initial_connect_attempts;
        this
    }

    /// Sets the maximum number of attempts when reconnecting.
    pub fn max_reconnect_attempts(self, max_reconnect_attempts: usize) -> (config: ClientConfig<S>)
        ensures
            config.max_reconnect_spec() == max_reconnect_attempts,
            config.url_text_spec() == self.url_text_spec(),
            config.headers_spec() == self.headers_spec(),
            config.max_initial_spec() == self.max_initial_spec(),
            config.interval_spec() == self.interval_spec(),
            config.socket_config_spec() == self.socket_config_spec(),
    {
        let mut this = self;
        this.max_reconnect_attempts = max_reconnect_attempts;
        this
    }

    /// Sets the wait between connection attempts.
    pub fn reconnect_interval(self, reconnect_interval: Duration) -> (config: ClientConfig<S>)
        ensures
            config.interval_spec() == reconnect_interval,
            config.url_text_spec() == self.url_text_spec(),
            config.headers_spec() == self.headers_spec(),
            config.max_initial_spec() == self.max_initial_spec(),
            config.max_reconnect_spec() == self.max_reconnect_spec(),
            config.socket_config_spec() == self.socket_config_spec(),
    {
        let mut this = self;
        this.reconnect_interval = reconnect_interval;
        this
    }

    /// Sets the socket's configuration.
    pub fn socket_config(self, socket_config: S) -> (config: ClientConfig<S>)
        ensures
            config.socket_config_spec() == Some(socket_config),
            config.url_text_spec() == self.url_text_spec(),
            config.headers_spec() == self.headers_spec(),
            config.max_initial_spec() == self.max_initial_spec(),
            config.max_reconnect_spec() == self.max_reconnect_spec(),
            config.interval_spec() == self.interval_spec(),
    {
        let mut this = self;
        this.socket_config = Some(socket_config);
        this
    }

    /// The headers of the WebSocket handshake request for `host` with the
    /// key `key`: `Host`, `Connection: Upgrade`, `Upgrade: websocket`,
    /// `Sec-WebSocket-Version: 13` and `Sec-WebSocket-Key`, where a
    /// configured header of the same name replaces the default one, and the
    /// other configured headers. The map has room for the five defaults.
    pub fn handshake_headers(&self, host: &str, key: &str) -> (headers: HeaderMap)
        requires
            is_header_value(host@),
            is_header_value(key@),
            self.headers_spec().dom().finite(),
            self.headers_spec().dom().len() + 5 < header_names_limit(),
        ensures
            header_entries(headers) == handshake_defaults(host@, key@).union_prefer_right(
                self.headers_spec(),
            ),
    {
        proof {
            reveal_strlit("host");
            reveal_strlit("connection");
            reveal_strlit("upgrade");
            reveal_strlit("sec-websocket-version");
            reveal_strlit("sec-websocket-key");
            reveal_strlit("Upgrade");
            reveal_strlit("websocket");
            reveal_strlit("13");
            lemma_lower_name_of_lower("host"@);
            lemma_lower_name_of_lower("connection"@);
            lemma_lower_name_of_lower("upgrade"@);
            lemma_lower_name_of_lower("sec-websocket-version"@);
            lemma_lower_name_of_lower("sec-websocket-key"@);
        }
        let ghost configured = self.headers_spec();
        let mut headers = clone_header_map(&self.headers);
        insert_if_absent(&mut headers, "host", host);
        insert_if_absent(&mut headers, "connection", "Upgrade");
        insert_if_absent(&mut headers, "upgrade", "websocket");
        insert_if_absent(&mut headers, "sec-websocket-version", "13");
        insert_if_absent(&mut headers, "sec-websocket-key", key);
        proof {
            assert(header_entries(headers) =~= handshake_defaults(host@, key@).union_prefer_right(
                configured,
            ));
        }
        headers
    }

    /// The headers of the WebSocket handshake request for the configured
    /// URL with the key `key`: those of `handshake_headers` for the URL's
    /// host. `None` when the URL has no host, or one that a header value does
    /// not accept.
    pub fn connect_headers(&self, key: &str) -> (headers: Option<HeaderMap>)
        requires
            is_header_value(key@),
            self.headers_spec().dom().finite(),
            self.headers_spec().dom().len() + 5 < header_names_limit(),
        ensures
            headers is Some <==> (url_host(self.url_text_spec()) matches Some(h)
                && is_header_value(h)),
            headers matches Some(m) ==> header_entries(m) == handshake_defaults(
                url_host(self.url_text_spec())->0,
                key@,
            ).union_prefer_right(self.headers_spec()),
    {
        match host_of(self.url.as_str()) {
            Some(host) => {
                if header_value_text(host.as_str()) {
                    Some(self.handshake_headers(host.as_str(), key))
                } else {
                    None
                }
            },
            None => None,
        }
    }

    /// The config's headers.
    pub fn headers(&self) -> (headers: &HeaderMap)
        ensures
            header_entries(*headers) == self.headers_spec(),
    {
        &self.headers
    }

    /// The number of distinct header names set.
    pub fn header_count(&self) -> (n: usize)
        ensures
            n == self.headers_spec().dom().len(),
    {
        header_names_count(&self.headers)
    }

    /// The URL to connect to, as text (for connectors that build the
    /// request themselves, as browsers do).
    pub fn connect_url(&self) -> (text: &str)
        ensures
            text@ == self.url_text_spec(),
    {
        self.url.as_str()
    }

    /// The most connection attempts when starting.
    pub fn initial_connect_attempts(&self) -> (n: usize)
        ensures
            n == self.max_initial_spec(),
    {
        self.max_initial_connect_attempts
    }

    /// The most attempts for each reconnection.
    pub fn reconnect_attempts(&self) -> (n: usize)
        ensures
            n == self.max_reconnect_spec(),
    {
        self.max_reconnect_attempts
    }

    /// The wait between attempts.
    pub fn interval(&self) -> (d: &Duration)
        ensures
            *d == self.interval_spec(),
    {
        &self.reconnect_interval
    }

    /// The socket configuration, if one was set.
    pub fn socket_config_ref(&self) -> (s: &Option<S>)
        ensures
            *s == self.socket_config_spec(),
    {
        &self.socket_config
    }
}

} // verus!
