//! URLs, query strings and header values, as the `url` and `reqwest`
//! crates compute them.
use vstd::prelude::*;

verus! {

/// A list of name/value pairs, taken by the views of its strings.
pub open spec fn pairs_view(pairs: Seq<(String, String)>) -> Seq<(Seq<char>, Seq<char>)> {
    pairs.map_values(|p: (String, String)| (p.0@, p.1@))
}

/// The view of an optional string.
pub open spec fn opt_view(s: Option<String>) -> Option<Seq<char>> {
    match s {
        Some(x) => Some(x@),
        None => None,
    }
}

/// A URL by its serialization, its path, its query decoded into name/value
/// pairs, its query text (after the `?`) and its fragment (after the `#`).
pub type UrlView = (
    Seq<char>,
    Seq<char>,
    Seq<(Seq<char>, Seq<char>)>,
    Option<Seq<char>>,
    Option<Seq<char>>,
);

/// A URL that `url::Url::parse` accepted, held as plain values: its
/// serialization, its path, its query decoded into name/value pairs, its
/// query text and its fragment.
#[derive(Debug)]
pub struct ParsedUrl {
    pub serialization: String,
    pub path: String,
    pub query: Vec<(String, String)>,
    pub query_text: Option<String>,
    pub fragment: Option<String>,
}

impl View for ParsedUrl {
    type V = UrlView;

    open spec fn view(&self) -> Self::V {
        (self.serialization@, self.path@, pairs_view(self.query@), opt_view(self.query_text), opt_view(self.fragment))
    }
}

/// What `url::Url::parse` makes of a text: `None` where it refuses it, else
/// the serialization, the path, the decoded query pairs, the query text and
/// the fragment of the URL.
pub uninterp spec fn url_parsed(input: Seq<char>) -> Option<(Seq<char>, Seq<char>, Seq<(Seq<char>, Seq<char>)>, Option<Seq<char>>, Option<Seq<char>>)>;

/// Whether the serialization of `u` ends with `#` and its fragment, where it
/// has one.
pub open spec fn fragment_at_end(u: UrlView) -> bool {
    u.4 matches Some(f) ==> u.0.len() > f.len() && u.0 == u.0.take(u.0.len() - f.len() - 1) + seq!['#'] + f
}

/// The serialization of `u` without its fragment and the `#` before it.
pub open spec fn before_fragment(u: UrlView) -> Seq<char> {
    match u.4 {
        Some(f) => u.0.take(u.0.len() - f.len() - 1),
        None => u.0,
    }
}

/// The number of UTF-8 bytes of a text.
pub open spec fn byte_len(s: Seq<char>) -> int {
    vstd::utf8::encode_utf8(s).len() as int
}

/// What appending `pairs` to a query whose text is `query` adds to it: a `&`
/// where both the old query and `pairs` are non-empty, then the pairs
/// form-encoded.
pub open spec fn appended_query(query: Option<Seq<char>>, pairs: Seq<(Seq<char>, Seq<char>)>) -> Seq<char> {
    let sep = if pairs.len() > 0 && (query matches Some(q) && q.len() > 0) {
        seq!['&']
    } else {
        seq![]
    };
    sep + form_urlencoded(pairs)
}

/// The URL `u` with `pairs` appended to its query, as
/// `query_pairs_mut().extend_pairs(pairs)` leaves it: the fragment is taken
/// off, a `?` is added where there is no query yet, the encoded pairs follow
/// the old query, and the fragment is put back. The path stays and the
/// decoded query is the old one followed by `pairs`.
pub open spec fn with_pairs(u: UrlView, pairs: Seq<(Seq<char>, Seq<char>)>) -> UrlView {
    let old_query = match u.3 {
        Some(q) => q,
        None => seq![],
    };
    let question = if u.3 is None {
        seq!['?']
    } else {
        seq![]
    };
    let tail = match u.4 {
        Some(f) => seq!['#'] + f,
        None => seq![],
    };
    (
        before_fragment(u) + question + appended_query(u.3, pairs) + tail,
        u.1,
        u.2 + pairs,
        Some(old_query + appended_query(u.3, pairs)),
        u.4,
    )
}

/// Whether appending `pairs` to `u` keeps within the `u32` by which `url`
/// indexes a URL the two positions it then computes: the start of a new
/// query (the bytes before the fragment), and, where there is a fragment, its
/// new start (those bytes, a new `?`, and the appended text).
pub open spec fn fits_view(u: UrlView, pairs: Seq<(Seq<char>, Seq<char>)>) -> bool {
    let base = byte_len(before_fragment(u));
    &&& u.3 is None ==> base <= 0xffff_ffff
    &&& u.4 is Some ==> base + (if u.3 is None { 1int } else { 0int }) + appended_query(u.3, pairs).len()
        <= 0xffff_ffff
}

/// Whether `input` parses and appending `pairs` to it fits (`fits_view`).
pub open spec fn fits_with_pairs(input: Seq<char>, pairs: Seq<(Seq<char>, Seq<char>)>) -> bool {
    url_parsed(input) is Some && fits_view(url_parsed(input).unwrap(), pairs)
}

/// A count, with everything past `u32::MAX` counted as `u32::MAX + 1`.
pub open spec fn capped(n: int) -> int {
    if n > 0xffff_ffff {
        0x1_0000_0000
    } else {
        n
    }
}

/// The UTF-8 bytes of two texts one after the other are the bytes of each.
pub proof fn lemma_encode_utf8_concat(a: Seq<char>, b: Seq<char>)
    ensures
        vstd::utf8::encode_utf8(a + b) == vstd::utf8::encode_utf8(a) + vstd::utf8::encode_utf8(b),
    decreases a.len(),
{
    if a.len() == 0 {
        assert(a + b =~= b);
    } else {
        assert((a + b).drop_first() =~= a.drop_first() + b);
        assert((a + b)[0] == a[0]);
        lemma_encode_utf8_concat(a.drop_first(), b);
        assert(vstd::utf8::encode_utf8(a + b) =~= vstd::utf8::encode_utf8(a) + vstd::utf8::encode_utf8(b));
    }
}

/// A text has UTF-8 bytes exactly where it has chars.
proof fn lemma_encode_utf8_empty(s: Seq<char>)
    ensures
        (vstd::utf8::encode_utf8(s).len() == 0) == (s.len() == 0),
{
    if s.len() > 0 {
        assert(vstd::utf8::encode_scalar(s[0] as u32).len() > 0);
    }
}

/// Encoding two runs of bytes one after the other is encoding each.
proof fn lemma_encoded_bytes_concat(a: Seq<u8>, b: Seq<u8>)
    ensures
        encoded_bytes(a + b) == encoded_bytes(a) + encoded_bytes(b),
    decreases a.len(),
{
    if a.len() == 0 {
        assert(a + b =~= b);
    } else {
        assert((a + b).drop_first() =~= a.drop_first() + b);
        assert((a + b)[0] == a[0]);
        lemma_encoded_bytes_concat(a.drop_first(), b);
        assert(encoded_bytes(a + b) =~= encoded_bytes(a) + encoded_bytes(b));
    }
}

/// The length of a text once form-encoded (`form_component`), capped.
fn encoded_len(s: &str) -> (n: u64)
    ensures
        n == capped(form_component(s@).len() as int),
{
    let bytes = s.as_bytes();
    let mut n: u64 = 0;
    let mut j: usize = 0;
    while j < bytes.len()
        invariant
            j <= bytes@.len(),
            bytes@ == vstd::utf8::encode_utf8(s@),
            n == capped(encoded_bytes(bytes@.take(j as int)).len() as int),
        decreases bytes@.len() - j,
    {
        let b = bytes[j];
        proof {
            assert(bytes@.take(j + 1) =~= bytes@.take(j as int) + seq![b]);
            lemma_encoded_bytes_concat(bytes@.take(j as int), seq![b]);
            assert(seq![b].drop_first() =~= Seq::<u8>::empty());
            assert(seq![b][0] == b);
            assert(encoded_bytes(Seq::<u8>::empty()) =~= Seq::<char>::empty());
            assert(encoded_bytes(seq![b]) =~= encoded_byte(b));
        }
        if n <= 0xffff_ffff {
            let unreserved = b == 42 || b == 45 || b == 46 || b == 95 || (48 <= b && b <= 57) || (65 <= b && b
                <= 90) || (97 <= b && b <= 122);
            if unreserved || b == 32 {
                n = n + 1;
            } else {
                n = n + 3;
            }
            if n > 0xffff_ffff {
                n = 0x1_0000_0000;
            }
        }
        j = j + 1;
    }
    proof {
        assert(bytes@.take(j as int) =~= bytes@);
    }
    n
}

/// Joining one more pair adds a `&` where there were pairs already, then the
/// pair's name, a `=` and its value.
proof fn lemma_joined_pairs_push(x: Seq<(Seq<char>, Seq<char>)>, e: (Seq<char>, Seq<char>))
    ensures
        joined_pairs(x.push(e)).len() == joined_pairs(x).len() + (if x.len() > 0 { 1int } else { 0int })
            + e.0.len() + 1 + e.1.len(),
{
    assert(x.push(e).drop_last() =~= x);
    assert(x.push(e).last() == e);
    if x.len() == 0 {
        assert(x.push(e)[0] == e);
    }
}

/// The length of the text that appending `pairs` to a query whose text is
/// `query` adds (`appended_query`), capped.
pub fn appended_len(query: &Option<String>, pairs: &Vec<(String, String)>) -> (n: u64)
    ensures
        n == capped(appended_query(opt_view(*query), pairs_view(pairs@)).len() as int),
{
    let ghost all = pairs_view(pairs@);
    let ghost mapped = encoded_pairs(all);
    let mut n: u64 = 0;
    let mut i: usize = 0;
    while i < pairs.len()
        invariant
            i <= pairs@.len(),
            all == pairs_view(pairs@),
            mapped == encoded_pairs(all),
            n == capped(joined_pairs(mapped.take(i as int)).len() as int),
        decreases pairs@.len() - i,
    {
        proof {
            assert(mapped.take(i + 1) =~= mapped.take(i as int).push(mapped[i as int]));
            lemma_joined_pairs_push(mapped.take(i as int), mapped[i as int]);
        }
        let k = encoded_len(pairs[i].0.as_str());
        let v = encoded_len(pairs[i].1.as_str());
        if n <= 0xffff_ffff {
            n = n + (if i > 0 { 1 } else { 0 }) + k + 1 + v;
            if n > 0xffff_ffff {
                n = 0x1_0000_0000;
            }
        }
        i = i + 1;
    }
    proof {
        assert(mapped.take(i as int) =~= mapped);
    }
    let nonempty = match query {
        Some(q) => {
            proof {
                lemma_encode_utf8_empty(q@);
            }
            q.as_str().as_bytes().len() > 0
        },
        None => false,
    };
    if pairs.len() > 0 && nonempty && n <= 0xffff_ffff {
        n = n + 1;
        if n > 0xffff_ffff {
            n = 0x1_0000_0000;
        }
    }
    n
}

/// Calls `url::Url::parse` and reads the serialization, path, query pairs,
/// query text and fragment out of the result. The contract names that result
/// (`url_parsed`) and states that the fragment ends the serialization, after
/// a `#`; which `ParseError` comes back on a refusal is not stated.
#[verifier::external_body]
pub(crate) fn parse_url(input: &str) -> (r: Result<ParsedUrl, url::ParseError>)
    ensures
        r is Ok <==> url_parsed(input@) is Some,
        r matches Ok(p) ==> url_parsed(input@) == Some(p@),
        r matches Ok(p) ==> fragment_at_end(p@),
{
    let u = url::Url::parse(input)?;
    let query = u.query_pairs().into_owned().collect();
    let (query_text, fragment) = (u.query().map(String::from), u.fragment().map(String::from));
    Ok(ParsedUrl { path: u.path().to_string(), query, query_text, fragment, serialization: u.into() })
}

/// Calls `url::Url::parse` and then `query_pairs_mut().extend_pairs(pairs)`
/// on the result, as `url` appends form-encoded pairs to a query. The
/// contract states what the source of `url` and `form_urlencoded` shows of
/// the result (`with_pairs`). `requires` keeps out the URLs on which `url`
/// panics because a position it sets passes `u32::MAX` (`fits_with_pairs`).
#[verifier::external_body]
pub(crate) fn parse_url_with_pairs(input: &str, pairs: &Vec<(String, String)>) -> (r: Result<ParsedUrl, url::ParseError>)
    requires
        url_parsed(input@) is Some ==> fits_with_pairs(input@, pairs_view(pairs@)),
    ensures
        r is Ok <==> url_parsed(input@) is Some,
        r matches Ok(p) ==> p@ == with_pairs(url_parsed(input@).unwrap(), pairs_view(pairs@)),
{
    let mut u = url::Url::parse(input)?;
    u.query_pairs_mut().extend_pairs(pairs.iter());
    let query = u.query_pairs().into_owned().collect();
    let (query_text, fragment) = (u.query().map(String::from), u.fragment().map(String::from));
    Ok(ParsedUrl { path: u.path().to_string(), query, query_text, fragment, serialization: u.into() })
}

/// The chars that the form serializer leaves as they are.
pub open spec fn form_unreserved(c: char) -> bool {
    c == '*' || c == '-' || c == '.' || c == '_' || ('0' <= c && c <= '9') || ('A' <= c && c <= 'Z')
        || ('a' <= c && c <= 'z')
}

/// Whether every name and value of `pairs` is made of unreserved chars only.
pub open spec fn all_unreserved(pairs: Seq<(Seq<char>, Seq<char>)>) -> bool {
    &&& forall|i: int, j: int|
        0 <= i < pairs.len() && 0 <= j < pairs[i].0.len() ==> form_unreserved(#[trigger] pairs[i].0[j])
    &&& forall|i: int, j: int|
        0 <= i < pairs.len() && 0 <= j < pairs[i].1.len() ==> form_unreserved(#[trigger] pairs[i].1[j])
}

/// `name=value` for each pair, joined by `&`.
pub open spec fn joined_pairs(pairs: Seq<(Seq<char>, Seq<char>)>) -> Seq<char>
    decreases pairs.len(),
{
    if pairs.len() == 0 {
        seq![]
    } else if pairs.len() == 1 {
        pairs[0].0 + seq!['='] + pairs[0].1
    } else {
        joined_pairs(pairs.drop_last()) + seq!['&'] + pairs.last().0 + seq!['='] + pairs.last().1
    }
}

/// The bytes that the form serializer leaves as they are: `*`, `-`, `.`,
/// `_`, ASCII digits and ASCII letters.
pub open spec fn unreserved_byte(b: u8) -> bool {
    b == 42 || b == 45 || b == 46 || b == 95 || (48 <= b && b <= 57) || (65 <= b && b <= 90) || (97 <= b
        && b <= 122)
}

/// An upper-case hexadecimal digit.
pub open spec fn hex_upper(d: int) -> char {
    if d < 10 {
        ((48 + d) as u32) as char
    } else {
        ((55 + d) as u32) as char
    }
}

/// What the form serializer writes for one byte: the byte itself where it is
/// unreserved, `+` for a space, and `%XX` in upper-case hexadecimal otherwise.
pub open spec fn encoded_byte(b: u8) -> Seq<char> {
    if unreserved_byte(b) {
        seq![(b as u32) as char]
    } else if b == 32 {
        seq!['+']
    } else {
        seq!['%', hex_upper(b as int / 16), hex_upper(b as int % 16)]
    }
}

/// What the form serializer writes for a run of bytes.
pub open spec fn encoded_bytes(bytes: Seq<u8>) -> Seq<char>
    decreases bytes.len(),
{
    if bytes.len() == 0 {
        seq![]
    } else {
        encoded_byte(bytes[0]) + encoded_bytes(bytes.drop_first())
    }
}

/// What the form serializer writes for a name or a value: its UTF-8 bytes, each encoded.
pub open spec fn form_component(s: Seq<char>) -> Seq<char> {
    encoded_bytes(vstd::utf8::encode_utf8(s))
}

/// What `form_urlencoded::Serializer` writes for `pairs` into an empty
/// string: `name=value` for each pair, both encoded, joined by `&`.
pub open spec fn form_urlencoded(pairs: Seq<(Seq<char>, Seq<char>)>) -> Seq<char> {
    joined_pairs(encoded_pairs(pairs))
}

/// Each name and value of `pairs` form-encoded.
pub open spec fn encoded_pairs(pairs: Seq<(Seq<char>, Seq<char>)>) -> Seq<(Seq<char>, Seq<char>)> {
    pairs.map_values(|p: (Seq<char>, Seq<char>)| (form_component(p.0), form_component(p.1)))
}

proof fn lemma_encoded_unreserved(bytes: Seq<u8>, s: Seq<char>)
    requires
        bytes.len() == s.len(),
        forall|i: int| 0 <= i < s.len() ==> form_unreserved(#[trigger] s[i]) && bytes[i] == s[i] as u8,
    ensures
        encoded_bytes(bytes) == s,
    decreases s.len(),
{
    if s.len() > 0 {
        assert forall|i: int| 0 <= i < s.drop_first().len() implies form_unreserved(#[trigger] s.drop_first()[i])
            && bytes.drop_first()[i] == s.drop_first()[i] as u8 by {
            assert(s.drop_first()[i] == s[i + 1]);
        }
        lemma_encoded_unreserved(bytes.drop_first(), s.drop_first());
        assert(form_unreserved(s[0]));
        assert(unreserved_byte(bytes[0]));
        assert((bytes[0] as u32) as char == s[0]);
        assert(encoded_bytes(bytes) =~= s);
    }
}

/// A name or value made of unreserved chars is written as it is.
pub proof fn lemma_form_component_unreserved(s: Seq<char>)
    requires
        forall|i: int| 0 <= i < s.len() ==> form_unreserved(#[trigger] s[i]),
    ensures
        form_component(s) == s,
{
    assert(vstd::utf8::is_ascii_chars(s));
    vstd::utf8::is_ascii_chars_encode_utf8(s);
    lemma_encoded_unreserved(vstd::utf8::encode_utf8(s), s);
}

/// Pairs whose names and values are made of unreserved chars are written as
/// `name=value` joined by `&`.
pub proof fn lemma_form_urlencoded_unreserved(pairs: Seq<(Seq<char>, Seq<char>)>)
    requires
        all_unreserved(pairs),
    ensures
        form_urlencoded(pairs) == joined_pairs(pairs),
{
    let mapped = encoded_pairs(pairs);
    assert forall|i: int| 0 <= i < pairs.len() implies #[trigger] mapped[i] == pairs[i] by {
        assert forall|j: int| 0 <= j < pairs[i].0.len() implies form_unreserved(#[trigger] pairs[i].0[j]) by {}
        assert forall|j: int| 0 <= j < pairs[i].1.len() implies form_unreserved(#[trigger] pairs[i].1[j]) by {}
        lemma_form_component_unreserved(pairs[i].0);
        lemma_form_component_unreserved(pairs[i].1);
    }
    assert(mapped =~= pairs);
}

/// Calls `url::form_urlencoded::Serializer::new(String::new()).extend_pairs(pairs).finish()`,
/// which writes `name=value` for each pair, joined by `&`, each name and value
/// encoded byte by byte (`form_component`), as the source of `form_urlencoded`
/// and `percent_encoding` shows.
#[verifier::external_body]
pub(crate) fn form_urlencode(pairs: &Vec<(String, String)>) -> (s: String)
    ensures
        s@ == form_urlencoded(pairs_view(pairs@)),
{
    url::form_urlencoded::Serializer::new(String::new()).extend_pairs(pairs.iter()).finish()
}

/// Whether `reqwest::header::HeaderValue::from_str` accepts a text: every
/// byte is a tab or at least 32 and not 127. In chars: bytes of a multi-byte
/// char are all at least 128, so only the char itself is tested.
pub open spec fn header_text_valid(s: Seq<char>) -> bool {
    forall|i: int| 0 <= i < s.len() ==> (#[trigger] s[i] == '\t' || (32 <= (s[i] as u32) && (s[i] as u32) != 127))
}

/// Calls `reqwest::header::HeaderValue::from_str` and keeps only whether it
/// accepted the text, which the source of `http` decides byte by byte.
#[verifier::external_body]
pub(crate) fn check_header_value(s: &str) -> (r: Result<(), reqwest::header::InvalidHeaderValue>)
    ensures
        r is Ok <==> header_text_valid(s@),
{
    reqwest::header::HeaderValue::from_str(s)?;
    Ok(())
}

} // verus!
