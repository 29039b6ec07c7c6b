use vstd::prelude::*;
use vstd::utf8::encode_utf8;
use crate::text::{
    chars_of, decimal, find, lemma_parse_decimal, occurs_at, contains, owned, parse_u32,
    parse_u32_exec, push_str, str_eq, string_of_range, u32_decimal,
};

verus! {

// ---------------------------------------------------------------------------
// The `application/x-www-form-urlencoded` serializer
// ---------------------------------------------------------------------------

/// The bytes that the form serializer writes unchanged.
pub open spec fn form_unchanged(b: u8) -> bool {
    b == 0x2A || b == 0x2D || b == 0x2E || b == 0x5F || (0x30 <= b && b <= 0x39) || (0x41 <= b
        && b <= 0x5A) || (0x61 <= b && b <= 0x7A)
}

/// An upper-case hexadecimal digit.
pub open spec fn hex_upper(d: u8) -> char {
    if d < 10 {
        ((0x30 + d) as u8) as char
    } else {
        ((0x41 + d - 10) as u8) as char
    }
}

/// How the form serializer writes one byte: unchanged, `+` for a space, or
/// `%XX` with upper-case hex digits.
pub open spec fn form_byte(b: u8) -> Seq<char> {
    if form_unchanged(b) {
        seq![b as char]
    } else if b == 0x20 {
        seq!['+']
    } else {
        seq!['%', hex_upper(b / 16), hex_upper(b % 16)]
    }
}

pub open spec fn form_bytes(bs: Seq<u8>) -> Seq<char>
    decreases bs.len(),
{
    if bs.len() == 0 {
        seq![]
    } else {
        form_bytes(bs.drop_last()) + form_byte(bs.last())
    }
}

/// A name or value as the form serializer writes it: the UTF-8 bytes of the
/// text, each written by `form_byte`.
pub open spec fn form_component(s: Seq<char>) -> Seq<char> {
    form_bytes(encode_utf8(s))
}

/// One `name=value` pair as the form serializer writes it.
pub open spec fn form_pair(p: (Seq<char>, Seq<char>)) -> Seq<char> {
    form_component(p.0) + seq!['='] + form_component(p.1)
}

/// `query` with `pairs` appended by the form serializer: each pair is
/// preceded by `&` unless the text so far is empty.
pub open spec fn append_pairs(query: Seq<char>, pairs: Seq<(Seq<char>, Seq<char>)>) -> Seq<char>
    decreases pairs.len(),
{
    if pairs.len() == 0 {
        query
    } else {
        let sep = if query.len() > 0 { seq!['&'] } else { Seq::<char>::empty() };
        append_pairs(query + sep + form_pair(pairs[0]), pairs.drop_first())
    }
}

/// A list of pairs serialized on its own.
pub open spec fn form_serialize(pairs: Seq<(Seq<char>, Seq<char>)>) -> Seq<char> {
    append_pairs(Seq::<char>::empty(), pairs)
}

/// The text of an optional query or fragment, empty when absent.
pub open spec fn or_empty(q: Option<Seq<char>>) -> Seq<char> {
    match q {
        Some(q) => q,
        None => Seq::<char>::empty(),
    }
}

/// How a fragment ends a URL's serialization.
pub open spec fn fragment_suffix(f: Option<Seq<char>>) -> Seq<char> {
    match f {
        Some(f) => seq!['#'] + f,
        None => Seq::<char>::empty(),
    }
}

pub open spec fn pairs_view(v: Seq<(String, String)>) -> Seq<(Seq<char>, Seq<char>)> {
    v.map_values(|p: (String, String)| (p.0@, p.1@))
}

// ---------------------------------------------------------------------------
// What the `url` crate computes
// ---------------------------------------------------------------------------

/// `url::Url::parse` on `s`: `None` when it fails, else the serialization
/// up to the query, the scheme, the query and the fragment.
pub uninterp spec fn url_parse_view(s: Seq<char>) -> Option<UrlView>;

/// `url::form_urlencoded::parse` on the text `q`: the decoded pairs.
pub uninterp spec fn form_parse_view(q: Seq<char>) -> Seq<(Seq<char>, Seq<char>)>;

/// The query of the URL that `s` parses to, if any.
pub open spec fn url_query(s: Seq<char>) -> Option<Seq<char>> {
    match url_parse_view(s) {
        Some((_, _, q, _)) => q,
        None => None,
    }
}

/// The scheme and query of a parsed URL.
pub struct UrlParts {
    pub scheme: String,
    pub query: Option<String>,
}

/// `url::Url::parse`, then `Url::scheme` and `Url::query` copied into
/// strings.  The contract ties the result to the name `url_parse_view`; it
/// does not state what the parser accepts.
#[verifier::external_body]
fn parse_url(s: &str) -> (r: Option<UrlParts>)
    ensures
        r is None <==> url_parse_view(s@) is None,
        r matches Some(p) ==> url_parse_view(s@) matches Some((_, sch, q, _)) && p.scheme@ == sch
            && (p.query is None <==> q is None) && (p.query matches Some(pq) ==> q == Some(
            pq@)),
{
    url::Url::parse(s).ok().map(
        |u| UrlParts { scheme: u.scheme().to_string(), query: u.query().map(|q| q.to_string()) },
    )
}

/// `url::form_urlencoded::parse(q.as_bytes())`, pairs copied into strings.
/// Stated: the result is the name `form_parse_view`, and empty input gives
/// no pairs.  The percent-decoding itself is left to the name.
#[verifier::external_body]
fn form_parse(q: &str) -> (r: Vec<(String, String)>)
    ensures
        pairs_view(r@) == form_parse_view(q@),
        q@.len() == 0 ==> r@.len() == 0,
{
    url::form_urlencoded::parse(q.as_bytes()).into_owned().collect()
}

/// A parsed URL in the shape `url_parse_view` gives it.
pub type UrlView = (Seq<char>, Seq<char>, Option<Seq<char>>, Option<Seq<char>>);

/// The serialization of the URL `v` with `pairs` appended to its query.
pub open spec fn with_pairs(v: UrlView, pairs: Seq<(Seq<char>, Seq<char>)>) -> Seq<char> {
    v.0 + seq!['?'] + append_pairs(or_empty(v.2), pairs) + fragment_suffix(v.3)
}

/// The URL `v` has neither query nor fragment.
pub open spec fn bare(v: UrlView) -> bool {
    v.2 is None && v.3 is None
}

/// The URL `v` with the query holding only `pairs`.
pub open spec fn reparsed(v: UrlView, pairs: Seq<(Seq<char>, Seq<char>)>) -> Option<UrlView> {
    Some((v.0, v.1, Some(form_serialize(pairs)), None))
}

/// Every character is an ASCII lower-case letter, and there is one at least.
pub open spec fn lower_letters(s: Seq<char>) -> bool {
    s.len() > 0 && forall|k: int| 0 <= k < s.len() ==> 'a' <= #[trigger] s[k] <= 'z'
}

/// The schemes that the URL standard treats as special.
pub open spec fn special_scheme(s: Seq<char>) -> bool {
    s == "http"@ || s == "https"@ || s == "ws"@ || s == "wss"@ || s == "ftp"@ || s == "file"@
}

/// `s` is `<scheme>://<host>`, the scheme the first `scheme_len` characters,
/// both made of lower-case letters only, and the scheme not special.
pub open spec fn letters_url(s: Seq<char>, scheme_len: int) -> bool {
    &&& 0 < scheme_len
    &&& scheme_len + 3 < s.len()
    &&& lower_letters(s.subrange(0, scheme_len))
    &&& !special_scheme(s.subrange(0, scheme_len))
    &&& s.subrange(scheme_len, scheme_len + 3) == "://"@
    &&& lower_letters(s.subrange(scheme_len + 3, s.len() as int))
}

/// `s` is `<scheme>://<host>` as `letters_url` describes.
pub open spec fn letters_base(s: Seq<char>) -> bool {
    exists|n: int| letters_url(s, n)
}

/// `v` is the parse of such a `s`: the scheme is the part before `://`, and
/// there is neither query nor fragment.
pub open spec fn plain_parse(v: Option<UrlView>, s: Seq<char>) -> bool {
    v matches Some((_, sch, q, f)) && q is None && f is None && forall|n: int|
        #[trigger] letters_url(s, n) ==> sch == s.subrange(0, n)
}

/// `url::Url::parse(base)`, then `query_pairs_mut().extend_pairs(pairs)`,
/// then the URL's serialization.  Stated: `None` exactly when `base` does not
/// parse; otherwise the pairs, written by the form serializer, are appended
/// to the query, and the fragment stays last.  For a base without query and
/// fragment it also states that parsing the result gives back the scheme and
/// the written query, and that the form parser reads that query back as the
/// same pairs.  A base `<scheme>://<host>` of lower-case letters with a
/// scheme that is not special parses (scheme state, then the authority and
/// an opaque host), with that scheme and neither query nor fragment.
#[verifier::external_body]
fn url_with_query_pairs(base: &str, pairs: &Vec<(String, String)>) -> (r: Option<String>)
    ensures
        r is None <==> url_parse_view(base@) is None,
        r matches Some(s) ==> s@ == with_pairs(url_parse_view(base@).unwrap(), pairs_view(pairs@)),
        r matches Some(s) ==> (bare(url_parse_view(base@).unwrap()) ==> url_parse_view(s@)
            == reparsed(url_parse_view(base@).unwrap(), pairs_view(pairs@))),
        r matches Some(s) ==> (bare(url_parse_view(base@).unwrap()) ==> form_parse_view(
            url_query(s@).unwrap()) == pairs_view(pairs@)),
        r is None ==> !letters_base(base@),
        r is Some ==> (letters_base(base@) ==> plain_parse(url_parse_view(base@), base@)),
{
    let mut url = url::Url::parse(base).ok()?;
    url.query_pairs_mut().extend_pairs(pairs.iter().map(|p| (p.0.as_str(), p.1.as_str())));
    Some(url.to_string())
}

// ---------------------------------------------------------------------------
// vortex:// play URIs
// ---------------------------------------------------------------------------

/// The base of every play URI.
pub open spec fn play_base() -> Seq<char> {
    "vortex://play"@
}

/// The query pairs of a play URI.
pub open spec fn play_pairs(game_id: u32, token: Seq<char>) -> Seq<(Seq<char>, Seq<char>)> {
    seq![("game"@, decimal(game_id as nat)), ("token"@, token)]
}

/// The game id that the pairs carry: the value of the last `game` pair, if
/// it reads as a `u32`.
pub open spec fn pick_game(pairs: Seq<(Seq<char>, Seq<char>)>) -> Option<u32>
    decreases pairs.len(),
{
    if pairs.len() == 0 {
        None
    } else if pairs.last().0 == "game"@ {
        parse_u32(pairs.last().1)
    } else {
        pick_game(pairs.drop_last())
    }
}

/// The token that the pairs carry: the value of the last `token` pair.
pub open spec fn pick_token(pairs: Seq<(Seq<char>, Seq<char>)>) -> Option<Seq<char>>
    decreases pairs.len(),
{
    if pairs.len() == 0 {
        None
    } else if pairs.last().0 == "token"@ {
        Some(pairs.last().1)
    } else {
        pick_token(pairs.drop_last())
    }
}

/// What `parse_vortex_uri` returns for `s`.
pub open spec fn vortex_uri(s: Seq<char>) -> Option<(u32, Seq<char>)> {
    match url_parse_view(s) {
        None => None,
        Some((_, sch, q, _)) => {
            if sch != "vortex"@ {
                None
            } else {
                let pairs = form_parse_view(or_empty(q));
                match (pick_game(pairs), pick_token(pairs)) {
                    (Some(g), Some(t)) => Some((g, t)),
                    _ => None,
                }
            }
        },
    }
}

/// The base of play URIs parses as itself, with scheme `vortex` and no query
/// or fragment.
pub open spec fn play_base_parses() -> bool {
    exists|pre: Seq<char>|
        url_parse_view(play_base()) == Some(
            (pre, "vortex"@, None::<Seq<char>>, None::<Seq<char>>),
        )
}

/// The URI that `build_uri` produces.
pub open spec fn built_uri(game_id: u32, token: Seq<char>) -> Seq<char> {
    match url_parse_view(play_base()) {
        Some((pre, _, q, f)) => pre + seq!['?'] + append_pairs(or_empty(q), play_pairs(game_id, token)) + fragment_suffix(f),
        None => Seq::<char>::empty(),
    }
}

/// The play URI for `game_id` with `token`, its query written by the form
/// serializer: `vortex://play?game=<id>&token=<encoded token>`.
pub fn build_uri(game_id: u32, token: &str) -> (r: String)
    ensures
        r@ == built_uri(game_id, token@),
        vortex_uri(r@) == Some((game_id, token@)),
        redacted(r@) == "vortex://play?game="@ + decimal(game_id as nat) + "&token=<redacted>"@,
{
    let mut pairs: Vec<(String, String)> = Vec::new();
    pairs.push((owned("game"), u32_decimal(game_id)));
    pairs.push((owned("token"), owned(token)));
    assert(pairs_view(pairs@) =~= play_pairs(game_id, token@));
    let base = "vortex://play";
    proof {
        reveal_strlit("vortex://play");
        reveal_strlit("vortex");
        reveal_strlit("://");
        assert(base@.subrange(0, 6) =~= "vortex"@);
        assert(base@.subrange(6, 9) =~= "://"@);
        assert(lower_letters(base@.subrange(9, 13)));
        assert(!special_scheme(base@.subrange(0, 6))) by {
            reveal_strlit("http");
            reveal_strlit("https");
            reveal_strlit("ws");
            reveal_strlit("wss");
            reveal_strlit("ftp");
            reveal_strlit("file");
            assert(base@.subrange(0, 6)[0] == 'v');
        }
        assert(letters_url(base@, 6));
        assert(letters_base(base@));
    }
    match url_with_query_pairs(base, &pairs) {
        Some(s) => {
            proof {
                assert(play_base_parses());
                let pv = play_pairs(game_id, token@);
                reveal_strlit("game");
                reveal_strlit("token");
                assert("token"@ != "game"@) by {
                    assert("token"@[0] != "game"@[0]);
                }
                assert(pv.drop_last() =~= seq![("game"@, decimal(game_id as nat))]);
                assert(pv.drop_last().drop_last() =~= Seq::<(Seq<char>, Seq<char>)>::empty());
                lemma_parse_decimal(game_id);
                assert(pick_token(pv) == Some(token@));
                assert(pick_game(pv.drop_last()) == Some(game_id));
                assert(pick_game(pv) == Some(game_id));
            }
            s
        },
        None => String::new(),
    }
}

/// The game id and token of a `vortex://` URI: the scheme must be `vortex`,
/// the last `game` pair of the query must read as a `u32`, and a `token`
/// pair must be present (the last one counts).
pub fn parse_vortex_uri(uri: &str) -> (r: Option<(u32, String)>)
    ensures
        match r {
            Some((g, t)) => vortex_uri(uri@) == Some((g, t@)),
            None => vortex_uri(uri@) is None,
        },
{
    let parts = match parse_url(uri) {
        Some(p) => p,
        None => return None,
    };
    if !str_eq(&parts.scheme, "vortex") {
        return None;
    }
    let empty = String::new();
    let query: &String = match &parts.query {
        Some(q) => q,
        None => &empty,
    };
    let pairs = form_parse(query);
    let ghost pv = pairs_view(pairs@);
    let mut game: Option<u32> = None;
    let mut token: Option<String> = None;
    let mut i: usize = 0;
    while i < pairs.len()
        invariant
            0 <= i <= pairs.len(),
            pv == pairs_view(pairs@),
            game == pick_game(pv.take(i as int)),
            match token {
                Some(t) => pick_token(pv.take(i as int)) == Some(t@),
                None => pick_token(pv.take(i as int)) is None,
            },
        decreases pairs.len() - i,
    {
        let (k, v) = &pairs[i];
        assert(pv.take(i + 1).drop_last() =~= pv.take(i as int));
        assert(pv.take(i + 1).last() == (k@, v@));
        if str_eq(k, "game") {
            proof {
                reveal_strlit("game");
                reveal_strlit("token");
                assert("token"@[0] != "game"@[0]);
            }
            game = parse_u32_exec(v);
        } else if str_eq(k, "token") {
            token = Some(v.clone());
        }
        i = i + 1;
    }
    assert(pv.take(i as int) =~= pv);
    match (game, token) {
        (Some(g), Some(t)) => Some((g, t)),
        _ => None,
    }
}

/// What `redact` returns for `s`.
pub open spec fn redacted(s: Seq<char>) -> Seq<char> {
    match vortex_uri(s) {
        Some((g, _)) => "vortex://play?game="@ + decimal(g as nat) + "&token=<redacted>"@,
        None => {
            if contains(s, "token="@) {
                let i = choose|i: int|
                    occurs_at(s, "token="@, i) && forall|j: int|
                        0 <= j < i ==> !occurs_at(s, "token="@, j);
                s.subrange(0, i + 6) + "<redacted>"@
            } else {
                "<invalid vortex:// uri>"@
            }
        },
    }
}

/// A URI fit for logs: the token is replaced by `<redacted>`.  A play URI
/// is rewritten in the canonical form with its game id; otherwise the text
/// after the first `token=` is dropped, and text without `token=` is
/// replaced as a whole.
pub fn redact(uri: &str) -> (r: String)
    ensures
        r@ == redacted(uri@),
        vortex_uri(uri@) matches Some((g, _)) ==> r@ == "vortex://play?game="@ + decimal(
            g as nat,
        ) + "&token=<redacted>"@,
{
    match parse_vortex_uri(uri) {
        Some((game_id, _)) => {
            let mut s = owned("vortex://play?game=");
            let d = u32_decimal(game_id);
            push_str(&mut s, &d);
            push_str(&mut s, "&token=<redacted>");
            s
        },
        None => {
            let v = chars_of(uri);
            let pat = chars_of("token=");
            proof {
                reveal_strlit("token=");
            }
            match find(&v, &pat) {
                Some(i) => {
                    let ghost j = choose|j: int|
                        occurs_at(uri@, "token="@, j) && forall|k: int|
                            0 <= k < j ==> !occurs_at(uri@, "token="@, k);
                    proof {
                        assert(occurs_at(uri@, "token="@, j));
                        if j < i {
                        } else if j > i {
                            assert(!occurs_at(uri@, "token="@, i as int));
                        }
                        assert(j == i);
                    }
                    assert(pat@.len() == 6);
                    assert(occurs_at(v@, pat@, i as int));
                    assert(i + pat@.len() <= v@.len());
                    let plen = pat.len();
                    let vlen = v.len();
                    assert(i + plen <= vlen);
                    let end = i + plen;
                    let mut s = string_of_range(&v, 0, end);
                    push_str(&mut s, "<redacted>");
                    s
                },
                None => owned("<invalid vortex:// uri>"),
            }
        },
    }
}

/// Redaction does not depend on the token: two play URIs with the same game
/// id are redacted alike.
pub proof fn lemma_redaction_hides_token(a: Seq<char>, b: Seq<char>)
    ensures
        (vortex_uri(a) matches Some((ga, _)) && vortex_uri(b) matches Some((gb, _)) && ga == gb)
            ==> redacted(a) == redacted(b),
{
}

} // verus!
