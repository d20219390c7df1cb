//! Authenticated-session bookkeeping: base URL, default headers and bearer
//! token.
//!
//! The upstream client keeps a base URL and a set of default headers that
//! every request carries. Headers are installed incrementally: first the
//! platform-identifying ones, then the authorization header, and a later
//! value wins on a key collision. The network transport itself lives outside
//! the library; this module owns the session state and the rules deciding
//! what may enter it, in particular that a bearer token must be pure ASCII.

use vstd::prelude::*;
use vstd::string::StringExecFns;

verus! {

/// An error of the session or of a finished HTTP exchange.
#[derive(Clone, Debug)]
pub enum ApiError {
    /// The base URL the session was to be built against does not parse as a
    /// valid absolute URL; carries the offending string.
    InvalidBaseUrl { base_url: String },
    /// The bearer token held characters outside ASCII. Each offender is
    /// reported with its character position and the character itself,
    /// a diagnostic for copy-paste corruption of tokens.
    NonAsciiToken { offenders: Vec<(usize, char)> },
    /// A response arrived with a non-2xx status; carries the numeric status
    /// and the response body text.
    HttpStatus { status: u16, body: String },
}

/// Whether a string parses as a valid absolute URL, as the URL parser
/// behind the HTTP client defines it.
pub uninterp spec fn url_ok(s: Seq<char>) -> bool;

/// Relies on reqwest::Url::parse (the url crate's parser for absolute
/// URLs): whether a string parses depends on the string alone.
#[verifier::external_body]
fn base_url_is_valid(s: &str) -> (r: bool)
    ensures
        r == url_ok(s@),
{
    reqwest::Url::parse(s).is_ok()
}

/// A single ASCII character: code point at most 0x7f.
pub open spec fn is_ascii_char(c: char) -> bool {
    '\0' <= c <= '\u{7f}'
}

/// The non-ASCII characters of `s`, each with its position, in order.
pub open spec fn non_ascii_offenders(s: Seq<char>) -> Seq<(usize, char)>
    decreases s.len(),
{
    if s.len() == 0 {
        Seq::empty()
    } else {
        let rest = non_ascii_offenders(s.drop_last());
        if is_ascii_char(s.last()) {
            rest
        } else {
            rest.push((((s.len() - 1) as usize), s.last()))
        }
    }
}

/// A string has no offenders exactly when all its characters are ASCII.
pub proof fn lemma_no_offenders_iff_ascii(s: Seq<char>)
    ensures
        non_ascii_offenders(s).len() == 0 <==> vstd::utf8::is_ascii_chars(s),
    decreases s.len(),
{
    if s.len() == 0 {
    } else {
        lemma_no_offenders_iff_ascii(s.drop_last());
        if non_ascii_offenders(s).len() == 0 {
            assert(is_ascii_char(s.last())) by {
                if !is_ascii_char(s.last()) {
                    assert(non_ascii_offenders(s) == non_ascii_offenders(s.drop_last()).push(
                        (((s.len() - 1) as usize), s.last()),
                    ));
                }
            }
            assert(non_ascii_offenders(s.drop_last()).len() == 0);
            assert(vstd::utf8::is_ascii_chars(s.drop_last()));
            assert forall|i: int| 0 <= i < s.len() implies '\0' <= #[trigger] s[i]
                <= '\u{7f}' by {
                if i < s.len() - 1 {
                    assert(s.drop_last()[i] == s[i]);
                    assert('\0' <= s.drop_last()[i] <= '\u{7f}');
                } else {
                    assert(s[i] == s.last());
                }
            }
        } else {
        }
        if vstd::utf8::is_ascii_chars(s) {
            assert forall|i: int| 0 <= i < s.drop_last().len() implies '\0'
                <= #[trigger] s.drop_last()[i] <= '\u{7f}' by {
                assert(s.drop_last()[i] == s[i]);
            }
            assert(non_ascii_offenders(s).len() == 0);
        }
    }
}

/// The ASCII-lowercase counterpart of one character.
pub open spec fn spec_lower_char(c: char) -> char {
    if c == 'A' {
        'a'
    } else if c == 'B' {
        'b'
    } else if c == 'C' {
        'c'
    } else if c == 'D' {
        'd'
    } else if c == 'E' {
        'e'
    } else if c == 'F' {
        'f'
    } else if c == 'G' {
        'g'
    } else if c == 'H' {
        'h'
    } else if c == 'I' {
        'i'
    } else if c == 'J' {
        'j'
    } else if c == 'K' {
        'k'
    } else if c == 'L' {
        'l'
    } else if c == 'M' {
        'm'
    } else if c == 'N' {
        'n'
    } else if c == 'O' {
        'o'
    } else if c == 'P' {
        'p'
    } else if c == 'Q' {
        'q'
    } else if c == 'R' {
        'r'
    } else if c == 'S' {
        's'
    } else if c == 'T' {
        't'
    } else if c == 'U' {
        'u'
    } else if c == 'V' {
        'v'
    } else if c == 'W' {
        'w'
    } else if c == 'X' {
        'x'
    } else if c == 'Y' {
        'y'
    } else if c == 'Z' {
        'z'
    } else {
        c
    }
}

/// The ASCII-lowercase counterpart of a header name. Header names compare
/// case-insensitively, so the session stores and keys them lowercased.
pub open spec fn ascii_lower(s: Seq<char>) -> Seq<char> {
    s.map(|i: int, c: char| spec_lower_char(c))
}

/// Lowercasing is idempotent: a lowercased name is its own lowercase.
pub proof fn lemma_ascii_lower_idempotent(s: Seq<char>)
    ensures
        ascii_lower(ascii_lower(s)) == ascii_lower(s),
{
    assert(ascii_lower(ascii_lower(s)) =~= ascii_lower(s));
}

fn ascii_lower_char(c: char) -> (r: char)
    ensures
        r == spec_lower_char(c),
{
    if c == 'A' {
        'a'
    } else if c == 'B' {
        'b'
    } else if c == 'C' {
        'c'
    } else if c == 'D' {
        'd'
    } else if c == 'E' {
        'e'
    } else if c == 'F' {
        'f'
    } else if c == 'G' {
        'g'
    } else if c == 'H' {
        'h'
    } else if c == 'I' {
        'i'
    } else if c == 'J' {
        'j'
    } else if c == 'K' {
        'k'
    } else if c == 'L' {
        'l'
    } else if c == 'M' {
        'm'
    } else if c == 'N' {
        'n'
    } else if c == 'O' {
        'o'
    } else if c == 'P' {
        'p'
    } else if c == 'Q' {
        'q'
    } else if c == 'R' {
        'r'
    } else if c == 'S' {
        's'
    } else if c == 'T' {
        't'
    } else if c == 'U' {
        'u'
    } else if c == 'V' {
        'v'
    } else if c == 'W' {
        'w'
    } else if c == 'X' {
        'x'
    } else if c == 'Y' {
        'y'
    } else if c == 'Z' {
        'z'
    } else {
        c
    }
}

/// Relies on String::push: appends exactly the one character.
#[verifier::external_body]
fn push_char(s: &mut String, c: char)
    ensures
        final(s)@ == old(s)@.push(c),
{
    s.push(c);
}

/// The ASCII-lowercase counterpart of a header name.
fn lower_header_name(name: &str) -> (r: String)
    ensures
        r@ == ascii_lower(name@),
{
    let n = name.unicode_len();
    let mut r = String::new();
    let mut i: usize = 0;
    while i < n
        invariant
            n == name@.len(),
            i <= n,
            r@ == ascii_lower(name@.take(i as int)),
        decreases n - i,
    {
        let c = ascii_lower_char(name.get_char(i));
        push_char(&mut r, c);
        proof {
            assert(r@ =~= ascii_lower(name@.take(i as int + 1)));
        }
        i = i + 1;
    }
    proof {
        assert(name@.take(n as int) =~= name@);
    }
    r
}

/// The map from header name to header value that a header list denotes;
/// on a repeated name the later entry wins.
pub open spec fn header_map(hs: Seq<(String, String)>) -> Map<Seq<char>, Seq<char>>
    decreases hs.len(),
{
    if hs.len() == 0 {
        Map::empty()
    } else {
        header_map(hs.drop_last()).insert(hs.last().0@, hs.last().1@)
    }
}

/// `base` overlaid with the given entries in order, each name lowercased;
/// a later entry wins on a name collision, whatever its case.
pub open spec fn merged(
    base: Map<Seq<char>, Seq<char>>,
    entries: Seq<(String, String)>,
) -> Map<Seq<char>, Seq<char>>
    decreases entries.len(),
{
    if entries.len() == 0 {
        base
    } else {
        merged(base, entries.drop_last()).insert(
            ascii_lower(entries.last().0@),
            entries.last().1@,
        )
    }
}

/// Overlaying one more entry overwrites exactly its name in the merged map.
pub proof fn lemma_merged_push(
    base: Map<Seq<char>, Seq<char>>,
    entries: Seq<(String, String)>,
    p: (String, String),
)
    ensures
        merged(base, entries.push(p)) == merged(base, entries).insert(ascii_lower(p.0@), p.1@),
{
    assert(entries.push(p).drop_last() =~= entries);
    assert(entries.push(p).last() == p);
}

/// A header list is well formed when its names are stored lowercased (the
/// canonical form of a case-insensitive name) and are pairwise distinct.
pub open spec fn wf_headers(hs: Seq<(String, String)>) -> bool {
    &&& forall|i: int| 0 <= i < hs.len() ==> #[trigger] hs[i].0@ == ascii_lower(hs[i].0@)
    &&& forall|i: int, j: int|
        #![trigger hs[i], hs[j]]
        0 <= i < j < hs.len() ==> hs[i].0@ != hs[j].0@
}

proof fn lemma_header_map_push(hs: Seq<(String, String)>, p: (String, String))
    ensures
        header_map(hs.push(p)) == header_map(hs).insert(p.0@, p.1@),
{
    assert(hs.push(p).drop_last() =~= hs);
    assert(hs.push(p).last() == p);
}

/// Replacing the entry that already carries a name yields the same map as
/// inserting that name afresh, provided the names are pairwise distinct.
proof fn lemma_header_map_update(hs: Seq<(String, String)>, i: int, p: (String, String))
    requires
        wf_headers(hs),
        0 <= i < hs.len(),
        hs[i].0@ == p.0@,
    ensures
        header_map(hs.update(i, p)) == header_map(hs).insert(p.0@, p.1@),
    decreases hs.len(),
{
    let upd = hs.update(i, p);
    if i == hs.len() - 1 {
        assert(upd.drop_last() =~= hs.drop_last());
        assert(upd.last() == p);
        assert(header_map(hs.drop_last()).insert(hs.last().0@, hs.last().1@).insert(p.0@, p.1@)
            =~= header_map(hs.drop_last()).insert(p.0@, p.1@));
    } else {
        assert(upd.drop_last() =~= hs.drop_last().update(i, p));
        assert(upd.last() == hs.last());
        assert(wf_headers(hs.drop_last())) by {
            assert forall|a: int| 0 <= a < hs.drop_last().len() implies #[trigger] hs.drop_last()[a].0@
                == ascii_lower(hs.drop_last()[a].0@) by {
                assert(hs.drop_last()[a] == hs[a]);
            }
            assert forall|a: int, b: int|
                #![trigger hs.drop_last()[a], hs.drop_last()[b]]
                0 <= a < b < hs.drop_last().len() implies hs.drop_last()[a].0@
                != hs.drop_last()[b].0@ by {
                assert(hs.drop_last()[a] == hs[a]);
                assert(hs.drop_last()[b] == hs[b]);
            }
        }
        assert(hs.drop_last()[i] == hs[i]);
        lemma_header_map_update(hs.drop_last(), i, p);
        assert(hs.last().0@ != p.0@);
        assert(header_map(hs.drop_last()).insert(p.0@, p.1@).insert(hs.last().0@, hs.last().1@)
            =~= header_map(hs.drop_last()).insert(hs.last().0@, hs.last().1@).insert(
            p.0@,
            p.1@,
        ));
    }
}

/// The session an HTTP client would be built from: base URL, default
/// headers, and the bearer token once installed.
#[derive(Debug)]
pub struct ApiClient {
    pub base_url: String,
    pub headers: Vec<(String, String)>,
    pub token: Option<String>,
}

impl ApiClient {
    /// Header names are pairwise distinct.
    pub open spec fn wf(&self) -> bool {
        wf_headers(self.headers@)
    }

    /// A fresh session against the given base URL: no headers, no token.
    /// Fails, before anything else happens, exactly when the string is not
    /// a valid absolute URL; on failure the error carries the string.
    pub fn new(base_url: &str) -> (r: Result<ApiClient, ApiError>)
        ensures
            r is Ok <==> url_ok(base_url@),
            r matches Ok(c) ==> c.wf() && c.base_url@ == base_url@ && c.headers@
                =~= Seq::<(String, String)>::empty() && header_map(c.headers@)
                == Map::<Seq<char>, Seq<char>>::empty() && c.token is None,
            r matches Err(e) ==> (e matches ApiError::InvalidBaseUrl { base_url: b } && b@
                == base_url@),
    {
        if !base_url_is_valid(base_url) {
            return Err(ApiError::InvalidBaseUrl { base_url: base_url.to_owned() });
        }
        Ok(ApiClient { base_url: base_url.to_owned(), headers: Vec::new(), token: None })
    }

    /// Installs one header under its lowercased name — header names compare
    /// case-insensitively — overwriting the entry already carrying that name
    /// if one exists, else appending.
    fn insert_header(&mut self, name: String, value: String)
        requires
            old(self).wf(),
        ensures
            final(self).wf(),
            final(self).base_url@ == old(self).base_url@,
            final(self).token == old(self).token,
            header_map(final(self).headers@) == header_map(old(self).headers@).insert(
                ascii_lower(name@),
                value@,
            ),
    {
        let lname = lower_header_name(name.as_str());
        let n = self.headers.len();
        let mut i: usize = 0;
        while i < n
            invariant
                n == self.headers.len(),
                i <= n,
                *self == *old(self),
                self.wf(),
                lname@ == ascii_lower(name@),
                forall|k: int| 0 <= k < i ==> #[trigger] self.headers@[k].0@ != lname@,
            decreases n - i,
        {
            if self.headers[i].0 == lname {
                let ghost hs = self.headers@;
                let ghost idx = i as int;
                self.headers[i] = (lname, value);
                proof {
                    lemma_header_map_update(hs, idx, self.headers@[idx]);
                    let upd = self.headers@;
                    assert forall|k: int| 0 <= k < upd.len() implies #[trigger] upd[k].0@
                        == hs[k].0@ by {
                        if k != idx {
                            assert(upd[k] == hs[k]);
                        }
                    }
                    assert forall|a: int, b: int|
                        #![trigger upd[a], upd[b]]
                        0 <= a < b < upd.len() implies upd[a].0@ != upd[b].0@ by {
                        assert(hs[a].0@ != hs[b].0@);
                        assert(upd[a].0@ == hs[a].0@);
                        assert(upd[b].0@ == hs[b].0@);
                    }
                    assert forall|k: int| 0 <= k < upd.len() implies #[trigger] upd[k].0@
                        == ascii_lower(upd[k].0@) by {
                        assert(upd[k].0@ == hs[k].0@);
                        assert(hs[k].0@ == ascii_lower(hs[k].0@));
                    }
                }
                return ;
            }
            i = i + 1;
        }
        let ghost hs = self.headers@;
        self.headers.push((lname, value));
        proof {
            lemma_header_map_push(hs, self.headers@.last());
            lemma_ascii_lower_idempotent(name@);
            let upd = self.headers@;
            assert forall|k: int| 0 <= k < upd.len() implies #[trigger] upd[k].0@ == ascii_lower(
                upd[k].0@,
            ) by {
                if k < upd.len() - 1 {
                    assert(upd[k] == hs[k]);
                }
            }
            assert forall|a: int, b: int|
                #![trigger upd[a], upd[b]]
                0 <= a < b < upd.len() implies upd[a].0@ != upd[b].0@ by {
                assert(upd[a] == hs[a]);
                if b < upd.len() - 1 {
                    assert(upd[b] == hs[b]);
                }
            }
        }
    }

    /// Overlays the given headers onto the session's, in order; a new value
    /// wins on a name collision.
    pub fn update_headers(&mut self, new_headers: &Vec<(String, String)>)
        requires
            old(self).wf(),
        ensures
            final(self).wf(),
            final(self).base_url@ == old(self).base_url@,
            final(self).token == old(self).token,
            header_map(final(self).headers@) == merged(
                header_map(old(self).headers@),
                new_headers@,
            ),
    {
        let ghost base = header_map(old(self).headers@);
        let n = new_headers.len();
        let mut i: usize = 0;
        while i < n
            invariant
                n == new_headers.len(),
                i <= n,
                self.wf(),
                self.base_url@ == old(self).base_url@,
                self.token == old(self).token,
                header_map(self.headers@) == merged(base, new_headers@.take(i as int)),
            decreases n - i,
        {
            let name = new_headers[i].0.clone();
            let value = new_headers[i].1.clone();
            self.insert_header(name, value);
            proof {
                assert(new_headers@.take(i as int + 1).drop_last() =~= new_headers@.take(
                    i as int,
                ));
                assert(new_headers@.take(i as int + 1).last() == new_headers@[i as int]);
            }
            i = i + 1;
        }
        proof {
            assert(new_headers@.take(n as int) =~= new_headers@);
        }
    }

    /// Validates that the token is pure ASCII and installs it as the
    /// `authorization` header. On a non-ASCII token it fails before any
    /// header is touched, reporting every offending character with its
    /// position.
    pub fn set_authorization(&mut self, token: &str) -> (r: Result<(), ApiError>)
        requires
            old(self).wf(),
        ensures
            final(self).wf(),
            r is Ok <==> vstd::string::is_ascii(token),
            vstd::string::is_ascii(token) ==> header_map(final(self).headers@) == header_map(
                old(self).headers@,
            ).insert("authorization"@, token@),
            vstd::string::is_ascii(token) ==> final(self).base_url@ == old(self).base_url@,
            vstd::string::is_ascii(token) ==> (final(self).token matches Some(t) && t@ == token@),
            !vstd::string::is_ascii(token) ==> *final(self) == *old(self),
            !vstd::string::is_ascii(token) ==> (r matches Err(
                ApiError::NonAsciiToken { offenders },
            ) && offenders@ == non_ascii_offenders(token@)),
    {
        let offenders = find_non_ascii(token);
        proof {
            lemma_no_offenders_iff_ascii(token@);
        }
        if offenders.len() > 0 {
            return Err(ApiError::NonAsciiToken { offenders });
        }
        let mut auth: Vec<(String, String)> = Vec::new();
        auth.push(("authorization".to_owned(), token.to_owned()));
        self.update_headers(&auth);
        self.token = Some(token.to_owned());
        proof {
            let base = header_map(old(self).headers@);
            assert(auth@.drop_last() =~= Seq::<(String, String)>::empty());
            assert(merged(base, auth@) == merged(base, auth@.drop_last()).insert(
                ascii_lower(auth@.last().0@),
                auth@.last().1@,
            ));
            assert(auth@.last().0@ == "authorization"@);
            assert(auth@.last().1@ == token@);
            assert(ascii_lower("authorization"@) =~= "authorization"@) by {
                reveal_strlit("authorization");
            }
        }
        Ok(())
    }
}

/// The non-ASCII characters of `token`, each with its position, in order.
fn find_non_ascii(token: &str) -> (v: Vec<(usize, char)>)
    ensures
        v@ == non_ascii_offenders(token@),
{
    let n = token.unicode_len();
    let mut v: Vec<(usize, char)> = Vec::new();
    let mut i: usize = 0;
    while i < n
        invariant
            n == token@.len(),
            i <= n,
            v@ == non_ascii_offenders(token@.take(i as int)),
        decreases n - i,
    {
        let c = token.get_char(i);
        if !('\0' <= c && c <= '\u{7f}') {
            v.push((i, c));
        }
        proof {
            assert(token@.take(i as int + 1).drop_last() =~= token@.take(i as int));
            assert(token@.take(i as int + 1).last() == token@[i as int]);
        }
        i = i + 1;
    }
    proof {
        assert(token@.take(n as int) =~= token@);
    }
    v
}

/// The decimal digit character for `d`.
pub open spec fn spec_digit_char(d: nat) -> char {
    if d == 0 {
        '0'
    } else if d == 1 {
        '1'
    } else if d == 2 {
        '2'
    } else if d == 3 {
        '3'
    } else if d == 4 {
        '4'
    } else if d == 5 {
        '5'
    } else if d == 6 {
        '6'
    } else if d == 7 {
        '7'
    } else if d == 8 {
        '8'
    } else {
        '9'
    }
}

/// The decimal rendering of `n`, most significant digit first, no leading
/// zeros (except for zero itself).
pub open spec fn spec_dec(n: nat) -> Seq<char>
    decreases n,
{
    if n < 10 {
        seq![spec_digit_char(n)]
    } else {
        spec_dec(n / 10).push(spec_digit_char(n % 10))
    }
}

fn digit_str(d: u64) -> (r: &'static str)
    requires
        d < 10,
    ensures
        r@ == seq![spec_digit_char(d as nat)],
{
    if d == 0 {
        proof {
            reveal_strlit("0");
            assert("0"@ =~= seq!['0']);
        }
        "0"
    } else if d == 1 {
        proof {
            reveal_strlit("1");
            assert("1"@ =~= seq!['1']);
        }
        "1"
    } else if d == 2 {
        proof {
            reveal_strlit("2");
            assert("2"@ =~= seq!['2']);
        }
        "2"
    } else if d == 3 {
        proof {
            reveal_strlit("3");
            assert("3"@ =~= seq!['3']);
        }
        "3"
    } else if d == 4 {
        proof {
            reveal_strlit("4");
            assert("4"@ =~= seq!['4']);
        }
        "4"
    } else if d == 5 {
        proof {
            reveal_strlit("5");
            assert("5"@ =~= seq!['5']);
        }
        "5"
    } else if d == 6 {
        proof {
            reveal_strlit("6");
            assert("6"@ =~= seq!['6']);
        }
        "6"
    } else if d == 7 {
        proof {
            reveal_strlit("7");
            assert("7"@ =~= seq!['7']);
        }
        "7"
    } else if d == 8 {
        proof {
            reveal_strlit("8");
            assert("8"@ =~= seq!['8']);
        }
        "8"
    } else {
        proof {
            reveal_strlit("9");
            assert("9"@ =~= seq!['9']);
        }
        "9"
    }
}

/// Renders a number in decimal.
pub fn dec_u64(n: u64) -> (r: String)
    ensures
        r@ == spec_dec(n as nat),
    decreases n,
{
    if n < 10 {
        digit_str(n).to_owned()
    } else {
        let mut s = dec_u64(n / 10);
        s.append(digit_str(n % 10));
        proof {
            assert(spec_dec((n / 10) as nat) + seq![spec_digit_char((n % 10) as nat)]
                =~= spec_dec(n as nat));
        }
        s
    }
}

/// The hexadecimal digit character for `d`.
pub open spec fn spec_hex_digit_char(d: nat) -> char {
    if d < 10 {
        spec_digit_char(d)
    } else if d == 10 {
        'A'
    } else if d == 11 {
        'B'
    } else if d == 12 {
        'C'
    } else if d == 13 {
        'D'
    } else if d == 14 {
        'E'
    } else {
        'F'
    }
}

/// The hexadecimal rendering of `n`, most significant digit first, no
/// leading zeros (except for zero itself).
pub open spec fn spec_hex(n: nat) -> Seq<char>
    decreases n,
{
    if n < 16 {
        seq![spec_hex_digit_char(n)]
    } else {
        spec_hex(n / 16).push(spec_hex_digit_char(n % 16))
    }
}

/// `k` zero characters (none if `k` is not positive).
pub open spec fn zero_pad(k: int) -> Seq<char>
    decreases k,
{
    if k <= 0 {
        Seq::empty()
    } else {
        zero_pad(k - 1).push('0')
    }
}

/// The hexadecimal rendering of `n`, zero-padded on the left to at least
/// four digits — the usual code-point notation after "U+".
pub open spec fn spec_hex_min4(n: nat) -> Seq<char> {
    zero_pad(4 - spec_hex(n).len()) + spec_hex(n)
}

proof fn lemma_spec_hex_len(n: nat)
    ensures
        n < 16 ==> spec_hex(n).len() == 1,
        16 <= n < 256 ==> spec_hex(n).len() == 2,
        256 <= n < 4096 ==> spec_hex(n).len() == 3,
        4096 <= n ==> spec_hex(n).len() >= 4,
    decreases n,
{
    if n >= 16 {
        lemma_spec_hex_len(n / 16);
    }
}

fn hex_digit_str(d: u32) -> (r: &'static str)
    requires
        d < 16,
    ensures
        r@ == seq![spec_hex_digit_char(d as nat)],
{
    if d < 10 {
        digit_str(d as u64)
    } else if d == 10 {
        proof {
            reveal_strlit("A");
            assert("A"@ =~= seq!['A']);
        }
        "A"
    } else if d == 11 {
        proof {
            reveal_strlit("B");
            assert("B"@ =~= seq!['B']);
        }
        "B"
    } else if d == 12 {
        proof {
            reveal_strlit("C");
            assert("C"@ =~= seq!['C']);
        }
        "C"
    } else if d == 13 {
        proof {
            reveal_strlit("D");
            assert("D"@ =~= seq!['D']);
        }
        "D"
    } else if d == 14 {
        proof {
            reveal_strlit("E");
            assert("E"@ =~= seq!['E']);
        }
        "E"
    } else {
        proof {
            reveal_strlit("F");
            assert("F"@ =~= seq!['F']);
        }
        "F"
    }
}

/// Renders a number in hexadecimal.
fn hex_u32(n: u32) -> (r: String)
    ensures
        r@ == spec_hex(n as nat),
    decreases n,
{
    if n < 16 {
        hex_digit_str(n).to_owned()
    } else {
        let mut s = hex_u32(n / 16);
        s.append(hex_digit_str(n % 16));
        proof {
            assert(spec_hex((n / 16) as nat) + seq![spec_hex_digit_char((n % 16) as nat)]
                =~= spec_hex(n as nat));
        }
        s
    }
}

/// Renders a number in hexadecimal, zero-padded to at least four digits.
fn hex_min4_u32(n: u32) -> (r: String)
    ensures
        r@ == spec_hex_min4(n as nat),
{
    proof {
        lemma_spec_hex_len(n as nat);
        assert(zero_pad(0) =~= Seq::<char>::empty());
        assert(zero_pad(1) =~= seq!['0']);
        assert(zero_pad(2) =~= seq!['0', '0']);
        assert(zero_pad(3) =~= seq!['0', '0', '0']);
    }
    let mut r: String;
    if n < 0x10 {
        r = "000".to_owned();
        proof {
            reveal_strlit("000");
            assert(r@ =~= zero_pad(3));
        }
    } else if n < 0x100 {
        r = "00".to_owned();
        proof {
            reveal_strlit("00");
            assert(r@ =~= zero_pad(2));
        }
    } else if n < 0x1000 {
        r = "0".to_owned();
        proof {
            reveal_strlit("0");
            assert(r@ =~= zero_pad(1));
        }
    } else {
        r = String::new();
    }
    let h = hex_u32(n);
    r.append(h.as_str());
    proof {
        assert(r@ =~= spec_hex_min4(n as nat));
    }
    r
}

/// The diagnostic line for one offending token character: its position,
/// the character itself, and its code point.
pub open spec fn spec_offender_line(o: (usize, char)) -> Seq<char> {
    "\n  position "@ + spec_dec(o.0 as nat) + ": '"@ + seq![o.1] + "' (U+"@ + spec_hex_min4(
        o.1 as u32 as nat,
    ) + ")"@
}

/// The diagnostic lines for all offending token characters, in order.
pub open spec fn spec_offender_lines(os: Seq<(usize, char)>) -> Seq<char>
    decreases os.len(),
{
    if os.len() == 0 {
        Seq::empty()
    } else {
        spec_offender_lines(os.drop_last()) + spec_offender_line(os.last())
    }
}

fn offender_line(position: usize, c: char) -> (r: String)
    ensures
        r@ == spec_offender_line((position, c)),
{
    let mut r = "\n  position ".to_owned();
    let digits = dec_u64(position as u64);
    r.append(digits.as_str());
    r.append(": '");
    push_char(&mut r, c);
    r.append("' (U+");
    let hex = hex_min4_u32(c as u32);
    r.append(hex.as_str());
    r.append(")");
    proof {
        assert(r@ =~= spec_offender_line((position, c)));
    }
    r
}

impl ApiError {
    /// The human-readable message of this error. For a non-ASCII token it
    /// enumerates each offending character with its position and code point.
    pub open spec fn spec_message(&self) -> Seq<char> {
        match self {
            ApiError::InvalidBaseUrl { base_url } => "Invalid base URL: "@ + base_url@,
            ApiError::NonAsciiToken { offenders } => {
                "Token contains non-ASCII characters; obtain a valid, complete bearer token"@
                    + spec_offender_lines(offenders@)
            },
            ApiError::HttpStatus { status, body } => {
                "Request failed with status: "@ + spec_dec(*status as nat) + " - Body: "@ + body@
            },
        }
    }

    /// Renders the human-readable message of this error.
    pub fn message(&self) -> (r: String)
        ensures
            r@ == self.spec_message(),
    {
        match self {
            ApiError::InvalidBaseUrl { base_url } => {
                let mut s = "Invalid base URL: ".to_owned();
                s.append(base_url.as_str());
                s
            },
            ApiError::NonAsciiToken { offenders } => {
                let mut s =
                    "Token contains non-ASCII characters; obtain a valid, complete bearer token".to_owned();
                let ghost head = s@;
                let n = offenders.len();
                let mut k: usize = 0;
                while k < n
                    invariant
                        n == offenders@.len(),
                        k <= n,
                        s@ == head + spec_offender_lines(offenders@.take(k as int)),
                    decreases n - k,
                {
                    let line = offender_line(offenders[k].0, offenders[k].1);
                    s.append(line.as_str());
                    proof {
                        assert(offenders@.take(k as int + 1).drop_last() =~= offenders@.take(
                            k as int,
                        ));
                        assert(offenders@.take(k as int + 1).last() == offenders@[k as int]);
                        assert((offenders@[k as int].0, offenders@[k as int].1) == offenders@[
                            k as int
                        ]);
                        assert(s@ =~= head + spec_offender_lines(offenders@.take(k as int + 1)));
                    }
                    k = k + 1;
                }
                proof {
                    assert(offenders@.take(n as int) =~= offenders@);
                }
                s
            },
            ApiError::HttpStatus { status, body } => {
                let mut s = "Request failed with status: ".to_owned();
                let digits = dec_u64(*status as u64);
                s.append(digits.as_str());
                s.append(" - Body: ");
                s.append(body.as_str());
                s
            },
        }
    }
}

/// True exactly for the HTTP status codes that count as success (2xx).
pub fn status_is_success(status: u16) -> (r: bool)
    ensures
        r == (200 <= status < 300),
{
    200 <= status && status < 300
}

/// Classifies a finished HTTP exchange: success exactly on a 2xx status,
/// otherwise an error carrying the status and the body text.
pub fn classify_response(status: u16, body: String) -> (r: Result<(), ApiError>)
    ensures
        r is Ok <==> 200 <= status < 300,
        !(200 <= status < 300) ==> (r matches Err(ApiError::HttpStatus { status: s, body: b })
            && s == status && b@ == body@),
{
    if 200 <= status && status < 300 {
        Ok(())
    } else {
        Err(ApiError::HttpStatus { status, body })
    }
}

} // verus!
