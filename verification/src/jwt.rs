use vstd::prelude::*;
use vstd::string::*;
use vstd::utf8::*;

use base64::Engine;

use crate::text::{chars_of, copy_string, push_char, string_from_chars, strings_view};

verus! {

// ── Splitting ───────────────────────────────────────────────────────────

/// `s` split at every occurrence of `sep` (as `str::split` does): the
/// pieces between separators, in order, empty ones included.
pub open spec fn split_spec(s: Seq<char>, sep: char) -> Seq<Seq<char>>
    decreases s.len(),
{
    if s.len() == 0 {
        seq![Seq::<char>::empty()]
    } else {
        let prev = split_spec(s.drop_last(), sep);
        if s.last() == sep {
            prev.push(Seq::<char>::empty())
        } else {
            prev.drop_last().push(prev.last().push(s.last()))
        }
    }
}

/// The pieces joined back with `sep` between them.
pub open spec fn join_spec(parts: Seq<Seq<char>>, sep: char) -> Seq<char>
    decreases parts.len(),
{
    if parts.len() == 0 {
        Seq::<char>::empty()
    } else if parts.len() == 1 {
        parts[0]
    } else {
        join_spec(parts.drop_last(), sep) + seq![sep] + parts.last()
    }
}

proof fn lemma_split_nonempty(s: Seq<char>, sep: char)
    ensures
        split_spec(s, sep).len() >= 1,
    decreases s.len(),
{
    if s.len() > 0 {
        lemma_split_nonempty(s.drop_last(), sep);
    }
}

/// Splitting at `sep` and joining with `sep` gives the string back, and
/// no piece holds `sep`.
pub proof fn lemma_split_join(s: Seq<char>, sep: char)
    ensures
        join_spec(split_spec(s, sep), sep) == s,
        forall|i: int|
            0 <= i < split_spec(s, sep).len() ==> !(#[trigger] split_spec(s, sep)[i]).contains(sep),
    decreases s.len(),
{
    if s.len() > 0 {
        let prev = split_spec(s.drop_last(), sep);
        lemma_split_join(s.drop_last(), sep);
        lemma_split_nonempty(s.drop_last(), sep);
        let cur = split_spec(s, sep);
        if s.last() == sep {
            assert(cur.drop_last() =~= prev);
            assert(join_spec(cur, sep) =~= s);
            assert forall|i: int| 0 <= i < cur.len() implies !(#[trigger] cur[i]).contains(sep) by {
                if i < prev.len() {
                    assert(cur[i] == prev[i]);
                } else {
                    assert(cur[i] =~= Seq::<char>::empty());
                }
            }
        } else {
            let last = prev.last().push(s.last());
            assert(cur.drop_last() =~= prev.drop_last());
            assert(s =~= s.drop_last().push(s.last()));
            if prev.len() == 1 {
                assert(join_spec(prev, sep) == prev[0]);
                assert(cur.len() == 1);
                assert(cur[0] == last);
                assert(join_spec(cur, sep) =~= s);
            } else {
                assert(join_spec(prev, sep) == join_spec(prev.drop_last(), sep) + seq![sep]
                    + prev.last());
                assert(join_spec(cur, sep) == join_spec(prev.drop_last(), sep) + seq![sep]
                    + last);
                assert(join_spec(cur, sep) =~= s);
            }
            assert forall|i: int| 0 <= i < cur.len() implies !(#[trigger] cur[i]).contains(sep) by {
                if i < prev.len() - 1 {
                    assert(cur[i] == prev[i]);
                } else {
                    assert(cur[i] == last);
                    assert(!prev[prev.len() - 1].contains(sep));
                    if last.contains(sep) {
                        let k = choose|k: int| 0 <= k < last.len() && #[trigger] last[k] == sep;
                        if k < last.len() - 1 {
                            assert(prev.last()[k] == sep);
                        }
                    }
                }
            }
        }
    }
}

/// `s` split at every `sep`.
pub fn split_char(s: &str, sep: char) -> (r: Vec<String>)
    ensures
        strings_view(r@) == split_spec(s@, sep),
{
    let chars = chars_of(s);
    let mut done: Vec<String> = Vec::new();
    let mut start: usize = 0;
    let mut i: usize = 0;
    proof {
        assert(chars@.take(0) =~= Seq::<char>::empty());
        assert(strings_view(done@).push(chars@.subrange(0, 0)) =~= seq![Seq::<char>::empty()]);
    }
    while i < chars.len()
        invariant
            start <= i <= chars@.len(),
            chars@ == s@,
            strings_view(done@).push(chars@.subrange(start as int, i as int)) == split_spec(
                chars@.take(i as int),
                sep,
            ),
        decreases chars@.len() - i,
    {
        let ghost prev_done = done@;
        proof {
            assert(chars@.take(i + 1).drop_last() =~= chars@.take(i as int));
            assert(chars@.take(i + 1).last() == chars@[i as int]);
        }
        if chars[i] == sep {
            let piece = string_from_chars(&chars, start, i);
            done.push(piece);
            proof {
                assert(strings_view(done@) =~= strings_view(prev_done).push(
                    chars@.subrange(start as int, i as int),
                ));
                assert(chars@.subrange(i + 1, i + 1) =~= Seq::<char>::empty());
            }
            start = i + 1;
        } else {
            proof {
                let sv = strings_view(prev_done).push(chars@.subrange(start as int, i as int));
                assert(sv.drop_last() =~= strings_view(prev_done));
                assert(chars@.subrange(start as int, i + 1) =~= chars@.subrange(
                    start as int,
                    i as int,
                ).push(chars@[i as int]));
                assert(strings_view(prev_done).push(chars@.subrange(start as int, i + 1))
                    =~= sv.drop_last().push(sv.last().push(chars@[i as int])));
            }
        }
        i = i + 1;
    }
    let last = string_from_chars(&chars, start, chars.len());
    let ghost prev_done = done@;
    done.push(last);
    proof {
        assert(chars@.take(chars@.len() as int) =~= chars@);
        assert(strings_view(done@) =~= strings_view(prev_done).push(
            chars@.subrange(start as int, chars@.len() as int),
        ));
    }
    done
}

// ── Trailing padding ────────────────────────────────────────────────────

/// `s` without the run of `c` at its end (as `str::trim_end_matches`
/// with a character).
pub open spec fn trim_end_spec(s: Seq<char>, c: char) -> Seq<char>
    decreases s.len(),
{
    if s.len() > 0 && s.last() == c {
        trim_end_spec(s.drop_last(), c)
    } else {
        s
    }
}

/// `s` without the `c` characters at its end.
pub fn trim_end_char(s: &str, c: char) -> (r: String)
    ensures
        r@ == trim_end_spec(s@, c),
{
    let chars = chars_of(s);
    let mut j: usize = chars.len();
    proof {
        assert(chars@.take(j as int) =~= chars@);
    }
    while j > 0 && chars[j - 1] == c
        invariant
            j <= chars@.len(),
            chars@ == s@,
            trim_end_spec(chars@.take(j as int), c) == trim_end_spec(s@, c),
        decreases j,
    {
        proof {
            assert(chars@.take(j as int).drop_last() =~= chars@.take(j - 1));
        }
        j = j - 1;
    }
    proof {
        assert(chars@.take(chars@.len() as int) =~= chars@);
        assert(chars@.subrange(0, j as int) =~= chars@.take(j as int));
    }
    string_from_chars(&chars, 0, j)
}

// ── JSON sections ───────────────────────────────────────────────────────

/// A member value of a JSON object, as the token inspection reads it.
#[derive(Debug, PartialEq, Eq)]
pub enum JsonField {
    /// A JSON string, unescaped.
    Text(String),
    /// Any other value: its compact JSON text, and its value when it is an
    /// integer that fits in `i64`.
    Other { rendered: String, integer: Option<i64> },
}

/// One member of a JSON object.
#[derive(Debug, PartialEq, Eq)]
pub struct JsonEntry {
    pub key: String,
    pub value: JsonField,
}

/// A decoded JSON document: the members of an object, in the order the
/// parser hands them out, or a value that is not an object.
#[derive(Debug, PartialEq, Eq)]
pub enum JsonDoc {
    Object(Vec<JsonEntry>),
    NotObject,
}

pub enum FieldView {
    Text(Seq<char>),
    Other(Seq<char>, Option<i64>),
}

pub struct EntryView {
    pub key: Seq<char>,
    pub value: FieldView,
}

pub enum DocView {
    Object(Seq<EntryView>),
    NotObject,
}

impl View for JsonField {
    type V = FieldView;

    open spec fn view(&self) -> FieldView {
        match self {
            JsonField::Text(s) => FieldView::Text(s@),
            JsonField::Other { rendered, integer } => FieldView::Other(rendered@, *integer),
        }
    }
}

impl View for JsonEntry {
    type V = EntryView;

    open spec fn view(&self) -> EntryView {
        EntryView { key: self.key@, value: self.value@ }
    }
}

impl View for JsonDoc {
    type V = DocView;

    open spec fn view(&self) -> DocView {
        match self {
            JsonDoc::Object(v) => DocView::Object(v@.map_values(|e: JsonEntry| e@)),
            JsonDoc::NotObject => DocView::NotObject,
        }
    }
}

pub open spec fn opt_doc_view(d: Option<JsonDoc>) -> Option<DocView> {
    match d {
        Some(x) => Some(x@),
        None => None,
    }
}

/// What URL-safe base64 without padding (`base64`'s `URL_SAFE_NO_PAD`
/// engine) decodes the characters to, or `None` where it refuses them.
pub uninterp spec fn base64_url_decoded(input: Seq<char>) -> Option<Seq<u8>>;

/// What `serde_json` parses the bytes to, read as a `JsonDoc`, or `None`
/// where they are not JSON.
pub uninterp spec fn json_doc_of(bytes: Seq<u8>) -> Option<DocView>;

/// `base64::engine::general_purpose::URL_SAFE_NO_PAD.decode`. The
/// contract claims only that the result is a function of the input,
/// named `base64_url_decoded`.
#[verifier::external_body]
fn base64_url_decode(input: &str) -> (r: Option<Vec<u8>>)
    ensures
        match r {
            Some(v) => base64_url_decoded(input@) == Some(v@),
            None => base64_url_decoded(input@) is None,
        },
{
    base64::engine::general_purpose::URL_SAFE_NO_PAD.decode(input).ok()
}

/// `serde_json::from_slice` into a `serde_json::Value`, read as a
/// `JsonDoc`: each member of an object becomes its key and either its
/// string (`Value::String`) or its `to_string()` with its `as_i64()`.
/// The contract claims only that the result is a function of the bytes,
/// named `json_doc_of`.
#[verifier::external_body]
fn parse_json_doc(bytes: &[u8]) -> (r: Option<JsonDoc>)
    ensures
        opt_doc_view(r) == json_doc_of(bytes@),
{
    let value: serde_json::Value = serde_json::from_slice(bytes).ok()?;
    Some(match value.as_object() {
        Some(map) => JsonDoc::Object(map.iter().map(|(k, v)| JsonEntry {
            key: k.clone(),
            value: match v {
                serde_json::Value::String(s) => JsonField::Text(s.clone()),
                other => JsonField::Other { rendered: other.to_string(), integer: other.as_i64() },
            },
        }).collect()),
        None => JsonDoc::NotObject,
    })
}

/// A JWT section decoded: trailing `=` dropped, base64url-decoded, parsed
/// as JSON.
pub open spec fn decoded_section(part: Seq<char>) -> Option<DocView> {
    match base64_url_decoded(trim_end_spec(part, '=')) {
        Some(bytes) => json_doc_of(bytes),
        None => None,
    }
}

/// Decode one dot-separated section of a JWT.
pub fn decode_jwt_part(part: &str) -> (r: Option<JsonDoc>)
    ensures
        opt_doc_view(r) == decoded_section(part@),
{
    let trimmed = trim_end_char(part, '=');
    match base64_url_decode(trimmed.as_str()) {
        Some(bytes) => parse_json_doc(bytes.as_slice()),
        None => None,
    }
}

// ── Rendering claims ────────────────────────────────────────────────────

/// Strings longer than this many bytes are shown truncated.
pub open spec fn shown_limit() -> int {
    80
}

/// The first `n` characters of `s` (all of them when there are fewer).
pub open spec fn first_chars(s: Seq<char>, n: int) -> Seq<char> {
    if s.len() <= n {
        s
    } else {
        s.take(n)
    }
}

/// How a string claim is shown: as is, or, when its UTF-8 form is longer
/// than 80 bytes, its first 80 characters followed by `...`.
pub open spec fn shown_text(s: Seq<char>) -> Seq<char> {
    if encode_utf8(s).len() > shown_limit() {
        first_chars(s, shown_limit()) + "..."@
    } else {
        s
    }
}

/// How a claim value is shown.
pub open spec fn shown_field(f: FieldView) -> Seq<char> {
    match f {
        FieldView::Text(s) => shown_text(s),
        FieldView::Other(rendered, _) => rendered,
    }
}

/// One line of a decoded section: a key and how its value is shown.
#[derive(Debug, PartialEq, Eq)]
pub struct ClaimLine {
    pub key: String,
    pub value: String,
}

/// The lines shown for a section: one per member of an object, none for
/// any other value.
pub open spec fn claim_lines_spec(doc: DocView) -> Seq<(Seq<char>, Seq<char>)> {
    match doc {
        DocView::Object(entries) => entries.map_values(
            |e: EntryView| (e.key, shown_field(e.value)),
        ),
        DocView::NotObject => Seq::empty(),
    }
}

pub open spec fn claim_lines_view(lines: Seq<ClaimLine>) -> Seq<(Seq<char>, Seq<char>)> {
    lines.map_values(|l: ClaimLine| (l.key@, l.value@))
}

/// Bytes in the UTF-8 form of a character.
pub open spec fn char_width(c: char) -> nat {
    let v = c as u32;
    if v <= 0x7F {
        1
    } else if v <= 0x7FF {
        2
    } else if v <= 0xFFFF {
        3
    } else {
        4
    }
}

/// Bytes in the UTF-8 form of a character sequence.
pub open spec fn utf8_len(s: Seq<char>) -> nat
    decreases s.len(),
{
    if s.len() == 0 {
        0
    } else {
        char_width(s[0]) + utf8_len(s.drop_first())
    }
}

proof fn lemma_utf8_len(s: Seq<char>)
    ensures
        encode_utf8(s).len() == utf8_len(s),
    decreases s.len(),
{
    if s.len() > 0 {
        lemma_utf8_len(s.drop_first());
        char_is_scalar(s[0]);
    }
}

/// The UTF-8 form of `s` is longer than `limit` bytes.
fn utf8_longer_than(s: &Vec<char>, limit: u64) -> (r: bool)
    requires
        limit < 0x1_0000_0000,
    ensures
        r == (encode_utf8(s@).len() > limit),
{
    let mut i: usize = s.len();
    let mut capped: u64 = 0;
    proof {
        assert(s@.skip(i as int) =~= Seq::<char>::empty());
    }
    while i > 0
        invariant
            i <= s@.len(),
            limit < 0x1_0000_0000,
            capped as int == if utf8_len(s@.skip(i as int)) > limit + 1 {
                limit + 1
            } else {
                utf8_len(s@.skip(i as int)) as int
            },
        decreases i,
    {
        let c = s[i - 1];
        let v = c as u32;
        let w: u64 = if v <= 0x7F {
            1
        } else if v <= 0x7FF {
            2
        } else if v <= 0xFFFF {
            3
        } else {
            4
        };
        proof {
            assert(s@.skip(i - 1).drop_first() =~= s@.skip(i as int));
            assert(s@.skip(i - 1)[0] == c);
        }
        capped = if capped + w > limit + 1 {
            limit + 1
        } else {
            capped + w
        };
        i = i - 1;
    }
    proof {
        assert(s@.skip(0) =~= s@);
        lemma_utf8_len(s@);
    }
    capped > limit
}

/// How one claim value is shown.
pub fn show_field(f: &JsonField) -> (r: String)
    ensures
        r@ == shown_field(f@),
{
    match f {
        JsonField::Other { rendered, integer } => {
            assert(f@ == FieldView::Other(rendered@, *integer));
            copy_string(rendered)
        },
        JsonField::Text(s) => {
            let chars = chars_of(s.as_str());
            if utf8_longer_than(&chars, 80) {
                let n: usize = if chars.len() <= 80 {
                    chars.len()
                } else {
                    80
                };
                let mut out = string_from_chars(&chars, 0, n);
                proof {
                    assert(chars@.subrange(0, n as int) =~= first_chars(s@, 80));
                }
                out.append("...");
                out
            } else {
                copy_string(s)
            }
        },
    }
}

/// The lines shown for a decoded section.
pub fn claim_lines(doc: &JsonDoc) -> (r: Vec<ClaimLine>)
    ensures
        claim_lines_view(r@) == claim_lines_spec(doc@),
{
    let mut out: Vec<ClaimLine> = Vec::new();
    match doc {
        JsonDoc::NotObject => {},
        JsonDoc::Object(entries) => {
            let ghost ev = entries@.map_values(|e: JsonEntry| e@);
            let mut i: usize = 0;
            while i < entries.len()
                invariant
                    i <= entries@.len(),
                    ev == entries@.map_values(|e: JsonEntry| e@),
                    claim_lines_view(out@) == ev.take(i as int).map_values(
                        |e: EntryView| (e.key, shown_field(e.value)),
                    ),
                decreases entries@.len() - i,
            {
                let e = &entries[i];
                let line = ClaimLine { key: copy_string(&e.key), value: show_field(&e.value) };
                let ghost before = out@;
                out.push(line);
                proof {
                    assert(claim_lines_view(out@) =~= claim_lines_view(before).push(
                        (e.key@, shown_field(e.value@)),
                    ));
                    assert(ev.take(i + 1) =~= ev.take(i as int).push(ev[i as int]));
                    assert(ev.take(i + 1).map_values(|e: EntryView| (e.key, shown_field(e.value)))
                        =~= ev.take(i as int).map_values(
                        |e: EntryView| (e.key, shown_field(e.value)),
                    ).push((ev[i as int].key, shown_field(ev[i as int].value))));
                }
                i = i + 1;
            }
            proof {
                assert(ev.take(ev.len() as int) =~= ev);
            }
        },
    }
    out
}

// ── Expiry ──────────────────────────────────────────────────────────────

/// The claim that holds the expiry time.
pub open spec fn exp_key() -> Seq<char> {
    "exp"@
}

/// The integer value of the first member named `key`, if it is one.
pub open spec fn int_claim(entries: Seq<EntryView>, key: Seq<char>) -> Option<i64>
    decreases entries.len(),
{
    if entries.len() == 0 {
        None
    } else if entries[0].key == key {
        match entries[0].value {
            FieldView::Other(_, n) => n,
            FieldView::Text(_) => None,
        }
    } else {
        int_claim(entries.drop_first(), key)
    }
}

/// The `exp` claim of a decoded section, when it is an integer.
pub open spec fn exp_claim_spec(doc: DocView) -> Option<i64> {
    match doc {
        DocView::Object(entries) => int_claim(entries, exp_key()),
        DocView::NotObject => None,
    }
}

/// The `exp` claim of a decoded section, when it is an integer.
pub fn exp_claim(doc: &JsonDoc) -> (r: Option<i64>)
    ensures
        r == exp_claim_spec(doc@),
{
    let key = "exp";
    match doc {
        JsonDoc::NotObject => None,
        JsonDoc::Object(entries) => {
            let ghost ev = entries@.map_values(|e: JsonEntry| e@);
            let mut i: usize = 0;
            proof {
                assert(ev.skip(0) =~= ev);
                reveal_strlit("exp");
            }
            while i < entries.len()
                invariant
                    i <= entries@.len(),
                    ev == entries@.map_values(|e: JsonEntry| e@),
                    int_claim(ev.skip(i as int), key@) == int_claim(ev, key@),
                    key@ == exp_key(),
                    doc@ == DocView::Object(ev),
                decreases entries@.len() - i,
            {
                proof {
                    assert(ev.skip(i as int).drop_first() =~= ev.skip(i + 1));
                    assert(ev.skip(i as int)[0] == ev[i as int]);
                    assert(ev[i as int] == entries@[i as int]@);
                }
                let e = &entries[i];
                if str_eq_key(e.key.as_str(), key) {
                    proof {
                        assert(ev.skip(i as int).len() > 0);
                        assert(ev.skip(i as int)[0].key == key@);
                    }
                    return match &e.value {
                        JsonField::Other { integer, rendered } => {
                            assert(ev.skip(i as int)[0].value == FieldView::Other(rendered@, *integer));
                            assert(int_claim(ev.skip(i as int), key@) == *integer);
                            assert(key@ == exp_key());
                            assert(doc@ == DocView::Object(ev));
                            *integer
                        },
                        JsonField::Text(t) => {
                            assert(ev.skip(i as int)[0].value == FieldView::Text(t@));
                            None
                        },
                    };
                }
                i = i + 1;
            }
            None
        },
    }
}

fn str_eq_key(a: &str, b: &str) -> (r: bool)
    ensures
        r == (a@ == b@),
{
    crate::text::str_eq(a, b)
}

/// How long a token with expiry `exp` has left at `now`.
#[derive(Clone, Copy, Debug, PartialEq, Eq, Structural)]
pub enum Expiry {
    /// `minutes` minutes and `seconds` seconds are left.
    ExpiresIn { minutes: i64, seconds: i64 },
    /// The token has expired.
    Expired,
}

/// How long a token with expiry `exp` has left at `now`.
pub open spec fn expiry_of(exp: int, now: int) -> Expiry {
    if exp - now > 0 {
        Expiry::ExpiresIn { minutes: ((exp - now) / 60) as i64, seconds: ((exp - now) % 60) as i64 }
    } else {
        Expiry::Expired
    }
}

/// How long a token with expiry `exp` has left at `now`.
pub fn expiry_at(exp: i64, now: i64) -> (r: Expiry)
    ensures
        r == expiry_of(exp as int, now as int),
{
    let remaining: i128 = (exp as i128) - (now as i128);
    if remaining > 0 {
        let minutes: i128 = remaining / 60;
        let seconds: i128 = remaining % 60;
        Expiry::ExpiresIn { minutes: minutes as i64, seconds: seconds as i64 }
    } else {
        Expiry::Expired
    }
}

// ── Whole tokens ────────────────────────────────────────────────────────

/// What inspecting a JWT finds: its decoded header and payload (each
/// `None` where it does not decode) and, when the payload carries an
/// integer `exp`, how long the token has left.
#[derive(Debug, PartialEq, Eq)]
pub struct TokenReport {
    pub header: Option<JsonDoc>,
    pub payload: Option<JsonDoc>,
    pub expiry: Option<Expiry>,
}

/// The expiry reported for a decoded payload at `now`.
pub open spec fn report_expiry(payload: Option<DocView>, now: int) -> Option<Expiry> {
    match payload {
        Some(doc) => match exp_claim_spec(doc) {
            Some(exp) => Some(expiry_of(exp as int, now)),
            None => None,
        },
        None => None,
    }
}

/// The token has the three dot-separated sections of a JWT.
pub open spec fn is_three_part(token: Seq<char>) -> bool {
    split_spec(token, '.').len() == 3
}

/// Inspect a JWT (without verifying it) at time `now`: `None` when it
/// does not have three sections.
pub fn decode_token_at(token: &str, now: i64) -> (r: Option<TokenReport>)
    ensures
        r is Some <==> is_three_part(token@),
        r matches Some(rep) ==> {
            &&& opt_doc_view(rep.header) == decoded_section(split_spec(token@, '.')[0])
            &&& opt_doc_view(rep.payload) == decoded_section(split_spec(token@, '.')[1])
            &&& rep.expiry == report_expiry(opt_doc_view(rep.payload), now as int)
        },
{
    let parts = split_char(token, '.');
    if parts.len() != 3 {
        return None;
    }
    let header = decode_jwt_part(parts[0].as_str());
    let payload = decode_jwt_part(parts[1].as_str());
    let expiry = match &payload {
        Some(doc) => match exp_claim(doc) {
            Some(exp) => Some(expiry_at(exp, now)),
            None => None,
        },
        None => None,
    };
    Some(TokenReport { header, payload, expiry })
}

/// Inspect a JWT (without verifying it) at the current time of the clock.
pub fn decode_token(token: &str) -> (r: Option<TokenReport>)
    ensures
        r is Some <==> is_three_part(token@),
        r matches Some(rep) ==> {
            &&& opt_doc_view(rep.header) == decoded_section(split_spec(token@, '.')[0])
            &&& opt_doc_view(rep.payload) == decoded_section(split_spec(token@, '.')[1])
            &&& exists|now: i64| rep.expiry == report_expiry(opt_doc_view(rep.payload), now as int)
        },
{
    let now = crate::session::now_unix_seconds();
    decode_token_at(token, now)
}


// ── Laws of token inspection ────────────────────────────────────────────

/// The time left is split into whole minutes and seconds; a token is
/// reported expired exactly when no time is left.
pub proof fn law_expiry_splits_remaining(exp: i64, now: i64)
    ensures
        expiry_of(exp as int, now as int) is Expired <==> exp <= now,
        expiry_of(exp as int, now as int) matches Expiry::ExpiresIn { minutes, seconds } ==> minutes
            * 60 + seconds == exp - now && 0 <= seconds < 60 && minutes >= 0,
{
    if exp > now {
        let rem = exp - now;
        assert(rem / 60 * 60 + rem % 60 == rem) by (nonlinear_arith)
            requires
                rem > 0,
        ;
        assert(rem / 60 <= rem) by (nonlinear_arith)
            requires
                rem > 0,
        ;
    }
}

/// A token of three dot-separated sections is exactly one with two dots;
/// its sections joined with dots give the token back.
pub proof fn law_three_sections(token: Seq<char>)
    requires
        is_three_part(token),
    ensures
        split_spec(token, '.')[0] + seq!['.'] + split_spec(token, '.')[1] + seq!['.']
            + split_spec(token, '.')[2] == token,
{
    lemma_split_join(token, '.');
    let p = split_spec(token, '.');
    assert(p.drop_last().drop_last().len() == 1);
    assert(join_spec(p.drop_last(), '.') == join_spec(p.drop_last().drop_last(), '.') + seq!['.']
        + p.drop_last().last());
}

} // verus!
