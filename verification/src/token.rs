//! The token codec: three-part bearer tokens of the wire form
//! `secret.payload.signature`, with a Base64URL JSON payload segment.

use crate::b64::{b64url_decode, b64url_decode_of};
use crate::json::{json_i64_field, json_i64_of, json_str_field, json_str_of};
use vstd::prelude::*;
use vstd::string::*;

verus! {

/// The separator of the wire format, as a one-character sequence.
pub open spec fn dot() -> Seq<char> {
    seq!['.']
}

/// `s` reads as `a.b.c` with exactly three non-empty, dot-free segments.
/// This is the well-formedness condition of the wire format: a string has
/// at most one such reading.
pub open spec fn is_split3(s: Seq<char>, a: Seq<char>, b: Seq<char>, c: Seq<char>) -> bool {
    &&& s == a + dot() + b + dot() + c
    &&& a.len() > 0
    &&& b.len() > 0
    &&& c.len() > 0
    &&& !a.contains('.')
    &&& !b.contains('.')
    &&& !c.contains('.')
}

/// Some three-part reading of `s` exists.
pub open spec fn has_split3(s: Seq<char>) -> bool {
    exists|a: Seq<char>, b: Seq<char>, c: Seq<char>| is_split3(s, a, b, c)
}

/// In a three-part reading, the dots stand exactly at the two positions
/// induced by the segment lengths.
pub proof fn lemma_split3_dot_positions(s: Seq<char>, a: Seq<char>, b: Seq<char>, c: Seq<char>)
    requires
        is_split3(s, a, b, c),
    ensures
        s.len() == a.len() + b.len() + c.len() + 2,
        s[a.len() as int] == '.',
        s[a.len() + b.len() + 1 as int] == '.',
        forall|k: int| 0 <= k < a.len() ==> s[k] == a[k],
        forall|k: int| a.len() < k < a.len() + b.len() + 1 ==> s[k] == b[k - a.len() - 1],
        forall|k: int| a.len() + b.len() + 1 < k < s.len() ==> s[k] == c[k - a.len() - b.len() - 2],
        forall|k: int|
            0 <= k < s.len() && s[k] == '.' ==> k == a.len() || k == a.len() + b.len() + 1,
{
    let t = a + dot() + b + dot() + c;
    assert(s.len() == a.len() + b.len() + c.len() + 2);
    assert forall|k: int| 0 <= k < a.len() implies s[k] == a[k] by {
        assert(t[k] == a[k]);
    }
    assert forall|k: int| a.len() < k < a.len() + b.len() + 1 implies s[k] == b[k - a.len()
        - 1] by {
        assert(t[k] == b[k - a.len() - 1]);
    }
    assert forall|k: int| a.len() + b.len() + 1 < k < s.len() implies s[k] == c[k - a.len()
        - b.len() - 2] by {
        assert(t[k] == c[k - a.len() - b.len() - 2]);
    }
    assert(t[a.len() as int] == '.');
    assert(t[a.len() + b.len() + 1 as int] == '.');
    assert forall|k: int|
        0 <= k < s.len() && s[k] == '.' implies k == a.len() || k == a.len() + b.len() + 1 by {
        if k < a.len() {
            assert(a[k] == '.');
            assert(a.contains('.'));
        } else if a.len() < k < a.len() + b.len() + 1 {
            assert(b[k - a.len() - 1] == '.');
            assert(b.contains('.'));
        } else if a.len() + b.len() + 1 < k {
            assert(c[k - a.len() - b.len() - 2] == '.');
            assert(c.contains('.'));
        }
    }
}

/// A string has at most one three-part reading.
pub proof fn lemma_split3_unique(
    s: Seq<char>,
    a1: Seq<char>,
    b1: Seq<char>,
    c1: Seq<char>,
    a2: Seq<char>,
    b2: Seq<char>,
    c2: Seq<char>,
)
    requires
        is_split3(s, a1, b1, c1),
        is_split3(s, a2, b2, c2),
    ensures
        a1 == a2,
        b1 == b2,
        c1 == c2,
{
    lemma_split3_dot_positions(s, a1, b1, c1);
    lemma_split3_dot_positions(s, a2, b2, c2);
    // The first dot of each reading stands at the other's first-segment end.
    if a1.len() < a2.len() {
        assert(s[a1.len() as int] == a2[a1.len() as int]);
        assert(a2.contains('.'));
    } else if a2.len() < a1.len() {
        assert(s[a2.len() as int] == a1[a2.len() as int]);
        assert(a1.contains('.'));
    }
    assert(a1.len() == a2.len());
    // The second dot of reading 1 is a dot of reading 2; it is past the
    // first dot, so it is the second dot of reading 2 as well.
    assert(a2.len() + b2.len() + 1 == a1.len() + b1.len() + 1);
    assert(b1.len() == b2.len());
    assert(c1.len() == c2.len());
    assert(a1 =~= a2) by {
        assert forall|k: int| 0 <= k < a1.len() implies a1[k] == a2[k] by {
            assert(a1[k] == s[k]);
            assert(a2[k] == s[k]);
        }
    }
    assert(b1 =~= b2) by {
        assert forall|k: int| 0 <= k < b1.len() implies b1[k] == b2[k] by {
            assert(s[a1.len() + 1 + k] == b1[k]);
            assert(s[a1.len() + 1 + k] == b2[k]);
        }
    }
    assert(c1 =~= c2) by {
        assert forall|k: int| 0 <= k < c1.len() implies c1[k] == c2[k] by {
            assert(s[a1.len() + b1.len() + 2 + k] == c1[k]);
            assert(s[a1.len() + b1.len() + 2 + k] == c2[k]);
        }
    }
}

/// Whether the scan so far (over `s[0..i]`) matches the recorded dot
/// positions: at most two dots seen, at the recorded places and nowhere else.
spec fn scan_state(s: Seq<char>, i: int, d1: Option<usize>, d2: Option<usize>) -> bool {
    match (d1, d2) {
        (Option::None, Option::None) => forall|k: int| 0 <= k < i ==> s[k] != '.',
        (Option::Some(p1), Option::None) => {
            &&& p1 < i
            &&& s[p1 as int] == '.'
            &&& forall|k: int| 0 <= k < i && k != p1 ==> s[k] != '.'
        },
        (Option::Some(p1), Option::Some(p2)) => {
            &&& p1 < p2 < i
            &&& s[p1 as int] == '.'
            &&& s[p2 as int] == '.'
            &&& forall|k: int| 0 <= k < i && k != p1 && k != p2 ==> s[k] != '.'
        },
        (Option::None, Option::Some(_)) => false,
    }
}

/// Splits `s` into the three segments of the wire format, if and only if
/// it has exactly that shape.
pub(crate) fn split3(s: &str) -> (r: Option<(String, String, String)>)
    ensures
        match r {
            Option::Some(t) => is_split3(s@, t.0@, t.1@, t.2@),
            Option::None => !has_split3(s@),
        },
{
    let n: usize = s.unicode_len();
    let mut d1: Option<usize> = None;
    let mut d2: Option<usize> = None;
    let mut i: usize = 0;
    while i < n
        invariant
            n == s@.len(),
            i <= n,
            scan_state(s@, i as int, d1, d2),
        decreases n - i,
    {
        let ch = s.get_char(i);
        if ch == '.' {
            if d1.is_none() {
                d1 = Some(i);
            } else if d2.is_none() {
                d2 = Some(i);
            } else {
                // A third dot: no three-part reading exists.
                proof {
                    let p1 = d1.unwrap();
                    let p2 = d2.unwrap();
                    if has_split3(s@) {
                        let (a, b, c) = choose|a: Seq<char>, b: Seq<char>, c: Seq<char>|
                            is_split3(s@, a, b, c);
                        lemma_split3_dot_positions(s@, a, b, c);
                        assert(false);
                    }
                }
                return None;
            }
        }
        i += 1;
    }
    let (p1, p2) = match (d1, d2) {
        (Some(p1), Some(p2)) => (p1, p2),
        _ => {
            // Fewer than two dots: no three-part reading exists.
            proof {
                if has_split3(s@) {
                    let (a, b, c) = choose|a: Seq<char>, b: Seq<char>, c: Seq<char>|
                        is_split3(s@, a, b, c);
                    lemma_split3_dot_positions(s@, a, b, c);
                    assert(false);
                }
            }
            return None;
        },
    };
    if p1 == 0 || p2 == p1 + 1 || p2 == n - 1 {
        // An empty segment: no reading with three non-empty segments exists.
        proof {
            if has_split3(s@) {
                let (a, b, c) = choose|a: Seq<char>, b: Seq<char>, c: Seq<char>|
                    is_split3(s@, a, b, c);
                lemma_split3_dot_positions(s@, a, b, c);
                // The first dot of the reading is the scanned first dot.
                assert(a.len() == p1);
                assert(a.len() + b.len() + 1 == p2);
                assert(false);
            }
        }
        return None;
    }
    let sec = String::from_str(s.substring_char(0, p1));
    let pay = String::from_str(s.substring_char(p1 + 1, p2));
    let sig = String::from_str(s.substring_char(p2 + 1, n));
    proof {
        assert(s@ =~= sec@ + dot() + pay@ + dot() + sig@);
        assert(!sec@.contains('.')) by {
            if sec@.contains('.') {
                let k = choose|k: int| 0 <= k < sec@.len() && sec@[k] == '.';
                assert(s@[k] == '.');
            }
        }
        assert(!pay@.contains('.')) by {
            if pay@.contains('.') {
                let k = choose|k: int| 0 <= k < pay@.len() && pay@[k] == '.';
                assert(s@[p1 + 1 + k] == '.');
            }
        }
        assert(!sig@.contains('.')) by {
            if sig@.contains('.') {
                let k = choose|k: int| 0 <= k < sig@.len() && sig@[k] == '.';
                assert(s@[p2 + 1 + k] == '.');
            }
        }
    }
    Some((sec, pay, sig))
}

/// A non-empty, dot-free wire segment.
pub open spec fn seg_wf(s: Seq<char>) -> bool {
    s.len() > 0 && !s.contains('.')
}

/// The view of an optional owned string.
pub open spec fn view_opt_str(o: Option<String>) -> Option<Seq<char>> {
    match o {
        Option::Some(s) => Option::Some(s@),
        Option::None => Option::None,
    }
}

/// Seconds until an expiry timestamp is reached; negative once past it.
pub open spec fn spec_expires_in(expiry: int, now: int) -> int {
    expiry - now
}

/// The payload segment of a token: the Base64URL-encoded JSON document,
/// its decoded bytes, and the claims this library reads from them.  Any
/// document field beyond these stays inside `raw`/`seg` and is carried
/// through a re-encode byte for byte.
#[derive(Debug)]
pub struct Payload {
    /// The Base64URL segment exactly as received.
    pub seg: String,
    /// The decoded JSON document.
    pub raw: Vec<u8>,
    /// The required expiry claim `exp`, in Unix seconds.
    pub expiry: i64,
    /// The required audience claim `aud`.
    pub audience: String,
    /// The issue-time claim `iat`, where present.
    pub issued_at: Option<i64>,
    /// The subject claim `sub`, where present.
    pub subject: Option<String>,
    /// The refresh-audience claim `refresh_aud`, carried by refresh tokens.
    pub refresh_audience: Option<String>,
    /// The limit-type claim `limit_type`, carried by refresh tokens.
    pub limit_type: Option<String>,
}

/// Errors of decoding one payload segment.
#[derive(Debug, Clone, Copy, PartialEq, Eq, Structural)]
pub enum PayloadCreationError {
    /// The segment is not valid Base64URL.
    InvalidBase64,
    /// The decoded bytes are not JSON carrying the required claims.
    InvalidJson,
}

/// The decoded bytes of `seg` parse as JSON carrying the two required
/// claims, an integer `exp` and a string `aud`.
pub open spec fn payload_parses(seg: Seq<char>) -> bool {
    &&& b64url_decode_of(seg) matches Option::Some(raw)
    &&& json_i64_of(b64url_decode_of(seg).unwrap(), "exp"@) is Some
    &&& json_str_of(b64url_decode_of(seg).unwrap(), "aud"@) is Some
}

impl Payload {
    /// The payload is exactly the reading of its own segment.
    pub open spec fn wf(self) -> bool {
        &&& b64url_decode_of(self.seg@) == Option::Some(self.raw@)
        &&& json_i64_of(self.raw@, "exp"@) == Option::Some(self.expiry)
        &&& json_str_of(self.raw@, "aud"@) == Option::Some(self.audience@)
        &&& self.issued_at == json_i64_of(self.raw@, "iat"@)
        &&& view_opt_str(self.subject) == json_str_of(self.raw@, "sub"@)
        &&& view_opt_str(self.refresh_audience) == json_str_of(self.raw@, "refresh_aud"@)
        &&& view_opt_str(self.limit_type) == json_str_of(self.raw@, "limit_type"@)
    }

    /// Decodes one payload segment: Base64URL to bytes, bytes to JSON with
    /// at least the integer claim `exp` and the string claim `aud`; every
    /// other claim is optional and kept in the carried document.
    pub fn from_str(value: &str) -> (r: Result<Payload, PayloadCreationError>)
        ensures
            match r {
                Result::Ok(p) => p.wf() && p.seg@ == value@ && payload_parses(value@),
                Result::Err(PayloadCreationError::InvalidBase64) => b64url_decode_of(value@)
                    is None,
                Result::Err(PayloadCreationError::InvalidJson) => b64url_decode_of(value@)
                    is Some && !payload_parses(value@),
            },
    {
        let raw = match b64url_decode(value) {
            Option::None => {
                return Result::Err(PayloadCreationError::InvalidBase64);
            },
            Option::Some(r) => r,
        };
        let expiry = match json_i64_field(&raw, "exp") {
            Option::None => {
                return Result::Err(PayloadCreationError::InvalidJson);
            },
            Option::Some(e) => e,
        };
        let audience = match json_str_field(&raw, "aud") {
            Option::None => {
                return Result::Err(PayloadCreationError::InvalidJson);
            },
            Option::Some(a) => a,
        };
        let issued_at = json_i64_field(&raw, "iat");
        let subject = json_str_field(&raw, "sub");
        let refresh_audience = json_str_field(&raw, "refresh_aud");
        let limit_type = json_str_field(&raw, "limit_type");
        Result::Ok(
            Payload {
                seg: String::from_str(value),
                raw,
                expiry,
                audience,
                issued_at,
                subject,
                refresh_audience,
                limit_type,
            },
        )
    }

    /// Re-encodes the payload: the segment it was decoded from, unchanged,
    /// so a claim never present is never emitted.
    pub fn encode(&self) -> (r: String)
        ensures
            r@ == self.seg@,
    {
        self.seg.clone()
    }

    /// Seconds until this payload's expiry, from `now`; negative once the
    /// token has lapsed.
    pub fn expires_in(&self, now: i64) -> (r: i64)
        requires
            i64::MIN <= self.expiry - now <= i64::MAX,
        ensures
            r == spec_expires_in(self.expiry as int, now as int),
    {
        self.expiry - now
    }
}

/// Model equality of payloads: the carried document and every claim agree.
pub open spec fn eq_payload(p: Payload, q: Payload) -> bool {
    &&& p.seg@ == q.seg@
    &&& p.raw@ == q.raw@
    &&& p.expiry == q.expiry
    &&& p.audience@ == q.audience@
    &&& p.issued_at == q.issued_at
    &&& view_opt_str(p.subject) == view_opt_str(q.subject)
    &&& view_opt_str(p.refresh_audience) == view_opt_str(q.refresh_audience)
    &&& view_opt_str(p.limit_type) == view_opt_str(q.limit_type)
}

/// The payload of an access token.
pub type AccessPayload = Payload;

/// The payload of a refresh token; it may carry the two refresh-only
/// claims.
pub type RefreshPayload = Payload;

/// Errors of decoding an access token string.
#[derive(Debug, Clone, Copy, PartialEq, Eq, Structural)]
pub enum AccessTokenCreationError {
    /// Not three non-empty dot-separated segments.
    InvalidInput,
    /// The payload segment does not decode.
    InvalidPayload,
}

/// Errors of decoding a refresh token string.
#[derive(Debug, Clone, Copy, PartialEq, Eq, Structural)]
pub enum TokenCreationError {
    /// Not three non-empty dot-separated segments.
    InvalidInput,
    /// The payload segment does not decode.
    InvalidPayload,
}

/// A decoded access token: opaque secret and signature segments around a
/// payload.
#[derive(Debug)]
pub struct AccessToken {
    pub secret: String,
    pub payload: Payload,
    pub signature: String,
}

/// A decoded refresh token, of the same wire shape as an access token; its
/// payload may carry the two refresh-only claims.
#[derive(Debug)]
pub struct RefreshToken {
    pub secret: String,
    pub payload: Payload,
    pub signature: String,
}

/// Model equality of access tokens.
pub open spec fn eq_access_token(t: AccessToken, u: AccessToken) -> bool {
    t.secret@ == u.secret@ && eq_payload(t.payload, u.payload) && t.signature@ == u.signature@
}

/// Model equality of refresh tokens.
pub open spec fn eq_refresh_token(t: RefreshToken, u: RefreshToken) -> bool {
    t.secret@ == u.secret@ && eq_payload(t.payload, u.payload) && t.signature@ == u.signature@
}

impl AccessToken {
    /// All segments non-empty and dot-free, and the payload reads back
    /// from its own segment.
    pub open spec fn wf(self) -> bool {
        &&& self.payload.wf()
        &&& seg_wf(self.secret@)
        &&& seg_wf(self.payload.seg@)
        &&& seg_wf(self.signature@)
    }

    /// The wire form: the three segments joined with dots.
    pub open spec fn spec_encode(self) -> Seq<char> {
        self.secret@ + dot() + self.payload.seg@ + dot() + self.signature@
    }

    /// Decodes a token string: exactly three non-empty dot-separated
    /// segments, whose middle segment decodes as a payload.
    pub fn from_str(value: &str) -> (r: Result<AccessToken, AccessTokenCreationError>)
        ensures
            match r {
                Result::Ok(t) => is_split3(value@, t.secret@, t.payload.seg@, t.signature@)
                    && t.wf(),
                Result::Err(AccessTokenCreationError::InvalidInput) => !has_split3(value@),
                Result::Err(AccessTokenCreationError::InvalidPayload) => exists|
                    a: Seq<char>,
                    b: Seq<char>,
                    c: Seq<char>,
                |
                    is_split3(value@, a, b, c) && !payload_parses(b),
            },
    {
        let (sec, pay, sig) = match split3(value) {
            Option::None => {
                return Result::Err(AccessTokenCreationError::InvalidInput);
            },
            Option::Some(p) => p,
        };
        let payload = match Payload::from_str(pay.as_str()) {
            Result::Err(_) => {
                proof {
                    assert(is_split3(value@, sec@, pay@, sig@) && !payload_parses(pay@));
                }
                return Result::Err(AccessTokenCreationError::InvalidPayload);
            },
            Result::Ok(p) => p,
        };
        Result::Ok(AccessToken { secret: sec, payload, signature: sig })
    }

    /// Re-encodes the token into its wire form.
    pub fn encode(&self) -> (r: String)
        ensures
            r@ == self.spec_encode(),
    {
        proof {
            reveal_strlit(".");
        }
        let mut out = self.secret.clone();
        out.append(".");
        let p = self.payload.encode();
        out.append(p.as_str());
        out.append(".");
        out.append(self.signature.as_str());
        proof {
            assert(out@ =~= self.spec_encode());
        }
        out
    }

    /// Seconds until this token's expiry, from `now`.
    pub fn expires_in(&self, now: i64) -> (r: i64)
        requires
            i64::MIN <= self.payload.expiry - now <= i64::MAX,
        ensures
            r == spec_expires_in(self.payload.expiry as int, now as int),
    {
        self.payload.expires_in(now)
    }
}

impl RefreshToken {
    /// All segments non-empty and dot-free, and the payload reads back
    /// from its own segment.
    pub open spec fn wf(self) -> bool {
        &&& self.payload.wf()
        &&& seg_wf(self.secret@)
        &&& seg_wf(self.payload.seg@)
        &&& seg_wf(self.signature@)
    }

    /// The wire form: the three segments joined with dots.
    pub open spec fn spec_encode(self) -> Seq<char> {
        self.secret@ + dot() + self.payload.seg@ + dot() + self.signature@
    }

    /// Decodes a refresh token string, of the same shape as an access
    /// token.
    pub fn from_str(value: &str) -> (r: Result<RefreshToken, TokenCreationError>)
        ensures
            match r {
                Result::Ok(t) => is_split3(value@, t.secret@, t.payload.seg@, t.signature@)
                    && t.wf(),
                Result::Err(TokenCreationError::InvalidInput) => !has_split3(value@),
                Result::Err(TokenCreationError::InvalidPayload) => exists|
                    a: Seq<char>,
                    b: Seq<char>,
                    c: Seq<char>,
                |
                    is_split3(value@, a, b, c) && !payload_parses(b),
            },
    {
        let (sec, pay, sig) = match split3(value) {
            Option::None => {
                return Result::Err(TokenCreationError::InvalidInput);
            },
            Option::Some(p) => p,
        };
        let payload = match Payload::from_str(pay.as_str()) {
            Result::Err(_) => {
                proof {
                    assert(is_split3(value@, sec@, pay@, sig@) && !payload_parses(pay@));
                }
                return Result::Err(TokenCreationError::InvalidPayload);
            },
            Result::Ok(p) => p,
        };
        Result::Ok(RefreshToken { secret: sec, payload, signature: sig })
    }

    /// Re-encodes the token into its wire form.
    pub fn encode(&self) -> (r: String)
        ensures
            r@ == self.spec_encode(),
    {
        proof {
            reveal_strlit(".");
        }
        let mut out = self.secret.clone();
        out.append(".");
        let p = self.payload.encode();
        out.append(p.as_str());
        out.append(".");
        out.append(self.signature.as_str());
        proof {
            assert(out@ =~= self.spec_encode());
        }
        out
    }

    /// Seconds until this token's expiry, from `now`.
    pub fn expires_in(&self, now: i64) -> (r: i64)
        requires
            i64::MIN <= self.payload.expiry - now <= i64::MAX,
        ensures
            r == spec_expires_in(self.payload.expiry as int, now as int),
    {
        self.payload.expires_in(now)
    }
}

/// Encoding a well-formed token yields a string that decodes again: it has
/// a three-part reading, and every reading's payload segment parses.
pub proof fn lemma_encode_decodes(t: AccessToken)
    requires
        t.wf(),
    ensures
        has_split3(t.spec_encode()),
        forall|a: Seq<char>, b: Seq<char>, c: Seq<char>|
            is_split3(t.spec_encode(), a, b, c) ==> payload_parses(b),
{
    assert(is_split3(t.spec_encode(), t.secret@, t.payload.seg@, t.signature@));
    assert(payload_parses(t.payload.seg@));
    assert forall|a: Seq<char>, b: Seq<char>, c: Seq<char>|
        is_split3(t.spec_encode(), a, b, c) implies payload_parses(b) by {
        lemma_split3_unique(
            t.spec_encode(),
            a,
            b,
            c,
            t.secret@,
            t.payload.seg@,
            t.signature@,
        );
    }
}

/// Round trip, decode after encode: any well-formed reading of
/// `encode(t)` equals `t`, claim for claim and byte for byte — the claims
/// unknown to this library included, since the carried document bytes
/// themselves agree.  Together with `from_str`'s contract this pins
/// `from_str(encode(t))` to a token model-equal to `t`.
pub proof fn lemma_round_trip(t: AccessToken, u: AccessToken)
    requires
        t.wf(),
        is_split3(t.spec_encode(), u.secret@, u.payload.seg@, u.signature@),
        u.payload.wf(),
    ensures
        eq_access_token(t, u),
{
    lemma_split3_unique(
        t.spec_encode(),
        u.secret@,
        u.payload.seg@,
        u.signature@,
        t.secret@,
        t.payload.seg@,
        t.signature@,
    );
}

/// As `lemma_encode_decodes`, for refresh tokens.
pub proof fn lemma_refresh_encode_decodes(t: RefreshToken)
    requires
        t.wf(),
    ensures
        has_split3(t.spec_encode()),
        forall|a: Seq<char>, b: Seq<char>, c: Seq<char>|
            is_split3(t.spec_encode(), a, b, c) ==> payload_parses(b),
{
    assert(is_split3(t.spec_encode(), t.secret@, t.payload.seg@, t.signature@));
    assert(payload_parses(t.payload.seg@));
    assert forall|a: Seq<char>, b: Seq<char>, c: Seq<char>|
        is_split3(t.spec_encode(), a, b, c) implies payload_parses(b) by {
        lemma_split3_unique(
            t.spec_encode(),
            a,
            b,
            c,
            t.secret@,
            t.payload.seg@,
            t.signature@,
        );
    }
}

/// As `lemma_round_trip`, for refresh tokens.
pub proof fn lemma_refresh_round_trip(t: RefreshToken, u: RefreshToken)
    requires
        t.wf(),
        is_split3(t.spec_encode(), u.secret@, u.payload.seg@, u.signature@),
        u.payload.wf(),
    ensures
        eq_refresh_token(t, u),
{
    lemma_split3_unique(
        t.spec_encode(),
        u.secret@,
        u.payload.seg@,
        u.signature@,
        t.secret@,
        t.payload.seg@,
        t.signature@,
    );
}

/// Decode then encode is the identity on well-formed wire strings: a token
/// whose segments read out of `s` re-encodes to exactly `s`.
pub proof fn lemma_decode_encode_identity(s: Seq<char>, t: AccessToken)
    requires
        is_split3(s, t.secret@, t.payload.seg@, t.signature@),
    ensures
        t.spec_encode() == s,
{
}

/// Expiry monotonicity: for a fixed payload, the seconds left until
/// expiry strictly decrease as now advances.
pub proof fn lemma_expires_in_monotonic(p: Payload, now1: int, now2: int)
    requires
        now1 < now2,
    ensures
        spec_expires_in(p.expiry as int, now2) < spec_expires_in(p.expiry as int, now1),
{
}

} // verus!
