use vstd::prelude::*;

verus! {

use vstd::string::StrSliceExecFns;
use vstd::string::StringExecFns;
use crate::conf::Config;
use crate::conf::Keys;
use crate::util::time::parse_utc;
use crate::util::time::plus_sec_str;
use crate::util::time::rfc3339_of;
use crate::util::time::rfc3339_parse_of;
use crate::util::time::rfc3339_representable;
use super::b64;
use super::b64::b64_of;
use super::b64::b64_of_str;
use super::b64::is_b64url_seq;
use super::error::Error;
use super::key_can_sign;
use super::rsa_verifies;
use super::sig_parseable;
use super::sign_content;

/// Whether a token authorizes direct API calls (access) or is redeemed,
/// once, for a new token pair (refresh). The kind is carried as a tag inside
/// the signed identifier segment, so it cannot be altered without
/// invalidating the signature.
#[derive(Clone, Copy, Debug, PartialEq, Eq, Structural)]
pub enum TokenKind {
    Access,
    Refresh,
}

/// A bearer token: an identifier, an RFC 3339 UTC expiration, and a
/// base64url-encoded signature over the other two fields. Tokens are
/// immutable once issued; a refresh produces a brand-new token.
#[derive(Clone, Debug)]
pub struct Token {
    pub kind: TokenKind,
    pub identifier: String,
    pub expiration: String,
    pub signature: String,
}

/// The tag prepended to the identifier before it is encoded and signed.
pub open spec fn kind_tag(kind: TokenKind) -> Seq<char> {
    match kind {
        TokenKind::Access => "user-"@,
        TokenKind::Refresh => "ref-"@,
    }
}

pub open spec fn tagged_identifier(kind: TokenKind, identifier: Seq<char>) -> Seq<char> {
    kind_tag(kind) + identifier
}

/// The first wire segment: base64url of the tagged identifier.
pub open spec fn id_segment(kind: TokenKind, identifier: Seq<char>) -> Seq<char> {
    b64_of_str(tagged_identifier(kind, identifier))
}

/// The second wire segment: base64url of the expiration string.
pub open spec fn exp_segment(expiration: Seq<char>) -> Seq<char> {
    b64_of_str(expiration)
}

/// What the keypair signs: the first two wire segments joined by a dot.
pub open spec fn signed_content(kind: TokenKind, identifier: Seq<char>, expiration: Seq<
    char,
>) -> Seq<char> {
    id_segment(kind, identifier) + seq!['.'] + exp_segment(expiration)
}

/// The serialized token: signed content, a dot, and the signature segment.
pub open spec fn wire(
    kind: TokenKind,
    identifier: Seq<char>,
    expiration: Seq<char>,
    signature: Seq<char>,
) -> Seq<char> {
    signed_content(kind, identifier, expiration) + seq!['.'] + signature
}

pub open spec fn dotfree(s: Seq<char>) -> bool {
    forall|i: int| 0 <= i < s.len() ==> #[trigger] s[i] != '.'
}

/// The wire segments of a token never contain the separator; base64url
/// segments never do, and a signature segment produced by the issuer is
/// base64url as well.
pub open spec fn wire_parts_ok(
    kind: TokenKind,
    identifier: Seq<char>,
    expiration: Seq<char>,
    signature: Seq<char>,
) -> bool {
    dotfree(id_segment(kind, identifier)) && dotfree(exp_segment(expiration)) && dotfree(signature)
}

/// Whether some token serializes to `s`.
pub open spec fn wellformed_wire(s: Seq<char>) -> bool {
    exists|k: TokenKind, i: Seq<char>, e: Seq<char>, g: Seq<char>|
        wire_parts_ok(k, i, e, g) && s == #[trigger] wire(k, i, e, g)
}

/// How many separator dots a string holds.
pub closed spec fn count_dots(s: Seq<char>) -> nat
    decreases s.len(),
{
    if s.len() == 0 {
        0
    } else {
        count_dots(s.drop_last()) + if s.last() == '.' {
            1nat
        } else {
            0nat
        }
    }
}

proof fn lemma_count_dots_push(s: Seq<char>, c: char)
    ensures
        count_dots(s.push(c)) == count_dots(s) + if c == '.' {
            1nat
        } else {
            0nat
        },
{
    assert(s.push(c).drop_last() =~= s);
    assert(s.push(c).last() == c);
}

proof fn lemma_count_dots_concat(x: Seq<char>, y: Seq<char>)
    ensures
        count_dots(x + y) == count_dots(x) + count_dots(y),
    decreases y.len(),
{
    if y.len() == 0 {
        assert(x + y =~= x);
    } else {
        lemma_count_dots_concat(x, y.drop_last());
        assert((x + y).drop_last() =~= x + y.drop_last());
        assert((x + y).last() == y.last());
    }
}

proof fn lemma_count_dots_dotfree(x: Seq<char>)
    requires
        dotfree(x),
    ensures
        count_dots(x) == 0,
    decreases x.len(),
{
    if x.len() > 0 {
        assert(dotfree(x.drop_last()));
        lemma_count_dots_dotfree(x.drop_last());
    }
}

/// A string splits into three dot-free parts around two dots in only one way.
proof fn lemma_split3_unique(
    a1: Seq<char>,
    b1: Seq<char>,
    c1: Seq<char>,
    a2: Seq<char>,
    b2: Seq<char>,
    c2: Seq<char>,
)
    requires
        dotfree(a1),
        dotfree(b1),
        dotfree(c1),
        dotfree(a2),
        dotfree(b2),
        dotfree(c2),
        a1 + seq!['.'] + b1 + seq!['.'] + c1 == a2 + seq!['.'] + b2 + seq!['.'] + c2,
    ensures
        a1 == a2,
        b1 == b2,
        c1 == c2,
{
    let s = a1 + seq!['.'] + b1 + seq!['.'] + c1;
    assert(s[a1.len() as int] == '.');
    assert(s[a2.len() as int] == '.');
    // both a1.len() and a2.len() are the least dot position
    if a1.len() < a2.len() {
        assert(s[a1.len() as int] == a2[a1.len() as int]);
        assert(false);
    }
    if a2.len() < a1.len() {
        assert(s[a2.len() as int] == a1[a2.len() as int]);
        assert(false);
    }
    assert forall|j: int| 0 <= j < a1.len() implies a1[j] == a2[j] by {
        assert(s[j] == a1[j]);
        assert(s[j] == a2[j]);
    }
    assert(a1 =~= a2);
    let d1 = a1.len() as int;
    assert(s[d1 + 1 + b1.len()] == '.');
    assert(s[d1 + 1 + b2.len()] == '.');
    if b1.len() < b2.len() {
        assert(s[d1 + 1 + b1.len()] == b2[b1.len() as int]);
        assert(false);
    }
    if b2.len() < b1.len() {
        assert(s[d1 + 1 + b2.len()] == b1[b2.len() as int]);
        assert(false);
    }
    assert forall|j: int| 0 <= j < b1.len() implies b1[j] == b2[j] by {
        assert(s[d1 + 1 + j] == b1[j]);
        assert(s[d1 + 1 + j] == b2[j]);
    }
    assert(b1 =~= b2);
    assert(s.len() == a1.len() + 1 + b1.len() + 1 + c1.len());
    assert((a2 + seq!['.'] + b2 + seq!['.'] + c2).len() == a2.len() + 1 + b2.len() + 1 + c2.len());
    assert(c1.len() == c2.len());
    let d2 = d1 + 1 + b1.len();
    assert forall|j: int| 0 <= j < c1.len() implies c1[j] == c2[j] by {
        assert(s[d2 + 1 + j] == c1[j]);
        assert(s[d2 + 1 + j] == c2[j]);
    }
    assert(c1 =~= c2);
}

/// Splits a string into exactly three segments around exactly two dots.
fn split3(s: &str) -> (r: Option<(String, String, String)>)
    ensures
        r is Some <==> count_dots(s@) == 2,
        r matches Some(t) ==> dotfree(t.0@) && dotfree(t.1@) && dotfree(t.2@) && s@ == t.0@
            + seq!['.'] + t.1@ + seq!['.'] + t.2@,
{
    let len = s.unicode_len();
    let mut i: usize = 0;
    let mut ndots: usize = 0;
    let mut d1: usize = 0;
    let mut d2: usize = 0;
    while i < len
        invariant
            0 <= i <= len,
            len == s@.len(),
            ndots <= i,
            ndots == count_dots(s@.take(i as int)),
            ndots == 0 ==> forall|j: int| 0 <= j < i ==> #[trigger] s@[j] != '.',
            ndots >= 1 ==> 0 <= d1 < i && s@[d1 as int] == '.' && (forall|j: int|
                0 <= j < d1 ==> #[trigger] s@[j] != '.'),
            ndots == 1 ==> forall|j: int| d1 < j < i ==> #[trigger] s@[j] != '.',
            ndots >= 2 ==> d1 < d2 < i && s@[d2 as int] == '.' && (forall|j: int|
                d1 < j < d2 ==> #[trigger] s@[j] != '.'),
            ndots == 2 ==> forall|j: int| d2 < j < i ==> #[trigger] s@[j] != '.',
        decreases len - i,
    {
        let c = s.get_char(i);
        proof {
            lemma_count_dots_push(s@.take(i as int), s@[i as int]);
            assert(s@.take(i as int).push(s@[i as int]) =~= s@.take(i + 1));
        }
        if c == '.' {
            if ndots == 0 {
                d1 = i;
            } else if ndots == 1 {
                d2 = i;
            }
            ndots = ndots + 1;
        }
        i = i + 1;
    }
    proof {
        assert(s@.take(len as int) =~= s@);
    }
    if ndots != 2 {
        return None;
    }
    let a = s.substring_char(0, d1).to_owned();
    let b = s.substring_char(d1 + 1, d2).to_owned();
    let c = s.substring_char(d2 + 1, len).to_owned();
    proof {
        assert(s@ =~= a@ + seq!['.'] + b@ + seq!['.'] + c@);
    }
    Some((a, b, c))
}

/// Two dot-free parts joined by a dot decompose in only one way.
proof fn lemma_split2_unique(a1: Seq<char>, b1: Seq<char>, a2: Seq<char>, b2: Seq<char>)
    requires
        dotfree(a1),
        dotfree(b1),
        dotfree(a2),
        dotfree(b2),
        a1 + seq!['.'] + b1 == a2 + seq!['.'] + b2,
    ensures
        a1 == a2,
        b1 == b2,
{
    let s = a1 + seq!['.'] + b1;
    assert(s[a1.len() as int] == '.');
    assert(s[a2.len() as int] == '.');
    if a1.len() < a2.len() {
        assert(s[a1.len() as int] == a2[a1.len() as int]);
        assert(false);
    }
    if a2.len() < a1.len() {
        assert(s[a2.len() as int] == a1[a2.len() as int]);
        assert(false);
    }
    assert forall|j: int| 0 <= j < a1.len() implies a1[j] == a2[j] by {
        assert(s[j] == a1[j]);
        assert(s[j] == a2[j]);
    }
    assert(a1 =~= a2);
    assert(s.len() == a1.len() + 1 + b1.len());
    assert((a2 + seq!['.'] + b2).len() == a2.len() + 1 + b2.len());
    assert forall|j: int| 0 <= j < b1.len() implies b1[j] == b2[j] by {
        assert(s[a1.len() + 1 + j] == b1[j]);
        assert(s[a1.len() + 1 + j] == b2[j]);
    }
    assert(b1 =~= b2);
}

/// The kind tags are not prefixes of one another, so tagging is injective.
proof fn lemma_tagged_injective(k1: TokenKind, i1: Seq<char>, k2: TokenKind, i2: Seq<char>)
    requires
        tagged_identifier(k1, i1) == tagged_identifier(k2, i2),
    ensures
        k1 == k2,
        i1 == i2,
{
    reveal_strlit("user-");
    reveal_strlit("ref-");
    let t = tagged_identifier(k1, i1);
    if k1 != k2 {
        assert(t[0] == kind_tag(k1)[0]);
        assert(t[0] == kind_tag(k2)[0]);
        assert(false);
    }
    assert(kind_tag(k1).len() == kind_tag(k2).len());
    assert(t.len() == kind_tag(k1).len() + i1.len());
    assert((kind_tag(k2) + i2).len() == kind_tag(k2).len() + i2.len());
    assert(i1.len() == i2.len());
    assert forall|j: int| 0 <= j < i1.len() implies i1[j] == i2[j] by {
        assert(t[kind_tag(k1).len() + j] == i1[j]);
        assert(t[kind_tag(k1).len() + j] == i2[j]);
    }
    assert(i1 =~= i2);
}

/// Character-wise string equality.
pub(crate) fn str_eq(a: &str, b: &str) -> (r: bool)
    ensures
        r == (a@ == b@),
{
    let alen = a.unicode_len();
    let blen = b.unicode_len();
    if alen != blen {
        return false;
    }
    let mut i: usize = 0;
    while i < alen
        invariant
            0 <= i <= alen,
            alen == a@.len(),
            alen == b@.len(),
            forall|j: int| 0 <= j < i ==> a@[j] == b@[j],
        decreases alen - i,
    {
        if a.get_char(i) != b.get_char(i) {
            return false;
        }
        i = i + 1;
    }
    proof {
        assert(a@ =~= b@);
    }
    true
}

/// The kind tag in its executable form.
fn tag_string(kind: TokenKind) -> (r: String)
    ensures
        r@ == kind_tag(kind),
{
    match kind {
        TokenKind::Access => "user-".to_owned(),
        TokenKind::Refresh => "ref-".to_owned(),
    }
}

/// Recovers the kind tag and the identifier from a decoded first segment.
fn untag(s: &str) -> (r: Option<(TokenKind, String)>)
    ensures
        r matches Some(p) ==> tagged_identifier(p.0, p.1@) == s@,
        r is None ==> forall|k: TokenKind, i: Seq<char>| tagged_identifier(k, i) != s@,
{
    proof {
        reveal_strlit("user-");
        reveal_strlit("ref-");
    }
    let len = s.unicode_len();
    if len >= 5 && str_eq(s.substring_char(0, 5), "user-") {
        let rest = s.substring_char(5, len).to_owned();
        proof {
            assert(tagged_identifier(TokenKind::Access, rest@) =~= s@);
        }
        return Some((TokenKind::Access, rest));
    }
    if len >= 4 && str_eq(s.substring_char(0, 4), "ref-") {
        let rest = s.substring_char(4, len).to_owned();
        proof {
            assert(tagged_identifier(TokenKind::Refresh, rest@) =~= s@);
        }
        return Some((TokenKind::Refresh, rest));
    }
    assert forall|k: TokenKind, i: Seq<char>| tagged_identifier(k, i) != s@ by {
        if tagged_identifier(k, i) == s@ {
            match k {
                TokenKind::Access => {
                    assert(s@.len() >= 5);
                    assert(s@.subrange(0, 5) =~= "user-"@);
                },
                TokenKind::Refresh => {
                    assert(s@.len() >= 4);
                    assert(s@.subrange(0, 4) =~= "ref-"@);
                },
            }
        }
    }
    None
}

/// Builds the content a token's signature covers: the base64url identifier
/// and expiration segments joined by a dot.
///
/// The signed content binds all three signed fields: two field triples give
/// the same content only if they are equal, so any change to the kind, the
/// identifier or the expiration of a token changes what its signature must
/// cover.
pub fn content_of_parts(kind: TokenKind, identifier: &str, expiration: &str) -> (r: String)
    ensures
        r@ == signed_content(kind, identifier@, expiration@),
        dotfree(id_segment(kind, identifier@)),
        dotfree(exp_segment(expiration@)),
        forall|k2: TokenKind, i2: Seq<char>, e2: Seq<char>|
            dotfree(id_segment(k2, i2)) && dotfree(exp_segment(e2)) && #[trigger] signed_content(
                k2,
                i2,
                e2,
            ) == r@ ==> k2 == kind && i2 == identifier@ && e2 == expiration@,
{
    broadcast use vstd::utf8::encode_utf8_decode_utf8;

    let mut tagged = tag_string(kind);
    tagged.append(identifier);
    proof {
        assert(tagged@ == tagged_identifier(kind, identifier@));
    }
    let seg1 = b64::encode_str(tagged.as_str());
    let seg2 = b64::encode_str(expiration);
    let ghost g1: Seq<char> = seg1@;
    let ghost g2: Seq<char> = seg2@;
    let mut out = seg1;
    out.append(".");
    out.append(seg2.as_str());
    proof {
        reveal_strlit(".");
        assert("."@ =~= seq!['.']);
        assert(out@ =~= signed_content(kind, identifier@, expiration@));
        lemma_b64url_dotfree(g1);
        lemma_b64url_dotfree(g2);
    }
    assert forall|k2: TokenKind, i2: Seq<char>, e2: Seq<char>|
        dotfree(id_segment(k2, i2)) && dotfree(exp_segment(e2)) && #[trigger] signed_content(
            k2,
            i2,
            e2,
        ) == out@ implies k2 == kind && i2 == identifier@ && e2 == expiration@ by {
        lemma_split2_unique(id_segment(k2, i2), exp_segment(e2), g1, g2);
        assert(vstd::utf8::encode_utf8(tagged_identifier(k2, i2)) =~= vstd::utf8::encode_utf8(
            tagged@,
        ));
        assert(vstd::utf8::decode_utf8(vstd::utf8::encode_utf8(tagged_identifier(k2, i2)))
            == tagged_identifier(k2, i2));
        lemma_tagged_injective(k2, i2, kind, identifier@);
        assert(vstd::utf8::encode_utf8(e2) =~= vstd::utf8::encode_utf8(expiration@));
        assert(vstd::utf8::decode_utf8(vstd::utf8::encode_utf8(e2)) == e2);
    }
    out
}

/// Base64url output never contains the dot separator.
proof fn lemma_b64url_dotfree(s: Seq<char>)
    requires
        is_b64url_seq(s),
    ensures
        dotfree(s),
{
    assert forall|i: int| 0 <= i < s.len() implies #[trigger] s[i] != '.' by {
        assert(b64::is_b64url_char(s[i]));
    }
}

/// A serialized token holds exactly two dots.
proof fn lemma_wire_count(k: TokenKind, i: Seq<char>, e: Seq<char>, g: Seq<char>)
    requires
        wire_parts_ok(k, i, e, g),
    ensures
        count_dots(wire(k, i, e, g)) == 2,
{
    let dot = seq!['.'];
    assert(dot.drop_last() =~= Seq::<char>::empty());
    assert(count_dots(Seq::<char>::empty()) == 0);
    assert(count_dots(dot) == 1);
    lemma_count_dots_dotfree(id_segment(k, i));
    lemma_count_dots_dotfree(exp_segment(e));
    lemma_count_dots_dotfree(g);
    lemma_count_dots_concat(id_segment(k, i), dot);
    lemma_count_dots_concat(id_segment(k, i) + dot, exp_segment(e));
    lemma_count_dots_concat(id_segment(k, i) + dot + exp_segment(e), dot);
    lemma_count_dots_concat(id_segment(k, i) + dot + exp_segment(e) + dot, g);
}

impl Token {
    /// Serializes the token into its dot-joined three-segment wire form:
    /// base64url of the tagged identifier, base64url of the expiration, and
    /// the signature segment as it stands.
    pub fn to_string(&self) -> (r: String)
        ensures
            r@ == wire(self.kind, self.identifier@, self.expiration@, self.signature@),
            dotfree(id_segment(self.kind, self.identifier@)),
            dotfree(exp_segment(self.expiration@)),
    {
        let mut out = content_of_parts(
            self.kind,
            self.identifier.as_str(),
            self.expiration.as_str(),
        );
        out.append(".");
        out.append(self.signature.as_str());
        proof {
            reveal_strlit(".");
            assert("."@ =~= seq!['.']);
            assert(out@ =~= wire(self.kind, self.identifier@, self.expiration@, self.signature@));
        }
        out
    }

    /// Splits a token string on `.` into its three segments and decodes the
    /// first two; the signature segment is kept in its base64url form and
    /// decoded only at validation time. Fails with
    /// [`Error::TokenInvalidFormat`] unless there are exactly three
    /// segments and the first carries a kind tag, and with
    /// [`Error::DecodingError`] where a segment does not decode to UTF-8.
    pub fn parse(token_str: &str) -> (r: Result<Token, Error>)
        ensures
            r matches Ok(t) ==> token_str@ == wire(t.kind, t.identifier@, t.expiration@,
                t.signature@) && wire_parts_ok(t.kind, t.identifier@, t.expiration@, t.signature@),
            r matches Ok(t) ==> forall|
                k: TokenKind,
                i: Seq<char>,
                e: Seq<char>,
                g: Seq<char>,
            |
                wire_parts_ok(k, i, e, g) && #[trigger] wire(k, i, e, g) == token_str@ ==> k
                    == t.kind && i == t.identifier@ && e == t.expiration@ && g == t.signature@,
            r is Err ==> !wellformed_wire(token_str@),
            r is Err ==> r->Err_0 == Error::TokenInvalidFormat || r->Err_0
                == Error::DecodingError,
            r is Err && count_dots(token_str@) != 2 ==> r->Err_0 == Error::TokenInvalidFormat,
            r is Err && r->Err_0 == Error::DecodingError ==> count_dots(token_str@) == 2,
    {
        broadcast use vstd::utf8::encode_utf8_decode_utf8;

        let parts = match split3(token_str) {
            None => {
                assert(!wellformed_wire(token_str@)) by {
                    if wellformed_wire(token_str@) {
                        let (k, i, e, g) = choose|
                            k: TokenKind,
                            i: Seq<char>,
                            e: Seq<char>,
                            g: Seq<char>,
                        | wire_parts_ok(k, i, e, g) && token_str@ == #[trigger] wire(k, i, e, g);
                        lemma_wire_count(k, i, e, g);
                    }
                }
                return Err(Error::TokenInvalidFormat);
            },
            Some(p) => p,
        };
        let (a, b, c) = parts;
        let tagged = match b64::decode_to_string(a.as_str()) {
            Ok(t) => t,
            Err(e) => {
                assert(!wellformed_wire(token_str@)) by {
                    if wellformed_wire(token_str@) {
                        let (k, i, e2, g) = choose|
                            k: TokenKind,
                            i: Seq<char>,
                            e2: Seq<char>,
                            g: Seq<char>,
                        | wire_parts_ok(k, i, e2, g) && token_str@ == #[trigger] wire(k, i, e2, g);
                        lemma_split3_unique(
                            id_segment(k, i),
                            exp_segment(e2),
                            g,
                            a@,
                            b@,
                            c@,
                        );
                        assert(b64_of_str(tagged_identifier(k, i)) == a@);
                    }
                }
                return Err(e);
            },
        };
        let expiration = match b64::decode_to_string(b.as_str()) {
            Ok(t) => t,
            Err(e) => {
                assert(!wellformed_wire(token_str@)) by {
                    if wellformed_wire(token_str@) {
                        let (k, i, e2, g) = choose|
                            k: TokenKind,
                            i: Seq<char>,
                            e2: Seq<char>,
                            g: Seq<char>,
                        | wire_parts_ok(k, i, e2, g) && token_str@ == #[trigger] wire(k, i, e2, g);
                        lemma_split3_unique(
                            id_segment(k, i),
                            exp_segment(e2),
                            g,
                            a@,
                            b@,
                            c@,
                        );
                        assert(b64_of_str(e2) == b@);
                    }
                }
                return Err(e);
            },
        };
        let (kind, identifier) = match untag(tagged.as_str()) {
            Some(p) => p,
            None => {
                assert(!wellformed_wire(token_str@)) by {
                    if wellformed_wire(token_str@) {
                        let (k, i, e2, g) = choose|
                            k: TokenKind,
                            i: Seq<char>,
                            e2: Seq<char>,
                            g: Seq<char>,
                        | wire_parts_ok(k, i, e2, g) && token_str@ == #[trigger] wire(k, i, e2, g);
                        lemma_split3_unique(
                            id_segment(k, i),
                            exp_segment(e2),
                            g,
                            a@,
                            b@,
                            c@,
                        );
                        assert(b64_of_str(tagged_identifier(k, i)) == a@);
                        assert(tagged_identifier(k, i) =~= tagged@);
                    }
                }
                return Err(Error::TokenInvalidFormat);
            },
        };
        let token = Token { kind, identifier, expiration, signature: c };
        proof {
            assert(id_segment(token.kind, token.identifier@) == a@);
            assert(exp_segment(token.expiration@) == b@);
            assert(token_str@ == wire(token.kind, token.identifier@, token.expiration@,
                token.signature@));
        }
        assert forall|k: TokenKind, i: Seq<char>, e: Seq<char>, g: Seq<char>|
            wire_parts_ok(k, i, e, g) && #[trigger] wire(k, i, e, g) == token_str@ implies k
            == token.kind && i == token.identifier@ && e == token.expiration@ && g
            == token.signature@ by {
            lemma_split3_unique(id_segment(k, i), exp_segment(e), g, a@, b@, c@);
            assert(b64_of_str(tagged_identifier(k, i)) == a@);
            assert(tagged_identifier(k, i) =~= tagged@);
            lemma_tagged_injective(k, i, token.kind, token.identifier@);
            assert(b64_of_str(e) == b@);
            assert(e =~= token.expiration@);
        }
        Ok(token)
    }
}

/// Whether `signature` is the base64url form of signature bytes that the
/// scheme parses and that verify over the token's signed content under the
/// keypair `key`.
pub open spec fn token_signature_ok(
    key: Seq<char>,
    kind: TokenKind,
    identifier: Seq<char>,
    expiration: Seq<char>,
    signature: Seq<char>,
) -> bool {
    exists|sb: Seq<u8>|
        b64_of(sb) == signature && sig_parseable(sb) && rsa_verifies(
            key,
            signed_content(kind, identifier, expiration),
            sb,
        )
}

/// What validating a token returns, as a function of its fields, the
/// keypair and the clock reading. The signature is checked before the
/// expiration, so a forged token learns nothing about expiry handling.
pub open spec fn spec_validate(
    key: Seq<char>,
    kind: TokenKind,
    identifier: Seq<char>,
    expiration: Seq<char>,
    signature: Seq<char>,
    now: int,
) -> Result<(), Error> {
    if !(exists|sb: Seq<u8>| b64_of(sb) == signature && sig_parseable(sb)) {
        Err(Error::SignParsingFailed)
    } else if !token_signature_ok(key, kind, identifier, expiration, signature) {
        Err(Error::InvalidTokenSignature)
    } else {
        match rfc3339_parse_of(expiration) {
            Option::None => Err(Error::FailedToGetTime),
            Option::Some(t) => if t <= now {
                Err(Error::ExpiredTokenError)
            } else {
                Ok(())
            },
        }
    }
}

/// The 8-4-4-4-12 hyphenated, lowercase-hex shape of a rendered UUID.
pub open spec fn is_uuid_hyphenated(s: Seq<char>) -> bool {
    s.len() == 36 && forall|i: int|
        0 <= i < 36 ==> (if i == 8 || i == 13 || i == 18 || i == 23 {
            #[trigger] s[i] == '-'
        } else {
            ('0' <= s[i] && s[i] <= '9') || ('a' <= s[i] && s[i] <= 'f')
        })
}

/// Relies on uuid's `Uuid::new_v4` and its hyphenated rendering: a fresh
/// random 128-bit opaque identifier in the 36-character hyphenated
/// lowercase-hex form. Nothing is assumed of the drawn value itself.
#[verifier::external_body]
fn gen_uuid_string() -> (r: String)
    ensures
        is_uuid_hyphenated(r@),
{
    uuid::Uuid::new_v4().to_string()
}

/// The error an issuing call surfaces: a time failure where the expiry
/// cannot be rendered, else the scheme's refusal to sign.
pub open spec fn spec_issue_error(expiry: int) -> Error {
    if !rfc3339_representable(expiry) {
        Error::FailedToGetTime
    } else {
        Error::SigningFailed
    }
}

/// The error issuing a pair surfaces, following the order of the two
/// issuing calls: the access token is stamped and signed first.
pub open spec fn spec_pair_issue_error(key: Seq<char>, config: Config, now: int) -> Error {
    if !rfc3339_representable(now + config.access_token_duration_secs) {
        Error::FailedToGetTime
    } else if !key_can_sign(key) {
        Error::SigningFailed
    } else {
        spec_issue_error(now + config.refresh_token_duration_secs)
    }
}

impl Token {
    /// Validates the token against the keypair and the clock reading `now`:
    /// the signature is recomputed over the current field values — never
    /// trusted from the wire — and checked first; only then is the
    /// expiration parsed and compared. A token whose expiration equals
    /// `now`, or lies before it, is expired.
    pub fn validate(&self, keys: &Keys, now: i64) -> (r: Result<(), Error>)
        ensures
            r == spec_validate(
                keys.id(),
                self.kind,
                self.identifier@,
                self.expiration@,
                self.signature@,
                now as int,
            ),
            r is Ok <==> token_signature_ok(
                keys.id(),
                self.kind,
                self.identifier@,
                self.expiration@,
                self.signature@,
            ) && (match rfc3339_parse_of(self.expiration@) {
                Option::Some(t) => t > now,
                Option::None => false,
            }),
    {
        let content = content_of_parts(
            self.kind,
            self.identifier.as_str(),
            self.expiration.as_str(),
        );
        let signature = match b64::decode(self.signature.as_str()) {
            Ok(v) => v,
            Err(_) => {
                assert forall|sb: Seq<u8>| b64_of(sb) != self.signature@ by {
                    if b64_of(sb) == self.signature@ {
                        assert(exists|b: Seq<u8>| b64_of(b) == self.signature@);
                    }
                }
                return Err(Error::SignParsingFailed);
            },
        };
        if !super::signature_parses(signature.as_slice()) {
            assert forall|sb: Seq<u8>|
                b64_of(sb) == self.signature@ implies !sig_parseable(sb) by {
                assert(sb =~= signature@);
            }
            return Err(Error::SignParsingFailed);
        }
        proof {
            let chosen = choose|sb: Seq<u8>| b64_of(sb) == self.signature@ && sig_parseable(sb);
            assert(chosen =~= signature@);
        }
        if !super::rsa_verify(keys, content.as_str(), signature.as_slice()) {
            assert forall|sb: Seq<u8>|
                b64_of(sb) == self.signature@ && sig_parseable(sb) implies !rsa_verifies(
                keys.id(),
                signed_content(self.kind, self.identifier@, self.expiration@),
                sb,
            ) by {
                assert(sb =~= signature@);
            }
            return Err(Error::InvalidTokenSignature);
        }
        let expiration_time = match parse_utc(self.expiration.as_str()) {
            Ok(t) => t,
            Err(_) => {
                return Err(Error::FailedToGetTime);
            },
        };
        if expiration_time <= now {
            return Err(Error::ExpiredTokenError);
        }
        Ok(())
    }

    /// Builds, stamps and signs a token of the given kind. A failure to
    /// render the expiry or to sign is surfaced to the issuing call, never
    /// retried and never a panic.
    fn new(identifier: &str, kind: TokenKind, duration_secs: u64, keys: &Keys, now: i64) -> (r:
        Result<Token, Error>)
        ensures
            r is Ok <==> rfc3339_representable(now + duration_secs) && key_can_sign(keys.id()),
            r matches Ok(t) ==> {
                &&& t.kind == kind
                &&& t.identifier@ == identifier@
                &&& t.expiration@ == rfc3339_of(now + duration_secs)
                &&& rfc3339_parse_of(t.expiration@) == Option::Some((now + duration_secs) as int)
                &&& token_signature_ok(keys.id(), t.kind, t.identifier@, t.expiration@,
                    t.signature@)
                &&& dotfree(t.signature@)
            },
            r is Err ==> r->Err_0 == spec_issue_error(now + duration_secs),
    {
        let expiration = match plus_sec_str(now, duration_secs) {
            Ok(e) => e,
            Err(_) => {
                return Err(Error::FailedToGetTime);
            },
        };
        let content = content_of_parts(kind, identifier, expiration.as_str());
        let signature = match sign_content(content, keys) {
            Ok(s) => s,
            Err(e) => {
                return Err(e);
            },
        };
        proof {
            lemma_b64url_dotfree(signature@);
        }
        Ok(Token { kind, identifier: identifier.to_owned(), expiration, signature })
    }

    /// Issues an access token for the given user identifier, expiring
    /// `access_token_duration_secs` seconds after `now`.
    pub fn new_access_token(user: &str, keys: &Keys, config: &Config, now: i64) -> (r: Result<
        Token,
        Error,
    >)
        ensures
            r is Ok <==> rfc3339_representable(now + config.access_token_duration_secs)
                && key_can_sign(keys.id()),
            r matches Ok(t) ==> {
                &&& t.kind == TokenKind::Access
                &&& t.identifier@ == user@
                &&& t.expiration@ == rfc3339_of(now + config.access_token_duration_secs)
                &&& rfc3339_parse_of(t.expiration@) == Option::Some(
                    (now + config.access_token_duration_secs) as int,
                )
                &&& token_signature_ok(keys.id(), t.kind, t.identifier@, t.expiration@,
                    t.signature@)
                &&& dotfree(t.signature@)
            },
            r is Err ==> r->Err_0 == spec_issue_error(now + config.access_token_duration_secs),
    {
        Self::new(user, TokenKind::Access, config.access_token_duration_secs, keys, now)
    }

    /// Issues a refresh token. Its identifier is a freshly generated random
    /// opaque value, deliberately decoupled from any user id: an intercepted
    /// refresh token reveals no identity. The association to the user is
    /// recorded only in the refresh-token store.
    pub fn new_refresh_token(keys: &Keys, config: &Config, now: i64) -> (r: Result<Token, Error>)
        ensures
            r is Ok <==> rfc3339_representable(now + config.refresh_token_duration_secs)
                && key_can_sign(keys.id()),
            r matches Ok(t) ==> {
                &&& t.kind == TokenKind::Refresh
                &&& is_uuid_hyphenated(t.identifier@)
                &&& t.expiration@ == rfc3339_of(now + config.refresh_token_duration_secs)
                &&& rfc3339_parse_of(t.expiration@) == Option::Some(
                    (now + config.refresh_token_duration_secs) as int,
                )
                &&& token_signature_ok(keys.id(), t.kind, t.identifier@, t.expiration@,
                    t.signature@)
                &&& dotfree(t.signature@)
            },
            r is Err ==> r->Err_0 == spec_issue_error(now + config.refresh_token_duration_secs),
    {
        let id = gen_uuid_string();
        Self::new(id.as_str(), TokenKind::Refresh, config.refresh_token_duration_secs, keys, now)
    }

    /// Issues the access+refresh pair handed out at login and at refresh.
    pub fn new_token_pair(user: &str, keys: &Keys, config: &Config, now: i64) -> (r: Result<
        (Token, Token),
        Error,
    >)
        ensures
            r is Ok <==> rfc3339_representable(now + config.access_token_duration_secs)
                && rfc3339_representable(now + config.refresh_token_duration_secs)
                && key_can_sign(keys.id()),
            r matches Ok(p) ==> {
                &&& p.0.kind == TokenKind::Access
                &&& p.0.identifier@ == user@
                &&& rfc3339_parse_of(p.0.expiration@) == Option::Some(
                    (now + config.access_token_duration_secs) as int,
                )
                &&& token_signature_ok(keys.id(), p.0.kind, p.0.identifier@, p.0.expiration@,
                    p.0.signature@)
                &&& dotfree(p.0.signature@)
                &&& p.1.kind == TokenKind::Refresh
                &&& is_uuid_hyphenated(p.1.identifier@)
                &&& rfc3339_parse_of(p.1.expiration@) == Option::Some(
                    (now + config.refresh_token_duration_secs) as int,
                )
                &&& token_signature_ok(keys.id(), p.1.kind, p.1.identifier@, p.1.expiration@,
                    p.1.signature@)
                &&& dotfree(p.1.signature@)
            },
            r is Err ==> r->Err_0 == spec_pair_issue_error(keys.id(), *config, now as int),
    {
        let access = Self::new_access_token(user, keys, config, now)?;
        let refresh = Self::new_refresh_token(keys, config, now)?;
        Ok((access, refresh))
    }

    /// Whether this token may stand for a logged-in user: only access
    /// tokens may; a refresh token presented in an access position is
    /// rejected.
    pub fn is_access_token(&self) -> (r: Result<(), Error>)
        ensures
            r is Ok <==> self.kind == TokenKind::Access,
            r is Err ==> r->Err_0 == Error::NotAnAccessTokenError,
    {
        match self.kind {
            TokenKind::Access => Ok(()),
            TokenKind::Refresh => Err(Error::NotAnAccessTokenError),
        }
    }

    /// Law: the signed content binds every signed field. Two tokens yield
    /// the same signed content only when their kind, identifier and
    /// expiration all agree — so altering any of them changes what the
    /// signature must cover, and a signature over the original content no
    /// longer speaks for the altered token.
    pub fn signed_content_binds_fields(t1: &Token, t2: &Token) -> (r: (String, String))
        ensures
            r.0@ == signed_content(t1.kind, t1.identifier@, t1.expiration@),
            r.1@ == signed_content(t2.kind, t2.identifier@, t2.expiration@),
            (t1.kind != t2.kind || t1.identifier@ != t2.identifier@ || t1.expiration@
                != t2.expiration@) ==> r.0@ != r.1@,
    {
        let c1 = content_of_parts(t1.kind, t1.identifier.as_str(), t1.expiration.as_str());
        let c2 = content_of_parts(t2.kind, t2.identifier.as_str(), t2.expiration.as_str());
        (c1, c2)
    }

    /// Round trip: parsing a serialized token reproduces every field
    /// exactly. It holds of any token whose signature segment is free of
    /// the separator, as every issued or parsed token's is.
    pub fn parse_round_trip(&self) -> (r: Result<Token, Error>)
        requires
            dotfree(self.signature@),
        ensures
            r is Ok,
            r matches Ok(t) ==> t.kind == self.kind && t.identifier@ == self.identifier@
                && t.expiration@ == self.expiration@ && t.signature@ == self.signature@,
    {
        let s = self.to_string();
        proof {
            assert(wire_parts_ok(self.kind, self.identifier@, self.expiration@, self.signature@));
            assert(wellformed_wire(s@));
        }
        Token::parse(s.as_str())
    }
}

} // verus!
