use vstd::prelude::*;
use vstd::string::*;
use crate::role::{Role, role_name, role_text};
use crate::text::{
    int_text, is_id_text, is_id_char, is_id, lemma_int_text, parse_int, push_int, text_eq,
};

verus! {

/// How long an access token stays valid after issuance: fifteen minutes.
pub const ACCESS_TOKEN_LIFETIME_MS: i64 = 900_000;

/// The signed payload of an access token.
#[derive(Clone, Debug)]
pub struct Claims {
    /// The subject's opaque identifier.
    pub sub: String,
    pub role: Role,
    /// Expiry, in epoch milliseconds.
    pub exp: i64,
}

/// The mathematical value of a `Claims`.
pub struct ClaimsView {
    pub sub: Seq<char>,
    pub role: Role,
    pub exp: int,
}

impl View for Claims {
    type V = ClaimsView;

    open spec fn view(&self) -> ClaimsView {
        ClaimsView { sub: self.sub@, role: self.role, exp: self.exp as int }
    }
}

/// Claims that can travel in a token: an identifier subject and an `i64` expiry.
pub open spec fn claims_wf(c: ClaimsView) -> bool {
    is_id_text(c.sub) && i64::MIN <= c.exp <= i64::MAX
}

/// The claims issued at `now` (epoch milliseconds) for a subject and role.
pub open spec fn claims_at(sub: Seq<char>, role: Role, now: int) -> ClaimsView {
    ClaimsView { sub, role, exp: now + ACCESS_TOKEN_LIFETIME_MS }
}

pub open spec fn sub_prefix() -> Seq<char> {
    seq!['{', '"', 's', 'u', 'b', '"', ':', '"']
}

pub open spec fn role_infix() -> Seq<char> {
    seq!['"', ',', '"', 'r', 'o', 'l', 'e', '"', ':', '"']
}

pub open spec fn exp_infix() -> Seq<char> {
    seq!['"', ',', '"', 'e', 'x', 'p', '"', ':']
}

/// The compact JSON text of the claims:
/// `{"sub":"<subject>","role":"<Role>","exp":<milliseconds>}`.
pub open spec fn payload_text(c: ClaimsView) -> Seq<char> {
    sub_prefix() + c.sub + role_infix() + role_name(c.role) + exp_infix() + int_text(c.exp)
        + seq!['}']
}

/// The claims a payload text carries, if it is the text of well-formed claims.
pub open spec fn claims_of_payload(p: Seq<char>) -> Option<ClaimsView> {
    if exists|c: ClaimsView| claims_wf(c) && #[trigger] payload_text(c) == p {
        Some(choose|c: ClaimsView| claims_wf(c) && #[trigger] payload_text(c) == p)
    } else {
        None
    }
}

/// The claims shown to people: subject, role and expiry on three lines.
pub open spec fn claims_text(c: ClaimsView) -> Seq<char> {
    "sub: "@ + c.sub + "\nrole: "@ + role_text(c.role) + "\nexp:"@ + int_text(c.exp)
}

/// Index of the first `"` at or after `from`, or the length when there is none.
fn find_quote(s: &str, from: usize) -> (r: usize)
    requires
        from <= s@.len(),
    ensures
        from <= r <= s@.len(),
        forall|k: int| from <= k < r ==> s@[k] != '"',
        r < s@.len() ==> s@[r as int] == '"',
{
    let n = s.unicode_len();
    let mut j: usize = from;
    while j < n
        invariant
            n == s@.len(),
            from <= j <= n,
            forall|k: int| from <= k < j ==> s@[k] != '"',
        decreases n - j,
    {
        if s.get_char(j) == '"' {
            return j;
        }
        j = j + 1;
    }
    n
}

/// Where the parts of a claims payload sit inside its text.
pub(crate) proof fn lemma_payload_layout(c: ClaimsView)
    requires
        claims_wf(c),
    ensures
        ({
            let p = payload_text(c);
            let l = c.sub.len() as int;
            let k = 8 + l + 10;
            let e = k + role_name(c.role).len() + 8;
            &&& p.len() == e + int_text(c.exp).len() + 1
            &&& p.subrange(8, 8 + l) == c.sub
            &&& p[8 + l] == '"'
            &&& forall|i: int| 8 <= i < 8 + l ==> p[i] != '"'
            &&& p[k + 1] == (if c.role == Role::Admin { 'd' } else { 'n' })
            &&& p.subrange(e, p.len() - 1) == int_text(c.exp)
            &&& int_text(c.exp).len() >= 1
        }),
{
    let p = payload_text(c);
    let l = c.sub.len() as int;
    let r = role_name(c.role);
    let x = int_text(c.exp);
    lemma_int_text(c.exp);
    let k = 8 + l + 10;
    let e = k + r.len() + 8;
    assert(p.subrange(8, 8 + l) =~= c.sub);
    assert(p.subrange(e, p.len() - 1) =~= x);
    assert(p[8 + l] == role_infix()[0]);
    assert(p[k + 1] == r[1]);
    assert forall|i: int| 8 <= i < 8 + l implies p[i] != '"' by {
        assert(p[i] == c.sub[i - 8]);
        assert(is_id_char(c.sub[i - 8]));
    }
}

/// Reads the parts of a claims payload back, by position; it succeeds at least
/// on every well-formed payload.
fn scan_payload(s: &str) -> (r: Option<Claims>)
    ensures
        forall|c: ClaimsView| #[trigger] claims_wf(c) && payload_text(c) == s@ ==> (r is Some
            && r->0@ == c),
{
    let ghost hit = exists|c: ClaimsView| #[trigger] claims_wf(c) && payload_text(c) == s@;
    let ghost c = choose|c: ClaimsView| #[trigger] claims_wf(c) && payload_text(c) == s@;
    let ghost l = c.sub.len() as int;
    proof {
        if hit {
            lemma_payload_layout(c);
        }
    }
    let n = s.unicode_len();
    if n < 8 {
        return None;
    }
    let j = find_quote(s, 8);
    assert(hit ==> j == 8 + l) by {
        if hit {
            if j < 8 + l {
                assert(s@[j as int] != '"');
            }
            if j > 8 + l {
                assert(s@[8 + l] != '"');
            }
        }
    }
    if n - j < 12 {
        return None;
    }
    let k = j + 10;
    let admin = s.get_char(k + 1) == 'd';
    let role = if admin {
        Role::Admin
    } else {
        Role::Anonymous
    };
    let rlen: usize = if admin {
        5
    } else {
        9
    };
    assert(hit ==> role == c.role);
    if n - k < rlen + 9 {
        return None;
    }
    let e = k + rlen + 8;
    let exp_text = s.substring_char(e, n - 1);
    let exp = match parse_int(exp_text) {
        Some(v) => v,
        None => {
            return None;
        },
    };
    let sub = String::from_str(s.substring_char(8, j));
    let r = Claims { sub, role, exp };
    assert(hit ==> r@ == c);
    proof {
        assert forall|d: ClaimsView| #[trigger] claims_wf(d) && payload_text(d) == s@ implies d
            == c by {
            assert(hit);
            assert(r@ == c);
            lemma_payload_layout(d);
            assert(d.sub == s@.subrange(8, j as int));
            assert(d.exp == exp as int);
        }
    }
    Some(r)
}

impl Claims {
    /// Claims for a subject and role issued at `now`, expiring one lifetime later.
    pub fn new(sub: String, role: Role, now: i64) -> (r: Claims)
        requires
            now <= i64::MAX - ACCESS_TOKEN_LIFETIME_MS,
        ensures
            r@ == claims_at(sub@, role, now as int),
    {
        Claims { sub, role, exp: now + ACCESS_TOKEN_LIFETIME_MS }
    }

    /// The compact JSON text that is signed into a token.
    pub fn to_payload(&self) -> (r: String)
        ensures
            r@ == payload_text(self@),
    {
        proof {
            reveal_strlit("{\"sub\":\"");
            reveal_strlit("\",\"role\":\"");
            reveal_strlit("\",\"exp\":");
            reveal_strlit("}");
        }
        let mut out = String::from_str("{\"sub\":\"");
        out.append(self.sub.as_str());
        out.append("\",\"role\":\"");
        out.append(self.role.claim_name());
        out.append("\",\"exp\":");
        push_int(&mut out, self.exp);
        out.append("}");
        assert(out@ =~= payload_text(self@));
        out
    }

    /// The claims a payload text carries: exactly the well-formed claims whose
    /// text it is, and nothing for any other text.
    pub fn from_payload(s: &str) -> (r: Option<Claims>)
        ensures
            match claims_of_payload(s@) {
                Some(c) => r is Some && r->0@ == c,
                None => r is None,
            },
    {
        let r = match scan_payload(s) {
            None => None,
            Some(c) => {
                if is_id(c.sub.as_str()) && text_eq(c.to_payload().as_str(), s) {
                    Some(c)
                } else {
                    None
                }
            },
        };
        proof {
            if r is Some {
                assert(claims_wf(r->0@) && payload_text(r->0@) == s@);
            }
        }
        r
    }

    /// The claims shown to people; see `claims_text`.
    pub fn describe(&self) -> (r: String)
        ensures
            r@ == claims_text(self@),
    {
        let mut out = String::from_str("sub: ");
        out.append(self.sub.as_str());
        out.append("\nrole: ");
        let role = self.role.describe();
        out.append(role.as_str());
        out.append("\nexp:");
        push_int(&mut out, self.exp);
        assert(out@ =~= claims_text(self@));
        out
    }
}

} // verus!
