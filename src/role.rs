use vstd::prelude::*;
use vstd::string::*;
use crate::text::text_eq;

verus! {

/// The closed set of roles a session can carry.
#[derive(Clone, Copy, Debug, PartialEq, Eq, Structural)]
pub enum Role {
    Admin,
    Anonymous,
}

/// The role named by a free-text store label. Only `admin` grants `Admin`;
/// `anonymous` and every unrecognised label fall back to `Anonymous`.
pub open spec fn role_of_label(label: Seq<char>) -> Role {
    if label == "admin"@ {
        Role::Admin
    } else {
        Role::Anonymous
    }
}

/// How a role is written inside a token's claims.
pub open spec fn role_name(r: Role) -> Seq<char> {
    match r {
        Role::Admin => seq!['A', 'd', 'm', 'i', 'n'],
        Role::Anonymous => seq!['A', 'n', 'o', 'n', 'y', 'm', 'o', 'u', 's'],
    }
}

/// How a role is shown to people.
pub open spec fn role_text(r: Role) -> Seq<char> {
    match r {
        Role::Admin => "(admin)"@,
        Role::Anonymous => "(anonymous)"@,
    }
}

impl Role {
    /// Parses a store label; see `role_of_label`.
    pub fn from_label(label: &str) -> (r: Role)
        ensures
            r == role_of_label(label@),
    {
        if text_eq(label, "admin") {
            Role::Admin
        } else {
            Role::Anonymous
        }
    }

    /// The role's name inside token claims.
    pub fn claim_name(&self) -> (r: &'static str)
        ensures
            r@ == role_name(*self),
    {
        proof {
            reveal_strlit("Admin");
            reveal_strlit("Anonymous");
        }
        match self {
            Role::Admin => "Admin",
            Role::Anonymous => "Anonymous",
        }
    }

    /// The role as shown to people: `(admin)` or `(anonymous)`.
    pub fn describe(&self) -> (r: String)
        ensures
            r@ == role_text(*self),
    {
        match self {
            Role::Admin => String::from_str("(admin)"),
            Role::Anonymous => String::from_str("(anonymous)"),
        }
    }
}

impl From<String> for Role {
    fn from(label: String) -> (r: Role) {
        Role::from_label(label.as_str())
    }
}

impl vstd::std_specs::convert::FromSpecImpl<String> for Role {
    open spec fn obeys_from_spec() -> bool {
        true
    }

    open spec fn from_spec(v: String) -> Role {
        role_of_label(v@)
    }
}

} // verus!
