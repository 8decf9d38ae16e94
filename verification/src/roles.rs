//! Administrative roles and their wire names.

use crate::text::str_eq;
use vstd::prelude::*;

verus! {

/// Administrative role granted to a member.
#[derive(Debug, Clone, Copy, PartialEq, Eq, Structural)]
pub enum AdminRole {
    /// The owner of the site. Can do anything.
    SiteOwner,
    /// The server maintainer: server settings, assistants, bans.
    Maintainer,
    /// The community moderator: moderation, assistants, bans.
    Moderator,
    /// Helps to moderate community content.
    Assistant,
}

/// Snake-case wire name of a role.
pub open spec fn admin_role_name(role: AdminRole) -> Seq<char> {
    match role {
        AdminRole::SiteOwner => "site_owner"@,
        AdminRole::Maintainer => "maintainer"@,
        AdminRole::Moderator => "moderator"@,
        AdminRole::Assistant => "assistant"@,
    }
}

/// The role a wire name names, if any.
pub open spec fn role_named(s: Seq<char>) -> Option<AdminRole> {
    if s == "site_owner"@ {
        Some(AdminRole::SiteOwner)
    } else if s == "maintainer"@ {
        Some(AdminRole::Maintainer)
    } else if s == "moderator"@ {
        Some(AdminRole::Moderator)
    } else if s == "assistant"@ {
        Some(AdminRole::Assistant)
    } else {
        None
    }
}

impl AdminRole {
    /// Snake-case wire representation of the role.
    pub fn as_str(&self) -> (r: &'static str)
        ensures
            r@ == admin_role_name(*self),
    {
        match self {
            AdminRole::SiteOwner => "site_owner",
            AdminRole::Maintainer => "maintainer",
            AdminRole::Moderator => "moderator",
            AdminRole::Assistant => "assistant",
        }
    }

    /// Parse a role from its snake-case wire representation.
    pub fn parse(s: &str) -> (r: Option<Self>)
        ensures
            r == role_named(s@),
            r matches Some(role) ==> admin_role_name(role) == s@,
            r is None ==> forall|role: AdminRole| admin_role_name(role) != s@,
    {
        proof {
            reveal_strlit("site_owner");
            reveal_strlit("maintainer");
            reveal_strlit("moderator");
            reveal_strlit("assistant");
        }
        if str_eq(s, "site_owner") {
            Some(AdminRole::SiteOwner)
        } else if str_eq(s, "maintainer") {
            Some(AdminRole::Maintainer)
        } else if str_eq(s, "moderator") {
            Some(AdminRole::Moderator)
        } else if str_eq(s, "assistant") {
            Some(AdminRole::Assistant)
        } else {
            proof {
                assert forall|role: AdminRole| admin_role_name(role) != s@ by {
                    match role {
                        AdminRole::SiteOwner => {},
                        AdminRole::Maintainer => {},
                        AdminRole::Moderator => {},
                        AdminRole::Assistant => {},
                    }
                }
            }
            None
        }
    }
}

/// Distinct roles have distinct wire names.
pub proof fn lemma_admin_role_names_distinct(a: AdminRole, b: AdminRole)
    ensures
        admin_role_name(a) == admin_role_name(b) ==> a == b,
{
    reveal_strlit("site_owner");
    reveal_strlit("maintainer");
    reveal_strlit("moderator");
    reveal_strlit("assistant");
    if admin_role_name(a) == admin_role_name(b) && a != b {
        match a {
            AdminRole::SiteOwner => { assert(admin_role_name(a)[0] == 's'); },
            AdminRole::Maintainer => { assert(admin_role_name(a)[1] == 'a'); },
            AdminRole::Moderator => { assert(admin_role_name(a)[1] == 'o'); },
            AdminRole::Assistant => { assert(admin_role_name(a)[1] == 's'); },
        }
        match b {
            AdminRole::SiteOwner => { assert(admin_role_name(b)[0] == 's'); },
            AdminRole::Maintainer => { assert(admin_role_name(b)[1] == 'a'); },
            AdminRole::Moderator => { assert(admin_role_name(b)[1] == 'o'); },
            AdminRole::Assistant => { assert(admin_role_name(b)[1] == 's'); },
        }
    }
}

/// Parsing the wire name of a role gives the role back.
pub proof fn lemma_role_name_round_trip(role: AdminRole)
    ensures
        role_named(admin_role_name(role)) == Some(role),
{
    reveal_strlit("site_owner");
    reveal_strlit("maintainer");
    reveal_strlit("moderator");
    reveal_strlit("assistant");
    lemma_admin_role_names_distinct(role, AdminRole::SiteOwner);
    lemma_admin_role_names_distinct(role, AdminRole::Maintainer);
    lemma_admin_role_names_distinct(role, AdminRole::Moderator);
    lemma_admin_role_names_distinct(role, AdminRole::Assistant);
}


/// The wire names of the roles are their snake-case names.
pub proof fn lemma_admin_role_wire_names()
    ensures
        admin_role_name(AdminRole::SiteOwner) == "site_owner"@,
        admin_role_name(AdminRole::Maintainer) == "maintainer"@,
        admin_role_name(AdminRole::Moderator) == "moderator"@,
        admin_role_name(AdminRole::Assistant) == "assistant"@,
{
}

} // verus!
