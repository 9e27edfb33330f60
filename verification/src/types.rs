//! The policy document model: typed value types for a policy and its rules.

use vstd::prelude::*;

verus! {

/// Policy with rules.
///
/// Rule order is significant: it determines the order of the rendered rule
/// blocks and of the computed report paths, and is preserved verbatim.
pub struct Policy {
    /// The name will be used when running the policy.
    pub name: Name,
    /// The rules of the policy.
    pub rules: Vec<Rule>,
}

impl Policy {
    /// Returns an empty, named policy.
    pub fn new(name: &str) -> (p: Self)
        ensures
            p.name.0@ == name@,
            p.rules@.len() == 0,
    {
        Policy { name: Name(name.to_owned()), rules: Vec::new() }
    }
}

/// Single policy rule: an optional label and a rule kind.
pub struct Rule(pub Option<Name>, pub RuleType);

impl From<RuleType> for Rule {
    /// Returns an unlabelled rule of the given kind.
    fn from(rule_type: RuleType) -> (r: Self) {
        Rule(None, rule_type)
    }
}

impl vstd::std_specs::convert::FromSpecImpl<RuleType> for Rule {
    open spec fn obeys_from_spec() -> bool {
        true
    }

    open spec fn from_spec(rule_type: RuleType) -> Rule {
        Rule(None, rule_type)
    }
}

/// Name for entities.
pub struct Name(pub String);

/// Command executed for certain rule kinds.
pub struct Exec(pub String);

/// Whether to apply the policy to all objects, not just regular files.
pub struct DirectoriesPlus(pub bool);

/// Attributes to show.
pub enum Show {
    /// `VARCHAR(MODE)`
    Mode,
    /// `VARCHAR(NLINK)`
    Nlink,
    /// `VARCHAR(FILE_SIZE)`
    FileSize,
    /// `VARCHAR(KB_ALLOCATED)`
    KbAllocated,
}

/// Filter.
pub enum Where {
    /// `WHERE GROUP_ID = {0}`: numeric group id.
    Group(u32),
    /// `WHERE USER_ID = {0}`: numeric user id.
    User(u32),
}

/// Policy rule kinds.
pub enum RuleType {
    /// `RULE EXTERNAL LIST`
    ExternalList(Name, Exec),
    /// `RULE LIST`
    List(Name, DirectoriesPlus, Vec<Show>, Option<Where>),
}

} // verus!
