//! The kinds of access that a client asks for, as the broker numbers them.

use vstd::prelude::*;

verus! {

/// The access that the broker names in a request, as a number: one kind each for
/// reading, writing, subscribing and unsubscribing, `NoAccess` for `0`, and `Unknown` for
/// every other number.
#[derive(Debug, Copy, Clone, PartialEq, Eq, Structural)]
pub enum AccessLevel {
    NoAccess,
    Read,
    Write,
    Subscribe,
    Unsubscribe,
    Unknown,
}

/// The access that an access check decides on: one of the four kinds that a client can
/// ask for.
#[derive(Debug, Copy, Clone, PartialEq, Eq, PartialOrd, Ord, Structural)]
pub enum AclCheckAccessLevel {
    Read,
    Write,
    Subscribe,
    Unsubscribe,
}

impl AccessLevel {
    /// The kind of access that the broker's number `level` names.
    pub open spec fn of_level(level: int) -> AccessLevel {
        if level == 0 {
            AccessLevel::NoAccess
        } else if level == 1 {
            AccessLevel::Read
        } else if level == 2 {
            AccessLevel::Write
        } else if level == 4 {
            AccessLevel::Subscribe
        } else if level == 8 {
            AccessLevel::Unsubscribe
        } else {
            AccessLevel::Unknown
        }
    }

    /// The kind of access as an access check sees it: there for the four kinds that a
    /// client can ask for, and for no other.
    pub open spec fn checked(self) -> Option<AclCheckAccessLevel> {
        match self {
            AccessLevel::Read => Some(AclCheckAccessLevel::Read),
            AccessLevel::Write => Some(AclCheckAccessLevel::Write),
            AccessLevel::Subscribe => Some(AclCheckAccessLevel::Subscribe),
            AccessLevel::Unsubscribe => Some(AclCheckAccessLevel::Unsubscribe),
            _ => None,
        }
    }
}

impl AccessLevel {
    /// The name of this kind of access.
    pub open spec fn name(self) -> Seq<char> {
        match self {
            AccessLevel::NoAccess => "NoAccess"@,
            AccessLevel::Read => "Read"@,
            AccessLevel::Write => "Write"@,
            AccessLevel::Subscribe => "Subscribe"@,
            AccessLevel::Unsubscribe => "Unsubscribe"@,
            AccessLevel::Unknown => "Unknown"@,
        }
    }

    /// The name of this kind of access, for a log line.
    pub fn to_string(&self) -> (text: String)
        ensures
            text@ == self.name(),
    {
        match self {
            AccessLevel::NoAccess => "NoAccess".to_owned(),
            AccessLevel::Read => "Read".to_owned(),
            AccessLevel::Write => "Write".to_owned(),
            AccessLevel::Subscribe => "Subscribe".to_owned(),
            AccessLevel::Unsubscribe => "Unsubscribe".to_owned(),
            AccessLevel::Unknown => "Unknown".to_owned(),
        }
    }
}

impl AclCheckAccessLevel {
    /// The name of this kind of access.
    pub open spec fn name(self) -> Seq<char> {
        match self {
            AclCheckAccessLevel::Read => "Read"@,
            AclCheckAccessLevel::Write => "Write"@,
            AclCheckAccessLevel::Subscribe => "Subscribe"@,
            AclCheckAccessLevel::Unsubscribe => "Unsubscribe"@,
        }
    }

    /// The name of this kind of access, for a log line.
    pub fn to_string(&self) -> (text: String)
        ensures
            text@ == self.name(),
    {
        match self {
            AclCheckAccessLevel::Read => "Read".to_owned(),
            AclCheckAccessLevel::Write => "Write".to_owned(),
            AclCheckAccessLevel::Subscribe => "Subscribe".to_owned(),
            AclCheckAccessLevel::Unsubscribe => "Unsubscribe".to_owned(),
        }
    }

    /// The broker's number for this kind of access.
    pub open spec fn level(self) -> int {
        match self {
            AclCheckAccessLevel::Read => 1,
            AclCheckAccessLevel::Write => 2,
            AclCheckAccessLevel::Subscribe => 4,
            AclCheckAccessLevel::Unsubscribe => 8,
        }
    }
}

impl vstd::std_specs::convert::FromSpecImpl<i32> for AccessLevel {
    open spec fn obeys_from_spec() -> bool {
        true
    }

    open spec fn from_spec(level: i32) -> AccessLevel {
        AccessLevel::of_level(level as int)
    }
}

impl From<i32> for AccessLevel {
    fn from(level: i32) -> (access: AccessLevel)
        ensures
            access == AccessLevel::of_level(level as int),
    {
        match level {
            0 => AccessLevel::NoAccess,
            1 => AccessLevel::Read,
            2 => AccessLevel::Write,
            4 => AccessLevel::Subscribe,
            8 => AccessLevel::Unsubscribe,
            _ => AccessLevel::Unknown,
        }
    }
}

impl vstd::std_specs::convert::FromSpecImpl<AccessLevel> for Option<AclCheckAccessLevel> {
    open spec fn obeys_from_spec() -> bool {
        true
    }

    open spec fn from_spec(level: AccessLevel) -> Option<AclCheckAccessLevel> {
        level.checked()
    }
}

impl From<AccessLevel> for Option<AclCheckAccessLevel> {
    fn from(level: AccessLevel) -> (checked: Option<AclCheckAccessLevel>)
        ensures
            checked == level.checked(),
    {
        match level {
            AccessLevel::Read => Some(AclCheckAccessLevel::Read),
            AccessLevel::Write => Some(AclCheckAccessLevel::Write),
            AccessLevel::Subscribe => Some(AclCheckAccessLevel::Subscribe),
            AccessLevel::Unsubscribe => Some(AclCheckAccessLevel::Unsubscribe),
            _ => None,
        }
    }
}

/// An access check gets a kind of access exactly for the numbers `1`, `2`, `4` and `8`,
/// and the kind that it gets has the number that came in.
pub proof fn lemma_checked_levels(level: int)
    ensures
        AccessLevel::of_level(level).checked() is Some <==> (level == 1 || level == 2 || level == 4
            || level == 8),
        AccessLevel::of_level(level).checked() matches Some(access) ==> access.level() == level,
{
}

} // verus!
