//! Enumerations nested in the `StarterList` message.

use crate::text::str_eq;
use vstd::prelude::*;

verus! {

/// The `Type` enumeration.
#[derive(Clone, Copy, Debug, PartialEq, Eq, Hash, PartialOrd, Ord, Structural)]
pub enum Type {
    UserType,
    RecentItemsType,
    FavoriteItemsType,
}

impl Type {
    /// The name of the value in the ProtoBuf definition.
    pub open spec fn str_name(self) -> Seq<char> {
        match self {
            Type::UserType => "UserType"@,
            Type::RecentItemsType => "RecentItemsType"@,
            Type::FavoriteItemsType => "FavoriteItemsType"@,
        }
    }

    /// The number of the value on the wire.
    pub open spec fn number(self) -> i32 {
        match self {
            Type::UserType => 0,
            Type::RecentItemsType => 1,
            Type::FavoriteItemsType => 2,
        }
    }

    /// The value that a name stands for, if it names one.
    pub open spec fn named(value: Seq<char>) -> Option<Self> {
        if exists|v: Type| v.str_name() == value {
            Some(choose|v: Type| v.str_name() == value)
        } else {
            None
        }
    }

    /// The value with a given number, if there is one.
    pub open spec fn numbered(value: i32) -> Option<Self> {
        if exists|v: Type| v.number() == value {
            Some(choose|v: Type| v.number() == value)
        } else {
            None
        }
    }

    /// String value of the enum field names used in the ProtoBuf definition.
    pub fn as_str_name(&self) -> (name: &'static str)
        ensures
            name@ == self.str_name(),
    {
        match self {
            Type::UserType => "UserType",
            Type::RecentItemsType => "RecentItemsType",
            Type::FavoriteItemsType => "FavoriteItemsType",
        }
    }

    /// Creates an enum from field names used in the ProtoBuf definition.
    pub fn from_str_name(value: &str) -> (parsed: Option<Self>)
        ensures
            parsed == Self::named(value@),
    {
        let parsed = if str_eq(value, "UserType") {
            Some(Type::UserType)
        } else if str_eq(value, "RecentItemsType") {
            Some(Type::RecentItemsType)
        } else if str_eq(value, "FavoriteItemsType") {
            Some(Type::FavoriteItemsType)
        } else {
            None
        };
        proof {
            Type::lemma_names_are_distinct();
            match parsed {
                Some(v) => {
                    assert(v.str_name() == value@);
                },
                None => {
                    assert forall|v: Type| v.str_name() != value@ by {
                        assert(Type::UserType.str_name() != value@);
                    }
                },
            }
        }
        parsed
    }

    /// The number of the value on the wire.
    pub fn to_i32(self) -> (number: i32)
        ensures
            number == self.number(),
    {
        match self {
            Type::UserType => 0,
            Type::RecentItemsType => 1,
            Type::FavoriteItemsType => 2,
        }
    }

    /// Converts a wire number to the value it stands for, or `None` if it stands
    /// for none.
    pub fn from_i32(value: i32) -> (parsed: Option<Self>)
        ensures
            parsed == Self::numbered(value),
    {
        let parsed = if value == 0 {
            Some(Type::UserType)
        } else if value == 1 {
            Some(Type::RecentItemsType)
        } else if value == 2 {
            Some(Type::FavoriteItemsType)
        } else {
            None
        };
        proof {
            match parsed {
                Some(v) => {
                    assert(v.number() == value);
                },
                None => {
                    assert forall|v: Type| v.number() != value by {
                        assert(Type::UserType.number() != value);
                    }
                },
            }
        }
        parsed
    }

    /// No two values share a name, and every name is parsed back to its value.
    pub proof fn lemma_names_are_distinct()
        ensures
            forall|a: Type, b: Type| a.str_name() == b.str_name() ==> a == b,
            forall|v: Type| Self::named(#[trigger] v.str_name()) == Some(v),
    {
        reveal_strlit("UserType");
        reveal_strlit("RecentItemsType");
        reveal_strlit("FavoriteItemsType");
        assert("UserType"@.len() == 8);
        assert("RecentItemsType"@.len() == 15);
        assert("FavoriteItemsType"@.len() == 17);
        assert forall|a: Type, b: Type| a.str_name() == b.str_name() implies a == b by {}
        assert forall|v: Type| Self::named(#[trigger] v.str_name()) == Some(v) by {
            let chosen = choose|c: Type| c.str_name() == v.str_name();
            assert(chosen.str_name() == v.str_name());
        }
    }
}

} // verus!
