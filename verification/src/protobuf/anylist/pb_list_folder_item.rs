//! Enumerations nested in the `PbListFolderItem` message.

use crate::text::str_eq;
use vstd::prelude::*;

verus! {

/// The `ItemType` enumeration.
#[derive(Clone, Copy, Debug, PartialEq, Eq, Hash, PartialOrd, Ord, Structural)]
pub enum ItemType {
    ListType,
    FolderType,
}

impl ItemType {
    /// The name of the value in the ProtoBuf definition.
    pub open spec fn str_name(self) -> Seq<char> {
        match self {
            ItemType::ListType => "ListType"@,
            ItemType::FolderType => "FolderType"@,
        }
    }

    /// The number of the value on the wire.
    pub open spec fn number(self) -> i32 {
        match self {
            ItemType::ListType => 0,
            ItemType::FolderType => 1,
        }
    }

    /// The value that a name stands for, if it names one.
    pub open spec fn named(value: Seq<char>) -> Option<Self> {
        if exists|v: ItemType| v.str_name() == value {
            Some(choose|v: ItemType| v.str_name() == value)
        } else {
            None
        }
    }

    /// The value with a given number, if there is one.
    pub open spec fn numbered(value: i32) -> Option<Self> {
        if exists|v: ItemType| v.number() == value {
            Some(choose|v: ItemType| v.number() == value)
        } else {
            None
        }
    }

    /// String value of the enum field names used in the ProtoBuf definition.
    pub fn as_str_name(&self) -> (name: &'static str)
        ensures
            name@ == self.str_name(),
    {
        match self {
            ItemType::ListType => "ListType",
            ItemType::FolderType => "FolderType",
        }
    }

    /// Creates an enum from field names used in the ProtoBuf definition.
    pub fn from_str_name(value: &str) -> (parsed: Option<Self>)
        ensures
            parsed == Self::named(value@),
    {
        let parsed = if str_eq(value, "ListType") {
            Some(ItemType::ListType)
        } else if str_eq(value, "FolderType") {
            Some(ItemType::FolderType)
        } else {
            None
        };
        proof {
            ItemType::lemma_names_are_distinct();
            match parsed {
                Some(v) => {
                    assert(v.str_name() == value@);
                },
                None => {
                    assert forall|v: ItemType| v.str_name() != value@ by {
                        assert(ItemType::ListType.str_name() != value@);
                    }
                },
            }
        }
        parsed
    }

    /// The number of the value on the wire.
    pub fn to_i32(self) -> (number: i32)
        ensures
            number == self.number(),
    {
        match self {
            ItemType::ListType => 0,
            ItemType::FolderType => 1,
        }
    }

    /// Converts a wire number to the value it stands for, or `None` if it stands
    /// for none.
    pub fn from_i32(value: i32) -> (parsed: Option<Self>)
        ensures
            parsed == Self::numbered(value),
    {
        let parsed = if value == 0 {
            Some(ItemType::ListType)
        } else if value == 1 {
            Some(ItemType::FolderType)
        } else {
            None
        };
        proof {
            match parsed {
                Some(v) => {
                    assert(v.number() == value);
                },
                None => {
                    assert forall|v: ItemType| v.number() != value by {
                        assert(ItemType::ListType.number() != value);
                    }
                },
            }
        }
        parsed
    }

    /// No two values share a name, and every name is parsed back to its value.
    pub proof fn lemma_names_are_distinct()
        ensures
            forall|a: ItemType, b: ItemType| a.str_name() == b.str_name() ==> a == b,
            forall|v: ItemType| Self::named(#[trigger] v.str_name()) == Some(v),
    {
        reveal_strlit("ListType");
        reveal_strlit("FolderType");
        assert("ListType"@.len() == 8);
        assert("FolderType"@.len() == 10);
        assert forall|a: ItemType, b: ItemType| a.str_name() == b.str_name() implies a == b by {}
        assert forall|v: ItemType| Self::named(#[trigger] v.str_name()) == Some(v) by {
            let chosen = choose|c: ItemType| c.str_name() == v.str_name();
            assert(chosen.str_name() == v.str_name());
        }
    }
}

} // verus!
