//! Enumerations nested in the `ShoppingList` message.

use crate::text::str_eq;
use vstd::prelude::*;

verus! {

/// The `ListItemSortOrder` enumeration.
#[derive(Clone, Copy, Debug, PartialEq, Eq, Hash, PartialOrd, Ord, Structural)]
pub enum ListItemSortOrder {
    Manual,
    Alphabetical,
}

impl ListItemSortOrder {
    /// The name of the value in the ProtoBuf definition.
    pub open spec fn str_name(self) -> Seq<char> {
        match self {
            ListItemSortOrder::Manual => "Manual"@,
            ListItemSortOrder::Alphabetical => "Alphabetical"@,
        }
    }

    /// The number of the value on the wire.
    pub open spec fn number(self) -> i32 {
        match self {
            ListItemSortOrder::Manual => 0,
            ListItemSortOrder::Alphabetical => 1,
        }
    }

    /// The value that a name stands for, if it names one.
    pub open spec fn named(value: Seq<char>) -> Option<Self> {
        if exists|v: ListItemSortOrder| v.str_name() == value {
            Some(choose|v: ListItemSortOrder| v.str_name() == value)
        } else {
            None
        }
    }

    /// The value with a given number, if there is one.
    pub open spec fn numbered(value: i32) -> Option<Self> {
        if exists|v: ListItemSortOrder| v.number() == value {
            Some(choose|v: ListItemSortOrder| v.number() == value)
        } else {
            None
        }
    }

    /// String value of the enum field names used in the ProtoBuf definition.
    pub fn as_str_name(&self) -> (name: &'static str)
        ensures
            name@ == self.str_name(),
    {
        match self {
            ListItemSortOrder::Manual => "Manual",
            ListItemSortOrder::Alphabetical => "Alphabetical",
        }
    }

    /// Creates an enum from field names used in the ProtoBuf definition.
    pub fn from_str_name(value: &str) -> (parsed: Option<Self>)
        ensures
            parsed == Self::named(value@),
    {
        let parsed = if str_eq(value, "Manual") {
            Some(ListItemSortOrder::Manual)
        } else if str_eq(value, "Alphabetical") {
            Some(ListItemSortOrder::Alphabetical)
        } else {
            None
        };
        proof {
            ListItemSortOrder::lemma_names_are_distinct();
            match parsed {
                Some(v) => {
                    assert(v.str_name() == value@);
                },
                None => {
                    assert forall|v: ListItemSortOrder| v.str_name() != value@ by {
                        assert(ListItemSortOrder::Manual.str_name() != value@);
                    }
                },
            }
        }
        parsed
    }

    /// The number of the value on the wire.
    pub fn to_i32(self) -> (number: i32)
        ensures
            number == self.number(),
    {
        match self {
            ListItemSortOrder::Manual => 0,
            ListItemSortOrder::Alphabetical => 1,
        }
    }

    /// Converts a wire number to the value it stands for, or `None` if it stands
    /// for none.
    pub fn from_i32(value: i32) -> (parsed: Option<Self>)
        ensures
            parsed == Self::numbered(value),
    {
        let parsed = if value == 0 {
            Some(ListItemSortOrder::Manual)
        } else if value == 1 {
            Some(ListItemSortOrder::Alphabetical)
        } else {
            None
        };
        proof {
            match parsed {
                Some(v) => {
                    assert(v.number() == value);
                },
                None => {
                    assert forall|v: ListItemSortOrder| v.number() != value by {
                        assert(ListItemSortOrder::Manual.number() != value);
                    }
                },
            }
        }
        parsed
    }

    /// No two values share a name, and every name is parsed back to its value.
    pub proof fn lemma_names_are_distinct()
        ensures
            forall|a: ListItemSortOrder, b: ListItemSortOrder| a.str_name() == b.str_name() ==> a == b,
            forall|v: ListItemSortOrder| Self::named(#[trigger] v.str_name()) == Some(v),
    {
        reveal_strlit("Manual");
        reveal_strlit("Alphabetical");
        assert("Manual"@.len() == 6);
        assert("Alphabetical"@.len() == 12);
        assert forall|a: ListItemSortOrder, b: ListItemSortOrder| a.str_name() == b.str_name() implies a == b by {}
        assert forall|v: ListItemSortOrder| Self::named(#[trigger] v.str_name()) == Some(v) by {
            let chosen = choose|c: ListItemSortOrder| c.str_name() == v.str_name();
            assert(chosen.str_name() == v.str_name());
        }
    }
}

/// The `NewListItemPosition` enumeration.
#[derive(Clone, Copy, Debug, PartialEq, Eq, Hash, PartialOrd, Ord, Structural)]
pub enum NewListItemPosition {
    Bottom,
    Top,
}

impl NewListItemPosition {
    /// The name of the value in the ProtoBuf definition.
    pub open spec fn str_name(self) -> Seq<char> {
        match self {
            NewListItemPosition::Bottom => "Bottom"@,
            NewListItemPosition::Top => "Top"@,
        }
    }

    /// The number of the value on the wire.
    pub open spec fn number(self) -> i32 {
        match self {
            NewListItemPosition::Bottom => 0,
            NewListItemPosition::Top => 1,
        }
    }

    /// The value that a name stands for, if it names one.
    pub open spec fn named(value: Seq<char>) -> Option<Self> {
        if exists|v: NewListItemPosition| v.str_name() == value {
            Some(choose|v: NewListItemPosition| v.str_name() == value)
        } else {
            None
        }
    }

    /// The value with a given number, if there is one.
    pub open spec fn numbered(value: i32) -> Option<Self> {
        if exists|v: NewListItemPosition| v.number() == value {
            Some(choose|v: NewListItemPosition| v.number() == value)
        } else {
            None
        }
    }

    /// String value of the enum field names used in the ProtoBuf definition.
    pub fn as_str_name(&self) -> (name: &'static str)
        ensures
            name@ == self.str_name(),
    {
        match self {
            NewListItemPosition::Bottom => "Bottom",
            NewListItemPosition::Top => "Top",
        }
    }

    /// Creates an enum from field names used in the ProtoBuf definition.
    pub fn from_str_name(value: &str) -> (parsed: Option<Self>)
        ensures
            parsed == Self::named(value@),
    {
        let parsed = if str_eq(value, "Bottom") {
            Some(NewListItemPosition::Bottom)
        } else if str_eq(value, "Top") {
            Some(NewListItemPosition::Top)
        } else {
            None
        };
        proof {
            NewListItemPosition::lemma_names_are_distinct();
            match parsed {
                Some(v) => {
                    assert(v.str_name() == value@);
                },
                None => {
                    assert forall|v: NewListItemPosition| v.str_name() != value@ by {
                        assert(NewListItemPosition::Bottom.str_name() != value@);
                    }
                },
            }
        }
        parsed
    }

    /// The number of the value on the wire.
    pub fn to_i32(self) -> (number: i32)
        ensures
            number == self.number(),
    {
        match self {
            NewListItemPosition::Bottom => 0,
            NewListItemPosition::Top => 1,
        }
    }

    /// Converts a wire number to the value it stands for, or `None` if it stands
    /// for none.
    pub fn from_i32(value: i32) -> (parsed: Option<Self>)
        ensures
            parsed == Self::numbered(value),
    {
        let parsed = if value == 0 {
            Some(NewListItemPosition::Bottom)
        } else if value == 1 {
            Some(NewListItemPosition::Top)
        } else {
            None
        };
        proof {
            match parsed {
                Some(v) => {
                    assert(v.number() == value);
                },
                None => {
                    assert forall|v: NewListItemPosition| v.number() != value by {
                        assert(NewListItemPosition::Bottom.number() != value);
                    }
                },
            }
        }
        parsed
    }

    /// No two values share a name, and every name is parsed back to its value.
    pub proof fn lemma_names_are_distinct()
        ensures
            forall|a: NewListItemPosition, b: NewListItemPosition| a.str_name() == b.str_name() ==> a == b,
            forall|v: NewListItemPosition| Self::named(#[trigger] v.str_name()) == Some(v),
    {
        reveal_strlit("Bottom");
        reveal_strlit("Top");
        assert("Bottom"@.len() == 6);
        assert("Top"@.len() == 3);
        assert forall|a: NewListItemPosition, b: NewListItemPosition| a.str_name() == b.str_name() implies a == b by {}
        assert forall|v: NewListItemPosition| Self::named(#[trigger] v.str_name()) == Some(v) by {
            let chosen = choose|c: NewListItemPosition| c.str_name() == v.str_name();
            assert(chosen.str_name() == v.str_name());
        }
    }
}

} // verus!
