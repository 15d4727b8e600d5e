//! Enumerations nested in the `PbListFolderSettings` message.

use crate::text::str_eq;
use vstd::prelude::*;

verus! {

/// The `SortOrder` enumeration.
#[derive(Clone, Copy, Debug, PartialEq, Eq, Hash, PartialOrd, Ord, Structural)]
pub enum SortOrder {
    ManualSortOrder,
    AlphabeticalSortOrder,
}

impl SortOrder {
    /// The name of the value in the ProtoBuf definition.
    pub open spec fn str_name(self) -> Seq<char> {
        match self {
            SortOrder::ManualSortOrder => "ManualSortOrder"@,
            SortOrder::AlphabeticalSortOrder => "AlphabeticalSortOrder"@,
        }
    }

    /// The number of the value on the wire.
    pub open spec fn number(self) -> i32 {
        match self {
            SortOrder::ManualSortOrder => 0,
            SortOrder::AlphabeticalSortOrder => 1,
        }
    }

    /// The value that a name stands for, if it names one.
    pub open spec fn named(value: Seq<char>) -> Option<Self> {
        if exists|v: SortOrder| v.str_name() == value {
            Some(choose|v: SortOrder| v.str_name() == value)
        } else {
            None
        }
    }

    /// The value with a given number, if there is one.
    pub open spec fn numbered(value: i32) -> Option<Self> {
        if exists|v: SortOrder| v.number() == value {
            Some(choose|v: SortOrder| v.number() == value)
        } else {
            None
        }
    }

    /// String value of the enum field names used in the ProtoBuf definition.
    pub fn as_str_name(&self) -> (name: &'static str)
        ensures
            name@ == self.str_name(),
    {
        match self {
            SortOrder::ManualSortOrder => "ManualSortOrder",
            SortOrder::AlphabeticalSortOrder => "AlphabeticalSortOrder",
        }
    }

    /// Creates an enum from field names used in the ProtoBuf definition.
    pub fn from_str_name(value: &str) -> (parsed: Option<Self>)
        ensures
            parsed == Self::named(value@),
    {
        let parsed = if str_eq(value, "ManualSortOrder") {
            Some(SortOrder::ManualSortOrder)
        } else if str_eq(value, "AlphabeticalSortOrder") {
            Some(SortOrder::AlphabeticalSortOrder)
        } else {
            None
        };
        proof {
            SortOrder::lemma_names_are_distinct();
            match parsed {
                Some(v) => {
                    assert(v.str_name() == value@);
                },
                None => {
                    assert forall|v: SortOrder| v.str_name() != value@ by {
                        assert(SortOrder::ManualSortOrder.str_name() != value@);
                    }
                },
            }
        }
        parsed
    }

    /// The number of the value on the wire.
    pub fn to_i32(self) -> (number: i32)
        ensures
            number == self.number(),
    {
        match self {
            SortOrder::ManualSortOrder => 0,
            SortOrder::AlphabeticalSortOrder => 1,
        }
    }

    /// Converts a wire number to the value it stands for, or `None` if it stands
    /// for none.
    pub fn from_i32(value: i32) -> (parsed: Option<Self>)
        ensures
            parsed == Self::numbered(value),
    {
        let parsed = if value == 0 {
            Some(SortOrder::ManualSortOrder)
        } else if value == 1 {
            Some(SortOrder::AlphabeticalSortOrder)
        } else {
            None
        };
        proof {
            match parsed {
                Some(v) => {
                    assert(v.number() == value);
                },
                None => {
                    assert forall|v: SortOrder| v.number() != value by {
                        assert(SortOrder::ManualSortOrder.number() != value);
                    }
                },
            }
        }
        parsed
    }

    /// No two values share a name, and every name is parsed back to its value.
    pub proof fn lemma_names_are_distinct()
        ensures
            forall|a: SortOrder, b: SortOrder| a.str_name() == b.str_name() ==> a == b,
            forall|v: SortOrder| Self::named(#[trigger] v.str_name()) == Some(v),
    {
        reveal_strlit("ManualSortOrder");
        reveal_strlit("AlphabeticalSortOrder");
        assert("ManualSortOrder"@.len() == 15);
        assert("AlphabeticalSortOrder"@.len() == 21);
        assert forall|a: SortOrder, b: SortOrder| a.str_name() == b.str_name() implies a == b by {}
        assert forall|v: SortOrder| Self::named(#[trigger] v.str_name()) == Some(v) by {
            let chosen = choose|c: SortOrder| c.str_name() == v.str_name();
            assert(chosen.str_name() == v.str_name());
        }
    }
}

/// The `FolderSortPosition` enumeration.
#[derive(Clone, Copy, Debug, PartialEq, Eq, Hash, PartialOrd, Ord, Structural)]
pub enum FolderSortPosition {
    AfterLists,
    BeforeLists,
    WithLists,
}

impl FolderSortPosition {
    /// The name of the value in the ProtoBuf definition.
    pub open spec fn str_name(self) -> Seq<char> {
        match self {
            FolderSortPosition::AfterLists => "FolderSortPositionAfterLists"@,
            FolderSortPosition::BeforeLists => "FolderSortPositionBeforeLists"@,
            FolderSortPosition::WithLists => "FolderSortPositionWithLists"@,
        }
    }

    /// The number of the value on the wire.
    pub open spec fn number(self) -> i32 {
        match self {
            FolderSortPosition::AfterLists => 0,
            FolderSortPosition::BeforeLists => 1,
            FolderSortPosition::WithLists => 2,
        }
    }

    /// The value that a name stands for, if it names one.
    pub open spec fn named(value: Seq<char>) -> Option<Self> {
        if exists|v: FolderSortPosition| v.str_name() == value {
            Some(choose|v: FolderSortPosition| v.str_name() == value)
        } else {
            None
        }
    }

    /// The value with a given number, if there is one.
    pub open spec fn numbered(value: i32) -> Option<Self> {
        if exists|v: FolderSortPosition| v.number() == value {
            Some(choose|v: FolderSortPosition| v.number() == value)
        } else {
            None
        }
    }

    /// String value of the enum field names used in the ProtoBuf definition.
    pub fn as_str_name(&self) -> (name: &'static str)
        ensures
            name@ == self.str_name(),
    {
        match self {
            FolderSortPosition::AfterLists => "FolderSortPositionAfterLists",
            FolderSortPosition::BeforeLists => "FolderSortPositionBeforeLists",
            FolderSortPosition::WithLists => "FolderSortPositionWithLists",
        }
    }

    /// Creates an enum from field names used in the ProtoBuf definition.
    pub fn from_str_name(value: &str) -> (parsed: Option<Self>)
        ensures
            parsed == Self::named(value@),
    {
        let parsed = if str_eq(value, "FolderSortPositionAfterLists") {
            Some(FolderSortPosition::AfterLists)
        } else if str_eq(value, "FolderSortPositionBeforeLists") {
            Some(FolderSortPosition::BeforeLists)
        } else if str_eq(value, "FolderSortPositionWithLists") {
            Some(FolderSortPosition::WithLists)
        } else {
            None
        };
        proof {
            FolderSortPosition::lemma_names_are_distinct();
            match parsed {
                Some(v) => {
                    assert(v.str_name() == value@);
                },
                None => {
                    assert forall|v: FolderSortPosition| v.str_name() != value@ by {
                        assert(FolderSortPosition::AfterLists.str_name() != value@);
                    }
                },
            }
        }
        parsed
    }

    /// The number of the value on the wire.
    pub fn to_i32(self) -> (number: i32)
        ensures
            number == self.number(),
    {
        match self {
            FolderSortPosition::AfterLists => 0,
            FolderSortPosition::BeforeLists => 1,
            FolderSortPosition::WithLists => 2,
        }
    }

    /// Converts a wire number to the value it stands for, or `None` if it stands
    /// for none.
    pub fn from_i32(value: i32) -> (parsed: Option<Self>)
        ensures
            parsed == Self::numbered(value),
    {
        let parsed = if value == 0 {
            Some(FolderSortPosition::AfterLists)
        } else if value == 1 {
            Some(FolderSortPosition::BeforeLists)
        } else if value == 2 {
            Some(FolderSortPosition::WithLists)
        } else {
            None
        };
        proof {
            match parsed {
                Some(v) => {
                    assert(v.number() == value);
                },
                None => {
                    assert forall|v: FolderSortPosition| v.number() != value by {
                        assert(FolderSortPosition::AfterLists.number() != value);
                    }
                },
            }
        }
        parsed
    }

    /// No two values share a name, and every name is parsed back to its value.
    pub proof fn lemma_names_are_distinct()
        ensures
            forall|a: FolderSortPosition, b: FolderSortPosition| a.str_name() == b.str_name() ==> a == b,
            forall|v: FolderSortPosition| Self::named(#[trigger] v.str_name()) == Some(v),
    {
        reveal_strlit("FolderSortPositionAfterLists");
        reveal_strlit("FolderSortPositionBeforeLists");
        reveal_strlit("FolderSortPositionWithLists");
        assert("FolderSortPositionAfterLists"@.len() == 28);
        assert("FolderSortPositionBeforeLists"@.len() == 29);
        assert("FolderSortPositionWithLists"@.len() == 27);
        assert forall|a: FolderSortPosition, b: FolderSortPosition| a.str_name() == b.str_name() implies a == b by {}
        assert forall|v: FolderSortPosition| Self::named(#[trigger] v.str_name()) == Some(v) by {
            let chosen = choose|c: FolderSortPosition| c.str_name() == v.str_name();
            assert(chosen.str_name() == v.str_name());
        }
    }
}

} // verus!
