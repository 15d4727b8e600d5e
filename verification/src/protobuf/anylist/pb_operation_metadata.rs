//! Enumerations nested in the `PbOperationMetadata` message.

use crate::text::str_eq;
use vstd::prelude::*;

verus! {

/// The `OperationClass` enumeration.
#[derive(Clone, Copy, Debug, PartialEq, Eq, Hash, PartialOrd, Ord, Structural)]
pub enum OperationClass {
    UndefinedOperation,
    StoreOperation,
    StoreFilterOperation,
    ListCategoryOperation,
    ListCategoryGroupOperation,
    ListCategorizationRuleOperation,
}

impl OperationClass {
    /// The name of the value in the ProtoBuf definition.
    pub open spec fn str_name(self) -> Seq<char> {
        match self {
            OperationClass::UndefinedOperation => "UndefinedOperation"@,
            OperationClass::StoreOperation => "StoreOperation"@,
            OperationClass::StoreFilterOperation => "StoreFilterOperation"@,
            OperationClass::ListCategoryOperation => "ListCategoryOperation"@,
            OperationClass::ListCategoryGroupOperation => "ListCategoryGroupOperation"@,
            OperationClass::ListCategorizationRuleOperation => "ListCategorizationRuleOperation"@,
        }
    }

    /// The number of the value on the wire.
    pub open spec fn number(self) -> i32 {
        match self {
            OperationClass::UndefinedOperation => 0,
            OperationClass::StoreOperation => 1,
            OperationClass::StoreFilterOperation => 2,
            OperationClass::ListCategoryOperation => 3,
            OperationClass::ListCategoryGroupOperation => 4,
            OperationClass::ListCategorizationRuleOperation => 5,
        }
    }

    /// The value that a name stands for, if it names one.
    pub open spec fn named(value: Seq<char>) -> Option<Self> {
        if exists|v: OperationClass| v.str_name() == value {
            Some(choose|v: OperationClass| v.str_name() == value)
        } else {
            None
        }
    }

    /// The value with a given number, if there is one.
    pub open spec fn numbered(value: i32) -> Option<Self> {
        if exists|v: OperationClass| v.number() == value {
            Some(choose|v: OperationClass| v.number() == value)
        } else {
            None
        }
    }

    /// String value of the enum field names used in the ProtoBuf definition.
    pub fn as_str_name(&self) -> (name: &'static str)
        ensures
            name@ == self.str_name(),
    {
        match self {
            OperationClass::UndefinedOperation => "UndefinedOperation",
            OperationClass::StoreOperation => "StoreOperation",
            OperationClass::StoreFilterOperation => "StoreFilterOperation",
            OperationClass::ListCategoryOperation => "ListCategoryOperation",
            OperationClass::ListCategoryGroupOperation => "ListCategoryGroupOperation",
            OperationClass::ListCategorizationRuleOperation => "ListCategorizationRuleOperation",
        }
    }

    /// Creates an enum from field names used in the ProtoBuf definition.
    pub fn from_str_name(value: &str) -> (parsed: Option<Self>)
        ensures
            parsed == Self::named(value@),
    {
        let parsed = if str_eq(value, "UndefinedOperation") {
            Some(OperationClass::UndefinedOperation)
        } else if str_eq(value, "StoreOperation") {
            Some(OperationClass::StoreOperation)
        } else if str_eq(value, "StoreFilterOperation") {
            Some(OperationClass::StoreFilterOperation)
        } else if str_eq(value, "ListCategoryOperation") {
            Some(OperationClass::ListCategoryOperation)
        } else if str_eq(value, "ListCategoryGroupOperation") {
            Some(OperationClass::ListCategoryGroupOperation)
        } else if str_eq(value, "ListCategorizationRuleOperation") {
            Some(OperationClass::ListCategorizationRuleOperation)
        } else {
            None
        };
        proof {
            OperationClass::lemma_names_are_distinct();
            match parsed {
                Some(v) => {
                    assert(v.str_name() == value@);
                },
                None => {
                    assert forall|v: OperationClass| v.str_name() != value@ by {
                        assert(OperationClass::UndefinedOperation.str_name() != value@);
                    }
                },
            }
        }
        parsed
    }

    /// The number of the value on the wire.
    pub fn to_i32(self) -> (number: i32)
        ensures
            number == self.number(),
    {
        match self {
            OperationClass::UndefinedOperation => 0,
            OperationClass::StoreOperation => 1,
            OperationClass::StoreFilterOperation => 2,
            OperationClass::ListCategoryOperation => 3,
            OperationClass::ListCategoryGroupOperation => 4,
            OperationClass::ListCategorizationRuleOperation => 5,
        }
    }

    /// Converts a wire number to the value it stands for, or `None` if it stands
    /// for none.
    pub fn from_i32(value: i32) -> (parsed: Option<Self>)
        ensures
            parsed == Self::numbered(value),
    {
        let parsed = if value == 0 {
            Some(OperationClass::UndefinedOperation)
        } else if value == 1 {
            Some(OperationClass::StoreOperation)
        } else if value == 2 {
            Some(OperationClass::StoreFilterOperation)
        } else if value == 3 {
            Some(OperationClass::ListCategoryOperation)
        } else if value == 4 {
            Some(OperationClass::ListCategoryGroupOperation)
        } else if value == 5 {
            Some(OperationClass::ListCategorizationRuleOperation)
        } else {
            None
        };
        proof {
            match parsed {
                Some(v) => {
                    assert(v.number() == value);
                },
                None => {
                    assert forall|v: OperationClass| v.number() != value by {
                        assert(OperationClass::UndefinedOperation.number() != value);
                    }
                },
            }
        }
        parsed
    }

    /// No two values share a name, and every name is parsed back to its value.
    pub proof fn lemma_names_are_distinct()
        ensures
            forall|a: OperationClass, b: OperationClass| a.str_name() == b.str_name() ==> a == b,
            forall|v: OperationClass| Self::named(#[trigger] v.str_name()) == Some(v),
    {
        reveal_strlit("UndefinedOperation");
        reveal_strlit("StoreOperation");
        reveal_strlit("StoreFilterOperation");
        reveal_strlit("ListCategoryOperation");
        reveal_strlit("ListCategoryGroupOperation");
        reveal_strlit("ListCategorizationRuleOperation");
        assert("UndefinedOperation"@.len() == 18);
        assert("StoreOperation"@.len() == 14);
        assert("StoreFilterOperation"@.len() == 20);
        assert("ListCategoryOperation"@.len() == 21);
        assert("ListCategoryGroupOperation"@.len() == 26);
        assert("ListCategorizationRuleOperation"@.len() == 31);
        assert forall|a: OperationClass, b: OperationClass| a.str_name() == b.str_name() implies a == b by {}
        assert forall|v: OperationClass| Self::named(#[trigger] v.str_name()) == Some(v) by {
            let chosen = choose|c: OperationClass| c.str_name() == v.str_name();
            assert(chosen.str_name() == v.str_name());
        }
    }
}

} // verus!
