//! Enumerations nested in the `Tag` message.

use crate::text::str_eq;
use vstd::prelude::*;

verus! {

/// The `TagType` enumeration.
#[derive(Clone, Copy, Debug, PartialEq, Eq, Hash, PartialOrd, Ord, Structural)]
pub enum TagType {
    Generic,
    Product,
    Category,
    Attribute,
}

impl TagType {
    /// The name of the value in the ProtoBuf definition.
    pub open spec fn str_name(self) -> Seq<char> {
        match self {
            TagType::Generic => "TAG_TYPE_GENERIC"@,
            TagType::Product => "TAG_TYPE_PRODUCT"@,
            TagType::Category => "TAG_TYPE_CATEGORY"@,
            TagType::Attribute => "TAG_TYPE_ATTRIBUTE"@,
        }
    }

    /// The number of the value on the wire.
    pub open spec fn number(self) -> i32 {
        match self {
            TagType::Generic => 0,
            TagType::Product => 1,
            TagType::Category => 2,
            TagType::Attribute => 3,
        }
    }

    /// The value that a name stands for, if it names one.
    pub open spec fn named(value: Seq<char>) -> Option<Self> {
        if exists|v: TagType| v.str_name() == value {
            Some(choose|v: TagType| v.str_name() == value)
        } else {
            None
        }
    }

    /// The value with a given number, if there is one.
    pub open spec fn numbered(value: i32) -> Option<Self> {
        if exists|v: TagType| v.number() == value {
            Some(choose|v: TagType| v.number() == value)
        } else {
            None
        }
    }

    /// String value of the enum field names used in the ProtoBuf definition.
    pub fn as_str_name(&self) -> (name: &'static str)
        ensures
            name@ == self.str_name(),
    {
        match self {
            TagType::Generic => "TAG_TYPE_GENERIC",
            TagType::Product => "TAG_TYPE_PRODUCT",
            TagType::Category => "TAG_TYPE_CATEGORY",
            TagType::Attribute => "TAG_TYPE_ATTRIBUTE",
        }
    }

    /// Creates an enum from field names used in the ProtoBuf definition.
    pub fn from_str_name(value: &str) -> (parsed: Option<Self>)
        ensures
            parsed == Self::named(value@),
    {
        let parsed = if str_eq(value, "TAG_TYPE_GENERIC") {
            Some(TagType::Generic)
        } else if str_eq(value, "TAG_TYPE_PRODUCT") {
            Some(TagType::Product)
        } else if str_eq(value, "TAG_TYPE_CATEGORY") {
            Some(TagType::Category)
        } else if str_eq(value, "TAG_TYPE_ATTRIBUTE") {
            Some(TagType::Attribute)
        } else {
            None
        };
        proof {
            TagType::lemma_names_are_distinct();
            match parsed {
                Some(v) => {
                    assert(v.str_name() == value@);
                },
                None => {
                    assert forall|v: TagType| v.str_name() != value@ by {
                        assert(TagType::Generic.str_name() != value@);
                    }
                },
            }
        }
        parsed
    }

    /// The number of the value on the wire.
    pub fn to_i32(self) -> (number: i32)
        ensures
            number == self.number(),
    {
        match self {
            TagType::Generic => 0,
            TagType::Product => 1,
            TagType::Category => 2,
            TagType::Attribute => 3,
        }
    }

    /// Converts a wire number to the value it stands for, or `None` if it stands
    /// for none.
    pub fn from_i32(value: i32) -> (parsed: Option<Self>)
        ensures
            parsed == Self::numbered(value),
    {
        let parsed = if value == 0 {
            Some(TagType::Generic)
        } else if value == 1 {
            Some(TagType::Product)
        } else if value == 2 {
            Some(TagType::Category)
        } else if value == 3 {
            Some(TagType::Attribute)
        } else {
            None
        };
        proof {
            match parsed {
                Some(v) => {
                    assert(v.number() == value);
                },
                None => {
                    assert forall|v: TagType| v.number() != value by {
                        assert(TagType::Generic.number() != value);
                    }
                },
            }
        }
        parsed
    }

    /// No two values share a name, and every name is parsed back to its value.
    pub proof fn lemma_names_are_distinct()
        ensures
            forall|a: TagType, b: TagType| a.str_name() == b.str_name() ==> a == b,
            forall|v: TagType| Self::named(#[trigger] v.str_name()) == Some(v),
    {
        reveal_strlit("TAG_TYPE_GENERIC");
        reveal_strlit("TAG_TYPE_PRODUCT");
        reveal_strlit("TAG_TYPE_CATEGORY");
        reveal_strlit("TAG_TYPE_ATTRIBUTE");
        assert("TAG_TYPE_GENERIC"@.len() == 16);
        assert("TAG_TYPE_PRODUCT"@.len() == 16);
        assert("TAG_TYPE_CATEGORY"@.len() == 17);
        assert("TAG_TYPE_ATTRIBUTE"@.len() == 18);
        assert("TAG_TYPE_GENERIC"@[9] == 'G');
        assert("TAG_TYPE_PRODUCT"@[9] == 'P');
        assert forall|a: TagType, b: TagType| a.str_name() == b.str_name() implies a == b by {}
        assert forall|v: TagType| Self::named(#[trigger] v.str_name()) == Some(v) by {
            let chosen = choose|c: TagType| c.str_name() == v.str_name();
            assert(chosen.str_name() == v.str_name());
        }
    }
}

} // verus!
