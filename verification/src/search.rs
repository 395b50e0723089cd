//! Advanced search filters: the operators, the filter options and the
//! builder that assembles them.

use vstd::prelude::*;
use vstd::std_specs::convert::{FromSpecImpl, TryFromSpecImpl};
use crate::text::{join_text, decimal, decimal_string, text_eq};
use crate::UnknownEnumValue;

verus! {

/// Predicate operators which can be used for the [`FilterOption`]
#[derive(Clone, Copy, Debug, PartialEq, Eq, Structural, Hash, PartialOrd, Ord)]
pub enum PredicateOperator {
    /// EQUALS
    Equals,
    /// NOT_EQUALS
    NotEquals,
    /// IN
    In,
    /// NOT_IN
    NotIn,
    /// BETWEEN
    Between,
    /// IS_NULL
    IsNull,
    /// IS_NOT_NULL
    IsNotNull,
    /// ILIKE
    Ilike,
    /// LIKE
    Like,
    /// GREATER
    Greater,
    /// GREATER_OR_EQUAL
    GreaterOrEqual,
    /// LESS
    Less,
    /// LESS_OR_EQUAL
    LessOrEqual,
    /// GEO_INTERSECT
    GeoIntersect,
    /// GEO_WITHIN
    GeoWithin,
    /// GEO_DISJOINT
    GeoDisjoint,
}

impl PredicateOperator {
    /// The wire value of the variant.
    pub open spec fn spec_value(self) -> i32 {
        match self {
            PredicateOperator::Equals => 0,
            PredicateOperator::NotEquals => 1,
            PredicateOperator::In => 2,
            PredicateOperator::NotIn => 3,
            PredicateOperator::Between => 4,
            PredicateOperator::IsNull => 5,
            PredicateOperator::IsNotNull => 6,
            PredicateOperator::Ilike => 7,
            PredicateOperator::Like => 8,
            PredicateOperator::Greater => 9,
            PredicateOperator::GreaterOrEqual => 10,
            PredicateOperator::Less => 11,
            PredicateOperator::LessOrEqual => 12,
            PredicateOperator::GeoIntersect => 13,
            PredicateOperator::GeoWithin => 14,
            PredicateOperator::GeoDisjoint => 15,
        }
    }

    /// The variant with the given wire value, if any.
    pub open spec fn spec_from_value(value: i32) -> Option<PredicateOperator> {
        if value == 0 {
            Some(PredicateOperator::Equals)
        } else if value == 1 {
            Some(PredicateOperator::NotEquals)
        } else if value == 2 {
            Some(PredicateOperator::In)
        } else if value == 3 {
            Some(PredicateOperator::NotIn)
        } else if value == 4 {
            Some(PredicateOperator::Between)
        } else if value == 5 {
            Some(PredicateOperator::IsNull)
        } else if value == 6 {
            Some(PredicateOperator::IsNotNull)
        } else if value == 7 {
            Some(PredicateOperator::Ilike)
        } else if value == 8 {
            Some(PredicateOperator::Like)
        } else if value == 9 {
            Some(PredicateOperator::Greater)
        } else if value == 10 {
            Some(PredicateOperator::GreaterOrEqual)
        } else if value == 11 {
            Some(PredicateOperator::Less)
        } else if value == 12 {
            Some(PredicateOperator::LessOrEqual)
        } else if value == 13 {
            Some(PredicateOperator::GeoIntersect)
        } else if value == 14 {
            Some(PredicateOperator::GeoWithin)
        } else if value == 15 {
            Some(PredicateOperator::GeoDisjoint)
        } else {
            None
        }
    }

    /// The field name used in the ProtoBuf definition.
    pub open spec fn spec_str_name(self) -> Seq<char> {
        match self {
            PredicateOperator::Equals => "EQUALS"@,
            PredicateOperator::NotEquals => "NOT_EQUALS"@,
            PredicateOperator::In => "IN"@,
            PredicateOperator::NotIn => "NOT_IN"@,
            PredicateOperator::Between => "BETWEEN"@,
            PredicateOperator::IsNull => "IS_NULL"@,
            PredicateOperator::IsNotNull => "IS_NOT_NULL"@,
            PredicateOperator::Ilike => "ILIKE"@,
            PredicateOperator::Like => "LIKE"@,
            PredicateOperator::Greater => "GREATER"@,
            PredicateOperator::GreaterOrEqual => "GREATER_OR_EQUAL"@,
            PredicateOperator::Less => "LESS"@,
            PredicateOperator::LessOrEqual => "LESS_OR_EQUAL"@,
            PredicateOperator::GeoIntersect => "GEO_INTERSECT"@,
            PredicateOperator::GeoWithin => "GEO_WITHIN"@,
            PredicateOperator::GeoDisjoint => "GEO_DISJOINT"@,
        }
    }

    /// The variant whose ProtoBuf field name is `name`, if any.
    pub open spec fn spec_from_str_name(name: Seq<char>) -> Option<PredicateOperator> {
        if name == "EQUALS"@ {
            Some(PredicateOperator::Equals)
        } else if name == "NOT_EQUALS"@ {
            Some(PredicateOperator::NotEquals)
        } else if name == "IN"@ {
            Some(PredicateOperator::In)
        } else if name == "NOT_IN"@ {
            Some(PredicateOperator::NotIn)
        } else if name == "BETWEEN"@ {
            Some(PredicateOperator::Between)
        } else if name == "IS_NULL"@ {
            Some(PredicateOperator::IsNull)
        } else if name == "IS_NOT_NULL"@ {
            Some(PredicateOperator::IsNotNull)
        } else if name == "ILIKE"@ {
            Some(PredicateOperator::Ilike)
        } else if name == "LIKE"@ {
            Some(PredicateOperator::Like)
        } else if name == "GREATER"@ {
            Some(PredicateOperator::Greater)
        } else if name == "GREATER_OR_EQUAL"@ {
            Some(PredicateOperator::GreaterOrEqual)
        } else if name == "LESS"@ {
            Some(PredicateOperator::Less)
        } else if name == "LESS_OR_EQUAL"@ {
            Some(PredicateOperator::LessOrEqual)
        } else if name == "GEO_INTERSECT"@ {
            Some(PredicateOperator::GeoIntersect)
        } else if name == "GEO_WITHIN"@ {
            Some(PredicateOperator::GeoWithin)
        } else if name == "GEO_DISJOINT"@ {
            Some(PredicateOperator::GeoDisjoint)
        } else {
            None
        }
    }

    /// The wire value of the variant.
    pub fn value(&self) -> (r: i32)
        ensures
            r == self.spec_value(),
    {
        match self {
            PredicateOperator::Equals => 0,
            PredicateOperator::NotEquals => 1,
            PredicateOperator::In => 2,
            PredicateOperator::NotIn => 3,
            PredicateOperator::Between => 4,
            PredicateOperator::IsNull => 5,
            PredicateOperator::IsNotNull => 6,
            PredicateOperator::Ilike => 7,
            PredicateOperator::Like => 8,
            PredicateOperator::Greater => 9,
            PredicateOperator::GreaterOrEqual => 10,
            PredicateOperator::Less => 11,
            PredicateOperator::LessOrEqual => 12,
            PredicateOperator::GeoIntersect => 13,
            PredicateOperator::GeoWithin => 14,
            PredicateOperator::GeoDisjoint => 15,
        }
    }

    /// The variant with the given wire value, if any.
    pub fn from_value(value: i32) -> (r: Option<PredicateOperator>)
        ensures
            r == PredicateOperator::spec_from_value(value),
    {
        if value == 0 {
            Some(PredicateOperator::Equals)
        } else if value == 1 {
            Some(PredicateOperator::NotEquals)
        } else if value == 2 {
            Some(PredicateOperator::In)
        } else if value == 3 {
            Some(PredicateOperator::NotIn)
        } else if value == 4 {
            Some(PredicateOperator::Between)
        } else if value == 5 {
            Some(PredicateOperator::IsNull)
        } else if value == 6 {
            Some(PredicateOperator::IsNotNull)
        } else if value == 7 {
            Some(PredicateOperator::Ilike)
        } else if value == 8 {
            Some(PredicateOperator::Like)
        } else if value == 9 {
            Some(PredicateOperator::Greater)
        } else if value == 10 {
            Some(PredicateOperator::GreaterOrEqual)
        } else if value == 11 {
            Some(PredicateOperator::Less)
        } else if value == 12 {
            Some(PredicateOperator::LessOrEqual)
        } else if value == 13 {
            Some(PredicateOperator::GeoIntersect)
        } else if value == 14 {
            Some(PredicateOperator::GeoWithin)
        } else if value == 15 {
            Some(PredicateOperator::GeoDisjoint)
        } else {
            None
        }
    }

    /// String value of the enum field names used in the ProtoBuf definition.
    pub fn as_str_name(&self) -> (r: &'static str)
        ensures
            r@ == self.spec_str_name(),
    {
        match self {
            PredicateOperator::Equals => "EQUALS",
            PredicateOperator::NotEquals => "NOT_EQUALS",
            PredicateOperator::In => "IN",
            PredicateOperator::NotIn => "NOT_IN",
            PredicateOperator::Between => "BETWEEN",
            PredicateOperator::IsNull => "IS_NULL",
            PredicateOperator::IsNotNull => "IS_NOT_NULL",
            PredicateOperator::Ilike => "ILIKE",
            PredicateOperator::Like => "LIKE",
            PredicateOperator::Greater => "GREATER",
            PredicateOperator::GreaterOrEqual => "GREATER_OR_EQUAL",
            PredicateOperator::Less => "LESS",
            PredicateOperator::LessOrEqual => "LESS_OR_EQUAL",
            PredicateOperator::GeoIntersect => "GEO_INTERSECT",
            PredicateOperator::GeoWithin => "GEO_WITHIN",
            PredicateOperator::GeoDisjoint => "GEO_DISJOINT",
        }
    }

    /// Creates an enum from field names used in the ProtoBuf definition.
    pub fn from_str_name(value: &str) -> (r: Option<PredicateOperator>)
        ensures
            r == PredicateOperator::spec_from_str_name(value@),
    {
        if text_eq(value, "EQUALS") {
            Some(PredicateOperator::Equals)
        } else if text_eq(value, "NOT_EQUALS") {
            Some(PredicateOperator::NotEquals)
        } else if text_eq(value, "IN") {
            Some(PredicateOperator::In)
        } else if text_eq(value, "NOT_IN") {
            Some(PredicateOperator::NotIn)
        } else if text_eq(value, "BETWEEN") {
            Some(PredicateOperator::Between)
        } else if text_eq(value, "IS_NULL") {
            Some(PredicateOperator::IsNull)
        } else if text_eq(value, "IS_NOT_NULL") {
            Some(PredicateOperator::IsNotNull)
        } else if text_eq(value, "ILIKE") {
            Some(PredicateOperator::Ilike)
        } else if text_eq(value, "LIKE") {
            Some(PredicateOperator::Like)
        } else if text_eq(value, "GREATER") {
            Some(PredicateOperator::Greater)
        } else if text_eq(value, "GREATER_OR_EQUAL") {
            Some(PredicateOperator::GreaterOrEqual)
        } else if text_eq(value, "LESS") {
            Some(PredicateOperator::Less)
        } else if text_eq(value, "LESS_OR_EQUAL") {
            Some(PredicateOperator::LessOrEqual)
        } else if text_eq(value, "GEO_INTERSECT") {
            Some(PredicateOperator::GeoIntersect)
        } else if text_eq(value, "GEO_WITHIN") {
            Some(PredicateOperator::GeoWithin)
        } else if text_eq(value, "GEO_DISJOINT") {
            Some(PredicateOperator::GeoDisjoint)
        } else {
            None
        }
    }
}

impl TryFrom<i32> for PredicateOperator {
    type Error = UnknownEnumValue;

    fn try_from(value: i32) -> (r: Result<PredicateOperator, UnknownEnumValue>) {
        match PredicateOperator::from_value(value) {
            Some(v) => Ok(v),
            None => Err(UnknownEnumValue(value)),
        }
    }
}

impl TryFromSpecImpl<i32> for PredicateOperator {
    open spec fn obeys_try_from_spec() -> bool {
        true
    }

    open spec fn try_from_spec(value: i32) -> Result<PredicateOperator, UnknownEnumValue> {
        match PredicateOperator::spec_from_value(value) {
            Some(v) => Ok(v),
            None => Err(UnknownEnumValue(value)),
        }
    }
}

impl From<PredicateOperator> for i32 {
    fn from(value: PredicateOperator) -> (r: i32) {
        value.value()
    }
}

impl FromSpecImpl<PredicateOperator> for i32 {
    open spec fn obeys_from_spec() -> bool {
        true
    }

    open spec fn from_spec(value: PredicateOperator) -> i32 {
        value.spec_value()
    }
}

/// Every PredicateOperator is found again from its ProtoBuf field name, and from its
/// wire value; and a wire value that names a variant is that variant's value.
pub proof fn lemma_predicate_operator_names_and_values(op: PredicateOperator, value: i32)
    ensures
        PredicateOperator::spec_from_str_name(op.spec_str_name()) == Some(op),
        PredicateOperator::spec_from_value(op.spec_value()) == Some(op),
        PredicateOperator::spec_from_value(value) == Some(op) ==> op.spec_value() == value,
{
    match op {
        PredicateOperator::Equals => {
            assert(PredicateOperator::spec_from_str_name("EQUALS"@) == Some(PredicateOperator::Equals));
        },
        PredicateOperator::NotEquals => {
            assert("NOT_EQUALS"@ != "EQUALS"@) by {
                reveal_strlit("NOT_EQUALS");
                reveal_strlit("EQUALS");
                assert("NOT_EQUALS"@.len() != "EQUALS"@.len());
            }
            assert(PredicateOperator::spec_from_str_name("NOT_EQUALS"@) == Some(PredicateOperator::NotEquals));
        },
        PredicateOperator::In => {
            assert("IN"@ != "EQUALS"@) by {
                reveal_strlit("IN");
                reveal_strlit("EQUALS");
                assert("IN"@.len() != "EQUALS"@.len());
            }
            assert("IN"@ != "NOT_EQUALS"@) by {
                reveal_strlit("IN");
                reveal_strlit("NOT_EQUALS");
                assert("IN"@.len() != "NOT_EQUALS"@.len());
            }
            assert(PredicateOperator::spec_from_str_name("IN"@) == Some(PredicateOperator::In));
        },
        PredicateOperator::NotIn => {
            assert("NOT_IN"@ != "EQUALS"@) by {
                reveal_strlit("NOT_IN");
                reveal_strlit("EQUALS");
                assert("NOT_IN"@[0] != "EQUALS"@[0]);
            }
            assert("NOT_IN"@ != "NOT_EQUALS"@) by {
                reveal_strlit("NOT_IN");
                reveal_strlit("NOT_EQUALS");
                assert("NOT_IN"@.len() != "NOT_EQUALS"@.len());
            }
            assert("NOT_IN"@ != "IN"@) by {
                reveal_strlit("NOT_IN");
                reveal_strlit("IN");
                assert("NOT_IN"@.len() != "IN"@.len());
            }
            assert(PredicateOperator::spec_from_str_name("NOT_IN"@) == Some(PredicateOperator::NotIn));
        },
        PredicateOperator::Between => {
            assert("BETWEEN"@ != "EQUALS"@) by {
                reveal_strlit("BETWEEN");
                reveal_strlit("EQUALS");
                assert("BETWEEN"@.len() != "EQUALS"@.len());
            }
            assert("BETWEEN"@ != "NOT_EQUALS"@) by {
                reveal_strlit("BETWEEN");
                reveal_strlit("NOT_EQUALS");
                assert("BETWEEN"@.len() != "NOT_EQUALS"@.len());
            }
            assert("BETWEEN"@ != "IN"@) by {
                reveal_strlit("BETWEEN");
                reveal_strlit("IN");
                assert("BETWEEN"@.len() != "IN"@.len());
            }
            assert("BETWEEN"@ != "NOT_IN"@) by {
                reveal_strlit("BETWEEN");
                reveal_strlit("NOT_IN");
                assert("BETWEEN"@.len() != "NOT_IN"@.len());
            }
            assert(PredicateOperator::spec_from_str_name("BETWEEN"@) == Some(PredicateOperator::Between));
        },
        PredicateOperator::IsNull => {
            assert("IS_NULL"@ != "EQUALS"@) by {
                reveal_strlit("IS_NULL");
                reveal_strlit("EQUALS");
                assert("IS_NULL"@.len() != "EQUALS"@.len());
            }
            assert("IS_NULL"@ != "NOT_EQUALS"@) by {
                reveal_strlit("IS_NULL");
                reveal_strlit("NOT_EQUALS");
                assert("IS_NULL"@.len() != "NOT_EQUALS"@.len());
            }
            assert("IS_NULL"@ != "IN"@) by {
                reveal_strlit("IS_NULL");
                reveal_strlit("IN");
                assert("IS_NULL"@.len() != "IN"@.len());
            }
            assert("IS_NULL"@ != "NOT_IN"@) by {
                reveal_strlit("IS_NULL");
                reveal_strlit("NOT_IN");
                assert("IS_NULL"@.len() != "NOT_IN"@.len());
            }
            assert("IS_NULL"@ != "BETWEEN"@) by {
                reveal_strlit("IS_NULL");
                reveal_strlit("BETWEEN");
                assert("IS_NULL"@[0] != "BETWEEN"@[0]);
            }
            assert(PredicateOperator::spec_from_str_name("IS_NULL"@) == Some(PredicateOperator::IsNull));
        },
        PredicateOperator::IsNotNull => {
            assert("IS_NOT_NULL"@ != "EQUALS"@) by {
                reveal_strlit("IS_NOT_NULL");
                reveal_strlit("EQUALS");
                assert("IS_NOT_NULL"@.len() != "EQUALS"@.len());
            }
            assert("IS_NOT_NULL"@ != "NOT_EQUALS"@) by {
                reveal_strlit("IS_NOT_NULL");
                reveal_strlit("NOT_EQUALS");
                assert("IS_NOT_NULL"@.len() != "NOT_EQUALS"@.len());
            }
            assert("IS_NOT_NULL"@ != "IN"@) by {
                reveal_strlit("IS_NOT_NULL");
                reveal_strlit("IN");
                assert("IS_NOT_NULL"@.len() != "IN"@.len());
            }
            assert("IS_NOT_NULL"@ != "NOT_IN"@) by {
                reveal_strlit("IS_NOT_NULL");
                reveal_strlit("NOT_IN");
                assert("IS_NOT_NULL"@.len() != "NOT_IN"@.len());
            }
            assert("IS_NOT_NULL"@ != "BETWEEN"@) by {
                reveal_strlit("IS_NOT_NULL");
                reveal_strlit("BETWEEN");
                assert("IS_NOT_NULL"@.len() != "BETWEEN"@.len());
            }
            assert("IS_NOT_NULL"@ != "IS_NULL"@) by {
                reveal_strlit("IS_NOT_NULL");
                reveal_strlit("IS_NULL");
                assert("IS_NOT_NULL"@.len() != "IS_NULL"@.len());
            }
            assert(PredicateOperator::spec_from_str_name("IS_NOT_NULL"@) == Some(PredicateOperator::IsNotNull));
        },
        PredicateOperator::Ilike => {
            assert("ILIKE"@ != "EQUALS"@) by {
                reveal_strlit("ILIKE");
                reveal_strlit("EQUALS");
                assert("ILIKE"@.len() != "EQUALS"@.len());
            }
            assert("ILIKE"@ != "NOT_EQUALS"@) by {
                reveal_strlit("ILIKE");
                reveal_strlit("NOT_EQUALS");
                assert("ILIKE"@.len() != "NOT_EQUALS"@.len());
            }
            assert("ILIKE"@ != "IN"@) by {
                reveal_strlit("ILIKE");
                reveal_strlit("IN");
                assert("ILIKE"@.len() != "IN"@.len());
            }
            assert("ILIKE"@ != "NOT_IN"@) by {
                reveal_strlit("ILIKE");
                reveal_strlit("NOT_IN");
                assert("ILIKE"@.len() != "NOT_IN"@.len());
            }
            assert("ILIKE"@ != "BETWEEN"@) by {
                reveal_strlit("ILIKE");
                reveal_strlit("BETWEEN");
                assert("ILIKE"@.len() != "BETWEEN"@.len());
            }
            assert("ILIKE"@ != "IS_NULL"@) by {
                reveal_strlit("ILIKE");
                reveal_strlit("IS_NULL");
                assert("ILIKE"@.len() != "IS_NULL"@.len());
            }
            assert("ILIKE"@ != "IS_NOT_NULL"@) by {
                reveal_strlit("ILIKE");
                reveal_strlit("IS_NOT_NULL");
                assert("ILIKE"@.len() != "IS_NOT_NULL"@.len());
            }
            assert(PredicateOperator::spec_from_str_name("ILIKE"@) == Some(PredicateOperator::Ilike));
        },
        PredicateOperator::Like => {
            assert("LIKE"@ != "EQUALS"@) by {
                reveal_strlit("LIKE");
                reveal_strlit("EQUALS");
                assert("LIKE"@.len() != "EQUALS"@.len());
            }
            assert("LIKE"@ != "NOT_EQUALS"@) by {
                reveal_strlit("LIKE");
                reveal_strlit("NOT_EQUALS");
                assert("LIKE"@.len() != "NOT_EQUALS"@.len());
            }
            assert("LIKE"@ != "IN"@) by {
                reveal_strlit("LIKE");
                reveal_strlit("IN");
                assert("LIKE"@.len() != "IN"@.len());
            }
            assert("LIKE"@ != "NOT_IN"@) by {
                reveal_strlit("LIKE");
                reveal_strlit("NOT_IN");
                assert("LIKE"@.len() != "NOT_IN"@.len());
            }
            assert("LIKE"@ != "BETWEEN"@) by {
                reveal_strlit("LIKE");
                reveal_strlit("BETWEEN");
                assert("LIKE"@.len() != "BETWEEN"@.len());
            }
            assert("LIKE"@ != "IS_NULL"@) by {
                reveal_strlit("LIKE");
                reveal_strlit("IS_NULL");
                assert("LIKE"@.len() != "IS_NULL"@.len());
            }
            assert("LIKE"@ != "IS_NOT_NULL"@) by {
                reveal_strlit("LIKE");
                reveal_strlit("IS_NOT_NULL");
                assert("LIKE"@.len() != "IS_NOT_NULL"@.len());
            }
            assert("LIKE"@ != "ILIKE"@) by {
                reveal_strlit("LIKE");
                reveal_strlit("ILIKE");
                assert("LIKE"@.len() != "ILIKE"@.len());
            }
            assert(PredicateOperator::spec_from_str_name("LIKE"@) == Some(PredicateOperator::Like));
        },
        PredicateOperator::Greater => {
            assert("GREATER"@ != "EQUALS"@) by {
                reveal_strlit("GREATER");
                reveal_strlit("EQUALS");
                assert("GREATER"@.len() != "EQUALS"@.len());
            }
            assert("GREATER"@ != "NOT_EQUALS"@) by {
                reveal_strlit("GREATER");
                reveal_strlit("NOT_EQUALS");
                assert("GREATER"@.len() != "NOT_EQUALS"@.len());
            }
            assert("GREATER"@ != "IN"@) by {
                reveal_strlit("GREATER");
                reveal_strlit("IN");
                assert("GREATER"@.len() != "IN"@.len());
            }
            assert("GREATER"@ != "NOT_IN"@) by {
                reveal_strlit("GREATER");
                reveal_strlit("NOT_IN");
                assert("GREATER"@.len() != "NOT_IN"@.len());
            }
            assert("GREATER"@ != "BETWEEN"@) by {
                reveal_strlit("GREATER");
                reveal_strlit("BETWEEN");
                assert("GREATER"@[0] != "BETWEEN"@[0]);
            }
            assert("GREATER"@ != "IS_NULL"@) by {
                reveal_strlit("GREATER");
                reveal_strlit("IS_NULL");
                assert("GREATER"@[0] != "IS_NULL"@[0]);
            }
            assert("GREATER"@ != "IS_NOT_NULL"@) by {
                reveal_strlit("GREATER");
                reveal_strlit("IS_NOT_NULL");
                assert("GREATER"@.len() != "IS_NOT_NULL"@.len());
            }
            assert("GREATER"@ != "ILIKE"@) by {
                reveal_strlit("GREATER");
                reveal_strlit("ILIKE");
                assert("GREATER"@.len() != "ILIKE"@.len());
            }
            assert("GREATER"@ != "LIKE"@) by {
                reveal_strlit("GREATER");
                reveal_strlit("LIKE");
                assert("GREATER"@.len() != "LIKE"@.len());
            }
            assert(PredicateOperator::spec_from_str_name("GREATER"@) == Some(PredicateOperator::Greater));
        },
        PredicateOperator::GreaterOrEqual => {
            assert("GREATER_OR_EQUAL"@ != "EQUALS"@) by {
                reveal_strlit("GREATER_OR_EQUAL");
                reveal_strlit("EQUALS");
                assert("GREATER_OR_EQUAL"@.len() != "EQUALS"@.len());
            }
            assert("GREATER_OR_EQUAL"@ != "NOT_EQUALS"@) by {
                reveal_strlit("GREATER_OR_EQUAL");
                reveal_strlit("NOT_EQUALS");
                assert("GREATER_OR_EQUAL"@.len() != "NOT_EQUALS"@.len());
            }
            assert("GREATER_OR_EQUAL"@ != "IN"@) by {
                reveal_strlit("GREATER_OR_EQUAL");
                reveal_strlit("IN");
                assert("GREATER_OR_EQUAL"@.len() != "IN"@.len());
            }
            assert("GREATER_OR_EQUAL"@ != "NOT_IN"@) by {
                reveal_strlit("GREATER_OR_EQUAL");
                reveal_strlit("NOT_IN");
                assert("GREATER_OR_EQUAL"@.len() != "NOT_IN"@.len());
            }
            assert("GREATER_OR_EQUAL"@ != "BETWEEN"@) by {
                reveal_strlit("GREATER_OR_EQUAL");
                reveal_strlit("BETWEEN");
                assert("GREATER_OR_EQUAL"@.len() != "BETWEEN"@.len());
            }
            assert("GREATER_OR_EQUAL"@ != "IS_NULL"@) by {
                reveal_strlit("GREATER_OR_EQUAL");
                reveal_strlit("IS_NULL");
                assert("GREATER_OR_EQUAL"@.len() != "IS_NULL"@.len());
            }
            assert("GREATER_OR_EQUAL"@ != "IS_NOT_NULL"@) by {
                reveal_strlit("GREATER_OR_EQUAL");
                reveal_strlit("IS_NOT_NULL");
                assert("GREATER_OR_EQUAL"@.len() != "IS_NOT_NULL"@.len());
            }
            assert("GREATER_OR_EQUAL"@ != "ILIKE"@) by {
                reveal_strlit("GREATER_OR_EQUAL");
                reveal_strlit("ILIKE");
                assert("GREATER_OR_EQUAL"@.len() != "ILIKE"@.len());
            }
            assert("GREATER_OR_EQUAL"@ != "LIKE"@) by {
                reveal_strlit("GREATER_OR_EQUAL");
                reveal_strlit("LIKE");
                assert("GREATER_OR_EQUAL"@.len() != "LIKE"@.len());
            }
            assert("GREATER_OR_EQUAL"@ != "GREATER"@) by {
                reveal_strlit("GREATER_OR_EQUAL");
                reveal_strlit("GREATER");
                assert("GREATER_OR_EQUAL"@.len() != "GREATER"@.len());
            }
            assert(PredicateOperator::spec_from_str_name("GREATER_OR_EQUAL"@) == Some(PredicateOperator::GreaterOrEqual));
        },
        PredicateOperator::Less => {
            assert("LESS"@ != "EQUALS"@) by {
                reveal_strlit("LESS");
                reveal_strlit("EQUALS");
                assert("LESS"@.len() != "EQUALS"@.len());
            }
            assert("LESS"@ != "NOT_EQUALS"@) by {
                reveal_strlit("LESS");
                reveal_strlit("NOT_EQUALS");
                assert("LESS"@.len() != "NOT_EQUALS"@.len());
            }
            assert("LESS"@ != "IN"@) by {
                reveal_strlit("LESS");
                reveal_strlit("IN");
                assert("LESS"@.len() != "IN"@.len());
            }
            assert("LESS"@ != "NOT_IN"@) by {
                reveal_strlit("LESS");
                reveal_strlit("NOT_IN");
                assert("LESS"@.len() != "NOT_IN"@.len());
            }
            assert("LESS"@ != "BETWEEN"@) by {
                reveal_strlit("LESS");
                reveal_strlit("BETWEEN");
                assert("LESS"@.len() != "BETWEEN"@.len());
            }
            assert("LESS"@ != "IS_NULL"@) by {
                reveal_strlit("LESS");
                reveal_strlit("IS_NULL");
                assert("LESS"@.len() != "IS_NULL"@.len());
            }
            assert("LESS"@ != "IS_NOT_NULL"@) by {
                reveal_strlit("LESS");
                reveal_strlit("IS_NOT_NULL");
                assert("LESS"@.len() != "IS_NOT_NULL"@.len());
            }
            assert("LESS"@ != "ILIKE"@) by {
                reveal_strlit("LESS");
                reveal_strlit("ILIKE");
                assert("LESS"@.len() != "ILIKE"@.len());
            }
            assert("LESS"@ != "LIKE"@) by {
                reveal_strlit("LESS");
                reveal_strlit("LIKE");
                assert("LESS"@[1] != "LIKE"@[1]);
            }
            assert("LESS"@ != "GREATER"@) by {
                reveal_strlit("LESS");
                reveal_strlit("GREATER");
                assert("LESS"@.len() != "GREATER"@.len());
            }
            assert("LESS"@ != "GREATER_OR_EQUAL"@) by {
                reveal_strlit("LESS");
                reveal_strlit("GREATER_OR_EQUAL");
                assert("LESS"@.len() != "GREATER_OR_EQUAL"@.len());
            }
            assert(PredicateOperator::spec_from_str_name("LESS"@) == Some(PredicateOperator::Less));
        },
        PredicateOperator::LessOrEqual => {
            assert("LESS_OR_EQUAL"@ != "EQUALS"@) by {
                reveal_strlit("LESS_OR_EQUAL");
                reveal_strlit("EQUALS");
                assert("LESS_OR_EQUAL"@.len() != "EQUALS"@.len());
            }
            assert("LESS_OR_EQUAL"@ != "NOT_EQUALS"@) by {
                reveal_strlit("LESS_OR_EQUAL");
                reveal_strlit("NOT_EQUALS");
                assert("LESS_OR_EQUAL"@.len() != "NOT_EQUALS"@.len());
            }
            assert("LESS_OR_EQUAL"@ != "IN"@) by {
                reveal_strlit("LESS_OR_EQUAL");
                reveal_strlit("IN");
                assert("LESS_OR_EQUAL"@.len() != "IN"@.len());
            }
            assert("LESS_OR_EQUAL"@ != "NOT_IN"@) by {
                reveal_strlit("LESS_OR_EQUAL");
                reveal_strlit("NOT_IN");
                assert("LESS_OR_EQUAL"@.len() != "NOT_IN"@.len());
            }
            assert("LESS_OR_EQUAL"@ != "BETWEEN"@) by {
                reveal_strlit("LESS_OR_EQUAL");
                reveal_strlit("BETWEEN");
                assert("LESS_OR_EQUAL"@.len() != "BETWEEN"@.len());
            }
            assert("LESS_OR_EQUAL"@ != "IS_NULL"@) by {
                reveal_strlit("LESS_OR_EQUAL");
                reveal_strlit("IS_NULL");
                assert("LESS_OR_EQUAL"@.len() != "IS_NULL"@.len());
            }
            assert("LESS_OR_EQUAL"@ != "IS_NOT_NULL"@) by {
                reveal_strlit("LESS_OR_EQUAL");
                reveal_strlit("IS_NOT_NULL");
                assert("LESS_OR_EQUAL"@.len() != "IS_NOT_NULL"@.len());
            }
            assert("LESS_OR_EQUAL"@ != "ILIKE"@) by {
                reveal_strlit("LESS_OR_EQUAL");
                reveal_strlit("ILIKE");
                assert("LESS_OR_EQUAL"@.len() != "ILIKE"@.len());
            }
            assert("LESS_OR_EQUAL"@ != "LIKE"@) by {
                reveal_strlit("LESS_OR_EQUAL");
                reveal_strlit("LIKE");
                assert("LESS_OR_EQUAL"@.len() != "LIKE"@.len());
            }
            assert("LESS_OR_EQUAL"@ != "GREATER"@) by {
                reveal_strlit("LESS_OR_EQUAL");
                reveal_strlit("GREATER");
                assert("LESS_OR_EQUAL"@.len() != "GREATER"@.len());
            }
            assert("LESS_OR_EQUAL"@ != "GREATER_OR_EQUAL"@) by {
                reveal_strlit("LESS_OR_EQUAL");
                reveal_strlit("GREATER_OR_EQUAL");
                assert("LESS_OR_EQUAL"@.len() != "GREATER_OR_EQUAL"@.len());
            }
            assert("LESS_OR_EQUAL"@ != "LESS"@) by {
                reveal_strlit("LESS_OR_EQUAL");
                reveal_strlit("LESS");
                assert("LESS_OR_EQUAL"@.len() != "LESS"@.len());
            }
            assert(PredicateOperator::spec_from_str_name("LESS_OR_EQUAL"@) == Some(PredicateOperator::LessOrEqual));
        },
        PredicateOperator::GeoIntersect => {
            assert("GEO_INTERSECT"@ != "EQUALS"@) by {
                reveal_strlit("GEO_INTERSECT");
                reveal_strlit("EQUALS");
                assert("GEO_INTERSECT"@.len() != "EQUALS"@.len());
            }
            assert("GEO_INTERSECT"@ != "NOT_EQUALS"@) by {
                reveal_strlit("GEO_INTERSECT");
                reveal_strlit("NOT_EQUALS");
                assert("GEO_INTERSECT"@.len() != "NOT_EQUALS"@.len());
            }
            assert("GEO_INTERSECT"@ != "IN"@) by {
                reveal_strlit("GEO_INTERSECT");
                reveal_strlit("IN");
                assert("GEO_INTERSECT"@.len() != "IN"@.len());
            }
            assert("GEO_INTERSECT"@ != "NOT_IN"@) by {
                reveal_strlit("GEO_INTERSECT");
                reveal_strlit("NOT_IN");
                assert("GEO_INTERSECT"@.len() != "NOT_IN"@.len());
            }
            assert("GEO_INTERSECT"@ != "BETWEEN"@) by {
                reveal_strlit("GEO_INTERSECT");
                reveal_strlit("BETWEEN");
                assert("GEO_INTERSECT"@.len() != "BETWEEN"@.len());
            }
            assert("GEO_INTERSECT"@ != "IS_NULL"@) by {
                reveal_strlit("GEO_INTERSECT");
                reveal_strlit("IS_NULL");
                assert("GEO_INTERSECT"@.len() != "IS_NULL"@.len());
            }
            assert("GEO_INTERSECT"@ != "IS_NOT_NULL"@) by {
                reveal_strlit("GEO_INTERSECT");
                reveal_strlit("IS_NOT_NULL");
                assert("GEO_INTERSECT"@.len() != "IS_NOT_NULL"@.len());
            }
            assert("GEO_INTERSECT"@ != "ILIKE"@) by {
                reveal_strlit("GEO_INTERSECT");
                reveal_strlit("ILIKE");
                assert("GEO_INTERSECT"@.len() != "ILIKE"@.len());
            }
            assert("GEO_INTERSECT"@ != "LIKE"@) by {
                reveal_strlit("GEO_INTERSECT");
                reveal_strlit("LIKE");
                assert("GEO_INTERSECT"@.len() != "LIKE"@.len());
            }
            assert("GEO_INTERSECT"@ != "GREATER"@) by {
                reveal_strlit("GEO_INTERSECT");
                reveal_strlit("GREATER");
                assert("GEO_INTERSECT"@.len() != "GREATER"@.len());
            }
            assert("GEO_INTERSECT"@ != "GREATER_OR_EQUAL"@) by {
                reveal_strlit("GEO_INTERSECT");
                reveal_strlit("GREATER_OR_EQUAL");
                assert("GEO_INTERSECT"@.len() != "GREATER_OR_EQUAL"@.len());
            }
            assert("GEO_INTERSECT"@ != "LESS"@) by {
                reveal_strlit("GEO_INTERSECT");
                reveal_strlit("LESS");
                assert("GEO_INTERSECT"@.len() != "LESS"@.len());
            }
            assert("GEO_INTERSECT"@ != "LESS_OR_EQUAL"@) by {
                reveal_strlit("GEO_INTERSECT");
                reveal_strlit("LESS_OR_EQUAL");
                assert("GEO_INTERSECT"@[0] != "LESS_OR_EQUAL"@[0]);
            }
            assert(PredicateOperator::spec_from_str_name("GEO_INTERSECT"@) == Some(PredicateOperator::GeoIntersect));
        },
        PredicateOperator::GeoWithin => {
            assert("GEO_WITHIN"@ != "EQUALS"@) by {
                reveal_strlit("GEO_WITHIN");
                reveal_strlit("EQUALS");
                assert("GEO_WITHIN"@.len() != "EQUALS"@.len());
            }
            assert("GEO_WITHIN"@ != "NOT_EQUALS"@) by {
                reveal_strlit("GEO_WITHIN");
                reveal_strlit("NOT_EQUALS");
                assert("GEO_WITHIN"@[0] != "NOT_EQUALS"@[0]);
            }
            assert("GEO_WITHIN"@ != "IN"@) by {
                reveal_strlit("GEO_WITHIN");
                reveal_strlit("IN");
                assert("GEO_WITHIN"@.len() != "IN"@.len());
            }
            assert("GEO_WITHIN"@ != "NOT_IN"@) by {
                reveal_strlit("GEO_WITHIN");
                reveal_strlit("NOT_IN");
                assert("GEO_WITHIN"@.len() != "NOT_IN"@.len());
            }
            assert("GEO_WITHIN"@ != "BETWEEN"@) by {
                reveal_strlit("GEO_WITHIN");
                reveal_strlit("BETWEEN");
                assert("GEO_WITHIN"@.len() != "BETWEEN"@.len());
            }
            assert("GEO_WITHIN"@ != "IS_NULL"@) by {
                reveal_strlit("GEO_WITHIN");
                reveal_strlit("IS_NULL");
                assert("GEO_WITHIN"@.len() != "IS_NULL"@.len());
            }
            assert("GEO_WITHIN"@ != "IS_NOT_NULL"@) by {
                reveal_strlit("GEO_WITHIN");
                reveal_strlit("IS_NOT_NULL");
                assert("GEO_WITHIN"@.len() != "IS_NOT_NULL"@.len());
            }
            assert("GEO_WITHIN"@ != "ILIKE"@) by {
                reveal_strlit("GEO_WITHIN");
                reveal_strlit("ILIKE");
                assert("GEO_WITHIN"@.len() != "ILIKE"@.len());
            }
            assert("GEO_WITHIN"@ != "LIKE"@) by {
                reveal_strlit("GEO_WITHIN");
                reveal_strlit("LIKE");
                assert("GEO_WITHIN"@.len() != "LIKE"@.len());
            }
            assert("GEO_WITHIN"@ != "GREATER"@) by {
                reveal_strlit("GEO_WITHIN");
                reveal_strlit("GREATER");
                assert("GEO_WITHIN"@.len() != "GREATER"@.len());
            }
            assert("GEO_WITHIN"@ != "GREATER_OR_EQUAL"@) by {
                reveal_strlit("GEO_WITHIN");
                reveal_strlit("GREATER_OR_EQUAL");
                assert("GEO_WITHIN"@.len() != "GREATER_OR_EQUAL"@.len());
            }
            assert("GEO_WITHIN"@ != "LESS"@) by {
                reveal_strlit("GEO_WITHIN");
                reveal_strlit("LESS");
                assert("GEO_WITHIN"@.len() != "LESS"@.len());
            }
            assert("GEO_WITHIN"@ != "LESS_OR_EQUAL"@) by {
                reveal_strlit("GEO_WITHIN");
                reveal_strlit("LESS_OR_EQUAL");
                assert("GEO_WITHIN"@.len() != "LESS_OR_EQUAL"@.len());
            }
            assert("GEO_WITHIN"@ != "GEO_INTERSECT"@) by {
                reveal_strlit("GEO_WITHIN");
                reveal_strlit("GEO_INTERSECT");
                assert("GEO_WITHIN"@.len() != "GEO_INTERSECT"@.len());
            }
            assert(PredicateOperator::spec_from_str_name("GEO_WITHIN"@) == Some(PredicateOperator::GeoWithin));
        },
        PredicateOperator::GeoDisjoint => {
            assert("GEO_DISJOINT"@ != "EQUALS"@) by {
                reveal_strlit("GEO_DISJOINT");
                reveal_strlit("EQUALS");
                assert("GEO_DISJOINT"@.len() != "EQUALS"@.len());
            }
            assert("GEO_DISJOINT"@ != "NOT_EQUALS"@) by {
                reveal_strlit("GEO_DISJOINT");
                reveal_strlit("NOT_EQUALS");
                assert("GEO_DISJOINT"@.len() != "NOT_EQUALS"@.len());
            }
            assert("GEO_DISJOINT"@ != "IN"@) by {
                reveal_strlit("GEO_DISJOINT");
                reveal_strlit("IN");
                assert("GEO_DISJOINT"@.len() != "IN"@.len());
            }
            assert("GEO_DISJOINT"@ != "NOT_IN"@) by {
                reveal_strlit("GEO_DISJOINT");
                reveal_strlit("NOT_IN");
                assert("GEO_DISJOINT"@.len() != "NOT_IN"@.len());
            }
            assert("GEO_DISJOINT"@ != "BETWEEN"@) by {
                reveal_strlit("GEO_DISJOINT");
                reveal_strlit("BETWEEN");
                assert("GEO_DISJOINT"@.len() != "BETWEEN"@.len());
            }
            assert("GEO_DISJOINT"@ != "IS_NULL"@) by {
                reveal_strlit("GEO_DISJOINT");
                reveal_strlit("IS_NULL");
                assert("GEO_DISJOINT"@.len() != "IS_NULL"@.len());
            }
            assert("GEO_DISJOINT"@ != "IS_NOT_NULL"@) by {
                reveal_strlit("GEO_DISJOINT");
                reveal_strlit("IS_NOT_NULL");
                assert("GEO_DISJOINT"@.len() != "IS_NOT_NULL"@.len());
            }
            assert("GEO_DISJOINT"@ != "ILIKE"@) by {
                reveal_strlit("GEO_DISJOINT");
                reveal_strlit("ILIKE");
                assert("GEO_DISJOINT"@.len() != "ILIKE"@.len());
            }
            assert("GEO_DISJOINT"@ != "LIKE"@) by {
                reveal_strlit("GEO_DISJOINT");
                reveal_strlit("LIKE");
                assert("GEO_DISJOINT"@.len() != "LIKE"@.len());
            }
            assert("GEO_DISJOINT"@ != "GREATER"@) by {
                reveal_strlit("GEO_DISJOINT");
                reveal_strlit("GREATER");
                assert("GEO_DISJOINT"@.len() != "GREATER"@.len());
            }
            assert("GEO_DISJOINT"@ != "GREATER_OR_EQUAL"@) by {
                reveal_strlit("GEO_DISJOINT");
                reveal_strlit("GREATER_OR_EQUAL");
                assert("GEO_DISJOINT"@.len() != "GREATER_OR_EQUAL"@.len());
            }
            assert("GEO_DISJOINT"@ != "LESS"@) by {
                reveal_strlit("GEO_DISJOINT");
                reveal_strlit("LESS");
                assert("GEO_DISJOINT"@.len() != "LESS"@.len());
            }
            assert("GEO_DISJOINT"@ != "LESS_OR_EQUAL"@) by {
                reveal_strlit("GEO_DISJOINT");
                reveal_strlit("LESS_OR_EQUAL");
                assert("GEO_DISJOINT"@.len() != "LESS_OR_EQUAL"@.len());
            }
            assert("GEO_DISJOINT"@ != "GEO_INTERSECT"@) by {
                reveal_strlit("GEO_DISJOINT");
                reveal_strlit("GEO_INTERSECT");
                assert("GEO_DISJOINT"@.len() != "GEO_INTERSECT"@.len());
            }
            assert("GEO_DISJOINT"@ != "GEO_WITHIN"@) by {
                reveal_strlit("GEO_DISJOINT");
                reveal_strlit("GEO_WITHIN");
                assert("GEO_DISJOINT"@.len() != "GEO_WITHIN"@.len());
            }
            assert(PredicateOperator::spec_from_str_name("GEO_DISJOINT"@) == Some(PredicateOperator::GeoDisjoint));
        },
    }
}
/// Comparison operators which can be used to combine multiple [`FilterOption`]s
#[derive(Clone, Copy, Debug, PartialEq, Eq, Structural, Hash, PartialOrd, Ord)]
pub enum ComparisonOperator {
    /// AND
    And,
    /// OR
    Or,
}

impl ComparisonOperator {
    /// The wire value of the variant.
    pub open spec fn spec_value(self) -> i32 {
        match self {
            ComparisonOperator::And => 0,
            ComparisonOperator::Or => 1,
        }
    }

    /// The variant with the given wire value, if any.
    pub open spec fn spec_from_value(value: i32) -> Option<ComparisonOperator> {
        if value == 0 {
            Some(ComparisonOperator::And)
        } else if value == 1 {
            Some(ComparisonOperator::Or)
        } else {
            None
        }
    }

    /// The field name used in the ProtoBuf definition.
    pub open spec fn spec_str_name(self) -> Seq<char> {
        match self {
            ComparisonOperator::And => "AND"@,
            ComparisonOperator::Or => "OR"@,
        }
    }

    /// The variant whose ProtoBuf field name is `name`, if any.
    pub open spec fn spec_from_str_name(name: Seq<char>) -> Option<ComparisonOperator> {
        if name == "AND"@ {
            Some(ComparisonOperator::And)
        } else if name == "OR"@ {
            Some(ComparisonOperator::Or)
        } else {
            None
        }
    }

    /// The wire value of the variant.
    pub fn value(&self) -> (r: i32)
        ensures
            r == self.spec_value(),
    {
        match self {
            ComparisonOperator::And => 0,
            ComparisonOperator::Or => 1,
        }
    }

    /// The variant with the given wire value, if any.
    pub fn from_value(value: i32) -> (r: Option<ComparisonOperator>)
        ensures
            r == ComparisonOperator::spec_from_value(value),
    {
        if value == 0 {
            Some(ComparisonOperator::And)
        } else if value == 1 {
            Some(ComparisonOperator::Or)
        } else {
            None
        }
    }

    /// String value of the enum field names used in the ProtoBuf definition.
    pub fn as_str_name(&self) -> (r: &'static str)
        ensures
            r@ == self.spec_str_name(),
    {
        match self {
            ComparisonOperator::And => "AND",
            ComparisonOperator::Or => "OR",
        }
    }

    /// Creates an enum from field names used in the ProtoBuf definition.
    pub fn from_str_name(value: &str) -> (r: Option<ComparisonOperator>)
        ensures
            r == ComparisonOperator::spec_from_str_name(value@),
    {
        if text_eq(value, "AND") {
            Some(ComparisonOperator::And)
        } else if text_eq(value, "OR") {
            Some(ComparisonOperator::Or)
        } else {
            None
        }
    }
}

impl TryFrom<i32> for ComparisonOperator {
    type Error = UnknownEnumValue;

    fn try_from(value: i32) -> (r: Result<ComparisonOperator, UnknownEnumValue>) {
        match ComparisonOperator::from_value(value) {
            Some(v) => Ok(v),
            None => Err(UnknownEnumValue(value)),
        }
    }
}

impl TryFromSpecImpl<i32> for ComparisonOperator {
    open spec fn obeys_try_from_spec() -> bool {
        true
    }

    open spec fn try_from_spec(value: i32) -> Result<ComparisonOperator, UnknownEnumValue> {
        match ComparisonOperator::spec_from_value(value) {
            Some(v) => Ok(v),
            None => Err(UnknownEnumValue(value)),
        }
    }
}

impl From<ComparisonOperator> for i32 {
    fn from(value: ComparisonOperator) -> (r: i32) {
        value.value()
    }
}

impl FromSpecImpl<ComparisonOperator> for i32 {
    open spec fn obeys_from_spec() -> bool {
        true
    }

    open spec fn from_spec(value: ComparisonOperator) -> i32 {
        value.spec_value()
    }
}

/// Every ComparisonOperator is found again from its ProtoBuf field name, and from its
/// wire value; and a wire value that names a variant is that variant's value.
pub proof fn lemma_comparison_operator_names_and_values(op: ComparisonOperator, value: i32)
    ensures
        ComparisonOperator::spec_from_str_name(op.spec_str_name()) == Some(op),
        ComparisonOperator::spec_from_value(op.spec_value()) == Some(op),
        ComparisonOperator::spec_from_value(value) == Some(op) ==> op.spec_value() == value,
{
    match op {
        ComparisonOperator::And => {
            assert(ComparisonOperator::spec_from_str_name("AND"@) == Some(ComparisonOperator::And));
        },
        ComparisonOperator::Or => {
            assert("OR"@ != "AND"@) by {
                reveal_strlit("OR");
                reveal_strlit("AND");
                assert("OR"@.len() != "AND"@.len());
            }
            assert(ComparisonOperator::spec_from_str_name("OR"@) == Some(ComparisonOperator::Or));
        },
    }
}
/// Sort order of search results
#[derive(Clone, Copy, Debug, PartialEq, Eq, Structural, Hash, PartialOrd, Ord)]
pub enum SortOrder {
    /// ASC
    Asc,
    /// DESC
    Desc,
}

impl SortOrder {
    /// The wire value of the variant.
    pub open spec fn spec_value(self) -> i32 {
        match self {
            SortOrder::Asc => 0,
            SortOrder::Desc => 1,
        }
    }

    /// The variant with the given wire value, if any.
    pub open spec fn spec_from_value(value: i32) -> Option<SortOrder> {
        if value == 0 {
            Some(SortOrder::Asc)
        } else if value == 1 {
            Some(SortOrder::Desc)
        } else {
            None
        }
    }

    /// The field name used in the ProtoBuf definition.
    pub open spec fn spec_str_name(self) -> Seq<char> {
        match self {
            SortOrder::Asc => "ASC"@,
            SortOrder::Desc => "DESC"@,
        }
    }

    /// The variant whose ProtoBuf field name is `name`, if any.
    pub open spec fn spec_from_str_name(name: Seq<char>) -> Option<SortOrder> {
        if name == "ASC"@ {
            Some(SortOrder::Asc)
        } else if name == "DESC"@ {
            Some(SortOrder::Desc)
        } else {
            None
        }
    }

    /// The wire value of the variant.
    pub fn value(&self) -> (r: i32)
        ensures
            r == self.spec_value(),
    {
        match self {
            SortOrder::Asc => 0,
            SortOrder::Desc => 1,
        }
    }

    /// The variant with the given wire value, if any.
    pub fn from_value(value: i32) -> (r: Option<SortOrder>)
        ensures
            r == SortOrder::spec_from_value(value),
    {
        if value == 0 {
            Some(SortOrder::Asc)
        } else if value == 1 {
            Some(SortOrder::Desc)
        } else {
            None
        }
    }

    /// String value of the enum field names used in the ProtoBuf definition.
    pub fn as_str_name(&self) -> (r: &'static str)
        ensures
            r@ == self.spec_str_name(),
    {
        match self {
            SortOrder::Asc => "ASC",
            SortOrder::Desc => "DESC",
        }
    }

    /// Creates an enum from field names used in the ProtoBuf definition.
    pub fn from_str_name(value: &str) -> (r: Option<SortOrder>)
        ensures
            r == SortOrder::spec_from_str_name(value@),
    {
        if text_eq(value, "ASC") {
            Some(SortOrder::Asc)
        } else if text_eq(value, "DESC") {
            Some(SortOrder::Desc)
        } else {
            None
        }
    }
}

impl TryFrom<i32> for SortOrder {
    type Error = UnknownEnumValue;

    fn try_from(value: i32) -> (r: Result<SortOrder, UnknownEnumValue>) {
        match SortOrder::from_value(value) {
            Some(v) => Ok(v),
            None => Err(UnknownEnumValue(value)),
        }
    }
}

impl TryFromSpecImpl<i32> for SortOrder {
    open spec fn obeys_try_from_spec() -> bool {
        true
    }

    open spec fn try_from_spec(value: i32) -> Result<SortOrder, UnknownEnumValue> {
        match SortOrder::spec_from_value(value) {
            Some(v) => Ok(v),
            None => Err(UnknownEnumValue(value)),
        }
    }
}

impl From<SortOrder> for i32 {
    fn from(value: SortOrder) -> (r: i32) {
        value.value()
    }
}

impl FromSpecImpl<SortOrder> for i32 {
    open spec fn obeys_from_spec() -> bool {
        true
    }

    open spec fn from_spec(value: SortOrder) -> i32 {
        value.spec_value()
    }
}

/// Every SortOrder is found again from its ProtoBuf field name, and from its
/// wire value; and a wire value that names a variant is that variant's value.
pub proof fn lemma_sort_order_names_and_values(op: SortOrder, value: i32)
    ensures
        SortOrder::spec_from_str_name(op.spec_str_name()) == Some(op),
        SortOrder::spec_from_value(op.spec_value()) == Some(op),
        SortOrder::spec_from_value(value) == Some(op) ==> op.spec_value() == value,
{
    match op {
        SortOrder::Asc => {
            assert(SortOrder::spec_from_str_name("ASC"@) == Some(SortOrder::Asc));
        },
        SortOrder::Desc => {
            assert("DESC"@ != "ASC"@) by {
                reveal_strlit("DESC");
                reveal_strlit("ASC");
                assert("DESC"@.len() != "ASC"@.len());
            }
            assert(SortOrder::spec_from_str_name("DESC"@) == Some(SortOrder::Desc));
        },
    }
}
/// A single condition of an [`AdvancedSearchFilter`].
pub struct FilterOption {
    /// name of the field to search on
    pub search_field: String,
    /// values to compare the field with
    pub search_value: Vec<String>,
    /// wire value of a [`PredicateOperator`]
    pub predicate_operator: i32,
    /// wire value of a [`ComparisonOperator`], combining this condition with the previous ones
    pub comparison_operator: Option<i32>,
}

/// What a [`FilterOption`] holds, as values.
pub struct FilterOptionView {
    pub search_field: Seq<char>,
    pub search_value: Seq<Seq<char>>,
    pub predicate_operator: i32,
    pub comparison_operator: Option<i32>,
}

impl View for FilterOption {
    type V = FilterOptionView;

    open spec fn view(&self) -> FilterOptionView {
        FilterOptionView {
            search_field: self.search_field@,
            search_value: self.search_value.deep_view(),
            predicate_operator: self.predicate_operator,
            comparison_operator: self.comparison_operator,
        }
    }
}

/// Ordering of search results on one field.
pub struct SortOption {
    /// name of the field to sort on
    pub sort_field: String,
    /// wire value of a [`SortOrder`]
    pub sort_order: i32,
}

/// What a [`SortOption`] holds, as values.
pub struct SortOptionView {
    pub sort_field: Seq<char>,
    pub sort_order: i32,
}

impl View for SortOption {
    type V = SortOptionView;

    open spec fn view(&self) -> SortOptionView {
        SortOptionView { sort_field: self.sort_field@, sort_order: self.sort_order }
    }
}

/// A search request: the conditions, paging and ordering.
pub struct AdvancedSearchFilter {
    /// the conditions, combined in order
    pub filters: Vec<FilterOption>,
    /// page to return (paging starts at 1; 0 returns everything)
    pub page_number: i32,
    /// number of results per page (-1 for no limit)
    pub results_per_page: i32,
    /// ordering of the results
    pub order_by: Vec<SortOption>,
}

/// What an [`AdvancedSearchFilter`] holds, as values.
pub struct AdvancedSearchFilterView {
    pub filters: Seq<FilterOptionView>,
    pub page_number: i32,
    pub results_per_page: i32,
    pub order_by: Seq<SortOptionView>,
}

impl View for AdvancedSearchFilter {
    type V = AdvancedSearchFilterView;

    open spec fn view(&self) -> AdvancedSearchFilterView {
        AdvancedSearchFilterView {
            filters: self.filters@.map_values(|f: FilterOption| f@),
            page_number: self.page_number,
            results_per_page: self.results_per_page,
            order_by: self.order_by@.map_values(|o: SortOption| o@),
        }
    }
}

/// The condition on `column` with the given values and operators.
pub open spec fn filter_option(
    column: Seq<char>,
    values: Seq<Seq<char>>,
    predicate_operator: PredicateOperator,
    comparison_operator: Option<ComparisonOperator>,
) -> FilterOptionView {
    FilterOptionView {
        search_field: column,
        search_value: values,
        predicate_operator: predicate_operator.spec_value(),
        comparison_operator: match comparison_operator {
            Some(c) => Some(c.spec_value()),
            None => None,
        },
    }
}

impl AdvancedSearchFilterView {
    /// A filter with the single condition on `column`, no paging limit and
    /// no ordering.
    pub open spec fn started(
        column: Seq<char>,
        values: Seq<Seq<char>>,
        predicate_operator: PredicateOperator,
    ) -> AdvancedSearchFilterView {
        AdvancedSearchFilterView {
            filters: seq![filter_option(column, values, predicate_operator, None)],
            page_number: 0i32,
            results_per_page: -1i32,
            order_by: Seq::empty(),
        }
    }

    /// This filter with one more condition appended.
    pub open spec fn extended(
        self,
        column: Seq<char>,
        values: Seq<Seq<char>>,
        predicate_operator: PredicateOperator,
        comparison_operator: ComparisonOperator,
    ) -> AdvancedSearchFilterView {
        AdvancedSearchFilterView {
            filters: self.filters.push(
                filter_option(column, values, predicate_operator, Some(comparison_operator)),
            ),
            page_number: self.page_number,
            results_per_page: self.results_per_page,
            order_by: self.order_by,
        }
    }
}

impl AdvancedSearchFilter {
    fn search(column: String, values: Vec<String>, predicate_operator: PredicateOperator) -> (r: Self)
        ensures
            r@ == AdvancedSearchFilterView::started(column@, values.deep_view(), predicate_operator),
    {
        let filter = FilterOption {
            search_field: column,
            search_value: values,
            predicate_operator: predicate_operator.into(),
            comparison_operator: None,
        };
        let filters: Vec<FilterOption> = vec![filter];
        let order_by: Vec<SortOption> = Vec::new();
        let r = Self { filters, page_number: 0, results_per_page: -1, order_by };
        assert(r@.filters =~= seq![filter_option(column@, values.deep_view(), predicate_operator, None)]);
        assert(r@.order_by =~= Seq::<SortOptionView>::empty());
        r
    }

    fn add_filter(
        self,
        column: String,
        values: Vec<String>,
        predicate_operator: PredicateOperator,
        comparison_operator: ComparisonOperator,
    ) -> (r: Self)
        ensures
            r@ == self@.extended(column@, values.deep_view(), predicate_operator, comparison_operator),
    {
        let mut result = self;
        let filter = FilterOption {
            search_field: column,
            search_value: values,
            predicate_operator: predicate_operator.into(),
            comparison_operator: Some(comparison_operator.into()),
        };
        result.filters.push(filter);
        assert(result@.filters =~= self@.filters.push(
            filter_option(column@, values.deep_view(), predicate_operator, Some(comparison_operator)),
        ));
        result
    }

    /// Starts a new filter with a single [FilterOption] using:
    /// * search_field: the provided `column`
    /// * search_value: the provided `value` as single entry in a [Vec\<String\>]
    /// * predicate operator: [PredicateOperator::Equals]
    /// * comparison operator: [None]
    pub fn search_equals(column: String, value: String) -> (r: Self)
        ensures
            r@ == AdvancedSearchFilterView::started(column@, seq![value@], PredicateOperator::Equals),
    {
        let values: Vec<String> = vec![value];
        assert(values.deep_view() =~= seq![value@]);
        Self::search(column, values, PredicateOperator::Equals)
    }

    /// Starts a new filter with a single [FilterOption] using:
    /// * search_field: the provided `column`
    /// * search_value: the provided `value` as single entry in a [Vec\<String\>]
    /// * predicate operator: [PredicateOperator::NotEquals]
    /// * comparison operator: [None]
    pub fn search_not_equals(column: String, value: String) -> (r: Self)
        ensures
            r@ == AdvancedSearchFilterView::started(column@, seq![value@], PredicateOperator::NotEquals),
    {
        let values: Vec<String> = vec![value];
        assert(values.deep_view() =~= seq![value@]);
        Self::search(column, values, PredicateOperator::NotEquals)
    }

    /// Starts a new filter with a single [FilterOption] using:
    /// * search_field: the provided `column`
    /// * search_value: the provided `values` [Vec\<String\>]
    /// * predicate operator: [PredicateOperator::In]
    /// * comparison operator: [None]
    pub fn search_in(column: String, values: Vec<String>) -> (r: Self)
        ensures
            r@ == AdvancedSearchFilterView::started(column@, values.deep_view(), PredicateOperator::In),
    {
        Self::search(column, values, PredicateOperator::In)
    }

    /// Starts a new filter with a single [FilterOption] using:
    /// * search_field: the provided `column`
    /// * search_value: the provided `values` [Vec\<String\>]
    /// * predicate operator: [PredicateOperator::NotIn]
    /// * comparison operator: [None]
    pub fn search_not_in(column: String, values: Vec<String>) -> (r: Self)
        ensures
            r@ == AdvancedSearchFilterView::started(column@, values.deep_view(), PredicateOperator::NotIn),
    {
        Self::search(column, values, PredicateOperator::NotIn)
    }

    /// Starts a new filter with a single [FilterOption] using:
    /// * search_field: the provided `column`
    /// * search_value: the provided `min` and `max` values as entries in a [Vec\<String\>]
    /// * predicate operator: [PredicateOperator::Between]
    /// * comparison operator: [None]
    pub fn search_between(column: String, min: String, max: String) -> (r: Self)
        ensures
            r@ == AdvancedSearchFilterView::started(column@, seq![min@, max@], PredicateOperator::Between),
    {
        let values: Vec<String> = vec![min, max];
        assert(values.deep_view() =~= seq![min@, max@]);
        Self::search(column, values, PredicateOperator::Between)
    }

    /// Starts a new filter with a single [FilterOption] using:
    /// * search_field: the provided `column`
    /// * search_value: an empty [Vec]
    /// * predicate operator: [PredicateOperator::IsNull]
    /// * comparison operator: [None]
    pub fn search_is_null(column: String) -> (r: Self)
        ensures
            r@ == AdvancedSearchFilterView::started(column@, Seq::<Seq<char>>::empty(), PredicateOperator::IsNull),
    {
        let values: Vec<String> = vec![];
        assert(values.deep_view() =~= Seq::<Seq<char>>::empty());
        Self::search(column, values, PredicateOperator::IsNull)
    }

    /// Starts a new filter with a single [FilterOption] using:
    /// * search_field: the provided `column`
    /// * search_value: an empty [Vec]
    /// * predicate operator: [PredicateOperator::IsNotNull]
    /// * comparison operator: [None]
    pub fn search_is_not_null(column: String) -> (r: Self)
        ensures
            r@ == AdvancedSearchFilterView::started(column@, Seq::<Seq<char>>::empty(), PredicateOperator::IsNotNull),
    {
        let values: Vec<String> = vec![];
        assert(values.deep_view() =~= Seq::<Seq<char>>::empty());
        Self::search(column, values, PredicateOperator::IsNotNull)
    }

    /// Starts a new filter with a single [FilterOption] using:
    /// * search_field: the provided `column`
    /// * search_value: the provided `value` as single entry in a [Vec\<String\>]
    /// * predicate operator: [PredicateOperator::Ilike]
    /// * comparison operator: [None]
    pub fn search_ilike(column: String, value: String) -> (r: Self)
        ensures
            r@ == AdvancedSearchFilterView::started(column@, seq![value@], PredicateOperator::Ilike),
    {
        let values: Vec<String> = vec![value];
        assert(values.deep_view() =~= seq![value@]);
        Self::search(column, values, PredicateOperator::Ilike)
    }

    /// Starts a new filter with a single [FilterOption] using:
    /// * search_field: the provided `column`
    /// * search_value: the provided `value` as single entry in a [Vec\<String\>]
    /// * predicate operator: [PredicateOperator::Like]
    /// * comparison operator: [None]
    pub fn search_like(column: String, value: String) -> (r: Self)
        ensures
            r@ == AdvancedSearchFilterView::started(column@, seq![value@], PredicateOperator::Like),
    {
        let values: Vec<String> = vec![value];
        assert(values.deep_view() =~= seq![value@]);
        Self::search(column, values, PredicateOperator::Like)
    }

    /// Starts a new filter with a single [FilterOption] using:
    /// * search_field: the provided `column`
    /// * search_value: the provided `value` as single entry in a [Vec\<String\>]
    /// * predicate operator: [PredicateOperator::Greater]
    /// * comparison operator: [None]
    pub fn search_greater(column: String, value: String) -> (r: Self)
        ensures
            r@ == AdvancedSearchFilterView::started(column@, seq![value@], PredicateOperator::Greater),
    {
        let values: Vec<String> = vec![value];
        assert(values.deep_view() =~= seq![value@]);
        Self::search(column, values, PredicateOperator::Greater)
    }

    /// Starts a new filter with a single [FilterOption] using:
    /// * search_field: the provided `column`
    /// * search_value: the provided `value` as single entry in a [Vec\<String\>]
    /// * predicate operator: [PredicateOperator::GreaterOrEqual]
    /// * comparison operator: [None]
    pub fn search_greater_or_equal(column: String, value: String) -> (r: Self)
        ensures
            r@ == AdvancedSearchFilterView::started(column@, seq![value@], PredicateOperator::GreaterOrEqual),
    {
        let values: Vec<String> = vec![value];
        assert(values.deep_view() =~= seq![value@]);
        Self::search(column, values, PredicateOperator::GreaterOrEqual)
    }

    /// Starts a new filter with a single [FilterOption] using:
    /// * search_field: the provided `column`
    /// * search_value: the provided `value` as single entry in a [Vec\<String\>]
    /// * predicate operator: [PredicateOperator::Less]
    /// * comparison operator: [None]
    pub fn search_less(column: String, value: String) -> (r: Self)
        ensures
            r@ == AdvancedSearchFilterView::started(column@, seq![value@], PredicateOperator::Less),
    {
        let values: Vec<String> = vec![value];
        assert(values.deep_view() =~= seq![value@]);
        Self::search(column, values, PredicateOperator::Less)
    }

    /// Starts a new filter with a single [FilterOption] using:
    /// * search_field: the provided `column`
    /// * search_value: the provided `value` as single entry in a [Vec\<String\>]
    /// * predicate operator: [PredicateOperator::LessOrEqual]
    /// * comparison operator: [None]
    pub fn search_less_or_equal(column: String, value: String) -> (r: Self)
        ensures
            r@ == AdvancedSearchFilterView::started(column@, seq![value@], PredicateOperator::LessOrEqual),
    {
        let values: Vec<String> = vec![value];
        assert(values.deep_view() =~= seq![value@]);
        Self::search(column, values, PredicateOperator::LessOrEqual)
    }

    /// Starts a new filter with a single [FilterOption] using:
    /// * search_field: the provided `column`
    /// * search_value: the provided `value` as single entry in a [Vec\<String\>]
    /// * predicate operator: [PredicateOperator::GeoIntersect]
    /// * comparison operator: [None]
    pub fn search_geo_intersect(column: String, value: String) -> (r: Self)
        ensures
            r@ == AdvancedSearchFilterView::started(column@, seq![value@], PredicateOperator::GeoIntersect),
    {
        let values: Vec<String> = vec![value];
        assert(values.deep_view() =~= seq![value@]);
        Self::search(column, values, PredicateOperator::GeoIntersect)
    }

    /// Starts a new filter with a single [FilterOption] using:
    /// * search_field: the provided `column`
    /// * search_value: the provided `value` as single entry in a [Vec\<String\>]
    /// * predicate operator: [PredicateOperator::GeoWithin]
    /// * comparison operator: [None]
    pub fn search_geo_within(column: String, value: String) -> (r: Self)
        ensures
            r@ == AdvancedSearchFilterView::started(column@, seq![value@], PredicateOperator::GeoWithin),
    {
        let values: Vec<String> = vec![value];
        assert(values.deep_view() =~= seq![value@]);
        Self::search(column, values, PredicateOperator::GeoWithin)
    }

    /// Starts a new filter with a single [FilterOption] using:
    /// * search_field: the provided `column`
    /// * search_value: the provided `value` as single entry in a [Vec\<String\>]
    /// * predicate operator: [PredicateOperator::GeoDisjoint]
    /// * comparison operator: [None]
    pub fn search_geo_disjoint(column: String, value: String) -> (r: Self)
        ensures
            r@ == AdvancedSearchFilterView::started(column@, seq![value@], PredicateOperator::GeoDisjoint),
    {
        let values: Vec<String> = vec![value];
        assert(values.deep_view() =~= seq![value@]);
        Self::search(column, values, PredicateOperator::GeoDisjoint)
    }

    /// Adds a [FilterOption] to `filters` using:
    /// * search_field: the provided `column`
    /// * search_value: the provided `value` as single entry in a [Vec\<String\>]
    /// * predicate operator: [PredicateOperator::Equals]
    /// * comparison operator: [ComparisonOperator::And]
    pub fn and_equals(self, column: String, value: String) -> (r: Self)
        ensures
            r@ == self@.extended(column@, seq![value@], PredicateOperator::Equals, ComparisonOperator::And),
    {
        let values: Vec<String> = vec![value];
        assert(values.deep_view() =~= seq![value@]);
        self.add_filter(column, values, PredicateOperator::Equals, ComparisonOperator::And)
    }

    /// Adds a [FilterOption] to `filters` using:
    /// * search_field: the provided `column`
    /// * search_value: the provided `value` as single entry in a [Vec\<String\>]
    /// * predicate operator: [PredicateOperator::NotEquals]
    /// * comparison operator: [ComparisonOperator::And]
    pub fn and_not_equals(self, column: String, value: String) -> (r: Self)
        ensures
            r@ == self@.extended(column@, seq![value@], PredicateOperator::NotEquals, ComparisonOperator::And),
    {
        let values: Vec<String> = vec![value];
        assert(values.deep_view() =~= seq![value@]);
        self.add_filter(column, values, PredicateOperator::NotEquals, ComparisonOperator::And)
    }

    /// Adds a [FilterOption] to `filters` using:
    /// * search_field: the provided `column`
    /// * search_value: the provided `values` [Vec\<String\>]
    /// * predicate operator: [PredicateOperator::In]
    /// * comparison operator: [ComparisonOperator::And]
    pub fn and_in(self, column: String, values: Vec<String>) -> (r: Self)
        ensures
            r@ == self@.extended(column@, values.deep_view(), PredicateOperator::In, ComparisonOperator::And),
    {
        self.add_filter(column, values, PredicateOperator::In, ComparisonOperator::And)
    }

    /// Adds a [FilterOption] to `filters` using:
    /// * search_field: the provided `column`
    /// * search_value: the provided `values` [Vec\<String\>]
    /// * predicate operator: [PredicateOperator::NotIn]
    /// * comparison operator: [ComparisonOperator::And]
    pub fn and_not_in(self, column: String, values: Vec<String>) -> (r: Self)
        ensures
            r@ == self@.extended(column@, values.deep_view(), PredicateOperator::NotIn, ComparisonOperator::And),
    {
        self.add_filter(column, values, PredicateOperator::NotIn, ComparisonOperator::And)
    }

    /// Adds a [FilterOption] to `filters` using:
    /// * search_field: the provided `column`
    /// * search_value: the provided `min` and `max` values as entries in a [Vec\<String\>]
    /// * predicate operator: [PredicateOperator::Between]
    /// * comparison operator: [ComparisonOperator::And]
    pub fn and_between(self, column: String, min: String, max: String) -> (r: Self)
        ensures
            r@ == self@.extended(column@, seq![min@, max@], PredicateOperator::Between, ComparisonOperator::And),
    {
        let values: Vec<String> = vec![min, max];
        assert(values.deep_view() =~= seq![min@, max@]);
        self.add_filter(column, values, PredicateOperator::Between, ComparisonOperator::And)
    }

    /// Adds a [FilterOption] to `filters` using:
    /// * search_field: the provided `column`
    /// * search_value: an empty [Vec]
    /// * predicate operator: [PredicateOperator::IsNull]
    /// * comparison operator: [ComparisonOperator::And]
    pub fn and_is_null(self, column: String) -> (r: Self)
        ensures
            r@ == self@.extended(column@, Seq::<Seq<char>>::empty(), PredicateOperator::IsNull, ComparisonOperator::And),
    {
        let values: Vec<String> = vec![];
        assert(values.deep_view() =~= Seq::<Seq<char>>::empty());
        self.add_filter(column, values, PredicateOperator::IsNull, ComparisonOperator::And)
    }

    /// Adds a [FilterOption] to `filters` using:
    /// * search_field: the provided `column`
    /// * search_value: an empty [Vec]
    /// * predicate operator: [PredicateOperator::IsNotNull]
    /// * comparison operator: [ComparisonOperator::And]
    pub fn and_is_not_null(self, column: String) -> (r: Self)
        ensures
            r@ == self@.extended(column@, Seq::<Seq<char>>::empty(), PredicateOperator::IsNotNull, ComparisonOperator::And),
    {
        let values: Vec<String> = vec![];
        assert(values.deep_view() =~= Seq::<Seq<char>>::empty());
        self.add_filter(column, values, PredicateOperator::IsNotNull, ComparisonOperator::And)
    }

    /// Adds a [FilterOption] to `filters` using:
    /// * search_field: the provided `column`
    /// * search_value: the provided `value` as single entry in a [Vec\<String\>]
    /// * predicate operator: [PredicateOperator::Ilike]
    /// * comparison operator: [ComparisonOperator::And]
    pub fn and_ilike(self, column: String, value: String) -> (r: Self)
        ensures
            r@ == self@.extended(column@, seq![value@], PredicateOperator::Ilike, ComparisonOperator::And),
    {
        let values: Vec<String> = vec![value];
        assert(values.deep_view() =~= seq![value@]);
        self.add_filter(column, values, PredicateOperator::Ilike, ComparisonOperator::And)
    }

    /// Adds a [FilterOption] to `filters` using:
    /// * search_field: the provided `column`
    /// * search_value: the provided `value` as single entry in a [Vec\<String\>]
    /// * predicate operator: [PredicateOperator::Like]
    /// * comparison operator: [ComparisonOperator::And]
    pub fn and_like(self, column: String, value: String) -> (r: Self)
        ensures
            r@ == self@.extended(column@, seq![value@], PredicateOperator::Like, ComparisonOperator::And),
    {
        let values: Vec<String> = vec![value];
        assert(values.deep_view() =~= seq![value@]);
        self.add_filter(column, values, PredicateOperator::Like, ComparisonOperator::And)
    }

    /// Adds a [FilterOption] to `filters` using:
    /// * search_field: the provided `column`
    /// * search_value: the provided `value` as single entry in a [Vec\<String\>]
    /// * predicate operator: [PredicateOperator::Greater]
    /// * comparison operator: [ComparisonOperator::And]
    pub fn and_greater(self, column: String, value: String) -> (r: Self)
        ensures
            r@ == self@.extended(column@, seq![value@], PredicateOperator::Greater, ComparisonOperator::And),
    {
        let values: Vec<String> = vec![value];
        assert(values.deep_view() =~= seq![value@]);
        self.add_filter(column, values, PredicateOperator::Greater, ComparisonOperator::And)
    }

    /// Adds a [FilterOption] to `filters` using:
    /// * search_field: the provided `column`
    /// * search_value: the provided `value` as single entry in a [Vec\<String\>]
    /// * predicate operator: [PredicateOperator::GreaterOrEqual]
    /// * comparison operator: [ComparisonOperator::And]
    pub fn and_greater_or_equal(self, column: String, value: String) -> (r: Self)
        ensures
            r@ == self@.extended(column@, seq![value@], PredicateOperator::GreaterOrEqual, ComparisonOperator::And),
    {
        let values: Vec<String> = vec![value];
        assert(values.deep_view() =~= seq![value@]);
        self.add_filter(column, values, PredicateOperator::GreaterOrEqual, ComparisonOperator::And)
    }

    /// Adds a [FilterOption] to `filters` using:
    /// * search_field: the provided `column`
    /// * search_value: the provided `value` as single entry in a [Vec\<String\>]
    /// * predicate operator: [PredicateOperator::Less]
    /// * comparison operator: [ComparisonOperator::And]
    pub fn and_less(self, column: String, value: String) -> (r: Self)
        ensures
            r@ == self@.extended(column@, seq![value@], PredicateOperator::Less, ComparisonOperator::And),
    {
        let values: Vec<String> = vec![value];
        assert(values.deep_view() =~= seq![value@]);
        self.add_filter(column, values, PredicateOperator::Less, ComparisonOperator::And)
    }

    /// Adds a [FilterOption] to `filters` using:
    /// * search_field: the provided `column`
    /// * search_value: the provided `value` as single entry in a [Vec\<String\>]
    /// * predicate operator: [PredicateOperator::LessOrEqual]
    /// * comparison operator: [ComparisonOperator::And]
    pub fn and_less_or_equal(self, column: String, value: String) -> (r: Self)
        ensures
            r@ == self@.extended(column@, seq![value@], PredicateOperator::LessOrEqual, ComparisonOperator::And),
    {
        let values: Vec<String> = vec![value];
        assert(values.deep_view() =~= seq![value@]);
        self.add_filter(column, values, PredicateOperator::LessOrEqual, ComparisonOperator::And)
    }

    /// Adds a [FilterOption] to `filters` using:
    /// * search_field: the provided `column`
    /// * search_value: the provided `value` as single entry in a [Vec\<String\>]
    /// * predicate operator: [PredicateOperator::GeoIntersect]
    /// * comparison operator: [ComparisonOperator::And]
    pub fn and_geo_intersect(self, column: String, value: String) -> (r: Self)
        ensures
            r@ == self@.extended(column@, seq![value@], PredicateOperator::GeoIntersect, ComparisonOperator::And),
    {
        let values: Vec<String> = vec![value];
        assert(values.deep_view() =~= seq![value@]);
        self.add_filter(column, values, PredicateOperator::GeoIntersect, ComparisonOperator::And)
    }

    /// Adds a [FilterOption] to `filters` using:
    /// * search_field: the provided `column`
    /// * search_value: the provided `value` as single entry in a [Vec\<String\>]
    /// * predicate operator: [PredicateOperator::GeoWithin]
    /// * comparison operator: [ComparisonOperator::And]
    pub fn and_geo_within(self, column: String, value: String) -> (r: Self)
        ensures
            r@ == self@.extended(column@, seq![value@], PredicateOperator::GeoWithin, ComparisonOperator::And),
    {
        let values: Vec<String> = vec![value];
        assert(values.deep_view() =~= seq![value@]);
        self.add_filter(column, values, PredicateOperator::GeoWithin, ComparisonOperator::And)
    }

    /// Adds a [FilterOption] to `filters` using:
    /// * search_field: the provided `column`
    /// * search_value: the provided `value` as single entry in a [Vec\<String\>]
    /// * predicate operator: [PredicateOperator::GeoDisjoint]
    /// * comparison operator: [ComparisonOperator::And]
    pub fn and_geo_disjoint(self, column: String, value: String) -> (r: Self)
        ensures
            r@ == self@.extended(column@, seq![value@], PredicateOperator::GeoDisjoint, ComparisonOperator::And),
    {
        let values: Vec<String> = vec![value];
        assert(values.deep_view() =~= seq![value@]);
        self.add_filter(column, values, PredicateOperator::GeoDisjoint, ComparisonOperator::And)
    }

    /// Adds a [FilterOption] to `filters` using:
    /// * search_field: the provided `column`
    /// * search_value: the provided `value` as single entry in a [Vec\<String\>]
    /// * predicate operator: [PredicateOperator::Equals]
    /// * comparison operator: [ComparisonOperator::Or]
    pub fn or_equals(self, column: String, value: String) -> (r: Self)
        ensures
            r@ == self@.extended(column@, seq![value@], PredicateOperator::Equals, ComparisonOperator::Or),
    {
        let values: Vec<String> = vec![value];
        assert(values.deep_view() =~= seq![value@]);
        self.add_filter(column, values, PredicateOperator::Equals, ComparisonOperator::Or)
    }

    /// Adds a [FilterOption] to `filters` using:
    /// * search_field: the provided `column`
    /// * search_value: the provided `value` as single entry in a [Vec\<String\>]
    /// * predicate operator: [PredicateOperator::NotEquals]
    /// * comparison operator: [ComparisonOperator::Or]
    pub fn or_not_equals(self, column: String, value: String) -> (r: Self)
        ensures
            r@ == self@.extended(column@, seq![value@], PredicateOperator::NotEquals, ComparisonOperator::Or),
    {
        let values: Vec<String> = vec![value];
        assert(values.deep_view() =~= seq![value@]);
        self.add_filter(column, values, PredicateOperator::NotEquals, ComparisonOperator::Or)
    }

    /// Adds a [FilterOption] to `filters` using:
    /// * search_field: the provided `column`
    /// * search_value: the provided `values` [Vec\<String\>]
    /// * predicate operator: [PredicateOperator::In]
    /// * comparison operator: [ComparisonOperator::Or]
    pub fn or_in(self, column: String, values: Vec<String>) -> (r: Self)
        ensures
            r@ == self@.extended(column@, values.deep_view(), PredicateOperator::In, ComparisonOperator::Or),
    {
        self.add_filter(column, values, PredicateOperator::In, ComparisonOperator::Or)
    }

    /// Adds a [FilterOption] to `filters` using:
    /// * search_field: the provided `column`
    /// * search_value: the provided `values` [Vec\<String\>]
    /// * predicate operator: [PredicateOperator::NotIn]
    /// * comparison operator: [ComparisonOperator::Or]
    pub fn or_not_in(self, column: String, values: Vec<String>) -> (r: Self)
        ensures
            r@ == self@.extended(column@, values.deep_view(), PredicateOperator::NotIn, ComparisonOperator::Or),
    {
        self.add_filter(column, values, PredicateOperator::NotIn, ComparisonOperator::Or)
    }

    /// Adds a [FilterOption] to `filters` using:
    /// * search_field: the provided `column`
    /// * search_value: the provided `min` and `max` values as entries in a [Vec\<String\>]
    /// * predicate operator: [PredicateOperator::Between]
    /// * comparison operator: [ComparisonOperator::Or]
    pub fn or_between(self, column: String, min: String, max: String) -> (r: Self)
        ensures
            r@ == self@.extended(column@, seq![min@, max@], PredicateOperator::Between, ComparisonOperator::Or),
    {
        let values: Vec<String> = vec![min, max];
        assert(values.deep_view() =~= seq![min@, max@]);
        self.add_filter(column, values, PredicateOperator::Between, ComparisonOperator::Or)
    }

    /// Adds a [FilterOption] to `filters` using:
    /// * search_field: the provided `column`
    /// * search_value: an empty [Vec]
    /// * predicate operator: [PredicateOperator::IsNull]
    /// * comparison operator: [ComparisonOperator::Or]
    pub fn or_is_null(self, column: String) -> (r: Self)
        ensures
            r@ == self@.extended(column@, Seq::<Seq<char>>::empty(), PredicateOperator::IsNull, ComparisonOperator::Or),
    {
        let values: Vec<String> = vec![];
        assert(values.deep_view() =~= Seq::<Seq<char>>::empty());
        self.add_filter(column, values, PredicateOperator::IsNull, ComparisonOperator::Or)
    }

    /// Adds a [FilterOption] to `filters` using:
    /// * search_field: the provided `column`
    /// * search_value: an empty [Vec]
    /// * predicate operator: [PredicateOperator::IsNotNull]
    /// * comparison operator: [ComparisonOperator::Or]
    pub fn or_is_not_null(self, column: String) -> (r: Self)
        ensures
            r@ == self@.extended(column@, Seq::<Seq<char>>::empty(), PredicateOperator::IsNotNull, ComparisonOperator::Or),
    {
        let values: Vec<String> = vec![];
        assert(values.deep_view() =~= Seq::<Seq<char>>::empty());
        self.add_filter(column, values, PredicateOperator::IsNotNull, ComparisonOperator::Or)
    }

    /// Adds a [FilterOption] to `filters` using:
    /// * search_field: the provided `column`
    /// * search_value: the provided `value` as single entry in a [Vec\<String\>]
    /// * predicate operator: [PredicateOperator::Ilike]
    /// * comparison operator: [ComparisonOperator::Or]
    pub fn or_ilike(self, column: String, value: String) -> (r: Self)
        ensures
            r@ == self@.extended(column@, seq![value@], PredicateOperator::Ilike, ComparisonOperator::Or),
    {
        let values: Vec<String> = vec![value];
        assert(values.deep_view() =~= seq![value@]);
        self.add_filter(column, values, PredicateOperator::Ilike, ComparisonOperator::Or)
    }

    /// Adds a [FilterOption] to `filters` using:
    /// * search_field: the provided `column`
    /// * search_value: the provided `value` as single entry in a [Vec\<String\>]
    /// * predicate operator: [PredicateOperator::Like]
    /// * comparison operator: [ComparisonOperator::Or]
    pub fn or_like(self, column: String, value: String) -> (r: Self)
        ensures
            r@ == self@.extended(column@, seq![value@], PredicateOperator::Like, ComparisonOperator::Or),
    {
        let values: Vec<String> = vec![value];
        assert(values.deep_view() =~= seq![value@]);
        self.add_filter(column, values, PredicateOperator::Like, ComparisonOperator::Or)
    }

    /// Adds a [FilterOption] to `filters` using:
    /// * search_field: the provided `column`
    /// * search_value: the provided `value` as single entry in a [Vec\<String\>]
    /// * predicate operator: [PredicateOperator::Greater]
    /// * comparison operator: [ComparisonOperator::Or]
    pub fn or_greater(self, column: String, value: String) -> (r: Self)
        ensures
            r@ == self@.extended(column@, seq![value@], PredicateOperator::Greater, ComparisonOperator::Or),
    {
        let values: Vec<String> = vec![value];
        assert(values.deep_view() =~= seq![value@]);
        self.add_filter(column, values, PredicateOperator::Greater, ComparisonOperator::Or)
    }

    /// Adds a [FilterOption] to `filters` using:
    /// * search_field: the provided `column`
    /// * search_value: the provided `value` as single entry in a [Vec\<String\>]
    /// * predicate operator: [PredicateOperator::GreaterOrEqual]
    /// * comparison operator: [ComparisonOperator::Or]
    pub fn or_greater_or_equal(self, column: String, value: String) -> (r: Self)
        ensures
            r@ == self@.extended(column@, seq![value@], PredicateOperator::GreaterOrEqual, ComparisonOperator::Or),
    {
        let values: Vec<String> = vec![value];
        assert(values.deep_view() =~= seq![value@]);
        self.add_filter(column, values, PredicateOperator::GreaterOrEqual, ComparisonOperator::Or)
    }

    /// Adds a [FilterOption] to `filters` using:
    /// * search_field: the provided `column`
    /// * search_value: the provided `value` as single entry in a [Vec\<String\>]
    /// * predicate operator: [PredicateOperator::Less]
    /// * comparison operator: [ComparisonOperator::Or]
    pub fn or_less(self, column: String, value: String) -> (r: Self)
        ensures
            r@ == self@.extended(column@, seq![value@], PredicateOperator::Less, ComparisonOperator::Or),
    {
        let values: Vec<String> = vec![value];
        assert(values.deep_view() =~= seq![value@]);
        self.add_filter(column, values, PredicateOperator::Less, ComparisonOperator::Or)
    }

    /// Adds a [FilterOption] to `filters` using:
    /// * search_field: the provided `column`
    /// * search_value: the provided `value` as single entry in a [Vec\<String\>]
    /// * predicate operator: [PredicateOperator::LessOrEqual]
    /// * comparison operator: [ComparisonOperator::Or]
    pub fn or_less_or_equal(self, column: String, value: String) -> (r: Self)
        ensures
            r@ == self@.extended(column@, seq![value@], PredicateOperator::LessOrEqual, ComparisonOperator::Or),
    {
        let values: Vec<String> = vec![value];
        assert(values.deep_view() =~= seq![value@]);
        self.add_filter(column, values, PredicateOperator::LessOrEqual, ComparisonOperator::Or)
    }

    /// Adds a [FilterOption] to `filters` using:
    /// * search_field: the provided `column`
    /// * search_value: the provided `value` as single entry in a [Vec\<String\>]
    /// * predicate operator: [PredicateOperator::GeoIntersect]
    /// * comparison operator: [ComparisonOperator::Or]
    pub fn or_geo_intersect(self, column: String, value: String) -> (r: Self)
        ensures
            r@ == self@.extended(column@, seq![value@], PredicateOperator::GeoIntersect, ComparisonOperator::Or),
    {
        let values: Vec<String> = vec![value];
        assert(values.deep_view() =~= seq![value@]);
        self.add_filter(column, values, PredicateOperator::GeoIntersect, ComparisonOperator::Or)
    }

    /// Adds a [FilterOption] to `filters` using:
    /// * search_field: the provided `column`
    /// * search_value: the provided `value` as single entry in a [Vec\<String\>]
    /// * predicate operator: [PredicateOperator::GeoWithin]
    /// * comparison operator: [ComparisonOperator::Or]
    pub fn or_geo_within(self, column: String, value: String) -> (r: Self)
        ensures
            r@ == self@.extended(column@, seq![value@], PredicateOperator::GeoWithin, ComparisonOperator::Or),
    {
        let values: Vec<String> = vec![value];
        assert(values.deep_view() =~= seq![value@]);
        self.add_filter(column, values, PredicateOperator::GeoWithin, ComparisonOperator::Or)
    }

    /// Adds a [FilterOption] to `filters` using:
    /// * search_field: the provided `column`
    /// * search_value: the provided `value` as single entry in a [Vec\<String\>]
    /// * predicate operator: [PredicateOperator::GeoDisjoint]
    /// * comparison operator: [ComparisonOperator::Or]
    pub fn or_geo_disjoint(self, column: String, value: String) -> (r: Self)
        ensures
            r@ == self@.extended(column@, seq![value@], PredicateOperator::GeoDisjoint, ComparisonOperator::Or),
    {
        let values: Vec<String> = vec![value];
        assert(values.deep_view() =~= seq![value@]);
        self.add_filter(column, values, PredicateOperator::GeoDisjoint, ComparisonOperator::Or)
    }

    /// sets `results_per_page` field with given `amount`
    pub fn results_per_page(self, amount: i32) -> (r: Self)
        ensures
            r@ == (AdvancedSearchFilterView { results_per_page: amount, ..self@ }),
    {
        let mut result = self;
        result.results_per_page = amount;
        result
    }

    /// sets `page_number` field with given `page`
    pub fn page_number(self, page: i32) -> (r: Self)
        ensures
            r@ == (AdvancedSearchFilterView { page_number: page, ..self@ }),
    {
        let mut result = self;
        result.page_number = page;
        result
    }
}

/// The message returned when a condition needs exactly one value and has
/// `count` of them.
pub open spec fn single_value_error(count: nat) -> Seq<char> {
    "Error in advanced search parameters. Expecting a single value, but got ["@ + decimal(count)
        + "] values"@
}

/// Helper function for search library to get a single value from the provided
/// values field: the value when there is exactly one, an error naming the
/// count otherwise.
pub fn get_single_search_value(search_value: &Vec<String>) -> (r: Result<String, String>)
    ensures
        match r {
            Ok(v) => search_value@.len() == 1 && v@ == search_value@[0]@,
            Err(e) => search_value@.len() != 1 && e@ == single_value_error(search_value@.len()),
        },
{
    if search_value.len() == 1 {
        Ok(search_value[0].clone())
    } else {
        let count = decimal_string(search_value.len() as u64);
        let head = join_text(
            "Error in advanced search parameters. Expecting a single value, but got [",
            count.as_str(),
        );
        Err(join_text(head.as_str(), "] values"))
    }
}

/// Appending a condition keeps every earlier condition in place, keeps the
/// paging and ordering settings, and adds exactly the new condition at the
/// end.
pub proof fn lemma_extended_appends_one_condition(
    filter: AdvancedSearchFilterView,
    column: Seq<char>,
    values: Seq<Seq<char>>,
    predicate_operator: PredicateOperator,
    comparison_operator: ComparisonOperator,
)
    ensures
        ({
            let r = filter.extended(column, values, predicate_operator, comparison_operator);
            &&& r.filters.len() == filter.filters.len() + 1
            &&& forall|i: int| 0 <= i < filter.filters.len() ==> r.filters[i] == filter.filters[i]
            &&& r.filters.last() == filter_option(
                column,
                values,
                predicate_operator,
                Some(comparison_operator),
            )
            &&& r.filters.last().comparison_operator == Some(comparison_operator.spec_value())
            &&& r.page_number == filter.page_number
            &&& r.results_per_page == filter.results_per_page
            &&& r.order_by == filter.order_by
        }),
{
}

/// A started filter holds one condition without a comparison operator,
/// asks for the first page setting `0` with no result limit, and has no
/// ordering.
pub proof fn lemma_started_has_one_condition(
    column: Seq<char>,
    values: Seq<Seq<char>>,
    predicate_operator: PredicateOperator,
)
    ensures
        ({
            let r = AdvancedSearchFilterView::started(column, values, predicate_operator);
            &&& r.filters.len() == 1
            &&& r.filters[0].search_field == column
            &&& r.filters[0].search_value == values
            &&& r.filters[0].predicate_operator == predicate_operator.spec_value()
            &&& r.filters[0].comparison_operator is None
            &&& r.page_number == 0
            &&& r.results_per_page == -1
            &&& r.order_by.len() == 0
        }),
{
}

} // verus!
