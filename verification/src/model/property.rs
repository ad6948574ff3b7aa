//! Custom properties attached to objects of the library.
use vstd::prelude::*;
use crate::keyword::{lemma_parse_round_trip, parse_result, LefKeyword};
use crate::model::LefNumber;
use crate::text::str_eq;

verus! {

/// Data type of a property value.
#[derive(Copy, Clone, Debug, PartialEq, Eq, Structural)]
pub enum LefPropertyType {
    /// Integer number.
    Integer,
    /// Real number.
    Real,
    /// String.
    String,
}

impl LefKeyword for LefPropertyType {
    open spec fn keyword(self) -> Seq<char> {
        match self {
            LefPropertyType::Integer => "INTEGER"@,
            LefPropertyType::Real => "REAL"@,
            LefPropertyType::String => "STRING"@,
        }
    }

    proof fn lemma_keyword_injective(a: Self, b: Self) {
        reveal_strlit("INTEGER");
        reveal_strlit("REAL");
        reveal_strlit("STRING");
        assert("INTEGER"@.len() == 7);
        assert("REAL"@.len() == 4);
        assert("STRING"@.len() == 6);
    }
}

impl LefPropertyType {
    /// Reads a property type: `Err` for any text that is not one of its keywords.
    pub fn from_str(input: &str) -> (res: Result<Self, ()>)
        ensures
            res == parse_result::<Self>(input@),
    {
        let res = if str_eq(input, "INTEGER") {
            Ok(LefPropertyType::Integer)
        } else if str_eq(input, "REAL") {
            Ok(LefPropertyType::Real)
        } else if str_eq(input, "STRING") {
            Ok(LefPropertyType::String)
        } else {
            Err(())
        };
        proof {
            if let Ok(v) = res {
                lemma_parse_round_trip(v);
            }
        }
        res
    }

    /// Writes the value as its keyword.
    pub fn to_string(&self) -> (res: String)
        ensures
            res@ == self.keyword(),
    {
        match self {
            LefPropertyType::Integer => "INTEGER".to_owned(),
            LefPropertyType::Real => "REAL".to_owned(),
            LefPropertyType::String => "STRING".to_owned(),
        }
    }
}

/// Definition of a custom property. The model keeps nothing of a
/// definition yet but its name, under which it is stored.
#[derive(Copy, Clone, Debug, Default, PartialEq, Eq)]
pub struct LefPropertyDefinition {
}

impl DeepView for LefPropertyDefinition {
    type V = LefPropertyDefinition;

    open spec fn deep_view(&self) -> LefPropertyDefinition {
        *self
    }
}

/// Value of a LEF/DEF property.
#[derive(Debug, PartialEq, Eq)]
pub enum LefPropertyValue {
    /// Integer.
    Int(i32),
    /// Real number.
    Real(LefNumber),
    /// Quoted ASCII string.
    String(String),
}

/// What a `LefPropertyValue` holds.
pub enum LefPropertyValueView {
    Int(i32),
    Real(LefNumber),
    String(Seq<char>),
}

impl DeepView for LefPropertyValue {
    type V = LefPropertyValueView;

    open spec fn deep_view(&self) -> LefPropertyValueView {
        match self {
            LefPropertyValue::Int(value) => LefPropertyValueView::Int(*value),
            LefPropertyValue::Real(value) => LefPropertyValueView::Real(*value),
            LefPropertyValue::String(value) => LefPropertyValueView::String(value@),
        }
    }
}

impl Clone for LefPropertyValue {
    fn clone(&self) -> (res: Self)
        ensures
            res.deep_view() == self.deep_view(),
    {
        match self {
            LefPropertyValue::Int(value) => LefPropertyValue::Int(*value),
            LefPropertyValue::Real(value) => LefPropertyValue::Real(*value),
            LefPropertyValue::String(value) => LefPropertyValue::String(value.clone()),
        }
    }
}

impl LefPropertyValue {
    /// The type of the value.
    pub fn property_type(&self) -> (res: LefPropertyType)
        ensures
            res == match self.deep_view() {
                LefPropertyValueView::Int(_) => LefPropertyType::Integer,
                LefPropertyValueView::Real(_) => LefPropertyType::Real,
                LefPropertyValueView::String(_) => LefPropertyType::String,
            },
    {
        match self {
            LefPropertyValue::Int(_) => LefPropertyType::Integer,
            LefPropertyValue::Real(_) => LefPropertyType::Real,
            LefPropertyValue::String(_) => LefPropertyType::String,
        }
    }
}

} // verus!
