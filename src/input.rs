//! The external input representation of filter values and its round trip.
use vstd::prelude::*;
use crate::expr::{SqlValue, SqlValueModel};

verus! {

/// A value as the schema layer reads and writes it: numbers as numbers,
/// text as text, enumerations by their symbolic name.
#[derive(Debug, Clone, PartialEq)]
pub enum InputValue {
    Null,
    Int(i32),
    String(String),
    Enum(String),
}

/// Model of an [`InputValue`].
pub enum InputModel {
    Null,
    Int(i32),
    Str(Seq<char>),
    Enum(Seq<char>),
}

impl View for InputValue {
    type V = InputModel;

    open spec fn view(&self) -> InputModel {
        match self {
            InputValue::Null => InputModel::Null,
            InputValue::Int(i) => InputModel::Int(*i),
            InputValue::String(s) => InputModel::Str(s@),
            InputValue::Enum(s) => InputModel::Enum(s@),
        }
    }
}

/// A scalar type that a leaf predicate can compare a column against.
pub trait FilterValue: View + Sized {
    /// The backend value that a value of this model compares as.
    spec fn sql_of(v: Self::V) -> SqlValueModel;

    /// The external representation of a value of this model.
    spec fn input_of(v: Self::V) -> InputModel;

    /// The value that an external representation reads as, if any.
    spec fn read_input(i: InputModel) -> Option<Self::V>;

    fn to_sql_value(&self) -> (r: SqlValue)
        ensures
            r@ == Self::sql_of(self@),
    ;

    /// A copy with the same model.
    fn copy_value(&self) -> (r: Self)
        ensures
            r@ == self@,
    ;

    fn to_input_value(&self) -> (r: InputValue)
        ensures
            r@ == Self::input_of(self@),
    ;

    fn from_input_value(i: &InputValue) -> (r: Option<Self>)
        ensures
            match r {
                None => Self::read_input(i@) is None,
                Some(x) => Self::read_input(i@) == Some(x@),
            },
    ;

    /// Reading back the external representation of a value yields that value,
    /// and that representation is never the null value.
    proof fn lemma_input_round_trip(v: Self::V)
        ensures
            Self::read_input(Self::input_of(v)) == Some(v),
            !(Self::input_of(v) is Null),
    ;
}

impl FilterValue for i32 {
    open spec fn sql_of(v: i32) -> SqlValueModel {
        SqlValueModel::Integer(v)
    }

    open spec fn input_of(v: i32) -> InputModel {
        InputModel::Int(v)
    }

    open spec fn read_input(i: InputModel) -> Option<i32> {
        match i {
            InputModel::Int(v) => Some(v),
            _ => None,
        }
    }

    fn to_sql_value(&self) -> (r: SqlValue) {
        SqlValue::Integer(*self)
    }

    fn copy_value(&self) -> (r: i32) {
        *self
    }

    fn to_input_value(&self) -> (r: InputValue) {
        InputValue::Int(*self)
    }

    fn from_input_value(i: &InputValue) -> (r: Option<i32>) {
        match i {
            InputValue::Int(v) => Some(*v),
            _ => None,
        }
    }

    proof fn lemma_input_round_trip(v: i32) {
    }
}

impl FilterValue for String {
    open spec fn sql_of(v: Seq<char>) -> SqlValueModel {
        SqlValueModel::Text(v)
    }

    open spec fn input_of(v: Seq<char>) -> InputModel {
        InputModel::Str(v)
    }

    open spec fn read_input(i: InputModel) -> Option<Seq<char>> {
        match i {
            InputModel::Str(v) => Some(v),
            _ => None,
        }
    }

    fn to_sql_value(&self) -> (r: SqlValue) {
        SqlValue::Text(self.clone())
    }

    fn copy_value(&self) -> (r: String) {
        self.clone()
    }

    fn to_input_value(&self) -> (r: InputValue) {
        InputValue::String(self.clone())
    }

    fn from_input_value(i: &InputValue) -> (r: Option<String>) {
        match i {
            InputValue::String(v) => Some(v.clone()),
            _ => None,
        }
    }

    proof fn lemma_input_round_trip(v: Seq<char>) {
    }
}

} // verus!
