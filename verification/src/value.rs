//! Scalar cell values mirroring the database driver's type codes.
//!
//! Floating-point and other driver-rendered values are carried in their
//! textual form, which is all the client ever reads of them.

use vstd::prelude::*;

use crate::strutil::dec_digits;
use crate::strutil::dec_int;
use crate::strutil::i64_dec;
use crate::strutil::u64_dec;

verus! {

/// One cell value; a closed variant set, with `Unsupported` retaining the
/// raw textual representation so no data is silently lost.
#[derive(Debug)]
pub enum Value {
    Bool(bool),
    TinyInt(i8),
    SmallInt(i16),
    Integer(i32),
    BigInt(i64),
    Float(String),
    Double(String),
    Number(String),
    Bit(u64),
    Char(String),
    VarChar(String),
    NChar(String),
    NVarChar(String),
    Date(String),
    Time(String),
    Unsupported(String),
}

/// The natural text form of a value, as it appears in a rendered table.
pub open spec fn value_text(v: Value) -> Seq<char> {
    match v {
        Value::Bool(b) => if b {
            "true"@
        } else {
            "false"@
        },
        Value::TinyInt(i) => dec_int(i as int),
        Value::SmallInt(i) => dec_int(i as int),
        Value::Integer(i) => dec_int(i as int),
        Value::BigInt(i) => dec_int(i as int),
        Value::Float(s) => s@,
        Value::Double(s) => s@,
        Value::Number(s) => s@,
        Value::Bit(b) => dec_digits(b as nat),
        Value::Char(s) => s@,
        Value::VarChar(s) => s@,
        Value::NChar(s) => s@,
        Value::NVarChar(s) => s@,
        Value::Date(s) => s@,
        Value::Time(s) => s@,
        Value::Unsupported(s) => s@,
    }
}

impl Value {
    /// Render the value in its natural text form.
    pub fn render(&self) -> (r: String)
        ensures
            r@ == value_text(*self),
    {
        proof {
            reveal_strlit("true");
            reveal_strlit("false");
        }
        match self {
            Value::Bool(b) => if *b {
                "true".to_owned()
            } else {
                "false".to_owned()
            },
            Value::TinyInt(i) => i64_dec(*i as i64),
            Value::SmallInt(i) => i64_dec(*i as i64),
            Value::Integer(i) => i64_dec(*i as i64),
            Value::BigInt(i) => i64_dec(*i),
            Value::Float(s) => s.clone(),
            Value::Double(s) => s.clone(),
            Value::Number(s) => s.clone(),
            Value::Bit(b) => u64_dec(*b),
            Value::Char(s) => s.clone(),
            Value::VarChar(s) => s.clone(),
            Value::NChar(s) => s.clone(),
            Value::NVarChar(s) => s.clone(),
            Value::Date(s) => s.clone(),
            Value::Time(s) => s.clone(),
            Value::Unsupported(s) => s.clone(),
        }
    }
}

} // verus!
