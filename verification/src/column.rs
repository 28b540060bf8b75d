//! Driver-reported column metadata.

use vstd::prelude::*;

verus! {

/// The declared type of a column, as the driver reports it.
#[derive(Debug, Clone, Copy, PartialEq, Eq, Structural)]
pub enum Type {
    Unknown,
    Bool,
    TinyInt,
    SmallInt,
    Integer,
    BigInt,
    Float,
    Double,
    Number,
    Date,
    ShortTime,
    Timestamp,
    YmInterval,
    DsInterval,
    Char,
    NChar,
    VarChar,
    NVarChar,
    Binary,
    Clob,
    Blob,
    Bit,
    RowId,
    NClob,
    Cursor,
    Json,
}

impl Default for Type {
    /// A column type that has not been determined.
    fn default() -> (r: Self)
        ensures
            r is Unknown,
    {
        Type::Unknown
    }
}

/// The name of a column type, as a `desc` table shows it.
pub open spec fn type_text(t: Type) -> Seq<char> {
    match t {
        Type::Unknown => "Unknown"@,
        Type::Bool => "Bool"@,
        Type::TinyInt => "TinyInt"@,
        Type::SmallInt => "SmallInt"@,
        Type::Integer => "Integer"@,
        Type::BigInt => "BigInt"@,
        Type::Float => "Float"@,
        Type::Double => "Double"@,
        Type::Number => "Number"@,
        Type::Date => "Date"@,
        Type::ShortTime => "ShortTime"@,
        Type::Timestamp => "Timestamp"@,
        Type::YmInterval => "YmInterval"@,
        Type::DsInterval => "DsInterval"@,
        Type::Char => "Char"@,
        Type::NChar => "NChar"@,
        Type::VarChar => "VarChar"@,
        Type::NVarChar => "NVarChar"@,
        Type::Binary => "Binary"@,
        Type::Clob => "Clob"@,
        Type::Blob => "Blob"@,
        Type::Bit => "Bit"@,
        Type::RowId => "RowId"@,
        Type::NClob => "NClob"@,
        Type::Cursor => "Cursor"@,
        Type::Json => "Json"@,
    }
}

impl Type {
    /// Render the type's name.
    pub fn render(&self) -> (r: String)
        ensures
            r@ == type_text(*self),
    {
        match self {
            Type::Unknown => "Unknown".to_owned(),
            Type::Bool => "Bool".to_owned(),
            Type::TinyInt => "TinyInt".to_owned(),
            Type::SmallInt => "SmallInt".to_owned(),
            Type::Integer => "Integer".to_owned(),
            Type::BigInt => "BigInt".to_owned(),
            Type::Float => "Float".to_owned(),
            Type::Double => "Double".to_owned(),
            Type::Number => "Number".to_owned(),
            Type::Date => "Date".to_owned(),
            Type::ShortTime => "ShortTime".to_owned(),
            Type::Timestamp => "Timestamp".to_owned(),
            Type::YmInterval => "YmInterval".to_owned(),
            Type::DsInterval => "DsInterval".to_owned(),
            Type::Char => "Char".to_owned(),
            Type::NChar => "NChar".to_owned(),
            Type::VarChar => "VarChar".to_owned(),
            Type::NVarChar => "NVarChar".to_owned(),
            Type::Binary => "Binary".to_owned(),
            Type::Clob => "Clob".to_owned(),
            Type::Blob => "Blob".to_owned(),
            Type::Bit => "Bit".to_owned(),
            Type::RowId => "RowId".to_owned(),
            Type::NClob => "NClob".to_owned(),
            Type::Cursor => "Cursor".to_owned(),
            Type::Json => "Json".to_owned(),
        }
    }
}

/// Metadata of one result-set column, fetched once per executed statement
/// and immutable thereafter.
#[derive(Debug)]
pub struct Column {
    pub display_size: usize,
    pub name: String,
    pub size: usize,
    pub type_: Type,
    pub nullable: bool,
    pub precision: usize,
    pub scale: usize,
    pub char_size: usize,
    pub display_char_size: usize,
}

impl Column {
    /// A field-by-field copy.
    pub fn duplicate(&self) -> (r: Column)
        ensures
            r.display_size == self.display_size,
            r.name@ == self.name@,
            r.size == self.size,
            r.type_ == self.type_,
            r.nullable == self.nullable,
            r.precision == self.precision,
            r.scale == self.scale,
            r.char_size == self.char_size,
            r.display_char_size == self.display_char_size,
    {
        Column {
            display_size: self.display_size,
            name: self.name.clone(),
            size: self.size,
            type_: self.type_,
            nullable: self.nullable,
            precision: self.precision,
            scale: self.scale,
            char_size: self.char_size,
            display_char_size: self.display_char_size,
        }
    }
}

} // verus!
