//! The resolved shape of an executed statement: a rowset, an affected-row
//! count, or an instruction acknowledgement.

use vstd::prelude::*;

use crate::column::Column;
use crate::value::Value;

verus! {

/// One fetched row: one optional value per column, `None` meaning SQL NULL.
#[derive(Debug)]
pub struct Row {
    pub cells: Vec<Option<Value>>,
}

/// A fully fetched rowset with its column metadata.
#[derive(Debug)]
pub struct ResultSet {
    pub columns: Vec<Column>,
    pub rows: Vec<Row>,
}

impl ResultSet {
    /// The column metadata, fetched once per statement.
    pub fn iter_columns(&self) -> (r: &Vec<Column>)
        ensures
            r == &self.columns,
    {
        &self.columns
    }

    /// The fetched rows.
    pub fn rows(self) -> (r: Vec<Row>)
        ensures
            r == self.rows,
    {
        self.rows
    }
}

/// The statement kind the driver reports after execution.
#[derive(Debug, Clone, Copy, PartialEq, Eq, Structural)]
pub enum SqlType {
    Query,
    Insert,
    Update,
    Delete,
    Merge,
    Grant,
    Revoke,
    Commit,
    Rollback,
    Other,
}

/// A DML outcome: how many rows the statement affected.
#[derive(Debug)]
pub struct Affection {
    pub affected: usize,
}

impl Affection {
    /// The affected-row count the driver reported.
    pub fn affected(&self) -> (r: usize)
        ensures
            r == self.affected,
    {
        self.affected
    }
}

/// A DCL acknowledgement; it carries no data.
#[derive(Debug)]
pub struct Instruction;

/// An executed statement whose concrete outcome has not yet been branched
/// on: the reported kind together with the data either branch would need.
#[derive(Debug)]
pub struct LazyExecuted {
    pub sql_type: SqlType,
    pub result_set: ResultSet,
    pub affected: usize,
}

/// The outcome of resolving a [`LazyExecuted`], by statement kind.
#[derive(Debug)]
pub enum Executed {
    /// A query: the rowset.
    DQL(ResultSet),
    /// Insert, update, delete or merge: the affected-row count.
    DML(Affection),
    /// Grant, revoke, commit or rollback: a bare acknowledgement.
    DCL(Instruction),
    /// Anything else.
    Unknown,
}

impl LazyExecuted {
    /// Branch on the reported statement kind: queries carry their rowset,
    /// DML its affected count, DCL a bare acknowledgement.
    pub fn resolve(self) -> (r: Executed)
        ensures
            self.sql_type is Query ==> (r matches Executed::DQL(rs) && rs == self.result_set),
            (self.sql_type is Insert || self.sql_type is Update || self.sql_type is Delete
                || self.sql_type is Merge) ==> (r matches Executed::DML(a) && a.affected
                == self.affected),
            (self.sql_type is Grant || self.sql_type is Revoke || self.sql_type is Commit
                || self.sql_type is Rollback) ==> r is DCL,
            self.sql_type is Other ==> r is Unknown,
    {
        match self.sql_type {
            SqlType::Query => Executed::DQL(self.result_set),
            SqlType::Insert | SqlType::Update | SqlType::Delete | SqlType::Merge => Executed::DML(
                Affection { affected: self.affected },
            ),
            SqlType::Grant | SqlType::Revoke | SqlType::Commit | SqlType::Rollback => Executed::DCL(
                Instruction,
            ),
            SqlType::Other => Executed::Unknown,
        }
    }

    /// The rowset, regardless of the reported kind.
    pub fn result_set(self) -> (r: ResultSet)
        ensures
            r == self.result_set,
    {
        self.result_set
    }

    /// The affected-row count, regardless of the reported kind.
    pub fn affection(self) -> (r: Affection)
        ensures
            r.affected == self.affected,
    {
        Affection { affected: self.affected }
    }

    /// The bare acknowledgement, regardless of the reported kind.
    pub fn instruction(self) -> (r: Instruction) {
        Instruction
    }
}

} // verus!
