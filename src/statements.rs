//! The SQL statements through which a relational store serves the list
//! operations. Each addresses the table of its list alone, looks at enabled
//! rows only, and binds the domain as parameter `?1`.
use vstd::prelude::*;
use crate::lists::{list_table, List};

verus! {

/// An operation of the list repository.
#[derive(Clone, Copy, Debug, PartialEq, Eq, Structural)]
pub enum ListOperation {
    Get,
    Contains,
    Add,
    Remove,
}

/// The statement that performs `op` on the table `t`.
pub open spec fn statement_spec(t: Seq<char>, op: ListOperation) -> Seq<char> {
    match op {
        ListOperation::Get => "SELECT domain FROM "@ + t + " WHERE enabled = 1"@,
        ListOperation::Contains => "SELECT EXISTS(SELECT 1 FROM "@ + t
            + " WHERE enabled = 1 AND domain = ?1) AS found"@,
        ListOperation::Add => "INSERT INTO "@ + t + " (domain, enabled) SELECT ?1, 1 "@
            + "WHERE NOT EXISTS (SELECT 1 FROM "@ + t + " WHERE enabled = 1 AND domain = ?1)"@,
        ListOperation::Remove => "DELETE FROM "@ + t + " WHERE enabled = 1 AND domain = ?1"@,
    }
}

/// The statement that performs `op` on the table of `list`.
pub fn list_statement(list: List, op: ListOperation) -> (r: String)
    ensures
        r@ == statement_spec(list_table(list), op),
{
    let table = list.table_name();
    match op {
        ListOperation::Get => {
            let mut s = "SELECT domain FROM ".to_owned();
            s.append(table);
            s.append(" WHERE enabled = 1");
            s
        },
        ListOperation::Contains => {
            let mut s = "SELECT EXISTS(SELECT 1 FROM ".to_owned();
            s.append(table);
            s.append(" WHERE enabled = 1 AND domain = ?1) AS found");
            s
        },
        ListOperation::Add => {
            let mut s = "INSERT INTO ".to_owned();
            s.append(table);
            s.append(" (domain, enabled) SELECT ?1, 1 ");
            s.append("WHERE NOT EXISTS (SELECT 1 FROM ");
            s.append(table);
            s.append(" WHERE enabled = 1 AND domain = ?1)");
            s
        },
        ListOperation::Remove => {
            let mut s = "DELETE FROM ".to_owned();
            s.append(table);
            s.append(" WHERE enabled = 1 AND domain = ?1");
            s
        },
    }
}

} // verus!
