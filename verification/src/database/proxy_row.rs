//! Rows returned by a database reached through the orchestrator: each column
//! holds a JSON value, read back as the column's type.

use crate::database::{DatabaseError, DatabaseResult};
use crate::json_value::{base64_decode, base64_standard_decoding, byte_items, bytes_from_items, JsonValue};
use crate::text::{chars_eq, chars_of, concat2, concat3, decimal, u64_to_string};
use vstd::prelude::*;

verus! {

/// The value of a column: a later column of the same name takes the place
/// of an earlier one.
pub open spec fn column_value(cols: Seq<(String, JsonValue)>, name: Seq<char>) -> Option<JsonValue>
    decreases cols.len(),
{
    if cols.len() == 0 {
        None
    } else if cols.last().0@ == name {
        Some(cols.last().1)
    } else {
        column_value(cols.drop_last(), name)
    }
}

/// `Column '<name>'` followed by `rest`.
pub open spec fn column_message(name: Seq<char>, rest: Seq<char>) -> Seq<char> {
    "Column '"@ + name + "'"@ + rest
}

/// The query error for a column: `Column '<name>'` followed by `rest`.
fn column_error(name: &str, rest: &str) -> (r: DatabaseError)
    ensures
        r matches DatabaseError::Query(m) && m@ == column_message(name@, rest@),
{
    let head = concat3("Column '", name, "'");
    DatabaseError::Query(concat2(head.as_str(), rest))
}

/// What reading bytes from a column value gives: the bytes of a base64 text
/// or of an array of numbers, or the error for the column.
pub open spec fn bytes_reading(name: Seq<char>, v: JsonValue) -> Result<Seq<u8>, Seq<char>> {
    match v {
        JsonValue::Text(s) => match base64_standard_decoding(s@) {
            Ok(b) => Ok(b),
            Err(e) => Err(column_message(name, " has invalid base64: "@ + e)),
        },
        JsonValue::Array(items) => match bytes_from_items(items@) {
            Ok(b) => Ok(b),
            Err(Some(n)) => Err("Invalid byte value "@ + decimal(n as nat) + " in column '"@ + name + "'"@),
            Err(None) => Err("Invalid byte value in column '"@ + name + "'"@),
        },
        _ => Err(column_message(name, " is not bytes"@)),
    }
}

/// A row of a proxied database.
#[derive(Debug, Clone)]
pub struct ProxyDatabaseRow {
    columns: Vec<(String, JsonValue)>,
}

impl ProxyDatabaseRow {
    /// The columns, in order.
    pub closed spec fn cols(&self) -> Seq<(String, JsonValue)> {
        self.columns@
    }

    /// The value of a column, if present.
    pub open spec fn value_of(&self, name: Seq<char>) -> Option<JsonValue> {
        column_value(self.cols(), name)
    }

    /// A row from its columns.
    pub fn new(columns: Vec<(String, JsonValue)>) -> (r: Self)
        ensures
            r.cols() == columns@,
    {
        ProxyDatabaseRow { columns }
    }

    /// The value of a column, if present.
    fn lookup(&self, name: &str) -> (r: Option<&JsonValue>)
        ensures
            match self.value_of(name@) {
                Some(v) => r matches Some(x) && *x == v,
                None => r is None,
            },
    {
        let nv = chars_of(name);
        let mut i: usize = self.columns.len();
        assert(self.columns@.take(i as int) =~= self.columns@);
        while i > 0
            invariant
                0 <= i <= self.columns.len(),
                nv@ == name@,
                column_value(self.columns@, name@) == column_value(self.columns@.take(i as int), name@),
            decreases i,
        {
            let k = chars_of(self.columns[i - 1].0.as_str());
            proof {
                assert(self.columns@.take(i as int).drop_last() =~= self.columns@.take(i - 1));
            }
            if chars_eq(k.as_slice(), nv.as_slice()) {
                return Some(&self.columns[i - 1].1);
            }
            i = i - 1;
        }
        None
    }

    /// The text of a column.
    pub fn get_string(&self, column: &str) -> (r: DatabaseResult<String>)
        ensures
            match self.value_of(column@) {
                Some(JsonValue::Text(s)) => r matches Ok(x) && x@ == s@,
                Some(_) => r matches Err(DatabaseError::Query(m)) && m@ == column_message(column@, " is not a string"@),
                None => r matches Err(DatabaseError::Query(m)) && m@ == column_message(column@, " not found"@),
            },
    {
        match self.lookup(column) {
            Some(JsonValue::Text(s)) => Ok(s.clone()),
            Some(_) => Err(column_error(column, " is not a string")),
            None => Err(column_error(column, " not found")),
        }
    }

    /// The integer of a column.
    pub fn get_i64(&self, column: &str) -> (r: DatabaseResult<i64>)
        ensures
            match self.value_of(column@) {
                Some(JsonValue::Integer(n)) => r matches Ok(x) && x == n,
                Some(_) => r matches Err(DatabaseError::Query(m)) && m@ == column_message(column@, " is not an integer"@),
                None => r matches Err(DatabaseError::Query(m)) && m@ == column_message(column@, " not found"@),
            },
    {
        match self.lookup(column) {
            Some(JsonValue::Integer(n)) => Ok(*n),
            Some(_) => Err(column_error(column, " is not an integer")),
            None => Err(column_error(column, " not found")),
        }
    }

    /// The boolean of a column.
    pub fn get_bool(&self, column: &str) -> (r: DatabaseResult<bool>)
        ensures
            match self.value_of(column@) {
                Some(JsonValue::Bool(b)) => r matches Ok(x) && x == b,
                Some(_) => r matches Err(DatabaseError::Query(m)) && m@ == column_message(column@, " is not a boolean"@),
                None => r matches Err(DatabaseError::Query(m)) && m@ == column_message(column@, " not found"@),
            },
    {
        match self.lookup(column) {
            Some(JsonValue::Bool(b)) => Ok(*b),
            Some(_) => Err(column_error(column, " is not a boolean")),
            None => Err(column_error(column, " not found")),
        }
    }

    /// The bytes of a present value (see `bytes_reading`).
    fn read_bytes(column: &str, v: &JsonValue) -> (r: DatabaseResult<Vec<u8>>)
        ensures
            match bytes_reading(column@, *v) {
                Ok(b) => r matches Ok(x) && x@ == b,
                Err(e) => r matches Err(DatabaseError::Query(m)) && m@ == e,
            },
    {
        match v {
            JsonValue::Text(s) => match base64_decode(s.as_str()) {
                Ok(b) => Ok(b),
                Err(e) => {
                    let rest = concat2(" has invalid base64: ", e.as_str());
                    Err(column_error(column, rest.as_str()))
                },
            },
            JsonValue::Array(items) => match byte_items(items) {
                Ok(b) => Ok(b),
                Err(Some(n)) => {
                    let t = u64_to_string(n);
                    let head = concat3("Invalid byte value ", t.as_str(), " in column '");
                    Err(DatabaseError::Query(concat3(head.as_str(), column, "'")))
                },
                Err(None) => Err(DatabaseError::Query(concat3("Invalid byte value in column '", column, "'"))),
            },
            _ => Err(column_error(column, " is not bytes")),
        }
    }

    /// The bytes of a column: a base64 text or an array of numbers.
    pub fn get_bytes(&self, column: &str) -> (r: DatabaseResult<Vec<u8>>)
        ensures
            match self.value_of(column@) {
                Some(v) => match bytes_reading(column@, v) {
                    Ok(b) => r matches Ok(x) && x@ == b,
                    Err(e) => r matches Err(DatabaseError::Query(m)) && m@ == e,
                },
                None => r matches Err(DatabaseError::Query(m)) && m@ == column_message(column@, " not found"@),
            },
    {
        match self.lookup(column) {
            Some(v) => Self::read_bytes(column, v),
            None => Err(column_error(column, " not found")),
        }
    }

    /// The text of a column, none when absent or `null`.
    pub fn try_get_string(&self, column: &str) -> (r: DatabaseResult<Option<String>>)
        ensures
            match self.value_of(column@) {
                None => r matches Ok(None),
                Some(JsonValue::Null) => r matches Ok(None),
                Some(JsonValue::Text(s)) => r matches Ok(Some(x)) && x@ == s@,
                Some(_) => r matches Err(DatabaseError::Query(m)) && m@ == column_message(column@, " is not a string"@),
            },
    {
        match self.lookup(column) {
            None => Ok(None),
            Some(JsonValue::Null) => Ok(None),
            Some(JsonValue::Text(s)) => Ok(Some(s.clone())),
            Some(_) => Err(column_error(column, " is not a string")),
        }
    }

    /// The integer of a column, none when absent or `null`.
    pub fn try_get_i64(&self, column: &str) -> (r: DatabaseResult<Option<i64>>)
        ensures
            match self.value_of(column@) {
                None => r matches Ok(None),
                Some(JsonValue::Null) => r matches Ok(None),
                Some(JsonValue::Integer(n)) => r matches Ok(Some(x)) && x == n,
                Some(_) => r matches Err(DatabaseError::Query(m)) && m@ == column_message(column@, " is not an integer"@),
            },
    {
        match self.lookup(column) {
            None => Ok(None),
            Some(JsonValue::Null) => Ok(None),
            Some(JsonValue::Integer(n)) => Ok(Some(*n)),
            Some(_) => Err(column_error(column, " is not an integer")),
        }
    }

    /// The boolean of a column, none when absent or `null`.
    pub fn try_get_bool(&self, column: &str) -> (r: DatabaseResult<Option<bool>>)
        ensures
            match self.value_of(column@) {
                None => r matches Ok(None),
                Some(JsonValue::Null) => r matches Ok(None),
                Some(JsonValue::Bool(b)) => r matches Ok(Some(x)) && x == b,
                Some(_) => r matches Err(DatabaseError::Query(m)) && m@ == column_message(column@, " is not a boolean"@),
            },
    {
        match self.lookup(column) {
            None => Ok(None),
            Some(JsonValue::Null) => Ok(None),
            Some(JsonValue::Bool(b)) => Ok(Some(*b)),
            Some(_) => Err(column_error(column, " is not a boolean")),
        }
    }

    /// The bytes of a column, none when absent or `null`.
    pub fn try_get_bytes(&self, column: &str) -> (r: DatabaseResult<Option<Vec<u8>>>)
        ensures
            match self.value_of(column@) {
                None => r matches Ok(None),
                Some(JsonValue::Null) => r matches Ok(None),
                Some(v) => match bytes_reading(column@, v) {
                    Ok(b) => r matches Ok(Some(x)) && x@ == b,
                    Err(e) => r matches Err(DatabaseError::Query(m)) && m@ == e,
                },
            },
    {
        match self.lookup(column) {
            None => Ok(None),
            Some(JsonValue::Null) => Ok(None),
            Some(v) => match Self::read_bytes(column, v) {
                Ok(b) => Ok(Some(b)),
                Err(e) => Err(e),
            },
        }
    }
}

} // verus!
