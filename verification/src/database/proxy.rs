//! A database reached through the orchestrator: the connection it grants,
//! the transactions begun on it, and the reading of its answers.

use crate::database::{DatabaseConfig, DatabaseError, DatabaseResult, DatabaseType};
use crate::ipc_types::ServiceResponse;
use crate::json_value::{json_as_u64, JsonValue};
use crate::proxy::{connection_id_from_response, granted_connection};
use crate::text::owned;
use vstd::prelude::*;

verus! {

/// A transaction begun on a proxied database.
#[derive(Debug, Clone)]
pub struct ProxyDatabaseTransaction {
    connection_id: String,
    transaction_id: String,
}

impl ProxyDatabaseTransaction {
    /// The connection the transaction belongs to.
    pub closed spec fn connection(&self) -> Seq<char> {
        self.connection_id@
    }

    /// The transaction's identifier.
    pub closed spec fn id(&self) -> Seq<char> {
        self.transaction_id@
    }

    /// The connection the transaction belongs to.
    pub fn connection_id(&self) -> (r: &str)
        ensures
            r@ == self.connection(),
    {
        self.connection_id.as_str()
    }

    /// The transaction's identifier.
    pub fn transaction_id(&self) -> (r: &str)
        ensures
            r@ == self.id(),
    {
        self.transaction_id.as_str()
    }
}

/// A database connection reached through the orchestrator.
#[derive(Debug)]
pub struct ProxyDatabaseConnection {
    connection_id: String,
    db_type: DatabaseType,
    active_transactions: Vec<String>,
}

impl ProxyDatabaseConnection {
    /// The connection granted by the orchestrator.
    pub closed spec fn connection(&self) -> Seq<char> {
        self.connection_id@
    }

    /// The database type asked for.
    pub closed spec fn kind(&self) -> DatabaseType {
        self.db_type
    }

    /// The transactions begun and not yet handed back for rollback, in order.
    pub closed spec fn active(&self) -> Seq<Seq<char>> {
        self.active_transactions@.map_values(|s: String| s@)
    }

    /// The connection that a response to a database service request grants:
    /// a connection error with the response's message when none is granted.
    pub fn from_response(config: &DatabaseConfig, response: ServiceResponse) -> (r: DatabaseResult<Self>)
        ensures
            match granted_connection(response) {
                Ok(id) => r matches Ok(c) && c.connection() == id && c.kind() == config.db_type && c.active().len() == 0,
                Err(e) => r matches Err(DatabaseError::Connection(m)) && m@ == e,
            },
    {
        match connection_id_from_response(response) {
            Ok(id) => {
                let c = ProxyDatabaseConnection { connection_id: id, db_type: config.db_type, active_transactions: Vec::new() };
                assert(c.active() =~= Seq::<Seq<char>>::empty());
                Ok(c)
            },
            Err(e) => Err(DatabaseError::Connection(e)),
        }
    }

    /// The connection identifier that operations are sent with.
    pub fn connection_id(&self) -> (r: &str)
        ensures
            r@ == self.connection(),
    {
        self.connection_id.as_str()
    }

    /// The database type.
    pub fn get_database_type(&self) -> (r: DatabaseType)
        ensures
            r == self.kind(),
    {
        self.db_type
    }

    /// The transaction the service began: its identifier is the text the
    /// service returned, and it is recorded as active; a transaction error
    /// for any other answer.
    pub fn begin_transaction(&mut self, result: Option<JsonValue>) -> (r: DatabaseResult<ProxyDatabaseTransaction>)
        ensures
            final(self).connection() == old(self).connection(),
            final(self).kind() == old(self).kind(),
            match result {
                Some(JsonValue::Text(t)) => r matches Ok(tx) && tx.id() == t@ && tx.connection() == old(self).connection()
                    && final(self).active() == old(self).active().push(t@),
                Some(_) => r matches Err(DatabaseError::Transaction(m)) && m@ == "Invalid transaction ID"@
                    && final(self).active() == old(self).active(),
                None => r matches Err(DatabaseError::Transaction(m)) && m@ == "Failed to begin transaction"@
                    && final(self).active() == old(self).active(),
            },
    {
        match result {
            Some(JsonValue::Text(t)) => {
                let ghost before = self.active_transactions@;
                self.active_transactions.push(t.clone());
                proof {
                    assert(self.active_transactions@.map_values(|s: String| s@) =~= before.map_values(|s: String| s@).push(t@));
                }
                Ok(ProxyDatabaseTransaction { connection_id: self.connection_id.clone(), transaction_id: t })
            },
            Some(_) => Err(DatabaseError::Transaction(owned("Invalid transaction ID"))),
            None => Err(DatabaseError::Transaction(owned("Failed to begin transaction"))),
        }
    }

    /// Hands back the active transactions, to be rolled back before the
    /// connection is closed; none remain active.
    pub fn take_active_transactions(&mut self) -> (r: Vec<String>)
        ensures
            r@.map_values(|s: String| s@) == old(self).active(),
            final(self).active().len() == 0,
            final(self).connection() == old(self).connection(),
            final(self).kind() == old(self).kind(),
    {
        let mut ids: Vec<String> = Vec::new();
        std::mem::swap(&mut ids, &mut self.active_transactions);
        assert(self.active() =~= Seq::<Seq<char>>::empty());
        ids
    }
}

/// The outcome of any database service operation: failure becomes a query
/// error with the service's message, `Unknown error` when it gave none.
pub fn checked_db_operation(success: bool, error: Option<String>) -> (r: DatabaseResult<()>)
    ensures
        success ==> r is Ok,
        !success ==> match error {
            Some(e) => r matches Err(DatabaseError::Query(m)) && m@ == e@,
            None => r matches Err(DatabaseError::Query(m)) && m@ == "Unknown error"@,
        },
{
    if success {
        Ok(())
    } else {
        Err(
            DatabaseError::Query(
                match error {
                    Some(e) => e,
                    None => owned("Unknown error"),
                },
            ),
        )
    }
}

/// The rows affected by a statement: a non-negative integer, or a query error.
pub fn affected_rows(result: Option<JsonValue>) -> (r: DatabaseResult<u64>)
    ensures
        match result {
            Some(v) => match json_as_u64(v) {
                Some(n) => r matches Ok(x) && x == n,
                None => r matches Err(DatabaseError::Query(m)) && m@ == "Invalid affected rows count"@,
            },
            None => r matches Err(DatabaseError::Query(m)) && m@ == "No result from operation"@,
        },
{
    match result {
        Some(v) => match v.as_u64() {
            Some(n) => Ok(n),
            None => Err(DatabaseError::Query(owned("Invalid affected rows count"))),
        },
        None => Err(DatabaseError::Query(owned("No result from operation"))),
    }
}

/// The result a query must carry: it, or the query error `No result from operation`.
pub fn required_result<T>(result: Option<T>) -> (r: DatabaseResult<T>)
    ensures
        match result {
            Some(v) => r matches Ok(x) && x == v,
            None => r matches Err(DatabaseError::Query(m)) && m@ == "No result from operation"@,
        },
{
    match result {
        Some(v) => Ok(v),
        None => Err(DatabaseError::Query(owned("No result from operation"))),
    }
}

/// The outcome of commit and rollback: a transaction error with the
/// service's message, `Unknown transaction error` when it gave none.
pub fn transaction_outcome(success: bool, error: Option<String>) -> (r: DatabaseResult<()>)
    ensures
        success ==> r is Ok,
        !success ==> match error {
            Some(e) => r matches Err(DatabaseError::Transaction(m)) && m@ == e@,
            None => r matches Err(DatabaseError::Transaction(m)) && m@ == "Unknown transaction error"@,
        },
{
    if success {
        Ok(())
    } else {
        Err(
            DatabaseError::Transaction(
                match error {
                    Some(e) => e,
                    None => owned("Unknown transaction error"),
                },
            ),
        )
    }
}

/// The outcome of ping and close: a connection error with the service's
/// message, or the given default message.
pub fn connection_outcome(success: bool, error: Option<String>, default: &str) -> (r: DatabaseResult<()>)
    ensures
        success ==> r is Ok,
        !success ==> match error {
            Some(e) => r matches Err(DatabaseError::Connection(m)) && m@ == e@,
            None => r matches Err(DatabaseError::Connection(m)) && m@ == default@,
        },
{
    if success {
        Ok(())
    } else {
        Err(
            DatabaseError::Connection(
                match error {
                    Some(e) => e,
                    None => owned(default),
                },
            ),
        )
    }
}

} // verus!
