use vstd::prelude::*;

use crate::error::{catch, normalized, ConnectorError, Operation, RouterError};

verus! {

/// What a singular update reports for the identities that the router updated:
/// the last of them, or nothing when no record matched.
pub open spec fn last_updated<T>(updated: Seq<T>) -> Option<T> {
    if updated.len() == 0 {
        None
    } else {
        Some(updated.last())
    }
}

/// What a "many" update reports for the router's answer.
pub open spec fn many_updated<T>(r: Result<Seq<T>, RouterError>) -> Result<nat, ConnectorError> {
    match r {
        Ok(v) => Ok(v.len()),
        Err(e) => Err(normalized(Operation::UpdateRecords, e)),
    }
}

/// What a "one" update reports for the router's answer.
pub open spec fn one_updated<T>(r: Result<Seq<T>, RouterError>) -> Result<Option<T>, ConnectorError> {
    match r {
        Ok(v) => Ok(last_updated(v)),
        Err(e) => Err(normalized(Operation::UpdateRecord, e)),
    }
}

/// The router's answer, with the updated identities as a sequence.
pub open spec fn router_view<T>(r: Result<Vec<T>, RouterError>) -> Result<Seq<T>, RouterError> {
    match r {
        Ok(v) => Ok(v@),
        Err(e) => Err(e),
    }
}

/// The count as a mathematical integer.
pub open spec fn count_view(r: Result<usize, ConnectorError>) -> Result<nat, ConnectorError> {
    match r {
        Ok(n) => Ok(n as nat),
        Err(e) => Err(e),
    }
}

/// Reduces the router's answer to a "many" update to the number of records
/// it updated; a failure is normalized as by `catch`.
pub fn update_records_outcome<T>(r: Result<Vec<T>, RouterError>) -> (out: Result<usize, ConnectorError>)
    ensures
        count_view(out) == many_updated(router_view(r)),
{
    match r {
        Ok(v) => Ok(v.len()),
        Err(e) => catch(Operation::UpdateRecords, Err(e)),
    }
}

/// Reduces the router's answer to a "one" update to the last identity it
/// returned, dropping the rest; a failure is normalized as by `catch`.
pub fn update_record_outcome<T>(r: Result<Vec<T>, RouterError>) -> (out: Result<Option<T>, ConnectorError>)
    ensures
        out == one_updated(router_view(r)),
{
    match r {
        Ok(v) => {
            let mut v = v;
            Ok(v.pop())
        },
        Err(e) => catch(Operation::UpdateRecord, Err(e)),
    }
}

} // verus!
