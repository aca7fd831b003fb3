//! A fetched record, as plain values.

use vstd::prelude::*;

verus! {

/// One header of a record.
#[derive(Debug)]
pub struct Header {
    pub key: String,
    pub value: Option<Vec<u8>>,
}

/// A record with its metadata. The timestamp is in milliseconds since the
/// epoch and absent where the log does not provide one.
#[derive(Debug)]
pub struct Record {
    pub topic: String,
    pub partition: i32,
    pub offset: i64,
    pub timestamp: Option<i64>,
    pub key: Option<Vec<u8>>,
    pub headers: Vec<Header>,
    pub payload: Option<Vec<u8>>,
}

} // verus!
