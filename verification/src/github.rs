//! The shapes of the remote service's answers over plain HTTP.

use vstd::prelude::*;

verus! {

/// An answer: the data, and the errors reported beside it.
#[derive(Debug, Clone)]
pub struct GraphQLResponse<T, E> {
    pub data: T,
    pub errors: Vec<E>,
}

/// One error of an answer: its type, and the path to its place.
#[derive(Debug, Clone)]
pub struct GraphQLError {
    pub typ: String,
    pub path: Vec<String>,
}

} // verus!
