//! The envelope of every GraphQL answer.

use vstd::prelude::*;

verus! {

/// One error that the GraphQL server reported.
#[derive(Clone, Debug)]
pub struct GraphqlError {
    pub message: String,
}

/// A GraphQL answer: the data, when there is any, and the errors, when the
/// server reported some.
#[derive(Clone, Debug)]
pub struct Response<Data> {
    pub data: Option<Data>,
    pub errors: Option<Vec<GraphqlError>>,
}

} // verus!
