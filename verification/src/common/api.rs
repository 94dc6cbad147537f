use crate::common::errors::AppError;
use vstd::prelude::*;

verus! {

/// The body of every successful response.
#[derive(Debug)]
pub struct APIResponse<T> {
    pub response_message: String,
    pub response_data: T,
}

impl<T> APIResponse<T> {
    pub fn success(data: T) -> (response: Self)
        ensures
            response.response_message@ == "success"@,
            response.response_data == data,
    {
        Self { response_message: "success".to_owned(), response_data: data }
    }
}

/// What an endpoint answers.
pub type AppResponse<T> = Result<APIResponse<T>, AppError>;

} // verus!
