//! Declarations of the outside error types that [`crate::errors::Error`] carries.
use reqwest::Error as HttpError;
use serde_json::Error as JsonError;
use std::io::Error as IoError;
use vstd::prelude::*;

verus! {

#[verifier::external_type_specification]
#[verifier::external_body]
pub struct ExHttpError(HttpError);

#[verifier::external_type_specification]
#[verifier::external_body]
pub struct ExJsonError(JsonError);

#[verifier::external_type_specification]
#[verifier::external_body]
pub struct ExIoError(IoError);

} // verus!
