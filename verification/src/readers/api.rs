//! The binding of an HTTP-polling source: one endpoint, fetched once per
//! request, yielding one record of a declared shape.

use vstd::prelude::*;

use crate::readers::FetchError;

verus! {

/// A one-shot HTTP source: each fetch issues one GET against `url` and
/// decodes the JSON body as a record of shape `record_type`.
pub struct ApiReader {
    pub url: String,
    pub record_type: String,
}

impl ApiReader {
    /// A reader for `url`, initially producing untyped JSON values.
    pub fn new(url: &str) -> (r: ApiReader)
        ensures
            r.url@ == url@,
            r.record_type@ == "Value"@,
    {
        ApiReader { url: url.to_owned(), record_type: "Value".to_owned() }
    }

    /// The same reader, now declared to produce records of the named shape.
    pub fn with_type(self, record_type: &str) -> (r: ApiReader)
        ensures
            r.url@ == self.url@,
            r.record_type@ == record_type@,
    {
        ApiReader { url: self.url, record_type: record_type.to_owned() }
    }
}

impl Clone for ApiReader {
    fn clone(&self) -> (r: Self)
        ensures
            r == *self,
    {
        ApiReader { url: self.url.clone(), record_type: self.record_type.clone() }
    }
}

/// The success test a fetch applies to the endpoint's answer: exactly the
/// 2xx status codes pass; every other status ends the fetch with a
/// categorized error carrying that status.
pub fn status_check(status: u16) -> (r: Result<(), FetchError>)
    ensures
        r is Ok <==> 200 <= status < 300,
        r matches Err(e) ==> e matches FetchError::HttpStatus { status: s } && s == status,
{
    if 200 <= status && status < 300 {
        Ok(())
    } else {
        Err(FetchError::HttpStatus { status })
    }
}

} // verus!
