//! Version 3 of the libcouchbase creation options.

use vstd::prelude::*;

use super::handle_type::HandleType;

verus! {

/// The version 3 creation options (`lcb_create_st3`). A string that is
/// absent stands for the null pointer of the C structure.
#[derive(Debug, Clone)]
pub struct CreateSt3 {
    pub connstr: Option<String>,
    pub username: Option<String>,
    pub passwd: Option<String>,
    pub _type: HandleType,
}

impl CreateSt3 {
    /// The options with every field zero: no strings, a bucket handle.
    pub open spec fn is_zeroed(&self) -> bool {
        &&& self.connstr is None
        &&& self.username is None
        &&& self.passwd is None
        &&& self._type == HandleType::Bucket
    }
}

impl Default for CreateSt3 {
    fn default() -> (o: CreateSt3)
        ensures
            o.is_zeroed(),
    {
        CreateSt3 { connstr: None, username: None, passwd: None, _type: HandleType::Bucket }
    }
}

} // verus!
