//! The libcouchbase creation options.

use vstd::prelude::*;

use super::create_st3::CreateSt3;

verus! {

/// The creation options handed to `lcb_create` (`lcb_create_st`), always
/// of layout version 3.
#[derive(Debug, Clone)]
pub struct CreateSt {
    version: i32,
    pub v3: CreateSt3,
}

impl CreateSt {
    /// The layout version that the options carry.
    pub closed spec fn spec_version(&self) -> i32 {
        self.version
    }

    /// The version 3 options that the structure carries.
    pub closed spec fn spec_v3(&self) -> CreateSt3 {
        self.v3
    }

    /// The layout version of the options.
    pub fn version(&self) -> (v: i32)
        ensures
            v == self.spec_version(),
    {
        self.version
    }

    /// The options of a connection to `uri`: layout version 3, the
    /// connection string set and everything else zero.
    pub fn for_connection(uri: &str) -> (o: CreateSt)
        ensures
            o.spec_version() == 3,
            o.spec_v3().connstr matches Some(c) && c@ == uri@,
            o.spec_v3().username is None,
            o.spec_v3().passwd is None,
            o.spec_v3()._type == super::handle_type::HandleType::Bucket,
    {
        let mut opts = CreateSt::default();
        opts.v3.connstr = Some(String::from_str(uri));
        opts
    }
}

impl Default for CreateSt {
    fn default() -> (o: CreateSt)
        ensures
            o.spec_version() == 3,
            o.spec_v3().is_zeroed(),
    {
        CreateSt { version: 3, v3: CreateSt3::default() }
    }
}

} // verus!
