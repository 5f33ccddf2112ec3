//! The view query command.

use vstd::prelude::*;

verus! {

/// A view query command (`lcb_CMDVIEWQUERY`). The row callback and the
/// request handle, which are addresses, are set where the command is sent.
#[derive(Debug, Clone)]
pub struct ViewQuery {
    pub cmdflags: u32,
    pub ddoc: Vec<u8>,
    pub nddoc: u64,
    pub view: Vec<u8>,
    pub nview: u64,
    pub optstr: Vec<u8>,
    pub noptstr: u64,
    pub postdata: Vec<u8>,
    pub npostdata: u64,
    pub docs_concurrent_max: u64,
}

impl ViewQuery {
    /// The command with every field zero.
    pub open spec fn is_zeroed(&self) -> bool {
        &&& self.cmdflags == 0
        &&& self.ddoc@.len() == 0 && self.nddoc == 0
        &&& self.view@.len() == 0 && self.nview == 0
        &&& self.optstr@.len() == 0 && self.noptstr == 0
        &&& self.postdata@.len() == 0 && self.npostdata == 0
        &&& self.docs_concurrent_max == 0
    }
}

impl Default for ViewQuery {
    fn default() -> (q: ViewQuery)
        ensures
            q.is_zeroed(),
    {
        ViewQuery {
            cmdflags: 0,
            ddoc: Vec::new(),
            nddoc: 0,
            view: Vec::new(),
            nview: 0,
            optstr: Vec::new(),
            noptstr: 0,
            postdata: Vec::new(),
            npostdata: 0,
            docs_concurrent_max: 0,
        }
    }
}

} // verus!
