//! Kinds of operation callbacks that libcouchbase invokes.

use vstd::prelude::*;

verus! {

/// The kind of response a libcouchbase callback delivers (`lcb_CALLBACKTYPE`).
#[derive(Debug, Clone, Copy, PartialEq, Eq, Structural)]
pub enum LcbCallbackType {
    LcbCallbackDefault,
    LcbCallbackGet,
    LcbCallbackStore,
    LcbCallbackCounter,
    LcbCallbackTouch,
    LcbCallbackRemove,
    LcbCallbackUnlock,
    LcbCallbackStats,
    LcbCallbackVersions,
    LcbCallbackVerbosity,
    LcbCallbackFlush,
    LcbCallbackObserve,
    LcbCallbackGetreplica,
    LcbCallbackEndure,
    LcbCallbackHttp,
    LcbCallbackCbflush,
    LcbCallbackObseqno,
    LcbCallbackStoredur,
    LcbCallbackSdlookup,
    LcbCallbackSdmutate,
    LcbCallbackMax,
}

/// The number that libcouchbase uses for each `LcbCallbackType`.
pub open spec fn callback_type_code(x: LcbCallbackType) -> u32 {
    match x {
        LcbCallbackType::LcbCallbackDefault => 0,
        LcbCallbackType::LcbCallbackGet => 1,
        LcbCallbackType::LcbCallbackStore => 2,
        LcbCallbackType::LcbCallbackCounter => 3,
        LcbCallbackType::LcbCallbackTouch => 4,
        LcbCallbackType::LcbCallbackRemove => 5,
        LcbCallbackType::LcbCallbackUnlock => 6,
        LcbCallbackType::LcbCallbackStats => 7,
        LcbCallbackType::LcbCallbackVersions => 8,
        LcbCallbackType::LcbCallbackVerbosity => 9,
        LcbCallbackType::LcbCallbackFlush => 10,
        LcbCallbackType::LcbCallbackObserve => 11,
        LcbCallbackType::LcbCallbackGetreplica => 12,
        LcbCallbackType::LcbCallbackEndure => 13,
        LcbCallbackType::LcbCallbackHttp => 14,
        LcbCallbackType::LcbCallbackCbflush => 15,
        LcbCallbackType::LcbCallbackObseqno => 16,
        LcbCallbackType::LcbCallbackStoredur => 17,
        LcbCallbackType::LcbCallbackSdlookup => 18,
        LcbCallbackType::LcbCallbackSdmutate => 19,
        LcbCallbackType::LcbCallbackMax => 20,
    }
}

/// The `LcbCallbackType` that libcouchbase means by a number, if any.
pub open spec fn callback_type_code_inverse(code: u32) -> Option<LcbCallbackType> {
    match code {
        0 => Some(LcbCallbackType::LcbCallbackDefault),
        1 => Some(LcbCallbackType::LcbCallbackGet),
        2 => Some(LcbCallbackType::LcbCallbackStore),
        3 => Some(LcbCallbackType::LcbCallbackCounter),
        4 => Some(LcbCallbackType::LcbCallbackTouch),
        5 => Some(LcbCallbackType::LcbCallbackRemove),
        6 => Some(LcbCallbackType::LcbCallbackUnlock),
        7 => Some(LcbCallbackType::LcbCallbackStats),
        8 => Some(LcbCallbackType::LcbCallbackVersions),
        9 => Some(LcbCallbackType::LcbCallbackVerbosity),
        10 => Some(LcbCallbackType::LcbCallbackFlush),
        11 => Some(LcbCallbackType::LcbCallbackObserve),
        12 => Some(LcbCallbackType::LcbCallbackGetreplica),
        13 => Some(LcbCallbackType::LcbCallbackEndure),
        14 => Some(LcbCallbackType::LcbCallbackHttp),
        15 => Some(LcbCallbackType::LcbCallbackCbflush),
        16 => Some(LcbCallbackType::LcbCallbackObseqno),
        17 => Some(LcbCallbackType::LcbCallbackStoredur),
        18 => Some(LcbCallbackType::LcbCallbackSdlookup),
        19 => Some(LcbCallbackType::LcbCallbackSdmutate),
        20 => Some(LcbCallbackType::LcbCallbackMax),
        _ => None,
    }
}

impl LcbCallbackType {
    /// The number that libcouchbase uses for this value.
    pub fn code(&self) -> (c: u32)
        ensures
            c == callback_type_code(*self),
    {
        match self {
            LcbCallbackType::LcbCallbackDefault => 0,
            LcbCallbackType::LcbCallbackGet => 1,
            LcbCallbackType::LcbCallbackStore => 2,
            LcbCallbackType::LcbCallbackCounter => 3,
            LcbCallbackType::LcbCallbackTouch => 4,
            LcbCallbackType::LcbCallbackRemove => 5,
            LcbCallbackType::LcbCallbackUnlock => 6,
            LcbCallbackType::LcbCallbackStats => 7,
            LcbCallbackType::LcbCallbackVersions => 8,
            LcbCallbackType::LcbCallbackVerbosity => 9,
            LcbCallbackType::LcbCallbackFlush => 10,
            LcbCallbackType::LcbCallbackObserve => 11,
            LcbCallbackType::LcbCallbackGetreplica => 12,
            LcbCallbackType::LcbCallbackEndure => 13,
            LcbCallbackType::LcbCallbackHttp => 14,
            LcbCallbackType::LcbCallbackCbflush => 15,
            LcbCallbackType::LcbCallbackObseqno => 16,
            LcbCallbackType::LcbCallbackStoredur => 17,
            LcbCallbackType::LcbCallbackSdlookup => 18,
            LcbCallbackType::LcbCallbackSdmutate => 19,
            LcbCallbackType::LcbCallbackMax => 20,
        }
    }

    /// The value that libcouchbase reports under `code`, if any.
    pub fn from_code(code: u32) -> (x: Option<LcbCallbackType>)
        ensures
            x == callback_type_code_inverse(code),
    {
        match code {
            0 => Some(LcbCallbackType::LcbCallbackDefault),
            1 => Some(LcbCallbackType::LcbCallbackGet),
            2 => Some(LcbCallbackType::LcbCallbackStore),
            3 => Some(LcbCallbackType::LcbCallbackCounter),
            4 => Some(LcbCallbackType::LcbCallbackTouch),
            5 => Some(LcbCallbackType::LcbCallbackRemove),
            6 => Some(LcbCallbackType::LcbCallbackUnlock),
            7 => Some(LcbCallbackType::LcbCallbackStats),
            8 => Some(LcbCallbackType::LcbCallbackVersions),
            9 => Some(LcbCallbackType::LcbCallbackVerbosity),
            10 => Some(LcbCallbackType::LcbCallbackFlush),
            11 => Some(LcbCallbackType::LcbCallbackObserve),
            12 => Some(LcbCallbackType::LcbCallbackGetreplica),
            13 => Some(LcbCallbackType::LcbCallbackEndure),
            14 => Some(LcbCallbackType::LcbCallbackHttp),
            15 => Some(LcbCallbackType::LcbCallbackCbflush),
            16 => Some(LcbCallbackType::LcbCallbackObseqno),
            17 => Some(LcbCallbackType::LcbCallbackStoredur),
            18 => Some(LcbCallbackType::LcbCallbackSdlookup),
            19 => Some(LcbCallbackType::LcbCallbackSdmutate),
            20 => Some(LcbCallbackType::LcbCallbackMax),
            _ => None,
        }
    }
}

/// Reading back the code of a `LcbCallbackType` gives that value, and a number
/// that names a value is that value's code.
pub proof fn lemma_callback_type_code_roundtrip(x: LcbCallbackType, code: u32)
    ensures
        callback_type_code_inverse(callback_type_code(x)) == Some(x),
        callback_type_code_inverse(code) matches Some(y) ==> callback_type_code(y) == code,
{
}

/// The numbers libcouchbase assigns to its callback kinds (`lcb_CALLBACKTYPE`).
pub proof fn lemma_callback_type_code_table()
    ensures
        callback_type_code(LcbCallbackType::LcbCallbackDefault) == 0,
        callback_type_code(LcbCallbackType::LcbCallbackGet) == 1,
        callback_type_code(LcbCallbackType::LcbCallbackStore) == 2,
        callback_type_code(LcbCallbackType::LcbCallbackCounter) == 3,
        callback_type_code(LcbCallbackType::LcbCallbackTouch) == 4,
        callback_type_code(LcbCallbackType::LcbCallbackRemove) == 5,
        callback_type_code(LcbCallbackType::LcbCallbackUnlock) == 6,
        callback_type_code(LcbCallbackType::LcbCallbackStats) == 7,
        callback_type_code(LcbCallbackType::LcbCallbackVersions) == 8,
        callback_type_code(LcbCallbackType::LcbCallbackVerbosity) == 9,
        callback_type_code(LcbCallbackType::LcbCallbackFlush) == 10,
        callback_type_code(LcbCallbackType::LcbCallbackObserve) == 11,
        callback_type_code(LcbCallbackType::LcbCallbackGetreplica) == 12,
        callback_type_code(LcbCallbackType::LcbCallbackEndure) == 13,
        callback_type_code(LcbCallbackType::LcbCallbackHttp) == 14,
        callback_type_code(LcbCallbackType::LcbCallbackCbflush) == 15,
        callback_type_code(LcbCallbackType::LcbCallbackObseqno) == 16,
        callback_type_code(LcbCallbackType::LcbCallbackStoredur) == 17,
        callback_type_code(LcbCallbackType::LcbCallbackSdlookup) == 18,
        callback_type_code(LcbCallbackType::LcbCallbackSdmutate) == 19,
        callback_type_code(LcbCallbackType::LcbCallbackMax) == 20,
{
}

} // verus!
