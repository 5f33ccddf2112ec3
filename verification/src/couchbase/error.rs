//! Status codes reported by libcouchbase.

use vstd::prelude::*;

verus! {

/// A libcouchbase status code (`lcb_error_t`).
///
/// Each variant stands for the numeric code that the C library reports;
/// `code` gives that number and `from_code` reads one back.
#[derive(Debug, Clone, Copy, PartialEq, Eq, Structural)]
pub enum LcbErrorT {
    LcbSuccess,
    LcbAuthContinue,
    LcbAuthError,
    LcbDeltaBadval,
    LcbE2big,
    LcbEbusy,
    LcbEinternal,
    LcbEinval,
    LcbEnomem,
    LcbErange,
    LcbError,
    LcbEtmpfail,
    LcbKeyEexists,
    LcbKeyEnoent,
    LcbDlopenFailed,
    LcbDlsymFailed,
    LcbNetworkError,
    LcbNotMyVbucket,
    LcbNotStored,
    LcbNotSupported,
    LcbUnknownCommand,
    LcbUnknownHost,
    LcbProtocolError,
    LcbEtimedout,
    LcbConnectError,
    LcbBucketEnoent,
    LcbClientEnomem,
    LcbClientEnoconf,
    LcbEbadhandle,
    LcbServerBug,
    LcbPluginVersionMismatch,
    LcbInvalidHostFormat,
    LcbInvalidChar,
    LcbDurabilityEtoomany,
    LcbDuplicateCommands,
    LcbNoMatchingServer,
    LcbBadEnvironment,
    LcbBusy,
    LcbInvalidUsername,
    LcbConfigCacheInvalid,
    LcbSaslmechUnavailable,
    LcbTooManyRedirects,
    LcbMapChanged,
    LcbIncompletePacket,
    LcbEconnrefused,
    LcbEsockshutdown,
    LcbEconnreset,
    LcbEcantgetport,
    LcbEfdlimitreached,
    LcbEnetunreach,
    LcbEctlUnknown,
    LcbEctlUnsuppmode,
    LcbEctlBadarg,
    LcbEmptyKey,
    LcbSslError,
    LcbSslCantverify,
    LcbSchedfailInternal,
    LcbClientFeatureUnavailable,
    LcbOptionsConflict,
    LcbHttpError,
    LcbDurabilityNoMutationTokens,
    LcbUnknownMemcachedError,
    LcbMutationLost,
    LcbSubdocPathEnoent,
    LcbSubdocPathMismatch,
    LcbSubdocPathEinval,
    LcbSubdocPathE2big,
    LcbSubdocDocE2deep,
    LcbSubdocValueCantinsert,
    LcbSubdocDocNotjson,
    LcbSubdocNumErange,
    LcbSubdocBadDelta,
    LcbSubdocPathEexists,
    LcbSubdocMultiFailure,
    LcbSubdocValueE2deep,
    LcbEinvalMcd,
    LcbEmptyPath,
    LcbUnknownSdcmd,
    LcbEnoCommands,
    LcbQueryError,
    LcbMaxError,
}

/// The number that libcouchbase uses for each status.
pub open spec fn error_code(e: LcbErrorT) -> u32 {
    match e {
        LcbErrorT::LcbSuccess => 0,
        LcbErrorT::LcbAuthContinue => 1,
        LcbErrorT::LcbAuthError => 2,
        LcbErrorT::LcbDeltaBadval => 3,
        LcbErrorT::LcbE2big => 4,
        LcbErrorT::LcbEbusy => 5,
        LcbErrorT::LcbEinternal => 6,
        LcbErrorT::LcbEinval => 7,
        LcbErrorT::LcbEnomem => 8,
        LcbErrorT::LcbErange => 9,
        LcbErrorT::LcbError => 10,
        LcbErrorT::LcbEtmpfail => 11,
        LcbErrorT::LcbKeyEexists => 12,
        LcbErrorT::LcbKeyEnoent => 13,
        LcbErrorT::LcbDlopenFailed => 14,
        LcbErrorT::LcbDlsymFailed => 15,
        LcbErrorT::LcbNetworkError => 16,
        LcbErrorT::LcbNotMyVbucket => 17,
        LcbErrorT::LcbNotStored => 18,
        LcbErrorT::LcbNotSupported => 19,
        LcbErrorT::LcbUnknownCommand => 20,
        LcbErrorT::LcbUnknownHost => 21,
        LcbErrorT::LcbProtocolError => 22,
        LcbErrorT::LcbEtimedout => 23,
        LcbErrorT::LcbConnectError => 24,
        LcbErrorT::LcbBucketEnoent => 25,
        LcbErrorT::LcbClientEnomem => 26,
        LcbErrorT::LcbClientEnoconf => 27,
        LcbErrorT::LcbEbadhandle => 28,
        LcbErrorT::LcbServerBug => 29,
        LcbErrorT::LcbPluginVersionMismatch => 30,
        LcbErrorT::LcbInvalidHostFormat => 31,
        LcbErrorT::LcbInvalidChar => 32,
        LcbErrorT::LcbDurabilityEtoomany => 33,
        LcbErrorT::LcbDuplicateCommands => 34,
        LcbErrorT::LcbNoMatchingServer => 35,
        LcbErrorT::LcbBadEnvironment => 36,
        LcbErrorT::LcbBusy => 37,
        LcbErrorT::LcbInvalidUsername => 38,
        LcbErrorT::LcbConfigCacheInvalid => 39,
        LcbErrorT::LcbSaslmechUnavailable => 40,
        LcbErrorT::LcbTooManyRedirects => 41,
        LcbErrorT::LcbMapChanged => 42,
        LcbErrorT::LcbIncompletePacket => 43,
        LcbErrorT::LcbEconnrefused => 44,
        LcbErrorT::LcbEsockshutdown => 45,
        LcbErrorT::LcbEconnreset => 46,
        LcbErrorT::LcbEcantgetport => 47,
        LcbErrorT::LcbEfdlimitreached => 48,
        LcbErrorT::LcbEnetunreach => 49,
        LcbErrorT::LcbEctlUnknown => 50,
        LcbErrorT::LcbEctlUnsuppmode => 51,
        LcbErrorT::LcbEctlBadarg => 52,
        LcbErrorT::LcbEmptyKey => 53,
        LcbErrorT::LcbSslError => 54,
        LcbErrorT::LcbSslCantverify => 55,
        LcbErrorT::LcbSchedfailInternal => 56,
        LcbErrorT::LcbClientFeatureUnavailable => 57,
        LcbErrorT::LcbOptionsConflict => 58,
        LcbErrorT::LcbHttpError => 59,
        LcbErrorT::LcbDurabilityNoMutationTokens => 60,
        LcbErrorT::LcbUnknownMemcachedError => 61,
        LcbErrorT::LcbMutationLost => 62,
        LcbErrorT::LcbSubdocPathEnoent => 63,
        LcbErrorT::LcbSubdocPathMismatch => 64,
        LcbErrorT::LcbSubdocPathEinval => 65,
        LcbErrorT::LcbSubdocPathE2big => 66,
        LcbErrorT::LcbSubdocDocE2deep => 67,
        LcbErrorT::LcbSubdocValueCantinsert => 68,
        LcbErrorT::LcbSubdocDocNotjson => 69,
        LcbErrorT::LcbSubdocNumErange => 70,
        LcbErrorT::LcbSubdocBadDelta => 71,
        LcbErrorT::LcbSubdocPathEexists => 72,
        LcbErrorT::LcbSubdocMultiFailure => 73,
        LcbErrorT::LcbSubdocValueE2deep => 74,
        LcbErrorT::LcbEinvalMcd => 75,
        LcbErrorT::LcbEmptyPath => 76,
        LcbErrorT::LcbUnknownSdcmd => 77,
        LcbErrorT::LcbEnoCommands => 78,
        LcbErrorT::LcbQueryError => 79,
        LcbErrorT::LcbMaxError => 4096,
    }
}

/// The status that libcouchbase means by a number, if any.
pub open spec fn error_of_code(code: u32) -> Option<LcbErrorT> {
    match code {
        0 => Some(LcbErrorT::LcbSuccess),
        1 => Some(LcbErrorT::LcbAuthContinue),
        2 => Some(LcbErrorT::LcbAuthError),
        3 => Some(LcbErrorT::LcbDeltaBadval),
        4 => Some(LcbErrorT::LcbE2big),
        5 => Some(LcbErrorT::LcbEbusy),
        6 => Some(LcbErrorT::LcbEinternal),
        7 => Some(LcbErrorT::LcbEinval),
        8 => Some(LcbErrorT::LcbEnomem),
        9 => Some(LcbErrorT::LcbErange),
        10 => Some(LcbErrorT::LcbError),
        11 => Some(LcbErrorT::LcbEtmpfail),
        12 => Some(LcbErrorT::LcbKeyEexists),
        13 => Some(LcbErrorT::LcbKeyEnoent),
        14 => Some(LcbErrorT::LcbDlopenFailed),
        15 => Some(LcbErrorT::LcbDlsymFailed),
        16 => Some(LcbErrorT::LcbNetworkError),
        17 => Some(LcbErrorT::LcbNotMyVbucket),
        18 => Some(LcbErrorT::LcbNotStored),
        19 => Some(LcbErrorT::LcbNotSupported),
        20 => Some(LcbErrorT::LcbUnknownCommand),
        21 => Some(LcbErrorT::LcbUnknownHost),
        22 => Some(LcbErrorT::LcbProtocolError),
        23 => Some(LcbErrorT::LcbEtimedout),
        24 => Some(LcbErrorT::LcbConnectError),
        25 => Some(LcbErrorT::LcbBucketEnoent),
        26 => Some(LcbErrorT::LcbClientEnomem),
        27 => Some(LcbErrorT::LcbClientEnoconf),
        28 => Some(LcbErrorT::LcbEbadhandle),
        29 => Some(LcbErrorT::LcbServerBug),
        30 => Some(LcbErrorT::LcbPluginVersionMismatch),
        31 => Some(LcbErrorT::LcbInvalidHostFormat),
        32 => Some(LcbErrorT::LcbInvalidChar),
        33 => Some(LcbErrorT::LcbDurabilityEtoomany),
        34 => Some(LcbErrorT::LcbDuplicateCommands),
        35 => Some(LcbErrorT::LcbNoMatchingServer),
        36 => Some(LcbErrorT::LcbBadEnvironment),
        37 => Some(LcbErrorT::LcbBusy),
        38 => Some(LcbErrorT::LcbInvalidUsername),
        39 => Some(LcbErrorT::LcbConfigCacheInvalid),
        40 => Some(LcbErrorT::LcbSaslmechUnavailable),
        41 => Some(LcbErrorT::LcbTooManyRedirects),
        42 => Some(LcbErrorT::LcbMapChanged),
        43 => Some(LcbErrorT::LcbIncompletePacket),
        44 => Some(LcbErrorT::LcbEconnrefused),
        45 => Some(LcbErrorT::LcbEsockshutdown),
        46 => Some(LcbErrorT::LcbEconnreset),
        47 => Some(LcbErrorT::LcbEcantgetport),
        48 => Some(LcbErrorT::LcbEfdlimitreached),
        49 => Some(LcbErrorT::LcbEnetunreach),
        50 => Some(LcbErrorT::LcbEctlUnknown),
        51 => Some(LcbErrorT::LcbEctlUnsuppmode),
        52 => Some(LcbErrorT::LcbEctlBadarg),
        53 => Some(LcbErrorT::LcbEmptyKey),
        54 => Some(LcbErrorT::LcbSslError),
        55 => Some(LcbErrorT::LcbSslCantverify),
        56 => Some(LcbErrorT::LcbSchedfailInternal),
        57 => Some(LcbErrorT::LcbClientFeatureUnavailable),
        58 => Some(LcbErrorT::LcbOptionsConflict),
        59 => Some(LcbErrorT::LcbHttpError),
        60 => Some(LcbErrorT::LcbDurabilityNoMutationTokens),
        61 => Some(LcbErrorT::LcbUnknownMemcachedError),
        62 => Some(LcbErrorT::LcbMutationLost),
        63 => Some(LcbErrorT::LcbSubdocPathEnoent),
        64 => Some(LcbErrorT::LcbSubdocPathMismatch),
        65 => Some(LcbErrorT::LcbSubdocPathEinval),
        66 => Some(LcbErrorT::LcbSubdocPathE2big),
        67 => Some(LcbErrorT::LcbSubdocDocE2deep),
        68 => Some(LcbErrorT::LcbSubdocValueCantinsert),
        69 => Some(LcbErrorT::LcbSubdocDocNotjson),
        70 => Some(LcbErrorT::LcbSubdocNumErange),
        71 => Some(LcbErrorT::LcbSubdocBadDelta),
        72 => Some(LcbErrorT::LcbSubdocPathEexists),
        73 => Some(LcbErrorT::LcbSubdocMultiFailure),
        74 => Some(LcbErrorT::LcbSubdocValueE2deep),
        75 => Some(LcbErrorT::LcbEinvalMcd),
        76 => Some(LcbErrorT::LcbEmptyPath),
        77 => Some(LcbErrorT::LcbUnknownSdcmd),
        78 => Some(LcbErrorT::LcbEnoCommands),
        79 => Some(LcbErrorT::LcbQueryError),
        4096 => Some(LcbErrorT::LcbMaxError),
        _ => None,
    }
}

/// The name under which a status is printed (its variant's name).
pub open spec fn error_name(e: LcbErrorT) -> Seq<char> {
    match e {
        LcbErrorT::LcbSuccess => "LcbSuccess"@,
        LcbErrorT::LcbAuthContinue => "LcbAuthContinue"@,
        LcbErrorT::LcbAuthError => "LcbAuthError"@,
        LcbErrorT::LcbDeltaBadval => "LcbDeltaBadval"@,
        LcbErrorT::LcbE2big => "LcbE2big"@,
        LcbErrorT::LcbEbusy => "LcbEbusy"@,
        LcbErrorT::LcbEinternal => "LcbEinternal"@,
        LcbErrorT::LcbEinval => "LcbEinval"@,
        LcbErrorT::LcbEnomem => "LcbEnomem"@,
        LcbErrorT::LcbErange => "LcbErange"@,
        LcbErrorT::LcbError => "LcbError"@,
        LcbErrorT::LcbEtmpfail => "LcbEtmpfail"@,
        LcbErrorT::LcbKeyEexists => "LcbKeyEexists"@,
        LcbErrorT::LcbKeyEnoent => "LcbKeyEnoent"@,
        LcbErrorT::LcbDlopenFailed => "LcbDlopenFailed"@,
        LcbErrorT::LcbDlsymFailed => "LcbDlsymFailed"@,
        LcbErrorT::LcbNetworkError => "LcbNetworkError"@,
        LcbErrorT::LcbNotMyVbucket => "LcbNotMyVbucket"@,
        LcbErrorT::LcbNotStored => "LcbNotStored"@,
        LcbErrorT::LcbNotSupported => "LcbNotSupported"@,
        LcbErrorT::LcbUnknownCommand => "LcbUnknownCommand"@,
        LcbErrorT::LcbUnknownHost => "LcbUnknownHost"@,
        LcbErrorT::LcbProtocolError => "LcbProtocolError"@,
        LcbErrorT::LcbEtimedout => "LcbEtimedout"@,
        LcbErrorT::LcbConnectError => "LcbConnectError"@,
        LcbErrorT::LcbBucketEnoent => "LcbBucketEnoent"@,
        LcbErrorT::LcbClientEnomem => "LcbClientEnomem"@,
        LcbErrorT::LcbClientEnoconf => "LcbClientEnoconf"@,
        LcbErrorT::LcbEbadhandle => "LcbEbadhandle"@,
        LcbErrorT::LcbServerBug => "LcbServerBug"@,
        LcbErrorT::LcbPluginVersionMismatch => "LcbPluginVersionMismatch"@,
        LcbErrorT::LcbInvalidHostFormat => "LcbInvalidHostFormat"@,
        LcbErrorT::LcbInvalidChar => "LcbInvalidChar"@,
        LcbErrorT::LcbDurabilityEtoomany => "LcbDurabilityEtoomany"@,
        LcbErrorT::LcbDuplicateCommands => "LcbDuplicateCommands"@,
        LcbErrorT::LcbNoMatchingServer => "LcbNoMatchingServer"@,
        LcbErrorT::LcbBadEnvironment => "LcbBadEnvironment"@,
        LcbErrorT::LcbBusy => "LcbBusy"@,
        LcbErrorT::LcbInvalidUsername => "LcbInvalidUsername"@,
        LcbErrorT::LcbConfigCacheInvalid => "LcbConfigCacheInvalid"@,
        LcbErrorT::LcbSaslmechUnavailable => "LcbSaslmechUnavailable"@,
        LcbErrorT::LcbTooManyRedirects => "LcbTooManyRedirects"@,
        LcbErrorT::LcbMapChanged => "LcbMapChanged"@,
        LcbErrorT::LcbIncompletePacket => "LcbIncompletePacket"@,
        LcbErrorT::LcbEconnrefused => "LcbEconnrefused"@,
        LcbErrorT::LcbEsockshutdown => "LcbEsockshutdown"@,
        LcbErrorT::LcbEconnreset => "LcbEconnreset"@,
        LcbErrorT::LcbEcantgetport => "LcbEcantgetport"@,
        LcbErrorT::LcbEfdlimitreached => "LcbEfdlimitreached"@,
        LcbErrorT::LcbEnetunreach => "LcbEnetunreach"@,
        LcbErrorT::LcbEctlUnknown => "LcbEctlUnknown"@,
        LcbErrorT::LcbEctlUnsuppmode => "LcbEctlUnsuppmode"@,
        LcbErrorT::LcbEctlBadarg => "LcbEctlBadarg"@,
        LcbErrorT::LcbEmptyKey => "LcbEmptyKey"@,
        LcbErrorT::LcbSslError => "LcbSslError"@,
        LcbErrorT::LcbSslCantverify => "LcbSslCantverify"@,
        LcbErrorT::LcbSchedfailInternal => "LcbSchedfailInternal"@,
        LcbErrorT::LcbClientFeatureUnavailable => "LcbClientFeatureUnavailable"@,
        LcbErrorT::LcbOptionsConflict => "LcbOptionsConflict"@,
        LcbErrorT::LcbHttpError => "LcbHttpError"@,
        LcbErrorT::LcbDurabilityNoMutationTokens => "LcbDurabilityNoMutationTokens"@,
        LcbErrorT::LcbUnknownMemcachedError => "LcbUnknownMemcachedError"@,
        LcbErrorT::LcbMutationLost => "LcbMutationLost"@,
        LcbErrorT::LcbSubdocPathEnoent => "LcbSubdocPathEnoent"@,
        LcbErrorT::LcbSubdocPathMismatch => "LcbSubdocPathMismatch"@,
        LcbErrorT::LcbSubdocPathEinval => "LcbSubdocPathEinval"@,
        LcbErrorT::LcbSubdocPathE2big => "LcbSubdocPathE2big"@,
        LcbErrorT::LcbSubdocDocE2deep => "LcbSubdocDocE2deep"@,
        LcbErrorT::LcbSubdocValueCantinsert => "LcbSubdocValueCantinsert"@,
        LcbErrorT::LcbSubdocDocNotjson => "LcbSubdocDocNotjson"@,
        LcbErrorT::LcbSubdocNumErange => "LcbSubdocNumErange"@,
        LcbErrorT::LcbSubdocBadDelta => "LcbSubdocBadDelta"@,
        LcbErrorT::LcbSubdocPathEexists => "LcbSubdocPathEexists"@,
        LcbErrorT::LcbSubdocMultiFailure => "LcbSubdocMultiFailure"@,
        LcbErrorT::LcbSubdocValueE2deep => "LcbSubdocValueE2deep"@,
        LcbErrorT::LcbEinvalMcd => "LcbEinvalMcd"@,
        LcbErrorT::LcbEmptyPath => "LcbEmptyPath"@,
        LcbErrorT::LcbUnknownSdcmd => "LcbUnknownSdcmd"@,
        LcbErrorT::LcbEnoCommands => "LcbEnoCommands"@,
        LcbErrorT::LcbQueryError => "LcbQueryError"@,
        LcbErrorT::LcbMaxError => "LcbMaxError"@,
    }
}

impl LcbErrorT {
    /// The numeric code of this status, as libcouchbase reports it.
    pub fn code(&self) -> (c: u32)
        ensures
            c == error_code(*self),
    {
        match self {
            LcbErrorT::LcbSuccess => 0,
            LcbErrorT::LcbAuthContinue => 1,
            LcbErrorT::LcbAuthError => 2,
            LcbErrorT::LcbDeltaBadval => 3,
            LcbErrorT::LcbE2big => 4,
            LcbErrorT::LcbEbusy => 5,
            LcbErrorT::LcbEinternal => 6,
            LcbErrorT::LcbEinval => 7,
            LcbErrorT::LcbEnomem => 8,
            LcbErrorT::LcbErange => 9,
            LcbErrorT::LcbError => 10,
            LcbErrorT::LcbEtmpfail => 11,
            LcbErrorT::LcbKeyEexists => 12,
            LcbErrorT::LcbKeyEnoent => 13,
            LcbErrorT::LcbDlopenFailed => 14,
            LcbErrorT::LcbDlsymFailed => 15,
            LcbErrorT::LcbNetworkError => 16,
            LcbErrorT::LcbNotMyVbucket => 17,
            LcbErrorT::LcbNotStored => 18,
            LcbErrorT::LcbNotSupported => 19,
            LcbErrorT::LcbUnknownCommand => 20,
            LcbErrorT::LcbUnknownHost => 21,
            LcbErrorT::LcbProtocolError => 22,
            LcbErrorT::LcbEtimedout => 23,
            LcbErrorT::LcbConnectError => 24,
            LcbErrorT::LcbBucketEnoent => 25,
            LcbErrorT::LcbClientEnomem => 26,
            LcbErrorT::LcbClientEnoconf => 27,
            LcbErrorT::LcbEbadhandle => 28,
            LcbErrorT::LcbServerBug => 29,
            LcbErrorT::LcbPluginVersionMismatch => 30,
            LcbErrorT::LcbInvalidHostFormat => 31,
            LcbErrorT::LcbInvalidChar => 32,
            LcbErrorT::LcbDurabilityEtoomany => 33,
            LcbErrorT::LcbDuplicateCommands => 34,
            LcbErrorT::LcbNoMatchingServer => 35,
            LcbErrorT::LcbBadEnvironment => 36,
            LcbErrorT::LcbBusy => 37,
            LcbErrorT::LcbInvalidUsername => 38,
            LcbErrorT::LcbConfigCacheInvalid => 39,
            LcbErrorT::LcbSaslmechUnavailable => 40,
            LcbErrorT::LcbTooManyRedirects => 41,
            LcbErrorT::LcbMapChanged => 42,
            LcbErrorT::LcbIncompletePacket => 43,
            LcbErrorT::LcbEconnrefused => 44,
            LcbErrorT::LcbEsockshutdown => 45,
            LcbErrorT::LcbEconnreset => 46,
            LcbErrorT::LcbEcantgetport => 47,
            LcbErrorT::LcbEfdlimitreached => 48,
            LcbErrorT::LcbEnetunreach => 49,
            LcbErrorT::LcbEctlUnknown => 50,
            LcbErrorT::LcbEctlUnsuppmode => 51,
            LcbErrorT::LcbEctlBadarg => 52,
            LcbErrorT::LcbEmptyKey => 53,
            LcbErrorT::LcbSslError => 54,
            LcbErrorT::LcbSslCantverify => 55,
            LcbErrorT::LcbSchedfailInternal => 56,
            LcbErrorT::LcbClientFeatureUnavailable => 57,
            LcbErrorT::LcbOptionsConflict => 58,
            LcbErrorT::LcbHttpError => 59,
            LcbErrorT::LcbDurabilityNoMutationTokens => 60,
            LcbErrorT::LcbUnknownMemcachedError => 61,
            LcbErrorT::LcbMutationLost => 62,
            LcbErrorT::LcbSubdocPathEnoent => 63,
            LcbErrorT::LcbSubdocPathMismatch => 64,
            LcbErrorT::LcbSubdocPathEinval => 65,
            LcbErrorT::LcbSubdocPathE2big => 66,
            LcbErrorT::LcbSubdocDocE2deep => 67,
            LcbErrorT::LcbSubdocValueCantinsert => 68,
            LcbErrorT::LcbSubdocDocNotjson => 69,
            LcbErrorT::LcbSubdocNumErange => 70,
            LcbErrorT::LcbSubdocBadDelta => 71,
            LcbErrorT::LcbSubdocPathEexists => 72,
            LcbErrorT::LcbSubdocMultiFailure => 73,
            LcbErrorT::LcbSubdocValueE2deep => 74,
            LcbErrorT::LcbEinvalMcd => 75,
            LcbErrorT::LcbEmptyPath => 76,
            LcbErrorT::LcbUnknownSdcmd => 77,
            LcbErrorT::LcbEnoCommands => 78,
            LcbErrorT::LcbQueryError => 79,
            LcbErrorT::LcbMaxError => 4096,
        }
    }

    /// The status that libcouchbase reports under `code`, or `None` for a
    /// number that names no status.
    pub fn from_code(code: u32) -> (e: Option<LcbErrorT>)
        ensures
            e == error_of_code(code),
    {
        match code {
            0 => Some(LcbErrorT::LcbSuccess),
            1 => Some(LcbErrorT::LcbAuthContinue),
            2 => Some(LcbErrorT::LcbAuthError),
            3 => Some(LcbErrorT::LcbDeltaBadval),
            4 => Some(LcbErrorT::LcbE2big),
            5 => Some(LcbErrorT::LcbEbusy),
            6 => Some(LcbErrorT::LcbEinternal),
            7 => Some(LcbErrorT::LcbEinval),
            8 => Some(LcbErrorT::LcbEnomem),
            9 => Some(LcbErrorT::LcbErange),
            10 => Some(LcbErrorT::LcbError),
            11 => Some(LcbErrorT::LcbEtmpfail),
            12 => Some(LcbErrorT::LcbKeyEexists),
            13 => Some(LcbErrorT::LcbKeyEnoent),
            14 => Some(LcbErrorT::LcbDlopenFailed),
            15 => Some(LcbErrorT::LcbDlsymFailed),
            16 => Some(LcbErrorT::LcbNetworkError),
            17 => Some(LcbErrorT::LcbNotMyVbucket),
            18 => Some(LcbErrorT::LcbNotStored),
            19 => Some(LcbErrorT::LcbNotSupported),
            20 => Some(LcbErrorT::LcbUnknownCommand),
            21 => Some(LcbErrorT::LcbUnknownHost),
            22 => Some(LcbErrorT::LcbProtocolError),
            23 => Some(LcbErrorT::LcbEtimedout),
            24 => Some(LcbErrorT::LcbConnectError),
            25 => Some(LcbErrorT::LcbBucketEnoent),
            26 => Some(LcbErrorT::LcbClientEnomem),
            27 => Some(LcbErrorT::LcbClientEnoconf),
            28 => Some(LcbErrorT::LcbEbadhandle),
            29 => Some(LcbErrorT::LcbServerBug),
            30 => Some(LcbErrorT::LcbPluginVersionMismatch),
            31 => Some(LcbErrorT::LcbInvalidHostFormat),
            32 => Some(LcbErrorT::LcbInvalidChar),
            33 => Some(LcbErrorT::LcbDurabilityEtoomany),
            34 => Some(LcbErrorT::LcbDuplicateCommands),
            35 => Some(LcbErrorT::LcbNoMatchingServer),
            36 => Some(LcbErrorT::LcbBadEnvironment),
            37 => Some(LcbErrorT::LcbBusy),
            38 => Some(LcbErrorT::LcbInvalidUsername),
            39 => Some(LcbErrorT::LcbConfigCacheInvalid),
            40 => Some(LcbErrorT::LcbSaslmechUnavailable),
            41 => Some(LcbErrorT::LcbTooManyRedirects),
            42 => Some(LcbErrorT::LcbMapChanged),
            43 => Some(LcbErrorT::LcbIncompletePacket),
            44 => Some(LcbErrorT::LcbEconnrefused),
            45 => Some(LcbErrorT::LcbEsockshutdown),
            46 => Some(LcbErrorT::LcbEconnreset),
            47 => Some(LcbErrorT::LcbEcantgetport),
            48 => Some(LcbErrorT::LcbEfdlimitreached),
            49 => Some(LcbErrorT::LcbEnetunreach),
            50 => Some(LcbErrorT::LcbEctlUnknown),
            51 => Some(LcbErrorT::LcbEctlUnsuppmode),
            52 => Some(LcbErrorT::LcbEctlBadarg),
            53 => Some(LcbErrorT::LcbEmptyKey),
            54 => Some(LcbErrorT::LcbSslError),
            55 => Some(LcbErrorT::LcbSslCantverify),
            56 => Some(LcbErrorT::LcbSchedfailInternal),
            57 => Some(LcbErrorT::LcbClientFeatureUnavailable),
            58 => Some(LcbErrorT::LcbOptionsConflict),
            59 => Some(LcbErrorT::LcbHttpError),
            60 => Some(LcbErrorT::LcbDurabilityNoMutationTokens),
            61 => Some(LcbErrorT::LcbUnknownMemcachedError),
            62 => Some(LcbErrorT::LcbMutationLost),
            63 => Some(LcbErrorT::LcbSubdocPathEnoent),
            64 => Some(LcbErrorT::LcbSubdocPathMismatch),
            65 => Some(LcbErrorT::LcbSubdocPathEinval),
            66 => Some(LcbErrorT::LcbSubdocPathE2big),
            67 => Some(LcbErrorT::LcbSubdocDocE2deep),
            68 => Some(LcbErrorT::LcbSubdocValueCantinsert),
            69 => Some(LcbErrorT::LcbSubdocDocNotjson),
            70 => Some(LcbErrorT::LcbSubdocNumErange),
            71 => Some(LcbErrorT::LcbSubdocBadDelta),
            72 => Some(LcbErrorT::LcbSubdocPathEexists),
            73 => Some(LcbErrorT::LcbSubdocMultiFailure),
            74 => Some(LcbErrorT::LcbSubdocValueE2deep),
            75 => Some(LcbErrorT::LcbEinvalMcd),
            76 => Some(LcbErrorT::LcbEmptyPath),
            77 => Some(LcbErrorT::LcbUnknownSdcmd),
            78 => Some(LcbErrorT::LcbEnoCommands),
            79 => Some(LcbErrorT::LcbQueryError),
            4096 => Some(LcbErrorT::LcbMaxError),
            _ => None,
        }
    }

    /// The variant's name, as `{:?}` prints it.
    pub fn name(&self) -> (s: &'static str)
        ensures
            s@ == error_name(*self),
    {
        match self {
            LcbErrorT::LcbSuccess => "LcbSuccess",
            LcbErrorT::LcbAuthContinue => "LcbAuthContinue",
            LcbErrorT::LcbAuthError => "LcbAuthError",
            LcbErrorT::LcbDeltaBadval => "LcbDeltaBadval",
            LcbErrorT::LcbE2big => "LcbE2big",
            LcbErrorT::LcbEbusy => "LcbEbusy",
            LcbErrorT::LcbEinternal => "LcbEinternal",
            LcbErrorT::LcbEinval => "LcbEinval",
            LcbErrorT::LcbEnomem => "LcbEnomem",
            LcbErrorT::LcbErange => "LcbErange",
            LcbErrorT::LcbError => "LcbError",
            LcbErrorT::LcbEtmpfail => "LcbEtmpfail",
            LcbErrorT::LcbKeyEexists => "LcbKeyEexists",
            LcbErrorT::LcbKeyEnoent => "LcbKeyEnoent",
            LcbErrorT::LcbDlopenFailed => "LcbDlopenFailed",
            LcbErrorT::LcbDlsymFailed => "LcbDlsymFailed",
            LcbErrorT::LcbNetworkError => "LcbNetworkError",
            LcbErrorT::LcbNotMyVbucket => "LcbNotMyVbucket",
            LcbErrorT::LcbNotStored => "LcbNotStored",
            LcbErrorT::LcbNotSupported => "LcbNotSupported",
            LcbErrorT::LcbUnknownCommand => "LcbUnknownCommand",
            LcbErrorT::LcbUnknownHost => "LcbUnknownHost",
            LcbErrorT::LcbProtocolError => "LcbProtocolError",
            LcbErrorT::LcbEtimedout => "LcbEtimedout",
            LcbErrorT::LcbConnectError => "LcbConnectError",
            LcbErrorT::LcbBucketEnoent => "LcbBucketEnoent",
            LcbErrorT::LcbClientEnomem => "LcbClientEnomem",
            LcbErrorT::LcbClientEnoconf => "LcbClientEnoconf",
            LcbErrorT::LcbEbadhandle => "LcbEbadhandle",
            LcbErrorT::LcbServerBug => "LcbServerBug",
            LcbErrorT::LcbPluginVersionMismatch => "LcbPluginVersionMismatch",
            LcbErrorT::LcbInvalidHostFormat => "LcbInvalidHostFormat",
            LcbErrorT::LcbInvalidChar => "LcbInvalidChar",
            LcbErrorT::LcbDurabilityEtoomany => "LcbDurabilityEtoomany",
            LcbErrorT::LcbDuplicateCommands => "LcbDuplicateCommands",
            LcbErrorT::LcbNoMatchingServer => "LcbNoMatchingServer",
            LcbErrorT::LcbBadEnvironment => "LcbBadEnvironment",
            LcbErrorT::LcbBusy => "LcbBusy",
            LcbErrorT::LcbInvalidUsername => "LcbInvalidUsername",
            LcbErrorT::LcbConfigCacheInvalid => "LcbConfigCacheInvalid",
            LcbErrorT::LcbSaslmechUnavailable => "LcbSaslmechUnavailable",
            LcbErrorT::LcbTooManyRedirects => "LcbTooManyRedirects",
            LcbErrorT::LcbMapChanged => "LcbMapChanged",
            LcbErrorT::LcbIncompletePacket => "LcbIncompletePacket",
            LcbErrorT::LcbEconnrefused => "LcbEconnrefused",
            LcbErrorT::LcbEsockshutdown => "LcbEsockshutdown",
            LcbErrorT::LcbEconnreset => "LcbEconnreset",
            LcbErrorT::LcbEcantgetport => "LcbEcantgetport",
            LcbErrorT::LcbEfdlimitreached => "LcbEfdlimitreached",
            LcbErrorT::LcbEnetunreach => "LcbEnetunreach",
            LcbErrorT::LcbEctlUnknown => "LcbEctlUnknown",
            LcbErrorT::LcbEctlUnsuppmode => "LcbEctlUnsuppmode",
            LcbErrorT::LcbEctlBadarg => "LcbEctlBadarg",
            LcbErrorT::LcbEmptyKey => "LcbEmptyKey",
            LcbErrorT::LcbSslError => "LcbSslError",
            LcbErrorT::LcbSslCantverify => "LcbSslCantverify",
            LcbErrorT::LcbSchedfailInternal => "LcbSchedfailInternal",
            LcbErrorT::LcbClientFeatureUnavailable => "LcbClientFeatureUnavailable",
            LcbErrorT::LcbOptionsConflict => "LcbOptionsConflict",
            LcbErrorT::LcbHttpError => "LcbHttpError",
            LcbErrorT::LcbDurabilityNoMutationTokens => "LcbDurabilityNoMutationTokens",
            LcbErrorT::LcbUnknownMemcachedError => "LcbUnknownMemcachedError",
            LcbErrorT::LcbMutationLost => "LcbMutationLost",
            LcbErrorT::LcbSubdocPathEnoent => "LcbSubdocPathEnoent",
            LcbErrorT::LcbSubdocPathMismatch => "LcbSubdocPathMismatch",
            LcbErrorT::LcbSubdocPathEinval => "LcbSubdocPathEinval",
            LcbErrorT::LcbSubdocPathE2big => "LcbSubdocPathE2big",
            LcbErrorT::LcbSubdocDocE2deep => "LcbSubdocDocE2deep",
            LcbErrorT::LcbSubdocValueCantinsert => "LcbSubdocValueCantinsert",
            LcbErrorT::LcbSubdocDocNotjson => "LcbSubdocDocNotjson",
            LcbErrorT::LcbSubdocNumErange => "LcbSubdocNumErange",
            LcbErrorT::LcbSubdocBadDelta => "LcbSubdocBadDelta",
            LcbErrorT::LcbSubdocPathEexists => "LcbSubdocPathEexists",
            LcbErrorT::LcbSubdocMultiFailure => "LcbSubdocMultiFailure",
            LcbErrorT::LcbSubdocValueE2deep => "LcbSubdocValueE2deep",
            LcbErrorT::LcbEinvalMcd => "LcbEinvalMcd",
            LcbErrorT::LcbEmptyPath => "LcbEmptyPath",
            LcbErrorT::LcbUnknownSdcmd => "LcbUnknownSdcmd",
            LcbErrorT::LcbEnoCommands => "LcbEnoCommands",
            LcbErrorT::LcbQueryError => "LcbQueryError",
            LcbErrorT::LcbMaxError => "LcbMaxError",
        }
    }

    /// Whether this status is `LcbSuccess`.
    pub fn is_success(&self) -> (b: bool)
        ensures
            b == (*self == LcbErrorT::LcbSuccess),
    {
        match self {
            LcbErrorT::LcbSuccess => true,
            _ => false,
        }
    }

    /// The text under which the status is shown: libcouchbase's description
    /// of it (as `lcb_strerror` gives it), then its name in brackets.
    pub fn fmt_with_description(&self, description: &str) -> (s: String)
        ensures
            s@ == description@ + " ("@ + error_name(*self) + ")"@,
    {
        let s = String::from_str(description);
        let s = s.concat(" (");
        let s = s.concat(self.name());
        s.concat(")")
    }
}

/// Reading back the code of a status gives that status.
pub proof fn lemma_error_code_roundtrip(e: LcbErrorT)
    ensures
        error_of_code(error_code(e)) == Some(e),
{
}

/// A number that names a status is that status's code.
pub proof fn lemma_error_code_of_known(code: u32)
    requires
        error_of_code(code) is Some,
    ensures
        error_code(error_of_code(code)->0) == code,
{
}

/// Distinct statuses have distinct codes.
pub proof fn lemma_error_code_injective(a: LcbErrorT, b: LcbErrorT)
    requires
        error_code(a) == error_code(b),
    ensures
        a == b,
{
    lemma_error_code_roundtrip(a);
    lemma_error_code_roundtrip(b);
}

/// The numbers libcouchbase assigns to its statuses (`lcb_error_t`).
pub proof fn lemma_error_code_table()
    ensures
        error_code(LcbErrorT::LcbSuccess) == 0,
        error_code(LcbErrorT::LcbAuthContinue) == 1,
        error_code(LcbErrorT::LcbAuthError) == 2,
        error_code(LcbErrorT::LcbDeltaBadval) == 3,
        error_code(LcbErrorT::LcbE2big) == 4,
        error_code(LcbErrorT::LcbEbusy) == 5,
        error_code(LcbErrorT::LcbEinternal) == 6,
        error_code(LcbErrorT::LcbEinval) == 7,
        error_code(LcbErrorT::LcbEnomem) == 8,
        error_code(LcbErrorT::LcbErange) == 9,
        error_code(LcbErrorT::LcbError) == 10,
        error_code(LcbErrorT::LcbEtmpfail) == 11,
        error_code(LcbErrorT::LcbKeyEexists) == 12,
        error_code(LcbErrorT::LcbKeyEnoent) == 13,
        error_code(LcbErrorT::LcbDlopenFailed) == 14,
        error_code(LcbErrorT::LcbDlsymFailed) == 15,
        error_code(LcbErrorT::LcbNetworkError) == 16,
        error_code(LcbErrorT::LcbNotMyVbucket) == 17,
        error_code(LcbErrorT::LcbNotStored) == 18,
        error_code(LcbErrorT::LcbNotSupported) == 19,
        error_code(LcbErrorT::LcbUnknownCommand) == 20,
        error_code(LcbErrorT::LcbUnknownHost) == 21,
        error_code(LcbErrorT::LcbProtocolError) == 22,
        error_code(LcbErrorT::LcbEtimedout) == 23,
        error_code(LcbErrorT::LcbConnectError) == 24,
        error_code(LcbErrorT::LcbBucketEnoent) == 25,
        error_code(LcbErrorT::LcbClientEnomem) == 26,
        error_code(LcbErrorT::LcbClientEnoconf) == 27,
        error_code(LcbErrorT::LcbEbadhandle) == 28,
        error_code(LcbErrorT::LcbServerBug) == 29,
        error_code(LcbErrorT::LcbPluginVersionMismatch) == 30,
        error_code(LcbErrorT::LcbInvalidHostFormat) == 31,
        error_code(LcbErrorT::LcbInvalidChar) == 32,
        error_code(LcbErrorT::LcbDurabilityEtoomany) == 33,
        error_code(LcbErrorT::LcbDuplicateCommands) == 34,
        error_code(LcbErrorT::LcbNoMatchingServer) == 35,
        error_code(LcbErrorT::LcbBadEnvironment) == 36,
        error_code(LcbErrorT::LcbBusy) == 37,
        error_code(LcbErrorT::LcbInvalidUsername) == 38,
        error_code(LcbErrorT::LcbConfigCacheInvalid) == 39,
        error_code(LcbErrorT::LcbSaslmechUnavailable) == 40,
        error_code(LcbErrorT::LcbTooManyRedirects) == 41,
        error_code(LcbErrorT::LcbMapChanged) == 42,
        error_code(LcbErrorT::LcbIncompletePacket) == 43,
        error_code(LcbErrorT::LcbEconnrefused) == 44,
        error_code(LcbErrorT::LcbEsockshutdown) == 45,
        error_code(LcbErrorT::LcbEconnreset) == 46,
        error_code(LcbErrorT::LcbEcantgetport) == 47,
        error_code(LcbErrorT::LcbEfdlimitreached) == 48,
        error_code(LcbErrorT::LcbEnetunreach) == 49,
        error_code(LcbErrorT::LcbEctlUnknown) == 50,
        error_code(LcbErrorT::LcbEctlUnsuppmode) == 51,
        error_code(LcbErrorT::LcbEctlBadarg) == 52,
        error_code(LcbErrorT::LcbEmptyKey) == 53,
        error_code(LcbErrorT::LcbSslError) == 54,
        error_code(LcbErrorT::LcbSslCantverify) == 55,
        error_code(LcbErrorT::LcbSchedfailInternal) == 56,
        error_code(LcbErrorT::LcbClientFeatureUnavailable) == 57,
        error_code(LcbErrorT::LcbOptionsConflict) == 58,
        error_code(LcbErrorT::LcbHttpError) == 59,
        error_code(LcbErrorT::LcbDurabilityNoMutationTokens) == 60,
        error_code(LcbErrorT::LcbUnknownMemcachedError) == 61,
        error_code(LcbErrorT::LcbMutationLost) == 62,
        error_code(LcbErrorT::LcbSubdocPathEnoent) == 63,
        error_code(LcbErrorT::LcbSubdocPathMismatch) == 64,
        error_code(LcbErrorT::LcbSubdocPathEinval) == 65,
        error_code(LcbErrorT::LcbSubdocPathE2big) == 66,
        error_code(LcbErrorT::LcbSubdocDocE2deep) == 67,
        error_code(LcbErrorT::LcbSubdocValueCantinsert) == 68,
        error_code(LcbErrorT::LcbSubdocDocNotjson) == 69,
        error_code(LcbErrorT::LcbSubdocNumErange) == 70,
        error_code(LcbErrorT::LcbSubdocBadDelta) == 71,
        error_code(LcbErrorT::LcbSubdocPathEexists) == 72,
        error_code(LcbErrorT::LcbSubdocMultiFailure) == 73,
        error_code(LcbErrorT::LcbSubdocValueE2deep) == 74,
        error_code(LcbErrorT::LcbEinvalMcd) == 75,
        error_code(LcbErrorT::LcbEmptyPath) == 76,
        error_code(LcbErrorT::LcbUnknownSdcmd) == 77,
        error_code(LcbErrorT::LcbEnoCommands) == 78,
        error_code(LcbErrorT::LcbQueryError) == 79,
        error_code(LcbErrorT::LcbMaxError) == 4096,
{
}

} // verus!
