use vstd::prelude::*;

verus! {

/// Outcome reported by a call into the native engine.
#[derive(Clone, Copy, Debug, PartialEq, Eq, Structural)]
pub enum Stats {
    Ready,
    Busy,
    UserNotFound,
    WrongSizeToken,
    DeviceIdNotMatch,
    DeviceNotFound,
    SecretNotMatch,
    PasswdError,
    TimestampLastUpdateNotMatch,
    CacheNotFound,
    SecretEmpty,
    TimestampLastNotParsable,
    Error,
    JsonParsingError,
    DbGroupError,
    DbGroupFieldError,
    DbFieldError,
    DbGenericError,
    NoNetwork,
    MapIdError,
    LocalDeviceIdNotMatch,
    Success,
}

impl Stats {
    /// The outcome that carries a known code.
    pub open spec fn from_code(code: u32) -> Stats
        recommends
            Stats::is_known_code(code),
    {
        if code == 0 {
            Stats::Ready
        } else if code == 1 {
            Stats::Busy
        } else if code == 200 {
            Stats::Success
        } else if code == 800 {
            Stats::LocalDeviceIdNotMatch
        } else if 600 <= code <= 609 {
            [Stats::UserNotFound, Stats::WrongSizeToken, Stats::DeviceIdNotMatch, Stats::DeviceNotFound,
            Stats::SecretNotMatch, Stats::PasswdError, Stats::TimestampLastUpdateNotMatch, Stats::CacheNotFound,
            Stats::SecretEmpty, Stats::TimestampLastNotParsable]@[code - 600]
        } else {
            [Stats::Error, Stats::JsonParsingError, Stats::DbGroupError, Stats::DbGroupFieldError,
            Stats::DbFieldError, Stats::DbGenericError, Stats::NoNetwork, Stats::MapIdError]@[code - 700]
        }
    }

    /// The integer the engine uses for this outcome.
    pub open spec fn spec_code(self) -> u32 {
        match self {
            Stats::Ready => 0,
            Stats::Busy => 1,
            Stats::UserNotFound => 600,
            Stats::WrongSizeToken => 601,
            Stats::DeviceIdNotMatch => 602,
            Stats::DeviceNotFound => 603,
            Stats::SecretNotMatch => 604,
            Stats::PasswdError => 605,
            Stats::TimestampLastUpdateNotMatch => 606,
            Stats::CacheNotFound => 607,
            Stats::SecretEmpty => 608,
            Stats::TimestampLastNotParsable => 609,
            Stats::Error => 700,
            Stats::JsonParsingError => 701,
            Stats::DbGroupError => 702,
            Stats::DbGroupFieldError => 703,
            Stats::DbFieldError => 704,
            Stats::DbGenericError => 705,
            Stats::NoNetwork => 706,
            Stats::MapIdError => 707,
            Stats::LocalDeviceIdNotMatch => 800,
            Stats::Success => 200,
        }
    }

    /// The name under which the outcome is reported to clients.
    pub open spec fn spec_name(self) -> Seq<char> {
        match self {
            Stats::Ready => "Ready"@,
            Stats::Busy => "Busy"@,
            Stats::UserNotFound => "UserNotFound"@,
            Stats::WrongSizeToken => "WrongSizeToken"@,
            Stats::DeviceIdNotMatch => "DeviceIdNotMatch"@,
            Stats::DeviceNotFound => "DeviceNotFound"@,
            Stats::SecretNotMatch => "SecretNotMatch"@,
            Stats::PasswdError => "PasswdError"@,
            Stats::TimestampLastUpdateNotMatch => "TimestampLastUpdateNotMatch"@,
            Stats::CacheNotFound => "CacheNotFound"@,
            Stats::SecretEmpty => "SecretEmpty"@,
            Stats::TimestampLastNotParsable => "TimestampLastNotParsable"@,
            Stats::Error => "Error"@,
            Stats::JsonParsingError => "JsonParsingError"@,
            Stats::DbGroupError => "DbGroupError"@,
            Stats::DbGroupFieldError => "DbGroupFieldError"@,
            Stats::DbFieldError => "DbFieldError"@,
            Stats::DbGenericError => "DbGenericError"@,
            Stats::NoNetwork => "NoNetwork"@,
            Stats::MapIdError => "MapIdError"@,
            Stats::LocalDeviceIdNotMatch => "LocalDeviceIdNotMatch"@,
            Stats::Success => "Ok"@,
        }
    }

    /// Whether some outcome carries the integer `code`: 0, 1, 200, 600 to
    /// 609, 700 to 707, or 800.
    pub open spec fn is_known_code(code: u32) -> bool {
        code == 0 || code == 1 || code == 200 || (600 <= code <= 609) || (700 <= code <= 707) || code == 800
    }

    pub fn code(self) -> (r: u32)
        ensures
            r == self.spec_code(),
    {
        match self {
            Stats::Ready => 0,
            Stats::Busy => 1,
            Stats::UserNotFound => 600,
            Stats::WrongSizeToken => 601,
            Stats::DeviceIdNotMatch => 602,
            Stats::DeviceNotFound => 603,
            Stats::SecretNotMatch => 604,
            Stats::PasswdError => 605,
            Stats::TimestampLastUpdateNotMatch => 606,
            Stats::CacheNotFound => 607,
            Stats::SecretEmpty => 608,
            Stats::TimestampLastNotParsable => 609,
            Stats::Error => 700,
            Stats::JsonParsingError => 701,
            Stats::DbGroupError => 702,
            Stats::DbGroupFieldError => 703,
            Stats::DbFieldError => 704,
            Stats::DbGenericError => 705,
            Stats::NoNetwork => 706,
            Stats::MapIdError => 707,
            Stats::LocalDeviceIdNotMatch => 800,
            Stats::Success => 200,
        }
    }

    /// Maps an engine status code to its outcome; a code no outcome carries
    /// is the generic `Error`.
    pub fn from(status: u32) -> (r: Stats)
        ensures
            Stats::is_known_code(status) ==> r.spec_code() == status,
            !Stats::is_known_code(status) ==> r == Stats::Error,
    {
        let r = match status {
            0 => Stats::Ready,
            1 => Stats::Busy,
            600 => Stats::UserNotFound,
            601 => Stats::WrongSizeToken,
            602 => Stats::DeviceIdNotMatch,
            603 => Stats::DeviceNotFound,
            604 => Stats::SecretNotMatch,
            605 => Stats::PasswdError,
            606 => Stats::TimestampLastUpdateNotMatch,
            607 => Stats::CacheNotFound,
            608 => Stats::SecretEmpty,
            609 => Stats::TimestampLastNotParsable,
            700 => Stats::Error,
            701 => Stats::JsonParsingError,
            702 => Stats::DbGroupError,
            703 => Stats::DbGroupFieldError,
            704 => Stats::DbFieldError,
            705 => Stats::DbGenericError,
            706 => Stats::NoNetwork,
            707 => Stats::MapIdError,
            800 => Stats::LocalDeviceIdNotMatch,
            200 => Stats::Success,
            _ => Stats::Error,
        };
        r
    }

    pub fn name(self) -> (r: &'static str)
        ensures
            r@ == self.spec_name(),
    {
        match self {
            Stats::Ready => "Ready",
            Stats::Busy => "Busy",
            Stats::UserNotFound => "UserNotFound",
            Stats::WrongSizeToken => "WrongSizeToken",
            Stats::DeviceIdNotMatch => "DeviceIdNotMatch",
            Stats::DeviceNotFound => "DeviceNotFound",
            Stats::SecretNotMatch => "SecretNotMatch",
            Stats::PasswdError => "PasswdError",
            Stats::TimestampLastUpdateNotMatch => "TimestampLastUpdateNotMatch",
            Stats::CacheNotFound => "CacheNotFound",
            Stats::SecretEmpty => "SecretEmpty",
            Stats::TimestampLastNotParsable => "TimestampLastNotParsable",
            Stats::Error => "Error",
            Stats::JsonParsingError => "JsonParsingError",
            Stats::DbGroupError => "DbGroupError",
            Stats::DbGroupFieldError => "DbGroupFieldError",
            Stats::DbFieldError => "DbFieldError",
            Stats::DbGenericError => "DbGenericError",
            Stats::NoNetwork => "NoNetwork",
            Stats::MapIdError => "MapIdError",
            Stats::LocalDeviceIdNotMatch => "LocalDeviceIdNotMatch",
            Stats::Success => "Ok",
        }
    }

    /// The name of the outcome an engine status code stands for, or
    /// "Unhandled error" for a code no outcome carries.
    pub fn to_string(status: u32) -> (r: &'static str)
        ensures
            forall|s: Stats| s.spec_code() == status ==> r@ == s.spec_name(),
            !Stats::is_known_code(status) ==> r@ == "Unhandled error"@,
    {
        if Stats::is_known(status) {
            let s = Stats::from(status);
            proof {
                assert forall|t: Stats| t.spec_code() == status implies t == s by {
                    lemma_code_injective(t, s);
                }
            }
            s.name()
        } else {
            "Unhandled error"
        }
    }

    /// Whether the engine status code is one of the known outcomes.
    pub fn is_known(status: u32) -> (r: bool)
        ensures
            r == Stats::is_known_code(status),
    {
        let s = Stats::from(status);
        s.code() == status
    }
}

/// The integers that some outcome carries are exactly the known codes.
pub proof fn lemma_known_codes(code: u32)
    ensures
        Stats::is_known_code(code) <==> exists|s: Stats| s.spec_code() == code,
{
    if Stats::is_known_code(code) {
        let s = Stats::from_code(code);
        assert(s.spec_code() == code);
    } else {
        assert forall|s: Stats| s.spec_code() != code by {
            match s {
                _ => {},
            }
        }
    }
}

/// Two outcomes with the same code are the same outcome.
pub proof fn lemma_code_injective(a: Stats, b: Stats)
    requires
        a.spec_code() == b.spec_code(),
    ensures
        a == b,
{
}

} // verus!
