use crate::models::DataTransport;
use crate::response::Status;
use crate::text::{join_with_bars, parse_i64, parsed_in_range, spec_split, split_on, views};
use vstd::prelude::*;
use vstd::string::*;

verus! {

/// Outcome of reading "group_id|search|rest..." from a request payload:
/// the group identifier and the search text, or why the payload is refused.
pub open spec fn spec_group_id_and_search(data: Option<Seq<char>>) -> Result<(i64, Seq<char>), Seq<char>> {
    match data {
        None => Err("No data send"@),
        Some(d) => {
            let parts = spec_split(d, '|');
            if parts.len() < 2 {
                Err("group_id is mandatory"@)
            } else {
                match parsed_in_range(parts[0], true, i64::MIN as int, i64::MAX as int) {
                    None => Err("group_id parse error"@),
                    Some(id) => Ok((id as i64, parts[1])),
                }
            }
        },
    }
}

/// Reads the group identifier and search text of a "group_id|search|..."
/// payload. On success, when the payload has more than two pieces, `other`
/// becomes the remaining pieces, each followed by `|`; otherwise `other` is
/// left as it was.
pub fn split_group_id_and_search(data_transport: &DataTransport, other: &mut String) -> (r: Result<
    (i64, String),
    &'static str,
>)
    ensures
        match (r, spec_group_id_and_search(opt_string_view(&data_transport.data))) {
            (Ok((id, search)), Ok((sid, ssearch))) => id == sid && search@ == ssearch,
            (Err(e), Err(se)) => e@ == se,
            _ => false,
        },
        ({
            let parts = spec_split(data_transport.data->0@, '|');
            if r is Ok && parts.len() > 2 {
                final(other)@ == join_with_bars(parts.skip(2))
            } else {
                *final(other) == *old(other)
            }
        }),
{
    let data = match &data_transport.data {
        None => {
            return Err("No data send");
        },
        Some(d) => d,
    };
    let split = split_on(data.as_str(), '|');
    proof {
        assert(views(split@).len() == split@.len());
    }
    if split.len() < 2 {
        return Err("group_id is mandatory");
    }
    proof {
        assert(views(split@)[0] == split@[0]@);
        assert(views(split@)[1] == split@[1]@);
    }
    let id_group = match parse_i64(split[0].as_str()) {
        Some(v) => v,
        None => {
            return Err("group_id parse error");
        },
    };
    let search = split[1].clone();
    if split.len() > 2 {
        let ghost parts = views(split@);
        let mut joined = String::new();
        let mut i: usize = 2;
        while i < split.len()
            invariant
                2 <= i <= split@.len(),
                parts == views(split@),
                joined@ == join_with_bars(parts.subrange(2, i as int)),
            decreases split@.len() - i,
        {
            joined.append(split[i].as_str());
            joined.append("|");
            proof {
                reveal_strlit("|");
                assert(parts[i as int] == split@[i as int]@);
                assert(parts.subrange(2, i + 1).drop_last() =~= parts.subrange(2, i as int));
            }
            i = i + 1;
        }
        proof {
            assert(parts.subrange(2, split@.len() as int) =~= parts.skip(2));
        }
        *other = joined;
    }
    Ok((id_group, search))
}

/// The view of an optional string.
pub open spec fn opt_string_view(s: &Option<String>) -> Option<Seq<char>> {
    match s {
        Some(x) => Some(x@),
        None => None,
    }
}

/// Outcome of reading "account|password" from a login payload.
pub open spec fn spec_login_credentials(data: Option<Seq<char>>) -> Result<(Seq<char>, Seq<char>), Seq<char>> {
    match data {
        None => Err("No data send"@),
        Some(d) => {
            let parts = spec_split(d, '|');
            if parts.len() != 2 {
                Err("email and passwd are mandatory"@)
            } else {
                Ok((parts[0], parts[1]))
            }
        },
    }
}

/// Reads the account and the password of an "account|password" payload,
/// which must have exactly these two pieces.
pub fn login_credentials(data: &Option<String>) -> (r: Result<(String, String), &'static str>)
    ensures
        match (r, spec_login_credentials(opt_string_view(data))) {
            (Ok((email, passwd)), Ok((se, sp))) => email@ == se && passwd@ == sp,
            (Err(e), Err(se)) => e@ == se,
            _ => false,
        },
{
    let d = match data {
        None => {
            return Err("No data send");
        },
        Some(d) => d,
    };
    let split = split_on(d.as_str(), '|');
    proof {
        assert(views(split@).len() == split@.len());
    }
    if split.len() != 2 {
        return Err("email and passwd are mandatory");
    }
    proof {
        assert(views(split@)[0] == split@[0]@);
        assert(views(split@)[1] == split@[1]@);
    }
    Ok((split[0].clone(), split[1].clone()))
}

/// Why a registration payload is refused.
#[derive(Clone, Copy, Debug, PartialEq, Eq, Structural)]
pub enum RegistrationRejection {
    /// The request carries no payload.
    NoData,
    /// The payload does not have exactly four pieces.
    MissingParts,
    /// The password and its confirmation differ.
    PasswordMismatch,
    /// The configuration piece is empty.
    EmptyConfig,
}

impl RegistrationRejection {
    pub fn message(&self) -> (r: &'static str)
        ensures
            *self == RegistrationRejection::NoData ==> r@ == "No data send"@,
            *self == RegistrationRejection::MissingParts ==> r@
                == "config_json, passwd and password_confirmation are mandatory"@,
            *self == RegistrationRejection::PasswordMismatch ==> r@ == "passwd and password_confirmation are different"@,
            *self == RegistrationRejection::EmptyConfig ==> r@ == "config_json is empty"@,
    {
        match self {
            RegistrationRejection::NoData => "No data send",
            RegistrationRejection::MissingParts => "config_json, passwd and password_confirmation are mandatory",
            RegistrationRejection::PasswordMismatch => "passwd and password_confirmation are different",
            RegistrationRejection::EmptyConfig => "config_json is empty",
        }
    }

    /// A malformed payload is forbidden; a well-formed but unacceptable one
    /// is not acceptable.
    pub fn status(&self) -> (r: Status)
        ensures
            r == (if *self == RegistrationRejection::NoData || *self == RegistrationRejection::MissingParts {
                Status::Forbidden
            } else {
                Status::NotAcceptable
            }),
    {
        match self {
            RegistrationRejection::NoData | RegistrationRejection::MissingParts => Status::Forbidden,
            _ => Status::NotAcceptable,
        }
    }
}

/// What a registration asks for: the account's configuration, the account
/// and its password.
pub struct RegistrationRequest {
    pub config_json: String,
    pub email: String,
    pub passwd: String,
}

/// Outcome of reading "config_json|account|password|confirmation".
pub open spec fn spec_registration(data: Option<Seq<char>>) -> Result<
    (Seq<char>, Seq<char>, Seq<char>),
    RegistrationRejection,
> {
    match data {
        None => Err(RegistrationRejection::NoData),
        Some(d) => {
            let parts = spec_split(d, '|');
            if parts.len() != 4 {
                Err(RegistrationRejection::MissingParts)
            } else if parts[2] != parts[3] {
                Err(RegistrationRejection::PasswordMismatch)
            } else if parts[0].len() == 0 {
                Err(RegistrationRejection::EmptyConfig)
            } else {
                Ok((parts[0], parts[1], parts[2]))
            }
        },
    }
}

/// Reads a registration payload: exactly four pieces, the password equal to
/// its confirmation, and a non-empty configuration.
pub fn registration_request(data: &Option<String>) -> (r: Result<RegistrationRequest, RegistrationRejection>)
    ensures
        match (r, spec_registration(opt_string_view(data))) {
            (Ok(req), Ok((config, email, passwd))) => req.config_json@ == config && req.email@ == email
                && req.passwd@ == passwd,
            (Err(e), Err(se)) => e == se,
            _ => false,
        },
{
    let d = match data {
        None => {
            return Err(RegistrationRejection::NoData);
        },
        Some(d) => d,
    };
    let split = split_on(d.as_str(), '|');
    proof {
        assert(views(split@).len() == split@.len());
    }
    if split.len() != 4 {
        return Err(RegistrationRejection::MissingParts);
    }
    proof {
        assert(views(split@)[0] == split@[0]@);
        assert(views(split@)[1] == split@[1]@);
        assert(views(split@)[2] == split@[2]@);
        assert(views(split@)[3] == split@[3]@);
    }
    if split[2] != split[3] {
        return Err(RegistrationRejection::PasswordMismatch);
    }
    if split[0].as_str().unicode_len() == 0 {
        return Err(RegistrationRejection::EmptyConfig);
    }
    Ok(RegistrationRequest { config_json: split[0].clone(), email: split[1].clone(), passwd: split[2].clone() })
}

} // verus!
