use crate::models::{DataTransport, Fields, GroupFields, Groups};
use vstd::prelude::*;

verus! {

/// HTTP status of a response.
#[derive(Debug, Clone, Copy, PartialEq, Eq, Structural)]
pub enum Status {
    /// 200.
    Success,
    /// 406.
    NotAcceptable,
    /// 403.
    Forbidden,
    /// 500.
    InternalServerError,
}

impl Status {
    pub fn code(self) -> (r: u16)
        ensures
            self == Status::Success ==> r == 200,
            self == Status::NotAcceptable ==> r == 406,
            self == Status::Forbidden ==> r == 403,
            self == Status::InternalServerError ==> r == 500,
    {
        match self {
            Status::Success => 200,
            Status::NotAcceptable => 406,
            Status::Forbidden => 403,
            Status::InternalServerError => 500,
        }
    }
}

/// Builder of a response: a status and the envelope sent with it.
pub struct HttpResponseHelper(pub Status, pub DataTransport);

/// `r` is the default envelope.
pub open spec fn is_default_transport(r: DataTransport) -> bool {
    &&& r.path@ == "/login"@
    &&& r.title@ == "Login"@
    &&& r.session_id@.len() == 0
    &&& r.groups is None && r.group_fields is None && r.fields is None
    &&& r.data is None && r.error is None
}

/// What a list handed to the builder becomes in the envelope: the list on
/// success, nothing on failure.
pub open spec fn list_or_none<T>(list: Result<Vec<T>, &'static str>) -> Option<Vec<T>> {
    match list {
        Ok(v) => Some(v),
        Err(_) => None,
    }
}

impl HttpResponseHelper {
    pub fn ok() -> (r: HttpResponseHelper)
        ensures
            r.0 == Status::Success,
            is_default_transport(r.1),
    {
        HttpResponseHelper(Status::Success, DataTransport::default())
    }

    pub fn not_acceptable() -> (r: HttpResponseHelper)
        ensures
            r.0 == Status::NotAcceptable,
            is_default_transport(r.1),
    {
        HttpResponseHelper(Status::NotAcceptable, DataTransport::default())
    }

    pub fn forbidden() -> (r: HttpResponseHelper)
        ensures
            r.0 == Status::Forbidden,
            is_default_transport(r.1),
    {
        HttpResponseHelper(Status::Forbidden, DataTransport::default())
    }

    pub fn internal_server_error() -> (r: HttpResponseHelper)
        ensures
            r.0 == Status::InternalServerError,
            is_default_transport(r.1),
    {
        HttpResponseHelper(Status::InternalServerError, DataTransport::default())
    }

    pub fn path(self, path: &str) -> (r: HttpResponseHelper)
        ensures
            r.1.path@ == path@,
            r == HttpResponseHelper(self.0, DataTransport { path: r.1.path, ..self.1 }),
    {
        let mut s = self;
        s.1.path = path.to_owned();
        s
    }

    pub fn title(self, title: &str) -> (r: HttpResponseHelper)
        ensures
            r.1.title@ == title@,
            r == HttpResponseHelper(self.0, DataTransport { title: r.1.title, ..self.1 }),
    {
        let mut s = self;
        s.1.title = title.to_owned();
        s
    }

    pub fn session_id(self, session_id: &str) -> (r: HttpResponseHelper)
        ensures
            r.1.session_id@ == session_id@,
            r == HttpResponseHelper(self.0, DataTransport { session_id: r.1.session_id, ..self.1 }),
    {
        let mut s = self;
        s.1.session_id = session_id.to_owned();
        s
    }

    pub fn groups(self, groups: Result<Groups, &'static str>) -> (r: HttpResponseHelper)
        ensures
            r == HttpResponseHelper(self.0, DataTransport { groups: list_or_none(groups), ..self.1 }),
    {
        let mut s = self;
        s.1.groups = match groups {
            Ok(g) => Some(g),
            Err(_) => None,
        };
        s
    }

    pub fn group_fields(self, group_fields: Result<GroupFields, &'static str>) -> (r: HttpResponseHelper)
        ensures
            r == HttpResponseHelper(self.0, DataTransport { group_fields: list_or_none(group_fields), ..self.1 }),
    {
        let mut s = self;
        s.1.group_fields = match group_fields {
            Ok(g) => Some(g),
            Err(_) => None,
        };
        s
    }

    pub fn fields(self, fields: Result<Fields, &'static str>) -> (r: HttpResponseHelper)
        ensures
            r == HttpResponseHelper(self.0, DataTransport { fields: list_or_none(fields), ..self.1 }),
    {
        let mut s = self;
        s.1.fields = match fields {
            Ok(f) => Some(f),
            Err(_) => None,
        };
        s
    }

    pub fn data(self, data: &str) -> (r: HttpResponseHelper)
        ensures
            r.1.data matches Some(d) && d@ == data@,
            r == HttpResponseHelper(self.0, DataTransport { data: r.1.data, ..self.1 }),
    {
        let mut s = self;
        s.1.data = Some(data.to_owned());
        s
    }

    pub fn error(self, error: &str) -> (r: HttpResponseHelper)
        ensures
            r.1.error matches Some(e) && e@ == error@,
            r == HttpResponseHelper(self.0, DataTransport { error: r.1.error, ..self.1 }),
    {
        let mut s = self;
        s.1.error = Some(error.to_owned());
        s
    }
}

} // verus!
