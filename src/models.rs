use vstd::prelude::*;

verus! {

/// A stored secret value, belonging to a group.
#[derive(Debug, Clone)]
pub struct Field {
    pub id: i64,
    pub server_id: i64,
    pub user_id: i64,
    pub group_id: i64,
    pub server_group_id: i64,
    pub group_field_id: i64,
    pub server_group_field_id: i64,
    pub title: Option<String>,
    pub value: Option<String>,
    pub is_hidden: bool,
    pub synchronized: bool,
    pub deleted: bool,
    pub timestamp_creation: u64,
}

pub type Fields = Vec<Field>;

impl Field {
    /// A field with every identifier and timestamp 0, no title or value, and
    /// every flag cleared.
    pub fn new() -> (r: Field)
        ensures
            r.id == 0 && r.server_id == 0 && r.user_id == 0 && r.group_id == 0,
            r.server_group_id == 0 && r.group_field_id == 0 && r.server_group_field_id == 0,
            r.title is None && r.value is None,
            !r.is_hidden && !r.synchronized && !r.deleted,
            r.timestamp_creation == 0,
    {
        Field {
            id: 0,
            server_id: 0,
            user_id: 0,
            group_id: 0,
            server_group_id: 0,
            group_field_id: 0,
            server_group_field_id: 0,
            title: None,
            value: None,
            is_hidden: false,
            synchronized: false,
            deleted: false,
            timestamp_creation: 0,
        }
    }
}

/// A folder of fields, possibly nested in another group.
#[derive(Debug, Clone)]
pub struct Group {
    pub id: i64,
    pub server_id: i64,
    pub user_id: i64,
    pub group_id: i64,
    pub server_group_id: i64,
    pub title: Option<String>,
    pub icon: Option<String>,
    pub note: Option<String>,
    pub synchronized: bool,
    pub deleted: bool,
    pub timestamp_creation: u64,
    pub has_child: bool,
}

pub type Groups = Vec<Group>;

impl Group {
    /// A group with every identifier and timestamp 0, no texts, and every
    /// flag cleared.
    pub fn new() -> (r: Group)
        ensures
            r.id == 0 && r.server_id == 0 && r.user_id == 0 && r.group_id == 0 && r.server_group_id == 0,
            r.title is None && r.icon is None && r.note is None,
            !r.synchronized && !r.deleted && !r.has_child,
            r.timestamp_creation == 0,
    {
        Group {
            id: 0,
            server_id: 0,
            user_id: 0,
            group_id: 0,
            server_group_id: 0,
            title: None,
            icon: None,
            note: None,
            synchronized: false,
            deleted: false,
            timestamp_creation: 0,
            has_child: false,
        }
    }
}

/// Template of a field that every member of a group carries.
#[derive(Debug, Clone)]
pub struct GroupField {
    pub id: i64,
    pub server_id: i64,
    pub user_id: i64,
    pub group_id: i64,
    pub server_group_id: i64,
    pub title: Option<String>,
    pub is_hidden: bool,
    pub synchronized: bool,
    pub deleted: bool,
    pub timestamp_creation: u64,
}

pub type GroupFields = Vec<GroupField>;

impl GroupField {
    /// A group field with every identifier and timestamp 0, no title, and
    /// every flag cleared.
    pub fn new() -> (r: GroupField)
        ensures
            r.id == 0 && r.server_id == 0 && r.user_id == 0 && r.group_id == 0 && r.server_group_id == 0,
            r.title is None,
            !r.is_hidden && !r.synchronized && !r.deleted,
            r.timestamp_creation == 0,
    {
        GroupField {
            id: 0,
            server_id: 0,
            user_id: 0,
            group_id: 0,
            server_group_id: 0,
            title: None,
            is_hidden: false,
            synchronized: false,
            deleted: false,
            timestamp_creation: 0,
        }
    }
}

/// Account status as the engine reports it.
#[derive(Debug, Clone, Copy, PartialEq, Eq, Structural)]
pub enum UserStat {
    UserStatNotActive,
    UserStatActive,
    UserStatDeleted,
    UserStatInvalidated,
}

impl UserStat {
    /// The integer the engine's own enumeration gives the status.
    pub open spec fn spec_code(self) -> u32 {
        match self {
            UserStat::UserStatNotActive => 1,
            UserStat::UserStatActive => 0,
            UserStat::UserStatDeleted => 2,
            UserStat::UserStatInvalidated => 3,
        }
    }

    pub fn code(self) -> (r: u32)
        ensures
            r == self.spec_code(),
    {
        match self {
            UserStat::UserStatNotActive => 1,
            UserStat::UserStatActive => 0,
            UserStat::UserStatDeleted => 2,
            UserStat::UserStatInvalidated => 3,
        }
    }

    /// Reads a status stored by the engine: 0 is not active, 1 active,
    /// 2 deleted, 3 invalidated; other values are no status.
    pub fn from_uint(status: u32) -> (r: Option<UserStat>)
        ensures
            status == 0 ==> r == Some(UserStat::UserStatNotActive),
            status == 1 ==> r == Some(UserStat::UserStatActive),
            status == 2 ==> r == Some(UserStat::UserStatDeleted),
            status == 3 ==> r == Some(UserStat::UserStatInvalidated),
            status > 3 ==> r is None,
    {
        match status {
            0 => Some(UserStat::UserStatNotActive),
            1 => Some(UserStat::UserStatActive),
            2 => Some(UserStat::UserStatDeleted),
            3 => Some(UserStat::UserStatInvalidated),
            _ => None,
        }
    }
}

/// An account of the engine.
#[derive(Debug, Clone)]
pub struct User {
    pub id: i64,
    pub email: String,
    pub name: String,
    pub passwd: String,
    pub status: UserStat,
    pub timestamp_last_update: i64,
}

/// Claims of an access token.
#[derive(Debug, Clone)]
pub struct Claims {
    pub sub: String,
    pub exp: usize,
    pub iss: String,
    pub aud: String,
}

impl Claims {
    /// Claims with empty texts and expiry 0.
    pub fn new() -> (r: Claims)
        ensures
            r.sub@.len() == 0 && r.iss@.len() == 0 && r.aud@.len() == 0,
            r.exp == 0,
    {
        Claims { sub: String::new(), exp: 0, iss: String::new(), aud: String::new() }
    }
}

/// The envelope of every response: where the client goes next, the
/// session, and what the request produced.
#[derive(Debug, Clone)]
pub struct DataTransport {
    pub path: String,
    pub title: String,
    pub session_id: String,
    pub groups: Option<Groups>,
    pub group_fields: Option<GroupFields>,
    pub fields: Option<Fields>,
    pub data: Option<String>,
    pub error: Option<String>,
}

impl DataTransport {
    /// The login page: path "/login", title "Login", no session and no
    /// payload.
    pub fn default() -> (r: DataTransport)
        ensures
            r.path@ == "/login"@,
            r.title@ == "Login"@,
            r.session_id@.len() == 0,
            r.groups is None && r.group_fields is None && r.fields is None,
            r.data is None && r.error is None,
    {
        DataTransport {
            path: "/login".to_owned(),
            title: "Login".to_owned(),
            session_id: String::new(),
            groups: None,
            group_fields: None,
            fields: None,
            data: None,
            error: None,
        }
    }
}

} // verus!
