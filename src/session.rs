use vstd::prelude::*;

verus! {

/// The pointer fields of a native engine instance that the gateway reads,
/// as addresses; 0 stands for a null pointer.
#[allow(non_camel_case_types)]
#[derive(Clone, Copy, Debug, PartialEq, Eq, Structural)]
pub struct pocket_t {
    pub session: usize,
    pub user: usize,
    pub aes: usize,
}

impl pocket_t {
    /// The engine holds a live internal session.
    pub fn is_valid(&self) -> (r: bool)
        ensures
            r == (self.session != 0),
    {
        self.session != 0
    }
}

/// A native handle that a session owns and that must be released once.
#[derive(Clone, Copy, Debug, PartialEq, Eq, Structural)]
pub enum Resource {
    Engine(usize),
    GroupController(usize),
    GroupFieldController(usize),
    FieldController(usize),
}

/// The engine controllers a session creates on first use.
#[derive(Clone, Copy, Debug, PartialEq, Eq, Structural)]
pub enum ControllerKind {
    Group,
    GroupField,
    Field,
}

impl ControllerKind {
    pub open spec fn spec_null_message(self) -> Seq<char> {
        match self {
            ControllerKind::Group => "Group controller null"@,
            ControllerKind::GroupField => "Group field controller null"@,
            ControllerKind::Field => "Field controller null"@,
        }
    }

    /// Why a request fails when the engine could not create the controller.
    pub fn null_message(self) -> (r: &'static str)
        ensures
            r@ == self.spec_null_message(),
    {
        match self {
            ControllerKind::Group => "Group controller null",
            ControllerKind::GroupField => "Group field controller null",
            ControllerKind::Field => "Field controller null",
        }
    }
}

/// Server-side state of one client connection.
///
/// Handles are addresses of native objects, 0 standing for none. The
/// registry keeps copies: a caller changes its own copy and adds it back.
#[derive(Debug)]
pub struct Session {
    /// Unique, unguessable identifier of the session.
    pub session_id: String,
    /// Address of the engine instance the session owns.
    pub pocket: usize,
    /// What was last read of that engine instance.
    pub pocket_state: pocket_t,
    pub group_controller: usize,
    pub group_field_controller: usize,
    pub field_controller: usize,
    /// Account logged in on this session, if any.
    pub email: Option<String>,
    /// Seconds since the Unix epoch of the last completed interaction.
    pub timestamp_last_update: u64,
    /// Whether the engine itself keeps the session alive.
    pub remote_session_handling: bool,
}

impl Clone for Session {
    fn clone(&self) -> (r: Self)
        ensures
            r == *self,
    {
        let email = match &self.email {
            Some(e) => Some(e.clone()),
            None => None,
        };
        Session {
            session_id: self.session_id.clone(),
            pocket: self.pocket,
            pocket_state: self.pocket_state,
            group_controller: self.group_controller,
            group_field_controller: self.group_field_controller,
            field_controller: self.field_controller,
            email,
            timestamp_last_update: self.timestamp_last_update,
            remote_session_handling: self.remote_session_handling,
        }
    }
}

/// Appends `r` to `s` when the handle `h` is not null.
pub open spec fn with_handle(s: Seq<Resource>, h: usize, r: Resource) -> Seq<Resource> {
    if h != 0 {
        s.push(r)
    } else {
        s
    }
}

impl Session {
    pub open spec fn spec_is_valid(&self) -> bool {
        self.pocket != 0 && self.pocket_state.user != 0 && self.pocket_state.aes != 0
    }

    /// The handles the session owns: the non-null ones among engine, group
    /// controller, group-field controller and field controller, in that order.
    pub open spec fn spec_resources(&self) -> Seq<Resource> {
        with_handle(
            with_handle(
                with_handle(
                    with_handle(Seq::empty(), self.pocket, Resource::Engine(self.pocket)),
                    self.group_controller,
                    Resource::GroupController(self.group_controller),
                ),
                self.group_field_controller,
                Resource::GroupFieldController(self.group_field_controller),
            ),
            self.field_controller,
            Resource::FieldController(self.field_controller),
        )
    }

    /// A new session owning the engine instance at `pocket`, with no
    /// controllers, no account, activity at `now` and expiry left to the
    /// engine.
    pub fn new(session_id: String, pocket: usize, pocket_state: pocket_t, now: u64) -> (r: Session)
        ensures
            r.session_id == session_id,
            r.pocket == pocket,
            r.pocket_state == pocket_state,
            r.group_controller == 0,
            r.group_field_controller == 0,
            r.field_controller == 0,
            r.email is None,
            r.timestamp_last_update == now,
            r.remote_session_handling,
    {
        Session {
            session_id,
            pocket,
            pocket_state,
            group_controller: 0,
            group_field_controller: 0,
            field_controller: 0,
            email: None,
            timestamp_last_update: now,
            remote_session_handling: true,
        }
    }

    /// Records activity at `now`, unless the engine keeps the session alive.
    pub fn update_timestamp_last_update(&mut self, now: u64)
        ensures
            old(self).remote_session_handling ==> *final(self) == *old(self),
            !old(self).remote_session_handling ==> *final(self) == (Session {
                timestamp_last_update: now,
                ..*old(self)
            }),
    {
        if self.remote_session_handling {
            return;
        }
        self.timestamp_last_update = now;
    }

    /// The engine instance is present and logged in.
    pub fn is_valid(&self) -> (r: bool)
        ensures
            r == self.spec_is_valid(),
    {
        self.pocket != 0 && self.pocket_state.user != 0 && self.pocket_state.aes != 0
    }

    /// The handles the session owns, which whoever destroys it releases.
    pub fn resources(&self) -> (r: Vec<Resource>)
        ensures
            r@ == self.spec_resources(),
    {
        let mut r: Vec<Resource> = Vec::new();
        if self.pocket != 0 {
            r.push(Resource::Engine(self.pocket));
        }
        if self.group_controller != 0 {
            r.push(Resource::GroupController(self.group_controller));
        }
        if self.group_field_controller != 0 {
            r.push(Resource::GroupFieldController(self.group_field_controller));
        }
        if self.field_controller != 0 {
            r.push(Resource::FieldController(self.field_controller));
        }
        r
    }

    /// The handle of the controller of `kind`, 0 when none is attached yet.
    pub open spec fn spec_controller(&self, kind: ControllerKind) -> usize {
        match kind {
            ControllerKind::Group => self.group_controller,
            ControllerKind::GroupField => self.group_field_controller,
            ControllerKind::Field => self.field_controller,
        }
    }

    /// The handle of the controller of `kind`, 0 when none is attached yet
    /// and the caller must create one.
    pub fn controller(&self, kind: ControllerKind) -> (r: usize)
        ensures
            r == self.spec_controller(kind),
    {
        match kind {
            ControllerKind::Group => self.group_controller,
            ControllerKind::GroupField => self.group_field_controller,
            ControllerKind::Field => self.field_controller,
        }
    }

    /// Attaches the controller `handle` that the engine just created for a
    /// session that had none of this kind. A null handle means creation
    /// failed: nothing changes and the request is refused with the message
    /// returned.
    pub fn attach_controller(&mut self, kind: ControllerKind, handle: usize) -> (r: Result<usize, &'static str>)
        requires
            old(self).spec_controller(kind) == 0,
        ensures
            handle == 0 ==> *final(self) == *old(self) && (r matches Err(m) && m@ == kind.spec_null_message()),
            handle != 0 ==> r == Ok::<usize, &'static str>(handle) && *final(self) == (match kind {
                ControllerKind::Group => Session { group_controller: handle, ..*old(self) },
                ControllerKind::GroupField => Session { group_field_controller: handle, ..*old(self) },
                ControllerKind::Field => Session { field_controller: handle, ..*old(self) },
            }),
    {
        if handle == 0 {
            return Err(kind.null_message());
        }
        match kind {
            ControllerKind::Group => self.group_controller = handle,
            ControllerKind::GroupField => self.group_field_controller = handle,
            ControllerKind::Field => self.field_controller = handle,
        }
        Ok(handle)
    }
}

} // verus!
