//! The join handshake: request, response, room policy, and the decision.
use vstd::prelude::*;
use crate::tracker::{name_in_use, str_eq, ConnectionTracker};

verus! {

/// A client's request to join: its display name and an optional password.
pub struct C2SHandshakeStart {
    pub display_name: String,
    pub room_password: Option<String>,
}

/// The server's answer to a join request, sent to the requester only.
pub enum S2CHandshakeResult {
    ConnectionAccepted { client_id: u64 },
    ConnectionRejected { reason: String },
}

/// Whether a room asks for a password.
pub enum RoomAuthentication {
    WithPassword(String),
    WithoutPassword,
}

/// The outcome of checking a join request.
#[derive(Clone, Copy, Debug, PartialEq, Eq, Structural)]
pub enum HandshakeVerdict {
    Accept,
    PasswordRequired,
    IncorrectPassword,
    EmptyName,
    NameInUse,
    AlreadyJoined,
}

/// The view of an optional string.
pub open spec fn opt_view(s: Option<String>) -> Option<Seq<char>> {
    match s {
        Some(t) => Some(t@),
        None => None,
    }
}

impl RoomAuthentication {
    /// The password the room asks for, if any.
    pub open spec fn required(&self) -> Option<Seq<char>> {
        match self {
            RoomAuthentication::WithPassword(p) => Some(p@),
            RoomAuthentication::WithoutPassword => None,
        }
    }

    /// The policy for an optional password: a room with a password asks for it.
    pub fn from_password(password: Option<String>) -> (r: RoomAuthentication)
        ensures
            r.required() == opt_view(password),
    {
        match password {
            Some(p) => RoomAuthentication::WithPassword(p),
            None => RoomAuthentication::WithoutPassword,
        }
    }
}

/// The decision on a join request, first matching rule wins: a missing
/// password, a wrong password, an empty display name, a display name already
/// in use, a connection that already joined; otherwise the request is
/// accepted.
pub open spec fn verdict(
    required: Option<Seq<char>>,
    supplied: Option<Seq<char>>,
    name: Seq<char>,
    name_taken: bool,
    already_joined: bool,
) -> HandshakeVerdict {
    if required.is_some() && supplied.is_none() {
        HandshakeVerdict::PasswordRequired
    } else if required.is_some() && supplied.unwrap() != required.unwrap() {
        HandshakeVerdict::IncorrectPassword
    } else if name.len() == 0 {
        HandshakeVerdict::EmptyName
    } else if name_taken {
        HandshakeVerdict::NameInUse
    } else if already_joined {
        HandshakeVerdict::AlreadyJoined
    } else {
        HandshakeVerdict::Accept
    }
}

/// Checks a join request from `client_id` against the room policy and the
/// tracked connections.
pub fn authenticate(
    auth: &RoomAuthentication,
    tracker: &ConnectionTracker,
    client_id: u64,
    request: &C2SHandshakeStart,
) -> (r: HandshakeVerdict)
    requires
        tracker.wf(),
    ensures
        r == verdict(
            auth.required(),
            opt_view(request.room_password),
            request.display_name@,
            name_in_use(tracker@, request.display_name@),
            tracker@.contains_key(client_id),
        ),
{
    if let RoomAuthentication::WithPassword(password) = auth {
        match &request.room_password {
            None => {
                return HandshakeVerdict::PasswordRequired;
            },
            Some(attempt) => {
                if !str_eq(attempt.as_str(), password.as_str()) {
                    return HandshakeVerdict::IncorrectPassword;
                }
            },
        }
    }
    if request.display_name.as_str().unicode_len() == 0 {
        return HandshakeVerdict::EmptyName;
    }
    if tracker.id_from_display_name(request.display_name.as_str()).is_some() {
        return HandshakeVerdict::NameInUse;
    }
    if tracker.get_avatar(client_id).is_some() {
        return HandshakeVerdict::AlreadyJoined;
    }
    HandshakeVerdict::Accept
}

/// Text of the reason given with a rejection.
pub open spec fn reason_text(v: HandshakeVerdict, name: Seq<char>) -> Seq<char> {
    match v {
        HandshakeVerdict::PasswordRequired => "A password is required to join this server."@,
        HandshakeVerdict::IncorrectPassword => "The password you gave is incorrect."@,
        HandshakeVerdict::EmptyName => "The display name must not be empty."@,
        HandshakeVerdict::NameInUse => "The requested display name `"@ + name
            + "` is already in use on this server."@,
        HandshakeVerdict::AlreadyJoined => "This connection has already joined the server."@,
        HandshakeVerdict::Accept => Seq::empty(),
    }
}

/// Whether `r` is the answer owed for verdict `v` to `client_id` asking for `name`.
pub open spec fn answers(
    r: S2CHandshakeResult,
    v: HandshakeVerdict,
    client_id: u64,
    name: Seq<char>,
) -> bool {
    match r {
        S2CHandshakeResult::ConnectionAccepted { client_id: c } => v == HandshakeVerdict::Accept
            && c == client_id,
        S2CHandshakeResult::ConnectionRejected { reason } => v != HandshakeVerdict::Accept
            && reason@ == reason_text(v, name),
    }
}

impl HandshakeVerdict {
    /// The answer to send for this verdict.
    pub fn response(&self, client_id: u64, display_name: &str) -> (r: S2CHandshakeResult)
        ensures
            answers(r, *self, client_id, display_name@),
    {
        match self {
            HandshakeVerdict::Accept => S2CHandshakeResult::ConnectionAccepted { client_id },
            HandshakeVerdict::PasswordRequired => S2CHandshakeResult::ConnectionRejected {
                reason: String::from_str("A password is required to join this server."),
            },
            HandshakeVerdict::IncorrectPassword => S2CHandshakeResult::ConnectionRejected {
                reason: String::from_str("The password you gave is incorrect."),
            },
            HandshakeVerdict::EmptyName => S2CHandshakeResult::ConnectionRejected {
                reason: String::from_str("The display name must not be empty."),
            },
            HandshakeVerdict::NameInUse => {
                let mut reason = String::from_str("The requested display name `");
                reason.append(display_name);
                reason.append("` is already in use on this server.");
                S2CHandshakeResult::ConnectionRejected { reason }
            },
            HandshakeVerdict::AlreadyJoined => S2CHandshakeResult::ConnectionRejected {
                reason: String::from_str("This connection has already joined the server."),
            },
        }
    }
}

/// With a room password, the password decides first: none supplied is
/// refused as required, a different one as incorrect, and only the right one
/// reaches the checks on the name and the connection. Without a room
/// password those checks decide at once.
pub proof fn lemma_password_checked_first(
    required: Option<Seq<char>>,
    supplied: Option<Seq<char>>,
    name: Seq<char>,
    name_taken: bool,
    already_joined: bool,
)
    ensures
        required is Some && supplied is None ==> verdict(required, supplied, name, name_taken, already_joined)
            == HandshakeVerdict::PasswordRequired,
        required is Some && supplied is Some && supplied != required ==> verdict(
            required,
            supplied,
            name,
            name_taken,
            already_joined,
        ) == HandshakeVerdict::IncorrectPassword,
        (required is None || supplied == required) ==> verdict(
            required,
            supplied,
            name,
            name_taken,
            already_joined,
        ) == verdict(None, None, name, name_taken, already_joined),
        name.len() > 0 ==> (verdict(None, None, name, name_taken, already_joined)
            == HandshakeVerdict::NameInUse) == name_taken,
        name.len() > 0 && !name_taken && !already_joined ==> verdict(
            None,
            None,
            name,
            name_taken,
            already_joined,
        ) == HandshakeVerdict::Accept,
{
}

impl S2CHandshakeResult {
    /// Whether the join was accepted.
    pub fn is_accepted(&self) -> (r: bool)
        ensures
            r == (self is ConnectionAccepted),
    {
        match self {
            S2CHandshakeResult::ConnectionAccepted { .. } => true,
            S2CHandshakeResult::ConnectionRejected { .. } => false,
        }
    }
}

} // verus!
