//! The rules of the MCP Streamable HTTP transport: Bearer authentication,
//! the `Content-Type` check, sessions opened by `initialize` and closed by
//! `DELETE`, and the replies for each outcome.

use vstd::prelude::*;
use axum::http::{HeaderMap, HeaderValue};
use crate::outside::{
    ascii_chars, header_first_values, header_get, header_value_text,
    is_canonical_header_name, is_uuid_v4_text, is_visible_ascii, json_method,
    json_method_member, new_session_id,
};
use crate::text::{concat_text, contains, occurs_in, same_text};

verus! {

/// HTTP status 200.
pub const STATUS_OK: u16 = 200;

/// HTTP status 202.
pub const STATUS_ACCEPTED: u16 = 202;

/// HTTP status 400.
pub const STATUS_BAD_REQUEST: u16 = 400;

/// HTTP status 401.
pub const STATUS_UNAUTHORIZED: u16 = 401;

/// HTTP status 404.
pub const STATUS_NOT_FOUND: u16 = 404;

/// HTTP status 415.
pub const STATUS_UNSUPPORTED_MEDIA_TYPE: u16 = 415;

/// The body of a reply.
pub enum ReplyBody {
    /// No body at all (a bare status).
    Empty,
    /// A plain-text body.
    Text(String),
    /// A JSON body, sent with `Content-Type: application/json`.
    Json(String),
}

/// An HTTP reply: status, the `Mcp-Session-Id` header when a session was
/// opened, and the body.
pub struct HttpReply {
    pub status: u16,
    pub session_id: Option<String>,
    pub body: ReplyBody,
}

/// Why a `POST` is refused before its body is dispatched.
#[derive(Clone, Copy, PartialEq, Eq, Debug)]
pub enum Refusal {
    Unauthorized,
    UnsupportedMediaType,
    MissingSessionId,
    InvalidSessionId,
}

/// How a `POST` is screened before its body is dispatched.
#[derive(Clone, Copy, PartialEq, Eq, Debug)]
pub enum PostAdmission {
    /// Admitted; `initialize` tells whether the body is an `initialize` request.
    Admitted { initialize: bool },
    Refused(Refusal),
}

// ---------------------------------------------------------------------------
// Sessions
// ---------------------------------------------------------------------------

/// The set of open session ids.
pub struct SessionStore {
    ids: Vec<String>,
}

impl View for SessionStore {
    type V = Set<Seq<char>>;

    closed spec fn view(&self) -> Set<Seq<char>> {
        Set::new(|s: Seq<char>| exists|i: int| 0 <= i < self.ids@.len() && #[trigger] self.ids@[i]@ == s)
    }
}

impl SessionStore {
    /// No id is held twice.
    #[verifier::type_invariant]
    closed spec fn distinct_ids(self) -> bool {
        forall|i: int, j: int|
            0 <= i < j < self.ids@.len() ==> #[trigger] self.ids@[i]@ != #[trigger] self.ids@[j]@
    }

    /// An empty store.
    pub fn new() -> (s: Self)
        ensures
            s@ == Set::<Seq<char>>::empty(),
    {
        let s = SessionStore { ids: Vec::new() };
        assert(s@ =~= Set::<Seq<char>>::empty());
        s
    }

    /// The position of `id`, if the store holds it.
    fn position(&self, id: &str) -> (r: Option<usize>)
        ensures
            r matches Some(k) ==> k < self.ids@.len() && self.ids@[k as int]@ == id@,
            r is None ==> !self@.contains(id@),
    {
        let n: usize = self.ids.len();
        let mut k: usize = 0;
        while k < n
            invariant
                n == self.ids@.len(),
                k <= n,
                forall|t: int| 0 <= t < k ==> #[trigger] self.ids@[t]@ != id@,
            decreases n - k,
        {
            if same_text(self.ids[k].as_str(), id) {
                return Some(k);
            }
            k = k + 1;
        }
        None
    }

    /// Whether `id` is an open session.
    pub fn contains(&self, id: &str) -> (r: bool)
        ensures
            r == self@.contains(id@),
    {
        match self.position(id) {
            Some(k) => {
                assert(self@.contains(self.ids@[k as int]@));
                true
            },
            None => false,
        }
    }

    /// Adds `id`; answers whether it was not held before.
    pub fn insert(&mut self, id: String) -> (added: bool)
        ensures
            final(self)@ == old(self)@.insert(id@),
            added == !old(self)@.contains(id@),
    {
        proof {
            use_type_invariant(&*self);
        }
        match self.position(id.as_str()) {
            Some(k) => {
                assert(self@.contains(self.ids@[k as int]@));
                assert(self@ =~= self@.insert(id@));
                false
            },
            None => {
                let ghost before = self.ids@;
                let ghost v = id@;
                let mut ids = Vec::new();
                std::mem::swap(&mut ids, &mut self.ids);
                ids.push(id);
                assert forall|i: int, j: int| 0 <= i < j < ids@.len() implies #[trigger] ids@[i]@
                    != #[trigger] ids@[j]@ by {
                    if j == before.len() {
                        assert(ids@[i] == before[i]);
                        assert(!(exists|t: int| 0 <= t < before.len() && #[trigger] before[t]@ == v));
                    } else {
                        assert(ids@[i] == before[i] && ids@[j] == before[j]);
                    }
                }
                self.ids = ids;
                assert forall|s: Seq<char>| #[trigger] self@.contains(s) == old(self)@.insert(v).contains(s) by {
                    if s == v {
                        assert(self.ids@[before.len() as int]@ == v);
                    }
                    if old(self)@.contains(s) && s != v {
                        let t = choose|t: int| 0 <= t < before.len() && #[trigger] before[t]@ == s;
                        assert(self.ids@[t] == before[t]);
                    }
                    if self@.contains(s) && s != v {
                        let t = choose|t: int| 0 <= t < self.ids@.len() && #[trigger] self.ids@[t]@ == s;
                        assert(self.ids@[t] == before[t]);
                    }
                }
                assert(self@ =~= old(self)@.insert(v));
                true
            },
        }
    }

    /// Removes `id`; answers whether it was held.
    pub fn remove(&mut self, id: &str) -> (removed: bool)
        ensures
            final(self)@ == old(self)@.remove(id@),
            removed == old(self)@.contains(id@),
    {
        proof {
            use_type_invariant(&*self);
        }
        match self.position(id) {
            None => {
                assert(self@ =~= self@.remove(id@));
                false
            },
            Some(k) => {
                let ghost before = self.ids@;
                assert(old(self)@.contains(before[k as int]@));
                let mut ids = Vec::new();
                std::mem::swap(&mut ids, &mut self.ids);
                let _gone = ids.remove(k);
                assert(ids@ =~= before.remove(k as int));
                assert forall|i: int, j: int| 0 <= i < j < ids@.len() implies #[trigger] ids@[i]@
                    != #[trigger] ids@[j]@ by {
                    let bi = if i < k { i } else { i + 1 };
                    let bj = if j < k { j } else { j + 1 };
                    assert(ids@[i] == before[bi] && ids@[j] == before[bj]);
                }
                self.ids = ids;
                assert forall|s: Seq<char>| #[trigger] self@.contains(s) == old(self)@.remove(id@).contains(s) by {
                    if self@.contains(s) {
                        let t = choose|t: int| 0 <= t < self.ids@.len() && #[trigger] self.ids@[t]@ == s;
                        let bt = if t < k { t } else { t + 1 };
                        assert(self.ids@[t] == before[bt]);
                        assert(bt != k);
                        assert(before[bt]@ != before[k as int]@) by {
                            if bt < k {
                                assert(before[bt]@ != before[k as int]@);
                            } else {
                                assert(before[k as int]@ != before[bt]@);
                            }
                        }
                    }
                    if old(self)@.contains(s) && s != id@ {
                        let t = choose|t: int| 0 <= t < before.len() && #[trigger] before[t]@ == s;
                        assert(t != k);
                        let nt = if t < k { t } else { t - 1 };
                        assert(self.ids@[nt] == before[t]);
                    }
                }
                assert(self@ =~= old(self)@.remove(id@));
                true
            },
        }
    }

    /// Opens a new session under a fresh random id and returns the id.
    pub fn open_session(&mut self) -> (id: String)
        ensures
            is_uuid_v4_text(id@),
            final(self)@ == old(self)@.insert(id@),
    {
        let id = new_session_id();
        let copy = id.clone();
        let _ = self.insert(copy);
        id
    }
}

// ---------------------------------------------------------------------------
// Headers and authentication
// ---------------------------------------------------------------------------

/// The text of header `name`: its first value, when that value is text.
pub open spec fn header_text(headers: HeaderMap<HeaderValue>, name: Seq<char>) -> Option<Seq<char>> {
    if header_first_values(headers).contains_key(name) && forall|i: int|
        0 <= i < header_first_values(headers)[name].len() ==> is_visible_ascii(
            #[trigger] header_first_values(headers)[name][i],
        ) {
        Some(ascii_chars(header_first_values(headers)[name]))
    } else {
        None
    }
}

/// The text of header `name`, or the empty text when it has none.
pub open spec fn header_text_or_empty(headers: HeaderMap<HeaderValue>, name: Seq<char>) -> Seq<char> {
    match header_text(headers, name) {
        Some(t) => t,
        None => Seq::empty(),
    }
}

/// Reads the text of header `name`.
pub fn read_header(headers: &HeaderMap<HeaderValue>, name: &str) -> (r: Option<String>)
    requires
        is_canonical_header_name(name@),
    ensures
        match r {
            Some(s) => header_text(*headers, name@) == Some(s@),
            None => header_text(*headers, name@) is None,
        },
{
    match header_get(headers, name) {
        Some(v) => header_value_text(v),
        None => None,
    }
}

fn read_header_or_empty(headers: &HeaderMap<HeaderValue>, name: &str) -> (r: String)
    requires
        is_canonical_header_name(name@),
    ensures
        r@ == header_text_or_empty(*headers, name@),
{
    match read_header(headers, name) {
        Some(s) => s,
        None => {
            proof {
                reveal_strlit("");
                assert(""@ =~= Seq::<char>::empty());
            }
            String::from_str("")
        },
    }
}

proof fn lemma_known_header_names()
    ensures
        is_canonical_header_name("authorization"@),
        is_canonical_header_name("mcp-session-id"@),
        is_canonical_header_name("content-type"@),
{
    reveal_strlit("authorization");
    reveal_strlit("mcp-session-id");
    reveal_strlit("content-type");
}

/// Whether a request with `headers` passes authentication: always when no
/// token is configured, and otherwise exactly when its `Authorization`
/// header is `Bearer ` followed by the token.
pub open spec fn auth_admits(token: Option<Seq<char>>, headers: HeaderMap<HeaderValue>) -> bool {
    match token {
        None => true,
        Some(t) => header_text(headers, "authorization"@) == Some("Bearer "@ + t),
    }
}

/// The view of an optional token.
pub open spec fn token_view(token: Option<&str>) -> Option<Seq<char>> {
    match token {
        Some(t) => Some(t@),
        None => None,
    }
}

/// Checks the `Authorization` header against the configured token.
pub fn check_auth(token: Option<&str>, headers: &HeaderMap<HeaderValue>) -> (r: Result<(), u16>)
    ensures
        r is Ok <==> auth_admits(token_view(token), *headers),
        r matches Err(status) ==> status == STATUS_UNAUTHORIZED,
{
    let expected = match token {
        Some(t) => t,
        None => return Ok(()),
    };
    proof {
        lemma_known_header_names();
    }
    match read_header(headers, "authorization") {
        Some(auth) => {
            let wanted = concat_text("Bearer ", expected);
            if same_text(auth.as_str(), wanted.as_str()) {
                Ok(())
            } else {
                Err(STATUS_UNAUTHORIZED)
            }
        },
        None => Err(STATUS_UNAUTHORIZED),
    }
}

/// The `Mcp-Session-Id` header's text, if any.
pub fn get_session_id(headers: &HeaderMap<HeaderValue>) -> (r: Option<String>)
    ensures
        match r {
            Some(s) => header_text(*headers, "mcp-session-id"@) == Some(s@),
            None => header_text(*headers, "mcp-session-id"@) is None,
        },
{
    proof {
        lemma_known_header_names();
    }
    read_header(headers, "mcp-session-id")
}

// ---------------------------------------------------------------------------
// POST and DELETE
// ---------------------------------------------------------------------------

/// How a `POST` with `headers` and `body` is screened against the open `sessions`.
pub open spec fn post_admission(
    token: Option<Seq<char>>,
    headers: HeaderMap<HeaderValue>,
    body: Seq<char>,
    sessions: Set<Seq<char>>,
) -> PostAdmission {
    if !auth_admits(token, headers) {
        PostAdmission::Refused(Refusal::Unauthorized)
    } else if !occurs_in(header_text_or_empty(headers, "content-type"@), "application/json"@) {
        PostAdmission::Refused(Refusal::UnsupportedMediaType)
    } else if json_method_member(body) == Some("initialize"@) {
        PostAdmission::Admitted { initialize: true }
    } else {
        match header_text(headers, "mcp-session-id"@) {
            None => PostAdmission::Refused(Refusal::MissingSessionId),
            Some(id) => if sessions.contains(id) {
                PostAdmission::Admitted { initialize: false }
            } else {
                PostAdmission::Refused(Refusal::InvalidSessionId)
            },
        }
    }
}

/// Screens a `POST`: authentication first, then the content type, then (for
/// anything but `initialize`) the session.
pub fn screen_post(
    token: Option<&str>,
    headers: &HeaderMap<HeaderValue>,
    body: &str,
    sessions: &SessionStore,
) -> (p: PostAdmission)
    ensures
        p == post_admission(token_view(token), *headers, body@, sessions@),
{
    proof {
        lemma_known_header_names();
    }
    if check_auth(token, headers).is_err() {
        return PostAdmission::Refused(Refusal::Unauthorized);
    }
    let content_type = read_header_or_empty(headers, "content-type");
    if !contains(content_type.as_str(), "application/json") {
        return PostAdmission::Refused(Refusal::UnsupportedMediaType);
    }
    let is_initialize = match json_method(body) {
        Some(m) => same_text(m.as_str(), "initialize"),
        None => false,
    };
    if is_initialize {
        return PostAdmission::Admitted { initialize: true };
    }
    match get_session_id(headers) {
        None => PostAdmission::Refused(Refusal::MissingSessionId),
        Some(id) => if sessions.contains(id.as_str()) {
            PostAdmission::Admitted { initialize: false }
        } else {
            PostAdmission::Refused(Refusal::InvalidSessionId)
        },
    }
}

/// `r` has status `status` and the plain-text body `text`, with no session header.
pub open spec fn is_text_reply(r: HttpReply, status: u16, text: Seq<char>) -> bool {
    &&& r.status == status
    &&& r.session_id is None
    &&& r.body matches ReplyBody::Text(t) && t@ == text
}

/// The reply to a `POST` that screening refused.
pub open spec fn refusal_reply_ok(why: Refusal, r: HttpReply) -> bool {
    match why {
        Refusal::Unauthorized => r.status == STATUS_UNAUTHORIZED && r.session_id is None
            && r.body is Empty,
        Refusal::UnsupportedMediaType => is_text_reply(
            r,
            STATUS_UNSUPPORTED_MEDIA_TYPE,
            "Content-Type must be application/json"@,
        ),
        Refusal::MissingSessionId => is_text_reply(
            r,
            STATUS_BAD_REQUEST,
            "Missing Mcp-Session-Id header"@,
        ),
        Refusal::InvalidSessionId => is_text_reply(r, STATUS_BAD_REQUEST, "Invalid session ID"@),
    }
}

fn text_reply(status: u16, text: &str) -> (r: HttpReply)
    ensures
        is_text_reply(r, status, text@),
{
    HttpReply { status, session_id: None, body: ReplyBody::Text(String::from_str(text)) }
}

/// The reply to a `POST` that screening refused.
pub fn refusal_reply(why: Refusal) -> (r: HttpReply)
    ensures
        refusal_reply_ok(why, r),
{
    match why {
        Refusal::Unauthorized => HttpReply {
            status: STATUS_UNAUTHORIZED,
            session_id: None,
            body: ReplyBody::Empty,
        },
        Refusal::UnsupportedMediaType => text_reply(
            STATUS_UNSUPPORTED_MEDIA_TYPE,
            "Content-Type must be application/json",
        ),
        Refusal::MissingSessionId => text_reply(STATUS_BAD_REQUEST, "Missing Mcp-Session-Id header"),
        Refusal::InvalidSessionId => text_reply(STATUS_BAD_REQUEST, "Invalid session ID"),
    }
}

/// The reply to an admitted `POST` once its body has been dispatched: the
/// JSON answer (opening a session when the request was `initialize`), or
/// `202 Accepted` with an empty body when the request needed no answer.
pub fn finish_post(dispatched: Option<String>, initialize: bool, sessions: &mut SessionStore) -> (r: HttpReply)
    ensures
        match dispatched {
            Some(json) => {
                &&& r.status == STATUS_OK
                &&& r.body matches ReplyBody::Json(b) && b@ == json@
                &&& if initialize {
                    r.session_id matches Some(id) && is_uuid_v4_text(id@)
                        && final(sessions)@ == old(sessions)@.insert(id@)
                } else {
                    r.session_id is None && final(sessions)@ == old(sessions)@
                }
            },
            None => is_text_reply(r, STATUS_ACCEPTED, Seq::empty()) && final(sessions)@ == old(sessions)@,
        },
{
    match dispatched {
        Some(json) => {
            let session_id = if initialize {
                Some(sessions.open_session())
            } else {
                None
            };
            HttpReply { status: STATUS_OK, session_id, body: ReplyBody::Json(json) }
        },
        None => {
            proof {
                reveal_strlit("");
                assert(""@ =~= Seq::<char>::empty());
            }
            text_reply(STATUS_ACCEPTED, "")
        },
    }
}

/// The status `DELETE` answers with.
pub open spec fn delete_status(token: Option<Seq<char>>, headers: HeaderMap<HeaderValue>, sessions: Set<Seq<char>>) -> u16 {
    if !auth_admits(token, headers) {
        STATUS_UNAUTHORIZED
    } else {
        match header_text(headers, "mcp-session-id"@) {
            None => STATUS_BAD_REQUEST,
            Some(id) => if sessions.contains(id) {
                STATUS_OK
            } else {
                STATUS_NOT_FOUND
            },
        }
    }
}

/// The open sessions after `DELETE`: the named one is closed once the
/// request passed authentication.
pub open spec fn sessions_after_delete(
    token: Option<Seq<char>>,
    headers: HeaderMap<HeaderValue>,
    sessions: Set<Seq<char>>,
) -> Set<Seq<char>> {
    if auth_admits(token, headers) && header_text(headers, "mcp-session-id"@) is Some {
        sessions.remove(header_text(headers, "mcp-session-id"@)->0)
    } else {
        sessions
    }
}

/// Handles `DELETE`: closes the session named by `Mcp-Session-Id`.
pub fn handle_delete(token: Option<&str>, headers: &HeaderMap<HeaderValue>, sessions: &mut SessionStore) -> (r: HttpReply)
    ensures
        r.status == delete_status(token_view(token), *headers, old(sessions)@),
        final(sessions)@ == sessions_after_delete(token_view(token), *headers, old(sessions)@),
        r.session_id is None,
        r.status == STATUS_UNAUTHORIZED ==> r.body is Empty,
        r.status == STATUS_BAD_REQUEST ==> is_text_reply(r, STATUS_BAD_REQUEST, "Missing Mcp-Session-Id header"@),
        r.status == STATUS_OK ==> is_text_reply(r, STATUS_OK, "Session terminated"@),
        r.status == STATUS_NOT_FOUND ==> is_text_reply(r, STATUS_NOT_FOUND, "Session not found"@),
{
    if check_auth(token, headers).is_err() {
        return HttpReply { status: STATUS_UNAUTHORIZED, session_id: None, body: ReplyBody::Empty };
    }
    let session_id = match get_session_id(headers) {
        Some(id) => id,
        None => return text_reply(STATUS_BAD_REQUEST, "Missing Mcp-Session-Id header"),
    };
    if sessions.remove(session_id.as_str()) {
        text_reply(STATUS_OK, "Session terminated")
    } else {
        text_reply(STATUS_NOT_FOUND, "Session not found")
    }
}

// ---------------------------------------------------------------------------
// Laws
// ---------------------------------------------------------------------------

/// A session opened by `initialize` admits the requests that name it until it
/// is deleted; deleting it succeeds once, and afterwards the id is refused
/// both by `POST` and by a second `DELETE`.
pub proof fn law_session_lifecycle(
    token: Option<Seq<char>>,
    post_headers: HeaderMap<HeaderValue>,
    delete_headers: HeaderMap<HeaderValue>,
    body: Seq<char>,
    sessions: Set<Seq<char>>,
    id: Seq<char>,
)
    requires
        auth_admits(token, post_headers),
        auth_admits(token, delete_headers),
        occurs_in(header_text_or_empty(post_headers, "content-type"@), "application/json"@),
        json_method_member(body) != Some("initialize"@),
        header_text(post_headers, "mcp-session-id"@) == Some(id),
        header_text(delete_headers, "mcp-session-id"@) == Some(id),
    ensures
        post_admission(token, post_headers, body, sessions.insert(id)) == (PostAdmission::Admitted { initialize: false }),
        delete_status(token, delete_headers, sessions.insert(id)) == STATUS_OK,
        post_admission(token, post_headers, body, sessions_after_delete(token, delete_headers, sessions.insert(id)))
            == PostAdmission::Refused(Refusal::InvalidSessionId),
        delete_status(token, delete_headers, sessions_after_delete(token, delete_headers, sessions.insert(id)))
            == STATUS_NOT_FOUND,
{
    assert(sessions.insert(id).contains(id));
    assert(!sessions.insert(id).remove(id).contains(id));
}

/// A request that fails authentication is refused with 401 whatever else it
/// holds, and a refused `DELETE` leaves the sessions as they were.
pub proof fn law_unauthorized_is_refused_first(
    token: Option<Seq<char>>,
    headers: HeaderMap<HeaderValue>,
    body: Seq<char>,
    sessions: Set<Seq<char>>,
)
    requires
        !auth_admits(token, headers),
    ensures
        post_admission(token, headers, body, sessions) == PostAdmission::Refused(Refusal::Unauthorized),
        delete_status(token, headers, sessions) == STATUS_UNAUTHORIZED,
        sessions_after_delete(token, headers, sessions) == sessions,
{
}

/// An admitted `DELETE` that names a session closes that session and no
/// other: afterwards the open sessions are the earlier ones without that id,
/// every other session staying open and no session being added.
pub proof fn law_delete_closes_only_the_named_session(
    token: Option<Seq<char>>,
    headers: HeaderMap<HeaderValue>,
    sessions: Set<Seq<char>>,
    id: Seq<char>,
)
    requires
        auth_admits(token, headers),
        header_text(headers, "mcp-session-id"@) == Some(id),
    ensures
        !sessions_after_delete(token, headers, sessions).contains(id),
        forall|s: Seq<char>| s != id ==> (#[trigger] sessions_after_delete(token, headers, sessions).contains(s)
            <==> sessions.contains(s)),
        delete_status(token, headers, sessions) == (if sessions.contains(id) { STATUS_OK } else { STATUS_NOT_FOUND }),
{
}

/// Without a configured token every request passes authentication.
pub proof fn law_no_token_admits_everyone(headers: HeaderMap<HeaderValue>)
    ensures
        auth_admits(None, headers),
{
}

/// An `initialize` request that passes authentication and carries a JSON
/// content type is admitted as `initialize`, whatever the token
/// configuration and the open sessions, with or without a session header.
pub proof fn law_initialize_is_admitted(
    token: Option<Seq<char>>,
    headers: HeaderMap<HeaderValue>,
    body: Seq<char>,
    sessions: Set<Seq<char>>,
)
    requires
        auth_admits(token, headers),
        occurs_in(header_text_or_empty(headers, "content-type"@), "application/json"@),
        json_method_member(body) == Some("initialize"@),
    ensures
        post_admission(token, headers, body, sessions) == (PostAdmission::Admitted { initialize: true }),
{
}

} // verus!
