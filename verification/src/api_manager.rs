//! The front door: which request goes where, and who may pass. Requests and
//! replies are plain values here; the server around them speaks HTTP.

use crate::auth::{AuthPermissions, AuthPermissionsView};
use crate::text::{
    contains, is_alphanumeric, lit, occurs_in, same_bytes, slice_of, starts_with,
};
use vstd::prelude::*;

verus! {

pub const PING: &'static str = "/api/ping";

pub const LOGIN: &'static str = "/api/login";

pub const DSN: &'static str = "/api/sentry/dsn";

pub const SETTINGS: &'static str = "/api/settings";

pub const FILES: &'static str = "/api/files";

pub const CONNECTION: &'static str = "/api/connection";

pub const PRINT: &'static str = "/api/print";

pub const TERMINAL: &'static str = "/api/terminal";

/// The length of a token.
pub const TOKEN_LENGTH: usize = 60;

/// A reply that needs no more than a status and a short text.
#[derive(Clone, Copy, Debug, PartialEq, Eq)]
pub struct PlainResponse {
    pub status: u16,
    pub body: &'static str,
}

/// The text that goes with a status.
pub open spec fn reason(status: u16) -> Seq<char> {
    if status == 201 {
        "Created"@
    } else if status == 400 {
        "Bad Request"@
    } else if status == 401 {
        "Unauthorized"@
    } else if status == 403 {
        "Forbidden"@
    } else if status == 404 {
        "Not Found"@
    } else if status == 413 {
        "Payload too large"@
    } else if status == 500 {
        "Internal Server Error"@
    } else {
        ""@
    }
}

impl PlainResponse {
    /// The reply says what goes with its status.
    pub open spec fn standard(self) -> bool {
        self.body@ == reason(self.status)
    }
}

pub fn not_found_response() -> (r: PlainResponse)
    ensures
        r.status == 404,
        r.body@ == "Not Found"@,
{
    PlainResponse { status: 404, body: "Not Found" }
}

pub fn bad_request_response() -> (r: PlainResponse)
    ensures
        r.status == 400,
        r.body@ == "Bad Request"@,
{
    PlainResponse { status: 400, body: "Bad Request" }
}

pub fn unauthorized_response() -> (r: PlainResponse)
    ensures
        r.status == 401,
        r.body@ == "Unauthorized"@,
{
    PlainResponse { status: 401, body: "Unauthorized" }
}

pub fn server_error_response() -> (r: PlainResponse)
    ensures
        r.status == 500,
        r.body@ == "Internal Server Error"@,
{
    PlainResponse { status: 500, body: "Internal Server Error" }
}

pub fn forbidden_response() -> (r: PlainResponse)
    ensures
        r.status == 403,
        r.body@ == "Forbidden"@,
{
    PlainResponse { status: 403, body: "Forbidden" }
}

pub fn too_large_response() -> (r: PlainResponse)
    ensures
        r.status == 413,
        r.body@ == "Payload too large"@,
{
    PlainResponse { status: 413, body: "Payload too large" }
}

/// The method of a request.
#[derive(Clone, Copy, Debug, PartialEq, Eq, Structural)]
pub enum Method {
    Get,
    Post,
    Put,
    Delete,
    Options,
    Other,
}

/// The handlers that a request can reach.
#[derive(Clone, Copy, Debug, PartialEq, Eq, Structural)]
pub enum Route {
    Ping,
    Login,
    Dsn,
    ListSettings,
    UpdateSettings,
    ListFiles,
    UploadFile,
    CreateConnection,
    DisconnectConnection,
    ReconnectConnection,
    StartPrint,
    CancelPrint,
    Terminal,
}

/// What a preflight request is told.
#[derive(Clone, Copy, Debug, PartialEq, Eq)]
pub struct Cors {
    pub allow_methods: &'static str,
    pub allow_headers: &'static str,
}

/// Where a request to the API goes.
#[derive(Clone, Copy, Debug, PartialEq, Eq)]
pub enum Routed {
    /// The path is no text of ASCII.
    BadRequest,
    /// A preflight request for a path that the API has.
    Preflight { cors: Cors },
    /// No user is known, or the user may not do this.
    Unauthorized,
    /// The API has no such route.
    NotFound,
    /// The request goes to this handler.
    Handle { route: Route },
}

/// Where a request to the server goes.
#[derive(Debug, PartialEq, Eq)]
pub enum Entry {
    /// A client asks for a socket and shows this token.
    Socket { token: Vec<u8> },
    /// A client asks for a socket and shows no token, or none that can be one.
    Unauthorized,
    /// A plain request for the socket's path.
    BadRequest,
    /// A request to the API.
    Api,
    /// A request for a file of the client; a path without a dot asks for
    /// the client's entry page.
    File { entry_page: bool },
}

pub enum EntryView {
    Socket { token: Seq<u8> },
    Unauthorized,
    BadRequest,
    Api,
    File { entry_page: bool },
}

impl View for Entry {
    type V = EntryView;

    open spec fn view(&self) -> EntryView {
        match self {
            Entry::Socket { token } => EntryView::Socket { token: token@ },
            Entry::Unauthorized => EntryView::Unauthorized,
            Entry::BadRequest => EntryView::BadRequest,
            Entry::Api => EntryView::Api,
            Entry::File { entry_page } => EntryView::File { entry_page: *entry_page },
        }
    }
}

/// A token is sixty letters and digits.
pub open spec fn is_token(token: Seq<u8>) -> bool {
    token.len() == TOKEN_LENGTH && forall|i: int|
        0 <= i < token.len() ==> is_alphanumeric(#[trigger] token[i])
}

/// Every byte of the path is ASCII.
pub open spec fn is_ascii(path: Seq<u8>) -> bool {
    forall|i: int| 0 <= i < path.len() ==> #[trigger] path[i] < 128
}

/// A path without the slash at its end, unless the slash is all of it; a
/// path that is not ASCII has no such form.
pub open spec fn normalized(path: Seq<u8>) -> Option<Seq<u8>> {
    if !is_ascii(path) {
        None
    } else if path.len() > 1 && path.last() == 47 {
        Some(path.drop_last())
    } else {
        Some(path)
    }
}

/// What a preflight request for a path is told, if the API has the path.
pub open spec fn preflight(path: Seq<u8>) -> Option<(Seq<char>, Seq<char>)> {
    if path == lit(LOGIN) {
        Some(("POST"@, "*"@))
    } else if path == lit(PING) {
        Some(("GET"@, ""@))
    } else if path == lit(SETTINGS) {
        Some(("GET, POST"@, "Authorization, Content-Type"@))
    } else if path == lit(FILES) {
        Some(("GET, POST"@, "X-Requested-With,content-type, Authorization, X-force-upload"@))
    } else if path == lit(CONNECTION) {
        Some(("PUT, DELETE, POST"@, "*"@))
    } else if path == lit(PRINT) {
        Some(("PUT"@, "*"@))
    } else if path == lit(DSN) {
        Some(("GET"@, "*"@))
    } else if path == lit(TERMINAL) {
        Some(("POST"@, "*"@))
    } else {
        None
    }
}

/// The route that needs no user, if the request asks for one.
pub open spec fn open_route(method: Method, path: Seq<u8>) -> Option<Route> {
    if method == Method::Get && path == lit(PING) {
        Some(Route::Ping)
    } else if method == Method::Post && path == lit(LOGIN) {
        Some(Route::Login)
    } else if method == Method::Get && path == lit(DSN) {
        Some(Route::Dsn)
    } else {
        None
    }
}

/// The route that needs a user, and the bits of which the user needs
/// one or, for an upload, both; a route that any user may take needs none.
pub open spec fn user_route(method: Method, path: Seq<u8>) -> Option<(Route, Seq<u16>)> {
    if method == Method::Get && path == lit(SETTINGS) {
        Some((Route::ListSettings, Seq::<u16>::empty()))
    } else if method == Method::Post && path == lit(SETTINGS) {
        Some((Route::UpdateSettings, seq![5u16]))
    } else if method == Method::Get && path == lit(FILES) {
        Some((Route::ListFiles, seq![2u16]))
    } else if method == Method::Post && path == lit(FILES) {
        Some((Route::UploadFile, seq![3u16, 2u16]))
    } else if method == Method::Put && path == lit(CONNECTION) {
        Some((Route::CreateConnection, seq![1u16]))
    } else if method == Method::Delete && path == lit(CONNECTION) {
        Some((Route::DisconnectConnection, seq![1u16]))
    } else if method == Method::Post && path == lit(CONNECTION) {
        Some((Route::ReconnectConnection, seq![1u16]))
    } else if method == Method::Put && path == lit(PRINT) {
        Some((Route::StartPrint, seq![4u16]))
    } else if method == Method::Delete && path == lit(PRINT) {
        Some((Route::CancelPrint, seq![4u16]))
    } else if method == Method::Post && path == lit(TERMINAL) {
        Some((Route::Terminal, seq![8u16]))
    } else {
        None
    }
}

/// The user has every one of the permissions.
pub open spec fn may_all(user: AuthPermissionsView, bits: Seq<u16>) -> bool {
    forall|i: int| 0 <= i < bits.len() ==> user.may(#[trigger] bits[i])
}

/// Where a request to the API goes: a path that cannot be normalised is a
/// bad request; a preflight request is answered for the paths of the API;
/// three routes are open to all; every other request needs a user, and a
/// route of its own needs the user's permission.
pub open spec fn routed(method: Method, path: Seq<u8>, user: Option<AuthPermissionsView>) -> (
    RoutedView
) {
    match normalized(path) {
        None => RoutedView::BadRequest,
        Some(path) => if method == Method::Options {
            match preflight(path) {
                Some(cors) => RoutedView::Preflight {
                    allow_methods: cors.0,
                    allow_headers: cors.1,
                },
                None => RoutedView::NotFound,
            }
        } else if open_route(method, path) is Some {
            RoutedView::Handle { route: open_route(method, path).unwrap() }
        } else {
            match user {
                None => RoutedView::Unauthorized,
                Some(user) => match user_route(method, path) {
                    None => RoutedView::NotFound,
                    Some((route, bits)) => if may_all(user, bits) {
                        RoutedView::Handle { route }
                    } else {
                        RoutedView::Unauthorized
                    },
                },
            }
        },
    }
}

pub enum RoutedView {
    BadRequest,
    Preflight { allow_methods: Seq<char>, allow_headers: Seq<char> },
    Unauthorized,
    NotFound,
    Handle { route: Route },
}

impl View for Routed {
    type V = RoutedView;

    open spec fn view(&self) -> RoutedView {
        match self {
            Routed::BadRequest => RoutedView::BadRequest,
            Routed::Preflight { cors } => RoutedView::Preflight {
                allow_methods: cors.allow_methods@,
                allow_headers: cors.allow_headers@,
            },
            Routed::Unauthorized => RoutedView::Unauthorized,
            Routed::NotFound => RoutedView::NotFound,
            Routed::Handle { route } => RoutedView::Handle { route: *route },
        }
    }
}

/// Where a request to the server goes. A request for a socket has to come
/// to the socket's path with a token; the API lives under `/api/`; anything
/// else asks for a file of the client.
pub open spec fn entered(upgrade: bool, path: Seq<u8>, protocol: Option<Seq<u8>>) -> EntryView {
    if upgrade && path == lit("/ws") {
        match protocol {
            Some(token) => if is_token(token) {
                EntryView::Socket { token }
            } else {
                EntryView::Unauthorized
            },
            None => EntryView::Unauthorized,
        }
    } else if path == lit("/ws") {
        EntryView::BadRequest
    } else if lit("/api/").is_prefix_of(path) {
        EntryView::Api
    } else {
        EntryView::File { entry_page: !occurs_in(path, lit(".")) }
    }
}

pub struct ApiManager {}

impl ApiManager {
    /// Whether `token` can be a token.
    pub fn valid_token(token: &[u8]) -> (r: bool)
        ensures
            r == is_token(token@),
    {
        if token.len() != TOKEN_LENGTH {
            return false;
        }
        let mut i: usize = 0;
        while i < token.len()
            invariant
                i <= token.len(),
                forall|k: int| 0 <= k < i ==> is_alphanumeric(#[trigger] token@[k]),
            decreases token.len() - i,
        {
            let b = token[i];
            if !((48 <= b && b <= 57) || (65 <= b && b <= 90) || (97 <= b && b <= 122)) {
                return false;
            }
            i = i + 1;
        }
        true
    }

    /// The path without the slash at its end.
    pub fn normalize_url(path: &[u8]) -> (r: Option<Vec<u8>>)
        ensures
            match r {
                Some(p) => Some(p@),
                None => None,
            } == normalized(path@),
    {
        let mut i: usize = 0;
        while i < path.len()
            invariant
                i <= path.len(),
                forall|k: int| 0 <= k < i ==> #[trigger] path@[k] < 128,
            decreases path.len() - i,
        {
            if path[i] >= 128 {
                return None;
            }
            i = i + 1;
        }
        if path.len() > 1 && path[path.len() - 1] == 47 {
            Some(slice_of(path, 0, path.len() - 1))
        } else {
            let whole = slice_of(path, 0, path.len());
            assert(whole@ == path@);
            Some(whole)
        }
    }

    /// What a preflight request for a normalised path is told.
    pub fn handle_option_requests(path: &[u8]) -> (r: Option<Cors>)
        ensures
            match r {
                Some(cors) => Some((cors.allow_methods@, cors.allow_headers@)),
                None => None,
            } == preflight(path@),
    {
        if same_bytes(path, LOGIN.as_bytes()) {
            Some(Cors { allow_methods: "POST", allow_headers: "*" })
        } else if same_bytes(path, PING.as_bytes()) {
            Some(Cors { allow_methods: "GET", allow_headers: "" })
        } else if same_bytes(path, SETTINGS.as_bytes()) {
            Some(Cors { allow_methods: "GET, POST", allow_headers: "Authorization, Content-Type" })
        } else if same_bytes(path, FILES.as_bytes()) {
            Some(
                Cors {
                    allow_methods: "GET, POST",
                    allow_headers: "X-Requested-With,content-type, Authorization, X-force-upload",
                },
            )
        } else if same_bytes(path, CONNECTION.as_bytes()) {
            Some(Cors { allow_methods: "PUT, DELETE, POST", allow_headers: "*" })
        } else if same_bytes(path, PRINT.as_bytes()) {
            Some(Cors { allow_methods: "PUT", allow_headers: "*" })
        } else if same_bytes(path, DSN.as_bytes()) {
            Some(Cors { allow_methods: "GET", allow_headers: "*" })
        } else if same_bytes(path, TERMINAL.as_bytes()) {
            Some(Cors { allow_methods: "POST", allow_headers: "*" })
        } else {
            None
        }
    }

    /// Whether the answer to a request depends on who asks.
    pub fn needs_user(method: Method, path: &[u8]) -> (r: bool)
        ensures
            r == (normalized(path@) is Some && method != Method::Options && open_route(
                method,
                normalized(path@).unwrap(),
            ) is None),
    {
        match Self::normalize_url(path) {
            None => false,
            Some(path) => {
                if method == Method::Options {
                    false
                } else {
                    Self::open(method, path.as_slice()).is_none()
                }
            },
        }
    }

    fn open(method: Method, path: &[u8]) -> (r: Option<Route>)
        ensures
            r == open_route(method, path@),
    {
        if method == Method::Get && same_bytes(path, PING.as_bytes()) {
            Some(Route::Ping)
        } else if method == Method::Post && same_bytes(path, LOGIN.as_bytes()) {
            Some(Route::Login)
        } else if method == Method::Get && same_bytes(path, DSN.as_bytes()) {
            Some(Route::Dsn)
        } else {
            None
        }
    }

    /// Where a request to the API goes. `user` is who asks, if the request
    /// shows a token that names a user.
    pub fn handle_route(method: Method, path: &[u8], user: Option<&AuthPermissions>) -> (r: Routed)
        ensures
            r@ == routed(
                method,
                path@,
                match user {
                    Some(user) => Some(user@),
                    None => None,
                },
            ),
    {
        let path = match Self::normalize_url(path) {
            Some(path) => path,
            None => {
                return Routed::BadRequest;
            },
        };
        let path = path.as_slice();
        if method == Method::Options {
            return match Self::handle_option_requests(path) {
                Some(cors) => Routed::Preflight { cors },
                None => Routed::NotFound,
            };
        }
        match Self::open(method, path) {
            Some(route) => {
                return Routed::Handle { route };
            },
            None => {},
        }
        let user = match user {
            Some(user) => user,
            None => {
                return Routed::Unauthorized;
            },
        };
        if method == Method::Get && same_bytes(path, SETTINGS.as_bytes()) {
            return Routed::Handle { route: Route::ListSettings };
        }
        if method == Method::Post && same_bytes(path, SETTINGS.as_bytes()) {
            if !*user.settings_edit() {
                assert(!user@.may(seq![5u16][0]));
                return Routed::Unauthorized;
            }
            return Routed::Handle { route: Route::UpdateSettings };
        }
        if method == Method::Get && same_bytes(path, FILES.as_bytes()) {
            if !*user.file_access() {
                assert(!user@.may(seq![2u16][0]));
                return Routed::Unauthorized;
            }
            return Routed::Handle { route: Route::ListFiles };
        }
        if method == Method::Post && same_bytes(path, FILES.as_bytes()) {
            if !*user.file_edit() || !*user.file_access() {
                assert(!user@.may(seq![3u16, 2u16][0]) || !user@.may(seq![3u16, 2u16][1]));
                return Routed::Unauthorized;
            }
            return Routed::Handle { route: Route::UploadFile };
        }
        if method == Method::Put && same_bytes(path, CONNECTION.as_bytes()) {
            if !*user.edit_connection() {
                assert(!user@.may(seq![1u16][0]));
                return Routed::Unauthorized;
            }
            return Routed::Handle { route: Route::CreateConnection };
        }
        if method == Method::Delete && same_bytes(path, CONNECTION.as_bytes()) {
            if !*user.edit_connection() {
                assert(!user@.may(seq![1u16][0]));
                return Routed::Unauthorized;
            }
            return Routed::Handle { route: Route::DisconnectConnection };
        }
        if method == Method::Post && same_bytes(path, CONNECTION.as_bytes()) {
            if !*user.edit_connection() {
                assert(!user@.may(seq![1u16][0]));
                return Routed::Unauthorized;
            }
            return Routed::Handle { route: Route::ReconnectConnection };
        }
        if method == Method::Put && same_bytes(path, PRINT.as_bytes()) {
            if !*user.print_state_edit() {
                assert(!user@.may(seq![4u16][0]));
                return Routed::Unauthorized;
            }
            return Routed::Handle { route: Route::StartPrint };
        }
        if method == Method::Delete && same_bytes(path, PRINT.as_bytes()) {
            if !*user.print_state_edit() {
                assert(!user@.may(seq![4u16][0]));
                return Routed::Unauthorized;
            }
            return Routed::Handle { route: Route::CancelPrint };
        }
        if method == Method::Post && same_bytes(path, TERMINAL.as_bytes()) {
            if !*user.terminal_send() {
                assert(!user@.may(seq![8u16][0]));
                return Routed::Unauthorized;
            }
            return Routed::Handle { route: Route::Terminal };
        }
        Routed::NotFound
    }

    /// Where a request to the server goes. `upgrade` says whether the
    /// request asks for a socket, `protocol` is what it shows as its
    /// socket protocol.
    pub fn router(upgrade: bool, path: &[u8], protocol: Option<&[u8]>) -> (r: Entry)
        ensures
            r@ == entered(
                upgrade,
                path@,
                match protocol {
                    Some(p) => Some(p@),
                    None => None,
                },
            ),
    {
        let socket = same_bytes(path, "/ws".as_bytes());
        if upgrade && socket {
            match protocol {
                Some(token) => {
                    if Self::valid_token(token) {
                        let copy = slice_of(token, 0, token.len());
                        assert(copy@ == token@);
                        Entry::Socket { token: copy }
                    } else {
                        Entry::Unauthorized
                    }
                },
                None => Entry::Unauthorized,
            }
        } else if socket {
            Entry::BadRequest
        } else if starts_with(path, "/api/".as_bytes()) {
            Entry::Api
        } else {
            Entry::File { entry_page: !contains(path, ".".as_bytes()) }
        }
    }
}

} // verus!
