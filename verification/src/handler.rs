//! Handling one connection: read once, parse, resolve, serve, close.
//!
//! The library does no I/O. A connection is driven by its owner, who feeds
//! [`handle_client`] what happened ([`Event`]) and carries out what it
//! answers ([`Action`]) until the phase is [`Phase::Closed`].

use crate::mime::{content_type, mime_type};
use crate::path::{is_within, joined, path_starts_with, target_for, target_path};
use crate::request::{option_text, parse_request_line, request_target};
use crate::response::{header_text, response_bytes, response_header, Status};
use crate::text::trimmed;
use vstd::prelude::*;
use vstd::utf8::*;

verus! {

/// The most bytes of a request that are looked at: one read of this size.
pub const REQUEST_BUFFER_SIZE: usize = 4096;

/// The result of percent-decoding a string as `urlencoding::decode` does
/// it: `None` when the decoded bytes are not UTF-8.
pub uninterp spec fn percent_decoded(s: Seq<char>) -> Option<Seq<char>>;

/// The text that `String::from_utf8_lossy` makes of a byte sequence.
pub uninterp spec fn lossy_text(bytes: Seq<u8>) -> Seq<char>;

/// Calls `urlencoding::decode`. The contract names the result and adds what
/// the function does with a string that holds no `%`: it hands it back
/// unchanged. A decoding error becomes `None`.
#[verifier::external_body]
fn percent_decode(s: &str) -> (r: Option<String>)
    ensures
        option_text(r) == percent_decoded(s@),
        !s@.contains('%') ==> option_text(r) == Some(s@),
{
    match urlencoding::decode(s) {
        Ok(decoded) => Some(decoded.into_owned()),
        Err(_) => None,
    }
}

/// Calls `String::from_utf8_lossy`. The contract names the result and adds
/// what the function does with valid UTF-8: it decodes it as it stands.
#[verifier::external_body]
fn text_of(bytes: &[u8]) -> (r: String)
    ensures
        r@ == lossy_text(bytes@),
        valid_utf8(bytes@) ==> r@ == decode_utf8(bytes@),
{
    String::from_utf8_lossy(bytes).into_owned()
}

/// Maps a requested path to the file-system path below `base_dir` that it
/// names, before canonicalization. The request path is percent-decoded and
/// trimmed; an empty path or `/` names the index file. Returns `None` when
/// `base_dir` or `index_file` is empty or the path cannot be decoded. A
/// path that holds no `%` is taken as it stands.
pub fn sanitize_path(base_dir: &str, requested_path: &str, index_file: &str) -> (r: Option<String>)
    ensures
        option_text(r) == target_path(base_dir@, percent_decoded(requested_path@), index_file@),
        !requested_path@.contains('%') ==> option_text(r) == target_path(
            base_dir@,
            Some(requested_path@),
            index_file@,
        ),
        base_dir@.len() > 0 && index_file@.len() > 0 && (requested_path@.len() == 0
            || requested_path@ == seq!['/']) ==> option_text(r) == Some(
            joined(base_dir@, index_file@),
        ),
{
    let decoded = percent_decode(requested_path);
    proof {
        if requested_path@.len() == 0 || requested_path@ == seq!['/'] {
            lemma_trimmed_short(requested_path@);
        }
    }
    match decoded {
        Some(d) => target_for(base_dir, Some(d.as_str()), index_file),
        None => target_for(base_dir, None, index_file),
    }
}

/// Trimming leaves the empty text and a lone `/` as they are.
proof fn lemma_trimmed_short(s: Seq<char>)
    requires
        s.len() == 0 || s == seq!['/'],
    ensures
        trimmed(s) == s,
{
    reveal_with_fuel(crate::text::field_start, 2);
    reveal_with_fuel(crate::text::trim_end, 2);
}

/// Frames a response for the wire: the header block for `status`,
/// `content_type` and the length of `content`, then `content` itself.
pub fn send_response(status: &str, content: Option<&[u8]>, content_type: &str) -> (wire: Vec<u8>)
    ensures
        wire@ == response_bytes(
            status@,
            content_type@,
            match content {
                Some(c) => Some(c@),
                None => None,
            },
        ),
{
    let length = match content {
        Some(c) => c.len(),
        None => 0,
    };
    let head = response_header(status, content_type, length);
    let mut wire: Vec<u8> = Vec::new();
    wire.extend_from_slice(head.as_str().as_bytes());
    if let Some(c) = content {
        wire.extend_from_slice(c);
    }
    wire
}

/// What the file system says of a target path.
#[derive(Clone, Debug, PartialEq, Eq)]
pub enum Lookup {
    /// The path does not exist or could not be canonicalized.
    Missing,
    /// The path exists: its canonical form, with symbolic links and `..`
    /// resolved, and whether it is a regular file.
    Found { canonical: String, regular_file: bool },
}

/// The mathematical view of a [`Lookup`].
pub enum LookupView {
    Missing,
    Found { canonical: Seq<char>, regular_file: bool },
}

impl View for Lookup {
    type V = LookupView;

    open spec fn view(&self) -> LookupView {
        match self {
            Lookup::Missing => LookupView::Missing,
            Lookup::Found { canonical, regular_file } => LookupView::Found {
                canonical: canonical@,
                regular_file: *regular_file,
            },
        }
    }
}

/// The canonical path that a lookup reports, if it found one.
pub open spec fn canonical_of(lookup: LookupView) -> Option<Seq<char>> {
    match lookup {
        LookupView::Found { canonical, .. } => Some(canonical),
        LookupView::Missing => None,
    }
}

/// The file that is served, given what the file system says of the root
/// and of the target: the canonical path of the target, when the target is
/// a regular file and its canonical path lies within the canonical path of
/// the root. The root is compared in its canonical form, never as it was
/// configured: a root given through a symbolic link confines to where the
/// link leads. A root that has no canonical path confines nothing.
pub open spec fn confined(root: LookupView, target: LookupView) -> Option<Seq<char>> {
    match (root, target) {
        (
            LookupView::Found { canonical: canonical_root, .. },
            LookupView::Found { canonical, regular_file },
        ) => if regular_file && is_within(canonical_root, canonical) {
            Some(canonical)
        } else {
            None
        },
        _ => None,
    }
}

/// Accepts the canonical path of the target only if it names a regular
/// file and lies within the canonical path of the root.
pub fn confine(root: Lookup, target: Lookup) -> (r: Option<String>)
    ensures
        option_text(r) == confined(root@, target@),
{
    match root {
        Lookup::Missing => None,
        Lookup::Found { canonical: canonical_root, regular_file: _ } => match target {
            Lookup::Missing => None,
            Lookup::Found { canonical, regular_file } => {
                if regular_file && path_starts_with(canonical.as_str(), canonical_root.as_str()) {
                    Some(canonical)
                } else {
                    None
                }
            },
        },
    }
}

/// A response before it is framed.
#[derive(Clone, Debug, PartialEq, Eq)]
pub struct Response {
    pub status: Status,
    pub content_type: String,
    pub body: Option<Vec<u8>>,
}

/// The mathematical view of a [`Response`].
pub struct ResponseView {
    pub status: Status,
    pub content_type: Seq<char>,
    pub body: Option<Seq<u8>>,
}

impl View for Response {
    type V = ResponseView;

    open spec fn view(&self) -> ResponseView {
        ResponseView {
            status: self.status,
            content_type: self.content_type@,
            body: match self.body {
                Some(b) => Some(b@),
                None => None,
            },
        }
    }
}

impl ResponseView {
    /// The bytes that this response puts on the wire.
    pub open spec fn wire(self) -> Seq<u8> {
        response_bytes(self.status.line(), self.content_type, self.body)
    }
}

impl Response {
    /// Frames the response for the wire.
    pub fn to_bytes(&self) -> (wire: Vec<u8>)
        ensures
            wire@ == self@.wire(),
    {
        match &self.body {
            Some(b) => send_response(
                self.status.as_str(),
                Some(b.as_slice()),
                self.content_type.as_str(),
            ),
            None => send_response(self.status.as_str(), None, self.content_type.as_str()),
        }
    }
}

/// The response that reports `status` without a body, as plain text.
pub open spec fn plain(status: Status) -> ResponseView {
    ResponseView { status, content_type: "text/plain"@, body: None }
}

fn plain_response(status: Status) -> (r: Response)
    ensures
        r@ == plain(status),
{
    Response { status, content_type: "text/plain".to_owned(), body: None }
}

/// Where a connection stands.
#[derive(Clone, Debug, PartialEq, Eq)]
pub enum Phase {
    /// Nothing has been read yet.
    AwaitingRequest,
    /// The root and the target path have been handed out for
    /// canonicalization.
    AwaitingLookup,
    /// The file at `path` has been handed out for reading.
    AwaitingContents { path: String },
    /// The connection is finished; nothing more is read or written.
    Closed,
}

/// The mathematical view of a [`Phase`].
pub enum PhaseView {
    AwaitingRequest,
    AwaitingLookup,
    AwaitingContents { path: Seq<char> },
    Closed,
}

impl View for Phase {
    type V = PhaseView;

    open spec fn view(&self) -> PhaseView {
        match self {
            Phase::AwaitingRequest => PhaseView::AwaitingRequest,
            Phase::AwaitingLookup => PhaseView::AwaitingLookup,
            Phase::AwaitingContents { path } => PhaseView::AwaitingContents { path: path@ },
            Phase::Closed => PhaseView::Closed,
        }
    }
}

/// What happened on behalf of a connection.
#[derive(Clone, Debug, PartialEq, Eq)]
pub enum Event {
    /// The single read returned these bytes; none means the peer closed.
    Received(Vec<u8>),
    /// The single read failed.
    ReadFailed,
    /// The file system answered the lookups of the root and of the target
    /// path.
    Resolved { root: Lookup, target: Lookup },
    /// The file was read in full.
    Loaded(Vec<u8>),
    /// The file could not be read.
    LoadFailed,
}

/// The mathematical view of an [`Event`].
pub enum EventView {
    Received(Seq<u8>),
    ReadFailed,
    Resolved { root: LookupView, target: LookupView },
    Loaded(Seq<u8>),
    LoadFailed,
}

impl View for Event {
    type V = EventView;

    open spec fn view(&self) -> EventView {
        match self {
            Event::Received(bytes) => EventView::Received(bytes@),
            Event::ReadFailed => EventView::ReadFailed,
            Event::Resolved { root, target } => EventView::Resolved {
                root: root@,
                target: target@,
            },
            Event::Loaded(contents) => EventView::Loaded(contents@),
            Event::LoadFailed => EventView::LoadFailed,
        }
    }
}

/// What the owner of the connection does next.
#[derive(Clone, Debug, PartialEq, Eq)]
pub enum Action {
    /// Canonicalize both `root` and `target`, and report the two outcomes
    /// as [`Event::Resolved`].
    Canonicalize { root: String, target: String },
    /// Read the file at `path` and report the outcome as [`Event::Loaded`]
    /// or [`Event::LoadFailed`].
    ReadFile { path: String },
    /// Write the response, then close the connection.
    Respond(Response),
    /// Close the connection without writing anything.
    Close,
}

/// The mathematical view of an [`Action`].
pub enum ActionView {
    Canonicalize { root: Seq<char>, target: Seq<char> },
    ReadFile { path: Seq<char> },
    Respond(ResponseView),
    Close,
}

impl View for Action {
    type V = ActionView;

    open spec fn view(&self) -> ActionView {
        match self {
            Action::Canonicalize { root, target } => ActionView::Canonicalize {
                root: root@,
                target: target@,
            },
            Action::ReadFile { path } => ActionView::ReadFile { path: path@ },
            Action::Respond(response) => ActionView::Respond(response@),
            Action::Close => ActionView::Close,
        }
    }
}

/// The part of a read that is looked at: at most [`REQUEST_BUFFER_SIZE`]
/// bytes. A longer request is cut off there and not continued.
pub open spec fn request_window(bytes: Seq<u8>) -> Seq<u8> {
    if bytes.len() > REQUEST_BUFFER_SIZE {
        bytes.take(REQUEST_BUFFER_SIZE as int)
    } else {
        bytes
    }
}

/// The step taken once the target of a request is known: 404 when there is
/// none, otherwise the lookups of the root and of the target.
pub open spec fn on_target(target: Option<Seq<char>>, root: Seq<char>) -> (PhaseView, ActionView) {
    match target {
        None => (PhaseView::Closed, ActionView::Respond(plain(Status::NotFound))),
        Some(target) => (PhaseView::AwaitingLookup, ActionView::Canonicalize { root, target }),
    }
}

/// The step taken when the request has been read.
pub open spec fn on_request(bytes: Seq<u8>, root: Seq<char>, index_file: Seq<char>) -> (
    PhaseView,
    ActionView,
) {
    if bytes.len() == 0 {
        (PhaseView::Closed, ActionView::Close)
    } else {
        match request_target(lossy_text(request_window(bytes))) {
            None => (PhaseView::Closed, ActionView::Respond(plain(Status::BadRequest))),
            Some(path) => on_target(target_path(root, percent_decoded(path), index_file), root),
        }
    }
}

/// The step for a request that is settled without decoding anything: one
/// that is empty, or is valid UTF-8 and either malformed or asks for a path
/// that holds no `%`. For any other request this says nothing.
pub open spec fn settled_request(bytes: Seq<u8>, root: Seq<char>, index_file: Seq<char>) -> Option<
    (PhaseView, ActionView),
> {
    if bytes.len() == 0 {
        Some((PhaseView::Closed, ActionView::Close))
    } else if !valid_utf8(request_window(bytes)) {
        None
    } else {
        match request_target(decode_utf8(request_window(bytes))) {
            None => Some((PhaseView::Closed, ActionView::Respond(plain(Status::BadRequest)))),
            Some(path) => if path.contains('%') {
                None
            } else {
                Some(on_target(target_path(root, Some(path), index_file), root))
            },
        }
    }
}

/// The step taken when the file system has answered the two lookups.
pub open spec fn on_lookup(root: LookupView, target: LookupView) -> (PhaseView, ActionView) {
    match confined(root, target) {
        None => (PhaseView::Closed, ActionView::Respond(plain(Status::NotFound))),
        Some(path) => (PhaseView::AwaitingContents { path }, ActionView::ReadFile { path }),
    }
}

/// The rules of a connection: the phase that follows and the action to take
/// when `event` arrives in `phase`. An event that does not belong to the
/// phase closes the connection without a response.
pub open spec fn step(phase: PhaseView, event: EventView, root: Seq<char>, index_file: Seq<char>) -> (
    PhaseView,
    ActionView,
) {
    match (phase, event) {
        (PhaseView::AwaitingRequest, EventView::Received(bytes)) => on_request(
            bytes,
            root,
            index_file,
        ),
        (PhaseView::AwaitingLookup, EventView::Resolved { root: root_found, target }) => on_lookup(
            root_found,
            target,
        ),
        (PhaseView::AwaitingContents { path }, EventView::Loaded(contents)) => (
            PhaseView::Closed,
            ActionView::Respond(
                ResponseView {
                    status: Status::Success,
                    content_type: mime_type(path),
                    body: Some(contents),
                },
            ),
        ),
        (PhaseView::AwaitingContents { path }, EventView::LoadFailed) => (
            PhaseView::Closed,
            ActionView::Respond(plain(Status::InternalServerError)),
        ),
        _ => (PhaseView::Closed, ActionView::Close),
    }
}

/// Advances one connection by one event, as [`step`] prescribes.
///
/// `base_dir` is the root directory as it is configured, canonical or not,
/// and `index_file` the name served for `/`. The caller performs the
/// returned action and comes back with its outcome until the phase is
/// [`Phase::Closed`]. Where the request needs no decoding the answer is
/// fixed without any outside result, as [`settled_request`] says.
pub fn handle_client(phase: Phase, event: Event, base_dir: &str, index_file: &str) -> (r: (
    Phase,
    Action,
))
    ensures
        (r.0@, r.1@) == step(phase@, event@, base_dir@, index_file@),
        phase@ is AwaitingRequest ==> (event@ matches EventView::Received(bytes) ==> (
        settled_request(bytes, base_dir@, index_file@) matches Some(settled) ==> (r.0@, r.1@)
            == settled)),
{
    match (phase, event) {
        (Phase::AwaitingRequest, Event::Received(bytes)) => {
            if bytes.len() == 0 {
                return (Phase::Closed, Action::Close);
            }
            let mut bytes = bytes;
            if bytes.len() > REQUEST_BUFFER_SIZE {
                bytes.truncate(REQUEST_BUFFER_SIZE);
            }
            let text = text_of(bytes.as_slice());
            match parse_request_line(text.as_str()) {
                None => (Phase::Closed, Action::Respond(plain_response(Status::BadRequest))),
                Some(path) => match sanitize_path(base_dir, path.as_str(), index_file) {
                    None => (Phase::Closed, Action::Respond(plain_response(Status::NotFound))),
                    Some(target) => (
                        Phase::AwaitingLookup,
                        Action::Canonicalize { root: base_dir.to_owned(), target },
                    ),
                },
            }
        },
        (Phase::AwaitingLookup, Event::Resolved { root, target }) => match confine(root, target) {
            None => (Phase::Closed, Action::Respond(plain_response(Status::NotFound))),
            Some(path) => {
                let file = path.clone();
                (Phase::AwaitingContents { path }, Action::ReadFile { path: file })
            },
        },
        (Phase::AwaitingContents { path }, Event::Loaded(contents)) => {
            let response = Response {
                status: Status::Success,
                content_type: content_type(path.as_str()).to_owned(),
                body: Some(contents),
            };
            (Phase::Closed, Action::Respond(response))
        },
        (Phase::AwaitingContents { path }, Event::LoadFailed) => (
            Phase::Closed,
            Action::Respond(plain_response(Status::InternalServerError)),
        ),
        _ => (Phase::Closed, Action::Close),
    }
}

/// The resolver as a whole: the file that a requested path resolves to,
/// for a file system given as the function from a path to what a lookup of
/// it reports. The target is joined to the root as configured; it is
/// confined to the root's canonical path, which the file system gives.
pub open spec fn resolved(
    root: Seq<char>,
    requested: Seq<char>,
    index_file: Seq<char>,
    file_system: spec_fn(Seq<char>) -> LookupView,
) -> Option<Seq<char>> {
    match target_path(root, percent_decoded(requested), index_file) {
        Some(target) => confined(file_system(root), file_system(target)),
        None => None,
    }
}

/// Traversal safety of the resolver: whatever is requested and whatever the
/// file system holds, a path that canonicalizes outside the canonical root
/// resolves to nothing. `..` segments, absolute paths and symbolic links
/// are all resolved by canonicalization, so none of them leads out of the
/// root.
pub proof fn law_path_outside_root_is_rejected(
    root: Seq<char>,
    requested: Seq<char>,
    index_file: Seq<char>,
    file_system: spec_fn(Seq<char>) -> LookupView,
)
    ensures
        resolved(root, requested, index_file, file_system) matches Some(path) ==> (canonical_of(
            file_system(root),
        ) matches Some(canonical_root) && is_within(canonical_root, path)),
        target_path(root, percent_decoded(requested), index_file) matches Some(target) ==> (
        canonical_of(file_system(root)) matches Some(canonical_root) ==> (canonical_of(
            file_system(target),
        ) matches Some(canonical) ==> !is_within(canonical_root, canonical) ==> resolved(
            root,
            requested,
            index_file,
            file_system,
        ) is None)),
{
}

/// A request that names an existing regular file within the root resolves
/// to the canonical path of that file. The root may be given in any form
/// that the file system can canonicalize, a symbolic link included.
pub proof fn law_file_within_root_is_resolved(
    root: Seq<char>,
    requested: Seq<char>,
    index_file: Seq<char>,
    file_system: spec_fn(Seq<char>) -> LookupView,
    canonical: Seq<char>,
)
    requires
        target_path(root, percent_decoded(requested), index_file) matches Some(target)
            && file_system(target) == (LookupView::Found { canonical, regular_file: true }),
        canonical_of(file_system(root)) matches Some(canonical_root) && is_within(
            canonical_root,
            canonical,
        ),
    ensures
        resolved(root, requested, index_file, file_system) == Some(canonical),
{
}

/// Only existing regular files are resolved: a missing path, a directory
/// or a special file resolves to nothing, even within the root; and so
/// does everything when the root itself cannot be canonicalized.
pub proof fn law_only_regular_files_are_resolved(root: LookupView, target: LookupView)
    ensures
        confined(root, target) is Some ==> (target matches LookupView::Found {
            regular_file,
            ..
        } && regular_file),
        confined(root, target) is Some ==> root is Found,
{
}

/// The handler resolves as the resolver does: for a well-formed request for
/// `path`, the two steps from the request to the answer of the file system
/// end in reading the file that `path` resolves to, or in 404 when it
/// resolves to nothing.
pub proof fn law_handler_resolves_requested_path(
    bytes: Seq<u8>,
    path: Seq<char>,
    root: Seq<char>,
    index_file: Seq<char>,
    file_system: spec_fn(Seq<char>) -> LookupView,
)
    requires
        bytes.len() > 0,
        request_target(lossy_text(request_window(bytes))) == Some(path),
    ensures
        ({
            let first = step(
                PhaseView::AwaitingRequest,
                EventView::Received(bytes),
                root,
                index_file,
            );
            let answer = match first.1 {
                ActionView::Canonicalize { root: asked_root, target } => step(
                    first.0,
                    EventView::Resolved {
                        root: file_system(asked_root),
                        target: file_system(target),
                    },
                    root,
                    index_file,
                ),
                _ => first,
            };
            answer.1 == match resolved(root, path, index_file, file_system) {
                Some(file) => ActionView::ReadFile { path: file },
                None => ActionView::Respond(plain(Status::NotFound)),
            }
        }),
{
}

/// Traversal safety of the handler: a file is handed out for reading only
/// in answer to a lookup that found it within the canonical root, and it is
/// that file which the connection then waits for.
pub proof fn law_only_files_within_root_are_read(
    phase: PhaseView,
    event: EventView,
    root: Seq<char>,
    index_file: Seq<char>,
)
    ensures
        step(phase, event, root, index_file).1 matches ActionView::ReadFile { path } ==> (
        event matches EventView::Resolved { root: root_found, target } && (canonical_of(
            root_found,
        ) matches Some(canonical_root) && is_within(canonical_root, path) && confined(
            root_found,
            target,
        ) == Some(path) && step(phase, event, root, index_file).0
            == (PhaseView::AwaitingContents { path }))),
        step(phase, event, root, index_file).0 is AwaitingContents ==> step(
            phase,
            event,
            root,
            index_file,
        ).1 is ReadFile,
{
}

/// A request whose first line is malformed is answered with 400.
pub proof fn law_malformed_request_is_bad_request(
    bytes: Seq<u8>,
    root: Seq<char>,
    index_file: Seq<char>,
)
    requires
        bytes.len() > 0,
        request_target(lossy_text(request_window(bytes))) is None,
    ensures
        step(PhaseView::AwaitingRequest, EventView::Received(bytes), root, index_file) == (
            PhaseView::Closed,
            ActionView::Respond(plain(Status::BadRequest)),
        ),
{
}

/// A request that resolves to nothing is answered with 404, and the answer
/// does not tell why: a missing file, a path outside the root, a directory
/// and a path that cannot be decoded all get the same response.
pub proof fn law_unresolved_request_is_not_found(
    bytes: Seq<u8>,
    root_found: LookupView,
    target: LookupView,
    root: Seq<char>,
    index_file: Seq<char>,
)
    ensures
        confined(root_found, target) is None ==> step(
            PhaseView::AwaitingLookup,
            EventView::Resolved { root: root_found, target },
            root,
            index_file,
        ) == (PhaseView::Closed, ActionView::Respond(plain(Status::NotFound))),
        bytes.len() > 0 ==> (request_target(lossy_text(request_window(bytes))) matches Some(path)
            ==> target_path(root, percent_decoded(path), index_file) is None ==> step(
            PhaseView::AwaitingRequest,
            EventView::Received(bytes),
            root,
            index_file,
        ) == (PhaseView::Closed, ActionView::Respond(plain(Status::NotFound)))),
{
}

/// A file that was read is served whole and unchanged, with status 200 and
/// the content type of its extension; the body on the wire is the file.
pub proof fn law_loaded_file_is_served_unchanged(
    path: Seq<char>,
    contents: Seq<u8>,
    root: Seq<char>,
    index_file: Seq<char>,
)
    ensures
        step(
            PhaseView::AwaitingContents { path },
            EventView::Loaded(contents),
            root,
            index_file,
        ) matches (PhaseView::Closed, ActionView::Respond(response)) && (response.status
            == Status::Success && response.content_type == mime_type(path) && response.body
            == Some(contents) && response.wire() == encode_utf8(
            header_text(Status::Success.line(), mime_type(path), contents.len()),
        ) + contents),
{
}

/// Every connection is closed after at most three events, and a response
/// is the last thing that happens on it: the connection is closed exactly
/// when the action is to respond or to close.
pub proof fn law_connection_always_closes(
    first: EventView,
    second: EventView,
    third: EventView,
    root: Seq<char>,
    index_file: Seq<char>,
)
    ensures
        ({
            let a = step(PhaseView::AwaitingRequest, first, root, index_file);
            let b = step(a.0, second, root, index_file);
            let c = step(b.0, third, root, index_file);
            &&& c.0 == PhaseView::Closed
            &&& (a.0 == PhaseView::Closed <==> a.1 is Respond || a.1 is Close)
            &&& (b.0 == PhaseView::Closed <==> b.1 is Respond || b.1 is Close)
            &&& (c.1 is Respond || c.1 is Close)
        }),
{
}

/// A closed connection stays closed and nothing more is written to it.
pub proof fn law_closed_connection_stays_closed(
    event: EventView,
    root: Seq<char>,
    index_file: Seq<char>,
)
    ensures
        step(PhaseView::Closed, event, root, index_file) == (PhaseView::Closed, ActionView::Close),
{
}

/// The statuses that a connection is answered with are 200, 400, 404 and
/// 500. A request line with another method than `GET` is malformed and
/// gets 400, so 405 is never sent.
pub proof fn law_statuses_sent(
    phase: PhaseView,
    event: EventView,
    root: Seq<char>,
    index_file: Seq<char>,
)
    ensures
        step(phase, event, root, index_file).1 matches ActionView::Respond(response) ==> {
            ||| response.status == Status::Success
            ||| response.status == Status::BadRequest
            ||| response.status == Status::NotFound
            ||| response.status == Status::InternalServerError
        },
{
}

} // verus!
