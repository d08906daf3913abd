//! Daemon/viewer messages, their framing on the socket (a 4-byte big-endian
//! length, then the JSON body), and what each side does with a message.

use vstd::prelude::*;

verus! {

/// D-Bus well-known name of the daemon.
pub const DAEMON_BUS_NAME: &'static str = "io.github.dipakmdhrm.Fodder.Daemon";

/// D-Bus object path of the daemon.
pub const DAEMON_OBJECT_PATH: &'static str = "/io/github/dipakmdhrm/Fodder/Daemon";

/// D-Bus interface of the daemon: methods `PollNow()`, `SettingsChanged()`,
/// `Quit()`; signal `ItemsAdded(new_count, unread_total)`; property
/// `UnreadTotal`.
pub const DAEMON_INTERFACE: &'static str = "io.github.dipakmdhrm.Fodder.Daemon1";

/// The viewer's binary name.
pub const VIEWER_BIN: &'static str = "fodder";

/// The daemon's binary name.
pub const DAEMON_BIN: &'static str = "fodder-daemon";

/// Upper bound on a single frame (8 MiB): guards against a corrupt length
/// header triggering a huge allocation.
pub const MAX_FRAME_LEN: u32 = 8388608;

/// Messages exchanged between the daemon and the viewer.
#[derive(Debug, Clone, PartialEq, Eq)]
pub enum IpcMessage {
    /// Stale-socket probe sent by a would-be second daemon.
    Ping,
    /// Reply to [`IpcMessage::Ping`] from a live daemon.
    Pong,
    /// The viewer registers itself with the daemon on startup.
    ViewerHello,
    /// The viewer is shutting down.
    ViewerClosing,
    /// Poll now: one feed, or all when `feed_id` is `None`.
    RefreshNow { feed_id: Option<i64> },
    /// A resolved subscription the daemon should persist and start polling.
    SubscribeResolved { feed_url: String, title: String },
    /// The config file changed; the daemon should reload it.
    ReloadConfig,
    /// What the viewer is showing, so the daemon can restore it on the next
    /// open. `article_id`/`feed_id` are `None` when nothing is open.
    ReadingState { feed_id: Option<i64>, article_id: Option<i64>, webkit: bool },
    /// Raise/show the viewer window.
    OpenViewer,
    /// Navigate the viewer to a feed (and optionally an article).
    OpenAt { feed_id: i64, article_id: Option<i64> },
    /// The feed set or article data changed; the viewer should reload.
    FeedsChanged,
    Ack,
    Error(String),
}

/// Why a frame was refused.
#[derive(Debug, Clone, Copy, PartialEq, Eq, Structural)]
pub enum FrameError {
    /// A body to send is longer than [`MAX_FRAME_LEN`].
    MessageTooLong,
    /// A received header announces more than [`MAX_FRAME_LEN`].
    FrameTooLong,
}

impl FrameError {
    /// The error's text.
    pub fn message(&self) -> (s: &'static str)
        ensures
            *self == FrameError::MessageTooLong ==> s@ == "message exceeds max frame length"@,
            *self == FrameError::FrameTooLong ==> s@ == "frame length exceeds max"@,
    {
        match self {
            FrameError::MessageTooLong => "message exceeds max frame length",
            FrameError::FrameTooLong => "frame length exceeds max",
        }
    }
}

/// The four big-endian bytes of `n`.
pub open spec fn be_bytes(n: nat) -> Seq<u8> {
    seq![((n / 16777216) % 256) as u8, ((n / 65536) % 256) as u8, ((n / 256) % 256) as u8, (n % 256) as u8]
}

/// The number that four big-endian bytes spell.
pub open spec fn be_value(b: Seq<u8>) -> nat {
    b[0] as nat * 16777216 + b[1] as nat * 65536 + b[2] as nat * 256 + b[3] as nat
}

/// The frame of a body: its length in four big-endian bytes, then the body.
pub open spec fn spec_frame(body: Seq<u8>) -> Seq<u8> {
    be_bytes(body.len()) + body
}

/// Frames a message body for the socket; a body longer than
/// [`MAX_FRAME_LEN`] is refused.
pub fn encode_frame(body: &[u8]) -> (r: Result<Vec<u8>, FrameError>)
    ensures
        body@.len() > MAX_FRAME_LEN ==> r == Err::<Vec<u8>, FrameError>(FrameError::MessageTooLong),
        body@.len() <= MAX_FRAME_LEN ==> r is Ok && r->Ok_0@ == spec_frame(body@),
{
    let n = body.len();
    if n > MAX_FRAME_LEN as usize {
        return Err(FrameError::MessageTooLong);
    }
    let len = n as u32;
    let mut out: Vec<u8> = Vec::new();
    out.push(((len / 16777216) % 256) as u8);
    out.push(((len / 65536) % 256) as u8);
    out.push(((len / 256) % 256) as u8);
    out.push((len % 256) as u8);
    let mut i: usize = 0;
    while i < n
        invariant
            n == body@.len(),
            n <= MAX_FRAME_LEN,
            i <= n,
            out@ == be_bytes(n as nat) + body@.take(i as int),
        decreases n - i,
    {
        out.push(body[i]);
        i = i + 1;
        assert(out@ =~= be_bytes(n as nat) + body@.take(i as int));
    }
    assert(body@.take(n as int) =~= body@);
    Ok(out)
}

/// The body length that a frame header announces; more than
/// [`MAX_FRAME_LEN`] is refused.
pub fn decode_frame_len(header: [u8; 4]) -> (r: Result<usize, FrameError>)
    ensures
        be_value(header@) > MAX_FRAME_LEN ==> r == Err::<usize, FrameError>(FrameError::FrameTooLong),
        be_value(header@) <= MAX_FRAME_LEN ==> r == Ok::<usize, FrameError>(be_value(header@) as usize),
{
    let len: u32 = (header[0] as u32) * 16777216 + (header[1] as u32) * 65536 + (header[2] as u32) * 256 + (header[3] as u32);
    if len > MAX_FRAME_LEN {
        return Err(FrameError::FrameTooLong);
    }
    Ok(len as usize)
}

/// A header announces exactly the length it was made from: reading back the
/// first four bytes of a frame gives the body's length, and the rest of the
/// frame is the body.
pub proof fn lemma_frame_roundtrip(body: Seq<u8>)
    requires
        body.len() <= MAX_FRAME_LEN,
    ensures
        be_value(spec_frame(body).take(4)) == body.len(),
        spec_frame(body).skip(4) == body,
        spec_frame(body).len() == body.len() + 4,
{
    let n = body.len();
    let f = spec_frame(body);
    assert(f.take(4) =~= be_bytes(n));
    assert(f.skip(4) =~= body);
    assert(be_value(be_bytes(n)) == n) by (nonlinear_arith)
        requires
            n <= 8388608,
            be_value(be_bytes(n)) == ((n / 16777216) % 256) * 16777216 + ((n / 65536) % 256) * 65536 + ((n / 256) % 256) * 256
                + n % 256,
    ;
}

/// A request to bring the viewer to the foreground (from a notification
/// click, a second launch, or a tray action).
#[derive(Debug, Clone, Copy, PartialEq, Eq, Structural)]
pub enum OpenRequest {
    /// Just show the window.
    Show,
    /// Show the window and navigate to a feed / article.
    At { feed_id: i64, article_id: Option<i64> },
}

/// The IPC message that raises/navigates the viewer for a request.
pub fn message_for(req: &OpenRequest) -> (m: IpcMessage)
    ensures
        match *req {
            OpenRequest::Show => m == IpcMessage::OpenViewer,
            OpenRequest::At { feed_id, article_id } => m == IpcMessage::OpenAt { feed_id, article_id },
        },
{
    match req {
        OpenRequest::Show => IpcMessage::OpenViewer,
        OpenRequest::At { feed_id, article_id } => IpcMessage::OpenAt { feed_id: *feed_id, article_id: *article_id },
    }
}

/// Events delivered from the daemon to the viewer's UI thread.
#[derive(Debug, Clone, Copy, PartialEq, Eq, Structural)]
pub enum FromDaemon {
    /// Raise/show the window.
    Open,
    /// Navigate to a feed / article.
    OpenAt { feed_id: i64, article_id: Option<i64> },
    /// The feed set or articles changed; reload from the DB.
    FeedsChanged,
    /// The daemon says another viewer already owns the session; exit.
    Duplicate,
    /// The connection to the daemon was lost (or never established).
    Disconnected,
}

/// Map a daemon message to a UI event, or `None` to ignore it. An error reply
/// (to the viewer's hello) means that a viewer already exists.
pub fn classify(msg: IpcMessage) -> (e: Option<FromDaemon>)
    ensures
        match msg {
            IpcMessage::OpenViewer => e == Some(FromDaemon::Open),
            IpcMessage::OpenAt { feed_id, article_id } => e == Some(FromDaemon::OpenAt { feed_id, article_id }),
            IpcMessage::FeedsChanged => e == Some(FromDaemon::FeedsChanged),
            IpcMessage::Error(_) => e == Some(FromDaemon::Duplicate),
            _ => e is None,
        },
{
    match msg {
        IpcMessage::OpenViewer => Some(FromDaemon::Open),
        IpcMessage::OpenAt { feed_id, article_id } => Some(FromDaemon::OpenAt { feed_id, article_id }),
        IpcMessage::FeedsChanged => Some(FromDaemon::FeedsChanged),
        IpcMessage::Error(_) => Some(FromDaemon::Duplicate),
        _ => None,
    }
}

/// What the daemon does with one inbound message.
#[derive(Debug)]
pub enum Reaction {
    /// Send this reply.
    Reply(IpcMessage),
    /// Register the connection as the viewer, reply `Ack`, and deliver any
    /// deferred open request.
    RegisterViewer,
    /// A viewer is already connected: raise it, tell this one
    /// `Error("viewer already running")`, and close.
    RejectDuplicate,
    /// Close the connection.
    Close,
    /// Request a poll (one feed, or all due), reply `Ack`.
    Refresh(Option<i64>),
    /// Store the subscription, then reply with the outcome.
    Subscribe { feed_url: String, title: String },
    /// Reload the configuration, reply `Ack`.
    ReloadConfig,
    /// Remember what the viewer shows; no reply.
    RememberReading { feed_id: Option<i64>, article_id: Option<i64>, webkit: bool },
    /// Open or raise the viewer, reply `Ack`.
    Open(OpenRequest),
    /// Not expected inbound; ignore.
    Ignore,
}

/// What the daemon does with an inbound message, given whether a viewer is
/// connected already.
pub fn reaction_to(msg: IpcMessage, viewer_connected: bool) -> (r: Reaction)
    ensures
        match msg {
            IpcMessage::Ping => r matches Reaction::Reply(m) && m == IpcMessage::Pong,
            IpcMessage::ViewerHello => if viewer_connected { r is RejectDuplicate } else { r is RegisterViewer },
            IpcMessage::ViewerClosing => r is Close,
            IpcMessage::RefreshNow { feed_id } => r matches Reaction::Refresh(f) && f == feed_id,
            IpcMessage::SubscribeResolved { feed_url, title } => r matches Reaction::Subscribe { feed_url: u, title: t }
                && u == feed_url && t == title,
            IpcMessage::ReloadConfig => r is ReloadConfig,
            IpcMessage::ReadingState { feed_id, article_id, webkit } => r matches Reaction::RememberReading {
                feed_id: f,
                article_id: a,
                webkit: w,
            } && f == feed_id && a == article_id && w == webkit,
            IpcMessage::OpenViewer => r matches Reaction::Open(o) && o == OpenRequest::Show,
            IpcMessage::OpenAt { feed_id, article_id } => r matches Reaction::Open(o) && o == (OpenRequest::At { feed_id, article_id }),
            _ => r is Ignore,
        },
{
    match msg {
        IpcMessage::Ping => Reaction::Reply(IpcMessage::Pong),
        IpcMessage::ViewerHello => if viewer_connected {
            Reaction::RejectDuplicate
        } else {
            Reaction::RegisterViewer
        },
        IpcMessage::ViewerClosing => Reaction::Close,
        IpcMessage::RefreshNow { feed_id } => Reaction::Refresh(feed_id),
        IpcMessage::SubscribeResolved { feed_url, title } => Reaction::Subscribe { feed_url, title },
        IpcMessage::ReloadConfig => Reaction::ReloadConfig,
        IpcMessage::ReadingState { feed_id, article_id, webkit } => Reaction::RememberReading { feed_id, article_id, webkit },
        IpcMessage::OpenViewer => Reaction::Open(OpenRequest::Show),
        IpcMessage::OpenAt { feed_id, article_id } => Reaction::Open(OpenRequest::At { feed_id, article_id }),
        _ => Reaction::Ignore,
    }
}

/// The text a duplicate viewer is told before its connection closes.
pub open spec fn duplicate_viewer_text() -> Seq<char> {
    "viewer already running"@
}

/// The reply that a reaction sends straight away: the given reply, `Ack`
/// for registering a viewer, a refresh, a reload or an open request, and the
/// duplicate-viewer error; nothing for closing, remembering, ignoring, or a
/// subscription (whose reply waits for the store, see [`subscribe_reply`]).
pub fn immediate_reply(r: Reaction) -> (m: Option<IpcMessage>)
    ensures
        match r {
            Reaction::Reply(x) => m == Some(x),
            Reaction::RegisterViewer | Reaction::Refresh(_) | Reaction::ReloadConfig | Reaction::Open(_) => m
                == Some(IpcMessage::Ack),
            Reaction::RejectDuplicate => m matches Some(IpcMessage::Error(t)) && t@ == duplicate_viewer_text(),
            _ => m is None,
        },
{
    match r {
        Reaction::Reply(x) => Some(x),
        Reaction::RegisterViewer | Reaction::Refresh(_) | Reaction::ReloadConfig | Reaction::Open(_) => Some(
            IpcMessage::Ack,
        ),
        Reaction::RejectDuplicate => {
            let mut t = String::new();
            crate::text::push_str(&mut t, "viewer already running");
            Some(IpcMessage::Error(t))
        },
        _ => None,
    }
}

/// The reply to a subscription: `Ack` once stored, else the error.
pub fn subscribe_reply(stored: Result<i64, String>) -> (m: IpcMessage)
    ensures
        stored is Ok ==> m == IpcMessage::Ack,
        stored matches Err(e) ==> m matches IpcMessage::Error(t) && t@ == "subscribe failed: "@ + e@,
{
    match stored {
        Ok(_) => IpcMessage::Ack,
        Err(e) => {
            let mut t = String::new();
            crate::text::push_str(&mut t, "subscribe failed: ");
            crate::text::push_str(&mut t, e.as_str());
            IpcMessage::Error(t)
        },
    }
}

/// Whether a probe of the daemon socket found a live daemon: it answered
/// our `Ping` with `Pong`. Anything else means a stale socket.
pub fn answers_alive(reply: &Option<IpcMessage>) -> (alive: bool)
    ensures
        alive == (*reply == Some(IpcMessage::Pong)),
{
    match reply {
        Some(IpcMessage::Pong) => true,
        _ => false,
    }
}

} // verus!
