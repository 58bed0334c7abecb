//! Capture sessions: what is asked of the desktop portal, what its answer
//! makes, and who holds the transport descriptor at every moment.
//!
//! A session owns one descriptor. It is lent to the media transport at most
//! once, and it is closed exactly once, when the session ends. A session
//! comes to one negotiated format at most, and keeps it.

use vstd::prelude::*;
use crate::format::NegotiatedFormat;

verus! {

/// A kind of surface that can be captured.
#[derive(Clone, Copy, Debug, PartialEq, Eq, Structural)]
pub enum SourceKind {
    Monitor,
    Window,
}

/// A set of source kinds.
#[derive(Clone, Copy, Debug, PartialEq, Eq, Structural)]
pub struct SourceKinds {
    pub monitor: bool,
    pub window: bool,
}

impl SourceKinds {
    pub open spec fn allows(self, kind: SourceKind) -> bool {
        match kind {
            SourceKind::Monitor => self.monitor,
            SourceKind::Window => self.window,
        }
    }

    /// The set as the portal takes it: bit 0 for monitors, bit 1 for windows.
    pub open spec fn mask(self) -> u32 {
        if self.monitor && self.window {
            3
        } else if self.window {
            2
        } else if self.monitor {
            1
        } else {
            0
        }
    }

    /// The kind to presume of a stream whose kind the portal does not tell:
    /// a window when only windows were asked for, a monitor otherwise.
    pub open spec fn presumed(self) -> SourceKind {
        if self.window && !self.monitor {
            SourceKind::Window
        } else {
            SourceKind::Monitor
        }
    }

    pub fn presumed_kind(&self) -> (r: SourceKind)
        ensures
            r == self.presumed(),
    {
        if self.window && !self.monitor {
            SourceKind::Window
        } else {
            SourceKind::Monitor
        }
    }

    pub fn contains(&self, kind: SourceKind) -> (r: bool)
        ensures
            r == self.allows(kind),
    {
        match kind {
            SourceKind::Monitor => self.monitor,
            SourceKind::Window => self.window,
        }
    }

    pub fn bits(&self) -> (r: u32)
        ensures
            r == self.mask(),
    {
        let monitor: u32 = if self.monitor {
            1
        } else {
            0
        };
        let window: u32 = if self.window {
            2
        } else {
            0
        };
        monitor + window
    }
}

/// What is asked of the portal: which kinds of surface the user may pick
/// from, and whether more than one may be picked.
#[derive(Clone, Copy, Debug, PartialEq, Eq, Structural)]
pub struct SessionRequest {
    pub kinds: SourceKinds,
    pub allow_multiple: bool,
}

/// The request of a caster: monitors and windows, as many as the user likes.
pub open spec fn casting_request() -> SessionRequest {
    SessionRequest { kinds: SourceKinds { monitor: true, window: true }, allow_multiple: true }
}

impl SessionRequest {
    pub fn casting() -> (r: SessionRequest)
        ensures
            r == casting_request(),
    {
        SessionRequest { kinds: SourceKinds { monitor: true, window: true }, allow_multiple: true }
    }
}

/// One surface of a granted session.
#[derive(Clone, Copy, Debug, PartialEq, Eq, Structural)]
pub struct StreamDescriptor {
    /// The node by which the transport routes a connection to this surface.
    pub node_id: u32,
    pub source_kind: SourceKind,
}

/// The portal's answer to a request, in plain values.
#[derive(Debug)]
pub enum PortalReply {
    /// The user picked surfaces; the portal opened a transport descriptor.
    Granted { fd: i32, streams: Vec<StreamDescriptor> },
    /// The user or the desktop said no.
    Declined,
    /// The portal could not be reached, or did not answer in its protocol.
    Unreachable,
}

/// Why no session was made.
#[derive(Clone, Copy, Debug, PartialEq, Eq, Structural)]
pub enum CaptureError {
    Denied,
    PortalUnavailable,
}

/// What the operator is told about an error.
pub open spec fn capture_error_text(error: CaptureError) -> Seq<char> {
    match error {
        CaptureError::Denied => "The screen cast request was declined"@,
        CaptureError::PortalUnavailable => "The screen cast portal could not be reached"@,
    }
}

impl CaptureError {
    pub fn message(&self) -> (r: &'static str)
        ensures
            r@ == capture_error_text(*self),
    {
        match self {
            CaptureError::Denied => "The screen cast request was declined",
            CaptureError::PortalUnavailable => "The screen cast portal could not be reached",
        }
    }
}

/// Who holds the transport descriptor of a session.
#[derive(Clone, Copy, Debug, PartialEq, Eq, Structural)]
pub enum Custody {
    /// The session holds it; no transport has been opened.
    Held,
    /// The transport was opened on it and uses it.
    Lent,
    /// The session has ended and the descriptor is closed.
    Closed,
}

/// What a transport needs to connect: the descriptor and the node of the
/// session's first stream.
#[derive(Clone, Copy, Debug, PartialEq, Eq, Structural)]
pub struct TransportTarget {
    pub fd: i32,
    pub node_id: u32,
}

/// What ending a session asks of its caller.
#[derive(Clone, Copy, Debug, PartialEq, Eq, Structural)]
pub enum Teardown {
    /// Close this descriptor; no transport was ever opened on it.
    CloseDescriptor(i32),
    /// Stop the capture runtime and drop its transport, which closes this
    /// descriptor and gives up every buffer of its pool.
    StopTransport(i32),
    /// The session had ended before; there is nothing to close.
    Nothing,
}

impl Teardown {
    /// Whether this teardown closes a descriptor.
    pub open spec fn closes(self) -> bool {
        self != Teardown::Nothing
    }
}

/// A session, mathematically.
pub struct SessionModel {
    pub fd: i32,
    pub streams: Seq<StreamDescriptor>,
    pub request: SessionRequest,
    pub custody: Custody,
    /// The format that was negotiated on the session's transport, once one
    /// was.
    pub format: Option<NegotiatedFormat>,
}

impl SessionModel {
    /// A session has an open descriptor number and at least one stream.
    pub open spec fn valid(self) -> bool {
        self.fd >= 0 && self.streams.len() > 0
    }

    pub open spec fn target(self) -> TransportTarget {
        TransportTarget { fd: self.fd, node_id: self.streams[0].node_id }
    }

    /// The session after an attempt to open the transport.
    pub open spec fn after_open(self) -> SessionModel {
        if self.custody == Custody::Held {
            SessionModel { custody: Custody::Lent, ..self }
        } else {
            self
        }
    }

    /// What an attempt to open the transport hands out: the target the first
    /// time, nothing afterwards and nothing once the session has ended.
    pub open spec fn opened(self) -> Option<TransportTarget> {
        if self.custody == Custody::Held {
            Some(self.target())
        } else {
            None
        }
    }

    /// Whether a negotiated format can be recorded now: the transport is
    /// open and no format was recorded before.
    pub open spec fn can_record(self) -> bool {
        self.custody == Custody::Lent && self.format is None
    }

    pub open spec fn after_record(self, format: NegotiatedFormat) -> SessionModel {
        if self.can_record() {
            SessionModel { format: Some(format), ..self }
        } else {
            self
        }
    }

    /// The format in which the session's frames are to be read: the recorded
    /// one, as long as the session has not ended.
    pub open spec fn negotiated(self) -> Option<NegotiatedFormat> {
        if self.custody == Custody::Closed {
            None
        } else {
            self.format
        }
    }

    pub open spec fn after_end(self) -> SessionModel {
        SessionModel { custody: Custody::Closed, ..self }
    }

    pub open spec fn teardown(self) -> Teardown {
        match self.custody {
            Custody::Held => Teardown::CloseDescriptor(self.fd),
            Custody::Lent => Teardown::StopTransport(self.fd),
            Custody::Closed => Teardown::Nothing,
        }
    }
}

/// What a reply makes of a request: a fresh session on a grant that has an
/// open descriptor and names a stream, and an error otherwise. A grant
/// without a descriptor counts as an unavailable portal, a grant without
/// streams as a refusal.
pub open spec fn session_outcome(
    request: SessionRequest,
    reply: PortalReply,
) -> Result<SessionModel, CaptureError> {
    match reply {
        PortalReply::Declined => Err(CaptureError::Denied),
        PortalReply::Unreachable => Err(CaptureError::PortalUnavailable),
        PortalReply::Granted { fd, streams } => {
            if fd < 0 {
                Err(CaptureError::PortalUnavailable)
            } else if streams@.len() == 0 {
                Err(CaptureError::Denied)
            } else {
                Ok(
                    SessionModel {
                        fd,
                        streams: streams@,
                        request,
                        custody: Custody::Held,
                        format: None,
                    },
                )
            }
        },
    }
}

/// The descriptor that a reply leaves with the caller: the one of a grant
/// that makes no session although its descriptor is open.
pub open spec fn stray_descriptor_of(reply: PortalReply) -> Option<i32> {
    match reply {
        PortalReply::Granted { fd, streams } => {
            if fd >= 0 && streams@.len() == 0 {
                Some(fd)
            } else {
                None
            }
        },
        _ => None,
    }
}

impl PortalReply {
    /// The descriptor that the caller must close itself, because the reply
    /// makes no session that would own it.
    pub fn stray_descriptor(&self) -> (r: Option<i32>)
        ensures
            r == stray_descriptor_of(*self),
    {
        match self {
            PortalReply::Granted { fd, streams } => {
                if *fd >= 0 && streams.len() == 0 {
                    Some(*fd)
                } else {
                    None
                }
            },
            _ => None,
        }
    }
}

/// An active screen-share grant.
#[derive(Debug)]
pub struct CaptureSession {
    fd: i32,
    streams: Vec<StreamDescriptor>,
    request: SessionRequest,
    custody: Custody,
    format: Option<NegotiatedFormat>,
}

impl View for CaptureSession {
    type V = SessionModel;

    closed spec fn view(&self) -> SessionModel {
        SessionModel {
            fd: self.fd,
            streams: self.streams@,
            request: self.request,
            custody: self.custody,
            format: self.format,
        }
    }
}

/// Makes a session from the portal's reply to `request`.
pub fn request_session(
    request: &SessionRequest,
    reply: PortalReply,
) -> (r: Result<CaptureSession, CaptureError>)
    ensures
        match session_outcome(*request, reply) {
            Ok(model) => r matches Ok(session) && session@ == model,
            Err(error) => r matches Err(e) && e == error,
        },
{
    match reply {
        PortalReply::Declined => Err(CaptureError::Denied),
        PortalReply::Unreachable => Err(CaptureError::PortalUnavailable),
        PortalReply::Granted { fd, streams } => {
            if fd < 0 {
                Err(CaptureError::PortalUnavailable)
            } else if streams.len() == 0 {
                Err(CaptureError::Denied)
            } else {
                Ok(
                    CaptureSession {
                        fd,
                        streams,
                        request: *request,
                        custody: Custody::Held,
                        format: None,
                    },
                )
            }
        },
    }
}

/// Makes a caster's session from the portal's reply to a caster's request.
pub fn start_casting(reply: PortalReply) -> (r: Result<CaptureSession, CaptureError>)
    ensures
        match session_outcome(casting_request(), reply) {
            Ok(model) => r matches Ok(session) && session@ == model,
            Err(error) => r matches Err(e) && e == error,
        },
{
    let request = SessionRequest::casting();
    request_session(&request, reply)
}

impl CaptureSession {
    #[verifier::type_invariant]
    spec fn holds_valid_session(self) -> bool {
        self@.valid()
    }

    /// Opens the transport: hands out the target the first time it is asked
    /// on a session that has not ended, and nothing ever after.
    pub fn open_transport(&mut self) -> (r: Option<TransportTarget>)
        ensures
            r == old(self)@.opened(),
            final(self)@ == old(self)@.after_open(),
    {
        proof {
            use_type_invariant(&*self);
        }
        match self.custody {
            Custody::Held => {
                let target = TransportTarget { fd: self.fd, node_id: self.streams[0].node_id };
                self.custody = Custody::Lent;
                Some(target)
            },
            _ => None,
        }
    }

    /// Ends the session and says how its descriptor is to be closed. Only the
    /// first call on a session closes anything.
    pub fn end(&mut self) -> (r: Teardown)
        ensures
            r == old(self)@.teardown(),
            final(self)@ == old(self)@.after_end(),
    {
        proof {
            use_type_invariant(&*self);
        }
        let teardown = match self.custody {
            Custody::Held => Teardown::CloseDescriptor(self.fd),
            Custody::Lent => Teardown::StopTransport(self.fd),
            Custody::Closed => Teardown::Nothing,
        };
        self.custody = Custody::Closed;
        teardown
    }

    /// Records the format that a negotiation on this session's transport
    /// has settled. Returns whether it was recorded: the first format on an
    /// open transport is, and no other.
    pub fn record_format(&mut self, format: NegotiatedFormat) -> (r: bool)
        ensures
            r == old(self)@.can_record(),
            final(self)@ == old(self)@.after_record(format),
    {
        proof {
            use_type_invariant(&*self);
        }
        let open = match self.custody {
            Custody::Lent => true,
            _ => false,
        };
        if open && self.format.is_none() {
            self.format = Some(format);
            true
        } else {
            false
        }
    }

    /// The format in which the frames of this session are to be read. There
    /// is none before a negotiation has completed, and none after the
    /// session has ended.
    pub fn negotiated(&self) -> (r: Option<NegotiatedFormat>)
        ensures
            r == self@.negotiated(),
    {
        match self.custody {
            Custody::Closed => None,
            _ => self.format,
        }
    }

    pub fn custody(&self) -> (r: Custody)
        ensures
            r == self@.custody,
    {
        self.custody
    }

    /// Whether the session has not ended.
    pub fn is_active(&self) -> (r: bool)
        ensures
            r == (self@.custody != Custody::Closed),
    {
        match self.custody {
            Custody::Closed => false,
            _ => true,
        }
    }

    /// The streams of the grant, in the portal's order; never empty.
    pub fn streams(&self) -> (r: &Vec<StreamDescriptor>)
        ensures
            r@ == self@.streams,
            r@.len() > 0,
    {
        proof {
            use_type_invariant(self);
        }
        &self.streams
    }

    /// The request that the grant answered.
    pub fn request(&self) -> (r: SessionRequest)
        ensures
            r == self@.request,
    {
        self.request
    }
}

/// What can be done to a session.
pub enum SessionOp {
    OpenTransport,
    Record(NegotiatedFormat),
    End,
}

impl SessionModel {
    pub open spec fn apply(self, op: SessionOp) -> SessionModel {
        match op {
            SessionOp::OpenTransport => self.after_open(),
            SessionOp::Record(format) => self.after_record(format),
            SessionOp::End => self.after_end(),
        }
    }

    /// Whether `op`, done in this state, closes the descriptor.
    pub open spec fn closes_on(self, op: SessionOp) -> bool {
        op is End && self.teardown().closes()
    }

    /// Whether `op`, done in this state, hands the descriptor to a transport.
    pub open spec fn lends_on(self, op: SessionOp) -> bool {
        op is OpenTransport && self.opened() is Some
    }

    /// The session after a sequence of operations, first to last.
    pub open spec fn after(self, ops: Seq<SessionOp>) -> SessionModel
        decreases ops.len(),
    {
        if ops.len() == 0 {
            self
        } else {
            self.after(ops.drop_last()).apply(ops.last())
        }
    }

    /// How often a sequence of operations closes the descriptor.
    pub open spec fn closings(self, ops: Seq<SessionOp>) -> nat
        decreases ops.len(),
    {
        if ops.len() == 0 {
            0
        } else {
            let count: nat = if self.after(ops.drop_last()).closes_on(ops.last()) {
                1
            } else {
                0
            };
            self.closings(ops.drop_last()) + count
        }
    }

    /// How often a sequence of operations hands the descriptor to a
    /// transport.
    pub open spec fn lendings(self, ops: Seq<SessionOp>) -> nat
        decreases ops.len(),
    {
        if ops.len() == 0 {
            0
        } else {
            let count: nat = if self.after(ops.drop_last()).lends_on(ops.last()) {
                1
            } else {
                0
            };
            self.lendings(ops.drop_last()) + count
        }
    }
}

/// Over any sequence of operations on a fresh session, the descriptor is
/// closed once if the sequence ends the session and not at all if it does
/// not; it is never closed twice. The session has ended exactly when the
/// descriptor has been closed.
pub proof fn descriptor_is_closed_exactly_once(session: SessionModel, ops: Seq<SessionOp>)
    requires
        session.custody == Custody::Held,
    ensures
        session.closings(ops) == (if ops.contains(SessionOp::End) {
            1nat
        } else {
            0nat
        }),
        session.after(ops).custody == Custody::Closed <==> ops.contains(SessionOp::End),
    decreases ops.len(),
{
    if ops.len() > 0 {
        let shorter = ops.drop_last();
        descriptor_is_closed_exactly_once(session, shorter);
        if shorter.contains(SessionOp::End) {
            let i = choose|i: int| 0 <= i < shorter.len() && shorter[i] == SessionOp::End;
            assert(ops[i] == SessionOp::End);
        }
        if ops.contains(SessionOp::End) && !(ops.last() is End) {
            let i = choose|i: int| 0 <= i < ops.len() && ops[i] == SessionOp::End;
            assert(shorter[i] == SessionOp::End);
        }
        if ops.last() is End {
            assert(ops[ops.len() - 1] == SessionOp::End);
        }
    } else {
        assert(!ops.contains(SessionOp::End));
    }
}

/// Over any sequence of operations on a fresh session, the descriptor is
/// handed to a transport at most once, and never after the session has
/// ended.
pub proof fn descriptor_is_lent_at_most_once(session: SessionModel, ops: Seq<SessionOp>)
    requires
        session.custody == Custody::Held,
    ensures
        session.lendings(ops) <= 1,
        session.lendings(ops) == 1 ==> session.after(ops).custody != Custody::Held,
        session.after(ops).custody == Custody::Lent ==> session.lendings(ops) == 1,
    decreases ops.len(),
{
    if ops.len() > 0 {
        descriptor_is_lent_at_most_once(session, ops.drop_last());
    }
}

/// A session records one format at most: a recorded format stays what it is
/// over every sequence of operations, and none is recorded on a session
/// whose transport was never opened.
pub proof fn negotiated_format_is_set_once(session: SessionModel, ops: Seq<SessionOp>)
    ensures
        session.format is Some ==> session.after(ops).format == session.format,
        session.after(ops).format matches Some(format) ==> session.format == Some(format)
            || ops.contains(SessionOp::Record(format)),
        session.format is None && session.after(ops).custody == Custody::Held ==> session.after(
            ops,
        ).format is None,
    decreases ops.len(),
{
    if ops.len() > 0 {
        let shorter = ops.drop_last();
        negotiated_format_is_set_once(session, shorter);
        if let Some(format) = session.after(ops).format {
            if session.format != Some(format) {
                if shorter.contains(SessionOp::Record(format)) {
                    let i = choose|i: int|
                        0 <= i < shorter.len() && shorter[i] == SessionOp::Record(format);
                    assert(ops[i] == SessionOp::Record(format));
                } else {
                    assert(ops[ops.len() - 1] == SessionOp::Record(format));
                }
            }
        }
    }
}

/// A sequence of operations changes neither the descriptor, nor the streams,
/// nor the request of a session.
pub proof fn operations_keep_the_grant(session: SessionModel, ops: Seq<SessionOp>)
    ensures
        session.after(ops).fd == session.fd,
        session.after(ops).streams == session.streams,
        session.after(ops).request == session.request,
    decreases ops.len(),
{
    if ops.len() > 0 {
        operations_keep_the_grant(session, ops.drop_last());
    }
}

/// An open descriptor that comes with a reply has exactly one owner: the
/// session that the reply makes, or else the caller, who is told to close it.
pub proof fn replied_descriptor_has_one_owner(request: SessionRequest, reply: PortalReply)
    ensures
        reply matches PortalReply::Granted { fd, .. } && fd >= 0 ==> (session_outcome(
            request,
            reply,
        ) is Ok <==> stray_descriptor_of(reply) is None),
        session_outcome(request, reply) matches Ok(session) ==> reply matches PortalReply::Granted {
            fd,
            ..
        } && session.fd == fd && session.valid() && session.custody == Custody::Held
            && session.format is None,
        stray_descriptor_of(reply) matches Some(stray) ==> reply matches PortalReply::Granted {
            fd,
            ..
        } && stray == fd && session_outcome(request, reply) is Err,
{
}

} // verus!
