//! Publication: the encoding pipeline of a mount, the mount's life between
//! its clients, and the server's start.

use vstd::prelude::*;
use vstd::string::*;
use crate::text::{append_decimal, decimal};

verus! {

/// The bitstream that a mount's pipeline produces.
#[derive(Clone, Copy, Debug, PartialEq, Eq, Structural)]
pub enum Codec {
    H264,
}

/// How a mount encodes and packs its video.
#[derive(Clone, Copy, Debug, PartialEq, Eq, Structural)]
pub struct EncodingPipelineSpec {
    pub codec: Codec,
    /// Tune the encoder for no buffering delay.
    pub zero_latency: bool,
    /// Seconds between two sendings of the stream's configuration unit.
    pub config_interval: u32,
    /// The payload type that the packets carry.
    pub payload_type: u8,
}

/// The pipeline of a mount that was given none of its own: H.264 tuned for
/// zero latency, the configuration sent every second, payload type 96.
pub open spec fn default_pipeline() -> EncodingPipelineSpec {
    EncodingPipelineSpec {
        codec: Codec::H264,
        zero_latency: true,
        config_interval: 1,
        payload_type: 96,
    }
}

/// The pipeline as the media server takes it: the elements from source to
/// payloader, joined by `!`, the payloader named `pay0`.
pub open spec fn launch_line_of(spec: EncodingPipelineSpec) -> Seq<char> {
    "videotestsrc ! x264enc"@ + (if spec.zero_latency {
        " tune=zerolatency"@
    } else {
        Seq::<char>::empty()
    }) + " ! rtph264pay config-interval="@ + decimal(spec.config_interval as nat)
        + " name=pay0 pt="@ + decimal(spec.payload_type as nat)
}

impl EncodingPipelineSpec {
    pub fn default_spec() -> (r: EncodingPipelineSpec)
        ensures
            r == default_pipeline(),
    {
        EncodingPipelineSpec {
            codec: Codec::H264,
            zero_latency: true,
            config_interval: 1,
            payload_type: 96,
        }
    }

    /// The line that launches this pipeline.
    pub fn launch_line(&self) -> (r: String)
        ensures
            r@ == launch_line_of(*self),
    {
        let mut line = String::from_str("videotestsrc ! x264enc");
        if self.zero_latency {
            line.append(" tune=zerolatency");
        } else {
            assert(line@ + Seq::<char>::empty() =~= line@);
        }
        line.append(" ! rtph264pay config-interval=");
        append_decimal(&mut line, self.config_interval);
        line.append(" name=pay0 pt=");
        append_decimal(&mut line, self.payload_type as u32);
        line
    }
}

/// Why the server did not start.
#[derive(Clone, Copy, Debug, PartialEq, Eq, Structural)]
pub enum ServeError {
    /// The server has no registry of mounts.
    NoMountTable,
    /// The address or port that was asked for could not be bound.
    BindFailed,
}

/// What the operator is told about an error.
pub open spec fn serve_error_text(error: ServeError) -> Seq<char> {
    match error {
        ServeError::NoMountTable => "Could not get mount points"@,
        ServeError::BindFailed => "Could not bind the requested address and port"@,
    }
}

impl ServeError {
    pub fn message(&self) -> (r: &'static str)
        ensures
            r@ == serve_error_text(*self),
    {
        match self {
            ServeError::NoMountTable => "Could not get mount points",
            ServeError::BindFailed => "Could not bind the requested address and port",
        }
    }
}

/// What binding came to. `requested_port` is the port that was asked for, 0
/// for any free port; `bound_port` is what the server reports as bound,
/// negative when it is not bound. The server serves on a port from 1 to
/// 65535 that is the requested one unless any was asked for.
pub open spec fn bind_outcome(requested_port: u16, bound_port: i32) -> Result<u16, ServeError> {
    if bound_port < 1 || bound_port > 65535 {
        Err(ServeError::BindFailed)
    } else if requested_port != 0 && bound_port != requested_port {
        Err(ServeError::BindFailed)
    } else {
        Ok(bound_port as u16)
    }
}

/// Judges what the server reports after binding.
pub fn check_bind(requested_port: u16, bound_port: i32) -> (r: Result<u16, ServeError>)
    ensures
        r == bind_outcome(requested_port, bound_port),
{
    if bound_port < 1 || bound_port > 65535 {
        Err(ServeError::BindFailed)
    } else if requested_port != 0 && bound_port != requested_port as i32 {
        Err(ServeError::BindFailed)
    } else {
        Ok(bound_port as u16)
    }
}

/// A port that binding reports is never zero, and it is the requested port
/// whenever one was requested.
pub proof fn bound_port_is_usable(requested_port: u16, bound_port: i32)
    ensures
        bind_outcome(requested_port, bound_port) matches Ok(port) ==> port >= 1 && port
            == bound_port && (requested_port != 0 ==> port == requested_port),
        bind_outcome(requested_port, bound_port) is Err <==> bound_port < 1 || bound_port > 65535
            || (requested_port != 0 && bound_port != requested_port),
{
}

/// The mount path as it stands in an address: with one `/` in front, which
/// is added when the path has none.
pub open spec fn rooted(path: Seq<char>) -> Seq<char> {
    if path.len() > 0 && path[0] == '/' {
        path
    } else {
        seq!['/'] + path
    }
}

/// The address at which clients reach a mount.
pub open spec fn stream_url_of(address: Seq<char>, port: u16, path: Seq<char>) -> Seq<char> {
    "rtsp://"@ + address + ":"@ + decimal(port as nat) + rooted(path)
}

/// Writes the address at which clients reach the mount `path` of a server
/// bound to `address` and `port`.
pub fn stream_url(address: &str, port: u16, path: &str) -> (r: String)
    ensures
        r@ == stream_url_of(address@, port, path@),
{
    let mut url = String::from_str("rtsp://");
    url.append(address);
    url.append(":");
    append_decimal(&mut url, port as u32);
    let has_root = path.unicode_len() > 0 && path.get_char(0) == '/';
    if !has_root {
        proof {
            reveal_strlit("/");
        }
        url.append("/");
        assert("/"@ =~= seq!['/']);
    }
    let ghost before = url@;
    url.append(path);
    assert(url@ =~= stream_url_of(address@, port, path@));
    url
}

/// The path of the mount that a publisher offers when it is given no other.
pub const DEFAULT_MOUNT_PATH: &'static str = "/test";

/// Where a mount path stands.
#[derive(Clone, Copy, Debug, PartialEq, Eq, Structural)]
pub enum MountState {
    /// Nothing is mounted at the path.
    Unconfigured,
    /// Mounted, and no client is connected.
    Mounted,
    /// Mounted, and at least one client is connected.
    Active,
}

/// What feeds a mount.
#[derive(Clone, Copy, Debug, PartialEq, Eq, Structural)]
pub enum Producer {
    /// No frame has been consumed yet.
    Pending,
    /// At least one frame has been consumed, and capture goes on.
    Live,
    /// Capture has ended.
    Ended,
}

/// What can happen to a mount.
#[derive(Clone, Copy, Debug, PartialEq, Eq, Structural)]
pub enum MountEvent {
    /// The consumer has taken its first frame.
    ProducerStarted,
    /// The capture session has ended.
    ProducerEnded,
    /// A client asks to be served.
    ClientArrived,
    /// A client that was being served has gone.
    ClientLeft,
}

/// What a mount decides on an event.
#[derive(Clone, Copy, Debug, PartialEq, Eq, Structural)]
pub enum MountReply {
    /// Serve the client from a pipeline that is to be started now.
    StartPipeline,
    /// Serve the client from the pipeline that runs already.
    JoinPipeline,
    /// Turn the client away for now: there is no frame to send yet.
    NotReady,
    /// Tell the client that the stream has ended.
    Ended,
    /// Turn the client away: no further client can be counted.
    Full,
    /// The client is gone; stop the pipeline that served it.
    StopPipeline,
    /// The client is gone; the pipeline goes on for the others.
    KeepPipeline,
    /// Nothing is to be done.
    Nothing,
}

/// A mount, mathematically.
pub struct MountModel {
    pub path: Seq<char>,
    pub spec: EncodingPipelineSpec,
    /// Whether all clients are served from one pipeline.
    pub shared: bool,
    /// The clients that are being served.
    pub clients: usize,
    pub producer: Producer,
}

impl MountModel {
    /// A mount as `mount` makes it: no client, no frame yet.
    pub open spec fn fresh(path: Seq<char>, spec: EncodingPipelineSpec, shared: bool) -> MountModel {
        MountModel { path, spec, shared, clients: 0, producer: Producer::Pending }
    }

    pub open spec fn state(self) -> MountState {
        if self.clients > 0 {
            MountState::Active
        } else {
            MountState::Mounted
        }
    }

    /// The pipelines that run for this mount: one for each client, or one
    /// for all of them when the mount is shared.
    pub open spec fn pipelines(self) -> nat {
        if self.shared && self.clients > 0 {
            1
        } else {
            self.clients as nat
        }
    }

    /// Whether a client that arrives now is served.
    pub open spec fn admits_client(self) -> bool {
        self.producer == Producer::Live && self.clients < usize::MAX
    }

    pub open spec fn reply_to(self, event: MountEvent) -> MountReply {
        match event {
            MountEvent::ProducerStarted => MountReply::Nothing,
            MountEvent::ProducerEnded => MountReply::Nothing,
            MountEvent::ClientArrived => {
                if self.producer == Producer::Ended {
                    MountReply::Ended
                } else if self.producer == Producer::Pending {
                    MountReply::NotReady
                } else if self.clients == usize::MAX {
                    MountReply::Full
                } else if self.shared && self.clients > 0 {
                    MountReply::JoinPipeline
                } else {
                    MountReply::StartPipeline
                }
            },
            MountEvent::ClientLeft => {
                if self.clients == 0 {
                    MountReply::Nothing
                } else if self.shared && self.clients > 1 {
                    MountReply::KeepPipeline
                } else {
                    MountReply::StopPipeline
                }
            },
        }
    }

    pub open spec fn step(self, event: MountEvent) -> MountModel {
        match event {
            MountEvent::ProducerStarted => {
                if self.producer == Producer::Pending {
                    MountModel { producer: Producer::Live, ..self }
                } else {
                    self
                }
            },
            MountEvent::ProducerEnded => MountModel { producer: Producer::Ended, ..self },
            MountEvent::ClientArrived => {
                if self.admits_client() {
                    MountModel { clients: (self.clients + 1) as usize, ..self }
                } else {
                    self
                }
            },
            MountEvent::ClientLeft => {
                if self.clients > 0 {
                    MountModel { clients: (self.clients - 1) as usize, ..self }
                } else {
                    self
                }
            },
        }
    }

    /// The mount after a sequence of events, first to last.
    pub open spec fn after(self, events: Seq<MountEvent>) -> MountModel
        decreases events.len(),
    {
        if events.len() == 0 {
            self
        } else {
            self.after(events.drop_last()).step(events.last())
        }
    }

    /// How many pipelines a sequence of events has started.
    pub open spec fn started(self, events: Seq<MountEvent>) -> nat
        decreases events.len(),
    {
        if events.len() == 0 {
            0
        } else {
            let count: nat = if self.after(events.drop_last()).reply_to(events.last())
                == MountReply::StartPipeline {
                1
            } else {
                0
            };
            self.started(events.drop_last()) + count
        }
    }

    /// How many pipelines a sequence of events has stopped.
    pub open spec fn stopped(self, events: Seq<MountEvent>) -> nat
        decreases events.len(),
    {
        if events.len() == 0 {
            0
        } else {
            let count: nat = if self.after(events.drop_last()).reply_to(events.last())
                == MountReply::StopPipeline {
                1
            } else {
                0
            };
            self.stopped(events.drop_last()) + count
        }
    }
}

/// Every pipeline that was started and not stopped runs, and no other: over
/// any sequence of events, the pipelines that run are those that ran before,
/// plus the started, less the stopped.
pub proof fn pipelines_are_accounted_for(mount: MountModel, events: Seq<MountEvent>)
    ensures
        mount.pipelines() + mount.started(events) == mount.after(events).pipelines()
            + mount.stopped(events),
        mount.after(events).shared == mount.shared,
        mount.after(events).path == mount.path,
        mount.after(events).spec == mount.spec,
    decreases events.len(),
{
    if events.len() > 0 {
        pipelines_are_accounted_for(mount, events.drop_last());
    }
}

/// A shared mount never runs more than one pipeline, however many clients
/// come and go; it runs one exactly while it is active.
pub proof fn shared_mount_runs_one_pipeline(mount: MountModel, events: Seq<MountEvent>)
    requires
        mount.shared,
    ensures
        mount.after(events).pipelines() <= 1,
        mount.after(events).pipelines() == 1 <==> mount.after(events).state()
            == MountState::Active,
        mount.clients == 0 ==> mount.started(events) <= mount.stopped(events) + 1,
{
    pipelines_are_accounted_for(mount, events);
}

/// No client is served before the first frame has been consumed: while the
/// producer is pending, a mount without clients stays without clients and
/// starts no pipeline.
pub proof fn no_client_is_served_before_the_first_frame(mount: MountModel, events: Seq<MountEvent>)
    requires
        mount.clients == 0,
        mount.producer == Producer::Pending,
        !events.contains(MountEvent::ProducerStarted),
    ensures
        mount.after(events).clients == 0,
        mount.started(events) == 0,
        mount.after(events).producer != Producer::Live,
    decreases events.len(),
{
    if events.len() > 0 {
        let shorter = events.drop_last();
        assert forall|i: int| 0 <= i < shorter.len() implies shorter[i]
            != MountEvent::ProducerStarted by {
            assert(events[i] == shorter[i]);
            assert(events.contains(events[i]));
        }
        no_client_is_served_before_the_first_frame(mount, shorter);
        assert(events.contains(events[events.len() - 1]));
    }
}

/// A mount: one published path with its pipeline and its clients.
#[derive(Debug)]
pub struct MountHandle {
    path: String,
    spec: EncodingPipelineSpec,
    shared: bool,
    clients: usize,
    producer: Producer,
}

impl View for MountHandle {
    type V = MountModel;

    closed spec fn view(&self) -> MountModel {
        MountModel {
            path: self.path@,
            spec: self.spec,
            shared: self.shared,
            clients: self.clients,
            producer: self.producer,
        }
    }
}

/// Makes the mount of `path`.
pub fn mount(path: &str, launch_spec: EncodingPipelineSpec, shared: bool) -> (r: MountHandle)
    ensures
        r@ == MountModel::fresh(path@, launch_spec, shared),
{
    MountHandle {
        path: String::from_str(path),
        spec: launch_spec,
        shared,
        clients: 0,
        producer: Producer::Pending,
    }
}

impl MountHandle {
    /// Takes one event and says what is to be done.
    pub fn handle(&mut self, event: MountEvent) -> (r: MountReply)
        ensures
            r == old(self)@.reply_to(event),
            final(self)@ == old(self)@.step(event),
    {
        match event {
            MountEvent::ProducerStarted => {
                match self.producer {
                    Producer::Pending => {
                        self.producer = Producer::Live;
                    },
                    _ => {},
                }
                MountReply::Nothing
            },
            MountEvent::ProducerEnded => {
                self.producer = Producer::Ended;
                MountReply::Nothing
            },
            MountEvent::ClientArrived => {
                match self.producer {
                    Producer::Ended => MountReply::Ended,
                    Producer::Pending => MountReply::NotReady,
                    Producer::Live => {
                        if self.clients == usize::MAX {
                            MountReply::Full
                        } else {
                            let first = self.clients == 0;
                            self.clients = self.clients + 1;
                            if self.shared && !first {
                                MountReply::JoinPipeline
                            } else {
                                MountReply::StartPipeline
                            }
                        }
                    },
                }
            },
            MountEvent::ClientLeft => {
                if self.clients == 0 {
                    MountReply::Nothing
                } else {
                    self.clients = self.clients - 1;
                    if self.shared && self.clients > 0 {
                        MountReply::KeepPipeline
                    } else {
                        MountReply::StopPipeline
                    }
                }
            },
        }
    }

    /// A client asks to be served.
    pub fn client_connected(&mut self) -> (r: MountReply)
        ensures
            r == old(self)@.reply_to(MountEvent::ClientArrived),
            final(self)@ == old(self)@.step(MountEvent::ClientArrived),
    {
        self.handle(MountEvent::ClientArrived)
    }

    /// A client that was being served has gone.
    pub fn client_disconnected(&mut self) -> (r: MountReply)
        ensures
            r == old(self)@.reply_to(MountEvent::ClientLeft),
            final(self)@ == old(self)@.step(MountEvent::ClientLeft),
    {
        self.handle(MountEvent::ClientLeft)
    }

    /// The consumer has taken its first frame.
    pub fn producer_started(&mut self)
        ensures
            final(self)@ == old(self)@.step(MountEvent::ProducerStarted),
    {
        let _ = self.handle(MountEvent::ProducerStarted);
    }

    /// The capture session has ended.
    pub fn producer_ended(&mut self)
        ensures
            final(self)@ == old(self)@.step(MountEvent::ProducerEnded),
    {
        let _ = self.handle(MountEvent::ProducerEnded);
    }

    pub fn path(&self) -> (r: &str)
        ensures
            r@ == self@.path,
    {
        self.path.as_str()
    }

    pub fn spec(&self) -> (r: EncodingPipelineSpec)
        ensures
            r == self@.spec,
    {
        self.spec
    }

    pub fn is_shared(&self) -> (r: bool)
        ensures
            r == self@.shared,
    {
        self.shared
    }

    pub fn clients(&self) -> (r: usize)
        ensures
            r == self@.clients,
    {
        self.clients
    }

    pub fn producer(&self) -> (r: Producer)
        ensures
            r == self@.producer,
    {
        self.producer
    }

    pub fn state(&self) -> (r: MountState)
        ensures
            r == self@.state(),
    {
        if self.clients > 0 {
            MountState::Active
        } else {
            MountState::Mounted
        }
    }

    /// The pipelines that run for this mount.
    pub fn pipelines(&self) -> (r: usize)
        ensures
            r == self@.pipelines(),
    {
        if self.shared && self.clients > 0 {
            1
        } else {
            self.clients
        }
    }
}

/// A publisher, mathematically: where it was asked to bind, its table of
/// mounts, and the port it serves on once it serves.
pub struct PublisherModel {
    pub address: Seq<char>,
    pub requested_port: u16,
    pub mounts: Seq<MountModel>,
    pub bound: Option<u16>,
}

impl PublisherModel {
    /// No two mounts have one path, and a bound port is not zero.
    pub open spec fn valid(self) -> bool {
        &&& forall|i: int, j: int|
            0 <= i < j < self.mounts.len() ==> (#[trigger] self.mounts[i]).path
                != (#[trigger] self.mounts[j]).path
        &&& self.bound matches Some(port) ==> port >= 1
    }

    pub open spec fn fresh(address: Seq<char>, requested_port: u16) -> PublisherModel {
        PublisherModel { address, requested_port, mounts: Seq::empty(), bound: None }
    }

    pub open spec fn mounted_at(self, index: int, path: Seq<char>) -> bool {
        0 <= index < self.mounts.len() && self.mounts[index].path == path
    }

    /// The place of the mount of `path` in the table.
    pub open spec fn position(self, path: Seq<char>) -> Option<int> {
        if exists|i: int| self.mounted_at(i, path) {
            Some(choose|i: int| self.mounted_at(i, path))
        } else {
            None
        }
    }

    pub open spec fn state_of(self, path: Seq<char>) -> MountState {
        match self.position(path) {
            Some(index) => self.mounts[index].state(),
            None => MountState::Unconfigured,
        }
    }

    /// The table after `mount` was added: in the place of the mount that had
    /// its path, or at the end when no mount had it.
    pub open spec fn after_add(self, mount: MountModel) -> PublisherModel {
        match self.position(mount.path) {
            Some(index) => PublisherModel { mounts: self.mounts.update(index, mount), ..self },
            None => PublisherModel { mounts: self.mounts.push(mount), ..self },
        }
    }

    pub open spec fn place_of_added(self, mount: MountModel) -> int {
        match self.position(mount.path) {
            Some(index) => index,
            None => self.mounts.len() as int,
        }
    }

    pub open spec fn after_serve(self, bound_port: i32) -> PublisherModel {
        match bind_outcome(self.requested_port, bound_port) {
            Ok(port) => PublisherModel { bound: Some(port), ..self },
            Err(_) => PublisherModel { bound: None, ..self },
        }
    }

    pub open spec fn after_deliver(self, path: Seq<char>, event: MountEvent) -> PublisherModel {
        match self.position(path) {
            Some(index) => PublisherModel {
                mounts: self.mounts.update(index, self.mounts[index].step(event)),
                ..self
            },
            None => self,
        }
    }

    pub open spec fn reply_to(self, path: Seq<char>, event: MountEvent) -> Option<MountReply> {
        match self.position(path) {
            Some(index) => Some(self.mounts[index].reply_to(event)),
            None => None,
        }
    }

    /// The address of the mount of `path`, which exists only while the
    /// publisher serves and the path is mounted.
    pub open spec fn url_of(self, path: Seq<char>) -> Option<Seq<char>> {
        if self.bound is Some && self.position(path) is Some {
            Some(stream_url_of(self.address, self.bound->Some_0, path))
        } else {
            None
        }
    }
}

/// In a valid table a path stands at one place at most, so the place of a
/// path is the place where it is found.
pub proof fn position_is_unique(publisher: PublisherModel, path: Seq<char>, index: int)
    requires
        publisher.valid(),
        publisher.mounted_at(index, path),
    ensures
        publisher.position(path) == Some(index),
{
    let found = choose|i: int| publisher.mounted_at(i, path);
    if found < index {
        assert(publisher.mounts[found].path != publisher.mounts[index].path);
    } else if index < found {
        assert(publisher.mounts[index].path != publisher.mounts[found].path);
    }
}

/// Adding a mount keeps a publisher valid: no path comes to stand twice.
pub proof fn add_keeps_publisher_valid(publisher: PublisherModel, mount: MountModel)
    requires
        publisher.valid(),
    ensures
        publisher.after_add(mount).valid(),
{
    let added = publisher.after_add(mount);
    match publisher.position(mount.path) {
        Some(index) => {
            assert forall|i: int, j: int|
                0 <= i < j < added.mounts.len() implies (#[trigger] added.mounts[i]).path != (
                #[trigger] added.mounts[j]).path by {
                assert(publisher.mounts[i].path != publisher.mounts[j].path);
            }
        },
        None => {
            assert forall|i: int, j: int|
                0 <= i < j < added.mounts.len() implies (#[trigger] added.mounts[i]).path != (
                #[trigger] added.mounts[j]).path by {
                if j == publisher.mounts.len() {
                    assert(!publisher.mounted_at(i, mount.path));
                } else {
                    assert(publisher.mounts[i].path != publisher.mounts[j].path);
                }
            }
        },
    }
}

/// Delivering an event keeps a publisher valid: events change no path.
pub proof fn deliver_keeps_publisher_valid(
    publisher: PublisherModel,
    path: Seq<char>,
    event: MountEvent,
)
    requires
        publisher.valid(),
    ensures
        publisher.after_deliver(path, event).valid(),
{
    let delivered = publisher.after_deliver(path, event);
    assert forall|i: int, j: int|
        0 <= i < j < delivered.mounts.len() implies (#[trigger] delivered.mounts[i]).path != (
        #[trigger] delivered.mounts[j]).path by {
        assert(publisher.mounts[i].path != publisher.mounts[j].path);
    }
}

/// The server's table of mounts and its binding.
#[derive(Debug)]
pub struct Publisher {
    address: String,
    requested_port: u16,
    mounts: Vec<MountHandle>,
    bound: Option<u16>,
}

spec fn models(mounts: Seq<MountHandle>) -> Seq<MountModel> {
    Seq::new(mounts.len(), |i: int| mounts[i]@)
}

spec fn model_of(
    address: Seq<char>,
    requested_port: u16,
    mounts: Seq<MountHandle>,
    bound: Option<u16>,
) -> PublisherModel {
    PublisherModel { address, requested_port, mounts: models(mounts), bound }
}

impl View for Publisher {
    type V = PublisherModel;

    closed spec fn view(&self) -> PublisherModel {
        model_of(self.address@, self.requested_port, self.mounts@, self.bound)
    }
}

/// Finds the mount of `path`.
fn find_mount(mounts: &Vec<MountHandle>, path: &str) -> (r: Option<usize>)
    ensures
        match r {
            Some(index) => index < mounts.len() && mounts@[index as int]@.path == path@,
            None => forall|i: int| 0 <= i < mounts.len() ==> mounts@[i]@.path != path@,
        },
{
    let needle = String::from_str(path);
    let mut i: usize = 0;
    while i < mounts.len()
        invariant
            i <= mounts.len(),
            needle@ == path@,
            forall|j: int| 0 <= j < i ==> mounts@[j]@.path != path@,
        decreases mounts.len() - i,
    {
        if mounts[i].path == needle {
            return Some(i);
        }
        i += 1;
    }
    None
}

impl Publisher {
    #[verifier::type_invariant]
    spec fn holds_valid_publisher(self) -> bool {
        self@.valid()
    }

    /// Opens a publisher on a server that is to bind `address` and
    /// `requested_port` (0 for any free port). Without a registry of mounts
    /// there is no publisher.
    pub fn open(
        address: &str,
        requested_port: u16,
        mount_table: bool,
    ) -> (r: Result<Publisher, ServeError>)
        ensures
            match r {
                Ok(publisher) => mount_table && publisher@ == PublisherModel::fresh(
                    address@,
                    requested_port,
                ),
                Err(error) => !mount_table && error == ServeError::NoMountTable,
            },
    {
        if !mount_table {
            return Err(ServeError::NoMountTable);
        }
        let mounts: Vec<MountHandle> = Vec::new();
        assert(models(mounts@) =~= Seq::<MountModel>::empty());
        Ok(Publisher { address: String::from_str(address), requested_port, mounts, bound: None })
    }

    /// Moves the parts out, leaving an empty publisher behind until the parts
    /// are put back.
    fn take_parts(&mut self) -> (parts: (String, u16, Vec<MountHandle>, Option<u16>))
        ensures
            old(self)@ == model_of(parts.0@, parts.1, parts.2@, parts.3),
            old(self)@.valid(),
    {
        proof {
            use_type_invariant(&*self);
        }
        let mounts: Vec<MountHandle> = Vec::new();
        assert(models(mounts@) =~= Seq::<MountModel>::empty());
        let mut taken = Publisher { address: String::new(), requested_port: 0, mounts, bound: None };
        std::mem::swap(self, &mut taken);
        let Publisher { address, requested_port, mounts, bound } = taken;
        (address, requested_port, mounts, bound)
    }

    /// Puts a mount into the table, in the place of the mount that had its
    /// path or at the end. Returns the place.
    pub fn add(&mut self, mount: MountHandle) -> (r: usize)
        ensures
            final(self)@ == old(self)@.after_add(mount@),
            r == old(self)@.place_of_added(mount@),
    {
        let (address, requested_port, mut mounts, bound) = self.take_parts();
        let ghost before = model_of(address@, requested_port, mounts@, bound);
        proof {
            add_keeps_publisher_valid(before, mount@);
        }
        let place = match find_mount(&mounts, mount.path.as_str()) {
            Some(index) => {
                proof {
                    position_is_unique(before, mount@.path, index as int);
                }
                mounts.set(index, mount);
                index
            },
            None => {
                proof {
                    assert(forall|i: int| !before.mounted_at(i, mount@.path));
                }
                mounts.push(mount);
                mounts.len() - 1
            },
        };
        assert(models(mounts@) =~= before.after_add(mount@).mounts);
        *self = Publisher { address, requested_port, mounts, bound };
        place
    }

    /// Takes what the server reports after binding (see `bind_outcome`) and
    /// returns the port it serves on. After a failure the publisher does not
    /// count as serving.
    pub fn serve(&mut self, bound_port: i32) -> (r: Result<u16, ServeError>)
        ensures
            r == bind_outcome(old(self)@.requested_port, bound_port),
            final(self)@ == old(self)@.after_serve(bound_port),
    {
        let (address, requested_port, mounts, _) = self.take_parts();
        let outcome = check_bind(requested_port, bound_port);
        let bound = match outcome {
            Ok(port) => Some(port),
            Err(_) => None,
        };
        *self = Publisher { address, requested_port, mounts, bound };
        outcome
    }

    /// Stops serving. The mounts stay as they are.
    pub fn stop(&mut self)
        ensures
            final(self)@ == (PublisherModel { bound: None, ..old(self)@ }),
    {
        let (address, requested_port, mounts, _) = self.take_parts();
        *self = Publisher { address, requested_port, mounts, bound: None };
    }

    /// Hands an event to the mount of `path` and returns its decision, or
    /// `None` when nothing is mounted there.
    pub fn deliver(&mut self, path: &str, event: MountEvent) -> (r: Option<MountReply>)
        ensures
            r == old(self)@.reply_to(path@, event),
            final(self)@ == old(self)@.after_deliver(path@, event),
    {
        let (address, requested_port, mut mounts, bound) = self.take_parts();
        let ghost before = model_of(address@, requested_port, mounts@, bound);
        proof {
            deliver_keeps_publisher_valid(before, path@, event);
        }
        let reply = match find_mount(&mounts, path) {
            Some(index) => {
                proof {
                    position_is_unique(before, path@, index as int);
                }
                let mut mount = mounts.remove(index);
                let reply = mount.handle(event);
                mounts.insert(index, mount);
                Some(reply)
            },
            None => {
                proof {
                    assert(forall|i: int| !before.mounted_at(i, path@));
                }
                None
            },
        };
        assert(models(mounts@) =~= before.after_deliver(path@, event).mounts);
        *self = Publisher { address, requested_port, mounts, bound };
        reply
    }

    /// Where `path` stands.
    pub fn state_of(&self, path: &str) -> (r: MountState)
        ensures
            r == self@.state_of(path@),
    {
        proof {
            use_type_invariant(self);
        }
        match find_mount(&self.mounts, path) {
            Some(index) => {
                proof {
                    position_is_unique(self@, path@, index as int);
                }
                self.mounts[index].state()
            },
            None => {
                proof {
                    assert(forall|i: int| !self@.mounted_at(i, path@));
                }
                MountState::Unconfigured
            },
        }
    }

    /// The address at which clients reach the mount of `path`; there is none
    /// unless the publisher serves and the path is mounted.
    pub fn url_of(&self, path: &str) -> (r: Option<String>)
        ensures
            match self@.url_of(path@) {
                Some(url) => r matches Some(text) && text@ == url,
                None => r is None,
            },
    {
        proof {
            use_type_invariant(self);
        }
        match self.bound {
            None => None,
            Some(port) => match find_mount(&self.mounts, path) {
                Some(index) => {
                    proof {
                        position_is_unique(self@, path@, index as int);
                    }
                    Some(stream_url(self.address.as_str(), port, path))
                },
                None => {
                    proof {
                        assert(forall|i: int| !self@.mounted_at(i, path@));
                    }
                    None
                },
            },
        }
    }

    /// The line that tells the operator where the mount of `path` is served;
    /// there is none unless the publisher serves and the path is mounted.
    pub fn announcement(&self, path: &str) -> (r: Option<String>)
        ensures
            match self@.url_of(path@) {
                Some(url) => r matches Some(text) && text@ == "Stream ready at "@ + url,
                None => r is None,
            },
    {
        match self.url_of(path) {
            Some(url) => {
                let mut line = String::from_str("Stream ready at ");
                line.append(url.as_str());
                Some(line)
            },
            None => None,
        }
    }

    /// The port the publisher serves on, or `None` while it does not serve.
    pub fn bound_port(&self) -> (r: Option<u16>)
        ensures
            r == self@.bound,
            r matches Some(port) ==> port >= 1,
    {
        proof {
            use_type_invariant(self);
        }
        self.bound
    }

    pub fn is_serving(&self) -> (r: bool)
        ensures
            r == self@.bound is Some,
    {
        self.bound.is_some()
    }

    pub fn requested_port(&self) -> (r: u16)
        ensures
            r == self@.requested_port,
    {
        self.requested_port
    }

    pub fn address(&self) -> (r: &str)
        ensures
            r@ == self@.address,
    {
        self.address.as_str()
    }

    /// How many mounts the table holds.
    pub fn mount_count(&self) -> (r: usize)
        ensures
            r == self@.mounts.len(),
    {
        self.mounts.len()
    }

    /// The mount at `index` of the table.
    pub fn mount_at(&self, index: usize) -> (r: Option<&MountHandle>)
        ensures
            match r {
                Some(mount) => index < self@.mounts.len() && mount@ == self@.mounts[index as int],
                None => index >= self@.mounts.len(),
            },
    {
        if index < self.mounts.len() {
            Some(&self.mounts[index])
        } else {
            None
        }
    }
}

} // verus!
