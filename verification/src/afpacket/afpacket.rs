//! The facade: one socket, the ABI version agreed with the kernel, and the
//! ring that was set up on it.

use crate::afpacket::error::Error;
use crate::afpacket::kernel::{
    field, heard, run, Answer, AnswerView, ReplyView, Request, RequestView, Step, StepView,
};
use crate::afpacket::ring::{
    default_block_timeout, is_default_block_timeout, map_step, mmap_rx_ring, Mapping, RingOptions,
    RingRequest, TPacketReq, TPacketReq3,
};
use crate::afpacket::socket::{
    close_step, getsockopt_step, open_step, setsockopt_step, single_step, RawSocket, CLOSED,
};
use crate::afpacket::stats::{
    Statistics, TPacketStats, TPacketV3Stats, STATS_V3_WORDS, STATS_WORDS,
};
use std::time::Duration;
use vstd::prelude::*;

verus! {

/// The packet-socket option that configures the receive ring.
pub const PACKET_RX_RING: i32 = 0x5;

/// The packet-socket option that reads the statistics.
pub const PACKET_STATISTICS: i32 = 0x6;

/// The packet-socket option that sets the ABI version.
pub const PACKET_VERSION: i32 = 0xa;

/// The packet-socket option that configures the transmit ring.
pub const PACKET_TX_RING: i32 = 0xd;

/// The three versions of the ring ABI, oldest first.
#[derive(Debug, Clone, Copy, PartialEq, Eq, Structural)]
pub enum TPacketVersion {
    V1,
    V2,
    V3,
}

impl TPacketVersion {
    /// The number by which the kernel knows the version.
    pub open spec fn spec_code(self) -> i32 {
        match self {
            TPacketVersion::V1 => 0,
            TPacketVersion::V2 => 1,
            TPacketVersion::V3 => 2,
        }
    }

    /// The number by which the kernel knows the version.
    #[verifier::when_used_as_spec(spec_code)]
    pub fn code(self) -> (code: i32)
        ensures
            code == self.spec_code(),
    {
        match self {
            TPacketVersion::V1 => 0,
            TPacketVersion::V2 => 1,
            TPacketVersion::V3 => 2,
        }
    }

    /// The record that asks the kernel for the version: one field, the
    /// number of the version.
    pub open spec fn record(self) -> Seq<u32> {
        seq![self.spec_code() as u32]
    }

    /// The version that the record `words` asks for, if it asks for one.
    pub open spec fn of_record(words: Seq<u32>) -> Option<TPacketVersion> {
        if words.len() != 1 {
            None
        } else if words[0] == 0 {
            Some(TPacketVersion::V1)
        } else if words[0] == 1 {
            Some(TPacketVersion::V2)
        } else if words[0] == 2 {
            Some(TPacketVersion::V3)
        } else {
            None
        }
    }

    /// The version that the record `words` asks for, if it asks for one.
    pub fn from_record(words: &[u32]) -> (version: Option<TPacketVersion>)
        ensures
            version == Self::of_record(words@),
    {
        if words.len() != 1 {
            None
        } else if words[0] == 0 {
            Some(TPacketVersion::V1)
        } else if words[0] == 1 {
            Some(TPacketVersion::V2)
        } else if words[0] == 2 {
            Some(TPacketVersion::V3)
        } else {
            None
        }
    }

    /// The version to fall back to when the kernel refuses this one: the
    /// next older one, if there is one.
    pub open spec fn spec_fallback(self) -> Option<TPacketVersion> {
        match self {
            TPacketVersion::V3 => Some(TPacketVersion::V2),
            TPacketVersion::V2 => Some(TPacketVersion::V1),
            TPacketVersion::V1 => None,
        }
    }

    /// The version to fall back to when the kernel refuses this one.
    #[verifier::when_used_as_spec(spec_fallback)]
    pub fn fallback(self) -> (older: Option<TPacketVersion>)
        ensures
            older == self.spec_fallback(),
    {
        match self {
            TPacketVersion::V3 => Some(TPacketVersion::V2),
            TPacketVersion::V2 => Some(TPacketVersion::V1),
            TPacketVersion::V1 => None,
        }
    }
}

/// The direction of a ring.
#[derive(Debug, Clone, Copy, PartialEq, Eq, Structural)]
pub enum RingDirection {
    RX,
    TX,
}

impl RingDirection {
    /// The packet-socket option that configures the ring of this direction.
    pub open spec fn spec_option(self) -> i32 {
        match self {
            RingDirection::RX => PACKET_RX_RING,
            RingDirection::TX => PACKET_TX_RING,
        }
    }

    /// The packet-socket option that configures the ring of this direction.
    #[verifier::when_used_as_spec(spec_option)]
    pub fn option(self) -> (option: i32)
        ensures
            option == self.spec_option(),
    {
        match self {
            RingDirection::RX => PACKET_RX_RING,
            RingDirection::TX => PACKET_TX_RING,
        }
    }
}

/// How far a facade has come.
#[derive(Debug, Clone, Copy, PartialEq, Eq, Structural)]
pub enum State {
    /// The socket is open; no ring was asked for.
    Created,
    /// The kernel has accepted a ring request.
    Configured,
    /// The ring's memory is mapped as well.
    Mapped,
    /// The socket was closed.
    Closed,
}

/// What a facade holds, as plain values.
pub struct Facade {
    /// The descriptor of its socket.
    pub fd: i32,
    /// The ABI version that the kernel accepted last; version 1 at first.
    pub version: TPacketVersion,
    /// The block-retire timeout that it was made with.
    pub timeout: Duration,
    /// Whether the kernel has accepted a ring request.
    pub configured: bool,
    /// The mapped memory of its ring, if there is one.
    pub mapping: Option<Mapping>,
}

impl Facade {
    /// A facade as it starts on the socket `fd`: under version 1 and
    /// without a ring.
    pub open spec fn fresh(fd: i32, timeout: Duration) -> Facade {
        Facade { fd, version: TPacketVersion::V1, timeout, configured: false, mapping: None }
    }

    /// How far the facade has come.
    pub open spec fn state(self) -> State {
        if self.fd == CLOSED {
            State::Closed
        } else if self.mapping is Some {
            State::Mapped
        } else if self.configured {
            State::Configured
        } else {
            State::Created
        }
    }

    /// The ring request in the layout of the tracked version: the newer
    /// record under version 3, the older one under versions 1 and 2.
    pub open spec fn ring_request(self, options: RingOptions) -> RingRequest {
        if self.version == TPacketVersion::V3 {
            RingRequest::Newer(TPacketReq3::of(options))
        } else {
            RingRequest::Older(TPacketReq::of(options))
        }
    }

    /// The fields of the statistics record of the tracked version: three
    /// under version 3, two under versions 1 and 2.
    pub open spec fn statistics_words(self) -> usize {
        if self.version == TPacketVersion::V3 {
            STATS_V3_WORDS
        } else {
            STATS_WORDS
        }
    }

    /// The statistics that the record `words` stands for under the tracked
    /// version. Versions 1 and 2 count no queue freezes. A counter that the
    /// record does not reach is zero.
    pub open spec fn decode(self, words: Seq<u32>) -> Statistics {
        if self.version == TPacketVersion::V3 {
            Statistics {
                packets: field(words, 0),
                drops: field(words, 1),
                queue_freezes: field(words, 2),
            }
        } else {
            Statistics { packets: field(words, 0), drops: field(words, 1), queue_freezes: 0 }
        }
    }

    /// Setting the version: the version option is set to `version`. Where
    /// the kernel accepts it, `version` becomes the tracked version and is
    /// returned. Where the kernel refuses, its error is returned and the
    /// tracked version stays.
    pub open spec fn set_version(self, version: TPacketVersion, event: Option<AnswerView>) -> (
        Facade,
        StepView<TPacketVersion>,
    ) {
        match setsockopt_step(self.fd, PACKET_VERSION, version.record(), event) {
            StepView::Call(request) => (self, StepView::Call(request)),
            StepView::Done(Ok(_)) => (Facade { version, ..self }, StepView::Done(Ok(version))),
            StepView::Done(Err(error)) => (self, StepView::Done(Err(error))),
        }
    }

    /// Setting the highest version: version 3 is asked for first. Each
    /// version that the kernel refuses is followed by the next older one;
    /// the first that it accepts is tracked and returned. Where it refuses
    /// version 1 as well, that last error is returned.
    pub open spec fn set_highest_version(self, event: Option<AnswerView>) -> (
        Facade,
        StepView<TPacketVersion>,
    ) {
        match event {
            None => self.set_version(TPacketVersion::V3, None),
            Some(answer) => match Self::attempted(answer.request) {
                Some(version) => match self.set_version(version, event) {
                    (_, StepView::Done(Err(Error::Os(errno)))) => match version.spec_fallback() {
                        Some(older) => self.set_version(older, None),
                        None => (self, StepView::Done(Err(Error::Os(errno)))),
                    },
                    ended => ended,
                },
                None => (self, StepView::Done(Err(Error::InvalidInput))),
            },
        }
    }

    /// The version that `request` asks the kernel for, if it asks for one.
    pub open spec fn attempted(request: RequestView) -> Option<TPacketVersion> {
        match request {
            RequestView::SetOption { value, .. } => TPacketVersion::of_record(value),
            _ => None,
        }
    }

    /// Reading the statistics: the statistics option is read in the layout
    /// of the tracked version, and the record is decoded under that
    /// version. The kernel resets its counters with every read.
    pub open spec fn get_statistics(self, event: Option<AnswerView>) -> StepView<Statistics> {
        match getsockopt_step(self.fd, PACKET_STATISTICS, self.statistics_words(), event) {
            StepView::Call(request) => StepView::Call(request),
            StepView::Done(Ok(words)) => StepView::Done(Ok(self.decode(words))),
            StepView::Done(Err(error)) => StepView::Done(Err(error)),
        }
    }

    /// Setting up a ring. The ring request goes out first, in the layout of
    /// the tracked version and through the option of `direction`. Under
    /// versions 1 and 2 that is all. Under version 3 the ring's memory is
    /// mapped next and kept, and the statistics are read once, so that later
    /// reads count from here. The first call that fails ends the setup with
    /// its error; what was done before it stays done.
    ///
    /// The answer to the mapping counts only under version 3 and once the
    /// ring request was accepted, and the answer to the statistics read only
    /// once the mapping is kept as well. A mapping is kept only while the
    /// socket is open.
    pub open spec fn setup_ring(
        self,
        direction: RingDirection,
        options: RingOptions,
        event: Option<AnswerView>,
    ) -> (Facade, StepView<()>) {
        match event {
            Some(AnswerView { request: RequestView::MapRing { .. }, .. }) => if self.maps() {
                match map_step(self.fd, options, event) {
                    StepView::Call(request) => (self, StepView::Call(request)),
                    StepView::Done(Ok(mapping)) => if self.fd == CLOSED {
                        (self, StepView::Done(Err(Error::InvalidInput)))
                    } else {
                        (
                            Facade { mapping: Some(mapping), ..self },
                            discard(self.get_statistics(None)),
                        )
                    },
                    StepView::Done(Err(error)) => (self, StepView::Done(Err(error))),
                }
            } else {
                (self, StepView::Done(Err(Error::InvalidInput)))
            },
            Some(AnswerView { request: RequestView::GetOption { .. }, .. }) => if self.maps()
                && self.mapping is Some {
                (self, discard(self.get_statistics(event)))
            } else {
                (self, StepView::Done(Err(Error::InvalidInput)))
            },
            _ => match setsockopt_step(
                self.fd,
                direction.spec_option(),
                self.ring_request(options).layout(),
                event,
            ) {
                StepView::Call(request) => (self, StepView::Call(request)),
                StepView::Done(Ok(_)) => (
                    Facade { configured: true, ..self },
                    if self.version == TPacketVersion::V3 {
                        discard(map_step(self.fd, options, None))
                    } else {
                        StepView::Done(Ok(()))
                    },
                ),
                StepView::Done(Err(error)) => (self, StepView::Done(Err(error))),
            },
        }
    }

    /// Whether a setup of this facade asks for a mapping: under version 3,
    /// once the kernel has accepted the ring request.
    pub open spec fn maps(self) -> bool {
        self.version == TPacketVersion::V3 && self.configured
    }

    /// Closing the facade. The memory of the ring is unmapped first, if
    /// there is any, and only then is the socket closed. Where unmapping
    /// fails, the facade stays as it is and the error is returned. A closed
    /// facade is left alone.
    pub open spec fn close(self, event: Option<AnswerView>) -> (Facade, StepView<()>) {
        match self.mapping {
            Some(mapping) => match single_step(
                RequestView::UnmapRing { addr: mapping.addr, length: mapping.length },
                event,
            ) {
                StepView::Call(request) => (self, StepView::Call(request)),
                StepView::Done(Ok(_)) => (
                    Facade { mapping: None, ..self },
                    close_step(self.fd, None).1,
                ),
                StepView::Done(Err(error)) => (self, StepView::Done(Err(error))),
            },
            None => (
                Facade { fd: close_step(self.fd, event).0, ..self },
                close_step(self.fd, event).1,
            ),
        }
    }

    /// No mapping without an open socket.
    pub open spec fn sound(self) -> bool {
        self.mapping is Some ==> self.fd != CLOSED
    }
}

/// The same step without what it returns.
pub open spec fn discard<T>(step: StepView<T>) -> StepView<()> {
    match step {
        StepView::Call(request) => StepView::Call(request),
        StepView::Done(Ok(_)) => StepView::Done(Ok(())),
        StepView::Done(Err(error)) => StepView::Done(Err(error)),
    }
}

/// One packet socket with its ring.
#[derive(Debug)]
pub struct TPacket {
    socket: RawSocket,
    version: TPacketVersion,
    timeout: Duration,
    configured: bool,
    mmap: Option<Mapping>,
}

impl View for TPacket {
    type V = Facade;

    closed spec fn view(&self) -> Facade {
        Facade {
            fd: self.socket@,
            version: self.version,
            timeout: self.timeout,
            configured: self.configured,
            mapping: self.mmap,
        }
    }
}

impl TPacket {
    #[verifier::type_invariant]
    spec fn mapping_has_its_socket(self) -> bool {
        self.mmap is Some ==> self.socket@ != CLOSED
    }

    /// Opens the socket of a new facade. The facade starts under version 1,
    /// with the default block-retire timeout and without a ring.
    pub fn new(event: Option<Answer>) -> (step: Step<TPacket>)
        ensures
            match open_step(heard(event)) {
                StepView::Call(request) => step@ == StepView::<Facade>::Call(request),
                StepView::Done(Err(error)) => step@ == StepView::<Facade>::Done(Err(error)),
                StepView::Done(Ok(fd)) => {
                    &&& step matches Step::Done(Ok(facade))
                    &&& facade@ == Facade::fresh(fd, facade@.timeout)
                    &&& is_default_block_timeout(facade@.timeout)
                },
            },
    {
        match RawSocket::new(event) {
            Step::Call(request) => Step::Call(request),
            Step::Done(Err(error)) => Step::Done(Err(error)),
            Step::Done(Ok(socket)) => Step::Done(
                Ok(
                    TPacket {
                        socket,
                        version: TPacketVersion::V1,
                        timeout: default_block_timeout(),
                        configured: false,
                        mmap: None,
                    },
                ),
            ),
        }
    }

    /// Sets up a ring of the geometry `options` for `direction`.
    pub fn setup_ring(
        &mut self,
        direction: RingDirection,
        options: &RingOptions,
        event: Option<Answer>,
    ) -> (step: Step<()>)
        ensures
            (final(self)@, step.model()) == old(self)@.setup_ring(
                direction,
                *options,
                heard(event),
            ),
    {
        proof {
            use_type_invariant(&*self);
        }
        let (mapped, read) = match &event {
            Some(answer) => match &answer.request {
                Request::MapRing { .. } => (true, false),
                Request::GetOption { .. } => (false, true),
                _ => (false, false),
            },
            None => (false, false),
        };
        if mapped {
            if !(self.is_v3() && self.configured) {
                return Step::Done(Err(Error::InvalidInput));
            }
            return match mmap_rx_ring(self.socket.fd(), options, event) {
                Step::Call(request) => Step::Call(request),
                Step::Done(Ok(mapping)) => if self.socket.fd() == CLOSED {
                    Step::Done(Err(Error::InvalidInput))
                } else {
                    self.mmap = Some(mapping);
                    drop_value(self.get_statistics(None))
                },
                Step::Done(Err(error)) => Step::Done(Err(error)),
            };
        }
        if read {
            if !(self.is_v3() && self.configured && self.mmap.is_some()) {
                return Step::Done(Err(Error::InvalidInput));
            }
            return drop_value(self.get_statistics(event));
        }
        let req = if self.is_v3() {
            RingRequest::Newer(TPacketReq3::from(options))
        } else {
            RingRequest::Older(TPacketReq::from(options))
        };
        let record = req.words();
        match self.socket.setsockopt(direction.option(), record.as_slice(), event) {
            Step::Call(request) => Step::Call(request),
            Step::Done(Ok(_)) => {
                self.configured = true;
                if self.is_v3() {
                    drop_value(mmap_rx_ring(self.socket.fd(), options, None))
                } else {
                    Step::Done(Ok(()))
                }
            },
            Step::Done(Err(error)) => Step::Done(Err(error)),
        }
    }

    /// Asks the kernel for the ABI version `version`.
    pub fn set_version(&mut self, version: TPacketVersion, event: Option<Answer>) -> (step: Step<
        TPacketVersion,
    >)
        ensures
            (final(self)@, step.model()) == old(self)@.set_version(version, heard(event)),
    {
        proof {
            use_type_invariant(&*self);
        }
        let record = [version.code() as u32];
        assert(record@ =~= version.record());
        match self.socket.setsockopt(PACKET_VERSION, record.as_slice(), event) {
            Step::Call(request) => Step::Call(request),
            Step::Done(Ok(_)) => {
                self.version = version;
                Step::Done(Ok(version))
            },
            Step::Done(Err(error)) => Step::Done(Err(error)),
        }
    }

    /// Agrees with the kernel on the newest version that it accepts.
    pub fn set_highest_version(&mut self, event: Option<Answer>) -> (step: Step<TPacketVersion>)
        ensures
            (final(self)@, step.model()) == old(self)@.set_highest_version(heard(event)),
    {
        if event.is_none() {
            return self.set_version(TPacketVersion::V3, None);
        }
        let attempted = match &event {
            Some(answer) => match &answer.request {
                Request::SetOption { value, .. } => TPacketVersion::from_record(value.as_slice()),
                _ => None,
            },
            None => None,
        };
        match attempted {
            Some(version) => match self.set_version(version, event) {
                Step::Done(Err(Error::Os(errno))) => match version.fallback() {
                    Some(older) => self.set_version(older, None),
                    None => Step::Done(Err(Error::Os(errno))),
                },
                ended => ended,
            },
            None => Step::Done(Err(Error::InvalidInput)),
        }
    }

    /// Reads the statistics since the last read. Once the kernel has
    /// answered, its counters are back at zero: no two reads report the same
    /// packet, and whoever needs totals adds the reads up.
    pub fn get_statistics(&self, event: Option<Answer>) -> (step: Step<Statistics>)
        ensures
            step.model() == self@.get_statistics(heard(event)),
    {
        let words = if self.is_v3() {
            STATS_V3_WORDS
        } else {
            STATS_WORDS
        };
        match self.socket.getsockopt(PACKET_STATISTICS, words, event) {
            Step::Call(request) => Step::Call(request),
            Step::Done(Ok(record)) => Step::Done(
                Ok(
                    if self.is_v3() {
                        Statistics::from(TPacketV3Stats::from_words(record.as_slice()))
                    } else {
                        Statistics::from(TPacketStats::from_words(record.as_slice()))
                    },
                ),
            ),
            Step::Done(Err(error)) => Step::Done(Err(error)),
        }
    }

    /// Closes the facade: unmaps the memory of the ring, then closes the
    /// socket.
    pub fn close(&mut self, event: Option<Answer>) -> (step: Step<()>)
        ensures
            (final(self)@, step.model()) == old(self)@.close(heard(event)),
    {
        proof {
            use_type_invariant(&*self);
        }
        match self.mmap {
            Some(mapping) => {
                let unmap = Request::UnmapRing { addr: mapping.addr, length: mapping.length };
                match event {
                    None => Step::Call(unmap),
                    Some(answer) => match answer.request {
                        Request::UnmapRing { addr, length } => if addr == mapping.addr && length
                            == mapping.length {
                            match answer.reply.result() {
                                Ok(_) => {
                                    self.mmap = None;
                                    self.socket.close(None)
                                },
                                Err(error) => Step::Done(Err(error)),
                            }
                        } else {
                            Step::Done(Err(Error::InvalidInput))
                        },
                        _ => Step::Done(Err(Error::InvalidInput)),
                    },
                }
            },
            None => self.socket.close(event),
        }
    }

    /// Whether the tracked version is version 3.
    fn is_v3(&self) -> (newest: bool)
        ensures
            newest == (self@.version == TPacketVersion::V3),
    {
        match self.version {
            TPacketVersion::V3 => true,
            _ => false,
        }
    }

    /// The ABI version that the kernel accepted last.
    pub fn version(&self) -> (version: TPacketVersion)
        ensures
            version == self@.version,
    {
        self.version
    }

    /// The block-retire timeout that the facade was made with.
    pub fn timeout(&self) -> (timeout: Duration)
        ensures
            timeout == self@.timeout,
    {
        self.timeout
    }

    /// The mapped memory of the ring, if there is one. It is there only
    /// while the socket is open.
    pub fn mapping(&self) -> (mapping: Option<Mapping>)
        ensures
            mapping == self@.mapping,
            self@.sound(),
    {
        proof {
            use_type_invariant(self);
        }
        self.mmap
    }

    /// How far the facade has come.
    pub fn state(&self) -> (state: State)
        ensures
            state == self@.state(),
    {
        if self.socket.fd() == CLOSED {
            State::Closed
        } else if self.mmap.is_some() {
            State::Mapped
        } else if self.configured {
            State::Configured
        } else {
            State::Created
        }
    }

    /// The descriptor of the socket.
    pub fn fd(&self) -> (fd: i32)
        ensures
            fd == self@.fd,
    {
        self.socket.fd()
    }
}

/// The same step without what it returns.
fn drop_value<T>(step: Step<T>) -> (bare: Step<()>)
    ensures
        bare.model() == discard(step.model()),
{
    match step {
        Step::Call(request) => Step::Call(request),
        Step::Done(Ok(_)) => Step::Done(Ok(())),
        Step::Done(Err(error)) => Step::Done(Err(error)),
    }
}

/// The request that asks the kernel for `version` on the socket `fd`.
pub open spec fn version_request(fd: i32, version: TPacketVersion) -> RequestView {
    RequestView::SetOption { fd, option: PACKET_VERSION, value: version.record() }
}

/// Whether `kernel` accepts `version` on the socket `fd`.
pub open spec fn accepts(kernel: spec_fn(RequestView) -> ReplyView, fd: i32, version: TPacketVersion) -> bool {
    kernel(version_request(fd, version)).outcome() is Ok
}

/// Whether `kernel` refuses `version` on the socket `fd`, with an error of
/// its own.
pub open spec fn refuses(kernel: spec_fn(RequestView) -> ReplyView, fd: i32, version: TPacketVersion) -> bool {
    kernel(version_request(fd, version)).outcome() matches Err(Error::Os(_))
}

/// What trying `version` and then the older versions one by one comes to
/// with `kernel`: the first version that it accepts, or the error that ends
/// the fallback. An error of the kernel's own leads on to the next older
/// version, and ends the fallback at version 1; an answer that is no status
/// ends it at once.
pub open spec fn settles(kernel: spec_fn(RequestView) -> ReplyView, fd: i32, version: TPacketVersion) -> Result<
    TPacketVersion,
    Error,
>
    decreases version.spec_code(),
{
    match kernel(version_request(fd, version)).outcome() {
        Ok(_) => Ok(version),
        Err(Error::Os(errno)) => match version {
            TPacketVersion::V3 => settles(kernel, fd, TPacketVersion::V2),
            TPacketVersion::V2 => settles(kernel, fd, TPacketVersion::V1),
            TPacketVersion::V1 => Err(Error::Os(errno)),
        },
        Err(Error::InvalidInput) => Err(Error::InvalidInput),
    }
}

/// Where setting the highest version ends when `kernel` answers every
/// request of it.
pub open spec fn negotiate(facade: Facade, kernel: spec_fn(RequestView) -> ReplyView) -> (
    Facade,
    Option<Result<TPacketVersion, Error>>,
) {
    run(
        |state: Facade, event: Option<AnswerView>| state.set_highest_version(event),
        facade,
        None,
        kernel,
        3,
    )
}

/// Where setting up a ring ends when `kernel` answers every request of it.
pub open spec fn set_up(
    facade: Facade,
    direction: RingDirection,
    options: RingOptions,
    kernel: spec_fn(RequestView) -> ReplyView,
) -> (Facade, Option<Result<(), Error>>) {
    run(
        |state: Facade, event: Option<AnswerView>| state.setup_ring(direction, options, event),
        facade,
        None,
        kernel,
        3,
    )
}

/// Setting the highest version settles on the newest version that the
/// kernel accepts, whatever it makes of the older ones, within three calls.
/// That version is then tracked and returned. Where the fallback ends in an
/// error, the tracked version stays and that error is returned: the error
/// of the last call, the one for version 1, where the kernel refuses every
/// version.
pub proof fn lemma_negotiation_prefers_newest(facade: Facade, kernel: spec_fn(RequestView) -> ReplyView)
    ensures
        negotiate(facade, kernel) == (
            match settles(kernel, facade.fd, TPacketVersion::V3) {
                Ok(version) => Facade { version, ..facade },
                Err(_) => facade,
            },
            Some(settles(kernel, facade.fd, TPacketVersion::V3)),
        ),
        accepts(kernel, facade.fd, TPacketVersion::V3) ==> settles(
            kernel,
            facade.fd,
            TPacketVersion::V3,
        ) == Ok::<TPacketVersion, Error>(TPacketVersion::V3),
{
    reveal_with_fuel(run, 4);
    reveal_with_fuel(settles, 4);
}

/// Where the kernel accepts every version up to `ceiling` and refuses
/// every newer one, setting the highest version ends with `ceiling` tracked
/// and returned.
pub proof fn lemma_negotiation_reaches_ceiling(
    facade: Facade,
    kernel: spec_fn(RequestView) -> ReplyView,
    ceiling: TPacketVersion,
)
    requires
        forall|version: TPacketVersion|
            version.spec_code() <= ceiling.spec_code() ==> #[trigger] accepts(
                kernel,
                facade.fd,
                version,
            ),
        forall|version: TPacketVersion|
            version.spec_code() > ceiling.spec_code() ==> #[trigger] refuses(
                kernel,
                facade.fd,
                version,
            ),
    ensures
        negotiate(facade, kernel) == (
            Facade { version: ceiling, ..facade },
            Some(Ok::<TPacketVersion, Error>(ceiling)),
        ),
{
    lemma_negotiation_prefers_newest(facade, kernel);
    reveal_with_fuel(settles, 4);
    assert(accepts(kernel, facade.fd, TPacketVersion::V1));
    assert(ceiling != TPacketVersion::V3 ==> refuses(kernel, facade.fd, TPacketVersion::V3));
    assert(ceiling != TPacketVersion::V1 ==> accepts(kernel, facade.fd, TPacketVersion::V2));
    assert(ceiling == TPacketVersion::V1 ==> refuses(kernel, facade.fd, TPacketVersion::V2));
    assert(ceiling == TPacketVersion::V3 ==> accepts(kernel, facade.fd, TPacketVersion::V3));
}

/// Under version 3 a mapping that fails ends the setup with its own error
/// and undoes nothing: the ring request that the kernel accepted stays
/// accepted, and no mapping is taken. This holds of every facade, open or
/// closed. The statistics can still be read afterwards: the read is asked
/// for, and counters that the kernel delivers are decoded.
pub proof fn lemma_failed_mapping_is_not_rolled_back(
    facade: Facade,
    direction: RingDirection,
    options: RingOptions,
    kernel: spec_fn(RequestView) -> ReplyView,
    later: ReplyView,
)
    requires
        facade.version == TPacketVersion::V3,
        kernel(
            RequestView::SetOption {
                fd: facade.fd,
                option: direction.spec_option(),
                value: facade.ring_request(options).layout(),
            },
        ).outcome() is Ok,
        kernel(
            RequestView::MapRing { fd: facade.fd, length: options.ring_bytes() },
        ).address_outcome() is Err,
        later.outcome() is Ok,
    ensures
        ({
            let failure = kernel(
                RequestView::MapRing { fd: facade.fd, length: options.ring_bytes() },
            ).address_outcome();
            let after = Facade { configured: true, ..facade };
            let read = RequestView::GetOption {
                fd: facade.fd,
                option: PACKET_STATISTICS,
                words: STATS_V3_WORDS,
            };
            &&& set_up(facade, direction, options, kernel) == (
                after,
                Some(Err::<(), Error>(failure->Err_0)),
            )
            &&& after.mapping == facade.mapping
            &&& facade.mapping is None && facade.fd != CLOSED ==> after.state()
                == State::Configured
            &&& after.get_statistics(None) == StepView::<Statistics>::Call(read)
            &&& after.get_statistics(Some(AnswerView { request: read, reply: later })) == StepView::<
                Statistics,
            >::Done(Ok(after.decode(later.words)))
        }),
{
    reveal_with_fuel(run, 4);
}

/// Where the kernel refuses nothing, setting up a ring on an open socket
/// ends well. Under version 3 the ring is then mapped, at the address that
/// the kernel returned and with all the bytes of the ring. Under versions 1
/// and 2 it is configured, and no mapping was asked for.
pub proof fn lemma_setup_reaches_its_state(
    facade: Facade,
    direction: RingDirection,
    options: RingOptions,
    kernel: spec_fn(RequestView) -> ReplyView,
)
    requires
        facade.fd != CLOSED,
        facade.mapping is None,
        forall|request: RequestView| (#[trigger] kernel(request)).outcome() is Ok,
    ensures
        ({
            let (after, result) = set_up(facade, direction, options, kernel);
            let address = kernel(
                RequestView::MapRing { fd: facade.fd, length: options.ring_bytes() },
            ).address_outcome();
            &&& result == Some(Ok::<(), Error>(()))
            &&& facade.version == TPacketVersion::V3 ==> address is Ok && after == (Facade {
                configured: true,
                mapping: Some(Mapping { addr: address->Ok_0, length: options.ring_bytes() }),
                ..facade
            }) && after.state() == State::Mapped
            &&& facade.version != TPacketVersion::V3 ==> after == (Facade {
                configured: true,
                ..facade
            }) && after.state() == State::Configured
        }),
{
    reveal_with_fuel(run, 4);
    let map = RequestView::MapRing { fd: facade.fd, length: options.ring_bytes() };
    assert(kernel(map).outcome() is Ok);
}

/// The ring is mapped only under version 3 and after its request was
/// accepted: whatever answer a setup is handed, a facade without a mapping
/// takes one only if it tracks version 3, the kernel has accepted a ring
/// request, and the socket is open.
pub proof fn lemma_mapping_needs_its_ring(
    facade: Facade,
    direction: RingDirection,
    options: RingOptions,
    event: Option<AnswerView>,
)
    requires
        facade.mapping is None,
    ensures
        facade.setup_ring(direction, options, event).0.mapping is Some ==> facade.maps()
            && facade.fd != CLOSED,
        !facade.maps() && (event matches Some(answer) && (answer.request is MapRing
            || answer.request is GetOption)) ==> facade.setup_ring(direction, options, event) == (
            facade,
            StepView::<()>::Done(Err(Error::InvalidInput)),
        ),
{
}

/// Where closing the facade ends when `kernel` answers every request of
/// it.
pub open spec fn shut(facade: Facade, kernel: spec_fn(RequestView) -> ReplyView) -> (
    Facade,
    Option<Result<(), Error>>,
) {
    run(|state: Facade, event: Option<AnswerView>| state.close(event), facade, None, kernel, 2)
}

/// No mapping outlives its socket: of a facade that holds a mapping only
/// while its socket is open, the same is true after every step of every
/// operation, whatever the kernel answered and whichever answer was handed
/// in.
pub proof fn lemma_no_mapping_outlives_its_socket(
    facade: Facade,
    version: TPacketVersion,
    direction: RingDirection,
    options: RingOptions,
    event: Option<AnswerView>,
)
    requires
        facade.sound(),
    ensures
        facade.set_version(version, event).0.sound(),
        facade.set_highest_version(event).0.sound(),
        facade.setup_ring(direction, options, event).0.sound(),
        facade.close(event).0.sound(),
{
}

/// Closing a facade whose ring is mapped unmaps the ring before it closes
/// the socket. Where the kernel answers both calls with a status, the
/// facade ends closed and without a mapping, whether or not closing the
/// socket failed. Where unmapping fails, nothing is closed: the facade
/// stays as it was, and the error is returned.
pub proof fn lemma_close_unmaps_first(
    facade: Facade,
    mapping: Mapping,
    kernel: spec_fn(RequestView) -> ReplyView,
)
    requires
        facade.fd != CLOSED,
        facade.mapping == Some(mapping),
    ensures
        ({
            let unmap = RequestView::UnmapRing { addr: mapping.addr, length: mapping.length };
            let close = RequestView::Close { fd: facade.fd };
            &&& facade.close(None) == (facade, StepView::<()>::Call(unmap))
            &&& kernel(unmap).outcome() matches Err(error) ==> shut(facade, kernel) == (
                facade,
                Some(Err::<(), Error>(error)),
            )
            &&& kernel(unmap).outcome() is Ok ==> shut(facade, kernel) == (match kernel(
                close,
            ).outcome() {
                Ok(_) => (
                    Facade { fd: CLOSED, mapping: None, ..facade },
                    Some(Ok::<(), Error>(())),
                ),
                Err(Error::Os(errno)) => (
                    Facade { fd: CLOSED, mapping: None, ..facade },
                    Some(Err::<(), Error>(Error::Os(errno))),
                ),
                Err(Error::InvalidInput) => (
                    Facade { mapping: None, ..facade },
                    Some(Err::<(), Error>(Error::InvalidInput)),
                ),
            })
        }),
{
    reveal_with_fuel(run, 3);
}

/// Every operation of the facade ends, whatever the kernel answers:
/// setting a version and reading the statistics after one call, setting
/// the highest version and setting up a ring after three calls at most, and
/// closing after two at most.
pub proof fn lemma_operations_end(
    facade: Facade,
    version: TPacketVersion,
    direction: RingDirection,
    options: RingOptions,
    kernel: spec_fn(RequestView) -> ReplyView,
)
    ensures
        run(
            |state: Facade, event: Option<AnswerView>| state.set_version(version, event),
            facade,
            None,
            kernel,
            1,
        ).1 is Some,
        run(
            |state: Facade, event: Option<AnswerView>| (state, state.get_statistics(event)),
            facade,
            None,
            kernel,
            1,
        ).1 is Some,
        negotiate(facade, kernel).1 is Some,
        set_up(facade, direction, options, kernel).1 is Some,
        shut(facade, kernel).1 is Some,
{
    reveal_with_fuel(run, 4);
}

} // verus!
