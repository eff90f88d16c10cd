//! The raw socket: one descriptor, and the calls that are made on it.

use crate::afpacket::error::Error;
use crate::afpacket::kernel::{
    heard, run, same_record, Answer, AnswerView, ReplyView, Request, RequestView, Step, StepView,
};
use vstd::prelude::*;
use vstd::slice::slice_to_vec;
use vstd::string::StringSliceAdditionalSpecFns;

verus! {

/// The most bytes that the name of an interface may have.
pub const IFNAMSIZ: usize = 16;

/// The descriptor of a socket that was closed.
pub const CLOSED: i32 = -1;

/// One raw socket. It holds either the descriptor of an open socket or
/// [`CLOSED`]; once closed it stays closed.
#[derive(Debug)]
pub struct RawSocket {
    fd: i32,
}

impl View for RawSocket {
    type V = i32;

    /// The descriptor.
    closed spec fn view(&self) -> i32 {
        self.fd
    }
}

/// How opening a socket goes on: it asks for the socket, and takes the
/// descriptor that the kernel returned unless the call failed. A socket
/// that was opened never holds [`CLOSED`].
pub open spec fn open_step(event: Option<AnswerView>) -> StepView<i32> {
    match event {
        None => StepView::Call(RequestView::Socket),
        Some(answer) => if answer.request == RequestView::Socket {
            StepView::Done(answer.reply.outcome())
        } else {
            StepView::Done(Err(Error::InvalidInput))
        },
    }
}

/// How closing the socket with descriptor `fd` goes on, and the descriptor
/// that the socket holds afterwards. A closed socket is left alone. An open
/// one is closed by one call, and counts as closed once the kernel has
/// answered that call, whether or not it failed.
pub open spec fn close_step(fd: i32, event: Option<AnswerView>) -> (i32, StepView<()>) {
    if fd == CLOSED {
        match event {
            None => (fd, StepView::Done(Ok(()))),
            Some(_) => (fd, StepView::Done(Err(Error::InvalidInput))),
        }
    } else {
        match event {
            None => (fd, StepView::Call(RequestView::Close { fd })),
            Some(answer) => if answer.request == (RequestView::Close { fd }) {
                match answer.reply.outcome() {
                    Ok(_) => (CLOSED, StepView::Done(Ok(()))),
                    Err(Error::Os(errno)) => (CLOSED, StepView::Done(Err(Error::Os(errno)))),
                    Err(Error::InvalidInput) => (fd, StepView::Done(Err(Error::InvalidInput))),
                }
            } else {
                (fd, StepView::Done(Err(Error::InvalidInput)))
            },
        }
    }
}

/// How an operation of one call goes on, where the call returns a status
/// and nothing else is wanted of it: `request` is asked for, and its
/// failure is the operation's failure.
pub open spec fn single_step(request: RequestView, event: Option<AnswerView>) -> StepView<()> {
    match event {
        None => StepView::Call(request),
        Some(answer) => if answer.request == request {
            match answer.reply.outcome() {
                Ok(_) => StepView::Done(Ok(())),
                Err(error) => StepView::Done(Err(error)),
            }
        } else {
            StepView::Done(Err(Error::InvalidInput))
        },
    }
}

/// How switching the socket with descriptor `fd` to non-blocking mode goes
/// on: by one call.
pub open spec fn nonblocking_step(fd: i32, event: Option<AnswerView>) -> StepView<()> {
    single_step(RequestView::SetNonblocking { fd }, event)
}

/// How setting the packet-socket option `opt` of the socket with
/// descriptor `fd` to the record `val` goes on: by one call, whatever the
/// record holds and however long it is.
pub open spec fn setsockopt_step(
    fd: i32,
    opt: i32,
    val: Seq<u32>,
    event: Option<AnswerView>,
) -> StepView<()> {
    single_step(RequestView::SetOption { fd, option: opt, value: val }, event)
}

/// How reading the packet-socket option `opt` of the socket with descriptor
/// `fd` into a record of `words` fields goes on: by one call, however long
/// the record is. The call fails with the kernel's error, or delivers the
/// record that it read.
pub open spec fn getsockopt_step(
    fd: i32,
    opt: i32,
    words: usize,
    event: Option<AnswerView>,
) -> StepView<Seq<u32>> {
    let request = RequestView::GetOption { fd, option: opt, words };
    match event {
        None => StepView::Call(request),
        Some(answer) => if answer.request == request {
            match answer.reply.outcome() {
                Ok(_) => StepView::Done(Ok(answer.reply.record(words))),
                Err(error) => StepView::Done(Err(error)),
            }
        } else {
            StepView::Done(Err(Error::InvalidInput))
        },
    }
}

/// The name of an interface as the kernel takes it: the bytes of `name`,
/// then zero bytes up to the limit.
pub open spec fn padded(name: Seq<u8>) -> Seq<u8> {
    Seq::new(
        IFNAMSIZ as nat,
        |i: int|
            if i < name.len() {
                name[i]
            } else {
                0u8
            },
    )
}

/// How looking up the index of the interface called `name` goes on. A name
/// of more bytes than the limit is refused at once, and no call is asked
/// for. Else one call looks the name up, and its answer is read as an
/// interface index: 0 reports that the lookup failed, and any other index
/// is returned.
pub open spec fn resolve_step(name: Seq<u8>, event: Option<AnswerView>) -> StepView<i32> {
    if name.len() > IFNAMSIZ {
        StepView::Done(Err(Error::InvalidInput))
    } else {
        match event {
            None => StepView::Call(RequestView::ResolveInterface { name: padded(name) }),
            Some(answer) => if answer.request == (RequestView::ResolveInterface {
                name: padded(name),
            }) {
                StepView::Done(answer.reply.index_outcome())
            } else {
                StepView::Done(Err(Error::InvalidInput))
            },
        }
    }
}

/// How binding the socket with descriptor `fd` to the interface called
/// `name` goes on. The name is looked up as [`resolve_step`] says, and
/// the socket is then bound to the index found. Whatever fails first ends
/// the operation with its error.
pub open spec fn bind_step(fd: i32, name: Seq<u8>, event: Option<AnswerView>) -> StepView<()> {
    if name.len() > IFNAMSIZ {
        StepView::Done(Err(Error::InvalidInput))
    } else {
        match event {
            Some(AnswerView { request: RequestView::BindInterface { ifindex, .. }, .. }) => {
                single_step(RequestView::BindInterface { fd, ifindex }, event)
            },
            _ => match resolve_step(name, event) {
                StepView::Call(request) => StepView::Call(request),
                StepView::Done(Ok(ifindex)) => StepView::Call(
                    RequestView::BindInterface { fd, ifindex },
                ),
                StepView::Done(Err(error)) => StepView::Done(Err(error)),
            },
        }
    }
}

/// The platform's limit on the name of an interface, `libc::IFNAMSIZ`. It
/// is taken to be [`IFNAMSIZ`]: 16 bytes, as it is on Linux, the one
/// platform that has the packet socket.
#[verifier::external_body]
fn interface_name_limit() -> (limit: usize)
    ensures
        limit == IFNAMSIZ,
{
    libc::IFNAMSIZ
}

/// The buffer that the kernel is handed for the name `bytes`.
fn fill_name(bytes: &[u8]) -> (buffer: [u8; IFNAMSIZ])
    requires
        bytes@.len() <= IFNAMSIZ,
    ensures
        buffer@ == padded(bytes@),
{
    let mut buffer = [0u8; IFNAMSIZ];
    let mut i: usize = 0;
    while i < bytes.len()
        invariant
            i <= bytes@.len() <= IFNAMSIZ,
            forall|j: int| 0 <= j < i ==> buffer@[j] == bytes@[j],
            forall|j: int| i <= j < IFNAMSIZ ==> buffer@[j] == 0u8,
        decreases bytes@.len() - i,
    {
        buffer[i] = bytes[i];
        i += 1;
    }
    assert(buffer@ =~= padded(bytes@));
    buffer
}

/// Whether two name buffers hold the same bytes.
fn same_name(left: &[u8; IFNAMSIZ], right: &[u8; IFNAMSIZ]) -> (same: bool)
    ensures
        same == (left@ == right@),
{
    let mut i: usize = 0;
    while i < IFNAMSIZ
        invariant
            i <= IFNAMSIZ,
            forall|j: int| 0 <= j < i ==> left@[j] == right@[j],
        decreases IFNAMSIZ - i,
    {
        if left[i] != right[i] {
            return false;
        }
        i += 1;
    }
    assert(left@ =~= right@);
    true
}

/// Goes on with an operation of one call. `asked` says whether the answer,
/// if there is one, is the answer to `request`.
fn single(request: Request, asked: bool, event: Option<Answer>) -> (step: Step<()>)
    requires
        event matches Some(answer) ==> asked == (answer.request@ == request@),
    ensures
        step.model() == single_step(request@, heard(event)),
{
    match event {
        None => Step::Call(request),
        Some(answer) => if asked {
            match answer.reply.result() {
                Ok(_) => Step::Done(Ok(())),
                Err(error) => Step::Done(Err(error)),
            }
        } else {
            Step::Done(Err(Error::InvalidInput))
        },
    }
}

/// Looks up the index of the interface called `name`.
pub fn ifindex_by_name(name: &str, event: Option<Answer>) -> (step: Step<i32>)
    ensures
        step.model() == resolve_step(name.spec_bytes(), heard(event)),
{
    let bytes = name.as_bytes();
    if bytes.len() > interface_name_limit() {
        return Step::Done(Err(Error::InvalidInput));
    }
    let buffer = fill_name(bytes);
    match event {
        None => Step::Call(Request::ResolveInterface { name: buffer }),
        Some(answer) => match answer.request {
            Request::ResolveInterface { name: asked } => if same_name(&asked, &buffer) {
                Step::Done(answer.reply.index())
            } else {
                Step::Done(Err(Error::InvalidInput))
            },
            _ => Step::Done(Err(Error::InvalidInput)),
        },
    }
}

impl RawSocket {
    /// Opens a raw link-layer socket for every protocol.
    pub fn new(event: Option<Answer>) -> (step: Step<RawSocket>)
        ensures
            step@ == open_step(heard(event)),
            step matches Step::Done(Ok(socket)) ==> socket@ != CLOSED,
    {
        match event {
            None => Step::Call(Request::Socket),
            Some(answer) => match answer.request {
                Request::Socket => match answer.reply.result() {
                    Ok(fd) => Step::Done(Ok(RawSocket { fd })),
                    Err(error) => Step::Done(Err(error)),
                },
                _ => Step::Done(Err(Error::InvalidInput)),
            },
        }
    }

    /// Closes the socket. Closing a closed socket asks for nothing and
    /// succeeds.
    pub fn close(&mut self, event: Option<Answer>) -> (step: Step<()>)
        ensures
            (final(self)@, step.model()) == close_step(old(self)@, heard(event)),
        no_unwind
    {
        if self.fd == CLOSED {
            return match event {
                None => Step::Done(Ok(())),
                Some(_) => Step::Done(Err(Error::InvalidInput)),
            };
        }
        match event {
            None => Step::Call(Request::Close { fd: self.fd }),
            Some(answer) => match answer.request {
                Request::Close { fd } => if fd == self.fd {
                    match answer.reply.result() {
                        Ok(_) => {
                            self.fd = CLOSED;
                            Step::Done(Ok(()))
                        },
                        Err(Error::Os(errno)) => {
                            self.fd = CLOSED;
                            Step::Done(Err(Error::Os(errno)))
                        },
                        Err(Error::InvalidInput) => Step::Done(Err(Error::InvalidInput)),
                    }
                } else {
                    Step::Done(Err(Error::InvalidInput))
                },
                _ => Step::Done(Err(Error::InvalidInput)),
            },
        }
    }

    /// The descriptor, [`CLOSED`] once the socket was closed.
    pub fn fd(&self) -> (fd: i32)
        ensures
            fd == self@,
    {
        self.fd
    }

    /// Reads the packet-socket option `opt` into a record of `words` 32-bit
    /// fields, and returns the fields that the read brought back.
    pub fn getsockopt(&self, opt: i32, words: usize, event: Option<Answer>) -> (step: Step<
        Vec<u32>,
    >)
        ensures
            step@ == getsockopt_step(self@, opt, words, heard(event)),
    {
        match event {
            None => Step::Call(Request::GetOption { fd: self.fd, option: opt, words }),
            Some(answer) => {
                let Answer { request, reply } = answer;
                match request {
                    Request::GetOption { fd, option, words: asked } => if fd == self.fd && option
                        == opt && asked == words {
                        match reply.result() {
                            Ok(_) => {
                                let mut record = reply.words;
                                record.truncate(words);
                                assert(record@ =~= reply@.record(words));
                                Step::Done(Ok(record))
                            },
                            Err(error) => Step::Done(Err(error)),
                        }
                    } else {
                        Step::Done(Err(Error::InvalidInput))
                    },
                    _ => Step::Done(Err(Error::InvalidInput)),
                }
            },
        }
    }

    /// Sets the packet-socket option `opt` to the record `val`.
    pub fn setsockopt(&self, opt: i32, val: &[u32], event: Option<Answer>) -> (step: Step<()>)
        ensures
            step.model() == setsockopt_step(self@, opt, val@, heard(event)),
    {
        let asked = match &event {
            Some(answer) => match &answer.request {
                Request::SetOption { fd, option, value } => *fd == self.fd && *option == opt
                    && same_record(value.as_slice(), val),
                _ => false,
            },
            None => false,
        };
        single(
            Request::SetOption { fd: self.fd, option: opt, value: slice_to_vec(val) },
            asked,
            event,
        )
    }

    /// Switches the socket to non-blocking mode.
    pub fn set_nonblocking(&self, event: Option<Answer>) -> (step: Step<()>)
        ensures
            step.model() == nonblocking_step(self@, heard(event)),
    {
        let asked = match &event {
            Some(answer) => match &answer.request {
                Request::SetNonblocking { fd } => *fd == self.fd,
                _ => false,
            },
            None => false,
        };
        single(Request::SetNonblocking { fd: self.fd }, asked, event)
    }

    /// Binds the socket to the interface called `ifname`.
    pub fn bind_interface(&self, ifname: &str, event: Option<Answer>) -> (step: Step<()>)
        ensures
            step.model() == bind_step(self@, ifname.spec_bytes(), heard(event)),
    {
        if ifname.as_bytes().len() > interface_name_limit() {
            return Step::Done(Err(Error::InvalidInput));
        }
        let bound = match &event {
            Some(answer) => match &answer.request {
                Request::BindInterface { fd, ifindex } => Some((*fd, *ifindex)),
                _ => None,
            },
            None => None,
        };
        if let Some((fd, ifindex)) = bound {
            return single(Request::BindInterface { fd: self.fd, ifindex }, fd == self.fd, event);
        }
        match ifindex_by_name(ifname, event) {
            Step::Call(request) => Step::Call(request),
            Step::Done(Ok(ifindex)) => Step::Call(Request::BindInterface { fd: self.fd, ifindex }),
            Step::Done(Err(error)) => Step::Done(Err(error)),
        }
    }
}

/// A name of more bytes than the limit is refused before the kernel is
/// asked anything: binding ends with the invalid-input error even where not
/// a single call is granted, whatever the kernel would have answered.
pub proof fn lemma_long_name_asks_nothing(
    fd: i32,
    name: Seq<u8>,
    kernel: spec_fn(RequestView) -> ReplyView,
)
    requires
        name.len() > IFNAMSIZ,
    ensures
        bind_step(fd, name, None) == StepView::<()>::Done(Err(Error::InvalidInput)),
        run(
            |state: i32, event: Option<AnswerView>| (state, bind_step(state, name, event)),
            fd,
            None,
            kernel,
            0,
        ) == (fd, Some(Err::<(), Error>(Error::InvalidInput))),
{
    reveal_with_fuel(run, 1);
}

/// A read of an option asks the kernel whatever the length of the record,
/// and fails only as the read fails: with the kernel's error if and only if
/// the call returned -1. Every other status delivers the record.
pub proof fn lemma_option_read_is_not_capped(
    fd: i32,
    opt: i32,
    words: usize,
    reply: ReplyView,
)
    ensures
        ({
            let request = RequestView::GetOption { fd, option: opt, words };
            let answered = getsockopt_step(fd, opt, words, Some(AnswerView { request, reply }));
            &&& getsockopt_step(fd, opt, words, None) == StepView::<Seq<u32>>::Call(request)
            &&& (answered matches StepView::Done(Err(Error::Os(_)))) <==> reply.ret == -1
            &&& reply.ret == -1 ==> answered == StepView::<Seq<u32>>::Done(
                Err(Error::Os(reply.errno)),
            )
            &&& reply.outcome() is Ok ==> answered == StepView::<Seq<u32>>::Done(
                Ok(reply.record(words)),
            )
            &&& reply.words.len() == words ==> reply.record(words) == reply.words
        }),
{
}

/// A write of an option asks the kernel whatever the record holds and
/// however long it is, and fails only as the write fails: with the
/// kernel's error if and only if the call returned -1.
pub proof fn lemma_option_write_takes_any_record(
    fd: i32,
    opt: i32,
    val: Seq<u32>,
    reply: ReplyView,
)
    ensures
        ({
            let request = RequestView::SetOption { fd, option: opt, value: val };
            let answered = setsockopt_step(fd, opt, val, Some(AnswerView { request, reply }));
            &&& setsockopt_step(fd, opt, val, None) == StepView::<()>::Call(request)
            &&& (answered matches StepView::Done(Err(Error::Os(_)))) <==> reply.ret == -1
            &&& reply.ret == -1 ==> answered == StepView::<()>::Done(Err(Error::Os(reply.errno)))
            &&& reply.outcome() is Ok ==> answered == StepView::<()>::Done(Ok(()))
        }),
{
}

/// Every operation of the socket ends, whatever the kernel answers:
/// binding after two calls at most, the others after one.
pub proof fn lemma_socket_operations_end(
    fd: i32,
    name: Seq<u8>,
    opt: i32,
    val: Seq<u32>,
    words: usize,
    kernel: spec_fn(RequestView) -> ReplyView,
)
    ensures
        run(
            |state: i32, event: Option<AnswerView>| (state, open_step(event)),
            fd,
            None,
            kernel,
            1,
        ).1 is Some,
        run(
            |state: i32, event: Option<AnswerView>| close_step(state, event),
            fd,
            None,
            kernel,
            1,
        ).1 is Some,
        run(
            |state: i32, event: Option<AnswerView>| (state, nonblocking_step(state, event)),
            fd,
            None,
            kernel,
            1,
        ).1 is Some,
        run(
            |state: i32, event: Option<AnswerView>| (state, setsockopt_step(state, opt, val, event)),
            fd,
            None,
            kernel,
            1,
        ).1 is Some,
        run(
            |state: i32, event: Option<AnswerView>|
                (state, getsockopt_step(state, opt, words, event)),
            fd,
            None,
            kernel,
            1,
        ).1 is Some,
        run(
            |state: i32, event: Option<AnswerView>| (state, resolve_step(name, event)),
            fd,
            None,
            kernel,
            1,
        ).1 is Some,
        run(
            |state: i32, event: Option<AnswerView>| (state, bind_step(state, name, event)),
            fd,
            None,
            kernel,
            2,
        ).1 is Some,
{
    reveal_with_fuel(run, 3);
}

} // verus!
