//! The boundary to the kernel. An operation of this library never calls the
//! kernel. It returns a [`Step`]: either the one [`Request`] that has to be
//! carried out next, or the operation's result. The caller carries the
//! request out and calls the operation again with the [`Answer`].
//!
//! An operation is started with no answer. Later it takes the answer to a
//! request only if it makes that very request in the state that it is in.
//! Every other answer, and every reply that holds a value which the call
//! cannot have returned, is refused with [`Error::InvalidInput`], and
//! nothing changes.
//!
//! The records that go to the kernel and come back from it are sequences of
//! 32-bit fields of any length. Contracts speak of requests, replies and
//! steps by their views, in which a record is the sequence of its fields.

use crate::afpacket::error::Error;
use crate::afpacket::socket::IFNAMSIZ;
use vstd::prelude::*;

verus! {

/// One kernel call, with all that is passed to it.
#[derive(Debug, Clone, PartialEq, Eq)]
pub enum Request {
    /// Open a raw link-layer socket that receives every protocol.
    Socket,
    /// Close the descriptor `fd`.
    Close { fd: i32 },
    /// Switch `fd` to non-blocking mode.
    SetNonblocking { fd: i32 },
    /// Look up the index of the interface called `name`. A name shorter
    /// than the platform's limit is followed by zero bytes up to the limit.
    /// A name of the full length fills the buffer and leaves no zero byte:
    /// whoever hands the buffer to a call that reads up to a zero byte has
    /// to append one.
    ResolveInterface { name: [u8; IFNAMSIZ] },
    /// Bind `fd` to the interface with index `ifindex`, as a link-layer
    /// address for every protocol.
    BindInterface { fd: i32, ifindex: i32 },
    /// Set the packet-socket option `option` of `fd` to the record `value`,
    /// whose 32-bit fields are passed in this order.
    SetOption { fd: i32, option: i32, value: Vec<u32> },
    /// Read the packet-socket option `option` of `fd` into a record of
    /// `words` 32-bit fields.
    GetOption { fd: i32, option: i32, words: usize },
    /// Map `length` bytes of the ring of `fd`, readable and writable, shared
    /// with the kernel.
    MapRing { fd: i32, length: u64 },
    /// Unmap the `length` bytes that are mapped at `addr`.
    UnmapRing { addr: usize, length: u64 },
}

/// A [`Request`] as contracts see it.
pub enum RequestView {
    Socket,
    Close { fd: i32 },
    SetNonblocking { fd: i32 },
    ResolveInterface { name: Seq<u8> },
    BindInterface { fd: i32, ifindex: i32 },
    SetOption { fd: i32, option: i32, value: Seq<u32> },
    GetOption { fd: i32, option: i32, words: usize },
    MapRing { fd: i32, length: u64 },
    UnmapRing { addr: usize, length: u64 },
}

impl View for Request {
    type V = RequestView;

    open spec fn view(&self) -> RequestView {
        match *self {
            Request::Socket => RequestView::Socket,
            Request::Close { fd } => RequestView::Close { fd },
            Request::SetNonblocking { fd } => RequestView::SetNonblocking { fd },
            Request::ResolveInterface { name } => RequestView::ResolveInterface { name: name@ },
            Request::BindInterface { fd, ifindex } => RequestView::BindInterface { fd, ifindex },
            Request::SetOption { fd, option, value } => RequestView::SetOption {
                fd,
                option,
                value: value@,
            },
            Request::GetOption { fd, option, words } => RequestView::GetOption {
                fd,
                option,
                words,
            },
            Request::MapRing { fd, length } => RequestView::MapRing { fd, length },
            Request::UnmapRing { addr, length } => RequestView::UnmapRing { addr, length },
        }
    }
}

/// What the kernel made of one call.
#[derive(Debug, Clone, PartialEq, Eq)]
pub struct Reply {
    /// The value that the call returned, widened to 64 bits: a status, a
    /// descriptor, an interface index or the address of a mapping.
    pub ret: i64,
    /// `errno` as the call left it. It counts only where `ret` reports a
    /// failure.
    pub errno: i32,
    /// The record that a read of an option filled in, first field first;
    /// empty where the call read none.
    pub words: Vec<u32>,
}

/// A [`Reply`] as contracts see it.
pub struct ReplyView {
    pub ret: i64,
    pub errno: i32,
    pub words: Seq<u32>,
}

impl View for Reply {
    type V = ReplyView;

    open spec fn view(&self) -> ReplyView {
        ReplyView { ret: self.ret, errno: self.errno, words: self.words@ }
    }
}

/// A request together with what the kernel made of it.
#[derive(Debug, Clone, PartialEq, Eq)]
pub struct Answer {
    pub request: Request,
    pub reply: Reply,
}

/// An [`Answer`] as contracts see it.
pub struct AnswerView {
    pub request: RequestView,
    pub reply: ReplyView,
}

impl View for Answer {
    type V = AnswerView;

    open spec fn view(&self) -> AnswerView {
        AnswerView { request: self.request@, reply: self.reply@ }
    }
}

/// What an operation is handed, as contracts see it: nothing at its start,
/// later the answer to its last request.
pub open spec fn heard(event: Option<Answer>) -> Option<AnswerView> {
    match event {
        None => None,
        Some(answer) => Some(answer@),
    }
}

/// How an operation goes on.
#[derive(Debug, PartialEq, Eq)]
pub enum Step<T> {
    /// The kernel has to be asked this; the operation goes on with the
    /// answer.
    Call(Request),
    /// The operation has ended.
    Done(Result<T, Error>),
}

/// A [`Step`] as contracts see it.
pub enum StepView<T> {
    Call(RequestView),
    Done(Result<T, Error>),
}

impl<T> Step<T> {
    /// The step with the view of its request; what the operation returns
    /// is left as it is.
    pub open spec fn model(self) -> StepView<T> {
        match self {
            Step::Call(request) => StepView::Call(request@),
            Step::Done(result) => StepView::Done(result),
        }
    }
}

impl<T: View> View for Step<T> {
    type V = StepView<T::V>;

    /// The step with the view of its request and of what the operation
    /// returns.
    open spec fn view(&self) -> StepView<T::V> {
        match *self {
            Step::Call(request) => StepView::Call(request@),
            Step::Done(Ok(value)) => StepView::Done(Ok(value@)),
            Step::Done(Err(error)) => StepView::Done(Err(error)),
        }
    }
}

impl ReplyView {
    /// How a call that returns a 32-bit status ended: with the error that
    /// `errno` names where it returned -1, else with the value that it
    /// returned. A value that no such call returns, one outside 32 bits, is
    /// refused.
    pub open spec fn outcome(self) -> Result<i32, Error> {
        if self.ret < i32::MIN || self.ret > i32::MAX {
            Err(Error::InvalidInput)
        } else if self.ret == -1 {
            Err(Error::Os(self.errno))
        } else {
            Ok(self.ret as i32)
        }
    }

    /// How a lookup of an interface index ended. The kernel counts
    /// interfaces in 32 bits without a sign: 0 reports that the lookup
    /// failed, with the error that `errno` names. Any other index is
    /// returned as the signed number of the same 32 bits, by which a socket
    /// is bound. A value outside 32 bits is refused.
    pub open spec fn index_outcome(self) -> Result<i32, Error> {
        if self.ret < 0 || self.ret > u32::MAX {
            Err(Error::InvalidInput)
        } else if self.ret == 0 {
            Err(Error::Os(self.errno))
        } else if self.ret > i32::MAX {
            Ok((self.ret - 0x1_0000_0000) as i32)
        } else {
            Ok(self.ret as i32)
        }
    }

    /// How a mapping ended: with the error that `errno` names where the
    /// call returned -1 for the address, else with the address. The call
    /// returns an address as a signed number of its own width; a value
    /// outside that width is refused.
    pub open spec fn address_outcome(self) -> Result<usize, Error> {
        if self.ret < isize::MIN || self.ret > isize::MAX {
            Err(Error::InvalidInput)
        } else if self.ret == -1 {
            Err(Error::Os(self.errno))
        } else if self.ret < 0 {
            Ok((self.ret + usize::MAX + 1) as usize)
        } else {
            Ok(self.ret as usize)
        }
    }

    /// The record that a read of `words` fields brought back: the fields of
    /// the reply, and no more than were read.
    pub open spec fn record(self, words: usize) -> Seq<u32> {
        if words < self.words.len() {
            self.words.subrange(0, words as int)
        } else {
            self.words
        }
    }
}

/// The field of a record at `index`; zero where the record ends before it,
/// as in a record that the kernel has not written to.
pub open spec fn field(record: Seq<u32>, index: int) -> u32 {
    if 0 <= index < record.len() {
        record[index]
    } else {
        0
    }
}

impl Reply {
    /// How a call that returns a 32-bit status ended.
    pub fn result(&self) -> (r: Result<i32, Error>)
        ensures
            r == self@.outcome(),
        no_unwind
    {
        if self.ret < -0x8000_0000 || self.ret > 0x7fff_ffff {
            Err(Error::InvalidInput)
        } else if self.ret == -1 {
            Err(Error::Os(self.errno))
        } else {
            Ok(self.ret as i32)
        }
    }

    /// How a lookup of an interface index ended.
    pub fn index(&self) -> (r: Result<i32, Error>)
        ensures
            r == self@.index_outcome(),
    {
        if self.ret < 0 || self.ret > 0xffff_ffff {
            Err(Error::InvalidInput)
        } else if self.ret == 0 {
            Err(Error::Os(self.errno))
        } else if self.ret > 0x7fff_ffff {
            Ok((self.ret - 0x1_0000_0000) as i32)
        } else {
            Ok(self.ret as i32)
        }
    }

    /// How a mapping ended.
    pub fn address(&self) -> (r: Result<usize, Error>)
        ensures
            r == self@.address_outcome(),
    {
        if self.ret < isize::MIN as i64 || self.ret > isize::MAX as i64 {
            Err(Error::InvalidInput)
        } else if self.ret == -1 {
            Err(Error::Os(self.errno))
        } else if self.ret < 0 {
            Ok(usize::MAX - ((-(self.ret + 1)) as usize))
        } else {
            Ok(self.ret as usize)
        }
    }
}

/// The field of `record` at `index`; zero where the record ends before it.
pub fn field_of(record: &[u32], index: usize) -> (value: u32)
    ensures
        value == field(record@, index as int),
{
    if index < record.len() {
        record[index]
    } else {
        0
    }
}

/// Whether two records hold the same fields.
pub fn same_record(left: &[u32], right: &[u32]) -> (same: bool)
    ensures
        same == (left@ == right@),
{
    if left.len() != right.len() {
        return false;
    }
    let mut i: usize = 0;
    while i < left.len()
        invariant
            i <= left@.len() == right@.len(),
            forall|j: int| 0 <= j < i ==> left@[j] == right@[j],
        decreases left@.len() - i,
    {
        if left[i] != right[i] {
            return false;
        }
        i += 1;
    }
    assert(left@ =~= right@);
    true
}

/// An operation seen as a function: from a state and the answer to its last
/// request (none at its start) to the next state and the next step.
pub type Operation<S, T> = spec_fn(S, Option<AnswerView>) -> (S, StepView<T>);

/// Where `operation` ends when it starts in `state` with `event` and every
/// request is answered by `kernel`, and what it returns there. The second
/// component is `None` where the operation asks for more than `calls` calls.
pub open spec fn run<S, T>(
    operation: Operation<S, T>,
    state: S,
    event: Option<AnswerView>,
    kernel: spec_fn(RequestView) -> ReplyView,
    calls: nat,
) -> (S, Option<Result<T, Error>>)
    decreases calls,
{
    let (next, step) = operation(state, event);
    match step {
        StepView::Done(result) => (next, Some(result)),
        StepView::Call(request) => if calls == 0 {
            (next, None)
        } else {
            run(
                operation,
                next,
                Some(AnswerView { request, reply: kernel(request) }),
                kernel,
                (calls - 1) as nat,
            )
        },
    }
}

} // verus!
