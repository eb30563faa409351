use crate::rt::{parked_after, wait_after, Interest, Outcome, Reg, WaitReason};
use vstd::pervasive::cloned;
use vstd::prelude::*;

verus! {

/// A socket-like resource that registers itself for readiness the first time
/// a task waits on it.
pub struct WithRegistry<T, E> {
    /// The wrapped resource.
    pub inner: T,
    /// The handle through which the resource is registered.
    pub executor: E,
    /// Whether the resource is registered for readiness.
    pub registered: bool,
}

/// The class of an I/O error, as far as suspension is concerned.
#[derive(Clone, Copy, Debug, PartialEq, Eq, Structural)]
pub enum ErrorClass {
    /// The operation would block: the task suspends.
    WouldBlock,
    /// The stream ended.
    UnexpectedEof,
    /// Any other error.
    Other,
}

/// The result of one step of a suspendable operation.
#[derive(Debug, PartialEq, Eq)]
pub enum Progress<V> {
    Ready(V),
    Pending,
}

/// The readiness token of a descriptor: its number.
pub open spec fn token_of(fd: i32) -> usize {
    fd as usize
}

impl<T, E: Clone> WithRegistry<T, E> {
    /// Wrap `inner`, not yet registered, with a copy of the handle `executor`.
    pub fn new(inner: T, executor: &E) -> (r: Self)
        ensures
            r.inner == inner,
            cloned(*executor, r.executor),
            !r.registered,
    {
        WithRegistry { inner, executor: executor.clone(), registered: false }
    }

    /// The registration to make before an attempt on the descriptor `fd`:
    /// read readiness under the descriptor's own token, unless the resource is
    /// registered already.
    pub fn arm(&self, fd: i32) -> (r: Option<Reg>)
        ensures
            r == (if self.registered {
                None
            } else {
                Some(Reg::Reg(token_of(fd), Interest::Readable))
            }),
    {
        if self.registered {
            None
        } else {
            Some(Reg::Reg(fd as usize, Interest::Readable))
        }
    }

    /// The registration made by `arm` succeeded.
    pub fn armed(&mut self)
        ensures
            final(self).registered,
            final(self).inner == old(self).inner,
            final(self).executor == old(self).executor,
    {
        self.registered = true;
    }

    /// The request that forgets the resource: none if it is not registered.
    pub fn disarm(&self) -> (r: Option<Reg>)
        ensures
            r == (if self.registered {
                Some(Reg::DeReg)
            } else {
                None
            }),
    {
        if self.registered {
            Some(Reg::DeReg)
        } else {
            None
        }
    }

    /// The request made by `disarm` succeeded.
    pub fn disarmed(&mut self)
        ensures
            !final(self).registered,
            final(self).inner == old(self).inner,
            final(self).executor == old(self).executor,
    {
        self.registered = false;
    }
}

/// The step of an accept stream after a non-blocking accept returned `r`,
/// with `class` the class of its error: a connection is the next item, a
/// would-block suspends, the end of the stream ends it, any other error is the
/// next item.
pub fn accept_progress<V, X>(r: Result<V, X>, class: ErrorClass) -> (p: Progress<
    Option<Result<V, X>>,
>)
    ensures
        match r {
            Ok(v) => p == Progress::Ready(Some(Ok::<V, X>(v))),
            Err(e) => match class {
                ErrorClass::WouldBlock => p is Pending,
                ErrorClass::UnexpectedEof => p == Progress::<Option<Result<V, X>>>::Ready(None),
                ErrorClass::Other => p == Progress::Ready(Some(Err::<V, X>(e))),
            },
        },
{
    match r {
        Ok(v) => Progress::Ready(Some(Ok(v))),
        Err(e) => match class {
            ErrorClass::WouldBlock => Progress::Pending,
            ErrorClass::UnexpectedEof => Progress::Ready(None),
            ErrorClass::Other => Progress::Ready(Some(Err(e))),
        },
    }
}

/// The step of a read after a non-blocking read returned `r`, with `class`
/// the class of its error: the count read is ready (zero when the peer
/// closed), a would-block suspends, any other error is surfaced.
pub fn read_progress<X>(r: Result<usize, X>, class: ErrorClass) -> (p: Progress<Result<usize, X>>)
    ensures
        match r {
            Ok(n) => p == Progress::Ready(Ok::<usize, X>(n)),
            Err(e) => match class {
                ErrorClass::WouldBlock => p is Pending,
                _ => p == Progress::Ready(Err::<usize, X>(e)),
            },
        },
{
    match r {
        Ok(n) => Progress::Ready(Ok(n)),
        Err(e) => match class {
            ErrorClass::WouldBlock => Progress::Pending,
            _ => Progress::Ready(Err(e)),
        },
    }
}

/// A task that finds the resource not ready waits on the descriptor's own
/// token: once the registration that `arm` asks for is accepted and the
/// attempt would block, the run loop parks the task under that token.
pub proof fn lemma_would_block_parks_on_descriptor<T>(
    parked: Map<usize, T>,
    task: T,
    fd: i32,
)
    ensures
        wait_after(Reg::Reg(token_of(fd), Interest::Readable)) == Some(
            WaitReason::Io(token_of(fd)),
        ),
        parked_after(
            parked,
            task,
            Outcome::Pending,
            wait_after(Reg::Reg(token_of(fd), Interest::Readable)),
        ) == parked.insert(token_of(fd), task),
{
}

} // verus!
