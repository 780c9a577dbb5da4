//! Locks that suspend the coroutine that waits for them, and block the thread
//! outside of coroutines.
use core::ops::{Deref, DerefMut};

use async_lock::Mutex as AsyncMutex;
use async_lock::MutexGuard as AsyncMutexGuard;
use async_lock::RwLock as AsyncRwLock;
use async_lock::RwLockReadGuard as AsyncRwLockReadGuard;
use async_lock::RwLockWriteGuard as AsyncRwLockWriteGuard;
use event_listener::Event;
use vstd::prelude::*;

use crate::context::OutsideOfContextError;
use crate::event::Listening;

pub use crate::condvar::{Awoken, Condvar, CondvarWait, Waiting};
pub use crate::event::{Heard, Notices, Notified};

verus! {

/// `async_lock::Mutex`.
#[verifier::external_type_specification]
#[verifier::external_body]
#[verifier::reject_recursive_types(T)]
pub struct ExAsyncMutex<T: ?Sized>(AsyncMutex<T>);

/// `async_lock::MutexGuard`.
#[verifier::external_type_specification]
#[verifier::external_body]
#[verifier::reject_recursive_types(T)]
pub struct ExAsyncMutexGuard<'a, T: ?Sized>(AsyncMutexGuard<'a, T>);

/// `async_lock::RwLock`.
#[verifier::external_type_specification]
#[verifier::external_body]
#[verifier::reject_recursive_types(T)]
pub struct ExAsyncRwLock<T: ?Sized>(AsyncRwLock<T>);

/// `async_lock::RwLockReadGuard`.
#[verifier::external_type_specification]
#[verifier::external_body]
#[verifier::reject_recursive_types(T)]
pub struct ExAsyncRwLockReadGuard<'a, T: ?Sized>(AsyncRwLockReadGuard<'a, T>);

/// `async_lock::RwLockWriteGuard`.
#[verifier::external_type_specification]
#[verifier::external_body]
#[verifier::reject_recursive_types(T)]
pub struct ExAsyncRwLockWriteGuard<'a, T: ?Sized>(AsyncRwLockWriteGuard<'a, T>);

/// A lock that one holder has at a time.
#[verifier::reject_recursive_types(T)]
pub struct Mutex<T> {
    inner: AsyncMutex<T>,
    deposited: Ghost<T>,
    held: Ghost<bool>,
    contended: Ghost<bool>,
}

/// The hold on a [`Mutex`], which ends when this is dropped.
#[verifier::reject_recursive_types(T)]
pub struct MutexGuard<'a, T> {
    inner: AsyncMutexGuard<'a, T>,
    mutex: Ghost<AsyncMutex<T>>,
    data: Ghost<T>,
}

/// The hold on a mutex that was waited for after a notification.
#[verifier::reject_recursive_types(T)]
pub struct Regained<'a, T> {
    guard: MutexGuard<'a, T>,
    heard: Heard<T>,
}

/// The hold on a mutex that is about to be given up, as soon as somebody listens.
#[verifier::reject_recursive_types(T)]
pub(crate) struct Leaving<'a, T> {
    guard: MutexGuard<'a, T>,
}

/// What it takes to begin listening. There is one for each hold that is given up.
pub(crate) struct Permit {
    granted: (),
}

/// The proof that the hold on a mutex was given up, while somebody listened.
#[verifier::reject_recursive_types(T)]
pub struct Freed<T> {
    mutex: Ghost<AsyncMutex<T>>,
    event: Ghost<Event>,
    listener: Ghost<int>,
    left: Ghost<T>,
}

impl<T> Mutex<T> {
    pub closed spec fn raw(&self) -> AsyncMutex<T> {
        self.inner
    }

    /// The data that was last put into the mutex without a hold on it.
    pub closed spec fn deposited(&self) -> T {
        self.deposited@
    }

    /// Whether anyone gets to hold the mutex from then on, until the data is next
    /// reached without a hold.
    pub closed spec fn held(&self) -> bool {
        self.held@
    }

    /// Whether, in the same time, anyone tries to hold the mutex while another holds
    /// it, waits for it or tries to hold it. What was never given up goes on.
    pub closed spec fn contended(&self) -> bool {
        self.contended@
    }
}

impl<'a, T> MutexGuard<'a, T> {
    pub closed spec fn raw(&self) -> AsyncMutexGuard<'a, T> {
        self.inner
    }

    /// The mutex that is held.
    pub closed spec fn mutex(&self) -> AsyncMutex<T> {
        self.mutex@
    }
}

impl<'a, T> Regained<'a, T> {
    pub closed spec fn guard(&self) -> MutexGuard<'a, T> {
        self.guard
    }

    /// The notification after which the hold was waited for.
    pub closed spec fn after(&self) -> Heard<T> {
        self.heard
    }

    pub fn into_guard(self) -> (guard: MutexGuard<'a, T>)
        ensures
            guard == self.guard(),
        opens_invariants none
    {
        self.guard
    }
}

impl<T> Freed<T> {
    /// The mutex that was given up.
    pub closed spec fn mutex(&self) -> AsyncMutex<T> {
        self.mutex@
    }

    /// The data as the hold left it.
    pub closed spec fn left(&self) -> T {
        self.left@
    }

    /// The event that was listened to by then.
    pub closed spec fn event(&self) -> Event {
        self.event@
    }

    /// Who listened to it.
    pub closed spec fn listener(&self) -> int {
        self.listener@
    }
}

impl<'a, T> Leaving<'a, T> {
    pub closed spec fn guard(&self) -> MutexGuard<'a, T> {
        self.guard
    }
}

impl<'a, T> View for MutexGuard<'a, T> {
    type V = T;

    /// The data that the mutex protects: nobody else can change it meanwhile.
    closed spec fn view(&self) -> T {
        self.data@
    }
}

/// `async_lock::Mutex::new`: an unlocked mutex that protects `data`.
#[verifier::external_body]
fn mutex_new<T>(data: T) -> (mutex: Mutex<T>)
    ensures
        mutex.deposited() == data,
    opens_invariants none
{
    let inner = AsyncMutex::new(data);
    Mutex {
        inner,
        deposited: Ghost(arbitrary()),
        held: Ghost(arbitrary()),
        contended: Ghost(arbitrary()),
    }
}

/// `async_lock::Mutex::into_inner`: the data that was protected, which is what was
/// put into the mutex unless somebody held it since.
#[verifier::external_body]
fn mutex_into_inner<T>(mutex: Mutex<T>) -> (data: T)
    ensures
        !mutex.held() ==> data == mutex.deposited(),
    opens_invariants none
{
    mutex.inner.into_inner()
}

/// `async_lock::Mutex::get_mut`: the data that is protected, which is what was put
/// into the mutex unless somebody held it since. What is left there is put into the
/// mutex anew.
#[verifier::external_body]
fn mutex_get_mut<T>(mutex: &mut Mutex<T>) -> (data: &mut T)
    ensures
        !old(mutex).held() ==> *data == old(mutex).deposited(),
        final(mutex).deposited() == *final(data),
        final(mutex).raw() == old(mutex).raw(),
    opens_invariants none
{
    mutex.inner.get_mut()
}

/// `async_lock::Mutex::try_lock`: holds the mutex, and fails only where another
/// holds it or has waited for it so long that it comes first.
#[verifier::external_body]
fn mutex_try_lock<'a, T>(mutex: &'a Mutex<T>) -> (guard: Option<MutexGuard<'a, T>>)
    ensures
        match guard {
            Some(guard) => guard.mutex() == mutex.raw() && mutex.held(),
            None => mutex.contended(),
        },
    opens_invariants none
{
    match mutex.inner.try_lock() {
        Some(inner) => Some(MutexGuard { inner, mutex: Ghost(arbitrary()), data: Ghost(arbitrary()) }),
        None => None,
    }
}

/// `async_lock::Mutex::lock_blocking`: blocks the thread until it holds the mutex.
#[verifier::external_body]
fn mutex_lock_blocking<'a, T>(mutex: &'a AsyncMutex<T>) -> (guard: MutexGuard<'a, T>)
    ensures
        guard.mutex() == *mutex,
    opens_invariants none
{
    let inner = mutex.lock_blocking();
    MutexGuard { inner, mutex: Ghost(arbitrary()), data: Ghost(arbitrary()) }
}

/// A hold that `async_lock` has given: the data under it is whatever the last
/// holder left.
#[verifier::external_body]
fn adopt_mutex_guard<'a, T>(inner: AsyncMutexGuard<'a, T>) -> (guard: MutexGuard<'a, T>)
    ensures
        guard.raw() == inner,
    opens_invariants none
{
    MutexGuard { inner, mutex: Ghost(arbitrary()), data: Ghost(arbitrary()) }
}

/// `async_lock::MutexGuard::source`: the mutex that is held.
#[verifier::external_body]
pub(crate) fn mutex_of<'a, T>(guard: &MutexGuard<'a, T>) -> (mutex: &'a AsyncMutex<T>)
    ensures
        *mutex == guard.mutex(),
    opens_invariants none
{
    AsyncMutexGuard::source(&guard.inner)
}

/// `async_lock::MutexGuard::deref`: the data under the hold.
#[verifier::external_body]
fn mutex_guard_ref<'b, 'a, T>(guard: &'b MutexGuard<'a, T>) -> (data: &'b T)
    ensures
        *data == guard@,
    opens_invariants none
{
    &*guard.inner
}

/// `async_lock::MutexGuard::deref_mut`: the data under the hold, to change.
#[verifier::external_body]
fn mutex_guard_mut<'b, 'a, T>(guard: &'b mut MutexGuard<'a, T>) -> (data: &'b mut T)
    ensures
        *data == old(guard)@,
        final(guard)@ == *final(data),
        final(guard).mutex() == old(guard).mutex(),
    opens_invariants none
{
    &mut *guard.inner
}

/// Sets about giving up the hold, which takes listening first: here is the permit.
pub(crate) fn about_to_leave<'a, T>(guard: MutexGuard<'a, T>) -> (leave: (Leaving<'a, T>, Permit))
    ensures
        leave.0.guard() == guard,
    opens_invariants none
{
    (Leaving { guard }, Permit { granted: () })
}

/// `async_lock::MutexGuard::drop`: ends the hold. `listening` is there to show that
/// the listening has begun.
#[verifier::external_body]
pub(crate) fn release<'a, T>(leaving: Leaving<'a, T>, listening: &Listening) -> (freed: Freed<T>)
    ensures
        freed.mutex() == leaving.guard().mutex(),
        freed.event() == listening.event(),
        freed.listener() == listening.id(),
        freed.left() == leaving.guard()@,
    opens_invariants none
{
    drop(leaving.guard.inner);
    Freed {
        mutex: Ghost(arbitrary()),
        event: Ghost(arbitrary()),
        listener: Ghost(arbitrary()),
        left: Ghost(arbitrary()),
    }
}

/// Blocks the thread until it holds the mutex, which begins after the notification.
pub(crate) fn regain<'a, T>(mutex: &'a AsyncMutex<T>, heard: Heard<T>) -> (again: Regained<'a, T>)
    ensures
        again.guard().mutex() == *mutex,
        again.after() == heard,
    opens_invariants none
{
    Regained { guard: mutex_lock_blocking(mutex), heard }
}

/// The hold that waiting for the mutex ended with, after the notification.
pub(crate) fn regain_awaited<'a, T>(hold: AsyncMutexGuard<'a, T>, heard: Heard<T>) -> (again:
    Regained<'a, T>)
    ensures
        again.guard().raw() == hold,
        again.after() == heard,
    opens_invariants none
{
    Regained { guard: adopt_mutex_guard(hold), heard }
}

impl<T> Mutex<T> {
    /// Makes an unlocked mutex that protects `data`.
    pub fn new(data: T) -> (mutex: Self)
        ensures
            mutex.deposited() == data,
        opens_invariants none
    {
        mutex_new(data)
    }

    /// Takes the data out: what was put in, unless somebody held the mutex since.
    pub fn into_inner(self) -> (data: T)
        ensures
            !self.held() ==> data == self.deposited(),
        opens_invariants none
    {
        mutex_into_inner(self)
    }

    /// The data, which nobody else can hold where the mutex is borrowed alone: what
    /// was put in, unless somebody held the mutex since.
    pub fn get_mut(&mut self) -> (data: &mut T)
        ensures
            !old(self).held() ==> *data == old(self).deposited(),
            final(self).deposited() == *final(data),
            final(self).raw() == old(self).raw(),
        opens_invariants none
    {
        mutex_get_mut(self)
    }

    /// Holds the mutex if nobody else does: where no two ever get in each other's
    /// way, that always succeeds.
    pub fn try_lock(&self) -> (guard: Option<MutexGuard<'_, T>>)
        ensures
            match guard {
                Some(guard) => guard.mutex() == self.raw() && self.held(),
                None => self.contended(),
            },
        opens_invariants none
    {
        mutex_try_lock(self)
    }

    /// The mutex to wait for inside of a coroutine.
    pub fn inner(&self) -> (inner: &AsyncMutex<T>)
        ensures
            *inner == self.raw(),
        opens_invariants none
    {
        &self.inner
    }

    /// Holds the mutex: `awaited` is the hold that waiting for it ended with. Where
    /// there was no coroutine to wait in, blocks the thread until the hold is had.
    pub fn lock<'a>(
        &'a self,
        awaited: Result<AsyncMutexGuard<'a, T>, OutsideOfContextError>,
    ) -> (guard: MutexGuard<'a, T>)
        ensures
            match awaited {
                Ok(hold) => guard.raw() == hold,
                Err(_) => guard.mutex() == self.raw(),
            },
        opens_invariants none
    {
        match awaited {
            Ok(hold) => adopt_mutex_guard(hold),
            Err(_) => mutex_lock_blocking(&self.inner),
        }
    }
}

impl<'a, T> Deref for MutexGuard<'a, T> {
    type Target = T;

    fn deref(&self) -> (data: &T)
        ensures
            *data == self@,
    {
        mutex_guard_ref(self)
    }
}

impl<'a, T> DerefMut for MutexGuard<'a, T> {
    fn deref_mut(&mut self) -> (data: &mut T)
        ensures
            *data == old(self)@,
            final(self)@ == *final(data),
            final(self).mutex() == old(self).mutex(),
    {
        mutex_guard_mut(self)
    }
}

/// A lock that many readers have at a time, or one writer.
#[verifier::reject_recursive_types(T)]
pub struct RwLock<T> {
    inner: AsyncRwLock<T>,
    deposited: Ghost<T>,
    written: Ghost<bool>,
    contended: Ghost<bool>,
}

/// The hold of a reader on an [`RwLock`], which ends when this is dropped.
#[verifier::reject_recursive_types(T)]
pub struct RwLockReadGuard<'a, T> {
    inner: AsyncRwLockReadGuard<'a, T>,
    lock: Ghost<AsyncRwLock<T>>,
    data: Ghost<T>,
}

/// The hold of a writer on an [`RwLock`], which ends when this is dropped.
#[verifier::reject_recursive_types(T)]
pub struct RwLockWriteGuard<'a, T> {
    inner: AsyncRwLockWriteGuard<'a, T>,
    lock: Ghost<AsyncRwLock<T>>,
    data: Ghost<T>,
}

impl<T> RwLock<T> {
    pub closed spec fn raw(&self) -> AsyncRwLock<T> {
        self.inner
    }

    /// The data that was last put into the lock without a hold on it.
    pub closed spec fn deposited(&self) -> T {
        self.deposited@
    }

    /// Whether anyone holds the lock to write, or tries to, from then on, until the
    /// data is next reached without a hold. What was never given up goes on.
    pub closed spec fn written(&self) -> bool {
        self.written@
    }

    /// Whether, in the same time, anyone tries to hold the lock while another holds
    /// it, waits for it or tries to hold it.
    pub closed spec fn contended(&self) -> bool {
        self.contended@
    }
}

impl<'a, T> RwLockReadGuard<'a, T> {
    pub closed spec fn raw(&self) -> AsyncRwLockReadGuard<'a, T> {
        self.inner
    }

    /// The lock that is held.
    pub closed spec fn lock(&self) -> AsyncRwLock<T> {
        self.lock@
    }
}

impl<'a, T> RwLockWriteGuard<'a, T> {
    pub closed spec fn raw(&self) -> AsyncRwLockWriteGuard<'a, T> {
        self.inner
    }

    /// The lock that is held.
    pub closed spec fn lock(&self) -> AsyncRwLock<T> {
        self.lock@
    }
}

impl<'a, T> View for RwLockReadGuard<'a, T> {
    type V = T;

    /// The data that the lock protects: nobody can change it meanwhile.
    closed spec fn view(&self) -> T {
        self.data@
    }
}

impl<'a, T> View for RwLockWriteGuard<'a, T> {
    type V = T;

    /// The data that the lock protects: nobody else can change it meanwhile.
    closed spec fn view(&self) -> T {
        self.data@
    }
}

/// `async_lock::RwLock::new`: an unlocked lock that protects `data`.
#[verifier::external_body]
fn rwlock_new<T>(data: T) -> (lock: RwLock<T>)
    ensures
        lock.deposited() == data,
    opens_invariants none
{
    let inner = AsyncRwLock::new(data);
    RwLock {
        inner,
        deposited: Ghost(arbitrary()),
        written: Ghost(arbitrary()),
        contended: Ghost(arbitrary()),
    }
}

/// `async_lock::RwLock::into_inner`: the data that was protected, which is what was
/// put into the lock unless a writer held it since.
#[verifier::external_body]
fn rwlock_into_inner<T>(lock: RwLock<T>) -> (data: T)
    ensures
        !lock.written() ==> data == lock.deposited(),
    opens_invariants none
{
    lock.inner.into_inner()
}

/// `async_lock::RwLock::get_mut`: the data that is protected, which is what was put
/// into the lock unless a writer held it since. What is left there is put into the
/// lock anew.
#[verifier::external_body]
fn rwlock_get_mut<T>(lock: &mut RwLock<T>) -> (data: &mut T)
    ensures
        !old(lock).written() ==> *data == old(lock).deposited(),
        final(lock).deposited() == *final(data),
        final(lock).raw() == old(lock).raw(),
    opens_invariants none
{
    lock.inner.get_mut()
}

/// `async_lock::RwLock::try_read`: holds the lock to read, and fails only where a
/// writer holds it or is trying to. The data is what was put into the lock unless a
/// writer held it since.
#[verifier::external_body]
fn rwlock_try_read<'a, T>(lock: &'a RwLock<T>) -> (guard: Option<RwLockReadGuard<'a, T>>)
    ensures
        match guard {
            Some(guard) => {
                &&& guard.lock() == lock.raw()
                &&& !lock.written() ==> guard@ == lock.deposited()
            },
            None => lock.written(),
        },
    opens_invariants none
{
    match lock.inner.try_read() {
        Some(inner) => Some(
            RwLockReadGuard { inner, lock: Ghost(arbitrary()), data: Ghost(arbitrary()) },
        ),
        None => None,
    }
}

/// `async_lock::RwLock::read_blocking`: blocks the thread until it holds the lock
/// to read. The data is what was put into the lock unless a writer held it since.
#[verifier::external_body]
fn rwlock_read_blocking<'a, T>(lock: &'a RwLock<T>) -> (guard: RwLockReadGuard<'a, T>)
    ensures
        guard.lock() == lock.raw(),
        !lock.written() ==> guard@ == lock.deposited(),
    opens_invariants none
{
    let inner = lock.inner.read_blocking();
    RwLockReadGuard { inner, lock: Ghost(arbitrary()), data: Ghost(arbitrary()) }
}

/// A reader's hold that `async_lock` has given: the data under it is whatever the
/// last writer left.
#[verifier::external_body]
fn adopt_read_guard<'a, T>(inner: AsyncRwLockReadGuard<'a, T>) -> (guard: RwLockReadGuard<'a, T>)
    ensures
        guard.raw() == inner,
    opens_invariants none
{
    RwLockReadGuard { inner, lock: Ghost(arbitrary()), data: Ghost(arbitrary()) }
}

/// `async_lock::RwLock::try_write`: holds the lock to write, and fails only where
/// another holds it, waits for it or is trying to hold it.
#[verifier::external_body]
fn rwlock_try_write<'a, T>(lock: &'a RwLock<T>) -> (guard: Option<RwLockWriteGuard<'a, T>>)
    ensures
        match guard {
            Some(guard) => guard.lock() == lock.raw() && lock.written(),
            None => lock.contended(),
        },
    opens_invariants none
{
    match lock.inner.try_write() {
        Some(inner) => Some(RwLockWriteGuard { inner, lock: Ghost(arbitrary()), data: Ghost(arbitrary()) }),
        None => None,
    }
}

/// `async_lock::RwLock::write_blocking`: blocks the thread until it holds the lock
/// to write.
#[verifier::external_body]
fn rwlock_write_blocking<'a, T>(lock: &'a AsyncRwLock<T>) -> (guard: RwLockWriteGuard<'a, T>)
    ensures
        guard.lock() == *lock,
    opens_invariants none
{
    let inner = lock.write_blocking();
    RwLockWriteGuard { inner, lock: Ghost(arbitrary()), data: Ghost(arbitrary()) }
}

/// A writer's hold that `async_lock` has given: the data under it is whatever the
/// last writer left.
#[verifier::external_body]
fn adopt_write_guard<'a, T>(inner: AsyncRwLockWriteGuard<'a, T>) -> (guard: RwLockWriteGuard<
    'a,
    T,
>)
    ensures
        guard.raw() == inner,
    opens_invariants none
{
    RwLockWriteGuard { inner, lock: Ghost(arbitrary()), data: Ghost(arbitrary()) }
}

/// `async_lock::RwLockReadGuard::deref`: the data under the hold.
#[verifier::external_body]
fn read_guard_ref<'b, 'a, T>(guard: &'b RwLockReadGuard<'a, T>) -> (data: &'b T)
    ensures
        *data == guard@,
    opens_invariants none
{
    &*guard.inner
}

/// `async_lock::RwLockWriteGuard::deref`: the data under the hold.
#[verifier::external_body]
fn write_guard_ref<'b, 'a, T>(guard: &'b RwLockWriteGuard<'a, T>) -> (data: &'b T)
    ensures
        *data == guard@,
    opens_invariants none
{
    &*guard.inner
}

/// `async_lock::RwLockWriteGuard::deref_mut`: the data under the hold, to change.
#[verifier::external_body]
fn write_guard_mut<'b, 'a, T>(guard: &'b mut RwLockWriteGuard<'a, T>) -> (data: &'b mut T)
    ensures
        *data == old(guard)@,
        final(guard)@ == *final(data),
        final(guard).lock() == old(guard).lock(),
    opens_invariants none
{
    &mut *guard.inner
}

impl<T> RwLock<T> {
    /// Makes an unlocked lock that protects `data`.
    pub fn new(data: T) -> (lock: Self)
        ensures
            lock.deposited() == data,
        opens_invariants none
    {
        rwlock_new(data)
    }

    /// Takes the data out: what was put in, unless a writer held the lock since.
    pub fn into_inner(self) -> (data: T)
        ensures
            !self.written() ==> data == self.deposited(),
        opens_invariants none
    {
        rwlock_into_inner(self)
    }

    /// The data, which nobody else can hold where the lock is borrowed alone: what
    /// was put in, unless a writer held the lock since.
    pub fn get_mut(&mut self) -> (data: &mut T)
        ensures
            !old(self).written() ==> *data == old(self).deposited(),
            final(self).deposited() == *final(data),
            final(self).raw() == old(self).raw(),
        opens_invariants none
    {
        rwlock_get_mut(self)
    }

    /// The lock to wait for inside of a coroutine.
    pub fn inner(&self) -> (inner: &AsyncRwLock<T>)
        ensures
            *inner == self.raw(),
        opens_invariants none
    {
        &self.inner
    }

    /// Holds the lock to read if no writer holds it: without a writer, that always
    /// succeeds.
    pub fn try_read(&self) -> (guard: Option<RwLockReadGuard<'_, T>>)
        ensures
            match guard {
                Some(guard) => {
                    &&& guard.lock() == self.raw()
                    &&& !self.written() ==> guard@ == self.deposited()
                },
                None => self.written(),
            },
        opens_invariants none
    {
        rwlock_try_read(self)
    }

    /// Holds the lock to write if nobody else holds it: where no two ever get in
    /// each other's way, that always succeeds.
    pub fn try_write(&self) -> (guard: Option<RwLockWriteGuard<'_, T>>)
        ensures
            match guard {
                Some(guard) => guard.lock() == self.raw() && self.written(),
                None => self.contended(),
            },
        opens_invariants none
    {
        rwlock_try_write(self)
    }

    /// Holds the lock to read: `awaited` is the hold that waiting for it ended
    /// with. Where there was no coroutine to wait in, blocks the thread until the
    /// hold is had.
    pub fn read<'a>(
        &'a self,
        awaited: Result<AsyncRwLockReadGuard<'a, T>, OutsideOfContextError>,
    ) -> (guard: RwLockReadGuard<'a, T>)
        ensures
            match awaited {
                Ok(hold) => guard.raw() == hold,
                Err(_) => {
                    &&& guard.lock() == self.raw()
                    &&& !self.written() ==> guard@ == self.deposited()
                },
            },
        opens_invariants none
    {
        match awaited {
            Ok(hold) => adopt_read_guard(hold),
            Err(_) => rwlock_read_blocking(self),
        }
    }

    /// Holds the lock to write: `awaited` is the hold that waiting for it ended
    /// with. Where there was no coroutine to wait in, blocks the thread until the
    /// hold is had.
    pub fn write<'a>(
        &'a self,
        awaited: Result<AsyncRwLockWriteGuard<'a, T>, OutsideOfContextError>,
    ) -> (guard: RwLockWriteGuard<'a, T>)
        ensures
            match awaited {
                Ok(hold) => guard.raw() == hold,
                Err(_) => guard.lock() == self.raw(),
            },
        opens_invariants none
    {
        match awaited {
            Ok(hold) => adopt_write_guard(hold),
            Err(_) => rwlock_write_blocking(&self.inner),
        }
    }
}

impl<'a, T> Deref for RwLockReadGuard<'a, T> {
    type Target = T;

    fn deref(&self) -> (data: &T)
        ensures
            *data == self@,
    {
        read_guard_ref(self)
    }
}

impl<'a, T> Deref for RwLockWriteGuard<'a, T> {
    type Target = T;

    fn deref(&self) -> (data: &T)
        ensures
            *data == self@,
    {
        write_guard_ref(self)
    }
}

impl<'a, T> DerefMut for RwLockWriteGuard<'a, T> {
    fn deref_mut(&mut self) -> (data: &mut T)
        ensures
            *data == old(self)@,
            final(self)@ == *final(data),
            final(self).lock() == old(self).lock(),
    {
        write_guard_mut(self)
    }
}

} // verus!
