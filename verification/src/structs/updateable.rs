//! Shared data that can be replaced while others are reading it.

use crate::structs::command::Command;
use crate::structs::command_storage::CommandStorage;
use arc_swap::ArcSwap;
use std::sync::Arc;
use tokio::sync::{Mutex, MutexGuard};
use vstd::prelude::*;
use vstd::std_specs::convert::FromSpecImpl;

verus! {

/// A lock that tasks can wait for.
#[verifier::external_type_specification]
#[verifier::external_body]
#[verifier::reject_recursive_types(T)]
pub struct ExMutex<T: ?Sized>(Mutex<T>);

/// The proof of holding a [`Mutex`]; dropping it releases the lock.
#[verifier::external_type_specification]
#[verifier::external_body]
#[verifier::reject_recursive_types(T)]
pub struct ExMutexGuard<'a, T: ?Sized>(MutexGuard<'a, T>);

/// An `ArcSwap`: a place for one shared value that can be read and replaced from any thread.
///
/// What it holds at some moment is up to all the threads that share it. So it is only said of a
/// value that a load of the place can give it, not which one a load gives.
#[verifier::external_body]
#[verifier::reject_recursive_types(T)]
#[derive(Debug)]
pub struct SwapCell<T> {
    inner: ArcSwap<T>,
}

/// `ArcSwap::new`: a place that starts out with `value`.
#[verifier::external_body]
fn swap_new<T>(value: Arc<T>) -> SwapCell<T> {
    SwapCell { inner: ArcSwap::new(value) }
}

/// `ArcSwap::store`: replaces what the place holds by `value`.
#[verifier::external_body]
fn swap_store<T>(cell: &SwapCell<T>, value: Arc<T>) {
    cell.inner.store(value)
}

/// `ArcSwap::load_full`: a handle to what the place holds just now.
#[verifier::external_body]
fn swap_load<T>(cell: &SwapCell<T>) -> Arc<T> {
    cell.inner.load_full()
}

impl<T> SwapCell<T> {
    /// Whether the place is one that was made to start out with `value`.
    pub closed spec fn started_with(&self, value: Arc<T>) -> bool {
        call_ensures(swap_new::<T>, (value,), *self)
    }

    /// Whether `value` is what a load of this place can give.
    pub closed spec fn can_give(&self, value: Arc<T>) -> bool {
        call_ensures(swap_load::<T>, (self,), value)
    }

    /// Whether `value` was stored in this place.
    pub closed spec fn was_given(&self, value: Arc<T>) -> bool {
        call_ensures(swap_store::<T>, (self, value), ())
    }

    /// A place that starts out with `value`.
    pub fn new(value: Arc<T>) -> (r: Self)
        ensures
            r.started_with(value),
    {
        swap_new(value)
    }

    /// A handle to what the place holds just now.
    ///
    /// Any thread may have replaced it at any time, so it is not said which data that is.
    pub fn load_full(&self) -> (r: Arc<T>)
        ensures
            self.can_give(r),
    {
        swap_load(self)
    }

    /// Replaces what the place holds.
    pub fn store(&self, value: Arc<T>)
        ensures
            self.was_given(value),
    {
        swap_store(self, value)
    }
}

/// `Mutex::default`: a lock that nobody holds.
#[verifier::external_body]
fn mutex_default() -> Mutex<()> {
    Mutex::default()
}

/// An ArcSwap, which holds some data.
///
/// To update the data you have two options:
/// - You can just clone the data, modify it and use the [`UpdateableArcSwap::store`] method.
///   This option does not prevent modifications between cloning and storing and may therefore
///   lead to "lost updates".
/// - Lock, clone, update:
///   This option will prevent "lost updates" if done correctly:
///   1. Lock [`UpdateableArcSwap::write_mutex`].
///   2. Clone the data.
///   3. Make your changes.
///   4. Use [`UpdateableArcSwap::update`] to store the cloned data.
///      This method will take the lock by value and drop it.
#[verifier::reject_recursive_types(T)]
#[derive(Debug)]
pub struct UpdateableArcSwap<T> {
    data: SwapCell<T>,
    lock: Mutex<()>,
}

impl<T> UpdateableArcSwap<T> {
    /// The place that the data is stored in.
    pub closed spec fn cell(&self) -> SwapCell<T> {
        self.data
    }

    /// The lock that updates are synchronised with.
    pub closed spec fn mutex(&self) -> Mutex<()> {
        self.lock
    }

    /// Whether this storage was made to start out with `value`, and with a lock of its own that
    /// nobody held.
    pub closed spec fn started_with(&self, value: T) -> bool {
        self.data.started_with(Arc::new(value)) && call_ensures(mutex_default, (), self.lock)
    }

    /// The lock for this storage. This is used to synchronise updates of this storage.
    pub fn write_mutex(&self) -> (r: &Mutex<()>)
        ensures
            *r == self.mutex(),
    {
        &self.lock
    }

    /// Replaces the data in this storage, while requiring
    /// synchronisation to prevent "lost updates".
    pub fn update(&self, lock: MutexGuard<'_, ()>, new_data: T)
        ensures
            self.cell().was_given(Arc::new(new_data)),
    {
        self.data.store(Arc::new(new_data));
        // going out of scope releases the lock, now that the new data is in place
        let _released = lock;
    }

    /// Replaces the data in this storage, while not requiring
    /// synchronisation to prevent "lost updates".
    pub fn store(&self, new_data: T)
        ensures
            self.cell().was_given(Arc::new(new_data)),
    {
        self.data.store(Arc::new(new_data));
    }

    /// Returns a handle to the stored data.
    ///
    /// Any thread may have replaced it at any time, so it is not said which data that is.
    pub fn deref_owned(&self) -> (r: Arc<T>)
        ensures
            self.cell().can_give(r),
    {
        self.data.load_full()
    }

    /// Returns the place that guards the stored data.
    /// This allows updating of the stored data without requiring synchronisation.
    pub fn get_raw_arc(&self) -> (r: &SwapCell<T>)
        ensures
            *r == self.cell(),
    {
        &self.data
    }
}

impl<T> FromSpecImpl<T> for UpdateableArcSwap<T> {
    open spec fn obeys_from_spec() -> bool {
        false
    }

    open spec fn from_spec(v: T) -> Self {
        arbitrary()
    }
}

impl<T> From<T> for UpdateableArcSwap<T> {
    fn from(value: T) -> (r: Self)
        ensures
            r.started_with(value),
    {
        UpdateableArcSwap { data: SwapCell::new(Arc::new(value)), lock: mutex_default() }
    }
}

impl<T: Default> Default for UpdateableArcSwap<T> {
    fn default() -> (r: Self)
        ensures
            exists|value: T| #[trigger]
                call_ensures(T::default, (), value) && r.started_with(value),
    {
        let value = T::default();
        let r = UpdateableArcSwap { data: SwapCell::new(Arc::new(value)), lock: mutex_default() };
        assert(call_ensures(T::default, (), value));
        r
    }
}

/// This struct stores an UpdateableArcSwap in an Arc to make it cloneable.
#[verifier::reject_recursive_types(T)]
#[derive(Debug)]
pub struct UpdateableArcSwapArc<T>(pub Arc<UpdateableArcSwap<T>>);

impl<T> std::ops::Deref for UpdateableArcSwapArc<T> {
    type Target = UpdateableArcSwap<T>;

    fn deref(&self) -> (r: &UpdateableArcSwap<T>)
        ensures
            *r == *self.0,
    {
        &self.0
    }
}

impl<T> FromSpecImpl<UpdateableArcSwap<T>> for UpdateableArcSwapArc<T> {
    open spec fn obeys_from_spec() -> bool {
        true
    }

    open spec fn from_spec(v: UpdateableArcSwap<T>) -> Self {
        UpdateableArcSwapArc(Arc::new(v))
    }
}

impl<T> From<UpdateableArcSwap<T>> for UpdateableArcSwapArc<T> {
    fn from(value: UpdateableArcSwap<T>) -> Self {
        UpdateableArcSwapArc(Arc::new(value))
    }
}

impl<T> FromSpecImpl<T> for UpdateableArcSwapArc<T> {
    open spec fn obeys_from_spec() -> bool {
        false
    }

    open spec fn from_spec(v: T) -> Self {
        arbitrary()
    }
}

impl<T> From<T> for UpdateableArcSwapArc<T> {
    fn from(value: T) -> (r: Self)
        ensures
            r.0.started_with(value),
    {
        UpdateableArcSwapArc(Arc::new(UpdateableArcSwap::from(value)))
    }
}

/// This struct stores a CommandStorage in an UpdateableArcSwap to allow synchronized mutation.
pub type UpdateableCommandStorage<H> = UpdateableArcSwap<CommandStorage<H>>;

/// This struct stores an UpdateableCommandStorage in an Arc to make it cloneable.
pub type UpdateableCommandStorageArc<H> = UpdateableArcSwapArc<CommandStorage<H>>;

impl<H> FromSpecImpl<Vec<Command<H>>> for UpdateableArcSwapArc<CommandStorage<H>> {
    open spec fn obeys_from_spec() -> bool {
        false
    }

    open spec fn from_spec(v: Vec<Command<H>>) -> Self {
        arbitrary()
    }
}

impl<H> From<Vec<Command<H>>> for UpdateableArcSwapArc<CommandStorage<H>> {
    fn from(value: Vec<Command<H>>) -> (r: Self)
        ensures
            r.0.started_with(CommandStorage(value)),
    {
        let command_storage: CommandStorage<H> = CommandStorage::from(value);
        UpdateableArcSwapArc::from(command_storage)
    }
}

} // verus!
