//! Module events and the shared, lock-protected slot of the driver instance.

use crate::error::Error;
use std::sync::Arc;
use vstd::prelude::*;

verus! {

/// Host code of the event "module is being loaded".
pub const MOD_LOAD: u32 = 0;

/// Host code of the event "module is being unloaded".
pub const MOD_UNLOAD: u32 = 1;

/// Host code of the event "the system is shutting down".
pub const MOD_SHUTDOWN: u32 = 2;

/// Host code of the event "the module is about to be unloaded".
pub const MOD_QUIESCE: u32 = 3;

/// The message of the error for a code that names no event.
pub const INVALID_EVENT: &'static str = "Invalid value for modeventtype";

/// The module event types.
#[derive(Copy, Clone, Debug, PartialEq, Eq, Structural)]
pub enum ModuleEventType {
    /// Module is being loaded.
    Load,
    /// Module is being unloaded.
    Unload,
    /// The system is shutting down.
    Shutdown,
    /// The module is about to be unloaded.
    Quiesce,
}

/// The event that a host code stands for, if any.
pub open spec fn event_of_code(code: int) -> Option<ModuleEventType> {
    if code == 0 {
        Some(ModuleEventType::Load)
    } else if code == 1 {
        Some(ModuleEventType::Unload)
    } else if code == 2 {
        Some(ModuleEventType::Shutdown)
    } else if code == 3 {
        Some(ModuleEventType::Quiesce)
    } else {
        None
    }
}

/// The host code of an event.
pub open spec fn code_of_event(event: ModuleEventType) -> int {
    match event {
        ModuleEventType::Load => 0,
        ModuleEventType::Unload => 1,
        ModuleEventType::Shutdown => 2,
        ModuleEventType::Quiesce => 3,
    }
}

impl ModuleEventType {
    /// Converts a host code into an event; a code outside the closed set is
    /// a conversion error.
    pub fn try_from(input: i32) -> (r: Result<ModuleEventType, Error>)
        ensures
            match event_of_code(input as int) {
                Some(event) => r == Ok::<ModuleEventType, Error>(event),
                None => r == Err::<ModuleEventType, Error>(
                    Error::ConversionError(INVALID_EVENT),
                ),
            },
    {
        if input < 0 {
            return Err(Error::ConversionError(INVALID_EVENT));
        }
        let code: u32 = input as u32;
        if code == MOD_LOAD {
            Ok(ModuleEventType::Load)
        } else if code == MOD_UNLOAD {
            Ok(ModuleEventType::Unload)
        } else if code == MOD_SHUTDOWN {
            Ok(ModuleEventType::Shutdown)
        } else if code == MOD_QUIESCE {
            Ok(ModuleEventType::Quiesce)
        } else {
            Err(Error::ConversionError(INVALID_EVENT))
        }
    }

    /// Converts a host code into an event, or `None` if the code names no
    /// event.
    pub fn from_i32(n: i32) -> (r: Option<ModuleEventType>)
        ensures
            r == event_of_code(n as int),
    {
        match ModuleEventType::try_from(n) {
            Ok(event) => Some(event),
            Err(_) => None,
        }
    }

    /// The host code of this event.
    pub fn code(self) -> (c: u32)
        ensures
            c as int == code_of_event(self),
    {
        match self {
            ModuleEventType::Load => MOD_LOAD,
            ModuleEventType::Unload => MOD_UNLOAD,
            ModuleEventType::Shutdown => MOD_SHUTDOWN,
            ModuleEventType::Quiesce => MOD_QUIESCE,
        }
    }
}

/// Every event is recovered from its own host code, and only the four
/// codes of the closed set name an event.
pub proof fn lemma_event_codes_round_trip(event: ModuleEventType, code: int)
    ensures
        event_of_code(code_of_event(event)) == Some(event),
        event_of_code(code) is Some <==> 0 <= code <= 3,
        event_of_code(code) == Some(event) <==> code == code_of_event(event),
{
}

/// Functions to handle each type of module event.
///
/// Each handler comes with a relation that says what it does to the driver.
/// A driver may state its own relations, and the dispatcher promises them
/// to its callers; a driver that states none promises nothing.
pub trait ModuleEvents {
    /// What `load` does: `self` is the driver before, `after` the driver
    /// after.
    open spec fn loaded(&self, after: &Self) -> bool {
        true
    }

    /// What `unload` does to the driver.
    open spec fn unloaded(&self, after: &Self) -> bool {
        true
    }

    /// Called when the module is loaded.
    fn load(&mut self)
        ensures
            old(self).loaded(final(self)),
    ;

    /// Called when the module is unloaded.
    fn unload(&mut self)
        ensures
            old(self).unloaded(final(self)),
    ;
}

/// A load as the slot sees it: a live driver is loaded and stays in the
/// slot, an empty slot stays empty.
pub open spec fn load_forwarded<T: ModuleEvents>(before: Option<T>, after: Option<T>) -> bool {
    match before {
        Some(driver) => after.is_some() && driver.loaded(&after.unwrap()),
        None => after.is_none(),
    }
}

/// Whether the slot holds an instance after an event, given whether it held
/// one before: only an `Unload` empties it, and nothing fills it.
pub open spec fn populated_after(populated: bool, event: Option<ModuleEventType>) -> bool {
    populated && event != Some(ModuleEventType::Unload)
}

/// Whether the slot holds an instance after a sequence of events.
pub open spec fn populated_after_all(populated: bool, events: Seq<Option<ModuleEventType>>) -> bool
    decreases events.len(),
{
    if events.len() == 0 {
        populated
    } else {
        populated_after_all(populated_after(populated, events[0]), events.drop_first())
    }
}

/// An unload is terminal: an empty slot stays empty whatever events follow,
/// and a sequence of events leaves an instance in the slot only if the slot
/// held one before and none of the events is an `Unload`.
pub proof fn lemma_unload_is_terminal(populated: bool, events: Seq<Option<ModuleEventType>>)
    ensures
        populated_after_all(populated, events) <==> populated && forall|i: int|
            0 <= i < events.len() ==> events[i] != Some(ModuleEventType::Unload),
    decreases events.len(),
{
    if events.len() > 0 {
        let rest = events.drop_first();
        lemma_unload_is_terminal(populated_after(populated, events[0]), rest);
        assert forall|i: int| 0 <= i < rest.len() implies rest[i] == events[i + 1] by {}
        if populated_after_all(populated, events) {
            assert forall|i: int| 0 <= i < events.len() implies events[i] != Some(
                ModuleEventType::Unload,
            ) by {
                if i > 0 {
                    assert(rest[i - 1] == events[i]);
                }
            }
        }
    }
}

/// An unload as the slot sees it: a live driver is unloaded and taken out
/// of the slot, which is empty afterwards in any case.
pub open spec fn unload_forwarded<T: ModuleEvents>(
    before: Option<T>,
    after: Option<T>,
    removed: Option<T>,
) -> bool {
    &&& after.is_none()
    &&& match before {
        Some(driver) => removed.is_some() && driver.unloaded(&removed.unwrap()),
        None => removed.is_none(),
    }
}

/// What one event does to the slot: `before` and `after` are the slot
/// before and after, `removed` is the instance taken out of it, and `event`
/// is the event, `None` for a code that names none.
pub open spec fn event_applied<T: ModuleEvents>(
    before: Option<T>,
    after: Option<T>,
    removed: Option<T>,
    event: Option<ModuleEventType>,
) -> bool {
    &&& after.is_some() == populated_after(before.is_some(), event)
    &&& event == Some(ModuleEventType::Load) ==> load_forwarded(before, after)
    &&& event == Some(ModuleEventType::Unload) ==> unload_forwarded(before, after, removed)
    &&& event != Some(ModuleEventType::Unload) ==> removed.is_none()
    &&& !event_touches_slot(event) ==> after == before
}

/// What one module event does to the slot of the driver instance.
///
/// `Load` runs the instance's `load`, `Unload` runs its `unload` and then
/// removes the instance; both do nothing to an empty slot. `Quiesce`,
/// `Shutdown` and an unknown code (`None`) leave the slot as it is. The
/// instance that an `Unload` removed is returned, so that the caller decides
/// where it is dropped.
pub fn apply_event<T: ModuleEvents>(slot: &mut Option<T>, event: Option<ModuleEventType>) -> (removed:
    Option<T>)
    ensures
        event_applied(*old(slot), *final(slot), removed, event),
{
    match event {
        Some(ModuleEventType::Load) => {
            match slot {
                Some(instance) => {
                    instance.load();
                },
                None => {},
            }
            None
        },
        Some(ModuleEventType::Unload) => {
            match slot {
                Some(instance) => {
                    instance.unload();
                },
                None => {},
            }
            take_slot(slot)
        },
        _ => None,
    }
}

/// What the host's event code does to the slot of the driver instance: the
/// code is classified, and the event that it names, if any, is applied.
pub fn dispatch_event<T: ModuleEvents>(slot: &mut Option<T>, code: i32) -> (removed: Option<T>)
    ensures
        event_applied(*old(slot), *final(slot), removed, event_of_code(code as int)),
{
    apply_event(slot, ModuleEventType::from_i32(code))
}

/// Whether an event reads or changes the slot: only `Load` and `Unload` do.
pub open spec fn event_touches_slot(event: Option<ModuleEventType>) -> bool {
    event == Some(ModuleEventType::Load) || event == Some(ModuleEventType::Unload)
}

/// Whether an event reads or changes the slot, so that the lock is needed.
pub fn event_needs_slot(event: Option<ModuleEventType>) -> (needed: bool)
    ensures
        needed == event_touches_slot(event),
{
    match event {
        Some(ModuleEventType::Load) => true,
        Some(ModuleEventType::Unload) => true,
        _ => false,
    }
}

/// Takes the instance out of the slot and leaves the slot empty.
pub fn take_slot<T>(slot: &mut Option<T>) -> (taken: Option<T>)
    ensures
        taken == *old(slot),
        *final(slot) == None::<T>,
{
    slot.take()
}

/// `spin::relax::Spin`, the relax strategy of the default mutex: carried as
/// a type parameter, never looked into.
#[verifier::external_type_specification]
#[verifier::external_body]
pub struct ExSpin(spin::relax::Spin);

/// `spin::mutex::Mutex`: an opaque value; what it protects is reached only
/// through a guard.
#[verifier::external_type_specification]
#[verifier::external_body]
#[verifier::reject_recursive_types(T)]
#[verifier::reject_recursive_types(R)]
pub struct ExMutex<T: ?Sized, R>(spin::mutex::Mutex<T, R>);

/// `spin::mutex::MutexGuard`: an opaque value that holds the lock for as
/// long as it lives.
#[verifier::external_type_specification]
#[verifier::external_body]
#[verifier::reject_recursive_types(T)]
pub struct ExMutexGuard<'a, T: 'a + ?Sized>(spin::mutex::MutexGuard<'a, T>);

/// `spin::Mutex::new`: a new, unlocked mutex around the slot. Nothing is
/// claimed of the result: what a mutex holds is only seen under its lock.
#[verifier::external_body]
fn mutex_new<T>(slot: Option<T>) -> (m: spin::Mutex<Option<T>>) {
    spin::Mutex::new(slot)
}

/// `spin::Mutex::lock`: spins until the lock is free and returns the guard.
/// Nothing is claimed of what the guard protects. The call waits for as long
/// as another guard of the same mutex is alive, so no caller may hold one.
#[verifier::external_body]
fn mutex_lock<'a, T>(m: &'a spin::Mutex<Option<T>>) -> (g: spin::MutexGuard<'a, Option<T>>) {
    m.lock()
}

/// `DerefMut::deref_mut` of `spin::MutexGuard`: the protected slot. Nothing
/// is claimed of what the slot holds: any thread may have written it.
#[verifier::external_body]
fn guard_slot<'a, 'b, T>(g: &'a mut spin::MutexGuard<'b, Option<T>>) -> (slot: &'a mut Option<T>) {
    &mut **g
}

/// Exclusive access to the slot of a [`SharedModule`]; the lock is released
/// when this value goes out of scope.
#[verifier::reject_recursive_types(T)]
pub struct LockedModule<'a, T: Sized + 'a> {
    guard: spin::MutexGuard<'a, Option<T>>,
}

impl<'a, T: Sized> LockedModule<'a, T> {
    /// The slot behind the lock: `Some` while a driver instance is live.
    pub fn slot_mut(&mut self) -> (slot: &mut Option<T>) {
        guard_slot(&mut self.guard)
    }
}

/// A driver instance behind a mutex, shared by reference count.
#[verifier::reject_recursive_types(T)]
pub struct SharedModule<T> {
    inner: Arc<spin::Mutex<Option<T>>>,
}

impl<T> Clone for SharedModule<T> {
    /// Another handle to the same slot.
    fn clone(&self) -> (s: Self) {
        SharedModule { inner: self.inner.clone() }
    }
}

impl<T> Default for SharedModule<T> {
    /// A shared slot that is empty.
    fn default() -> (s: Self) {
        SharedModule { inner: Arc::new(mutex_new(None)) }
    }
}

impl<T> SharedModule<T> {
    /// The mutex that guards the slot, shared by every clone of this handle.
    pub closed spec fn mutex(&self) -> Arc<spin::Mutex<Option<T>>> {
        self.inner
    }

    /// A new shared slot, populated with `initial` or empty.
    pub fn new(initial: Option<T>) -> (s: Self) {
        SharedModule { inner: Arc::new(mutex_new(initial)) }
    }

    /// Another reference to the mutex that guards the slot: the same
    /// mutex, not a copy of it.
    pub fn inner(&self) -> (m: Arc<spin::Mutex<Option<T>>>)
        ensures
            m == self.mutex(),
    {
        self.inner.clone()
    }

    /// Acquires the lock. The spinning mutex cannot fail to lock, so a guard
    /// is always returned.
    pub fn lock(&self) -> (r: Option<LockedModule<'_, T>>)
        ensures
            r is Some,
    {
        Some(LockedModule { guard: mutex_lock(&*self.inner) })
    }

    /// Takes the driver instance out of the slot and drops it, under the
    /// lock.
    pub fn cleanup(&self) {
        let mut guard = mutex_lock(&*self.inner);
        let _removed = take_slot(guard_slot(&mut guard));
    }
}

/// The entry point for the host's module events. A code that names `Load`
/// or `Unload` is dispatched to the slot under its lock, so that an `Unload`
/// leaves the slot empty before the lock is released; for every other code
/// the lock is not taken, as such a code leaves the slot as it is. The
/// status handed back to the host is always 0.
pub fn module_event<T: ModuleEvents>(module: &SharedModule<T>, event: i32) -> (status: i32)
    ensures
        status == 0,
{
    if event_needs_slot(ModuleEventType::from_i32(event)) {
        match module.lock() {
            Some(mut locked) => {
                let _removed = dispatch_event(locked.slot_mut(), event);
            },
            None => {},
        }
    }
    0
}

} // verus!
