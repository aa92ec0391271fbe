//! The template pallet: one optional `u32` in storage, a call that stores a
//! value and announces it, and a call that increments the stored value or
//! reports why it cannot.
//!
//! The pallet's storage and the parts of the system pallet that its calls
//! touch (the block number and the event record) are held by [`Pallet`], whose
//! view is a [`PalletState`]. Every dispatchable is transactional: when it
//! returns an error, the state is left exactly as it was.

use vstd::prelude::*;

verus! {

/// What a runtime tells the pallet about itself: the type that identifies an account.
pub trait Config {
    type AccountId;
}

/// The origin of a call.
pub enum RawOrigin<AccountId> {
    /// The root (sudo) origin.
    Root,
    /// A call signed by an account.
    Signed(AccountId),
    /// An unsigned call (the system pallet's `None` origin).
    Unsigned,
}

/// Errors that the pallet's calls can return.
#[derive(Debug, Clone, Copy, PartialEq, Eq, Structural)]
pub enum Error {
    /// There is no value in storage to read.
    NoneValue,
    /// Adding one to the stored value would overflow a `u32`.
    StorageOverflow,
}

/// Why a dispatchable call failed.
#[derive(Debug, Clone, Copy, PartialEq, Eq, Structural)]
pub enum DispatchError {
    /// The call's origin is not the one the call requires.
    BadOrigin,
    /// The pallet itself refused the call.
    Module(Error),
}

/// What a dispatchable call returns.
pub type DispatchResult = Result<(), DispatchError>;

/// Events that the pallet deposits.
pub enum Event<T: Config> {
    /// A value was stored by an account.
    SomethingStored { something: u32, who: T::AccountId },
}

/// The outcome of checking that an origin is a signed one.
pub open spec fn spec_ensure_signed<A>(origin: RawOrigin<A>) -> Result<A, DispatchError> {
    match origin {
        RawOrigin::Signed(who) => Ok(who),
        _ => Err(DispatchError::BadOrigin),
    }
}

/// Returns the signer of a signed origin, and `BadOrigin` for any other origin.
pub fn ensure_signed<A>(origin: RawOrigin<A>) -> (r: Result<A, DispatchError>)
    ensures
        r == spec_ensure_signed(origin),
{
    match origin {
        RawOrigin::Signed(who) => Ok(who),
        _ => Err(DispatchError::BadOrigin),
    }
}

/// The abstract state of the pallet: the stored value, the current block
/// number and the events recorded in this block, oldest first.
pub struct PalletState<T: Config> {
    pub something: Option<u32>,
    pub block_number: u32,
    pub events: Seq<Event<T>>,
}

/// The pallet's storage together with the system state its calls use.
pub struct Pallet<T: Config> {
    something: Option<u32>,
    block_number: u32,
    events: Vec<Event<T>>,
}

impl<T: Config> View for Pallet<T> {
    type V = PalletState<T>;

    closed spec fn view(&self) -> PalletState<T> {
        PalletState { something: self.something, block_number: self.block_number, events: self.events@ }
    }
}

/// The state at genesis: nothing stored, block zero, no events.
pub open spec fn genesis_state<T: Config>() -> PalletState<T> {
    PalletState { something: None, block_number: 0, events: Seq::empty() }
}

/// Records an event. As in the system pallet, no event is recorded while the
/// block number is zero (at genesis).
pub open spec fn deposit_event<T: Config>(s: PalletState<T>, e: Event<T>) -> PalletState<T> {
    if s.block_number == 0 {
        s
    } else {
        PalletState { something: s.something, block_number: s.block_number, events: s.events.push(e) }
    }
}

/// The state with a new stored value.
pub open spec fn with_something<T: Config>(s: PalletState<T>, v: Option<u32>) -> PalletState<T> {
    PalletState { something: v, block_number: s.block_number, events: s.events }
}

/// `do_something`: a signed origin stores `something` and the event
/// `SomethingStored { something, who }` is deposited; any other origin is
/// refused with `BadOrigin`.
pub open spec fn do_something_step<T: Config>(
    s: PalletState<T>,
    origin: RawOrigin<T::AccountId>,
    something: u32,
) -> (PalletState<T>, DispatchResult) {
    match origin {
        RawOrigin::Signed(who) => (
            deposit_event(with_something(s, Some(something)), Event::SomethingStored { something, who }),
            Ok(()),
        ),
        _ => (s, Err(DispatchError::BadOrigin)),
    }
}

/// `cause_error`: for a signed origin, an empty storage gives `NoneValue`, a
/// stored `u32::MAX` gives `StorageOverflow`, and any other stored value is
/// replaced by its successor; any other origin is refused with `BadOrigin`.
/// A refused call changes nothing.
pub open spec fn cause_error_step<T: Config>(
    s: PalletState<T>,
    origin: RawOrigin<T::AccountId>,
) -> (PalletState<T>, DispatchResult) {
    match origin {
        RawOrigin::Signed(_) => match s.something {
            None => (s, Err(DispatchError::Module(Error::NoneValue))),
            Some(old) => if old < u32::MAX {
                (with_something(s, Some((old + 1) as u32)), Ok(()))
            } else {
                (s, Err(DispatchError::Module(Error::StorageOverflow)))
            },
        },
        _ => (s, Err(DispatchError::BadOrigin)),
    }
}

/// A value stored by a signed account is the value that storage then holds,
/// and the call succeeds.
pub proof fn lemma_stored_value_is_read_back<T: Config>(s: PalletState<T>, who: T::AccountId, v: u32)
    ensures
        do_something_step(s, RawOrigin::Signed(who), v).1 == Ok::<(), DispatchError>(()),
        do_something_step(s, RawOrigin::Signed(who), v).0.something == Some(v),
        do_something_step(s, RawOrigin::Signed(who), v).0.block_number == s.block_number,
{
}

/// Outside genesis, storing a value records exactly one new event,
/// `SomethingStored` with the value and the signer, after the earlier ones;
/// at genesis it records nothing.
pub proof fn lemma_store_deposits_one_event<T: Config>(s: PalletState<T>, who: T::AccountId, v: u32)
    ensures
        s.block_number != 0 ==> do_something_step(s, RawOrigin::Signed(who), v).0.events
            == s.events.push(Event::SomethingStored { something: v, who }),
        s.block_number == 0 ==> do_something_step(s, RawOrigin::Signed(who), v).0.events == s.events,
{
}

/// Only signed origins are served: the root and unsigned origins are refused
/// with `BadOrigin` by both calls.
pub proof fn lemma_only_signed_origins<T: Config>(s: PalletState<T>, origin: RawOrigin<T::AccountId>, v: u32)
    ensures
        !(origin is Signed) ==> do_something_step(s, origin, v).1 == Err::<(), DispatchError>(DispatchError::BadOrigin),
        !(origin is Signed) ==> cause_error_step(s, origin).1 == Err::<(), DispatchError>(DispatchError::BadOrigin),
{
}

/// Every call is transactional: a call that returns an error leaves the whole
/// state (storage, block number, events) as it was.
pub proof fn lemma_refused_calls_change_nothing<T: Config>(s: PalletState<T>, origin: RawOrigin<T::AccountId>, v: u32)
    ensures
        do_something_step(s, origin, v).1 is Err ==> do_something_step(s, origin, v).0 == s,
        cause_error_step(s, origin).1 is Err ==> cause_error_step(s, origin).0 == s,
{
}

/// `cause_error` records no event and keeps the block number; when it
/// succeeds, a value was stored and it has grown by exactly one; it fails with
/// `NoneValue` exactly when nothing is stored and with `StorageOverflow`
/// exactly when `u32::MAX` is stored.
pub proof fn lemma_increment_by_one<T: Config>(s: PalletState<T>, who: T::AccountId)
    ensures
        cause_error_step(s, RawOrigin::Signed(who)).0.events == s.events,
        cause_error_step(s, RawOrigin::Signed(who)).0.block_number == s.block_number,
        cause_error_step(s, RawOrigin::Signed(who)).1 is Ok <==> (s.something is Some && s.something->0 < u32::MAX),
        cause_error_step(s, RawOrigin::Signed(who)).1 is Ok ==> cause_error_step(s, RawOrigin::Signed(who)).0.something
            == Some((s.something->0 + 1) as u32),
        cause_error_step(s, RawOrigin::Signed(who)).1 == Err::<(), DispatchError>(DispatchError::Module(Error::NoneValue))
            <==> s.something is None,
        cause_error_step(s, RawOrigin::Signed(who)).1 == Err::<(), DispatchError>(DispatchError::Module(Error::StorageOverflow))
            <==> s.something == Some(u32::MAX),
{
}

/// Storing `v` and then calling `cause_error` leaves `v + 1` in storage, or,
/// when `v` is `u32::MAX`, fails with `StorageOverflow` and leaves `v`.
pub proof fn lemma_store_then_increment<T: Config>(
    s: PalletState<T>,
    storer: T::AccountId,
    caller: T::AccountId,
    v: u32,
)
    ensures
        ({
            let s1 = do_something_step(s, RawOrigin::Signed(storer), v).0;
            let (s2, r) = cause_error_step(s1, RawOrigin::Signed(caller));
            &&& v < u32::MAX ==> r == Ok::<(), DispatchError>(()) && s2.something == Some((v + 1) as u32)
            &&& v == u32::MAX ==> r == Err::<(), DispatchError>(DispatchError::Module(Error::StorageOverflow)) && s2 == s1
        }),
{
}

/// At genesis nothing is stored, so `cause_error` from any signer fails with
/// `NoneValue`.
pub proof fn lemma_genesis_holds_nothing<T: Config>(who: T::AccountId)
    ensures
        cause_error_step(genesis_state::<T>(), RawOrigin::Signed(who))
            == (genesis_state::<T>(), Err::<(), DispatchError>(DispatchError::Module(Error::NoneValue))),
{
}

/// At genesis nothing is stored, the block number is zero and no event has
/// been recorded.
pub proof fn lemma_genesis_state<T: Config>()
    ensures
        genesis_state::<T>().something == None::<u32>,
        genesis_state::<T>().block_number == 0,
        genesis_state::<T>().events.len() == 0,
{
}

/// A signed origin yields its signer; the root and unsigned origins are
/// refused with `BadOrigin`.
pub proof fn lemma_ensure_signed<A>(who: A)
    ensures
        spec_ensure_signed(RawOrigin::Signed(who)) == Ok::<A, DispatchError>(who),
        spec_ensure_signed(RawOrigin::<A>::Root) == Err::<A, DispatchError>(DispatchError::BadOrigin),
        spec_ensure_signed(RawOrigin::<A>::Unsigned) == Err::<A, DispatchError>(DispatchError::BadOrigin),
{
}

impl<T: Config> Pallet<T> {
    /// The pallet at genesis.
    pub fn new() -> (p: Self)
        ensures
            p@ == genesis_state::<T>(),
    {
        Pallet { something: None, block_number: 0, events: Vec::new() }
    }

    /// Sets the current block number; storage and recorded events stay.
    pub fn set_block_number(&mut self, n: u32)
        ensures
            final(self)@.something == old(self)@.something,
            final(self)@.block_number == n,
            final(self)@.events == old(self)@.events,
    {
        self.block_number = n;
    }

    /// Drops the recorded events, as the system pallet does when a block begins.
    pub fn reset_events(&mut self)
        ensures
            final(self)@.something == old(self)@.something,
            final(self)@.block_number == old(self)@.block_number,
            final(self)@.events == Seq::<Event<T>>::empty(),
    {
        self.events = Vec::new();
    }

    /// The current block number.
    pub fn block_number(&self) -> (n: u32)
        ensures
            n == self@.block_number,
    {
        self.block_number
    }

    /// Reads the stored value.
    pub fn something(&self) -> (v: Option<u32>)
        ensures
            v == self@.something,
    {
        self.something
    }

    /// Writes a value straight into storage, as genesis or a benchmark setup does.
    pub fn put_something(&mut self, v: u32)
        ensures
            final(self)@ == with_something(old(self)@, Some(v)),
    {
        self.something = Some(v);
    }

    /// The events recorded in the current block, oldest first.
    pub fn events(&self) -> (es: &Vec<Event<T>>)
        ensures
            es@ == self@.events,
    {
        &self.events
    }

    /// The most recent event of the current block, if any.
    pub fn last_event(&self) -> (e: Option<&Event<T>>)
        ensures
            self@.events.len() == 0 ==> e is None,
            self@.events.len() > 0 ==> e == Some(&self@.events.last()),
    {
        let n = self.events.len();
        if n == 0 {
            None
        } else {
            Some(&self.events[n - 1])
        }
    }

    fn deposit(&mut self, e: Event<T>)
        ensures
            final(self)@ == deposit_event(old(self)@, e),
    {
        if self.block_number != 0 {
            self.events.push(e);
        }
    }

    /// Stores `something` for a signed caller and deposits `SomethingStored`.
    pub fn do_something(&mut self, origin: RawOrigin<T::AccountId>, something: u32) -> (r: DispatchResult)
        ensures
            (final(self)@, r) == do_something_step(old(self)@, origin, something),
    {
        let who = match ensure_signed(origin) {
            Ok(who) => who,
            Err(e) => return Err(e),
        };
        self.something = Some(something);
        self.deposit(Event::SomethingStored { something, who });
        Ok(())
    }

    /// Increments the stored value for a signed caller, or reports that it is
    /// missing or already at its maximum.
    pub fn cause_error(&mut self, origin: RawOrigin<T::AccountId>) -> (r: DispatchResult)
        ensures
            (final(self)@, r) == cause_error_step(old(self)@, origin),
    {
        match ensure_signed(origin) {
            Ok(_) => {},
            Err(e) => return Err(e),
        }
        match self.something {
            None => Err(DispatchError::Module(Error::NoneValue)),
            Some(old) => match old.checked_add(1) {
                None => Err(DispatchError::Module(Error::StorageOverflow)),
                Some(new) => {
                    self.something = Some(new);
                    Ok(())
                },
            },
        }
    }
}

} // verus!
