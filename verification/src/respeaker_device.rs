//! The session with one device: what state it is in, which transfers it
//! asks for, and what their outcomes do to the cache of parameter values.
//!
//! The session makes no transfer itself. For each operation it names the
//! transfer to make and then takes the outcome: `read_request` and `read`,
//! `write_request` and `write`, `reset_request` and `reset`. The caller makes
//! the transfer in between.

use crate::cache::ParamState;
use crate::params::{ParamDef, ParamKind};
use crate::usb::{
    control_interface, decoded, first_control_interface, refusal, spec_read_request,
    spec_reset_request, spec_write_request, ControlRead, ControlWrite, ControlWriteView,
    DecodeError, InterfaceId, OpenError, ValidationError,
};
use crate::value::Value;
use vstd::prelude::*;

verus! {

/// How long the device needs after a reset before it can be opened again,
/// in milliseconds.
pub const SETTLE_MS: u64 = 2000;

/// Where a session stands: closed, open, or reset and waiting to be opened
/// again.
#[derive(Clone, Copy, Debug, PartialEq, Eq, Structural)]
pub enum SessionState {
    Closed,
    Open,
    /// Reset, and not yet opened again.
    Resetting,
}

/// Why a transfer failed.
#[derive(Clone, Copy, Debug, PartialEq, Eq, Structural)]
pub enum TransportError {
    Io,
    InvalidParam,
    Access,
    NoDevice,
    NotFound,
    Busy,
    Timeout,
    Overflow,
    Pipe,
    Interrupted,
    NoMem,
    NotSupported,
    BadDescriptor,
    Other,
}

/// Why an operation of the session failed.
#[derive(Clone, Copy, Debug, PartialEq)]
pub enum DeviceError {
    /// The transfer failed.
    Transport(TransportError),
    /// The transfer was made and its response cannot be read as a value.
    Decode(DecodeError),
    /// The value may not be written; no transfer is to be made.
    Validation(ValidationError),
    /// The device cannot be opened.
    Open(OpenError),
    /// The device was reset and has not been opened again.
    ResetInFlight,
    /// The session is closed.
    Closed,
    /// One of several transfers has no outcome: the caller did not make it.
    NoOutcome,
}

/// One row of the list of all parameters.
#[derive(Clone, Copy, Debug)]
pub struct ListEntry {
    pub kind: ParamKind,
    pub def: ParamDef,
    pub value: Value,
}

/// What a session is, as contracts see it.
pub struct Session {
    /// Which of the devices found this is.
    pub index: usize,
    /// The number of the device's control interface.
    pub interface_number: u8,
    pub state: SessionState,
    /// When the last reset was made, in milliseconds.
    pub reset_time: u64,
    /// Whether every parameter has been read since the device was opened
    /// or reset.
    pub primed: bool,
    /// The last known value of each parameter.
    pub cache: Map<ParamKind, Value>,
}

/// The outcome of a read transfer, with the bytes as a sequence.
pub open spec fn response_of(outcome: Result<Vec<u8>, TransportError>) -> Result<
    Seq<u8>,
    TransportError,
> {
    match outcome {
        Ok(bytes) => Ok(bytes@),
        Err(e) => Err(e),
    }
}

/// The outcome at position `i`, if there is one.
pub open spec fn outcome_at<T>(outcomes: Seq<T>, i: int) -> Option<T> {
    if 0 <= i < outcomes.len() {
        Some(outcomes[i])
    } else {
        None
    }
}

impl ParamKind {
    /// The transfer that reads this parameter.
    pub open spec fn read_transfer(self) -> ControlRead {
        spec_read_request(self.page(), self.command(), self.domain().spec_is_int())
    }

    /// The transfer that writes `value` to this parameter.
    pub open spec fn write_transfer(self, value: Value) -> ControlWriteView {
        spec_write_request(self.page(), self.command(), value)
    }

    /// Why `value` may not be written to this parameter, if it may not.
    pub open spec fn refuses(self, value: Value) -> Option<ValidationError> {
        refusal(self.domain(), self.access(), value)
    }
}

impl ParamKind {
    /// The read of one parameter is never taken for the read of another:
    /// the transfer determines the kind.
    pub proof fn lemma_read_transfer_determines_kind(self, other: ParamKind)
        requires
            self.read_transfer() == other.read_transfer(),
        ensures
            self == other,
    {
        self.lemma_definition_well_formed();
        other.lemma_definition_well_formed();
        crate::usb::lemma_read_command_layout(self.command(), self.domain().spec_is_int());
        crate::usb::lemma_read_command_layout(other.command(), other.domain().spec_is_int());
        self.lemma_address_determines_kind(other);
    }

    /// Both bounds of a writable parameter can be written, and a value of
    /// the parameter's sort outside the bounds is refused with exactly
    /// these bounds.
    pub proof fn lemma_bounds_can_be_written(self, value: Value)
        ensures
            self.access() == crate::params::Access::ReadWrite ==> self.refuses(
                self.domain().lower(),
            ) is None && self.refuses(self.domain().upper()) is None,
            self.domain().matches_sort(value) && !self.domain().admits(value) ==> self.refuses(
                value,
            ) == Some(
                ValidationError::OutOfRange {
                    min: self.domain().lower(),
                    max: self.domain().upper(),
                    actual: value,
                },
            ),
    {
        self.lemma_definition_well_formed();
    }
}

impl Session {
    /// A session as `open` makes it.
    pub open spec fn opened(
        index: usize,
        interface_number: u8,
        cache: Map<ParamKind, Value>,
    ) -> Session {
        Session {
            index,
            interface_number,
            state: SessionState::Open,
            reset_time: 0,
            primed: false,
            cache,
        }
    }

    /// What stands in the way of a transfer: nothing while the session is
    /// open.
    pub open spec fn gate(self) -> Option<DeviceError> {
        match self.state {
            SessionState::Open => None,
            SessionState::Resetting => Some(DeviceError::ResetInFlight),
            SessionState::Closed => Some(DeviceError::Closed),
        }
    }

    /// The transfer that reads `kind`, while the session is open.
    pub open spec fn read_request(self, kind: ParamKind) -> Result<ControlRead, DeviceError> {
        match self.gate() {
            Some(e) => Err(e),
            None => Ok(kind.read_transfer()),
        }
    }

    /// What a read gives, and the session after it. The value that was
    /// read enters the cache; a failed read leaves the session as it was.
    pub open spec fn read(self, kind: ParamKind, response: Result<Seq<u8>, TransportError>) -> (
        Session,
        Result<Value, DeviceError>,
    ) {
        match self.gate() {
            Some(e) => (self, Err(e)),
            None => match response {
                Err(e) => (self, Err(DeviceError::Transport(e))),
                Ok(bytes) => match decoded(kind.domain(), bytes) {
                    Err(e) => (self, Err(DeviceError::Decode(e))),
                    Ok(value) => (
                        Session { cache: self.cache.insert(kind, value), ..self },
                        Ok(value),
                    ),
                },
            },
        }
    }

    /// What stands in the way of writing `value`: the value itself first,
    /// the state of the session second.
    pub open spec fn write_gate(self, kind: ParamKind, value: Value) -> Option<DeviceError> {
        match kind.refuses(value) {
            Some(e) => Some(DeviceError::Validation(e)),
            None => self.gate(),
        }
    }

    /// The transfer that writes `value` to `kind`, where nothing stands in
    /// the way.
    pub open spec fn write_request(self, kind: ParamKind, value: Value) -> Result<
        ControlWriteView,
        DeviceError,
    > {
        match self.write_gate(kind, value) {
            Some(e) => Err(e),
            None => Ok(kind.write_transfer(value)),
        }
    }

    /// What a write gives, and the session after it. The value that was
    /// written enters the cache; a failed write leaves the session as it
    /// was.
    pub open spec fn write(
        self,
        kind: ParamKind,
        value: Value,
        outcome: Result<usize, TransportError>,
    ) -> (Session, Result<(), DeviceError>) {
        match self.write_gate(kind, value) {
            Some(e) => (self, Err(e)),
            None => match outcome {
                Err(e) => (self, Err(DeviceError::Transport(e))),
                Ok(_) => (Session { cache: self.cache.insert(kind, value), ..self }, Ok(())),
            },
        }
    }

    /// The transfer that resets the device, while the session is open.
    pub open spec fn reset_request(self) -> Result<ControlWriteView, DeviceError> {
        match self.gate() {
            Some(e) => Err(e),
            None => Ok(spec_reset_request(self.interface_number)),
        }
    }

    /// What a reset made at `now` gives, and the session after it. After a
    /// reset the session waits to be opened again, and the cache counts as
    /// not primed.
    pub open spec fn reset(self, outcome: Result<usize, TransportError>, now: u64) -> (
        Session,
        Result<(), DeviceError>,
    ) {
        match self.gate() {
            Some(e) => (self, Err(e)),
            None => match outcome {
                Err(e) => (self, Err(DeviceError::Transport(e))),
                Ok(_) => (
                    Session {
                        state: SessionState::Resetting,
                        reset_time: now,
                        primed: false,
                        ..self
                    },
                    Ok(()),
                ),
            },
        }
    }

    /// Whether at `now` the settle time has passed since the last reset.
    pub open spec fn settled(self, now: u64) -> bool {
        now - self.reset_time >= SETTLE_MS
    }

    /// What opening again at `now` gives, and the session after it. A
    /// session that was reset opens once the settle time has passed; a
    /// closed one opens at once; an open one stays as it is.
    pub open spec fn reopen(self, interfaces: Seq<InterfaceId>, now: u64) -> (
        Session,
        Result<(), DeviceError>,
    ) {
        if self.state == SessionState::Open {
            (self, Ok(()))
        } else if self.state == SessionState::Resetting && !self.settled(now) {
            (self, Err(DeviceError::ResetInFlight))
        } else {
            match first_control_interface(interfaces) {
                None => (self, Err(DeviceError::Open(OpenError::NoControlInterface))),
                Some(interface_number) => (
                    Session { state: SessionState::Open, interface_number, ..self },
                    Ok(()),
                ),
            }
        }
    }

    /// The reads of `kinds` in their order, the outcome at each kind's
    /// position: the session after them, and the first error. A read after
    /// the first error is not made, and a read without an outcome is an
    /// error.
    pub open spec fn read_each(
        self,
        kinds: Seq<ParamKind>,
        outcomes: Seq<Result<Vec<u8>, TransportError>>,
    ) -> (Session, Option<DeviceError>)
        decreases kinds.len(),
    {
        if kinds.len() == 0 {
            (self, None)
        } else {
            let (before, failed) = self.read_each(kinds.drop_last(), outcomes);
            match failed {
                Some(e) => (before, Some(e)),
                None => match outcome_at(outcomes, kinds.len() - 1) {
                    None => (before, Some(DeviceError::NoOutcome)),
                    Some(outcome) => {
                        let (after, value) = before.read(kinds.last(), response_of(outcome));
                        match value {
                            Ok(_) => (after, None),
                            Err(e) => (after, Some(e)),
                        }
                    },
                },
            }
        }
    }

    /// The session after a list, given that the reads of the list gave
    /// `read`: once every parameter has been read, the cache is primed.
    pub open spec fn listed(read: (Session, Option<DeviceError>)) -> Session {
        match read.1 {
            Some(_) => read.0,
            None => Session { primed: true, ..read.0 },
        }
    }
}

/// Whether `entries` lists every parameter in display order, each with
/// its definition and its value in `cache`.
pub open spec fn is_listing(entries: Seq<ListEntry>, cache: Map<ParamKind, Value>) -> bool {
    &&& entries.map_values(|e: ListEntry| e.kind) == ParamKind::display_order()
    &&& forall|i: int|
        0 <= i < entries.len() ==> {
            let e = #[trigger] entries[i];
            &&& e.def.describes(e.kind)
            &&& cache.contains_key(e.kind)
            &&& e.value == cache[e.kind]
        }
}

impl Session {
    /// Once a read has failed, the reads that follow are not made: the
    /// session and the error stay as the failed read left them.
    pub proof fn lemma_read_each_stops(
        self,
        kinds: Seq<ParamKind>,
        outcomes: Seq<Result<Vec<u8>, TransportError>>,
        n: int,
    )
        requires
            0 <= n <= kinds.len(),
            self.read_each(kinds.take(n), outcomes).1 is Some,
        ensures
            self.read_each(kinds, outcomes) == self.read_each(kinds.take(n), outcomes),
        decreases kinds.len() - n,
    {
        if n < kinds.len() {
            assert(kinds.take(n + 1).drop_last() =~= kinds.take(n));
            self.lemma_read_each_stops(kinds, outcomes, n + 1);
        } else {
            assert(kinds.take(n) =~= kinds);
        }
    }
}

impl Session {
    /// A transfer is asked for, and its outcome taken, only while the
    /// session is open.
    pub proof fn lemma_transfers_need_an_open_session(
        self,
        kind: ParamKind,
        value: Value,
        response: Result<Seq<u8>, TransportError>,
        outcome: Result<usize, TransportError>,
        now: u64,
    )
        ensures
            self.read_request(kind) is Ok ==> self.state == SessionState::Open,
            self.read(kind, response).1 is Ok ==> self.state == SessionState::Open,
            self.write_request(kind, value) is Ok ==> self.state == SessionState::Open,
            self.write(kind, value, outcome).1 is Ok ==> self.state == SessionState::Open,
            self.reset_request() is Ok ==> self.state == SessionState::Open,
            self.reset(outcome, now).1 is Ok ==> self.state == SessionState::Open,
    {
    }

    /// After a reset at `reset_at` no parameter is read or written until
    /// the session has been opened again, and it cannot be opened again
    /// before the settle time has passed: until then a read, a write and an
    /// attempt to open fail with `ResetInFlight` and change nothing. Once
    /// the settle time has passed, opening succeeds on a device with a
    /// control interface, and reads are asked for again.
    pub proof fn lemma_reset_blocks_until_reopened(
        self,
        written: usize,
        reset_at: u64,
        kind: ParamKind,
        value: Value,
        response: Result<Seq<u8>, TransportError>,
        outcome: Result<usize, TransportError>,
        interfaces: Seq<InterfaceId>,
        now: u64,
    )
        requires
            self.state == SessionState::Open,
        ensures
            ({
                let waiting = self.reset(Ok(written), reset_at).0;
                let reopened = waiting.reopen(interfaces, now);
                &&& self.reset(Ok(written), reset_at).1 is Ok
                &&& waiting.state == SessionState::Resetting
                &&& !waiting.primed
                &&& waiting.cache == self.cache
                &&& waiting.read_request(kind) == Err::<ControlRead, DeviceError>(
                    DeviceError::ResetInFlight,
                )
                &&& waiting.read(kind, response) == (
                    waiting,
                    Err::<Value, DeviceError>(DeviceError::ResetInFlight),
                )
                &&& kind.refuses(value) is None ==> waiting.write(kind, value, outcome) == (
                    waiting,
                    Err::<(), DeviceError>(DeviceError::ResetInFlight),
                )
                &&& now - reset_at < SETTLE_MS ==> reopened == (
                    waiting,
                    Err::<(), DeviceError>(DeviceError::ResetInFlight),
                )
                &&& now - reset_at >= SETTLE_MS && first_control_interface(interfaces) is Some ==> {
                    &&& reopened.1 is Ok
                    &&& reopened.0.state == SessionState::Open
                    &&& reopened.0.cache == self.cache
                    &&& reopened.0.read_request(kind) is Ok
                }
            }),
    {
    }

    /// A value that may not be written is refused in every state of the
    /// session, with the reason that the value itself gives, and the
    /// session stays as it was.
    pub proof fn lemma_refused_write_changes_nothing(
        self,
        kind: ParamKind,
        value: Value,
        outcome: Result<usize, TransportError>,
    )
        requires
            kind.refuses(value) is Some,
        ensures
            self.write_request(kind, value) == Err::<ControlWriteView, DeviceError>(
                DeviceError::Validation(kind.refuses(value)->Some_0),
            ),
            self.write(kind, value, outcome) == (
                self,
                Err::<(), DeviceError>(DeviceError::Validation(kind.refuses(value)->Some_0)),
            ),
    {
    }

    /// A read that succeeds puts the value read into the cache and changes
    /// nothing else; a write that succeeds does so with the value written.
    pub proof fn lemma_cache_follows_transfers(
        self,
        kind: ParamKind,
        value: Value,
        response: Result<Seq<u8>, TransportError>,
        outcome: Result<usize, TransportError>,
    )
        ensures
            self.read(kind, response).1 is Ok ==> self.read(kind, response).0 == (Session {
                cache: self.cache.insert(kind, self.read(kind, response).1->Ok_0),
                ..self
            }),
            self.read(kind, response).1 is Err ==> self.read(kind, response).0 == self,
            self.write(kind, value, outcome).1 is Ok ==> self.write(kind, value, outcome).0 == (
            Session { cache: self.cache.insert(kind, value), ..self }),
            self.write(kind, value, outcome).1 is Err ==> self.write(kind, value, outcome).0
                == self,
    {
    }
}

/// A session with one device.
pub struct ReSpeakerDevice {
    index: usize,
    interface_number: u8,
    state: SessionState,
    reset_time: u64,
    primed: bool,
    param_state: ParamState,
}

impl View for ReSpeakerDevice {
    type V = Session;

    closed spec fn view(&self) -> Session {
        Session {
            index: self.index,
            interface_number: self.interface_number,
            state: self.state,
            reset_time: self.reset_time,
            primed: self.primed,
            cache: self.param_state@,
        }
    }
}

impl ReSpeakerDevice {
    /// A session with the device at `index` among those found, whose
    /// interfaces are `interfaces`. The session takes `param_state` as its
    /// cache.
    pub fn open(index: usize, interfaces: &[InterfaceId], param_state: ParamState) -> (r: Result<
        ReSpeakerDevice,
        OpenError,
    >)
        ensures
            match first_control_interface(interfaces@) {
                None => r == Err::<ReSpeakerDevice, OpenError>(OpenError::NoControlInterface),
                Some(n) => r is Ok && r->Ok_0@ == Session::opened(index, n, param_state@),
            },
    {
        match control_interface(interfaces) {
            None => Err(OpenError::NoControlInterface),
            Some(interface_number) => Ok(
                ReSpeakerDevice {
                    index,
                    interface_number,
                    state: SessionState::Open,
                    reset_time: 0,
                    primed: false,
                    param_state,
                },
            ),
        }
    }

    /// Where the session stands.
    pub fn state(&self) -> (r: SessionState)
        ensures
            r == self@.state,
    {
        self.state
    }

    /// Which of the devices found this is.
    pub fn index(&self) -> (r: usize)
        ensures
            r == self@.index,
    {
        self.index
    }

    /// The number of the device's control interface.
    pub fn interface_number(&self) -> (r: u8)
        ensures
            r == self@.interface_number,
    {
        self.interface_number
    }

    /// Whether every parameter has been read since the device was opened or
    /// reset.
    pub fn is_primed(&self) -> (r: bool)
        ensures
            r == self@.primed,
    {
        self.primed
    }

    /// The cache of the session.
    pub fn params(&self) -> (r: &ParamState)
        ensures
            r@ == self@.cache,
    {
        &self.param_state
    }

    /// Puts `value` into the cache as the value of `kind`, as an editor
    /// does. Nothing is sent to the device.
    pub fn edit(&mut self, kind: ParamKind, value: Value)
        ensures
            final(self)@ == (Session { cache: old(self)@.cache.insert(kind, value), ..old(self)@ }),
    {
        let mut cache = self.param_state.snapshot();
        cache.set(kind, value);
        self.param_state = cache;
    }

    /// Closes the session.
    pub fn close(&mut self)
        ensures
            final(self)@ == (Session { state: SessionState::Closed, ..old(self)@ }),
    {
        self.state = SessionState::Closed;
    }

    /// What stands in the way of a transfer.
    fn gate_error(&self) -> (r: Option<DeviceError>)
        ensures
            r == self@.gate(),
    {
        match self.state {
            SessionState::Open => None,
            SessionState::Resetting => Some(DeviceError::ResetInFlight),
            SessionState::Closed => Some(DeviceError::Closed),
        }
    }

    /// The transfer that reads `kind`.
    pub fn read_request(&self, kind: &ParamKind) -> (r: Result<ControlRead, DeviceError>)
        ensures
            r == self@.read_request(*kind),
    {
        match self.gate_error() {
            Some(e) => Err(e),
            None => Ok(crate::usb::read_request(&kind.def())),
        }
    }

    /// Takes the response to the read of `kind`.
    fn read_response(&mut self, kind: &ParamKind, response: Result<&[u8], TransportError>) -> (r:
        Result<Value, DeviceError>)
        ensures
            (final(self)@, r) == old(self)@.read(
                *kind,
                match response {
                    Ok(bytes) => Ok(bytes@),
                    Err(e) => Err(e),
                },
            ),
    {
        match self.gate_error() {
            Some(e) => {
                return Err(e);
            },
            None => {},
        }
        let bytes: &[u8] = match response {
            Err(e) => {
                return Err(DeviceError::Transport(e));
            },
            Ok(bytes) => bytes,
        };
        match crate::usb::read(&kind.def(), bytes) {
            Err(e) => Err(DeviceError::Decode(e)),
            Ok(value) => {
                let mut cache = self.param_state.snapshot();
                cache.set(*kind, value);
                self.param_state = cache;
                Ok(value)
            },
        }
    }

    /// Takes the outcome of the read of `kind`: the value read, which is
    /// now in the cache, or why there is none.
    pub fn read(&mut self, kind: &ParamKind, outcome: &Result<Vec<u8>, TransportError>) -> (r:
        Result<Value, DeviceError>)
        ensures
            (final(self)@, r) == old(self)@.read(*kind, response_of(*outcome)),
    {
        match outcome {
            Ok(bytes) => self.read_response(kind, Ok(bytes.as_slice())),
            Err(e) => self.read_response(kind, Err(*e)),
        }
    }

    /// The transfer that writes `value` to `kind`, or why there is none.
    pub fn write_request(&self, kind: &ParamKind, value: &Value) -> (r: Result<
        ControlWrite,
        DeviceError,
    >)
        ensures
            match self@.write_request(*kind, *value) {
                Err(e) => r == Err::<ControlWrite, DeviceError>(e),
                Ok(transfer) => r is Ok && r->Ok_0@ == transfer,
            },
    {
        match crate::usb::write(&kind.def(), value) {
            Err(e) => Err(DeviceError::Validation(e)),
            Ok(transfer) => match self.gate_error() {
                Some(e) => Err(e),
                None => Ok(transfer),
            },
        }
    }

    /// Takes the outcome of the write of `value` to `kind`. After a write
    /// that succeeded the value is in the cache.
    pub fn write(
        &mut self,
        kind: &ParamKind,
        value: &Value,
        outcome: &Result<usize, TransportError>,
    ) -> (r: Result<(), DeviceError>)
        ensures
            (final(self)@, r) == old(self)@.write(*kind, *value, *outcome),
    {
        match crate::usb::validate(&kind.def(), value) {
            Err(e) => {
                return Err(DeviceError::Validation(e));
            },
            Ok(()) => {},
        }
        match self.gate_error() {
            Some(e) => {
                return Err(e);
            },
            None => {},
        }
        match outcome {
            Err(e) => Err(DeviceError::Transport(*e)),
            Ok(_) => {
                let mut cache = self.param_state.snapshot();
                cache.set(*kind, *value);
                self.param_state = cache;
                Ok(())
            },
        }
    }

    /// The transfer that resets the device. It goes to the control
    /// interface, whose number is the transfer's index; the caller claims
    /// that interface before the transfer and releases it after.
    pub fn reset_request(&self) -> (r: Result<ControlWrite, DeviceError>)
        ensures
            match self@.reset_request() {
                Err(e) => r == Err::<ControlWrite, DeviceError>(e),
                Ok(transfer) => r is Ok && r->Ok_0@ == transfer,
            },
    {
        match self.gate_error() {
            Some(e) => Err(e),
            None => Ok(crate::usb::reset(self.interface_number)),
        }
    }

    /// Takes the outcome of the reset, made at `now_ms` on a clock that
    /// counts milliseconds.
    pub fn reset(&mut self, outcome: &Result<usize, TransportError>, now_ms: u64) -> (r: Result<
        (),
        DeviceError,
    >)
        ensures
            (final(self)@, r) == old(self)@.reset(*outcome, now_ms),
    {
        match self.gate_error() {
            Some(e) => {
                return Err(e);
            },
            None => {},
        }
        match outcome {
            Err(e) => Err(DeviceError::Transport(*e)),
            Ok(_) => {
                self.state = SessionState::Resetting;
                self.reset_time = now_ms;
                self.primed = false;
                Ok(())
            },
        }
    }

    /// Opens the session again at `now_ms`, on the device whose interfaces
    /// are `interfaces`.
    pub fn reopen(&mut self, interfaces: &[InterfaceId], now_ms: u64) -> (r: Result<
        (),
        DeviceError,
    >)
        ensures
            (final(self)@, r) == old(self)@.reopen(interfaces@, now_ms),
    {
        match self.state {
            SessionState::Open => {
                return Ok(());
            },
            SessionState::Resetting => {
                if now_ms < self.reset_time || now_ms - self.reset_time < SETTLE_MS {
                    return Err(DeviceError::ResetInFlight);
                }
            },
            SessionState::Closed => {},
        }
        match control_interface(interfaces) {
            None => Err(DeviceError::Open(OpenError::NoControlInterface)),
            Some(interface_number) => {
                self.state = SessionState::Open;
                self.interface_number = interface_number;
                Ok(())
            },
        }
    }

    /// The transfers that read `kinds`, in their order.
    pub fn read_requests(&self, kinds: &Vec<ParamKind>) -> (r: Result<
        Vec<ControlRead>,
        DeviceError,
    >)
        ensures
            match self@.gate() {
                Some(e) => r == Err::<Vec<ControlRead>, DeviceError>(e),
                None => r is Ok && r->Ok_0@ == kinds@.map_values(|k: ParamKind| k.read_transfer()),
            },
    {
        match self.gate_error() {
            Some(e) => {
                return Err(e);
            },
            None => {},
        }
        let mut out: Vec<ControlRead> = Vec::new();
        let mut i: usize = 0;
        while i < kinds.len()
            invariant
                i <= kinds@.len(),
                out@.len() == i,
                forall|j: int| 0 <= j < i ==> out@[j] == (#[trigger] kinds@[j]).read_transfer(),
            decreases kinds@.len() - i,
        {
            out.push(crate::usb::read_request(&kinds[i].def()));
            i += 1;
        }
        assert(out@ =~= kinds@.map_values(|k: ParamKind| k.read_transfer()));
        Ok(out)
    }

    /// Takes the outcomes of the reads of `kinds`, the outcome at each
    /// kind's position, and gives the first error.
    fn read_kinds(
        &mut self,
        kinds: &Vec<ParamKind>,
        outcomes: &Vec<Result<Vec<u8>, TransportError>>,
    ) -> (r: Option<DeviceError>)
        ensures
            (final(self)@, r) == old(self)@.read_each(kinds@, outcomes@),
            r is None ==> forall|i: int|
                0 <= i < kinds@.len() ==> final(self)@.cache.contains_key(#[trigger] kinds@[i]),
    {
        let ghost start = self@;
        let mut i: usize = 0;
        assert(kinds@.take(0) =~= Seq::<ParamKind>::empty());
        while i < kinds.len()
            invariant
                i <= kinds@.len(),
                start == old(self)@,
                (self@, None::<DeviceError>) == start.read_each(kinds@.take(i as int), outcomes@),
                forall|j: int| 0 <= j < i ==> self@.cache.contains_key(#[trigger] kinds@[j]),
            decreases kinds@.len() - i,
        {
            let kind = kinds[i];
            let ghost before = self@;
            let ghost prefix = kinds@.take(i as int + 1);
            proof {
                assert(prefix.drop_last() =~= kinds@.take(i as int));
                assert(prefix.last() == kind);
            }
            if i >= outcomes.len() {
                proof {
                    assert(start.read_each(prefix, outcomes@) == (
                        self@,
                        Some(DeviceError::NoOutcome),
                    ));
                    start.lemma_read_each_stops(kinds@, outcomes@, i as int + 1);
                }
                return Some(DeviceError::NoOutcome);
            }
            let result = self.read(&kind, &outcomes[i]);
            proof {
                assert(start.read_each(prefix, outcomes@) == (
                    self@,
                    match result {
                        Ok(_) => None::<DeviceError>,
                        Err(e) => Some(e),
                    },
                ));
            }
            match result {
                Err(e) => {
                    proof {
                        start.lemma_read_each_stops(kinds@, outcomes@, i as int + 1);
                    }
                    return Some(e);
                },
                Ok(_) => {},
            }
            i += 1;
        }
        assert(kinds@.take(kinds@.len() as int) =~= kinds@);
        None
    }

    /// Takes the outcomes of the reads of every kind, in the order of
    /// registration. After them the cache is primed.
    pub fn read_all(&mut self, outcomes: &Vec<Result<Vec<u8>, TransportError>>) -> (r: Result<
        (),
        DeviceError,
    >)
        ensures
            final(self)@ == Session::listed(
                old(self)@.read_each(ParamKind::all_kinds(), outcomes@),
            ),
            r == (match old(self)@.read_each(ParamKind::all_kinds(), outcomes@).1 {
                Some(e) => Err::<(), DeviceError>(e),
                None => Ok(()),
            }),
            r is Ok ==> forall|k: ParamKind| final(self)@.cache.contains_key(k),
    {
        let kinds = ParamKind::all();
        match self.read_kinds(&kinds, outcomes) {
            Some(e) => Err(e),
            None => {
                self.primed = true;
                proof {
                    assert forall|k: ParamKind| self@.cache.contains_key(k) by {
                        k.lemma_index_determines_kind();
                        assert(kinds@[k.spec_index()] == k);
                    }
                }
                Ok(())
            },
        }
    }

    /// Takes the outcomes of the reads of the read-only kinds, in the order
    /// of registration, and gives the values read.
    pub fn read_ro(&mut self, outcomes: &Vec<Result<Vec<u8>, TransportError>>) -> (r: Result<
        ParamState,
        DeviceError,
    >)
        ensures
            final(self)@ == old(self)@.read_each(ParamKind::read_only_kinds(), outcomes@).0,
            match old(self)@.read_each(ParamKind::read_only_kinds(), outcomes@).1 {
                Some(e) => r == Err::<ParamState, DeviceError>(e),
                None => r is Ok && r->Ok_0@ == final(self)@.cache.restrict(
                    Set::new(|k: ParamKind| k.access() == crate::params::Access::ReadOnly),
                ),
            },
    {
        let kinds = ParamKind::read_only();
        match self.read_kinds(&kinds, outcomes) {
            Some(e) => {
                return Err(e);
            },
            None => {},
        }
        let mut values = ParamState::new();
        let mut i: usize = 0;
        while i < kinds.len()
            invariant
                i <= kinds@.len(),
                forall|j: int|
                    0 <= j < kinds@.len() ==> self@.cache.contains_key(#[trigger] kinds@[j]),
                forall|k: ParamKind|
                    values@.contains_key(k) <==> kinds@.take(i as int).contains(k),
                forall|k: ParamKind| values@.contains_key(k) ==> values@[k] == self@.cache[k],
            decreases kinds@.len() - i,
        {
            let kind = kinds[i];
            let ghost before = values@;
            match self.param_state.get(kind) {
                Some(value) => {
                    values.set(kind, value);
                },
                None => {
                    assert(false);
                },
            }
            proof {
                assert(kinds@.take(i as int + 1) =~= kinds@.take(i as int).push(kind));
                assert forall|k: ParamKind|
                    values@.contains_key(k) <==> kinds@.take(i as int + 1).contains(k) by {
                    if kinds@.take(i as int).contains(k) {
                        let j = choose|j: int|
                            0 <= j < kinds@.take(i as int).len() && kinds@.take(i as int)[j] == k;
                        assert(kinds@.take(i as int + 1)[j] == k);
                    }
                    if k == kind {
                        assert(kinds@.take(i as int + 1)[i as int] == k);
                    }
                }
            }
            i += 1;
        }
        proof {
            ParamKind::lemma_read_only_kinds();
            assert(kinds@.take(kinds@.len() as int) =~= kinds@);
            assert(values@ =~= self@.cache.restrict(
                Set::new(|k: ParamKind| k.access() == crate::params::Access::ReadOnly),
            ));
        }
        Ok(values)
    }

    /// Takes the outcomes of the reads of every kind, in the order of
    /// registration, and lists every parameter with its definition and the
    /// value read, in display order.
    pub fn list(&mut self, outcomes: &Vec<Result<Vec<u8>, TransportError>>) -> (r: Result<
        Vec<ListEntry>,
        DeviceError,
    >)
        ensures
            final(self)@ == Session::listed(
                old(self)@.read_each(ParamKind::all_kinds(), outcomes@),
            ),
            match old(self)@.read_each(ParamKind::all_kinds(), outcomes@).1 {
                Some(e) => r == Err::<Vec<ListEntry>, DeviceError>(e),
                None => r is Ok && is_listing(r->Ok_0@, final(self)@.cache),
            },
    {
        match self.read_all(outcomes) {
            Err(e) => {
                return Err(e);
            },
            Ok(()) => {},
        }
        let kinds = ParamKind::sorted();
        let mut entries: Vec<ListEntry> = Vec::new();
        let mut i: usize = 0;
        while i < kinds.len()
            invariant
                i <= kinds@.len(),
                forall|k: ParamKind| self@.cache.contains_key(k),
                entries@.len() == i,
                forall|j: int|
                    0 <= j < i ==> {
                        let e = #[trigger] entries@[j];
                        &&& e.kind == kinds@[j]
                        &&& e.def.describes(e.kind)
                        &&& e.value == self@.cache[e.kind]
                    },
            decreases kinds@.len() - i,
        {
            let kind = kinds[i];
            match self.param_state.get(kind) {
                Some(value) => {
                    entries.push(ListEntry { kind, def: kind.def(), value });
                },
                None => {
                    assert(false);
                },
            }
            i += 1;
        }
        proof {
            assert(entries@.map_values(|e: ListEntry| e.kind) =~= kinds@);
        }
        Ok(entries)
    }
}

} // verus!
