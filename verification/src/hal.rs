//! Hardware abstraction layer: time, message transmission and critical
//! sections behind one interface, with a do-nothing implementation and a
//! desktop implementation that queues its messages in memory.

use vstd::prelude::*;
use std::collections::VecDeque;
use std::time::Instant;
use crate::types::{Error, ModuleId, TimeUs, BROADCAST_ID};

verus! {

/// Message types for inter-module communication.
#[derive(Debug, Clone, Copy, PartialEq, Eq, Structural)]
pub enum MsgType {
    /// Liveness check
    Heartbeat,
    /// Module discovery
    Discovery,
    /// Coordination field update
    Field,
    /// Consensus proposal
    Proposal,
    /// Consensus vote
    Vote,
    /// Proposal inhibition
    Inhibit,
    /// Mesh reformation
    Reform,
    /// Graceful shutdown
    Shutdown,
    /// Application messages start here
    UserBase,
}

impl MsgType {
    /// The code of the message type on the wire.
    pub open spec fn spec_code(self) -> u8 {
        match self {
            MsgType::Heartbeat => 0x01,
            MsgType::Discovery => 0x02,
            MsgType::Field => 0x03,
            MsgType::Proposal => 0x04,
            MsgType::Vote => 0x05,
            MsgType::Inhibit => 0x06,
            MsgType::Reform => 0x07,
            MsgType::Shutdown => 0x08,
            MsgType::UserBase => 0x80,
        }
    }

    /// The code of the message type on the wire.
    pub fn code(self) -> (c: u8)
        ensures
            c == self.spec_code(),
    {
        match self {
            MsgType::Heartbeat => 0x01,
            MsgType::Discovery => 0x02,
            MsgType::Field => 0x03,
            MsgType::Proposal => 0x04,
            MsgType::Vote => 0x05,
            MsgType::Inhibit => 0x06,
            MsgType::Reform => 0x07,
            MsgType::Shutdown => 0x08,
            MsgType::UserBase => 0x80,
        }
    }
}

/// Received message info.
#[derive(Debug, Clone, Copy)]
pub struct ReceivedMessage {
    pub sender_id: ModuleId,
    pub msg_type: MsgType,
    pub len: usize,
}

/// Milliseconds that a number of microseconds amounts to, rounded down and
/// cut to 32 bits.
pub open spec fn millis_of(us: TimeUs) -> u32 {
    ((us / 1000) % 0x1_0000_0000) as u32
}

/// Convert microseconds to milliseconds, rounding down and cutting the
/// result to 32 bits.
pub fn millis_from_micros(us: TimeUs) -> (ms: u32)
    ensures
        ms == millis_of(us),
{
    let whole: u64 = us / 1000;
    let ms: u32 = #[verifier::truncate] (whole as u32);
    assert(ms as u64 == whole % 0x1_0000_0000) by (bit_vector)
        requires
            ms == whole as u32,
    ;
    ms
}

/// Hardware abstraction layer, to be implemented for each target platform.
pub trait Hal {
    /// What the clock reads, where the HAL's own value decides it: a clock
    /// that stands still or is moved by hand. `None`, as it is unless an
    /// implementation says otherwise, for a clock that runs by itself.
    open spec fn fixed_time(&self) -> Option<TimeUs> {
        None
    }

    /// Get current time in microseconds. Must be monotonically increasing.
    fn time_us(&self) -> (t: TimeUs)
        ensures
            self.fixed_time().is_some() ==> t == self.fixed_time().unwrap(),
    ;

    /// Get current time in milliseconds, rounded down and cut to 32 bits.
    fn time_ms(&self) -> (ms: u32)
        ensures
            self.fixed_time().is_some() ==> ms == millis_of(self.fixed_time().unwrap()),
    {
        millis_from_micros(self.time_us())
    }

    /// Busy-wait delay.
    fn delay_us(&mut self, us: u32);

    /// Send message to specific module.
    fn send(&mut self, dest: ModuleId, msg_type: MsgType, data: &[u8]) -> Result<(), Error>;

    /// Broadcast message to all modules.
    fn broadcast(&mut self, msg_type: MsgType, data: &[u8]) -> Result<(), Error>;

    /// Check for received message (non-blocking).
    ///
    /// Returns None if no message available.
    fn recv(&mut self, buffer: &mut [u8]) -> Option<ReceivedMessage>;

    /// Enter critical section (disable interrupts). Returns state to restore.
    fn critical_enter(&self) -> u32;

    /// Exit critical section.
    fn critical_exit(&self, state: u32);

    /// Memory barrier.
    fn memory_barrier(&self);

    /// Get this module's hardware ID.
    fn get_module_id(&self) -> ModuleId;

    /// Get platform name.
    fn platform_name(&self) -> &'static str;

    /// Debug print (optional).
    fn debug_print(&self, _msg: &str) {
    }
}

/// Guard for critical sections: entered on creation, left by `exit`.
pub struct CriticalSection<'a, H: Hal> {
    pub hal: &'a H,
    pub state: u32,
}

impl<'a, H: Hal> CriticalSection<'a, H> {
    /// Enter critical section.
    pub fn new(hal: &'a H) -> (guard: CriticalSection<'a, H>)
        ensures
            guard.hal == hal,
    {
        let state = hal.critical_enter();
        CriticalSection { hal, state }
    }

    /// Exit critical section, restoring the state saved on entry.
    pub fn exit(self) {
        self.hal.critical_exit(self.state);
    }
}

/// No-op HAL for testing and simulation: a clock that only moves when told
/// to, and a transport that drops everything.
pub struct NoopHal {
    pub time: u64,
}

impl NoopHal {
    /// Create new no-op HAL, with its clock at zero.
    pub fn new() -> (hal: NoopHal)
        ensures
            hal.time == 0,
    {
        NoopHal { time: 0 }
    }

    /// Advance time (for testing). The clock wraps at its limit.
    pub fn advance_time(&mut self, us: u64)
        ensures
            final(self).time == vstd::wrapping::u64_specs::wrapping_add(old(self).time, us),
    {
        self.time = self.time.wrapping_add(us);
    }
}

impl Default for NoopHal {
    fn default() -> (hal: NoopHal)
        ensures
            hal.time == 0,
    {
        NoopHal::new()
    }
}

impl Hal for NoopHal {
    open spec fn fixed_time(&self) -> Option<TimeUs> {
        Some(self.time)
    }

    fn time_us(&self) -> (t: TimeUs)
        ensures
            t == self.time,
    {
        self.time
    }

    fn delay_us(&mut self, us: u32)
        ensures
            final(self).time == vstd::wrapping::u64_specs::wrapping_add(old(self).time, us as u64),
    {
        self.advance_time(us as u64);
    }

    fn send(&mut self, _dest: ModuleId, _msg_type: MsgType, _data: &[u8]) -> (r: Result<(), Error>)
        ensures
            r == Ok::<(), Error>(()),
            *final(self) == *old(self),
    {
        Ok(())
    }

    fn broadcast(&mut self, _msg_type: MsgType, _data: &[u8]) -> (r: Result<(), Error>)
        ensures
            r == Ok::<(), Error>(()),
            *final(self) == *old(self),
    {
        Ok(())
    }

    fn recv(&mut self, _buffer: &mut [u8]) -> (r: Option<ReceivedMessage>)
        ensures
            r.is_none(),
            *final(self) == *old(self),
            final(_buffer)@ == old(_buffer)@,
    {
        None
    }

    fn critical_enter(&self) -> (state: u32)
        ensures
            state == 0,
    {
        0
    }

    fn critical_exit(&self, _state: u32) {
    }

    fn memory_barrier(&self) {
    }

    fn get_module_id(&self) -> (id: ModuleId)
        ensures
            id == 1,
    {
        1
    }

    fn platform_name(&self) -> (name: &'static str)
        ensures
            name@ == "noop"@,
    {
        "noop"
    }
}

/// Maximum message data length.
pub const MSG_MAX_LEN: usize = 64;

/// Queued message for simulation.
#[derive(Debug, Clone, Copy)]
pub struct QueuedMessage {
    pub sender_id: ModuleId,
    pub dest_id: ModuleId,
    pub msg_type: MsgType,
    pub data: [u8; 64],
    pub len: usize,
}

impl QueuedMessage {
    /// Whether the message carries the first 64 bytes of `data`, filled up
    /// with zeros, from `sender_id` to `dest_id`.
    pub open spec fn carries(
        self,
        sender_id: ModuleId,
        dest_id: ModuleId,
        msg_type: MsgType,
        data: Seq<u8>,
    ) -> bool {
        &&& self.sender_id == sender_id
        &&& self.dest_id == dest_id
        &&& self.msg_type == msg_type
        &&& self.len == if data.len() < 64 {
            data.len() as int
        } else {
            64
        }
        &&& forall|i: int|
            0 <= i < 64 ==> (#[trigger] self.data[i]) == if i < self.len {
                data[i]
            } else {
                0
            }
    }

    /// Build a queued message; data beyond 64 bytes is cut off.
    pub fn new(sender_id: ModuleId, dest_id: ModuleId, msg_type: MsgType, data: &[u8]) -> (m:
        QueuedMessage)
        ensures
            m.carries(sender_id, dest_id, msg_type, data@),
    {
        let len: usize = if data.len() < MSG_MAX_LEN {
            data.len()
        } else {
            MSG_MAX_LEN
        };
        let mut msg_data = [0u8;64];
        let mut i: usize = 0;
        while i < len
            invariant
                i <= len,
                len <= 64,
                len <= data@.len(),
                forall|j: int| 0 <= j < i ==> (#[trigger] msg_data[j]) == data@[j],
                forall|j: int| i <= j < 64 ==> (#[trigger] msg_data[j]) == 0,
            decreases len - i,
        {
            msg_data[i] = data[i];
            i += 1;
        }
        QueuedMessage { sender_id, dest_id, msg_type, data: msg_data, len }
    }
}

/// A point in time of the monotonic clock of `std`.
#[verifier::external_type_specification]
#[verifier::external_body]
pub struct ExInstant(Instant);

/// Calls `std::time::Instant::now`. Nothing is claimed of the result.
#[verifier::external_body]
fn clock_now() -> Instant {
    Instant::now()
}

/// Calls `std::time::Instant::elapsed` and converts the duration to
/// nanoseconds, cut to 64 bits. Nothing is claimed of the result.
#[verifier::external_body]
fn clock_elapsed_ns(start: &Instant) -> u64 {
    start.elapsed().as_nanos() as u64
}

/// Microseconds that a number of nanoseconds amounts to, a started
/// microsecond counting as a whole one.
pub open spec fn micros_of(ns: u64) -> u64 {
    if ns % 1000 == 0 {
        ns / 1000
    } else {
        (ns / 1000 + 1) as u64
    }
}

/// Convert nanoseconds to microseconds, a started microsecond counting as a
/// whole one.
pub fn micros_from_nanos(ns: u64) -> (us: u64)
    ensures
        us == micros_of(ns),
{
    if ns % 1000 == 0 {
        ns / 1000
    } else {
        ns / 1000 + 1
    }
}

/// Real time since `start` in microseconds, a started microsecond counting
/// as a whole one.
fn clock_elapsed_us(start: &Instant) -> (us: u64)
    ensures
        exists|ns: u64| us == #[trigger] micros_of(ns),
{
    let ns: u64 = clock_elapsed_ns(start);
    let us: u64 = micros_from_nanos(ns);
    assert(us == micros_of(ns));
    us
}

/// Calls `std::sync::atomic::fence` with sequentially consistent ordering.
#[verifier::external_body]
fn full_fence() {
    std::sync::atomic::fence(std::sync::atomic::Ordering::SeqCst)
}

/// Whether a message is for the module `me`: addressed to it or broadcast.
pub open spec fn addressed_to(message: QueuedMessage, me: ModuleId) -> bool {
    message.dest_id == me || message.dest_id == BROADCAST_ID
}

/// Position of the first message for `me` from position `from` on, or the
/// length of the queue where there is none.
pub open spec fn find_addressed(queue: Seq<QueuedMessage>, me: ModuleId, from: int) -> int
    decreases queue.len() - from,
{
    if from >= queue.len() {
        queue.len() as int
    } else if from >= 0 && addressed_to(queue[from], me) {
        from
    } else {
        find_addressed(queue, me, from + 1)
    }
}

/// Desktop HAL: a clock that runs with real time or stands at a mock time,
/// and an in-memory message queue.
pub struct PosixHal {
    /// Start time for relative timestamps
    pub start: Instant,
    /// This module's ID
    pub module_id: ModuleId,
    /// Message queue
    pub queue: VecDeque<QueuedMessage>,
    /// Mock time (None = use real time)
    pub mock_time: Option<TimeUs>,
    /// Debug output enabled
    pub debug_enabled: bool,
}

impl PosixHal {
    /// Create a new desktop HAL for the module: real time, an empty queue,
    /// no debug output.
    pub fn new(module_id: ModuleId) -> (hal: PosixHal)
        ensures
            hal.module_id == module_id,
            hal.queue@ == Seq::<QueuedMessage>::empty(),
            hal.mock_time.is_none(),
            !hal.debug_enabled,
    {
        PosixHal {
            start: clock_now(),
            module_id,
            queue: VecDeque::new(),
            mock_time: None,
            debug_enabled: false,
        }
    }

    /// Set mock time for deterministic testing: `Some(time)` to stand at a
    /// mock time, `None` to use real time.
    pub fn set_mock_time(&mut self, time: Option<TimeUs>)
        ensures
            *final(self) == (PosixHal { mock_time: time, ..*old(self) }),
    {
        self.mock_time = time;
    }

    /// Advance mock time by given microseconds, wrapping at the clock's
    /// limit. Does nothing while real time is in use.
    pub fn advance_mock_time(&mut self, us: u64)
        ensures
            *final(self) == (PosixHal {
                mock_time: match old(self).mock_time {
                    Some(t) => Some(vstd::wrapping::u64_specs::wrapping_add(t, us)),
                    None => None,
                },
                ..*old(self)
            }),
    {
        match self.mock_time {
            Some(t) => {
                self.mock_time = Some(t.wrapping_add(us));
            },
            None => {},
        }
    }

    /// Enable or disable debug output.
    pub fn set_debug(&mut self, enabled: bool)
        ensures
            *final(self) == (PosixHal { debug_enabled: enabled, ..*old(self) }),
    {
        self.debug_enabled = enabled;
    }

    /// Inject a message into the receive queue (for testing), as if it had
    /// come from another module.
    pub fn inject_message(&mut self, sender_id: ModuleId, msg_type: MsgType, data: &[u8])
        ensures
            final(self).queue@.len() == old(self).queue@.len() + 1,
            final(self).queue@.drop_last() == old(self).queue@,
            final(self).queue@.last().carries(sender_id, old(self).module_id, msg_type, data@),
            final(self).module_id == old(self).module_id,
            final(self).mock_time == old(self).mock_time,
            final(self).debug_enabled == old(self).debug_enabled,
    {
        let msg = QueuedMessage::new(sender_id, self.module_id, msg_type, data);
        self.queue.push_back(msg);
        assert(self.queue@.drop_last() =~= old(self).queue@);
    }

    /// Get the number of messages in the queue.
    pub fn queue_len(&self) -> (n: usize)
        ensures
            n == self.queue@.len(),
    {
        self.queue.len()
    }

    /// Clear the message queue.
    pub fn clear_queue(&mut self)
        ensures
            final(self).queue@ == Seq::<QueuedMessage>::empty(),
            final(self).module_id == old(self).module_id,
            final(self).mock_time == old(self).mock_time,
            final(self).debug_enabled == old(self).debug_enabled,
    {
        self.queue.clear();
    }

    /// Get platform name string.
    pub fn platform_string() -> (name: &'static str)
        ensures
            name@ == "POSIX HAL"@,
    {
        "POSIX HAL"
    }

    /// Current time in microseconds: the mock time where one is set, else
    /// the real time since the HAL was created, a started microsecond
    /// counting as a whole one.
    pub fn current_time(&self) -> (t: TimeUs)
        ensures
            self.mock_time.is_some() ==> t == self.mock_time.unwrap(),
    {
        match self.mock_time {
            Some(mock) => mock,
            None => clock_elapsed_us(&self.start),
        }
    }

    /// Wait for the given microseconds: under a mock time the clock is
    /// advanced at once; in real time the clock is polled until the time
    /// has passed.
    pub fn wait(&mut self, us: u32)
        ensures
            old(self).mock_time.is_some() ==> *final(self) == (PosixHal {
                mock_time: Some(
                    vstd::wrapping::u64_specs::wrapping_add(
                        old(self).mock_time.unwrap(),
                        us as u64,
                    ),
                ),
                ..*old(self)
            }),
            old(self).mock_time.is_none() ==> *final(self) == *old(self),
    {
        if self.mock_time.is_some() {
            self.advance_mock_time(us as u64);
            return ;
        }
        let begin: u64 = clock_elapsed_us(&self.start);
        let mut polls: u64 = u64::MAX;
        let mut done: bool = false;
        while polls > 0 && !done
            invariant
                *self == *old(self),
            decreases polls,
        {
            let now: u64 = clock_elapsed_us(&self.start);
            if now.wrapping_sub(begin) >= us as u64 {
                done = true;
            }
            polls -= 1;
        }
    }

    /// Whether a message sent to `dest` comes back to this module: it is
    /// addressed to the module itself or broadcast.
    pub fn is_loopback(&self, dest: ModuleId) -> (back: bool)
        ensures
            back == (dest == self.module_id || dest == BROADCAST_ID),
    {
        dest == self.module_id || dest == BROADCAST_ID
    }

    /// Queue a message from this module to `dest`. Fails with `InvalidArg`,
    /// changing nothing, for more than 64 bytes of data.
    pub fn enqueue(&mut self, dest: ModuleId, msg_type: MsgType, data: &[u8]) -> (r: Result<
        (),
        Error,
    >)
        ensures
            data@.len() > 64 ==> r == Err::<(), Error>(Error::InvalidArg) && final(self).queue@
                == old(self).queue@,
            data@.len() <= 64 ==> {
                &&& r == Ok::<(), Error>(())
                &&& final(self).queue@.len() == old(self).queue@.len() + 1
                &&& final(self).queue@.drop_last() == old(self).queue@
                &&& final(self).queue@.last().carries(old(self).module_id, dest, msg_type, data@)
            },
            final(self).module_id == old(self).module_id,
            final(self).mock_time == old(self).mock_time,
            final(self).debug_enabled == old(self).debug_enabled,
    {
        if data.len() > MSG_MAX_LEN {
            return Err(Error::InvalidArg);
        }
        let msg = QueuedMessage::new(self.module_id, dest, msg_type, data);
        self.queue.push_back(msg);
        assert(self.queue@.drop_last() =~= old(self).queue@);
        Ok(())
    }

    /// Take the first queued message for this module, addressed to it or
    /// broadcast, and copy as much of its data as the buffer holds. Returns
    /// `None`, changing nothing, when no such message is queued.
    pub fn dequeue(&mut self, buffer: &mut [u8]) -> (r: Option<ReceivedMessage>)
        ensures
            final(self).module_id == old(self).module_id,
            final(self).mock_time == old(self).mock_time,
            final(self).debug_enabled == old(self).debug_enabled,
            final(buffer)@.len() == old(buffer)@.len(),
            match r {
                Some(info) => {
                    let at = find_addressed(old(self).queue@, old(self).module_id, 0);
                    let message = old(self).queue@[at];
                    &&& at < old(self).queue@.len()
                    &&& final(self).queue@ == old(self).queue@.remove(at)
                    &&& info.sender_id == message.sender_id
                    &&& info.msg_type == message.msg_type
                    &&& info.len == if message.len < old(buffer)@.len() {
                        message.len as int
                    } else {
                        old(buffer)@.len() as int
                    }
                    &&& info.len <= 64 ==> forall|i: int|
                        0 <= i < old(buffer)@.len() ==> (#[trigger] final(buffer)@[i]) == if i
                            < info.len {
                            message.data[i]
                        } else {
                            old(buffer)@[i]
                        }
                },
                None => {
                    &&& find_addressed(old(self).queue@, old(self).module_id, 0) == old(self).queue@.len()
                    &&& final(self).queue@ == old(self).queue@
                    &&& final(buffer)@ == old(buffer)@
                },
            },
    {
        let n: usize = self.queue.len();
        let mut idx: usize = 0;
        let mut found: bool = false;
        while idx < n && !found
            invariant
                idx <= n,
                n == self.queue@.len(),
                *self == *old(self),
                found ==> idx < n && addressed_to(self.queue@[idx as int], self.module_id),
                find_addressed(self.queue@, self.module_id, 0) == find_addressed(
                    self.queue@,
                    self.module_id,
                    idx as int,
                ),
            decreases n - idx + if found { 0int } else { 1int },
        {
            let dest: ModuleId = self.queue[idx].dest_id;
            if dest == self.module_id || dest == BROADCAST_ID {
                found = true;
            } else {
                idx += 1;
            }
        }
        if !found {
            return None;
        }
        let msg: QueuedMessage = match self.queue.remove(idx) {
            Some(m) => m,
            None => { return None; },
        };
        let want: usize = if msg.len < MSG_MAX_LEN {
            msg.len
        } else {
            MSG_MAX_LEN
        };
        let copy_len: usize = if msg.len < buffer.len() {
            msg.len
        } else {
            buffer.len()
        };
        let count: usize = if copy_len < want {
            copy_len
        } else {
            want
        };
        let mut i: usize = 0;
        while i < count
            invariant
                i <= count,
                count <= 64,
                count <= buffer@.len(),
                buffer@.len() == old(buffer)@.len(),
                forall|j: int| 0 <= j < i ==> (#[trigger] buffer@[j]) == msg.data[j],
                forall|j: int| i <= j < buffer@.len() ==> (#[trigger] buffer@[j]) == old(buffer)@[j],
            decreases count - i,
        {
            buffer[i] = msg.data[i];
            i += 1;
        }
        Some(ReceivedMessage { sender_id: msg.sender_id, msg_type: msg.msg_type, len: copy_len })
    }
}

impl Hal for PosixHal {
    open spec fn fixed_time(&self) -> Option<TimeUs> {
        self.mock_time
    }

    fn time_us(&self) -> (t: TimeUs)
        ensures
            self.mock_time.is_some() ==> t == self.mock_time.unwrap(),
    {
        self.current_time()
    }

    fn delay_us(&mut self, us: u32)
        ensures
            old(self).mock_time.is_some() ==> final(self).mock_time == Some(
                vstd::wrapping::u64_specs::wrapping_add(old(self).mock_time.unwrap(), us as u64),
            ),
            old(self).mock_time.is_none() ==> final(self).mock_time.is_none(),
            final(self).queue@ == old(self).queue@,
            final(self).module_id == old(self).module_id,
    {
        self.wait(us);
    }

    fn send(&mut self, dest: ModuleId, msg_type: MsgType, data: &[u8]) -> (r: Result<(), Error>)
        ensures
            data@.len() > 64 ==> r == Err::<(), Error>(Error::InvalidArg) && final(self).queue@
                == old(self).queue@,
            data@.len() <= 64 ==> {
                &&& r == Ok::<(), Error>(())
                &&& final(self).queue@.len() == old(self).queue@.len() + 1
                &&& final(self).queue@.drop_last() == old(self).queue@
                &&& final(self).queue@.last().carries(old(self).module_id, dest, msg_type, data@)
            },
            final(self).module_id == old(self).module_id,
            final(self).mock_time == old(self).mock_time,
    {
        self.enqueue(dest, msg_type, data)
    }

    fn broadcast(&mut self, msg_type: MsgType, data: &[u8]) -> (r: Result<(), Error>)
        ensures
            data@.len() > 64 ==> r == Err::<(), Error>(Error::InvalidArg) && final(self).queue@
                == old(self).queue@,
            data@.len() <= 64 ==> {
                &&& r == Ok::<(), Error>(())
                &&& final(self).queue@.len() == old(self).queue@.len() + 1
                &&& final(self).queue@.drop_last() == old(self).queue@
                &&& final(self).queue@.last().carries(
                    old(self).module_id,
                    BROADCAST_ID,
                    msg_type,
                    data@,
                )
            },
            final(self).module_id == old(self).module_id,
            final(self).mock_time == old(self).mock_time,
    {
        self.enqueue(BROADCAST_ID, msg_type, data)
    }

    fn recv(&mut self, buffer: &mut [u8]) -> (r: Option<ReceivedMessage>)
        ensures
            r.is_some() <==> find_addressed(old(self).queue@, old(self).module_id, 0) < old(self).queue@.len(),
            r.is_some() ==> final(self).queue@ == old(self).queue@.remove(
                find_addressed(old(self).queue@, old(self).module_id, 0),
            ),
            r.is_none() ==> final(self).queue@ == old(self).queue@ && final(buffer)@ == old(buffer)@,
            final(self).module_id == old(self).module_id,
            final(self).mock_time == old(self).mock_time,
    {
        self.dequeue(buffer)
    }

    fn critical_enter(&self) -> (state: u32)
        ensures
            state == 0,
    {
        0
    }

    fn critical_exit(&self, _state: u32) {
    }

    fn memory_barrier(&self) {
        full_fence();
    }

    fn get_module_id(&self) -> (id: ModuleId)
        ensures
            id == self.module_id,
    {
        self.module_id
    }

    fn platform_name(&self) -> (name: &'static str)
        ensures
            name@ == "POSIX HAL"@,
    {
        PosixHal::platform_string()
    }
}

/// HAL for the STM32G474, as far as it goes without the peripherals: it
/// knows the module's id, and its clock and transport do nothing yet.
pub struct Stm32G474Hal {
    pub module_id: ModuleId,
}

impl Stm32G474Hal {
    /// Create new STM32G474 HAL.
    pub fn new(module_id: ModuleId) -> (hal: Stm32G474Hal)
        ensures
            hal.module_id == module_id,
    {
        Stm32G474Hal { module_id }
    }
}

impl Hal for Stm32G474Hal {
    open spec fn fixed_time(&self) -> Option<TimeUs> {
        Some(0)
    }

    fn time_us(&self) -> (t: TimeUs)
        ensures
            t == 0,
    {
        0
    }

    fn delay_us(&mut self, _us: u32)
        ensures
            *final(self) == *old(self),
    {
    }

    fn send(&mut self, _dest: ModuleId, _msg_type: MsgType, _data: &[u8]) -> (r: Result<(), Error>)
        ensures
            r == Ok::<(), Error>(()),
            *final(self) == *old(self),
    {
        Ok(())
    }

    fn broadcast(&mut self, _msg_type: MsgType, _data: &[u8]) -> (r: Result<(), Error>)
        ensures
            r == Ok::<(), Error>(()),
            *final(self) == *old(self),
    {
        Ok(())
    }

    fn recv(&mut self, _buffer: &mut [u8]) -> (r: Option<ReceivedMessage>)
        ensures
            r.is_none(),
            *final(self) == *old(self),
            final(_buffer)@ == old(_buffer)@,
    {
        None
    }

    fn critical_enter(&self) -> (state: u32)
        ensures
            state == 0,
    {
        0
    }

    fn critical_exit(&self, _state: u32) {
    }

    fn memory_barrier(&self) {
    }

    fn get_module_id(&self) -> (id: ModuleId)
        ensures
            id == self.module_id,
    {
        self.module_id
    }

    fn platform_name(&self) -> (name: &'static str)
        ensures
            name@ == "stm32g474"@,
    {
        "stm32g474"
    }
}

} // verus!
