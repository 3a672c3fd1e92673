//! How long and for how many events a turn of an event queue waits, in the terms of each operating
//! system.
use vstd::prelude::*;

verus! {

/// The most events that one turn takes in.
pub const MAX_TURN_EVENTS: usize = 64;

/// The wait of a completion port that has no limit.
pub const INFINITE: u32 = 0xffff_ffff;

/// A span of time: whole seconds, and nanoseconds below one second.
#[derive(Clone, Copy, PartialEq, Eq, Debug)]
pub struct WaitTime {
    pub secs: u64,
    pub nanos: u32,
}

/// A span of time as `kevent` takes it.
#[derive(Clone, Copy, PartialEq, Eq, Debug)]
pub struct TimeSpec {
    pub tv_sec: i64,
    pub tv_nsec: i64,
}

impl WaitTime {
    /// Whether the nanoseconds stay below one second.
    pub open spec fn wf(self) -> bool {
        self.nanos < 1_000_000_000
    }

    /// The whole milliseconds of the span.
    pub open spec fn millis(self) -> int {
        self.secs * 1000 + self.nanos as int / 1_000_000
    }

    /// The whole milliseconds of the part below one second.
    pub fn subsec_millis(&self) -> (millis: u32)
        requires
            self.wf(),
        ensures
            millis == self.nanos as int / 1_000_000,
            millis < 1000,
    {
        self.nanos / 1_000_000
    }

    /// The whole milliseconds of the span, where they fit 64 bits.
    pub fn checked_millis(&self) -> (millis: Option<u64>)
        requires
            self.wf(),
        ensures
            millis == (if self.millis() <= u64::MAX {
                Some(self.millis() as u64)
            } else {
                None
            }),
    {
        match self.secs.checked_mul(1000) {
            Some(whole) => whole.checked_add(self.subsec_millis() as u64),
            None => None,
        }
    }
}

/// The number of events that a turn asks for at most.
pub open spec fn turn_capacity(max_events: Option<usize>) -> usize {
    match max_events {
        Some(count) => if count < MAX_TURN_EVENTS {
            count
        } else {
            MAX_TURN_EVENTS
        },
        None => MAX_TURN_EVENTS,
    }
}

/// The number of events that a turn asks for at most.
pub fn event_capacity(max_events: Option<usize>) -> (capacity: usize)
    ensures
        capacity == turn_capacity(max_events),
{
    match max_events {
        Some(count) => if count < MAX_TURN_EVENTS {
            count
        } else {
            MAX_TURN_EVENTS
        },
        None => MAX_TURN_EVENTS,
    }
}

/// The wait of `epoll_wait` in milliseconds: at least one and at most what the argument holds. Where
/// no span is given it does not wait at all: it takes in what has come and returns.
pub open spec fn epoll_timeout(max_wait: Option<WaitTime>) -> int {
    match max_wait {
        Some(time) => if time.millis() < 1 {
            1
        } else if time.millis() > i32::MAX {
            i32::MAX as int
        } else {
            time.millis()
        },
        None => 0,
    }
}

/// The timeout argument of `epoll_wait`.
pub fn epoll_wait_millis(max_wait: Option<WaitTime>) -> (timeout: i32)
    requires
        max_wait is Some ==> max_wait->0.wf(),
    ensures
        timeout == epoll_timeout(max_wait),
{
    match max_wait {
        Some(time) => {
            let millis: u64 = match time.checked_millis() {
                Some(millis) => millis,
                None => u64::MAX,
            };
            if millis > i32::MAX as u64 {
                i32::MAX
            } else if millis < 1 {
                1
            } else {
                millis as i32
            }
        },
        None => 0,
    }
}

/// The seconds of `kevent`, which are signed: a span beyond the last one comes out negative.
pub open spec fn signed_secs(secs: u64) -> int {
    if secs <= i64::MAX {
        secs as int
    } else {
        secs - 0x1_0000_0000_0000_0000
    }
}

/// The timeout argument of `kevent`; without one it waits without limit.
pub fn kqueue_timespec(max_wait: Option<WaitTime>) -> (timespec: Option<TimeSpec>)
    ensures
        timespec is Some <==> max_wait is Some,
        max_wait matches Some(time) ==> {
            &&& timespec->0.tv_sec == signed_secs(time.secs)
            &&& timespec->0.tv_nsec == time.nanos
        },
{
    match max_wait {
        Some(time) => {
            let secs: u64 = time.secs;
            assert(secs <= i64::MAX ==> secs as i64 == secs) by (bit_vector);
            assert(secs > i64::MAX ==> secs as i64 == secs - 0x1_0000_0000_0000_0000)
                by (bit_vector);
            Some(
                TimeSpec {
                    tv_sec: #[verifier::truncate]
                    (secs as i64),
                    tv_nsec: time.nanos as i64,
                },
            )
        },
        None => None,
    }
}

/// The wait of a completion port in milliseconds, of which the seconds count modulo the 32 bits of
/// the argument.
pub open spec fn iocp_timeout(max_wait: Option<WaitTime>) -> int {
    match max_wait {
        Some(time) => (time.secs * 1000) % 0x1_0000_0000 + time.nanos as int / 1_000_000,
        None => INFINITE as int,
    }
}

/// The timeout argument of `GetQueuedCompletionStatusEx`.
pub fn iocp_wait_millis(max_wait: Option<WaitTime>) -> (timeout: u32)
    requires
        max_wait matches Some(time) ==> time.wf() && time.secs * 1000 <= u64::MAX,
        iocp_timeout(max_wait) <= u32::MAX,
    ensures
        timeout == iocp_timeout(max_wait),
{
    match max_wait {
        Some(time) => {
            let whole: u64 = time.secs * 1000;
            assert(whole as u32 == whole % 0x1_0000_0000) by (bit_vector);
            let low: u32 = #[verifier::truncate]
            (whole as u32);
            low + time.subsec_millis()
        },
        None => INFINITE,
    }
}

/// A turn never asks for more events than it was told, nor for more than it can take in, and for no
/// fewer than both allow.
pub proof fn law_turn_capacity_is_bounded(max_events: Option<usize>, count: usize)
    ensures
        turn_capacity(max_events) <= 64,
        max_events is Some ==> turn_capacity(max_events) <= max_events->0,
        count <= 64 && (max_events is Some ==> count <= max_events->0) ==> count <= turn_capacity(
            max_events,
        ),
{
}

/// Over `epoll` a turn waits as many whole milliseconds as its span has, but at least one and at most
/// what the argument holds; so it never waits longer than a span of a millisecond or more, and a
/// longer span never makes it wait less. Without a span it does not wait.
pub proof fn law_epoll_wait_keeps_to_the_span(time: WaitTime, longer: WaitTime)
    requires
        time.nanos < 1_000_000_000,
        longer.nanos < 1_000_000_000,
    ensures
        ({
            let nanos = time.secs * 1_000_000_000 + time.nanos;
            let wait = epoll_timeout(Some(time));
            &&& 1 <= wait <= i32::MAX
            &&& nanos >= 1_000_000 ==> wait * 1_000_000 <= nanos
            &&& wait < i32::MAX ==> nanos < (wait + 1) * 1_000_000
            &&& nanos < 1_000_000 ==> wait == 1
            &&& nanos <= longer.secs * 1_000_000_000 + longer.nanos ==> wait <= epoll_timeout(
                Some(longer),
            )
        }),
        epoll_timeout(None) == 0,
{
}

/// Over `kqueue` the seconds of a span are handed on as they are where they fit, and the number of
/// 64 bits comes back from them in any case.
pub proof fn law_kqueue_seconds_are_kept(secs: u64)
    ensures
        secs <= i64::MAX ==> signed_secs(secs) == secs,
        i64::MIN <= signed_secs(secs) <= i64::MAX,
        signed_secs(secs) == secs || signed_secs(secs) + 0x1_0000_0000_0000_0000 == secs,
{
}

/// Over a completion port a turn waits the whole milliseconds of its span where they fit the
/// argument; without a span it waits without limit.
pub proof fn law_port_wait_keeps_to_the_span(time: WaitTime)
    requires
        time.nanos < 1_000_000_000,
        time.secs * 1000 < 0x1_0000_0000,
    ensures
        ({
            let nanos = time.secs * 1_000_000_000 + time.nanos;
            let wait = iocp_timeout(Some(time));
            &&& wait * 1_000_000 <= nanos < (wait + 1) * 1_000_000
        }),
        iocp_timeout(None) == 0xffff_ffff,
{
}

} // verus!
