//! The resource governor: a gate that admits or throttles units of work
//! according to configurable limits on concurrency, CPU usage, RAM usage and
//! I/O rate, with pause/resume and statistics.
//!
//! [`GovernorState`] is the verified state machine of the governor. Every
//! decision the governor takes — admission, throttling, rejection, window
//! bookkeeping — is a function of this state (plus the caller's clock
//! reading), specified exactly and proved here. Blocking itself (waiting for
//! capacity, waiting while paused, sleeping out a throttle window) cannot
//! happen inside a sequential state machine: the state machine reports *that*
//! a caller must wait and for how long, and the concurrent runtime around the
//! library performs the wait and feeds the next event back in.

use vstd::prelude::*;

use crate::error::{SystemError, SystemResult};
use crate::rng::GovernorRng;
use crate::text::{dec_u64, spec_dec};

verus! {

/// Resource governor configuration. Immutable after construction and
/// validated once, when a governor is built from it.
#[derive(Debug, Clone)]
pub struct ResourceGovernorConfig {
    /// Maximum CPU percentage (0-100); `None` means no cap.
    pub cpu_cap_percent: Option<u8>,
    /// Maximum RAM usage in bytes; `None` means no cap.
    pub ram_cap_bytes: Option<u64>,
    /// Maximum I/O operations per second; `None` means no throttling.
    pub io_ops_per_second: Option<u64>,
    /// Fixed-seed randomness for reproducible runs.
    pub deterministic_mode: bool,
    /// Informational flag exposed to callers; the governor itself does not
    /// enforce sandboxing.
    pub sandbox_mode: bool,
    /// Maximum concurrently admitted operations; must be at least 1.
    pub max_concurrent_operations: usize,
}

impl ResourceGovernorConfig {
    /// A configuration is valid when the CPU cap (if any) is a percentage
    /// and at least one operation may run concurrently.
    pub open spec fn is_valid(self) -> bool {
        &&& (self.cpu_cap_percent matches Some(c) ==> c <= 100)
        &&& self.max_concurrent_operations >= 1
    }

    /// The configuration `default` returns: no caps, 1000 concurrent
    /// operations.
    pub open spec fn spec_default() -> ResourceGovernorConfig {
        ResourceGovernorConfig {
            cpu_cap_percent: None,
            ram_cap_bytes: None,
            io_ops_per_second: None,
            deterministic_mode: false,
            sandbox_mode: false,
            max_concurrent_operations: 1000,
        }
    }

    /// Create a configuration for testing, with strict limits.
    pub fn testing() -> (c: ResourceGovernorConfig)
        ensures
            c == (ResourceGovernorConfig {
                cpu_cap_percent: Some(50u8),
                ram_cap_bytes: Some(536870912u64),
                io_ops_per_second: Some(100u64),
                deterministic_mode: true,
                sandbox_mode: true,
                max_concurrent_operations: 10usize,
            }),
            c.is_valid(),
    {
        ResourceGovernorConfig {
            cpu_cap_percent: Some(50),
            ram_cap_bytes: Some(512 * 1024 * 1024),  // 512MB
            io_ops_per_second: Some(100),
            deterministic_mode: true,
            sandbox_mode: true,
            max_concurrent_operations: 10,
        }
    }

    /// Create a configuration for production, with moderate limits.
    pub fn production() -> (c: ResourceGovernorConfig)
        ensures
            c == (ResourceGovernorConfig {
                cpu_cap_percent: Some(80u8),
                ram_cap_bytes: Some(4294967296u64),
                io_ops_per_second: Some(10000u64),
                deterministic_mode: false,
                sandbox_mode: false,
                max_concurrent_operations: 1000usize,
            }),
            c.is_valid(),
    {
        ResourceGovernorConfig {
            cpu_cap_percent: Some(80),
            ram_cap_bytes: Some(4 * 1024 * 1024 * 1024),  // 4GB
            io_ops_per_second: Some(10000),
            deterministic_mode: false,
            sandbox_mode: false,
            max_concurrent_operations: 1000,
        }
    }

    /// Validate the configuration: succeeds exactly on valid configurations,
    /// and names the offending key otherwise.
    pub fn validate(&self) -> (r: SystemResult<()>)
        ensures
            r.is_ok() <==> self.is_valid(),
            !self.is_valid() ==> (r matches Err(e) && e matches SystemError::Config {
                message,
                key,
            } && if self.cpu_cap_percent matches Some(c) && c > 100 {
                &&& message@ == "CPU cap percentage must be <= 100"@
                &&& (key matches Some(k) && k@ == "cpu_cap_percent"@)
            } else {
                &&& message@ == "max_concurrent_operations must be > 0"@
                &&& (key matches Some(k) && k@ == "max_concurrent_operations"@)
            }),
    {
        if let Some(cpu) = self.cpu_cap_percent {
            if cpu > 100 {
                return Err(
                    SystemError::config(
                        "CPU cap percentage must be <= 100",
                        Some("cpu_cap_percent".to_owned()),
                    ),
                );
            }
        }
        if self.max_concurrent_operations == 0 {
            return Err(
                SystemError::config(
                    "max_concurrent_operations must be > 0",
                    Some("max_concurrent_operations".to_owned()),
                ),
            );
        }
        Ok(())
    }
}

impl Default for ResourceGovernorConfig {
    /// No caps, non-deterministic, 1000 concurrent operations.
    fn default() -> (c: Self)
        ensures
            c == ResourceGovernorConfig::spec_default(),
            c.is_valid(),
    {
        ResourceGovernorConfig {
            cpu_cap_percent: None,
            ram_cap_bytes: None,
            io_ops_per_second: None,
            deterministic_mode: false,
            sandbox_mode: false,
            max_concurrent_operations: 1000,
        }
    }
}

/// A point-in-time snapshot of the governor's counters. A copy, never a live
/// view.
#[derive(Debug, Clone, Copy, PartialEq, Eq)]
pub struct GovernorStatistics {
    /// Admission attempts so far (successful or not).
    pub total_operations: u64,
    /// Operations that were throttled (CPU backoff or I/O window sleep).
    pub throttled_operations: u64,
    /// Last reported CPU usage, clamped to 0-100.
    pub current_cpu_usage: u64,
    /// Current tracked RAM usage in bytes.
    pub current_ram_usage: u64,
    /// Whether the governor is paused.
    pub is_paused: bool,
}

/// The verdict of one admission attempt.
///
/// `BlockedPaused` and `BlockedAtCapacity` tell the caller that admission
/// must suspend at this point (while paused, or waiting for a concurrency
/// unit); the runtime around the library waits and retries.
#[derive(Debug, Clone)]
pub enum Admission {
    /// A concurrency unit was taken and the operation may proceed.
    /// `cpu_throttled` reports that the CPU soft throttle fired and a short
    /// backoff was charged before proceeding.
    Granted { cpu_throttled: bool },
    /// The governor is paused; admission must wait for `resume`.
    BlockedPaused,
    /// All concurrency units are outstanding; admission must wait for one to
    /// be released.
    BlockedAtCapacity,
    /// The RAM cap is exceeded: a hard rejection. The concurrency unit taken
    /// during the attempt has been returned.
    Rejected { error: SystemError },
}

/// The verdict of one I/O throttle call.
#[derive(Debug, Clone, Copy, PartialEq, Eq)]
pub enum IoThrottleDecision {
    /// No I/O rate limit is configured; the call is a no-op.
    Unlimited,
    /// The 1-second window had expired: the counter was reset and a new
    /// window started at the caller's clock reading.
    WindowRestarted,
    /// The operation was counted within the current window, under the limit.
    Admitted,
    /// The limit is reached: the caller must sleep for `remaining_millis`
    /// and then report back through `finish_io_backoff`.
    Backoff { remaining_millis: u64 },
}

/// Length of the I/O rate-limiting window, in milliseconds.
pub const IO_WINDOW_MILLIS: u64 = 1000;

/// The fixed seed used for every random source handed out in deterministic
/// mode.
pub const DETERMINISTIC_SEED: u64 = 42;

/// The short backoff charged before proceeding when the CPU soft throttle
/// fires, in milliseconds.
pub const CPU_BACKOFF_MILLIS: u64 = 10;

/// The reason text of a RAM-cap rejection: both numbers, in bytes.
pub open spec fn spec_ram_reason(current: int, cap: int) -> Seq<char> {
    "RAM limit exceeded: "@ + spec_dec(current) + " bytes > "@ + spec_dec(cap) + " bytes cap"@
}

/// Build the reason text of a RAM-cap rejection.
fn ram_reason(current: u64, cap: u64) -> (s: String)
    ensures
        s@ == spec_ram_reason(current as int, cap as int),
{
    let mut s = "RAM limit exceeded: ".to_owned();
    let current_text = dec_u64(current);
    s.append(current_text.as_str());
    s.append(" bytes > ");
    let cap_text = dec_u64(cap);
    s.append(cap_text.as_str());
    s.append(" bytes cap");
    proof {
        assert(s@ =~= spec_ram_reason(current as int, cap as int));
    }
    s
}

/// The governor's shared state, as one sequential value.
///
/// In the concurrent runtime every field is shared between all handles to
/// one governor; here the state is a plain value and each transition is an
/// exactly specified function. At most `config.max_concurrent_operations`
/// concurrency units are ever outstanding: this is the well-formedness
/// invariant `wf`, established by `new` and preserved by every transition.
#[derive(Debug, Clone)]
pub struct GovernorState {
    /// The validated configuration the governor was built from.
    pub config: ResourceGovernorConfig,
    /// Last externally reported CPU usage, clamped to 0-100.
    pub cpu_usage_percent: u64,
    /// Running RAM counter, moved by allocation/deallocation reports.
    pub ram_usage_bytes: u64,
    /// Operations counted in the current I/O window.
    pub io_ops_count: u64,
    /// Start of the current I/O window, in caller-clock milliseconds.
    pub io_window_start_millis: u64,
    /// Concurrency units not currently held by an admitted operation.
    pub available_permits: usize,
    /// Whether admission is suspended.
    pub is_paused: bool,
    /// Admission attempts so far; resettable.
    pub total_operations: u64,
    /// Throttled operations so far; resettable.
    pub throttled_operations: u64,
}

impl GovernorState {
    /// Well-formedness: the configuration is valid, the CPU reading is a
    /// percentage, and no more than the configured maximum of concurrency
    /// units can be outstanding.
    pub open spec fn wf(self) -> bool {
        &&& self.config.is_valid()
        &&& self.cpu_usage_percent <= 100
        &&& self.available_permits <= self.config.max_concurrent_operations
    }

    /// Concurrency units currently held by admitted operations.
    pub open spec fn outstanding_permits(self) -> int {
        self.config.max_concurrent_operations - self.available_permits
    }

    /// Whether the CPU soft throttle fires: a cap is configured and the last
    /// reported usage exceeds it.
    pub open spec fn cpu_over_cap(self) -> bool {
        self.config.cpu_cap_percent matches Some(c) && self.cpu_usage_percent > c as u64
    }

    /// Whether the RAM hard limit fires: a cap is configured and tracked
    /// usage exceeds it.
    pub open spec fn ram_over_cap(self) -> bool {
        self.config.ram_cap_bytes matches Some(c) && self.ram_usage_bytes > c
    }

    /// The state a fresh governor starts in.
    pub open spec fn spec_initial(config: ResourceGovernorConfig) -> GovernorState {
        GovernorState {
            available_permits: config.max_concurrent_operations,
            config,
            cpu_usage_percent: 0,
            ram_usage_bytes: 0,
            io_ops_count: 0,
            io_window_start_millis: 0,
            is_paused: false,
            total_operations: 0,
            throttled_operations: 0,
        }
    }

    /// Build a governor from a configuration. Succeeds exactly on valid
    /// configurations and starts in the initial state: running, no usage
    /// tracked, all concurrency units available, zeroed statistics.
    pub fn new(config: ResourceGovernorConfig) -> (r: SystemResult<GovernorState>)
        ensures
            r.is_ok() <==> config.is_valid(),
            r matches Ok(g) ==> g == GovernorState::spec_initial(config) && g.wf(),
            !config.is_valid() ==> (r matches Err(e) && e matches SystemError::Config { .. }),
    {
        config.validate()?;
        Ok(
            GovernorState {
                available_permits: config.max_concurrent_operations,
                config,
                cpu_usage_percent: 0,
                ram_usage_bytes: 0,
                io_ops_count: 0,
                io_window_start_millis: 0,
                is_paused: false,
                total_operations: 0,
                throttled_operations: 0,
            },
        )
    }

    /// Record an externally observed CPU usage: clamped to 0-100 and stored
    /// (overwritten, not accumulated). Nothing else changes.
    pub fn update_cpu_usage(&mut self, percent: u8)
        ensures
            *final(self) == (GovernorState {
                cpu_usage_percent: if percent > 100 {
                    100u64
                } else {
                    percent as u64
                },
                ..*old(self)
            }),
            final(self).cpu_usage_percent <= 100,
    {
        let clamped: u8 = if percent > 100 {
            100
        } else {
            percent
        };
        self.cpu_usage_percent = clamped as u64;
    }

    /// Add to the running RAM counter; saturates at the counter's maximum.
    pub fn track_ram_allocation(&mut self, bytes: u64)
        ensures
            *final(self) == (GovernorState {
                ram_usage_bytes: if old(self).ram_usage_bytes + bytes <= u64::MAX {
                    (old(self).ram_usage_bytes + bytes) as u64
                } else {
                    u64::MAX
                },
                ..*old(self)
            }),
    {
        self.ram_usage_bytes = self.ram_usage_bytes.saturating_add(bytes);
    }

    /// Subtract from the running RAM counter. Deallocating more than was
    /// allocated is a caller error; the counter stops at zero rather than
    /// wrapping around.
    pub fn track_ram_deallocation(&mut self, bytes: u64)
        ensures
            *final(self) == (GovernorState {
                ram_usage_bytes: if bytes <= old(self).ram_usage_bytes {
                    (old(self).ram_usage_bytes - bytes) as u64
                } else {
                    0u64
                },
                ..*old(self)
            }),
    {
        self.ram_usage_bytes = self.ram_usage_bytes.saturating_sub(bytes);
    }

    /// Current tracked RAM usage; an instantaneous read.
    pub fn current_ram_usage(&self) -> (r: u64)
        ensures
            r == self.ram_usage_bytes,
    {
        self.ram_usage_bytes
    }

    /// Current reported CPU usage; an instantaneous read.
    pub fn current_cpu_usage(&self) -> (r: u64)
        ensures
            r == self.cpu_usage_percent,
    {
        self.cpu_usage_percent
    }

    /// Suspend all future admission. Permits already granted are unaffected.
    pub fn pause(&mut self)
        ensures
            *final(self) == (GovernorState { is_paused: true, ..*old(self) }),
    {
        self.is_paused = true;
    }

    /// Resume admission. The runtime wakes every waiter blocked on the pause
    /// flag; each re-checks the flag through a fresh admission attempt.
    pub fn resume(&mut self)
        ensures
            *final(self) == (GovernorState { is_paused: false, ..*old(self) }),
    {
        self.is_paused = false;
    }

    /// Whether the governor runs in deterministic mode.
    pub fn is_deterministic(&self) -> (r: bool)
        ensures
            r == self.config.deterministic_mode,
    {
        self.config.deterministic_mode
    }

    /// Whether the governor was configured as sandboxed.
    pub fn is_sandboxed(&self) -> (r: bool)
        ensures
            r == self.config.sandbox_mode,
    {
        self.config.sandbox_mode
    }

    /// Snapshot the five statistics counters. A copy of the current state,
    /// never a live view.
    pub fn statistics(&self) -> (s: GovernorStatistics)
        ensures
            s == (GovernorStatistics {
                total_operations: self.total_operations,
                throttled_operations: self.throttled_operations,
                current_cpu_usage: self.cpu_usage_percent,
                current_ram_usage: self.ram_usage_bytes,
                is_paused: self.is_paused,
            }),
    {
        GovernorStatistics {
            total_operations: self.total_operations,
            throttled_operations: self.throttled_operations,
            current_cpu_usage: self.cpu_usage_percent,
            current_ram_usage: self.ram_usage_bytes,
            is_paused: self.is_paused,
        }
    }

    /// Count one admission attempt. The total is counted unconditionally,
    /// before any throttling or rejection: it counts attempts, not successes.
    pub fn begin_operation(&mut self)
        ensures
            *final(self) == (GovernorState {
                total_operations: if old(self).total_operations + 1 <= u64::MAX {
                    (old(self).total_operations + 1) as u64
                } else {
                    u64::MAX
                },
                ..*old(self)
            }),
    {
        self.total_operations = self.total_operations.saturating_add(1);
    }

    /// Whether at least one concurrency unit is free to be taken.
    pub fn capacity_available(&self) -> (r: bool)
        ensures
            r == (self.available_permits >= 1),
    {
        self.available_permits >= 1
    }

    /// Take one concurrency unit. Callable only while one is available; the
    /// runtime waits on its capacity source before calling this.
    pub fn take_capacity(&mut self)
        requires
            old(self).available_permits >= 1,
        ensures
            *final(self) == (GovernorState {
                available_permits: (old(self).available_permits - 1) as usize,
                ..*old(self)
            }),
    {
        self.available_permits = self.available_permits - 1;
    }

    /// Return one concurrency unit, when a permit is released or an admission
    /// attempt is rejected after taking its unit. Callable only while at
    /// least one unit is outstanding, so the bound of `wf` is kept.
    pub fn release_capacity(&mut self)
        requires
            old(self).available_permits < old(self).config.max_concurrent_operations,
        ensures
            *final(self) == (GovernorState {
                available_permits: (old(self).available_permits + 1) as usize,
                ..*old(self)
            }),
    {
        self.available_permits = self.available_permits + 1;
    }

    /// Apply the CPU soft throttle: if a CPU cap is configured and the last
    /// reported usage exceeds it, one throttled operation is counted and the
    /// caller is told to back off briefly (the operation still proceeds).
    pub fn cpu_throttle_check(&mut self) -> (throttled: bool)
        ensures
            throttled == old(self).cpu_over_cap(),
            *final(self) == (GovernorState {
                throttled_operations: if old(self).cpu_over_cap() && old(
                    self,
                ).throttled_operations + 1 <= u64::MAX {
                    (old(self).throttled_operations + 1) as u64
                } else {
                    if old(self).cpu_over_cap() {
                        u64::MAX
                    } else {
                        old(self).throttled_operations
                    }
                },
                ..*old(self)
            }),
    {
        if let Some(cpu_cap) = self.config.cpu_cap_percent {
            if self.cpu_usage_percent > cpu_cap as u64 {
                self.throttled_operations = self.throttled_operations.saturating_add(1);
                return true;
            }
        }
        false
    }

    /// Apply the RAM hard limit: if a RAM cap is configured and tracked
    /// usage exceeds it, the attempt is rejected with a validation error
    /// naming the `ram_usage` field and both numbers. No state changes.
    pub fn ram_limit_check(&self) -> (r: SystemResult<()>)
        ensures
            r.is_ok() <==> !self.ram_over_cap(),
            self.ram_over_cap() ==> (r matches Err(e) && (e matches SystemError::Validation {
                field,
                reason,
                value,
            } && field@ == "ram_usage"@ && reason@ == spec_ram_reason(
                self.ram_usage_bytes as int,
                self.config.ram_cap_bytes->0 as int,
            ) && (value matches Some(v) && v@ == spec_dec(self.ram_usage_bytes as int)))),
    {
        if let Some(ram_cap) = self.config.ram_cap_bytes {
            if self.ram_usage_bytes > ram_cap {
                return Err(
                    SystemError::validation(
                        "ram_usage",
                        ram_reason(self.ram_usage_bytes, ram_cap).as_str(),
                        Some(dec_u64(self.ram_usage_bytes)),
                    ),
                );
            }
        }
        Ok(())
    }

    /// One full admission attempt, in the order the governor applies its
    /// rules: count the attempt; wait while paused; wait for a concurrency
    /// unit; apply the CPU soft throttle; apply the RAM hard limit. The two
    /// `Blocked` verdicts report where the concurrent runtime would suspend;
    /// it waits and retries the attempt.
    pub fn try_acquire(&mut self) -> (r: Admission)
        requires
            old(self).wf(),
        ensures
            final(self).wf(),
            final(self).config == old(self).config,
            final(self).cpu_usage_percent == old(self).cpu_usage_percent,
            final(self).ram_usage_bytes == old(self).ram_usage_bytes,
            final(self).io_ops_count == old(self).io_ops_count,
            final(self).io_window_start_millis == old(self).io_window_start_millis,
            final(self).is_paused == old(self).is_paused,
            final(self).total_operations == if old(self).total_operations + 1 <= u64::MAX {
                old(self).total_operations + 1
            } else {
                u64::MAX as int
            },
            old(self).is_paused ==> r is BlockedPaused && final(self).available_permits == old(
                self,
            ).available_permits && final(self).throttled_operations == old(
                self,
            ).throttled_operations,
            !old(self).is_paused && old(self).available_permits == 0 ==> r is BlockedAtCapacity
                && final(self).available_permits == 0 && final(self).throttled_operations == old(
                self,
            ).throttled_operations,
            !old(self).is_paused && old(self).available_permits >= 1 ==> {
                &&& final(self).throttled_operations == if old(self).cpu_over_cap() && old(
                    self,
                ).throttled_operations + 1 <= u64::MAX {
                    old(self).throttled_operations + 1
                } else {
                    if old(self).cpu_over_cap() {
                        u64::MAX as int
                    } else {
                        old(self).throttled_operations as int
                    }
                }
                &&& (old(self).ram_over_cap() ==> (r matches Admission::Rejected { error }
                    && (error matches SystemError::Validation { field, reason, value } && field@
                    == "ram_usage"@ && reason@ == spec_ram_reason(
                    old(self).ram_usage_bytes as int,
                    old(self).config.ram_cap_bytes->0 as int,
                ) && (value matches Some(v) && v@ == spec_dec(old(self).ram_usage_bytes as int)))
                    && final(self).available_permits == old(self).available_permits))
                &&& (!old(self).ram_over_cap() ==> (r matches Admission::Granted { cpu_throttled }
                    && cpu_throttled == old(self).cpu_over_cap()) && final(self).available_permits
                    == old(self).available_permits - 1)
            },
    {
        self.begin_operation();
        if self.is_paused {
            return Admission::BlockedPaused;
        }
        if !self.capacity_available() {
            return Admission::BlockedAtCapacity;
        }
        self.take_capacity();
        let cpu_throttled = self.cpu_throttle_check();
        match self.ram_limit_check() {
            Err(error) => {
                self.release_capacity();
                Admission::Rejected { error }
            },
            Ok(()) => Admission::Granted { cpu_throttled },
        }
    }

    /// One I/O throttle call at the caller's clock reading `now_millis`
    /// (from a monotonic clock; an earlier reading than the stored window
    /// start is treated as the window's start).
    ///
    /// With no configured rate the call is a no-op. If the 1-second window
    /// has expired, the counter resets and a new window starts now — the
    /// first operation of the new window is free. Otherwise the operation is
    /// counted; once the configured limit is reached the caller is told to
    /// sleep out the remainder of the window and then report through
    /// `finish_io_backoff`. This is a coarse fixed-window limiter: bursts at
    /// window boundaries of up to twice the configured rate are possible by
    /// design.
    pub fn throttle_io(&mut self, now_millis: u64) -> (d: IoThrottleDecision)
        ensures
            final(self).config == old(self).config,
            final(self).cpu_usage_percent == old(self).cpu_usage_percent,
            final(self).ram_usage_bytes == old(self).ram_usage_bytes,
            final(self).available_permits == old(self).available_permits,
            final(self).is_paused == old(self).is_paused,
            final(self).total_operations == old(self).total_operations,
            old(self).config.io_ops_per_second is None ==> d == IoThrottleDecision::Unlimited
                && *final(self) == *old(self),
            old(self).config.io_ops_per_second matches Some(limit) ==> {
                let elapsed = if now_millis >= old(self).io_window_start_millis {
                    now_millis - old(self).io_window_start_millis
                } else {
                    0
                };
                if elapsed >= IO_WINDOW_MILLIS {
                    &&& d == IoThrottleDecision::WindowRestarted
                    &&& final(self).io_ops_count == 0
                    &&& final(self).io_window_start_millis == now_millis
                    &&& final(self).throttled_operations == old(self).throttled_operations
                } else {
                    &&& final(self).io_ops_count == if old(self).io_ops_count + 1 <= u64::MAX {
                        old(self).io_ops_count + 1
                    } else {
                        u64::MAX as int
                    }
                    &&& final(self).io_window_start_millis == old(self).io_window_start_millis
                    &&& if old(self).io_ops_count >= limit {
                        &&& d == (IoThrottleDecision::Backoff {
                            remaining_millis: (IO_WINDOW_MILLIS - elapsed) as u64,
                        })
                        &&& final(self).throttled_operations == if old(
                            self,
                        ).throttled_operations + 1 <= u64::MAX {
                            old(self).throttled_operations + 1
                        } else {
                            u64::MAX as int
                        }
                    } else {
                        &&& d == IoThrottleDecision::Admitted
                        &&& final(self).throttled_operations == old(self).throttled_operations
                    }
                }
            },
    {
        let limit = match self.config.io_ops_per_second {
            None => {
                return IoThrottleDecision::Unlimited;
            },
            Some(limit) => limit,
        };
        let elapsed: u64 = if now_millis >= self.io_window_start_millis {
            now_millis - self.io_window_start_millis
        } else {
            0
        };
        if elapsed >= IO_WINDOW_MILLIS {
            // The window has expired: reset and restart at the caller's
            // clock reading.
            self.io_ops_count = 0;
            self.io_window_start_millis = now_millis;
            IoThrottleDecision::WindowRestarted
        } else {
            let current_ops = self.io_ops_count;
            self.io_ops_count = self.io_ops_count.saturating_add(1);
            if current_ops >= limit {
                self.throttled_operations = self.throttled_operations.saturating_add(1);
                IoThrottleDecision::Backoff { remaining_millis: IO_WINDOW_MILLIS - elapsed }
            } else {
                IoThrottleDecision::Admitted
            }
        }
    }

    /// Complete an I/O backoff: after sleeping out the remainder of a window
    /// the caller starts a fresh window at its new clock reading, with the
    /// just-completed call counted as the first operation of the new window.
    pub fn finish_io_backoff(&mut self, now_millis: u64)
        ensures
            *final(self) == (GovernorState {
                io_ops_count: 1u64,
                io_window_start_millis: now_millis,
                ..*old(self)
            }),
    {
        self.io_ops_count = 1;
        self.io_window_start_millis = now_millis;
    }

    /// Zero the two operation counters. CPU usage, RAM usage, the pause flag
    /// and everything else stay unchanged.
    pub fn reset_statistics(&mut self)
        ensures
            *final(self) == (GovernorState {
                total_operations: 0u64,
                throttled_operations: 0u64,
                ..*old(self)
            }),
    {
        self.total_operations = 0;
        self.throttled_operations = 0;
    }

    /// Hand out a random source. In deterministic mode this is a fresh
    /// fixed-seed generator — the same seed for every call and every
    /// governor in that mode, so runs reproduce exactly. Otherwise it is a
    /// non-deterministic source seeded from the environment. A pure function
    /// of the configuration: the governor's state does not change.
    pub fn get_rng(&self) -> (r: GovernorRng)
        ensures
            r.is_deterministic() == self.config.deterministic_mode,
            self.config.deterministic_mode ==> r.seed() == DETERMINISTIC_SEED && r.pos() == 0,
    {
        if self.config.deterministic_mode {
            GovernorRng::new_deterministic(DETERMINISTIC_SEED)
        } else {
            GovernorRng::new_random()
        }
    }
}

/// At most the configured maximum of concurrency units is ever outstanding.
/// `new` establishes `wf` and every transition preserves it, so this bound
/// holds at every instant of a governor's life.
pub proof fn lemma_outstanding_permits_bounded(g: GovernorState)
    requires
        g.wf(),
    ensures
        0 <= g.outstanding_permits() <= g.config.max_concurrent_operations,
{
}

} // verus!
