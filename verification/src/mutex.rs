//! The decisions of a lock held in Redis: how the lock script's replies are
//! read, how often acquiring is tried, and what a failure is reported as.

use vstd::prelude::*;
use crate::text::{append_str, decimal, push_decimal, string_of};

verus! {

/// How many times acquiring a lock is tried before giving up.
pub const MAX_LOCK_ATTEMPTS: usize = 10;

/// Why a lock could not be used.
#[derive(Debug, Clone)]
pub enum MutexError {
    /// The lock was still held by another owner after this many attempts.
    AcquireFailed(usize),
    /// The lock expired or was taken over before it was released.
    LockLost,
    /// Redis failed, or answered what the lock script never answers.
    Redis(String),
}

/// The text a lock failure is reported with.
pub open spec fn spec_mutex_message(e: MutexError) -> Seq<char> {
    match e {
        MutexError::AcquireFailed(n) => "failed to acquire mutex after "@ + decimal(n as nat) + " attempts"@,
        MutexError::LockLost => "mutex lock was lost"@,
        MutexError::Redis(m) => "redis error: "@ + m@,
    }
}

impl MutexError {
    /// The text this failure is reported with.
    pub fn message(&self) -> (r: String)
        ensures
            r@ == spec_mutex_message(*self),
    {
        let mut v: Vec<char> = Vec::new();
        match self {
            MutexError::AcquireFailed(n) => {
                append_str(&mut v, "failed to acquire mutex after ");
                push_decimal(&mut v, *n as u64);
                append_str(&mut v, " attempts");
            },
            MutexError::LockLost => {
                append_str(&mut v, "mutex lock was lost");
            },
            MutexError::Redis(m) => {
                append_str(&mut v, "redis error: ");
                append_str(&mut v, m.as_str());
            },
        }
        string_of(&v)
    }
}

/// The arguments of the lock script: the owner's id and the lock's lifetime
/// in seconds.
pub fn lock_arguments(lock_id: &str) -> (r: Vec<String>)
    ensures
        r@.len() == 2,
        r@[0]@ == lock_id@,
        r@[1]@ == "30"@,
{
    let mut r: Vec<String> = Vec::new();
    r.push(lock_id.to_string());
    r.push("30".to_string());
    r
}

/// What to do after a reply of the lock script.
#[derive(Debug, Clone)]
pub enum LockStep {
    /// The lock is held: run the guarded work.
    Acquired,
    /// The lock is taken: wait a tenth of a second, then try again.
    WaitAndRetry,
    /// The lock is taken and no attempt is left: wait a tenth of a second,
    /// then give up with this error.
    WaitAndFail(MutexError),
    /// Stop with this error.
    Fail(MutexError),
}

/// Whether `step` follows the reply to attempt number `attempt` (counted
/// from zero): `1` means the lock is held, `0` that another owner holds it;
/// any other number, and a failure of Redis, end the attempts.
pub open spec fn lock_step_of(attempt: usize, reply: Result<i64, String>, step: LockStep) -> bool {
    match reply {
        Ok(n) => if n == 1 {
            step is Acquired
        } else if n == 0 {
            if attempt + 1 < MAX_LOCK_ATTEMPTS {
                step is WaitAndRetry
            } else {
                step matches LockStep::WaitAndFail(MutexError::AcquireFailed(k)) && k == MAX_LOCK_ATTEMPTS
            }
        } else {
            step matches LockStep::Fail(MutexError::Redis(m)) && m@ == "Unexpected return value from mutex lock"@
        },
        Err(x) => step matches LockStep::Fail(MutexError::Redis(m)) && m@ == x@,
    }
}

/// The step that follows the lock script's reply to attempt `attempt`.
pub fn lock_step(attempt: usize, reply: Result<i64, String>) -> (r: LockStep)
    requires
        attempt < MAX_LOCK_ATTEMPTS,
    ensures
        lock_step_of(attempt, reply, r),
{
    match reply {
        Ok(n) => if n == 1 {
            LockStep::Acquired
        } else if n == 0 {
            if attempt + 1 < MAX_LOCK_ATTEMPTS {
                LockStep::WaitAndRetry
            } else {
                LockStep::WaitAndFail(MutexError::AcquireFailed(MAX_LOCK_ATTEMPTS))
            }
        } else {
            LockStep::Fail(MutexError::Redis("Unexpected return value from mutex lock".to_string()))
        },
        Err(e) => LockStep::Fail(MutexError::Redis(e)),
    }
}

/// Whether `r` is what a reply of the unlock script means: `1` that the lock
/// was released, `0` that it had been lost; any other number, and a failure
/// of Redis, are errors.
pub open spec fn unlock_result_of(reply: Result<i64, String>, r: Result<(), MutexError>) -> bool {
    match reply {
        Ok(n) => if n == 1 {
            r is Ok
        } else if n == 0 {
            r matches Err(MutexError::LockLost)
        } else {
            r matches Err(MutexError::Redis(m)) && m@ == "Unexpected return value from mutex unlock"@
        },
        Err(x) => r matches Err(MutexError::Redis(m)) && m@ == x@,
    }
}

/// The outcome of releasing a lock, from the unlock script's reply.
pub fn unlock_result(reply: Result<i64, String>) -> (r: Result<(), MutexError>)
    ensures
        unlock_result_of(reply, r),
{
    match reply {
        Ok(n) => if n == 1 {
            Ok(())
        } else if n == 0 {
            Err(MutexError::LockLost)
        } else {
            Err(MutexError::Redis("Unexpected return value from mutex unlock".to_string()))
        },
        Err(e) => Err(MutexError::Redis(e)),
    }
}

/// A taken lock is tried again only while attempts are left, and the last
/// attempt gives up with `AcquireFailed(10)`: acquiring never makes more
/// than ten attempts.
pub proof fn law_lock_attempts_bounded(attempt: usize, reply: Result<i64, String>, step: LockStep)
    requires
        attempt < MAX_LOCK_ATTEMPTS,
        lock_step_of(attempt, reply, step),
    ensures
        step is WaitAndRetry ==> attempt + 1 < MAX_LOCK_ATTEMPTS,
        step is WaitAndFail ==> attempt + 1 == MAX_LOCK_ATTEMPTS,
{
}

} // verus!
