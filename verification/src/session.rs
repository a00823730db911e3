use vstd::prelude::*;
use crate::password::{password_matches, spec_password_matches};
use std::time::Instant;

verus! {

broadcast use vstd::string::group_string_axioms;

pub const MSG_SESSION_LOCKED: &'static str = "请先输入访问密码解锁 FileHide";
pub const MSG_SESSION_EXPIRED: &'static str = "会话已自动锁定，请重新输入密码";
pub const MSG_INVALID_AUTO_LOCK: &'static str = "自动锁定时长无效";

#[verifier::external_type_specification]
#[verifier::external_body]
pub struct ExInstant(std::time::Instant);

/// `Instant::now`. Nothing is stated of the time it reads.
#[verifier::external_body]
fn now() -> Instant {
    Instant::now()
}

/// `t.elapsed().as_secs()`: the whole seconds since `t`. Nothing is stated
/// of it, since it depends on the clock. (`elapsed() >= Duration::from_secs(n)`
/// holds exactly when these whole seconds are at least `n`.)
#[verifier::external_body]
fn seconds_since(t: &Instant) -> u64 {
    t.elapsed().as_secs()
}

/// Whether the app has been unlocked in this process, and when it was last
/// used.
pub struct SessionState {
    pub unlocked: bool,
    pub last_activity: Option<Instant>,
}

/// The only auto-lock durations, in minutes, that may be chosen (0 turns
/// auto-lock off).
pub open spec fn is_supported_auto_lock(minutes: u32) -> bool {
    minutes == 0 || minutes == 5 || minutes == 15 || minutes == 30 || minutes == 60
}

pub fn validate_auto_lock_minutes(minutes: u32) -> (r: Result<(), String>)
    ensures
        r is Ok <==> is_supported_auto_lock(minutes),
        r matches Err(e) ==> e@ == MSG_INVALID_AUTO_LOCK@,
{
    if minutes == 0 || minutes == 5 || minutes == 15 || minutes == 30 || minutes == 60 {
        Ok(())
    } else {
        Err(String::from_str(MSG_INVALID_AUTO_LOCK))
    }
}

/// Whether an unlocked session has been idle for the whole auto-lock period:
/// auto-lock is on, a last use is recorded, and at least `minutes` minutes
/// have passed since it.
pub open spec fn spec_session_expired(minutes: u32, idle_seconds: Option<u64>) -> bool {
    minutes > 0 && match idle_seconds {
        Some(s) => s >= minutes * 60,
        None => false,
    }
}

pub fn session_expired(minutes: u32, idle_seconds: Option<u64>) -> (r: bool)
    ensures
        r == spec_session_expired(minutes, idle_seconds),
{
    if minutes == 0 {
        return false;
    }
    match idle_seconds {
        Some(s) => s >= minutes as u64 * 60,
        None => false,
    }
}

/// How a session is locked: no unlock, and no recorded use.
pub open spec fn is_locked_state(s: SessionState) -> bool {
    !s.unlocked && s.last_activity is None
}

/// How a session is freshly unlocked: unlocked, with a recorded use.
pub open spec fn is_fresh_state(s: SessionState) -> bool {
    s.unlocked && s.last_activity is Some
}

/// What holds of a gate check, whatever the clock reads: without a password
/// access is granted and nothing changes; a locked session is refused and
/// nothing changes; an unlocked session is granted (and its use recorded)
/// unless auto-lock is on, a use is recorded, and the session has expired,
/// in which case it is locked and refused.
pub open spec fn require_access_post(
    password_configured: bool,
    minutes: u32,
    before: SessionState,
    after: SessionState,
    r: Result<(), Seq<char>>,
) -> bool {
    if !password_configured {
        r is Ok && after == before
    } else if !before.unlocked {
        r == Err::<(), Seq<char>>(MSG_SESSION_LOCKED@) && after == before
    } else if minutes == 0 || before.last_activity is None {
        r is Ok && is_fresh_state(after)
    } else {
        ||| r is Ok && is_fresh_state(after)
        ||| r == Err::<(), Seq<char>>(MSG_SESSION_EXPIRED@) && is_locked_state(after)
    }
}

pub open spec fn unit_view(r: Result<(), String>) -> Result<(), Seq<char>> {
    match r {
        Ok(()) => Ok(()),
        Err(e) => Err(e@),
    }
}

/// The outcome of an access check, given the seconds since the last recorded
/// use: without a password access is granted and nothing changes; a
/// locked session is refused and nothing changes; an unlocked session with
/// a recorded use that has been idle for the whole auto-lock period is
/// locked and refused; any other unlocked session is granted, with `now`
/// recorded as its last use.
pub open spec fn gate_post(
    password_configured: bool,
    minutes: u32,
    idle_seconds: Option<u64>,
    now: Instant,
    before: SessionState,
    after: SessionState,
    r: Result<(), Seq<char>>,
) -> bool {
    if !password_configured {
        r is Ok && after == before
    } else if !before.unlocked {
        r == Err::<(), Seq<char>>(MSG_SESSION_LOCKED@) && after == before
    } else if before.last_activity is Some && spec_session_expired(minutes, idle_seconds) {
        r == Err::<(), Seq<char>>(MSG_SESSION_EXPIRED@) && is_locked_state(after)
    } else {
        r is Ok && after == (SessionState { unlocked: true, last_activity: Some(now) })
    }
}

/// Checks access for a session whose last recorded use was `idle_seconds`
/// seconds ago (`None` when none is recorded), at time `now`.
pub fn require_access_at(
    password_configured: bool,
    auto_lock_minutes: u32,
    state: &mut SessionState,
    idle_seconds: Option<u64>,
    now: Instant,
) -> (r: Result<(), String>)
    ensures
        gate_post(password_configured, auto_lock_minutes, idle_seconds, now, *old(state), *final(state), unit_view(r)),
{
    if !password_configured {
        return Ok(());
    }
    if !state.unlocked {
        return Err(String::from_str(MSG_SESSION_LOCKED));
    }
    if state.last_activity.is_some() && session_expired(auto_lock_minutes, idle_seconds) {
        state.unlocked = false;
        state.last_activity = None;
        return Err(String::from_str(MSG_SESSION_EXPIRED));
    }
    state.last_activity = Some(now);
    Ok(())
}

/// The access gate in front of every operation that shows or changes the
/// hidden items: with a password configured, the session must be unlocked
/// and not idle past the auto-lock period; each granted access records a use.
/// It reads the clock and leaves the decision to [`require_access_at`].
pub fn require_access(password_configured: bool, auto_lock_minutes: u32, state: &mut SessionState) -> (r:
    Result<(), String>)
    ensures
        require_access_post(password_configured, auto_lock_minutes, *old(state), *final(state), unit_view(r)),
{
    if !password_configured {
        return Ok(());
    }
    let idle = match &state.last_activity {
        Some(t) => Some(seconds_since(t)),
        None => None,
    };
    require_access_at(password_configured, auto_lock_minutes, state, idle, now())
}

/// What a session check decides, once the seconds since the last recorded
/// use are known: without a password it is open and unchanged; a locked
/// session is closed and unchanged; an unlocked one with a recorded use that
/// has been idle for the whole auto-lock period is locked and closed; any
/// other is open and unchanged (the check records no use).
pub open spec fn session_check_post(
    password_configured: bool,
    minutes: u32,
    idle_seconds: Option<u64>,
    before: SessionState,
    after: SessionState,
    r: bool,
) -> bool {
    if !password_configured {
        r && after == before
    } else if !before.unlocked {
        !r && after == before
    } else if before.last_activity is Some && spec_session_expired(minutes, idle_seconds) {
        !r && is_locked_state(after)
    } else {
        r && after == before
    }
}

/// The session check's decision for a session whose last recorded use was
/// `idle_seconds` seconds ago (`None` when none is recorded).
pub fn check_session_at(
    password_configured: bool,
    auto_lock_minutes: u32,
    state: &mut SessionState,
    idle_seconds: Option<u64>,
) -> (r: bool)
    ensures
        session_check_post(password_configured, auto_lock_minutes, idle_seconds, *old(state), *final(state), r),
{
    if !password_configured {
        return true;
    }
    if !state.unlocked {
        return false;
    }
    if state.last_activity.is_some() && session_expired(auto_lock_minutes, idle_seconds) {
        state.unlocked = false;
        state.last_activity = None;
        return false;
    }
    true
}

/// What holds of a session check, whatever the clock reads: without a
/// password it is open; a locked session is closed; an unlocked one is open
/// and unchanged unless it has expired, in which case it is locked.
pub open spec fn check_session_post(
    password_configured: bool,
    minutes: u32,
    before: SessionState,
    after: SessionState,
    r: bool,
) -> bool {
    if !password_configured {
        r && after == before
    } else if !before.unlocked {
        !r && after == before
    } else if minutes == 0 || before.last_activity is None {
        r && after == before
    } else {
        ||| r && after == before
        ||| !r && is_locked_state(after)
    }
}

/// Whether the app may be shown without asking for the password again. It
/// reads the clock and leaves the decision to [`check_session_at`].
pub fn check_session(password_configured: bool, auto_lock_minutes: u32, state: &mut SessionState) -> (r: bool)
    ensures
        check_session_post(password_configured, auto_lock_minutes, *old(state), *final(state), r),
{
    let idle = match &state.last_activity {
        Some(t) => Some(seconds_since(t)),
        None => None,
    };
    check_session_at(password_configured, auto_lock_minutes, state, idle)
}

/// Locks the session.
pub fn lock_session(state: &mut SessionState)
    ensures
        is_locked_state(*final(state)),
{
    state.unlocked = false;
    state.last_activity = None;
}

/// Unlocks the session and records a use at `now`.
pub fn unlock_session_at(state: &mut SessionState, now: Instant)
    ensures
        *final(state) == (SessionState { unlocked: true, last_activity: Some(now) }),
{
    state.unlocked = true;
    state.last_activity = Some(now);
}

/// Unlocks the session and records a use now (see [`unlock_session_at`]).
pub fn unlock_session(state: &mut SessionState)
    ensures
        is_fresh_state(*final(state)),
{
    unlock_session_at(state, now());
}

/// A new, locked session.
pub fn new_session() -> (s: SessionState)
    ensures
        is_locked_state(s),
{
    SessionState { unlocked: false, last_activity: None }
}

/// Checks the access password at time `now`: without a stored hash any
/// password unlocks; otherwise the session is unlocked exactly when the
/// password verifies, with `now` recorded as its last use; a wrong password
/// leaves the session as it was.
pub fn verify_password_at(password: &str, stored_hash: &Option<String>, state: &mut SessionState, now: Instant) -> (r:
    bool)
    ensures
        r == match stored_hash {
            None => true,
            Some(h) => spec_password_matches(password@, h@),
        },
        r ==> *final(state) == (SessionState { unlocked: true, last_activity: Some(now) }),
        !r ==> *final(state) == *old(state),
{
    let matches = match stored_hash {
        None => true,
        Some(h) => password_matches(password, h.as_str()),
    };
    if matches {
        unlock_session_at(state, now);
    }
    matches
}

/// Checks the access password now (see [`verify_password_at`]).
pub fn verify_password(password: &str, stored_hash: &Option<String>, state: &mut SessionState) -> (r: bool)
    ensures
        r == match stored_hash {
            None => true,
            Some(h) => spec_password_matches(password@, h@),
        },
        r ==> is_fresh_state(*final(state)),
        !r ==> *final(state) == *old(state),
{
    verify_password_at(password, stored_hash, state, now())
}

/// A locked session refuses every gate check while a password is
/// configured, and the check leaves it locked.
pub proof fn lemma_locked_session_is_refused(
    minutes: u32,
    locked: SessionState,
    after: SessionState,
    r: Result<(), Seq<char>>,
)
    requires
        is_locked_state(locked),
        require_access_post(true, minutes, locked, after, r),
    ensures
        r == Err::<(), Seq<char>>(MSG_SESSION_LOCKED@),
        is_locked_state(after),
{
}

/// Without a password, every gate check grants access and leaves the
/// session as it was.
pub proof fn lemma_no_password_always_granted(
    minutes: u32,
    before: SessionState,
    after: SessionState,
    r: Result<(), Seq<char>>,
)
    requires
        require_access_post(false, minutes, before, after, r),
    ensures
        r is Ok,
        after == before,
{
}

/// A freshly unlocked session with auto-lock off stays granted on every
/// check.
pub proof fn lemma_unlocked_without_auto_lock_is_granted(
    before: SessionState,
    after: SessionState,
    r: Result<(), Seq<char>>,
)
    requires
        is_fresh_state(before),
        require_access_post(true, 0, before, after, r),
    ensures
        r is Ok,
        is_fresh_state(after),
{
}

/// A refused gate check always leaves the session locked: access is never
/// refused to a session that stays usable.
pub proof fn lemma_refusal_leaves_session_locked(
    password_configured: bool,
    minutes: u32,
    before: SessionState,
    after: SessionState,
    r: Result<(), Seq<char>>,
)
    requires
        require_access_post(password_configured, minutes, before, after, r),
        r is Err,
    ensures
        !after.unlocked,
{
}

/// With auto-lock on, an unlocked session with a recorded use is refused as
/// expired exactly when it has been idle for the whole period, `minutes *
/// 60` seconds or more; while it has been idle for less it is granted, and
/// its use is recorded.
pub proof fn lemma_access_expires_at_the_auto_lock_period(
    minutes: u32,
    idle_seconds: u64,
    now: Instant,
    before: SessionState,
    after: SessionState,
    r: Result<(), Seq<char>>,
)
    requires
        minutes > 0,
        before.unlocked,
        before.last_activity is Some,
        gate_post(true, minutes, Some(idle_seconds), now, before, after, r),
    ensures
        idle_seconds >= minutes * 60 ==> r == Err::<(), Seq<char>>(MSG_SESSION_EXPIRED@) && !after.unlocked
            && after.last_activity is None,
        idle_seconds < minutes * 60 ==> r is Ok && after.unlocked && after.last_activity == Some(now),
{
}

/// The session check closes an unlocked session with auto-lock on exactly
/// when it has been idle for `minutes * 60` seconds or more, and leaves it
/// open and unchanged while it has been idle for less.
pub proof fn lemma_check_expires_at_the_auto_lock_period(
    minutes: u32,
    idle_seconds: u64,
    before: SessionState,
    after: SessionState,
    r: bool,
)
    requires
        minutes > 0,
        before.unlocked,
        before.last_activity is Some,
        session_check_post(true, minutes, Some(idle_seconds), before, after, r),
    ensures
        idle_seconds >= minutes * 60 ==> !r && !after.unlocked && after.last_activity is None,
        idle_seconds < minutes * 60 ==> r && after == before,
{
}

/// Auto-lock off never expires a session; with it on, a session has expired
/// exactly once it has been idle for `minutes * 60` seconds.
pub proof fn lemma_expiry_rule(minutes: u32, idle_seconds: Option<u64>)
    ensures
        minutes == 0 ==> !spec_session_expired(minutes, idle_seconds),
        idle_seconds is None ==> !spec_session_expired(minutes, idle_seconds),
        minutes > 0 ==> (idle_seconds matches Some(s) ==> (spec_session_expired(minutes, idle_seconds) <==> s
            >= minutes * 60)),
{
}

/// The auto-lock period may be off (0) or 5, 15, 30 or 60 minutes, and
/// nothing else.
pub proof fn lemma_auto_lock_choices(minutes: u32)
    ensures
        is_supported_auto_lock(minutes) <==> (minutes == 0 || minutes == 5 || minutes == 15 || minutes == 30
            || minutes == 60),
{
}

} // verus!
