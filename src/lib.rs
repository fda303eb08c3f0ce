//! Scoped control over Wow64 file system redirection.
//!
//! On 64-bit Windows, a 32-bit process has some file system paths rewritten to
//! their architecture-matched equivalents. The operating system lets a thread
//! switch that rewriting off and later restore it through two primitives:
//! one that disables redirection and yields an opaque token, and one that
//! reverts it given that token.
//!
//! This crate holds the decisions around those primitives: when an
//! acquisition has succeeded, which token (if any) is handed back for revert
//! when a guard is released, and what is reported when a revert fails. The
//! calls themselves are made by the caller, which hands their results in.
//!
//! The redirection state is a property of the calling thread: a guard must be
//! released on the thread that acquired it.

use vstd::prelude::*;

verus! {

/// The status that a redirection primitive returns when it succeeds.
pub const SUCCESS_STATUS: i32 = 1;

/// Whether a status returned by one of the redirection primitives reports success.
pub open spec fn reports_success(status: i32) -> bool {
    status == SUCCESS_STATUS
}

/// One release of a guard whose held token is `held`: the token held
/// afterwards, and the token handed to the revert primitive, if any.
pub open spec fn release_step(held: Option<usize>) -> (Option<usize>, Option<usize>) {
    (None, held)
}

/// The tokens handed to the revert primitive, in order, over `releases`
/// successive releases of a guard that starts out holding `held`.
pub open spec fn revert_calls(held: Option<usize>, releases: nat) -> Seq<usize>
    decreases releases,
{
    if releases == 0 {
        Seq::empty()
    } else {
        let (next, handed) = release_step(held);
        let now = match handed {
            Some(t) => seq![t],
            None => Seq::empty(),
        };
        now + revert_calls(next, (releases - 1) as nat)
    }
}

/// What is reported after the revert primitive returned `status`: nothing on
/// success, else the thread's last error code.
pub open spec fn revert_report(status: i32, last_error: u32) -> Option<u32> {
    if reports_success(status) {
        None
    } else {
        Some(last_error)
    }
}

/// Failure to acquire a guard.
#[derive(Debug, PartialEq, Eq, Structural)]
pub enum RedirectionError {
    /// The disable primitive failed; carries the thread's last error code.
    OsOperationFailed(u32),
}

/// A live disabled-redirection state for the calling thread.
///
/// It holds the opaque token that the disable primitive produced until it is
/// released; releasing hands that token out once, for the revert primitive.
#[derive(Debug)]
pub struct DisableFsRedirection {
    token: Option<usize>,
}

impl View for DisableFsRedirection {
    type V = Option<usize>;

    /// The token still to be reverted, or `None` once the guard is released.
    closed spec fn view(&self) -> Option<usize> {
        self.token
    }
}

impl DisableFsRedirection {
    /// Builds the guard from what the disable primitive reported: its
    /// `status`, the `token` it wrote, and the thread's `last_error` read right
    /// after the call.
    ///
    /// Succeeds exactly when `status` reports success, with a guard holding
    /// `token`; otherwise fails with `last_error` and no guard exists.
    pub fn start(status: i32, token: usize, last_error: u32) -> (r: Result<
        DisableFsRedirection,
        RedirectionError,
    >)
        ensures
            r is Ok <==> reports_success(status),
            r matches Ok(g) ==> g@ == Some(token),
            r matches Err(e) ==> e == RedirectionError::OsOperationFailed(last_error),
    {
        if status == SUCCESS_STATUS {
            Ok(DisableFsRedirection { token: Some(token) })
        } else {
            Err(RedirectionError::OsOperationFailed(last_error))
        }
    }

    /// Whether the guard still holds a token to revert.
    pub fn is_active(&self) -> (r: bool)
        ensures
            r == self@ is Some,
    {
        self.token.is_some()
    }

    /// Releases the guard: returns the held token, which the caller passes to
    /// the revert primitive, and leaves the guard inactive whatever that
    /// revert then reports. On an inactive guard this does nothing and
    /// returns `None`, so a stale token is never handed out.
    pub fn release(&mut self) -> (r: Option<usize>)
        ensures
            final(self)@ == release_step(old(self)@).0,
            r == release_step(old(self)@).1,
    {
        let held = self.token;
        self.token = None;
        held
    }

    /// Decides what a failed revert leaves behind: `None` when `status`
    /// reports success, else the error code to record as a diagnostic.
    /// A revert failure is never an error of the caller.
    pub fn cleanup_report(status: i32, last_error: u32) -> (r: Option<u32>)
        ensures
            r == revert_report(status, last_error),
    {
        if status == SUCCESS_STATUS {
            None
        } else {
            Some(last_error)
        }
    }
}

/// Releasing a guard any number of times, explicitly or at scope exit, hands
/// the revert primitive at most one token: the one it held, and only if it
/// still held one.
pub proof fn release_is_idempotent(held: Option<usize>, releases: nat)
    requires
        releases >= 1,
    ensures
        revert_calls(held, releases) == match held {
            Some(t) => seq![t],
            None => Seq::<usize>::empty(),
        },
        revert_calls(held, releases).len() <= 1,
        revert_calls(release_step(held).0, releases) == Seq::<usize>::empty(),
{
    lemma_released_reverts_nothing(releases);
    lemma_released_reverts_nothing((releases - 1) as nat);
    match held {
        Some(t) => {
            assert(seq![t] + Seq::<usize>::empty() =~= seq![t]);
        },
        None => {
            assert(Seq::<usize>::empty() + Seq::<usize>::empty() =~= Seq::<usize>::empty());
        },
    }
}

/// A released guard hands out no token, however often it is released again.
proof fn lemma_released_reverts_nothing(releases: nat)
    ensures
        revert_calls(None, releases) == Seq::<usize>::empty(),
    decreases releases,
{
    if releases > 0 {
        lemma_released_reverts_nothing((releases - 1) as nat);
        assert(Seq::<usize>::empty() + Seq::<usize>::empty() =~= Seq::<usize>::empty());
    }
}

/// A guard that was acquired, when it leaves scope, has its token reverted
/// exactly once, whether or not it was also released explicitly before.
pub proof fn acquired_guard_reverts_once(token: usize, releases: nat)
    requires
        releases >= 1,
    ensures
        revert_calls(Some(token), releases) == seq![token],
{
    release_is_idempotent(Some(token), releases);
}

/// Two guards acquired and released one after the other do not interfere:
/// each hands the revert primitive its own token exactly once, in order.
pub proof fn sequential_guards_independent(
    first: usize,
    first_releases: nat,
    second: usize,
    second_releases: nat,
)
    requires
        first_releases >= 1,
        second_releases >= 1,
    ensures
        revert_calls(Some(first), first_releases) + revert_calls(Some(second), second_releases)
            == seq![first, second],
{
    release_is_idempotent(Some(first), first_releases);
    release_is_idempotent(Some(second), second_releases);
    assert(seq![first] + seq![second] =~= seq![first, second]);
}

} // verus!
