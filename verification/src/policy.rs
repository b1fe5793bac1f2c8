//! Making a device the default device.
//!
//! The platform keeps one default device per role. A device that the user
//! picks becomes the default for every role, one role after the other, and
//! the first failure ends the run. That the platform offers no way to assign
//! defaults is no failure.

use crate::session::PlatformError;
use vstd::prelude::*;

verus! {

/// The platform's code for "the object is not there": it offers no way to
/// assign defaults.
pub const NOT_AVAILABLE: u32 = 0x8009_0011;

/// What a default device is the default for.
#[derive(Clone, Copy, PartialEq, Eq, Structural, Debug)]
pub enum Role {
    Console,
    Multimedia,
    Communications,
}

/// What comes next in a run of assignments.
#[derive(Clone, Copy, PartialEq, Eq, Debug)]
pub enum Assignment {
    /// Assign the device to this role and report how it went.
    Assign(Role),
    /// The run is over, with this result.
    Done(Result<(), PlatformError>),
}

/// The role that follows `role`, if any.
pub open spec fn role_after(role: Role) -> Option<Role> {
    match role {
        Role::Console => Some(Role::Multimedia),
        Role::Multimedia => Some(Role::Communications),
        Role::Communications => None,
    }
}

/// What a failed assignment amounts to.
pub open spec fn absorbed(error: PlatformError) -> Result<(), PlatformError> {
    if error.code == NOT_AVAILABLE {
        Ok(())
    } else {
        Err(error)
    }
}

/// What comes next, given the role assigned last and how that went, or
/// nothing where the run begins.
pub open spec fn assignment_after(previous: Option<(Role, Result<(), PlatformError>)>) -> Assignment {
    match previous {
        None => Assignment::Assign(Role::Console),
        Some((_, Err(error))) => Assignment::Done(absorbed(error)),
        Some((role, Ok(_))) => match role_after(role) {
            Some(next) => Assignment::Assign(next),
            None => Assignment::Done(Ok(())),
        },
    }
}

/// The roles assigned in a whole run, in order, where `outcomes` holds how
/// the platform answers the first, second and third assignment.
pub open spec fn roles_assigned(
    previous: Option<(Role, Result<(), PlatformError>)>,
    outcomes: Seq<Result<(), PlatformError>>,
) -> Seq<Role>
    decreases outcomes.len(),
{
    match assignment_after(previous) {
        Assignment::Done(_) => Seq::empty(),
        Assignment::Assign(role) => if outcomes.len() == 0 {
            seq![role]
        } else {
            seq![role] + roles_assigned(Some((role, outcomes[0])), outcomes.skip(1))
        },
    }
}

/// The result of a whole run, or nothing where the outcomes given do not
/// reach its end.
pub open spec fn run_result(
    previous: Option<(Role, Result<(), PlatformError>)>,
    outcomes: Seq<Result<(), PlatformError>>,
) -> Option<Result<(), PlatformError>>
    decreases outcomes.len(),
{
    match assignment_after(previous) {
        Assignment::Done(result) => Some(result),
        Assignment::Assign(role) => if outcomes.len() == 0 {
            None
        } else {
            run_result(Some((role, outcomes[0])), outcomes.skip(1))
        },
    }
}

/// What comes next in a run of assignments, given the role assigned last
/// and how that went, or nothing where the run begins.
pub fn next_assignment(previous: Option<(Role, Result<(), PlatformError>)>) -> (next: Assignment)
    ensures
        next == assignment_after(previous),
{
    match previous {
        None => Assignment::Assign(Role::Console),
        Some((_, Err(error))) => {
            if error.code == NOT_AVAILABLE {
                Assignment::Done(Ok(()))
            } else {
                Assignment::Done(Err(error))
            }
        },
        Some((role, Ok(_))) => match role {
            Role::Console => Assignment::Assign(Role::Multimedia),
            Role::Multimedia => Assignment::Assign(Role::Communications),
            Role::Communications => Assignment::Done(Ok(())),
        },
    }
}

/// Where every assignment succeeds, the device is assigned to the three
/// roles in order, and the run succeeds.
pub proof fn lemma_all_roles_in_order(outcomes: Seq<Result<(), PlatformError>>)
    requires
        outcomes.len() == 3,
        forall|i: int| 0 <= i < 3 ==> (#[trigger] outcomes[i]) is Ok,
    ensures
        roles_assigned(None, outcomes) == seq![
            Role::Console,
            Role::Multimedia,
            Role::Communications,
        ],
        run_result(None, outcomes) == Some(Ok::<(), PlatformError>(())),
{
    let second = outcomes.skip(1);
    let third = second.skip(1);
    let none = third.skip(1);
    assert(outcomes[0] is Ok && outcomes[1] is Ok && outcomes[2] is Ok);
    assert(second[0] == outcomes[1]);
    assert(third[0] == outcomes[2]);
    assert(none.len() == 0);
    let last = Some((Role::Communications, third[0]));
    assert(roles_assigned(last, none) =~= Seq::<Role>::empty());
    assert(roles_assigned(Some((Role::Multimedia, second[0])), third) =~= seq![
        Role::Communications,
    ]);
    assert(roles_assigned(Some((Role::Console, outcomes[0])), second) =~= seq![
        Role::Multimedia,
        Role::Communications,
    ]);
    assert(roles_assigned(None, outcomes) =~= seq![
        Role::Console,
        Role::Multimedia,
        Role::Communications,
    ]);
    assert(run_result(last, none) == Some(Ok::<(), PlatformError>(())));
    assert(run_result(Some((Role::Multimedia, second[0])), third) == Some(
        Ok::<(), PlatformError>(()),
    ));
    assert(run_result(Some((Role::Console, outcomes[0])), second) == Some(
        Ok::<(), PlatformError>(()),
    ));
}

/// A failure ends the run at once: no further role is assigned, and the
/// run's result is the failure, or success where the platform offers no way
/// to assign defaults.
pub proof fn lemma_failure_ends_the_run(
    role: Role,
    error: PlatformError,
    outcomes: Seq<Result<(), PlatformError>>,
)
    ensures
        roles_assigned(Some((role, Err(error))), outcomes) == Seq::<Role>::empty(),
        run_result(Some((role, Err(error))), outcomes) == Some(absorbed(error)),
        error.code == NOT_AVAILABLE ==> absorbed(error) is Ok,
        error.code != NOT_AVAILABLE ==> absorbed(error) == Err::<(), PlatformError>(error),
{
}

} // verus!
