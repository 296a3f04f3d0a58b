use task_runner_launcher::identity::{
    Identity, IdentityCall, IdentityError, Progress, Reply, Request, Slot, Transition,
};

const EPERM: i32 = 1;
const EINVAL: i32 = 22;

fn calls_of(mut transition: Transition) -> (Vec<IdentityCall>, Transition) {
    let mut calls = Vec::new();
    while let Some(Request::Call(call)) = transition.pending() {
        calls.push(call);
        transition = transition.advance(Reply::Done);
    }
    (calls, transition)
}

#[test]
fn verify_accepts_the_requested_identity() {
    let identity = Identity { uid: 1000, gid: 1001, groups: 0 };
    assert_eq!(identity.verify(1000, 1001), Ok(()));
}

#[test]
fn verify_accepts_root_as_a_target() {
    let identity = Identity { uid: 0, gid: 0, groups: 0 };
    assert_eq!(identity.verify(0, 0), Ok(()));
}

#[test]
fn verify_reports_a_wrong_user() {
    let identity = Identity { uid: 0, gid: 1001, groups: 0 };
    assert_eq!(
        identity.verify(1000, 1001),
        Err(IdentityError::UserMismatch { expected: 1000, actual: 0 })
    );
}

#[test]
fn verify_reports_a_wrong_group() {
    let identity = Identity { uid: 1000, gid: 0, groups: 0 };
    assert_eq!(
        identity.verify(1000, 1001),
        Err(IdentityError::GroupMismatch { expected: 1001, actual: 0 })
    );
}

#[test]
fn verify_reports_remaining_groups() {
    let identity = Identity { uid: 1000, gid: 1001, groups: 3 };
    assert_eq!(identity.verify(1000, 1001), Err(IdentityError::GroupsRemain { count: 3 }));
}

#[test]
fn verify_treats_a_failed_group_query_as_a_mismatch() {
    let identity = Identity { uid: 1000, gid: 1001, groups: -1 };
    assert_eq!(identity.verify(1000, 1001), Err(IdentityError::GroupsRemain { count: -1 }));
}

#[test]
fn verify_reports_the_user_first_when_everything_is_wrong() {
    let identity = Identity { uid: 1, gid: 2, groups: 3 };
    assert_eq!(
        identity.verify(1000, 1001),
        Err(IdentityError::UserMismatch { expected: 1000, actual: 1 })
    );
}

#[test]
fn verify_reports_the_group_before_the_groups() {
    let identity = Identity { uid: 1000, gid: 2, groups: 3 };
    assert_eq!(
        identity.verify(1000, 1001),
        Err(IdentityError::GroupMismatch { expected: 1001, actual: 2 })
    );
}

#[test]
fn new_transition_asks_for_the_effective_user() {
    let transition = Transition::new(1000, 1001, false);
    assert_eq!(
        transition,
        Transition { uid: 1000, gid: 1001, strict: false, progress: Progress::Probing }
    );
    assert_eq!(transition.pending(), Some(Request::EffectiveUser));
}

#[test]
fn root_changes_group_then_groups_then_user() {
    let transition = Transition::new(1000, 1001, false).advance(Reply::EffectiveUser(0));
    assert_eq!(
        transition.progress,
        Progress::Changing { privileged: true, slot: Slot::First }
    );
    let (calls, end) = calls_of(transition);
    assert_eq!(
        calls,
        vec![IdentityCall::SetGroup(1001), IdentityCall::ClearGroups, IdentityCall::SetUser(1000)]
    );
    assert_eq!(end.progress, Progress::Settled);
}

#[test]
fn other_user_changes_user_then_group_then_groups() {
    let transition = Transition::new(1000, 1001, false).advance(Reply::EffectiveUser(1000));
    assert_eq!(
        transition.progress,
        Progress::Changing { privileged: false, slot: Slot::First }
    );
    let (calls, end) = calls_of(transition);
    assert_eq!(
        calls,
        vec![IdentityCall::SetUser(1000), IdentityCall::SetGroup(1001), IdentityCall::ClearGroups]
    );
    assert_eq!(end.progress, Progress::Settled);
}

#[test]
fn settled_transition_asks_for_nothing() {
    let (_, end) = calls_of(Transition::new(7, 8, false).advance(Reply::EffectiveUser(0)));
    assert_eq!(end.pending(), None);
}

#[test]
fn strict_transition_reads_the_identity_back() {
    let (calls, end) = calls_of(Transition::new(1000, 1001, true).advance(Reply::EffectiveUser(0)));
    assert_eq!(calls.len(), 3);
    assert_eq!(end.progress, Progress::Verifying);
    assert_eq!(end.pending(), Some(Request::Identity));
    let settled = end.advance(Reply::Identity(Identity { uid: 1000, gid: 1001, groups: 0 }));
    assert_eq!(settled.progress, Progress::Settled);
}

#[test]
fn strict_transition_rejects_a_group_that_did_not_change() {
    let (_, end) = calls_of(Transition::new(1000, 1001, true).advance(Reply::EffectiveUser(0)));
    let rejected = end.advance(Reply::Identity(Identity { uid: 1000, gid: 0, groups: 0 }));
    assert_eq!(
        rejected.progress,
        Progress::Rejected(IdentityError::GroupMismatch { expected: 1001, actual: 0 })
    );
    assert_eq!(rejected.pending(), None);
}

#[test]
fn strict_transition_rejects_a_user_that_did_not_change() {
    let (_, end) = calls_of(Transition::new(1000, 1001, true).advance(Reply::EffectiveUser(0)));
    let rejected = end.advance(Reply::Identity(Identity { uid: 0, gid: 1001, groups: 0 }));
    assert_eq!(
        rejected.progress,
        Progress::Rejected(IdentityError::UserMismatch { expected: 1000, actual: 0 })
    );
}

#[test]
fn strict_transition_rejects_groups_that_remain() {
    let (_, end) = calls_of(Transition::new(1000, 1001, true).advance(Reply::EffectiveUser(0)));
    let rejected = end.advance(Reply::Identity(Identity { uid: 1000, gid: 1001, groups: 2 }));
    assert_eq!(rejected.progress, Progress::Rejected(IdentityError::GroupsRemain { count: 2 }));
}

#[test]
fn failed_first_call_rejects_with_call_and_error_number() {
    let transition = Transition::new(1000, 1001, false).advance(Reply::EffectiveUser(0));
    let rejected = transition.advance(Reply::Failed(EPERM));
    assert_eq!(
        rejected.progress,
        Progress::Rejected(IdentityError::CallFailed {
            call: IdentityCall::SetGroup(1001),
            errno: EPERM,
        })
    );
    assert_eq!(rejected.pending(), None);
}

#[test]
fn failed_last_call_of_an_unprivileged_process_rejects() {
    let transition = Transition::new(1000, 1001, false)
        .advance(Reply::EffectiveUser(1000))
        .advance(Reply::Done)
        .advance(Reply::Done);
    assert_eq!(transition.pending(), Some(Request::Call(IdentityCall::ClearGroups)));
    let rejected = transition.advance(Reply::Failed(EPERM));
    assert_eq!(
        rejected.progress,
        Progress::Rejected(IdentityError::CallFailed {
            call: IdentityCall::ClearGroups,
            errno: EPERM,
        })
    );
}

#[test]
fn failed_user_change_of_a_root_process_rejects() {
    let transition = Transition::new(1000, 1001, true)
        .advance(Reply::EffectiveUser(0))
        .advance(Reply::Done)
        .advance(Reply::Done);
    let rejected = transition.advance(Reply::Failed(EINVAL));
    assert_eq!(
        rejected.progress,
        Progress::Rejected(IdentityError::CallFailed {
            call: IdentityCall::SetUser(1000),
            errno: EINVAL,
        })
    );
}

#[test]
fn reply_of_the_wrong_kind_rejects() {
    let probing = Transition::new(1000, 1001, false);
    assert_eq!(
        probing.advance(Reply::Done).progress,
        Progress::Rejected(IdentityError::UnexpectedReply)
    );
    let changing = probing.advance(Reply::EffectiveUser(0));
    assert_eq!(
        changing.advance(Reply::EffectiveUser(0)).progress,
        Progress::Rejected(IdentityError::UnexpectedReply)
    );
    let (_, verifying) = calls_of(Transition::new(1000, 1001, true).advance(Reply::EffectiveUser(0)));
    assert_eq!(
        verifying.advance(Reply::Done).progress,
        Progress::Rejected(IdentityError::UnexpectedReply)
    );
}

#[test]
fn settled_and_rejected_transitions_stay_as_they_are() {
    let (_, settled) = calls_of(Transition::new(1000, 1001, false).advance(Reply::EffectiveUser(0)));
    assert_eq!(settled.advance(Reply::Failed(EPERM)), settled);
    assert_eq!(settled.advance(Reply::EffectiveUser(0)), settled);
    let rejected = Transition::new(1000, 1001, false).advance(Reply::Done);
    assert_eq!(rejected.advance(Reply::Done), rejected);
    assert_eq!(rejected.advance(Reply::EffectiveUser(0)), rejected);
}

#[test]
fn transition_keeps_its_target() {
    let (_, end) = calls_of(Transition::new(1000, 1001, true).advance(Reply::EffectiveUser(0)));
    assert_eq!(end.uid, 1000);
    assert_eq!(end.gid, 1001);
    assert!(end.strict);
}
