//! Process identity and the ordered change from one identity to another.
//!
//! A [`Transition`] decides which system call comes next and what each
//! answer means. It never touches the system itself: the caller performs the
//! pending [`Request`] and hands the [`Reply`] to [`Transition::advance`].
//!
//! The order of the calls is what matters. A process that runs as root must
//! change its group and drop its supplementary groups while it is still
//! root, and change its user last; once the user is no longer root the other
//! two calls are refused.

use vstd::prelude::*;

verus! {

/// The identity of the running process as the launcher observes it.
#[derive(Clone, Copy, Debug, PartialEq, Eq, Structural)]
pub struct Identity {
    /// Effective user id.
    pub uid: u32,
    /// Effective group id.
    pub gid: u32,
    /// Number of supplementary groups, as the system reported it. A negative
    /// number stands for a query that failed.
    pub groups: i32,
}

/// One of the three system calls that change the identity.
#[derive(Clone, Copy, Debug, PartialEq, Eq, Structural)]
pub enum IdentityCall {
    /// Set the group id.
    SetGroup(u32),
    /// Drop every supplementary group.
    ClearGroups,
    /// Set the user id.
    SetUser(u32),
}

/// Why a transition was given up.
#[derive(Clone, Copy, Debug, PartialEq, Eq, Structural)]
pub enum IdentityError {
    /// The system refused `call` with the error number `errno`.
    CallFailed { call: IdentityCall, errno: i32 },
    /// After the calls the effective user id is not the requested one.
    UserMismatch { expected: u32, actual: u32 },
    /// After the calls the effective group id is not the requested one.
    GroupMismatch { expected: u32, actual: u32 },
    /// After the calls the process still has supplementary groups.
    GroupsRemain { count: i32 },
    /// The reply does not answer the request that was pending.
    UnexpectedReply,
}

/// What a transition asks its caller to do next.
#[derive(Clone, Copy, Debug, PartialEq, Eq, Structural)]
pub enum Request {
    /// Report the effective user id.
    EffectiveUser,
    /// Make this call and report whether it succeeded.
    Call(IdentityCall),
    /// Report the effective user id, the effective group id and the number
    /// of supplementary groups.
    Identity,
}

/// What the caller reports back.
#[derive(Clone, Copy, Debug, PartialEq, Eq, Structural)]
pub enum Reply {
    /// The effective user id.
    EffectiveUser(u32),
    /// The call succeeded.
    Done,
    /// The call failed with this error number.
    Failed(i32),
    /// The identity that is now in effect.
    Identity(Identity),
}

/// Position in the sequence of three calls.
#[derive(Clone, Copy, Debug, PartialEq, Eq, Structural)]
pub enum Slot {
    First,
    Second,
    Third,
}

/// How far a transition has come.
#[derive(Clone, Copy, Debug, PartialEq, Eq, Structural)]
pub enum Progress {
    /// The effective user id is not known yet.
    Probing,
    /// The call at `slot` is pending. `privileged` records whether the
    /// process was root when the transition began.
    Changing { privileged: bool, slot: Slot },
    /// All three calls succeeded; the resulting identity is being checked.
    Verifying,
    /// The transition is complete.
    Settled,
    /// The transition was given up. Nothing leads out of this state.
    Rejected(IdentityError),
}

/// A change of the process identity to user `uid` and group `gid` with no
/// supplementary groups.
#[derive(Clone, Copy, Debug, PartialEq, Eq, Structural)]
pub struct Transition {
    /// Requested user id.
    pub uid: u32,
    /// Requested group id.
    pub gid: u32,
    /// Whether the identity is read back and compared once the calls are made.
    pub strict: bool,
    /// Current state.
    pub progress: Progress,
}

/// The calls of a transition in the order in which they are made. A root
/// process changes its user last; any other process changes it first.
pub open spec fn call_order(privileged: bool, uid: u32, gid: u32) -> Seq<IdentityCall> {
    if privileged {
        seq![IdentityCall::SetGroup(gid), IdentityCall::ClearGroups, IdentityCall::SetUser(uid)]
    } else {
        seq![IdentityCall::SetUser(uid), IdentityCall::SetGroup(gid), IdentityCall::ClearGroups]
    }
}

/// The first respect in which `observed` differs from user `uid`, group
/// `gid` and no supplementary groups: user before group before groups.
pub open spec fn mismatch(observed: Identity, uid: u32, gid: u32) -> Option<IdentityError> {
    if observed.uid != uid {
        Some(IdentityError::UserMismatch { expected: uid, actual: observed.uid })
    } else if observed.gid != gid {
        Some(IdentityError::GroupMismatch { expected: gid, actual: observed.gid })
    } else if observed.groups != 0 {
        Some(IdentityError::GroupsRemain { count: observed.groups })
    } else {
        None
    }
}

impl Slot {
    /// Number of calls that come before this one.
    pub open spec fn index(self) -> int {
        match self {
            Slot::First => 0,
            Slot::Second => 1,
            Slot::Third => 2,
        }
    }
}

impl Identity {
    /// The identity a transition to `uid` and `gid` must end in: that user,
    /// that group, and no supplementary group.
    pub open spec fn target(uid: u32, gid: u32) -> Identity {
        Identity { uid, gid, groups: 0 }
    }

    /// The identity that is in effect once `call` has succeeded.
    pub open spec fn after(self, call: IdentityCall) -> Identity {
        match call {
            IdentityCall::SetGroup(gid) => Identity { gid, ..self },
            IdentityCall::ClearGroups => Identity { groups: 0, ..self },
            IdentityCall::SetUser(uid) => Identity { uid, ..self },
        }
    }

    /// The identity that is in effect once each of `calls` has succeeded, one
    /// after the other.
    pub open spec fn after_all(self, calls: Seq<IdentityCall>) -> Identity
        decreases calls.len(),
    {
        if calls.len() == 0 {
            self
        } else {
            self.after_all(calls.drop_last()).after(calls.last())
        }
    }

    /// Compares this identity with the one that was requested.
    pub fn verify(&self, uid: u32, gid: u32) -> (checked: Result<(), IdentityError>)
        ensures
            checked is Ok <==> *self == Identity::target(uid, gid),
            checked is Err ==> mismatch(*self, uid, gid) == Some(checked->Err_0),
    {
        if self.uid != uid {
            Err(IdentityError::UserMismatch { expected: uid, actual: self.uid })
        } else if self.gid != gid {
            Err(IdentityError::GroupMismatch { expected: gid, actual: self.gid })
        } else if self.groups != 0 {
            Err(IdentityError::GroupsRemain { count: self.groups })
        } else {
            Ok(())
        }
    }
}

impl Transition {
    /// A transition that has not begun.
    pub open spec fn initial(uid: u32, gid: u32, strict: bool) -> Transition {
        Transition { uid, gid, strict, progress: Progress::Probing }
    }

    /// The pending request; none once the transition is settled or rejected.
    pub open spec fn request(self) -> Option<Request> {
        match self.progress {
            Progress::Probing => Some(Request::EffectiveUser),
            Progress::Changing { privileged, slot } => Some(
                Request::Call(call_order(privileged, self.uid, self.gid)[slot.index()]),
            ),
            Progress::Verifying => Some(Request::Identity),
            Progress::Settled | Progress::Rejected(_) => None,
        }
    }

    /// The state that follows when the pending request is answered by
    /// `reply`.
    ///
    /// A failed call rejects the transition at once. After the third call
    /// the transition is settled, or, if it is strict, settled only when the
    /// identity read back is the requested one. A reply of the wrong kind
    /// rejects the transition; a settled or rejected transition stays as it
    /// is.
    pub open spec fn next(self, reply: Reply) -> Transition {
        let progress = match self.progress {
            Progress::Probing => match reply {
                Reply::EffectiveUser(euid) => Progress::Changing {
                    privileged: euid == 0,
                    slot: Slot::First,
                },
                _ => Progress::Rejected(IdentityError::UnexpectedReply),
            },
            Progress::Changing { privileged, slot } => match reply {
                Reply::Done => match slot {
                    Slot::First => Progress::Changing { privileged, slot: Slot::Second },
                    Slot::Second => Progress::Changing { privileged, slot: Slot::Third },
                    Slot::Third => if self.strict {
                        Progress::Verifying
                    } else {
                        Progress::Settled
                    },
                },
                Reply::Failed(errno) => Progress::Rejected(
                    IdentityError::CallFailed {
                        call: call_order(privileged, self.uid, self.gid)[slot.index()],
                        errno,
                    },
                ),
                _ => Progress::Rejected(IdentityError::UnexpectedReply),
            },
            Progress::Verifying => match reply {
                Reply::Identity(observed) => match mismatch(observed, self.uid, self.gid) {
                    None => Progress::Settled,
                    Some(error) => Progress::Rejected(error),
                },
                _ => Progress::Rejected(IdentityError::UnexpectedReply),
            },
            Progress::Settled => Progress::Settled,
            Progress::Rejected(error) => Progress::Rejected(error),
        };
        Transition { progress, ..self }
    }

    /// Begins a transition to user `uid` and group `gid`.
    pub fn new(uid: u32, gid: u32, strict: bool) -> (transition: Transition)
        ensures
            transition == Transition::initial(uid, gid, strict),
    {
        Transition { uid, gid, strict, progress: Progress::Probing }
    }

    /// The call that stands at `slot`.
    fn call_at(&self, privileged: bool, slot: Slot) -> (call: IdentityCall)
        ensures
            call == call_order(privileged, self.uid, self.gid)[slot.index()],
    {
        if privileged {
            match slot {
                Slot::First => IdentityCall::SetGroup(self.gid),
                Slot::Second => IdentityCall::ClearGroups,
                Slot::Third => IdentityCall::SetUser(self.uid),
            }
        } else {
            match slot {
                Slot::First => IdentityCall::SetUser(self.uid),
                Slot::Second => IdentityCall::SetGroup(self.gid),
                Slot::Third => IdentityCall::ClearGroups,
            }
        }
    }

    /// What the caller has to do next, if anything.
    pub fn pending(&self) -> (request: Option<Request>)
        ensures
            request == self.request(),
    {
        match self.progress {
            Progress::Probing => Some(Request::EffectiveUser),
            Progress::Changing { privileged, slot } => Some(
                Request::Call(self.call_at(privileged, slot)),
            ),
            Progress::Verifying => Some(Request::Identity),
            Progress::Settled => None,
            Progress::Rejected(_) => None,
        }
    }

    /// Takes the answer to the pending request and moves on.
    pub fn advance(self, reply: Reply) -> (following: Transition)
        ensures
            following == self.next(reply),
    {
        let progress = match self.progress {
            Progress::Probing => match reply {
                Reply::EffectiveUser(euid) => Progress::Changing {
                    privileged: euid == 0,
                    slot: Slot::First,
                },
                _ => Progress::Rejected(IdentityError::UnexpectedReply),
            },
            Progress::Changing { privileged, slot } => match reply {
                Reply::Done => match slot {
                    Slot::First => Progress::Changing { privileged, slot: Slot::Second },
                    Slot::Second => Progress::Changing { privileged, slot: Slot::Third },
                    Slot::Third => if self.strict {
                        Progress::Verifying
                    } else {
                        Progress::Settled
                    },
                },
                Reply::Failed(errno) => Progress::Rejected(
                    IdentityError::CallFailed { call: self.call_at(privileged, slot), errno },
                ),
                _ => Progress::Rejected(IdentityError::UnexpectedReply),
            },
            Progress::Verifying => match reply {
                Reply::Identity(observed) => match observed.verify(self.uid, self.gid) {
                    Ok(()) => Progress::Settled,
                    Err(error) => Progress::Rejected(error),
                },
                _ => Progress::Rejected(IdentityError::UnexpectedReply),
            },
            Progress::Settled => Progress::Settled,
            Progress::Rejected(error) => Progress::Rejected(error),
        };
        Transition { uid: self.uid, gid: self.gid, strict: self.strict, progress }
    }
}

/// An exchange with a system that does what it says. A query is answered
/// with what is in effect and changes nothing. A call that reports success
/// has had its effect, and one that reports failure has had none.
pub open spec fn honest(before: Identity, request: Request, reply: Reply, after: Identity) -> bool {
    match request {
        Request::EffectiveUser => reply == Reply::EffectiveUser(before.uid) && after == before,
        Request::Identity => reply == Reply::Identity(before) && after == before,
        Request::Call(call) => match reply {
            Reply::Done => after == before.after(call),
            Reply::Failed(_) => after == before,
            _ => false,
        },
    }
}

/// An exchange with a system of which only the queries are relied on: they
/// are answered with what is in effect and change nothing. A call may report
/// anything and leave any identity behind.
pub open spec fn truthful(before: Identity, request: Request, reply: Reply, after: Identity) -> bool {
    match request {
        Request::EffectiveUser => reply == Reply::EffectiveUser(before.uid) && after == before,
        Request::Identity => reply == Reply::Identity(before) && after == before,
        Request::Call(_) => true,
    }
}

impl Transition {
    /// What the successful calls so far have brought about in `world`: each
    /// call before the pending one has its effect in place, and past the
    /// third call the identity is the requested one.
    pub open spec fn established(self, world: Identity) -> bool {
        match self.progress {
            Progress::Probing | Progress::Rejected(_) => true,
            Progress::Changing { privileged, slot } => forall|i: int|
                0 <= i < slot.index() ==> world.after(
                    #[trigger] call_order(privileged, self.uid, self.gid)[i],
                ) == world,
            Progress::Verifying | Progress::Settled => world == Identity::target(
                self.uid,
                self.gid,
            ),
        }
    }

    /// An honest exchange keeps `established`: whatever the earlier calls
    /// brought about is still in place after the next one, in either order
    /// of the calls.
    pub proof fn lemma_honest_exchange(self, before: Identity, reply: Reply, after: Identity)
        requires
            self.established(before),
            match self.request() {
                Some(request) => honest(before, request, reply, after),
                None => after == before,
            },
        ensures
            self.next(reply).established(after),
    {
        match self.progress {
            Progress::Changing { privileged, slot } => {
                let order = call_order(privileged, self.uid, self.gid);
                assert(order[0] == if privileged {
                    IdentityCall::SetGroup(self.gid)
                } else {
                    IdentityCall::SetUser(self.uid)
                });
                assert(order[1] == if privileged {
                    IdentityCall::ClearGroups
                } else {
                    IdentityCall::SetGroup(self.gid)
                });
                assert(order[2] == if privileged {
                    IdentityCall::SetUser(self.uid)
                } else {
                    IdentityCall::ClearGroups
                });
            },
            _ => {},
        }
    }

    /// The outcome does not depend on the order of the calls nor on the
    /// identity they start from: made in the order of a root process from
    /// `first`, or in the order of any other process from `second`, the three
    /// calls end in user `uid`, group `gid` and no supplementary groups.
    pub proof fn lemma_either_order_reaches_target(
        first: Identity,
        second: Identity,
        uid: u32,
        gid: u32,
    )
        ensures
            first.after_all(call_order(true, uid, gid)) == Identity::target(uid, gid),
            second.after_all(call_order(false, uid, gid)) == Identity::target(uid, gid),
    {
        reveal_with_fuel(Identity::after_all, 4);
        let privileged = call_order(true, uid, gid);
        assert(privileged.drop_last() =~= seq![
            IdentityCall::SetGroup(gid),
            IdentityCall::ClearGroups,
        ]);
        assert(privileged.drop_last().drop_last() =~= seq![IdentityCall::SetGroup(gid)]);
        assert(privileged.drop_last().drop_last().drop_last() =~= Seq::empty());
        let unprivileged = call_order(false, uid, gid);
        assert(unprivileged.drop_last() =~= seq![
            IdentityCall::SetUser(uid),
            IdentityCall::SetGroup(gid),
        ]);
        assert(unprivileged.drop_last().drop_last() =~= seq![IdentityCall::SetUser(uid)]);
        assert(unprivileged.drop_last().drop_last().drop_last() =~= Seq::empty());
    }

    /// When a transition settles: once the effective user is known and
    /// all three calls have succeeded. A strict transition then asks for
    /// the identity and settles if that is the requested one.
    pub proof fn lemma_success_settles(uid: u32, gid: u32, strict: bool, euid: u32)
        ensures
            ({
                let made = Transition::initial(uid, gid, strict).next(
                    Reply::EffectiveUser(euid),
                ).next(Reply::Done).next(Reply::Done).next(Reply::Done);
                if strict {
                    &&& made.request() == Some(Request::Identity)
                    &&& made.next(Reply::Identity(Identity::target(uid, gid))).progress is Settled
                } else {
                    made.progress is Settled
                }
            }),
    {
    }

    /// A strict transition settles only on the requested identity, whatever
    /// the calls reported and whatever they did, as long as the queries are
    /// answered truthfully.
    pub proof fn lemma_strict_exchange(self, before: Identity, reply: Reply, after: Identity)
        requires
            self.strict,
            self.progress is Settled ==> before == Identity::target(self.uid, self.gid),
            match self.request() {
                Some(request) => truthful(before, request, reply, after),
                None => after == before,
            },
        ensures
            self.next(reply).progress is Settled ==> after == Identity::target(self.uid, self.gid),
    {
    }
}

} // verus!
