use vstd::prelude::*;

verus! {

/// The kind tag a record carries: a recharge or a withdraw.
#[derive(Clone, Copy, Debug, PartialEq, Eq, Structural)]
pub enum ObjType {
    Recharge,
    Withdraw,
}

impl ObjType {
    /// The wire name of the kind.
    pub fn as_str(&self) -> (r: &'static str)
        ensures
            match *self {
                ObjType::Recharge => r@ == "recharge"@,
                ObjType::Withdraw => r@ == "withdraw"@,
            },
    {
        match self {
            ObjType::Recharge => "recharge",
            ObjType::Withdraw => "withdraw",
        }
    }
}

/// The lifecycle status of a withdraw. A withdraw starts in `Created`;
/// `Succeeded`, `Failed` and `Canceled` are terminal.
#[derive(Clone, Copy, Debug, PartialEq, Eq, Structural)]
pub enum Status {
    Created,
    Pending,
    Succeeded,
    Failed,
    Canceled,
}

impl Status {
    /// Targets a client may request for a withdraw status update: only
    /// `Pending` (confirm) and `Canceled` (cancel). Every other target,
    /// including the current status itself, is rejected before any store
    /// access.
    pub open spec fn spec_is_update_target(self) -> bool {
        self is Pending || self is Canceled
    }

    /// Whether this status is a legal update target.
    pub fn is_update_target(&self) -> (r: bool)
        ensures
            r == self.spec_is_update_target(),
    {
        matches!(self, Status::Pending | Status::Canceled)
    }

    /// The strict transition table of the status state machine:
    /// `Created -> Pending`, `Created -> Canceled`, `Pending -> Succeeded`,
    /// `Pending -> Failed`, `Pending -> Canceled`. The terminal statuses
    /// admit no further transition.
    pub open spec fn spec_transition_allowed(from: Status, to: Status) -> bool {
        ||| (from is Created && (to is Pending || to is Canceled))
        ||| (from is Pending && (to is Succeeded || to is Failed || to is Canceled))
    }

    /// Whether the strict state machine admits the transition.
    pub fn transition_allowed(from: Status, to: Status) -> (r: bool)
        ensures
            r == Status::spec_transition_allowed(from, to),
    {
        match from {
            Status::Created => matches!(to, Status::Pending | Status::Canceled),
            Status::Pending => matches!(to, Status::Succeeded | Status::Failed | Status::Canceled),
            _ => false,
        }
    }

    /// The wire name of the status.
    pub fn as_str(&self) -> (r: &'static str)
        ensures
            match *self {
                Status::Created => r@ == "created"@,
                Status::Pending => r@ == "pending"@,
                Status::Succeeded => r@ == "succeeded"@,
                Status::Failed => r@ == "failed"@,
                Status::Canceled => r@ == "canceled"@,
            },
    {
        match self {
            Status::Created => "created",
            Status::Pending => "pending",
            Status::Succeeded => "succeeded",
            Status::Failed => "failed",
            Status::Canceled => "canceled",
        }
    }
}

} // verus!
