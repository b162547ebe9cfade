//! The errors of executing an action prospectively.
use super::ActionOutcome;
use vstd::prelude::*;

verus! {

/// Why an action cannot be executed; each error carries the outcome the action would
/// have had.
#[derive(Copy, Clone, PartialEq, Eq, Hash, Debug, Structural)]
pub enum ActionError {
    /// The action costs more CP than is left.
    TooLittleCp(ActionOutcome),
    /// The action cannot be used in this state.
    ActionInvalid(ActionOutcome),
    /// Both: too little CP, and the action cannot be used in this state anyway.
    NoCpAndInvalid(ActionOutcome),
}

/// The result of executing an action prospectively.
pub type ActionResult = Result<ActionOutcome, ActionError>;

impl ActionError {
    /// The result for an action with outcome `outcome`, given whether it has the CP it
    /// needs and whether it can be used in the state.
    pub open spec fn spec_from_checks(cp_ok: bool, can_execute: bool, outcome: ActionOutcome) -> ActionResult {
        if cp_ok && can_execute {
            Ok(outcome)
        } else if !cp_ok && !can_execute {
            Err(ActionError::NoCpAndInvalid(outcome))
        } else if !cp_ok {
            Err(ActionError::TooLittleCp(outcome))
        } else {
            Err(ActionError::ActionInvalid(outcome))
        }
    }

    /// Decides the result of an action from the two checks.
    pub fn from_checks(cp_ok: bool, can_execute: bool, outcome: ActionOutcome) -> (r: ActionResult)
        ensures
            r == Self::spec_from_checks(cp_ok, can_execute, outcome),
    {
        if cp_ok && can_execute {
            Ok(outcome)
        } else if !cp_ok && !can_execute {
            Err(ActionError::NoCpAndInvalid(outcome))
        } else if !cp_ok {
            Err(ActionError::TooLittleCp(outcome))
        } else {
            Err(ActionError::ActionInvalid(outcome))
        }
    }

    /// The outcome the action would have had.
    pub fn outcome(self) -> (r: ActionOutcome)
        ensures
            r == match self {
                ActionError::TooLittleCp(o) => o,
                ActionError::ActionInvalid(o) => o,
                ActionError::NoCpAndInvalid(o) => o,
            },
    {
        match self {
            ActionError::TooLittleCp(o) => o,
            ActionError::ActionInvalid(o) => o,
            ActionError::NoCpAndInvalid(o) => o,
        }
    }

    /// A description of the error.
    pub fn message(&self) -> (r: &'static str)
        ensures
            (*self is TooLittleCp) ==> r@ == "Too little CP to execute this action"@,
            (*self is ActionInvalid) ==> r@ == "Cannot execute this action in the current state"@,
            (*self is NoCpAndInvalid) ==> r@ == "Too little CP to execute this action, and even if there was enough CP the action isn't available in this state anyway"@,
    {
        match self {
            ActionError::TooLittleCp(_) => "Too little CP to execute this action",
            ActionError::ActionInvalid(_) => "Cannot execute this action in the current state",
            ActionError::NoCpAndInvalid(_) => "Too little CP to execute this action, and even if there was enough CP the action isn't available in this state anyway",
        }
    }
}

} // verus!
