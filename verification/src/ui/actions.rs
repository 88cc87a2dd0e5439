//! What a screen asks the application to do.

use vstd::prelude::*;

use crate::model::identifier::Identifier;
use crate::orchardpay::tasks::{BackendTask, OrchardPayTask};

verus! {

/// The tabs of the main screen.
#[derive(Debug, Clone, Copy, PartialEq, Eq, Structural)]
pub enum OrchardPaySubscreen {
    Profile,
    /// All contacts by name.
    Contacts,
    /// All contacts by their latest activity.
    MostRecent,
    /// The wallet's shielded transactions.
    Payments,
    /// Search for somebody and ask them for contact.
    AddContact,
    /// Search for somebody and pay them, with or without asking for contact.
    DirectSend,
    About,
    QcWarning,
}

/// How serious a message to the user is.
#[derive(Debug, Clone, Copy, PartialEq, Eq, Structural)]
pub enum MessageType {
    Success,
    Info,
    Warning,
    Error,
}

/// A screen to be opened.
#[derive(Debug, Clone, Copy, PartialEq, Eq)]
pub enum ScreenTarget {
    AddNewIdentity,
    RegisterDpnsName,
    ShieldedAddressSetup,
    /// The conversation with this counterparty.
    MessageThread(Identifier),
}

/// A screen that the others are opened from.
#[derive(Debug, Clone, Copy, PartialEq, Eq, Structural)]
pub enum RootScreen {
    Identities,
    OrchardPay,
}

/// What a screen asks the application to do.
#[derive(Debug, Clone, PartialEq)]
pub enum AppAction {
    NoAction,
    BackendTask(BackendTask),
    AddScreen(ScreenTarget),
    /// Show this screen in the place of the one that is shown.
    SetMainScreen(RootScreen),
    /// The same, with everything closed that was opened from it.
    SetMainScreenThenGoToMainScreen(RootScreen),
    NavigateToOrchardPaySubscreen(OrchardPaySubscreen),
}

impl AppAction {
    /// The action sets `task` going.
    pub open spec fn runs(self, task: OrchardPayTask) -> bool {
        self == AppAction::BackendTask(BackendTask::OrchardPayTask(Box::new(task)))
    }

    /// The task that the action is to run, if it is to run one of the protocol.
    pub open spec fn task(self) -> Option<OrchardPayTask> {
        match self {
            AppAction::BackendTask(BackendTask::OrchardPayTask(task)) => Some(*task),
            _ => None,
        }
    }

    /// The action that sets `task` going.
    pub fn run(task: OrchardPayTask) -> (action: Self)
        ensures
            action.runs(task),
            action.task() == Some(task),
    {
        AppAction::BackendTask(BackendTask::OrchardPayTask(Box::new(task)))
    }

    /// Whether there is nothing to do.
    pub fn is_none(&self) -> (r: bool)
        ensures
            r == (*self is NoAction),
    {
        match self {
            AppAction::NoAction => true,
            _ => false,
        }
    }
}

/// An action runs the task it holds and no other, and one that holds none runs none.
pub proof fn actions_run_their_task(action: AppAction, task: OrchardPayTask)
    ensures
        action.runs(task) <==> action.task() == Some(task),
        action.task() is Some ==> action is BackendTask,
        AppAction::NoAction.task() is None,
{
}

} // verus!
