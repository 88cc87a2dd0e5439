//! The steps of the guided setup.

use vstd::prelude::*;

verus! {

/// A step of the guided setup.
#[derive(Debug, Clone, Copy, PartialEq, Eq, Structural)]
pub enum OnboardingStep {
    Wallet,
    Identity,
    DpnsName,
    PrivateAddress,
}

impl OnboardingStep {
    /// All steps, in order.
    pub const ALL: [OnboardingStep; 4] = [
        OnboardingStep::Wallet,
        OnboardingStep::Identity,
        OnboardingStep::DpnsName,
        OnboardingStep::PrivateAddress,
    ];

    /// The step in words.
    pub open spec fn spec_label(self) -> Seq<char> {
        match self {
            OnboardingStep::Wallet => "Wallet"@,
            OnboardingStep::Identity => "Identity"@,
            OnboardingStep::DpnsName => "Name"@,
            OnboardingStep::PrivateAddress => "OrchardPay"@,
        }
    }

    /// The step in words.
    pub fn label(&self) -> (label: &'static str)
        ensures
            label@ == self.spec_label(),
    {
        match self {
            OnboardingStep::Wallet => "Wallet",
            OnboardingStep::Identity => "Identity",
            OnboardingStep::DpnsName => "Name",
            OnboardingStep::PrivateAddress => "OrchardPay",
        }
    }

    /// The position of the step among all of them.
    pub fn index(&self) -> (index: usize)
        ensures
            index < 4,
            OnboardingStep::ALL@[index as int] == *self,
    {
        match self {
            OnboardingStep::Wallet => 0,
            OnboardingStep::Identity => 1,
            OnboardingStep::DpnsName => 2,
            OnboardingStep::PrivateAddress => 3,
        }
    }
}

/// A screen of the application, as far as the guided setup tells them apart.
#[derive(Debug, Clone, Copy, PartialEq, Eq, Structural)]
pub enum Screen {
    AddNewWalletScreen,
    ImportMnemonicScreen,
    AddNewIdentityScreen,
    RegisterDpnsNameScreen,
    ShieldedAddressSetupScreen,
    Other,
}

/// The step that a screen belongs to.
pub open spec fn step_of(screen: Screen) -> Option<OnboardingStep> {
    match screen {
        Screen::AddNewWalletScreen => Some(OnboardingStep::Wallet),
        Screen::ImportMnemonicScreen => Some(OnboardingStep::Wallet),
        Screen::AddNewIdentityScreen => Some(OnboardingStep::Identity),
        Screen::RegisterDpnsNameScreen => Some(OnboardingStep::DpnsName),
        Screen::ShieldedAddressSetupScreen => Some(OnboardingStep::PrivateAddress),
        Screen::Other => None,
    }
}

/// The step that a screen belongs to; none outside the guided setup.
pub fn onboarding_step_for_screen(screen: &Screen) -> (step: Option<OnboardingStep>)
    ensures
        step == step_of(*screen),
{
    match screen {
        Screen::AddNewWalletScreen => Some(OnboardingStep::Wallet),
        Screen::ImportMnemonicScreen => Some(OnboardingStep::Wallet),
        Screen::AddNewIdentityScreen => Some(OnboardingStep::Identity),
        Screen::RegisterDpnsNameScreen => Some(OnboardingStep::DpnsName),
        Screen::ShieldedAddressSetupScreen => Some(OnboardingStep::PrivateAddress),
        Screen::Other => None,
    }
}

/// How a step stands to the one that is shown.
#[derive(Debug, Clone, Copy, PartialEq, Eq, Structural)]
pub enum StepStanding {
    Done,
    Current,
    Ahead,
}

/// How each step stands when `current` is shown: those before it are done, those
/// behind it still ahead.
pub fn onboarding_progress(current: OnboardingStep) -> (standings: [StepStanding; 4])
    ensures
        forall|i: int, c: int|
            0 <= i < 4 && 0 <= c < 4 && #[trigger] OnboardingStep::ALL@[c] == current ==> (
            #[trigger] standings@[i]) == if i < c {
                StepStanding::Done
            } else if i == c {
                StepStanding::Current
            } else {
                StepStanding::Ahead
            },
{
    match current {
        OnboardingStep::Wallet => [
            StepStanding::Current,
            StepStanding::Ahead,
            StepStanding::Ahead,
            StepStanding::Ahead,
        ],
        OnboardingStep::Identity => [
            StepStanding::Done,
            StepStanding::Current,
            StepStanding::Ahead,
            StepStanding::Ahead,
        ],
        OnboardingStep::DpnsName => [
            StepStanding::Done,
            StepStanding::Done,
            StepStanding::Current,
            StepStanding::Ahead,
        ],
        OnboardingStep::PrivateAddress => [
            StepStanding::Done,
            StepStanding::Done,
            StepStanding::Done,
            StepStanding::Current,
        ],
    }
}

/// The setup goes from the wallet over the identity and the name to the address, and
/// every screen of it belongs to the step it is for.
pub proof fn screens_belong_to_their_step(screen: Screen)
    ensures
        OnboardingStep::ALL@ == seq![
            OnboardingStep::Wallet,
            OnboardingStep::Identity,
            OnboardingStep::DpnsName,
            OnboardingStep::PrivateAddress,
        ],
        step_of(screen) == Some(OnboardingStep::Wallet) <==> (screen
            == Screen::AddNewWalletScreen || screen == Screen::ImportMnemonicScreen),
        step_of(screen) == Some(OnboardingStep::Identity) <==> screen
            == Screen::AddNewIdentityScreen,
        step_of(screen) == Some(OnboardingStep::DpnsName) <==> screen
            == Screen::RegisterDpnsNameScreen,
        step_of(screen) == Some(OnboardingStep::PrivateAddress) <==> screen
            == Screen::ShieldedAddressSetupScreen,
        step_of(screen) is None <==> screen == Screen::Other,
        OnboardingStep::Wallet.spec_label() == "Wallet"@,
        OnboardingStep::Identity.spec_label() == "Identity"@,
        OnboardingStep::DpnsName.spec_label() == "Name"@,
        OnboardingStep::PrivateAddress.spec_label() == "OrchardPay"@,
{
}

} // verus!
