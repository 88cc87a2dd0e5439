//! The screen of a feature that is still to come.

use std::sync::Arc;

use vstd::prelude::*;

verus! {

/// A screen that only announces its feature.
pub struct OrchardPartyScreen<C> {
    pub app_context: Arc<C>,
}

impl<C> OrchardPartyScreen<C> {
    /// The screen, in the given context.
    pub fn new(app_context: &Arc<C>) -> (screen: Self)
        ensures
            screen.app_context == *app_context,
    {
        OrchardPartyScreen { app_context: app_context.clone() }
    }
}

/// What the top of the screen calls it.
pub const ORCHARD_PARTY_BREADCRUMB: &'static str = "OrchardParty";

/// What the screen says.
pub const ORCHARD_PARTY_ANNOUNCEMENT: &'static str = "OrchardParty - Coming Soon!";

} // verus!
