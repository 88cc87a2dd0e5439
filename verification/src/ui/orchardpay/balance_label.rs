//! The readout of both balances at the top of a screen.

use vstd::prelude::*;
use vstd::string::StringExecFns;

verus! {

/// What is shown of an identity's credits.
#[derive(Debug, Clone, PartialEq)]
pub struct CreditReadout {
    /// The amount, spelled out.
    pub text: String,
    /// Whether the credits run low.
    pub low: bool,
}

/// The readout: the identity's credits where there is an identity, and the shielded
/// balance, for which `None` stands while it may be out of date.
pub open spec fn balance_words(
    credits: Option<CreditReadout>,
    shielded: Option<Seq<char>>,
) -> Seq<char> {
    let head = match credits {
        None => Seq::empty(),
        Some(readout) => "Identity Balance: "@ + readout.text@ + (if readout.low {
            "  ·  Low Credits"@
        } else {
            Seq::empty()
        }) + "                        "@,
    };
    head + "Shielded Balance: "@ + (match shielded {
        None => "Still Syncing…"@,
        Some(amount) => amount,
    })
}

/// The readout of both balances.
pub fn balance_summary_label(credits: &Option<CreditReadout>, shielded: Option<&str>) -> (label: String)
    ensures
        label@ == balance_words(
            *credits,
            match shielded {
                None => None,
                Some(amount) => Some(amount@),
            },
        ),
{
    let mut label: String = String::new();
    if let Some(readout) = credits {
        label.append("Identity Balance: ");
        label.append(readout.text.as_str());
        if readout.low {
            label.append("  ·  Low Credits");
        }
        label.append("                        ");
    }
    label.append("Shielded Balance: ");
    match shielded {
        None => label.append("Still Syncing…"),
        Some(amount) => label.append(amount),
    }
    label
}

/// The readout ends with the shielded balance, or says that it is still coming; the
/// credits stand in front of it exactly where there is an identity, with a warning
/// exactly where they run low.
pub proof fn readouts_tell_both_balances(
    credits: CreditReadout,
    shielded: Seq<char>,
)
    ensures
        balance_words(None, Some(shielded)) == "Shielded Balance: "@ + shielded,
        balance_words(None, None) == "Shielded Balance: "@ + "Still Syncing…"@,
        !credits.low ==> balance_words(Some(credits), Some(shielded)) == "Identity Balance: "@
            + credits.text@ + "                        "@ + balance_words(None, Some(shielded)),
        credits.low ==> balance_words(Some(credits), Some(shielded)) == "Identity Balance: "@
            + credits.text@ + "  ·  Low Credits"@ + "                        "@ + balance_words(
            None,
            Some(shielded),
        ),
        !credits.low ==> balance_words(Some(credits), None) == "Identity Balance: "@
            + credits.text@ + "                        "@ + balance_words(None, None),
        credits.low ==> balance_words(Some(credits), None) == "Identity Balance: "@ + credits.text@
            + "  ·  Low Credits"@ + "                        "@ + balance_words(None, None),
{
    assert(Seq::<char>::empty() + "Shielded Balance: "@ =~= "Shielded Balance: "@);
    assert("Identity Balance: "@ + credits.text@ + Seq::<char>::empty() =~= "Identity Balance: "@
        + credits.text@);
    assert(balance_words(Some(credits), Some(shielded)) =~= "Identity Balance: "@ + credits.text@
        + (if credits.low {
        "  ·  Low Credits"@
    } else {
        Seq::empty()
    }) + "                        "@ + balance_words(None, Some(shielded)));
    assert(balance_words(Some(credits), None) =~= "Identity Balance: "@ + credits.text@ + (
    if credits.low {
        "  ·  Low Credits"@
    } else {
        Seq::empty()
    }) + "                        "@ + balance_words(None, None));
}

} // verus!
