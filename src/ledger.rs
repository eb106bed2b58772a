//! The ledger of registered extension applications.

use std::collections::BTreeSet;
use vstd::prelude::*;

use crate::ids::AppSelector;

verus! {

broadcast use vstd::laws_cmp::group_laws_cmp, vstd::std_specs::btree::group_btree_axioms;

/// Why a registration was refused: an extension may register only its own
/// application.
#[derive(Copy, Clone, Debug, PartialEq, Eq, Structural)]
pub struct IdentityMismatch {
    /// The application that the extension claimed.
    pub claimed: AppSelector,
    /// The application of the extension that sent the claim.
    pub actual: AppSelector,
}

/// The ledger after application `claimed` asked to be registered by the
/// extension of application `origin`: `claimed` is added exactly when the two
/// are the same.
pub open spec fn registered(ledger: Set<u16>, claimed: AppSelector, origin: AppSelector) -> Set<
    u16,
> {
    if claimed == origin {
        ledger.insert(claimed.code)
    } else {
        ledger
    }
}

/// The answer to such a registration.
pub open spec fn register_result(claimed: AppSelector, origin: AppSelector) -> Result<
    (),
    IdentityMismatch,
> {
    if claimed == origin {
        Ok(())
    } else {
        Err(IdentityMismatch { claimed, actual: origin })
    }
}

/// The set of application codes registered by their own extensions. Entries
/// are added only by a registration that matched its origin, and never
/// removed.
pub struct Ledger {
    apps: BTreeSet<u16>,
}

impl Ledger {
    /// The registered application codes.
    pub closed spec fn view(&self) -> Set<u16> {
        self.apps@
    }

    /// A ledger with nothing registered.
    pub fn new() -> (r: Ledger)
        ensures
            r@ == Set::<u16>::empty(),
    {
        Ledger { apps: BTreeSet::new() }
    }

    /// Registers `claimed` on behalf of the extension of application
    /// `origin`. Succeeds, adding `claimed`, exactly when the two are the
    /// same application; otherwise nothing changes and the error names both.
    pub fn register(&mut self, claimed: AppSelector, origin: AppSelector) -> (r: Result<
        (),
        IdentityMismatch,
    >)
        ensures
            r == register_result(claimed, origin),
            final(self)@ == registered(old(self)@, claimed, origin),
    {
        if claimed.code == origin.code {
            self.apps.insert(claimed.code);
            Ok(())
        } else {
            Err(IdentityMismatch { claimed, actual: origin })
        }
    }

    /// Whether the application is registered.
    pub fn contains(&self, app: AppSelector) -> (r: bool)
        ensures
            r == self@.contains(app.code),
    {
        self.apps.contains(&app.code)
    }

    /// A snapshot of the registered application codes, ordered and free of
    /// duplicates.
    pub fn list(&self) -> (r: BTreeSet<u16>)
        ensures
            r@ == self@,
    {
        self.apps.clone()
    }
}

/// Registering an application from its own extension succeeds, and doing it
/// a second time succeeds again and leaves the ledger as the first left it.
pub proof fn lemma_register_idempotent(ledger: Set<u16>, app: AppSelector)
    ensures
        register_result(app, app) is Ok,
        registered(registered(ledger, app, app), app, app) == registered(ledger, app, app),
{
}

/// A registration whose claimed application differs from the sender's own is
/// refused with an error naming both, and leaves the ledger unchanged.
pub proof fn lemma_register_mismatch(ledger: Set<u16>, claimed: AppSelector, origin: AppSelector)
    requires
        claimed != origin,
    ensures
        register_result(claimed, origin) == Err::<(), IdentityMismatch>(
            IdentityMismatch { claimed, actual: origin },
        ),
        registered(ledger, claimed, origin) == ledger,
{
}

} // verus!
