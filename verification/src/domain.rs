//! Cross-cutting domain types: account identity, screens, unlock methods
//! and the vault picker shared by the import and export modals.

use vstd::prelude::*;

verus! {

/// Stable per-user identifier (the SDK's user UUID as a 128-bit integer).
pub type UserId = u128;

/// Organization identifier (the SDK's organization UUID as a 128-bit integer).
pub type OrganizationId = u128;

/// An organization the user belongs to.
#[derive(Debug, Clone)]
pub struct Organization {
    pub id: OrganizationId,
    pub name: String,
}

/// Source / destination vault picker shared by import and export modals:
/// the user's personal vault, or one of their organizations.
#[derive(Debug, Clone, PartialEq, Eq)]
pub enum VaultChoice {
    Personal,
    Org { id: OrganizationId, name: String },
}

impl VaultChoice {
    /// Display label; the caller supplies the localized "personal" label.
    pub fn label(&self, personal_label: &str) -> (l: String)
        ensures
            l@ == (match self {
                VaultChoice::Personal => personal_label@,
                VaultChoice::Org { name, .. } => name@,
            }),
    {
        match self {
            VaultChoice::Personal => String::from_str(personal_label),
            VaultChoice::Org { name, .. } => name.clone(),
        }
    }

    /// The personal vault followed by each organization, in order.
    pub fn list_with_personal(orgs: &[Organization]) -> (choices: Vec<Self>)
        ensures
            choices@.len() == orgs@.len() + 1,
            choices@[0] == VaultChoice::Personal,
            forall|i: int| 0 <= i < orgs@.len() ==>
                #[trigger] choices@[i + 1] == (VaultChoice::Org { id: orgs@[i].id, name: orgs@[i].name }),
    {
        let mut choices: Vec<Self> = Vec::new();
        choices.push(VaultChoice::Personal);
        let mut i: usize = 0;
        while i < orgs.len()
            invariant
                i <= orgs@.len(),
                choices@.len() == i + 1,
                choices@[0] == VaultChoice::Personal,
                forall|k: int| 0 <= k < i ==>
                    #[trigger] choices@[k + 1] == (VaultChoice::Org { id: orgs@[k].id, name: orgs@[k].name }),
            decreases orgs@.len() - i,
        {
            let org = &orgs[i];
            choices.push(VaultChoice::Org { id: org.id, name: org.name.clone() });
            i = i + 1;
        }
        choices
    }
}

#[derive(Debug, Clone, Copy, PartialEq, Eq, Structural)]
pub enum Screen {
    /// Initial screen while the user registry loads.
    Loading,
    Login,
    Vault,
    Send,
}

/// The unlock method the login view is currently presenting.
#[derive(Debug, Clone, Copy, PartialEq, Eq, Structural)]
pub enum UnlockMethod {
    Biometrics,
    Pin,
    MasterPassword,
}

/// The set of unlock methods a user has configured.
#[derive(Debug, Clone, Copy, PartialEq, Eq, Structural)]
pub struct UnlockMethods {
    pub master_password: bool,
    pub pin: bool,
    pub biometrics: bool,
}

/// `[m]` when `b` holds, else empty.
pub open spec fn method_if(b: bool, m: UnlockMethod) -> Seq<UnlockMethod> {
    if b {
        seq![m]
    } else {
        Seq::empty()
    }
}

impl UnlockMethods {
    /// The user has configured `m`.
    pub open spec fn has(&self, m: UnlockMethod) -> bool {
        match m {
            UnlockMethod::Biometrics => self.biometrics,
            UnlockMethod::Pin => self.pin,
            UnlockMethod::MasterPassword => self.master_password,
        }
    }

    /// Biometrics first, then PIN, falling back to the master password.
    pub open spec fn preferred_spec(&self) -> UnlockMethod {
        if self.biometrics {
            UnlockMethod::Biometrics
        } else if self.pin {
            UnlockMethod::Pin
        } else {
            UnlockMethod::MasterPassword
        }
    }

    /// Every configured method other than `current`, in the order
    /// biometrics, PIN, master password.
    pub open spec fn alternatives_spec(&self, current: UnlockMethod) -> Seq<UnlockMethod> {
        method_if(self.biometrics && current != UnlockMethod::Biometrics, UnlockMethod::Biometrics)
            + method_if(self.pin && current != UnlockMethod::Pin, UnlockMethod::Pin)
            + method_if(
            self.master_password && current != UnlockMethod::MasterPassword,
            UnlockMethod::MasterPassword,
        )
    }

    pub fn preferred(&self) -> (m: UnlockMethod)
        ensures
            m == self.preferred_spec(),
    {
        if self.biometrics {
            UnlockMethod::Biometrics
        } else if self.pin {
            UnlockMethod::Pin
        } else {
            UnlockMethod::MasterPassword
        }
    }

    pub fn alternatives(&self, current: UnlockMethod) -> (alts: Vec<UnlockMethod>)
        ensures
            alts@ == self.alternatives_spec(current),
    {
        let mut alts: Vec<UnlockMethod> = Vec::new();
        if self.biometrics && current != UnlockMethod::Biometrics {
            alts.push(UnlockMethod::Biometrics);
        }
        let ghost a1 = alts@;
        if self.pin && current != UnlockMethod::Pin {
            alts.push(UnlockMethod::Pin);
        }
        let ghost a2 = alts@;
        if self.master_password && current != UnlockMethod::MasterPassword {
            alts.push(UnlockMethod::MasterPassword);
        }
        assert(a1 =~= method_if(self.biometrics && current != UnlockMethod::Biometrics, UnlockMethod::Biometrics));
        assert(a2 =~= a1 + method_if(self.pin && current != UnlockMethod::Pin, UnlockMethod::Pin));
        assert(alts@ =~= a2 + method_if(
            self.master_password && current != UnlockMethod::MasterPassword,
            UnlockMethod::MasterPassword,
        ));
        alts
    }
}

/// The alternatives offered next to `current` are exactly the configured
/// methods other than `current`, each offered once.
pub proof fn lemma_alternatives_are_other_configured(u: UnlockMethods, current: UnlockMethod)
    ensures
        forall|m: UnlockMethod| #[trigger] u.alternatives_spec(current).contains(m) <==> (u.has(m) && m != current),
        forall|i: int, j: int| 0 <= i < j < u.alternatives_spec(current).len() ==>
            u.alternatives_spec(current)[i] != u.alternatives_spec(current)[j],
{
    let a = u.alternatives_spec(current);
    assert forall|m: UnlockMethod| #[trigger] a.contains(m) <==> (u.has(m) && m != current) by {
        if u.has(m) && m != current {
            match m {
                UnlockMethod::Biometrics => assert(a[0] == m),
                UnlockMethod::Pin => {
                    let k = if u.biometrics && current != UnlockMethod::Biometrics { 1int } else { 0int };
                    assert(a[k] == m);
                },
                UnlockMethod::MasterPassword => assert(a[a.len() - 1] == m),
            }
        }
    }
}

/// The preferred method is configured whenever biometrics or a PIN is, and
/// otherwise it is the master password.
pub proof fn lemma_preferred_is_configured_or_master_password(u: UnlockMethods)
    ensures
        u.has(u.preferred_spec()) || u.preferred_spec() == UnlockMethod::MasterPassword,
        u.biometrics || u.pin ==> u.has(u.preferred_spec()),
{
}

} // verus!
