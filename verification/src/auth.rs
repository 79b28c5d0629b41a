//! Authorization: who may report under a network.

use crate::address::{Address, DerivedAddress};
use crate::error::AuthError;
use crate::state::Standing;
use vstd::prelude::*;

verus! {

/// The caller of a request: an identity, and whether the host found the
/// request signed by it.
#[derive(Clone, Copy, Debug, PartialEq, Eq)]
pub struct Actor {
    pub identity: Address,
    pub signed: bool,
}

/// The verdict on a caller. The caller must have signed; the reporter record
/// that the request names must be the one derived for the caller; and the
/// standing found in that record must permit reporting. The first failure in
/// this order is the error.
pub open spec fn authorization(
    signed: bool,
    claimed: Seq<u8>,
    derived: Option<(Seq<u8>, u8)>,
    standing: Option<Standing>,
) -> Result<(), AuthError> {
    if !signed {
        Err(AuthError::SignatureMissing)
    } else if !(derived matches Some(d) && d.0 == claimed) {
        Err(AuthError::RoleMismatch)
    } else if !(standing matches Some(s) && s.permits_reporting()) {
        Err(AuthError::RoleNotPermitted)
    } else {
        Ok(())
    }
}

/// The derived address and bump seed as plain values.
pub open spec fn derived_view(derived: Option<DerivedAddress>) -> Option<(Seq<u8>, u8)> {
    match derived {
        Some(d) => Some((d.address@, d.bump)),
        None => None,
    }
}

/// Decides whether `actor` may act as the reporter at `claimed`. `derived` is
/// the reporter address derived from the network and the actor's identity,
/// `standing` the standing read from the record at `claimed`, if it holds a
/// reporter. Nothing is changed.
pub fn authorize(
    actor: &Actor,
    claimed: &Address,
    derived: &Option<DerivedAddress>,
    standing: &Option<Standing>,
) -> (verdict: Result<(), AuthError>)
    ensures
        verdict == authorization(actor.signed, claimed@, derived_view(*derived), *standing),
{
    if !actor.signed {
        return Err(AuthError::SignatureMissing);
    }
    let matches = match derived {
        Some(d) => d.address.same_as(claimed),
        None => false,
    };
    if !matches {
        return Err(AuthError::RoleMismatch);
    }
    let permitted = match standing {
        Some(s) => s.may_report(),
        None => false,
    };
    if !permitted {
        return Err(AuthError::RoleNotPermitted);
    }
    Ok(())
}

} // verus!
