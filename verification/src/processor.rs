//! Filing a case: the authorization, the case id, the presence map, the address of the
//! record and its creation, as one step that either commits the new case
//! together with the network's counter or changes nothing.

use crate::address::{derive_address, derived_address, Address, DerivedAddress, Namespace};
use crate::auth::{authorization, authorize, derived_view, Actor};
use crate::category::{encoded, Category, CategoryMap};
use crate::error::{AllocationError, CreateError, ReportError};
use crate::rent::{min_reserve, RentPolicy};
use crate::state::{
    allocate_next, case_layout, network_layout, network_record, next_network, reporter_record,
    Case, CaseView, Network, Reporter, Standing,
};
use crate::storage::{Slot, SlotView, Storage};
use vstd::bytes::{spec_u64_to_le_bytes, u64_to_le_bytes};
use vstd::prelude::*;

verus! {

/// A request to file a case.
#[derive(Clone, Copy, Debug, PartialEq, Eq)]
pub struct ReportCaseRequest {
    /// The caller, who also funds the new record.
    pub actor: Actor,
    /// The network under which the case is filed.
    pub network: Address,
    /// The reporter record that the caller claims to act under.
    pub reporter: Address,
    /// The slot that is to hold the case.
    pub case: Address,
}

/// What a filed case was given.
#[derive(Clone, Copy, Debug, PartialEq, Eq)]
pub struct CaseReceipt {
    /// The id issued to the case.
    pub case_id: u64,
    /// The bump seed of the case's address: the witness of its derivation.
    pub bump: u8,
    /// The reserve that the caller paid into the case's slot.
    pub lamports: u64,
}

/// Whether a record can be created at `target`: the reserve that it takes,
/// or the first of the errors in the order in which they are listed. The
/// target must be empty; the witness must be the derivation of the target;
/// the record must have an encoding; and the funding slot must hold the
/// reserve of a record of that length.
pub open spec fn creation_verdict(
    pre: Map<Seq<u8>, SlotView>,
    target: Seq<u8>,
    witness: Option<(Seq<u8>, u8)>,
    payload: Option<Seq<u8>>,
    funding: Seq<u8>,
    rent: RentPolicy,
) -> Result<u64, CreateError> {
    if !pre[target].is_empty() {
        Err(CreateError::SlotOccupied)
    } else if !(witness matches Some(w) && w.0 == target) {
        Err(CreateError::AddressMismatch)
    } else if payload is None {
        Err(CreateError::SerializationError)
    } else if !(min_reserve(rent, payload.unwrap().len() as usize) matches Some(reserve)
        && reserve <= pre[funding].lamports) {
        Err(CreateError::InsufficientFunding)
    } else {
        Ok(min_reserve(rent, payload.unwrap().len() as usize).unwrap())
    }
}

/// Storage after a record was created: the reserve has moved from the funding
/// slot to the target, which holds the payload as its data.
pub open spec fn stored(
    pre: Map<Seq<u8>, SlotView>,
    target: Seq<u8>,
    payload: Seq<u8>,
    funding: Seq<u8>,
    reserve: u64,
) -> Map<Seq<u8>, SlotView> {
    pre.insert(
        funding,
        SlotView { lamports: (pre[funding].lamports - reserve) as u64, data: pre[funding].data },
    ).insert(target, SlotView { lamports: reserve, data: payload })
}

/// The outcome of creating a record at `target`: the storage afterwards and
/// the reserve paid, or the error.
pub open spec fn creation(
    pre: Map<Seq<u8>, SlotView>,
    target: Seq<u8>,
    witness: Option<(Seq<u8>, u8)>,
    payload: Option<Seq<u8>>,
    funding: Seq<u8>,
    rent: RentPolicy,
) -> Result<(Map<Seq<u8>, SlotView>, u64), CreateError> {
    match creation_verdict(pre, target, witness, payload, funding, rent) {
        Ok(reserve) => Ok((stored(pre, target, payload.unwrap(), funding, reserve), reserve)),
        Err(e) => Err(e),
    }
}

/// The bytes of an encoded record as plain values.
pub open spec fn payload_view(payload: Option<Vec<u8>>) -> Option<Seq<u8>> {
    match payload {
        Some(bytes) => Some(bytes@),
        None => None,
    }
}

/// Decides whether a record can be created, and changes nothing.
fn check_creation(
    storage: &Storage,
    target: &Address,
    witness: &Option<DerivedAddress>,
    payload: &Option<Vec<u8>>,
    funding: &Address,
    rent: &RentPolicy,
) -> (verdict: Result<u64, CreateError>)
    ensures
        verdict == creation_verdict(
            storage@,
            target@,
            derived_view(*witness),
            payload_view(*payload),
            funding@,
            *rent,
        ),
{
    if !storage.read(target).is_empty() {
        return Err(CreateError::SlotOccupied);
    }
    let authorized = match witness {
        Some(w) => w.address.same_as(target),
        None => false,
    };
    if !authorized {
        return Err(CreateError::AddressMismatch);
    }
    let len = match payload {
        Some(bytes) => bytes.len(),
        None => {
            return Err(CreateError::SerializationError);
        },
    };
    match rent.min_reserve(len) {
        Some(reserve) => {
            if reserve <= storage.read(funding).lamports {
                Ok(reserve)
            } else {
                Err(CreateError::InsufficientFunding)
            }
        },
        None => Err(CreateError::InsufficientFunding),
    }
}

/// Moves the reserve from the funding slot to the target and stores the
/// record there.
fn store_record(
    storage: &mut Storage,
    target: &Address,
    data: Vec<u8>,
    funding: &Address,
    reserve: u64,
)
    requires
        reserve <= old(storage)@[funding@].lamports,
    ensures
        final(storage)@ == stored(old(storage)@, target@, data@, funding@, reserve),
{
    let payer = storage.read(funding);
    storage.write(funding, Slot { lamports: payer.lamports - reserve, data: payer.data });
    storage.write(target, Slot { lamports: reserve, data });
}

/// Creates a record at `target`. `witness` is the derivation that authorizes
/// the write, `payload` the encoded record, or `None` where it has no
/// encoding. A refused creation leaves storage as it was.
pub fn create_record(
    storage: &mut Storage,
    target: &Address,
    witness: &Option<DerivedAddress>,
    payload: Option<Vec<u8>>,
    funding: &Address,
    rent: &RentPolicy,
) -> (created: Result<u64, CreateError>)
    ensures
        creation(
            old(storage)@,
            target@,
            derived_view(*witness),
            payload_view(payload),
            funding@,
            *rent,
        ) == match created {
            Ok(reserve) => Ok((final(storage)@, reserve)),
            Err(e) => Err(e),
        },
        created is Err ==> final(storage)@ == old(storage)@,
{
    let reserve = match check_creation(storage, target, witness, &payload, funding, rent) {
        Ok(reserve) => reserve,
        Err(e) => {
            return Err(e);
        },
    };
    store_record(storage, target, payload.unwrap(), funding, reserve);
    Ok(reserve)
}

/// The standing that the data of a slot gives, if it holds a reporter.
pub open spec fn reporter_standing(data: Seq<u8>) -> Option<Standing> {
    match reporter_record(data) {
        Some(reporter) => Some(reporter.standing),
        None => None,
    }
}

/// The outcome of a report on storage `pre`: the storage afterwards with the
/// receipt, or the error.
///
/// Authorization comes first. Then the network is read; its counter is the
/// id of the case. The case must be fit to be created at the slot that the
/// request names, which must be the address derived from the network and the
/// id, with the caller funding it. Last the network must have the id to
/// issue. Then the case is stored and the network with its counter one
/// higher.
pub open spec fn report_case(
    pre: Map<Seq<u8>, SlotView>,
    program_id: Seq<u8>,
    rent: RentPolicy,
    request: ReportCaseRequest,
    name: Seq<char>,
    categories: Set<Category>,
) -> Result<(Map<Seq<u8>, SlotView>, CaseReceipt), ReportError> {
    let verdict = authorization(
        request.actor.signed,
        request.reporter@,
        derived_address(
            Namespace::Reporter,
            request.network@,
            request.actor.identity@,
            program_id,
        ),
        reporter_standing(pre[request.reporter@].data),
    );
    let network = network_record(pre[request.network@].data);
    if verdict is Err {
        Err(ReportError::Auth(verdict->Err_0))
    } else if network is None {
        Err(ReportError::Allocation(AllocationError::ParentNotFound))
    } else {
        let case_id = network.unwrap().next_case_id;
        let witness = derived_address(
            Namespace::Case,
            request.network@,
            spec_u64_to_le_bytes(case_id),
            program_id,
        );
        let payload = case_layout(
            CaseView {
                name,
                reporter_key: request.actor.identity@,
                categories: encoded(categories),
            },
        );
        match creation_verdict(
            pre,
            request.case@,
            witness,
            payload,
            request.actor.identity@,
            rent,
        ) {
            Err(e) => Err(ReportError::Create(e)),
            Ok(reserve) => match next_network(network.unwrap()) {
                None => Err(ReportError::Allocation(AllocationError::CounterExhausted)),
                Some(next) => {
                    let created = stored(
                        pre,
                        request.case@,
                        payload.unwrap(),
                        request.actor.identity@,
                        reserve,
                    );
                    Ok(
                        (
                            created.insert(
                                request.network@,
                                SlotView {
                                    lamports: created[request.network@].lamports,
                                    data: network_layout(next),
                                },
                            ),
                            CaseReceipt { case_id, bump: witness.unwrap().1, lamports: reserve },
                        ),
                    )
                },
            },
        }
    }
}

/// The storage after a report: that of the outcome, and `pre` itself where
/// the report was refused.
pub open spec fn storage_after(
    pre: Map<Seq<u8>, SlotView>,
    outcome: Result<(Map<Seq<u8>, SlotView>, CaseReceipt), ReportError>,
) -> Map<Seq<u8>, SlotView> {
    match outcome {
        Ok((post, _)) => post,
        Err(_) => pre,
    }
}

/// The receipt or the error of an outcome.
pub open spec fn verdict_of(
    outcome: Result<(Map<Seq<u8>, SlotView>, CaseReceipt), ReportError>,
) -> Result<CaseReceipt, ReportError> {
    match outcome {
        Ok((_, receipt)) => Ok(receipt),
        Err(e) => Err(e),
    }
}

/// Files a case named `name` with the categories of `category_set` under the
/// network of the request. On success the case stands in its slot, the caller
/// has paid its reserve and the network's counter is one higher; on an error
/// storage is as it was.
pub fn process_report_case(
    program_id: &Address,
    storage: &mut Storage,
    rent: &RentPolicy,
    request: &ReportCaseRequest,
    name: &str,
    category_set: &[Category],
) -> (result: Result<CaseReceipt, ReportError>)
    ensures
        result == verdict_of(
            report_case(
                old(storage)@,
                program_id@,
                *rent,
                *request,
                name@,
                category_set@.to_set(),
            ),
        ),
        final(storage)@ == storage_after(
            old(storage)@,
            report_case(
                old(storage)@,
                program_id@,
                *rent,
                *request,
                name@,
                category_set@.to_set(),
            ),
        ),
{
    let actor = &request.actor.identity;
    let derived = derive_address(
        Namespace::Reporter,
        &request.network,
        actor.bytes.as_slice(),
        program_id,
    );
    let standing = match Reporter::decode(storage.read(&request.reporter).data.as_slice()) {
        Some(reporter) => Some(reporter.standing),
        None => None,
    };
    match authorize(&request.actor, &request.reporter, &derived, &standing) {
        Ok(()) => {},
        Err(e) => {
            return Err(ReportError::Auth(e));
        },
    }
    let network = match Network::decode(storage.read(&request.network).data.as_slice()) {
        Some(network) => network,
        None => {
            return Err(ReportError::Allocation(AllocationError::ParentNotFound));
        },
    };
    let case_id = network.next_case_id;
    let case = Case {
        name: name.to_owned(),
        reporter_key: *actor,
        categories: CategoryMap::encode(category_set),
    };
    let seed = u64_to_le_bytes(case_id);
    let witness = derive_address(Namespace::Case, &request.network, seed.as_slice(), program_id);
    let payload = case.encode();
    let reserve = match check_creation(storage, &request.case, &witness, &payload, actor, rent) {
        Ok(reserve) => reserve,
        Err(e) => {
            return Err(ReportError::Create(e));
        },
    };
    if network.next_case_id == u64::MAX {
        return Err(ReportError::Allocation(AllocationError::CounterExhausted));
    }
    let (_, updated) = allocate_next(network);
    store_record(storage, &request.case, payload.unwrap(), actor, reserve);
    let held = storage.read(&request.network);
    storage.write(&request.network, Slot { lamports: held.lamports, data: updated.encode() });
    Ok(CaseReceipt { case_id, bump: witness.unwrap().bump, lamports: reserve })
}

} // verus!
