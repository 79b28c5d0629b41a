//! What holds of every report, proved of the outcome that
//! `process_report_case` commits.

use crate::address::{derived_address, Namespace};
use crate::auth::authorization;
use crate::category::{decoded, encoded, lemma_decode_encode, Category};
use crate::error::{AllocationError, AuthError, CreateError, ReportError};
use crate::processor::{
    report_case, reporter_standing, storage_after, CaseReceipt, ReportCaseRequest,
};
use crate::rent::{min_reserve, RentPolicy};
use crate::state::{
    case_layout, lemma_case_layout_categories, lemma_case_layout_len, lemma_network_round_trip,
    network_record, next_network, reporter_record, stored_categories, CaseView,
};
use crate::storage::SlotView;
use vstd::bytes::spec_u64_to_le_bytes;
use vstd::prelude::*;

verus! {

/// Whether the reporter record that the request names is the one derived from
/// the network and the caller's identity.
pub open spec fn reporter_matches(program_id: Seq<u8>, request: ReportCaseRequest) -> bool {
    derived_address(
        Namespace::Reporter,
        request.network@,
        request.actor.identity@,
        program_id,
    ) matches Some(d) && d.0 == request.reporter@
}

/// Whether the caller of the request is authorized on storage `pre`.
pub open spec fn is_authorized(
    pre: Map<Seq<u8>, SlotView>,
    program_id: Seq<u8>,
    request: ReportCaseRequest,
) -> bool {
    authorization(
        request.actor.signed,
        request.reporter@,
        derived_address(
            Namespace::Reporter,
            request.network@,
            request.actor.identity@,
            program_id,
        ),
        reporter_standing(pre[request.reporter@].data),
    ) is Ok
}

/// The case that a request files.
pub open spec fn filed_case(
    request: ReportCaseRequest,
    name: Seq<char>,
    categories: Set<Category>,
) -> CaseView {
    CaseView { name, reporter_key: request.actor.identity@, categories: encoded(categories) }
}

/// Whether a case with the id `case_id` is fit to be created for the request:
/// the slot named for the case is free and is the one derived for that id,
/// the case has an encoding, and the caller holds its reserve.
pub open spec fn creation_is_due(
    pre: Map<Seq<u8>, SlotView>,
    program_id: Seq<u8>,
    rent: RentPolicy,
    request: ReportCaseRequest,
    name: Seq<char>,
    categories: Set<Category>,
    case_id: u64,
) -> bool {
    &&& pre[request.case@].is_empty()
    &&& derived_address(
        Namespace::Case,
        request.network@,
        spec_u64_to_le_bytes(case_id),
        program_id,
    ) matches Some(witness)
    &&& witness.0 == request.case@
    &&& case_layout(filed_case(request, name, categories)) matches Some(payload)
    &&& min_reserve(rent, payload.len() as usize) matches Some(reserve)
    &&& reserve <= pre[request.actor.identity@].lamports
}

/// Whether nothing but authorization stands between the request and a new
/// case: the network exists and has an id to give, and a case with that id is
/// fit to be created.
pub open spec fn can_create(
    pre: Map<Seq<u8>, SlotView>,
    program_id: Seq<u8>,
    rent: RentPolicy,
    request: ReportCaseRequest,
    name: Seq<char>,
    categories: Set<Category>,
) -> bool {
    &&& network_record(pre[request.network@].data) matches Some(network)
    &&& network.next_case_id < u64::MAX
    &&& creation_is_due(pre, program_id, rent, request, name, categories, network.next_case_id)
}

/// A signed request of an active reporter under its own reporter record
/// succeeds wherever a case can be created. The id issued is the network's
/// counter before the report, and the counter afterwards is that id plus one.
pub proof fn lemma_valid_report_succeeds(
    pre: Map<Seq<u8>, SlotView>,
    program_id: Seq<u8>,
    rent: RentPolicy,
    request: ReportCaseRequest,
    name: Seq<char>,
    categories: Set<Category>,
)
    requires
        request.actor.signed,
        reporter_matches(program_id, request),
        reporter_standing(pre[request.reporter@].data) matches Some(standing)
            && standing.permits_reporting(),
        can_create(pre, program_id, rent, request, name, categories),
    ensures
        report_case(pre, program_id, rent, request, name, categories) matches Ok(done) && {
            let before = network_record(pre[request.network@].data).unwrap();
            let after = network_record(done.0[request.network@].data);
            &&& done.1.case_id == before.next_case_id
            &&& after == next_network(before)
            &&& after.unwrap().next_case_id == before.next_case_id + 1
        },
{
    let before = network_record(pre[request.network@].data).unwrap();
    assert(before.authority.len() == 32);
    lemma_network_round_trip(next_network(before).unwrap());
}

/// Whatever else holds of a report that succeeds, the network had an id to
/// give, the id issued is its counter before the report, and the network
/// afterwards holds its record with the counter one higher.
pub proof fn lemma_success_issues_counter(
    pre: Map<Seq<u8>, SlotView>,
    program_id: Seq<u8>,
    rent: RentPolicy,
    request: ReportCaseRequest,
    name: Seq<char>,
    categories: Set<Category>,
)
    requires
        report_case(pre, program_id, rent, request, name, categories) is Ok,
    ensures
        ({
            let done = report_case(pre, program_id, rent, request, name, categories).unwrap();
            let before = network_record(pre[request.network@].data);
            let after = network_record(done.0[request.network@].data);
            &&& before is Some
            &&& before.unwrap().next_case_id < u64::MAX
            &&& done.1.case_id == before.unwrap().next_case_id
            &&& after == next_network(before.unwrap())
            &&& after.unwrap().next_case_id == before.unwrap().next_case_id + 1
        }),
{
    let before = network_record(pre[request.network@].data).unwrap();
    assert(before.authority.len() == 32);
    lemma_network_round_trip(next_network(before).unwrap());
}

/// A request that the caller did not sign fails with `SignatureMissing`,
/// whatever else it holds and whatever storage holds, and nothing is written.
pub proof fn lemma_unsigned_request_is_refused(
    pre: Map<Seq<u8>, SlotView>,
    program_id: Seq<u8>,
    rent: RentPolicy,
    request: ReportCaseRequest,
    name: Seq<char>,
    categories: Set<Category>,
)
    requires
        !request.actor.signed,
    ensures
        report_case(pre, program_id, rent, request, name, categories) == Err::<
            (Map<Seq<u8>, SlotView>, CaseReceipt),
            ReportError,
        >(ReportError::Auth(AuthError::SignatureMissing)),
        storage_after(pre, report_case(pre, program_id, rent, request, name, categories)) == pre,
{
}

/// A signed request under a reporter record that is not the one derived for
/// the caller fails with `RoleMismatch`, whatever the record, the network and
/// the slot of the case hold; storage, the network's counter with it, stays as
/// it was.
pub proof fn lemma_mismatched_reporter_is_refused(
    pre: Map<Seq<u8>, SlotView>,
    program_id: Seq<u8>,
    rent: RentPolicy,
    request: ReportCaseRequest,
    name: Seq<char>,
    categories: Set<Category>,
)
    requires
        request.actor.signed,
        !reporter_matches(program_id, request),
    ensures
        report_case(pre, program_id, rent, request, name, categories) == Err::<
            (Map<Seq<u8>, SlotView>, CaseReceipt),
            ReportError,
        >(ReportError::Auth(AuthError::RoleMismatch)),
        storage_after(pre, report_case(pre, program_id, rent, request, name, categories)) == pre,
{
}

/// A signed request under the caller's own reporter record, whose standing
/// does not permit reporting, fails with `RoleNotPermitted`, and no record is
/// created: storage stays as it was.
pub proof fn lemma_inactive_reporter_is_refused(
    pre: Map<Seq<u8>, SlotView>,
    program_id: Seq<u8>,
    rent: RentPolicy,
    request: ReportCaseRequest,
    name: Seq<char>,
    categories: Set<Category>,
)
    requires
        request.actor.signed,
        reporter_matches(program_id, request),
        reporter_record(pre[request.reporter@].data) matches Some(reporter)
            && !reporter.standing.permits_reporting(),
    ensures
        report_case(pre, program_id, rent, request, name, categories) == Err::<
            (Map<Seq<u8>, SlotView>, CaseReceipt),
            ReportError,
        >(ReportError::Auth(AuthError::RoleNotPermitted)),
        storage_after(pre, report_case(pre, program_id, rent, request, name, categories)) == pre,
{
}

/// An authorized request under a network, for a slot that already holds data
/// or a balance, fails with `SlotOccupied`, whatever the network's counter;
/// the slot, the network and the caller's balance stay as they were.
pub proof fn lemma_occupied_slot_is_refused(
    pre: Map<Seq<u8>, SlotView>,
    program_id: Seq<u8>,
    rent: RentPolicy,
    request: ReportCaseRequest,
    name: Seq<char>,
    categories: Set<Category>,
)
    requires
        is_authorized(pre, program_id, request),
        network_record(pre[request.network@].data) is Some,
        !pre[request.case@].is_empty(),
    ensures
        report_case(pre, program_id, rent, request, name, categories) == Err::<
            (Map<Seq<u8>, SlotView>, CaseReceipt),
            ReportError,
        >(ReportError::Create(CreateError::SlotOccupied)),
        storage_after(pre, report_case(pre, program_id, rent, request, name, categories)) == pre,
{
}

/// A request that succeeded fails when it is made again for the same slot,
/// under whatever name and categories: the slot is taken, the error is
/// `SlotOccupied`, and the case and the counter of the first report stay as
/// they are.
pub proof fn lemma_repeated_report_is_refused(
    pre: Map<Seq<u8>, SlotView>,
    program_id: Seq<u8>,
    rent: RentPolicy,
    request: ReportCaseRequest,
    name: Seq<char>,
    categories: Set<Category>,
    again_name: Seq<char>,
    again_categories: Set<Category>,
)
    requires
        report_case(pre, program_id, rent, request, name, categories) is Ok,
    ensures
        ({
            let post = report_case(pre, program_id, rent, request, name, categories).unwrap().0;
            let again = report_case(
                post,
                program_id,
                rent,
                request,
                again_name,
                again_categories,
            );
            &&& again == Err::<(Map<Seq<u8>, SlotView>, CaseReceipt), ReportError>(
                ReportError::Create(CreateError::SlotOccupied),
            )
            &&& storage_after(post, again) == post
        }),
{
    let post = report_case(pre, program_id, rent, request, name, categories).unwrap().0;
    let before = network_record(pre[request.network@].data).unwrap();
    let case = filed_case(request, name, categories);
    assert(before.authority.len() == 32);
    lemma_network_round_trip(next_network(before).unwrap());
    lemma_case_layout_len(case);
    // The reporter's record is neither the network nor the new case, so its
    // data is what it was; the network holds a network again; the slot of the
    // case now holds the case.
    assert(post[request.reporter@].data == pre[request.reporter@].data);
    assert(network_record(post[request.network@].data) is Some);
    assert(post[request.case@].data == case_layout(case).unwrap());
    lemma_occupied_slot_is_refused(
        post,
        program_id,
        rent,
        request,
        again_name,
        again_categories,
    );
}

/// A network whose counter stands at its last value issues no id: an
/// authorized request that nothing else refuses fails with
/// `CounterExhausted`, and storage stays as it was.
pub proof fn lemma_full_counter_is_refused(
    pre: Map<Seq<u8>, SlotView>,
    program_id: Seq<u8>,
    rent: RentPolicy,
    request: ReportCaseRequest,
    name: Seq<char>,
    categories: Set<Category>,
)
    requires
        is_authorized(pre, program_id, request),
        network_record(pre[request.network@].data) matches Some(network) && network.next_case_id
            == u64::MAX,
        creation_is_due(pre, program_id, rent, request, name, categories, u64::MAX),
    ensures
        report_case(pre, program_id, rent, request, name, categories) == Err::<
            (Map<Seq<u8>, SlotView>, CaseReceipt),
            ReportError,
        >(ReportError::Allocation(AllocationError::CounterExhausted)),
        storage_after(pre, report_case(pre, program_id, rent, request, name, categories)) == pre,
{
}

/// A report that succeeds changes three slots at most: that of the caller,
/// who pays, that of the network and that of the new case. Every other slot,
/// the cases filed before among them, is as it was.
pub proof fn lemma_report_leaves_other_slots(
    pre: Map<Seq<u8>, SlotView>,
    program_id: Seq<u8>,
    rent: RentPolicy,
    request: ReportCaseRequest,
    name: Seq<char>,
    categories: Set<Category>,
    other: Seq<u8>,
)
    requires
        report_case(pre, program_id, rent, request, name, categories) is Ok,
        other != request.actor.identity@,
        other != request.network@,
        other != request.case@,
    ensures
        report_case(pre, program_id, rent, request, name, categories).unwrap().0[other]
            == pre[other],
{
}

/// After a report that succeeds, the slot of the case holds the stored bytes
/// of the case filed, funded with the reserve of the receipt. Its presence
/// map has a flag for every category, and the categories that it asserts are
/// those of the request and no other.
pub proof fn lemma_report_stores_the_case(
    pre: Map<Seq<u8>, SlotView>,
    program_id: Seq<u8>,
    rent: RentPolicy,
    request: ReportCaseRequest,
    name: Seq<char>,
    categories: Set<Category>,
)
    requires
        report_case(pre, program_id, rent, request, name, categories) is Ok,
    ensures
        ({
            let done = report_case(pre, program_id, rent, request, name, categories).unwrap();
            let slot = done.0[request.case@];
            &&& Some(slot.data) == case_layout(filed_case(request, name, categories))
            &&& slot.lamports == done.1.lamports
            &&& stored_categories(slot.data) == encoded(categories)
            &&& decoded(stored_categories(slot.data)) == categories
        }),
{
    let case = filed_case(request, name, categories);
    lemma_case_layout_categories(case);
    lemma_decode_encode(categories);
    assert(Map::total(|c: Category| case.categories[c]) =~= encoded(categories));
}

/// A report depends on the categories by membership alone: two requests that
/// differ only in the order of their categories, or in how often one is
/// named, have the same outcome.
pub proof fn lemma_report_ignores_category_order(
    pre: Map<Seq<u8>, SlotView>,
    program_id: Seq<u8>,
    rent: RentPolicy,
    request: ReportCaseRequest,
    name: Seq<char>,
    first: Seq<Category>,
    second: Seq<Category>,
)
    requires
        forall|c: Category| first.contains(c) == second.contains(c),
    ensures
        report_case(pre, program_id, rent, request, name, first.to_set()) == report_case(
            pre,
            program_id,
            rent,
            request,
            name,
            second.to_set(),
        ),
{
    assert(first.to_set() =~= second.to_set());
}

} // verus!
