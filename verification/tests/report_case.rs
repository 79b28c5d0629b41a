use hapi_core::address::{derive_address, Address, Namespace};
use hapi_core::auth::Actor;
use hapi_core::category::Category;
use hapi_core::error::{AllocationError, AuthError, CreateError, ReportError};
use hapi_core::processor::{process_report_case, ReportCaseRequest};
use hapi_core::rent::RentPolicy;
use hapi_core::state::Network;
use hapi_core::storage::{Slot, Storage};
use hapi_core::category::CategoryMap;
use std::collections::{BTreeMap, BTreeSet};

fn program_id() -> Address {
    Address::new([7u8; 32])
}

fn rent() -> RentPolicy {
    RentPolicy {
        lamports_per_byte: 6960,
        exemption_threshold: [0, 0, 0, 0, 0, 0, 240, 63],
        burn_percent: 50,
    }
}

struct World {
    storage: Storage,
    reporter_key: Address,
    network: Address,
    reporter: Address,
}

fn reporter_bytes(key: &Address, standing: u8) -> Vec<u8> {
    let mut data = vec![2u8];
    data.extend_from_slice(&key.bytes);
    data.push(standing);
    data
}

fn world(counter: u64, standing: u8, funds: u64) -> World {
    let reporter_key = Address::new([1u8; 32]);
    let network = Address::new([2u8; 32]);
    let reporter = derive_address(Namespace::Reporter, &network, &reporter_key.bytes, &program_id())
        .unwrap()
        .address;
    let mut storage = Storage::new();
    let record = Network { authority: Address::new([9u8; 32]), next_case_id: counter };
    storage.write(&network, Slot { lamports: 1_000, data: record.encode() });
    storage.write(&reporter, Slot { lamports: 1_000, data: reporter_bytes(&reporter_key, standing) });
    storage.write(&reporter_key, Slot { lamports: funds, data: Vec::new() });
    World { storage, reporter_key, network, reporter }
}

fn case_address(world: &World, case_id: u64) -> Address {
    derive_address(Namespace::Case, &world.network, &case_id.to_le_bytes(), &program_id())
        .unwrap()
        .address
}

fn request(world: &World, case: Address) -> ReportCaseRequest {
    ReportCaseRequest {
        actor: Actor { identity: world.reporter_key, signed: true },
        network: world.network,
        reporter: world.reporter,
        case,
    }
}

fn counter(world: &World) -> u64 {
    Network::decode(&world.storage.read(&world.network).data).unwrap().next_case_id
}

type StoredCase = (u8, String, [u8; 32], BTreeMap<u8, bool>);

fn stored_case(world: &World, address: &Address) -> StoredCase {
    borsh::from_slice::<StoredCase>(&world.storage.read(address).data).unwrap()
}

#[test]
fn two_reports_take_consecutive_ids() {
    let mut w = world(0, 1, 10_000_000);
    let first = case_address(&w, 0);
    let req = request(&w, first);
    let receipt = process_report_case(
        &program_id(),
        &mut w.storage,
        &rent(),
        &req,
        "Exchange123",
        &[Category::MiningPool, Category::Safe],
    )
    .unwrap();
    assert_eq!(receipt.case_id, 0);
    assert_eq!(counter(&w), 1);
    let (tag, name, key, categories) = stored_case(&w, &first);
    assert_eq!(tag, 3);
    assert_eq!(name, "Exchange123");
    assert_eq!(key, w.reporter_key.bytes);
    assert_eq!(categories.len(), 20);
    for (ordinal, flag) in categories.iter() {
        assert_eq!(*flag, *ordinal == 0 || *ordinal == 3);
    }
    let first_slot = w.storage.read(&first);

    let second = case_address(&w, 1);
    let req = request(&w, second);
    let receipt = process_report_case(
        &program_id(),
        &mut w.storage,
        &rent(),
        &req,
        "Exchange123",
        &[Category::Sanctions],
    )
    .unwrap();
    assert_eq!(receipt.case_id, 1);
    assert_eq!(counter(&w), 2);
    assert_eq!(w.storage.read(&first), first_slot);
    let (_, _, _, categories) = stored_case(&w, &second);
    for (ordinal, flag) in categories.iter() {
        assert_eq!(*flag, *ordinal == 18);
    }
}

#[test]
fn unsigned_request_is_refused() {
    let mut w = world(0, 1, 10_000_000);
    let mut req = request(&w, case_address(&w, 0));
    req.actor.signed = false;
    let result = process_report_case(&program_id(), &mut w.storage, &rent(), &req, "x", &[]);
    assert_eq!(result, Err(ReportError::Auth(AuthError::SignatureMissing)));
    assert_eq!(counter(&w), 0);
}

#[test]
fn missing_network_is_refused() {
    let mut w = world(0, 1, 10_000_000);
    let network = w.network;
    w.storage.write(&network, Slot { lamports: 0, data: Vec::new() });
    let req = request(&w, case_address(&w, 0));
    let result = process_report_case(&program_id(), &mut w.storage, &rent(), &req, "x", &[]);
    assert_eq!(result, Err(ReportError::Allocation(AllocationError::ParentNotFound)));
}

#[test]
fn wrong_target_is_refused() {
    let mut w = world(0, 1, 10_000_000);
    let req = request(&w, case_address(&w, 5));
    let result = process_report_case(&program_id(), &mut w.storage, &rent(), &req, "x", &[]);
    assert_eq!(result, Err(ReportError::Create(CreateError::AddressMismatch)));
    assert_eq!(counter(&w), 0);
}

#[test]
fn test_case_reported() {
    let mut w = world(0, 1, 10_000_000);
    let address = case_address(&w, 0);
    let req = request(&w, address);
    let category_set: BTreeSet<Category> =
        vec![Category::MiningPool, Category::Safe].iter().cloned().collect();
    let categories: Vec<Category> = category_set.iter().cloned().collect();
    process_report_case(&program_id(), &mut w.storage, &rent(), &req, "Exchange123", &categories)
        .unwrap();

    let (_, _, _, stored) = stored_case(&w, &address);
    let mut actual_category_set: BTreeSet<Category> = BTreeSet::new();
    for (ordinal, is_present) in stored.iter() {
        if *is_present {
            actual_category_set.insert(Category::from_ordinal(*ordinal).unwrap());
        }
    }

    assert_eq!(24, std::mem::size_of_val(&actual_category_set));
    assert_eq!(actual_category_set, category_set);
}

#[test]
fn issued_id_is_the_counter_before_the_report() {
    for start in [0u64, 1, 41, u64::MAX - 1] {
        let mut w = world(start, 1, 10_000_000);
        let req = request(&w, case_address(&w, start));
        let receipt =
            process_report_case(&program_id(), &mut w.storage, &rent(), &req, "n", &[]).unwrap();
        assert_eq!(receipt.case_id, start);
        assert_eq!(counter(&w), start + 1);
    }
}

#[test]
fn caller_pays_the_reserve_of_the_case() {
    let mut w = world(0, 1, 10_000_000);
    let address = case_address(&w, 0);
    let req = request(&w, address);
    let receipt =
        process_report_case(&program_id(), &mut w.storage, &rent(), &req, "Exchange123", &[])
            .unwrap();
    assert_eq!(receipt.lamports, 1_531_200);
    assert_eq!(w.storage.read(&address).lamports, 1_531_200);
    assert_eq!(w.storage.read(&address).data.len(), 92);
    assert_eq!(w.storage.read(&w.reporter_key), Slot { lamports: 8_468_800, data: vec![] });
    assert_eq!(w.storage.read(&w.network).lamports, 1_000);
    let witness =
        derive_address(Namespace::Case, &w.network, &0u64.to_le_bytes(), &program_id()).unwrap();
    assert_eq!(receipt.bump, witness.bump);
}

#[test]
fn stored_case_names_its_reporter_and_categories() {
    let mut w = world(7, 1, 10_000_000);
    let address = case_address(&w, 7);
    let req = request(&w, address);
    process_report_case(
        &program_id(),
        &mut w.storage,
        &rent(),
        &req,
        "Mixer9",
        &[Category::Mixer, Category::Scam, Category::Mixer],
    )
    .unwrap();
    let (tag, name, key, categories) = stored_case(&w, &address);
    assert_eq!((tag, name.as_str(), key), (3, "Mixer9", w.reporter_key.bytes));
    let flags: Vec<bool> = categories.values().copied().collect();
    assert_eq!(flags, CategoryMap::encode(&[Category::Scam, Category::Mixer]).flags.to_vec());
}

#[test]
fn another_callers_reporter_record_is_a_mismatch() {
    let mut w = world(3, 1, 10_000_000);
    let intruder = Address::new([6u8; 32]);
    w.storage.write(&intruder, Slot { lamports: 10_000_000, data: vec![] });
    let mut req = request(&w, case_address(&w, 3));
    req.actor.identity = intruder;
    let network_before = w.storage.read(&w.network);
    let result = process_report_case(&program_id(), &mut w.storage, &rent(), &req, "x", &[]);
    assert_eq!(result, Err(ReportError::Auth(AuthError::RoleMismatch)));
    assert_eq!(counter(&w), 3);
    assert_eq!(w.storage.read(&w.network), network_before);
    assert_eq!(w.storage.read(&req.case), Slot::empty());
    assert_eq!(w.storage.read(&intruder).lamports, 10_000_000);
}

#[test]
fn reporter_record_of_another_network_is_a_mismatch() {
    let mut w = world(0, 1, 10_000_000);
    let other_network = Address::new([5u8; 32]);
    let record = Network { authority: Address::new([9u8; 32]), next_case_id: 0 };
    w.storage.write(&other_network, Slot { lamports: 1_000, data: record.encode() });
    let case =
        derive_address(Namespace::Case, &other_network, &0u64.to_le_bytes(), &program_id())
            .unwrap()
            .address;
    let mut req = request(&w, case);
    req.network = other_network;
    let result = process_report_case(&program_id(), &mut w.storage, &rent(), &req, "x", &[]);
    assert_eq!(result, Err(ReportError::Auth(AuthError::RoleMismatch)));
}

#[test]
fn reporter_that_is_not_active_creates_nothing() {
    for standing in [0u8, 2] {
        let mut w = world(0, standing, 10_000_000);
        let req = request(&w, case_address(&w, 0));
        let result = process_report_case(&program_id(), &mut w.storage, &rent(), &req, "x", &[]);
        assert_eq!(result, Err(ReportError::Auth(AuthError::RoleNotPermitted)));
        assert_eq!(w.storage.read(&req.case), Slot::empty());
        assert_eq!(counter(&w), 0);
        assert_eq!(w.storage.read(&w.reporter_key).lamports, 10_000_000);
    }
}

#[test]
fn slot_without_a_reporter_record_permits_nothing() {
    for data in [vec![], reporter_bytes(&Address::new([1u8; 32]), 3), vec![2u8; 33]] {
        let mut w = world(0, 1, 10_000_000);
        let reporter = w.reporter;
        w.storage.write(&reporter, Slot { lamports: 1_000, data });
        let req = request(&w, case_address(&w, 0));
        let result = process_report_case(&program_id(), &mut w.storage, &rent(), &req, "x", &[]);
        assert_eq!(result, Err(ReportError::Auth(AuthError::RoleNotPermitted)));
    }
}

#[test]
fn repeated_report_finds_the_slot_occupied() {
    let mut w = world(0, 1, 10_000_000);
    let address = case_address(&w, 0);
    let req = request(&w, address);
    process_report_case(
        &program_id(),
        &mut w.storage,
        &rent(),
        &req,
        "Exchange123",
        &[Category::Safe],
    )
    .unwrap();
    let case_before = w.storage.read(&address);
    let network_before = w.storage.read(&w.network);
    let payer_before = w.storage.read(&w.reporter_key);
    for (name, categories) in [("Exchange123", vec![Category::Safe]), ("other", vec![])] {
        let again =
            process_report_case(&program_id(), &mut w.storage, &rent(), &req, name, &categories);
        assert_eq!(again, Err(ReportError::Create(CreateError::SlotOccupied)));
        assert_eq!(w.storage.read(&address), case_before);
        assert_eq!(w.storage.read(&w.network), network_before);
        assert_eq!(w.storage.read(&w.reporter_key), payer_before);
        assert_eq!(counter(&w), 1);
    }
}

#[test]
fn caller_without_the_reserve_is_refused() {
    let mut w = world(0, 1, 1_531_199);
    let req = request(&w, case_address(&w, 0));
    let result =
        process_report_case(&program_id(), &mut w.storage, &rent(), &req, "Exchange123", &[]);
    assert_eq!(result, Err(ReportError::Create(CreateError::InsufficientFunding)));
    assert_eq!(counter(&w), 0);
    assert_eq!(w.storage.read(&req.case), Slot::empty());
    assert_eq!(w.storage.read(&w.reporter_key).lamports, 1_531_199);

    let mut w = world(0, 1, 1_531_200);
    let req = request(&w, case_address(&w, 0));
    let result =
        process_report_case(&program_id(), &mut w.storage, &rent(), &req, "Exchange123", &[]);
    assert!(result.is_ok());
    assert_eq!(w.storage.read(&w.reporter_key).lamports, 0);
}

#[test]
fn name_too_long_for_a_slot_is_refused() {
    let mut w = world(0, 1, u64::MAX);
    let req = request(&w, case_address(&w, 0));
    let fits = "a".repeat(10_485_760 - 81);
    let name = "a".repeat(10_485_760 - 80);
    let result = process_report_case(&program_id(), &mut w.storage, &rent(), &req, &name, &[]);
    assert_eq!(result, Err(ReportError::Create(CreateError::InsufficientFunding)));
    assert_eq!(counter(&w), 0);
    let result = process_report_case(&program_id(), &mut w.storage, &rent(), &req, &fits, &[]);
    assert!(result.is_ok());
}

#[test]
fn errors_come_in_the_order_of_the_steps() {
    let mut w = world(0, 0, 0);
    let network = w.network;
    w.storage.write(&network, Slot::empty());
    let occupied = Address::new([8u8; 32]);
    w.storage.write(&occupied, Slot { lamports: 1, data: vec![] });
    let mut req = request(&w, occupied);
    let reporter = w.reporter;

    req.actor.signed = false;
    req.reporter = Address::new([0u8; 32]);
    let result = process_report_case(&program_id(), &mut w.storage, &rent(), &req, "x", &[]);
    assert_eq!(result, Err(ReportError::Auth(AuthError::SignatureMissing)));

    req.actor.signed = true;
    let result = process_report_case(&program_id(), &mut w.storage, &rent(), &req, "x", &[]);
    assert_eq!(result, Err(ReportError::Auth(AuthError::RoleMismatch)));

    req.reporter = reporter;
    let result = process_report_case(&program_id(), &mut w.storage, &rent(), &req, "x", &[]);
    assert_eq!(result, Err(ReportError::Auth(AuthError::RoleNotPermitted)));

    let key = w.reporter_key;
    w.storage.write(&reporter, Slot { lamports: 1_000, data: reporter_bytes(&key, 1) });
    let result = process_report_case(&program_id(), &mut w.storage, &rent(), &req, "x", &[]);
    assert_eq!(result, Err(ReportError::Allocation(AllocationError::ParentNotFound)));

    let record = Network { authority: Address::new([9u8; 32]), next_case_id: 0 };
    w.storage.write(&network, Slot { lamports: 1_000, data: record.encode() });
    let result = process_report_case(&program_id(), &mut w.storage, &rent(), &req, "x", &[]);
    assert_eq!(result, Err(ReportError::Create(CreateError::SlotOccupied)));

    w.storage.write(&occupied, Slot::empty());
    let result = process_report_case(&program_id(), &mut w.storage, &rent(), &req, "x", &[]);
    assert_eq!(result, Err(ReportError::Create(CreateError::AddressMismatch)));

    req.case = case_address(&w, 0);
    let result = process_report_case(&program_id(), &mut w.storage, &rent(), &req, "x", &[]);
    assert_eq!(result, Err(ReportError::Create(CreateError::InsufficientFunding)));
    assert_eq!(counter(&w), 0);
}

#[test]
fn slot_that_holds_no_network_is_no_parent() {
    for data in [vec![1u8; 40], vec![2u8; 41], vec![1u8; 42]] {
        let mut w = world(0, 1, 10_000_000);
        let network = w.network;
        w.storage.write(&network, Slot { lamports: 1_000, data: data.clone() });
        let reporter =
            derive_address(Namespace::Reporter, &network, &w.reporter_key.bytes, &program_id())
                .unwrap()
                .address;
        assert_eq!(reporter, w.reporter);
        let req = request(&w, case_address(&w, 0));
        let result = process_report_case(&program_id(), &mut w.storage, &rent(), &req, "x", &[]);
        assert_eq!(result, Err(ReportError::Allocation(AllocationError::ParentNotFound)));
        assert_eq!(w.storage.read(&network).data, data);
    }
}

#[test]
fn network_that_pays_for_the_case_keeps_its_balance_right() {
    let mut w = world(0, 1, 0);
    let network = w.network;
    let reporter =
        derive_address(Namespace::Reporter, &network, &network.bytes, &program_id()).unwrap();
    w.storage.write(
        &reporter.address,
        Slot { lamports: 1_000, data: reporter_bytes(&network, 1) },
    );
    let record = Network { authority: Address::new([9u8; 32]), next_case_id: 4 };
    w.storage.write(&network, Slot { lamports: 2_000_000, data: record.encode() });
    let req = ReportCaseRequest {
        actor: Actor { identity: network, signed: true },
        network,
        reporter: reporter.address,
        case: case_address(&w, 4),
    };
    let receipt =
        process_report_case(&program_id(), &mut w.storage, &rent(), &req, "Exchange123", &[])
            .unwrap();
    assert_eq!(receipt.case_id, 4);
    assert_eq!(counter(&w), 5);
    assert_eq!(w.storage.read(&network).lamports, 2_000_000 - 1_531_200);
}

#[test]
fn refusals_do_not_depend_on_the_counter() {
    let mut w = world(u64::MAX, 1, 10_000_000);
    let mut req = request(&w, case_address(&w, u64::MAX));
    req.actor.signed = false;
    let result = process_report_case(&program_id(), &mut w.storage, &rent(), &req, "x", &[]);
    assert_eq!(result, Err(ReportError::Auth(AuthError::SignatureMissing)));
    assert_eq!(counter(&w), u64::MAX);

    let mut req = request(&w, case_address(&w, u64::MAX));
    req.reporter = Address::new([0u8; 32]);
    let result = process_report_case(&program_id(), &mut w.storage, &rent(), &req, "x", &[]);
    assert_eq!(result, Err(ReportError::Auth(AuthError::RoleMismatch)));
    assert_eq!(counter(&w), u64::MAX);
    assert_eq!(w.storage.read(&req.case), Slot::empty());
    assert_eq!(w.storage.read(&w.reporter_key).lamports, 10_000_000);

    for standing in [0u8, 2] {
        let mut w = world(u64::MAX, standing, 10_000_000);
        let req = request(&w, case_address(&w, u64::MAX));
        let result = process_report_case(&program_id(), &mut w.storage, &rent(), &req, "x", &[]);
        assert_eq!(result, Err(ReportError::Auth(AuthError::RoleNotPermitted)));
        assert_eq!(counter(&w), u64::MAX);
        assert_eq!(w.storage.read(&req.case), Slot::empty());
    }
}

#[test]
fn creation_errors_come_before_the_full_counter() {
    let mut w = world(u64::MAX, 1, 10);
    let occupied = case_address(&w, u64::MAX);
    w.storage.write(&occupied, Slot { lamports: 1, data: vec![] });
    let req = request(&w, occupied);
    let result = process_report_case(&program_id(), &mut w.storage, &rent(), &req, "x", &[]);
    assert_eq!(result, Err(ReportError::Create(CreateError::SlotOccupied)));
    assert_eq!(w.storage.read(&occupied), Slot { lamports: 1, data: vec![] });

    let req = request(&w, case_address(&w, 0));
    let result = process_report_case(&program_id(), &mut w.storage, &rent(), &req, "x", &[]);
    assert_eq!(result, Err(ReportError::Create(CreateError::AddressMismatch)));

    w.storage.write(&occupied, Slot::empty());
    let req = request(&w, occupied);
    let result = process_report_case(&program_id(), &mut w.storage, &rent(), &req, "x", &[]);
    assert_eq!(result, Err(ReportError::Create(CreateError::InsufficientFunding)));
    assert_eq!(counter(&w), u64::MAX);
}

#[test]
fn full_counter_issues_no_id() {
    let mut w = world(u64::MAX, 1, 10_000_000);
    let address = case_address(&w, u64::MAX);
    let req = request(&w, address);
    let network_before = w.storage.read(&w.network);
    let result =
        process_report_case(&program_id(), &mut w.storage, &rent(), &req, "Exchange123", &[]);
    assert_eq!(result, Err(ReportError::Allocation(AllocationError::CounterExhausted)));
    assert_eq!(w.storage.read(&w.network), network_before);
    assert_eq!(counter(&w), u64::MAX);
    assert_eq!(w.storage.read(&address), Slot::empty());
    assert_eq!(w.storage.read(&w.reporter_key).lamports, 10_000_000);
}

#[test]
fn last_id_is_issued_once() {
    let mut w = world(u64::MAX - 1, 1, 10_000_000);
    let req = request(&w, case_address(&w, u64::MAX - 1));
    let receipt =
        process_report_case(&program_id(), &mut w.storage, &rent(), &req, "x", &[]).unwrap();
    assert_eq!(receipt.case_id, u64::MAX - 1);
    assert_eq!(counter(&w), u64::MAX);
    let req = request(&w, case_address(&w, u64::MAX));
    let result = process_report_case(&program_id(), &mut w.storage, &rent(), &req, "x", &[]);
    assert_eq!(result, Err(ReportError::Allocation(AllocationError::CounterExhausted)));
}

#[test]
fn order_and_repeats_of_categories_do_not_change_the_case() {
    let mut first = world(0, 1, 10_000_000);
    let mut second = world(0, 1, 10_000_000);
    let address = case_address(&first, 0);
    let req = request(&first, address);
    let one = process_report_case(
        &program_id(),
        &mut first.storage,
        &rent(),
        &req,
        "n",
        &[Category::Scam, Category::ATM],
    );
    let other = process_report_case(
        &program_id(),
        &mut second.storage,
        &rent(),
        &req,
        "n",
        &[Category::ATM, Category::Scam, Category::ATM],
    );
    assert_eq!(one, other);
    assert!(one.is_ok());
    assert_eq!(first.storage.read(&address), second.storage.read(&address));
}
