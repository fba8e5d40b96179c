use endpoint_mock::address::Address;
use endpoint_mock::registry::{RegisterError, RegisterOAppParams, Registry};

fn addr(byte: u8) -> Address {
    Address::from_bytes(vec![byte; 32]).expect("32 bytes make an address")
}

fn target_for(oapp: &Address, program: &Address) -> Address {
    oapp.derive_record_address(program)
        .expect("a record address is derivable for this OApp")
}

#[test]
fn address_from_bytes_checks_length() {
    assert!(Address::from_bytes(vec![7u8; 31]).is_none());
    assert!(Address::from_bytes(vec![7u8; 33]).is_none());
    assert!(Address::from_bytes(vec![]).is_none());
    let a = Address::from_bytes(vec![7u8; 32]).expect("32 bytes make an address");
    assert_eq!(a.as_bytes(), &vec![7u8; 32]);
}

#[test]
fn derivation_is_deterministic() {
    let program = addr(1);
    let oapp = addr(2);
    let first = target_for(&oapp, &program);
    let second = target_for(&oapp, &program);
    assert_eq!(first.as_bytes(), second.as_bytes());
    assert!(first.addr_eq(&second));
}

#[test]
fn derivation_transforms_its_inputs() {
    let program = addr(1);
    let oapp = addr(2);
    let derived = target_for(&oapp, &program);
    assert_ne!(derived.as_bytes(), oapp.as_bytes());
    assert_ne!(derived.as_bytes(), program.as_bytes());
}

#[test]
fn derivation_separates_oapps_and_programs() {
    let program = addr(1);
    let other_program = addr(9);
    let oapp_a = addr(2);
    let oapp_b = addr(3);
    let slot_a = target_for(&oapp_a, &program);
    let slot_b = target_for(&oapp_b, &program);
    let slot_a_other = target_for(&oapp_a, &other_program);
    assert_ne!(slot_a.as_bytes(), slot_b.as_bytes());
    assert_ne!(slot_a.as_bytes(), slot_a_other.as_bytes());
}

#[test]
fn successful_registration_populates_the_record() {
    let program = addr(1);
    let oapp = addr(2);
    let delegate = addr(3);
    let mut registry = Registry::new(program.dup(), 100);
    let target = target_for(&oapp, &program);
    let mut balance: u64 = 250;

    let result = registry.register_oapp(
        &oapp,
        &RegisterOAppParams { delegate: delegate.dup() },
        &target,
        &mut balance,
    );

    assert_eq!(result, Ok(()));
    assert_eq!(balance, 150);
    let record = registry.lookup(&target).expect("the record exists after registration");
    assert_eq!(record.oapp_address.as_bytes(), oapp.as_bytes());
    assert_eq!(record.admin.as_bytes(), delegate.as_bytes());
}

#[test]
fn second_registration_fails_and_keeps_the_record() {
    let program = addr(1);
    let oapp = addr(2);
    let first_delegate = addr(3);
    let second_delegate = addr(4);
    let mut registry = Registry::new(program.dup(), 100);
    let target = target_for(&oapp, &program);
    let mut balance: u64 = 1000;

    let first = registry.register_oapp(
        &oapp,
        &RegisterOAppParams { delegate: first_delegate.dup() },
        &target,
        &mut balance,
    );
    assert_eq!(first, Ok(()));
    assert_eq!(balance, 900);

    let second = registry.register_oapp(
        &oapp,
        &RegisterOAppParams { delegate: second_delegate.dup() },
        &target,
        &mut balance,
    );
    assert_eq!(second, Err(RegisterError::AlreadyRegistered));
    assert_eq!(balance, 900);
    let record = registry.lookup(&target).expect("the original record is still there");
    assert_eq!(record.oapp_address.as_bytes(), oapp.as_bytes());
    assert_eq!(record.admin.as_bytes(), first_delegate.as_bytes());
}

#[test]
fn mismatched_target_is_rejected() {
    let program = addr(1);
    let oapp = addr(2);
    let other_oapp = addr(5);
    let delegate = addr(3);
    let mut registry = Registry::new(program.dup(), 100);
    let foreign_target = target_for(&other_oapp, &program);
    let mut balance: u64 = 250;

    let result = registry.register_oapp(
        &oapp,
        &RegisterOAppParams { delegate: delegate.dup() },
        &foreign_target,
        &mut balance,
    );

    assert_eq!(result, Err(RegisterError::AddressMismatch));
    assert_eq!(balance, 250);
    assert!(registry.lookup(&foreign_target).is_none());
    let own_target = target_for(&oapp, &program);
    assert!(registry.lookup(&own_target).is_none());
}

#[test]
fn arbitrary_target_is_rejected() {
    let program = addr(1);
    let oapp = addr(2);
    let delegate = addr(3);
    let mut registry = Registry::new(program.dup(), 100);
    let bogus_target = addr(6);
    let mut balance: u64 = 250;

    let result = registry.register_oapp(
        &oapp,
        &RegisterOAppParams { delegate },
        &bogus_target,
        &mut balance,
    );

    assert_eq!(result, Err(RegisterError::AddressMismatch));
    assert_eq!(balance, 250);
    assert!(registry.lookup(&bogus_target).is_none());
}

#[test]
fn insufficient_funds_leave_no_record() {
    let program = addr(1);
    let oapp = addr(2);
    let delegate = addr(3);
    let mut registry = Registry::new(program.dup(), 100);
    let target = target_for(&oapp, &program);
    let mut balance: u64 = 99;

    let result = registry.register_oapp(
        &oapp,
        &RegisterOAppParams { delegate },
        &target,
        &mut balance,
    );

    assert_eq!(result, Err(RegisterError::InsufficientFunds));
    assert_eq!(balance, 99);
    assert!(registry.lookup(&target).is_none());
}

#[test]
fn distinct_oapps_register_independently() {
    let program = addr(1);
    let oapp_a = addr(2);
    let oapp_b = addr(3);
    let delegate_a = addr(4);
    let delegate_b = addr(5);
    let mut registry = Registry::new(program.dup(), 100);
    let target_a = target_for(&oapp_a, &program);
    let target_b = target_for(&oapp_b, &program);
    let mut balance: u64 = 1000;

    let first = registry.register_oapp(
        &oapp_a,
        &RegisterOAppParams { delegate: delegate_a.dup() },
        &target_a,
        &mut balance,
    );
    let second = registry.register_oapp(
        &oapp_b,
        &RegisterOAppParams { delegate: delegate_b.dup() },
        &target_b,
        &mut balance,
    );

    assert_eq!(first, Ok(()));
    assert_eq!(second, Ok(()));
    assert_eq!(balance, 800);
    let record_a = registry.lookup(&target_a).expect("the first record exists");
    assert_eq!(record_a.oapp_address.as_bytes(), oapp_a.as_bytes());
    assert_eq!(record_a.admin.as_bytes(), delegate_a.as_bytes());
    let record_b = registry.lookup(&target_b).expect("the second record exists");
    assert_eq!(record_b.oapp_address.as_bytes(), oapp_b.as_bytes());
    assert_eq!(record_b.admin.as_bytes(), delegate_b.as_bytes());
}

#[test]
fn full_scenario_first_wins_then_independent() {
    let program = addr(1);
    let oapp_a = addr(2);
    let oapp_b = addr(3);
    let delegate_one = addr(11);
    let delegate_two = addr(12);
    let delegate_three = addr(13);
    let mut registry = Registry::new(program.dup(), 10);
    let target_a = target_for(&oapp_a, &program);
    let target_b = target_for(&oapp_b, &program);
    let mut balance: u64 = 100;

    let first = registry.register_oapp(
        &oapp_a,
        &RegisterOAppParams { delegate: delegate_one.dup() },
        &target_a,
        &mut balance,
    );
    assert_eq!(first, Ok(()));
    let record_a = registry.lookup(&target_a).expect("record A exists");
    assert_eq!(record_a.oapp_address.as_bytes(), oapp_a.as_bytes());
    assert_eq!(record_a.admin.as_bytes(), delegate_one.as_bytes());

    let again = registry.register_oapp(
        &oapp_a,
        &RegisterOAppParams { delegate: delegate_two.dup() },
        &target_a,
        &mut balance,
    );
    assert_eq!(again, Err(RegisterError::AlreadyRegistered));
    let record_a = registry.lookup(&target_a).expect("record A is unchanged");
    assert_eq!(record_a.admin.as_bytes(), delegate_one.as_bytes());

    let other = registry.register_oapp(
        &oapp_b,
        &RegisterOAppParams { delegate: delegate_three.dup() },
        &target_b,
        &mut balance,
    );
    assert_eq!(other, Ok(()));
    let record_b = registry.lookup(&target_b).expect("record B exists");
    assert_eq!(record_b.oapp_address.as_bytes(), oapp_b.as_bytes());
    assert_eq!(record_b.admin.as_bytes(), delegate_three.as_bytes());
    let record_a = registry.lookup(&target_a).expect("record A is independent of record B");
    assert_eq!(record_a.admin.as_bytes(), delegate_one.as_bytes());
}
