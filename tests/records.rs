use restaking_sdk::address::Address;
use restaking_sdk::error::RestakingError;
use restaking_sdk::records::{AdminRole, Config, Participant};

fn key(n: u8) -> Address {
    Address::new([n; 32])
}

#[test]
fn config_admin_transfer_needs_current_admin() {
    let mut c = Config { admin: key(1), vault_program: key(2), warmup_delay: 10, cooldown_delay: 5 };
    assert_eq!(c.set_admin(&key(3), &key(3)), Err(RestakingError::Unauthorized));
    assert_eq!(c.admin, key(1));
    c.set_admin(&key(1), &key(3)).unwrap();
    assert_eq!(c.admin, key(3));
}

#[test]
fn operator_fee_is_bounded() {
    assert_eq!(Participant::new(&key(1), 10001).unwrap_err(), RestakingError::ArithmeticOverflow);
    let mut p = Participant::new(&key(1), 10000).unwrap();
    assert_eq!(p.voter, key(1));
    assert_eq!(p.set_fee(&key(1), 10001), Err(RestakingError::ArithmeticOverflow));
    assert_eq!(p.fee_bps, 10000);
    assert_eq!(p.set_fee(&key(2), 5), Err(RestakingError::Unauthorized));
    p.set_fee(&key(1), 0).unwrap();
    assert_eq!(p.fee_bps, 0);
}

#[test]
fn secondary_roles_are_set_by_admin_only() {
    let mut p = Participant::new(&key(1), 0).unwrap();
    assert_eq!(p.set_secondary_admin(&key(2), &key(2), AdminRole::Voter), Err(RestakingError::Unauthorized));
    p.set_secondary_admin(&key(1), &key(4), AdminRole::Voter).unwrap();
    p.set_secondary_admin(&key(1), &key(5), AdminRole::DelegateAdmin).unwrap();
    assert_eq!(p.voter, key(4));
    assert_eq!(p.delegate_admin, key(5));
    p.set_admin(&key(1), &key(6)).unwrap();
    assert_eq!(p.set_admin(&key(1), &key(1)), Err(RestakingError::Unauthorized));
    assert_eq!(p.admin, key(6));
}
