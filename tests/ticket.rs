use restaking_sdk::address::Address;
use restaking_sdk::error::RestakingError;
use restaking_sdk::ticket::{Ticket, TicketStatus};

fn admin() -> Address {
    Address::new([7u8; 32])
}

#[test]
fn warmup_and_cooldown_example() {
    let mut t = Ticket::new(100);
    assert_eq!(t.status(105, 10, 5), TicketStatus::WarmingUp);
    assert_eq!(t.status(110, 10, 5), TicketStatus::Active);
    t.cooldown(&admin(), &admin(), 200, 10, 5).unwrap();
    assert_eq!(t.slot_removed, Some(200));
    assert_eq!(t.status(204, 10, 5), TicketStatus::CoolingDown);
    assert_eq!(t.status(205, 10, 5), TicketStatus::Inactive);
}

#[test]
fn active_stays_active_and_inactive_stays_inactive() {
    let mut t = Ticket::new(0);
    for slot in [10u64, 11, 500, u64::MAX] {
        assert_eq!(t.status(slot, 10, 5), TicketStatus::Active);
    }
    t.cooldown(&admin(), &admin(), 600, 10, 5).unwrap();
    for slot in [605u64, 606, 10_000, u64::MAX] {
        assert_eq!(t.status(slot, 10, 5), TicketStatus::Inactive);
        assert_eq!(t.cooldown(&admin(), &admin(), slot, 10, 5), Err(RestakingError::TicketNotActive));
    }
}

#[test]
fn cooldown_by_stranger_is_unauthorized() {
    let mut t = Ticket::new(100);
    let stranger = Address::new([8u8; 32]);
    assert_eq!(t.cooldown(&stranger, &admin(), 200, 10, 5), Err(RestakingError::Unauthorized));
    assert_eq!(t.slot_removed, None);
}

#[test]
fn cooldown_while_warming_up_fails() {
    let mut t = Ticket::new(100);
    assert_eq!(t.cooldown(&admin(), &admin(), 105, 10, 5), Err(RestakingError::TicketNotActive));
    assert_eq!(t, Ticket::new(100));
}

#[test]
fn warmup_is_refused_while_cooling_down() {
    let mut t = Ticket::new(100);
    assert_eq!(t.warmup(&admin(), &admin(), 105, 10, 5), Ok(()));
    assert_eq!(t.warmup(&admin(), &admin(), 150, 10, 5), Ok(()));
    t.cooldown(&admin(), &admin(), 200, 10, 5).unwrap();
    assert_eq!(t.warmup(&admin(), &admin(), 201, 10, 5), Err(RestakingError::TicketCoolingDown));
    assert_eq!(t.warmup(&admin(), &admin(), 300, 10, 5), Err(RestakingError::TicketNotActive));
    assert_eq!(t.slot_removed, Some(200));
}

#[test]
fn delays_near_the_end_of_time_do_not_wrap() {
    let t = Ticket::new(u64::MAX - 3);
    assert_eq!(t.status(u64::MAX, 10, 5), TicketStatus::WarmingUp);
    assert_eq!(t.status(u64::MAX, 3, 5), TicketStatus::Active);
    let zero = Ticket::new(50);
    assert_eq!(zero.status(50, 0, 0), TicketStatus::Active);
}
