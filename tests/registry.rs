use restaking_sdk::address::Address;
use restaking_sdk::error::RestakingError;
use restaking_sdk::registry::RegistryList;
use restaking_sdk::ticket::{Ticket, TicketStatus};

const WARMUP: u64 = 10;
const COOLDOWN: u64 = 5;

fn key(n: u8) -> Address {
    Address::new([n; 32])
}

fn admin() -> Address {
    key(200)
}

fn add(list: &mut RegistryList, who: u8, slot: u64) -> Result<(), RestakingError> {
    list.add(&key(who), &admin(), &admin(), slot, 0, WARMUP, COOLDOWN)
}

fn remove(list: &mut RegistryList, who: u8, slot: u64) -> Result<(), RestakingError> {
    list.remove(&key(who), &admin(), &admin(), slot, WARMUP, COOLDOWN)
}

#[test]
fn add_remove_add_before_cooldown_is_duplicate() {
    let mut list = RegistryList::new(8);
    add(&mut list, 1, 100).unwrap();
    remove(&mut list, 1, 200).unwrap();
    assert_eq!(add(&mut list, 1, 204), Err(RestakingError::DuplicateEntry));
    assert_eq!(add(&mut list, 1, 200), Err(RestakingError::DuplicateEntry));
    assert_eq!(list.len(), 1);
}

#[test]
fn add_remove_add_after_cooldown_reinitializes() {
    let mut list = RegistryList::new(8);
    add(&mut list, 1, 100).unwrap();
    remove(&mut list, 1, 200).unwrap();
    add(&mut list, 1, 205).unwrap();
    assert_eq!(list.len(), 1);
    assert_eq!(list.get(0).ticket, Ticket { slot_added: 205, slot_removed: None });
    assert_eq!(list.status_of(&key(1), 205, WARMUP, COOLDOWN), TicketStatus::WarmingUp);
}

#[test]
fn same_slot_remove_then_add_cannot_skip_cooldown() {
    let mut list = RegistryList::new(8);
    add(&mut list, 1, 0).unwrap();
    remove(&mut list, 1, 50).unwrap();
    assert_eq!(add(&mut list, 1, 50), Err(RestakingError::DuplicateEntry));
    assert_eq!(list.status_of(&key(1), 50, WARMUP, COOLDOWN), TicketStatus::CoolingDown);
}

#[test]
fn full_list_rejects_ninth_until_one_is_reclaimed() {
    let mut list = RegistryList::new(8);
    for who in 1..=8u8 {
        add(&mut list, who, 100).unwrap();
    }
    assert_eq!(add(&mut list, 9, 150), Err(RestakingError::ListFull));
    remove(&mut list, 3, 150).unwrap();
    assert_eq!(add(&mut list, 9, 154), Err(RestakingError::ListFull));
    add(&mut list, 9, 155).unwrap();
    assert_eq!(list.len(), 8);
    assert_eq!(list.get(2).counterparty, key(9));
    assert_eq!(list.status_of(&key(3), 155, WARMUP, COOLDOWN), TicketStatus::Inactive);
    assert_eq!(list.status_of(&key(9), 155, WARMUP, COOLDOWN), TicketStatus::WarmingUp);
}

#[test]
fn zero_capacity_list_is_always_full() {
    let mut list = RegistryList::new(0);
    assert_eq!(add(&mut list, 1, 0), Err(RestakingError::ListFull));
}

#[test]
fn duplicate_is_reported_even_when_full() {
    let mut list = RegistryList::new(1);
    add(&mut list, 1, 0).unwrap();
    assert_eq!(add(&mut list, 1, 5), Err(RestakingError::DuplicateEntry));
    assert_eq!(add(&mut list, 2, 5), Err(RestakingError::ListFull));
}

#[test]
fn remove_by_stranger_is_unauthorized() {
    let mut list = RegistryList::new(8);
    add(&mut list, 1, 100).unwrap();
    let stranger = key(201);
    assert_eq!(
        list.remove(&key(1), &stranger, &admin(), 200, WARMUP, COOLDOWN),
        Err(RestakingError::Unauthorized)
    );
    assert_eq!(list.get(0).ticket.slot_removed, None);
    assert_eq!(
        list.add(&key(2), &stranger, &admin(), 200, 0, WARMUP, COOLDOWN),
        Err(RestakingError::Unauthorized)
    );
    assert_eq!(list.len(), 1);
}

#[test]
fn remove_of_unknown_or_warming_entry_is_not_active() {
    let mut list = RegistryList::new(8);
    assert_eq!(remove(&mut list, 1, 100), Err(RestakingError::TicketNotActive));
    add(&mut list, 1, 100).unwrap();
    assert_eq!(remove(&mut list, 1, 105), Err(RestakingError::TicketNotActive));
    assert_eq!(list.status_of(&key(2), 105, WARMUP, COOLDOWN), TicketStatus::Inactive);
}

#[test]
fn registry_warmup_follows_ticket_status() {
    let mut list = RegistryList::new(8);
    add(&mut list, 1, 100).unwrap();
    assert_eq!(list.warmup(&key(1), &admin(), &admin(), 120, WARMUP, COOLDOWN), Ok(()));
    remove(&mut list, 1, 130).unwrap();
    assert_eq!(
        list.warmup(&key(1), &admin(), &admin(), 131, WARMUP, COOLDOWN),
        Err(RestakingError::TicketCoolingDown)
    );
    assert_eq!(
        list.warmup(&key(2), &admin(), &admin(), 131, WARMUP, COOLDOWN),
        Err(RestakingError::TicketNotActive)
    );
}

#[test]
fn slasher_bound_is_kept_through_cooldown() {
    let mut list = RegistryList::new(2);
    list.add(&key(1), &admin(), &admin(), 0, 777, WARMUP, COOLDOWN).unwrap();
    assert_eq!(list.get(0).max_slashable_per_epoch, 777);
    remove(&mut list, 1, 20).unwrap();
    assert_eq!(list.get(0).max_slashable_per_epoch, 777);
    assert_eq!(list.capacity(), 2);
}
