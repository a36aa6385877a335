use flash_driver::bank::{lock, locked, unlock, FlashBank};
use flash_driver::engine::{erase, erase_sector, read, Flash};
use flash_driver::error::{Address, Error};
use flash_driver::facade::FlashHandle;
use flash_driver::map::{
    check_address_valid, check_length_correct, check_length_valid, flash_sector_map, BankId,
    SectorMap, FLASH_END,
};
use flash_driver::status::{
    decode_status, has_fault, FaultKind, STATUS_INCERR, STATUS_OPERR, STATUS_PGSERR,
    STATUS_STRBERR, STATUS_WRPERR,
};

fn small_map() -> SectorMap {
    // Three sectors: [0x0000, 0x2000), [0x2000, 0x4000), [0x4000, 0x6000);
    // the last one sits in the second bank.
    SectorMap::new(vec![0x0000, 0x2000, 0x4000], 0x5FFF, 2).unwrap()
}

#[test]
fn resolve_reports_table_entries_exactly() {
    let map = flash_sector_map();
    let info = map.resolve(0).ok().unwrap();
    assert_eq!(info.base, 0x0800_0000);
    assert_eq!(info.size, 0x0002_0000);
    assert!(matches!(info.bank, BankId::Bank0));

    // An irregular step in the table shows up as the sector's size.
    let info2 = map.resolve(2).ok().unwrap();
    assert_eq!(info2.base, 0x0804_8000);
    assert_eq!(info2.size, 0x0806_0000 - 0x0804_8000);

    let info8 = map.resolve(8).ok().unwrap();
    assert_eq!(info8.base, 0x0810_0000);
    assert!(matches!(info8.bank, BankId::Bank1));

    // The last sector runs to the address-space upper bound, inclusive.
    let info15 = map.resolve(15).ok().unwrap();
    assert_eq!(info15.base, 0x081E_0000);
    assert_eq!(info15.size, FLASH_END - 0x081E_0000 + 1);
}

#[test]
fn resolve_rejects_out_of_range_index() {
    let map = flash_sector_map();
    assert!(matches!(map.resolve(16), Err(Error::InvalidSector)));
    assert!(matches!(map.resolve(usize::MAX), Err(Error::InvalidSector)));
}

#[test]
fn validate_access_rejects_misaligned_lengths() {
    let map = small_map();
    assert!(matches!(map.validate_access(0, 0, 1), Err(Error::MisalignedAccess)));
    assert!(matches!(map.validate_access(0, 0, 3), Err(Error::MisalignedAccess)));
    assert!(matches!(map.validate_access(1, 8, 2049), Err(Error::MisalignedAccess)));
}

#[test]
fn validate_access_rejects_out_of_bounds_ranges() {
    let map = small_map();
    assert!(matches!(map.validate_access(0, 0x2000, 4), Err(Error::OutOfBounds)));
    assert!(matches!(map.validate_access(0, 0x1FFC, 8), Err(Error::OutOfBounds)));
    assert!(matches!(map.validate_access(9, 0, 4), Err(Error::InvalidSector)));
}

#[test]
fn validate_access_rejects_over_maximum_lengths() {
    let map = small_map();
    assert!(matches!(map.validate_access(0, 0, 2052), Err(Error::LengthTooLarge)));
    let Address(a) = map.validate_access(0, 0, 2048).unwrap();
    assert_eq!(a, 0x0000);
}

#[test]
fn validate_access_resolves_physical_address() {
    let map = small_map();
    let Address(a) = map.validate_access(1, 0x10, 8).unwrap();
    assert_eq!(a, 0x2010);
}

#[test]
fn address_and_length_checks_match_the_bounds() {
    let map = flash_sector_map();
    assert!(check_address_valid(&map, 0x0800_0000, 4).is_ok());
    assert!(check_address_valid(&map, FLASH_END - 3, 4).is_ok());
    assert!(matches!(check_address_valid(&map, FLASH_END - 2, 4), Err(Error::OutOfBounds)));
    assert!(matches!(check_address_valid(&map, 0x0700_0000, 4), Err(Error::OutOfBounds)));

    assert!(check_length_valid(0).is_ok());
    assert!(check_length_valid(2048).is_ok());
    assert!(matches!(check_length_valid(3), Err(Error::MisalignedAccess)));
    assert!(matches!(check_length_valid(2052), Err(Error::LengthTooLarge)));

    assert!(check_length_correct(4, &[1, 2, 3, 4]).is_ok());
    assert!(matches!(check_length_correct(3, &[1, 2, 3, 4]), Err(Error::OutOfBounds)));
}

#[test]
fn decoder_classifies_each_fault_bit() {
    assert!(decode_status(0).is_none());
    assert!(!has_fault(0));
    assert!(matches!(decode_status(STATUS_WRPERR), Some(FaultKind::WriteProtect)));
    assert!(matches!(decode_status(STATUS_PGSERR), Some(FaultKind::ProgramSequence)));
    assert!(matches!(decode_status(STATUS_OPERR), Some(FaultKind::Operation)));
    assert!(matches!(decode_status(STATUS_INCERR), Some(FaultKind::Inconsistency)));
    assert!(matches!(decode_status(STATUS_STRBERR), Some(FaultKind::Strobe)));
    // Write protection outranks the other bits.
    assert!(matches!(
        decode_status(STATUS_WRPERR | STATUS_OPERR),
        Some(FaultKind::WriteProtect)
    ));
    assert!(has_fault(STATUS_STRBERR | 0x8000));
    assert!(!has_fault(0x8000));
}

#[test]
fn unlock_and_lock_sequence_the_lock_bit() {
    let mut bank = FlashBank::new(0x0000, 0x100);
    assert!(locked(&bank));
    assert!(unlock(&mut bank).is_ok());
    assert!(!locked(&bank));
    // Idempotent: unlocking an unlocked bank succeeds immediately.
    assert!(unlock(&mut bank).is_ok());
    assert!(!locked(&bank));
    lock(&mut bank);
    assert!(locked(&bank));
    // Always safe: locking a locked bank keeps it locked.
    lock(&mut bank);
    assert!(locked(&bank));
}

#[test]
fn wrong_key_word_locks_the_protocol_out() {
    let mut bank = FlashBank::new(0x0000, 0x100);
    bank.write_key(0xDEAD_BEEF);
    assert!(matches!(unlock(&mut bank), Err(Error::UnlockFailed)));
    assert!(locked(&bank));
}

#[test]
fn erase_unlock_failure_reports_and_leaves_locked() {
    let map = small_map();
    let mut flash = Flash::new(map);
    flash.bank0.write_key(0x1111_1111);
    let handle = FlashHandle::construct(&flash, 0).unwrap();
    assert!(matches!(handle.erase(&mut flash), Err(Error::UnlockFailed)));
    assert!(locked(&flash.bank0));
    // The other bank is its own partition: sector 2 still erases fine.
    let handle2 = FlashHandle::construct(&flash, 2).unwrap();
    assert!(handle2.erase(&mut flash).is_ok());
}

#[test]
fn write_then_read_round_trips_bytes_exactly() {
    let map = small_map();
    let mut flash = Flash::new(map);
    let handle = FlashHandle::construct(&flash, 0).unwrap();
    assert!(handle.erase(&mut flash).is_ok());
    assert!(handle.write(&mut flash, 0x0000, &[0xAA, 0xBB, 0xCC, 0xDD]).is_ok());
    let back = handle.read(&flash, 0x0000, 4).unwrap();
    assert_eq!(back, vec![0xAA, 0xBB, 0xCC, 0xDD]);
}

#[test]
fn round_trip_holds_at_offsets_and_across_words() {
    let map = small_map();
    let mut flash = Flash::new(map);
    let handle = FlashHandle::construct(&flash, 1).unwrap();
    assert!(handle.erase(&mut flash).is_ok());
    let data: Vec<u8> = (0..16).map(|i| (i * 7 + 3) as u8).collect();
    assert!(handle.write(&mut flash, 0x0100, &data).is_ok());
    assert_eq!(handle.read(&flash, 0x0100, 16).unwrap(), data);
    // A read that straddles the written range sees erased bytes around it.
    let wide = handle.read(&flash, 0x00FC, 24).unwrap();
    assert_eq!(&wide[..4], &[0xFF; 4]);
    assert_eq!(&wide[4..20], &data[..]);
    assert_eq!(&wide[20..], &[0xFF; 4]);
}

#[test]
fn banks_stay_locked_after_success_and_failure() {
    let map = small_map();
    let mut flash = Flash::new(map);
    let handle = FlashHandle::construct(&flash, 0).unwrap();

    assert!(handle.erase(&mut flash).is_ok());
    assert!(locked(&flash.bank0));
    assert!(handle.write(&mut flash, 0, &[1, 2, 3, 4]).is_ok());
    assert!(locked(&flash.bank0));

    flash.bank0.write_protected = true;
    assert!(handle.erase(&mut flash).is_err());
    assert!(locked(&flash.bank0));
    assert!(handle.write(&mut flash, 0, &[1, 2, 3, 4]).is_err());
    assert!(locked(&flash.bank0));
}

#[test]
fn write_protected_bank_faults_and_keeps_contents() {
    let map = small_map();
    let mut flash = Flash::new(map);
    let handle = FlashHandle::construct(&flash, 0).unwrap();
    assert!(handle.write(&mut flash, 0, &[0x11, 0x22, 0x33, 0x44]).is_ok());

    flash.bank0.write_protected = true;
    match handle.write(&mut flash, 0, &[0x55, 0x66, 0x77, 0x88]) {
        Err(Error::WriteFault(raw)) => assert_eq!(raw, STATUS_WRPERR),
        other => panic!("expected a write fault, got {:?}", other),
    }
    match handle.erase(&mut flash) {
        Err(Error::EraseFault(raw)) => assert_eq!(raw, STATUS_WRPERR),
        other => panic!("expected an erase fault, got {:?}", other),
    }
    // The fault was acknowledged and the contents survived untouched.
    assert_eq!(flash.bank0.status, 0);
    assert_eq!(handle.read(&flash, 0, 4).unwrap(), vec![0x11, 0x22, 0x33, 0x44]);
}

#[test]
fn misaligned_write_rejected_and_flash_unchanged() {
    let map = small_map();
    let mut flash = Flash::new(map);
    let handle = FlashHandle::construct(&flash, 0).unwrap();
    assert!(handle.erase(&mut flash).is_ok());
    assert!(matches!(
        handle.write(&mut flash, 0, &[0xAA, 0xBB, 0xCC]),
        Err(Error::MisalignedAccess)
    ));
    assert_eq!(handle.read(&flash, 0, 4).unwrap(), vec![0xFF, 0xFF, 0xFF, 0xFF]);
}

#[test]
fn oversized_write_rejected_and_flash_unchanged() {
    let map = small_map();
    let mut flash = Flash::new(map);
    let handle = FlashHandle::construct(&flash, 0).unwrap();
    let big = vec![0u8; 2052];
    assert!(matches!(handle.write(&mut flash, 0, &big), Err(Error::LengthTooLarge)));
    assert!(matches!(
        handle.write(&mut flash, 0x1FFC, &[1, 2, 3, 4, 5, 6, 7, 8]),
        Err(Error::OutOfBounds)
    ));
    assert_eq!(handle.read(&flash, 0, 4).unwrap(), vec![0xFF, 0xFF, 0xFF, 0xFF]);
}

#[test]
fn erase_range_touches_both_boundary_sectors() {
    let map = small_map();
    let mut flash = Flash::new(map);
    // Mark one word in each sector so erasure is observable.
    assert!(flash_driver::engine::write(&mut flash, 0x1000, 4, &[1, 1, 1, 1]).is_ok());
    assert!(flash_driver::engine::write(&mut flash, 0x2000, 4, &[2, 2, 2, 2]).is_ok());
    assert!(flash_driver::engine::write(&mut flash, 0x4000, 4, &[3, 3, 3, 3]).is_ok());

    // The range 0x1FFE..0x2002 straddles the boundary of sectors 0 and 1.
    assert!(erase(&mut flash, 0x1FFE, 4).is_ok());
    assert_eq!(read(&flash, 0x1000, 4).unwrap(), vec![0xFF; 4]);
    assert_eq!(read(&flash, 0x2000, 4).unwrap(), vec![0xFF; 4]);
    // Sector 2 was not touched.
    assert_eq!(read(&flash, 0x4000, 4).unwrap(), vec![3, 3, 3, 3]);
}

#[test]
fn erase_range_single_byte_of_overlap_counts() {
    let map = small_map();
    let mut flash = Flash::new(map);
    assert!(flash_driver::engine::write(&mut flash, 0x2000, 4, &[9, 9, 9, 9]).is_ok());
    // One byte inside sector 0, one byte inside sector 1.
    assert!(erase(&mut flash, 0x1FFF, 2).is_ok());
    assert_eq!(read(&flash, 0x2000, 4).unwrap(), vec![0xFF; 4]);
}

#[test]
fn erase_range_skips_untouched_sectors() {
    let map = small_map();
    let mut flash = Flash::new(map);
    assert!(flash_driver::engine::write(&mut flash, 0x0000, 4, &[7, 7, 7, 7]).is_ok());
    assert!(flash_driver::engine::write(&mut flash, 0x2000, 4, &[8, 8, 8, 8]).is_ok());
    // A range wholly inside sector 1 leaves sector 0 alone; the range
    // ending exactly at 0x2000 does not touch sector 1 either.
    assert!(erase(&mut flash, 0x2100, 4).is_ok());
    assert_eq!(read(&flash, 0x0000, 4).unwrap(), vec![7, 7, 7, 7]);
    assert!(erase(&mut flash, 0x1000, 0x1000).is_ok());
    assert_eq!(read(&flash, 0x0000, 4).unwrap(), vec![0xFF; 4]);
    assert_eq!(read(&flash, 0x2000, 4).unwrap(), vec![0xFF; 4]);
}

#[test]
fn erase_range_stops_at_first_faulting_sector() {
    let map = small_map();
    let mut flash = Flash::new(map);
    assert!(flash_driver::engine::write(&mut flash, 0x1000, 4, &[1, 1, 1, 1]).is_ok());
    assert!(flash_driver::engine::write(&mut flash, 0x4000, 4, &[3, 3, 3, 3]).is_ok());
    // Sector 2 lives in the protected second bank; sectors 0 and 1 erase
    // first, then the erase stops with the fault. No rollback happens.
    flash.bank1.write_protected = true;
    match erase(&mut flash, 0x1000, 0x4000) {
        Err(Error::EraseFault(raw)) => assert_eq!(raw, STATUS_WRPERR),
        other => panic!("expected an erase fault, got {:?}", other),
    }
    assert_eq!(read(&flash, 0x1000, 4).unwrap(), vec![0xFF; 4]);
    assert_eq!(read(&flash, 0x4000, 4).unwrap(), vec![3, 3, 3, 3]);
    assert!(locked(&flash.bank0));
    assert!(locked(&flash.bank1));
}

#[test]
fn erase_range_rejects_out_of_space_ranges() {
    let map = small_map();
    let mut flash = Flash::new(map);
    assert!(matches!(erase(&mut flash, 0x5FFD, 8), Err(Error::OutOfBounds)));
    assert!(matches!(erase(&mut flash, 0x6001, 4), Err(Error::OutOfBounds)));
}

#[test]
fn construct_validates_the_sector_index() {
    let map = small_map();
    let flash = Flash::new(map);
    assert!(FlashHandle::construct(&flash, 2).is_ok());
    assert!(matches!(FlashHandle::construct(&flash, 3), Err(Error::InvalidSector)));
}

#[test]
fn reads_validate_their_bounds() {
    let map = small_map();
    let flash = Flash::new(map);
    let handle = FlashHandle::construct(&flash, 0).unwrap();
    assert!(handle.read(&flash, 0x1FFF, 1).is_ok());
    assert!(matches!(handle.read(&flash, 0x1FFF, 2), Err(Error::OutOfBounds)));
    let stale = FlashHandle { sector: 7 };
    assert!(matches!(stale.read(&flash, 0, 1), Err(Error::InvalidSector)));
    // Reads by absolute address may cross sector and bank boundaries.
    assert_eq!(read(&flash, 0x3FFE, 4).unwrap(), vec![0xFF; 4]);
}

#[test]
fn writes_on_the_part_map_round_trip() {
    let map = flash_sector_map();
    let mut flash = Flash::new(map);
    assert!(erase_sector(&mut flash, 8).is_ok());
    assert!(flash_driver::engine::write(&mut flash, 0x0810_0000, 8, &[1, 2, 3, 4, 5, 6, 7, 8]).is_ok());
    assert_eq!(
        read(&flash, 0x0810_0000, 8).unwrap(),
        vec![1, 2, 3, 4, 5, 6, 7, 8]
    );
    assert!(locked(&flash.bank1));
}
