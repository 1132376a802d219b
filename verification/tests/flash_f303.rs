use mcu_kernel::hil::{Error, ReturnCode};
use mcu_kernel::registers::BusOp;
use mcu_kernel::stm32f303xc::flash::{
    Event, Fatal, Flash, FlashState, StmF303Page, AR, CR, EOP, EOPIE, ERRIE, KEY1, KEY2, KR, LOCK,
    MER, OKR, OPTER, OPTPG, PAGE_SIZE, PER, PG, PGERR, SR, STRT, WRPRTERR,
};

fn set(register: usize, mask: u32) -> BusOp {
    BusOp::Modify { register, mask, bits: mask }
}

fn clear(register: usize, mask: u32) -> BusOp {
    BusOp::Modify { register, mask, bits: 0 }
}

fn counting_page() -> StmF303Page {
    let mut page = StmF303Page::default();
    for i in 0..PAGE_SIZE {
        page.0[i] = (i % 251) as u8;
    }
    page
}

#[test]
fn f303_page_is_two_kilobytes_of_zero() {
    let page = StmF303Page::default();
    assert_eq!(page.len(), 2048);
    assert!(page.0.iter().all(|byte| *byte == 0));
}

#[test]
fn f303_new_driver_is_at_rest() {
    let mut flash = Flash::new();
    assert_eq!(flash.state, FlashState::Ready);
    assert_eq!(flash.write_counter, 0);
    assert_eq!(flash.page_number, 0);
    assert!(flash.buffer.is_none());
    assert!(!flash.client);
    assert!(!flash.deferred_call);
    assert!(!flash.is_locked());
    assert_eq!(flash.registers.count(), 9);
    assert_eq!(flash.registers.take_log(), Vec::<BusOp>::new());
}

#[test]
fn f303_enable_sets_both_interrupt_enables() {
    let mut flash = Flash::new();
    flash.enable();
    assert_eq!(flash.registers.read(CR), 0x1400);
    assert_eq!(flash.registers.take_log(), vec![set(CR, EOPIE), set(CR, ERRIE)]);
}

#[test]
fn f303_unlock_writes_the_key_sequence() {
    let mut flash = Flash::new();
    flash.unlock();
    flash.unlock_option();
    assert_eq!(
        flash.registers.take_log(),
        vec![
            BusOp::Write { register: KR, value: 0x45670123 },
            BusOp::Write { register: KR, value: 0xCDEF89AB },
            BusOp::Write { register: OKR, value: 0x45670123 },
            BusOp::Write { register: OKR, value: 0xCDEF89AB },
        ]
    );
    assert_eq!((KEY1, KEY2), (0x45670123, 0xCDEF89AB));
}

#[test]
fn f303_lock_sets_the_lock_bit() {
    let mut flash = Flash::new();
    flash.lock();
    assert!(flash.is_locked());
    assert_eq!(flash.registers.read(CR), 0x80);
    assert_eq!(flash.registers.take_log(), vec![set(CR, LOCK)]);
}

#[test]
fn f303_erase_page_programs_the_page_address() {
    let mut flash = Flash::new();
    assert_eq!(flash.erase_page(3), ReturnCode::SUCCESS);
    assert_eq!(flash.state, FlashState::Erase);
    assert_eq!(flash.registers.read(CR), 0x1442);
    assert_eq!(flash.registers.read(AR), 0x0800_1800);
    assert_eq!(
        flash.registers.take_log(),
        vec![
            set(CR, EOPIE),
            set(CR, ERRIE),
            set(CR, PER),
            BusOp::Write { register: AR, value: 0x0800_1800 },
            set(CR, STRT),
        ]
    );
}

#[test]
fn f303_erase_page_unlocks_a_locked_flash() {
    let mut flash = Flash::new();
    flash.registers.refresh(CR, LOCK);
    assert_eq!(flash.erase_page(128), ReturnCode::SUCCESS);
    assert_eq!(
        flash.registers.take_log(),
        vec![
            BusOp::Write { register: KR, value: KEY1 },
            BusOp::Write { register: KR, value: KEY2 },
            set(CR, EOPIE),
            set(CR, ERRIE),
            set(CR, PER),
            BusOp::Write { register: AR, value: 0x0804_0000 },
            set(CR, STRT),
        ]
    );
}

#[test]
fn f303_erase_page_rejects_a_page_out_of_range() {
    let mut flash = Flash::new();
    assert_eq!(flash.erase_page(129), ReturnCode::EINVAL);
    assert_eq!(flash.erase_page(usize::MAX), ReturnCode::EINVAL);
    assert_eq!(flash.state, FlashState::Ready);
    assert_eq!(flash.registers.take_log(), Vec::<BusOp>::new());
}

#[test]
fn f303_erase_all_chooses_mass_erase() {
    let mut flash = Flash::new();
    assert_eq!(flash.erase_all(), ReturnCode::SUCCESS);
    assert_eq!(flash.state, FlashState::Erase);
    assert_eq!(
        flash.registers.take_log(),
        vec![set(CR, EOPIE), set(CR, ERRIE), set(CR, MER), set(CR, STRT)]
    );
}

#[test]
fn f303_write_page_programs_the_first_halfword() {
    let mut flash = Flash::new();
    let mut page = StmF303Page::default();
    page.0[0] = 0x34;
    page.0[1] = 0x12;
    assert_eq!(flash.write_page(127, page), Ok(()));
    assert_eq!(flash.state, FlashState::Write);
    assert_eq!(flash.page_number, 127);
    assert!(flash.buffer.is_some());
    assert_eq!(
        flash.registers.take_log(),
        vec![
            set(CR, EOPIE),
            set(CR, ERRIE),
            set(CR, PG),
            BusOp::Store16 { address: 0x0803_F800, halfword: 0x1234 },
        ]
    );
}

#[test]
fn f303_write_page_rejects_a_page_out_of_range() {
    let mut flash = Flash::new();
    let result = flash.write_page(129, counting_page());
    assert_eq!(result, Err((ReturnCode::EINVAL, counting_page())));
    assert!(flash.buffer.is_none());
    assert_eq!(flash.state, FlashState::Ready);
    assert_eq!(flash.registers.take_log(), Vec::<BusOp>::new());
}

#[test]
fn f303_interrupt_programs_the_next_halfword() {
    let mut flash = Flash::new();
    flash.set_client();
    flash.write_page(1, counting_page()).unwrap();
    flash.registers.take_log();
    flash.registers.refresh(SR, EOP);
    let events = flash.handle_interrupt();
    assert_eq!(events, Vec::<Event>::new());
    assert_eq!(flash.write_counter, 2);
    assert_eq!(flash.state, FlashState::Write);
    assert_eq!(
        flash.registers.take_log(),
        vec![set(SR, EOP), BusOp::Store16 { address: 0x0800_0802, halfword: 0x0302 }]
    );
}

#[test]
fn f303_write_completes_after_the_last_halfword() {
    let mut flash = Flash::new();
    flash.set_client();
    flash.write_page(2, counting_page()).unwrap();
    let mut stores = 1;
    let mut events = Vec::new();
    for _ in 0..1024 {
        flash.registers.take_log();
        flash.registers.refresh(SR, EOP);
        events = flash.handle_interrupt();
        if events.is_empty() {
            stores += 1;
        }
    }
    assert_eq!(stores, 1024);
    assert_eq!(events, vec![Event::WriteComplete(counting_page(), Error::CommandComplete)]);
    assert_eq!(flash.state, FlashState::Ready);
    assert_eq!(flash.write_counter, 0);
    assert!(flash.buffer.is_none());
    assert_eq!(flash.registers.take_log(), vec![set(SR, EOP), clear(CR, PG)]);
}

#[test]
fn f303_write_without_client_keeps_the_buffer() {
    let mut flash = Flash::new();
    flash.write_page(2, counting_page()).unwrap();
    flash.write_counter = PAGE_SIZE - 2;
    flash.registers.refresh(SR, EOP);
    assert_eq!(flash.handle_interrupt(), Vec::<Event>::new());
    assert_eq!(flash.state, FlashState::Ready);
    assert_eq!(flash.write_counter, 0);
    assert_eq!(flash.buffer, Some(counting_page()));
}

#[test]
fn f303_erase_completes_on_end_of_operation() {
    let mut flash = Flash::new();
    flash.set_client();
    flash.erase_page(5);
    flash.registers.take_log();
    flash.registers.refresh(SR, EOP);
    assert_eq!(flash.handle_interrupt(), vec![Event::EraseComplete(Error::CommandComplete)]);
    assert_eq!(flash.state, FlashState::Ready);
    assert_eq!(flash.registers.take_log(), vec![set(SR, EOP), clear(CR, PER)]);

    flash.erase_all();
    flash.registers.take_log();
    assert_eq!(flash.handle_interrupt(), vec![Event::EraseComplete(Error::CommandComplete)]);
    assert_eq!(flash.registers.take_log(), vec![set(SR, EOP), clear(CR, MER)]);
}

#[test]
fn f303_interrupt_without_cause_does_nothing() {
    let mut flash = Flash::new();
    flash.set_client();
    flash.erase_page(5);
    flash.registers.take_log();
    assert_eq!(flash.handle_interrupt(), Vec::<Event>::new());
    assert_eq!(flash.state, FlashState::Erase);
    assert_eq!(flash.registers.take_log(), Vec::<BusOp>::new());
}

#[test]
fn f303_read_page_fills_the_buffer_and_defers_completion() {
    let mut flash = Flash::new();
    flash.set_client();
    let memory = counting_page();
    assert_eq!(flash.read_page(127, StmF303Page::default(), &memory), Ok(()));
    assert_eq!(flash.state, FlashState::Read);
    assert!(flash.deferred_call);
    assert_eq!(flash.buffer, Some(counting_page()));
    assert_eq!(flash.registers.take_log(), Vec::<BusOp>::new());

    let events = flash.handle_interrupt();
    assert_eq!(events, vec![Event::ReadComplete(counting_page(), Error::CommandComplete)]);
    assert_eq!(flash.state, FlashState::Ready);
    assert!(flash.buffer.is_none());
}

#[test]
fn f303_read_page_rejects_a_page_out_of_range() {
    let mut flash = Flash::new();
    let memory = counting_page();
    let result = flash.read_page(200, StmF303Page::default(), &memory);
    assert_eq!(result, Err((ReturnCode::EINVAL, StmF303Page::default())));
    assert_eq!(flash.state, FlashState::Ready);
    assert!(!flash.deferred_call);
}

#[test]
fn f303_write_option_stores_the_byte_as_a_halfword() {
    let mut flash = Flash::new();
    assert_eq!(flash.write_option(2, 0xA5), ReturnCode::SUCCESS);
    assert_eq!(flash.state, FlashState::WriteOption);
    assert_eq!(
        flash.registers.take_log(),
        vec![
            BusOp::Write { register: KR, value: KEY1 },
            BusOp::Write { register: KR, value: KEY2 },
            BusOp::Write { register: OKR, value: KEY1 },
            BusOp::Write { register: OKR, value: KEY2 },
            set(CR, EOPIE),
            set(CR, ERRIE),
            set(CR, OPTPG),
            BusOp::Store16 { address: 0x1FFF_F804, halfword: 0x00A5 },
        ]
    );
    flash.registers.refresh(SR, EOP);
    assert_eq!(flash.handle_interrupt(), Vec::<Event>::new());
    assert_eq!(flash.state, FlashState::Ready);
    assert_eq!(flash.registers.take_log(), vec![set(SR, EOP), clear(CR, OPTPG)]);
}

#[test]
fn f303_write_option_rejects_a_byte_out_of_range() {
    let mut flash = Flash::new();
    assert_eq!(flash.write_option(8, 1), ReturnCode::EINVAL);
    assert_eq!(flash.state, FlashState::Ready);
    assert_eq!(flash.registers.take_log(), Vec::<BusOp>::new());
    assert_eq!(flash.write_option(7, 1), ReturnCode::SUCCESS);
}

#[test]
fn f303_erase_option_halts_when_done() {
    let mut flash = Flash::new();
    flash.set_client();
    assert_eq!(flash.erase_option(), ReturnCode::SUCCESS);
    assert_eq!(flash.state, FlashState::EraseOption);
    let log = flash.registers.take_log();
    assert_eq!(log[6..], [set(CR, OPTER), set(CR, STRT)]);
    flash.registers.refresh(SR, EOP | WRPRTERR);
    assert_eq!(flash.handle_interrupt(), vec![Event::Halt(Fatal::OptionBytesErased)]);
    assert_eq!(flash.state, FlashState::Ready);
    // Nothing follows the halt: the error is not looked at.
    assert_eq!(flash.registers.take_log(), vec![set(SR, EOP), clear(CR, OPTER)]);
}

#[test]
fn f303_write_protection_error_halts() {
    let mut flash = Flash::new();
    flash.set_client();
    flash.write_page(1, counting_page()).unwrap();
    flash.registers.take_log();
    flash.registers.refresh(SR, WRPRTERR | PGERR);
    assert_eq!(flash.handle_interrupt(), vec![Event::Halt(Fatal::WriteProtected)]);
    assert_eq!(
        flash.registers.take_log(),
        vec![clear(CR, PG), set(SR, WRPRTERR), clear(CR, ERRIE)]
    );
    assert_eq!(flash.registers.read(CR), EOPIE);
}

#[test]
fn f303_programming_error_halts() {
    let mut flash = Flash::new();
    flash.write_option(0, 0xAA);
    flash.registers.take_log();
    flash.registers.refresh(SR, PGERR);
    assert_eq!(flash.handle_interrupt(), vec![Event::Halt(Fatal::NotErased)]);
    assert_eq!(
        flash.registers.take_log(),
        vec![clear(CR, OPTPG), set(SR, PGERR), clear(CR, ERRIE)]
    );
}

#[test]
fn f303_completion_comes_before_a_halt() {
    let mut flash = Flash::new();
    flash.set_client();
    flash.erase_all();
    flash.registers.take_log();
    flash.registers.refresh(SR, EOP | PGERR);
    assert_eq!(
        flash.handle_interrupt(),
        vec![Event::EraseComplete(Error::CommandComplete), Event::Halt(Fatal::NotErased)]
    );
    assert_eq!(
        flash.registers.take_log(),
        vec![set(SR, EOP), clear(CR, MER), set(SR, PGERR), clear(CR, ERRIE)]
    );
    assert_eq!((OPTER, OPTPG), (0x20, 0x10));
}
