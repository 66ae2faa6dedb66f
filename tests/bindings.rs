use uefi::console::{
    geometry_from_query, key_from_read, poll_wait, EFIEvent, EFIInputKey, EFISimpleTextInputProtocol, EFISimpleTextOutputMode,
    EFISimpleTextOutputProtocol, TextInputCall, TextOutputCall, WaitPoll,
};
use uefi::crc::{crc32, crc32_range};
use uefi::entry::{EntryAction, EntryPhase, EntryRoutine};
use uefi::header::{seal_table, table_crc, verify_table_crc, EFITableHeader};
use uefi::status::{EFIStatus, ERROR_BIT, INVALID_PARAMETER_VALUE};
use uefi::system::{
    EFIBootServices, EFIConfigurationTable, EFIRuntimeServices, EFISystemTable,
};
use uefi::console::EFIHandle;

/// A console output interface that records each call and answers with a
/// configured status.
struct MockConsole<'a> {
    calls: Vec<TextOutputCall<'a>>,
    reply: usize,
}

impl<'a> MockConsole<'a> {
    fn perform(&mut self, call: TextOutputCall<'a>) -> EFIStatus {
        self.calls.push(call);
        EFIStatus::from_raw(self.reply)
    }
}

fn hello() -> Vec<u16> {
    let mut v: Vec<u16> = "Hello, UEFI!\n".encode_utf16().collect();
    v.push(0);
    v
}

fn table(con_out: usize) -> EFISystemTable {
    EFISystemTable {
        hdr: EFITableHeader {
            signature: 0x5453_5953_2049_4249,
            revision: (2 << 16) | 100,
            header_size: 120,
            crc32: 0,
            reserved: 0,
        },
        firmware_vendor: 0x1000,
        firmware_revision: 1,
        console_in_handle: EFIHandle { address: 0x2000 },
        con_in: 0x2100,
        console_out_handle: EFIHandle { address: 0x3000 },
        con_out,
        standard_error_handle: EFIHandle { address: 0x4000 },
        std_err: 0x4100,
        runtime_services: 0x5000,
        boot_services: 0x6000,
        number_of_table_entries: 0,
        configuration_table: 0,
    }
}

#[test]
fn success_is_zero_and_others_are_not() {
    assert_eq!(EFIStatus::success().raw(), 0);
    assert!(EFIStatus::success().is_success());
    assert!(EFIStatus::from_raw(0).is_success());
    for v in [1usize, 2, 6, ERROR_BIT, ERROR_BIT + 2, usize::MAX] {
        assert!(!EFIStatus::from_raw(v).is_success());
    }
}

#[test]
fn error_range_has_the_high_bit() {
    assert_eq!(ERROR_BIT, 1usize << (usize::BITS - 1));
    assert!(EFIStatus::invalid_parameter().is_error());
    assert!(EFIStatus::not_ready().is_error());
    assert!(!EFIStatus::from_raw(1).is_error());
    assert_eq!(EFIStatus::invalid_parameter().raw(), ERROR_BIT | 2);
    assert_eq!(EFIStatus::not_ready().raw(), ERROR_BIT | 6);
}

#[test]
fn output_string_records_literal_unmodified() {
    let out = EFISimpleTextOutputProtocol { address: 0xA000 };
    let mut mock = MockConsole { calls: Vec::new(), reply: 0 };
    let message = hello();
    let status = mock.perform(out.output_string(&message));
    assert!(status.is_success());
    assert_eq!(mock.calls.len(), 1);
    match &mock.calls[0] {
        TextOutputCall::OutputString { this, text } => {
            assert_eq!(*this, 0xA000);
            assert_eq!(text.len(), 14);
            assert_eq!(text[..13], "Hello, UEFI!\n".encode_utf16().collect::<Vec<u16>>()[..]);
            assert_eq!(text[12], 0x0A);
            assert_eq!(text[13], 0);
        },
        other => panic!("unexpected call {:?}", other),
    }
}

#[test]
fn reset_passes_status_through() {
    let out = EFISimpleTextOutputProtocol { address: 0xB000 };
    for reply in [0usize, 3, ERROR_BIT + 7] {
        let mut mock = MockConsole { calls: Vec::new(), reply };
        assert_eq!(mock.perform(out.reset(false)).raw(), reply);
        assert_eq!(mock.perform(out.reset(true)).raw(), reply);
        assert_eq!(
            mock.calls,
            vec![
                TextOutputCall::Reset { this: 0xB000, extended_verification: false },
                TextOutputCall::Reset { this: 0xB000, extended_verification: true },
            ]
        );
    }
}

#[test]
fn every_call_passes_its_interface() {
    let out = EFISimpleTextOutputProtocol { address: 0xC000 };
    let calls = vec![
        out.reset(true),
        out.output_string(&[0x41, 0]),
        out.test_string(&[0x42, 0]),
        out.query_mode(1),
        out.set_mode(2),
        out.set_attribute(0x0F),
        out.clear_screen(),
        out.set_cursor_position(3, 4),
        out.enable_cursor(false),
    ];
    for c in &calls {
        assert_eq!(c.target(), 0xC000);
    }
    assert_eq!(calls[7], TextOutputCall::SetCursorPosition { this: 0xC000, column: 3, row: 4 });
    let inp = EFISimpleTextInputProtocol { address: 0xD000 };
    assert_eq!(inp.reset(false).target(), 0xD000);
    assert_eq!(inp.read_key_stroke(), TextInputCall::ReadKeyStroke { this: 0xD000 });
    assert_eq!(inp.wait_for_key(vec![EFIEvent { address: 9 }]).target(), 0xD000);
}

#[test]
fn wait_blocks_until_one_event_is_signalled() {
    let mut flags = vec![false, false, false];
    let mut rounds = 0;
    let result = loop {
        if rounds == 5 {
            flags[2] = true;
        }
        match poll_wait(&flags) {
            WaitPoll::Blocked => rounds += 1,
            done => break done,
        }
        assert!(rounds < 100);
    };
    assert_eq!(rounds, 5);
    assert_eq!(result, WaitPoll::Signalled { status: EFIStatus::success(), index: 2 });
}

#[test]
fn invalid_parameter_has_the_published_value() {
    if usize::BITS == 64 {
        assert_eq!(INVALID_PARAMETER_VALUE as u64, 0x8000_0000_0000_0002);
    }
    assert!(!EFIStatus::from_raw(INVALID_PARAMETER_VALUE).is_success());
}

#[test]
fn wait_on_no_events_fails_at_once() {
    assert_eq!(
        poll_wait(&[]),
        WaitPoll::Failed { status: EFIStatus::from_raw(INVALID_PARAMETER_VALUE) }
    );
}

#[test]
fn wait_picks_the_first_signalled_event() {
    assert_eq!(
        poll_wait(&[false, true, true]),
        WaitPoll::Signalled { status: EFIStatus::success(), index: 1 }
    );
    assert_eq!(poll_wait(&[false]), WaitPoll::Blocked);
}

#[test]
fn crc32_of_known_values() {
    assert_eq!(crc32(b"123456789"), 0xCBF4_3926);
    assert_eq!(crc32(b""), 0);
    assert_eq!(crc32(b"a"), 0xE8B7_BE43);
    assert_eq!(crc32_range(b"xx123456789yy", 2, 11), 0xCBF4_3926);
}

fn sample_table() -> Vec<u8> {
    let mut t: Vec<u8> = Vec::new();
    t.extend_from_slice(&0x5652_4553_544e_5552u64.to_le_bytes());
    t.extend_from_slice(&((2u32 << 16) | 70).to_le_bytes());
    t.extend_from_slice(&40u32.to_le_bytes());
    t.extend_from_slice(&0u32.to_le_bytes());
    t.extend_from_slice(&0u32.to_le_bytes());
    for i in 0..20u8 {
        t.push(i.wrapping_mul(37));
    }
    t
}

#[test]
fn header_crc_round_trip() {
    let mut t = sample_table();
    let recorded = table_crc(&t).unwrap();
    let mut zeroed = t.clone();
    zeroed[16..20].copy_from_slice(&[0, 0, 0, 0]);
    assert_eq!(recorded, crc32(&zeroed[..40]));
    assert!(!verify_table_crc(&t) || recorded == 0);
    assert!(seal_table(&mut t));
    assert_eq!(t[16..20], recorded.to_le_bytes());
    assert!(verify_table_crc(&t));
    assert_eq!(table_crc(&t), Some(recorded));
    t[30] ^= 1;
    assert!(!verify_table_crc(&t));
}

#[test]
fn header_crc_rejects_bad_sizes() {
    let mut t = sample_table();
    t[12..16].copy_from_slice(&45u32.to_le_bytes());
    assert_eq!(table_crc(&t), None);
    assert!(!verify_table_crc(&t));
    let before = t.clone();
    assert!(!seal_table(&mut t));
    assert_eq!(t, before);
    t[12..16].copy_from_slice(&23u32.to_le_bytes());
    assert_eq!(table_crc(&t), None);
    assert_eq!(table_crc(&t[..10]), None);
}

#[test]
fn header_fields_and_revision() {
    let t = sample_table();
    let h = EFITableHeader::from_bytes(&t).unwrap();
    assert_eq!(h.signature, 0x5652_4553_544e_5552);
    assert_eq!(h.revision, (2 << 16) | 70);
    assert_eq!(h.header_size, 40);
    assert_eq!(h.major_revision(), 2);
    assert_eq!(h.minor_revision(), 70);
    assert!(h.is_compatible_with((2 << 16) | 70));
    assert!(h.is_compatible_with((1 << 16) | 99));
    assert!(!h.is_compatible_with((2 << 16) | 80));
    assert!(!h.is_compatible_with(3 << 16));
    assert_eq!(EFITableHeader::from_bytes(&t[..23]), None);
}

#[test]
fn layouts_match_published_offsets() {
    let h = EFITableHeader::layout();
    assert_eq!((h.offsets, h.size, h.align), (vec![0, 8, 12, 16, 20], 24, 8));
    let k = EFIInputKey::layout();
    assert_eq!((k.offsets, k.size), (vec![0, 2], 4));
    let m = EFISimpleTextOutputMode::layout();
    assert_eq!((m.offsets, m.size), (vec![0, 4, 8, 12, 16, 20], 24));
    let i = EFISimpleTextInputProtocol::layout();
    assert_eq!((i.offsets, i.size), (vec![0, 8, 16], 24));
    let o = EFISimpleTextOutputProtocol::layout();
    assert_eq!((o.offsets, o.size), (vec![0, 8, 16, 24, 32, 40, 48, 56, 64, 72], 80));
    assert_eq!(EFIRuntimeServices::layout().size, 0);
    assert_eq!(EFIBootServices::layout().size, 0);
    let c = EFIConfigurationTable::layout();
    assert_eq!((c.offsets, c.size), (vec![0, 16], 24));
    let s = EFISystemTable::layout();
    assert_eq!(
        (s.offsets, s.size),
        (vec![0, 24, 32, 40, 48, 56, 64, 72, 80, 88, 96, 104, 112], 120)
    );
}

#[test]
fn system_table_gives_its_interfaces() {
    let t = table(0x3100);
    assert_eq!(t.get_con_out(), Some(EFISimpleTextOutputProtocol { address: 0x3100 }));
    assert_eq!(t.get_std_err(), Some(EFISimpleTextOutputProtocol { address: 0x4100 }));
    assert_eq!(t.get_con_in(), Some(EFISimpleTextInputProtocol { address: 0x2100 }));
    assert_eq!(table(0).get_con_out(), None);
}

#[test]
fn entry_resets_writes_then_halts() {
    let message = hello();
    let mut mock = MockConsole { calls: Vec::new(), reply: 0 };
    let mut routine = EntryRoutine::new(&table(0x3100), &message);
    let mut status = EFIStatus::success();
    let mut halts = 0;
    for _ in 0..10 {
        match routine.step(status) {
            EntryAction::Call(c) => {
                assert_eq!(halts, 0);
                status = mock.perform(c);
            },
            EntryAction::Halt => halts += 1,
        }
    }
    assert_eq!(halts, 8);
    assert_eq!(routine.phase, EntryPhase::Halted);
    assert_eq!(
        mock.calls,
        vec![
            TextOutputCall::Reset { this: 0x3100, extended_verification: false },
            TextOutputCall::OutputString { this: 0x3100, text: &message },
        ]
    );
}

#[test]
fn entry_without_console_halts_at_once() {
    let message = hello();
    let mut routine = EntryRoutine::new(&table(0), &message);
    assert_eq!(routine.step(EFIStatus::success()), EntryAction::Halt);
    assert_eq!(routine.phase, EntryPhase::Halted);
    assert_eq!(routine.step(EFIStatus::not_ready()), EntryAction::Halt);
}

#[test]
fn entry_ignores_failed_statuses() {
    let message = hello();
    let mut routine = EntryRoutine::new(&table(0x3100), &message);
    assert!(matches!(routine.step(EFIStatus::success()), EntryAction::Call(TextOutputCall::Reset { .. })));
    assert!(matches!(
        routine.step(EFIStatus::from_raw(ERROR_BIT + 1)),
        EntryAction::Call(TextOutputCall::OutputString { .. })
    ));
    assert_eq!(routine.step(EFIStatus::from_raw(ERROR_BIT + 3)), EntryAction::Halt);
}

#[test]
fn key_is_given_only_after_a_successful_read() {
    let key = EFIInputKey { scan_code: 0x17, unicode_char: 0x61 };
    assert_eq!(key_from_read(EFIStatus::success(), key), Some(key));
    assert_eq!(key_from_read(EFIStatus::not_ready(), key), None);
}

#[test]
fn geometry_is_given_only_after_a_successful_query() {
    assert_eq!(geometry_from_query(EFIStatus::success(), 80, 25), Some((80, 25)));
    assert_eq!(geometry_from_query(EFIStatus::invalid_parameter(), 80, 25), None);
}
