use probe::algorithm::{Erase, FlashAlgorithm, FlashRegion, Operation, Program, Verify};
use probe::flasher::{ActiveFlasher, FlasherError, InactiveFlasher};
use probe::transport::{CoreRegisterId, Probe, TransportOp};

fn demo_algorithm() -> FlashAlgorithm {
    FlashAlgorithm {
        load_address: 0x2000_0000,
        instructions: vec![0x2780_b5f0, 0x2500_4684, 0x4e2b_2401, 0xbdf0_2000],
        pc_init: Some(0x2000_0080),
        pc_uninit: None,
        pc_program_page: 0x2000_0120,
        pc_erase_sector: 0x2000_0140,
        pc_erase_all: Some(0x2000_0100),
        static_base: 0x2000_1000,
        begin_stack: 0x2000_2000,
        begin_data: 0x2000_3000,
        page_buffers: vec![],
        min_program_length: None,
        analyzer_supported: false,
        analyzer_address: 0,
    }
}

fn demo_region() -> FlashRegion {
    FlashRegion {
        range_start: 0x0800_0000,
        range_end: 0x0810_0000,
        sector_size: 0x1000,
        page_size: 0x100,
        erase_all_weight: 10,
        erase_sector_weight: 2,
        program_page_weight: 1,
    }
}

fn reg(reg: CoreRegisterId, value: u32) -> TransportOp {
    TransportOp::WriteCoreReg { reg, value }
}

#[test]
fn init_and_erase_all_succeed_with_expected_frames() {
    let algo = demo_algorithm();
    let instructions = algo.instructions.clone();
    let probe = Probe::new(vec![0, 0]);
    let flasher = InactiveFlasher::new(probe, algo);

    let mut active = flasher
        .init::<Erase>(demo_region(), None, None)
        .expect("init should succeed with status 0");
    active.erase_all().expect("erase_all should succeed with status 0");

    let expected = vec![
        TransportOp::ResetAndHalt,
        TransportOp::WriteBlock32 { address: 0x2000_0000, words: instructions },
        reg(CoreRegisterId::PC, 0x2000_0080),
        reg(CoreRegisterId::R0, 0),
        reg(CoreRegisterId::R1, 0),
        reg(CoreRegisterId::R2, 1),
        reg(CoreRegisterId::R9, 0x2000_1000),
        reg(CoreRegisterId::SP, 0x2000_2000),
        reg(CoreRegisterId::LR, 0x2000_0001),
        TransportOp::Run,
        TransportOp::WaitForHalt,
        reg(CoreRegisterId::PC, 0x2000_0100),
        reg(CoreRegisterId::LR, 0x2000_0001),
        TransportOp::Run,
        TransportOp::WaitForHalt,
    ];
    assert_eq!(active.probe.ops, expected);
}

#[test]
fn erase_all_unsupported_issues_no_transport_call() {
    let mut algo = demo_algorithm();
    algo.pc_erase_all = None;
    let probe = Probe::new(vec![0]);
    let flasher = InactiveFlasher::new(probe, algo);

    let mut active = flasher
        .init::<Erase>(demo_region(), None, None)
        .expect("init should succeed");
    let ops_after_init = active.probe.ops.len();

    let result = active.erase_all();
    assert_eq!(result, Err(FlasherError::EraseAllNotSupported));
    assert_eq!(active.probe.ops.len(), ops_after_init);
}

#[test]
fn program_page_fault_reports_code_and_address() {
    let mut algo = demo_algorithm();
    algo.pc_init = None;
    let probe = Probe::new(vec![0xDEAD]);
    let flasher = InactiveFlasher::new(probe, algo);

    let mut active = flasher
        .init::<Program>(demo_region(), None, None)
        .expect("init without an init entry point always succeeds");

    let bytes = vec![0xAA; 256];
    let result = active.program_page(0x0800_1000, &bytes);
    assert_eq!(result, Err(FlasherError::ProgramPage(0xDEAD, 0x0800_1000)));

    // The page bytes were transferred to begin_data exactly once.
    let mut data_writes = 0;
    for op in &active.probe.ops {
        if let TransportOp::WriteBlock8 { address, bytes: written } = op {
            assert_eq!(*address, 0x2000_3000);
            assert_eq!(written, &bytes);
            data_writes += 1;
        }
    }
    assert_eq!(data_writes, 1);
}

#[test]
fn program_page_writes_data_before_register_frame() {
    let mut algo = demo_algorithm();
    algo.pc_init = None;
    let probe = Probe::new(vec![0]);
    let flasher = InactiveFlasher::new(probe, algo);
    let mut active = flasher
        .init::<Program>(demo_region(), None, None)
        .expect("init should succeed");
    let ops_after_init = active.probe.ops.len();

    let bytes = vec![1, 2, 3, 4];
    active.program_page(0x0800_2000, &bytes).expect("programming should succeed");

    let call_ops = &active.probe.ops[ops_after_init..];
    assert_eq!(
        call_ops[0],
        TransportOp::WriteBlock8 { address: 0x2000_3000, bytes: bytes.clone() }
    );
    assert_eq!(call_ops[1], reg(CoreRegisterId::PC, 0x2000_0120));
    assert_eq!(call_ops[2], reg(CoreRegisterId::R0, 0x0800_2000));
    assert_eq!(call_ops[3], reg(CoreRegisterId::R1, 4));
    assert_eq!(call_ops[4], reg(CoreRegisterId::R2, 0x2000_3000));
    assert_eq!(call_ops[5], reg(CoreRegisterId::LR, 0x2000_0001));
    assert_eq!(call_ops[6], TransportOp::Run);
    assert_eq!(call_ops[7], TransportOp::WaitForHalt);
    assert_eq!(call_ops.len(), 8);
}

#[test]
fn program_phrase_rejects_unaligned_address_and_length() {
    let mut algo = demo_algorithm();
    algo.pc_init = None;
    algo.min_program_length = Some(8);
    let probe = Probe::new(vec![]);
    let flasher = InactiveFlasher::new(probe, algo);
    let mut active = flasher
        .init::<Program>(demo_region(), None, None)
        .expect("init should succeed");
    let ops_after_init = active.probe.ops.len();

    let sixteen = vec![0; 16];
    let result = active.program_phrase(0x0800_1004, &sixteen);
    assert_eq!(result, Err(FlasherError::UnalignedFlashWriteAddress));

    let twelve = vec![0; 12];
    let result = active.program_phrase(0x0800_1000, &twelve);
    assert_eq!(result, Err(FlasherError::UnalignedPhraseLength));

    // Neither rejection reached the transport.
    assert_eq!(active.probe.ops.len(), ops_after_init);
}

#[test]
fn program_phrase_aligned_succeeds_and_fault_is_tagged() {
    let mut algo = demo_algorithm();
    algo.pc_init = None;
    algo.min_program_length = Some(8);
    let probe = Probe::new(vec![0, 9]);
    let flasher = InactiveFlasher::new(probe, algo);
    let mut active = flasher
        .init::<Program>(demo_region(), None, None)
        .expect("init should succeed");

    let bytes = vec![0x55; 16];
    assert_eq!(active.program_phrase(0x0800_1000, &bytes), Ok(()));
    assert_eq!(
        active.program_phrase(0x0800_1008, &bytes),
        Err(FlasherError::ProgramPhrase(9, 0x0800_1008))
    );
}

#[test]
fn init_failure_reports_status_code() {
    let algo = demo_algorithm();
    let probe = Probe::new(vec![5]);
    let flasher = InactiveFlasher::new(probe, algo);
    let result = flasher.init::<Erase>(demo_region(), None, None);
    match result {
        Err(FlasherError::Init(code)) => assert_eq!(code, 5),
        _ => panic!("a non-zero init status must fail with Init"),
    }
}

#[test]
fn init_passes_address_clock_and_operation_code() {
    let algo = demo_algorithm();
    let probe = Probe::new(vec![0]);
    let flasher = InactiveFlasher::new(probe, algo);
    let active = flasher
        .init::<Verify>(demo_region(), Some(0x0800_0000), Some(4_000_000))
        .expect("init should succeed");

    assert_eq!(active.probe.ops[3], reg(CoreRegisterId::R0, 0x0800_0000));
    assert_eq!(active.probe.ops[4], reg(CoreRegisterId::R1, 4_000_000));
    assert_eq!(active.probe.ops[5], reg(CoreRegisterId::R2, Verify::operation()));
}

#[test]
fn uninit_routes_operation_code_and_keeps_session() {
    let mut algo = demo_algorithm();
    algo.pc_init = None;
    algo.pc_uninit = Some(0x2000_00A0);
    let probe = Probe::new(vec![7]);
    let flasher = InactiveFlasher::new(probe, algo);
    let active = flasher
        .init::<Program>(demo_region(), None, None)
        .expect("init should succeed");

    let (inactive, diagnostic) = active.uninit();
    // The non-zero status is diagnostic only: the session is inactive again.
    assert_eq!(diagnostic, Err(FlasherError::Uninit(7)));
    let n = inactive.probe.ops.len();
    assert_eq!(inactive.probe.ops[n - 4], reg(CoreRegisterId::R0, Program::operation()));
    assert_eq!(inactive.probe.ops[n - 1], TransportOp::WaitForHalt);
}

#[test]
fn init_frame_sets_up_r9_and_sp_noninit_frames_do_not() {
    let algo = demo_algorithm();
    let probe = Probe::new(vec![0, 0]);
    let flasher = InactiveFlasher::new(probe, algo);
    let mut active = flasher
        .init::<Erase>(demo_region(), None, None)
        .expect("init should succeed");
    let ops_after_init = active.probe.ops.len();
    active.erase_sector(0x0800_3000).expect("erase_sector should succeed");

    let init_frame = &active.probe.ops[2..ops_after_init];
    assert!(init_frame.contains(&reg(CoreRegisterId::R9, 0x2000_1000)));
    assert!(init_frame.contains(&reg(CoreRegisterId::SP, 0x2000_2000)));

    let erase_frame = &active.probe.ops[ops_after_init..];
    assert_eq!(erase_frame[0], reg(CoreRegisterId::PC, 0x2000_0140));
    assert_eq!(erase_frame[1], reg(CoreRegisterId::R0, 0x0800_3000));
    for op in erase_frame {
        if let TransportOp::WriteCoreReg { reg, .. } = op {
            assert_ne!(*reg, CoreRegisterId::R9);
            assert_ne!(*reg, CoreRegisterId::SP);
        }
    }
}

#[test]
fn erase_all_fault_and_erase_sector_fault_carry_codes() {
    let algo = demo_algorithm();
    let probe = Probe::new(vec![0, 3]);
    let flasher = InactiveFlasher::new(probe, algo);
    let mut active = flasher
        .init::<Erase>(demo_region(), None, None)
        .expect("init should succeed");
    assert_eq!(active.erase_all(), Err(FlasherError::EraseAll(3)));

    let algo = demo_algorithm();
    let probe = Probe::new(vec![0, 4]);
    let flasher = InactiveFlasher::new(probe, algo);
    let mut active = flasher
        .init::<Erase>(demo_region(), None, None)
        .expect("init should succeed");
    assert_eq!(
        active.erase_sector(0x0800_5000),
        Err(FlasherError::EraseSector(4, 0x0800_5000))
    );
}

#[test]
fn load_page_buffer_rejects_out_of_range_index_without_writes() {
    let mut algo = demo_algorithm();
    algo.pc_init = None;
    algo.page_buffers = vec![0x2000_4000, 0x2000_5000];
    let probe = Probe::new(vec![]);
    let flasher = InactiveFlasher::new(probe, algo);
    let mut active = flasher
        .init::<Program>(demo_region(), None, None)
        .expect("init should succeed");
    let ops_after_init = active.probe.ops.len();

    let bytes = vec![0x11; 8];
    let result = active.load_page_buffer(0x0800_1000, &bytes, 2);
    assert_eq!(result, Err(FlasherError::InvalidBufferNumber(2, 2)));
    assert_eq!(active.probe.ops.len(), ops_after_init);

    // A valid index copies the bytes into that buffer.
    assert_eq!(active.load_page_buffer(0x0800_1000, &bytes, 1), Ok(()));
    assert_eq!(
        active.probe.ops[ops_after_init],
        TransportOp::WriteBlock8 { address: 0x2000_5000, bytes }
    );
}

#[test]
fn start_program_page_with_buffer_starts_without_waiting() {
    let mut algo = demo_algorithm();
    algo.pc_init = None;
    algo.page_buffers = vec![0x2000_4000, 0x2000_5000];
    let probe = Probe::new(vec![]);
    let flasher = InactiveFlasher::new(probe, algo);
    let mut active = flasher
        .init::<Program>(demo_region(), None, None)
        .expect("init should succeed");

    assert_eq!(
        active.start_program_page_with_buffer(0x0800_1000, 3),
        Err(FlasherError::InvalidBufferNumber(3, 2))
    );

    let ops_before = active.probe.ops.len();
    assert_eq!(active.start_program_page_with_buffer(0x0800_1000, 0), Ok(()));
    let call_ops = &active.probe.ops[ops_before..];
    assert_eq!(call_ops[0], reg(CoreRegisterId::PC, 0x2000_0120));
    assert_eq!(call_ops[1], reg(CoreRegisterId::R0, 0x0800_1000));
    assert_eq!(call_ops[2], reg(CoreRegisterId::R1, 0x100));
    assert_eq!(call_ops[3], reg(CoreRegisterId::R2, 0x2000_4000));
    // No wait: the caller overlaps the next buffer upload with this page.
    assert_eq!(*call_ops.last().unwrap(), TransportOp::Run);
}

#[test]
fn operation_codes_are_one_two_three() {
    assert_eq!(Erase::operation(), 1);
    assert_eq!(Program::operation(), 2);
    assert_eq!(Verify::operation(), 3);
}

#[test]
fn getters_align_to_sector_and_page_boundaries() {
    let mut algo = demo_algorithm();
    algo.pc_init = None;
    algo.analyzer_supported = true;
    let probe = Probe::new(vec![]);
    let flasher = InactiveFlasher::new(probe, algo);
    let active: ActiveFlasher<Program> = flasher
        .init::<Program>(demo_region(), None, None)
        .expect("init should succeed");

    let sector = active.get_sector_info(0x0800_1234).expect("inside the region");
    assert_eq!(sector.base_address, 0x0800_1000);
    assert_eq!(sector.erase_weight, 2);
    assert_eq!(sector.size, 0x1000);

    let page = active.get_page_info(0x0800_1234).expect("inside the region");
    assert_eq!(page.base_address, 0x0800_1200);
    assert_eq!(page.program_weight, 1);
    assert_eq!(page.size, 0x100);

    let flash = active.get_flash_info(0x0800_1234).expect("inside the region");
    assert_eq!(flash.rom_start, 0x0800_0000);
    assert_eq!(flash.erase_weight, 10);
    assert!(flash.crc_supported);

    assert_eq!(active.get_sector_info(0x0810_0000), None);
    assert_eq!(active.get_page_info(0x0700_0000), None);
    assert_eq!(active.get_flash_info(0xFFFF_FFFF), None);
}

#[test]
fn check_layout_requires_room_for_the_stack() {
    let algo = demo_algorithm();
    assert!(algo.check_layout());

    let mut cramped = demo_algorithm();
    cramped.begin_stack = 0x2000_0008;
    assert!(!cramped.check_layout());
}

#[test]
fn check_buffers_rejects_overlaps() {
    let mut algo = demo_algorithm();
    algo.page_buffers = vec![0x2000_4000, 0x2000_4100];
    assert!(algo.check_buffers(0x100));

    // Buffers closer together than one page overlap each other.
    algo.page_buffers = vec![0x2000_4000, 0x2000_4080];
    assert!(!algo.check_buffers(0x100));

    // A buffer inside the staged instruction words is rejected too.
    algo.page_buffers = vec![0x2000_0004];
    assert!(!algo.check_buffers(0x100));

    // No buffers at all is trivially fine.
    algo.page_buffers = vec![];
    assert!(algo.check_buffers(0x100));
}
