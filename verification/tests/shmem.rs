use sos_client::sos_capture::{run, CaptureAction, CaptureError, CaptureEvent};
use sos_client::sos_shmem::{
    create_shmem, frame_stores, FrameAt, NoFrame, ShmemState, SosShmem, SosShmemCapturer, Store,
    StoreBytes, SHMEM_ADDR_CAPTURE_FRAME, SHMEM_NAME,
};

fn store_all(shmem: &SosShmem, mem: &mut [u8], stores: &[Store<'_>]) {
    for store in stores {
        shmem.write(mem, store.at, store.bytes.as_slice());
    }
}

fn write_frame(shmem: &SosShmem, mem: &mut [u8], data: &[u8], w: u64, h: u64) -> bool {
    match frame_stores(shmem, mem, data, w, h) {
        Some(stores) => {
            store_all(shmem, mem, &stores);
            true
        }
        None => false,
    }
}

#[test]
fn mapping_has_room_for_the_largest_display() {
    assert_eq!(create_shmem(&vec![]), None);
    // 1920x1080 is padded to 1920x1088
    assert_eq!(create_shmem(&vec![(1920, 1080)]), Some(192 + 1920 * 1088 * 4));
    assert_eq!(
        create_shmem(&vec![(800, 600), (1920, 1080), (1, 1)]),
        Some(192 + 1920 * 1088 * 4)
    );
    assert_eq!(create_shmem(&vec![(1, 1)]), Some(192 + 64 * 64 * 4));
}

#[test]
fn mapping_names_and_sizes() {
    let mut expected: Vec<u16> = "RustDeskSOS_sos".encode_utf16().collect();
    expected.push(0);
    assert_eq!(SosShmem::os_id(SHMEM_NAME), expected);
    assert_eq!(SosShmem::size_halves(0x1_0000_0002), (1, 2));
    assert_eq!(SosShmem::open_existing(0, 4096).len(), 0);
    assert_eq!(SosShmem::open_existing(48, 4096).len(), 4096);
}

#[test]
fn bytes_are_written_in_place() {
    let shmem = SosShmem::create(6);
    let mut mem = vec![1u8; 6];
    shmem.write(&mut mem, 2, &[7, 8]);
    assert_eq!(mem, vec![1, 1, 7, 8, 1, 1]);
}

#[test]
fn frame_is_read_as_it_was_written_and_once() {
    let shmem = SosShmem::create(256);
    let mut mem = vec![0u8; 256];
    let reader = SosShmemCapturer::new(256, 4, 2);
    assert_eq!(reader.frame(&mut mem, true), Err(NoFrame::WouldBlock));
    let pixels: Vec<u8> = (0..32u8).collect();
    assert!(write_frame(&shmem, &mut mem, &pixels, 4, 2));
    assert!(reader.is_wouldblock(&mem));
    assert_eq!(reader.read_counter(&mem), 1);
    assert_eq!(reader.read_counter_echo(&mem), 0);
    assert_eq!(reader.read_frame_info(&mem), (32, 4, 2));
    assert_eq!(reader.frame(&mut mem, false), Err(NoFrame::FactoryCleared));
    assert_eq!(
        reader.frame(&mut mem, true),
        Ok(FrameAt { at: SHMEM_ADDR_CAPTURE_FRAME, len: 32, width: 4, height: 2 })
    );
    assert_eq!(reader.read_frame_data(&mem, 32), &pixels[..]);
    assert_eq!(reader.frame(&mut mem, true), Err(NoFrame::WouldBlock));
}

#[test]
fn missed_frames_do_not_matter() {
    let shmem = SosShmem::create(256);
    let mut mem = vec![0u8; 256];
    let reader = SosShmemCapturer::new(256, 1, 1);
    assert!(write_frame(&shmem, &mut mem, &[1, 1, 1, 1], 1, 1));
    assert!(write_frame(&shmem, &mut mem, &[2, 2, 2, 2], 1, 1));
    assert!(reader.frame(&mut mem, true).is_ok());
    assert_eq!(reader.read_frame_data(&mem, 4), &[2, 2, 2, 2]);
    assert_eq!(reader.frame(&mut mem, true), Err(NoFrame::WouldBlock));
}

#[test]
fn counter_wraps_to_zero() {
    let shmem = SosShmem::create(256);
    let mut mem = vec![0u8; 256];
    shmem.write(&mut mem, 148, &i32::MAX.to_le_bytes());
    shmem.write(&mut mem, 152, &i32::MAX.to_le_bytes());
    let reader = SosShmemCapturer::new(256, 1, 1);
    assert!(write_frame(&shmem, &mut mem, &[5], 1, 1));
    assert_eq!(reader.read_counter(&mem), 0);
    assert!(reader.frame(&mut mem, true).is_ok());
}

#[test]
fn counter_is_stored_last() {
    let shmem = SosShmem::create(256);
    let mut mem = vec![0u8; 256];
    mem[148] = 6;
    mem[152] = 6;
    let pixels = [9u8; 8];
    let stores = frame_stores(&shmem, &mem, &pixels, 2, 1).unwrap();
    let mut info = vec![0u8; 24];
    (info[0], info[8], info[16]) = (8, 2, 1);
    assert_eq!(
        stores,
        vec![
            Store { at: 192, bytes: StoreBytes::Pixels(&pixels) },
            Store { at: 144, bytes: StoreBytes::Field(vec![1, 0, 0, 0]) },
            Store { at: 120, bytes: StoreBytes::Field(info) },
            Store { at: 148, bytes: StoreBytes::Field(vec![7, 0, 0, 0]) },
        ]
    );
    // a reader that is up to date finds nothing before the last store
    let reader = SosShmemCapturer::new(256, 2, 1);
    for store in &stores {
        assert_eq!(reader.frame(&mut mem, true), Err(NoFrame::WouldBlock));
        shmem.write(&mut mem, store.at, store.bytes.as_slice());
    }
    assert_eq!(
        reader.frame(&mut mem, true),
        Ok(FrameAt { at: 192, len: 8, width: 2, height: 1 })
    );
    assert_eq!(frame_stores(&shmem, &mem, &[0; 65], 1, 1), None);
    assert!(frame_stores(&shmem, &mem, &[0; 64], 1, 1).is_some());
}

#[test]
fn frame_that_does_not_fit_is_not_read() {
    let mut mem = vec![0u8; 200];
    mem[148] = 1;
    mem[120] = 9;
    let reader = SosShmemCapturer::new(200, 1, 1);
    assert_eq!(reader.frame(&mut mem, true), Err(NoFrame::WouldBlock));
    mem[120] = 8;
    assert!(reader.frame(&mut mem, true).is_ok());
}

#[test]
fn reader_is_of_the_gdi_kind() {
    let mut reader = SosShmemCapturer::new(200, 1, 1);
    assert!(reader.is_gdi());
    assert!(reader.set_gdi());
}

#[test]
fn first_mapping_stays() {
    let mut s: ShmemState<char> = ShmemState::new();
    assert!(!s.active);
    s.register_shmem_and_factory('a', 1, 2);
    s.clear_shmem_factory();
    assert!(!s.active);
    s.register_shmem_and_factory('b', 3, 4);
    assert!(s.active);
    assert_eq!(s.shmem, Some(('a', 1, 2)));
}

#[test]
fn capture_needs_room_and_a_display() {
    let small = SosShmem::create(191);
    let large = SosShmem::create(192);
    assert_eq!(run(&small, &vec![]), Err(CaptureError::ShmemTooSmall));
    assert_eq!(run(&large, &vec![]), Err(CaptureError::NoDisplay));
    let c = run(&large, &vec![(640, 480), (1, 1)]).unwrap();
    assert_eq!((c.width, c.height, c.first, c.errors, c.frames), (640, 480, true, 0, 0));
}

#[test]
fn captured_pixels_arrive() {
    let shmem = SosShmem::create(208);
    let mut mem = vec![0u8; 208];
    let mut c = run(&shmem, &vec![(2, 2)]).unwrap();
    assert_eq!(
        c.step(&shmem, &mem, CaptureEvent::Failed(false)),
        (vec![], CaptureAction::Wait)
    );
    assert_eq!(c.errors, 1);
    let pixels = [3u8; 16];
    let (stores, action) = c.step(&shmem, &mem, CaptureEvent::Pixels(&pixels));
    assert_eq!(action, CaptureAction::Ready);
    assert_eq!(
        stores.iter().map(|s| s.at).collect::<Vec<usize>>(),
        vec![192, 144, 120, 148]
    );
    store_all(&shmem, &mut mem, &stores);
    assert_eq!((c.first, c.errors, c.frames), (false, 0, 1));
    let reader = SosShmemCapturer::new(208, 2, 2);
    assert_eq!(
        reader.frame(&mut mem, true),
        Ok(FrameAt { at: 192, len: 16, width: 2, height: 2 })
    );
    assert_eq!(reader.read_frame_data(&mem, 16), &pixels[..]);
    assert_eq!(
        c.step(&shmem, &mem, CaptureEvent::OtherFrame),
        (vec![], CaptureAction::Next)
    );
    assert_eq!(
        c.step(&shmem, &mem, CaptureEvent::Failed(true)),
        (vec![], CaptureAction::SwitchDesktop)
    );
    assert_eq!(c.errors, 0);
    assert_eq!(
        c.step(&shmem, &mem, CaptureEvent::Pixels(&pixels)).1,
        CaptureAction::Next
    );
    let too_many = [0u8; 17];
    assert_eq!(
        c.step(&shmem, &mem, CaptureEvent::Pixels(&too_many)),
        (vec![], CaptureAction::Stop)
    );
    assert_eq!(c.frames, 2);
}
