use bootloader::errors::{
    exit_error, AllocationError, BootError, FatalError, IoError, ProtocolError,
};
use bootloader::efi::EfiStatus;
use bootloader::handoff::{FrameBufferDescriptor, KERNEL_BASE_ADDR};
use bootloader::memory_map::{MapError, MapReport, MemoryMap};
use bootloader::sequencer::{Action, BootStage, Event, Sequencer, INITIAL_MAP_CAPACITY};

/// A deterministic stand-in for firmware: every allocation changes the map key.
struct MockFirmware {
    map_key: usize,
    map_bytes_needed: usize,
    kernel: Option<Vec<u8>>,
    short_read: bool,
    read_fails: bool,
    exit_failure: Option<EfiStatus>,
    allocation: Result<(), AllocationError>,
    root: Result<(), ProtocolError>,
    graphics: Vec<u64>,
    frame_buffers: Vec<(u64, FrameBufferDescriptor)>,
    stale_exits: usize,
    allocations: Vec<(u64, u64)>,
    reads: Vec<(u64, u64)>,
    exit_keys: Vec<usize>,
    queries: Vec<usize>,
    jumped: Option<(u64, u64, u64)>,
}

fn kernel_with_entry(len: usize, entry: u64) -> Vec<u8> {
    let mut k = vec![0u8; len];
    k[24..32].copy_from_slice(&entry.to_le_bytes());
    k
}

impl MockFirmware {
    fn healthy() -> Self {
        MockFirmware {
            map_key: 100,
            map_bytes_needed: 4800,
            kernel: Some(kernel_with_entry(10_000, 0x10_1120)),
            short_read: false,
            read_fails: false,
            exit_failure: None,
            allocation: Ok(()),
            root: Ok(()),
            graphics: vec![7, 8, 9],
            frame_buffers: vec![
                (7, FrameBufferDescriptor { base: 0x8000_0000, size: 0x30_0000 }),
                (8, FrameBufferDescriptor { base: 0x9000_0000, size: 0x10 }),
            ],
            stale_exits: 0,
            allocations: Vec::new(),
            reads: Vec::new(),
            exit_keys: Vec::new(),
            queries: Vec::new(),
            jumped: None,
        }
    }

    fn query(&mut self, capacity: usize) -> Event {
        self.queries.push(capacity);
        let mut map = MemoryMap::new(vec![0u8; capacity]);
        let report = if capacity < self.map_bytes_needed {
            MapReport::TooSmall { required: self.map_bytes_needed }
        } else {
            MapReport::Filled {
                bytes: vec![0u8; capacity],
                map_size: self.map_bytes_needed,
                map_key: self.map_key,
                desc_size: 48,
                desc_version: 1,
            }
        };
        let result = map.acquire(report).map(|_| map.map_key());
        Event::MapAcquired { result }
    }

    fn perform(&mut self, action: Action) -> Option<Event> {
        match action {
            Action::QueryMemoryMap { capacity } => Some(self.query(capacity)),
            Action::OpenRoot => Some(Event::RootOpened { root: self.root }),
            Action::OpenKernel => Some(Event::KernelOpened {
                file_size: self.kernel.as_ref().map(|k| k.len() as u64),
            }),
            Action::AllocatePages { address, pages } => {
                self.allocations.push((address, pages));
                self.map_key += 1;
                Some(Event::PagesAllocated { pages: self.allocation })
            }
            Action::ReadKernel { address, len } => {
                self.reads.push((address, len));
                let k = self.kernel.clone().unwrap();
                let got = if self.short_read { len - 1 } else { len };
                let head = k[..k.len().min(32)].to_vec();
                if self.read_fails {
                    return Some(Event::KernelRead { bytes_read: None, head: Vec::new() });
                }
                Some(Event::KernelRead { bytes_read: Some(got), head })
            }
            Action::LocateGraphics => Some(Event::GraphicsHandles { handles: self.graphics.clone() }),
            Action::OpenGraphics { handle } => {
                self.map_key += 1;
                let fb = self.frame_buffers.iter().find(|(h, _)| *h == handle).map(|(_, f)| *f);
                Some(Event::GraphicsOpened { frame_buffer: fb })
            }
            Action::ExitBootServices { map_key } => {
                self.exit_keys.push(map_key);
                if let Some(status) = self.exit_failure {
                    return Some(Event::ExitDone { result: Err(status) });
                }
                if self.stale_exits > 0 {
                    self.stale_exits -= 1;
                    self.map_key += 1;
                    Some(Event::ExitDone { result: Err(EfiStatus::InvalidParameter) })
                } else if map_key == self.map_key {
                    Some(Event::ExitDone { result: Ok(()) })
                } else {
                    Some(Event::ExitDone { result: Err(EfiStatus::InvalidParameter) })
                }
            }
            Action::Jump { entry, frame_buffer_base, frame_buffer_size } => {
                self.jumped = Some((entry, frame_buffer_base, frame_buffer_size));
                None
            }
            Action::Abort { .. } | Action::Halt => None,
        }
    }
}

fn run(fw: &mut MockFirmware) -> (Sequencer, Action) {
    let mut s = Sequencer::new();
    let mut action = s.step(Event::Started);
    for _ in 0..100 {
        match fw.perform(action) {
            Some(e) => action = s.step(e),
            None => return (s, action),
        }
    }
    panic!("sequence did not end");
}

#[test]
fn boot_reaches_running_with_first_frame_buffer() {
    let mut fw = MockFirmware::healthy();
    let (s, action) = run(&mut fw);
    assert_eq!(s.stage, BootStage::Running);
    assert_eq!(
        action,
        Action::Jump { entry: 0x10_1120, frame_buffer_base: 0x8000_0000, frame_buffer_size: 0x30_0000 }
    );
    assert_eq!(fw.jumped, Some((0x10_1120, 0x8000_0000, 0x30_0000)));
    assert_eq!(fw.exit_keys, vec![fw.map_key]);
    assert!(s.is_finished());
}

#[test]
fn kernel_pages_and_single_read() {
    let mut fw = MockFirmware::healthy();
    run(&mut fw);
    assert_eq!(fw.allocations, vec![(KERNEL_BASE_ADDR, 3)]);
    assert_eq!(fw.reads, vec![(KERNEL_BASE_ADDR, 10_000)]);
}

#[test]
fn kernel_of_exact_page_multiple() {
    let mut fw = MockFirmware::healthy();
    fw.kernel = Some(kernel_with_entry(8192, 0x10_0000));
    run(&mut fw);
    assert_eq!(fw.allocations, vec![(KERNEL_BASE_ADDR, 2)]);
    assert_eq!(fw.reads, vec![(KERNEL_BASE_ADDR, 8192)]);
}

#[test]
fn missing_kernel_aborts_before_exit() {
    let mut fw = MockFirmware::healthy();
    fw.kernel = None;
    let (s, action) = run(&mut fw);
    assert_eq!(s.stage, BootStage::Aborted { error: BootError::Io { error: IoError::OpenFailed } });
    assert_eq!(action, Action::Abort { status: EfiStatus::NotFound });
    assert!(fw.exit_keys.is_empty());
    assert!(fw.allocations.is_empty());
}

#[test]
fn no_graphics_gives_zero_frame_buffer() {
    let mut fw = MockFirmware::healthy();
    fw.graphics = Vec::new();
    let (s, action) = run(&mut fw);
    assert_eq!(s.stage, BootStage::Running);
    assert_eq!(action, Action::Jump { entry: 0x10_1120, frame_buffer_base: 0, frame_buffer_size: 0 });
}

#[test]
fn graphics_open_failure_degrades() {
    let mut fw = MockFirmware::healthy();
    fw.graphics = vec![42, 7];
    let (s, action) = run(&mut fw);
    assert_eq!(s.stage, BootStage::Running);
    assert_eq!(action, Action::Jump { entry: 0x10_1120, frame_buffer_base: 0, frame_buffer_size: 0 });
}

#[test]
fn first_handle_is_chosen_on_every_run() {
    for _ in 0..3 {
        let mut fw = MockFirmware::healthy();
        fw.graphics = vec![8, 7];
        let (_, action) = run(&mut fw);
        assert_eq!(action, Action::Jump { entry: 0x10_1120, frame_buffer_base: 0x9000_0000, frame_buffer_size: 0x10 });
    }
}

#[test]
fn stale_key_takes_fresh_snapshot() {
    let mut fw = MockFirmware::healthy();
    fw.stale_exits = 1;
    let (s, _) = run(&mut fw);
    assert_eq!(s.stage, BootStage::Running);
    assert_eq!(fw.exit_keys.len(), 2);
    assert_ne!(fw.exit_keys[0], fw.exit_keys[1]);
    assert_eq!(fw.exit_keys[1], fw.map_key);
    assert_eq!(s.exit_attempts, 1);
}

#[test]
fn stale_keys_exhaust_retries() {
    let mut fw = MockFirmware::healthy();
    fw.stale_exits = 5;
    let (s, action) = run(&mut fw);
    assert_eq!(
        s.stage,
        BootStage::Aborted { error: BootError::Fatal { error: FatalError::RetriesExhausted } }
    );
    assert_eq!(action, Action::Abort { status: EfiStatus::Aborted });
    assert_eq!(fw.exit_keys.len(), 3);
    assert!(fw.jumped.is_none());
}

#[test]
fn small_map_buffer_is_regrown() {
    let mut fw = MockFirmware::healthy();
    fw.map_bytes_needed = 19_968;
    let (s, _) = run(&mut fw);
    assert_eq!(s.stage, BootStage::Running);
    assert_eq!(fw.queries[0], INITIAL_MAP_CAPACITY);
    assert_eq!(fw.queries[1], 20_480);
}

#[test]
fn short_kernel_read_aborts() {
    let mut fw = MockFirmware::healthy();
    fw.short_read = true;
    let (s, action) = run(&mut fw);
    assert_eq!(s.stage, BootStage::Aborted { error: BootError::Io { error: IoError::ShortRead } });
    assert_eq!(action, Action::Abort { status: EfiStatus::LoadError });
}

#[test]
fn kernel_too_short_for_entry_aborts() {
    let mut fw = MockFirmware::healthy();
    fw.kernel = Some(vec![1u8; 20]);
    let (s, _) = run(&mut fw);
    assert_eq!(s.stage, BootStage::Aborted { error: BootError::Io { error: IoError::ShortRead } });
}

#[test]
fn address_unavailable_aborts() {
    let mut fw = MockFirmware::healthy();
    fw.allocation = Err(AllocationError::AddressUnavailable);
    let (s, action) = run(&mut fw);
    assert_eq!(
        s.stage,
        BootStage::Aborted { error: BootError::Allocation { error: AllocationError::AddressUnavailable } }
    );
    assert_eq!(action, Action::Abort { status: EfiStatus::LoadError });
    assert!(fw.reads.is_empty());
}

#[test]
fn missing_volume_aborts() {
    let mut fw = MockFirmware::healthy();
    fw.root = Err(ProtocolError::Unsupported);
    let (s, action) = run(&mut fw);
    assert_eq!(
        s.stage,
        BootStage::Aborted { error: BootError::Protocol { error: ProtocolError::Unsupported } }
    );
    assert_eq!(action, Action::Abort { status: EfiStatus::Unsupported });
}

#[test]
fn map_failure_aborts_with_its_status() {
    let mut s = Sequencer::new();
    s.step(Event::Started);
    let a = s.step(Event::MapAcquired {
        result: Err(MapError::Firmware { status: EfiStatus::DeviceError }),
    });
    assert_eq!(a, Action::Abort { status: EfiStatus::DeviceError });
}

#[test]
fn out_of_order_event_aborts() {
    let mut s = Sequencer::new();
    let a = s.step(Event::ExitDone { result: Ok(()) });
    assert_eq!(
        s.stage,
        BootStage::Aborted { error: BootError::Fatal { error: FatalError::UnexpectedEvent } }
    );
    assert_eq!(a, Action::Abort { status: EfiStatus::Aborted });
    assert_eq!(s.step(Event::Started), Action::Halt);
}

#[test]
fn returning_kernel_halts() {
    let mut fw = MockFirmware::healthy();
    let (mut s, _) = run(&mut fw);
    assert_eq!(s.step(Event::EntryReturned), Action::Halt);
    assert_eq!(
        s.stage,
        BootStage::Aborted { error: BootError::Fatal { error: FatalError::EntryReturned } }
    );
}

#[test]
fn failed_kernel_read_aborts() {
    let mut fw = MockFirmware::healthy();
    fw.read_fails = true;
    let (s, action) = run(&mut fw);
    assert_eq!(s.stage, BootStage::Aborted { error: BootError::Io { error: IoError::ShortRead } });
    assert_eq!(action, Action::Abort { status: EfiStatus::LoadError });
}

#[test]
fn other_exit_failure_aborts_without_retry() {
    let mut fw = MockFirmware::healthy();
    fw.exit_failure = Some(EfiStatus::DeviceError);
    let (s, action) = run(&mut fw);
    assert_eq!(
        s.stage,
        BootStage::Aborted { error: BootError::ExitRefused { status: EfiStatus::DeviceError } }
    );
    assert_eq!(action, Action::Abort { status: EfiStatus::DeviceError });
    assert_eq!(fw.exit_keys.len(), 1);
    assert!(fw.jumped.is_none());
}

#[test]
fn status_mappings() {
    assert_eq!(exit_error(EfiStatus::InvalidParameter), BootError::MapKeyStale);
    assert_eq!(
        exit_error(EfiStatus::Unsupported),
        BootError::ExitRefused { status: EfiStatus::Unsupported }
    );
    assert_eq!(ProtocolError::from_status(EfiStatus::Unsupported), ProtocolError::Unsupported);
    assert_eq!(ProtocolError::from_status(EfiStatus::AccessDenied), ProtocolError::AccessDenied);
    assert_eq!(ProtocolError::from_status(EfiStatus::DeviceError), ProtocolError::NotFound);
    assert_eq!(
        AllocationError::from_status(EfiStatus::OutOfResources),
        AllocationError::OutOfResources
    );
    assert_eq!(AllocationError::from_status(EfiStatus::NotFound), AllocationError::AddressUnavailable);
    assert_eq!(BootError::MapKeyStale.status(), EfiStatus::InvalidParameter);
}
