use bsd_kernel::allocator::{oom, Halt, KernelAllocator, Zone, ZoneRelease, ZoneRequest, M_WAITOK};
use bsd_kernel::character_device::{
    cdev_close, cdev_fdopen, cdev_open, cdev_read, cdev_write, close_slot, open_slot, read_slot,
    write_slot, CDev, CharacterDevice, HostAction, DEVICE_MODE, GID_WHEEL, UID_ROOT,
};
use bsd_kernel::module::{module_event, ModuleEvents, SharedModule};
use bsd_kernel::uio::{BufferMove, CopyIn, UioReader, UioWriter};

struct UserSegment {
    data: Vec<u8>,
    copies: usize,
}

impl CopyIn for UserSegment {
    fn copy_in(&mut self, offset: usize, buf: &mut [u8], len: usize) -> i32 {
        self.copies += 1;
        buf[..len].copy_from_slice(&self.data[offset..offset + len]);
        0
    }
}

struct UserBuffer {
    received: Vec<u8>,
}

impl BufferMove for UserBuffer {
    fn buffer_move(&mut self, data: &[u8], start: usize, len: usize) -> i32 {
        self.received.extend_from_slice(&data[start..start + len]);
        0
    }
}

struct Echo {
    data: Vec<u8>,
    opens: u32,
    closes: u32,
    loaded: bool,
    me: Option<SharedModule<Echo>>,
    device: Option<Box<CDev<Echo>>>,
    follow_up: Option<HostAction>,
}

impl Echo {
    fn new() -> Self {
        Echo {
            data: Vec::new(),
            opens: 0,
            closes: 0,
            loaded: false,
            me: None,
            device: None,
            follow_up: None,
        }
    }
}

impl ModuleEvents for Echo {
    fn load(&mut self) {
        self.loaded = true;
        if let Some(me) = self.me.take() {
            let registration = CDev::new_with_delegate("dev0", me, 0x1000, 0x2000);
            self.device = registration.device;
            self.follow_up = Some(registration.follow_up);
        }
    }

    fn unload(&mut self) {
        self.loaded = false;
    }
}

impl CharacterDevice for Echo {
    fn open(&mut self) {
        self.opens += 1;
    }

    fn close(&mut self) {
        self.closes += 1;
    }

    fn read<H: BufferMove>(&mut self, uio: &mut UioWriter<H>) {
        let _ = uio.write_all(&self.data);
    }

    fn write<H: CopyIn>(&mut self, uio: &mut UioReader<H>) {
        self.data.clear();
        let _ = uio.read_to_end(&mut self.data);
    }
}

fn segment(data: &[u8]) -> UioReader<UserSegment> {
    UioReader::new(UserSegment { data: data.to_vec(), copies: 0 }, data.len(), data.len())
}

fn buffer(resid: usize) -> UioWriter<UserBuffer> {
    UioWriter::new(UserBuffer { received: Vec::new() }, 0, resid)
}

fn shared_echo() -> SharedModule<Echo> {
    let shared = SharedModule::new(Some(Echo::new()));
    let me = shared.clone();
    shared.lock().unwrap().slot_mut().as_mut().unwrap().me = Some(me);
    shared
}

#[test]
fn request_follows_the_host_convention() {
    let request = CDev::<Echo>::request("dev0", 0x5c48c353);
    assert_eq!(request.name, "dev0");
    assert_eq!(request.unit, 0);
    assert_eq!(request.uid, UID_ROOT);
    assert_eq!(request.gid, GID_WHEEL);
    assert_eq!(request.uid, 0);
    assert_eq!(request.gid, 0);
    assert_eq!(request.mode, 0o660);
    assert_eq!(DEVICE_MODE, 432);
    assert_eq!(request.table.version, 0x5c48c353);
    assert_eq!(request.table.flags, 0);
    assert_eq!(request.table.name, "helloworld");
    assert!(request.table.open && request.table.close);
    assert!(request.table.read && request.table.write);
}

#[test]
fn refused_registration_frees_the_table() {
    let shared = SharedModule::new(Some(Echo::new()));
    let registration = CDev::new_with_delegate("dev0", shared, 0x1000, 0);
    assert!(registration.device.is_none());
    assert_eq!(registration.follow_up, HostAction::FreeTable { table: 0x1000 });
}

#[test]
fn accepted_registration_stores_the_back_reference() {
    let shared = SharedModule::new(Some(Echo::new()));
    let registration = CDev::new_with_delegate("dev0", shared, 0x1000, 0x2000);
    assert_eq!(registration.follow_up, HostAction::StoreBackReference { device: 0x2000 });
    let device = registration.device.unwrap();
    assert_eq!(device.device(), 0x2000);
    assert_eq!(device.callback_table(), 0x1000);
    assert_eq!(device.name(), "dev0");
}

#[test]
fn teardown_unregisters_before_it_frees() {
    let shared = SharedModule::new(Some(Echo::new()));
    let device = CDev::new_with_delegate("dev0", shared, 0x1000, 0x2000).device.unwrap();
    let plan = device.teardown();
    assert_eq!(
        plan,
        vec![
            HostAction::DestroyDevice { device: 0x2000 },
            HostAction::FreeTable { table: 0x1000 },
        ]
    );
}

#[test]
fn teardown_order_holds_for_every_registration() {
    for i in 1..100usize {
        let shared = SharedModule::new(Some(Echo::new()));
        let device = CDev::new_with_delegate("dev0", shared, 16 * i, i).device.unwrap();
        let plan = device.teardown();
        let destroy = plan.iter().position(|a| *a == HostAction::DestroyDevice { device: i });
        let free = plan.iter().position(|a| *a == HostAction::FreeTable { table: 16 * i });
        assert_eq!(plan.len(), 2);
        assert!(destroy.unwrap() < free.unwrap());
    }
}

#[test]
fn slot_callbacks_reach_the_instance() {
    let mut slot = Some(Echo::new());
    open_slot(&mut slot);
    open_slot(&mut slot);
    close_slot(&mut slot);
    let mut reader = segment(b"xyz");
    write_slot(&mut slot, &mut reader);
    let mut writer = buffer(64);
    read_slot(&mut slot, &mut writer);
    let echo = slot.unwrap();
    assert_eq!(echo.opens, 2);
    assert_eq!(echo.closes, 1);
    assert_eq!(echo.data, b"xyz");
    assert_eq!(writer.into_host().received, b"xyz");
}

#[test]
fn slot_callbacks_skip_an_empty_slot() {
    let mut slot: Option<Echo> = None;
    open_slot(&mut slot);
    close_slot(&mut slot);
    let mut reader = segment(b"xyz");
    write_slot(&mut slot, &mut reader);
    let mut writer = buffer(64);
    read_slot(&mut slot, &mut writer);
    assert!(slot.is_none());
    assert_eq!(reader.consumed(), 0);
    assert_eq!(reader.into_host().copies, 0);
    assert_eq!(writer.position(), 0);
    assert!(writer.into_host().received.is_empty());
}

#[test]
fn fdopen_returns_success() {
    assert_eq!(cdev_fdopen(), 0);
}

#[test]
fn open_and_close_are_counted_under_the_lock() {
    let shared = SharedModule::new(Some(Echo::new()));
    let device = CDev::new_with_delegate("dev0", shared.clone(), 0x1000, 0x2000).device.unwrap();
    assert_eq!(cdev_open(&device), 0);
    assert_eq!(cdev_open(&device), 0);
    assert_eq!(cdev_close(&device), 0);
    let mut locked = shared.lock().unwrap();
    let echo = locked.slot_mut().as_ref().unwrap();
    assert_eq!(echo.opens, 2);
    assert_eq!(echo.closes, 1);
}

#[test]
fn load_write_read_unload() {
    let shared = shared_echo();
    assert_eq!(module_event(&shared, 0), 0);
    let (device, follow_up) = {
        let mut locked = shared.lock().unwrap();
        let echo = locked.slot_mut().as_mut().unwrap();
        assert!(echo.loaded);
        (echo.device.take().unwrap(), echo.follow_up.take().unwrap())
    };
    assert_eq!(follow_up, HostAction::StoreBackReference { device: 0x2000 });

    let mut reader = segment(b"abc");
    assert_eq!(cdev_write(&device, &mut reader), 0);
    assert_eq!(reader.consumed(), 3);

    let mut writer = buffer(4096);
    assert_eq!(cdev_read(&device, &mut writer), 0);
    assert_eq!(writer.position(), 3);
    assert_eq!(writer.into_host().received, b"abc");

    assert_eq!(module_event(&shared, 1), 0);
    assert!(shared.lock().unwrap().slot_mut().is_none());

    let mut late_reader = segment(b"late");
    assert_eq!(cdev_write(&device, &mut late_reader), 0);
    assert_eq!(late_reader.consumed(), 0);
    assert_eq!(late_reader.into_host().copies, 0);
    let mut late_writer = buffer(4096);
    assert_eq!(cdev_read(&device, &mut late_writer), 0);
    assert!(late_writer.into_host().received.is_empty());
    assert_eq!(cdev_open(&device), 0);
    assert_eq!(cdev_close(&device), 0);
    assert!(shared.lock().unwrap().slot_mut().is_none());

    assert_eq!(
        device.teardown(),
        vec![
            HostAction::DestroyDevice { device: 0x2000 },
            HostAction::FreeTable { table: 0x1000 },
        ]
    );
}

#[test]
fn allocation_asks_for_device_memory_and_waits() {
    let allocator = KernelAllocator;
    assert_eq!(
        allocator.allocate(64),
        ZoneRequest { size: 64, zone: Zone::DeviceBuffer, flags: 2 }
    );
    assert_eq!(M_WAITOK, 2);
    assert_eq!(
        allocator.dealloc(0xdead0),
        ZoneRelease { address: 0xdead0, zone: Zone::DeviceBuffer }
    );
}

#[test]
fn out_of_memory_halts() {
    assert_eq!(oom(4096), Halt::OutOfMemory { size: 4096 });
    assert_eq!(oom(0), Halt::OutOfMemory { size: 0 });
}
