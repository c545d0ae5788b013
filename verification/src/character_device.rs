//! Registration of a character device with the host, and the dispatch of
//! the host's per-request callbacks to the driver instance.

use crate::module::SharedModule;
use crate::uio::{BufferMove, CopyIn, UioReader, UioWriter};
use vstd::prelude::*;

verus! {

/// The user that owns a device node: root.
pub const UID_ROOT: u32 = 0;

/// The group that owns a device node: wheel.
pub const GID_WHEEL: u32 = 0;

/// The access mode of a device node: read and write for owner and group.
pub const DEVICE_MODE: i32 = 0o660;

/// The status that every callback hands back to the host.
pub const CALLBACK_OK: i32 = 0;

/// The capability set of a character device.
///
/// Each capability comes with a relation that says what it does to the
/// driver, and to the transfer descriptor where it has one. A driver may
/// state its own relations, and the dispatch functions promise them to
/// their callers; a driver that states none promises nothing.
pub trait CharacterDevice {
    /// What an open does: `self` is the driver before, `after` the driver
    /// after.
    open spec fn opened(&self, after: &Self) -> bool {
        true
    }

    /// What a close does to the driver.
    open spec fn closed(&self, after: &Self) -> bool {
        true
    }

    /// What a read request does to the driver and to its writer.
    open spec fn was_read<H: BufferMove>(
        &self,
        after: &Self,
        uio: &UioWriter<H>,
        uio_after: &UioWriter<H>,
    ) -> bool {
        true
    }

    /// What a write request does to the driver and to its reader.
    open spec fn was_written<H: CopyIn>(
        &self,
        after: &Self,
        uio: &UioReader<H>,
        uio_after: &UioReader<H>,
    ) -> bool {
        true
    }

    /// The device node was opened.
    fn open(&mut self)
        ensures
            old(self).opened(final(self)),
    ;

    /// The device node was closed.
    fn close(&mut self)
        ensures
            old(self).closed(final(self)),
    ;

    /// A read request: the driver sends its data through `uio`.
    fn read<H: BufferMove>(&mut self, uio: &mut UioWriter<H>)
        ensures
            old(self).was_read(final(self), old(uio), final(uio)),
    ;

    /// A write request: the driver takes the user's data from `uio`.
    fn write<H: CopyIn>(&mut self, uio: &mut UioReader<H>)
        ensures
            old(self).was_written(final(self), old(uio), final(uio)),
    ;
}

/// The content of the native callback table built for one registration:
/// its version and name, and which entry points are set.
#[derive(Copy, Clone, Debug)]
pub struct CallbackTable {
    /// The version of the table's layout, as the host defines it.
    pub version: i32,
    /// The flags of the table.
    pub flags: u32,
    /// The name of the driver.
    pub name: &'static str,
    /// Whether the entry point for open is set.
    pub open: bool,
    /// Whether the entry point for close is set.
    pub close: bool,
    /// Whether the entry point for read is set.
    pub read: bool,
    /// Whether the entry point for write is set.
    pub write: bool,
}

/// What is asked of the host's `make_device`.
#[derive(Copy, Clone, Debug)]
pub struct DeviceRequest {
    /// The callback table to register.
    pub table: CallbackTable,
    /// The unit number.
    pub unit: i32,
    /// The owning user.
    pub uid: u32,
    /// The owning group.
    pub gid: u32,
    /// The access mode.
    pub mode: i32,
    /// The name of the device node.
    pub name: &'static str,
}

/// One call into the host's device subsystem.
#[derive(Copy, Clone, Debug, PartialEq, Eq, Structural)]
pub enum HostAction {
    /// Store the address of the wrapper in the private slot of `device`.
    StoreBackReference { device: usize },
    /// Unregister `device`, after which no callback arrives for it.
    DestroyDevice { device: usize },
    /// Free the callback table at `table`.
    FreeTable { table: usize },
}

/// What the host holds on behalf of the framework: the callback tables that
/// are allocated and the devices that are registered.
pub struct HostLedger {
    /// The addresses of the allocated callback tables.
    pub tables: Set<usize>,
    /// The handles of the registered devices.
    pub devices: Set<usize>,
}

/// The ledger after the host has created `device` with a new table at
/// `table`.
pub open spec fn registered(ledger: HostLedger, table: usize, device: usize) -> HostLedger {
    HostLedger { tables: ledger.tables.insert(table), devices: ledger.devices.insert(device) }
}

/// The ledger after one call into the host.
pub open spec fn perform(ledger: HostLedger, action: HostAction) -> HostLedger {
    match action {
        HostAction::StoreBackReference { .. } => ledger,
        HostAction::DestroyDevice { device } => HostLedger {
            tables: ledger.tables,
            devices: ledger.devices.remove(device),
        },
        HostAction::FreeTable { table } => HostLedger {
            tables: ledger.tables.remove(table),
            devices: ledger.devices,
        },
    }
}

/// The calls that end the registration of `device` with its table at
/// `table`, in the order in which they are made.
pub open spec fn teardown_plan(device: usize, table: usize) -> Seq<HostAction> {
    seq![HostAction::DestroyDevice { device }, HostAction::FreeTable { table }]
}

/// The call that completes a registration for which the host returned the
/// handle `cdev`: a null handle frees the table, any other handle gets the
/// back-reference.
pub open spec fn registration_follow_up(table: usize, cdev: usize) -> HostAction {
    if cdev == 0 {
        HostAction::FreeTable { table }
    } else {
        HostAction::StoreBackReference { device: cdev }
    }
}

/// A refused registration leaves nothing behind: once the follow-up call is
/// made, the table that was allocated for it is free again and the ledger
/// is what it was before.
pub proof fn lemma_refused_registration_leaves_nothing(ledger: HostLedger, table: usize)
    requires
        !ledger.tables.contains(table),
    ensures
        perform(
            HostLedger { tables: ledger.tables.insert(table), devices: ledger.devices },
            registration_follow_up(table, 0),
        ) == ledger,
{
    let after = perform(
        HostLedger { tables: ledger.tables.insert(table), devices: ledger.devices },
        registration_follow_up(table, 0),
    );
    assert(after.tables =~= ledger.tables);
}

/// An accepted registration holds exactly its one table and its one device,
/// and its follow-up call releases neither.
pub proof fn lemma_accepted_registration_holds_both(
    ledger: HostLedger,
    table: usize,
    device: usize,
)
    requires
        device != 0,
    ensures
        perform(registered(ledger, table, device), registration_follow_up(table, device))
            == registered(ledger, table, device),
        registered(ledger, table, device).tables.contains(table),
        registered(ledger, table, device).devices.contains(device),
{
}

/// Teardown releases the device and the table, each by one call, and the
/// device first: after the first call the device is gone while its table is
/// still allocated, and after the second the ledger is what it was before
/// the registration.
pub proof fn lemma_teardown_releases_device_then_table(
    ledger: HostLedger,
    table: usize,
    device: usize,
)
    requires
        !ledger.tables.contains(table),
        !ledger.devices.contains(device),
    ensures
        teardown_plan(device, table).len() == 2,
        teardown_plan(device, table)[0] == (HostAction::DestroyDevice { device }),
        teardown_plan(device, table)[1] == (HostAction::FreeTable { table }),
        !perform(registered(ledger, table, device), teardown_plan(device, table)[0])
            .devices.contains(device),
        perform(registered(ledger, table, device), teardown_plan(device, table)[0])
            .tables.contains(table),
        perform(
            perform(registered(ledger, table, device), teardown_plan(device, table)[0]),
            teardown_plan(device, table)[1],
        ) == ledger,
{
    let first = perform(registered(ledger, table, device), teardown_plan(device, table)[0]);
    let second = perform(first, teardown_plan(device, table)[1]);
    assert(second.tables =~= ledger.tables);
    assert(second.devices =~= ledger.devices);
}

/// The outcome of a registration: the wrapper, if the host created the
/// device, and the call that completes the outcome.
#[verifier::reject_recursive_types(T)]
pub struct Registration<T: CharacterDevice> {
    /// The wrapper of the live registration, or `None` if the host refused.
    pub device: Option<Box<CDev<T>>>,
    /// What remains to be done with the host.
    pub follow_up: HostAction,
}

/// One live registration with the host: the device handle, the callback
/// table and the driver that the callbacks are forwarded to.
#[verifier::reject_recursive_types(T)]
pub struct CDev<T: CharacterDevice> {
    name: &'static str,
    cdev: usize,
    table: usize,
    delegate: SharedModule<T>,
}

impl<T: CharacterDevice> CDev<T> {
    /// The host's handle of the device.
    pub closed spec fn handle(&self) -> usize {
        self.cdev
    }

    /// The address of the callback table.
    pub closed spec fn table(&self) -> usize {
        self.table
    }

    /// The name of the device node.
    pub closed spec fn node_name(&self) -> &'static str {
        self.name
    }

    /// The shared slot of the driver that the callbacks are forwarded to.
    pub closed spec fn delegate(&self) -> SharedModule<T> {
        self.delegate
    }

    /// What to ask of the host to register a device called `name`: a table
    /// of the given layout version with the four entry points set, owned by
    /// root and wheel, with mode 0660.
    pub fn request(name: &'static str, version: i32) -> (request: DeviceRequest)
        ensures
            request.name == name,
            request.unit == 0,
            request.uid == UID_ROOT,
            request.gid == GID_WHEEL,
            request.mode == DEVICE_MODE,
            request.table.version == version,
            request.table.flags == 0,
            request.table.name@ == "helloworld"@,
            request.table.open && request.table.close && request.table.read
                && request.table.write,
    {
        DeviceRequest {
            table: CallbackTable {
                version,
                flags: 0,
                name: "helloworld",
                open: true,
                close: true,
                read: true,
                write: true,
            },
            unit: 0,
            uid: UID_ROOT,
            gid: GID_WHEEL,
            mode: DEVICE_MODE,
            name,
        }
    }

    /// Completes a registration once the host has answered. `table` is the
    /// address of the callback table and `cdev` the handle that the host
    /// returned, 0 for a null handle.
    ///
    /// On a null handle there is no wrapper, and the table is to be freed.
    /// Otherwise the wrapper owns handle, table and delegate, and its address
    /// is to be stored in the device.
    pub fn new_with_delegate(
        name: &'static str,
        delegate: SharedModule<T>,
        table: usize,
        cdev: usize,
    ) -> (r: Registration<T>)
        ensures
            r.follow_up == registration_follow_up(table, cdev),
            cdev == 0 ==> r.device.is_none(),
            cdev != 0 ==> r.device.is_some() && r.device.unwrap().handle() == cdev
                && r.device.unwrap().table() == table && r.device.unwrap().delegate()
                == delegate && r.device.unwrap().node_name() == name,
    {
        if cdev == 0 {
            Registration { device: None, follow_up: HostAction::FreeTable { table } }
        } else {
            Registration {
                device: Some(Box::new(CDev { name, cdev, table, delegate })),
                follow_up: HostAction::StoreBackReference { device: cdev },
            }
        }
    }

    /// The host's handle of the device.
    pub fn device(&self) -> (handle: usize)
        ensures
            handle == self.handle(),
    {
        self.cdev
    }

    /// The name of the device node.
    pub fn name(&self) -> (name: &'static str)
        ensures
            name == self.node_name(),
    {
        self.name
    }

    /// The address of the callback table.
    pub fn callback_table(&self) -> (table: usize)
        ensures
            table == self.table(),
    {
        self.table
    }

    /// Ends the registration. The calls to make are returned in the order
    /// in which they must be made: the device is unregistered first, so that
    /// no callback can arrive, and only then is the callback table freed.
    pub fn teardown(self) -> (plan: Vec<HostAction>)
        ensures
            plan@ == teardown_plan(self.handle(), self.table()),
    {
        let mut plan: Vec<HostAction> = Vec::new();
        plan.push(HostAction::DestroyDevice { device: self.cdev });
        plan.push(HostAction::FreeTable { table: self.table });
        proof {
            assert(plan@ =~= teardown_plan(self.handle(), self.table()));
        }
        plan
    }
}

/// An open as the slot sees it: a live driver is opened and stays in the
/// slot, an empty slot stays empty.
pub open spec fn open_forwarded<T: CharacterDevice>(before: Option<T>, after: Option<T>) -> bool {
    match before {
        Some(driver) => after.is_some() && driver.opened(&after.unwrap()),
        None => after.is_none(),
    }
}

/// A close as the slot sees it: a live driver is closed and stays in the
/// slot, an empty slot stays empty.
pub open spec fn close_forwarded<T: CharacterDevice>(before: Option<T>, after: Option<T>) -> bool {
    match before {
        Some(driver) => after.is_some() && driver.closed(&after.unwrap()),
        None => after.is_none(),
    }
}

/// A read request as the slot sees it: a live driver serves it through the
/// writer and stays in the slot; with an empty slot nothing is sent.
pub open spec fn read_forwarded<T: CharacterDevice, H: BufferMove>(
    before: Option<T>,
    after: Option<T>,
    uio: UioWriter<H>,
    uio_after: UioWriter<H>,
) -> bool {
    match before {
        Some(driver) => after.is_some() && driver.was_read(&after.unwrap(), &uio, &uio_after),
        None => after.is_none() && uio_after == uio,
    }
}

/// A write request as the slot sees it: a live driver serves it through the
/// reader and stays in the slot; with an empty slot nothing is taken.
pub open spec fn write_forwarded<T: CharacterDevice, H: CopyIn>(
    before: Option<T>,
    after: Option<T>,
    uio: UioReader<H>,
    uio_after: UioReader<H>,
) -> bool {
    match before {
        Some(driver) => after.is_some() && driver.was_written(&after.unwrap(), &uio, &uio_after),
        None => after.is_none() && uio_after == uio,
    }
}

/// Forwards an open to the driver instance, if the slot holds one.
pub fn open_slot<T: CharacterDevice>(slot: &mut Option<T>)
    ensures
        open_forwarded(*old(slot), *final(slot)),
{
    match slot {
        Some(instance) => {
            instance.open();
        },
        None => {},
    }
}

/// Forwards a close to the driver instance, if the slot holds one.
pub fn close_slot<T: CharacterDevice>(slot: &mut Option<T>)
    ensures
        close_forwarded(*old(slot), *final(slot)),
{
    match slot {
        Some(instance) => {
            instance.close();
        },
        None => {},
    }
}

/// Forwards a read request to the driver instance, if the slot holds one.
/// With an empty slot nothing is sent.
pub fn read_slot<T: CharacterDevice, H: BufferMove>(slot: &mut Option<T>, uio: &mut UioWriter<H>)
    ensures
        read_forwarded(*old(slot), *final(slot), *old(uio), *final(uio)),
{
    match slot {
        Some(instance) => {
            instance.read(uio);
        },
        None => {},
    }
}

/// Forwards a write request to the driver instance, if the slot holds one.
/// With an empty slot nothing is taken.
pub fn write_slot<T: CharacterDevice, H: CopyIn>(slot: &mut Option<T>, uio: &mut UioReader<H>)
    ensures
        write_forwarded(*old(slot), *final(slot), *old(uio), *final(uio)),
{
    match slot {
        Some(instance) => {
            instance.write(uio);
        },
        None => {},
    }
}

/// The host's open callback: locks the driver's slot and forwards the open.
pub fn cdev_open<T: CharacterDevice>(dev: &CDev<T>) -> (status: i32)
    ensures
        status == CALLBACK_OK,
{
    match dev.delegate.lock() {
        Some(mut locked) => {
            open_slot(locked.slot_mut());
        },
        None => {},
    }
    CALLBACK_OK
}

/// The host's callback for an open by file descriptor: nothing to do.
pub fn cdev_fdopen() -> (status: i32)
    ensures
        status == CALLBACK_OK,
{
    CALLBACK_OK
}

/// The host's close callback: locks the driver's slot and forwards the close.
pub fn cdev_close<T: CharacterDevice>(dev: &CDev<T>) -> (status: i32)
    ensures
        status == CALLBACK_OK,
{
    match dev.delegate.lock() {
        Some(mut locked) => {
            close_slot(locked.slot_mut());
        },
        None => {},
    }
    CALLBACK_OK
}

/// The host's read callback: locks the driver's slot and forwards the
/// request with its writer.
pub fn cdev_read<T: CharacterDevice, H: BufferMove>(dev: &CDev<T>, uio: &mut UioWriter<H>) -> (status:
    i32)
    ensures
        status == CALLBACK_OK,
        exists|before: Option<T>, after: Option<T>|
            read_forwarded(before, after, *old(uio), *final(uio)),
{
    match dev.delegate.lock() {
        Some(mut locked) => {
            let slot = locked.slot_mut();
            let ghost before = *slot;
            read_slot(slot, uio);
            proof {
                assert(read_forwarded(before, *slot, *old(uio), *uio));
            }
        },
        None => {
            proof {
                assert(read_forwarded(None::<T>, None::<T>, *old(uio), *uio));
            }
        },
    }
    CALLBACK_OK
}

/// The host's write callback: locks the driver's slot and forwards the
/// request with its reader.
pub fn cdev_write<T: CharacterDevice, H: CopyIn>(dev: &CDev<T>, uio: &mut UioReader<H>) -> (status:
    i32)
    ensures
        status == CALLBACK_OK,
        exists|before: Option<T>, after: Option<T>|
            write_forwarded(before, after, *old(uio), *final(uio)),
{
    match dev.delegate.lock() {
        Some(mut locked) => {
            let slot = locked.slot_mut();
            let ghost before = *slot;
            write_slot(slot, uio);
            proof {
                assert(write_forwarded(before, *slot, *old(uio), *uio));
            }
        },
        None => {
            proof {
                assert(write_forwarded(None::<T>, None::<T>, *old(uio), *uio));
            }
        },
    }
    CALLBACK_OK
}

} // verus!
