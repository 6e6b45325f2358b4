//! The PCI configuration-space scan.  The mechanism is the legacy
//! port-pair protocol: an address selecting (bus, slot, function,
//! register) is written to the address port and the selected 32-bit
//! register read from the data port.  Here the configuration space is
//! held as data: a list of populated functions, each with its sixteen
//! header dwords; absent functions read as all ones, as the bus does.

use vstd::prelude::*;

verus! {

/// The device and vendor word pair of the Bochs VBE DISPI adapter.
pub const BOCHS_ID: u32 = 0x1111_1234;

/// One populated PCI function: its location and its sixteen
/// configuration header dwords.
#[derive(Debug, Clone, PartialEq, Eq)]
pub struct PciEntry {
    /// Bus number, below 256.
    pub bus: u32,
    /// Slot number, below 32.
    pub slot: u32,
    /// Function number, below 8.
    pub function: u32,
    /// The sixteen header dwords, by register index.
    pub config: Vec<u32>,
}

/// The PCI configuration space as the scan sees it.
#[derive(Debug, Clone, PartialEq, Eq)]
pub struct PciConfigSpace {
    /// The populated functions.
    pub devices: Vec<PciEntry>,
}

impl PciEntry {
    /// The entry is a full header at a valid location.
    pub open spec fn wf(&self) -> bool {
        &&& self.bus < 256
        &&& self.slot < 32
        &&& self.function < 8
        &&& self.config@.len() == 16
    }
}

impl PciConfigSpace {
    /// Every entry is well formed.
    pub open spec fn wf(&self) -> bool {
        forall|k: int| 0 <= k < self.devices@.len() ==> (#[trigger] self.devices@[k]).wf()
    }

    /// An empty bus: every read returns all ones.
    pub fn new() -> (r: PciConfigSpace)
        ensures
            r.wf(),
            r.devices@.len() == 0,
    {
        PciConfigSpace { devices: Vec::new() }
    }

    /// Adds one populated function.
    pub fn push_device(&mut self, entry: PciEntry)
        requires
            old(self).wf(),
            entry.wf(),
        ensures
            final(self).wf(),
            final(self).devices@ == old(self).devices@.push(entry),
    {
        self.devices.push(entry);
    }
}

/// The first populated entry at (bus, slot, function), front to back.
pub open spec fn space_lookup(s: Seq<PciEntry>, bus: int, slot: int, function: int) -> Option<
    PciEntry,
>
    decreases s.len(),
{
    if s.len() == 0 {
        None
    } else if s[0].bus == bus && s[0].slot == slot && s[0].function == function {
        Some(s[0])
    } else {
        space_lookup(s.drop_first(), bus, slot, function)
    }
}

/// Configuration dword `k` of function (bus, slot, function): its
/// header dword when populated, all ones when absent.
pub open spec fn space_dword(s: Seq<PciEntry>, bus: int, slot: int, function: int, k: int) -> u32 {
    match space_lookup(s, bus, slot, function) {
        Some(e) => e.config@[k],
        None => 0xFFFF_FFFF,
    }
}

/// The device and vendor word pair of function (bus, slot, function).
pub open spec fn space_id(s: Seq<PciEntry>, bus: int, slot: int, function: int) -> u32 {
    space_dword(s, bus, slot, function, 0)
}

/// Whether some function in scan range carries the identifier.
pub open spec fn space_has_id(s: Seq<PciEntry>, device_id: u32) -> bool {
    exists|b: int, sl: int, f: int|
        0 <= b < 256 && 0 <= sl < 32 && 0 <= f < 8 && #[trigger] space_id(s, b, sl, f) == device_id
}

/// Whether (bus, slot, function) is the first function in scan order
/// that carries the identifier.
pub open spec fn space_first_id(
    s: Seq<PciEntry>,
    device_id: u32,
    bus: int,
    slot: int,
    function: int,
) -> bool {
    &&& 0 <= bus < 256
    &&& 0 <= slot < 32
    &&& 0 <= function < 8
    &&& space_id(s, bus, slot, function) == device_id
    &&& forall|b: int, sl: int, f: int|
        0 <= b < 256 && 0 <= sl < 32 && 0 <= f < 8 && (b < bus || (b == bus && sl < slot) || (b
            == bus && sl == slot && f < function)) ==> #[trigger] space_id(s, b, sl, f)
            != device_id
}

/// One dword read through the address/data port pair: `address` selects
/// the function (with a clear low byte), `offset` the register.
pub fn read_offset(space: &PciConfigSpace, address: u32, offset: u32) -> (r: u32)
    requires
        space.wf(),
        address & 0xFF == 0,
        offset < 64,
    ensures
        r == space_dword(
            space.devices@,
            ((address >> 16) & 0xFF) as int,
            ((address >> 11) & 0x1F) as int,
            ((address >> 8) & 0x7) as int,
            offset as int / 4,
        ),
{
    let full = address | (offset & 0xFC);
    let bus = (full >> 16) & 0xFF;
    let slot = (full >> 11) & 0x1F;
    let function = (full >> 8) & 0x7;
    let register = (offset & 0xFC) >> 2;
    proof {
        assert(bus == (address >> 16) & 0xFF && slot == (address >> 11) & 0x1F && function == (
        address >> 8) & 0x7 && register == offset / 4 && register < 16) by (bit_vector)
            requires
                address & 0xFF == 0,
                offset < 64,
                full == address | (offset & 0xFC),
                bus == (full >> 16) & 0xFF,
                slot == (full >> 11) & 0x1F,
                function == (full >> 8) & 0x7,
                register == (offset & 0xFC) >> 2,
        ;
    }
    let index = register as usize;
    proof {
        assert(space.devices@.skip(0) =~= space.devices@);
    }
    let mut i: usize = 0;
    while i < space.devices.len()
        invariant
            space.wf(),
            i <= space.devices@.len(),
            index < 16,
            index == offset as int / 4,
            bus == (address >> 16) & 0xFF,
            slot == (address >> 11) & 0x1F,
            function == (address >> 8) & 0x7,
            space_lookup(space.devices@, bus as int, slot as int, function as int) == space_lookup(
                space.devices@.skip(i as int),
                bus as int,
                slot as int,
                function as int,
            ),
        decreases space.devices@.len() - i,
    {
        let entry = &space.devices[i];
        proof {
            assert(space.devices@.skip(i as int)[0] == space.devices@[i as int]);
            assert(space.devices@[i as int].wf());
        }
        if entry.bus == bus && entry.slot == slot && entry.function == function {
            proof {
                assert(space_lookup(
                    space.devices@.skip(i as int),
                    bus as int,
                    slot as int,
                    function as int,
                ) == Some(space.devices@[i as int]));
            }
            return entry.config[index];
        }
        proof {
            assert(space.devices@.skip(i as int).drop_first() =~= space.devices@.skip(i as int + 1));
        }
        i = i + 1;
    }
    proof {
        assert(space.devices@.skip(space.devices@.len() as int) =~= Seq::<PciEntry>::empty());
    }
    0xFFFF_FFFF
}

/// The high and low 16-bit words of configuration dword `offset / 4`.
pub fn read_2_words(space: &PciConfigSpace, address: u32, offset: u32) -> (r: (u16, u16))
    requires
        space.wf(),
        address & 0xFF == 0,
        offset < 64,
    ensures
        ({
            let d = space_dword(
                space.devices@,
                ((address >> 16) & 0xFF) as int,
                ((address >> 11) & 0x1F) as int,
                ((address >> 8) & 0x7) as int,
                offset as int / 4,
            );
            r.0 == d >> 16 && r.1 == d & 0xFFFF
        }),
{
    let value = read_offset(space, address, offset);
    let high_word = (value >> 16) as u16;
    let low_word = (value & 0xFFFF) as u16;
    proof {
        assert(high_word == value >> 16 && low_word == value & 0xFFFF) by (bit_vector)
            requires
                high_word == ((value >> 16) as u16),
                low_word == ((value & 0xFFFF) as u16),
        ;
    }
    (high_word, low_word)
}

/// The four bytes of configuration dword `offset / 4`, highest first.
pub fn read_4_bytes(space: &PciConfigSpace, address: u32, offset: u32) -> (r: (u8, u8, u8, u8))
    requires
        space.wf(),
        address & 0xFF == 0,
        offset < 64,
    ensures
        ({
            let d = space_dword(
                space.devices@,
                ((address >> 16) & 0xFF) as int,
                ((address >> 11) & 0x1F) as int,
                ((address >> 8) & 0x7) as int,
                offset as int / 4,
            );
            r.0 == d >> 24 && r.1 == (d >> 16) & 0xFF && r.2 == (d >> 8) & 0xFF && r.3 == d & 0xFF
        }),
{
    let value = read_offset(space, address, offset);
    let high_word_high_byte = (value >> 24) as u8;
    let high_word_low_byte = ((value >> 16) & 0xFF) as u8;
    let low_word_high_byte = ((value >> 8) & 0xFF) as u8;
    let low_word_low_byte = (value & 0xFF) as u8;
    proof {
        assert(high_word_high_byte == value >> 24 && high_word_low_byte == (value >> 16) & 0xFF
            && low_word_high_byte == (value >> 8) & 0xFF && low_word_low_byte == value & 0xFF)
            by (bit_vector)
            requires
                high_word_high_byte == ((value >> 24) as u8),
                high_word_low_byte == (((value >> 16) & 0xFF) as u8),
                low_word_high_byte == (((value >> 8) & 0xFF) as u8),
                low_word_low_byte == ((value & 0xFF) as u8),
        ;
    }
    (high_word_high_byte, high_word_low_byte, low_word_high_byte, low_word_low_byte)
}

/// A PCI device's 64-byte configuration header, decoded.
#[derive(Debug, Copy, Clone, PartialEq, Eq)]
pub struct PciDevice {
    /// Vendor identifier.
    pub vendor_id: u16,
    /// Device identifier.
    pub device_id: u16,
    /// Command register.
    pub command: u16,
    /// Status register.
    pub status: u16,
    /// Revision.
    pub revision_id: u8,
    /// Programming interface.
    pub prog_if: u8,
    /// Subclass code.
    pub sub_class: u8,
    /// Base class code.
    pub base_class: u8,
    /// Cache line size.
    pub cache_line_size: u8,
    /// Latency timer.
    pub latency_timer: u8,
    /// Header type.
    pub header_type: u8,
    /// Built-in self test register.
    pub bist: u8,
    /// The six base address registers.
    pub base_addresses: [u32; 6],
    /// CardBus CIS pointer.
    pub cis: u32,
    /// Subsystem vendor identifier.
    pub sub_vendor_id: u16,
    /// Subsystem identifier.
    pub sub_system_id: u16,
    /// Expansion ROM base address.
    pub rom_base_address: u32,
    /// Reserved dwords.
    pub reserved_2: [u32; 2],
    /// Interrupt line.
    pub interrupt_line: u8,
    /// Interrupt pin.
    pub interrupt_pin: u8,
    /// Minimum grant.
    pub minimum_grant: u8,
    /// Maximum latency.
    pub maximum_latency: u8,
}

/// Whether `d` is the decoded header of function (bus, slot, function).
pub open spec fn pci_device_matches(
    s: Seq<PciEntry>,
    bus: int,
    slot: int,
    function: int,
    d: PciDevice,
) -> bool {
    &&& d.vendor_id == space_dword(s, bus, slot, function, 0) & 0xFFFF
    &&& d.device_id == space_dword(s, bus, slot, function, 0) >> 16
    &&& d.command == space_dword(s, bus, slot, function, 1) & 0xFFFF
    &&& d.status == space_dword(s, bus, slot, function, 1) >> 16
    &&& d.revision_id == space_dword(s, bus, slot, function, 2) & 0xFF
    &&& d.prog_if == (space_dword(s, bus, slot, function, 2) >> 8) & 0xFF
    &&& d.sub_class == (space_dword(s, bus, slot, function, 2) >> 16) & 0xFF
    &&& d.base_class == space_dword(s, bus, slot, function, 2) >> 24
    &&& d.cache_line_size == space_dword(s, bus, slot, function, 3) & 0xFF
    &&& d.latency_timer == (space_dword(s, bus, slot, function, 3) >> 8) & 0xFF
    &&& d.header_type == (space_dword(s, bus, slot, function, 3) >> 16) & 0xFF
    &&& d.bist == space_dword(s, bus, slot, function, 3) >> 24
    &&& forall|k: int|
        0 <= k < 6 ==> #[trigger] d.base_addresses@[k] == space_dword(s, bus, slot, function, 4 + k)
    &&& d.cis == space_dword(s, bus, slot, function, 10)
    &&& d.sub_vendor_id == space_dword(s, bus, slot, function, 11) & 0xFFFF
    &&& d.sub_system_id == space_dword(s, bus, slot, function, 11) >> 16
    &&& d.rom_base_address == space_dword(s, bus, slot, function, 12)
    &&& d.reserved_2@[0] == space_dword(s, bus, slot, function, 13)
    &&& d.reserved_2@[1] == space_dword(s, bus, slot, function, 14)
    &&& d.interrupt_line == space_dword(s, bus, slot, function, 15) & 0xFF
    &&& d.interrupt_pin == (space_dword(s, bus, slot, function, 15) >> 8) & 0xFF
    &&& d.minimum_grant == (space_dword(s, bus, slot, function, 15) >> 16) & 0xFF
    &&& d.maximum_latency == space_dword(s, bus, slot, function, 15) >> 24
}

/// Reads and decodes the 64-byte configuration header of the function
/// `address` selects.
pub fn read_device(space: &PciConfigSpace, address: u32) -> (d: PciDevice)
    requires
        space.wf(),
        address & 0xFF == 0,
    ensures
        pci_device_matches(
            space.devices@,
            ((address >> 16) & 0xFF) as int,
            ((address >> 11) & 0x1F) as int,
            ((address >> 8) & 0x7) as int,
            d,
        ),
{
    let (device_id, vendor_id) = read_2_words(space, address, 0x00);
    let (status, command) = read_2_words(space, address, 0x04);
    let (base_class, sub_class, prog_if, revision_id) = read_4_bytes(space, address, 0x08);
    let (bist, header_type, latency_timer, cache_line_size) = read_4_bytes(space, address, 0x0C);
    let base_addresses: [u32; 6] = [
        read_offset(space, address, 0x10),
        read_offset(space, address, 0x14),
        read_offset(space, address, 0x18),
        read_offset(space, address, 0x1C),
        read_offset(space, address, 0x20),
        read_offset(space, address, 0x24),
    ];
    let cis = read_offset(space, address, 0x28);
    let (sub_system_id, sub_vendor_id) = read_2_words(space, address, 0x2C);
    let rom_base_address = read_offset(space, address, 0x30);
    let reserved_2: [u32; 2] = [
        read_offset(space, address, 0x34),
        read_offset(space, address, 0x38),
    ];
    let (maximum_latency, minimum_grant, interrupt_pin, interrupt_line) = read_4_bytes(
        space,
        address,
        0x3C,
    );

    PciDevice {
        vendor_id,
        device_id,
        status,
        command,
        base_class,
        sub_class,
        prog_if,
        revision_id,
        bist,
        header_type,
        latency_timer,
        cache_line_size,
        base_addresses,
        cis,
        sub_system_id,
        sub_vendor_id,
        rom_base_address,
        reserved_2,
        maximum_latency,
        minimum_grant,
        interrupt_pin,
        interrupt_line,
    }
}

/// Scans bus 0 through 255, slot 0 through 31, function 0 through 7 in
/// order and returns the decoded header of the first function whose
/// device and vendor word pair equals `device_id`, or `None` when no
/// function carries it.
pub fn find_pci_device(space: &PciConfigSpace, device_id: u32) -> (r: Option<PciDevice>)
    requires
        space.wf(),
    ensures
        r is Some <==> space_has_id(space.devices@, device_id),
        r matches Some(d) ==> exists|b: int, sl: int, f: int|
            #[trigger] space_first_id(space.devices@, device_id, b, sl, f) && pci_device_matches(
                space.devices@,
                b,
                sl,
                f,
                d,
            ),
{
    let mut bus: u32 = 0;
    while bus < 256
        invariant
            space.wf(),
            bus <= 256,
            forall|b: int, sl: int, f: int|
                0 <= b < bus && 0 <= sl < 32 && 0 <= f < 8 ==> #[trigger] space_id(
                    space.devices@,
                    b,
                    sl,
                    f,
                ) != device_id,
        decreases 256 - bus,
    {
        let mut slot: u32 = 0;
        while slot < 32
            invariant
                space.wf(),
                bus < 256,
                slot <= 32,
                forall|b: int, sl: int, f: int|
                    0 <= b < bus && 0 <= sl < 32 && 0 <= f < 8 ==> #[trigger] space_id(
                        space.devices@,
                        b,
                        sl,
                        f,
                    ) != device_id,
                forall|sl: int, f: int|
                    0 <= sl < slot && 0 <= f < 8 ==> #[trigger] space_id(
                        space.devices@,
                        bus as int,
                        sl,
                        f,
                    ) != device_id,
            decreases 32 - slot,
        {
            let mut function: u32 = 0;
            while function < 8
                invariant
                    space.wf(),
                    bus < 256,
                    slot < 32,
                    function <= 8,
                    forall|b: int, sl: int, f: int|
                        0 <= b < bus && 0 <= sl < 32 && 0 <= f < 8 ==> #[trigger] space_id(
                            space.devices@,
                            b,
                            sl,
                            f,
                        ) != device_id,
                    forall|sl: int, f: int|
                        0 <= sl < slot && 0 <= f < 8 ==> #[trigger] space_id(
                            space.devices@,
                            bus as int,
                            sl,
                            f,
                        ) != device_id,
                    forall|f: int|
                        0 <= f < function ==> #[trigger] space_id(
                            space.devices@,
                            bus as int,
                            slot as int,
                            f,
                        ) != device_id,
                decreases 8 - function,
            {
                let address = (bus << 16) | (slot << 11) | (function << 8) | 0x8000_0000;
                proof {
                    assert(address & 0xFF == 0 && (address >> 16) & 0xFF == bus && (address >> 11)
                        & 0x1F == slot && (address >> 8) & 0x7 == function) by (bit_vector)
                        requires
                            bus < 256,
                            slot < 32,
                            function < 8,
                            address == ((bus << 16) | (slot << 11) | (function << 8)
                                | 0x8000_0000),
                    ;
                }
                if read_offset(space, address, 0) == device_id {
                    let d = read_device(space, address);
                    proof {
                        assert(space_first_id(
                            space.devices@,
                            device_id,
                            bus as int,
                            slot as int,
                            function as int,
                        ));
                        assert(space_has_id(space.devices@, device_id));
                    }
                    return Some(d);
                }
                function = function + 1;
            }
            slot = slot + 1;
        }
        proof {
            assert forall|b: int, sl: int, f: int|
                0 <= b < bus + 1 && 0 <= sl < 32 && 0 <= f < 8 implies #[trigger] space_id(
                space.devices@,
                b,
                sl,
                f,
            ) != device_id by {
                if b == bus {
                    assert(space_id(space.devices@, bus as int, sl, f) != device_id);
                }
            }
        }
        bus = bus + 1;
    }
    proof {
        assert(!space_has_id(space.devices@, device_id));
    }
    None
}

} // verus!
