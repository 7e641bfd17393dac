use kernel_core::acpi::{find_table, Acpi, Mcfg, RsdpStruct, SystemDescriptionTableHeader, Xsdt};
use kernel_core::error::Error;
use kernel_core::loader::{Elf, Segment};
use kernel_core::pci::{
    BusDeviceFunction, Pci, PciDeviceDriver, PciDeviceDriverInstance, VendorDeviceId,
};

#[test]
fn construct_bus_device_function() {
    let bus = 11;
    let device = 7;
    let function = 5;
    let bdf = BusDeviceFunction::new(bus, device, function)
        .ok()
        .expect("Failed to construct BusDeviceFunction");
    assert!(bdf.bus() == bus);
    assert!(bdf.device() == device);
    assert!(bdf.function() == function);
}

#[test]
fn bus_device_function_round_trip_over_all() {
    for bus in 0..256 {
        for device in 0..32 {
            for function in 0..8 {
                let bdf = BusDeviceFunction::new(bus, device, function).ok().unwrap();
                assert_eq!((bdf.bus(), bdf.device(), bdf.function()), (bus, device, function));
            }
        }
    }
}

#[test]
fn bus_device_function_equal_for_equal_triples() {
    let a = BusDeviceFunction::new(3, 4, 5).ok().unwrap();
    let b = BusDeviceFunction::new(3, 4, 5).ok().unwrap();
    let c = BusDeviceFunction::new(3, 4, 6).ok().unwrap();
    assert!(a == b);
    assert!(a != c);
}

#[test]
fn bus_device_function_out_of_range() {
    assert!(matches!(
        BusDeviceFunction::new(256, 0, 0),
        Err(Error::PciBusDeviceFunctionOutOfRange)
    ));
    assert!(matches!(
        BusDeviceFunction::new(0, 32, 0),
        Err(Error::PciBusDeviceFunctionOutOfRange)
    ));
    assert!(matches!(
        BusDeviceFunction::new(0, 0, 8),
        Err(Error::PciBusDeviceFunctionOutOfRange)
    ));
    assert!(BusDeviceFunction::new(255, 31, 7).is_ok());
}

#[test]
fn bus_device_function_iterator() {
    let mut it = BusDeviceFunction::iter();
    let mut count = 0;
    while let Some(bdf) = it.next() {
        let i = count;
        assert!(bdf.bus() == i >> 8);
        assert!(bdf.device() == (i >> 3) & 0b11111);
        assert!(bdf.function() == i & 0b111);
        count += 1;
    }
    assert_eq!(count, 0x10000);
    assert!(it.next().is_none());
    assert_eq!(BusDeviceFunction::iter().collect().len(), 0x10000);
}

#[test]
fn ids_are_written_in_hex() {
    let vd = VendorDeviceId { vendor: 0x10ec, device: 0x8139 };
    assert_eq!(vd.fmt_common(), "(vendor: 0x10EC, device: 0x8139)");
    assert_eq!(format!("{:#06X}", 0x10ecu16), "0x10EC");
    let vd = VendorDeviceId { vendor: 0x1, device: 0 };
    assert_eq!(vd.fmt_common(), "(vendor: 0x0001, device: 0x0000)");
    let bdf = BusDeviceFunction::new(11, 7, 5).ok().unwrap();
    assert_eq!(bdf.fmt_common(), "(bus: 0x0B, device: 0x07, function: 0x5)");
    assert_eq!(
        bdf.fmt_common(),
        format!("(bus: {:#04X}, device: {:#04X}, function: {:#03X})", 11, 7, 5)
    );
}

fn mcfg_bytes(entries: &[(u64, u8, u8)]) -> Vec<u8> {
    let mut t = vec![0u8; 44];
    t[0..4].copy_from_slice(b"MCFG");
    let len = (44 + 16 * entries.len()) as u32;
    t[4..8].copy_from_slice(&len.to_le_bytes());
    for (base, start, end) in entries {
        t.extend_from_slice(&base.to_le_bytes());
        t.extend_from_slice(&[0, 0, *start, *end, 0, 0, 0, 0]);
    }
    t
}

#[test]
fn mcfg_entries_are_read() {
    let m = Mcfg::new(&mcfg_bytes(&[(0xb000_0000, 0, 255), (0x1_2345_6789, 1, 2)])).ok().unwrap();
    assert_eq!(m.header_size(), 44);
    assert_eq!(m.num_of_entries(), 2);
    assert_eq!(m.entry(0).unwrap().base_address(), 0xb000_0000);
    assert_eq!(m.entry(1).unwrap().base_address(), 0x1_2345_6789);
    assert_eq!(m.entry(1).unwrap().start_pci_bus, 1);
    assert!(m.entry(2).is_none());
    assert_eq!(m.entry(0).unwrap().to_text(), "ECAM: Bus range [0,255] is mapped at 0xB0000000");
    assert_eq!(
        m.entry(1).unwrap().to_text(),
        format!("ECAM: Bus range [{},{}] is mapped at {:#X}", 1, 2, 0x1_2345_6789u64)
    );
    let mut bad = mcfg_bytes(&[(1, 0, 0)]);
    bad[0] = b'X';
    assert!(Mcfg::new(&bad).is_err());
    let mut short = mcfg_bytes(&[(1, 0, 0)]);
    short.truncate(50);
    assert!(Mcfg::new(&short).is_err());
    assert!(Mcfg::new(&[0u8; 10]).is_err());
}

#[test]
fn pci_addresses_follow_the_bdf() {
    let m = Mcfg::new(&mcfg_bytes(&[(0xb000_0000, 0, 255)])).ok().unwrap();
    let pci = Pci::new(&m);
    assert_eq!(pci.ecm_start, 0xb000_0000);
    assert_eq!(pci.ecm_end, 0xb100_0000);
    let bdf = BusDeviceFunction::new(1, 2, 3).ok().unwrap();
    assert_eq!(pci.ecm_base(bdf), 0xb000_0000 + ((256 + 16 + 3) << 12));
    assert_eq!(pci.register_addr(bdf, 0x0e), 0xb000_0000 + ((256 + 16 + 3) << 12) + 0x0e);
    assert_eq!(pci.register_addr_u16(bdf, 2), 0xb000_0000 + ((256 + 16 + 3) << 12) + 2);
    assert_eq!(pci.register_addr_u32(bdf, 0x10), 0xb000_0000 + ((256 + 16 + 3) << 12) + 0x10);
    assert_eq!(pci.read_vendor_id_and_device_id(0xffff, 1), None);
    assert_eq!(pci.read_vendor_id_and_device_id(1, 0xffff), None);
    assert_eq!(
        pci.read_vendor_id_and_device_id(0x10ec, 0x8139),
        Some(VendorDeviceId { vendor: 0x10ec, device: 0x8139 })
    );
}

#[test]
fn xsdt_and_tables() {
    let mut t = vec![0u8; 36];
    t[0..4].copy_from_slice(b"XSDT");
    t[4..8].copy_from_slice(&(36u32 + 16).to_le_bytes());
    t.extend_from_slice(&0x1111u64.to_le_bytes());
    t.extend_from_slice(&0x2222_0000_0000u64.to_le_bytes());
    let x = Xsdt::new(&t).unwrap();
    assert_eq!(x.header_size(), 36);
    assert_eq!(x.num_of_entries(), 2);
    let mut it = x.iter();
    assert_eq!(it.next(), Some(0x1111));
    assert_eq!(it.next(), Some(0x2222_0000_0000));
    assert_eq!(it.next(), None);
    t[1] = b'x';
    assert!(Xsdt::new(&t).is_none());
    let tables = vec![
        SystemDescriptionTableHeader { signature: *b"FACP", length: 100 },
        SystemDescriptionTableHeader { signature: *b"MCFG", length: 60 },
        SystemDescriptionTableHeader { signature: *b"MCFG", length: 76 },
    ];
    assert_eq!(find_table(&tables, b"MCFG"), Some(1));
    assert_eq!(find_table(&tables, b"HPET"), None);
    assert_eq!(tables[0].signature(), b"FACP");
    let h = SystemDescriptionTableHeader::from_slice(&t).unwrap();
    assert_eq!(h.length, 52);
}

fn rsdp(signature: &[u8; 8], revision: u8) -> RsdpStruct {
    RsdpStruct {
        signature: *signature,
        checksum: 0,
        oem_id: [0; 6],
        revision,
        rsdt_address: 0,
        length: 36,
        xsdt: 0x7000,
    }
}

#[test]
fn acpi_checks_the_root_pointer() {
    let mcfg = || Mcfg::new(&mcfg_bytes(&[(0xb000_0000, 0, 255)])).ok().unwrap();
    let a = Acpi::new(&rsdp(b"RSD PTR ", 2), mcfg()).ok().unwrap();
    assert_eq!(a.mcfg().num_of_entries(), 1);
    assert_eq!(rsdp(b"RSD PTR ", 2).xsdt(), 0x7000);
    match Acpi::new(&rsdp(b"RSD PTR?", 2), mcfg()) {
        Err(Error::Failed(m)) => assert_eq!(m, "Invalid RSDP Struct Signature"),
        _ => panic!("expected an error"),
    }
    match Acpi::new(&rsdp(b"RSD PTR ", 1), mcfg()) {
        Err(Error::Failed(m)) => assert_eq!(m, "Expected RSDP rev.2 or above"),
        _ => panic!("expected an error"),
    }
}

struct Instance;

impl PciDeviceDriverInstance for Instance {
    fn name(&self) -> &str {
        "instance"
    }
}

struct Driver {
    vendor: u16,
    attaches: bool,
}

impl PciDeviceDriver for Driver {
    fn supports(&self, vp: VendorDeviceId) -> bool {
        vp.vendor == self.vendor
    }
    fn attach(&self, _bdf: BusDeviceFunction) -> Result<Box<dyn PciDeviceDriverInstance>, Error> {
        if self.attaches {
            Ok(Box::new(Instance))
        } else {
            Err(Error::Failed("no"))
        }
    }
    fn name(&self) -> &str {
        "driver"
    }
}

#[test]
fn probe_attaches_the_last_willing_driver_once() {
    let m = Mcfg::new(&mcfg_bytes(&[(0xb000_0000, 0, 255)])).ok().unwrap();
    let mut pci = Pci::new(&m);
    let drivers = vec![
        Driver { vendor: 1, attaches: true },
        Driver { vendor: 2, attaches: true },
        Driver { vendor: 1, attaches: false },
        Driver { vendor: 1, attaches: true },
    ];
    let a = BusDeviceFunction::new(0, 1, 0).ok().unwrap();
    let b = BusDeviceFunction::new(0, 2, 0).ok().unwrap();
    let vd = |vendor| Some(VendorDeviceId { vendor, device: 7 });
    assert_eq!(pci.probe_device(&drivers, a, None, 0), None);
    assert_eq!(pci.probe_device(&drivers, a, vd(1), 1), None);
    assert_eq!(pci.probe_device(&drivers, a, vd(3), 0), None);
    assert_eq!(pci.probe_device(&Vec::<Driver>::new(), a, vd(1), 0), None);
    assert!(pci.devices.is_empty());
    assert_eq!(pci.probe_device(&drivers, a, vd(1), 0), Some(3));
    assert_eq!(pci.devices.get(&8), Some(&3));
    assert_eq!(pci.probe_device(&drivers, a, vd(2), 0), None);
    assert_eq!(pci.devices.get(&8), Some(&3));
    assert_eq!(pci.probe_device(&drivers, b, vd(2), 0), Some(1));
    assert_eq!(pci.devices.get(&16), Some(&1));
    assert_eq!(pci.devices.len(), 2);
}

fn elf_bytes(headers: &[(u32, u64, u64, u64, u64)], payload: usize) -> Vec<u8> {
    let mut f = vec![0u8; 64];
    f[0..6].copy_from_slice(&[0x7f, b'E', b'L', b'F', 2, 1]);
    f[24..32].copy_from_slice(&0x40_1000u64.to_le_bytes());
    f[32..40].copy_from_slice(&64u64.to_le_bytes());
    f[54..56].copy_from_slice(&56u16.to_le_bytes());
    f[56..58].copy_from_slice(&(headers.len() as u16).to_le_bytes());
    for (kind, offset, vaddr, filesz, memsz) in headers {
        let mut h = [0u8; 56];
        h[0..4].copy_from_slice(&kind.to_le_bytes());
        h[8..16].copy_from_slice(&offset.to_le_bytes());
        h[16..24].copy_from_slice(&vaddr.to_le_bytes());
        h[32..40].copy_from_slice(&filesz.to_le_bytes());
        h[40..48].copy_from_slice(&memsz.to_le_bytes());
        f.extend_from_slice(&h);
    }
    f.extend(std::iter::repeat(0xaa).take(payload));
    f
}

#[test]
fn elf_load_segments_are_read() {
    let f = elf_bytes(&[(1, 176, 0x40_0000, 16, 32), (6, 0, 0, 0, 0), (1, 192, 0x60_0000, 0, 0)], 16);
    let elf = Elf::parse(&f).ok().unwrap();
    assert_eq!(elf.entry, 0x40_1000);
    assert_eq!(
        elf.segments,
        vec![
            Segment { offset: 176, vaddr: 0x40_0000, filesz: 16, memsz: 32 },
            Segment { offset: 192, vaddr: 0x60_0000, filesz: 0, memsz: 0 },
        ]
    );
    assert_eq!(Elf::parse(&elf_bytes(&[], 0)).ok().unwrap().segments, Vec::new());
}

#[test]
fn elf_that_is_broken_is_rejected() {
    let message = |f: &[u8]| match Elf::parse(f) {
        Err(Error::Failed(m)) => m,
        _ => panic!("expected an error"),
    };
    assert_eq!(message(&[0u8; 63]), "Not a 64-bit little-endian ELF file");
    let mut f = elf_bytes(&[(1, 120, 0x40_0000, 16, 32)], 16);
    f[4] = 1;
    assert_eq!(message(&f), "Not a 64-bit little-endian ELF file");
    let f = elf_bytes(&[(1, 120, 0x40_0000, 17, 32)], 16);
    assert_eq!(message(&f), "ELF file is cut off");
    let f = elf_bytes(&[(1, 120, 0x40_0000, 16, 15)], 16);
    assert_eq!(message(&f), "ELF file is cut off");
    let f = elf_bytes(&[(1, 120, u64::MAX - 8, 16, 16)], 16);
    assert_eq!(message(&f), "ELF file is cut off");
    let f = elf_bytes(&[(2, 0, 0, u64::MAX, 0)], 0);
    assert!(Elf::parse(&f).is_ok());
    let mut f = elf_bytes(&[(1, 120, 0x40_0000, 16, 32)], 16);
    f.truncate(100);
    assert_eq!(message(&f), "ELF file is cut off");
    let mut f = elf_bytes(&[], 0);
    f[54] = 57;
    assert_eq!(message(&f), "ELF file is cut off");
}

#[test]
fn answers_of_drivers_are_recorded() {
    let m = Mcfg::new(&mcfg_bytes(&[(0xb000_0000, 0, 255)])).ok().unwrap();
    let mut pci = Pci::new(&m);
    let a = BusDeviceFunction::new(0, 1, 0).ok().unwrap();
    assert_eq!(pci.record_answers(a, &vec![]), None);
    assert_eq!(pci.record_answers(a, &vec![false, false]), None);
    assert!(pci.devices.is_empty());
    assert_eq!(pci.record_answers(a, &vec![true, false, true, false]), Some(2));
    assert_eq!(pci.devices.get(&8), Some(&2));
    assert_eq!(pci.record_answers(a, &vec![true]), Some(0));
    assert_eq!(pci.devices.get(&8), Some(&0));
    assert_eq!(pci.devices.len(), 1);
    assert_eq!(kernel_core::pci::find_last_willing(&vec![false, true, true]), Some(2));
    pci.put_driver(BusDeviceFunction::new(1, 0, 0).ok().unwrap(), 9);
    assert_eq!(pci.devices.get(&256), Some(&9));
}
