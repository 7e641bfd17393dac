use vstd::prelude::*;
use vstd::string::StringExecFns;
use crate::error::Error;
use crate::text::{append_decimal, append_hex, decimal, hex};

verus! {

/// The little-endian 32-bit number at offset `off` of `s`.
pub open spec fn spec_le32(s: Seq<u8>, off: int) -> int {
    s[off] as int + s[off + 1] as int * 256 + s[off + 2] as int * 65536 + s[off + 3] as int
        * 16777216
}

/// The little-endian 64-bit number at offset `off` of `s`.
pub open spec fn spec_le64(s: Seq<u8>, off: int) -> int {
    spec_le32(s, off) + spec_le32(s, off + 4) * 4294967296
}

/// Reads the little-endian 32-bit number at offset `off`.
pub fn le32(data: &[u8], off: usize) -> (r: u32)
    requires
        off + 4 <= data@.len(),
    ensures
        r == spec_le32(data@, off as int),
{
    let b0: u32 = data[off] as u32;
    let b1: u32 = data[off + 1] as u32;
    let b2: u32 = data[off + 2] as u32;
    let b3: u32 = data[off + 3] as u32;
    b0 + b1 * 256 + b2 * 65536 + b3 * 16777216
}

/// Reads the little-endian 64-bit number at offset `off`.
pub fn le64(data: &[u8], off: usize) -> (r: u64)
    requires
        off + 8 <= data@.len(),
    ensures
        r == spec_le64(data@, off as int),
{
    let len: usize = data.len();
    let lo: u64 = le32(data, off) as u64;
    let hi: u64 = le32(data, off + 4) as u64;
    lo + hi * 4294967296
}

/// The root system description pointer.
#[derive(Debug)]
pub struct RsdpStruct {
    pub signature: [u8; 8],
    pub checksum: u8,
    pub oem_id: [u8; 6],
    pub revision: u8,
    pub rsdt_address: u32,
    pub length: u32,
    pub xsdt: u64,
}

/// The signature of a root system description pointer: `RSD PTR `.
pub open spec fn rsdp_signature() -> Seq<u8> {
    seq![0x52u8, 0x53u8, 0x44u8, 0x20u8, 0x50u8, 0x54u8, 0x52u8, 0x20u8]
}

/// The signature of the table of PCI configuration spaces: `MCFG`.
pub open spec fn mcfg_signature() -> Seq<u8> {
    seq![0x4du8, 0x43u8, 0x46u8, 0x47u8]
}

/// The signature of the extended system description table: `XSDT`.
pub open spec fn xsdt_signature() -> Seq<u8> {
    seq![0x58u8, 0x53u8, 0x44u8, 0x54u8]
}

impl RsdpStruct {
    /// Physical address of the extended system description table.
    pub fn xsdt(&self) -> (r: u64)
        ensures
            r == self.xsdt,
    {
        self.xsdt
    }
}

/// The start of every system description table: its signature and its
/// length in bytes, the header included.
#[derive(Clone, Copy, Debug)]
pub struct SystemDescriptionTableHeader {
    pub signature: [u8; 4],
    pub length: u32,
}

/// Length of the start of a table that holds its signature and length.
pub const TABLE_PREFIX_LEN: usize = 8;

/// Whether the four bytes of `a` are those of `b`.
pub fn same_signature(a: &[u8; 4], b: &[u8; 4]) -> (r: bool)
    ensures
        r == (a@ == b@),
{
    let r = a[0] == b[0] && a[1] == b[1] && a[2] == b[2] && a[3] == b[3];
    assert(r == (a@ =~= b@));
    r
}

impl SystemDescriptionTableHeader {
    /// Reads the signature and the length of the table that `table` starts
    /// with; fewer than eight bytes hold none.
    pub fn from_slice(table: &[u8]) -> (r: Option<SystemDescriptionTableHeader>)
        ensures
            table@.len() >= TABLE_PREFIX_LEN <==> r is Some,
            r matches Some(h) ==> h.signature@ == table@.subrange(0, 4) && h.length == spec_le32(
                table@,
                4,
            ),
    {
        if table.len() < TABLE_PREFIX_LEN {
            return None;
        }
        let signature = [table[0], table[1], table[2], table[3]];
        assert(signature@ =~= table@.subrange(0, 4));
        Some(SystemDescriptionTableHeader { signature, length: le32(table, 4) })
    }

    /// The signature of the table.
    pub fn signature(&self) -> (r: &[u8; 4])
        ensures
            r@ == self.signature@,
    {
        &self.signature
    }

    /// Whether the table has the signature `sig`.
    pub fn has_signature(&self, sig: &[u8; 4]) -> (r: bool)
        ensures
            r == (self.signature@ == sig@),
    {
        same_signature(&self.signature, sig)
    }
}

/// One entry of the table of PCI configuration spaces: where the
/// configuration space of a range of buses is mapped.
#[derive(Clone, Copy, Debug, PartialEq, Eq, Structural)]
pub struct EcamEntry {
    pub ecm_base_addr: u64,
    pub pci_segment_group: u16,
    pub start_pci_bus: u8,
    pub end_pci_bus: u8,
}

/// Size of an entry of the table of PCI configuration spaces.
pub const ECAM_ENTRY_LEN: usize = 16;

impl EcamEntry {
    /// The entry in the sixteen bytes of `table` from `off`.
    pub open spec fn spec_parse(table: Seq<u8>, off: int) -> EcamEntry {
        EcamEntry {
            ecm_base_addr: spec_le64(table, off) as u64,
            pci_segment_group: (table[off + 8] as int + table[off + 9] as int * 256) as u16,
            start_pci_bus: table[off + 10],
            end_pci_bus: table[off + 11],
        }
    }

    /// Physical address at which the configuration space is mapped.
    pub fn base_address(&self) -> (r: u64)
        ensures
            r == self.ecm_base_addr,
    {
        self.ecm_base_addr
    }

    /// The text that describes the entry: the buses in decimal, the address
    /// in hexadecimal.
    pub open spec fn spec_text(&self) -> Seq<char> {
        "ECAM: Bus range ["@ + decimal(self.start_pci_bus as nat) + ","@ + decimal(
            self.end_pci_bus as nat,
        ) + "] is mapped at 0x"@ + hex(self.ecm_base_addr as nat)
    }

    /// Describes the entry.
    pub fn to_text(&self) -> (r: String)
        ensures
            r@ == self.spec_text(),
    {
        let mut m = String::from_str("ECAM: Bus range [");
        append_decimal(&mut m, self.start_pci_bus as u64);
        m.append(",");
        append_decimal(&mut m, self.end_pci_bus as u64);
        m.append("] is mapped at 0x");
        append_hex(&mut m, self.ecm_base_addr);
        m
    }
}

/// Size of the table of PCI configuration spaces up to its first entry.
pub const MCFG_HEADER_LEN: usize = 44;

/// The table of PCI configuration spaces.
#[derive(Debug)]
pub struct Mcfg {
    header: SystemDescriptionTableHeader,
    entries: Vec<EcamEntry>,
}

/// The message of the error reported for bytes that are no table of PCI
/// configuration spaces.
pub open spec fn invalid_mcfg_message() -> Seq<char> {
    "Invalid MCFG table"@
}

impl Mcfg {
    /// The entries of the table.
    pub closed spec fn spec_entries(&self) -> Seq<EcamEntry> {
        self.entries@
    }

    /// The length that the table gives for itself.
    pub closed spec fn spec_length(&self) -> u32 {
        self.header.length
    }

    /// Whether the table holds as many entries as its length says.
    pub closed spec fn inv(&self) -> bool {
        &&& self.header.length >= MCFG_HEADER_LEN
        &&& self.entries@.len() == (self.header.length - MCFG_HEADER_LEN) / 16
    }

    /// Whether `table` holds a table of PCI configuration spaces: it has
    /// the signature, and the length that it gives for itself covers its
    /// header and lies within `table`.
    pub open spec fn is_mcfg(table: Seq<u8>) -> bool {
        &&& table.len() >= MCFG_HEADER_LEN
        &&& table.subrange(0, 4) == mcfg_signature()
        &&& MCFG_HEADER_LEN <= spec_le32(table, 4) <= table.len()
    }

    /// Number of entries of the table in `table`.
    pub open spec fn spec_count(table: Seq<u8>) -> int {
        (spec_le32(table, 4) - MCFG_HEADER_LEN) / 16
    }

    /// Reads the table of PCI configuration spaces in `table`.
    pub fn new(table: &[u8]) -> (r: Result<Mcfg, Error>)
        ensures
            Self::is_mcfg(table@) <==> r is Ok,
            r matches Ok(m) ==> m.inv() && m.spec_length() == spec_le32(table@, 4)
                && m.spec_entries().len() == Self::spec_count(table@) && forall|i: int|
                0 <= i < Self::spec_count(table@) ==> #[trigger] m.spec_entries()[i]
                    == EcamEntry::spec_parse(table@, MCFG_HEADER_LEN + 16 * i),
            r matches Err(e) ==> (e matches Error::Failed(msg) && msg@ == invalid_mcfg_message()),
    {
        if table.len() < MCFG_HEADER_LEN {
            return Err(Error::Failed("Invalid MCFG table"));
        }
        let header = match SystemDescriptionTableHeader::from_slice(table) {
            Some(h) => h,
            None => {
                return Err(Error::Failed("Invalid MCFG table"));
            },
        };
        let sig: [u8; 4] = [0x4d, 0x43, 0x46, 0x47];
        assert(sig@ =~= mcfg_signature());
        if !header.has_signature(&sig) {
            return Err(Error::Failed("Invalid MCFG table"));
        }
        let length: usize = header.length as usize;
        if length < MCFG_HEADER_LEN || length > table.len() {
            return Err(Error::Failed("Invalid MCFG table"));
        }
        let n: usize = (length - MCFG_HEADER_LEN) / ECAM_ENTRY_LEN;
        let mut entries: Vec<EcamEntry> = Vec::new();
        let mut i: usize = 0;
        while i < n
            invariant
                i <= n,
                n == (length - MCFG_HEADER_LEN) / 16,
                MCFG_HEADER_LEN <= length <= table@.len(),
                entries@.len() == i,
                forall|k: int|
                    0 <= k < i ==> #[trigger] entries@[k] == EcamEntry::spec_parse(
                        table@,
                        MCFG_HEADER_LEN + 16 * k,
                    ),
            decreases n - i,
        {
            let off: usize = MCFG_HEADER_LEN + ECAM_ENTRY_LEN * i;
            let lo: u16 = table[off + 8] as u16;
            let hi: u16 = table[off + 9] as u16;
            entries.push(
                EcamEntry {
                    ecm_base_addr: le64(table, off),
                    pci_segment_group: lo + hi * 256,
                    start_pci_bus: table[off + 10],
                    end_pci_bus: table[off + 11],
                },
            );
            i = i + 1;
        }
        Ok(Mcfg { header, entries })
    }

    /// Size of the table up to its first entry.
    pub fn header_size(&self) -> (r: usize)
        ensures
            r == MCFG_HEADER_LEN,
    {
        MCFG_HEADER_LEN
    }

    /// Number of entries.
    pub fn num_of_entries(&self) -> (r: usize)
        requires
            self.inv(),
        ensures
            r == self.spec_entries().len(),
            r == (self.spec_length() - MCFG_HEADER_LEN) / 16,
    {
        self.entries.len()
    }

    /// The entry at `index`, if the table has that many.
    pub fn entry(&self, index: usize) -> (r: Option<&EcamEntry>)
        ensures
            index < self.spec_entries().len() ==> r == Some(&self.spec_entries()[index as int]),
            index >= self.spec_entries().len() ==> r is None,
    {
        if index >= self.entries.len() {
            None
        } else {
            Some(&self.entries[index])
        }
    }
}

/// Size of the extended system description table up to its first entry.
pub const XSDT_HEADER_LEN: usize = 36;

/// The extended system description table: the physical addresses of the
/// other tables.
#[derive(Debug)]
pub struct Xsdt {
    header: SystemDescriptionTableHeader,
    entries: Vec<u64>,
}

impl Xsdt {
    /// The addresses in the table.
    pub closed spec fn spec_entries(&self) -> Seq<u64> {
        self.entries@
    }

    /// Whether `table` holds an extended system description table.
    pub open spec fn is_xsdt(table: Seq<u8>) -> bool {
        &&& table.len() >= XSDT_HEADER_LEN
        &&& table.subrange(0, 4) == xsdt_signature()
        &&& XSDT_HEADER_LEN <= spec_le32(table, 4) <= table.len()
    }

    /// Number of entries of the table in `table`.
    pub open spec fn spec_count(table: Seq<u8>) -> int {
        (spec_le32(table, 4) - XSDT_HEADER_LEN) / 8
    }

    /// Reads the extended system description table in `table`; bytes that
    /// hold none give `None`.
    pub fn new(table: &[u8]) -> (r: Option<Xsdt>)
        ensures
            Self::is_xsdt(table@) <==> r is Some,
            r matches Some(x) ==> x.spec_entries().len() == Self::spec_count(table@) && forall|
                i: int,
            |
                0 <= i < Self::spec_count(table@) ==> #[trigger] x.spec_entries()[i] == spec_le64(
                    table@,
                    XSDT_HEADER_LEN + 8 * i,
                ),
    {
        if table.len() < XSDT_HEADER_LEN {
            return None;
        }
        let header = match SystemDescriptionTableHeader::from_slice(table) {
            Some(h) => h,
            None => {
                return None;
            },
        };
        let sig: [u8; 4] = [0x58, 0x53, 0x44, 0x54];
        assert(sig@ =~= xsdt_signature());
        if !header.has_signature(&sig) {
            return None;
        }
        let length: usize = header.length as usize;
        if length < XSDT_HEADER_LEN || length > table.len() {
            return None;
        }
        let n: usize = (length - XSDT_HEADER_LEN) / 8;
        let mut entries: Vec<u64> = Vec::new();
        let mut i: usize = 0;
        while i < n
            invariant
                i <= n,
                n == (length - XSDT_HEADER_LEN) / 8,
                XSDT_HEADER_LEN <= length <= table@.len(),
                entries@.len() == i,
                forall|k: int|
                    0 <= k < i ==> #[trigger] entries@[k] == spec_le64(
                        table@,
                        XSDT_HEADER_LEN + 8 * k,
                    ),
            decreases n - i,
        {
            entries.push(le64(table, XSDT_HEADER_LEN + 8 * i));
            i = i + 1;
        }
        Some(Xsdt { header, entries })
    }

    /// Size of the table up to its first entry.
    pub fn header_size(&self) -> (r: usize)
        ensures
            r == XSDT_HEADER_LEN,
    {
        XSDT_HEADER_LEN
    }

    /// Number of entries.
    pub fn num_of_entries(&self) -> (r: usize)
        ensures
            r == self.spec_entries().len(),
    {
        self.entries.len()
    }

    /// The address at `index`.
    pub fn entry(&self, index: usize) -> (r: u64)
        requires
            index < self.spec_entries().len(),
        ensures
            r == self.spec_entries()[index as int],
    {
        self.entries[index]
    }

    /// A walk over the addresses in the table.
    pub fn iter(&self) -> (r: XsdtIterator<'_>)
        ensures
            r.table == self,
            r.index == 0,
    {
        XsdtIterator::new(self)
    }
}

/// A walk over the addresses in an extended system description table.
pub struct XsdtIterator<'a> {
    pub table: &'a Xsdt,
    pub index: usize,
}

impl<'a> XsdtIterator<'a> {
    /// A walk over `table` from its first entry.
    pub fn new(table: &'a Xsdt) -> (r: Self)
        ensures
            r.table == table,
            r.index == 0,
    {
        XsdtIterator { table, index: 0 }
    }

    /// The next address, or `None` behind the last.
    pub fn next(&mut self) -> (r: Option<u64>)
        ensures
            final(self).table == old(self).table,
            old(self).index < old(self).table.spec_entries().len() ==> r == Some(
                old(self).table.spec_entries()[old(self).index as int],
            ) && final(self).index == old(self).index + 1,
            old(self).index >= old(self).table.spec_entries().len() ==> r is None && final(
                self
            ).index == old(self).index,
    {
        if self.index >= self.table.num_of_entries() {
            None
        } else {
            self.index = self.index + 1;
            Some(self.table.entry(self.index - 1))
        }
    }
}

/// The index of the first of `tables` that has the signature `sig`.
pub fn find_table(tables: &Vec<SystemDescriptionTableHeader>, sig: &[u8; 4]) -> (r: Option<usize>)
    ensures
        match r {
            Some(k) => k < tables@.len() && tables@[k as int].signature@ == sig@ && forall|j: int|
                0 <= j < k ==> (#[trigger] tables@[j]).signature@ != sig@,
            None => forall|j: int|
                0 <= j < tables@.len() ==> (#[trigger] tables@[j]).signature@ != sig@,
        },
{
    let n = tables.len();
    let mut i: usize = 0;
    while i < n
        invariant
            i <= n,
            n == tables@.len(),
            forall|j: int| 0 <= j < i ==> (#[trigger] tables@[j]).signature@ != sig@,
        decreases n - i,
    {
        if tables[i].has_signature(sig) {
            return Some(i);
        }
        i = i + 1;
    }
    None
}

/// What the kernel keeps of the ACPI tables.
#[derive(Debug)]
pub struct Acpi {
    mcfg: Mcfg,
}

/// The message of the error reported for a root pointer without its
/// signature.
pub open spec fn invalid_rsdp_message() -> Seq<char> {
    "Invalid RSDP Struct Signature"@
}

/// The message of the error reported for a root pointer of the first
/// revision, which names no extended table.
pub open spec fn old_rsdp_message() -> Seq<char> {
    "Expected RSDP rev.2 or above"@
}

impl Acpi {
    /// The table of PCI configuration spaces that is kept.
    pub closed spec fn spec_mcfg(&self) -> Mcfg {
        self.mcfg
    }

    /// Checks the root pointer `rsdp_struct` and keeps `mcfg`, the table
    /// of PCI configuration spaces that was found through it.
    pub fn new(rsdp_struct: &RsdpStruct, mcfg: Mcfg) -> (r: Result<Acpi, Error>)
        ensures
            rsdp_struct.signature@ != rsdp_signature() ==> (r matches Err(Error::Failed(m)) && m@
                == invalid_rsdp_message()),
            rsdp_struct.signature@ == rsdp_signature() && rsdp_struct.revision < 2 ==> (
            r matches Err(Error::Failed(m)) && m@ == old_rsdp_message()),
            rsdp_struct.signature@ == rsdp_signature() && rsdp_struct.revision >= 2 ==> (
            r matches Ok(a) && a.spec_mcfg() == mcfg),
    {
        let s = &rsdp_struct.signature;
        let good = s[0] == 0x52 && s[1] == 0x53 && s[2] == 0x44 && s[3] == 0x20 && s[4] == 0x50
            && s[5] == 0x54 && s[6] == 0x52 && s[7] == 0x20;
        assert(good == (rsdp_struct.signature@ =~= rsdp_signature()));
        if !good {
            return Err(Error::Failed("Invalid RSDP Struct Signature"));
        }
        if rsdp_struct.revision < 2 {
            return Err(Error::Failed("Expected RSDP rev.2 or above"));
        }
        Ok(Acpi { mcfg })
    }

    /// The table of PCI configuration spaces.
    pub fn mcfg(&self) -> (r: &Mcfg)
        ensures
            *r == self.spec_mcfg(),
    {
        &self.mcfg
    }
}

} // verus!
