use vstd::prelude::*;
use crate::console::{EFIHandle, EFISimpleTextInputProtocol, EFISimpleTextOutputProtocol};
use crate::header::EFITableHeader;
use crate::layout::{
    align_up, c_layout, describes, field_offset, fields_end, lemma_end_step, lemma_words_after, natural, placed_at,
    push_natural, push_words, shapes_ok, struct_align, word, FieldShape, StructLayout,
};

verus! {

/// A firmware native unsigned integer.
pub type UIntN = usize;

/// A 128-bit globally unique identifier, as the firmware stores it.
#[derive(Clone, Copy, Debug, PartialEq, Eq)]
pub struct EFIGUID {
    pub data1: u32,
    pub data2: u16,
    pub data3: u16,
    pub data4: [u8; 8],
}

/// The runtime services table, held only by address.
#[derive(Clone, Copy, Debug, PartialEq, Eq, Structural)]
pub struct EFIRuntimeServices {}

/// The boot services table, held only by address.
#[derive(Clone, Copy, Debug, PartialEq, Eq, Structural)]
pub struct EFIBootServices {}

/// One entry of the configuration table array.
#[derive(Clone, Copy, Debug, PartialEq, Eq)]
pub struct EFIConfigurationTable {
    pub vendor_guid: EFIGUID,
    /// Address of the vendor's data.
    pub vendor_table: usize,
}

/// The root table that the firmware hands to the entry point. Every address
/// in it belongs to the firmware for the whole boot session.
#[derive(Clone, Copy, Debug, PartialEq, Eq, Structural)]
pub struct EFISystemTable {
    pub hdr: EFITableHeader,
    /// Address of the terminated name of the firmware's vendor.
    pub firmware_vendor: usize,
    pub firmware_revision: u32,
    pub console_in_handle: EFIHandle,
    /// Address of the console input interface; zero when there is none.
    pub con_in: usize,
    pub console_out_handle: EFIHandle,
    /// Address of the console output interface; zero when there is none.
    pub con_out: usize,
    pub standard_error_handle: EFIHandle,
    /// Address of the standard error output interface; zero when there is none.
    pub std_err: usize,
    pub runtime_services: usize,
    pub boot_services: usize,
    pub number_of_table_entries: UIntN,
    /// Address of the first of `number_of_table_entries` configuration tables.
    pub configuration_table: usize,
}

impl EFISystemTable {
    /// The console output interface, or `None` when the table holds no
    /// address for it.
    pub fn get_con_out(&self) -> (r: Option<EFISimpleTextOutputProtocol>)
        ensures
            self.con_out == 0 ==> r.is_none(),
            self.con_out != 0 ==> r == Some(EFISimpleTextOutputProtocol { address: self.con_out }),
    {
        if self.con_out == 0 {
            None
        } else {
            Some(EFISimpleTextOutputProtocol { address: self.con_out })
        }
    }

    /// The standard error output interface, or `None` when the table holds no
    /// address for it.
    pub fn get_std_err(&self) -> (r: Option<EFISimpleTextOutputProtocol>)
        ensures
            self.std_err == 0 ==> r.is_none(),
            self.std_err != 0 ==> r == Some(EFISimpleTextOutputProtocol { address: self.std_err }),
    {
        if self.std_err == 0 {
            None
        } else {
            Some(EFISimpleTextOutputProtocol { address: self.std_err })
        }
    }

    /// The console input interface, or `None` when the table holds no address
    /// for it.
    pub fn get_con_in(&self) -> (r: Option<EFISimpleTextInputProtocol>)
        ensures
            self.con_in == 0 ==> r.is_none(),
            self.con_in != 0 ==> r == Some(EFISimpleTextInputProtocol { address: self.con_in }),
    {
        if self.con_in == 0 {
            None
        } else {
            Some(EFISimpleTextInputProtocol { address: self.con_in })
        }
    }
}

/// Fields of the table header, in order.
pub open spec fn header_shapes() -> Seq<FieldShape> {
    seq![natural(8), natural(4), natural(4), natural(4), natural(4)]
}

/// Fields of a configuration table entry: the 16-byte identifier, aligned to
/// eight bytes, then an address.
pub open spec fn configuration_table_shapes() -> Seq<FieldShape> {
    seq![FieldShape { size: 16, align: 8 }, word()]
}

/// Fields of the system table, in order: the header, the vendor's name, the
/// firmware revision, then ten addresses and counts.
pub open spec fn system_table_shapes() -> Seq<FieldShape> {
    seq![FieldShape { size: 24, align: 8 }, word(), natural(4)] + Seq::new(10, |i: int| word())
}

impl EFITableHeader {
    /// Size and alignment of each field.
    pub fn field_shapes() -> (r: Vec<FieldShape>)
        ensures
            r@ == header_shapes(),
    {
        let mut r: Vec<FieldShape> = Vec::new();
        push_natural(&mut r, 8);
        push_natural(&mut r, 4);
        push_natural(&mut r, 4);
        push_natural(&mut r, 4);
        push_natural(&mut r, 4);
        assert(r@ =~= header_shapes());
        r
    }

    /// Where C places each field.
    pub fn layout() -> (r: StructLayout)
        ensures
            describes(r, header_shapes()),
    {
        c_layout(&Self::field_shapes())
    }
}

impl EFIRuntimeServices {
    /// Size and alignment of each field: there are none.
    pub fn field_shapes() -> (r: Vec<FieldShape>)
        ensures
            r@ == Seq::<FieldShape>::empty(),
    {
        Vec::new()
    }

    /// Where C places each field.
    pub fn layout() -> (r: StructLayout)
        ensures
            describes(r, Seq::<FieldShape>::empty()),
    {
        c_layout(&Self::field_shapes())
    }
}

impl EFIBootServices {
    /// Size and alignment of each field: there are none.
    pub fn field_shapes() -> (r: Vec<FieldShape>)
        ensures
            r@ == Seq::<FieldShape>::empty(),
    {
        Vec::new()
    }

    /// Where C places each field.
    pub fn layout() -> (r: StructLayout)
        ensures
            describes(r, Seq::<FieldShape>::empty()),
    {
        c_layout(&Self::field_shapes())
    }
}

impl EFIConfigurationTable {
    /// Size and alignment of each field.
    pub fn field_shapes() -> (r: Vec<FieldShape>)
        ensures
            r@ == configuration_table_shapes(),
    {
        let mut r: Vec<FieldShape> = Vec::new();
        r.push(FieldShape { size: 16, align: 8 });
        push_natural(&mut r, 8);
        assert(r@ =~= configuration_table_shapes());
        r
    }

    /// Where C places each field.
    pub fn layout() -> (r: StructLayout)
        ensures
            describes(r, configuration_table_shapes()),
    {
        c_layout(&Self::field_shapes())
    }
}

impl EFISystemTable {
    /// Size and alignment of each field.
    pub fn field_shapes() -> (r: Vec<FieldShape>)
        ensures
            r@ == system_table_shapes(),
    {
        let mut r: Vec<FieldShape> = Vec::new();
        r.push(FieldShape { size: 24, align: 8 });
        push_natural(&mut r, 8);
        push_natural(&mut r, 4);
        push_words(&mut r, 10);
        assert(r@ =~= system_table_shapes());
        r
    }

    /// Where C places each field.
    pub fn layout() -> (r: StructLayout)
        ensures
            describes(r, system_table_shapes()),
    {
        let f = Self::field_shapes();
        assert(shapes_ok(f@));
        c_layout(&f)
    }
}

/// The table header takes 24 bytes, its fields at offsets 0, 8, 12, 16 and
/// 20, as firmware lays it out.
pub proof fn lemma_header_layout()
    ensures
        placed_at(header_shapes(), seq![0, 8, 12, 16, 20], 24),
        struct_align(header_shapes()) == 8,
{
    let f = header_shapes();
    assert(f.take(0) =~= Seq::<FieldShape>::empty());
    assert(fields_end(f.take(0)) == 0);
    assert(struct_align(f.take(0)) == 1);
    lemma_end_step(f, 0);
    assert(fields_end(f.take(1)) == 8);
    lemma_end_step(f, 1);
    assert(fields_end(f.take(2)) == 12);
    lemma_end_step(f, 2);
    assert(fields_end(f.take(3)) == 16);
    lemma_end_step(f, 3);
    assert(fields_end(f.take(4)) == 20);
    lemma_end_step(f, 4);
    assert(fields_end(f.take(5)) == 24);
    assert(f.take(5) =~= f);
}

/// The service tables declared here have no fields and take no bytes.
pub proof fn lemma_empty_layout()
    ensures
        placed_at(Seq::<FieldShape>::empty(), Seq::<int>::empty(), 0),
{
}

/// A configuration table entry takes 24 bytes: the identifier at 0, the
/// address at 16.
pub proof fn lemma_configuration_table_layout()
    ensures
        placed_at(configuration_table_shapes(), seq![0, 16], 24),
{
    let f = configuration_table_shapes();
    assert(f.take(0) =~= Seq::<FieldShape>::empty());
    assert(fields_end(f.take(0)) == 0);
    lemma_end_step(f, 0);
    assert(fields_end(f.take(1)) == 16);
    lemma_end_step(f, 1);
    assert(fields_end(f.take(2)) == 24);
    assert(f.take(2) =~= f);
}

/// The system table takes 120 bytes: the header at 0, the vendor's name at
/// 24, the firmware revision at 32, then its ten addresses and counts every
/// eight bytes from 40.
pub proof fn lemma_system_table_layout()
    ensures
        placed_at(
            system_table_shapes(),
            seq![0, 24, 32, 40, 48, 56, 64, 72, 80, 88, 96, 104, 112],
            120,
        ),
        struct_align(system_table_shapes()) == 8,
{
    let f = system_table_shapes();
    assert(f.take(0) =~= Seq::<FieldShape>::empty());
    assert(f[0] == FieldShape { size: 24, align: 8 });
    assert(f[1] == word());
    assert(f[2] == natural(4));
    assert forall|i: int| 3 <= i < f.len() implies f[i] == word() by {
        assert(f[i] == Seq::new(10, |j: int| word())[i - 3]);
    }
    lemma_end_step(f, 0);
    assert(fields_end(f.take(1)) == 24);
    lemma_end_step(f, 1);
    assert(fields_end(f.take(2)) == 32);
    lemma_end_step(f, 2);
    assert(fields_end(f.take(3)) == 36);
    lemma_end_step(f, 3);
    assert(f[3] == word());
    assert(36int % 8 == 4) by (nonlinear_arith);
    assert(align_up(36, 8) == 40);
    assert(fields_end(f.take(4)) == 48);
    assert(struct_align(f.take(4)) == 8);
    lemma_words_after(f, 4, 13);
    assert forall|k: int| 4 <= k <= 13 implies fields_end(f.take(k)) == 48 + 8 * (k - 4) by {
        lemma_words_after(f, 4, k);
    }
    assert forall|i: int| 3 <= i < 13 implies #[trigger] field_offset(f, i) == 40 + 8 * (i
        - 3) by {
        lemma_end_step(f, i);
    }
    assert(f.take(13) =~= f);
}

} // verus!
