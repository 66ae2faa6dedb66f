use vstd::prelude::*;

verus! {

/// Largest field size and alignment that the layout computation accepts.
pub const MAX_FIELD_BYTES: u64 = 0x1_0000_0000;

/// Largest number of fields that the layout computation accepts.
pub const MAX_FIELDS: usize = 0x1_0000;

/// Size and alignment of one field of a C structure.
#[derive(Clone, Copy, Debug, PartialEq, Eq, Structural)]
pub struct FieldShape {
    pub size: u64,
    pub align: u64,
}

/// Where C places each field of a structure, and the structure's own size and
/// alignment.
#[derive(Debug)]
pub struct StructLayout {
    pub offsets: Vec<u64>,
    pub size: u64,
    pub align: u64,
}

/// The least multiple of `a` that is at least `x`.
pub open spec fn align_up(x: int, a: int) -> int {
    if x % a == 0 {
        x
    } else {
        x + (a - x % a)
    }
}

/// True of fields that the computation accepts.
pub open spec fn shapes_ok(f: Seq<FieldShape>) -> bool {
    &&& f.len() <= MAX_FIELDS
    &&& forall|i: int|
        0 <= i < f.len() ==> 1 <= #[trigger] f[i].align <= MAX_FIELD_BYTES && f[i].size
            <= MAX_FIELD_BYTES
}

/// The first byte after the last field, each field placed at the next
/// multiple of its alignment.
pub open spec fn fields_end(f: Seq<FieldShape>) -> int
    decreases f.len(),
{
    if f.len() == 0 {
        0
    } else {
        align_up(fields_end(f.drop_last()), f.last().align as int) + f.last().size
    }
}

/// The offset of field `i`.
pub open spec fn field_offset(f: Seq<FieldShape>, i: int) -> int {
    align_up(fields_end(f.take(i)), f[i].align as int)
}

/// The alignment of the structure: the largest of its fields', at least one.
pub open spec fn struct_align(f: Seq<FieldShape>) -> int
    decreases f.len(),
{
    if f.len() == 0 {
        1
    } else if struct_align(f.drop_last()) >= f.last().align {
        struct_align(f.drop_last())
    } else {
        f.last().align as int
    }
}

/// The size of the structure: its end rounded up to its alignment.
pub open spec fn struct_size(f: Seq<FieldShape>) -> int {
    align_up(fields_end(f), struct_align(f))
}

fn round_up(x: u64, a: u64) -> (r: u64)
    requires
        1 <= a <= MAX_FIELD_BYTES,
        x <= 0x1_0000_0000_0000_0000 - 2 * MAX_FIELD_BYTES,
    ensures
        r == align_up(x as int, a as int),
        r <= x + a,
{
    let rem = x % a;
    if rem == 0 {
        x
    } else {
        x + (a - rem)
    }
}

/// Lays a structure out as C does: each field at the next multiple of its
/// alignment, in declaration order, the whole padded to its largest alignment.
pub fn c_layout(fields: &Vec<FieldShape>) -> (r: StructLayout)
    requires
        shapes_ok(fields@),
    ensures
        r.offsets@.len() == fields@.len(),
        forall|i: int| 0 <= i < fields@.len() ==> r.offsets@[i] == field_offset(fields@, i),
        r.size == struct_size(fields@),
        r.align == struct_align(fields@),
        describes(r, fields@),
{
    let mut offsets: Vec<u64> = Vec::new();
    let mut end: u64 = 0;
    let mut align: u64 = 1;
    let mut i: usize = 0;
    while i < fields.len()
        invariant
            i <= fields@.len(),
            shapes_ok(fields@),
            offsets@.len() == i,
            forall|j: int| 0 <= j < i ==> offsets@[j] == field_offset(fields@, j),
            end == fields_end(fields@.take(i as int)),
            align == struct_align(fields@.take(i as int)),
            end <= i * (2 * MAX_FIELD_BYTES),
            1 <= align <= MAX_FIELD_BYTES,
        decreases fields@.len() - i,
    {
        let f = fields[i];
        assert(1 <= fields@[i as int].align);
        proof {
            let next = fields@.take(i + 1);
            assert(next.drop_last() =~= fields@.take(i as int));
            assert(next.last() == f);
            assert(end <= MAX_FIELDS * (2 * MAX_FIELD_BYTES)) by (nonlinear_arith)
                requires
                    end <= i * (2 * MAX_FIELD_BYTES),
                    i <= MAX_FIELDS,
            ;
        }
        let off = round_up(end, f.align);
        offsets.push(off);
        end = off + f.size;
        if f.align > align {
            align = f.align;
        }
        i = i + 1;
        proof {
            assert(end <= i * (2 * MAX_FIELD_BYTES)) by (nonlinear_arith)
                requires
                    end <= (i - 1) * (2 * MAX_FIELD_BYTES) + 2 * MAX_FIELD_BYTES,
            ;
        }
    }
    assert(fields@.take(fields@.len() as int) =~= fields@);
    proof {
        assert(end <= MAX_FIELDS * (2 * MAX_FIELD_BYTES)) by (nonlinear_arith)
            requires
                end <= i * (2 * MAX_FIELD_BYTES),
                i <= MAX_FIELDS,
        ;
    }
    let size = round_up(end, align);
    StructLayout { offsets, size, align }
}


/// The shape of a field of `size` bytes aligned to its own size.
pub open spec fn natural(size: u64) -> FieldShape {
    FieldShape { size, align: size }
}

/// An address, a function address or a native unsigned integer on a 64-bit
/// firmware target.
pub open spec fn word() -> FieldShape {
    natural(8)
}

/// Appends a field of `size` bytes aligned to its own size.
pub fn push_natural(fields: &mut Vec<FieldShape>, size: u64)
    ensures
        final(fields)@ == old(fields)@.push(natural(size)),
{
    fields.push(FieldShape { size, align: size });
}

/// Appends `n` address-sized fields.
pub fn push_words(fields: &mut Vec<FieldShape>, n: usize)
    ensures
        final(fields)@ == old(fields)@ + Seq::new(n as nat, |i: int| word()),
{
    let mut k: usize = 0;
    while k < n
        invariant
            k <= n,
            fields@ == old(fields)@ + Seq::new(k as nat, |i: int| word()),
        decreases n - k,
    {
        push_natural(fields, 8);
        k = k + 1;
        assert(fields@ =~= old(fields)@ + Seq::new(k as nat, |i: int| word()));
    }
}


/// The end of the first `k + 1` fields follows from the end of the first `k`.
pub proof fn lemma_end_step(f: Seq<FieldShape>, k: int)
    requires
        0 <= k < f.len(),
    ensures
        fields_end(f.take(k + 1)) == align_up(fields_end(f.take(k)), f[k].align as int)
            + f[k].size,
        struct_align(f.take(k + 1)) == if struct_align(f.take(k)) >= f[k].align {
            struct_align(f.take(k))
        } else {
            f[k].align as int
        },
{
    assert(f.take(k + 1).drop_last() =~= f.take(k));
}


/// `r` is the C layout of fields `f`.
pub open spec fn describes(r: StructLayout, f: Seq<FieldShape>) -> bool {
    &&& r.offsets@.len() == f.len()
    &&& forall|i: int| 0 <= i < f.len() ==> r.offsets@[i] == field_offset(f, i)
    &&& r.size == struct_size(f)
    &&& r.align == struct_align(f)
}

/// C places fields `f` at `offsets`, in a structure of `size` bytes.
pub open spec fn placed_at(f: Seq<FieldShape>, offsets: Seq<int>, size: int) -> bool {
    &&& offsets.len() == f.len()
    &&& forall|i: int| 0 <= i < f.len() ==> field_offset(f, i) == offsets[i]
    &&& struct_size(f) == size
}

/// A run of address-sized fields after a prefix that ends at a multiple of
/// eight: each one eight bytes after the one before.
pub proof fn lemma_words_after(f: Seq<FieldShape>, p: int, k: int)
    requires
        0 <= p <= k <= f.len(),
        fields_end(f.take(p)) % 8 == 0,
        fields_end(f.take(p)) >= 0,
        struct_align(f.take(p)) <= 8,
        p > 0 ==> struct_align(f.take(p)) == 8,
        forall|i: int| p <= i < f.len() ==> f[i] == word(),
    ensures
        fields_end(f.take(k)) == fields_end(f.take(p)) + 8 * (k - p),
        k > p ==> struct_align(f.take(k)) == 8,
        k <= p ==> struct_align(f.take(k)) == struct_align(f.take(p)),
    decreases k - p,
{
    if k > p {
        lemma_words_after(f, p, k - 1);
        lemma_end_step(f, k - 1);
        let e = fields_end(f.take(k - 1));
        assert(e % 8 == 0) by (nonlinear_arith)
            requires
                e == fields_end(f.take(p)) + 8 * (k - 1 - p),
                fields_end(f.take(p)) % 8 == 0,
        ;
    }
}

} // verus!
