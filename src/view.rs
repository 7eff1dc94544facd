use vstd::prelude::*;

use crate::bits::{
    extract, field_mask, fits_byte, insert, lemma_insert_extract, low_mask, spec_extract,
    spec_insert,
};
use crate::memory::{Memory, ADDRESS_SPACE};

verus! {

/// A named field of a register block: `width` bits at bit `shift` of the
/// byte at `offset` from the start of the block.
#[derive(Clone, Copy, Debug, PartialEq, Eq, Structural)]
pub struct Field {
    pub offset: u16,
    pub shift: u8,
    pub width: u8,
}

impl Field {
    /// A field that covers the whole byte at `offset`.
    pub fn byte(offset: u16) -> (r: Field)
        ensures
            r == (Field { offset, shift: 0, width: 8 }),
    {
        Field { offset, shift: 0, width: 8 }
    }

    /// A field of `width` bits at bit `shift` of the byte at `offset`.
    pub fn bits(offset: u16, shift: u8, width: u8) -> (r: Field)
        ensures
            r == (Field { offset, shift, width }),
    {
        Field { offset, shift, width }
    }

    /// The field lies inside a block of `size` bytes and inside its byte.
    pub open spec fn fits(self, size: u16) -> bool {
        self.offset < size && fits_byte(self.shift, self.width)
    }

    /// `value` can be stored in the field.
    pub open spec fn holds(self, value: u8) -> bool {
        value <= low_mask(self.width)
    }
}

/// A repeated register group: `count` sub-blocks of `stride` bytes each,
/// the first at `offset` from the start of the block.
#[derive(Clone, Copy, Debug, PartialEq, Eq, Structural)]
pub struct Group {
    pub offset: u16,
    pub stride: u16,
    pub count: u16,
}

impl Group {
    /// All sub-blocks lie inside a block of `size` bytes.
    pub open spec fn fits(self, size: u16) -> bool {
        1 <= self.stride && self.offset as int + self.stride as int * self.count as int
            <= size as int
    }

    /// Offset in the block of sub-block `i`.
    pub open spec fn spec_start(self, i: u16) -> int {
        self.offset as int + i as int * self.stride as int
    }

    /// Offset in the block of sub-block `i`.
    pub fn start(&self, size: u16, i: u16) -> (r: u16)
        requires
            self.fits(size),
            i < self.count,
        ensures
            r as int == self.spec_start(i),
            r as int + self.stride as int <= size as int,
    {
        proof {
            let (s, n, j) = (self.stride as int, self.count as int, i as int);
            assert(j * s + s <= n * s) by (nonlinear_arith)
                requires
                    0 <= j < n,
                    1 <= s,
            ;
            assert(self.spec_start(i) == self.offset as int + j * s);
        }
        self.offset + i * self.stride
    }

    /// Field `f` of sub-block `i`, as a field of the whole block;
    /// `f.offset` is relative to the start of the sub-block.
    pub fn field(&self, size: u16, i: u16, f: Field) -> (r: Field)
        requires
            self.fits(size),
            i < self.count,
            f.offset < self.stride,
            fits_byte(f.shift, f.width),
        ensures
            r.offset as int == self.spec_start(i) + f.offset as int,
            r.shift == f.shift,
            r.width == f.width,
            r.fits(size),
    {
        let start = self.start(size, i);
        Field { offset: start + f.offset, shift: f.shift, width: f.width }
    }
}

/// A register block bound to a base address: `size` registers starting at `base`.
///
/// A view owns nothing; it only names where a chip's registers are.
#[derive(Clone, Copy, Debug, PartialEq, Eq, Structural)]
pub struct RegisterView {
    pub base: u16,
    pub size: u16,
}

impl RegisterView {
    /// The block lies inside the address space.
    pub open spec fn wf(self) -> bool {
        self.base as int + self.size as int <= ADDRESS_SPACE as int
    }

    /// The address of the byte that holds field `f`.
    pub open spec fn addr(self, f: Field) -> int {
        self.base as int + f.offset as int
    }

    /// The bytes of the block in memory `m`.
    pub open spec fn block(self, m: Seq<u8>) -> Seq<u8> {
        m.subrange(self.base as int, self.base as int + self.size as int)
    }

    /// The value of field `f` in memory `m`.
    pub open spec fn spec_read(self, m: Seq<u8>, f: Field) -> u8 {
        spec_extract(m[self.addr(f)], f.shift, f.width)
    }

    /// Memory `m` after `value` is written to field `f`.
    pub open spec fn spec_write(self, m: Seq<u8>, f: Field, value: u8) -> Seq<u8> {
        m.update(self.addr(f), spec_insert(m[self.addr(f)], f.shift, f.width, value))
    }

    /// The bytes of sub-block `i` of group `g` in memory `m`.
    pub open spec fn sub_block(self, m: Seq<u8>, g: Group, i: u16) -> Seq<u8> {
        m.subrange(self.base + g.spec_start(i), self.base + g.spec_start(i) + g.stride)
    }

    /// Memory `m` after `data` is written over sub-block `i` of group `g`.
    pub open spec fn spec_write_sub_block(self, m: Seq<u8>, g: Group, i: u16, data: Seq<u8>) -> Seq<
        u8,
    > {
        Seq::new(
            m.len(),
            |a: int|
                if self.base + g.spec_start(i) <= a < self.base + g.spec_start(i) + g.stride {
                    data[a - self.base - g.spec_start(i)]
                } else {
                    m[a]
                },
        )
    }

    /// Binds a block of `size` registers to the address `base`.
    pub fn bind(size: u16, base: u16) -> (r: RegisterView)
        requires
            base as int + size as int <= ADDRESS_SPACE as int,
        ensures
            r == (RegisterView { base, size }),
            r.wf(),
    {
        RegisterView { base, size }
    }

    /// Reads field `f` of the block.
    pub fn read(&self, mem: &Memory, f: Field) -> (r: u8)
        requires
            self.wf(),
            mem.wf(),
            f.fits(self.size),
        ensures
            r == self.spec_read(mem@, f),
            f.holds(r),
    {
        extract(mem.peek(self.base + f.offset), f.shift, f.width)
    }

    /// Writes `value` to field `f` of the block: a read-modify-write of its
    /// byte that keeps the bits outside the field.
    pub fn write(&self, mem: &mut Memory, f: Field, value: u8)
        requires
            self.wf(),
            old(mem).wf(),
            f.fits(self.size),
            f.holds(value),
        ensures
            final(mem).wf(),
            final(mem)@ == self.spec_write(old(mem)@, f, value),
    {
        let addr = self.base + f.offset;
        let byte = mem.peek(addr);
        mem.poke(addr, insert(byte, f.shift, f.width, value));
    }

    /// Writes `data` over sub-block `i` of group `g`, byte for byte.
    pub fn write_sub_block(&self, mem: &mut Memory, g: Group, i: u16, data: &Vec<u8>)
        requires
            self.wf(),
            old(mem).wf(),
            g.fits(self.size),
            i < g.count,
            data@.len() == g.stride,
        ensures
            final(mem).wf(),
            final(mem)@ == self.spec_write_sub_block(old(mem)@, g, i, data@),
    {
        let start = self.base + g.start(self.size, i);
        let mut k: u16 = 0;
        while k < g.stride
            invariant
                self.wf(),
                g.fits(self.size),
                i < g.count,
                data@.len() == g.stride,
                start as int == self.base + g.spec_start(i),
                start as int + g.stride as int <= ADDRESS_SPACE,
                k <= g.stride,
                mem.wf(),
                forall|a: int|
                    0 <= a < ADDRESS_SPACE ==> #[trigger] mem@[a] == if start <= a < start + k {
                        data@[a - start]
                    } else {
                        old(mem)@[a]
                    },
            decreases g.stride - k,
        {
            mem.poke(start + k, data[k as usize]);
            k = k + 1;
        }
        assert(mem@ =~= self.spec_write_sub_block(old(mem)@, g, i, data@));
    }

    /// Reads the bytes of sub-block `i` of group `g`.
    pub fn read_sub_block(&self, mem: &Memory, g: Group, i: u16) -> (r: Vec<u8>)
        requires
            self.wf(),
            mem.wf(),
            g.fits(self.size),
            i < g.count,
        ensures
            r@ == self.sub_block(mem@, g, i),
    {
        let start = self.base + g.start(self.size, i);
        let mut r: Vec<u8> = Vec::new();
        let mut k: u16 = 0;
        while k < g.stride
            invariant
                mem.wf(),
                start as int + g.stride as int <= ADDRESS_SPACE,
                k <= g.stride,
                r@ == mem@.subrange(start as int, start + k),
            decreases g.stride - k,
        {
            r.push(mem.peek(start + k));
            k = k + 1;
            assert(r@ =~= mem@.subrange(start as int, start + k));
        }
        r
    }
}

/// Writing a value that fits in a field and reading the field back through
/// the same view gives the value; the bits of the field's byte outside the
/// field, and every other byte, keep their earlier state.
pub proof fn lemma_write_read(v: RegisterView, m: Seq<u8>, f: Field, value: u8)
    requires
        v.wf(),
        m.len() == ADDRESS_SPACE,
        f.fits(v.size),
        f.holds(value),
    ensures
        v.spec_read(v.spec_write(m, f, value), f) == value,
        v.spec_write(m, f, value)[v.addr(f)] & !field_mask(f.shift, f.width) == m[v.addr(f)]
            & !field_mask(f.shift, f.width),
        forall|a: int| 0 <= a < m.len() && a != v.addr(f) ==> #[trigger] v.spec_write(m, f, value)[a] == m[a],
        v.spec_write(m, f, value).len() == m.len(),
{
    lemma_insert_extract(m[v.addr(f)], f.shift, f.width, value);
}

/// Writing a pattern over sub-block `i` of a group stores the pattern in
/// exactly the bytes `[start(i), start(i) + stride)` of the block: every other
/// sub-block of the group, and every byte outside that range, is untouched.
pub proof fn lemma_sub_block_isolated(v: RegisterView, m: Seq<u8>, g: Group, i: u16, data: Seq<u8>)
    requires
        v.wf(),
        m.len() == ADDRESS_SPACE,
        g.fits(v.size),
        i < g.count,
        data.len() == g.stride,
    ensures
        v.sub_block(v.spec_write_sub_block(m, g, i, data), g, i) == data,
        forall|j: u16|
            j < g.count && j != i ==> #[trigger] v.sub_block(v.spec_write_sub_block(m, g, i, data), g, j)
                == v.sub_block(m, g, j),
        forall|a: int|
            0 <= a < m.len() && !(v.base + g.spec_start(i) <= a < v.base + g.spec_start(i) + g.stride)
                ==> #[trigger] v.spec_write_sub_block(m, g, i, data)[a] == m[a],
{
    let m2 = v.spec_write_sub_block(m, g, i, data);
    assert(v.sub_block(m2, g, i) =~= data) by {
        lemma_start_in_block(v, g, i);
    }
    assert forall|j: u16| j < g.count && j != i implies #[trigger] v.sub_block(m2, g, j) == v.sub_block(m, g, j) by {
        lemma_start_in_block(v, g, j);
        lemma_starts_apart(g, i, j);
        assert(v.sub_block(m2, g, j) =~= v.sub_block(m, g, j));
    }
}

proof fn lemma_start_in_block(v: RegisterView, g: Group, i: u16)
    requires
        v.wf(),
        g.fits(v.size),
        i < g.count,
    ensures
        0 <= g.spec_start(i),
        v.base + g.spec_start(i) + g.stride <= ADDRESS_SPACE,
{
    let (s, n, j) = (g.stride as int, g.count as int, i as int);
    assert(0 <= j * s && j * s + s <= n * s) by (nonlinear_arith)
        requires
            0 <= j < n,
            1 <= s,
    ;
}

proof fn lemma_starts_apart(g: Group, i: u16, j: u16)
    requires
        1 <= g.stride,
        i != j,
    ensures
        g.spec_start(i) + g.stride <= g.spec_start(j) || g.spec_start(j) + g.stride <= g.spec_start(i),
{
    let (s, a, b) = (g.stride as int, i as int, j as int);
    assert(a * s + s <= b * s || b * s + s <= a * s) by (nonlinear_arith)
        requires
            a != b,
            1 <= s,
    ;
}

/// Two views of the same block layout at different base addresses behave
/// alike: where their blocks hold the same bytes, a field reads the same
/// through both, and writing the same value to the same field leaves their
/// blocks holding the same bytes again.
pub proof fn lemma_address_independent(
    a: RegisterView,
    b: RegisterView,
    m1: Seq<u8>,
    m2: Seq<u8>,
    f: Field,
    value: u8,
)
    requires
        a.wf(),
        b.wf(),
        a.size == b.size,
        m1.len() == ADDRESS_SPACE,
        m2.len() == ADDRESS_SPACE,
        a.block(m1) == b.block(m2),
        f.fits(a.size),
        f.holds(value),
    ensures
        a.spec_read(m1, f) == b.spec_read(m2, f),
        a.block(a.spec_write(m1, f, value)) == b.block(b.spec_write(m2, f, value)),
{
    assert(m1[a.addr(f)] == a.block(m1)[f.offset as int]);
    assert(m2[b.addr(f)] == b.block(m2)[f.offset as int]);
    let w1 = a.block(a.spec_write(m1, f, value));
    let w2 = b.block(b.spec_write(m2, f, value));
    assert forall|k: int| 0 <= k < a.size implies w1[k] == w2[k] by {
        assert(a.block(m1)[k] == b.block(m2)[k]);
        assert(a.block(m1)[k] == m1[a.base + k]);
        assert(b.block(m2)[k] == m2[b.base + k]);
    }
    assert(w1 =~= w2);
}

} // verus!
