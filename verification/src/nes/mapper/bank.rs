use vstd::prelude::*;

verus! {

/// Number of whole banks of `size` bytes in a region of `len` bytes; a region
/// smaller than one bank still counts as one bank.
pub open spec fn bank_count_spec(len: nat, size: nat) -> nat {
    if len / size >= 1 {
        len / size
    } else {
        1
    }
}

/// Index of byte `offset` of bank `bank` (taken modulo the number of banks),
/// wrapped into a region of `len` bytes.
pub open spec fn banked_index_spec(len: nat, bank: nat, size: nat, offset: nat) -> nat {
    (((bank % bank_count_spec(len, size)) * size + offset) % len) as nat
}

/// Index of a CPU address in a PRG-RAM window that starts at $6000.
pub open spec fn ram_index_spec(addr: u16, len: nat) -> nat {
    ((addr - 0x6000) % (len as int)) as nat
}

pub proof fn lemma_bank_fits(len: nat, size: nat, bank: nat, offset: nat)
    requires
        len > 0,
        size > 0,
        offset < size,
    ensures
        (bank % bank_count_spec(len, size)) * size + offset < if len >= size { len } else { size },
        len >= size ==> (bank % bank_count_spec(len, size)) * size + offset < len,
{
    let c = bank_count_spec(len, size);
    let b = bank % c;
    assert(b < c) by (nonlinear_arith)
        requires
            c > 0,
            b == bank % c,
    ;
    if len >= size {
        assert(len / size >= 1) by (nonlinear_arith)
            requires
                len >= size,
                size > 0,
        ;
        assert(c * size <= len) by (nonlinear_arith)
            requires
                c == len / size,
                size > 0,
        ;
        assert(b * size + offset < len) by (nonlinear_arith)
            requires
                b < c,
                c * size <= len,
                offset < size,
        ;
    } else {
        assert(len / size == 0) by (nonlinear_arith)
            requires
                len < size,
                size > 0,
        ;
        assert(c == 1);
        assert(b == 0) by (nonlinear_arith)
            requires
                c == 1,
                b == bank % c,
        ;
        assert(b * size == 0) by (nonlinear_arith)
            requires
                b == 0,
        ;
    }
}

/// Number of whole banks of `size` bytes in a region of `len` bytes, at least one.
pub fn bank_count(len: usize, size: usize) -> (r: usize)
    requires
        size > 0,
    ensures
        r == bank_count_spec(len as nat, size as nat),
        r >= 1,
{
    let n = len / size;
    if n >= 1 {
        n
    } else {
        1
    }
}

/// What a cartridge memory may be: non-empty and at most 256 MiB, more than an
/// image header can announce.
pub open spec fn memory_ok(data: Seq<u8>) -> bool {
    0 < data.len() <= 0x1000_0000
}

/// Index of byte `offset` of bank `bank` in a region of `len` bytes split into
/// banks of `size` bytes; the bank number wraps around the bank count and the
/// result wraps around the region.
pub fn banked_index(len: usize, bank: usize, size: usize, offset: usize) -> (r: usize)
    requires
        0 < len <= 0x1000_0000,
        0 < size <= 0x8000,
        offset <= 0xFFFF,
    ensures
        r == banked_index_spec(len as nat, bank as nat, size as nat, offset as nat),
        r < len,
{
    let count = bank_count(len, size);
    let b = bank % count;
    proof {
        lemma_bank_fits(len as nat, size as nat, bank as nat, 0);
    }
    (b * size + offset) % len
}

/// Index of a CPU address of the $6000-$7FFF window in a RAM of `len` bytes.
pub fn ram_index(addr: u16, len: usize) -> (r: usize)
    requires
        0x6000 <= addr,
        len > 0,
    ensures
        r == ram_index_spec(addr, len as nat),
        r < len,
{
    (addr as usize - 0x6000) % len
}

/// A vector of `n` zero bytes.
pub fn zeroed(n: usize) -> (v: Vec<u8>)
    ensures
        v@.len() == n,
        forall|i: int| 0 <= i < n ==> v@[i] == 0,
{
    let mut v: Vec<u8> = Vec::with_capacity(n);
    let mut i: usize = 0;
    while i < n
        invariant
            i <= n,
            v@.len() == i,
            forall|j: int| 0 <= j < i ==> v@[j] == 0,
        decreases n - i,
    {
        v.push(0);
        i = i + 1;
    }
    v
}

pub proof fn lemma_and_u16(x: u16, m: u16)
    ensures
        x & m <= m,
        x & m <= x,
{
    assert(x & m <= m) by (bit_vector);
    assert(x & m <= x) by (bit_vector);
}

pub proof fn lemma_and_u8(x: u8, m: u8)
    ensures
        x & m <= m,
        x & m <= x,
        (x & m) & m == x & m,
        (x & 0x0F) & 0x07 == x & 0x07,
{
    assert(x & m <= m && x & m <= x && (x & m) & m == x & m && (x & 0x0F) & 0x07 == x & 0x07)
        by (bit_vector);
}

pub proof fn lemma_and_usize(x: usize, m: usize)
    ensures
        x & m <= m,
        x & m <= x,
{
    assert(x & m <= m) by (bit_vector);
    assert(x & m <= x) by (bit_vector);
}

} // verus!

verus! {

/// In a region made of whole banks, every byte of every bank is in range.
pub proof fn lemma_whole_banks(len: nat, size: nat, bank: nat, offset: nat)
    requires
        len > 0,
        size > 0,
        len % size == 0,
        bank < bank_count_spec(len, size),
        offset < size,
    ensures
        bank * size + offset < len,
{
    assert(len / size >= 1 && (len / size) * size == len) by (nonlinear_arith)
        requires
            len > 0,
            size > 0,
            len % size == 0,
    ;
    assert(bank * size + offset < len) by (nonlinear_arith)
        requires
            bank < len / size,
            (len / size) * size == len,
            offset < size,
    ;
}

} // verus!

verus! {

/// The byte at a CPU address of the $6000-$7FFF window of a RAM.
pub open spec fn ram_read_spec(ram: Seq<u8>, addr: u16) -> u8 {
    ram[ram_index_spec(addr, ram.len()) as int]
}

/// A RAM after a CPU write to an address of the $6000-$7FFF window.
pub open spec fn ram_write_spec(ram: Seq<u8>, addr: u16, value: u8) -> Seq<u8> {
    ram.update(ram_index_spec(addr, ram.len()) as int, value)
}

/// Byte `offset` of bank `bank` of a banked memory, wrapped as `banked_index_spec` says.
pub open spec fn banked_read_spec(data: Seq<u8>, bank: nat, size: nat, offset: nat) -> u8 {
    data[banked_index_spec(data.len(), bank, size, offset) as int]
}

/// Byte `index` of a memory, wrapped around its length.
pub open spec fn wrapped_read_spec(data: Seq<u8>, index: nat) -> u8 {
    data[(index % data.len()) as int]
}

/// A memory after a write to byte `index` wrapped around its length.
pub open spec fn wrapped_write_spec(data: Seq<u8>, index: nat, value: u8) -> Seq<u8> {
    data.update((index % data.len()) as int, value)
}

pub fn read_ram(ram: &Vec<u8>, addr: u16) -> (r: u8)
    requires
        0x6000 <= addr,
        ram@.len() > 0,
    ensures
        r == ram_read_spec(ram@, addr),
{
    let idx = ram_index(addr, ram.len());
    ram[idx]
}

pub fn write_ram(ram: &mut Vec<u8>, addr: u16, value: u8)
    requires
        0x6000 <= addr,
        old(ram)@.len() > 0,
    ensures
        final(ram)@ == ram_write_spec(old(ram)@, addr, value),
{
    let idx = ram_index(addr, ram.len());
    ram.set(idx, value);
}

pub fn read_banked(data: &Vec<u8>, bank: usize, size: usize, offset: usize) -> (r: u8)
    requires
        memory_ok(data@),
        0 < size <= 0x8000,
        offset <= 0xFFFF,
    ensures
        r == banked_read_spec(data@, bank as nat, size as nat, offset as nat),
{
    let idx = banked_index(data.len(), bank, size, offset);
    data[idx]
}

pub fn write_banked(data: &mut Vec<u8>, bank: usize, size: usize, offset: usize, value: u8)
    requires
        memory_ok(old(data)@),
        0 < size <= 0x8000,
        offset <= 0xFFFF,
    ensures
        final(data)@ == old(data)@.update(
            banked_index_spec(old(data)@.len(), bank as nat, size as nat, offset as nat) as int,
            value,
        ),
{
    let idx = banked_index(data.len(), bank, size, offset);
    data.set(idx, value);
}

pub fn read_wrapped(data: &Vec<u8>, index: usize) -> (r: u8)
    requires
        data@.len() > 0,
    ensures
        r == wrapped_read_spec(data@, index as nat),
{
    data[index % data.len()]
}

pub fn write_wrapped(data: &mut Vec<u8>, index: usize, value: u8)
    requires
        old(data)@.len() > 0,
    ensures
        final(data)@ == wrapped_write_spec(old(data)@, index as nat, value),
{
    let idx = index % data.len();
    data.set(idx, value);
}

/// A RAM byte written through the $6000-$7FFF window reads back.
pub proof fn lemma_ram_roundtrip(ram: Seq<u8>, addr: u16, value: u8)
    requires
        0x6000 <= addr,
        ram.len() > 0,
    ensures
        ram_read_spec(ram_write_spec(ram, addr, value), addr) == value,
{
}

/// A byte written at a wrapped index reads back.
pub proof fn lemma_wrapped_roundtrip(data: Seq<u8>, index: nat, value: u8)
    requires
        data.len() > 0,
    ensures
        wrapped_read_spec(wrapped_write_spec(data, index, value), index) == value,
{
}

} // verus!

verus! {

/// Zeroed PRG RAM of the cartridge's size, at least 8 KiB.
pub open spec fn fresh_prg_ram(size: usize) -> Seq<u8> {
    Seq::new(if size >= 8192 { size as nat } else { 8192 }, |i: int| 0u8)
}

pub fn new_prg_ram(size: usize) -> (v: Vec<u8>)
    requires
        size <= 0x1000_0000,
    ensures
        v@ == fresh_prg_ram(size),
        memory_ok(v@),
{
    let n = if size >= 8 * 1024 {
        size
    } else {
        8 * 1024
    };
    let v = zeroed(n);
    assert(v@ =~= fresh_prg_ram(size));
    v
}

} // verus!

verus! {

pub proof fn lemma_and_idempotent_u16(x: u16, m: u16)
    ensures
        (x & m) & m == x & m,
{
    assert((x & m) & m == x & m) by (bit_vector);
}

} // verus!
