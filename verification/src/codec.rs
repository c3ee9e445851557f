//! The snapshot: the generation and every cell as bytes, little-endian, four
//! bytes to a field, and the same stream compressed.

use vstd::prelude::*;
use std::io::Read;
use std::io::Write;
use crate::grid::Grid;
use crate::particle::{Particle, Velocity};
use crate::variant::{Variant, VARIANT_COUNT};
use crate::world::World;
use crate::Serialize;

verus! {

/// Number of bytes that a field takes.
pub const FIELD_BYTES: usize = 4;

/// Number of bytes that a velocity takes.
pub const VELOCITY_BYTES: usize = 8;

/// Number of bytes that a particle takes.
pub const RECORD_BYTES: usize = 36;

/// Size of the buffers that the compressor and the decompressor work with.
pub const BUFFER_SIZE: usize = 4096;

/// Quality that the compressor is asked for: its highest.
pub const QUALITY: u32 = 11;

/// Binary logarithm of the window that the compressor is asked for.
pub const WINDOW_BITS: u32 = 22;

/// The four bytes of a number, lowest first.
pub open spec fn le4(v: u32) -> Seq<u8> {
    seq![
        (v % 0x100) as u8,
        (v / 0x100 % 0x100) as u8,
        (v / 0x1_0000 % 0x100) as u8,
        (v / 0x100_0000) as u8,
    ]
}

/// The number that the four bytes from byte `at` of `data` on stand for,
/// lowest first.
pub open spec fn field(data: Seq<u8>, at: int) -> u32 {
    (data[at] + data[at + 1] * 0x100 + data[at + 2] * 0x1_0000 + data[at + 3] * 0x100_0000) as u32
}

/// A signed number as the unsigned one with the same bits.
pub open spec fn unsigned(x: i32) -> u32 {
    if x >= 0 {
        x as u32
    } else {
        (x + 0x1_0000_0000) as u32
    }
}

/// An unsigned number as the signed one with the same bits.
pub open spec fn signed(u: u32) -> i32 {
    if u < 0x8000_0000 {
        u as i32
    } else {
        (u - 0x1_0000_0000) as i32
    }
}

/// A flag as a number: one where it is set.
pub open spec fn flag(b: bool) -> u32 {
    if b {
        1
    } else {
        0
    }
}

/// The material of a field: one that names none stands for `Empty`.
pub open spec fn variant_of(code: u32) -> Variant {
    if code < VARIANT_COUNT {
        Variant::spec_from_u8(code as u8)
    } else {
        Variant::Empty
    }
}

/// The four bytes of a number stand for that number.
pub proof fn lemma_le4_round_trip(v: u32)
    ensures
        le4(v).len() == FIELD_BYTES,
        field(le4(v), 0) == v,
{
}

fn push_le4(out: &mut Vec<u8>, v: u32)
    ensures
        final(out)@ == old(out)@ + le4(v),
{
    out.push((v % 0x100) as u8);
    out.push((v / 0x100 % 0x100) as u8);
    out.push((v / 0x1_0000 % 0x100) as u8);
    out.push((v / 0x100_0000) as u8);
    assert(out@ =~= old(out)@ + le4(v));
}

fn push_signed(out: &mut Vec<u8>, x: i32)
    ensures
        final(out)@ == old(out)@ + le4(unsigned(x)),
{
    let u: u32 = if x >= 0 {
        x as u32
    } else {
        (x as i64 + 0x1_0000_0000) as u32
    };
    push_le4(out, u);
}

fn read_le4(data: &[u8], at: usize) -> (v: u32)
    requires
        at + FIELD_BYTES <= data@.len(),
    ensures
        v == field(data@, at as int),
{
    let v = data[at] as u32 + data[at + 1] as u32 * 0x100 + data[at + 2] as u32 * 0x1_0000 + data[at
        + 3] as u32 * 0x100_0000;
    v
}

fn read_signed(data: &[u8], at: usize) -> (x: i32)
    requires
        at + FIELD_BYTES <= data@.len(),
    ensures
        x == signed(field(data@, at as int)),
{
    let u = read_le4(data, at);
    if u < 0x8000_0000 {
        u as i32
    } else {
        (u as i64 - 0x1_0000_0000) as i32
    }
}

impl Velocity {
    /// The bytes of a velocity: its parts, sideways first.
    pub open spec fn record(self) -> Seq<u8> {
        le4(unsigned(self.x)) + le4(unsigned(self.y))
    }

    /// The velocity that the first bytes of `data` stand for.
    pub open spec fn parsed(data: Seq<u8>) -> Velocity {
        Velocity { x: signed(field(data, 0)), y: signed(field(data, 4)) }
    }
}

impl Particle {
    /// The bytes of a particle: material code, the two scratch bytes, clock,
    /// strength, the `modified` flag, velocity and temperature.
    #[verifier::opaque]
    pub open spec fn record(self) -> Seq<u8> {
        le4(self.variant.spec_code() as u32) + le4(self.ra as u32) + le4(self.rb as u32) + le4(
            self.clock as u32,
        ) + le4(self.strength as u32) + le4(flag(self.modified)) + self.velocity.record() + le4(
            unsigned(self.temperature),
        )
    }

    /// The particle that the first bytes of `data` stand for. Of a field
    /// that holds one byte, only the lowest byte counts; any flag but zero
    /// is set.
    pub open spec fn parsed(data: Seq<u8>) -> Particle {
        Particle {
            variant: variant_of(field(data, 0)),
            ra: (field(data, 4) % 0x100) as u8,
            rb: (field(data, 8) % 0x100) as u8,
            clock: (field(data, 12) % 0x100) as u8,
            strength: (field(data, 16) % 0x100) as u8,
            modified: field(data, 20) != 0,
            velocity: Velocity { x: signed(field(data, 24)), y: signed(field(data, 28)) },
            temperature: signed(field(data, 32)),
        }
    }
}

impl Serialize for Velocity {
    open spec fn encoding(&self) -> Seq<u8> {
        self.record()
    }

    open spec fn decodable(data: Seq<u8>) -> bool {
        data.len() >= VELOCITY_BYTES
    }

    open spec fn decoding(data: Seq<u8>) -> Velocity {
        Velocity::parsed(data)
    }

    fn serialize(&self) -> (bytes: Vec<u8>) {
        let mut res: Vec<u8> = Vec::new();
        push_signed(&mut res, self.x);
        push_signed(&mut res, self.y);
        assert(res@ =~= self.record());
        res
    }

    fn deserialize(data: &[u8]) -> (value: Velocity) {
        Velocity { x: read_signed(data, 0), y: read_signed(data, 4) }
    }

    proof fn round_trip(&self) {
        let s = self.record();
        lemma_le4_round_trip(unsigned(self.x));
        lemma_le4_round_trip(unsigned(self.y));
    }
}

impl Serialize for Particle {
    open spec fn encoding(&self) -> Seq<u8> {
        self.record()
    }

    open spec fn decodable(data: Seq<u8>) -> bool {
        data.len() >= RECORD_BYTES
    }

    open spec fn decoding(data: Seq<u8>) -> Particle {
        Particle::parsed(data)
    }

    fn serialize(&self) -> (bytes: Vec<u8>) {
        let mut res: Vec<u8> = Vec::new();
        write_record(&mut res, self);
        assert(res@ =~= self.record());
        res
    }

    fn deserialize(data: &[u8]) -> (value: Particle) {
        read_record(data, 0)
    }

    proof fn round_trip(&self) {
        lemma_record_round_trip(*self);
    }
}

/// A record has 36 bytes and reads back as the particle it was written from.
pub proof fn lemma_record_round_trip(p: Particle)
    ensures
        p.record().len() == RECORD_BYTES,
        Particle::parsed(p.record()) == p,
        field(p.record(), 0) == p.variant.spec_code(),
{
    reveal(Particle::record);
    let s = p.record();
    lemma_le4_round_trip(p.variant.spec_code() as u32);
    lemma_le4_round_trip(p.ra as u32);
    lemma_le4_round_trip(p.rb as u32);
    lemma_le4_round_trip(p.clock as u32);
    lemma_le4_round_trip(p.strength as u32);
    lemma_le4_round_trip(flag(p.modified));
    lemma_le4_round_trip(unsigned(p.velocity.x));
    lemma_le4_round_trip(unsigned(p.velocity.y));
    lemma_le4_round_trip(unsigned(p.temperature));
    crate::variant::lemma_code_round_trip(p.variant);
}

/// The records of cells, one behind the other.
pub open spec fn records(cells: Seq<Particle>) -> Seq<u8>
    decreases cells.len(),
{
    if cells.len() == 0 {
        Seq::empty()
    } else {
        records(cells.drop_last()) + cells.last().record()
    }
}

/// The bytes in which a stream holds its `i`-th record, behind the byte of
/// the generation.
pub open spec fn record_at(data: Seq<u8>, i: int) -> Seq<u8> {
    data.subrange(1 + RECORD_BYTES * i, 1 + RECORD_BYTES * (i + 1))
}

/// Whether each of the first `n` records of a stream names a material.
pub open spec fn known_variants(data: Seq<u8>, n: int) -> bool {
    forall|i: int| 0 <= i < n ==> field(#[trigger] record_at(data, i), 0) < VARIANT_COUNT
}

/// Why a snapshot is refused.
#[derive(Clone, Copy, Debug, PartialEq, Eq, Structural)]
pub enum SnapshotError {
    /// The stream does not hold one byte and one record for each cell.
    WrongLength,
    /// A record holds a code that names no material.
    BadVariant,
    /// The compressed stream cannot be expanded.
    Corrupt,
}

/// What is wrong with a stream as the snapshot of a grid of `cells` cells,
/// if anything: the length is tested first.
pub open spec fn fault(data: Seq<u8>, cells: nat) -> Option<SnapshotError> {
    if data.len() != 1 + RECORD_BYTES * cells {
        Some(SnapshotError::WrongLength)
    } else if !known_variants(data, cells as int) {
        Some(SnapshotError::BadVariant)
    } else {
        None
    }
}

impl Grid {
    /// The snapshot of a grid: the generation, then the cells in row-major
    /// order.
    pub open spec fn snapshot(self) -> Seq<u8> {
        seq![self.generation] + records(self.cells)
    }

    /// The grid with generation and cells taken from a stream.
    pub open spec fn restored(self, data: Seq<u8>) -> Grid {
        Grid {
            cells: Seq::new(self.cells.len(), |i: int| Particle::parsed(record_at(data, i))),
            generation: data[0],
            ..self
        }
    }
}

/// The records of cells take 36 bytes for each cell.
pub proof fn lemma_records_len(cells: Seq<Particle>)
    ensures
        records(cells).len() == RECORD_BYTES * cells.len(),
    decreases cells.len(),
{
    if cells.len() > 0 {
        lemma_records_len(cells.drop_last());
        lemma_record_round_trip(cells.last());
    }
}

/// The records of cells hold the record of each cell at its place.
pub proof fn lemma_records_at(cells: Seq<Particle>, i: int)
    requires
        0 <= i < cells.len(),
    ensures
        records(cells).subrange(RECORD_BYTES * i, RECORD_BYTES * (i + 1)) == cells[i].record(),
    decreases cells.len(),
{
    let front = cells.drop_last();
    lemma_records_len(front);
    lemma_records_len(cells);
    lemma_record_round_trip(cells.last());
    if i == cells.len() - 1 {
        assert(records(cells).subrange(RECORD_BYTES * i, RECORD_BYTES * (i + 1))
            =~= cells[i].record());
    } else {
        lemma_records_at(front, i);
        lemma_record_round_trip(cells[i]);
        assert(records(cells).subrange(RECORD_BYTES * i, RECORD_BYTES * (i + 1)) =~= records(
            front,
        ).subrange(RECORD_BYTES * i, RECORD_BYTES * (i + 1)));
    }
}

/// A snapshot gives back what it was taken from: a grid with as many cells
/// as another takes the snapshot of that other without fault, and then
/// holds its generation and each of its cells.
pub proof fn lemma_snapshot_round_trip(g: Grid, h: Grid)
    requires
        h.cells.len() == g.cells.len(),
    ensures
        fault(g.snapshot(), h.cells.len()) is None,
        h.restored(g.snapshot()) == (Grid { cells: g.cells, generation: g.generation, ..h }),
{
    let data = g.snapshot();
    lemma_records_len(g.cells);
    assert forall|i: int| 0 <= i < g.cells.len() implies #[trigger] record_at(data, i)
        == g.cells[i].record() by {
        lemma_records_at(g.cells, i);
        assert(record_at(data, i) =~= records(g.cells).subrange(
            RECORD_BYTES * i,
            RECORD_BYTES * (i + 1),
        ));
    }
    assert forall|i: int| 0 <= i < g.cells.len() implies field(#[trigger] record_at(data, i), 0)
        < VARIANT_COUNT by {
        lemma_record_round_trip(g.cells[i]);
    }
    assert forall|i: int| 0 <= i < g.cells.len() implies Particle::parsed(record_at(data, i))
        == g.cells[i] by {
        lemma_record_round_trip(g.cells[i]);
    }
    assert(h.restored(data).cells =~= g.cells);
}

/// What a compressed stream expands to, if it can be expanded, when the
/// decompressor works with a buffer of the given size.
pub uninterp spec fn brotli_plain(packed: Seq<u8>, buffer_size: usize) -> Option<Seq<u8>>;

/// What the compressor writes of bytes with a buffer of the given size, at
/// the given quality and with the given window, if it writes anything.
pub uninterp spec fn brotli_packed(
    plain: Seq<u8>,
    buffer_size: usize,
    quality: u32,
    window_bits: u32,
) -> Option<Seq<u8>>;

/// Compresses bytes with `brotli::CompressorWriter`, created by `new` over a
/// vector with the given buffer size, quality and window, fed by `write_all`
/// and finished when it is dropped. Trusted: the result is what
/// `brotli_packed` names, and there is none exactly where the writer
/// reports an error. The crate is built so that what the compressor writes
/// is the same on every machine.
#[verifier::external_body]
fn brotli_pack(bytes: &Vec<u8>, buffer_size: usize, quality: u32, window_bits: u32) -> (packed:
    Option<Vec<u8>>)
    ensures
        packed matches Some(p) ==> brotli_packed(bytes@, buffer_size, quality, window_bits)
            == Some(p@),
        packed is None ==> brotli_packed(bytes@, buffer_size, quality, window_bits) is None,
{
    let mut packed = Vec::new();
    let mut writer = brotli::CompressorWriter::new(&mut packed, buffer_size, quality, window_bits);
    let written = writer.write_all(bytes);
    drop(writer);
    match written {
        Ok(_) => Some(packed),
        Err(_) => None,
    }
}

/// Expands bytes with `brotli::Decompressor`, created by `new` over the bytes
/// with the given buffer size and read to its end. Trusted: the result is
/// what `brotli_plain` names, and there is none exactly where the
/// decompressor reports an error.
#[verifier::external_body]
fn brotli_unpack(packed: &[u8], buffer_size: usize) -> (plain: Option<Vec<u8>>)
    ensures
        plain matches Some(v) ==> brotli_plain(packed@, buffer_size) == Some(v@),
        plain is None ==> brotli_plain(packed@, buffer_size) is None,
{
    let mut plain = Vec::new();
    match brotli::Decompressor::new(packed, buffer_size).read_to_end(&mut plain) {
        Ok(_) => Some(plain),
        Err(_) => None,
    }
}

/// Whether a compressed stream expands to `plain`.
pub open spec fn expands_to(packed: Seq<u8>, plain: Seq<u8>) -> bool {
    brotli_plain(packed, BUFFER_SIZE) == Some(plain)
}

/// What is kept of what a compressor wrote of `plain`: the stream itself
/// where it was written and expands to `plain`, and nothing otherwise.
pub fn vouch_slc(written: Option<Vec<u8>>, plain: &Vec<u8>) -> (kept: Option<Vec<u8>>)
    ensures
        match written {
            Some(p) => if expands_to(p@, plain@) {
                kept == Some(p)
            } else {
                kept is None
            },
            None => kept is None,
        },
{
    match written {
        None => None,
        Some(packed) => match brotli_unpack(packed.as_slice(), BUFFER_SIZE) {
            None => None,
            Some(back) => if same_bytes(&back, plain) {
                Some(packed)
            } else {
                None
            },
        },
    }
}

/// Whether two vectors hold the same bytes.
pub fn same_bytes(a: &Vec<u8>, b: &Vec<u8>) -> (same: bool)
    ensures
        same == (a@ == b@),
{
    if a.len() != b.len() {
        return false;
    }
    let mut i: usize = 0;
    while i < a.len()
        invariant
            0 <= i <= a@.len(),
            a@.len() == b@.len(),
            forall|k: int| 0 <= k < i ==> a@[k] == b@[k],
        decreases a@.len() - i,
    {
        if a[i] != b[i] {
            return false;
        }
        i = i + 1;
    }
    assert(a@ =~= b@);
    true
}

fn write_record(out: &mut Vec<u8>, p: &Particle)
    ensures
        final(out)@ == old(out)@ + p.record(),
{
    push_le4(out, p.variant.code() as u32);
    push_le4(out, p.ra as u32);
    push_le4(out, p.rb as u32);
    push_le4(out, p.clock as u32);
    push_le4(out, p.strength as u32);
    push_le4(
        out,
        if p.modified {
            1
        } else {
            0
        },
    );
    push_signed(out, p.velocity.x);
    push_signed(out, p.velocity.y);
    push_signed(out, p.temperature);
    reveal(Particle::record);
    assert(out@ =~= old(out)@ + p.record());
}

fn read_record(data: &[u8], at: usize) -> (p: Particle)
    requires
        at + RECORD_BYTES <= data@.len(),
        at + RECORD_BYTES <= usize::MAX,
    ensures
        p == Particle::parsed(data@.subrange(at as int, at + RECORD_BYTES)),
{
    let code = read_le4(data, at);
    Particle {
        variant: if code < 18 {
            Variant::from_u8(code as u8)
        } else {
            Variant::Empty
        },
        ra: (read_le4(data, at + 4) % 0x100) as u8,
        rb: (read_le4(data, at + 8) % 0x100) as u8,
        clock: (read_le4(data, at + 12) % 0x100) as u8,
        strength: (read_le4(data, at + 16) % 0x100) as u8,
        modified: read_le4(data, at + 20) != 0,
        velocity: Velocity { x: read_signed(data, at + 24), y: read_signed(data, at + 28) },
        temperature: read_signed(data, at + 32),
    }
}

impl World {
    /// The snapshot of the world.
    pub fn serialize(&self) -> (bytes: Vec<u8>)
        ensures
            bytes@ == self@.snapshot(),
    {
        let mut res: Vec<u8> = Vec::new();
        res.push(self.generation);
        let mut i: usize = 0;
        assert(self.particles@.take(0) =~= Seq::empty());
        while i < self.particles.len()
            invariant
                0 <= i <= self.particles@.len(),
                res@ == seq![self.generation] + records(self.particles@.take(i as int)),
            decreases self.particles@.len() - i,
        {
            let ghost before = res@;
            write_record(&mut res, &self.particles[i]);
            proof {
                let next = self.particles@.take(i + 1);
                assert(next.drop_last() =~= self.particles@.take(i as int));
                assert(next.last() == self.particles@[i as int]);
                assert(res@ =~= seq![self.generation] + records(next));
            }
            i = i + 1;
        }
        assert(self.particles@.take(self.particles@.len() as int) =~= self.particles@);
        res
    }

    /// Takes generation and cells from a snapshot. A stream of the wrong
    /// length, or with a record that names no material, is refused and
    /// leaves the world as it is.
    pub fn restore(&mut self, data: &[u8]) -> (r: Result<(), SnapshotError>)
        ensures
            match r {
                Ok(_) => fault(data@, old(self)@.cells.len()) is None && final(self)@ == old(
                    self,
                )@.restored(data@),
                Err(e) => fault(data@, old(self)@.cells.len()) == Some(e) && final(self)@ == old(
                    self,
                )@,
            },
    {
        let n = self.particles.len();
        if data.len() as u128 != 1 + 36 * (n as u128) {
            return Err(SnapshotError::WrongLength);
        }
        let mut i: usize = 0;
        while i < n
            invariant
                0 <= i <= n,
                n == self.particles@.len(),
                data@.len() == 1 + RECORD_BYTES * n,
                data@.len() <= usize::MAX,
                known_variants(data@, i as int),
                *self == *old(self),
            decreases n - i,
        {
            let code = read_le4(data, 1 + 36 * i);
            if code >= 18 {
                assert(field(record_at(data@, i as int), 0) == code);
                return Err(SnapshotError::BadVariant);
            }
            assert forall|k: int| 0 <= k < i + 1 implies field(#[trigger] record_at(data@, k), 0)
                < VARIANT_COUNT by {
                if k == i {
                    assert(field(record_at(data@, i as int), 0) == code);
                }
            }
            i = i + 1;
        }
        self.generation = data[0];
        let mut i: usize = 0;
        while i < n
            invariant
                0 <= i <= n,
                n == self.particles@.len(),
                n == old(self).particles@.len(),
                data@.len() == 1 + RECORD_BYTES * n,
                data@.len() <= usize::MAX,
                forall|k: int|
                    0 <= k < i ==> self.particles@[k] == Particle::parsed(record_at(data@, k)),
                self.environment == old(self).environment,
                self.width == old(self).width,
                self.height == old(self).height,
                self.running == old(self).running,
                self.generation == data@[0],
                self.modified_state == old(self).modified_state,
                self.cleared == old(self).cleared,
                self.modified_indices == old(self).modified_indices,
            decreases n - i,
        {
            let p = read_record(data, 1 + 36 * i);
            self.particles.set(i, p);
            i = i + 1;
        }
        assert(self@.cells =~= old(self)@.restored(data@).cells);
        Ok(())
    }

    /// The snapshot of the world, compressed. What the compressor wrote is
    /// expanded again and compared: the result is what the compressor
    /// writes of the snapshot, where that expands to the snapshot; there
    /// is none where the compressor fails or its work does not stand the
    /// test.
    pub fn pack_slc(&self) -> (packed: Option<Vec<u8>>)
        ensures
            match brotli_packed(self@.snapshot(), BUFFER_SIZE, QUALITY, WINDOW_BITS) {
                Some(p) => if expands_to(p, self@.snapshot()) {
                    packed matches Some(v) && v@ == p
                } else {
                    packed is None
                },
                None => packed is None,
            },
    {
        let plain = self.serialize();
        vouch_slc(brotli_pack(&plain, BUFFER_SIZE, QUALITY, WINDOW_BITS), &plain)
    }

    /// Takes generation and cells from a compressed snapshot. A stream that
    /// cannot be expanded is refused, and so is one that expands to what
    /// `restore` refuses; the world then stays as it is.
    pub fn unpack_slc(&mut self, packed: &[u8]) -> (r: Result<(), SnapshotError>)
        ensures
            match brotli_plain(packed@, BUFFER_SIZE) {
                None => r == Err::<(), SnapshotError>(SnapshotError::Corrupt) && final(self)@
                    == old(self)@,
                Some(plain) => match r {
                    Ok(_) => fault(plain, old(self)@.cells.len()) is None && final(self)@ == old(
                        self,
                    )@.restored(plain),
                    Err(e) => fault(plain, old(self)@.cells.len()) == Some(e) && final(self)@
                        == old(self)@,
                },
            },
    {
        match brotli_unpack(packed, BUFFER_SIZE) {
            None => Err(SnapshotError::Corrupt),
            Some(plain) => self.restore(plain.as_slice()),
        }
    }
}

} // verus!
