//! Meshes: a vertex buffer, an index buffer and their counts; and the
//! sphere that is drawn as one zigzag triangle strip.

use crate::gpu::Buffer;
use crate::gpu::BufferUsage;
use crate::gpu::SizeMismatch;
use crate::render_types::VERTEX_TEX_NORMAL_SIZE;
use vstd::prelude::*;

verus! {

/// `bytes` holds each index as two bytes, the low byte first.
pub open spec fn encodes_low_first(indices: Seq<u16>, bytes: Seq<u8>) -> bool {
    &&& bytes.len() == 2 * indices.len()
    &&& forall|i: int|
        0 <= i < indices.len() ==> bytes[2 * i] == #[trigger] indices[i] % 0x100 && bytes[2 * i + 1]
            == indices[i] / 0x100
}

/// `bytes` holds each index as two bytes, the high byte first.
pub open spec fn encodes_high_first(indices: Seq<u16>, bytes: Seq<u8>) -> bool {
    &&& bytes.len() == 2 * indices.len()
    &&& forall|i: int|
        0 <= i < indices.len() ==> bytes[2 * i] == #[trigger] indices[i] / 0x100 && bytes[2 * i + 1]
            == indices[i] % 0x100
}

/// `bytes` holds the indices as the machine stores them: two bytes each,
/// in one byte order throughout.
pub open spec fn encodes(indices: Seq<u16>, bytes: Seq<u8>) -> bool {
    encodes_low_first(indices, bytes) || encodes_high_first(indices, bytes)
}

/// Calls `bytemuck::cast_slice` from 16-bit numbers to bytes and copies
/// the result. The cast reinterprets the memory of the slice, so it gives
/// two bytes for each number, in the byte order of the machine. With bytes
/// as the target it cannot fail.
#[verifier::external_body]
fn index_bytes(indices: &[u16]) -> (bytes: Vec<u8>)
    ensures
        encodes(indices@, bytes@),
{
    bytemuck::cast_slice::<u16, u8>(indices).to_vec()
}

/// A mesh on the GPU.
#[derive(Clone, Debug, PartialEq, Eq)]
pub struct Geometry {
    pub vertex_buffer: Buffer,
    pub index_buffer: Buffer,
    pub num_vertices: u32,
    pub num_indices: u32,
}

/// The number of the lattice point in column `x` of row `y`, in a lattice
/// with columns `0..=xs`.
pub open spec fn vertex_number(xs: int, x: int, y: int) -> int {
    y * (xs + 1) + x
}

/// Entry `j` of the strip between row `y` and row `y + 1`. The strip
/// visits each column twice, first one row and then the other; rows with
/// an even number run from column 0 upward, the others from column `xs`
/// downward, so that each strip starts where the one before it ended.
pub open spec fn row_entry(xs: int, y: int, j: int) -> int {
    let step = j / 2;
    if y % 2 == 0 {
        if j % 2 == 0 {
            vertex_number(xs, step, y)
        } else {
            vertex_number(xs, step, y + 1)
        }
    } else {
        if j % 2 == 0 {
            vertex_number(xs, xs - step, y + 1)
        } else {
            vertex_number(xs, xs - step, y)
        }
    }
}

/// The strip between row `y` and row `y + 1`.
pub open spec fn strip_row(xs: int, y: int) -> Seq<int> {
    Seq::new((2 * (xs + 1)) as nat, |j: int| row_entry(xs, y, j))
}

/// The strips of rows `0..rows`, one behind the other.
pub open spec fn strip(xs: int, rows: int) -> Seq<int>
    decreases rows,
{
    if rows <= 0 {
        Seq::empty()
    } else {
        strip(xs, rows - 1) + strip_row(xs, rows - 1)
    }
}

/// The strips of rows `0..rows` as 16-bit indices.
pub open spec fn strip_indices(xs: int, rows: int) -> Seq<u16> {
    Seq::new(strip(xs, rows).len(), |k: int| strip(xs, rows)[k] as u16)
}

/// The lattice points of rows `0..rows` as `(x, y)`, row by row.
pub open spec fn lattice(xs: int, rows: int) -> Seq<(int, int)>
    decreases rows,
{
    if rows <= 0 {
        Seq::empty()
    } else {
        lattice(xs, rows - 1) + Seq::new((xs + 1) as nat, |x: int| (x, rows - 1))
    }
}

/// A strip over `rows` rows has two entries per column and row.
pub proof fn strip_len(xs: int, rows: int)
    requires
        0 <= xs,
        0 <= rows,
    ensures
        strip(xs, rows).len() == 2 * (xs + 1) * rows,
    decreases rows,
{
    if rows > 0 {
        strip_len(xs, rows - 1);
        assert(2 * (xs + 1) * (rows - 1) + 2 * (xs + 1) == 2 * (xs + 1) * rows)
            by (nonlinear_arith);
    } else {
        assert(2 * (xs + 1) * rows == 0) by (nonlinear_arith)
            requires
                rows == 0,
        ;
    }
}

/// A lattice of `rows` rows has one point per column and row.
pub proof fn lattice_len(xs: int, rows: int)
    requires
        0 <= xs,
        0 <= rows,
    ensures
        lattice(xs, rows).len() == (xs + 1) * rows,
    decreases rows,
{
    if rows > 0 {
        lattice_len(xs, rows - 1);
        assert((xs + 1) * (rows - 1) + (xs + 1) == (xs + 1) * rows) by (nonlinear_arith);
    } else {
        assert((xs + 1) * rows == 0) by (nonlinear_arith)
            requires
                rows == 0,
        ;
    }
}

/// Every point of the lattice has its number below the number of points.
pub proof fn vertex_number_in_range(xs: int, ys: int, x: int, y: int)
    requires
        0 <= x <= xs,
        0 <= y <= ys,
    ensures
        0 <= vertex_number(xs, x, y) < (xs + 1) * (ys + 1),
{
    assert(0 <= y * (xs + 1) && y * (xs + 1) + (xs + 1) <= (xs + 1) * (ys + 1))
        by (nonlinear_arith)
        requires
            0 <= xs,
            0 <= y <= ys,
    ;
}

/// Every entry of the strip between two rows is the number of a point of
/// one of them.
pub proof fn row_entry_in_range(xs: int, ys: int, y: int, j: int)
    requires
        0 <= xs,
        0 <= y < ys,
        0 <= j < 2 * (xs + 1),
    ensures
        0 <= row_entry(xs, y, j) < (xs + 1) * (ys + 1),
{
    let step = j / 2;
    vertex_number_in_range(xs, ys, step, y);
    vertex_number_in_range(xs, ys, step, y + 1);
    vertex_number_in_range(xs, ys, xs - step, y);
    vertex_number_in_range(xs, ys, xs - step, y + 1);
}

/// Every index of the sphere's strip is the number of a vertex: it is
/// below the number of vertices of the lattice.
pub proof fn strip_in_range(xs: int, ys: int, rows: int, k: int)
    requires
        0 <= xs,
        0 <= rows <= ys,
        0 <= k < strip(xs, rows).len(),
    ensures
        0 <= strip(xs, rows)[k] < (xs + 1) * (ys + 1),
    decreases rows,
{
    if rows > 0 {
        let before = strip(xs, rows - 1);
        if k < before.len() {
            strip_in_range(xs, ys, rows - 1, k);
        } else {
            row_entry_in_range(xs, ys, rows - 1, k - before.len());
        }
    }
}

/// Each strip starts in the column in which the one before it ended: the
/// last column after a row with an even number, column 0 after the others.
pub proof fn strips_are_joined(xs: int, y: int)
    requires
        0 <= xs,
        0 <= y,
    ensures
        ({
            let column = if y % 2 == 0 {
                xs
            } else {
                0
            };
            let last = 2 * (xs + 1) - 1;
            &&& strip_row(xs, y)[last] == vertex_number(xs, column, y) || strip_row(xs, y)[last]
                == vertex_number(xs, column, y + 1)
            &&& strip_row(xs, y + 1)[0] == vertex_number(xs, column, y + 1) || strip_row(
                xs,
                y + 1,
            )[0] == vertex_number(xs, column, y + 2)
        }),
{
    let last = 2 * (xs + 1) - 1;
    assert(last / 2 == xs && last % 2 == 1);
    assert(0int / 2 == 0 && 0int % 2 == 0);
}

/// The indices of a sphere of `xs` by `ys` segments, drawn as one triangle
/// strip over a lattice of `xs + 1` by `ys + 1` vertices.
pub fn sphere_indices(xs: u16, ys: u16) -> (indices: Vec<u16>)
    requires
        (xs + 1) * (ys + 1) <= 0x1_0000,
    ensures
        indices@ == strip_indices(xs as int, ys as int),
        forall|k: int| 0 <= k < indices@.len() ==> indices@[k] == strip(xs as int, ys as int)[k],
{
    let mut indices: Vec<u16> = Vec::new();
    let width: u32 = xs as u32 + 1;
    let mut y: u32 = 0;
    while y < ys as u32
        invariant
            y <= ys,
            width == xs + 1,
            (xs + 1) * (ys + 1) <= 0x1_0000,
            indices@.len() == strip(xs as int, y as int).len(),
            forall|k: int|
                0 <= k < indices@.len() ==> indices@[k] == strip(xs as int, y as int)[k],
        decreases ys - y,
    {
        let ghost before = indices@;
        let mut step: u32 = 0;
        while step < width
            invariant
                step <= width,
                y < ys,
                width == xs + 1,
                (xs + 1) * (ys + 1) <= 0x1_0000,
                indices@.len() == before.len() + 2 * step,
                forall|k: int| 0 <= k < before.len() ==> indices@[k] == before[k],
                forall|k: int|
                    before.len() <= k < indices@.len() ==> indices@[k] == row_entry(
                        xs as int,
                        y as int,
                        k - before.len(),
                    ),
            decreases width - step,
        {
            let x: u32 = if y % 2 == 0 {
                step
            } else {
                xs as u32 - step
            };
            proof {
                vertex_number_in_range(xs as int, ys as int, x as int, y as int);
                vertex_number_in_range(xs as int, ys as int, x as int, y + 1);
                assert(y * width >= 0 && (y + 1) * width == y * width + width)
                    by (nonlinear_arith)
                    requires
                        y >= 0,
                        width >= 0,
                ;
            }
            let here: u16 = (y * width + x) as u16;
            let below: u16 = ((y + 1) * width + x) as u16;
            let ghost len = indices@.len() as int;
            if y % 2 == 0 {
                indices.push(here);
                indices.push(below);
            } else {
                indices.push(below);
                indices.push(here);
            }
            proof {
                assert((2 * step) / 2 == step && (2 * step) % 2 == 0);
                assert((2 * step + 1) / 2 == step && (2 * step + 1) % 2 == 1);
                assert(indices@[len] == row_entry(xs as int, y as int, 2 * step));
                assert(indices@[len + 1] == row_entry(xs as int, y as int, 2 * step + 1));
            }
            step += 1;
        }
        proof {
            let next = strip(xs as int, y + 1);
            assert(next == strip(xs as int, y as int) + strip_row(xs as int, y as int));
            let row = strip_row(xs as int, y as int);
            assert(before.len() == strip(xs as int, y as int).len());
            assert(indices@.len() == before.len() + row.len());
            assert forall|k: int| 0 <= k < indices@.len() implies indices@[k] == next[k] by {
                if k >= before.len() {
                    assert(next[k] == row[k - before.len()]);
                    assert(row[k - before.len()] == row_entry(
                        xs as int,
                        y as int,
                        k - before.len(),
                    ));
                } else {
                    assert(next[k] == strip(xs as int, y as int)[k]);
                    assert(indices@[k] == before[k]);
                }
            }
        }
        y += 1;
    }
    assert(indices@ =~= strip_indices(xs as int, ys as int));
    indices
}

/// The lattice points of a sphere of `xs` by `ys` segments, in the order
/// of their numbers: row by row, each row from column 0 to column `xs`.
/// The vertex of point `(x, y)` lies at longitude `x / xs` of a full turn
/// and latitude `y / ys` of a half turn.
pub fn sphere_lattice(xs: u16, ys: u16) -> (points: Vec<(u16, u16)>)
    ensures
        points@.len() == lattice(xs as int, ys + 1).len(),
        forall|k: int|
            0 <= k < points@.len() ==> points@[k].0 == lattice(xs as int, ys + 1)[k].0
                && points@[k].1 == lattice(xs as int, ys + 1)[k].1,
{
    let mut points: Vec<(u16, u16)> = Vec::new();
    let mut y: u32 = 0;
    while y <= ys as u32
        invariant
            y <= ys + 1,
            points@.len() == lattice(xs as int, y as int).len(),
            forall|k: int|
                0 <= k < points@.len() ==> points@[k].0 == lattice(xs as int, y as int)[k].0
                    && points@[k].1 == lattice(xs as int, y as int)[k].1,
        decreases ys + 1 - y,
    {
        let ghost before = points@;
        let mut x: u32 = 0;
        while x <= xs as u32
            invariant
                x <= xs + 1,
                y <= ys,
                points@.len() == before.len() + x,
                forall|k: int| 0 <= k < before.len() ==> points@[k] == before[k],
                forall|k: int|
                    before.len() <= k < points@.len() ==> points@[k].0 == k - before.len()
                        && points@[k].1 == y,
            decreases xs + 1 - x,
        {
            points.push((x as u16, y as u16));
            x += 1;
        }
        proof {
            let next = lattice(xs as int, y + 1);
            assert(next == lattice(xs as int, y as int) + Seq::new(
                (xs + 1) as nat,
                |x: int| (x, y as int),
            ));
            let row = Seq::new((xs + 1) as nat, |x: int| (x, y as int));
            assert(before.len() == lattice(xs as int, y as int).len());
            assert(points@.len() == before.len() + row.len());
            assert forall|k: int| 0 <= k < points@.len() implies points@[k].0 == next[k].0
                && points@[k].1 == next[k].1 by {
                if k >= before.len() {
                    assert(next[k] == row[k - before.len()]);
                } else {
                    assert(next[k] == lattice(xs as int, y as int)[k]);
                    assert(points@[k] == before[k]);
                }
            }
        }
        y += 1;
    }
    points
}

/// The segments of the sphere of the physically based effect, around and
/// from pole to pole.
pub const SPHERE_SEGMENTS: u16 = 64;

/// The vertices of that sphere: 65 rows of 65.
pub const SPHERE_VERTICES: usize = 4225;

/// The indices of that sphere: 64 strips of 65 pairs.
pub const SPHERE_INDICES: usize = 8320;

impl Geometry {
    /// A mesh of `num_vertices` vertices, stored in `vertices`, and the
    /// given indices. The counts are kept as 32-bit numbers.
    pub fn new(vertices: Vec<u8>, num_vertices: usize, indices: &[u16]) -> (geometry: Geometry)
        ensures
            geometry.vertex_buffer.contents@ == vertices@,
            geometry.vertex_buffer.usage == BufferUsage::vertex_data(),
            encodes(indices@, geometry.index_buffer.contents@),
            geometry.index_buffer.usage == BufferUsage::index_data(),
            geometry.num_vertices == num_vertices as u32,
            geometry.num_indices == indices@.len() as u32,
    {
        let vertex_buffer = Buffer::with_data(
            vertices,
            BufferUsage {
                copy_src: false,
                copy_dst: false,
                index: false,
                vertex: true,
                uniform: false,
                storage: false,
                storage_read: false,
            },
        );
        let index_buffer = Buffer::with_data(
            index_bytes(indices),
            BufferUsage {
                copy_src: false,
                copy_dst: false,
                index: true,
                vertex: false,
                uniform: false,
                storage: false,
                storage_read: false,
            },
        );
        Geometry {
            vertex_buffer,
            index_buffer,
            num_vertices: #[verifier::truncate]
            (num_vertices as u32),
            num_indices: #[verifier::truncate]
            (indices.len() as u32),
        }
    }

    /// The sphere of the physically based effect: 64 by 64 segments, with
    /// the vertices of its lattice stored in `vertices`, 32 bytes each.
    pub fn create_sphere_pbr(vertices: Vec<u8>) -> (outcome: Result<Geometry, SizeMismatch>)
        ensures
            outcome is Ok <==> vertices@.len() == SPHERE_VERTICES * VERTEX_TEX_NORMAL_SIZE,
            outcome matches Ok(geometry) ==> {
                &&& geometry.vertex_buffer.contents@ == vertices@
                &&& geometry.vertex_buffer.usage == BufferUsage::vertex_data()
                &&& geometry.index_buffer.usage == BufferUsage::index_data()
                &&& geometry.num_vertices == SPHERE_VERTICES
                &&& geometry.num_indices == SPHERE_INDICES
                &&& encodes(strip_indices(64, 64), geometry.index_buffer.contents@)
            },
            outcome matches Err(e) ==> e.expected == SPHERE_VERTICES * VERTEX_TEX_NORMAL_SIZE
                && e.actual == vertices@.len(),
    {
        if vertices.len() != 135200 {
            return Err(SizeMismatch { expected: 135200, actual: vertices.len() });
        }
        let indices = sphere_indices(SPHERE_SEGMENTS, SPHERE_SEGMENTS);
        proof {
            strip_len(64, 64);
        }
        let geometry = Geometry::new(vertices, SPHERE_VERTICES, indices.as_slice());
        Ok(geometry)
    }
}

} // verus!
