//! Records that the renderer reads from its vertex buffers, and how they are
//! laid out.
pub mod vox;

use vstd::prelude::*;

verus! {

/// How often a vertex buffer steps forward.
#[derive(Clone, Copy, Debug, PartialEq, Eq)]
pub enum VertexStepMode {
    /// Once per vertex.
    Vertex,
    /// Once per instance.
    Instance,
}

/// The format of one vertex attribute.
#[derive(Clone, Copy, Debug, PartialEq, Eq)]
pub enum VertexFormat {
    /// Four unsigned bytes.
    Uint8x4,
    /// Four unsigned bytes, read as fractions of 255.
    Unorm8x4,
    /// Four 32-bit floating-point numbers.
    Float32x4,
}

impl VertexFormat {
    /// The number of bytes that an attribute of this format takes.
    pub open spec fn spec_size(self) -> nat {
        match self {
            VertexFormat::Uint8x4 => 4,
            VertexFormat::Unorm8x4 => 4,
            VertexFormat::Float32x4 => 16,
        }
    }

    /// The number of bytes that an attribute of this format takes.
    pub fn size(self) -> (n: u64)
        ensures
            n == self.spec_size(),
    {
        match self {
            VertexFormat::Uint8x4 => 4,
            VertexFormat::Unorm8x4 => 4,
            VertexFormat::Float32x4 => 16,
        }
    }
}

/// One input of the vertex shader: where it lies in a record, and in which
/// shader location it arrives.
#[derive(Clone, Copy, Debug, PartialEq, Eq)]
pub struct VertexAttribute {
    pub format: VertexFormat,
    pub offset: u64,
    pub shader_location: u32,
}

/// The layout of the records of one vertex buffer.
#[derive(Clone, Debug, PartialEq, Eq)]
pub struct VertexBufferLayout {
    /// The distance in bytes from one record to the next.
    pub array_stride: u64,
    pub step_mode: VertexStepMode,
    pub attributes: Vec<VertexAttribute>,
}

/// The bytes that the first `n` of `attributes` take when each follows the
/// one before without a gap.
pub open spec fn packed_size(attributes: Seq<VertexAttribute>, n: int) -> nat
    decreases n,
{
    if n <= 0 {
        0
    } else {
        packed_size(attributes, n - 1) + attributes[n - 1].format.spec_size()
    }
}

impl VertexBufferLayout {
    /// Whether the record is tightly packed: the first attribute starts at
    /// offset 0, each other one where the one before ends, and the stride is
    /// where the last one ends.
    pub open spec fn is_packed(self) -> bool {
        &&& forall|i: int|
            0 <= i < self.attributes@.len() ==> (#[trigger] self.attributes@[i]).offset == packed_size(
                self.attributes@,
                i,
            )
        &&& self.array_stride == packed_size(self.attributes@, self.attributes@.len() as int)
    }

    /// Whether no two attributes arrive in the same shader location.
    pub open spec fn has_distinct_locations(self) -> bool {
        forall|i: int, j: int|
            0 <= i < j < self.attributes@.len() ==> (#[trigger] self.attributes@[i]).shader_location != (
            #[trigger] self.attributes@[j]).shader_location
    }

    /// In a packed layout every attribute lies within the stride, and no two
    /// attributes overlap.
    pub proof fn lemma_packed_attributes_are_disjoint(self, i: int, j: int)
        requires
            self.is_packed(),
            0 <= i < j < self.attributes@.len(),
        ensures
            self.attributes@[i].offset + self.attributes@[i].format.spec_size() <= self.attributes@[j].offset,
            self.attributes@[j].offset + self.attributes@[j].format.spec_size() <= self.array_stride,
    {
        let a = self.attributes@;
        lemma_packed_size_grows(a, i + 1, j);
        lemma_packed_size_grows(a, j + 1, a.len() as int);
    }
}

/// `packed_size` does not shrink as more attributes are counted.
pub proof fn lemma_packed_size_grows(attributes: Seq<VertexAttribute>, m: int, n: int)
    requires
        0 <= m <= n,
    ensures
        packed_size(attributes, m) <= packed_size(attributes, n),
    decreases n - m,
{
    if m < n {
        lemma_packed_size_grows(attributes, m, n - 1);
    }
}

/// The distance in bytes between two instance records.
pub const INSTANCE_STRIDE: u64 = 8;

/// One voxel as the renderer draws it: a cube at a lattice position, in one
/// colour.
#[derive(Clone, Copy, Debug, PartialEq, Eq)]
pub struct Instance {
    position: [u8; 4],
    color: [u8; 4],
}

/// The mathematical value of an [`Instance`]: its two fields, four bytes
/// each.
pub struct InstanceView {
    /// The lattice position: x, y, z, and a padding byte.
    pub position: Seq<u8>,
    /// The colour: red, green, blue, alpha.
    pub color: Seq<u8>,
}

impl View for Instance {
    type V = InstanceView;

    closed spec fn view(&self) -> InstanceView {
        InstanceView { position: self.position@, color: self.color@ }
    }
}

impl Instance {
    /// An instance at `position`, whose fourth byte pads, in `color`.
    pub fn new(position: [u8; 4], color: [u8; 4]) -> (r: Self)
        ensures
            r@ == (InstanceView { position: position@, color: color@ }),
    {
        Instance { position, color }
    }

    /// The lattice position: x, y, z, and a padding byte.
    pub fn position(&self) -> (p: [u8; 4])
        ensures
            p@ == self@.position,
    {
        self.position
    }

    /// The colour: red, green, blue, alpha.
    pub fn color(&self) -> (c: [u8; 4])
        ensures
            c@ == self@.color,
    {
        self.color
    }

    /// The layout of a buffer of instances: the position as four unsigned
    /// bytes in shader location 2, then the colour as four normalized bytes
    /// in shader location 3, stepping once per instance.
    pub fn desc() -> (layout: VertexBufferLayout)
        ensures
            layout.array_stride == INSTANCE_STRIDE,
            layout.step_mode == VertexStepMode::Instance,
            layout.attributes@ == seq![
                VertexAttribute { format: VertexFormat::Uint8x4, offset: 0, shader_location: 2 },
                VertexAttribute { format: VertexFormat::Unorm8x4, offset: 4, shader_location: 3 },
            ],
            layout.is_packed(),
            layout.has_distinct_locations(),
    {
        let mut attributes: Vec<VertexAttribute> = Vec::new();
        attributes.push(VertexAttribute { format: VertexFormat::Uint8x4, offset: 0, shader_location: 2 });
        attributes.push(
            VertexAttribute {
                format: VertexFormat::Unorm8x4,
                offset: VertexFormat::Uint8x4.size(),
                shader_location: 3,
            },
        );
        let layout = VertexBufferLayout {
            array_stride: INSTANCE_STRIDE,
            step_mode: VertexStepMode::Instance,
            attributes,
        };
        proof {
            reveal_with_fuel(packed_size, 3);
        }
        layout
    }
}

/// The distance in bytes between two vertex records.
pub const VERTEX_STRIDE: u64 = 32;

/// A corner of a face of the unit cube. Both fields are homogeneous lattice
/// vectors; the renderer widens each component to a 32-bit float.
#[derive(Clone, Copy, Debug, PartialEq, Eq)]
pub struct Vertex {
    /// The corner: x, y, z, and 1.
    pub position: [i8; 4],
    /// The direction in which the face looks: x, y, z, and 0.
    pub normal: [i8; 4],
}

/// The mathematical value of a [`Vertex`]: its two fields, four components
/// each.
pub struct VertexView {
    pub position: Seq<i8>,
    pub normal: Seq<i8>,
}

impl View for Vertex {
    type V = VertexView;

    open spec fn view(&self) -> VertexView {
        VertexView { position: self.position@, normal: self.normal@ }
    }
}

/// The directions in which the six faces of the cube look: top, bottom,
/// right, left, front, back.
pub open spec fn face_normals() -> Seq<Seq<i8>> {
    seq![
        seq![0i8, 0i8, 1i8],
        seq![0i8, 0i8, -1i8],
        seq![1i8, 0i8, 0i8],
        seq![-1i8, 0i8, 0i8],
        seq![0i8, 1i8, 0i8],
        seq![0i8, -1i8, 0i8],
    ]
}

/// The corners of the six faces of the unit cube, four for each face, face
/// by face in the order of [`face_normals`].
pub open spec fn face_corners() -> Seq<Seq<i8>> {
    seq![
        seq![0i8, 0i8, 1i8],
        seq![1i8, 0i8, 1i8],
        seq![1i8, 1i8, 1i8],
        seq![0i8, 1i8, 1i8],
        seq![0i8, 1i8, 0i8],
        seq![1i8, 1i8, 0i8],
        seq![1i8, 0i8, 0i8],
        seq![0i8, 0i8, 0i8],
        seq![1i8, 0i8, 0i8],
        seq![1i8, 1i8, 0i8],
        seq![1i8, 1i8, 1i8],
        seq![1i8, 0i8, 1i8],
        seq![0i8, 0i8, 1i8],
        seq![0i8, 1i8, 1i8],
        seq![0i8, 1i8, 0i8],
        seq![0i8, 0i8, 0i8],
        seq![1i8, 1i8, 0i8],
        seq![0i8, 1i8, 0i8],
        seq![0i8, 1i8, 1i8],
        seq![1i8, 1i8, 1i8],
        seq![1i8, 0i8, 1i8],
        seq![0i8, 0i8, 1i8],
        seq![0i8, 0i8, 0i8],
        seq![1i8, 0i8, 0i8],
    ]
}

/// Vertex `i` of the cube: corner `i`, as a point, with the normal of its
/// face, as a direction.
pub open spec fn cube_vertex(i: int) -> VertexView {
    VertexView { position: face_corners()[i].push(1i8), normal: face_normals()[i / 4].push(0i8) }
}

/// The first three components of a lattice vector.
pub open spec fn xyz(v: [i8; 4]) -> (int, int, int) {
    (v[0] as int, v[1] as int, v[2] as int)
}

/// The cross product of two vectors.
pub open spec fn cross(u: (int, int, int), v: (int, int, int)) -> (int, int, int) {
    (u.1 * v.2 - u.2 * v.1, u.2 * v.0 - u.0 * v.2, u.0 * v.1 - u.1 * v.0)
}

/// The vector from corner `a` to corner `b`.
pub open spec fn edge(a: Vertex, b: Vertex) -> (int, int, int) {
    (b.position[0] - a.position[0], b.position[1] - a.position[1], b.position[2] - a.position[2])
}

impl Vertex {
    /// Whether the vertex is a corner of the unit cube with the normal of a
    /// face that it lies on: the normal is a unit vector along one axis, and
    /// the position is on the side of the cube to which the normal points.
    pub open spec fn on_cube_face(self) -> bool {
        &&& self.position[3] == 1
        &&& self.normal[3] == 0
        &&& forall|a: int| 0 <= a < 3 ==> 0 <= #[trigger] self.position[a] <= 1
        &&& exists|a: int|
            0 <= a < 3 && (#[trigger] self.normal[a] == 1 || self.normal[a] == -1) && forall|b: int|
                0 <= b < 3 && b != a ==> #[trigger] self.normal[b] == 0
        &&& forall|a: int|
            0 <= a < 3 ==> (#[trigger] self.normal[a] == 1 ==> self.position[a] == 1) && (self.normal[a] == -1
                ==> self.position[a] == 0)
    }

    /// The layout of a buffer of vertices: the position in shader location
    /// 0, then the normal in shader location 1, four floats each, stepping
    /// once per vertex.
    pub fn desc() -> (layout: VertexBufferLayout)
        ensures
            layout.array_stride == VERTEX_STRIDE,
            layout.step_mode == VertexStepMode::Vertex,
            layout.attributes@ == seq![
                VertexAttribute { format: VertexFormat::Float32x4, offset: 0, shader_location: 0 },
                VertexAttribute { format: VertexFormat::Float32x4, offset: 16, shader_location: 1 },
            ],
            layout.is_packed(),
            layout.has_distinct_locations(),
    {
        let mut attributes: Vec<VertexAttribute> = Vec::new();
        attributes.push(VertexAttribute { format: VertexFormat::Float32x4, offset: 0, shader_location: 0 });
        attributes.push(
            VertexAttribute {
                format: VertexFormat::Float32x4,
                offset: VertexFormat::Float32x4.size(),
                shader_location: 1,
            },
        );
        let layout = VertexBufferLayout {
            array_stride: VERTEX_STRIDE,
            step_mode: VertexStepMode::Vertex,
            attributes,
        };
        proof {
            reveal_with_fuel(packed_size, 3);
        }
        layout
    }
}

/// Whether the triangle `a`, `b`, `c` lies in one face and winds
/// counter-clockwise for a viewer outside the cube: the cross product of
/// its first two edges is the normal that its corners share.
pub open spec fn winds_outward(a: Vertex, b: Vertex, c: Vertex) -> bool {
    &&& xyz(a.normal) == xyz(b.normal)
    &&& xyz(a.normal) == xyz(c.normal)
    &&& cross(edge(a, b), edge(a, c)) == xyz(a.normal)
}

/// Index `k` of the cube's index list: face `k / 6` is drawn as the two
/// triangles 0, 1, 2 and 2, 3, 0 of its four corners.
pub open spec fn cube_index(k: int) -> int {
    let corner = k % 6;
    4 * (k / 6) + if corner == 0 || corner == 5 {
        0int
    } else if corner == 1 {
        1int
    } else if corner == 4 {
        3int
    } else {
        2int
    }
}

/// Whether `vertices` is a mesh of the unit cube: four corners for each of
/// the six faces, of which the triangles 0, 1, 2 and 2, 3, 0 wind outward.
pub open spec fn is_cube_mesh(vertices: Seq<Vertex>) -> bool {
    &&& vertices.len() == 24
    &&& forall|i: int| 0 <= i < 24 ==> (#[trigger] vertices[i]).on_cube_face()
    &&& forall|f: int|
        0 <= f < 6 ==> winds_outward(#[trigger] vertices[4 * f], vertices[4 * f + 1], vertices[4 * f + 2])
    &&& forall|f: int|
        0 <= f < 6 ==> winds_outward(vertices[4 * f + 2], vertices[4 * f + 3], #[trigger] vertices[4 * f])
}

/// Every triangle that the index list of [`cube_index`] draws from a cube
/// mesh winds outward.
pub proof fn lemma_indexed_triangles_wind_outward(vertices: Seq<Vertex>, t: int)
    requires
        is_cube_mesh(vertices),
        0 <= t < 12,
    ensures
        0 <= cube_index(3 * t) < 24,
        0 <= cube_index(3 * t + 1) < 24,
        0 <= cube_index(3 * t + 2) < 24,
        winds_outward(
            vertices[cube_index(3 * t)],
            vertices[cube_index(3 * t + 1)],
            vertices[cube_index(3 * t + 2)],
        ),
{
    let f = t / 2;
    assert(0 <= f < 6);
    assert(vertices[4 * f] == vertices[4 * f]);
    if t % 2 == 0 {
        assert(3 * t == 6 * f);
        assert(cube_index(3 * t) == 4 * f);
        assert(cube_index(3 * t + 1) == 4 * f + 1);
        assert(cube_index(3 * t + 2) == 4 * f + 2);
    } else {
        assert(3 * t == 6 * f + 3);
        assert(cube_index(3 * t) == 4 * f + 2);
        assert(cube_index(3 * t + 1) == 4 * f + 3);
        assert(cube_index(3 * t + 2) == 4 * f);
    }
}

/// The product of two numbers that are -1, 0 or 1.
spec fn unit_product(a: int, b: int) -> int {
    if a == 0 || b == 0 {
        0
    } else if a == b {
        1
    } else {
        -1
    }
}

proof fn lemma_unit_product(a: int, b: int)
    by (nonlinear_arith)
    requires
        -1 <= a <= 1,
        -1 <= b <= 1,
    ensures
        a * b == unit_product(a, b),
{
}

/// The cross product of two edges of the unit cube, without a
/// multiplication.
proof fn lemma_lattice_cross(u: (int, int, int), v: (int, int, int))
    requires
        -1 <= u.0 <= 1 && -1 <= u.1 <= 1 && -1 <= u.2 <= 1,
        -1 <= v.0 <= 1 && -1 <= v.1 <= 1 && -1 <= v.2 <= 1,
    ensures
        cross(u, v) == (
            unit_product(u.1, v.2) - unit_product(u.2, v.1),
            unit_product(u.2, v.0) - unit_product(u.0, v.2),
            unit_product(u.0, v.1) - unit_product(u.1, v.0),
        ),
{
    lemma_unit_product(u.1, v.2);
    lemma_unit_product(u.2, v.1);
    lemma_unit_product(u.2, v.0);
    lemma_unit_product(u.0, v.2);
    lemma_unit_product(u.0, v.1);
    lemma_unit_product(u.1, v.0);
}

/// The vertex at point `x`, `y`, `z` of a face that looks along `nx`, `ny`,
/// `nz`.
fn vertex(x: i8, y: i8, z: i8, nx: i8, ny: i8, nz: i8) -> (v: Vertex)
    ensures
        v@.position == seq![x, y, z].push(1i8),
        v@.normal == seq![nx, ny, nz].push(0i8),
{
    Vertex { position: [x, y, z, 1], normal: [nx, ny, nz, 0] }
}

/// The vertices of the unit cube, four for each face: top, bottom, right,
/// left, front, back.
pub fn vertices() -> (mesh: Vec<Vertex>)
    ensures
        mesh@.len() == 24,
        forall|i: int| 0 <= i < 24 ==> (#[trigger] mesh@[i])@ == cube_vertex(i),
        is_cube_mesh(mesh@),
{
    let mut mesh: Vec<Vertex> = Vec::new();
    mesh.push(vertex(0, 0, 1, 0, 0, 1));
    mesh.push(vertex(1, 0, 1, 0, 0, 1));
    mesh.push(vertex(1, 1, 1, 0, 0, 1));
    mesh.push(vertex(0, 1, 1, 0, 0, 1));
    mesh.push(vertex(0, 1, 0, 0, 0, -1));
    mesh.push(vertex(1, 1, 0, 0, 0, -1));
    mesh.push(vertex(1, 0, 0, 0, 0, -1));
    mesh.push(vertex(0, 0, 0, 0, 0, -1));
    mesh.push(vertex(1, 0, 0, 1, 0, 0));
    mesh.push(vertex(1, 1, 0, 1, 0, 0));
    mesh.push(vertex(1, 1, 1, 1, 0, 0));
    mesh.push(vertex(1, 0, 1, 1, 0, 0));
    mesh.push(vertex(0, 0, 1, -1, 0, 0));
    mesh.push(vertex(0, 1, 1, -1, 0, 0));
    mesh.push(vertex(0, 1, 0, -1, 0, 0));
    mesh.push(vertex(0, 0, 0, -1, 0, 0));
    mesh.push(vertex(1, 1, 0, 0, 1, 0));
    mesh.push(vertex(0, 1, 0, 0, 1, 0));
    mesh.push(vertex(0, 1, 1, 0, 1, 0));
    mesh.push(vertex(1, 1, 1, 0, 1, 0));
    mesh.push(vertex(1, 0, 1, 0, -1, 0));
    mesh.push(vertex(0, 0, 1, 0, -1, 0));
    mesh.push(vertex(0, 0, 0, 0, -1, 0));
    mesh.push(vertex(1, 0, 0, 0, -1, 0));
    proof {
        let s = mesh@;
        assert forall|i: int| 0 <= i < 24 implies (#[trigger] s[i])@ == cube_vertex(i) by {
            assert(s[i]@.position =~= cube_vertex(i).position);
            assert(s[i]@.normal =~= cube_vertex(i).normal);
        }
        assert forall|i: int| 0 <= i < 24 implies (#[trigger] s[i]).on_cube_face() by {
            let v = s[i];
            if v.normal[0] != 0 {
                assert(v.normal[0] == 1 || v.normal[0] == -1);
            } else if v.normal[1] != 0 {
                assert(v.normal[1] == 1 || v.normal[1] == -1);
            } else {
                assert(v.normal[2] == 1 || v.normal[2] == -1);
            }
        }
        assert forall|f: int| 0 <= f < 6 implies winds_outward(
            #[trigger] s[4 * f],
            s[4 * f + 1],
            s[4 * f + 2],
        ) && winds_outward(s[4 * f + 2], s[4 * f + 3], s[4 * f]) by {
            assert(f == 0 || f == 1 || f == 2 || f == 3 || f == 4 || f == 5);
            lemma_lattice_cross(edge(s[4 * f], s[4 * f + 1]), edge(s[4 * f], s[4 * f + 2]));
            lemma_lattice_cross(edge(s[4 * f + 2], s[4 * f + 3]), edge(s[4 * f + 2], s[4 * f]));
        }
    }
    mesh
}

/// The index list that draws the cube of [`vertices`]: two triangles for
/// each face.
pub fn indices() -> (list: Vec<u16>)
    ensures
        list@.len() == 36,
        forall|k: int| 0 <= k < 36 ==> #[trigger] list@[k] == cube_index(k),
        forall|k: int| 0 <= k < 36 ==> #[trigger] list@[k] < 24,
{
    let mut list: Vec<u16> = Vec::new();
    let mut face: u16 = 0;
    while face < 6
        invariant
            face <= 6,
            list@.len() == 6 * face,
            forall|k: int| 0 <= k < list@.len() ==> #[trigger] list@[k] == cube_index(k),
            forall|k: int| 0 <= k < list@.len() ==> #[trigger] list@[k] < 24,
        decreases 6 - face,
    {
        let base: u16 = 4 * face;
        list.push(base);
        list.push(base + 1);
        list.push(base + 2);
        list.push(base + 2);
        list.push(base + 3);
        list.push(base);
        face += 1;
    }
    list
}

} // verus!
