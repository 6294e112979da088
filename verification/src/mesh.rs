//! Mesh assembly: building a mesh's vertex and index lists from decoded model
//! primitives.
//!
//! A model file yields a sequence of primitives; each primitive may carry
//! position, normal and texture-coordinate streams and an index stream. A
//! primitive contributes vertices only when all three attribute streams are
//! present; the streams are then zipped, one vertex per common position, up
//! to the shortest stream. Scalars are carried as the 32-bit IEEE-754 bit
//! patterns the file decodes to: the assembly moves them and never reads
//! their numeric value.

use vstd::prelude::*;

verus! {

/// One vertex: a position and normal of three scalars and a texture
/// coordinate of two, each scalar a 32-bit float's bit pattern.
#[derive(Clone, Copy, Debug, PartialEq, Eq)]
pub struct Vertex {
    pub position: [u32; 3],
    pub normal: [u32; 3],
    pub uv: [u32; 2],
}

impl Vertex {
    /// A vertex from its three attributes.
    pub fn new(position: [u32; 3], normal: [u32; 3], uv: [u32; 2]) -> (r: Self)
        ensures
            r.position == position,
            r.normal == normal,
            r.uv == uv,
    {
        Vertex { position, normal, uv }
    }
}

/// The attribute and index streams decoded from one model primitive. A
/// stream the file does not carry is absent.
#[derive(Clone, Debug, PartialEq, Eq)]
pub struct VPrimitive {
    pub positions: Option<Vec<[u32; 3]>>,
    pub normals: Option<Vec<[u32; 3]>>,
    pub uvs: Option<Vec<[u32; 2]>>,
    pub indices: Option<Vec<u32>>,
}

/// The least of three lengths.
pub open spec fn min3(a: nat, b: nat, c: nat) -> nat {
    if a <= b && a <= c {
        a
    } else if b <= c {
        b
    } else {
        c
    }
}

/// The three attribute streams zipped into vertices, one per common
/// position, up to the shortest stream.
pub open spec fn zip_vertices(
    pos: Seq<[u32; 3]>,
    norm: Seq<[u32; 3]>,
    uv: Seq<[u32; 2]>,
) -> Seq<Vertex> {
    Seq::new(
        min3(pos.len(), norm.len(), uv.len()),
        |i: int| Vertex { position: pos[i], normal: norm[i], uv: uv[i] },
    )
}

/// A primitive's contribution of vertices: its streams zipped when all three
/// are present, nothing otherwise.
pub open spec fn prim_vertices(p: VPrimitive) -> Seq<Vertex> {
    match (p.positions, p.normals, p.uvs) {
        (Some(pos), Some(norm), Some(uv)) => zip_vertices(pos@, norm@, uv@),
        _ => Seq::empty(),
    }
}

/// A primitive's contribution of indices: its index stream, or nothing.
pub open spec fn prim_indices(p: VPrimitive) -> Seq<u32> {
    match p.indices {
        Some(idx) => idx@,
        None => Seq::empty(),
    }
}

/// A primitive whose position and normal streams, when it contributes
/// vertices, are equally long.
pub open spec fn prim_wf(p: VPrimitive) -> bool {
    match (p.positions, p.normals) {
        (Some(pos), Some(norm)) => p.uvs is Some ==> pos@.len() == norm@.len(),
        _ => true,
    }
}

/// The vertices of a sequence of primitives, one contribution after the
/// other.
pub open spec fn all_vertices(prims: Seq<VPrimitive>) -> Seq<Vertex>
    decreases prims.len(),
{
    if prims.len() == 0 {
        Seq::empty()
    } else {
        all_vertices(prims.drop_last()) + prim_vertices(prims.last())
    }
}

/// The indices of a sequence of primitives, one contribution after the
/// other.
pub open spec fn all_indices(prims: Seq<VPrimitive>) -> Seq<u32>
    decreases prims.len(),
{
    if prims.len() == 0 {
        Seq::empty()
    } else {
        all_indices(prims.drop_last()) + prim_indices(prims.last())
    }
}

/// A mesh: its vertex list and its index list.
#[derive(Default, Clone, Debug, PartialEq, Eq)]
pub struct Mesh {
    vertices: Vec<Vertex>,
    indices: Vec<u32>,
}

impl Mesh {
    /// The vertex list.
    pub closed spec fn spec_vertices(self) -> Seq<Vertex> {
        self.vertices@
    }

    /// The index list.
    pub closed spec fn spec_indices(self) -> Seq<u32> {
        self.indices@
    }

    /// A mesh from its vertex and index lists, stored as given.
    pub fn new(vertices: Vec<Vertex>, indices: Vec<u32>) -> (r: Self)
        ensures
            r.spec_vertices() == vertices@,
            r.spec_indices() == indices@,
    {
        Mesh { vertices, indices }
    }

    /// The vertices.
    pub fn vertices(&self) -> (r: &Vec<Vertex>)
        ensures
            r@ == self.spec_vertices(),
    {
        &self.vertices
    }

    /// The indices.
    pub fn indices(&self) -> (r: &Vec<u32>)
        ensures
            r@ == self.spec_indices(),
    {
        &self.indices
    }

    /// A mesh assembled from decoded primitives: the vertex contributions of
    /// all primitives in order, and likewise the index contributions.
    pub fn from_primitives(primitives: Vec<VPrimitive>) -> (r: Mesh)
        requires
            forall|k: int| 0 <= k < primitives@.len() ==> prim_wf(#[trigger] primitives@[k]),
        ensures
            r.spec_vertices() == all_vertices(primitives@),
            r.spec_indices() == all_indices(primitives@),
    {
        let mut vertices: Vec<Vertex> = Vec::new();
        let mut indices: Vec<u32> = Vec::new();
        let mut i: usize = 0;
        while i < primitives.len()
            invariant
                i <= primitives@.len(),
                forall|k: int| 0 <= k < primitives@.len() ==> prim_wf(#[trigger] primitives@[k]),
                vertices@ == all_vertices(primitives@.take(i as int)),
                indices@ == all_indices(primitives@.take(i as int)),
            decreases primitives@.len() - i,
        {
            let p = &primitives[i];
            if p.positions.is_some() && p.normals.is_some() && p.uvs.is_some() {
                let pos = p.positions.as_ref().unwrap();
                let norm = p.normals.as_ref().unwrap();
                let uv = p.uvs.as_ref().unwrap();
                let n = if pos.len() < uv.len() {
                    pos.len()
                } else {
                    uv.len()
                };
                proof {
                    assert(prim_wf(primitives@[i as int]));
                    assert(n == min3(pos@.len(), norm@.len(), uv@.len()));
                }
                let mut j: usize = 0;
                while j < n
                    invariant
                        j <= n,
                        n == min3(pos@.len(), norm@.len(), uv@.len()),
                        vertices@ == all_vertices(primitives@.take(i as int))
                            + zip_vertices(pos@, norm@, uv@).take(j as int),
                    decreases n - j,
                {
                    vertices.push(Vertex { position: pos[j], normal: norm[j], uv: uv[j] });
                    proof {
                        assert(vertices@ =~= all_vertices(primitives@.take(i as int))
                            + zip_vertices(pos@, norm@, uv@).take(j as int + 1));
                    }
                    j = j + 1;
                }
                proof {
                    assert(zip_vertices(pos@, norm@, uv@).take(n as int)
                        =~= zip_vertices(pos@, norm@, uv@));
                    assert(prim_vertices(primitives@[i as int]) == zip_vertices(pos@, norm@, uv@));
                }
            } else {
                proof {
                    assert(prim_vertices(primitives@[i as int]) =~= Seq::<Vertex>::empty());
                    assert(vertices@ =~= all_vertices(primitives@.take(i as int))
                        + prim_vertices(primitives@[i as int]));
                }
            }
            if p.indices.is_some() {
                let idx = p.indices.as_ref().unwrap();
                let mut j: usize = 0;
                while j < idx.len()
                    invariant
                        j <= idx@.len(),
                        indices@ == all_indices(primitives@.take(i as int)) + idx@.take(j as int),
                    decreases idx@.len() - j,
                {
                    indices.push(idx[j]);
                    proof {
                        assert(indices@ =~= all_indices(primitives@.take(i as int))
                            + idx@.take(j as int + 1));
                    }
                    j = j + 1;
                }
                proof {
                    assert(idx@.take(idx@.len() as int) =~= idx@);
                }
            } else {
                proof {
                    assert(indices@ =~= all_indices(primitives@.take(i as int))
                        + prim_indices(primitives@[i as int]));
                }
            }
            proof {
                let pre = primitives@.take(i as int);
                let post = primitives@.take(i as int + 1);
                assert(post.drop_last() =~= pre);
                assert(post.last() == primitives@[i as int]);
                assert(vertices@ == all_vertices(pre) + prim_vertices(primitives@[i as int]));
                assert(indices@ == all_indices(pre) + prim_indices(primitives@[i as int]));
            }
            i = i + 1;
        }
        proof {
            assert(primitives@.take(primitives@.len() as int) =~= primitives@);
        }
        Mesh { vertices, indices }
    }
}

} // verus!
