use vstd::prelude::*;

verus! {

/// A triangular face of a scene, as three 1-based indices into its vertex list.
#[derive(Clone, Copy, Debug, PartialEq, Eq, Structural)]
pub struct Face(pub u32, pub u32, pub u32);

/// The three 0-based vertex positions of a resolved face.
pub type Corners = (usize, usize, usize);

/// The 0-based position of the vertex that 1-based `index` names in a list of
/// `vertex_count` vertices, if there is one.
pub open spec fn vertex_slot(index: u32, vertex_count: nat) -> Option<usize> {
    if 1 <= index && index <= vertex_count {
        Some((index - 1) as usize)
    } else {
        None
    }
}

/// The corners of `face`, when all three of its indices name a vertex.
pub open spec fn face_corners(face: Face, vertex_count: nat) -> Option<Corners> {
    match (
        vertex_slot(face.0, vertex_count),
        vertex_slot(face.1, vertex_count),
        vertex_slot(face.2, vertex_count),
    ) {
        (Some(a), Some(b), Some(c)) => Some((a, b, c)),
        _ => None,
    }
}

/// The corners of every face that resolves, in the order of the faces.
pub open spec fn resolved_mesh(faces: Seq<Face>, vertex_count: nat) -> Seq<Corners>
    decreases faces.len(),
{
    if faces.len() == 0 {
        seq![]
    } else {
        let before = resolved_mesh(faces.drop_last(), vertex_count);
        match face_corners(faces.last(), vertex_count) {
            Some(c) => before.push(c),
            None => before,
        }
    }
}

/// The positions, in increasing order, of the faces that do not resolve.
pub open spec fn dropped_faces(faces: Seq<Face>, vertex_count: nat) -> Seq<usize>
    decreases faces.len(),
{
    if faces.len() == 0 {
        seq![]
    } else {
        let before = dropped_faces(faces.drop_last(), vertex_count);
        match face_corners(faces.last(), vertex_count) {
            Some(_) => before,
            None => before.push((faces.len() - 1) as usize),
        }
    }
}

/// A mesh as corner indices into a vertex list, with the faces left out of it.
#[derive(Debug)]
pub struct MeshIndices {
    /// One entry per face that resolved, in the order of the faces.
    pub triangles: Vec<Corners>,
    /// The positions of the faces that named a vertex that does not exist.
    pub dropped: Vec<usize>,
}

impl Face {
    /// The 0-based corners of this face in a list of `vertex_count` vertices,
    /// or `None` if one of its indices is 0 or beyond the last vertex.
    pub fn corners(&self, vertex_count: usize) -> (r: Option<Corners>)
        ensures
            r == face_corners(*self, vertex_count as nat),
    {
        if 1 <= self.0 && self.0 as usize <= vertex_count && 1 <= self.1 && self.1 as usize
            <= vertex_count && 1 <= self.2 && self.2 as usize <= vertex_count {
            Some(((self.0 - 1) as usize, (self.1 - 1) as usize, (self.2 - 1) as usize))
        } else {
            None
        }
    }
}

/// Resolves the faces of a scene against a list of `vertex_count` vertices.
/// A face that names a vertex that does not exist is left out of the mesh and
/// its position recorded; the others keep their order.
pub fn resolve_faces(faces: &Vec<Face>, vertex_count: usize) -> (r: MeshIndices)
    ensures
        r.triangles@ == resolved_mesh(faces@, vertex_count as nat),
        r.dropped@ == dropped_faces(faces@, vertex_count as nat),
        r.triangles@.len() + r.dropped@.len() == faces@.len(),
        forall|k: int|
            0 <= k < r.triangles@.len() ==> {
                let c = #[trigger] r.triangles@[k];
                c.0 < vertex_count && c.1 < vertex_count && c.2 < vertex_count
            },
{
    let mut triangles: Vec<Corners> = Vec::new();
    let mut dropped: Vec<usize> = Vec::new();
    let mut i: usize = 0;
    while i < faces.len()
        invariant
            i <= faces@.len(),
            triangles@ == resolved_mesh(faces@.subrange(0, i as int), vertex_count as nat),
            dropped@ == dropped_faces(faces@.subrange(0, i as int), vertex_count as nat),
        decreases faces@.len() - i,
    {
        proof {
            let next = faces@.subrange(0, i + 1);
            assert(next.drop_last() =~= faces@.subrange(0, i as int));
            assert(next.last() == faces@[i as int]);
        }
        match faces[i].corners(vertex_count) {
            Some(c) => triangles.push(c),
            None => dropped.push(i),
        }
        i += 1;
    }
    proof {
        assert(faces@.subrange(0, faces@.len() as int) =~= faces@);
        lemma_resolution_complete(faces@, vertex_count as nat);
    }
    MeshIndices { triangles, dropped }
}

/// Every face is either kept or dropped, and every kept corner names a
/// vertex of the list.
pub proof fn lemma_resolution_complete(faces: Seq<Face>, vertex_count: nat)
    ensures
        resolved_mesh(faces, vertex_count).len() + dropped_faces(faces, vertex_count).len()
            == faces.len(),
        forall|k: int|
            0 <= k < resolved_mesh(faces, vertex_count).len() ==> {
                let c = #[trigger] resolved_mesh(faces, vertex_count)[k];
                c.0 < vertex_count && c.1 < vertex_count && c.2 < vertex_count
            },
    decreases faces.len(),
{
    if faces.len() > 0 {
        lemma_resolution_complete(faces.drop_last(), vertex_count);
    }
}

} // verus!
