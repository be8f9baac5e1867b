use vstd::prelude::*;
use std::collections::BTreeMap;

verus! {

/// The most quads a mesh holds.
pub const MAX_SIZE: usize = 64;

/// A mesh: vertices and the triangle indices into them.
pub type Mesh<V> = (Vec<V>, Vec<u16>);

/// A mesh is well formed: whole quads, at most `MAX_SIZE` of them, two
/// triangles per quad, every index naming one of its vertices.
pub open spec fn mesh_wf<V>(m: Mesh<V>) -> bool {
    &&& m.0@.len() <= MAX_SIZE * 4
    &&& m.0@.len() % 4 == 0
    &&& m.1@.len() == m.0@.len() / 4 * 6
    &&& forall|j: int| 0 <= j < m.1@.len() ==> (#[trigger] m.1@[j] as int) < m.0@.len()
}

/// The triangle indices of a quad whose first vertex is `i`.
pub open spec fn quad_indices(i: u16) -> Seq<u16> {
    seq![i, (i + 1) as u16, (i + 2) as u16, i, (i + 2) as u16, (i + 3) as u16]
}

/// The meshes after adding a quad: appended to the last mesh while it has
/// room, else in a new mesh.
pub open spec fn meshes_after_push<V>(meshes: Seq<Mesh<V>>, verts: Seq<V>) -> (Seq<Seq<V>>, Seq<Seq<u16>>) {
    let vs = meshes.map_values(|m: Mesh<V>| m.0@);
    let is = meshes.map_values(|m: Mesh<V>| m.1@);
    if meshes.len() == 0 || meshes.last().0@.len() + 4 > MAX_SIZE * 4 {
        (vs.push(verts), is.push(quad_indices(0)))
    } else {
        let i = meshes.last().0@.len() as u16;
        (vs.update(vs.len() - 1, vs.last() + verts), is.update(is.len() - 1, is.last() + quad_indices(i)))
    }
}

/// Quads waiting to be drawn, batched per (draw order, texture) into meshes.
pub struct NoteBuffer<V> {
    pub meshes: BTreeMap<(i8, u32), Vec<Mesh<V>>>,
}

impl<V: Copy> NoteBuffer<V> {
    /// Every mesh is well formed.
    pub open spec fn wf(&self) -> bool {
        forall|k: (i8, u32)| #[trigger] self.meshes@.contains_key(k) ==> forall|j: int|
            0 <= j < self.meshes@[k]@.len() ==> mesh_wf(#[trigger] self.meshes@[k]@[j])
    }

    /// An empty buffer.
    pub fn new() -> (res: NoteBuffer<V>)
        ensures
            res.wf(),
            res.meshes@ == Map::<(i8, u32), Vec<Mesh<V>>>::empty(),
    {
        NoteBuffer { meshes: BTreeMap::new() }
    }

    /// Adds a quad under `key`.
    pub fn push(&mut self, key: (i8, u32), vertices: [V; 4])
        requires
            old(self).wf(),
        ensures
            final(self).wf(),
            final(self).meshes@.dom() == old(self).meshes@.dom().insert(key),
            forall|k: (i8, u32)| k != key && #[trigger] old(self).meshes@.contains_key(k) ==> final(self).meshes@[k]
                == old(self).meshes@[k],
            ({
                let before = if old(self).meshes@.contains_key(key) { old(self).meshes@[key]@ } else { Seq::empty() };
                let after = final(self).meshes@[key]@;
                meshes_after_push(before, vertices@) == (
                    after.map_values(|m: Mesh<V>| m.0@),
                    after.map_values(|m: Mesh<V>| m.1@),
                )
            }),
    {
        let ghost old_map = self.meshes@;
        let mut meshes: Vec<Mesh<V>> = match self.meshes.remove(&key) {
            Some(m) => m,
            None => Vec::new(),
        };
        let ghost before = meshes@;
        assert(before == if old_map.contains_key(key) { old_map[key]@ } else { Seq::<Mesh<V>>::empty() });
        let n = meshes.len();
        let need_new = if n == 0 {
            true
        } else {
            meshes[n - 1].0.len() + 4 > MAX_SIZE * 4
        };
        if need_new {
            let mut vs: Vec<V> = Vec::new();
            vs.push(vertices[0]);
            vs.push(vertices[1]);
            vs.push(vertices[2]);
            vs.push(vertices[3]);
            let idx: Vec<u16> = vec![0u16, 1u16, 2u16, 0u16, 2u16, 3u16];
            proof {
                assert(vs@ =~= vertices@);
                assert(idx@ =~= quad_indices(0));
            }
            meshes.push((vs, idx));
            proof {
                assert(meshes@.map_values(|m: Mesh<V>| m.0@) =~= before.map_values(|m: Mesh<V>| m.0@).push(vertices@));
                assert(meshes@.map_values(|m: Mesh<V>| m.1@) =~= before.map_values(|m: Mesh<V>| m.1@).push(quad_indices(0)));
                assert(mesh_wf(meshes@[meshes@.len() - 1]));
            }
        } else {
            let (mut vs, mut idx) = meshes.pop().unwrap();
            proof {
                assert(mesh_wf((vs, idx)));
            }
            let i = vs.len() as u16;
            vs.push(vertices[0]);
            vs.push(vertices[1]);
            vs.push(vertices[2]);
            vs.push(vertices[3]);
            idx.push(i);
            idx.push(i + 1);
            idx.push(i + 2);
            idx.push(i);
            idx.push(i + 2);
            idx.push(i + 3);
            meshes.push((vs, idx));
            proof {
                let last = before.last();
                assert(vs@ =~= last.0@ + vertices@);
                assert(idx@ =~= last.1@ + quad_indices(i));
                assert(meshes@.map_values(|m: Mesh<V>| m.0@) =~= before.map_values(|m: Mesh<V>| m.0@).update(
                    before.len() - 1,
                    last.0@ + vertices@,
                ));
                assert(meshes@.map_values(|m: Mesh<V>| m.1@) =~= before.map_values(|m: Mesh<V>| m.1@).update(
                    before.len() - 1,
                    last.1@ + quad_indices(i),
                ));
                assert forall|j: int| 0 <= j < idx@.len() implies (#[trigger] idx@[j] as int) < vs@.len() by {
                    if j < last.1@.len() {
                        assert(idx@[j] == last.1@[j]);
                    }
                }
                assert(mesh_wf(meshes@[meshes@.len() - 1]));
            }
        }
        proof {
            assert forall|j: int| 0 <= j < meshes@.len() implies mesh_wf(#[trigger] meshes@[j]) by {
                if j < meshes@.len() - 1 {
                    assert(meshes@[j] == before[j]);
                }
            }
        }
        self.meshes.insert(key, meshes);
    }

    /// Hands out every batch and leaves the buffer empty.
    pub fn take_all(&mut self) -> (res: BTreeMap<(i8, u32), Vec<Mesh<V>>>)
        ensures
            res@ == old(self).meshes@,
            final(self).meshes@ == Map::<(i8, u32), Vec<Mesh<V>>>::empty(),
            final(self).wf(),
    {
        let mut empty = BTreeMap::new();
        std::mem::swap(&mut empty, &mut self.meshes);
        empty
    }
}

} // verus!
