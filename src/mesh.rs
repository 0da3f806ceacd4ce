//! Mesh assembly from flat attribute arrays, as OBJ loaders hand them out:
//! three position components and two texture coordinates per vertex.
use vstd::prelude::*;

verus! {

/// One vertex: a position and its texture coordinates.
#[derive(Debug, PartialEq)]
pub struct VertexData<T> {
    pub position: [T; 3],
    pub uv: [T; 2],
}

/// Builds one vertex per whole triple of `positions`, taking the vertex's
/// texture coordinates from the pair of `texcoords` at the same index.
/// Position components beyond the last whole triple are ignored.
pub fn assemble_vertices<T: Copy>(positions: &Vec<T>, texcoords: &Vec<T>) -> (r: Vec<VertexData<T>>)
    requires
        2 * (positions@.len() / 3) <= texcoords@.len(),
    ensures
        r@.len() == positions@.len() / 3,
        forall|i: int|
            0 <= i < r@.len() ==> {
                &&& (#[trigger] r@[i]).position@ == seq![
                    positions@[3 * i],
                    positions@[3 * i + 1],
                    positions@[3 * i + 2],
                ]
                &&& r@[i].uv@ == seq![texcoords@[2 * i], texcoords@[2 * i + 1]]
            },
{
    let len = positions.len();
    let count = len / 3;
    let mut vertices: Vec<VertexData<T>> = Vec::new();
    let mut i: usize = 0;
    while i < count
        invariant
            len == positions@.len(),
            count == positions@.len() / 3,
            2 * count <= texcoords@.len(),
            i <= count,
            vertices@.len() == i,
            forall|j: int|
                0 <= j < i ==> {
                    &&& (#[trigger] vertices@[j]).position@ == seq![
                        positions@[3 * j],
                        positions@[3 * j + 1],
                        positions@[3 * j + 2],
                    ]
                    &&& vertices@[j].uv@ == seq![texcoords@[2 * j], texcoords@[2 * j + 1]]
                },
        decreases count - i,
    {
        assert(3 * i + 2 < positions@.len()) by (nonlinear_arith)
            requires
                i < count,
                count == len / 3,
                len == positions@.len(),
        ;
        let p = 3 * i;
        let t = 2 * i;
        let vertex = VertexData {
            position: [positions[p], positions[p + 1], positions[p + 2]],
            uv: [texcoords[t], texcoords[t + 1]],
        };
        assert(vertex.position@ =~= seq![positions@[3 * i as int], positions@[3 * i + 1], positions@[3 * i + 2]]);
        assert(vertex.uv@ =~= seq![texcoords@[2 * i as int], texcoords@[2 * i + 1]]);
        vertices.push(vertex);
        i = i + 1;
    }
    vertices
}

} // verus!
