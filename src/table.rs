use vstd::prelude::*;

use crate::error::GraphicError;
use crate::record::{info_at, info_encoded_by, GraphicInfo, INFO_SIZE};

verus! {

/// Whether `infos` are the entries of the metadata table `bytes`: one for each
/// whole 40-byte record, in order; an incomplete last record ends the table.
pub open spec fn table_encoded_by(infos: Seq<GraphicInfo>, bytes: Seq<u8>) -> bool {
    &&& infos.len() == bytes.len() / INFO_SIZE as nat
    &&& forall|i: int|
        0 <= i < infos.len() ==> info_encoded_by(
            #[trigger] infos[i],
            bytes.subrange(i * INFO_SIZE, i * INFO_SIZE + INFO_SIZE),
        )
}

/// Decodes every whole record of a metadata table.
pub fn parse_info_table(bytes: &[u8]) -> (r: Vec<GraphicInfo>)
    ensures
        table_encoded_by(r@, bytes@),
{
    let n = bytes.len();
    let count = n / INFO_SIZE;
    let mut infos: Vec<GraphicInfo> = Vec::new();
    let mut i: usize = 0;
    while i < count
        invariant
            n == bytes@.len(),
            count == bytes@.len() / INFO_SIZE as nat,
            i <= count,
            infos@.len() == i,
            forall|j: int|
                0 <= j < i ==> info_encoded_by(
                    #[trigger] infos@[j],
                    bytes@.subrange(j * INFO_SIZE, j * INFO_SIZE + INFO_SIZE),
                ),
        decreases count - i,
    {
        assert(i * INFO_SIZE + INFO_SIZE <= bytes@.len()) by (nonlinear_arith)
            requires
                i < count,
                count == bytes@.len() / 40,
        ;
        infos.push(info_at(bytes, i * INFO_SIZE));
        i += 1;
    }
    infos
}

/// Whether some entry of `infos` carries `id`.
pub open spec fn has_id(infos: Seq<GraphicInfo>, id: u32) -> bool {
    exists|i: int| 0 <= i < infos.len() && #[trigger] infos[i].id == id
}

/// The first entry that carries `id`, or `MetadataNotFound`.
pub fn find_by_id(infos: &[GraphicInfo], id: u32) -> (r: Result<GraphicInfo, GraphicError>)
    ensures
        r is Ok <==> has_id(infos@, id),
        r matches Ok(info) ==> exists|i: int|
            0 <= i < infos@.len() && infos@[i] == info && info.id == id && forall|j: int|
                0 <= j < i ==> (#[trigger] infos@[j]).id != id,
        r matches Err(e) ==> e == GraphicError::MetadataNotFound,
{
    let mut i: usize = 0;
    while i < infos.len()
        invariant
            i <= infos@.len(),
            forall|j: int| 0 <= j < i ==> (#[trigger] infos@[j]).id != id,
        decreases infos@.len() - i,
    {
        if infos[i].id == id {
            return Ok(infos[i]);
        }
        i += 1;
    }
    Err(GraphicError::MetadataNotFound)
}

} // verus!
