//! The parameters record of a `.mmap` file.
use crate::error::DecodeError;
use crate::wire::{
    binary32_at, cast_record, i32_at, lemma_binary32_at_keeps_bytes, lemma_i32_at_keeps_bytes,
    read_binary32, read_i32, Binary32,
};
use vstd::prelude::*;
use vstd::slice::slice_subrange;

verus! {

/// The number of bytes of a parameters record.
pub const DT_NAV_MESH_PARAMS_SIZE: usize = 24;

/// The parameters of a whole navigation mesh. The format gives this record no
/// magic number and no version, so every value of it is taken as it comes.
#[derive(Debug, Clone, Copy, PartialEq, Eq)]
pub struct DtNavMeshParams {
    /// The world-space origin of the mesh's tile grid, as (x, y, z).
    pub orig: [Binary32; 3],
    /// The height of each tile, along the z-axis.
    pub tile_height: Binary32,
    /// The most tiles that the mesh can hold.
    pub max_tiles: i32,
    /// The most polygons that a tile can hold.
    pub max_polys: i32,
}

impl DtNavMeshParams {
    /// The record whose image is the first twenty-four bytes of `s`.
    pub open spec fn layout(s: Seq<u8>) -> Self
        recommends
            s.len() >= DT_NAV_MESH_PARAMS_SIZE,
    {
        DtNavMeshParams {
            orig: [binary32_at(s, 0), binary32_at(s, 4), binary32_at(s, 8)],
            tile_height: binary32_at(s, 12),
            max_tiles: i32_at(s, 16),
            max_polys: i32_at(s, 20),
        }
    }

    /// What decoding a buffer with the bytes `s` gives.
    pub open spec fn parse(s: Seq<u8>) -> Result<Self, DecodeError> {
        if s.len() < DT_NAV_MESH_PARAMS_SIZE {
            Err(DecodeError::TooShort)
        } else {
            Ok(Self::layout(s))
        }
    }

    /// Decodes the parameters record at the start of `buffer`. Bytes after the
    /// record are not read.
    pub fn from_bytes(buffer: &[u8]) -> (r: Result<Self, DecodeError>)
        ensures
            r == Self::parse(buffer@),
            r != Err::<Self, _>(DecodeError::LayoutMismatch),
            buffer@.len() < DT_NAV_MESH_PARAMS_SIZE ==> r == Err::<Self, _>(DecodeError::TooShort),
            buffer@.len() >= DT_NAV_MESH_PARAMS_SIZE ==> r == Ok::<Self, DecodeError>(
                Self::layout(buffer@),
            ),
    {
        if buffer.len() < DT_NAV_MESH_PARAMS_SIZE {
            return Err(DecodeError::TooShort);
        }
        let image = slice_subrange(buffer, 0, DT_NAV_MESH_PARAMS_SIZE);
        let record = match cast_record::<DT_NAV_MESH_PARAMS_SIZE>(image) {
            Ok(record) => record,
            Err(_) => {
                return Err(DecodeError::LayoutMismatch);
            },
        };
        Ok(
            DtNavMeshParams {
                orig: [read_binary32(record, 0), read_binary32(record, 4), read_binary32(record, 8)],
                tile_height: read_binary32(record, 12),
                max_tiles: read_i32(record, 16),
                max_polys: read_i32(record, 20),
            },
        )
    }
}

impl<'a> TryFrom<&'a [u8]> for DtNavMeshParams {
    type Error = DecodeError;

    fn try_from(buffer: &'a [u8]) -> (r: Result<Self, DecodeError>) {
        DtNavMeshParams::from_bytes(buffer)
    }
}

impl<'a> vstd::std_specs::convert::TryFromSpecImpl<&'a [u8]> for DtNavMeshParams {
    open spec fn obeys_try_from_spec() -> bool {
        true
    }

    open spec fn try_from_spec(buffer: &'a [u8]) -> Result<Self, DecodeError> {
        DtNavMeshParams::parse(buffer@)
    }
}

/// Two buffers with the same bytes decode to the same parameters record, or
/// are both turned down as too short.
pub proof fn lemma_params_decode_repeats(a: Seq<u8>, b: Seq<u8>)
    requires
        a == b,
    ensures
        DtNavMeshParams::parse(a) == DtNavMeshParams::parse(b),
{
}

/// Decoding a parameters record reads its twenty-four bytes and nothing after
/// them: two buffers that agree on those bytes decode alike.
pub proof fn lemma_params_decode_reads_prefix(a: Seq<u8>, b: Seq<u8>)
    requires
        a.len() >= DT_NAV_MESH_PARAMS_SIZE,
        b.len() >= DT_NAV_MESH_PARAMS_SIZE,
        a.subrange(0, DT_NAV_MESH_PARAMS_SIZE as int) == b.subrange(
            0,
            DT_NAV_MESH_PARAMS_SIZE as int,
        ),
    ensures
        DtNavMeshParams::parse(a) == DtNavMeshParams::parse(b),
{
    assert forall|i: int| 0 <= i < DT_NAV_MESH_PARAMS_SIZE implies a[i] == b[i] by {
        assert(a[i] == a.subrange(0, DT_NAV_MESH_PARAMS_SIZE as int)[i]);
        assert(b[i] == b.subrange(0, DT_NAV_MESH_PARAMS_SIZE as int)[i]);
    }
}

/// A parameters record keeps its whole image: two buffers that give the same
/// record agree on its twenty-four bytes.
pub proof fn lemma_params_keep_image(a: Seq<u8>, b: Seq<u8>)
    requires
        a.len() >= DT_NAV_MESH_PARAMS_SIZE,
        b.len() >= DT_NAV_MESH_PARAMS_SIZE,
        DtNavMeshParams::layout(a) == DtNavMeshParams::layout(b),
    ensures
        a.subrange(0, DT_NAV_MESH_PARAMS_SIZE as int) == b.subrange(
            0,
            DT_NAV_MESH_PARAMS_SIZE as int,
        ),
{
    lemma_binary32_at_keeps_bytes(a, b, 0);
    lemma_binary32_at_keeps_bytes(a, b, 4);
    lemma_binary32_at_keeps_bytes(a, b, 8);
    lemma_binary32_at_keeps_bytes(a, b, 12);
    lemma_i32_at_keeps_bytes(a, b, 16);
    lemma_i32_at_keeps_bytes(a, b, 20);
    assert(a.subrange(0, DT_NAV_MESH_PARAMS_SIZE as int) =~= b.subrange(
        0,
        DT_NAV_MESH_PARAMS_SIZE as int,
    ));
}

} // verus!
