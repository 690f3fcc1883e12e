//! The two headers at the start of a `.mmtile` file: the container header,
//! and the header of the navigation-mesh tile that follows it.
use crate::error::DecodeError;
use crate::wire::{
    binary32_at, cast_record, i32_at, lemma_binary32_at_keeps_bytes, lemma_i32_at_keeps_bytes,
    lemma_u32_at_keeps_bytes, read_binary32, read_i32, read_u32, u32_at, Binary32,
};
use vstd::prelude::*;
use vstd::slice::slice_subrange;

verus! {

/// The magic number of the container header: `"MMAP"`, read as a
/// little-endian 32-bit integer.
pub const MMAP_MAGIC: u32 = 0x4d4d_4150;

/// The container format version that this crate reads.
pub const MMAP_VERSION: u32 = 15;

/// The number of bytes of a container header.
pub const MMAP_TILE_HEADER_SIZE: usize = 20;

/// The magic number of a mesh tile header: the characters `D`, `N`, `A`, `V`
/// packed into 32 bits, `D` highest.
pub const DT_NAVMESH_MAGIC: i32 = 0x444e_4156;

/// The mesh tile format version that this crate reads.
pub const DT_NAVMESH_VERSION: i32 = 7;

/// The number of bytes of a mesh tile header.
pub const DT_MESH_HEADER_SIZE: usize = 100;

/// The container header that wraps a tile.
#[derive(Debug, Clone, Copy, PartialEq, Eq, Structural)]
pub struct MmapTileHeader {
    /// Identifies the container format.
    pub mmap_magic: u32,
    /// The version of the mesh format inside; not checked.
    pub dt_version: u32,
    /// The version of the container format.
    pub mmap_version: u32,
    /// The declared size of the payload in bytes; not checked against the
    /// buffer.
    pub size: u32,
    /// Non-zero where the tile holds liquids.
    pub uses_liquids: u32,
}

impl MmapTileHeader {
    /// The header whose image is the first twenty bytes of `s`.
    pub open spec fn layout(s: Seq<u8>) -> Self
        recommends
            s.len() >= MMAP_TILE_HEADER_SIZE,
    {
        MmapTileHeader {
            mmap_magic: u32_at(s, 0),
            dt_version: u32_at(s, 4),
            mmap_version: u32_at(s, 8),
            size: u32_at(s, 12),
            uses_liquids: u32_at(s, 16),
        }
    }

    /// Magic number and container version are the ones this crate reads.
    pub open spec fn valid(self) -> bool {
        self.mmap_magic == MMAP_MAGIC && self.mmap_version == MMAP_VERSION
    }

    /// What the checks on magic number and container version say of a header:
    /// the first of the two that fails, with the value found and the value
    /// asked for.
    pub open spec fn checked(self) -> Result<(), DecodeError> {
        if self.mmap_magic != MMAP_MAGIC {
            Err(
                DecodeError::InvalidMagic {
                    observed: self.mmap_magic as i64,
                    expected: MMAP_MAGIC as i64,
                },
            )
        } else if self.mmap_version != MMAP_VERSION {
            Err(
                DecodeError::InvalidVersion {
                    observed: self.mmap_version as i64,
                    expected: MMAP_VERSION as i64,
                },
            )
        } else {
            Ok(())
        }
    }

    /// What decoding a buffer with the bytes `s` gives.
    pub open spec fn parse(s: Seq<u8>) -> Result<Self, DecodeError> {
        if s.len() < MMAP_TILE_HEADER_SIZE {
            Err(DecodeError::TooShort)
        } else {
            match Self::layout(s).checked() {
                Ok(_) => Ok(Self::layout(s)),
                Err(e) => Err(e),
            }
        }
    }

    /// Checks the magic number, then the container version. The payload size
    /// is not looked at.
    pub fn sanity(self) -> (r: Result<(), DecodeError>)
        ensures
            r == self.checked(),
            r is Ok <==> self.valid(),
    {
        if self.mmap_magic != MMAP_MAGIC {
            return Err(
                DecodeError::InvalidMagic {
                    observed: self.mmap_magic as i64,
                    expected: MMAP_MAGIC as i64,
                },
            );
        }
        if self.mmap_version != MMAP_VERSION {
            return Err(
                DecodeError::InvalidVersion {
                    observed: self.mmap_version as i64,
                    expected: MMAP_VERSION as i64,
                },
            );
        }
        Ok(())
    }

    /// Decodes the container header at the start of `buffer`. Bytes after the
    /// header are not read, and the payload size is not held against them.
    pub fn from_bytes(buffer: &[u8]) -> (r: Result<Self, DecodeError>)
        ensures
            r == Self::parse(buffer@),
            r != Err::<Self, _>(DecodeError::LayoutMismatch),
            buffer@.len() < MMAP_TILE_HEADER_SIZE ==> r == Err::<Self, _>(DecodeError::TooShort),
            buffer@.len() >= MMAP_TILE_HEADER_SIZE && u32_at(buffer@, 0) != MMAP_MAGIC ==> r
                == Err::<Self, _>(
                DecodeError::InvalidMagic {
                    observed: u32_at(buffer@, 0) as i64,
                    expected: MMAP_MAGIC as i64,
                },
            ),
            buffer@.len() >= MMAP_TILE_HEADER_SIZE && u32_at(buffer@, 0) == MMAP_MAGIC && u32_at(
                buffer@,
                8,
            ) != MMAP_VERSION ==> r == Err::<Self, _>(
                DecodeError::InvalidVersion {
                    observed: u32_at(buffer@, 8) as i64,
                    expected: MMAP_VERSION as i64,
                },
            ),
            buffer@.len() >= MMAP_TILE_HEADER_SIZE && u32_at(buffer@, 0) == MMAP_MAGIC && u32_at(
                buffer@,
                8,
            ) == MMAP_VERSION ==> r == Ok::<Self, DecodeError>(Self::layout(buffer@)),
            r is Ok ==> r->Ok_0.valid(),
    {
        if buffer.len() < MMAP_TILE_HEADER_SIZE {
            return Err(DecodeError::TooShort);
        }
        let image = slice_subrange(buffer, 0, MMAP_TILE_HEADER_SIZE);
        let record = match cast_record::<MMAP_TILE_HEADER_SIZE>(image) {
            Ok(record) => record,
            Err(_) => {
                return Err(DecodeError::LayoutMismatch);
            },
        };
        let header = MmapTileHeader {
            mmap_magic: read_u32(record, 0),
            dt_version: read_u32(record, 4),
            mmap_version: read_u32(record, 8),
            size: read_u32(record, 12),
            uses_liquids: read_u32(record, 16),
        };
        match header.sanity() {
            Ok(_) => Ok(header),
            Err(e) => Err(e),
        }
    }
}

impl<'a> TryFrom<&'a [u8]> for MmapTileHeader {
    type Error = DecodeError;

    fn try_from(buffer: &'a [u8]) -> (r: Result<Self, DecodeError>) {
        MmapTileHeader::from_bytes(buffer)
    }
}

impl<'a> vstd::std_specs::convert::TryFromSpecImpl<&'a [u8]> for MmapTileHeader {
    open spec fn obeys_try_from_spec() -> bool {
        true
    }

    open spec fn try_from_spec(buffer: &'a [u8]) -> Result<Self, DecodeError> {
        MmapTileHeader::parse(buffer@)
    }
}

/// Two buffers with the same bytes decode to the same container header, or
/// are turned down with the same error.
pub proof fn lemma_tile_header_decode_repeats(a: Seq<u8>, b: Seq<u8>)
    requires
        a == b,
    ensures
        MmapTileHeader::parse(a) == MmapTileHeader::parse(b),
{
}

/// Decoding a container header reads its twenty bytes and nothing after
/// them: two buffers that agree on those bytes decode alike.
pub proof fn lemma_tile_header_decode_reads_prefix(a: Seq<u8>, b: Seq<u8>)
    requires
        a.len() >= MMAP_TILE_HEADER_SIZE,
        b.len() >= MMAP_TILE_HEADER_SIZE,
        a.subrange(0, MMAP_TILE_HEADER_SIZE as int) == b.subrange(0, MMAP_TILE_HEADER_SIZE as int),
    ensures
        MmapTileHeader::parse(a) == MmapTileHeader::parse(b),
{
    assert forall|i: int| 0 <= i < MMAP_TILE_HEADER_SIZE implies a[i] == b[i] by {
        assert(a[i] == a.subrange(0, MMAP_TILE_HEADER_SIZE as int)[i]);
        assert(b[i] == b.subrange(0, MMAP_TILE_HEADER_SIZE as int)[i]);
    }
}

/// A container header keeps its whole image: two buffers that give the same
/// header agree on its twenty bytes.
pub proof fn lemma_tile_header_keeps_image(a: Seq<u8>, b: Seq<u8>)
    requires
        a.len() >= MMAP_TILE_HEADER_SIZE,
        b.len() >= MMAP_TILE_HEADER_SIZE,
        MmapTileHeader::layout(a) == MmapTileHeader::layout(b),
    ensures
        a.subrange(0, MMAP_TILE_HEADER_SIZE as int) == b.subrange(0, MMAP_TILE_HEADER_SIZE as int),
{
    lemma_u32_at_keeps_bytes(a, b, 0);
    lemma_u32_at_keeps_bytes(a, b, 4);
    lemma_u32_at_keeps_bytes(a, b, 8);
    lemma_u32_at_keeps_bytes(a, b, 12);
    lemma_u32_at_keeps_bytes(a, b, 16);
    assert(a.subrange(0, MMAP_TILE_HEADER_SIZE as int) =~= b.subrange(
        0,
        MMAP_TILE_HEADER_SIZE as int,
    ));
}

/// The header of one navigation-mesh tile. The counts size the sections that
/// follow the header in the file; none of them is checked here.
#[derive(Debug, Clone, Copy, PartialEq, Eq)]
pub struct DtMeshHeader {
    /// Identifies the tile format.
    pub magic: i32,
    /// The version of the tile format.
    pub version: i32,
    /// The x-position of the tile within the tile grid.
    pub x: i32,
    /// The y-position of the tile within the tile grid.
    pub y: i32,
    /// The layer of the tile within the tile grid.
    pub layer: i32,
    /// The user defined id of the tile.
    pub user_id: u32,
    /// The number of polygons in the tile.
    pub poly_count: i32,
    /// The number of vertices in the tile.
    pub vert_count: i32,
    /// The number of allocated links.
    pub max_link_count: i32,
    /// The number of sub-meshes in the detail mesh.
    pub detail_mesh_count: i32,
    /// The number of unique vertices in the detail mesh, in addition to the
    /// polygon vertices.
    pub detail_vert_count: i32,
    /// The number of triangles in the detail mesh.
    pub detail_tri_count: i32,
    /// The number of bounding volume nodes; zero if bounding volumes are
    /// disabled.
    pub bv_node_count: i32,
    /// The number of off-mesh connections.
    pub off_mesh_con_count: i32,
    /// The index of the first polygon which is an off-mesh connection.
    pub off_mesh_base: i32,
    /// The height of the agents using the tile.
    pub walkable_height: Binary32,
    /// The radius of the agents using the tile.
    pub walkable_radius: Binary32,
    /// The maximum climb height of the agents using the tile.
    pub walkable_climb: Binary32,
    /// The minimum bounds of the tile's bounding box, as (x, y, z).
    pub bmin: [Binary32; 3],
    /// The maximum bounds of the tile's bounding box, as (x, y, z).
    pub bmax: [Binary32; 3],
    /// The bounding volume quantization factor.
    pub bv_quant_factor: Binary32,
}

impl DtMeshHeader {
    /// The header whose image is the first hundred bytes of `s`.
    pub open spec fn layout(s: Seq<u8>) -> Self
        recommends
            s.len() >= DT_MESH_HEADER_SIZE,
    {
        DtMeshHeader {
            magic: i32_at(s, 0),
            version: i32_at(s, 4),
            x: i32_at(s, 8),
            y: i32_at(s, 12),
            layer: i32_at(s, 16),
            user_id: u32_at(s, 20),
            poly_count: i32_at(s, 24),
            vert_count: i32_at(s, 28),
            max_link_count: i32_at(s, 32),
            detail_mesh_count: i32_at(s, 36),
            detail_vert_count: i32_at(s, 40),
            detail_tri_count: i32_at(s, 44),
            bv_node_count: i32_at(s, 48),
            off_mesh_con_count: i32_at(s, 52),
            off_mesh_base: i32_at(s, 56),
            walkable_height: binary32_at(s, 60),
            walkable_radius: binary32_at(s, 64),
            walkable_climb: binary32_at(s, 68),
            bmin: [binary32_at(s, 72), binary32_at(s, 76), binary32_at(s, 80)],
            bmax: [binary32_at(s, 84), binary32_at(s, 88), binary32_at(s, 92)],
            bv_quant_factor: binary32_at(s, 96),
        }
    }

    /// Magic number and version are the ones this crate reads.
    pub open spec fn valid(self) -> bool {
        self.magic == DT_NAVMESH_MAGIC && self.version == DT_NAVMESH_VERSION
    }

    /// What the checks on magic number and version say of a header: the first
    /// of the two that fails, with the value found and the value asked for.
    pub open spec fn checked(self) -> Result<(), DecodeError> {
        if self.magic != DT_NAVMESH_MAGIC {
            Err(
                DecodeError::InvalidMagic {
                    observed: self.magic as i64,
                    expected: DT_NAVMESH_MAGIC as i64,
                },
            )
        } else if self.version != DT_NAVMESH_VERSION {
            Err(
                DecodeError::InvalidVersion {
                    observed: self.version as i64,
                    expected: DT_NAVMESH_VERSION as i64,
                },
            )
        } else {
            Ok(())
        }
    }

    /// What decoding a buffer with the bytes `s` gives.
    pub open spec fn parse(s: Seq<u8>) -> Result<Self, DecodeError> {
        if s.len() < DT_MESH_HEADER_SIZE {
            Err(DecodeError::TooShort)
        } else {
            match Self::layout(s).checked() {
                Ok(_) => Ok(Self::layout(s)),
                Err(e) => Err(e),
            }
        }
    }

    /// Checks the magic number, then the version. No other field is looked at.
    pub fn sanity(self) -> (r: Result<(), DecodeError>)
        ensures
            r == self.checked(),
            r is Ok <==> self.valid(),
    {
        if self.magic != DT_NAVMESH_MAGIC {
            return Err(
                DecodeError::InvalidMagic {
                    observed: self.magic as i64,
                    expected: DT_NAVMESH_MAGIC as i64,
                },
            );
        }
        if self.version != DT_NAVMESH_VERSION {
            return Err(
                DecodeError::InvalidVersion {
                    observed: self.version as i64,
                    expected: DT_NAVMESH_VERSION as i64,
                },
            );
        }
        Ok(())
    }

    /// Decodes the mesh tile header at the start of `buffer`. Bytes after the
    /// header are not read.
    pub fn from_bytes(buffer: &[u8]) -> (r: Result<Self, DecodeError>)
        ensures
            r == Self::parse(buffer@),
            r != Err::<Self, _>(DecodeError::LayoutMismatch),
            buffer@.len() < DT_MESH_HEADER_SIZE ==> r == Err::<Self, _>(DecodeError::TooShort),
            buffer@.len() >= DT_MESH_HEADER_SIZE && i32_at(buffer@, 0) != DT_NAVMESH_MAGIC ==> r
                == Err::<Self, _>(
                DecodeError::InvalidMagic {
                    observed: i32_at(buffer@, 0) as i64,
                    expected: DT_NAVMESH_MAGIC as i64,
                },
            ),
            buffer@.len() >= DT_MESH_HEADER_SIZE && i32_at(buffer@, 0) == DT_NAVMESH_MAGIC
                && i32_at(buffer@, 4) != DT_NAVMESH_VERSION ==> r == Err::<Self, _>(
                DecodeError::InvalidVersion {
                    observed: i32_at(buffer@, 4) as i64,
                    expected: DT_NAVMESH_VERSION as i64,
                },
            ),
            buffer@.len() >= DT_MESH_HEADER_SIZE && i32_at(buffer@, 0) == DT_NAVMESH_MAGIC
                && i32_at(buffer@, 4) == DT_NAVMESH_VERSION ==> r == Ok::<Self, DecodeError>(
                Self::layout(buffer@),
            ),
            r is Ok ==> r->Ok_0.valid(),
    {
        if buffer.len() < DT_MESH_HEADER_SIZE {
            return Err(DecodeError::TooShort);
        }
        let image = slice_subrange(buffer, 0, DT_MESH_HEADER_SIZE);
        let record = match cast_record::<DT_MESH_HEADER_SIZE>(image) {
            Ok(record) => record,
            Err(_) => {
                return Err(DecodeError::LayoutMismatch);
            },
        };
        let header = DtMeshHeader {
            magic: read_i32(record, 0),
            version: read_i32(record, 4),
            x: read_i32(record, 8),
            y: read_i32(record, 12),
            layer: read_i32(record, 16),
            user_id: read_u32(record, 20),
            poly_count: read_i32(record, 24),
            vert_count: read_i32(record, 28),
            max_link_count: read_i32(record, 32),
            detail_mesh_count: read_i32(record, 36),
            detail_vert_count: read_i32(record, 40),
            detail_tri_count: read_i32(record, 44),
            bv_node_count: read_i32(record, 48),
            off_mesh_con_count: read_i32(record, 52),
            off_mesh_base: read_i32(record, 56),
            walkable_height: read_binary32(record, 60),
            walkable_radius: read_binary32(record, 64),
            walkable_climb: read_binary32(record, 68),
            bmin: [read_binary32(record, 72), read_binary32(record, 76), read_binary32(record, 80)],
            bmax: [read_binary32(record, 84), read_binary32(record, 88), read_binary32(record, 92)],
            bv_quant_factor: read_binary32(record, 96),
        };
        match header.sanity() {
            Ok(_) => Ok(header),
            Err(e) => Err(e),
        }
    }
}

impl<'a> TryFrom<&'a [u8]> for DtMeshHeader {
    type Error = DecodeError;

    fn try_from(buffer: &'a [u8]) -> (r: Result<Self, DecodeError>) {
        DtMeshHeader::from_bytes(buffer)
    }
}

impl<'a> vstd::std_specs::convert::TryFromSpecImpl<&'a [u8]> for DtMeshHeader {
    open spec fn obeys_try_from_spec() -> bool {
        true
    }

    open spec fn try_from_spec(buffer: &'a [u8]) -> Result<Self, DecodeError> {
        DtMeshHeader::parse(buffer@)
    }
}

/// Two buffers with the same bytes decode to the same mesh tile header, or are
/// turned down with the same error.
pub proof fn lemma_mesh_header_decode_repeats(a: Seq<u8>, b: Seq<u8>)
    requires
        a == b,
    ensures
        DtMeshHeader::parse(a) == DtMeshHeader::parse(b),
{
}

/// Decoding a mesh tile header reads its hundred bytes and nothing after
/// them: two buffers that agree on those bytes decode alike.
pub proof fn lemma_mesh_header_decode_reads_prefix(a: Seq<u8>, b: Seq<u8>)
    requires
        a.len() >= DT_MESH_HEADER_SIZE,
        b.len() >= DT_MESH_HEADER_SIZE,
        a.subrange(0, DT_MESH_HEADER_SIZE as int) == b.subrange(0, DT_MESH_HEADER_SIZE as int),
    ensures
        DtMeshHeader::parse(a) == DtMeshHeader::parse(b),
{
    assert forall|i: int| 0 <= i < DT_MESH_HEADER_SIZE implies a[i] == b[i] by {
        assert(a[i] == a.subrange(0, DT_MESH_HEADER_SIZE as int)[i]);
        assert(b[i] == b.subrange(0, DT_MESH_HEADER_SIZE as int)[i]);
    }
}

/// A mesh tile header keeps its whole image: two buffers that give the same
/// header agree on its hundred bytes.
pub proof fn lemma_mesh_header_keeps_image(a: Seq<u8>, b: Seq<u8>)
    requires
        a.len() >= DT_MESH_HEADER_SIZE,
        b.len() >= DT_MESH_HEADER_SIZE,
        DtMeshHeader::layout(a) == DtMeshHeader::layout(b),
    ensures
        a.subrange(0, DT_MESH_HEADER_SIZE as int) == b.subrange(0, DT_MESH_HEADER_SIZE as int),
{
    lemma_i32_at_keeps_bytes(a, b, 0);
    lemma_i32_at_keeps_bytes(a, b, 4);
    lemma_i32_at_keeps_bytes(a, b, 8);
    lemma_i32_at_keeps_bytes(a, b, 12);
    lemma_i32_at_keeps_bytes(a, b, 16);
    lemma_u32_at_keeps_bytes(a, b, 20);
    lemma_i32_at_keeps_bytes(a, b, 24);
    lemma_i32_at_keeps_bytes(a, b, 28);
    lemma_i32_at_keeps_bytes(a, b, 32);
    lemma_i32_at_keeps_bytes(a, b, 36);
    lemma_i32_at_keeps_bytes(a, b, 40);
    lemma_i32_at_keeps_bytes(a, b, 44);
    lemma_i32_at_keeps_bytes(a, b, 48);
    lemma_i32_at_keeps_bytes(a, b, 52);
    lemma_i32_at_keeps_bytes(a, b, 56);
    lemma_binary32_at_keeps_bytes(a, b, 60);
    lemma_binary32_at_keeps_bytes(a, b, 64);
    lemma_binary32_at_keeps_bytes(a, b, 68);
    lemma_binary32_at_keeps_bytes(a, b, 72);
    lemma_binary32_at_keeps_bytes(a, b, 76);
    lemma_binary32_at_keeps_bytes(a, b, 80);
    lemma_binary32_at_keeps_bytes(a, b, 84);
    lemma_binary32_at_keeps_bytes(a, b, 88);
    lemma_binary32_at_keeps_bytes(a, b, 92);
    lemma_binary32_at_keeps_bytes(a, b, 96);
    assert(a.subrange(0, DT_MESH_HEADER_SIZE as int) =~= b.subrange(0, DT_MESH_HEADER_SIZE as int));
}

} // verus!
