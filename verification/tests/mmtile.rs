use wownav_parser::error::DecodeError;
use wownav_parser::mmtile::{
    DtMeshHeader, MmapTileHeader, DT_MESH_HEADER_SIZE, DT_NAVMESH_MAGIC, DT_NAVMESH_VERSION,
    MMAP_MAGIC, MMAP_TILE_HEADER_SIZE, MMAP_VERSION,
};
use wownav_parser::wire::Binary32;

const TILE: [u8; 20] = [
    80, 65, 77, 77, 7, 0, 0, 0, 15, 0, 0, 0, 116, 163, 1, 0, 1, 0, 0, 0,
];

const MESH: [u8; 100] = [
    86, 65, 78, 68, 7, 0, 0, 0, 7, 0, 0, 0, 38, 0, 0, 0, 0, 0, 0, 0, 0, 0, 0, 0, 27, 5, 0, 0, 166,
    7, 0, 0, 130, 20, 0, 0, 27, 5, 0, 0, 242, 5, 0, 0, 196, 16, 0, 0, 54, 10, 0, 0, 0, 0, 0, 0, 27,
    5, 0, 0, 201, 204, 204, 63, 134, 136, 8, 63, 201, 204, 204, 63, 255, 255, 71, 197, 0, 0, 250,
    195, 85, 85, 133, 69, 170, 170, 38, 197, 195, 53, 25, 67, 0, 0, 150, 69, 4, 0, 112, 64,
];

fn float(value: f32) -> Binary32 {
    Binary32 {
        bits: value.to_bits(),
    }
}

#[test]
fn parse_tile_header() {
    let buffer = [
        80, 65, 77, 77, 7, 0, 0, 0, 15, 0, 0, 0, 116, 163, 1, 0, 1, 0, 0, 0,
    ];
    assert_eq!(
        MmapTileHeader::from_bytes(&buffer),
        Ok(MmapTileHeader {
            mmap_magic: 0x4D4D4150,
            dt_version: 7,
            mmap_version: 15,
            size: 0x0001_a374,
            uses_liquids: 1,
        })
    );
}

#[test]
fn parse_mesh_header() {
    let buffer = [
        86, 65, 78, 68, 7, 0, 0, 0, 7, 0, 0, 0, 38, 0, 0, 0, 0, 0, 0, 0, 0, 0, 0, 0, 27, 5, 0, 0,
        166, 7, 0, 0, 130, 20, 0, 0, 27, 5, 0, 0, 242, 5, 0, 0, 196, 16, 0, 0, 54, 10, 0, 0, 0, 0,
        0, 0, 27, 5, 0, 0, 201, 204, 204, 63, 134, 136, 8, 63, 201, 204, 204, 63, 255, 255, 71,
        197, 0, 0, 250, 195, 85, 85, 133, 69, 170, 170, 38, 197, 195, 53, 25, 67, 0, 0, 150, 69, 4,
        0, 112, 64,
    ];
    assert_eq!(buffer.len(), DT_MESH_HEADER_SIZE);
    assert_eq!(
        DtMeshHeader::from_bytes(&buffer),
        Ok(DtMeshHeader {
            magic: 0x444E4156,
            version: 7,
            x: 7,
            y: 38,
            layer: 0,
            user_id: 0,
            poly_count: 1307,
            vert_count: 1958,
            max_link_count: 5250,
            detail_mesh_count: 1307,
            detail_vert_count: 1522,
            detail_tri_count: 4292,
            bv_node_count: 2614,
            off_mesh_con_count: 0,
            off_mesh_base: 1307,
            walkable_height: Binary32 { bits: 0x3fcc_ccc9 },
            walkable_radius: Binary32 { bits: 0x3f08_8886 },
            walkable_climb: Binary32 { bits: 0x3fcc_ccc9 },
            bmin: [
                Binary32 { bits: 0xc547_ffff },
                Binary32 { bits: 0xc3fa_0000 },
                Binary32 { bits: 0x4585_5555 },
            ],
            bmax: [
                Binary32 { bits: 0xc526_aaaa },
                Binary32 { bits: 0x4319_35c3 },
                Binary32 { bits: 0x4596_0000 },
            ],
            bv_quant_factor: Binary32 { bits: 0x4070_0004 },
        })
    );
}

#[test]
fn mesh_header_floats_are_ieee_754() {
    let header = DtMeshHeader::from_bytes(&MESH).unwrap();
    assert_eq!(header.walkable_height, float(1.5999995470046997));
    assert_eq!(header.walkable_radius, float(0.5333331823348999));
    assert_eq!(header.walkable_climb, float(1.5999995470046997));
    assert_eq!(
        header.bmin,
        [float(-3199.999755859375), float(-500.0), float(4266.66650390625)]
    );
    assert_eq!(
        header.bmax,
        [float(-2666.66650390625), float(153.2100067138672), float(4800.0)]
    );
    assert_eq!(f32::from_bits(header.bv_quant_factor.bits), 3.7500009536743164);
}

#[test]
fn constants() {
    assert_eq!(MMAP_MAGIC, u32::from_le_bytes(*b"PAMM"));
    assert_eq!(MMAP_MAGIC, 0x4d4d4150);
    assert_eq!(MMAP_VERSION, 15);
    assert_eq!(MMAP_TILE_HEADER_SIZE, 20);
    assert_eq!(
        DT_NAVMESH_MAGIC,
        (('D' as i32) << 24) | (('N' as i32) << 16) | (('A' as i32) << 8) | ('V' as i32)
    );
    assert_eq!(DT_NAVMESH_VERSION, 7);
    assert_eq!(DT_MESH_HEADER_SIZE, 100);
}

#[test]
fn tile_header_payload_size_is_little_endian() {
    let header = MmapTileHeader::from_bytes(&TILE).unwrap();
    assert_eq!(header.size, 116 + 163 * 256 + 1 * 65536);
    assert_eq!(header.size, 107380);
}

#[test]
fn tile_header_one_byte_short() {
    assert_eq!(
        MmapTileHeader::from_bytes(&TILE[0..19]),
        Err(DecodeError::TooShort)
    );
}

#[test]
fn tile_header_too_short() {
    for len in 0..20 {
        assert_eq!(
            MmapTileHeader::from_bytes(&TILE[0..len]),
            Err(DecodeError::TooShort)
        );
    }
    let garbage = [0xffu8; 19];
    assert_eq!(
        MmapTileHeader::from_bytes(&garbage),
        Err(DecodeError::TooShort)
    );
}

#[test]
fn mesh_header_too_short() {
    for len in 0..100 {
        assert_eq!(
            DtMeshHeader::from_bytes(&MESH[0..len]),
            Err(DecodeError::TooShort)
        );
    }
    assert!(DtMeshHeader::from_bytes(&MESH[0..100]).is_ok());
}

#[test]
fn tile_header_invalid_magic() {
    let mut buffer = TILE;
    buffer[0] = 81;
    assert_eq!(
        MmapTileHeader::from_bytes(&buffer),
        Err(DecodeError::InvalidMagic {
            observed: 0x4d4d4151,
            expected: 0x4d4d4150,
        })
    );
    buffer[0..4].copy_from_slice(&[255, 255, 255, 255]);
    assert_eq!(
        MmapTileHeader::from_bytes(&buffer),
        Err(DecodeError::InvalidMagic {
            observed: 4294967295,
            expected: 0x4d4d4150,
        })
    );
}

#[test]
fn tile_header_magic_is_checked_first() {
    let mut buffer = TILE;
    buffer[3] = 0;
    buffer[8] = 14;
    assert_eq!(
        MmapTileHeader::from_bytes(&buffer),
        Err(DecodeError::InvalidMagic {
            observed: 0x004d4150,
            expected: 0x4d4d4150,
        })
    );
}

#[test]
fn tile_header_invalid_version() {
    let mut buffer = TILE;
    buffer[8] = 14;
    assert_eq!(
        MmapTileHeader::from_bytes(&buffer),
        Err(DecodeError::InvalidVersion {
            observed: 14,
            expected: 15,
        })
    );
    buffer[8..12].copy_from_slice(&[15, 0, 0, 128]);
    assert_eq!(
        MmapTileHeader::from_bytes(&buffer),
        Err(DecodeError::InvalidVersion {
            observed: 0x8000_000f,
            expected: 15,
        })
    );
}

#[test]
fn tile_header_other_fields_are_not_checked() {
    let mut buffer = TILE;
    buffer[4..8].copy_from_slice(&[1, 2, 3, 4]);
    buffer[12..16].copy_from_slice(&[255, 255, 255, 255]);
    buffer[16..20].copy_from_slice(&[0, 0, 0, 0]);
    let header = MmapTileHeader::from_bytes(&buffer).unwrap();
    assert_eq!(header.dt_version, 0x0403_0201);
    assert_eq!(header.size, u32::MAX);
    assert_eq!(header.uses_liquids, 0);
}

#[test]
fn tile_header_ignores_what_follows() {
    let mut buffer = TILE.to_vec();
    buffer.extend_from_slice(&MESH);
    let header = MmapTileHeader::from_bytes(&buffer);
    assert_eq!(header, MmapTileHeader::from_bytes(&TILE));
    assert!(header.is_ok());
    assert_eq!(DtMeshHeader::from_bytes(&buffer[20..]).unwrap().y, 38);
}

#[test]
fn tile_header_decode_twice() {
    let first = MmapTileHeader::from_bytes(&TILE);
    let second = MmapTileHeader::from_bytes(&TILE);
    assert_eq!(first, second);
    let copy = TILE.to_vec();
    assert_eq!(MmapTileHeader::try_from(copy.as_slice()), first);
}

#[test]
fn tile_header_sanity() {
    let good = MmapTileHeader {
        mmap_magic: MMAP_MAGIC,
        dt_version: 0,
        mmap_version: MMAP_VERSION,
        size: 0,
        uses_liquids: 0,
    };
    assert_eq!(good.sanity(), Ok(()));
    let bad_magic = MmapTileHeader {
        mmap_magic: 1,
        ..good
    };
    assert_eq!(
        bad_magic.sanity(),
        Err(DecodeError::InvalidMagic {
            observed: 1,
            expected: 0x4d4d4150,
        })
    );
    let bad_version = MmapTileHeader {
        mmap_version: 16,
        ..good
    };
    assert_eq!(
        bad_version.sanity(),
        Err(DecodeError::InvalidVersion {
            observed: 16,
            expected: 15,
        })
    );
    let bad_both = MmapTileHeader {
        mmap_magic: 0,
        mmap_version: 0,
        ..good
    };
    assert_eq!(
        bad_both.sanity(),
        Err(DecodeError::InvalidMagic {
            observed: 0,
            expected: 0x4d4d4150,
        })
    );
}

#[test]
fn mesh_header_invalid_magic() {
    let mut buffer = MESH;
    buffer[0..4].copy_from_slice(&[80, 65, 77, 77]);
    assert_eq!(
        DtMeshHeader::from_bytes(&buffer),
        Err(DecodeError::InvalidMagic {
            observed: 0x4d4d4150,
            expected: 0x444e4156,
        })
    );
    buffer[0..4].copy_from_slice(&[86, 65, 78, 196]);
    assert_eq!(
        DtMeshHeader::from_bytes(&buffer),
        Err(DecodeError::InvalidMagic {
            observed: 0x444e4156 - 0x8000_0000,
            expected: 0x444e4156,
        })
    );
}

#[test]
fn mesh_header_invalid_version() {
    let mut buffer = MESH;
    buffer[4] = 8;
    assert_eq!(
        DtMeshHeader::from_bytes(&buffer),
        Err(DecodeError::InvalidVersion {
            observed: 8,
            expected: 7,
        })
    );
    buffer[4..8].copy_from_slice(&[255, 255, 255, 255]);
    assert_eq!(
        DtMeshHeader::from_bytes(&buffer),
        Err(DecodeError::InvalidVersion {
            observed: -1,
            expected: 7,
        })
    );
}

#[test]
fn mesh_header_magic_is_checked_first() {
    let mut buffer = MESH;
    buffer[0] = 0;
    buffer[4] = 1;
    assert_eq!(
        DtMeshHeader::from_bytes(&buffer),
        Err(DecodeError::InvalidMagic {
            observed: 0x444e4100,
            expected: 0x444e4156,
        })
    );
}

#[test]
fn mesh_header_counts_are_not_checked() {
    let mut buffer = MESH;
    buffer[24..28].copy_from_slice(&[255, 255, 255, 255]);
    buffer[28..32].copy_from_slice(&[0, 0, 0, 128]);
    buffer[20..24].copy_from_slice(&[255, 255, 255, 255]);
    buffer[96..100].copy_from_slice(&[0, 0, 192, 255]);
    let header = DtMeshHeader::from_bytes(&buffer).unwrap();
    assert_eq!(header.poly_count, -1);
    assert_eq!(header.vert_count, i32::MIN);
    assert_eq!(header.user_id, u32::MAX);
    assert!(f32::from_bits(header.bv_quant_factor.bits).is_nan());
}

#[test]
fn mesh_header_ignores_what_follows() {
    let mut buffer = MESH.to_vec();
    buffer.extend_from_slice(&[1, 2, 3, 4, 5]);
    assert_eq!(
        DtMeshHeader::from_bytes(&buffer),
        DtMeshHeader::from_bytes(&MESH)
    );
}

#[test]
fn mesh_header_decode_twice() {
    let first = DtMeshHeader::from_bytes(&MESH);
    let second = DtMeshHeader::from_bytes(&MESH);
    assert_eq!(first, second);
    let copy = MESH.to_vec();
    assert_eq!(DtMeshHeader::try_from(copy.as_slice()), first);
}

#[test]
fn mesh_header_sanity() {
    let good = DtMeshHeader::from_bytes(&MESH).unwrap();
    assert_eq!(good.sanity(), Ok(()));
    let bad_magic = DtMeshHeader { magic: -5, ..good };
    assert_eq!(
        bad_magic.sanity(),
        Err(DecodeError::InvalidMagic {
            observed: -5,
            expected: 1145979222,
        })
    );
    let bad_version = DtMeshHeader { version: 6, ..good };
    assert_eq!(
        bad_version.sanity(),
        Err(DecodeError::InvalidVersion {
            observed: 6,
            expected: 7,
        })
    );
}

#[test]
fn no_buffer_is_a_layout_mismatch() {
    for len in [0usize, 1, 19, 20, 21, 99, 100, 101, 256] {
        let buffer = vec![0xa5u8; len];
        assert_ne!(
            MmapTileHeader::from_bytes(&buffer),
            Err(DecodeError::LayoutMismatch)
        );
        assert_ne!(
            DtMeshHeader::from_bytes(&buffer),
            Err(DecodeError::LayoutMismatch)
        );
    }
}

#[test]
fn decoding_does_not_need_an_aligned_buffer() {
    for pad in 0..8 {
        let mut buffer = vec![0u8; pad];
        buffer.extend_from_slice(&TILE);
        buffer.extend_from_slice(&MESH);
        assert_eq!(
            MmapTileHeader::from_bytes(&buffer[pad..]),
            MmapTileHeader::from_bytes(&TILE)
        );
        assert_eq!(
            DtMeshHeader::from_bytes(&buffer[pad + 20..]),
            DtMeshHeader::from_bytes(&MESH)
        );
    }
}
