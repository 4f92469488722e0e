//! Precomputed per-square attack tables. In every entry, bit
//! `file * 8 + rank` stands for the square with that file and rank.

use vstd::prelude::*;

verus! {

/// For each square, the set of the up to eight adjacent squares.
pub const ADJACENT_BITBOARDS: [u64; 64] = [
    0x0000000000000302,
    0x0000000000000705,
    0x0000000000000e0a,
    0x0000000000001c14,
    0x0000000000003828,
    0x0000000000007050,
    0x000000000000e0a0,
    0x000000000000c040,
    0x0000000000030203,
    0x0000000000070507,
    0x00000000000e0a0e,
    0x00000000001c141c,
    0x0000000000382838,
    0x0000000000705070,
    0x0000000000e0a0e0,
    0x0000000000c040c0,
    0x0000000003020300,
    0x0000000007050700,
    0x000000000e0a0e00,
    0x000000001c141c00,
    0x0000000038283800,
    0x0000000070507000,
    0x00000000e0a0e000,
    0x00000000c040c000,
    0x0000000302030000,
    0x0000000705070000,
    0x0000000e0a0e0000,
    0x0000001c141c0000,
    0x0000003828380000,
    0x0000007050700000,
    0x000000e0a0e00000,
    0x000000c040c00000,
    0x0000030203000000,
    0x0000070507000000,
    0x00000e0a0e000000,
    0x00001c141c000000,
    0x0000382838000000,
    0x0000705070000000,
    0x0000e0a0e0000000,
    0x0000c040c0000000,
    0x0003020300000000,
    0x0007050700000000,
    0x000e0a0e00000000,
    0x001c141c00000000,
    0x0038283800000000,
    0x0070507000000000,
    0x00e0a0e000000000,
    0x00c040c000000000,
    0x0302030000000000,
    0x0705070000000000,
    0x0e0a0e0000000000,
    0x1c141c0000000000,
    0x3828380000000000,
    0x7050700000000000,
    0xe0a0e00000000000,
    0xc040c00000000000,
    0x0203000000000000,
    0x0507000000000000,
    0x0a0e000000000000,
    0x141c000000000000,
    0x2838000000000000,
    0x5070000000000000,
    0xa0e0000000000000,
    0x40c0000000000000,
];

/// For each square, the set of squares a knight there can jump to.
pub const KNIGHT_BITBOARDS: [u64; 64] = [
    0x0000000000020400,
    0x0000000000050800,
    0x00000000000a1100,
    0x0000000000142200,
    0x0000000000284400,
    0x0000000000508800,
    0x0000000000a01000,
    0x0000000000402000,
    0x0000000002040004,
    0x0000000005080008,
    0x000000000a110011,
    0x0000000014220022,
    0x0000000028440044,
    0x0000000050880088,
    0x00000000a0100010,
    0x0000000040200020,
    0x0000000204000402,
    0x0000000508000805,
    0x0000000a1100110a,
    0x0000001422002214,
    0x0000002844004428,
    0x0000005088008850,
    0x000000a0100010a0,
    0x0000004020002040,
    0x0000020400040200,
    0x0000050800080500,
    0x00000a1100110a00,
    0x0000142200221400,
    0x0000284400442800,
    0x0000508800885000,
    0x0000a0100010a000,
    0x0000402000204000,
    0x0002040004020000,
    0x0005080008050000,
    0x000a1100110a0000,
    0x0014220022140000,
    0x0028440044280000,
    0x0050880088500000,
    0x00a0100010a00000,
    0x0040200020400000,
    0x0204000402000000,
    0x0508000805000000,
    0x0a1100110a000000,
    0x1422002214000000,
    0x2844004428000000,
    0x5088008850000000,
    0xa0100010a0000000,
    0x4020002040000000,
    0x0400040200000000,
    0x0800080500000000,
    0x1100110a00000000,
    0x2200221400000000,
    0x4400442800000000,
    0x8800885000000000,
    0x100010a000000000,
    0x2000204000000000,
    0x0004020000000000,
    0x0008050000000000,
    0x00110a0000000000,
    0x0022140000000000,
    0x0044280000000000,
    0x0088500000000000,
    0x0010a00000000000,
    0x0020400000000000,
];

/// For each square, every other square sharing a diagonal with it.
pub const BISHOP_MOVE_BITBOARDS: [u64; 64] = [
    0x8040201008040200,
    0x0080402010080500,
    0x0000804020110a00,
    0x0000008041221400,
    0x0000000182442800,
    0x0000010204885000,
    0x000102040810a000,
    0x0102040810204000,
    0x4020100804020002,
    0x8040201008050005,
    0x00804020110a000a,
    0x0000804122140014,
    0x0000018244280028,
    0x0001020488500050,
    0x0102040810a000a0,
    0x0204081020400040,
    0x2010080402000204,
    0x4020100805000508,
    0x804020110a000a11,
    0x0080412214001422,
    0x0001824428002844,
    0x0102048850005088,
    0x02040810a000a010,
    0x0408102040004020,
    0x1008040200020408,
    0x2010080500050810,
    0x4020110a000a1120,
    0x8041221400142241,
    0x0182442800284482,
    0x0204885000508804,
    0x040810a000a01008,
    0x0810204000402010,
    0x0804020002040810,
    0x1008050005081020,
    0x20110a000a112040,
    0x4122140014224180,
    0x8244280028448201,
    0x0488500050880402,
    0x0810a000a0100804,
    0x1020400040201008,
    0x0402000204081020,
    0x0805000508102040,
    0x110a000a11204080,
    0x2214001422418000,
    0x4428002844820100,
    0x8850005088040201,
    0x10a000a010080402,
    0x2040004020100804,
    0x0200020408102040,
    0x0500050810204080,
    0x0a000a1120408000,
    0x1400142241800000,
    0x2800284482010000,
    0x5000508804020100,
    0xa000a01008040201,
    0x4000402010080402,
    0x0002040810204080,
    0x0005081020408000,
    0x000a112040800000,
    0x0014224180000000,
    0x0028448201000000,
    0x0050880402010000,
    0x00a0100804020100,
    0x0040201008040201,
];

/// For each square, every other square sharing its rank or file.
pub const ROOK_MOVE_BITBOARDS: [u64; 64] = [
    0x01010101010101fe,
    0x02020202020202fd,
    0x04040404040404fb,
    0x08080808080808f7,
    0x10101010101010ef,
    0x20202020202020df,
    0x40404040404040bf,
    0x808080808080807f,
    0x010101010101fe01,
    0x020202020202fd02,
    0x040404040404fb04,
    0x080808080808f708,
    0x101010101010ef10,
    0x202020202020df20,
    0x404040404040bf40,
    0x8080808080807f80,
    0x0101010101fe0101,
    0x0202020202fd0202,
    0x0404040404fb0404,
    0x0808080808f70808,
    0x1010101010ef1010,
    0x2020202020df2020,
    0x4040404040bf4040,
    0x80808080807f8080,
    0x01010101fe010101,
    0x02020202fd020202,
    0x04040404fb040404,
    0x08080808f7080808,
    0x10101010ef101010,
    0x20202020df202020,
    0x40404040bf404040,
    0x808080807f808080,
    0x010101fe01010101,
    0x020202fd02020202,
    0x040404fb04040404,
    0x080808f708080808,
    0x101010ef10101010,
    0x202020df20202020,
    0x404040bf40404040,
    0x8080807f80808080,
    0x0101fe0101010101,
    0x0202fd0202020202,
    0x0404fb0404040404,
    0x0808f70808080808,
    0x1010ef1010101010,
    0x2020df2020202020,
    0x4040bf4040404040,
    0x80807f8080808080,
    0x01fe010101010101,
    0x02fd020202020202,
    0x04fb040404040404,
    0x08f7080808080808,
    0x10ef101010101010,
    0x20df202020202020,
    0x40bf404040404040,
    0x807f808080808080,
    0xfe01010101010101,
    0xfd02020202020202,
    0xfb04040404040404,
    0xf708080808080808,
    0xef10101010101010,
    0xdf20202020202020,
    0xbf40404040404040,
    0x7f80808080808080,
];

/// For each square, the squares from which a white pawn attacks it.
pub const WHITE_PAWN_CHECK_BITBOARDS: [u64; 64] = [
    0x0000000000000000,
    0x0000000000000100,
    0x0000000000000200,
    0x0000000000000400,
    0x0000000000000800,
    0x0000000000001000,
    0x0000000000002000,
    0x0000000000004000,
    0x0000000000000000,
    0x0000000000010001,
    0x0000000000020002,
    0x0000000000040004,
    0x0000000000080008,
    0x0000000000100010,
    0x0000000000200020,
    0x0000000000400040,
    0x0000000000000000,
    0x0000000001000100,
    0x0000000002000200,
    0x0000000004000400,
    0x0000000008000800,
    0x0000000010001000,
    0x0000000020002000,
    0x0000000040004000,
    0x0000000000000000,
    0x0000000100010000,
    0x0000000200020000,
    0x0000000400040000,
    0x0000000800080000,
    0x0000001000100000,
    0x0000002000200000,
    0x0000004000400000,
    0x0000000000000000,
    0x0000010001000000,
    0x0000020002000000,
    0x0000040004000000,
    0x0000080008000000,
    0x0000100010000000,
    0x0000200020000000,
    0x0000400040000000,
    0x0000000000000000,
    0x0001000100000000,
    0x0002000200000000,
    0x0004000400000000,
    0x0008000800000000,
    0x0010001000000000,
    0x0020002000000000,
    0x0040004000000000,
    0x0000000000000000,
    0x0100010000000000,
    0x0200020000000000,
    0x0400040000000000,
    0x0800080000000000,
    0x1000100000000000,
    0x2000200000000000,
    0x4000400000000000,
    0x0000000000000000,
    0x0001000000000000,
    0x0002000000000000,
    0x0004000000000000,
    0x0008000000000000,
    0x0010000000000000,
    0x0020000000000000,
    0x0040000000000000,
];

/// For each square, the squares from which a black pawn attacks it.
pub const BLACK_PAWN_CHECK_BITBOARDS: [u64; 64] = [
    0x0000000000000200,
    0x0000000000000400,
    0x0000000000000800,
    0x0000000000001000,
    0x0000000000002000,
    0x0000000000004000,
    0x0000000000008000,
    0x0000000000000000,
    0x0000000000020002,
    0x0000000000040004,
    0x0000000000080008,
    0x0000000000100010,
    0x0000000000200020,
    0x0000000000400040,
    0x0000000000800080,
    0x0000000000000000,
    0x0000000002000200,
    0x0000000004000400,
    0x0000000008000800,
    0x0000000010001000,
    0x0000000020002000,
    0x0000000040004000,
    0x0000000080008000,
    0x0000000000000000,
    0x0000000200020000,
    0x0000000400040000,
    0x0000000800080000,
    0x0000001000100000,
    0x0000002000200000,
    0x0000004000400000,
    0x0000008000800000,
    0x0000000000000000,
    0x0000020002000000,
    0x0000040004000000,
    0x0000080008000000,
    0x0000100010000000,
    0x0000200020000000,
    0x0000400040000000,
    0x0000800080000000,
    0x0000000000000000,
    0x0002000200000000,
    0x0004000400000000,
    0x0008000800000000,
    0x0010001000000000,
    0x0020002000000000,
    0x0040004000000000,
    0x0080008000000000,
    0x0000000000000000,
    0x0200020000000000,
    0x0400040000000000,
    0x0800080000000000,
    0x1000100000000000,
    0x2000200000000000,
    0x4000400000000000,
    0x8000800000000000,
    0x0000000000000000,
    0x0002000000000000,
    0x0004000000000000,
    0x0008000000000000,
    0x0010000000000000,
    0x0020000000000000,
    0x0040000000000000,
    0x0080000000000000,
    0x0000000000000000,
];

} // verus!
