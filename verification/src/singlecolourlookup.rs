//! Tables for blocks of a single colour: for every value of an 8-bit channel
//! the endpoints, in 5 or 6 bits, whose palette entry comes nearest to it.
//!
//! Each table gives one word for every target value, which holds two
//! answers. The first is for palette entry 0, the first endpoint itself:
//! there the second endpoint is always 0. The second is for palette entry 2,
//! the one between the endpoints: half way in the palette of three colours, a
//! third of the way in the palette of four. Read in hexadecimal, the digits
//! of a word are, from the left: two for the first endpoint of the first
//! answer, two for the first and two for the second endpoint of the second
//! answer, one for the distance of the first answer's palette entry from the
//! target and one for that of the second.

use vstd::prelude::*;

verus! {

/// The table for 5-bit endpoints, palette of three colours.
pub open spec fn table_5_3(target: u8) -> u32 {
    match target {
        0 => 0x00000000, 1 => 0x00000011,
        2 => 0x00000022, 3 => 0x00000131,
        4 => 0x00000140, 5 => 0x01000131,
        6 => 0x01000122, 7 => 0x01000211,
        8 => 0x01000200, 9 => 0x01000211,
        10 => 0x01000222, 11 => 0x01000331,
        12 => 0x01000340, 13 => 0x02000331,
        14 => 0x02000322, 15 => 0x02000411,
        16 => 0x02000400, 17 => 0x02000411,
        18 => 0x02000422, 19 => 0x02000531,
        20 => 0x02000540, 21 => 0x03000531,
        22 => 0x03000522, 23 => 0x03000611,
        24 => 0x03000600, 25 => 0x03000611,
        26 => 0x03000622, 27 => 0x03000731,
        28 => 0x03000740, 29 => 0x04000741,
        30 => 0x04000732, 31 => 0x04010721,
        32 => 0x04010710, 33 => 0x04000800,
        34 => 0x04000811, 35 => 0x04020721,
        36 => 0x04020730, 37 => 0x04000940,
        38 => 0x05000931, 39 => 0x05030721,
        40 => 0x05030710, 41 => 0x05000A00,
        42 => 0x05000A11, 43 => 0x05000A22,
        44 => 0x05000B31, 45 => 0x05000B40,
        46 => 0x06000B31, 47 => 0x06000B22,
        48 => 0x06000C11, 49 => 0x06000C00,
        50 => 0x06000C11, 51 => 0x06000C22,
        52 => 0x06000D31, 53 => 0x06000D40,
        54 => 0x07000D31, 55 => 0x07000D22,
        56 => 0x07000E11, 57 => 0x07000E00,
        58 => 0x07000E11, 59 => 0x07000E22,
        60 => 0x07000F31, 61 => 0x07000F40,
        62 => 0x08000F41, 63 => 0x08000F32,
        64 => 0x08010F21, 65 => 0x08010F10,
        66 => 0x08001000, 67 => 0x08001011,
        68 => 0x08020F21, 69 => 0x08020F30,
        70 => 0x08001140, 71 => 0x09001131,
        72 => 0x09030F21, 73 => 0x09030F10,
        74 => 0x09001200, 75 => 0x09001211,
        76 => 0x09001222, 77 => 0x09001331,
        78 => 0x09001340, 79 => 0x0A001331,
        80 => 0x0A001322, 81 => 0x0A001411,
        82 => 0x0A001400, 83 => 0x0A001411,
        84 => 0x0A001422, 85 => 0x0A001531,
        86 => 0x0A001540, 87 => 0x0B001531,
        88 => 0x0B001522, 89 => 0x0B001611,
        90 => 0x0B001600, 91 => 0x0B001611,
        92 => 0x0B001622, 93 => 0x0B001731,
        94 => 0x0B001740, 95 => 0x0C001741,
        96 => 0x0C001732, 97 => 0x0C011721,
        98 => 0x0C011710, 99 => 0x0C001800,
        100 => 0x0C001811, 101 => 0x0C021721,
        102 => 0x0C021730, 103 => 0x0C001940,
        104 => 0x0D001931, 105 => 0x0D031721,
        106 => 0x0D031710, 107 => 0x0D001A00,
        108 => 0x0D001A11, 109 => 0x0D001A22,
        110 => 0x0D001B31, 111 => 0x0D001B40,
        112 => 0x0E001B31, 113 => 0x0E001B22,
        114 => 0x0E001C11, 115 => 0x0E001C00,
        116 => 0x0E001C11, 117 => 0x0E001C22,
        118 => 0x0E001D31, 119 => 0x0E001D40,
        120 => 0x0F001D31, 121 => 0x0F001D22,
        122 => 0x0F001E11, 123 => 0x0F001E00,
        124 => 0x0F001E11, 125 => 0x0F001E22,
        126 => 0x0F001F31, 127 => 0x0F001F40,
        128 => 0x10001F41, 129 => 0x10001F32,
        130 => 0x10011F21, 131 => 0x10011F10,
        132 => 0x10041C00, 133 => 0x10041C11,
        134 => 0x10021F21, 135 => 0x10021F30,
        136 => 0x10041D40, 137 => 0x11041D31,
        138 => 0x11031F21, 139 => 0x11031F10,
        140 => 0x11041E00, 141 => 0x11041E11,
        142 => 0x11041E22, 143 => 0x11041F31,
        144 => 0x11041F40, 145 => 0x12041F31,
        146 => 0x12041F22, 147 => 0x12051F11,
        148 => 0x12051F00, 149 => 0x12051F11,
        150 => 0x12051F22, 151 => 0x12061F31,
        152 => 0x12061F40, 153 => 0x13061F31,
        154 => 0x13061F22, 155 => 0x13071F11,
        156 => 0x13071F00, 157 => 0x13071F11,
        158 => 0x13071F22, 159 => 0x13081F31,
        160 => 0x13081F40, 161 => 0x14081F41,
        162 => 0x14081F32, 163 => 0x14091F21,
        164 => 0x14091F10, 165 => 0x140C1C00,
        166 => 0x140C1C11, 167 => 0x140A1F21,
        168 => 0x140A1F30, 169 => 0x140C1D40,
        170 => 0x150C1D31, 171 => 0x150B1F21,
        172 => 0x150B1F10, 173 => 0x150C1E00,
        174 => 0x150C1E11, 175 => 0x150C1E22,
        176 => 0x150C1F31, 177 => 0x150C1F40,
        178 => 0x160C1F31, 179 => 0x160C1F22,
        180 => 0x160D1F11, 181 => 0x160D1F00,
        182 => 0x160D1F11, 183 => 0x160D1F22,
        184 => 0x160E1F31, 185 => 0x160E1F40,
        186 => 0x170E1F31, 187 => 0x170E1F22,
        188 => 0x170F1F11, 189 => 0x170F1F00,
        190 => 0x170F1F11, 191 => 0x170F1F22,
        192 => 0x17101F31, 193 => 0x17101F40,
        194 => 0x18101F41, 195 => 0x18101F32,
        196 => 0x18111F21, 197 => 0x18111F10,
        198 => 0x18141C00, 199 => 0x18141C11,
        200 => 0x18121F21, 201 => 0x18121F30,
        202 => 0x18141D40, 203 => 0x19141D31,
        204 => 0x19131F21, 205 => 0x19131F10,
        206 => 0x19141E00, 207 => 0x19141E11,
        208 => 0x19141E22, 209 => 0x19141F31,
        210 => 0x19141F40, 211 => 0x1A141F31,
        212 => 0x1A141F22, 213 => 0x1A151F11,
        214 => 0x1A151F00, 215 => 0x1A151F11,
        216 => 0x1A151F22, 217 => 0x1A161F31,
        218 => 0x1A161F40, 219 => 0x1B161F31,
        220 => 0x1B161F22, 221 => 0x1B171F11,
        222 => 0x1B171F00, 223 => 0x1B171F11,
        224 => 0x1B171F22, 225 => 0x1B181F31,
        226 => 0x1B181F40, 227 => 0x1C181F41,
        228 => 0x1C181F32, 229 => 0x1C191F21,
        230 => 0x1C191F10, 231 => 0x1C1C1C00,
        232 => 0x1C1C1C11, 233 => 0x1C1A1F21,
        234 => 0x1C1A1F30, 235 => 0x1C1C1D40,
        236 => 0x1D1C1D31, 237 => 0x1D1B1F21,
        238 => 0x1D1B1F10, 239 => 0x1D1C1E00,
        240 => 0x1D1C1E11, 241 => 0x1D1C1E22,
        242 => 0x1D1C1F31, 243 => 0x1D1C1F40,
        244 => 0x1E1C1F31, 245 => 0x1E1C1F22,
        246 => 0x1E1D1F11, 247 => 0x1E1D1F00,
        248 => 0x1E1D1F11, 249 => 0x1E1D1F22,
        250 => 0x1E1E1F31, 251 => 0x1E1E1F40,
        252 => 0x1F1E1F31, 253 => 0x1F1E1F22,
        254 => 0x1F1F1F11, 255 => 0x1F1F1F00,
    }
}

/// Looks a target value up in the table for 5-bit endpoints, palette of three colours.
pub fn lookup_5_3(target: u8) -> (word: u32)
    ensures
        word == table_5_3(target),
{
    match target {
        0 => 0x00000000, 1 => 0x00000011,
        2 => 0x00000022, 3 => 0x00000131,
        4 => 0x00000140, 5 => 0x01000131,
        6 => 0x01000122, 7 => 0x01000211,
        8 => 0x01000200, 9 => 0x01000211,
        10 => 0x01000222, 11 => 0x01000331,
        12 => 0x01000340, 13 => 0x02000331,
        14 => 0x02000322, 15 => 0x02000411,
        16 => 0x02000400, 17 => 0x02000411,
        18 => 0x02000422, 19 => 0x02000531,
        20 => 0x02000540, 21 => 0x03000531,
        22 => 0x03000522, 23 => 0x03000611,
        24 => 0x03000600, 25 => 0x03000611,
        26 => 0x03000622, 27 => 0x03000731,
        28 => 0x03000740, 29 => 0x04000741,
        30 => 0x04000732, 31 => 0x04010721,
        32 => 0x04010710, 33 => 0x04000800,
        34 => 0x04000811, 35 => 0x04020721,
        36 => 0x04020730, 37 => 0x04000940,
        38 => 0x05000931, 39 => 0x05030721,
        40 => 0x05030710, 41 => 0x05000A00,
        42 => 0x05000A11, 43 => 0x05000A22,
        44 => 0x05000B31, 45 => 0x05000B40,
        46 => 0x06000B31, 47 => 0x06000B22,
        48 => 0x06000C11, 49 => 0x06000C00,
        50 => 0x06000C11, 51 => 0x06000C22,
        52 => 0x06000D31, 53 => 0x06000D40,
        54 => 0x07000D31, 55 => 0x07000D22,
        56 => 0x07000E11, 57 => 0x07000E00,
        58 => 0x07000E11, 59 => 0x07000E22,
        60 => 0x07000F31, 61 => 0x07000F40,
        62 => 0x08000F41, 63 => 0x08000F32,
        64 => 0x08010F21, 65 => 0x08010F10,
        66 => 0x08001000, 67 => 0x08001011,
        68 => 0x08020F21, 69 => 0x08020F30,
        70 => 0x08001140, 71 => 0x09001131,
        72 => 0x09030F21, 73 => 0x09030F10,
        74 => 0x09001200, 75 => 0x09001211,
        76 => 0x09001222, 77 => 0x09001331,
        78 => 0x09001340, 79 => 0x0A001331,
        80 => 0x0A001322, 81 => 0x0A001411,
        82 => 0x0A001400, 83 => 0x0A001411,
        84 => 0x0A001422, 85 => 0x0A001531,
        86 => 0x0A001540, 87 => 0x0B001531,
        88 => 0x0B001522, 89 => 0x0B001611,
        90 => 0x0B001600, 91 => 0x0B001611,
        92 => 0x0B001622, 93 => 0x0B001731,
        94 => 0x0B001740, 95 => 0x0C001741,
        96 => 0x0C001732, 97 => 0x0C011721,
        98 => 0x0C011710, 99 => 0x0C001800,
        100 => 0x0C001811, 101 => 0x0C021721,
        102 => 0x0C021730, 103 => 0x0C001940,
        104 => 0x0D001931, 105 => 0x0D031721,
        106 => 0x0D031710, 107 => 0x0D001A00,
        108 => 0x0D001A11, 109 => 0x0D001A22,
        110 => 0x0D001B31, 111 => 0x0D001B40,
        112 => 0x0E001B31, 113 => 0x0E001B22,
        114 => 0x0E001C11, 115 => 0x0E001C00,
        116 => 0x0E001C11, 117 => 0x0E001C22,
        118 => 0x0E001D31, 119 => 0x0E001D40,
        120 => 0x0F001D31, 121 => 0x0F001D22,
        122 => 0x0F001E11, 123 => 0x0F001E00,
        124 => 0x0F001E11, 125 => 0x0F001E22,
        126 => 0x0F001F31, 127 => 0x0F001F40,
        128 => 0x10001F41, 129 => 0x10001F32,
        130 => 0x10011F21, 131 => 0x10011F10,
        132 => 0x10041C00, 133 => 0x10041C11,
        134 => 0x10021F21, 135 => 0x10021F30,
        136 => 0x10041D40, 137 => 0x11041D31,
        138 => 0x11031F21, 139 => 0x11031F10,
        140 => 0x11041E00, 141 => 0x11041E11,
        142 => 0x11041E22, 143 => 0x11041F31,
        144 => 0x11041F40, 145 => 0x12041F31,
        146 => 0x12041F22, 147 => 0x12051F11,
        148 => 0x12051F00, 149 => 0x12051F11,
        150 => 0x12051F22, 151 => 0x12061F31,
        152 => 0x12061F40, 153 => 0x13061F31,
        154 => 0x13061F22, 155 => 0x13071F11,
        156 => 0x13071F00, 157 => 0x13071F11,
        158 => 0x13071F22, 159 => 0x13081F31,
        160 => 0x13081F40, 161 => 0x14081F41,
        162 => 0x14081F32, 163 => 0x14091F21,
        164 => 0x14091F10, 165 => 0x140C1C00,
        166 => 0x140C1C11, 167 => 0x140A1F21,
        168 => 0x140A1F30, 169 => 0x140C1D40,
        170 => 0x150C1D31, 171 => 0x150B1F21,
        172 => 0x150B1F10, 173 => 0x150C1E00,
        174 => 0x150C1E11, 175 => 0x150C1E22,
        176 => 0x150C1F31, 177 => 0x150C1F40,
        178 => 0x160C1F31, 179 => 0x160C1F22,
        180 => 0x160D1F11, 181 => 0x160D1F00,
        182 => 0x160D1F11, 183 => 0x160D1F22,
        184 => 0x160E1F31, 185 => 0x160E1F40,
        186 => 0x170E1F31, 187 => 0x170E1F22,
        188 => 0x170F1F11, 189 => 0x170F1F00,
        190 => 0x170F1F11, 191 => 0x170F1F22,
        192 => 0x17101F31, 193 => 0x17101F40,
        194 => 0x18101F41, 195 => 0x18101F32,
        196 => 0x18111F21, 197 => 0x18111F10,
        198 => 0x18141C00, 199 => 0x18141C11,
        200 => 0x18121F21, 201 => 0x18121F30,
        202 => 0x18141D40, 203 => 0x19141D31,
        204 => 0x19131F21, 205 => 0x19131F10,
        206 => 0x19141E00, 207 => 0x19141E11,
        208 => 0x19141E22, 209 => 0x19141F31,
        210 => 0x19141F40, 211 => 0x1A141F31,
        212 => 0x1A141F22, 213 => 0x1A151F11,
        214 => 0x1A151F00, 215 => 0x1A151F11,
        216 => 0x1A151F22, 217 => 0x1A161F31,
        218 => 0x1A161F40, 219 => 0x1B161F31,
        220 => 0x1B161F22, 221 => 0x1B171F11,
        222 => 0x1B171F00, 223 => 0x1B171F11,
        224 => 0x1B171F22, 225 => 0x1B181F31,
        226 => 0x1B181F40, 227 => 0x1C181F41,
        228 => 0x1C181F32, 229 => 0x1C191F21,
        230 => 0x1C191F10, 231 => 0x1C1C1C00,
        232 => 0x1C1C1C11, 233 => 0x1C1A1F21,
        234 => 0x1C1A1F30, 235 => 0x1C1C1D40,
        236 => 0x1D1C1D31, 237 => 0x1D1B1F21,
        238 => 0x1D1B1F10, 239 => 0x1D1C1E00,
        240 => 0x1D1C1E11, 241 => 0x1D1C1E22,
        242 => 0x1D1C1F31, 243 => 0x1D1C1F40,
        244 => 0x1E1C1F31, 245 => 0x1E1C1F22,
        246 => 0x1E1D1F11, 247 => 0x1E1D1F00,
        248 => 0x1E1D1F11, 249 => 0x1E1D1F22,
        250 => 0x1E1E1F31, 251 => 0x1E1E1F40,
        252 => 0x1F1E1F31, 253 => 0x1F1E1F22,
        254 => 0x1F1F1F11, 255 => 0x1F1F1F00,
    }
}

/// The table for 6-bit endpoints, palette of three colours.
pub open spec fn table_6_3(target: u8) -> u32 {
    match target {
        0 => 0x00000000, 1 => 0x00000111,
        2 => 0x00000120, 3 => 0x01000211,
        4 => 0x01000200, 5 => 0x01000311,
        6 => 0x01000320, 7 => 0x02000411,
        8 => 0x02000400, 9 => 0x02000511,
        10 => 0x02000520, 11 => 0x03000611,
        12 => 0x03000600, 13 => 0x03000711,
        14 => 0x03000720, 15 => 0x04000811,
        16 => 0x04000800, 17 => 0x04000911,
        18 => 0x04000920, 19 => 0x05000A11,
        20 => 0x05000A00, 21 => 0x05000B11,
        22 => 0x05000B20, 23 => 0x06000C11,
        24 => 0x06000C00, 25 => 0x06000D11,
        26 => 0x06000D20, 27 => 0x07000E11,
        28 => 0x07000E00, 29 => 0x07000F11,
        30 => 0x07000F20, 31 => 0x08001011,
        32 => 0x08001000, 33 => 0x08001111,
        34 => 0x08001120, 35 => 0x09001211,
        36 => 0x09001200, 37 => 0x09001311,
        38 => 0x09001320, 39 => 0x0A001411,
        40 => 0x0A001400, 41 => 0x0A001511,
        42 => 0x0A001520, 43 => 0x0B001611,
        44 => 0x0B001600, 45 => 0x0B001711,
        46 => 0x0B001720, 47 => 0x0C001811,
        48 => 0x0C001800, 49 => 0x0C001911,
        50 => 0x0C001920, 51 => 0x0D001A11,
        52 => 0x0D001A00, 53 => 0x0D001B11,
        54 => 0x0D001B20, 55 => 0x0E001C11,
        56 => 0x0E001C00, 57 => 0x0E001D11,
        58 => 0x0E001D20, 59 => 0x0F001E11,
        60 => 0x0F001E00, 61 => 0x0F001F11,
        62 => 0x0F001F20, 63 => 0x10011F21,
        64 => 0x10011F10, 65 => 0x10002000,
        66 => 0x10021F10, 67 => 0x10002120,
        68 => 0x11031F10, 69 => 0x11002200,
        70 => 0x11041F10, 71 => 0x11002320,
        72 => 0x12051F10, 73 => 0x12002400,
        74 => 0x12061F10, 75 => 0x12002520,
        76 => 0x13071F10, 77 => 0x13002600,
        78 => 0x13081F10, 79 => 0x13002720,
        80 => 0x14091F10, 81 => 0x14002800,
        82 => 0x140A1F10, 83 => 0x14002920,
        84 => 0x150B1F10, 85 => 0x15002A00,
        86 => 0x150C1F10, 87 => 0x15002B20,
        88 => 0x160D1F10, 89 => 0x16002C00,
        90 => 0x160E1F10, 91 => 0x16002D20,
        92 => 0x170F1F10, 93 => 0x17002E00,
        94 => 0x17002F11, 95 => 0x17002F20,
        96 => 0x18003011, 97 => 0x18003000,
        98 => 0x18003111, 99 => 0x18003120,
        100 => 0x19003211, 101 => 0x19003200,
        102 => 0x19003311, 103 => 0x19003320,
        104 => 0x1A003411, 105 => 0x1A003400,
        106 => 0x1A003511, 107 => 0x1A003520,
        108 => 0x1B003611, 109 => 0x1B003600,
        110 => 0x1B003711, 111 => 0x1B003720,
        112 => 0x1C003811, 113 => 0x1C003800,
        114 => 0x1C003911, 115 => 0x1C003920,
        116 => 0x1D003A11, 117 => 0x1D003A00,
        118 => 0x1D003B11, 119 => 0x1D003B20,
        120 => 0x1E003C11, 121 => 0x1E003C00,
        122 => 0x1E003D11, 123 => 0x1E003D20,
        124 => 0x1F003E11, 125 => 0x1F003E00,
        126 => 0x1F003F11, 127 => 0x1F003F20,
        128 => 0x20013F21, 129 => 0x20013F10,
        130 => 0x20103000, 131 => 0x20023F10,
        132 => 0x20103120, 133 => 0x21033F10,
        134 => 0x21103200, 135 => 0x21043F10,
        136 => 0x21103320, 137 => 0x22053F10,
        138 => 0x22103400, 139 => 0x22063F10,
        140 => 0x22103520, 141 => 0x23073F10,
        142 => 0x23103600, 143 => 0x23083F10,
        144 => 0x23103720, 145 => 0x24093F10,
        146 => 0x24103800, 147 => 0x240A3F10,
        148 => 0x24103920, 149 => 0x250B3F10,
        150 => 0x25103A00, 151 => 0x250C3F10,
        152 => 0x25103B20, 153 => 0x260D3F10,
        154 => 0x26103C00, 155 => 0x260E3F10,
        156 => 0x26103D20, 157 => 0x270F3F10,
        158 => 0x27103E00, 159 => 0x27103F11,
        160 => 0x27103F20, 161 => 0x28113F11,
        162 => 0x28113F00, 163 => 0x28123F11,
        164 => 0x28123F20, 165 => 0x29133F11,
        166 => 0x29133F00, 167 => 0x29143F11,
        168 => 0x29143F20, 169 => 0x2A153F11,
        170 => 0x2A153F00, 171 => 0x2A163F11,
        172 => 0x2A163F20, 173 => 0x2B173F11,
        174 => 0x2B173F00, 175 => 0x2B183F11,
        176 => 0x2B183F20, 177 => 0x2C193F11,
        178 => 0x2C193F00, 179 => 0x2C1A3F11,
        180 => 0x2C1A3F20, 181 => 0x2D1B3F11,
        182 => 0x2D1B3F00, 183 => 0x2D1C3F11,
        184 => 0x2D1C3F20, 185 => 0x2E1D3F11,
        186 => 0x2E1D3F00, 187 => 0x2E1E3F11,
        188 => 0x2E1E3F20, 189 => 0x2F1F3F11,
        190 => 0x2F1F3F00, 191 => 0x2F203F11,
        192 => 0x2F203F20, 193 => 0x30213F21,
        194 => 0x30213F10, 195 => 0x30303000,
        196 => 0x30223F10, 197 => 0x30303120,
        198 => 0x31233F10, 199 => 0x31303200,
        200 => 0x31243F10, 201 => 0x31303320,
        202 => 0x32253F10, 203 => 0x32303400,
        204 => 0x32263F10, 205 => 0x32303520,
        206 => 0x33273F10, 207 => 0x33303600,
        208 => 0x33283F10, 209 => 0x33303720,
        210 => 0x34293F10, 211 => 0x34303800,
        212 => 0x342A3F10, 213 => 0x34303920,
        214 => 0x352B3F10, 215 => 0x35303A00,
        216 => 0x352C3F10, 217 => 0x35303B20,
        218 => 0x362D3F10, 219 => 0x36303C00,
        220 => 0x362E3F10, 221 => 0x36303D20,
        222 => 0x372F3F10, 223 => 0x37303E00,
        224 => 0x37303F11, 225 => 0x37303F20,
        226 => 0x38313F11, 227 => 0x38313F00,
        228 => 0x38323F11, 229 => 0x38323F20,
        230 => 0x39333F11, 231 => 0x39333F00,
        232 => 0x39343F11, 233 => 0x39343F20,
        234 => 0x3A353F11, 235 => 0x3A353F00,
        236 => 0x3A363F11, 237 => 0x3A363F20,
        238 => 0x3B373F11, 239 => 0x3B373F00,
        240 => 0x3B383F11, 241 => 0x3B383F20,
        242 => 0x3C393F11, 243 => 0x3C393F00,
        244 => 0x3C3A3F11, 245 => 0x3C3A3F20,
        246 => 0x3D3B3F11, 247 => 0x3D3B3F00,
        248 => 0x3D3C3F11, 249 => 0x3D3C3F20,
        250 => 0x3E3D3F11, 251 => 0x3E3D3F00,
        252 => 0x3E3E3F11, 253 => 0x3E3E3F20,
        254 => 0x3F3F3F11, 255 => 0x3F3F3F00,
    }
}

/// Looks a target value up in the table for 6-bit endpoints, palette of three colours.
pub fn lookup_6_3(target: u8) -> (word: u32)
    ensures
        word == table_6_3(target),
{
    match target {
        0 => 0x00000000, 1 => 0x00000111,
        2 => 0x00000120, 3 => 0x01000211,
        4 => 0x01000200, 5 => 0x01000311,
        6 => 0x01000320, 7 => 0x02000411,
        8 => 0x02000400, 9 => 0x02000511,
        10 => 0x02000520, 11 => 0x03000611,
        12 => 0x03000600, 13 => 0x03000711,
        14 => 0x03000720, 15 => 0x04000811,
        16 => 0x04000800, 17 => 0x04000911,
        18 => 0x04000920, 19 => 0x05000A11,
        20 => 0x05000A00, 21 => 0x05000B11,
        22 => 0x05000B20, 23 => 0x06000C11,
        24 => 0x06000C00, 25 => 0x06000D11,
        26 => 0x06000D20, 27 => 0x07000E11,
        28 => 0x07000E00, 29 => 0x07000F11,
        30 => 0x07000F20, 31 => 0x08001011,
        32 => 0x08001000, 33 => 0x08001111,
        34 => 0x08001120, 35 => 0x09001211,
        36 => 0x09001200, 37 => 0x09001311,
        38 => 0x09001320, 39 => 0x0A001411,
        40 => 0x0A001400, 41 => 0x0A001511,
        42 => 0x0A001520, 43 => 0x0B001611,
        44 => 0x0B001600, 45 => 0x0B001711,
        46 => 0x0B001720, 47 => 0x0C001811,
        48 => 0x0C001800, 49 => 0x0C001911,
        50 => 0x0C001920, 51 => 0x0D001A11,
        52 => 0x0D001A00, 53 => 0x0D001B11,
        54 => 0x0D001B20, 55 => 0x0E001C11,
        56 => 0x0E001C00, 57 => 0x0E001D11,
        58 => 0x0E001D20, 59 => 0x0F001E11,
        60 => 0x0F001E00, 61 => 0x0F001F11,
        62 => 0x0F001F20, 63 => 0x10011F21,
        64 => 0x10011F10, 65 => 0x10002000,
        66 => 0x10021F10, 67 => 0x10002120,
        68 => 0x11031F10, 69 => 0x11002200,
        70 => 0x11041F10, 71 => 0x11002320,
        72 => 0x12051F10, 73 => 0x12002400,
        74 => 0x12061F10, 75 => 0x12002520,
        76 => 0x13071F10, 77 => 0x13002600,
        78 => 0x13081F10, 79 => 0x13002720,
        80 => 0x14091F10, 81 => 0x14002800,
        82 => 0x140A1F10, 83 => 0x14002920,
        84 => 0x150B1F10, 85 => 0x15002A00,
        86 => 0x150C1F10, 87 => 0x15002B20,
        88 => 0x160D1F10, 89 => 0x16002C00,
        90 => 0x160E1F10, 91 => 0x16002D20,
        92 => 0x170F1F10, 93 => 0x17002E00,
        94 => 0x17002F11, 95 => 0x17002F20,
        96 => 0x18003011, 97 => 0x18003000,
        98 => 0x18003111, 99 => 0x18003120,
        100 => 0x19003211, 101 => 0x19003200,
        102 => 0x19003311, 103 => 0x19003320,
        104 => 0x1A003411, 105 => 0x1A003400,
        106 => 0x1A003511, 107 => 0x1A003520,
        108 => 0x1B003611, 109 => 0x1B003600,
        110 => 0x1B003711, 111 => 0x1B003720,
        112 => 0x1C003811, 113 => 0x1C003800,
        114 => 0x1C003911, 115 => 0x1C003920,
        116 => 0x1D003A11, 117 => 0x1D003A00,
        118 => 0x1D003B11, 119 => 0x1D003B20,
        120 => 0x1E003C11, 121 => 0x1E003C00,
        122 => 0x1E003D11, 123 => 0x1E003D20,
        124 => 0x1F003E11, 125 => 0x1F003E00,
        126 => 0x1F003F11, 127 => 0x1F003F20,
        128 => 0x20013F21, 129 => 0x20013F10,
        130 => 0x20103000, 131 => 0x20023F10,
        132 => 0x20103120, 133 => 0x21033F10,
        134 => 0x21103200, 135 => 0x21043F10,
        136 => 0x21103320, 137 => 0x22053F10,
        138 => 0x22103400, 139 => 0x22063F10,
        140 => 0x22103520, 141 => 0x23073F10,
        142 => 0x23103600, 143 => 0x23083F10,
        144 => 0x23103720, 145 => 0x24093F10,
        146 => 0x24103800, 147 => 0x240A3F10,
        148 => 0x24103920, 149 => 0x250B3F10,
        150 => 0x25103A00, 151 => 0x250C3F10,
        152 => 0x25103B20, 153 => 0x260D3F10,
        154 => 0x26103C00, 155 => 0x260E3F10,
        156 => 0x26103D20, 157 => 0x270F3F10,
        158 => 0x27103E00, 159 => 0x27103F11,
        160 => 0x27103F20, 161 => 0x28113F11,
        162 => 0x28113F00, 163 => 0x28123F11,
        164 => 0x28123F20, 165 => 0x29133F11,
        166 => 0x29133F00, 167 => 0x29143F11,
        168 => 0x29143F20, 169 => 0x2A153F11,
        170 => 0x2A153F00, 171 => 0x2A163F11,
        172 => 0x2A163F20, 173 => 0x2B173F11,
        174 => 0x2B173F00, 175 => 0x2B183F11,
        176 => 0x2B183F20, 177 => 0x2C193F11,
        178 => 0x2C193F00, 179 => 0x2C1A3F11,
        180 => 0x2C1A3F20, 181 => 0x2D1B3F11,
        182 => 0x2D1B3F00, 183 => 0x2D1C3F11,
        184 => 0x2D1C3F20, 185 => 0x2E1D3F11,
        186 => 0x2E1D3F00, 187 => 0x2E1E3F11,
        188 => 0x2E1E3F20, 189 => 0x2F1F3F11,
        190 => 0x2F1F3F00, 191 => 0x2F203F11,
        192 => 0x2F203F20, 193 => 0x30213F21,
        194 => 0x30213F10, 195 => 0x30303000,
        196 => 0x30223F10, 197 => 0x30303120,
        198 => 0x31233F10, 199 => 0x31303200,
        200 => 0x31243F10, 201 => 0x31303320,
        202 => 0x32253F10, 203 => 0x32303400,
        204 => 0x32263F10, 205 => 0x32303520,
        206 => 0x33273F10, 207 => 0x33303600,
        208 => 0x33283F10, 209 => 0x33303720,
        210 => 0x34293F10, 211 => 0x34303800,
        212 => 0x342A3F10, 213 => 0x34303920,
        214 => 0x352B3F10, 215 => 0x35303A00,
        216 => 0x352C3F10, 217 => 0x35303B20,
        218 => 0x362D3F10, 219 => 0x36303C00,
        220 => 0x362E3F10, 221 => 0x36303D20,
        222 => 0x372F3F10, 223 => 0x37303E00,
        224 => 0x37303F11, 225 => 0x37303F20,
        226 => 0x38313F11, 227 => 0x38313F00,
        228 => 0x38323F11, 229 => 0x38323F20,
        230 => 0x39333F11, 231 => 0x39333F00,
        232 => 0x39343F11, 233 => 0x39343F20,
        234 => 0x3A353F11, 235 => 0x3A353F00,
        236 => 0x3A363F11, 237 => 0x3A363F20,
        238 => 0x3B373F11, 239 => 0x3B373F00,
        240 => 0x3B383F11, 241 => 0x3B383F20,
        242 => 0x3C393F11, 243 => 0x3C393F00,
        244 => 0x3C3A3F11, 245 => 0x3C3A3F20,
        246 => 0x3D3B3F11, 247 => 0x3D3B3F00,
        248 => 0x3D3C3F11, 249 => 0x3D3C3F20,
        250 => 0x3E3D3F11, 251 => 0x3E3D3F00,
        252 => 0x3E3E3F11, 253 => 0x3E3E3F20,
        254 => 0x3F3F3F11, 255 => 0x3F3F3F00,
    }
}

/// The table for 5-bit endpoints, palette of four colours.
pub open spec fn table_5_4(target: u8) -> u32 {
    match target {
        0 => 0x00000000, 1 => 0x00000111,
        2 => 0x00000120, 3 => 0x00000131,
        4 => 0x00000241, 5 => 0x01000230,
        6 => 0x01000221, 7 => 0x01000311,
        8 => 0x01000300, 9 => 0x01010211,
        10 => 0x01010220, 11 => 0x01000430,
        12 => 0x01000541, 13 => 0x02000530,
        14 => 0x02000521, 15 => 0x02000611,
        16 => 0x02000600, 17 => 0x02020311,
        18 => 0x02020320, 19 => 0x02000730,
        20 => 0x02010641, 21 => 0x03010630,
        22 => 0x03000820, 23 => 0x03000911,
        24 => 0x03000900, 25 => 0x03000911,
        26 => 0x03000A21, 27 => 0x03000A30,
        28 => 0x03020741, 29 => 0x04020740,
        30 => 0x04000B30, 31 => 0x04010A21,
        32 => 0x04010A10, 33 => 0x04000C00,
        34 => 0x04000D11, 35 => 0x04000D20,
        36 => 0x04000D31, 37 => 0x04000E41,
        38 => 0x05000E30, 39 => 0x05020B21,
        40 => 0x05020B10, 41 => 0x05000F00,
        42 => 0x05010E11, 43 => 0x05010E20,
        44 => 0x05001030, 45 => 0x05001141,
        46 => 0x06001130, 47 => 0x06001121,
        48 => 0x06001211, 49 => 0x06001200,
        50 => 0x06020F11, 51 => 0x06020F20,
        52 => 0x06001330, 53 => 0x06011241,
        54 => 0x07011230, 55 => 0x07001420,
        56 => 0x07001511, 57 => 0x07001500,
        58 => 0x07001511, 59 => 0x07001621,
        60 => 0x07001630, 61 => 0x07021341,
        62 => 0x08021340, 63 => 0x08001730,
        64 => 0x08011621, 65 => 0x08011610,
        66 => 0x08001800, 67 => 0x08001911,
        68 => 0x08001920, 69 => 0x08001931,
        70 => 0x08001A41, 71 => 0x09001A30,
        72 => 0x09021721, 73 => 0x09021710,
        74 => 0x09001B00, 75 => 0x09011A11,
        76 => 0x09011A20, 77 => 0x09001C30,
        78 => 0x09001D41, 79 => 0x0A001D30,
        80 => 0x0A001D21, 81 => 0x0A001E11,
        82 => 0x0A001E00, 83 => 0x0A021B11,
        84 => 0x0A021B20, 85 => 0x0A001F30,
        86 => 0x0A011E41, 87 => 0x0B011E30,
        88 => 0x0B041820, 89 => 0x0B011F11,
        90 => 0x0B011F00, 91 => 0x0B011F11,
        92 => 0x0B021E21, 93 => 0x0B021E30,
        94 => 0x0B021F41, 95 => 0x0C021F40,
        96 => 0x0C041B30, 97 => 0x0C031E21,
        98 => 0x0C031E10, 99 => 0x0C041C00,
        100 => 0x0C031F11, 101 => 0x0C031F20,
        102 => 0x0C031F31, 103 => 0x0C041E41,
        104 => 0x0D041E30, 105 => 0x0D061B21,
        106 => 0x0D061B10, 107 => 0x0D041F00,
        108 => 0x0D051E11, 109 => 0x0D051E20,
        110 => 0x0D081830, 111 => 0x0D051F41,
        112 => 0x0E051F30, 113 => 0x0E051F21,
        114 => 0x0E061E11, 115 => 0x0E061E00,
        116 => 0x0E061F11, 117 => 0x0E061F20,
        118 => 0x0E081B30, 119 => 0x0E071E41,
        120 => 0x0F071E30, 121 => 0x0F081C20,
        122 => 0x0F071F11, 123 => 0x0F071F00,
        124 => 0x0F071F11, 125 => 0x0F081E21,
        126 => 0x0F081E30, 127 => 0x0F0A1B41,
        128 => 0x100A1B40, 129 => 0x10081F30,
        130 => 0x10091E21, 131 => 0x10091E10,
        132 => 0x100C1800, 133 => 0x10091F11,
        134 => 0x10091F20, 135 => 0x10091F31,
        136 => 0x100A1E41, 137 => 0x110A1E30,
        138 => 0x110A1F21, 139 => 0x110A1F10,
        140 => 0x110C1B00, 141 => 0x110B1E11,
        142 => 0x110B1E20, 143 => 0x110C1C30,
        144 => 0x110B1F41, 145 => 0x120B1F30,
        146 => 0x120B1F21, 147 => 0x120C1E11,
        148 => 0x120C1E00, 149 => 0x120E1B11,
        150 => 0x120E1B20, 151 => 0x120C1F30,
        152 => 0x120D1E41, 153 => 0x130D1E30,
        154 => 0x13101820, 155 => 0x130D1F11,
        156 => 0x130D1F00, 157 => 0x130D1F11,
        158 => 0x130E1E21, 159 => 0x130E1E30,
        160 => 0x130E1F41, 161 => 0x140E1F40,
        162 => 0x14101B30, 163 => 0x140F1E21,
        164 => 0x140F1E10, 165 => 0x14101C00,
        166 => 0x140F1F11, 167 => 0x140F1F20,
        168 => 0x140F1F31, 169 => 0x14101E41,
        170 => 0x15101E30, 171 => 0x15121B21,
        172 => 0x15121B10, 173 => 0x15101F00,
        174 => 0x15111E11, 175 => 0x15111E20,
        176 => 0x15141830, 177 => 0x15111F41,
        178 => 0x16111F30, 179 => 0x16111F21,
        180 => 0x16121E11, 181 => 0x16121E00,
        182 => 0x16121F11, 183 => 0x16121F20,
        184 => 0x16141B30, 185 => 0x16131E41,
        186 => 0x17131E30, 187 => 0x17141C20,
        188 => 0x17131F11, 189 => 0x17131F00,
        190 => 0x17131F11, 191 => 0x17141E21,
        192 => 0x17141E30, 193 => 0x17161B41,
        194 => 0x18161B40, 195 => 0x18141F30,
        196 => 0x18151E21, 197 => 0x18151E10,
        198 => 0x18181800, 199 => 0x18151F11,
        200 => 0x18151F20, 201 => 0x18151F31,
        202 => 0x18161E41, 203 => 0x19161E30,
        204 => 0x19161F21, 205 => 0x19161F10,
        206 => 0x19181B00, 207 => 0x19171E11,
        208 => 0x19171E20, 209 => 0x19181C30,
        210 => 0x19171F41, 211 => 0x1A171F30,
        212 => 0x1A171F21, 213 => 0x1A181E11,
        214 => 0x1A181E00, 215 => 0x1A1A1B11,
        216 => 0x1A1A1B20, 217 => 0x1A181F30,
        218 => 0x1A191E41, 219 => 0x1B191E30,
        220 => 0x1B1C1820, 221 => 0x1B191F11,
        222 => 0x1B191F00, 223 => 0x1B191F11,
        224 => 0x1B1A1E21, 225 => 0x1B1A1E30,
        226 => 0x1B1A1F41, 227 => 0x1C1A1F40,
        228 => 0x1C1C1B30, 229 => 0x1C1B1E21,
        230 => 0x1C1B1E10, 231 => 0x1C1C1C00,
        232 => 0x1C1B1F11, 233 => 0x1C1B1F20,
        234 => 0x1C1B1F31, 235 => 0x1C1C1E41,
        236 => 0x1D1C1E30, 237 => 0x1D1E1B21,
        238 => 0x1D1E1B10, 239 => 0x1D1C1F00,
        240 => 0x1D1D1E11, 241 => 0x1D1D1E20,
        242 => 0x1D1D1E31, 243 => 0x1D1D1F41,
        244 => 0x1E1D1F30, 245 => 0x1E1D1F21,
        246 => 0x1E1E1E11, 247 => 0x1E1E1E00,
        248 => 0x1E1E1F11, 249 => 0x1E1E1F20,
        250 => 0x1E1E1F31, 251 => 0x1E1F1E41,
        252 => 0x1F1F1E30, 253 => 0x1F1F1E21,
        254 => 0x1F1F1F11, 255 => 0x1F1F1F00,
    }
}

/// Looks a target value up in the table for 5-bit endpoints, palette of four colours.
pub fn lookup_5_4(target: u8) -> (word: u32)
    ensures
        word == table_5_4(target),
{
    match target {
        0 => 0x00000000, 1 => 0x00000111,
        2 => 0x00000120, 3 => 0x00000131,
        4 => 0x00000241, 5 => 0x01000230,
        6 => 0x01000221, 7 => 0x01000311,
        8 => 0x01000300, 9 => 0x01010211,
        10 => 0x01010220, 11 => 0x01000430,
        12 => 0x01000541, 13 => 0x02000530,
        14 => 0x02000521, 15 => 0x02000611,
        16 => 0x02000600, 17 => 0x02020311,
        18 => 0x02020320, 19 => 0x02000730,
        20 => 0x02010641, 21 => 0x03010630,
        22 => 0x03000820, 23 => 0x03000911,
        24 => 0x03000900, 25 => 0x03000911,
        26 => 0x03000A21, 27 => 0x03000A30,
        28 => 0x03020741, 29 => 0x04020740,
        30 => 0x04000B30, 31 => 0x04010A21,
        32 => 0x04010A10, 33 => 0x04000C00,
        34 => 0x04000D11, 35 => 0x04000D20,
        36 => 0x04000D31, 37 => 0x04000E41,
        38 => 0x05000E30, 39 => 0x05020B21,
        40 => 0x05020B10, 41 => 0x05000F00,
        42 => 0x05010E11, 43 => 0x05010E20,
        44 => 0x05001030, 45 => 0x05001141,
        46 => 0x06001130, 47 => 0x06001121,
        48 => 0x06001211, 49 => 0x06001200,
        50 => 0x06020F11, 51 => 0x06020F20,
        52 => 0x06001330, 53 => 0x06011241,
        54 => 0x07011230, 55 => 0x07001420,
        56 => 0x07001511, 57 => 0x07001500,
        58 => 0x07001511, 59 => 0x07001621,
        60 => 0x07001630, 61 => 0x07021341,
        62 => 0x08021340, 63 => 0x08001730,
        64 => 0x08011621, 65 => 0x08011610,
        66 => 0x08001800, 67 => 0x08001911,
        68 => 0x08001920, 69 => 0x08001931,
        70 => 0x08001A41, 71 => 0x09001A30,
        72 => 0x09021721, 73 => 0x09021710,
        74 => 0x09001B00, 75 => 0x09011A11,
        76 => 0x09011A20, 77 => 0x09001C30,
        78 => 0x09001D41, 79 => 0x0A001D30,
        80 => 0x0A001D21, 81 => 0x0A001E11,
        82 => 0x0A001E00, 83 => 0x0A021B11,
        84 => 0x0A021B20, 85 => 0x0A001F30,
        86 => 0x0A011E41, 87 => 0x0B011E30,
        88 => 0x0B041820, 89 => 0x0B011F11,
        90 => 0x0B011F00, 91 => 0x0B011F11,
        92 => 0x0B021E21, 93 => 0x0B021E30,
        94 => 0x0B021F41, 95 => 0x0C021F40,
        96 => 0x0C041B30, 97 => 0x0C031E21,
        98 => 0x0C031E10, 99 => 0x0C041C00,
        100 => 0x0C031F11, 101 => 0x0C031F20,
        102 => 0x0C031F31, 103 => 0x0C041E41,
        104 => 0x0D041E30, 105 => 0x0D061B21,
        106 => 0x0D061B10, 107 => 0x0D041F00,
        108 => 0x0D051E11, 109 => 0x0D051E20,
        110 => 0x0D081830, 111 => 0x0D051F41,
        112 => 0x0E051F30, 113 => 0x0E051F21,
        114 => 0x0E061E11, 115 => 0x0E061E00,
        116 => 0x0E061F11, 117 => 0x0E061F20,
        118 => 0x0E081B30, 119 => 0x0E071E41,
        120 => 0x0F071E30, 121 => 0x0F081C20,
        122 => 0x0F071F11, 123 => 0x0F071F00,
        124 => 0x0F071F11, 125 => 0x0F081E21,
        126 => 0x0F081E30, 127 => 0x0F0A1B41,
        128 => 0x100A1B40, 129 => 0x10081F30,
        130 => 0x10091E21, 131 => 0x10091E10,
        132 => 0x100C1800, 133 => 0x10091F11,
        134 => 0x10091F20, 135 => 0x10091F31,
        136 => 0x100A1E41, 137 => 0x110A1E30,
        138 => 0x110A1F21, 139 => 0x110A1F10,
        140 => 0x110C1B00, 141 => 0x110B1E11,
        142 => 0x110B1E20, 143 => 0x110C1C30,
        144 => 0x110B1F41, 145 => 0x120B1F30,
        146 => 0x120B1F21, 147 => 0x120C1E11,
        148 => 0x120C1E00, 149 => 0x120E1B11,
        150 => 0x120E1B20, 151 => 0x120C1F30,
        152 => 0x120D1E41, 153 => 0x130D1E30,
        154 => 0x13101820, 155 => 0x130D1F11,
        156 => 0x130D1F00, 157 => 0x130D1F11,
        158 => 0x130E1E21, 159 => 0x130E1E30,
        160 => 0x130E1F41, 161 => 0x140E1F40,
        162 => 0x14101B30, 163 => 0x140F1E21,
        164 => 0x140F1E10, 165 => 0x14101C00,
        166 => 0x140F1F11, 167 => 0x140F1F20,
        168 => 0x140F1F31, 169 => 0x14101E41,
        170 => 0x15101E30, 171 => 0x15121B21,
        172 => 0x15121B10, 173 => 0x15101F00,
        174 => 0x15111E11, 175 => 0x15111E20,
        176 => 0x15141830, 177 => 0x15111F41,
        178 => 0x16111F30, 179 => 0x16111F21,
        180 => 0x16121E11, 181 => 0x16121E00,
        182 => 0x16121F11, 183 => 0x16121F20,
        184 => 0x16141B30, 185 => 0x16131E41,
        186 => 0x17131E30, 187 => 0x17141C20,
        188 => 0x17131F11, 189 => 0x17131F00,
        190 => 0x17131F11, 191 => 0x17141E21,
        192 => 0x17141E30, 193 => 0x17161B41,
        194 => 0x18161B40, 195 => 0x18141F30,
        196 => 0x18151E21, 197 => 0x18151E10,
        198 => 0x18181800, 199 => 0x18151F11,
        200 => 0x18151F20, 201 => 0x18151F31,
        202 => 0x18161E41, 203 => 0x19161E30,
        204 => 0x19161F21, 205 => 0x19161F10,
        206 => 0x19181B00, 207 => 0x19171E11,
        208 => 0x19171E20, 209 => 0x19181C30,
        210 => 0x19171F41, 211 => 0x1A171F30,
        212 => 0x1A171F21, 213 => 0x1A181E11,
        214 => 0x1A181E00, 215 => 0x1A1A1B11,
        216 => 0x1A1A1B20, 217 => 0x1A181F30,
        218 => 0x1A191E41, 219 => 0x1B191E30,
        220 => 0x1B1C1820, 221 => 0x1B191F11,
        222 => 0x1B191F00, 223 => 0x1B191F11,
        224 => 0x1B1A1E21, 225 => 0x1B1A1E30,
        226 => 0x1B1A1F41, 227 => 0x1C1A1F40,
        228 => 0x1C1C1B30, 229 => 0x1C1B1E21,
        230 => 0x1C1B1E10, 231 => 0x1C1C1C00,
        232 => 0x1C1B1F11, 233 => 0x1C1B1F20,
        234 => 0x1C1B1F31, 235 => 0x1C1C1E41,
        236 => 0x1D1C1E30, 237 => 0x1D1E1B21,
        238 => 0x1D1E1B10, 239 => 0x1D1C1F00,
        240 => 0x1D1D1E11, 241 => 0x1D1D1E20,
        242 => 0x1D1D1E31, 243 => 0x1D1D1F41,
        244 => 0x1E1D1F30, 245 => 0x1E1D1F21,
        246 => 0x1E1E1E11, 247 => 0x1E1E1E00,
        248 => 0x1E1E1F11, 249 => 0x1E1E1F20,
        250 => 0x1E1E1F31, 251 => 0x1E1F1E41,
        252 => 0x1F1F1E30, 253 => 0x1F1F1E21,
        254 => 0x1F1F1F11, 255 => 0x1F1F1F00,
    }
}

/// The table for 6-bit endpoints, palette of four colours.
pub open spec fn table_6_4(target: u8) -> u32 {
    match target {
        0 => 0x00000000, 1 => 0x00000110,
        2 => 0x00000220, 3 => 0x01000311,
        4 => 0x01000300, 5 => 0x01000410,
        6 => 0x01000520, 7 => 0x02000611,
        8 => 0x02000600, 9 => 0x02000710,
        10 => 0x02000820, 11 => 0x03000911,
        12 => 0x03000900, 13 => 0x03000A10,
        14 => 0x03000B20, 15 => 0x04000C11,
        16 => 0x04000C00, 17 => 0x04000D10,
        18 => 0x04000E20, 19 => 0x05000F11,
        20 => 0x05000F00, 21 => 0x05001010,
        22 => 0x05010F20, 23 => 0x06001110,
        24 => 0x06001200, 25 => 0x06001310,
        26 => 0x06030E20, 27 => 0x07001410,
        28 => 0x07001500, 29 => 0x07001610,
        30 => 0x07040F20, 31 => 0x08001710,
        32 => 0x08001800, 33 => 0x08001910,
        34 => 0x08060E20, 35 => 0x09001A10,
        36 => 0x09001B00, 37 => 0x09001C10,
        38 => 0x09070F20, 39 => 0x0A001D10,
        40 => 0x0A001E00, 41 => 0x0A001F10,
        42 => 0x0A090E20, 43 => 0x0B002010,
        44 => 0x0B002100, 45 => 0x0B021E10,
        46 => 0x0B002220, 47 => 0x0C002310,
        48 => 0x0C002400, 49 => 0x0C031F10,
        50 => 0x0C002520, 51 => 0x0D002610,
        52 => 0x0D002700, 53 => 0x0D051E10,
        54 => 0x0D002820, 55 => 0x0E002910,
        56 => 0x0E002A00, 57 => 0x0E061F10,
        58 => 0x0E002B20, 59 => 0x0F002C10,
        60 => 0x0F002D00, 61 => 0x0F081E10,
        62 => 0x0F002E20, 63 => 0x10002F20,
        64 => 0x10012E10, 65 => 0x10003000,
        66 => 0x10003110, 67 => 0x10003220,
        68 => 0x11022F10, 69 => 0x11003300,
        70 => 0x11003410, 71 => 0x11003520,
        72 => 0x12042E10, 73 => 0x12003600,
        74 => 0x12003710, 75 => 0x12003820,
        76 => 0x13052F10, 77 => 0x13003900,
        78 => 0x13003A10, 79 => 0x13003B20,
        80 => 0x14072E10, 81 => 0x14003C00,
        82 => 0x14003D10, 83 => 0x14003E20,
        84 => 0x15082F10, 85 => 0x15003F00,
        86 => 0x15013E10, 87 => 0x15013F20,
        88 => 0x160A2E10, 89 => 0x16023E00,
        90 => 0x16023F10, 91 => 0x16033E20,
        92 => 0x170B2F10, 93 => 0x17033F00,
        94 => 0x17043E10, 95 => 0x17043F20,
        96 => 0x180D2E10, 97 => 0x18053E00,
        98 => 0x18053F10, 99 => 0x18063E20,
        100 => 0x190E2F10, 101 => 0x19063F00,
        102 => 0x19073E10, 103 => 0x19073F20,
        104 => 0x1A102D10, 105 => 0x1A083E00,
        106 => 0x1A083F10, 107 => 0x1A093E20,
        108 => 0x1B103010, 109 => 0x1B093F00,
        110 => 0x1B0A3E10, 111 => 0x1B0A3F20,
        112 => 0x1C103310, 113 => 0x1C0B3E00,
        114 => 0x1C0B3F10, 115 => 0x1C0C3E20,
        116 => 0x1D103610, 117 => 0x1D0C3F00,
        118 => 0x1D0D3E10, 119 => 0x1D0D3F20,
        120 => 0x1E103910, 121 => 0x1E0E3E00,
        122 => 0x1E0E3F10, 123 => 0x1E0F3E20,
        124 => 0x1F103C10, 125 => 0x1F0F3F00,
        126 => 0x1F182E10, 127 => 0x1F103E20,
        128 => 0x20103F20, 129 => 0x20113E10,
        130 => 0x20192F00, 131 => 0x20113F10,
        132 => 0x20123E20, 133 => 0x21123F10,
        134 => 0x211B2E00, 135 => 0x21133E10,
        136 => 0x21133F20, 137 => 0x22143E10,
        138 => 0x221C2F00, 139 => 0x22143F10,
        140 => 0x22153E20, 141 => 0x23153F10,
        142 => 0x231E2E00, 143 => 0x23163E10,
        144 => 0x23163F20, 145 => 0x24173E10,
        146 => 0x241F2F00, 147 => 0x24173F10,
        148 => 0x24183E20, 149 => 0x25183F10,
        150 => 0x25202F00, 151 => 0x25193E10,
        152 => 0x25193F20, 153 => 0x261A3E10,
        154 => 0x26203200, 155 => 0x261A3F10,
        156 => 0x261B3E20, 157 => 0x271B3F10,
        158 => 0x27203500, 159 => 0x271C3E10,
        160 => 0x271C3F20, 161 => 0x281D3E10,
        162 => 0x28203800, 163 => 0x281D3F10,
        164 => 0x281E3E20, 165 => 0x291E3F10,
        166 => 0x29203B00, 167 => 0x291F3E10,
        168 => 0x291F3F20, 169 => 0x2A203D10,
        170 => 0x2A203E00, 171 => 0x2A203F10,
        172 => 0x2A292E20, 173 => 0x2B213E10,
        174 => 0x2B213F00, 175 => 0x2B223E10,
        176 => 0x2B2A2F20, 177 => 0x2C223F10,
        178 => 0x2C233E00, 179 => 0x2C233F10,
        180 => 0x2C2C2E20, 181 => 0x2D243E10,
        182 => 0x2D243F00, 183 => 0x2D253E10,
        184 => 0x2D2D2F20, 185 => 0x2E253F10,
        186 => 0x2E263E00, 187 => 0x2E263F10,
        188 => 0x2E2F2E20, 189 => 0x2F273E10,
        190 => 0x2F273F00, 191 => 0x2F283E10,
        192 => 0x2F302E20, 193 => 0x30283F20,
        194 => 0x30293E10, 195 => 0x30293F00,
        196 => 0x30303110, 197 => 0x302A3E20,
        198 => 0x312A3F10, 199 => 0x312B3E00,
        200 => 0x31303410, 201 => 0x312B3F20,
        202 => 0x322C3E10, 203 => 0x322C3F00,
        204 => 0x32303710, 205 => 0x322D3E20,
        206 => 0x332D3F10, 207 => 0x332E3E00,
        208 => 0x33303A10, 209 => 0x332E3F20,
        210 => 0x342F3E10, 211 => 0x342F3F00,
        212 => 0x34303D10, 213 => 0x34303E20,
        214 => 0x35382F10, 215 => 0x35303F00,
        216 => 0x35313E10, 217 => 0x35313F20,
        218 => 0x363A2E10, 219 => 0x36323E00,
        220 => 0x36323F10, 221 => 0x36333E20,
        222 => 0x373B2F10, 223 => 0x37333F00,
        224 => 0x37343E10, 225 => 0x37343F20,
        226 => 0x383D2E10, 227 => 0x38353E00,
        228 => 0x38353F10, 229 => 0x38363E20,
        230 => 0x393E2F10, 231 => 0x39363F00,
        232 => 0x39373E10, 233 => 0x39373F20,
        234 => 0x3A383E11, 235 => 0x3A383E00,
        236 => 0x3A383F10, 237 => 0x3A393E20,
        238 => 0x3B393F11, 239 => 0x3B393F00,
        240 => 0x3B3A3E10, 241 => 0x3B3A3F20,
        242 => 0x3C3B3E11, 243 => 0x3C3B3E00,
        244 => 0x3C3B3F10, 245 => 0x3C3C3E20,
        246 => 0x3D3C3F11, 247 => 0x3D3C3F00,
        248 => 0x3D3D3E10, 249 => 0x3D3D3F20,
        250 => 0x3E3E3E11, 251 => 0x3E3E3E00,
        252 => 0x3E3E3F10, 253 => 0x3E3F3E20,
        254 => 0x3F3F3F11, 255 => 0x3F3F3F00,
    }
}

/// Looks a target value up in the table for 6-bit endpoints, palette of four colours.
pub fn lookup_6_4(target: u8) -> (word: u32)
    ensures
        word == table_6_4(target),
{
    match target {
        0 => 0x00000000, 1 => 0x00000110,
        2 => 0x00000220, 3 => 0x01000311,
        4 => 0x01000300, 5 => 0x01000410,
        6 => 0x01000520, 7 => 0x02000611,
        8 => 0x02000600, 9 => 0x02000710,
        10 => 0x02000820, 11 => 0x03000911,
        12 => 0x03000900, 13 => 0x03000A10,
        14 => 0x03000B20, 15 => 0x04000C11,
        16 => 0x04000C00, 17 => 0x04000D10,
        18 => 0x04000E20, 19 => 0x05000F11,
        20 => 0x05000F00, 21 => 0x05001010,
        22 => 0x05010F20, 23 => 0x06001110,
        24 => 0x06001200, 25 => 0x06001310,
        26 => 0x06030E20, 27 => 0x07001410,
        28 => 0x07001500, 29 => 0x07001610,
        30 => 0x07040F20, 31 => 0x08001710,
        32 => 0x08001800, 33 => 0x08001910,
        34 => 0x08060E20, 35 => 0x09001A10,
        36 => 0x09001B00, 37 => 0x09001C10,
        38 => 0x09070F20, 39 => 0x0A001D10,
        40 => 0x0A001E00, 41 => 0x0A001F10,
        42 => 0x0A090E20, 43 => 0x0B002010,
        44 => 0x0B002100, 45 => 0x0B021E10,
        46 => 0x0B002220, 47 => 0x0C002310,
        48 => 0x0C002400, 49 => 0x0C031F10,
        50 => 0x0C002520, 51 => 0x0D002610,
        52 => 0x0D002700, 53 => 0x0D051E10,
        54 => 0x0D002820, 55 => 0x0E002910,
        56 => 0x0E002A00, 57 => 0x0E061F10,
        58 => 0x0E002B20, 59 => 0x0F002C10,
        60 => 0x0F002D00, 61 => 0x0F081E10,
        62 => 0x0F002E20, 63 => 0x10002F20,
        64 => 0x10012E10, 65 => 0x10003000,
        66 => 0x10003110, 67 => 0x10003220,
        68 => 0x11022F10, 69 => 0x11003300,
        70 => 0x11003410, 71 => 0x11003520,
        72 => 0x12042E10, 73 => 0x12003600,
        74 => 0x12003710, 75 => 0x12003820,
        76 => 0x13052F10, 77 => 0x13003900,
        78 => 0x13003A10, 79 => 0x13003B20,
        80 => 0x14072E10, 81 => 0x14003C00,
        82 => 0x14003D10, 83 => 0x14003E20,
        84 => 0x15082F10, 85 => 0x15003F00,
        86 => 0x15013E10, 87 => 0x15013F20,
        88 => 0x160A2E10, 89 => 0x16023E00,
        90 => 0x16023F10, 91 => 0x16033E20,
        92 => 0x170B2F10, 93 => 0x17033F00,
        94 => 0x17043E10, 95 => 0x17043F20,
        96 => 0x180D2E10, 97 => 0x18053E00,
        98 => 0x18053F10, 99 => 0x18063E20,
        100 => 0x190E2F10, 101 => 0x19063F00,
        102 => 0x19073E10, 103 => 0x19073F20,
        104 => 0x1A102D10, 105 => 0x1A083E00,
        106 => 0x1A083F10, 107 => 0x1A093E20,
        108 => 0x1B103010, 109 => 0x1B093F00,
        110 => 0x1B0A3E10, 111 => 0x1B0A3F20,
        112 => 0x1C103310, 113 => 0x1C0B3E00,
        114 => 0x1C0B3F10, 115 => 0x1C0C3E20,
        116 => 0x1D103610, 117 => 0x1D0C3F00,
        118 => 0x1D0D3E10, 119 => 0x1D0D3F20,
        120 => 0x1E103910, 121 => 0x1E0E3E00,
        122 => 0x1E0E3F10, 123 => 0x1E0F3E20,
        124 => 0x1F103C10, 125 => 0x1F0F3F00,
        126 => 0x1F182E10, 127 => 0x1F103E20,
        128 => 0x20103F20, 129 => 0x20113E10,
        130 => 0x20192F00, 131 => 0x20113F10,
        132 => 0x20123E20, 133 => 0x21123F10,
        134 => 0x211B2E00, 135 => 0x21133E10,
        136 => 0x21133F20, 137 => 0x22143E10,
        138 => 0x221C2F00, 139 => 0x22143F10,
        140 => 0x22153E20, 141 => 0x23153F10,
        142 => 0x231E2E00, 143 => 0x23163E10,
        144 => 0x23163F20, 145 => 0x24173E10,
        146 => 0x241F2F00, 147 => 0x24173F10,
        148 => 0x24183E20, 149 => 0x25183F10,
        150 => 0x25202F00, 151 => 0x25193E10,
        152 => 0x25193F20, 153 => 0x261A3E10,
        154 => 0x26203200, 155 => 0x261A3F10,
        156 => 0x261B3E20, 157 => 0x271B3F10,
        158 => 0x27203500, 159 => 0x271C3E10,
        160 => 0x271C3F20, 161 => 0x281D3E10,
        162 => 0x28203800, 163 => 0x281D3F10,
        164 => 0x281E3E20, 165 => 0x291E3F10,
        166 => 0x29203B00, 167 => 0x291F3E10,
        168 => 0x291F3F20, 169 => 0x2A203D10,
        170 => 0x2A203E00, 171 => 0x2A203F10,
        172 => 0x2A292E20, 173 => 0x2B213E10,
        174 => 0x2B213F00, 175 => 0x2B223E10,
        176 => 0x2B2A2F20, 177 => 0x2C223F10,
        178 => 0x2C233E00, 179 => 0x2C233F10,
        180 => 0x2C2C2E20, 181 => 0x2D243E10,
        182 => 0x2D243F00, 183 => 0x2D253E10,
        184 => 0x2D2D2F20, 185 => 0x2E253F10,
        186 => 0x2E263E00, 187 => 0x2E263F10,
        188 => 0x2E2F2E20, 189 => 0x2F273E10,
        190 => 0x2F273F00, 191 => 0x2F283E10,
        192 => 0x2F302E20, 193 => 0x30283F20,
        194 => 0x30293E10, 195 => 0x30293F00,
        196 => 0x30303110, 197 => 0x302A3E20,
        198 => 0x312A3F10, 199 => 0x312B3E00,
        200 => 0x31303410, 201 => 0x312B3F20,
        202 => 0x322C3E10, 203 => 0x322C3F00,
        204 => 0x32303710, 205 => 0x322D3E20,
        206 => 0x332D3F10, 207 => 0x332E3E00,
        208 => 0x33303A10, 209 => 0x332E3F20,
        210 => 0x342F3E10, 211 => 0x342F3F00,
        212 => 0x34303D10, 213 => 0x34303E20,
        214 => 0x35382F10, 215 => 0x35303F00,
        216 => 0x35313E10, 217 => 0x35313F20,
        218 => 0x363A2E10, 219 => 0x36323E00,
        220 => 0x36323F10, 221 => 0x36333E20,
        222 => 0x373B2F10, 223 => 0x37333F00,
        224 => 0x37343E10, 225 => 0x37343F20,
        226 => 0x383D2E10, 227 => 0x38353E00,
        228 => 0x38353F10, 229 => 0x38363E20,
        230 => 0x393E2F10, 231 => 0x39363F00,
        232 => 0x39373E10, 233 => 0x39373F20,
        234 => 0x3A383E11, 235 => 0x3A383E00,
        236 => 0x3A383F10, 237 => 0x3A393E20,
        238 => 0x3B393F11, 239 => 0x3B393F00,
        240 => 0x3B3A3E10, 241 => 0x3B3A3F20,
        242 => 0x3C3B3E11, 243 => 0x3C3B3E00,
        244 => 0x3C3B3F10, 245 => 0x3C3C3E20,
        246 => 0x3D3C3F11, 247 => 0x3D3C3F00,
        248 => 0x3D3D3E10, 249 => 0x3D3D3F20,
        250 => 0x3E3E3E11, 251 => 0x3E3E3E00,
        252 => 0x3E3E3F10, 253 => 0x3E3F3E20,
        254 => 0x3F3F3F11, 255 => 0x3F3F3F00,
    }
}

} // verus!
