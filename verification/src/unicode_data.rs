//! Unicode character data used by the key scanner: decimal digits, isolated
//! digit characters, other numeric characters and the case folds that differ
//! from plain lowercasing. The data covers the non-ASCII range; ASCII is
//! handled by direct rules in the lookups.

use vstd::prelude::*;

verus! {

/// First code point (the digit zero) of each run of ten non-ASCII decimal digits.
#[verifier::opaque]
pub open spec fn decimal_zeros() -> Seq<u32> {
    seq![0x660, 0x6f0, 0x7c0, 0x966, 0x9e6, 0xa66, 0xae6, 0xb66, 0xbe6, 0xc66, 0xce6, 0xd66, 0xde6, 0xe50, 0xed0, 0xf20, 0x1040, 0x1090, 0x17e0, 0x1810, 0x1946, 0x19d0, 0x1a80, 0x1a90, 0x1b50, 0x1bb0, 0x1c40, 0x1c50, 0xa620, 0xa8d0, 0xa900, 0xa9d0, 0xa9f0, 0xaa50, 0xabf0, 0xff10, 0x104a0, 0x10d30, 0x11066, 0x110f0, 0x11136, 0x111d0, 0x112f0, 0x11450, 0x114d0, 0x11650, 0x116c0, 0x11730, 0x118e0, 0x11950, 0x11c50, 0x11d50, 0x11da0, 0x16a60, 0x16ac0, 0x16b50, 0x1d7ce, 0x1d7d8, 0x1d7e2, 0x1d7ec, 0x1d7f6, 0x1e140, 0x1e2f0, 0x1e950, 0x1fbf0]
}

pub fn decimal_zeros_table() -> (r: Vec<u32>)
    ensures
        r@ == decimal_zeros(),
{
    reveal(decimal_zeros);
    vec![0x660, 0x6f0, 0x7c0, 0x966, 0x9e6, 0xa66, 0xae6, 0xb66, 0xbe6, 0xc66, 0xce6, 0xd66, 0xde6, 0xe50, 0xed0, 0xf20, 0x1040, 0x1090, 0x17e0, 0x1810, 0x1946, 0x19d0, 0x1a80, 0x1a90, 0x1b50, 0x1bb0, 0x1c40, 0x1c50, 0xa620, 0xa8d0, 0xa900, 0xa9d0, 0xa9f0, 0xaa50, 0xabf0, 0xff10, 0x104a0, 0x10d30, 0x11066, 0x110f0, 0x11136, 0x111d0, 0x112f0, 0x11450, 0x114d0, 0x11650, 0x116c0, 0x11730, 0x118e0, 0x11950, 0x11c50, 0x11d50, 0x11da0, 0x16a60, 0x16ac0, 0x16b50, 0x1d7ce, 0x1d7d8, 0x1d7e2, 0x1d7ec, 0x1d7f6, 0x1e140, 0x1e2f0, 0x1e950, 0x1fbf0]
}

/// Non-ASCII characters that carry a digit value without being decimal digits
/// (circled, superscript, subscript, ...), with that value.
#[verifier::opaque]
pub open spec fn isolated_digits() -> Seq<(u32, u8)> {
    seq![
        (0xb2, 2),
        (0xb3, 3),
        (0xb9, 1),
        (0x1369, 1),
        (0x136a, 2),
        (0x136b, 3),
        (0x136c, 4),
        (0x136d, 5),
        (0x136e, 6),
        (0x136f, 7),
        (0x1370, 8),
        (0x1371, 9),
        (0x19da, 1),
        (0x2070, 0),
        (0x2074, 4),
        (0x2075, 5),
        (0x2076, 6),
        (0x2077, 7),
        (0x2078, 8),
        (0x2079, 9),
        (0x2080, 0),
        (0x2081, 1),
        (0x2082, 2),
        (0x2083, 3),
        (0x2084, 4),
        (0x2085, 5),
        (0x2086, 6),
        (0x2087, 7),
        (0x2088, 8),
        (0x2089, 9),
        (0x2460, 1),
        (0x2461, 2),
        (0x2462, 3),
        (0x2463, 4),
        (0x2464, 5),
        (0x2465, 6),
        (0x2466, 7),
        (0x2467, 8),
        (0x2468, 9),
        (0x2474, 1),
        (0x2475, 2),
        (0x2476, 3),
        (0x2477, 4),
        (0x2478, 5),
        (0x2479, 6),
        (0x247a, 7),
        (0x247b, 8),
        (0x247c, 9),
        (0x2488, 1),
        (0x2489, 2),
        (0x248a, 3),
        (0x248b, 4),
        (0x248c, 5),
        (0x248d, 6),
        (0x248e, 7),
        (0x248f, 8),
        (0x2490, 9),
        (0x24ea, 0),
        (0x24f5, 1),
        (0x24f6, 2),
        (0x24f7, 3),
        (0x24f8, 4),
        (0x24f9, 5),
        (0x24fa, 6),
        (0x24fb, 7),
        (0x24fc, 8),
        (0x24fd, 9),
        (0x24ff, 0),
        (0x2776, 1),
        (0x2777, 2),
        (0x2778, 3),
        (0x2779, 4),
        (0x277a, 5),
        (0x277b, 6),
        (0x277c, 7),
        (0x277d, 8),
        (0x277e, 9),
        (0x2780, 1),
        (0x2781, 2),
        (0x2782, 3),
        (0x2783, 4),
        (0x2784, 5),
        (0x2785, 6),
        (0x2786, 7),
        (0x2787, 8),
        (0x2788, 9),
        (0x278a, 1),
        (0x278b, 2),
        (0x278c, 3),
        (0x278d, 4),
        (0x278e, 5),
        (0x278f, 6),
        (0x2790, 7),
        (0x2791, 8),
        (0x2792, 9),
        (0x10a40, 1),
        (0x10a41, 2),
        (0x10a42, 3),
        (0x10a43, 4),
        (0x10e60, 1),
        (0x10e61, 2),
        (0x10e62, 3),
        (0x10e63, 4),
        (0x10e64, 5),
        (0x10e65, 6),
        (0x10e66, 7),
        (0x10e67, 8),
        (0x10e68, 9),
        (0x11052, 1),
        (0x11053, 2),
        (0x11054, 3),
        (0x11055, 4),
        (0x11056, 5),
        (0x11057, 6),
        (0x11058, 7),
        (0x11059, 8),
        (0x1105a, 9),
        (0x1f100, 0),
        (0x1f101, 0),
        (0x1f102, 1),
        (0x1f103, 2),
        (0x1f104, 3),
        (0x1f105, 4),
        (0x1f106, 5),
        (0x1f107, 6),
        (0x1f108, 7),
        (0x1f109, 8),
        (0x1f10a, 9)
    ]
}

pub fn isolated_digits_table() -> (r: Vec<(u32, u8)>)
    ensures
        r@ == isolated_digits(),
{
    reveal(isolated_digits);
    vec![
        (0xb2, 2),
        (0xb3, 3),
        (0xb9, 1),
        (0x1369, 1),
        (0x136a, 2),
        (0x136b, 3),
        (0x136c, 4),
        (0x136d, 5),
        (0x136e, 6),
        (0x136f, 7),
        (0x1370, 8),
        (0x1371, 9),
        (0x19da, 1),
        (0x2070, 0),
        (0x2074, 4),
        (0x2075, 5),
        (0x2076, 6),
        (0x2077, 7),
        (0x2078, 8),
        (0x2079, 9),
        (0x2080, 0),
        (0x2081, 1),
        (0x2082, 2),
        (0x2083, 3),
        (0x2084, 4),
        (0x2085, 5),
        (0x2086, 6),
        (0x2087, 7),
        (0x2088, 8),
        (0x2089, 9),
        (0x2460, 1),
        (0x2461, 2),
        (0x2462, 3),
        (0x2463, 4),
        (0x2464, 5),
        (0x2465, 6),
        (0x2466, 7),
        (0x2467, 8),
        (0x2468, 9),
        (0x2474, 1),
        (0x2475, 2),
        (0x2476, 3),
        (0x2477, 4),
        (0x2478, 5),
        (0x2479, 6),
        (0x247a, 7),
        (0x247b, 8),
        (0x247c, 9),
        (0x2488, 1),
        (0x2489, 2),
        (0x248a, 3),
        (0x248b, 4),
        (0x248c, 5),
        (0x248d, 6),
        (0x248e, 7),
        (0x248f, 8),
        (0x2490, 9),
        (0x24ea, 0),
        (0x24f5, 1),
        (0x24f6, 2),
        (0x24f7, 3),
        (0x24f8, 4),
        (0x24f9, 5),
        (0x24fa, 6),
        (0x24fb, 7),
        (0x24fc, 8),
        (0x24fd, 9),
        (0x24ff, 0),
        (0x2776, 1),
        (0x2777, 2),
        (0x2778, 3),
        (0x2779, 4),
        (0x277a, 5),
        (0x277b, 6),
        (0x277c, 7),
        (0x277d, 8),
        (0x277e, 9),
        (0x2780, 1),
        (0x2781, 2),
        (0x2782, 3),
        (0x2783, 4),
        (0x2784, 5),
        (0x2785, 6),
        (0x2786, 7),
        (0x2787, 8),
        (0x2788, 9),
        (0x278a, 1),
        (0x278b, 2),
        (0x278c, 3),
        (0x278d, 4),
        (0x278e, 5),
        (0x278f, 6),
        (0x2790, 7),
        (0x2791, 8),
        (0x2792, 9),
        (0x10a40, 1),
        (0x10a41, 2),
        (0x10a42, 3),
        (0x10a43, 4),
        (0x10e60, 1),
        (0x10e61, 2),
        (0x10e62, 3),
        (0x10e63, 4),
        (0x10e64, 5),
        (0x10e65, 6),
        (0x10e66, 7),
        (0x10e67, 8),
        (0x10e68, 9),
        (0x11052, 1),
        (0x11053, 2),
        (0x11054, 3),
        (0x11055, 4),
        (0x11056, 5),
        (0x11057, 6),
        (0x11058, 7),
        (0x11059, 8),
        (0x1105a, 9),
        (0x1f100, 0),
        (0x1f101, 0),
        (0x1f102, 1),
        (0x1f103, 2),
        (0x1f104, 3),
        (0x1f105, 4),
        (0x1f106, 5),
        (0x1f107, 6),
        (0x1f108, 7),
        (0x1f109, 8),
        (0x1f10a, 9)
    ]
}

/// Non-ASCII characters with a numeric value but no digit value, each with
/// its value written as `mantissa * 10^exponent` (the shortest decimal that
/// stands for the double-precision value of the character).
#[verifier::opaque]
pub open spec fn numeric_values() -> Seq<(u32, u64, i8)> {
    seq![
        (0xbc, 25u64, -2i8),
        (0xbd, 5u64, -1i8),
        (0xbe, 75u64, -2i8),
        (0x9f4, 625u64, -4i8),
        (0x9f5, 125u64, -3i8),
        (0x9f6, 1875u64, -4i8),
        (0x9f7, 25u64, -2i8),
        (0x9f8, 75u64, -2i8),
        (0x9f9, 16u64, 0i8),
        (0xb72, 25u64, -2i8),
        (0xb73, 5u64, -1i8),
        (0xb74, 75u64, -2i8),
        (0xb75, 625u64, -4i8),
        (0xb76, 125u64, -3i8),
        (0xb77, 1875u64, -4i8),
        (0xbf0, 1u64, 1i8),
        (0xbf1, 1u64, 2i8),
        (0xbf2, 1u64, 3i8),
        (0xc78, 0u64, 0i8),
        (0xc79, 1u64, 0i8),
        (0xc7a, 2u64, 0i8),
        (0xc7b, 3u64, 0i8),
        (0xc7c, 1u64, 0i8),
        (0xc7d, 2u64, 0i8),
        (0xc7e, 3u64, 0i8),
        (0xd58, 625u64, -5i8),
        (0xd59, 25u64, -3i8),
        (0xd5a, 375u64, -4i8),
        (0xd5b, 5u64, -2i8),
        (0xd5c, 1u64, -1i8),
        (0xd5d, 15u64, -2i8),
        (0xd5e, 2u64, -1i8),
        (0xd70, 1u64, 1i8),
        (0xd71, 1u64, 2i8),
        (0xd72, 1u64, 3i8),
        (0xd73, 25u64, -2i8),
        (0xd74, 5u64, -1i8),
        (0xd75, 75u64, -2i8),
        (0xd76, 625u64, -4i8),
        (0xd77, 125u64, -3i8),
        (0xd78, 1875u64, -4i8),
        (0xf2a, 5u64, -1i8),
        (0xf2b, 15u64, -1i8),
        (0xf2c, 25u64, -1i8),
        (0xf2d, 35u64, -1i8),
        (0xf2e, 45u64, -1i8),
        (0xf2f, 55u64, -1i8),
        (0xf30, 65u64, -1i8),
        (0xf31, 75u64, -1i8),
        (0xf32, 85u64, -1i8),
        (0xf33, 5u64, -1i8),
        (0x1372, 1u64, 1i8),
        (0x1373, 2u64, 1i8),
        (0x1374, 3u64, 1i8),
        (0x1375, 4u64, 1i8),
        (0x1376, 5u64, 1i8),
        (0x1377, 6u64, 1i8),
        (0x1378, 7u64, 1i8),
        (0x1379, 8u64, 1i8),
        (0x137a, 9u64, 1i8),
        (0x137b, 1u64, 2i8),
        (0x137c, 1u64, 4i8),
        (0x16ee, 17u64, 0i8),
        (0x16ef, 18u64, 0i8),
        (0x16f0, 19u64, 0i8),
        (0x17f0, 0u64, 0i8),
        (0x17f1, 1u64, 0i8),
        (0x17f2, 2u64, 0i8),
        (0x17f3, 3u64, 0i8),
        (0x17f4, 4u64, 0i8),
        (0x17f5, 5u64, 0i8),
        (0x17f6, 6u64, 0i8),
        (0x17f7, 7u64, 0i8),
        (0x17f8, 8u64, 0i8),
        (0x17f9, 9u64, 0i8),
        (0x2150, 14285714285714285u64, -17i8),
        (0x2151, 1111111111111111u64, -16i8),
        (0x2152, 1u64, -1i8),
        (0x2153, 3333333333333333u64, -16i8),
        (0x2154, 6666666666666666u64, -16i8),
        (0x2155, 2u64, -1i8),
        (0x2156, 4u64, -1i8),
        (0x2157, 6u64, -1i8),
        (0x2158, 8u64, -1i8),
        (0x2159, 16666666666666666u64, -17i8),
        (0x215a, 8333333333333334u64, -16i8),
        (0x215b, 125u64, -3i8),
        (0x215c, 375u64, -3i8),
        (0x215d, 625u64, -3i8),
        (0x215e, 875u64, -3i8),
        (0x215f, 1u64, 0i8),
        (0x2160, 1u64, 0i8),
        (0x2161, 2u64, 0i8),
        (0x2162, 3u64, 0i8),
        (0x2163, 4u64, 0i8),
        (0x2164, 5u64, 0i8),
        (0x2165, 6u64, 0i8),
        (0x2166, 7u64, 0i8),
        (0x2167, 8u64, 0i8),
        (0x2168, 9u64, 0i8),
        (0x2169, 1u64, 1i8),
        (0x216a, 11u64, 0i8),
        (0x216b, 12u64, 0i8),
        (0x216c, 5u64, 1i8),
        (0x216d, 1u64, 2i8),
        (0x216e, 5u64, 2i8),
        (0x216f, 1u64, 3i8),
        (0x2170, 1u64, 0i8),
        (0x2171, 2u64, 0i8),
        (0x2172, 3u64, 0i8),
        (0x2173, 4u64, 0i8),
        (0x2174, 5u64, 0i8),
        (0x2175, 6u64, 0i8),
        (0x2176, 7u64, 0i8),
        (0x2177, 8u64, 0i8),
        (0x2178, 9u64, 0i8),
        (0x2179, 1u64, 1i8),
        (0x217a, 11u64, 0i8),
        (0x217b, 12u64, 0i8),
        (0x217c, 5u64, 1i8),
        (0x217d, 1u64, 2i8),
        (0x217e, 5u64, 2i8),
        (0x217f, 1u64, 3i8),
        (0x2180, 1u64, 3i8),
        (0x2181, 5u64, 3i8),
        (0x2182, 1u64, 4i8),
        (0x2185, 6u64, 0i8),
        (0x2186, 5u64, 1i8),
        (0x2187, 5u64, 4i8),
        (0x2188, 1u64, 5i8),
        (0x2189, 0u64, 0i8),
        (0x2469, 1u64, 1i8),
        (0x246a, 11u64, 0i8),
        (0x246b, 12u64, 0i8),
        (0x246c, 13u64, 0i8),
        (0x246d, 14u64, 0i8),
        (0x246e, 15u64, 0i8),
        (0x246f, 16u64, 0i8),
        (0x2470, 17u64, 0i8),
        (0x2471, 18u64, 0i8),
        (0x2472, 19u64, 0i8),
        (0x2473, 2u64, 1i8),
        (0x247d, 1u64, 1i8),
        (0x247e, 11u64, 0i8),
        (0x247f, 12u64, 0i8),
        (0x2480, 13u64, 0i8),
        (0x2481, 14u64, 0i8),
        (0x2482, 15u64, 0i8),
        (0x2483, 16u64, 0i8),
        (0x2484, 17u64, 0i8),
        (0x2485, 18u64, 0i8),
        (0x2486, 19u64, 0i8),
        (0x2487, 2u64, 1i8),
        (0x2491, 1u64, 1i8),
        (0x2492, 11u64, 0i8),
        (0x2493, 12u64, 0i8),
        (0x2494, 13u64, 0i8),
        (0x2495, 14u64, 0i8),
        (0x2496, 15u64, 0i8),
        (0x2497, 16u64, 0i8),
        (0x2498, 17u64, 0i8),
        (0x2499, 18u64, 0i8),
        (0x249a, 19u64, 0i8),
        (0x249b, 2u64, 1i8),
        (0x24eb, 11u64, 0i8),
        (0x24ec, 12u64, 0i8),
        (0x24ed, 13u64, 0i8),
        (0x24ee, 14u64, 0i8),
        (0x24ef, 15u64, 0i8),
        (0x24f0, 16u64, 0i8),
        (0x24f1, 17u64, 0i8),
        (0x24f2, 18u64, 0i8),
        (0x24f3, 19u64, 0i8),
        (0x24f4, 2u64, 1i8),
        (0x24fe, 1u64, 1i8),
        (0x277f, 1u64, 1i8),
        (0x2789, 1u64, 1i8),
        (0x2793, 1u64, 1i8),
        (0x2cfd, 5u64, -1i8),
        (0x3007, 0u64, 0i8),
        (0x3021, 1u64, 0i8),
        (0x3022, 2u64, 0i8),
        (0x3023, 3u64, 0i8),
        (0x3024, 4u64, 0i8),
        (0x3025, 5u64, 0i8),
        (0x3026, 6u64, 0i8),
        (0x3027, 7u64, 0i8),
        (0x3028, 8u64, 0i8),
        (0x3029, 9u64, 0i8),
        (0x3038, 1u64, 1i8),
        (0x3039, 2u64, 1i8),
        (0x303a, 3u64, 1i8),
        (0x3192, 1u64, 0i8),
        (0x3193, 2u64, 0i8),
        (0x3194, 3u64, 0i8),
        (0x3195, 4u64, 0i8),
        (0x3220, 1u64, 0i8),
        (0x3221, 2u64, 0i8),
        (0x3222, 3u64, 0i8),
        (0x3223, 4u64, 0i8),
        (0x3224, 5u64, 0i8),
        (0x3225, 6u64, 0i8),
        (0x3226, 7u64, 0i8),
        (0x3227, 8u64, 0i8),
        (0x3228, 9u64, 0i8),
        (0x3229, 1u64, 1i8),
        (0x3248, 1u64, 1i8),
        (0x3249, 2u64, 1i8),
        (0x324a, 3u64, 1i8),
        (0x324b, 4u64, 1i8),
        (0x324c, 5u64, 1i8),
        (0x324d, 6u64, 1i8),
        (0x324e, 7u64, 1i8),
        (0x324f, 8u64, 1i8),
        (0x3251, 21u64, 0i8),
        (0x3252, 22u64, 0i8),
        (0x3253, 23u64, 0i8),
        (0x3254, 24u64, 0i8),
        (0x3255, 25u64, 0i8),
        (0x3256, 26u64, 0i8),
        (0x3257, 27u64, 0i8),
        (0x3258, 28u64, 0i8),
        (0x3259, 29u64, 0i8),
        (0x325a, 3u64, 1i8),
        (0x325b, 31u64, 0i8),
        (0x325c, 32u64, 0i8),
        (0x325d, 33u64, 0i8),
        (0x325e, 34u64, 0i8),
        (0x325f, 35u64, 0i8),
        (0x3280, 1u64, 0i8),
        (0x3281, 2u64, 0i8),
        (0x3282, 3u64, 0i8),
        (0x3283, 4u64, 0i8),
        (0x3284, 5u64, 0i8),
        (0x3285, 6u64, 0i8),
        (0x3286, 7u64, 0i8),
        (0x3287, 8u64, 0i8),
        (0x3288, 9u64, 0i8),
        (0x3289, 1u64, 1i8),
        (0x32b1, 36u64, 0i8),
        (0x32b2, 37u64, 0i8),
        (0x32b3, 38u64, 0i8),
        (0x32b4, 39u64, 0i8),
        (0x32b5, 4u64, 1i8),
        (0x32b6, 41u64, 0i8),
        (0x32b7, 42u64, 0i8),
        (0x32b8, 43u64, 0i8),
        (0x32b9, 44u64, 0i8),
        (0x32ba, 45u64, 0i8),
        (0x32bb, 46u64, 0i8),
        (0x32bc, 47u64, 0i8),
        (0x32bd, 48u64, 0i8),
        (0x32be, 49u64, 0i8),
        (0x32bf, 5u64, 1i8),
        (0x3405, 5u64, 0i8),
        (0x3483, 2u64, 0i8),
        (0x382a, 5u64, 0i8),
        (0x3b4d, 7u64, 0i8),
        (0x4e00, 1u64, 0i8),
        (0x4e03, 7u64, 0i8),
        (0x4e07, 1u64, 4i8),
        (0x4e09, 3u64, 0i8),
        (0x4e5d, 9u64, 0i8),
        (0x4e8c, 2u64, 0i8),
        (0x4e94, 5u64, 0i8),
        (0x4e96, 4u64, 0i8),
        (0x4ebf, 1u64, 8i8),
        (0x4ec0, 1u64, 1i8),
        (0x4edf, 1u64, 3i8),
        (0x4ee8, 3u64, 0i8),
        (0x4f0d, 5u64, 0i8),
        (0x4f70, 1u64, 2i8),
        (0x5104, 1u64, 8i8),
        (0x5146, 1u64, 12i8),
        (0x5169, 2u64, 0i8),
        (0x516b, 8u64, 0i8),
        (0x516d, 6u64, 0i8),
        (0x5341, 1u64, 1i8),
        (0x5343, 1u64, 3i8),
        (0x5344, 2u64, 1i8),
        (0x5345, 3u64, 1i8),
        (0x534c, 4u64, 1i8),
        (0x53c1, 3u64, 0i8),
        (0x53c2, 3u64, 0i8),
        (0x53c3, 3u64, 0i8),
        (0x53c4, 3u64, 0i8),
        (0x56db, 4u64, 0i8),
        (0x58f1, 1u64, 0i8),
        (0x58f9, 1u64, 0i8),
        (0x5e7a, 1u64, 0i8),
        (0x5efe, 9u64, 0i8),
        (0x5eff, 2u64, 1i8),
        (0x5f0c, 1u64, 0i8),
        (0x5f0d, 2u64, 0i8),
        (0x5f0e, 3u64, 0i8),
        (0x5f10, 2u64, 0i8),
        (0x62fe, 1u64, 1i8),
        (0x634c, 8u64, 0i8),
        (0x67d2, 7u64, 0i8),
        (0x6f06, 7u64, 0i8),
        (0x7396, 9u64, 0i8),
        (0x767e, 1u64, 2i8),
        (0x8086, 4u64, 0i8),
        (0x842c, 1u64, 4i8),
        (0x8cae, 2u64, 0i8),
        (0x8cb3, 2u64, 0i8),
        (0x8d30, 2u64, 0i8),
        (0x9621, 1u64, 3i8),
        (0x9646, 6u64, 0i8),
        (0x964c, 1u64, 2i8),
        (0x9678, 6u64, 0i8),
        (0x96f6, 0u64, 0i8),
        (0xa6e6, 1u64, 0i8),
        (0xa6e7, 2u64, 0i8),
        (0xa6e8, 3u64, 0i8),
        (0xa6e9, 4u64, 0i8),
        (0xa6ea, 5u64, 0i8),
        (0xa6eb, 6u64, 0i8),
        (0xa6ec, 7u64, 0i8),
        (0xa6ed, 8u64, 0i8),
        (0xa6ee, 9u64, 0i8),
        (0xa6ef, 0u64, 0i8),
        (0xa830, 25u64, -2i8),
        (0xa831, 5u64, -1i8),
        (0xa832, 75u64, -2i8),
        (0xa833, 625u64, -4i8),
        (0xa834, 125u64, -3i8),
        (0xa835, 1875u64, -4i8),
        (0xf96b, 3u64, 0i8),
        (0xf973, 1u64, 1i8),
        (0xf978, 2u64, 0i8),
        (0xf9b2, 0u64, 0i8),
        (0xf9d1, 6u64, 0i8),
        (0xf9d3, 6u64, 0i8),
        (0xf9fd, 1u64, 1i8),
        (0x10107, 1u64, 0i8),
        (0x10108, 2u64, 0i8),
        (0x10109, 3u64, 0i8),
        (0x1010a, 4u64, 0i8),
        (0x1010b, 5u64, 0i8),
        (0x1010c, 6u64, 0i8),
        (0x1010d, 7u64, 0i8),
        (0x1010e, 8u64, 0i8),
        (0x1010f, 9u64, 0i8),
        (0x10110, 1u64, 1i8),
        (0x10111, 2u64, 1i8),
        (0x10112, 3u64, 1i8),
        (0x10113, 4u64, 1i8),
        (0x10114, 5u64, 1i8),
        (0x10115, 6u64, 1i8),
        (0x10116, 7u64, 1i8),
        (0x10117, 8u64, 1i8),
        (0x10118, 9u64, 1i8),
        (0x10119, 1u64, 2i8),
        (0x1011a, 2u64, 2i8),
        (0x1011b, 3u64, 2i8),
        (0x1011c, 4u64, 2i8),
        (0x1011d, 5u64, 2i8),
        (0x1011e, 6u64, 2i8),
        (0x1011f, 7u64, 2i8),
        (0x10120, 8u64, 2i8),
        (0x10121, 9u64, 2i8),
        (0x10122, 1u64, 3i8),
        (0x10123, 2u64, 3i8),
        (0x10124, 3u64, 3i8),
        (0x10125, 4u64, 3i8),
        (0x10126, 5u64, 3i8),
        (0x10127, 6u64, 3i8),
        (0x10128, 7u64, 3i8),
        (0x10129, 8u64, 3i8),
        (0x1012a, 9u64, 3i8),
        (0x1012b, 1u64, 4i8),
        (0x1012c, 2u64, 4i8),
        (0x1012d, 3u64, 4i8),
        (0x1012e, 4u64, 4i8),
        (0x1012f, 5u64, 4i8),
        (0x10130, 6u64, 4i8),
        (0x10131, 7u64, 4i8),
        (0x10132, 8u64, 4i8),
        (0x10133, 9u64, 4i8),
        (0x10140, 25u64, -2i8),
        (0x10141, 5u64, -1i8),
        (0x10142, 1u64, 0i8),
        (0x10143, 5u64, 0i8),
        (0x10144, 5u64, 1i8),
        (0x10145, 5u64, 2i8),
        (0x10146, 5u64, 3i8),
        (0x10147, 5u64, 4i8),
        (0x10148, 5u64, 0i8),
        (0x10149, 1u64, 1i8),
        (0x1014a, 5u64, 1i8),
        (0x1014b, 1u64, 2i8),
        (0x1014c, 5u64, 2i8),
        (0x1014d, 1u64, 3i8),
        (0x1014e, 5u64, 3i8),
        (0x1014f, 5u64, 0i8),
        (0x10150, 1u64, 1i8),
        (0x10151, 5u64, 1i8),
        (0x10152, 1u64, 2i8),
        (0x10153, 5u64, 2i8),
        (0x10154, 1u64, 3i8),
        (0x10155, 1u64, 4i8),
        (0x10156, 5u64, 4i8),
        (0x10157, 1u64, 1i8),
        (0x10158, 1u64, 0i8),
        (0x10159, 1u64, 0i8),
        (0x1015a, 1u64, 0i8),
        (0x1015b, 2u64, 0i8),
        (0x1015c, 2u64, 0i8),
        (0x1015d, 2u64, 0i8),
        (0x1015e, 2u64, 0i8),
        (0x1015f, 5u64, 0i8),
        (0x10160, 1u64, 1i8),
        (0x10161, 1u64, 1i8),
        (0x10162, 1u64, 1i8),
        (0x10163, 1u64, 1i8),
        (0x10164, 1u64, 1i8),
        (0x10165, 3u64, 1i8),
        (0x10166, 5u64, 1i8),
        (0x10167, 5u64, 1i8),
        (0x10168, 5u64, 1i8),
        (0x10169, 5u64, 1i8),
        (0x1016a, 1u64, 2i8),
        (0x1016b, 3u64, 2i8),
        (0x1016c, 5u64, 2i8),
        (0x1016d, 5u64, 2i8),
        (0x1016e, 5u64, 2i8),
        (0x1016f, 5u64, 2i8),
        (0x10170, 5u64, 2i8),
        (0x10171, 1u64, 3i8),
        (0x10172, 5u64, 3i8),
        (0x10173, 5u64, 0i8),
        (0x10174, 5u64, 1i8),
        (0x10175, 5u64, -1i8),
        (0x10176, 5u64, -1i8),
        (0x10177, 6666666666666666u64, -16i8),
        (0x10178, 75u64, -2i8),
        (0x1018a, 0u64, 0i8),
        (0x1018b, 25u64, -2i8),
        (0x102e1, 1u64, 0i8),
        (0x102e2, 2u64, 0i8),
        (0x102e3, 3u64, 0i8),
        (0x102e4, 4u64, 0i8),
        (0x102e5, 5u64, 0i8),
        (0x102e6, 6u64, 0i8),
        (0x102e7, 7u64, 0i8),
        (0x102e8, 8u64, 0i8),
        (0x102e9, 9u64, 0i8),
        (0x102ea, 1u64, 1i8),
        (0x102eb, 2u64, 1i8),
        (0x102ec, 3u64, 1i8),
        (0x102ed, 4u64, 1i8),
        (0x102ee, 5u64, 1i8),
        (0x102ef, 6u64, 1i8),
        (0x102f0, 7u64, 1i8),
        (0x102f1, 8u64, 1i8),
        (0x102f2, 9u64, 1i8),
        (0x102f3, 1u64, 2i8),
        (0x102f4, 2u64, 2i8),
        (0x102f5, 3u64, 2i8),
        (0x102f6, 4u64, 2i8),
        (0x102f7, 5u64, 2i8),
        (0x102f8, 6u64, 2i8),
        (0x102f9, 7u64, 2i8),
        (0x102fa, 8u64, 2i8),
        (0x102fb, 9u64, 2i8),
        (0x10320, 1u64, 0i8),
        (0x10321, 5u64, 0i8),
        (0x10322, 1u64, 1i8),
        (0x10323, 5u64, 1i8),
        (0x10341, 9u64, 1i8),
        (0x1034a, 9u64, 2i8),
        (0x103d1, 1u64, 0i8),
        (0x103d2, 2u64, 0i8),
        (0x103d3, 1u64, 1i8),
        (0x103d4, 2u64, 1i8),
        (0x103d5, 1u64, 2i8),
        (0x10858, 1u64, 0i8),
        (0x10859, 2u64, 0i8),
        (0x1085a, 3u64, 0i8),
        (0x1085b, 1u64, 1i8),
        (0x1085c, 2u64, 1i8),
        (0x1085d, 1u64, 2i8),
        (0x1085e, 1u64, 3i8),
        (0x1085f, 1u64, 4i8),
        (0x10879, 1u64, 0i8),
        (0x1087a, 2u64, 0i8),
        (0x1087b, 3u64, 0i8),
        (0x1087c, 4u64, 0i8),
        (0x1087d, 5u64, 0i8),
        (0x1087e, 1u64, 1i8),
        (0x1087f, 2u64, 1i8),
        (0x108a7, 1u64, 0i8),
        (0x108a8, 2u64, 0i8),
        (0x108a9, 3u64, 0i8),
        (0x108aa, 4u64, 0i8),
        (0x108ab, 4u64, 0i8),
        (0x108ac, 5u64, 0i8),
        (0x108ad, 1u64, 1i8),
        (0x108ae, 2u64, 1i8),
        (0x108af, 1u64, 2i8),
        (0x108fb, 1u64, 0i8),
        (0x108fc, 5u64, 0i8),
        (0x108fd, 1u64, 1i8),
        (0x108fe, 2u64, 1i8),
        (0x108ff, 1u64, 2i8),
        (0x10916, 1u64, 0i8),
        (0x10917, 1u64, 1i8),
        (0x10918, 2u64, 1i8),
        (0x10919, 1u64, 2i8),
        (0x1091a, 2u64, 0i8),
        (0x1091b, 3u64, 0i8),
        (0x109bc, 9166666666666666u64, -16i8),
        (0x109bd, 5u64, -1i8),
        (0x109c0, 1u64, 0i8),
        (0x109c1, 2u64, 0i8),
        (0x109c2, 3u64, 0i8),
        (0x109c3, 4u64, 0i8),
        (0x109c4, 5u64, 0i8),
        (0x109c5, 6u64, 0i8),
        (0x109c6, 7u64, 0i8),
        (0x109c7, 8u64, 0i8),
        (0x109c8, 9u64, 0i8),
        (0x109c9, 1u64, 1i8),
        (0x109ca, 2u64, 1i8),
        (0x109cb, 3u64, 1i8),
        (0x109cc, 4u64, 1i8),
        (0x109cd, 5u64, 1i8),
        (0x109ce, 6u64, 1i8),
        (0x109cf, 7u64, 1i8),
        (0x109d2, 1u64, 2i8),
        (0x109d3, 2u64, 2i8),
        (0x109d4, 3u64, 2i8),
        (0x109d5, 4u64, 2i8),
        (0x109d6, 5u64, 2i8),
        (0x109d7, 6u64, 2i8),
        (0x109d8, 7u64, 2i8),
        (0x109d9, 8u64, 2i8),
        (0x109da, 9u64, 2i8),
        (0x109db, 1u64, 3i8),
        (0x109dc, 2u64, 3i8),
        (0x109dd, 3u64, 3i8),
        (0x109de, 4u64, 3i8),
        (0x109df, 5u64, 3i8),
        (0x109e0, 6u64, 3i8),
        (0x109e1, 7u64, 3i8),
        (0x109e2, 8u64, 3i8),
        (0x109e3, 9u64, 3i8),
        (0x109e4, 1u64, 4i8),
        (0x109e5, 2u64, 4i8),
        (0x109e6, 3u64, 4i8),
        (0x109e7, 4u64, 4i8),
        (0x109e8, 5u64, 4i8),
        (0x109e9, 6u64, 4i8),
        (0x109ea, 7u64, 4i8),
        (0x109eb, 8u64, 4i8),
        (0x109ec, 9u64, 4i8),
        (0x109ed, 1u64, 5i8),
        (0x109ee, 2u64, 5i8),
        (0x109ef, 3u64, 5i8),
        (0x109f0, 4u64, 5i8),
        (0x109f1, 5u64, 5i8),
        (0x109f2, 6u64, 5i8),
        (0x109f3, 7u64, 5i8),
        (0x109f4, 8u64, 5i8),
        (0x109f5, 9u64, 5i8),
        (0x109f6, 8333333333333333u64, -17i8),
        (0x109f7, 16666666666666666u64, -17i8),
        (0x109f8, 25u64, -2i8),
        (0x109f9, 3333333333333333u64, -16i8),
        (0x109fa, 4166666666666667u64, -16i8),
        (0x109fb, 5u64, -1i8),
        (0x109fc, 5833333333333334u64, -16i8),
        (0x109fd, 6666666666666666u64, -16i8),
        (0x109fe, 75u64, -2i8),
        (0x109ff, 8333333333333334u64, -16i8),
        (0x10a44, 1u64, 1i8),
        (0x10a45, 2u64, 1i8),
        (0x10a46, 1u64, 2i8),
        (0x10a47, 1u64, 3i8),
        (0x10a48, 5u64, -1i8),
        (0x10a7d, 1u64, 0i8),
        (0x10a7e, 5u64, 1i8),
        (0x10a9d, 1u64, 0i8),
        (0x10a9e, 1u64, 1i8),
        (0x10a9f, 2u64, 1i8),
        (0x10aeb, 1u64, 0i8),
        (0x10aec, 5u64, 0i8),
        (0x10aed, 1u64, 1i8),
        (0x10aee, 2u64, 1i8),
        (0x10aef, 1u64, 2i8),
        (0x10b58, 1u64, 0i8),
        (0x10b59, 2u64, 0i8),
        (0x10b5a, 3u64, 0i8),
        (0x10b5b, 4u64, 0i8),
        (0x10b5c, 1u64, 1i8),
        (0x10b5d, 2u64, 1i8),
        (0x10b5e, 1u64, 2i8),
        (0x10b5f, 1u64, 3i8),
        (0x10b78, 1u64, 0i8),
        (0x10b79, 2u64, 0i8),
        (0x10b7a, 3u64, 0i8),
        (0x10b7b, 4u64, 0i8),
        (0x10b7c, 1u64, 1i8),
        (0x10b7d, 2u64, 1i8),
        (0x10b7e, 1u64, 2i8),
        (0x10b7f, 1u64, 3i8),
        (0x10ba9, 1u64, 0i8),
        (0x10baa, 2u64, 0i8),
        (0x10bab, 3u64, 0i8),
        (0x10bac, 4u64, 0i8),
        (0x10bad, 1u64, 1i8),
        (0x10bae, 2u64, 1i8),
        (0x10baf, 1u64, 2i8),
        (0x10cfa, 1u64, 0i8),
        (0x10cfb, 5u64, 0i8),
        (0x10cfc, 1u64, 1i8),
        (0x10cfd, 5u64, 1i8),
        (0x10cfe, 1u64, 2i8),
        (0x10cff, 1u64, 3i8),
        (0x10e69, 1u64, 1i8),
        (0x10e6a, 2u64, 1i8),
        (0x10e6b, 3u64, 1i8),
        (0x10e6c, 4u64, 1i8),
        (0x10e6d, 5u64, 1i8),
        (0x10e6e, 6u64, 1i8),
        (0x10e6f, 7u64, 1i8),
        (0x10e70, 8u64, 1i8),
        (0x10e71, 9u64, 1i8),
        (0x10e72, 1u64, 2i8),
        (0x10e73, 2u64, 2i8),
        (0x10e74, 3u64, 2i8),
        (0x10e75, 4u64, 2i8),
        (0x10e76, 5u64, 2i8),
        (0x10e77, 6u64, 2i8),
        (0x10e78, 7u64, 2i8),
        (0x10e79, 8u64, 2i8),
        (0x10e7a, 9u64, 2i8),
        (0x10e7b, 5u64, -1i8),
        (0x10e7c, 25u64, -2i8),
        (0x10e7d, 3333333333333333u64, -16i8),
        (0x10e7e, 6666666666666666u64, -16i8),
        (0x10f1d, 1u64, 0i8),
        (0x10f1e, 2u64, 0i8),
        (0x10f1f, 3u64, 0i8),
        (0x10f20, 4u64, 0i8),
        (0x10f21, 5u64, 0i8),
        (0x10f22, 1u64, 1i8),
        (0x10f23, 2u64, 1i8),
        (0x10f24, 3u64, 1i8),
        (0x10f25, 1u64, 2i8),
        (0x10f26, 5u64, -1i8),
        (0x10f51, 1u64, 0i8),
        (0x10f52, 1u64, 1i8),
        (0x10f53, 2u64, 1i8),
        (0x10f54, 1u64, 2i8),
        (0x10fc5, 1u64, 0i8),
        (0x10fc6, 2u64, 0i8),
        (0x10fc7, 3u64, 0i8),
        (0x10fc8, 4u64, 0i8),
        (0x10fc9, 1u64, 1i8),
        (0x10fca, 2u64, 1i8),
        (0x10fcb, 1u64, 2i8),
        (0x1105b, 1u64, 1i8),
        (0x1105c, 2u64, 1i8),
        (0x1105d, 3u64, 1i8),
        (0x1105e, 4u64, 1i8),
        (0x1105f, 5u64, 1i8),
        (0x11060, 6u64, 1i8),
        (0x11061, 7u64, 1i8),
        (0x11062, 8u64, 1i8),
        (0x11063, 9u64, 1i8),
        (0x11064, 1u64, 2i8),
        (0x11065, 1u64, 3i8),
        (0x111e1, 1u64, 0i8),
        (0x111e2, 2u64, 0i8),
        (0x111e3, 3u64, 0i8),
        (0x111e4, 4u64, 0i8),
        (0x111e5, 5u64, 0i8),
        (0x111e6, 6u64, 0i8),
        (0x111e7, 7u64, 0i8),
        (0x111e8, 8u64, 0i8),
        (0x111e9, 9u64, 0i8),
        (0x111ea, 1u64, 1i8),
        (0x111eb, 2u64, 1i8),
        (0x111ec, 3u64, 1i8),
        (0x111ed, 4u64, 1i8),
        (0x111ee, 5u64, 1i8),
        (0x111ef, 6u64, 1i8),
        (0x111f0, 7u64, 1i8),
        (0x111f1, 8u64, 1i8),
        (0x111f2, 9u64, 1i8),
        (0x111f3, 1u64, 2i8),
        (0x111f4, 1u64, 3i8),
        (0x1173a, 1u64, 1i8),
        (0x1173b, 2u64, 1i8),
        (0x118ea, 1u64, 1i8),
        (0x118eb, 2u64, 1i8),
        (0x118ec, 3u64, 1i8),
        (0x118ed, 4u64, 1i8),
        (0x118ee, 5u64, 1i8),
        (0x118ef, 6u64, 1i8),
        (0x118f0, 7u64, 1i8),
        (0x118f1, 8u64, 1i8),
        (0x118f2, 9u64, 1i8),
        (0x11c5a, 1u64, 0i8),
        (0x11c5b, 2u64, 0i8),
        (0x11c5c, 3u64, 0i8),
        (0x11c5d, 4u64, 0i8),
        (0x11c5e, 5u64, 0i8),
        (0x11c5f, 6u64, 0i8),
        (0x11c60, 7u64, 0i8),
        (0x11c61, 8u64, 0i8),
        (0x11c62, 9u64, 0i8),
        (0x11c63, 1u64, 1i8),
        (0x11c64, 2u64, 1i8),
        (0x11c65, 3u64, 1i8),
        (0x11c66, 4u64, 1i8),
        (0x11c67, 5u64, 1i8),
        (0x11c68, 6u64, 1i8),
        (0x11c69, 7u64, 1i8),
        (0x11c6a, 8u64, 1i8),
        (0x11c6b, 9u64, 1i8),
        (0x11c6c, 1u64, 2i8),
        (0x11fc0, 3125u64, -6i8),
        (0x11fc1, 625u64, -5i8),
        (0x11fc2, 125u64, -4i8),
        (0x11fc3, 15625u64, -6i8),
        (0x11fc4, 25u64, -3i8),
        (0x11fc5, 3125u64, -5i8),
        (0x11fc6, 375u64, -4i8),
        (0x11fc7, 46875u64, -6i8),
        (0x11fc8, 5u64, -2i8),
        (0x11fc9, 625u64, -4i8),
        (0x11fca, 625u64, -4i8),
        (0x11fcb, 1u64, -1i8),
        (0x11fcc, 125u64, -3i8),
        (0x11fcd, 15u64, -2i8),
        (0x11fce, 1875u64, -4i8),
        (0x11fcf, 2u64, -1i8),
        (0x11fd0, 25u64, -2i8),
        (0x11fd1, 5u64, -1i8),
        (0x11fd2, 5u64, -1i8),
        (0x11fd3, 75u64, -2i8),
        (0x11fd4, 3125u64, -6i8),
        (0x12400, 2u64, 0i8),
        (0x12401, 3u64, 0i8),
        (0x12402, 4u64, 0i8),
        (0x12403, 5u64, 0i8),
        (0x12404, 6u64, 0i8),
        (0x12405, 7u64, 0i8),
        (0x12406, 8u64, 0i8),
        (0x12407, 9u64, 0i8),
        (0x12408, 3u64, 0i8),
        (0x12409, 4u64, 0i8),
        (0x1240a, 5u64, 0i8),
        (0x1240b, 6u64, 0i8),
        (0x1240c, 7u64, 0i8),
        (0x1240d, 8u64, 0i8),
        (0x1240e, 9u64, 0i8),
        (0x1240f, 4u64, 0i8),
        (0x12410, 5u64, 0i8),
        (0x12411, 6u64, 0i8),
        (0x12412, 7u64, 0i8),
        (0x12413, 8u64, 0i8),
        (0x12414, 9u64, 0i8),
        (0x12415, 1u64, 0i8),
        (0x12416, 2u64, 0i8),
        (0x12417, 3u64, 0i8),
        (0x12418, 4u64, 0i8),
        (0x12419, 5u64, 0i8),
        (0x1241a, 6u64, 0i8),
        (0x1241b, 7u64, 0i8),
        (0x1241c, 8u64, 0i8),
        (0x1241d, 9u64, 0i8),
        (0x1241e, 1u64, 0i8),
        (0x1241f, 2u64, 0i8),
        (0x12420, 3u64, 0i8),
        (0x12421, 4u64, 0i8),
        (0x12422, 5u64, 0i8),
        (0x12423, 2u64, 0i8),
        (0x12424, 3u64, 0i8),
        (0x12425, 3u64, 0i8),
        (0x12426, 4u64, 0i8),
        (0x12427, 5u64, 0i8),
        (0x12428, 6u64, 0i8),
        (0x12429, 7u64, 0i8),
        (0x1242a, 8u64, 0i8),
        (0x1242b, 9u64, 0i8),
        (0x1242c, 1u64, 0i8),
        (0x1242d, 2u64, 0i8),
        (0x1242e, 3u64, 0i8),
        (0x1242f, 3u64, 0i8),
        (0x12430, 4u64, 0i8),
        (0x12431, 5u64, 0i8),
        (0x12432, 216u64, 3i8),
        (0x12433, 432u64, 3i8),
        (0x12434, 1u64, 0i8),
        (0x12435, 2u64, 0i8),
        (0x12436, 3u64, 0i8),
        (0x12437, 3u64, 0i8),
        (0x12438, 4u64, 0i8),
        (0x12439, 5u64, 0i8),
        (0x1243a, 3u64, 0i8),
        (0x1243b, 3u64, 0i8),
        (0x1243c, 4u64, 0i8),
        (0x1243d, 4u64, 0i8),
        (0x1243e, 4u64, 0i8),
        (0x1243f, 4u64, 0i8),
        (0x12440, 6u64, 0i8),
        (0x12441, 7u64, 0i8),
        (0x12442, 7u64, 0i8),
        (0x12443, 7u64, 0i8),
        (0x12444, 8u64, 0i8),
        (0x12445, 8u64, 0i8),
        (0x12446, 9u64, 0i8),
        (0x12447, 9u64, 0i8),
        (0x12448, 9u64, 0i8),
        (0x12449, 9u64, 0i8),
        (0x1244a, 2u64, 0i8),
        (0x1244b, 3u64, 0i8),
        (0x1244c, 4u64, 0i8),
        (0x1244d, 5u64, 0i8),
        (0x1244e, 6u64, 0i8),
        (0x1244f, 1u64, 0i8),
        (0x12450, 2u64, 0i8),
        (0x12451, 3u64, 0i8),
        (0x12452, 4u64, 0i8),
        (0x12453, 4u64, 0i8),
        (0x12454, 5u64, 0i8),
        (0x12455, 5u64, 0i8),
        (0x12456, 2u64, 0i8),
        (0x12457, 3u64, 0i8),
        (0x12458, 1u64, 0i8),
        (0x12459, 2u64, 0i8),
        (0x1245a, 3333333333333333u64, -16i8),
        (0x1245b, 6666666666666666u64, -16i8),
        (0x1245c, 8333333333333334u64, -16i8),
        (0x1245d, 3333333333333333u64, -16i8),
        (0x1245e, 6666666666666666u64, -16i8),
        (0x1245f, 125u64, -3i8),
        (0x12460, 25u64, -2i8),
        (0x12461, 16666666666666666u64, -17i8),
        (0x12462, 25u64, -2i8),
        (0x12463, 25u64, -2i8),
        (0x12464, 5u64, -1i8),
        (0x12465, 3333333333333333u64, -16i8),
        (0x12466, 6666666666666666u64, -16i8),
        (0x12467, 4u64, 1i8),
        (0x12468, 5u64, 1i8),
        (0x12469, 4u64, 0i8),
        (0x1246a, 5u64, 0i8),
        (0x1246b, 6u64, 0i8),
        (0x1246c, 7u64, 0i8),
        (0x1246d, 8u64, 0i8),
        (0x1246e, 9u64, 0i8),
        (0x16b5b, 1u64, 1i8),
        (0x16b5c, 1u64, 2i8),
        (0x16b5d, 1u64, 4i8),
        (0x16b5e, 1u64, 6i8),
        (0x16b5f, 1u64, 8i8),
        (0x16b60, 1u64, 10i8),
        (0x16b61, 1u64, 12i8),
        (0x16e80, 0u64, 0i8),
        (0x16e81, 1u64, 0i8),
        (0x16e82, 2u64, 0i8),
        (0x16e83, 3u64, 0i8),
        (0x16e84, 4u64, 0i8),
        (0x16e85, 5u64, 0i8),
        (0x16e86, 6u64, 0i8),
        (0x16e87, 7u64, 0i8),
        (0x16e88, 8u64, 0i8),
        (0x16e89, 9u64, 0i8),
        (0x16e8a, 1u64, 1i8),
        (0x16e8b, 11u64, 0i8),
        (0x16e8c, 12u64, 0i8),
        (0x16e8d, 13u64, 0i8),
        (0x16e8e, 14u64, 0i8),
        (0x16e8f, 15u64, 0i8),
        (0x16e90, 16u64, 0i8),
        (0x16e91, 17u64, 0i8),
        (0x16e92, 18u64, 0i8),
        (0x16e93, 19u64, 0i8),
        (0x16e94, 1u64, 0i8),
        (0x16e95, 2u64, 0i8),
        (0x16e96, 3u64, 0i8),
        (0x1d2e0, 0u64, 0i8),
        (0x1d2e1, 1u64, 0i8),
        (0x1d2e2, 2u64, 0i8),
        (0x1d2e3, 3u64, 0i8),
        (0x1d2e4, 4u64, 0i8),
        (0x1d2e5, 5u64, 0i8),
        (0x1d2e6, 6u64, 0i8),
        (0x1d2e7, 7u64, 0i8),
        (0x1d2e8, 8u64, 0i8),
        (0x1d2e9, 9u64, 0i8),
        (0x1d2ea, 1u64, 1i8),
        (0x1d2eb, 11u64, 0i8),
        (0x1d2ec, 12u64, 0i8),
        (0x1d2ed, 13u64, 0i8),
        (0x1d2ee, 14u64, 0i8),
        (0x1d2ef, 15u64, 0i8),
        (0x1d2f0, 16u64, 0i8),
        (0x1d2f1, 17u64, 0i8),
        (0x1d2f2, 18u64, 0i8),
        (0x1d2f3, 19u64, 0i8),
        (0x1d360, 1u64, 0i8),
        (0x1d361, 2u64, 0i8),
        (0x1d362, 3u64, 0i8),
        (0x1d363, 4u64, 0i8),
        (0x1d364, 5u64, 0i8),
        (0x1d365, 6u64, 0i8),
        (0x1d366, 7u64, 0i8),
        (0x1d367, 8u64, 0i8),
        (0x1d368, 9u64, 0i8),
        (0x1d369, 1u64, 1i8),
        (0x1d36a, 2u64, 1i8),
        (0x1d36b, 3u64, 1i8),
        (0x1d36c, 4u64, 1i8),
        (0x1d36d, 5u64, 1i8),
        (0x1d36e, 6u64, 1i8),
        (0x1d36f, 7u64, 1i8),
        (0x1d370, 8u64, 1i8),
        (0x1d371, 9u64, 1i8),
        (0x1d372, 1u64, 0i8),
        (0x1d373, 2u64, 0i8),
        (0x1d374, 3u64, 0i8),
        (0x1d375, 4u64, 0i8),
        (0x1d376, 5u64, 0i8),
        (0x1d377, 1u64, 0i8),
        (0x1d378, 5u64, 0i8),
        (0x1e8c7, 1u64, 0i8),
        (0x1e8c8, 2u64, 0i8),
        (0x1e8c9, 3u64, 0i8),
        (0x1e8ca, 4u64, 0i8),
        (0x1e8cb, 5u64, 0i8),
        (0x1e8cc, 6u64, 0i8),
        (0x1e8cd, 7u64, 0i8),
        (0x1e8ce, 8u64, 0i8),
        (0x1e8cf, 9u64, 0i8),
        (0x1ec71, 1u64, 0i8),
        (0x1ec72, 2u64, 0i8),
        (0x1ec73, 3u64, 0i8),
        (0x1ec74, 4u64, 0i8),
        (0x1ec75, 5u64, 0i8),
        (0x1ec76, 6u64, 0i8),
        (0x1ec77, 7u64, 0i8),
        (0x1ec78, 8u64, 0i8),
        (0x1ec79, 9u64, 0i8),
        (0x1ec7a, 1u64, 1i8),
        (0x1ec7b, 2u64, 1i8),
        (0x1ec7c, 3u64, 1i8),
        (0x1ec7d, 4u64, 1i8),
        (0x1ec7e, 5u64, 1i8),
        (0x1ec7f, 6u64, 1i8),
        (0x1ec80, 7u64, 1i8),
        (0x1ec81, 8u64, 1i8),
        (0x1ec82, 9u64, 1i8),
        (0x1ec83, 1u64, 2i8),
        (0x1ec84, 2u64, 2i8),
        (0x1ec85, 3u64, 2i8),
        (0x1ec86, 4u64, 2i8),
        (0x1ec87, 5u64, 2i8),
        (0x1ec88, 6u64, 2i8),
        (0x1ec89, 7u64, 2i8),
        (0x1ec8a, 8u64, 2i8),
        (0x1ec8b, 9u64, 2i8),
        (0x1ec8c, 1u64, 3i8),
        (0x1ec8d, 2u64, 3i8),
        (0x1ec8e, 3u64, 3i8),
        (0x1ec8f, 4u64, 3i8),
        (0x1ec90, 5u64, 3i8),
        (0x1ec91, 6u64, 3i8),
        (0x1ec92, 7u64, 3i8),
        (0x1ec93, 8u64, 3i8),
        (0x1ec94, 9u64, 3i8),
        (0x1ec95, 1u64, 4i8),
        (0x1ec96, 2u64, 4i8),
        (0x1ec97, 3u64, 4i8),
        (0x1ec98, 4u64, 4i8),
        (0x1ec99, 5u64, 4i8),
        (0x1ec9a, 6u64, 4i8),
        (0x1ec9b, 7u64, 4i8),
        (0x1ec9c, 8u64, 4i8),
        (0x1ec9d, 9u64, 4i8),
        (0x1ec9e, 1u64, 5i8),
        (0x1ec9f, 2u64, 5i8),
        (0x1eca0, 1u64, 5i8),
        (0x1eca1, 1u64, 7i8),
        (0x1eca2, 2u64, 7i8),
        (0x1eca3, 1u64, 0i8),
        (0x1eca4, 2u64, 0i8),
        (0x1eca5, 3u64, 0i8),
        (0x1eca6, 4u64, 0i8),
        (0x1eca7, 5u64, 0i8),
        (0x1eca8, 6u64, 0i8),
        (0x1eca9, 7u64, 0i8),
        (0x1ecaa, 8u64, 0i8),
        (0x1ecab, 9u64, 0i8),
        (0x1ecad, 25u64, -2i8),
        (0x1ecae, 5u64, -1i8),
        (0x1ecaf, 75u64, -2i8),
        (0x1ecb1, 1u64, 0i8),
        (0x1ecb2, 2u64, 0i8),
        (0x1ecb3, 1u64, 4i8),
        (0x1ecb4, 1u64, 5i8),
        (0x1ed01, 1u64, 0i8),
        (0x1ed02, 2u64, 0i8),
        (0x1ed03, 3u64, 0i8),
        (0x1ed04, 4u64, 0i8),
        (0x1ed05, 5u64, 0i8),
        (0x1ed06, 6u64, 0i8),
        (0x1ed07, 7u64, 0i8),
        (0x1ed08, 8u64, 0i8),
        (0x1ed09, 9u64, 0i8),
        (0x1ed0a, 1u64, 1i8),
        (0x1ed0b, 2u64, 1i8),
        (0x1ed0c, 3u64, 1i8),
        (0x1ed0d, 4u64, 1i8),
        (0x1ed0e, 5u64, 1i8),
        (0x1ed0f, 6u64, 1i8),
        (0x1ed10, 7u64, 1i8),
        (0x1ed11, 8u64, 1i8),
        (0x1ed12, 9u64, 1i8),
        (0x1ed13, 1u64, 2i8),
        (0x1ed14, 2u64, 2i8),
        (0x1ed15, 3u64, 2i8),
        (0x1ed16, 4u64, 2i8),
        (0x1ed17, 5u64, 2i8),
        (0x1ed18, 6u64, 2i8),
        (0x1ed19, 7u64, 2i8),
        (0x1ed1a, 8u64, 2i8),
        (0x1ed1b, 9u64, 2i8),
        (0x1ed1c, 1u64, 3i8),
        (0x1ed1d, 2u64, 3i8),
        (0x1ed1e, 3u64, 3i8),
        (0x1ed1f, 4u64, 3i8),
        (0x1ed20, 5u64, 3i8),
        (0x1ed21, 6u64, 3i8),
        (0x1ed22, 7u64, 3i8),
        (0x1ed23, 8u64, 3i8),
        (0x1ed24, 9u64, 3i8),
        (0x1ed25, 1u64, 4i8),
        (0x1ed26, 2u64, 4i8),
        (0x1ed27, 3u64, 4i8),
        (0x1ed28, 4u64, 4i8),
        (0x1ed29, 5u64, 4i8),
        (0x1ed2a, 6u64, 4i8),
        (0x1ed2b, 7u64, 4i8),
        (0x1ed2c, 8u64, 4i8),
        (0x1ed2d, 9u64, 4i8),
        (0x1ed2f, 2u64, 0i8),
        (0x1ed30, 3u64, 0i8),
        (0x1ed31, 4u64, 0i8),
        (0x1ed32, 5u64, 0i8),
        (0x1ed33, 6u64, 0i8),
        (0x1ed34, 7u64, 0i8),
        (0x1ed35, 8u64, 0i8),
        (0x1ed36, 9u64, 0i8),
        (0x1ed37, 1u64, 1i8),
        (0x1ed38, 4u64, 2i8),
        (0x1ed39, 6u64, 2i8),
        (0x1ed3a, 2u64, 3i8),
        (0x1ed3b, 1u64, 4i8),
        (0x1ed3c, 5u64, -1i8),
        (0x1ed3d, 16666666666666666u64, -17i8),
        (0x1f10b, 0u64, 0i8),
        (0x1f10c, 0u64, 0i8),
        (0x20001, 7u64, 0i8),
        (0x20064, 4u64, 0i8),
        (0x200e2, 4u64, 0i8),
        (0x20121, 5u64, 0i8),
        (0x2092a, 1u64, 0i8),
        (0x20983, 3u64, 1i8),
        (0x2098c, 4u64, 1i8),
        (0x2099c, 4u64, 1i8),
        (0x20aea, 6u64, 0i8),
        (0x20afd, 3u64, 0i8),
        (0x20b19, 3u64, 0i8),
        (0x22390, 2u64, 0i8),
        (0x22998, 3u64, 0i8),
        (0x23b1b, 3u64, 0i8),
        (0x2626d, 4u64, 0i8),
        (0x2f890, 9u64, 0i8)
    ]
}

pub fn numeric_values_table() -> (r: Vec<(u32, u64, i8)>)
    ensures
        r@ == numeric_values(),
{
    reveal(numeric_values);
    vec![
        (0xbc, 25u64, -2i8),
        (0xbd, 5u64, -1i8),
        (0xbe, 75u64, -2i8),
        (0x9f4, 625u64, -4i8),
        (0x9f5, 125u64, -3i8),
        (0x9f6, 1875u64, -4i8),
        (0x9f7, 25u64, -2i8),
        (0x9f8, 75u64, -2i8),
        (0x9f9, 16u64, 0i8),
        (0xb72, 25u64, -2i8),
        (0xb73, 5u64, -1i8),
        (0xb74, 75u64, -2i8),
        (0xb75, 625u64, -4i8),
        (0xb76, 125u64, -3i8),
        (0xb77, 1875u64, -4i8),
        (0xbf0, 1u64, 1i8),
        (0xbf1, 1u64, 2i8),
        (0xbf2, 1u64, 3i8),
        (0xc78, 0u64, 0i8),
        (0xc79, 1u64, 0i8),
        (0xc7a, 2u64, 0i8),
        (0xc7b, 3u64, 0i8),
        (0xc7c, 1u64, 0i8),
        (0xc7d, 2u64, 0i8),
        (0xc7e, 3u64, 0i8),
        (0xd58, 625u64, -5i8),
        (0xd59, 25u64, -3i8),
        (0xd5a, 375u64, -4i8),
        (0xd5b, 5u64, -2i8),
        (0xd5c, 1u64, -1i8),
        (0xd5d, 15u64, -2i8),
        (0xd5e, 2u64, -1i8),
        (0xd70, 1u64, 1i8),
        (0xd71, 1u64, 2i8),
        (0xd72, 1u64, 3i8),
        (0xd73, 25u64, -2i8),
        (0xd74, 5u64, -1i8),
        (0xd75, 75u64, -2i8),
        (0xd76, 625u64, -4i8),
        (0xd77, 125u64, -3i8),
        (0xd78, 1875u64, -4i8),
        (0xf2a, 5u64, -1i8),
        (0xf2b, 15u64, -1i8),
        (0xf2c, 25u64, -1i8),
        (0xf2d, 35u64, -1i8),
        (0xf2e, 45u64, -1i8),
        (0xf2f, 55u64, -1i8),
        (0xf30, 65u64, -1i8),
        (0xf31, 75u64, -1i8),
        (0xf32, 85u64, -1i8),
        (0xf33, 5u64, -1i8),
        (0x1372, 1u64, 1i8),
        (0x1373, 2u64, 1i8),
        (0x1374, 3u64, 1i8),
        (0x1375, 4u64, 1i8),
        (0x1376, 5u64, 1i8),
        (0x1377, 6u64, 1i8),
        (0x1378, 7u64, 1i8),
        (0x1379, 8u64, 1i8),
        (0x137a, 9u64, 1i8),
        (0x137b, 1u64, 2i8),
        (0x137c, 1u64, 4i8),
        (0x16ee, 17u64, 0i8),
        (0x16ef, 18u64, 0i8),
        (0x16f0, 19u64, 0i8),
        (0x17f0, 0u64, 0i8),
        (0x17f1, 1u64, 0i8),
        (0x17f2, 2u64, 0i8),
        (0x17f3, 3u64, 0i8),
        (0x17f4, 4u64, 0i8),
        (0x17f5, 5u64, 0i8),
        (0x17f6, 6u64, 0i8),
        (0x17f7, 7u64, 0i8),
        (0x17f8, 8u64, 0i8),
        (0x17f9, 9u64, 0i8),
        (0x2150, 14285714285714285u64, -17i8),
        (0x2151, 1111111111111111u64, -16i8),
        (0x2152, 1u64, -1i8),
        (0x2153, 3333333333333333u64, -16i8),
        (0x2154, 6666666666666666u64, -16i8),
        (0x2155, 2u64, -1i8),
        (0x2156, 4u64, -1i8),
        (0x2157, 6u64, -1i8),
        (0x2158, 8u64, -1i8),
        (0x2159, 16666666666666666u64, -17i8),
        (0x215a, 8333333333333334u64, -16i8),
        (0x215b, 125u64, -3i8),
        (0x215c, 375u64, -3i8),
        (0x215d, 625u64, -3i8),
        (0x215e, 875u64, -3i8),
        (0x215f, 1u64, 0i8),
        (0x2160, 1u64, 0i8),
        (0x2161, 2u64, 0i8),
        (0x2162, 3u64, 0i8),
        (0x2163, 4u64, 0i8),
        (0x2164, 5u64, 0i8),
        (0x2165, 6u64, 0i8),
        (0x2166, 7u64, 0i8),
        (0x2167, 8u64, 0i8),
        (0x2168, 9u64, 0i8),
        (0x2169, 1u64, 1i8),
        (0x216a, 11u64, 0i8),
        (0x216b, 12u64, 0i8),
        (0x216c, 5u64, 1i8),
        (0x216d, 1u64, 2i8),
        (0x216e, 5u64, 2i8),
        (0x216f, 1u64, 3i8),
        (0x2170, 1u64, 0i8),
        (0x2171, 2u64, 0i8),
        (0x2172, 3u64, 0i8),
        (0x2173, 4u64, 0i8),
        (0x2174, 5u64, 0i8),
        (0x2175, 6u64, 0i8),
        (0x2176, 7u64, 0i8),
        (0x2177, 8u64, 0i8),
        (0x2178, 9u64, 0i8),
        (0x2179, 1u64, 1i8),
        (0x217a, 11u64, 0i8),
        (0x217b, 12u64, 0i8),
        (0x217c, 5u64, 1i8),
        (0x217d, 1u64, 2i8),
        (0x217e, 5u64, 2i8),
        (0x217f, 1u64, 3i8),
        (0x2180, 1u64, 3i8),
        (0x2181, 5u64, 3i8),
        (0x2182, 1u64, 4i8),
        (0x2185, 6u64, 0i8),
        (0x2186, 5u64, 1i8),
        (0x2187, 5u64, 4i8),
        (0x2188, 1u64, 5i8),
        (0x2189, 0u64, 0i8),
        (0x2469, 1u64, 1i8),
        (0x246a, 11u64, 0i8),
        (0x246b, 12u64, 0i8),
        (0x246c, 13u64, 0i8),
        (0x246d, 14u64, 0i8),
        (0x246e, 15u64, 0i8),
        (0x246f, 16u64, 0i8),
        (0x2470, 17u64, 0i8),
        (0x2471, 18u64, 0i8),
        (0x2472, 19u64, 0i8),
        (0x2473, 2u64, 1i8),
        (0x247d, 1u64, 1i8),
        (0x247e, 11u64, 0i8),
        (0x247f, 12u64, 0i8),
        (0x2480, 13u64, 0i8),
        (0x2481, 14u64, 0i8),
        (0x2482, 15u64, 0i8),
        (0x2483, 16u64, 0i8),
        (0x2484, 17u64, 0i8),
        (0x2485, 18u64, 0i8),
        (0x2486, 19u64, 0i8),
        (0x2487, 2u64, 1i8),
        (0x2491, 1u64, 1i8),
        (0x2492, 11u64, 0i8),
        (0x2493, 12u64, 0i8),
        (0x2494, 13u64, 0i8),
        (0x2495, 14u64, 0i8),
        (0x2496, 15u64, 0i8),
        (0x2497, 16u64, 0i8),
        (0x2498, 17u64, 0i8),
        (0x2499, 18u64, 0i8),
        (0x249a, 19u64, 0i8),
        (0x249b, 2u64, 1i8),
        (0x24eb, 11u64, 0i8),
        (0x24ec, 12u64, 0i8),
        (0x24ed, 13u64, 0i8),
        (0x24ee, 14u64, 0i8),
        (0x24ef, 15u64, 0i8),
        (0x24f0, 16u64, 0i8),
        (0x24f1, 17u64, 0i8),
        (0x24f2, 18u64, 0i8),
        (0x24f3, 19u64, 0i8),
        (0x24f4, 2u64, 1i8),
        (0x24fe, 1u64, 1i8),
        (0x277f, 1u64, 1i8),
        (0x2789, 1u64, 1i8),
        (0x2793, 1u64, 1i8),
        (0x2cfd, 5u64, -1i8),
        (0x3007, 0u64, 0i8),
        (0x3021, 1u64, 0i8),
        (0x3022, 2u64, 0i8),
        (0x3023, 3u64, 0i8),
        (0x3024, 4u64, 0i8),
        (0x3025, 5u64, 0i8),
        (0x3026, 6u64, 0i8),
        (0x3027, 7u64, 0i8),
        (0x3028, 8u64, 0i8),
        (0x3029, 9u64, 0i8),
        (0x3038, 1u64, 1i8),
        (0x3039, 2u64, 1i8),
        (0x303a, 3u64, 1i8),
        (0x3192, 1u64, 0i8),
        (0x3193, 2u64, 0i8),
        (0x3194, 3u64, 0i8),
        (0x3195, 4u64, 0i8),
        (0x3220, 1u64, 0i8),
        (0x3221, 2u64, 0i8),
        (0x3222, 3u64, 0i8),
        (0x3223, 4u64, 0i8),
        (0x3224, 5u64, 0i8),
        (0x3225, 6u64, 0i8),
        (0x3226, 7u64, 0i8),
        (0x3227, 8u64, 0i8),
        (0x3228, 9u64, 0i8),
        (0x3229, 1u64, 1i8),
        (0x3248, 1u64, 1i8),
        (0x3249, 2u64, 1i8),
        (0x324a, 3u64, 1i8),
        (0x324b, 4u64, 1i8),
        (0x324c, 5u64, 1i8),
        (0x324d, 6u64, 1i8),
        (0x324e, 7u64, 1i8),
        (0x324f, 8u64, 1i8),
        (0x3251, 21u64, 0i8),
        (0x3252, 22u64, 0i8),
        (0x3253, 23u64, 0i8),
        (0x3254, 24u64, 0i8),
        (0x3255, 25u64, 0i8),
        (0x3256, 26u64, 0i8),
        (0x3257, 27u64, 0i8),
        (0x3258, 28u64, 0i8),
        (0x3259, 29u64, 0i8),
        (0x325a, 3u64, 1i8),
        (0x325b, 31u64, 0i8),
        (0x325c, 32u64, 0i8),
        (0x325d, 33u64, 0i8),
        (0x325e, 34u64, 0i8),
        (0x325f, 35u64, 0i8),
        (0x3280, 1u64, 0i8),
        (0x3281, 2u64, 0i8),
        (0x3282, 3u64, 0i8),
        (0x3283, 4u64, 0i8),
        (0x3284, 5u64, 0i8),
        (0x3285, 6u64, 0i8),
        (0x3286, 7u64, 0i8),
        (0x3287, 8u64, 0i8),
        (0x3288, 9u64, 0i8),
        (0x3289, 1u64, 1i8),
        (0x32b1, 36u64, 0i8),
        (0x32b2, 37u64, 0i8),
        (0x32b3, 38u64, 0i8),
        (0x32b4, 39u64, 0i8),
        (0x32b5, 4u64, 1i8),
        (0x32b6, 41u64, 0i8),
        (0x32b7, 42u64, 0i8),
        (0x32b8, 43u64, 0i8),
        (0x32b9, 44u64, 0i8),
        (0x32ba, 45u64, 0i8),
        (0x32bb, 46u64, 0i8),
        (0x32bc, 47u64, 0i8),
        (0x32bd, 48u64, 0i8),
        (0x32be, 49u64, 0i8),
        (0x32bf, 5u64, 1i8),
        (0x3405, 5u64, 0i8),
        (0x3483, 2u64, 0i8),
        (0x382a, 5u64, 0i8),
        (0x3b4d, 7u64, 0i8),
        (0x4e00, 1u64, 0i8),
        (0x4e03, 7u64, 0i8),
        (0x4e07, 1u64, 4i8),
        (0x4e09, 3u64, 0i8),
        (0x4e5d, 9u64, 0i8),
        (0x4e8c, 2u64, 0i8),
        (0x4e94, 5u64, 0i8),
        (0x4e96, 4u64, 0i8),
        (0x4ebf, 1u64, 8i8),
        (0x4ec0, 1u64, 1i8),
        (0x4edf, 1u64, 3i8),
        (0x4ee8, 3u64, 0i8),
        (0x4f0d, 5u64, 0i8),
        (0x4f70, 1u64, 2i8),
        (0x5104, 1u64, 8i8),
        (0x5146, 1u64, 12i8),
        (0x5169, 2u64, 0i8),
        (0x516b, 8u64, 0i8),
        (0x516d, 6u64, 0i8),
        (0x5341, 1u64, 1i8),
        (0x5343, 1u64, 3i8),
        (0x5344, 2u64, 1i8),
        (0x5345, 3u64, 1i8),
        (0x534c, 4u64, 1i8),
        (0x53c1, 3u64, 0i8),
        (0x53c2, 3u64, 0i8),
        (0x53c3, 3u64, 0i8),
        (0x53c4, 3u64, 0i8),
        (0x56db, 4u64, 0i8),
        (0x58f1, 1u64, 0i8),
        (0x58f9, 1u64, 0i8),
        (0x5e7a, 1u64, 0i8),
        (0x5efe, 9u64, 0i8),
        (0x5eff, 2u64, 1i8),
        (0x5f0c, 1u64, 0i8),
        (0x5f0d, 2u64, 0i8),
        (0x5f0e, 3u64, 0i8),
        (0x5f10, 2u64, 0i8),
        (0x62fe, 1u64, 1i8),
        (0x634c, 8u64, 0i8),
        (0x67d2, 7u64, 0i8),
        (0x6f06, 7u64, 0i8),
        (0x7396, 9u64, 0i8),
        (0x767e, 1u64, 2i8),
        (0x8086, 4u64, 0i8),
        (0x842c, 1u64, 4i8),
        (0x8cae, 2u64, 0i8),
        (0x8cb3, 2u64, 0i8),
        (0x8d30, 2u64, 0i8),
        (0x9621, 1u64, 3i8),
        (0x9646, 6u64, 0i8),
        (0x964c, 1u64, 2i8),
        (0x9678, 6u64, 0i8),
        (0x96f6, 0u64, 0i8),
        (0xa6e6, 1u64, 0i8),
        (0xa6e7, 2u64, 0i8),
        (0xa6e8, 3u64, 0i8),
        (0xa6e9, 4u64, 0i8),
        (0xa6ea, 5u64, 0i8),
        (0xa6eb, 6u64, 0i8),
        (0xa6ec, 7u64, 0i8),
        (0xa6ed, 8u64, 0i8),
        (0xa6ee, 9u64, 0i8),
        (0xa6ef, 0u64, 0i8),
        (0xa830, 25u64, -2i8),
        (0xa831, 5u64, -1i8),
        (0xa832, 75u64, -2i8),
        (0xa833, 625u64, -4i8),
        (0xa834, 125u64, -3i8),
        (0xa835, 1875u64, -4i8),
        (0xf96b, 3u64, 0i8),
        (0xf973, 1u64, 1i8),
        (0xf978, 2u64, 0i8),
        (0xf9b2, 0u64, 0i8),
        (0xf9d1, 6u64, 0i8),
        (0xf9d3, 6u64, 0i8),
        (0xf9fd, 1u64, 1i8),
        (0x10107, 1u64, 0i8),
        (0x10108, 2u64, 0i8),
        (0x10109, 3u64, 0i8),
        (0x1010a, 4u64, 0i8),
        (0x1010b, 5u64, 0i8),
        (0x1010c, 6u64, 0i8),
        (0x1010d, 7u64, 0i8),
        (0x1010e, 8u64, 0i8),
        (0x1010f, 9u64, 0i8),
        (0x10110, 1u64, 1i8),
        (0x10111, 2u64, 1i8),
        (0x10112, 3u64, 1i8),
        (0x10113, 4u64, 1i8),
        (0x10114, 5u64, 1i8),
        (0x10115, 6u64, 1i8),
        (0x10116, 7u64, 1i8),
        (0x10117, 8u64, 1i8),
        (0x10118, 9u64, 1i8),
        (0x10119, 1u64, 2i8),
        (0x1011a, 2u64, 2i8),
        (0x1011b, 3u64, 2i8),
        (0x1011c, 4u64, 2i8),
        (0x1011d, 5u64, 2i8),
        (0x1011e, 6u64, 2i8),
        (0x1011f, 7u64, 2i8),
        (0x10120, 8u64, 2i8),
        (0x10121, 9u64, 2i8),
        (0x10122, 1u64, 3i8),
        (0x10123, 2u64, 3i8),
        (0x10124, 3u64, 3i8),
        (0x10125, 4u64, 3i8),
        (0x10126, 5u64, 3i8),
        (0x10127, 6u64, 3i8),
        (0x10128, 7u64, 3i8),
        (0x10129, 8u64, 3i8),
        (0x1012a, 9u64, 3i8),
        (0x1012b, 1u64, 4i8),
        (0x1012c, 2u64, 4i8),
        (0x1012d, 3u64, 4i8),
        (0x1012e, 4u64, 4i8),
        (0x1012f, 5u64, 4i8),
        (0x10130, 6u64, 4i8),
        (0x10131, 7u64, 4i8),
        (0x10132, 8u64, 4i8),
        (0x10133, 9u64, 4i8),
        (0x10140, 25u64, -2i8),
        (0x10141, 5u64, -1i8),
        (0x10142, 1u64, 0i8),
        (0x10143, 5u64, 0i8),
        (0x10144, 5u64, 1i8),
        (0x10145, 5u64, 2i8),
        (0x10146, 5u64, 3i8),
        (0x10147, 5u64, 4i8),
        (0x10148, 5u64, 0i8),
        (0x10149, 1u64, 1i8),
        (0x1014a, 5u64, 1i8),
        (0x1014b, 1u64, 2i8),
        (0x1014c, 5u64, 2i8),
        (0x1014d, 1u64, 3i8),
        (0x1014e, 5u64, 3i8),
        (0x1014f, 5u64, 0i8),
        (0x10150, 1u64, 1i8),
        (0x10151, 5u64, 1i8),
        (0x10152, 1u64, 2i8),
        (0x10153, 5u64, 2i8),
        (0x10154, 1u64, 3i8),
        (0x10155, 1u64, 4i8),
        (0x10156, 5u64, 4i8),
        (0x10157, 1u64, 1i8),
        (0x10158, 1u64, 0i8),
        (0x10159, 1u64, 0i8),
        (0x1015a, 1u64, 0i8),
        (0x1015b, 2u64, 0i8),
        (0x1015c, 2u64, 0i8),
        (0x1015d, 2u64, 0i8),
        (0x1015e, 2u64, 0i8),
        (0x1015f, 5u64, 0i8),
        (0x10160, 1u64, 1i8),
        (0x10161, 1u64, 1i8),
        (0x10162, 1u64, 1i8),
        (0x10163, 1u64, 1i8),
        (0x10164, 1u64, 1i8),
        (0x10165, 3u64, 1i8),
        (0x10166, 5u64, 1i8),
        (0x10167, 5u64, 1i8),
        (0x10168, 5u64, 1i8),
        (0x10169, 5u64, 1i8),
        (0x1016a, 1u64, 2i8),
        (0x1016b, 3u64, 2i8),
        (0x1016c, 5u64, 2i8),
        (0x1016d, 5u64, 2i8),
        (0x1016e, 5u64, 2i8),
        (0x1016f, 5u64, 2i8),
        (0x10170, 5u64, 2i8),
        (0x10171, 1u64, 3i8),
        (0x10172, 5u64, 3i8),
        (0x10173, 5u64, 0i8),
        (0x10174, 5u64, 1i8),
        (0x10175, 5u64, -1i8),
        (0x10176, 5u64, -1i8),
        (0x10177, 6666666666666666u64, -16i8),
        (0x10178, 75u64, -2i8),
        (0x1018a, 0u64, 0i8),
        (0x1018b, 25u64, -2i8),
        (0x102e1, 1u64, 0i8),
        (0x102e2, 2u64, 0i8),
        (0x102e3, 3u64, 0i8),
        (0x102e4, 4u64, 0i8),
        (0x102e5, 5u64, 0i8),
        (0x102e6, 6u64, 0i8),
        (0x102e7, 7u64, 0i8),
        (0x102e8, 8u64, 0i8),
        (0x102e9, 9u64, 0i8),
        (0x102ea, 1u64, 1i8),
        (0x102eb, 2u64, 1i8),
        (0x102ec, 3u64, 1i8),
        (0x102ed, 4u64, 1i8),
        (0x102ee, 5u64, 1i8),
        (0x102ef, 6u64, 1i8),
        (0x102f0, 7u64, 1i8),
        (0x102f1, 8u64, 1i8),
        (0x102f2, 9u64, 1i8),
        (0x102f3, 1u64, 2i8),
        (0x102f4, 2u64, 2i8),
        (0x102f5, 3u64, 2i8),
        (0x102f6, 4u64, 2i8),
        (0x102f7, 5u64, 2i8),
        (0x102f8, 6u64, 2i8),
        (0x102f9, 7u64, 2i8),
        (0x102fa, 8u64, 2i8),
        (0x102fb, 9u64, 2i8),
        (0x10320, 1u64, 0i8),
        (0x10321, 5u64, 0i8),
        (0x10322, 1u64, 1i8),
        (0x10323, 5u64, 1i8),
        (0x10341, 9u64, 1i8),
        (0x1034a, 9u64, 2i8),
        (0x103d1, 1u64, 0i8),
        (0x103d2, 2u64, 0i8),
        (0x103d3, 1u64, 1i8),
        (0x103d4, 2u64, 1i8),
        (0x103d5, 1u64, 2i8),
        (0x10858, 1u64, 0i8),
        (0x10859, 2u64, 0i8),
        (0x1085a, 3u64, 0i8),
        (0x1085b, 1u64, 1i8),
        (0x1085c, 2u64, 1i8),
        (0x1085d, 1u64, 2i8),
        (0x1085e, 1u64, 3i8),
        (0x1085f, 1u64, 4i8),
        (0x10879, 1u64, 0i8),
        (0x1087a, 2u64, 0i8),
        (0x1087b, 3u64, 0i8),
        (0x1087c, 4u64, 0i8),
        (0x1087d, 5u64, 0i8),
        (0x1087e, 1u64, 1i8),
        (0x1087f, 2u64, 1i8),
        (0x108a7, 1u64, 0i8),
        (0x108a8, 2u64, 0i8),
        (0x108a9, 3u64, 0i8),
        (0x108aa, 4u64, 0i8),
        (0x108ab, 4u64, 0i8),
        (0x108ac, 5u64, 0i8),
        (0x108ad, 1u64, 1i8),
        (0x108ae, 2u64, 1i8),
        (0x108af, 1u64, 2i8),
        (0x108fb, 1u64, 0i8),
        (0x108fc, 5u64, 0i8),
        (0x108fd, 1u64, 1i8),
        (0x108fe, 2u64, 1i8),
        (0x108ff, 1u64, 2i8),
        (0x10916, 1u64, 0i8),
        (0x10917, 1u64, 1i8),
        (0x10918, 2u64, 1i8),
        (0x10919, 1u64, 2i8),
        (0x1091a, 2u64, 0i8),
        (0x1091b, 3u64, 0i8),
        (0x109bc, 9166666666666666u64, -16i8),
        (0x109bd, 5u64, -1i8),
        (0x109c0, 1u64, 0i8),
        (0x109c1, 2u64, 0i8),
        (0x109c2, 3u64, 0i8),
        (0x109c3, 4u64, 0i8),
        (0x109c4, 5u64, 0i8),
        (0x109c5, 6u64, 0i8),
        (0x109c6, 7u64, 0i8),
        (0x109c7, 8u64, 0i8),
        (0x109c8, 9u64, 0i8),
        (0x109c9, 1u64, 1i8),
        (0x109ca, 2u64, 1i8),
        (0x109cb, 3u64, 1i8),
        (0x109cc, 4u64, 1i8),
        (0x109cd, 5u64, 1i8),
        (0x109ce, 6u64, 1i8),
        (0x109cf, 7u64, 1i8),
        (0x109d2, 1u64, 2i8),
        (0x109d3, 2u64, 2i8),
        (0x109d4, 3u64, 2i8),
        (0x109d5, 4u64, 2i8),
        (0x109d6, 5u64, 2i8),
        (0x109d7, 6u64, 2i8),
        (0x109d8, 7u64, 2i8),
        (0x109d9, 8u64, 2i8),
        (0x109da, 9u64, 2i8),
        (0x109db, 1u64, 3i8),
        (0x109dc, 2u64, 3i8),
        (0x109dd, 3u64, 3i8),
        (0x109de, 4u64, 3i8),
        (0x109df, 5u64, 3i8),
        (0x109e0, 6u64, 3i8),
        (0x109e1, 7u64, 3i8),
        (0x109e2, 8u64, 3i8),
        (0x109e3, 9u64, 3i8),
        (0x109e4, 1u64, 4i8),
        (0x109e5, 2u64, 4i8),
        (0x109e6, 3u64, 4i8),
        (0x109e7, 4u64, 4i8),
        (0x109e8, 5u64, 4i8),
        (0x109e9, 6u64, 4i8),
        (0x109ea, 7u64, 4i8),
        (0x109eb, 8u64, 4i8),
        (0x109ec, 9u64, 4i8),
        (0x109ed, 1u64, 5i8),
        (0x109ee, 2u64, 5i8),
        (0x109ef, 3u64, 5i8),
        (0x109f0, 4u64, 5i8),
        (0x109f1, 5u64, 5i8),
        (0x109f2, 6u64, 5i8),
        (0x109f3, 7u64, 5i8),
        (0x109f4, 8u64, 5i8),
        (0x109f5, 9u64, 5i8),
        (0x109f6, 8333333333333333u64, -17i8),
        (0x109f7, 16666666666666666u64, -17i8),
        (0x109f8, 25u64, -2i8),
        (0x109f9, 3333333333333333u64, -16i8),
        (0x109fa, 4166666666666667u64, -16i8),
        (0x109fb, 5u64, -1i8),
        (0x109fc, 5833333333333334u64, -16i8),
        (0x109fd, 6666666666666666u64, -16i8),
        (0x109fe, 75u64, -2i8),
        (0x109ff, 8333333333333334u64, -16i8),
        (0x10a44, 1u64, 1i8),
        (0x10a45, 2u64, 1i8),
        (0x10a46, 1u64, 2i8),
        (0x10a47, 1u64, 3i8),
        (0x10a48, 5u64, -1i8),
        (0x10a7d, 1u64, 0i8),
        (0x10a7e, 5u64, 1i8),
        (0x10a9d, 1u64, 0i8),
        (0x10a9e, 1u64, 1i8),
        (0x10a9f, 2u64, 1i8),
        (0x10aeb, 1u64, 0i8),
        (0x10aec, 5u64, 0i8),
        (0x10aed, 1u64, 1i8),
        (0x10aee, 2u64, 1i8),
        (0x10aef, 1u64, 2i8),
        (0x10b58, 1u64, 0i8),
        (0x10b59, 2u64, 0i8),
        (0x10b5a, 3u64, 0i8),
        (0x10b5b, 4u64, 0i8),
        (0x10b5c, 1u64, 1i8),
        (0x10b5d, 2u64, 1i8),
        (0x10b5e, 1u64, 2i8),
        (0x10b5f, 1u64, 3i8),
        (0x10b78, 1u64, 0i8),
        (0x10b79, 2u64, 0i8),
        (0x10b7a, 3u64, 0i8),
        (0x10b7b, 4u64, 0i8),
        (0x10b7c, 1u64, 1i8),
        (0x10b7d, 2u64, 1i8),
        (0x10b7e, 1u64, 2i8),
        (0x10b7f, 1u64, 3i8),
        (0x10ba9, 1u64, 0i8),
        (0x10baa, 2u64, 0i8),
        (0x10bab, 3u64, 0i8),
        (0x10bac, 4u64, 0i8),
        (0x10bad, 1u64, 1i8),
        (0x10bae, 2u64, 1i8),
        (0x10baf, 1u64, 2i8),
        (0x10cfa, 1u64, 0i8),
        (0x10cfb, 5u64, 0i8),
        (0x10cfc, 1u64, 1i8),
        (0x10cfd, 5u64, 1i8),
        (0x10cfe, 1u64, 2i8),
        (0x10cff, 1u64, 3i8),
        (0x10e69, 1u64, 1i8),
        (0x10e6a, 2u64, 1i8),
        (0x10e6b, 3u64, 1i8),
        (0x10e6c, 4u64, 1i8),
        (0x10e6d, 5u64, 1i8),
        (0x10e6e, 6u64, 1i8),
        (0x10e6f, 7u64, 1i8),
        (0x10e70, 8u64, 1i8),
        (0x10e71, 9u64, 1i8),
        (0x10e72, 1u64, 2i8),
        (0x10e73, 2u64, 2i8),
        (0x10e74, 3u64, 2i8),
        (0x10e75, 4u64, 2i8),
        (0x10e76, 5u64, 2i8),
        (0x10e77, 6u64, 2i8),
        (0x10e78, 7u64, 2i8),
        (0x10e79, 8u64, 2i8),
        (0x10e7a, 9u64, 2i8),
        (0x10e7b, 5u64, -1i8),
        (0x10e7c, 25u64, -2i8),
        (0x10e7d, 3333333333333333u64, -16i8),
        (0x10e7e, 6666666666666666u64, -16i8),
        (0x10f1d, 1u64, 0i8),
        (0x10f1e, 2u64, 0i8),
        (0x10f1f, 3u64, 0i8),
        (0x10f20, 4u64, 0i8),
        (0x10f21, 5u64, 0i8),
        (0x10f22, 1u64, 1i8),
        (0x10f23, 2u64, 1i8),
        (0x10f24, 3u64, 1i8),
        (0x10f25, 1u64, 2i8),
        (0x10f26, 5u64, -1i8),
        (0x10f51, 1u64, 0i8),
        (0x10f52, 1u64, 1i8),
        (0x10f53, 2u64, 1i8),
        (0x10f54, 1u64, 2i8),
        (0x10fc5, 1u64, 0i8),
        (0x10fc6, 2u64, 0i8),
        (0x10fc7, 3u64, 0i8),
        (0x10fc8, 4u64, 0i8),
        (0x10fc9, 1u64, 1i8),
        (0x10fca, 2u64, 1i8),
        (0x10fcb, 1u64, 2i8),
        (0x1105b, 1u64, 1i8),
        (0x1105c, 2u64, 1i8),
        (0x1105d, 3u64, 1i8),
        (0x1105e, 4u64, 1i8),
        (0x1105f, 5u64, 1i8),
        (0x11060, 6u64, 1i8),
        (0x11061, 7u64, 1i8),
        (0x11062, 8u64, 1i8),
        (0x11063, 9u64, 1i8),
        (0x11064, 1u64, 2i8),
        (0x11065, 1u64, 3i8),
        (0x111e1, 1u64, 0i8),
        (0x111e2, 2u64, 0i8),
        (0x111e3, 3u64, 0i8),
        (0x111e4, 4u64, 0i8),
        (0x111e5, 5u64, 0i8),
        (0x111e6, 6u64, 0i8),
        (0x111e7, 7u64, 0i8),
        (0x111e8, 8u64, 0i8),
        (0x111e9, 9u64, 0i8),
        (0x111ea, 1u64, 1i8),
        (0x111eb, 2u64, 1i8),
        (0x111ec, 3u64, 1i8),
        (0x111ed, 4u64, 1i8),
        (0x111ee, 5u64, 1i8),
        (0x111ef, 6u64, 1i8),
        (0x111f0, 7u64, 1i8),
        (0x111f1, 8u64, 1i8),
        (0x111f2, 9u64, 1i8),
        (0x111f3, 1u64, 2i8),
        (0x111f4, 1u64, 3i8),
        (0x1173a, 1u64, 1i8),
        (0x1173b, 2u64, 1i8),
        (0x118ea, 1u64, 1i8),
        (0x118eb, 2u64, 1i8),
        (0x118ec, 3u64, 1i8),
        (0x118ed, 4u64, 1i8),
        (0x118ee, 5u64, 1i8),
        (0x118ef, 6u64, 1i8),
        (0x118f0, 7u64, 1i8),
        (0x118f1, 8u64, 1i8),
        (0x118f2, 9u64, 1i8),
        (0x11c5a, 1u64, 0i8),
        (0x11c5b, 2u64, 0i8),
        (0x11c5c, 3u64, 0i8),
        (0x11c5d, 4u64, 0i8),
        (0x11c5e, 5u64, 0i8),
        (0x11c5f, 6u64, 0i8),
        (0x11c60, 7u64, 0i8),
        (0x11c61, 8u64, 0i8),
        (0x11c62, 9u64, 0i8),
        (0x11c63, 1u64, 1i8),
        (0x11c64, 2u64, 1i8),
        (0x11c65, 3u64, 1i8),
        (0x11c66, 4u64, 1i8),
        (0x11c67, 5u64, 1i8),
        (0x11c68, 6u64, 1i8),
        (0x11c69, 7u64, 1i8),
        (0x11c6a, 8u64, 1i8),
        (0x11c6b, 9u64, 1i8),
        (0x11c6c, 1u64, 2i8),
        (0x11fc0, 3125u64, -6i8),
        (0x11fc1, 625u64, -5i8),
        (0x11fc2, 125u64, -4i8),
        (0x11fc3, 15625u64, -6i8),
        (0x11fc4, 25u64, -3i8),
        (0x11fc5, 3125u64, -5i8),
        (0x11fc6, 375u64, -4i8),
        (0x11fc7, 46875u64, -6i8),
        (0x11fc8, 5u64, -2i8),
        (0x11fc9, 625u64, -4i8),
        (0x11fca, 625u64, -4i8),
        (0x11fcb, 1u64, -1i8),
        (0x11fcc, 125u64, -3i8),
        (0x11fcd, 15u64, -2i8),
        (0x11fce, 1875u64, -4i8),
        (0x11fcf, 2u64, -1i8),
        (0x11fd0, 25u64, -2i8),
        (0x11fd1, 5u64, -1i8),
        (0x11fd2, 5u64, -1i8),
        (0x11fd3, 75u64, -2i8),
        (0x11fd4, 3125u64, -6i8),
        (0x12400, 2u64, 0i8),
        (0x12401, 3u64, 0i8),
        (0x12402, 4u64, 0i8),
        (0x12403, 5u64, 0i8),
        (0x12404, 6u64, 0i8),
        (0x12405, 7u64, 0i8),
        (0x12406, 8u64, 0i8),
        (0x12407, 9u64, 0i8),
        (0x12408, 3u64, 0i8),
        (0x12409, 4u64, 0i8),
        (0x1240a, 5u64, 0i8),
        (0x1240b, 6u64, 0i8),
        (0x1240c, 7u64, 0i8),
        (0x1240d, 8u64, 0i8),
        (0x1240e, 9u64, 0i8),
        (0x1240f, 4u64, 0i8),
        (0x12410, 5u64, 0i8),
        (0x12411, 6u64, 0i8),
        (0x12412, 7u64, 0i8),
        (0x12413, 8u64, 0i8),
        (0x12414, 9u64, 0i8),
        (0x12415, 1u64, 0i8),
        (0x12416, 2u64, 0i8),
        (0x12417, 3u64, 0i8),
        (0x12418, 4u64, 0i8),
        (0x12419, 5u64, 0i8),
        (0x1241a, 6u64, 0i8),
        (0x1241b, 7u64, 0i8),
        (0x1241c, 8u64, 0i8),
        (0x1241d, 9u64, 0i8),
        (0x1241e, 1u64, 0i8),
        (0x1241f, 2u64, 0i8),
        (0x12420, 3u64, 0i8),
        (0x12421, 4u64, 0i8),
        (0x12422, 5u64, 0i8),
        (0x12423, 2u64, 0i8),
        (0x12424, 3u64, 0i8),
        (0x12425, 3u64, 0i8),
        (0x12426, 4u64, 0i8),
        (0x12427, 5u64, 0i8),
        (0x12428, 6u64, 0i8),
        (0x12429, 7u64, 0i8),
        (0x1242a, 8u64, 0i8),
        (0x1242b, 9u64, 0i8),
        (0x1242c, 1u64, 0i8),
        (0x1242d, 2u64, 0i8),
        (0x1242e, 3u64, 0i8),
        (0x1242f, 3u64, 0i8),
        (0x12430, 4u64, 0i8),
        (0x12431, 5u64, 0i8),
        (0x12432, 216u64, 3i8),
        (0x12433, 432u64, 3i8),
        (0x12434, 1u64, 0i8),
        (0x12435, 2u64, 0i8),
        (0x12436, 3u64, 0i8),
        (0x12437, 3u64, 0i8),
        (0x12438, 4u64, 0i8),
        (0x12439, 5u64, 0i8),
        (0x1243a, 3u64, 0i8),
        (0x1243b, 3u64, 0i8),
        (0x1243c, 4u64, 0i8),
        (0x1243d, 4u64, 0i8),
        (0x1243e, 4u64, 0i8),
        (0x1243f, 4u64, 0i8),
        (0x12440, 6u64, 0i8),
        (0x12441, 7u64, 0i8),
        (0x12442, 7u64, 0i8),
        (0x12443, 7u64, 0i8),
        (0x12444, 8u64, 0i8),
        (0x12445, 8u64, 0i8),
        (0x12446, 9u64, 0i8),
        (0x12447, 9u64, 0i8),
        (0x12448, 9u64, 0i8),
        (0x12449, 9u64, 0i8),
        (0x1244a, 2u64, 0i8),
        (0x1244b, 3u64, 0i8),
        (0x1244c, 4u64, 0i8),
        (0x1244d, 5u64, 0i8),
        (0x1244e, 6u64, 0i8),
        (0x1244f, 1u64, 0i8),
        (0x12450, 2u64, 0i8),
        (0x12451, 3u64, 0i8),
        (0x12452, 4u64, 0i8),
        (0x12453, 4u64, 0i8),
        (0x12454, 5u64, 0i8),
        (0x12455, 5u64, 0i8),
        (0x12456, 2u64, 0i8),
        (0x12457, 3u64, 0i8),
        (0x12458, 1u64, 0i8),
        (0x12459, 2u64, 0i8),
        (0x1245a, 3333333333333333u64, -16i8),
        (0x1245b, 6666666666666666u64, -16i8),
        (0x1245c, 8333333333333334u64, -16i8),
        (0x1245d, 3333333333333333u64, -16i8),
        (0x1245e, 6666666666666666u64, -16i8),
        (0x1245f, 125u64, -3i8),
        (0x12460, 25u64, -2i8),
        (0x12461, 16666666666666666u64, -17i8),
        (0x12462, 25u64, -2i8),
        (0x12463, 25u64, -2i8),
        (0x12464, 5u64, -1i8),
        (0x12465, 3333333333333333u64, -16i8),
        (0x12466, 6666666666666666u64, -16i8),
        (0x12467, 4u64, 1i8),
        (0x12468, 5u64, 1i8),
        (0x12469, 4u64, 0i8),
        (0x1246a, 5u64, 0i8),
        (0x1246b, 6u64, 0i8),
        (0x1246c, 7u64, 0i8),
        (0x1246d, 8u64, 0i8),
        (0x1246e, 9u64, 0i8),
        (0x16b5b, 1u64, 1i8),
        (0x16b5c, 1u64, 2i8),
        (0x16b5d, 1u64, 4i8),
        (0x16b5e, 1u64, 6i8),
        (0x16b5f, 1u64, 8i8),
        (0x16b60, 1u64, 10i8),
        (0x16b61, 1u64, 12i8),
        (0x16e80, 0u64, 0i8),
        (0x16e81, 1u64, 0i8),
        (0x16e82, 2u64, 0i8),
        (0x16e83, 3u64, 0i8),
        (0x16e84, 4u64, 0i8),
        (0x16e85, 5u64, 0i8),
        (0x16e86, 6u64, 0i8),
        (0x16e87, 7u64, 0i8),
        (0x16e88, 8u64, 0i8),
        (0x16e89, 9u64, 0i8),
        (0x16e8a, 1u64, 1i8),
        (0x16e8b, 11u64, 0i8),
        (0x16e8c, 12u64, 0i8),
        (0x16e8d, 13u64, 0i8),
        (0x16e8e, 14u64, 0i8),
        (0x16e8f, 15u64, 0i8),
        (0x16e90, 16u64, 0i8),
        (0x16e91, 17u64, 0i8),
        (0x16e92, 18u64, 0i8),
        (0x16e93, 19u64, 0i8),
        (0x16e94, 1u64, 0i8),
        (0x16e95, 2u64, 0i8),
        (0x16e96, 3u64, 0i8),
        (0x1d2e0, 0u64, 0i8),
        (0x1d2e1, 1u64, 0i8),
        (0x1d2e2, 2u64, 0i8),
        (0x1d2e3, 3u64, 0i8),
        (0x1d2e4, 4u64, 0i8),
        (0x1d2e5, 5u64, 0i8),
        (0x1d2e6, 6u64, 0i8),
        (0x1d2e7, 7u64, 0i8),
        (0x1d2e8, 8u64, 0i8),
        (0x1d2e9, 9u64, 0i8),
        (0x1d2ea, 1u64, 1i8),
        (0x1d2eb, 11u64, 0i8),
        (0x1d2ec, 12u64, 0i8),
        (0x1d2ed, 13u64, 0i8),
        (0x1d2ee, 14u64, 0i8),
        (0x1d2ef, 15u64, 0i8),
        (0x1d2f0, 16u64, 0i8),
        (0x1d2f1, 17u64, 0i8),
        (0x1d2f2, 18u64, 0i8),
        (0x1d2f3, 19u64, 0i8),
        (0x1d360, 1u64, 0i8),
        (0x1d361, 2u64, 0i8),
        (0x1d362, 3u64, 0i8),
        (0x1d363, 4u64, 0i8),
        (0x1d364, 5u64, 0i8),
        (0x1d365, 6u64, 0i8),
        (0x1d366, 7u64, 0i8),
        (0x1d367, 8u64, 0i8),
        (0x1d368, 9u64, 0i8),
        (0x1d369, 1u64, 1i8),
        (0x1d36a, 2u64, 1i8),
        (0x1d36b, 3u64, 1i8),
        (0x1d36c, 4u64, 1i8),
        (0x1d36d, 5u64, 1i8),
        (0x1d36e, 6u64, 1i8),
        (0x1d36f, 7u64, 1i8),
        (0x1d370, 8u64, 1i8),
        (0x1d371, 9u64, 1i8),
        (0x1d372, 1u64, 0i8),
        (0x1d373, 2u64, 0i8),
        (0x1d374, 3u64, 0i8),
        (0x1d375, 4u64, 0i8),
        (0x1d376, 5u64, 0i8),
        (0x1d377, 1u64, 0i8),
        (0x1d378, 5u64, 0i8),
        (0x1e8c7, 1u64, 0i8),
        (0x1e8c8, 2u64, 0i8),
        (0x1e8c9, 3u64, 0i8),
        (0x1e8ca, 4u64, 0i8),
        (0x1e8cb, 5u64, 0i8),
        (0x1e8cc, 6u64, 0i8),
        (0x1e8cd, 7u64, 0i8),
        (0x1e8ce, 8u64, 0i8),
        (0x1e8cf, 9u64, 0i8),
        (0x1ec71, 1u64, 0i8),
        (0x1ec72, 2u64, 0i8),
        (0x1ec73, 3u64, 0i8),
        (0x1ec74, 4u64, 0i8),
        (0x1ec75, 5u64, 0i8),
        (0x1ec76, 6u64, 0i8),
        (0x1ec77, 7u64, 0i8),
        (0x1ec78, 8u64, 0i8),
        (0x1ec79, 9u64, 0i8),
        (0x1ec7a, 1u64, 1i8),
        (0x1ec7b, 2u64, 1i8),
        (0x1ec7c, 3u64, 1i8),
        (0x1ec7d, 4u64, 1i8),
        (0x1ec7e, 5u64, 1i8),
        (0x1ec7f, 6u64, 1i8),
        (0x1ec80, 7u64, 1i8),
        (0x1ec81, 8u64, 1i8),
        (0x1ec82, 9u64, 1i8),
        (0x1ec83, 1u64, 2i8),
        (0x1ec84, 2u64, 2i8),
        (0x1ec85, 3u64, 2i8),
        (0x1ec86, 4u64, 2i8),
        (0x1ec87, 5u64, 2i8),
        (0x1ec88, 6u64, 2i8),
        (0x1ec89, 7u64, 2i8),
        (0x1ec8a, 8u64, 2i8),
        (0x1ec8b, 9u64, 2i8),
        (0x1ec8c, 1u64, 3i8),
        (0x1ec8d, 2u64, 3i8),
        (0x1ec8e, 3u64, 3i8),
        (0x1ec8f, 4u64, 3i8),
        (0x1ec90, 5u64, 3i8),
        (0x1ec91, 6u64, 3i8),
        (0x1ec92, 7u64, 3i8),
        (0x1ec93, 8u64, 3i8),
        (0x1ec94, 9u64, 3i8),
        (0x1ec95, 1u64, 4i8),
        (0x1ec96, 2u64, 4i8),
        (0x1ec97, 3u64, 4i8),
        (0x1ec98, 4u64, 4i8),
        (0x1ec99, 5u64, 4i8),
        (0x1ec9a, 6u64, 4i8),
        (0x1ec9b, 7u64, 4i8),
        (0x1ec9c, 8u64, 4i8),
        (0x1ec9d, 9u64, 4i8),
        (0x1ec9e, 1u64, 5i8),
        (0x1ec9f, 2u64, 5i8),
        (0x1eca0, 1u64, 5i8),
        (0x1eca1, 1u64, 7i8),
        (0x1eca2, 2u64, 7i8),
        (0x1eca3, 1u64, 0i8),
        (0x1eca4, 2u64, 0i8),
        (0x1eca5, 3u64, 0i8),
        (0x1eca6, 4u64, 0i8),
        (0x1eca7, 5u64, 0i8),
        (0x1eca8, 6u64, 0i8),
        (0x1eca9, 7u64, 0i8),
        (0x1ecaa, 8u64, 0i8),
        (0x1ecab, 9u64, 0i8),
        (0x1ecad, 25u64, -2i8),
        (0x1ecae, 5u64, -1i8),
        (0x1ecaf, 75u64, -2i8),
        (0x1ecb1, 1u64, 0i8),
        (0x1ecb2, 2u64, 0i8),
        (0x1ecb3, 1u64, 4i8),
        (0x1ecb4, 1u64, 5i8),
        (0x1ed01, 1u64, 0i8),
        (0x1ed02, 2u64, 0i8),
        (0x1ed03, 3u64, 0i8),
        (0x1ed04, 4u64, 0i8),
        (0x1ed05, 5u64, 0i8),
        (0x1ed06, 6u64, 0i8),
        (0x1ed07, 7u64, 0i8),
        (0x1ed08, 8u64, 0i8),
        (0x1ed09, 9u64, 0i8),
        (0x1ed0a, 1u64, 1i8),
        (0x1ed0b, 2u64, 1i8),
        (0x1ed0c, 3u64, 1i8),
        (0x1ed0d, 4u64, 1i8),
        (0x1ed0e, 5u64, 1i8),
        (0x1ed0f, 6u64, 1i8),
        (0x1ed10, 7u64, 1i8),
        (0x1ed11, 8u64, 1i8),
        (0x1ed12, 9u64, 1i8),
        (0x1ed13, 1u64, 2i8),
        (0x1ed14, 2u64, 2i8),
        (0x1ed15, 3u64, 2i8),
        (0x1ed16, 4u64, 2i8),
        (0x1ed17, 5u64, 2i8),
        (0x1ed18, 6u64, 2i8),
        (0x1ed19, 7u64, 2i8),
        (0x1ed1a, 8u64, 2i8),
        (0x1ed1b, 9u64, 2i8),
        (0x1ed1c, 1u64, 3i8),
        (0x1ed1d, 2u64, 3i8),
        (0x1ed1e, 3u64, 3i8),
        (0x1ed1f, 4u64, 3i8),
        (0x1ed20, 5u64, 3i8),
        (0x1ed21, 6u64, 3i8),
        (0x1ed22, 7u64, 3i8),
        (0x1ed23, 8u64, 3i8),
        (0x1ed24, 9u64, 3i8),
        (0x1ed25, 1u64, 4i8),
        (0x1ed26, 2u64, 4i8),
        (0x1ed27, 3u64, 4i8),
        (0x1ed28, 4u64, 4i8),
        (0x1ed29, 5u64, 4i8),
        (0x1ed2a, 6u64, 4i8),
        (0x1ed2b, 7u64, 4i8),
        (0x1ed2c, 8u64, 4i8),
        (0x1ed2d, 9u64, 4i8),
        (0x1ed2f, 2u64, 0i8),
        (0x1ed30, 3u64, 0i8),
        (0x1ed31, 4u64, 0i8),
        (0x1ed32, 5u64, 0i8),
        (0x1ed33, 6u64, 0i8),
        (0x1ed34, 7u64, 0i8),
        (0x1ed35, 8u64, 0i8),
        (0x1ed36, 9u64, 0i8),
        (0x1ed37, 1u64, 1i8),
        (0x1ed38, 4u64, 2i8),
        (0x1ed39, 6u64, 2i8),
        (0x1ed3a, 2u64, 3i8),
        (0x1ed3b, 1u64, 4i8),
        (0x1ed3c, 5u64, -1i8),
        (0x1ed3d, 16666666666666666u64, -17i8),
        (0x1f10b, 0u64, 0i8),
        (0x1f10c, 0u64, 0i8),
        (0x20001, 7u64, 0i8),
        (0x20064, 4u64, 0i8),
        (0x200e2, 4u64, 0i8),
        (0x20121, 5u64, 0i8),
        (0x2092a, 1u64, 0i8),
        (0x20983, 3u64, 1i8),
        (0x2098c, 4u64, 1i8),
        (0x2099c, 4u64, 1i8),
        (0x20aea, 6u64, 0i8),
        (0x20afd, 3u64, 0i8),
        (0x20b19, 3u64, 0i8),
        (0x22390, 2u64, 0i8),
        (0x22998, 3u64, 0i8),
        (0x23b1b, 3u64, 0i8),
        (0x2626d, 4u64, 0i8),
        (0x2f890, 9u64, 0i8)
    ]
}

/// Characters whose full case fold differs from their lowercase mapping:
/// `(code point, length of the fold, fold characters padded with spaces)`.
#[verifier::opaque]
pub open spec fn casefold_specials() -> Seq<(u32, u8, char, char, char)> {
    seq![
        (0xb5, 1, '\u{3bc}', '\u{20}', '\u{20}'),
        (0xdf, 2, '\u{73}', '\u{73}', '\u{20}'),
        (0x149, 2, '\u{2bc}', '\u{6e}', '\u{20}'),
        (0x17f, 1, '\u{73}', '\u{20}', '\u{20}'),
        (0x1f0, 2, '\u{6a}', '\u{30c}', '\u{20}'),
        (0x345, 1, '\u{3b9}', '\u{20}', '\u{20}'),
        (0x390, 3, '\u{3b9}', '\u{308}', '\u{301}'),
        (0x3b0, 3, '\u{3c5}', '\u{308}', '\u{301}'),
        (0x3c2, 1, '\u{3c3}', '\u{20}', '\u{20}'),
        (0x3d0, 1, '\u{3b2}', '\u{20}', '\u{20}'),
        (0x3d1, 1, '\u{3b8}', '\u{20}', '\u{20}'),
        (0x3d5, 1, '\u{3c6}', '\u{20}', '\u{20}'),
        (0x3d6, 1, '\u{3c0}', '\u{20}', '\u{20}'),
        (0x3f0, 1, '\u{3ba}', '\u{20}', '\u{20}'),
        (0x3f1, 1, '\u{3c1}', '\u{20}', '\u{20}'),
        (0x3f5, 1, '\u{3b5}', '\u{20}', '\u{20}'),
        (0x587, 2, '\u{565}', '\u{582}', '\u{20}'),
        (0x13a0, 1, '\u{13a0}', '\u{20}', '\u{20}'),
        (0x13a1, 1, '\u{13a1}', '\u{20}', '\u{20}'),
        (0x13a2, 1, '\u{13a2}', '\u{20}', '\u{20}'),
        (0x13a3, 1, '\u{13a3}', '\u{20}', '\u{20}'),
        (0x13a4, 1, '\u{13a4}', '\u{20}', '\u{20}'),
        (0x13a5, 1, '\u{13a5}', '\u{20}', '\u{20}'),
        (0x13a6, 1, '\u{13a6}', '\u{20}', '\u{20}'),
        (0x13a7, 1, '\u{13a7}', '\u{20}', '\u{20}'),
        (0x13a8, 1, '\u{13a8}', '\u{20}', '\u{20}'),
        (0x13a9, 1, '\u{13a9}', '\u{20}', '\u{20}'),
        (0x13aa, 1, '\u{13aa}', '\u{20}', '\u{20}'),
        (0x13ab, 1, '\u{13ab}', '\u{20}', '\u{20}'),
        (0x13ac, 1, '\u{13ac}', '\u{20}', '\u{20}'),
        (0x13ad, 1, '\u{13ad}', '\u{20}', '\u{20}'),
        (0x13ae, 1, '\u{13ae}', '\u{20}', '\u{20}'),
        (0x13af, 1, '\u{13af}', '\u{20}', '\u{20}'),
        (0x13b0, 1, '\u{13b0}', '\u{20}', '\u{20}'),
        (0x13b1, 1, '\u{13b1}', '\u{20}', '\u{20}'),
        (0x13b2, 1, '\u{13b2}', '\u{20}', '\u{20}'),
        (0x13b3, 1, '\u{13b3}', '\u{20}', '\u{20}'),
        (0x13b4, 1, '\u{13b4}', '\u{20}', '\u{20}'),
        (0x13b5, 1, '\u{13b5}', '\u{20}', '\u{20}'),
        (0x13b6, 1, '\u{13b6}', '\u{20}', '\u{20}'),
        (0x13b7, 1, '\u{13b7}', '\u{20}', '\u{20}'),
        (0x13b8, 1, '\u{13b8}', '\u{20}', '\u{20}'),
        (0x13b9, 1, '\u{13b9}', '\u{20}', '\u{20}'),
        (0x13ba, 1, '\u{13ba}', '\u{20}', '\u{20}'),
        (0x13bb, 1, '\u{13bb}', '\u{20}', '\u{20}'),
        (0x13bc, 1, '\u{13bc}', '\u{20}', '\u{20}'),
        (0x13bd, 1, '\u{13bd}', '\u{20}', '\u{20}'),
        (0x13be, 1, '\u{13be}', '\u{20}', '\u{20}'),
        (0x13bf, 1, '\u{13bf}', '\u{20}', '\u{20}'),
        (0x13c0, 1, '\u{13c0}', '\u{20}', '\u{20}'),
        (0x13c1, 1, '\u{13c1}', '\u{20}', '\u{20}'),
        (0x13c2, 1, '\u{13c2}', '\u{20}', '\u{20}'),
        (0x13c3, 1, '\u{13c3}', '\u{20}', '\u{20}'),
        (0x13c4, 1, '\u{13c4}', '\u{20}', '\u{20}'),
        (0x13c5, 1, '\u{13c5}', '\u{20}', '\u{20}'),
        (0x13c6, 1, '\u{13c6}', '\u{20}', '\u{20}'),
        (0x13c7, 1, '\u{13c7}', '\u{20}', '\u{20}'),
        (0x13c8, 1, '\u{13c8}', '\u{20}', '\u{20}'),
        (0x13c9, 1, '\u{13c9}', '\u{20}', '\u{20}'),
        (0x13ca, 1, '\u{13ca}', '\u{20}', '\u{20}'),
        (0x13cb, 1, '\u{13cb}', '\u{20}', '\u{20}'),
        (0x13cc, 1, '\u{13cc}', '\u{20}', '\u{20}'),
        (0x13cd, 1, '\u{13cd}', '\u{20}', '\u{20}'),
        (0x13ce, 1, '\u{13ce}', '\u{20}', '\u{20}'),
        (0x13cf, 1, '\u{13cf}', '\u{20}', '\u{20}'),
        (0x13d0, 1, '\u{13d0}', '\u{20}', '\u{20}'),
        (0x13d1, 1, '\u{13d1}', '\u{20}', '\u{20}'),
        (0x13d2, 1, '\u{13d2}', '\u{20}', '\u{20}'),
        (0x13d3, 1, '\u{13d3}', '\u{20}', '\u{20}'),
        (0x13d4, 1, '\u{13d4}', '\u{20}', '\u{20}'),
        (0x13d5, 1, '\u{13d5}', '\u{20}', '\u{20}'),
        (0x13d6, 1, '\u{13d6}', '\u{20}', '\u{20}'),
        (0x13d7, 1, '\u{13d7}', '\u{20}', '\u{20}'),
        (0x13d8, 1, '\u{13d8}', '\u{20}', '\u{20}'),
        (0x13d9, 1, '\u{13d9}', '\u{20}', '\u{20}'),
        (0x13da, 1, '\u{13da}', '\u{20}', '\u{20}'),
        (0x13db, 1, '\u{13db}', '\u{20}', '\u{20}'),
        (0x13dc, 1, '\u{13dc}', '\u{20}', '\u{20}'),
        (0x13dd, 1, '\u{13dd}', '\u{20}', '\u{20}'),
        (0x13de, 1, '\u{13de}', '\u{20}', '\u{20}'),
        (0x13df, 1, '\u{13df}', '\u{20}', '\u{20}'),
        (0x13e0, 1, '\u{13e0}', '\u{20}', '\u{20}'),
        (0x13e1, 1, '\u{13e1}', '\u{20}', '\u{20}'),
        (0x13e2, 1, '\u{13e2}', '\u{20}', '\u{20}'),
        (0x13e3, 1, '\u{13e3}', '\u{20}', '\u{20}'),
        (0x13e4, 1, '\u{13e4}', '\u{20}', '\u{20}'),
        (0x13e5, 1, '\u{13e5}', '\u{20}', '\u{20}'),
        (0x13e6, 1, '\u{13e6}', '\u{20}', '\u{20}'),
        (0x13e7, 1, '\u{13e7}', '\u{20}', '\u{20}'),
        (0x13e8, 1, '\u{13e8}', '\u{20}', '\u{20}'),
        (0x13e9, 1, '\u{13e9}', '\u{20}', '\u{20}'),
        (0x13ea, 1, '\u{13ea}', '\u{20}', '\u{20}'),
        (0x13eb, 1, '\u{13eb}', '\u{20}', '\u{20}'),
        (0x13ec, 1, '\u{13ec}', '\u{20}', '\u{20}'),
        (0x13ed, 1, '\u{13ed}', '\u{20}', '\u{20}'),
        (0x13ee, 1, '\u{13ee}', '\u{20}', '\u{20}'),
        (0x13ef, 1, '\u{13ef}', '\u{20}', '\u{20}'),
        (0x13f0, 1, '\u{13f0}', '\u{20}', '\u{20}'),
        (0x13f1, 1, '\u{13f1}', '\u{20}', '\u{20}'),
        (0x13f2, 1, '\u{13f2}', '\u{20}', '\u{20}'),
        (0x13f3, 1, '\u{13f3}', '\u{20}', '\u{20}'),
        (0x13f4, 1, '\u{13f4}', '\u{20}', '\u{20}'),
        (0x13f5, 1, '\u{13f5}', '\u{20}', '\u{20}'),
        (0x13f8, 1, '\u{13f0}', '\u{20}', '\u{20}'),
        (0x13f9, 1, '\u{13f1}', '\u{20}', '\u{20}'),
        (0x13fa, 1, '\u{13f2}', '\u{20}', '\u{20}'),
        (0x13fb, 1, '\u{13f3}', '\u{20}', '\u{20}'),
        (0x13fc, 1, '\u{13f4}', '\u{20}', '\u{20}'),
        (0x13fd, 1, '\u{13f5}', '\u{20}', '\u{20}'),
        (0x1c80, 1, '\u{432}', '\u{20}', '\u{20}'),
        (0x1c81, 1, '\u{434}', '\u{20}', '\u{20}'),
        (0x1c82, 1, '\u{43e}', '\u{20}', '\u{20}'),
        (0x1c83, 1, '\u{441}', '\u{20}', '\u{20}'),
        (0x1c84, 1, '\u{442}', '\u{20}', '\u{20}'),
        (0x1c85, 1, '\u{442}', '\u{20}', '\u{20}'),
        (0x1c86, 1, '\u{44a}', '\u{20}', '\u{20}'),
        (0x1c87, 1, '\u{463}', '\u{20}', '\u{20}'),
        (0x1c88, 1, '\u{a64b}', '\u{20}', '\u{20}'),
        (0x1e96, 2, '\u{68}', '\u{331}', '\u{20}'),
        (0x1e97, 2, '\u{74}', '\u{308}', '\u{20}'),
        (0x1e98, 2, '\u{77}', '\u{30a}', '\u{20}'),
        (0x1e99, 2, '\u{79}', '\u{30a}', '\u{20}'),
        (0x1e9a, 2, '\u{61}', '\u{2be}', '\u{20}'),
        (0x1e9b, 1, '\u{1e61}', '\u{20}', '\u{20}'),
        (0x1e9e, 2, '\u{73}', '\u{73}', '\u{20}'),
        (0x1f50, 2, '\u{3c5}', '\u{313}', '\u{20}'),
        (0x1f52, 3, '\u{3c5}', '\u{313}', '\u{300}'),
        (0x1f54, 3, '\u{3c5}', '\u{313}', '\u{301}'),
        (0x1f56, 3, '\u{3c5}', '\u{313}', '\u{342}'),
        (0x1f80, 2, '\u{1f00}', '\u{3b9}', '\u{20}'),
        (0x1f81, 2, '\u{1f01}', '\u{3b9}', '\u{20}'),
        (0x1f82, 2, '\u{1f02}', '\u{3b9}', '\u{20}'),
        (0x1f83, 2, '\u{1f03}', '\u{3b9}', '\u{20}'),
        (0x1f84, 2, '\u{1f04}', '\u{3b9}', '\u{20}'),
        (0x1f85, 2, '\u{1f05}', '\u{3b9}', '\u{20}'),
        (0x1f86, 2, '\u{1f06}', '\u{3b9}', '\u{20}'),
        (0x1f87, 2, '\u{1f07}', '\u{3b9}', '\u{20}'),
        (0x1f88, 2, '\u{1f00}', '\u{3b9}', '\u{20}'),
        (0x1f89, 2, '\u{1f01}', '\u{3b9}', '\u{20}'),
        (0x1f8a, 2, '\u{1f02}', '\u{3b9}', '\u{20}'),
        (0x1f8b, 2, '\u{1f03}', '\u{3b9}', '\u{20}'),
        (0x1f8c, 2, '\u{1f04}', '\u{3b9}', '\u{20}'),
        (0x1f8d, 2, '\u{1f05}', '\u{3b9}', '\u{20}'),
        (0x1f8e, 2, '\u{1f06}', '\u{3b9}', '\u{20}'),
        (0x1f8f, 2, '\u{1f07}', '\u{3b9}', '\u{20}'),
        (0x1f90, 2, '\u{1f20}', '\u{3b9}', '\u{20}'),
        (0x1f91, 2, '\u{1f21}', '\u{3b9}', '\u{20}'),
        (0x1f92, 2, '\u{1f22}', '\u{3b9}', '\u{20}'),
        (0x1f93, 2, '\u{1f23}', '\u{3b9}', '\u{20}'),
        (0x1f94, 2, '\u{1f24}', '\u{3b9}', '\u{20}'),
        (0x1f95, 2, '\u{1f25}', '\u{3b9}', '\u{20}'),
        (0x1f96, 2, '\u{1f26}', '\u{3b9}', '\u{20}'),
        (0x1f97, 2, '\u{1f27}', '\u{3b9}', '\u{20}'),
        (0x1f98, 2, '\u{1f20}', '\u{3b9}', '\u{20}'),
        (0x1f99, 2, '\u{1f21}', '\u{3b9}', '\u{20}'),
        (0x1f9a, 2, '\u{1f22}', '\u{3b9}', '\u{20}'),
        (0x1f9b, 2, '\u{1f23}', '\u{3b9}', '\u{20}'),
        (0x1f9c, 2, '\u{1f24}', '\u{3b9}', '\u{20}'),
        (0x1f9d, 2, '\u{1f25}', '\u{3b9}', '\u{20}'),
        (0x1f9e, 2, '\u{1f26}', '\u{3b9}', '\u{20}'),
        (0x1f9f, 2, '\u{1f27}', '\u{3b9}', '\u{20}'),
        (0x1fa0, 2, '\u{1f60}', '\u{3b9}', '\u{20}'),
        (0x1fa1, 2, '\u{1f61}', '\u{3b9}', '\u{20}'),
        (0x1fa2, 2, '\u{1f62}', '\u{3b9}', '\u{20}'),
        (0x1fa3, 2, '\u{1f63}', '\u{3b9}', '\u{20}'),
        (0x1fa4, 2, '\u{1f64}', '\u{3b9}', '\u{20}'),
        (0x1fa5, 2, '\u{1f65}', '\u{3b9}', '\u{20}'),
        (0x1fa6, 2, '\u{1f66}', '\u{3b9}', '\u{20}'),
        (0x1fa7, 2, '\u{1f67}', '\u{3b9}', '\u{20}'),
        (0x1fa8, 2, '\u{1f60}', '\u{3b9}', '\u{20}'),
        (0x1fa9, 2, '\u{1f61}', '\u{3b9}', '\u{20}'),
        (0x1faa, 2, '\u{1f62}', '\u{3b9}', '\u{20}'),
        (0x1fab, 2, '\u{1f63}', '\u{3b9}', '\u{20}'),
        (0x1fac, 2, '\u{1f64}', '\u{3b9}', '\u{20}'),
        (0x1fad, 2, '\u{1f65}', '\u{3b9}', '\u{20}'),
        (0x1fae, 2, '\u{1f66}', '\u{3b9}', '\u{20}'),
        (0x1faf, 2, '\u{1f67}', '\u{3b9}', '\u{20}'),
        (0x1fb2, 2, '\u{1f70}', '\u{3b9}', '\u{20}'),
        (0x1fb3, 2, '\u{3b1}', '\u{3b9}', '\u{20}'),
        (0x1fb4, 2, '\u{3ac}', '\u{3b9}', '\u{20}'),
        (0x1fb6, 2, '\u{3b1}', '\u{342}', '\u{20}'),
        (0x1fb7, 3, '\u{3b1}', '\u{342}', '\u{3b9}'),
        (0x1fbc, 2, '\u{3b1}', '\u{3b9}', '\u{20}'),
        (0x1fbe, 1, '\u{3b9}', '\u{20}', '\u{20}'),
        (0x1fc2, 2, '\u{1f74}', '\u{3b9}', '\u{20}'),
        (0x1fc3, 2, '\u{3b7}', '\u{3b9}', '\u{20}'),
        (0x1fc4, 2, '\u{3ae}', '\u{3b9}', '\u{20}'),
        (0x1fc6, 2, '\u{3b7}', '\u{342}', '\u{20}'),
        (0x1fc7, 3, '\u{3b7}', '\u{342}', '\u{3b9}'),
        (0x1fcc, 2, '\u{3b7}', '\u{3b9}', '\u{20}'),
        (0x1fd2, 3, '\u{3b9}', '\u{308}', '\u{300}'),
        (0x1fd3, 3, '\u{3b9}', '\u{308}', '\u{301}'),
        (0x1fd6, 2, '\u{3b9}', '\u{342}', '\u{20}'),
        (0x1fd7, 3, '\u{3b9}', '\u{308}', '\u{342}'),
        (0x1fe2, 3, '\u{3c5}', '\u{308}', '\u{300}'),
        (0x1fe3, 3, '\u{3c5}', '\u{308}', '\u{301}'),
        (0x1fe4, 2, '\u{3c1}', '\u{313}', '\u{20}'),
        (0x1fe6, 2, '\u{3c5}', '\u{342}', '\u{20}'),
        (0x1fe7, 3, '\u{3c5}', '\u{308}', '\u{342}'),
        (0x1ff2, 2, '\u{1f7c}', '\u{3b9}', '\u{20}'),
        (0x1ff3, 2, '\u{3c9}', '\u{3b9}', '\u{20}'),
        (0x1ff4, 2, '\u{3ce}', '\u{3b9}', '\u{20}'),
        (0x1ff6, 2, '\u{3c9}', '\u{342}', '\u{20}'),
        (0x1ff7, 3, '\u{3c9}', '\u{342}', '\u{3b9}'),
        (0x1ffc, 2, '\u{3c9}', '\u{3b9}', '\u{20}'),
        (0xab70, 1, '\u{13a0}', '\u{20}', '\u{20}'),
        (0xab71, 1, '\u{13a1}', '\u{20}', '\u{20}'),
        (0xab72, 1, '\u{13a2}', '\u{20}', '\u{20}'),
        (0xab73, 1, '\u{13a3}', '\u{20}', '\u{20}'),
        (0xab74, 1, '\u{13a4}', '\u{20}', '\u{20}'),
        (0xab75, 1, '\u{13a5}', '\u{20}', '\u{20}'),
        (0xab76, 1, '\u{13a6}', '\u{20}', '\u{20}'),
        (0xab77, 1, '\u{13a7}', '\u{20}', '\u{20}'),
        (0xab78, 1, '\u{13a8}', '\u{20}', '\u{20}'),
        (0xab79, 1, '\u{13a9}', '\u{20}', '\u{20}'),
        (0xab7a, 1, '\u{13aa}', '\u{20}', '\u{20}'),
        (0xab7b, 1, '\u{13ab}', '\u{20}', '\u{20}'),
        (0xab7c, 1, '\u{13ac}', '\u{20}', '\u{20}'),
        (0xab7d, 1, '\u{13ad}', '\u{20}', '\u{20}'),
        (0xab7e, 1, '\u{13ae}', '\u{20}', '\u{20}'),
        (0xab7f, 1, '\u{13af}', '\u{20}', '\u{20}'),
        (0xab80, 1, '\u{13b0}', '\u{20}', '\u{20}'),
        (0xab81, 1, '\u{13b1}', '\u{20}', '\u{20}'),
        (0xab82, 1, '\u{13b2}', '\u{20}', '\u{20}'),
        (0xab83, 1, '\u{13b3}', '\u{20}', '\u{20}'),
        (0xab84, 1, '\u{13b4}', '\u{20}', '\u{20}'),
        (0xab85, 1, '\u{13b5}', '\u{20}', '\u{20}'),
        (0xab86, 1, '\u{13b6}', '\u{20}', '\u{20}'),
        (0xab87, 1, '\u{13b7}', '\u{20}', '\u{20}'),
        (0xab88, 1, '\u{13b8}', '\u{20}', '\u{20}'),
        (0xab89, 1, '\u{13b9}', '\u{20}', '\u{20}'),
        (0xab8a, 1, '\u{13ba}', '\u{20}', '\u{20}'),
        (0xab8b, 1, '\u{13bb}', '\u{20}', '\u{20}'),
        (0xab8c, 1, '\u{13bc}', '\u{20}', '\u{20}'),
        (0xab8d, 1, '\u{13bd}', '\u{20}', '\u{20}'),
        (0xab8e, 1, '\u{13be}', '\u{20}', '\u{20}'),
        (0xab8f, 1, '\u{13bf}', '\u{20}', '\u{20}'),
        (0xab90, 1, '\u{13c0}', '\u{20}', '\u{20}'),
        (0xab91, 1, '\u{13c1}', '\u{20}', '\u{20}'),
        (0xab92, 1, '\u{13c2}', '\u{20}', '\u{20}'),
        (0xab93, 1, '\u{13c3}', '\u{20}', '\u{20}'),
        (0xab94, 1, '\u{13c4}', '\u{20}', '\u{20}'),
        (0xab95, 1, '\u{13c5}', '\u{20}', '\u{20}'),
        (0xab96, 1, '\u{13c6}', '\u{20}', '\u{20}'),
        (0xab97, 1, '\u{13c7}', '\u{20}', '\u{20}'),
        (0xab98, 1, '\u{13c8}', '\u{20}', '\u{20}'),
        (0xab99, 1, '\u{13c9}', '\u{20}', '\u{20}'),
        (0xab9a, 1, '\u{13ca}', '\u{20}', '\u{20}'),
        (0xab9b, 1, '\u{13cb}', '\u{20}', '\u{20}'),
        (0xab9c, 1, '\u{13cc}', '\u{20}', '\u{20}'),
        (0xab9d, 1, '\u{13cd}', '\u{20}', '\u{20}'),
        (0xab9e, 1, '\u{13ce}', '\u{20}', '\u{20}'),
        (0xab9f, 1, '\u{13cf}', '\u{20}', '\u{20}'),
        (0xaba0, 1, '\u{13d0}', '\u{20}', '\u{20}'),
        (0xaba1, 1, '\u{13d1}', '\u{20}', '\u{20}'),
        (0xaba2, 1, '\u{13d2}', '\u{20}', '\u{20}'),
        (0xaba3, 1, '\u{13d3}', '\u{20}', '\u{20}'),
        (0xaba4, 1, '\u{13d4}', '\u{20}', '\u{20}'),
        (0xaba5, 1, '\u{13d5}', '\u{20}', '\u{20}'),
        (0xaba6, 1, '\u{13d6}', '\u{20}', '\u{20}'),
        (0xaba7, 1, '\u{13d7}', '\u{20}', '\u{20}'),
        (0xaba8, 1, '\u{13d8}', '\u{20}', '\u{20}'),
        (0xaba9, 1, '\u{13d9}', '\u{20}', '\u{20}'),
        (0xabaa, 1, '\u{13da}', '\u{20}', '\u{20}'),
        (0xabab, 1, '\u{13db}', '\u{20}', '\u{20}'),
        (0xabac, 1, '\u{13dc}', '\u{20}', '\u{20}'),
        (0xabad, 1, '\u{13dd}', '\u{20}', '\u{20}'),
        (0xabae, 1, '\u{13de}', '\u{20}', '\u{20}'),
        (0xabaf, 1, '\u{13df}', '\u{20}', '\u{20}'),
        (0xabb0, 1, '\u{13e0}', '\u{20}', '\u{20}'),
        (0xabb1, 1, '\u{13e1}', '\u{20}', '\u{20}'),
        (0xabb2, 1, '\u{13e2}', '\u{20}', '\u{20}'),
        (0xabb3, 1, '\u{13e3}', '\u{20}', '\u{20}'),
        (0xabb4, 1, '\u{13e4}', '\u{20}', '\u{20}'),
        (0xabb5, 1, '\u{13e5}', '\u{20}', '\u{20}'),
        (0xabb6, 1, '\u{13e6}', '\u{20}', '\u{20}'),
        (0xabb7, 1, '\u{13e7}', '\u{20}', '\u{20}'),
        (0xabb8, 1, '\u{13e8}', '\u{20}', '\u{20}'),
        (0xabb9, 1, '\u{13e9}', '\u{20}', '\u{20}'),
        (0xabba, 1, '\u{13ea}', '\u{20}', '\u{20}'),
        (0xabbb, 1, '\u{13eb}', '\u{20}', '\u{20}'),
        (0xabbc, 1, '\u{13ec}', '\u{20}', '\u{20}'),
        (0xabbd, 1, '\u{13ed}', '\u{20}', '\u{20}'),
        (0xabbe, 1, '\u{13ee}', '\u{20}', '\u{20}'),
        (0xabbf, 1, '\u{13ef}', '\u{20}', '\u{20}'),
        (0xfb00, 2, '\u{66}', '\u{66}', '\u{20}'),
        (0xfb01, 2, '\u{66}', '\u{69}', '\u{20}'),
        (0xfb02, 2, '\u{66}', '\u{6c}', '\u{20}'),
        (0xfb03, 3, '\u{66}', '\u{66}', '\u{69}'),
        (0xfb04, 3, '\u{66}', '\u{66}', '\u{6c}'),
        (0xfb05, 2, '\u{73}', '\u{74}', '\u{20}'),
        (0xfb06, 2, '\u{73}', '\u{74}', '\u{20}'),
        (0xfb13, 2, '\u{574}', '\u{576}', '\u{20}'),
        (0xfb14, 2, '\u{574}', '\u{565}', '\u{20}'),
        (0xfb15, 2, '\u{574}', '\u{56b}', '\u{20}'),
        (0xfb16, 2, '\u{57e}', '\u{576}', '\u{20}'),
        (0xfb17, 2, '\u{574}', '\u{56d}', '\u{20}')
    ]
}

pub fn casefold_specials_table() -> (r: Vec<(u32, u8, char, char, char)>)
    ensures
        r@ == casefold_specials(),
{
    reveal(casefold_specials);
    vec![
        (0xb5, 1, '\u{3bc}', '\u{20}', '\u{20}'),
        (0xdf, 2, '\u{73}', '\u{73}', '\u{20}'),
        (0x149, 2, '\u{2bc}', '\u{6e}', '\u{20}'),
        (0x17f, 1, '\u{73}', '\u{20}', '\u{20}'),
        (0x1f0, 2, '\u{6a}', '\u{30c}', '\u{20}'),
        (0x345, 1, '\u{3b9}', '\u{20}', '\u{20}'),
        (0x390, 3, '\u{3b9}', '\u{308}', '\u{301}'),
        (0x3b0, 3, '\u{3c5}', '\u{308}', '\u{301}'),
        (0x3c2, 1, '\u{3c3}', '\u{20}', '\u{20}'),
        (0x3d0, 1, '\u{3b2}', '\u{20}', '\u{20}'),
        (0x3d1, 1, '\u{3b8}', '\u{20}', '\u{20}'),
        (0x3d5, 1, '\u{3c6}', '\u{20}', '\u{20}'),
        (0x3d6, 1, '\u{3c0}', '\u{20}', '\u{20}'),
        (0x3f0, 1, '\u{3ba}', '\u{20}', '\u{20}'),
        (0x3f1, 1, '\u{3c1}', '\u{20}', '\u{20}'),
        (0x3f5, 1, '\u{3b5}', '\u{20}', '\u{20}'),
        (0x587, 2, '\u{565}', '\u{582}', '\u{20}'),
        (0x13a0, 1, '\u{13a0}', '\u{20}', '\u{20}'),
        (0x13a1, 1, '\u{13a1}', '\u{20}', '\u{20}'),
        (0x13a2, 1, '\u{13a2}', '\u{20}', '\u{20}'),
        (0x13a3, 1, '\u{13a3}', '\u{20}', '\u{20}'),
        (0x13a4, 1, '\u{13a4}', '\u{20}', '\u{20}'),
        (0x13a5, 1, '\u{13a5}', '\u{20}', '\u{20}'),
        (0x13a6, 1, '\u{13a6}', '\u{20}', '\u{20}'),
        (0x13a7, 1, '\u{13a7}', '\u{20}', '\u{20}'),
        (0x13a8, 1, '\u{13a8}', '\u{20}', '\u{20}'),
        (0x13a9, 1, '\u{13a9}', '\u{20}', '\u{20}'),
        (0x13aa, 1, '\u{13aa}', '\u{20}', '\u{20}'),
        (0x13ab, 1, '\u{13ab}', '\u{20}', '\u{20}'),
        (0x13ac, 1, '\u{13ac}', '\u{20}', '\u{20}'),
        (0x13ad, 1, '\u{13ad}', '\u{20}', '\u{20}'),
        (0x13ae, 1, '\u{13ae}', '\u{20}', '\u{20}'),
        (0x13af, 1, '\u{13af}', '\u{20}', '\u{20}'),
        (0x13b0, 1, '\u{13b0}', '\u{20}', '\u{20}'),
        (0x13b1, 1, '\u{13b1}', '\u{20}', '\u{20}'),
        (0x13b2, 1, '\u{13b2}', '\u{20}', '\u{20}'),
        (0x13b3, 1, '\u{13b3}', '\u{20}', '\u{20}'),
        (0x13b4, 1, '\u{13b4}', '\u{20}', '\u{20}'),
        (0x13b5, 1, '\u{13b5}', '\u{20}', '\u{20}'),
        (0x13b6, 1, '\u{13b6}', '\u{20}', '\u{20}'),
        (0x13b7, 1, '\u{13b7}', '\u{20}', '\u{20}'),
        (0x13b8, 1, '\u{13b8}', '\u{20}', '\u{20}'),
        (0x13b9, 1, '\u{13b9}', '\u{20}', '\u{20}'),
        (0x13ba, 1, '\u{13ba}', '\u{20}', '\u{20}'),
        (0x13bb, 1, '\u{13bb}', '\u{20}', '\u{20}'),
        (0x13bc, 1, '\u{13bc}', '\u{20}', '\u{20}'),
        (0x13bd, 1, '\u{13bd}', '\u{20}', '\u{20}'),
        (0x13be, 1, '\u{13be}', '\u{20}', '\u{20}'),
        (0x13bf, 1, '\u{13bf}', '\u{20}', '\u{20}'),
        (0x13c0, 1, '\u{13c0}', '\u{20}', '\u{20}'),
        (0x13c1, 1, '\u{13c1}', '\u{20}', '\u{20}'),
        (0x13c2, 1, '\u{13c2}', '\u{20}', '\u{20}'),
        (0x13c3, 1, '\u{13c3}', '\u{20}', '\u{20}'),
        (0x13c4, 1, '\u{13c4}', '\u{20}', '\u{20}'),
        (0x13c5, 1, '\u{13c5}', '\u{20}', '\u{20}'),
        (0x13c6, 1, '\u{13c6}', '\u{20}', '\u{20}'),
        (0x13c7, 1, '\u{13c7}', '\u{20}', '\u{20}'),
        (0x13c8, 1, '\u{13c8}', '\u{20}', '\u{20}'),
        (0x13c9, 1, '\u{13c9}', '\u{20}', '\u{20}'),
        (0x13ca, 1, '\u{13ca}', '\u{20}', '\u{20}'),
        (0x13cb, 1, '\u{13cb}', '\u{20}', '\u{20}'),
        (0x13cc, 1, '\u{13cc}', '\u{20}', '\u{20}'),
        (0x13cd, 1, '\u{13cd}', '\u{20}', '\u{20}'),
        (0x13ce, 1, '\u{13ce}', '\u{20}', '\u{20}'),
        (0x13cf, 1, '\u{13cf}', '\u{20}', '\u{20}'),
        (0x13d0, 1, '\u{13d0}', '\u{20}', '\u{20}'),
        (0x13d1, 1, '\u{13d1}', '\u{20}', '\u{20}'),
        (0x13d2, 1, '\u{13d2}', '\u{20}', '\u{20}'),
        (0x13d3, 1, '\u{13d3}', '\u{20}', '\u{20}'),
        (0x13d4, 1, '\u{13d4}', '\u{20}', '\u{20}'),
        (0x13d5, 1, '\u{13d5}', '\u{20}', '\u{20}'),
        (0x13d6, 1, '\u{13d6}', '\u{20}', '\u{20}'),
        (0x13d7, 1, '\u{13d7}', '\u{20}', '\u{20}'),
        (0x13d8, 1, '\u{13d8}', '\u{20}', '\u{20}'),
        (0x13d9, 1, '\u{13d9}', '\u{20}', '\u{20}'),
        (0x13da, 1, '\u{13da}', '\u{20}', '\u{20}'),
        (0x13db, 1, '\u{13db}', '\u{20}', '\u{20}'),
        (0x13dc, 1, '\u{13dc}', '\u{20}', '\u{20}'),
        (0x13dd, 1, '\u{13dd}', '\u{20}', '\u{20}'),
        (0x13de, 1, '\u{13de}', '\u{20}', '\u{20}'),
        (0x13df, 1, '\u{13df}', '\u{20}', '\u{20}'),
        (0x13e0, 1, '\u{13e0}', '\u{20}', '\u{20}'),
        (0x13e1, 1, '\u{13e1}', '\u{20}', '\u{20}'),
        (0x13e2, 1, '\u{13e2}', '\u{20}', '\u{20}'),
        (0x13e3, 1, '\u{13e3}', '\u{20}', '\u{20}'),
        (0x13e4, 1, '\u{13e4}', '\u{20}', '\u{20}'),
        (0x13e5, 1, '\u{13e5}', '\u{20}', '\u{20}'),
        (0x13e6, 1, '\u{13e6}', '\u{20}', '\u{20}'),
        (0x13e7, 1, '\u{13e7}', '\u{20}', '\u{20}'),
        (0x13e8, 1, '\u{13e8}', '\u{20}', '\u{20}'),
        (0x13e9, 1, '\u{13e9}', '\u{20}', '\u{20}'),
        (0x13ea, 1, '\u{13ea}', '\u{20}', '\u{20}'),
        (0x13eb, 1, '\u{13eb}', '\u{20}', '\u{20}'),
        (0x13ec, 1, '\u{13ec}', '\u{20}', '\u{20}'),
        (0x13ed, 1, '\u{13ed}', '\u{20}', '\u{20}'),
        (0x13ee, 1, '\u{13ee}', '\u{20}', '\u{20}'),
        (0x13ef, 1, '\u{13ef}', '\u{20}', '\u{20}'),
        (0x13f0, 1, '\u{13f0}', '\u{20}', '\u{20}'),
        (0x13f1, 1, '\u{13f1}', '\u{20}', '\u{20}'),
        (0x13f2, 1, '\u{13f2}', '\u{20}', '\u{20}'),
        (0x13f3, 1, '\u{13f3}', '\u{20}', '\u{20}'),
        (0x13f4, 1, '\u{13f4}', '\u{20}', '\u{20}'),
        (0x13f5, 1, '\u{13f5}', '\u{20}', '\u{20}'),
        (0x13f8, 1, '\u{13f0}', '\u{20}', '\u{20}'),
        (0x13f9, 1, '\u{13f1}', '\u{20}', '\u{20}'),
        (0x13fa, 1, '\u{13f2}', '\u{20}', '\u{20}'),
        (0x13fb, 1, '\u{13f3}', '\u{20}', '\u{20}'),
        (0x13fc, 1, '\u{13f4}', '\u{20}', '\u{20}'),
        (0x13fd, 1, '\u{13f5}', '\u{20}', '\u{20}'),
        (0x1c80, 1, '\u{432}', '\u{20}', '\u{20}'),
        (0x1c81, 1, '\u{434}', '\u{20}', '\u{20}'),
        (0x1c82, 1, '\u{43e}', '\u{20}', '\u{20}'),
        (0x1c83, 1, '\u{441}', '\u{20}', '\u{20}'),
        (0x1c84, 1, '\u{442}', '\u{20}', '\u{20}'),
        (0x1c85, 1, '\u{442}', '\u{20}', '\u{20}'),
        (0x1c86, 1, '\u{44a}', '\u{20}', '\u{20}'),
        (0x1c87, 1, '\u{463}', '\u{20}', '\u{20}'),
        (0x1c88, 1, '\u{a64b}', '\u{20}', '\u{20}'),
        (0x1e96, 2, '\u{68}', '\u{331}', '\u{20}'),
        (0x1e97, 2, '\u{74}', '\u{308}', '\u{20}'),
        (0x1e98, 2, '\u{77}', '\u{30a}', '\u{20}'),
        (0x1e99, 2, '\u{79}', '\u{30a}', '\u{20}'),
        (0x1e9a, 2, '\u{61}', '\u{2be}', '\u{20}'),
        (0x1e9b, 1, '\u{1e61}', '\u{20}', '\u{20}'),
        (0x1e9e, 2, '\u{73}', '\u{73}', '\u{20}'),
        (0x1f50, 2, '\u{3c5}', '\u{313}', '\u{20}'),
        (0x1f52, 3, '\u{3c5}', '\u{313}', '\u{300}'),
        (0x1f54, 3, '\u{3c5}', '\u{313}', '\u{301}'),
        (0x1f56, 3, '\u{3c5}', '\u{313}', '\u{342}'),
        (0x1f80, 2, '\u{1f00}', '\u{3b9}', '\u{20}'),
        (0x1f81, 2, '\u{1f01}', '\u{3b9}', '\u{20}'),
        (0x1f82, 2, '\u{1f02}', '\u{3b9}', '\u{20}'),
        (0x1f83, 2, '\u{1f03}', '\u{3b9}', '\u{20}'),
        (0x1f84, 2, '\u{1f04}', '\u{3b9}', '\u{20}'),
        (0x1f85, 2, '\u{1f05}', '\u{3b9}', '\u{20}'),
        (0x1f86, 2, '\u{1f06}', '\u{3b9}', '\u{20}'),
        (0x1f87, 2, '\u{1f07}', '\u{3b9}', '\u{20}'),
        (0x1f88, 2, '\u{1f00}', '\u{3b9}', '\u{20}'),
        (0x1f89, 2, '\u{1f01}', '\u{3b9}', '\u{20}'),
        (0x1f8a, 2, '\u{1f02}', '\u{3b9}', '\u{20}'),
        (0x1f8b, 2, '\u{1f03}', '\u{3b9}', '\u{20}'),
        (0x1f8c, 2, '\u{1f04}', '\u{3b9}', '\u{20}'),
        (0x1f8d, 2, '\u{1f05}', '\u{3b9}', '\u{20}'),
        (0x1f8e, 2, '\u{1f06}', '\u{3b9}', '\u{20}'),
        (0x1f8f, 2, '\u{1f07}', '\u{3b9}', '\u{20}'),
        (0x1f90, 2, '\u{1f20}', '\u{3b9}', '\u{20}'),
        (0x1f91, 2, '\u{1f21}', '\u{3b9}', '\u{20}'),
        (0x1f92, 2, '\u{1f22}', '\u{3b9}', '\u{20}'),
        (0x1f93, 2, '\u{1f23}', '\u{3b9}', '\u{20}'),
        (0x1f94, 2, '\u{1f24}', '\u{3b9}', '\u{20}'),
        (0x1f95, 2, '\u{1f25}', '\u{3b9}', '\u{20}'),
        (0x1f96, 2, '\u{1f26}', '\u{3b9}', '\u{20}'),
        (0x1f97, 2, '\u{1f27}', '\u{3b9}', '\u{20}'),
        (0x1f98, 2, '\u{1f20}', '\u{3b9}', '\u{20}'),
        (0x1f99, 2, '\u{1f21}', '\u{3b9}', '\u{20}'),
        (0x1f9a, 2, '\u{1f22}', '\u{3b9}', '\u{20}'),
        (0x1f9b, 2, '\u{1f23}', '\u{3b9}', '\u{20}'),
        (0x1f9c, 2, '\u{1f24}', '\u{3b9}', '\u{20}'),
        (0x1f9d, 2, '\u{1f25}', '\u{3b9}', '\u{20}'),
        (0x1f9e, 2, '\u{1f26}', '\u{3b9}', '\u{20}'),
        (0x1f9f, 2, '\u{1f27}', '\u{3b9}', '\u{20}'),
        (0x1fa0, 2, '\u{1f60}', '\u{3b9}', '\u{20}'),
        (0x1fa1, 2, '\u{1f61}', '\u{3b9}', '\u{20}'),
        (0x1fa2, 2, '\u{1f62}', '\u{3b9}', '\u{20}'),
        (0x1fa3, 2, '\u{1f63}', '\u{3b9}', '\u{20}'),
        (0x1fa4, 2, '\u{1f64}', '\u{3b9}', '\u{20}'),
        (0x1fa5, 2, '\u{1f65}', '\u{3b9}', '\u{20}'),
        (0x1fa6, 2, '\u{1f66}', '\u{3b9}', '\u{20}'),
        (0x1fa7, 2, '\u{1f67}', '\u{3b9}', '\u{20}'),
        (0x1fa8, 2, '\u{1f60}', '\u{3b9}', '\u{20}'),
        (0x1fa9, 2, '\u{1f61}', '\u{3b9}', '\u{20}'),
        (0x1faa, 2, '\u{1f62}', '\u{3b9}', '\u{20}'),
        (0x1fab, 2, '\u{1f63}', '\u{3b9}', '\u{20}'),
        (0x1fac, 2, '\u{1f64}', '\u{3b9}', '\u{20}'),
        (0x1fad, 2, '\u{1f65}', '\u{3b9}', '\u{20}'),
        (0x1fae, 2, '\u{1f66}', '\u{3b9}', '\u{20}'),
        (0x1faf, 2, '\u{1f67}', '\u{3b9}', '\u{20}'),
        (0x1fb2, 2, '\u{1f70}', '\u{3b9}', '\u{20}'),
        (0x1fb3, 2, '\u{3b1}', '\u{3b9}', '\u{20}'),
        (0x1fb4, 2, '\u{3ac}', '\u{3b9}', '\u{20}'),
        (0x1fb6, 2, '\u{3b1}', '\u{342}', '\u{20}'),
        (0x1fb7, 3, '\u{3b1}', '\u{342}', '\u{3b9}'),
        (0x1fbc, 2, '\u{3b1}', '\u{3b9}', '\u{20}'),
        (0x1fbe, 1, '\u{3b9}', '\u{20}', '\u{20}'),
        (0x1fc2, 2, '\u{1f74}', '\u{3b9}', '\u{20}'),
        (0x1fc3, 2, '\u{3b7}', '\u{3b9}', '\u{20}'),
        (0x1fc4, 2, '\u{3ae}', '\u{3b9}', '\u{20}'),
        (0x1fc6, 2, '\u{3b7}', '\u{342}', '\u{20}'),
        (0x1fc7, 3, '\u{3b7}', '\u{342}', '\u{3b9}'),
        (0x1fcc, 2, '\u{3b7}', '\u{3b9}', '\u{20}'),
        (0x1fd2, 3, '\u{3b9}', '\u{308}', '\u{300}'),
        (0x1fd3, 3, '\u{3b9}', '\u{308}', '\u{301}'),
        (0x1fd6, 2, '\u{3b9}', '\u{342}', '\u{20}'),
        (0x1fd7, 3, '\u{3b9}', '\u{308}', '\u{342}'),
        (0x1fe2, 3, '\u{3c5}', '\u{308}', '\u{300}'),
        (0x1fe3, 3, '\u{3c5}', '\u{308}', '\u{301}'),
        (0x1fe4, 2, '\u{3c1}', '\u{313}', '\u{20}'),
        (0x1fe6, 2, '\u{3c5}', '\u{342}', '\u{20}'),
        (0x1fe7, 3, '\u{3c5}', '\u{308}', '\u{342}'),
        (0x1ff2, 2, '\u{1f7c}', '\u{3b9}', '\u{20}'),
        (0x1ff3, 2, '\u{3c9}', '\u{3b9}', '\u{20}'),
        (0x1ff4, 2, '\u{3ce}', '\u{3b9}', '\u{20}'),
        (0x1ff6, 2, '\u{3c9}', '\u{342}', '\u{20}'),
        (0x1ff7, 3, '\u{3c9}', '\u{342}', '\u{3b9}'),
        (0x1ffc, 2, '\u{3c9}', '\u{3b9}', '\u{20}'),
        (0xab70, 1, '\u{13a0}', '\u{20}', '\u{20}'),
        (0xab71, 1, '\u{13a1}', '\u{20}', '\u{20}'),
        (0xab72, 1, '\u{13a2}', '\u{20}', '\u{20}'),
        (0xab73, 1, '\u{13a3}', '\u{20}', '\u{20}'),
        (0xab74, 1, '\u{13a4}', '\u{20}', '\u{20}'),
        (0xab75, 1, '\u{13a5}', '\u{20}', '\u{20}'),
        (0xab76, 1, '\u{13a6}', '\u{20}', '\u{20}'),
        (0xab77, 1, '\u{13a7}', '\u{20}', '\u{20}'),
        (0xab78, 1, '\u{13a8}', '\u{20}', '\u{20}'),
        (0xab79, 1, '\u{13a9}', '\u{20}', '\u{20}'),
        (0xab7a, 1, '\u{13aa}', '\u{20}', '\u{20}'),
        (0xab7b, 1, '\u{13ab}', '\u{20}', '\u{20}'),
        (0xab7c, 1, '\u{13ac}', '\u{20}', '\u{20}'),
        (0xab7d, 1, '\u{13ad}', '\u{20}', '\u{20}'),
        (0xab7e, 1, '\u{13ae}', '\u{20}', '\u{20}'),
        (0xab7f, 1, '\u{13af}', '\u{20}', '\u{20}'),
        (0xab80, 1, '\u{13b0}', '\u{20}', '\u{20}'),
        (0xab81, 1, '\u{13b1}', '\u{20}', '\u{20}'),
        (0xab82, 1, '\u{13b2}', '\u{20}', '\u{20}'),
        (0xab83, 1, '\u{13b3}', '\u{20}', '\u{20}'),
        (0xab84, 1, '\u{13b4}', '\u{20}', '\u{20}'),
        (0xab85, 1, '\u{13b5}', '\u{20}', '\u{20}'),
        (0xab86, 1, '\u{13b6}', '\u{20}', '\u{20}'),
        (0xab87, 1, '\u{13b7}', '\u{20}', '\u{20}'),
        (0xab88, 1, '\u{13b8}', '\u{20}', '\u{20}'),
        (0xab89, 1, '\u{13b9}', '\u{20}', '\u{20}'),
        (0xab8a, 1, '\u{13ba}', '\u{20}', '\u{20}'),
        (0xab8b, 1, '\u{13bb}', '\u{20}', '\u{20}'),
        (0xab8c, 1, '\u{13bc}', '\u{20}', '\u{20}'),
        (0xab8d, 1, '\u{13bd}', '\u{20}', '\u{20}'),
        (0xab8e, 1, '\u{13be}', '\u{20}', '\u{20}'),
        (0xab8f, 1, '\u{13bf}', '\u{20}', '\u{20}'),
        (0xab90, 1, '\u{13c0}', '\u{20}', '\u{20}'),
        (0xab91, 1, '\u{13c1}', '\u{20}', '\u{20}'),
        (0xab92, 1, '\u{13c2}', '\u{20}', '\u{20}'),
        (0xab93, 1, '\u{13c3}', '\u{20}', '\u{20}'),
        (0xab94, 1, '\u{13c4}', '\u{20}', '\u{20}'),
        (0xab95, 1, '\u{13c5}', '\u{20}', '\u{20}'),
        (0xab96, 1, '\u{13c6}', '\u{20}', '\u{20}'),
        (0xab97, 1, '\u{13c7}', '\u{20}', '\u{20}'),
        (0xab98, 1, '\u{13c8}', '\u{20}', '\u{20}'),
        (0xab99, 1, '\u{13c9}', '\u{20}', '\u{20}'),
        (0xab9a, 1, '\u{13ca}', '\u{20}', '\u{20}'),
        (0xab9b, 1, '\u{13cb}', '\u{20}', '\u{20}'),
        (0xab9c, 1, '\u{13cc}', '\u{20}', '\u{20}'),
        (0xab9d, 1, '\u{13cd}', '\u{20}', '\u{20}'),
        (0xab9e, 1, '\u{13ce}', '\u{20}', '\u{20}'),
        (0xab9f, 1, '\u{13cf}', '\u{20}', '\u{20}'),
        (0xaba0, 1, '\u{13d0}', '\u{20}', '\u{20}'),
        (0xaba1, 1, '\u{13d1}', '\u{20}', '\u{20}'),
        (0xaba2, 1, '\u{13d2}', '\u{20}', '\u{20}'),
        (0xaba3, 1, '\u{13d3}', '\u{20}', '\u{20}'),
        (0xaba4, 1, '\u{13d4}', '\u{20}', '\u{20}'),
        (0xaba5, 1, '\u{13d5}', '\u{20}', '\u{20}'),
        (0xaba6, 1, '\u{13d6}', '\u{20}', '\u{20}'),
        (0xaba7, 1, '\u{13d7}', '\u{20}', '\u{20}'),
        (0xaba8, 1, '\u{13d8}', '\u{20}', '\u{20}'),
        (0xaba9, 1, '\u{13d9}', '\u{20}', '\u{20}'),
        (0xabaa, 1, '\u{13da}', '\u{20}', '\u{20}'),
        (0xabab, 1, '\u{13db}', '\u{20}', '\u{20}'),
        (0xabac, 1, '\u{13dc}', '\u{20}', '\u{20}'),
        (0xabad, 1, '\u{13dd}', '\u{20}', '\u{20}'),
        (0xabae, 1, '\u{13de}', '\u{20}', '\u{20}'),
        (0xabaf, 1, '\u{13df}', '\u{20}', '\u{20}'),
        (0xabb0, 1, '\u{13e0}', '\u{20}', '\u{20}'),
        (0xabb1, 1, '\u{13e1}', '\u{20}', '\u{20}'),
        (0xabb2, 1, '\u{13e2}', '\u{20}', '\u{20}'),
        (0xabb3, 1, '\u{13e3}', '\u{20}', '\u{20}'),
        (0xabb4, 1, '\u{13e4}', '\u{20}', '\u{20}'),
        (0xabb5, 1, '\u{13e5}', '\u{20}', '\u{20}'),
        (0xabb6, 1, '\u{13e6}', '\u{20}', '\u{20}'),
        (0xabb7, 1, '\u{13e7}', '\u{20}', '\u{20}'),
        (0xabb8, 1, '\u{13e8}', '\u{20}', '\u{20}'),
        (0xabb9, 1, '\u{13e9}', '\u{20}', '\u{20}'),
        (0xabba, 1, '\u{13ea}', '\u{20}', '\u{20}'),
        (0xabbb, 1, '\u{13eb}', '\u{20}', '\u{20}'),
        (0xabbc, 1, '\u{13ec}', '\u{20}', '\u{20}'),
        (0xabbd, 1, '\u{13ed}', '\u{20}', '\u{20}'),
        (0xabbe, 1, '\u{13ee}', '\u{20}', '\u{20}'),
        (0xabbf, 1, '\u{13ef}', '\u{20}', '\u{20}'),
        (0xfb00, 2, '\u{66}', '\u{66}', '\u{20}'),
        (0xfb01, 2, '\u{66}', '\u{69}', '\u{20}'),
        (0xfb02, 2, '\u{66}', '\u{6c}', '\u{20}'),
        (0xfb03, 3, '\u{66}', '\u{66}', '\u{69}'),
        (0xfb04, 3, '\u{66}', '\u{66}', '\u{6c}'),
        (0xfb05, 2, '\u{73}', '\u{74}', '\u{20}'),
        (0xfb06, 2, '\u{73}', '\u{74}', '\u{20}'),
        (0xfb13, 2, '\u{574}', '\u{576}', '\u{20}'),
        (0xfb14, 2, '\u{574}', '\u{565}', '\u{20}'),
        (0xfb15, 2, '\u{574}', '\u{56b}', '\u{20}'),
        (0xfb16, 2, '\u{57e}', '\u{576}', '\u{20}'),
        (0xfb17, 2, '\u{574}', '\u{56d}', '\u{20}')
    ]
}

} // verus!
