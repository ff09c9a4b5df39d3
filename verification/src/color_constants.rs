//! Lookup data for the color engine: the D65 white point and the XYZ to
//! linear-RGB matrix (both in 12-bit fixed point), the monotone threshold
//! table for the linear-RGB to sRGB gamma step, the LED gamma-correction
//! curve, and the precomputed gamut-radius grid over quantized LAB space.
use vstd::prelude::*;

verus! {

/// Threshold of the CIE inverse-f function's two branches, scaled by 12 bits:
/// 6/29 as a 12-bit fixed-point value.
pub const DELTA: i32 = 847;

/// Offset subtracted in the linear branch of the inverse-f function: 4/29 as
/// a 12-bit fixed-point value.
pub const F_INV_OFFSET: i32 = 564;

/// The D65 reference white, roughly (95.047, 100, 108.883), rounded.
pub const D65_ILLUMINANT: [i32; 3] = [95, 100, 109];

/// The XYZ to linear RGB matrix, scaled by 4096/100 and tuned so the whole
/// integer pipeline reproduces reference sRGB values.
pub const XYZ_TO_RGB_LINEAR: [[i32; 3]; 3] = [
    [135, -64, -22],
    [-38, 75, 2],
    [2, -8, 43],
];

/// Strictly increasing thresholds of 12-bit linear-light values: entry `i`
/// is the linear value at which sRGB code `i` begins.
pub const LINEAR_RGB_TO_SRGB: [i32; 256] = [
    0, 1, 2, 4, 5, 6, 7, 8, 9, 11, 12, 14,
    15, 16, 18, 19, 21, 22, 24, 28, 29, 30, 32, 35,
    37, 39, 42, 44, 47, 50, 53, 56, 59, 62, 63, 68,
    72, 75, 79, 83, 86, 90, 94, 100, 103, 107, 111, 116,
    121, 125, 130, 135, 140, 145, 151, 156, 161, 167, 173, 177,
    185, 191, 197, 203, 209, 216, 223, 229, 236, 243, 250, 258,
    265, 272, 280, 288, 296, 303, 312, 320, 328, 337, 345, 354,
    363, 372, 381, 390, 399, 409, 418, 428, 438, 448, 458, 468,
    479, 489, 500, 511, 521, 533, 544, 555, 567, 578, 590, 602,
    611, 616, 617, 618, 619, 620, 621, 622, 623, 624, 738, 739,
    769, 783, 797, 811, 825, 840, 854, 869, 884, 899, 914, 929,
    945, 960, 976, 992, 1008, 1024, 1041, 1057, 1074, 1090, 1107, 1125,
    1144, 1159, 1177, 1195, 1212, 1231, 1249, 1267, 1286, 1304, 1323, 1342,
    1361, 1381, 1400, 1421, 1439, 1459, 1479, 1500, 1520, 1541, 1561, 1582,
    1603, 1625, 1646, 1668, 1686, 1687, 1733, 1755, 1778, 1800, 1823, 1846,
    1869, 1896, 1916, 1939, 1942, 1943, 2011, 2035, 2041, 2042, 2043, 2133,
    2159, 2184, 2209, 2235, 2261, 2286, 2313, 2339, 2365, 2392, 2419, 2446,
    2473, 2500, 2528, 2555, 2583, 2611, 2639, 2668, 2696, 2725, 2754, 2783,
    2812, 2842, 2871, 2901, 2931, 2961, 2991, 3022, 3053, 3068, 3069, 3107,
    3177, 3209, 3241, 3273, 3305, 3337, 3370, 3402, 3435, 3468, 3502, 3513,
    3569, 3602, 3636, 3671, 3705, 3718, 3719, 3720, 3819, 3820, 3867, 3918,
    3919, 3969, 4059, 4096,
];

/// Per-channel gamma correction for raw LEDs (a 2.2 power curve).
pub const GAMMA_CORRECTION: [u8; 256] = [
    0, 0, 0, 0, 0, 0, 0, 0, 0, 0, 0, 0, 0, 0, 0, 1,
    1, 1, 1, 1, 1, 1, 1, 1, 1, 2, 2, 2, 2, 2, 2, 2,
    3, 3, 3, 3, 3, 4, 4, 4, 4, 5, 5, 5, 5, 6, 6, 6,
    6, 7, 7, 7, 8, 8, 8, 9, 9, 9, 10, 10, 11, 11, 11, 12,
    12, 13, 13, 13, 14, 14, 15, 15, 16, 16, 17, 17, 18, 18, 19, 19,
    20, 20, 21, 22, 22, 23, 23, 24, 25, 25, 26, 26, 27, 28, 28, 29,
    30, 30, 31, 32, 33, 33, 34, 35, 35, 36, 37, 38, 39, 39, 40, 41,
    42, 43, 43, 44, 45, 46, 47, 48, 49, 49, 50, 51, 52, 53, 54, 55,
    56, 57, 58, 59, 60, 61, 62, 63, 64, 65, 66, 67, 68, 69, 70, 71,
    73, 74, 75, 76, 77, 78, 79, 81, 82, 83, 84, 85, 87, 88, 89, 90,
    91, 93, 94, 95, 97, 98, 99, 100, 102, 103, 105, 106, 107, 109, 110, 111,
    113, 114, 116, 117, 119, 120, 121, 123, 124, 126, 127, 129, 130, 132, 133, 135,
    137, 138, 140, 141, 143, 145, 146, 148, 149, 151, 153, 154, 156, 158, 159, 161,
    163, 165, 166, 168, 170, 172, 173, 175, 177, 179, 181, 182, 184, 186, 188, 190,
    192, 194, 196, 197, 199, 201, 203, 205, 207, 209, 211, 213, 215, 217, 219, 221,
    223, 225, 227, 229, 231, 234, 236, 238, 240, 242, 244, 246, 248, 251, 253, 255,
];

/// Radius of the largest valid chroma disk, on a coarse grid over LAB:
/// plane `li` covers lightness `8 * (li + 1)`, and the two inner axes
/// cover `a` and `b` from -88 to 80 in steps of 8.
pub const MAX_LAB_RADIUS: [[[i8; 22]; 22]; 12] = [
    [
        [0, 0, 0, 0, 0, 0, 0, 0, 0, 0, 0, 0, 0, 0, 0, 0, 0, 0, 0, 0, 0, 0,],
        [0, 0, 0, 0, 0, 0, 0, 0, 0, 0, 0, 0, 0, 0, 0, 0, 0, 0, 0, 0, 0, 0,],
        [0, 0, 0, 0, 0, 0, 0, 0, 0, 0, 0, 0, 0, 0, 0, 0, 0, 0, 0, 0, 0, 0,],
        [0, 0, 0, 0, 0, 0, 0, 0, 0, 0, 0, 0, 0, 0, 0, 0, 0, 0, 0, 0, 0, 0,],
        [0, 0, 0, 0, 0, 0, 0, 0, 0, 0, 0, 0, 0, 0, 0, 0, 0, 0, 0, 0, 0, 0,],
        [0, 0, 0, 0, 0, 0, 0, 0, 0, 0, 0, 0, 0, 0, 0, 0, 0, 0, 0, 0, 0, 0,],
        [0, 0, 0, 0, 0, 0, 0, 0, 0, 0, 0, 0, 0, 0, 0, 0, 0, 0, 0, 0, 0, 0,],
        [0, 0, 0, 0, 0, 0, 0, 0, 0, 0, 0, 0, 0, 0, 0, 0, 0, 0, 0, 0, 0, 0,],
        [0, 0, 0, 0, 0, 0, 0, 0, 0, 0, 0, 0, 0, 0, 0, 0, 0, 0, 0, 0, 0, 0,],
        [0, 0, 0, 0, 0, 0, 0, 0, 0, 0, 0, 0, 0, 0, 0, 0, 0, 0, 0, 0, 0, 0,],
        [0, 0, 0, 0, 0, 0, 0, 0, 0, 0, 0, 3, 4, 0, 0, 0, 0, 0, 0, 0, 0, 0,],
        [0, 0, 0, 0, 0, 0, 0, 0, 0, 1, 6, 10, 4, 0, 0, 0, 0, 0, 0, 0, 0, 0,],
        [0, 0, 0, 0, 0, 0, 0, 0, 2, 8, 13, 12, 4, 0, 0, 0, 0, 0, 0, 0, 0, 0,],
        [0, 0, 0, 0, 0, 0, 0, 2, 8, 13, 13, 12, 4, 0, 0, 0, 0, 0, 0, 0, 0, 0,],
        [0, 0, 0, 0, 0, 0, 2, 8, 7, 6, 5, 4, 3, 0, 0, 0, 0, 0, 0, 0, 0, 0,],
        [0, 0, 0, 0, 0, 1, 4, 2, 0, 0, 0, 0, 0, 0, 0, 0, 0, 0, 0, 0, 0, 0,],
        [0, 0, 0, 0, 0, 0, 0, 0, 0, 0, 0, 0, 0, 0, 0, 0, 0, 0, 0, 0, 0, 0,],
        [0, 0, 0, 0, 0, 0, 0, 0, 0, 0, 0, 0, 0, 0, 0, 0, 0, 0, 0, 0, 0, 0,],
        [0, 0, 0, 0, 0, 0, 0, 0, 0, 0, 0, 0, 0, 0, 0, 0, 0, 0, 0, 0, 0, 0,],
        [0, 0, 0, 0, 0, 0, 0, 0, 0, 0, 0, 0, 0, 0, 0, 0, 0, 0, 0, 0, 0, 0,],
        [0, 0, 0, 0, 0, 0, 0, 0, 0, 0, 0, 0, 0, 0, 0, 0, 0, 0, 0, 0, 0, 0,],
        [0, 0, 0, 0, 0, 0, 0, 0, 0, 0, 0, 0, 0, 0, 0, 0, 0, 0, 0, 0, 0, 0,],
    ],
    [
        [0, 0, 0, 0, 0, 0, 0, 0, 0, 0, 0, 0, 0, 0, 0, 0, 0, 0, 0, 0, 0, 0,],
        [0, 0, 0, 0, 0, 0, 0, 0, 0, 0, 0, 0, 0, 0, 0, 0, 0, 0, 0, 0, 0, 0,],
        [0, 0, 0, 0, 0, 0, 0, 0, 0, 0, 0, 0, 0, 0, 0, 0, 0, 0, 0, 0, 0, 0,],
        [0, 0, 0, 0, 0, 0, 0, 0, 0, 0, 0, 0, 0, 0, 0, 0, 0, 0, 0, 0, 0, 0,],
        [0, 0, 0, 0, 0, 0, 0, 0, 0, 0, 0, 0, 0, 0, 0, 0, 0, 0, 0, 0, 0, 0,],
        [0, 0, 0, 0, 0, 0, 0, 0, 0, 0, 0, 0, 0, 0, 0, 0, 0, 0, 0, 0, 0, 0,],
        [0, 0, 0, 0, 0, 0, 0, 0, 0, 0, 0, 0, 0, 0, 0, 0, 0, 0, 0, 0, 0, 0,],
        [0, 0, 0, 0, 0, 0, 0, 0, 0, 0, 0, 0, 0, 0, 0, 0, 0, 0, 0, 0, 0, 0,],
        [0, 0, 0, 0, 0, 0, 0, 0, 0, 0, 0, 0, 0, 1, 0, 0, 0, 0, 0, 0, 0, 0,],
        [0, 0, 0, 0, 0, 0, 0, 0, 0, 0, 0, 1, 5, 7, 0, 0, 0, 0, 0, 0, 0, 0,],
        [0, 0, 0, 0, 0, 0, 0, 0, 0, 0, 4, 9, 13, 7, 0, 0, 0, 0, 0, 0, 0, 0,],
        [0, 0, 0, 0, 0, 0, 0, 0, 0, 5, 10, 15, 15, 7, 0, 0, 0, 0, 0, 0, 0, 0,],
        [0, 0, 0, 0, 0, 0, 0, 1, 7, 12, 17, 22, 16, 8, 0, 0, 0, 0, 0, 0, 0, 0,],
        [0, 0, 0, 0, 0, 0, 1, 6, 12, 18, 23, 22, 16, 8, 0, 0, 0, 0, 0, 0, 0, 0,],
        [0, 0, 0, 0, 0, 0, 6, 12, 17, 16, 15, 14, 14, 8, 0, 0, 0, 0, 0, 0, 0, 0,],
        [0, 0, 0, 0, 0, 6, 12, 11, 9, 8, 7, 6, 6, 5, 1, 0, 0, 0, 0, 0, 0, 0,],
        [0, 0, 0, 0, 5, 7, 5, 3, 1, 0, 0, 0, 0, 0, 0, 0, 0, 0, 0, 0, 0, 0,],
        [0, 0, 0, 4, 1, 0, 0, 0, 0, 0, 0, 0, 0, 0, 0, 0, 0, 0, 0, 0, 0, 0,],
        [0, 0, 0, 0, 0, 0, 0, 0, 0, 0, 0, 0, 0, 0, 0, 0, 0, 0, 0, 0, 0, 0,],
        [0, 0, 0, 0, 0, 0, 0, 0, 0, 0, 0, 0, 0, 0, 0, 0, 0, 0, 0, 0, 0, 0,],
        [0, 0, 0, 0, 0, 0, 0, 0, 0, 0, 0, 0, 0, 0, 0, 0, 0, 0, 0, 0, 0, 0,],
        [0, 0, 0, 0, 0, 0, 0, 0, 0, 0, 0, 0, 0, 0, 0, 0, 0, 0, 0, 0, 0, 0,],
    ],
    [
        [0, 0, 0, 0, 0, 0, 0, 0, 0, 0, 0, 0, 0, 0, 0, 0, 0, 0, 0, 0, 0, 0,],
        [0, 0, 0, 0, 0, 0, 0, 0, 0, 0, 0, 0, 0, 0, 0, 0, 0, 0, 0, 0, 0, 0,],
        [0, 0, 0, 0, 0, 0, 0, 0, 0, 0, 0, 0, 0, 0, 0, 0, 0, 0, 0, 0, 0, 0,],
        [0, 0, 0, 0, 0, 0, 0, 0, 0, 0, 0, 0, 0, 0, 0, 0, 0, 0, 0, 0, 0, 0,],
        [0, 0, 0, 0, 0, 0, 0, 0, 0, 0, 0, 0, 0, 0, 0, 0, 0, 0, 0, 0, 0, 0,],
        [0, 0, 0, 0, 0, 0, 0, 0, 0, 0, 0, 0, 0, 0, 0, 0, 0, 0, 0, 0, 0, 0,],
        [0, 0, 0, 0, 0, 0, 0, 0, 0, 0, 0, 0, 0, 0, 0, 0, 0, 0, 0, 0, 0, 0,],
        [0, 0, 0, 0, 0, 0, 0, 0, 0, 0, 0, 0, 0, 0, 0, 0, 0, 0, 0, 0, 0, 0,],
        [0, 0, 0, 0, 0, 0, 0, 0, 0, 0, 0, 0, 2, 5, 8, 0, 0, 0, 0, 0, 0, 0,],
        [0, 0, 0, 0, 0, 0, 0, 0, 0, 0, 1, 5, 9, 13, 8, 0, 0, 0, 0, 0, 0, 0,],
        [0, 0, 0, 0, 0, 0, 0, 0, 0, 3, 8, 13, 16, 17, 9, 1, 0, 0, 0, 0, 0, 0,],
        [0, 0, 0, 0, 0, 0, 0, 0, 4, 9, 14, 19, 23, 17, 9, 1, 0, 0, 0, 0, 0, 0,],
        [0, 0, 0, 0, 0, 0, 0, 5, 10, 15, 20, 25, 25, 17, 9, 1, 0, 0, 0, 0, 0, 0,],
        [0, 0, 0, 0, 0, 0, 5, 10, 16, 22, 27, 32, 26, 18, 10, 2, 0, 0, 0, 0, 0, 0,],
        [0, 0, 0, 0, 0, 5, 11, 17, 22, 26, 25, 24, 23, 18, 10, 2, 0, 0, 0, 0, 0, 0,],
        [0, 0, 0, 0, 5, 10, 17, 20, 19, 18, 17, 16, 15, 15, 11, 3, 0, 0, 0, 0, 0, 0,],
        [0, 0, 0, 4, 10, 15, 14, 12, 11, 10, 9, 8, 7, 7, 7, 4, 0, 0, 0, 0, 0, 0,],
        [0, 0, 3, 10, 10, 8, 6, 4, 3, 2, 1, 0, 0, 0, 0, 0, 0, 0, 0, 0, 0, 0,],
        [0, 3, 6, 4, 2, 0, 0, 0, 0, 0, 0, 0, 0, 0, 0, 0, 0, 0, 0, 0, 0, 0,],
        [2, 1, 0, 0, 0, 0, 0, 0, 0, 0, 0, 0, 0, 0, 0, 0, 0, 0, 0, 0, 0, 0,],
        [0, 0, 0, 0, 0, 0, 0, 0, 0, 0, 0, 0, 0, 0, 0, 0, 0, 0, 0, 0, 0, 0,],
        [0, 0, 0, 0, 0, 0, 0, 0, 0, 0, 0, 0, 0, 0, 0, 0, 0, 0, 0, 0, 0, 0,],
    ],
    [
        [0, 0, 0, 0, 0, 0, 0, 0, 0, 0, 0, 0, 0, 0, 0, 0, 0, 0, 0, 0, 0, 0,],
        [0, 0, 0, 0, 0, 0, 0, 0, 0, 0, 0, 0, 0, 0, 0, 0, 0, 0, 0, 0, 0, 0,],
        [0, 0, 0, 0, 0, 0, 0, 0, 0, 0, 0, 0, 0, 0, 0, 0, 0, 0, 0, 0, 0, 0,],
        [0, 0, 0, 0, 0, 0, 0, 0, 0, 0, 0, 0, 0, 0, 0, 0, 0, 0, 0, 0, 0, 0,],
        [0, 0, 0, 0, 0, 0, 0, 0, 0, 0, 0, 0, 0, 0, 0, 0, 0, 0, 0, 0, 0, 0,],
        [0, 0, 0, 0, 0, 0, 0, 0, 0, 0, 0, 0, 0, 0, 0, 0, 0, 0, 0, 0, 0, 0,],
        [0, 0, 0, 0, 0, 0, 0, 0, 0, 0, 0, 0, 0, 0, 0, 0, 0, 0, 0, 0, 0, 0,],
        [0, 0, 0, 0, 0, 0, 0, 0, 0, 0, 0, 0, 0, 2, 5, 7, 0, 0, 0, 0, 0, 0,],
        [0, 0, 0, 0, 0, 0, 0, 0, 0, 0, 0, 2, 6, 9, 13, 8, 0, 0, 0, 0, 0, 0,],
        [0, 0, 0, 0, 0, 0, 0, 0, 0, 0, 5, 9, 13, 17, 16, 8, 0, 0, 0, 0, 0, 0,],
        [0, 0, 0, 0, 0, 0, 0, 0, 2, 7, 11, 16, 20, 24, 16, 8, 0, 0, 0, 0, 0, 0,],
        [0, 0, 0, 0, 0, 0, 0, 3, 8, 13, 18, 23, 27, 25, 17, 9, 1, 0, 0, 0, 0, 0,],
        [0, 0, 0, 0, 0, 0, 3, 9, 14, 19, 24, 29, 34, 26, 18, 10, 2, 0, 0, 0, 0, 0,],
        [0, 0, 0, 0, 0, 4, 9, 15, 20, 25, 30, 35, 34, 26, 18, 10, 2, 0, 0, 0, 0, 0,],
        [0, 0, 0, 0, 4, 10, 15, 20, 26, 32, 34, 34, 33, 26, 18, 10, 2, 0, 0, 0, 0, 0,],
        [0, 0, 0, 3, 9, 15, 21, 27, 29, 27, 26, 26, 25, 25, 19, 11, 3, 0, 0, 0, 0, 0,],
        [0, 0, 3, 9, 15, 20, 23, 22, 21, 19, 18, 18, 17, 17, 16, 12, 4, 0, 0, 0, 0, 0,],
        [0, 3, 8, 14, 18, 17, 15, 14, 13, 11, 10, 10, 9, 9, 8, 8, 5, 0, 0, 0, 0, 0,],
        [2, 8, 14, 12, 10, 9, 7, 6, 5, 3, 2, 2, 1, 1, 0, 0, 0, 0, 0, 0, 0, 0,],
        [7, 9, 6, 4, 2, 1, 0, 0, 0, 0, 0, 0, 0, 0, 0, 0, 0, 0, 0, 0, 0, 0,],
        [3, 1, 0, 0, 0, 0, 0, 0, 0, 0, 0, 0, 0, 0, 0, 0, 0, 0, 0, 0, 0, 0,],
        [0, 0, 0, 0, 0, 0, 0, 0, 0, 0, 0, 0, 0, 0, 0, 0, 0, 0, 0, 0, 0, 0,],
    ],
    [
        [0, 0, 0, 0, 0, 0, 0, 0, 0, 0, 0, 0, 0, 0, 0, 0, 0, 0, 0, 0, 0, 0,],
        [0, 0, 0, 0, 0, 0, 0, 0, 0, 0, 0, 0, 0, 0, 0, 0, 0, 0, 0, 0, 0, 0,],
        [0, 0, 0, 0, 0, 0, 0, 0, 0, 0, 0, 0, 0, 0, 0, 0, 0, 0, 0, 0, 0, 0,],
        [0, 0, 0, 0, 0, 0, 0, 0, 0, 0, 0, 0, 0, 0, 0, 0, 0, 0, 0, 0, 0, 0,],
        [0, 0, 0, 0, 0, 0, 0, 0, 0, 0, 0, 0, 0, 0, 0, 0, 0, 0, 0, 0, 0, 0,],
        [0, 0, 0, 0, 0, 0, 0, 0, 0, 0, 0, 0, 0, 0, 0, 0, 0, 0, 0, 0, 0, 0,],
        [0, 0, 0, 0, 0, 0, 0, 0, 0, 0, 0, 0, 0, 0, 1, 4, 6, 0, 0, 0, 0, 0,],
        [0, 0, 0, 0, 0, 0, 0, 0, 0, 0, 0, 0, 3, 6, 9, 12, 6, 0, 0, 0, 0, 0,],
        [0, 0, 0, 0, 0, 0, 0, 0, 0, 0, 2, 6, 10, 13, 17, 14, 6, 0, 0, 0, 0, 0,],
        [0, 0, 0, 0, 0, 0, 0, 0, 0, 4, 8, 13, 17, 21, 23, 15, 7, 0, 0, 0, 0, 0,],
        [0, 0, 0, 0, 0, 0, 0, 0, 5, 10, 15, 19, 24, 28, 24, 16, 8, 0, 0, 0, 0, 0,],
        [0, 0, 0, 0, 0, 0, 1, 7, 12, 17, 21, 26, 30, 32, 24, 16, 8, 0, 0, 0, 0, 0,],
        [0, 0, 0, 0, 0, 2, 8, 13, 18, 23, 28, 33, 37, 32, 24, 16, 8, 0, 0, 0, 0, 0,],
        [0, 0, 0, 0, 3, 8, 13, 19, 24, 29, 34, 39, 41, 33, 25, 17, 9, 1, 0, 0, 0, 0,],
        [0, 0, 0, 3, 8, 14, 19, 25, 30, 35, 40, 43, 41, 33, 25, 17, 9, 1, 0, 0, 0, 0,],
        [0, 0, 3, 8, 14, 20, 25, 30, 36, 37, 36, 35, 35, 34, 26, 18, 10, 2, 0, 0, 0, 0,],
        [0, 2, 8, 14, 20, 25, 31, 31, 30, 29, 28, 27, 27, 26, 26, 19, 11, 3, 0, 0, 0, 0,],
        [2, 8, 13, 19, 25, 26, 25, 23, 22, 21, 20, 19, 19, 18, 18, 17, 12, 4, 0, 0, 0, 0,],
        [7, 13, 19, 21, 19, 18, 17, 15, 14, 13, 12, 11, 11, 10, 10, 9, 9, 5, 0, 0, 0, 0,],
        [8, 16, 15, 13, 11, 10, 9, 7, 6, 5, 4, 3, 3, 2, 2, 1, 1, 1, 0, 0, 0, 0,],
        [8, 9, 7, 5, 3, 2, 1, 0, 0, 0, 0, 0, 0, 0, 0, 0, 0, 0, 0, 0, 0, 0,],
        [4, 1, 0, 0, 0, 0, 0, 0, 0, 0, 0, 0, 0, 0, 0, 0, 0, 0, 0, 0, 0, 0,],
    ],
    [
        [0, 0, 0, 0, 0, 0, 0, 0, 0, 0, 0, 0, 0, 0, 0, 0, 0, 0, 0, 0, 0, 0,],
        [0, 0, 0, 0, 0, 0, 0, 0, 0, 0, 0, 0, 0, 0, 0, 0, 0, 0, 0, 0, 0, 0,],
        [0, 0, 0, 0, 0, 0, 0, 0, 0, 0, 0, 0, 0, 0, 0, 0, 0, 0, 0, 0, 0, 0,],
        [0, 0, 0, 0, 0, 0, 0, 0, 0, 0, 0, 0, 0, 0, 0, 0, 0, 0, 0, 0, 0, 0,],
        [0, 0, 0, 0, 0, 0, 0, 0, 0, 0, 0, 0, 0, 0, 0, 0, 0, 0, 0, 0, 0, 0,],
        [0, 0, 0, 0, 0, 0, 0, 0, 0, 0, 0, 0, 0, 0, 0, 1, 3, 4, 0, 0, 0, 0,],
        [0, 0, 0, 0, 0, 0, 0, 0, 0, 0, 0, 0, 0, 3, 6, 9, 11, 5, 0, 0, 0, 0,],
        [0, 0, 0, 0, 0, 0, 0, 0, 0, 0, 0, 3, 7, 10, 13, 16, 13, 5, 0, 0, 0, 0,],
        [0, 0, 0, 0, 0, 0, 0, 0, 0, 1, 5, 10, 13, 17, 21, 21, 13, 5, 0, 0, 0, 0,],
        [0, 0, 0, 0, 0, 0, 0, 0, 3, 8, 12, 17, 21, 24, 28, 22, 14, 6, 0, 0, 0, 0,],
        [0, 0, 0, 0, 0, 0, 0, 5, 9, 14, 19, 23, 27, 31, 30, 22, 14, 6, 0, 0, 0, 0,],
        [0, 0, 0, 0, 0, 0, 5, 10, 15, 20, 25, 29, 34, 39, 31, 23, 15, 7, 0, 0, 0, 0,],
        [0, 0, 0, 0, 0, 6, 11, 17, 22, 27, 32, 36, 41, 39, 31, 23, 15, 7, 0, 0, 0, 0,],
        [0, 0, 0, 1, 7, 12, 17, 23, 28, 33, 38, 43, 48, 40, 32, 24, 16, 8, 0, 0, 0, 0,],
        [0, 0, 1, 7, 13, 18, 23, 29, 34, 39, 44, 49, 49, 41, 33, 25, 17, 9, 1, 0, 0, 0,],
        [0, 1, 7, 13, 18, 24, 29, 34, 40, 45, 46, 45, 44, 41, 33, 25, 17, 9, 1, 0, 0, 0,],
        [0, 3, 11, 18, 24, 29, 35, 40, 39, 39, 38, 37, 36, 36, 34, 26, 18, 10, 2, 0, 0, 0,],
        [0, 3, 11, 19, 27, 35, 34, 32, 31, 31, 30, 29, 28, 28, 27, 27, 19, 11, 3, 0, 0, 0,],
        [0, 3, 11, 19, 27, 27, 26, 25, 23, 23, 22, 21, 20, 20, 19, 19, 18, 12, 4, 0, 0, 0,],
        [0, 3, 11, 19, 20, 19, 18, 17, 15, 15, 14, 13, 12, 12, 11, 11, 10, 10, 4, 0, 0, 0,],
        [0, 3, 11, 14, 12, 11, 10, 9, 7, 7, 6, 5, 4, 4, 3, 3, 2, 2, 2, 0, 0, 0,],
        [0, 2, 8, 6, 4, 3, 2, 1, 0, 0, 0, 0, 0, 0, 0, 0, 0, 0, 0, 0, 0, 0,],
    ],
    [
        [0, 0, 0, 0, 0, 0, 0, 0, 0, 0, 0, 0, 0, 0, 0, 0, 0, 0, 0, 0, 0, 0,],
        [0, 0, 0, 0, 0, 0, 0, 0, 0, 0, 0, 0, 0, 0, 0, 0, 0, 0, 0, 0, 0, 0,],
        [0, 0, 0, 0, 0, 0, 0, 0, 0, 0, 0, 0, 0, 0, 0, 0, 0, 0, 0, 0, 0, 0,],
        [0, 0, 0, 0, 0, 0, 0, 0, 0, 0, 0, 0, 0, 0, 0, 0, 0, 0, 0, 0, 0, 0,],
        [0, 0, 0, 0, 0, 0, 0, 0, 0, 0, 0, 0, 0, 0, 0, 0, 0, 2, 3, 0, 0, 0,],
        [0, 0, 0, 0, 0, 0, 0, 0, 0, 0, 0, 0, 0, 0, 3, 5, 8, 10, 3, 0, 0, 0,],
        [0, 0, 0, 0, 0, 0, 0, 0, 0, 0, 0, 0, 3, 7, 10, 13, 16, 12, 4, 0, 0, 0,],
        [0, 0, 0, 0, 0, 0, 0, 0, 0, 0, 2, 6, 10, 14, 17, 20, 20, 12, 4, 0, 0, 0,],
        [0, 0, 0, 0, 0, 0, 0, 0, 0, 5, 9, 13, 17, 21, 25, 28, 20, 12, 4, 0, 0, 0,],
        [0, 0, 0, 0, 0, 0, 0, 2, 7, 11, 16, 20, 24, 28, 32, 29, 21, 13, 5, 0, 0, 0,],
        [0, 0, 0, 0, 0, 0, 3, 8, 13, 18, 22, 27, 31, 35, 37, 29, 21, 13, 5, 0, 0, 0,],
        [0, 0, 0, 0, 0, 4, 9, 14, 19, 24, 29, 34, 38, 42, 38, 30, 22, 14, 6, 0, 0, 0,],
        [0, 0, 0, 0, 5, 10, 15, 20, 25, 30, 35, 40, 45, 46, 38, 30, 22, 14, 6, 0, 0, 0,],
        [0, 0, 0, 5, 10, 16, 21, 27, 32, 37, 42, 47, 51, 47, 39, 31, 23, 15, 7, 0, 0, 0,],
        [0, 0, 0, 6, 14, 22, 27, 32, 38, 43, 48, 53, 58, 47, 39, 31, 23, 15, 7, 0, 0, 0,],
        [0, 0, 0, 6, 14, 22, 30, 38, 44, 49, 52, 50, 48, 47, 40, 32, 24, 16, 8, 0, 0, 0,],
        [0, 0, 0, 6, 14, 22, 30, 38, 46, 46, 44, 42, 40, 39, 37, 33, 25, 17, 9, 1, 0, 0,],
        [0, 0, 0, 6, 14, 22, 30, 38, 41, 38, 36, 34, 32, 31, 29, 28, 25, 17, 9, 1, 0, 0,],
        [0, 0, 0, 5, 13, 21, 29, 34, 33, 31, 28, 26, 25, 23, 22, 20, 19, 18, 10, 2, 0, 0,],
        [0, 0, 0, 5, 13, 21, 27, 26, 25, 23, 21, 19, 17, 15, 14, 12, 11, 10, 9, 3, 0, 0,],
        [0, 0, 0, 5, 13, 21, 19, 18, 17, 15, 13, 11, 9, 7, 6, 4, 3, 2, 1, 1, 0, 0,],
        [0, 0, 0, 5, 13, 13, 11, 10, 9, 8, 5, 3, 1, 0, 0, 0, 0, 0, 0, 0, 0, 0,],
    ],
    [
        [0, 0, 0, 0, 0, 0, 0, 0, 0, 0, 0, 0, 0, 0, 0, 0, 0, 0, 0, 0, 0, 0,],
        [0, 0, 0, 0, 0, 0, 0, 0, 0, 0, 0, 0, 0, 0, 0, 0, 0, 0, 0, 0, 0, 0,],
        [0, 0, 0, 0, 0, 0, 0, 0, 0, 0, 0, 0, 0, 0, 0, 0, 0, 0, 0, 0, 0, 0,],
        [0, 0, 0, 0, 0, 0, 0, 0, 0, 0, 0, 0, 0, 0, 0, 0, 0, 0, 1, 1, 0, 0,],
        [0, 0, 0, 0, 0, 0, 0, 0, 0, 0, 0, 0, 0, 0, 0, 2, 5, 7, 9, 2, 0, 0,],
        [0, 0, 0, 0, 0, 0, 0, 0, 0, 0, 0, 0, 0, 4, 7, 10, 13, 15, 10, 2, 0, 0,],
        [0, 0, 0, 0, 0, 0, 0, 0, 0, 0, 0, 3, 7, 11, 14, 17, 20, 18, 10, 2, 0, 0,],
        [0, 0, 0, 0, 0, 0, 0, 0, 0, 2, 6, 10, 14, 18, 22, 25, 27, 19, 11, 3, 0, 0,],
        [0, 0, 0, 0, 0, 0, 0, 0, 4, 8, 13, 17, 21, 25, 29, 32, 27, 19, 11, 3, 0, 0,],
        [0, 0, 0, 0, 0, 0, 0, 5, 10, 15, 19, 24, 28, 32, 36, 35, 27, 19, 11, 3, 0, 0,],
        [0, 0, 0, 0, 0, 2, 7, 12, 17, 21, 26, 30, 35, 39, 43, 36, 28, 20, 12, 4, 0, 0,],
        [0, 0, 0, 0, 1, 8, 13, 18, 23, 28, 33, 36, 42, 46, 44, 36, 28, 20, 12, 4, 0, 0,],
        [0, 0, 0, 0, 1, 9, 17, 24, 29, 34, 39, 44, 48, 51, 45, 37, 29, 21, 13, 5, 0, 0,],
        [0, 0, 0, 0, 1, 9, 17, 25, 33, 40, 45, 46, 44, 43, 41, 38, 30, 22, 14, 6, 0, 0,],
        [0, 0, 0, 0, 1, 9, 17, 25, 33, 41, 41, 39, 37, 35, 33, 32, 30, 22, 14, 6, 0, 0,],
        [0, 0, 0, 0, 1, 9, 17, 25, 33, 36, 33, 31, 29, 27, 25, 24, 23, 22, 15, 7, 0, 0,],
        [0, 0, 0, 0, 1, 9, 17, 25, 31, 28, 25, 23, 21, 19, 18, 16, 15, 14, 13, 7, 0, 0,],
        [0, 0, 0, 0, 1, 9, 17, 25, 23, 20, 18, 16, 13, 12, 10, 8, 7, 6, 5, 4, 0, 0,],
        [0, 0, 0, 0, 0, 8, 16, 19, 16, 13, 10, 8, 6, 4, 2, 0, 0, 0, 0, 0, 0, 0,],
        [0, 0, 0, 0, 0, 8, 14, 11, 8, 5, 3, 0, 0, 0, 0, 0, 0, 0, 0, 0, 0, 0,],
        [0, 0, 0, 0, 0, 8, 7, 4, 1, 0, 0, 0, 0, 0, 0, 0, 0, 0, 0, 0, 0, 0,],
        [0, 0, 0, 0, 0, 4, 0, 0, 0, 0, 0, 0, 0, 0, 0, 0, 0, 0, 0, 0, 0, 0,],
    ],
    [
        [0, 0, 0, 0, 0, 0, 0, 0, 0, 0, 0, 0, 0, 0, 0, 0, 0, 0, 0, 0, 0, 0,],
        [0, 0, 0, 0, 0, 0, 0, 0, 0, 0, 0, 0, 0, 0, 0, 0, 0, 0, 0, 0, 0, 0,],
        [0, 0, 0, 0, 0, 0, 0, 0, 0, 0, 0, 0, 0, 0, 0, 0, 0, 0, 0, 1, 0, 0,],
        [0, 0, 0, 0, 0, 0, 0, 0, 0, 0, 0, 0, 0, 0, 0, 0, 2, 4, 7, 8, 0, 0,],
        [0, 0, 0, 0, 0, 0, 0, 0, 0, 0, 0, 0, 0, 0, 4, 7, 9, 12, 14, 8, 0, 0,],
        [0, 0, 0, 0, 0, 0, 0, 0, 0, 0, 0, 0, 4, 7, 11, 14, 17, 19, 17, 9, 1, 0,],
        [0, 0, 0, 0, 0, 0, 0, 0, 0, 0, 3, 7, 11, 15, 18, 21, 25, 25, 17, 9, 1, 0,],
        [0, 0, 0, 0, 0, 0, 0, 0, 1, 5, 10, 12, 18, 22, 25, 29, 32, 25, 17, 9, 1, 0,],
        [0, 0, 0, 0, 0, 0, 0, 3, 8, 12, 16, 21, 25, 29, 32, 36, 34, 26, 18, 10, 2, 0,],
        [0, 0, 0, 0, 0, 0, 4, 9, 14, 19, 23, 27, 32, 36, 39, 42, 34, 26, 18, 10, 2, 0,],
        [0, 0, 0, 0, 0, 0, 4, 12, 20, 25, 30, 34, 39, 43, 47, 43, 35, 27, 19, 11, 3, 0,],
        [0, 0, 0, 0, 0, 0, 4, 12, 20, 28, 36, 41, 43, 41, 39, 37, 35, 27, 19, 11, 3, 0,],
        [0, 0, 0, 0, 0, 0, 4, 12, 20, 28, 36, 37, 35, 33, 31, 30, 28, 27, 20, 12, 4, 0,],
        [0, 0, 0, 0, 0, 0, 4, 12, 20, 28, 32, 30, 27, 25, 23, 22, 20, 19, 18, 12, 4, 0,],
        [0, 0, 0, 0, 0, 0, 4, 12, 20, 27, 25, 22, 20, 18, 16, 14, 12, 11, 10, 9, 5, 0,],
        [0, 0, 0, 0, 0, 0, 4, 12, 20, 20, 17, 14, 12, 10, 8, 6, 4, 3, 2, 1, 0, 0,],
        [0, 0, 0, 0, 0, 0, 4, 12, 15, 12, 9, 7, 4, 2, 0, 0, 0, 0, 0, 0, 0, 0,],
        [0, 0, 0, 0, 0, 0, 4, 11, 8, 5, 2, 0, 0, 0, 0, 0, 0, 0, 0, 0, 0, 0,],
        [0, 0, 0, 0, 0, 0, 3, 4, 0, 0, 0, 0, 0, 0, 0, 0, 0, 0, 0, 0, 0, 0,],
        [0, 0, 0, 0, 0, 0, 0, 0, 0, 0, 0, 0, 0, 0, 0, 0, 0, 0, 0, 0, 0, 0,],
        [0, 0, 0, 0, 0, 0, 0, 0, 0, 0, 0, 0, 0, 0, 0, 0, 0, 0, 0, 0, 0, 0,],
        [0, 0, 0, 0, 0, 0, 0, 0, 0, 0, 0, 0, 0, 0, 0, 0, 0, 0, 0, 0, 0, 0,],
    ],
    [
        [0, 0, 0, 0, 0, 0, 0, 0, 0, 0, 0, 0, 0, 0, 0, 0, 0, 0, 0, 0, 0, 0,],
        [0, 0, 0, 0, 0, 0, 0, 0, 0, 0, 0, 0, 0, 0, 0, 0, 0, 0, 0, 0, 0, 0,],
        [0, 0, 0, 0, 0, 0, 0, 0, 0, 0, 0, 0, 0, 0, 0, 0, 0, 1, 3, 6, 6, 0,],
        [0, 0, 0, 0, 0, 0, 0, 0, 0, 0, 0, 0, 0, 0, 0, 3, 6, 9, 11, 13, 7, 0,],
        [0, 0, 0, 0, 0, 0, 0, 0, 0, 0, 0, 0, 0, 4, 8, 11, 13, 16, 19, 15, 7, 0,],
        [0, 0, 0, 0, 0, 0, 0, 0, 0, 0, 0, 4, 8, 11, 15, 18, 21, 24, 23, 15, 7, 0,],
        [0, 0, 0, 0, 0, 0, 0, 0, 0, 2, 7, 10, 15, 18, 22, 25, 28, 31, 24, 16, 8, 0,],
        [0, 0, 0, 0, 0, 0, 0, 0, 5, 9, 13, 17, 22, 26, 29, 33, 36, 32, 24, 16, 8, 0,],
        [0, 0, 0, 0, 0, 0, 0, 0, 8, 15, 20, 24, 28, 32, 36, 40, 41, 33, 25, 17, 9, 1,],
        [0, 0, 0, 0, 0, 0, 0, 0, 8, 16, 24, 31, 35, 39, 39, 37, 35, 33, 25, 17, 9, 1,],
        [0, 0, 0, 0, 0, 0, 0, 0, 8, 16, 24, 32, 35, 33, 31, 29, 27, 26, 25, 18, 10, 2,],
        [0, 0, 0, 0, 0, 0, 0, 0, 8, 16, 24, 30, 28, 25, 23, 21, 20, 18, 17, 15, 10, 2,],
        [0, 0, 0, 0, 0, 0, 0, 0, 7, 15, 23, 23, 20, 18, 16, 14, 12, 10, 9, 7, 6, 3,],
        [0, 0, 0, 0, 0, 0, 0, 0, 7, 15, 18, 15, 13, 10, 8, 6, 4, 2, 1, 0, 0, 0,],
        [0, 0, 0, 0, 0, 0, 0, 0, 7, 13, 10, 8, 5, 2, 0, 0, 0, 0, 0, 0, 0, 0,],
        [0, 0, 0, 0, 0, 0, 0, 0, 7, 6, 3, 0, 0, 0, 0, 0, 0, 0, 0, 0, 0, 0,],
        [0, 0, 0, 0, 0, 0, 0, 0, 2, 0, 0, 0, 0, 0, 0, 0, 0, 0, 0, 0, 0, 0,],
        [0, 0, 0, 0, 0, 0, 0, 0, 0, 0, 0, 0, 0, 0, 0, 0, 0, 0, 0, 0, 0, 0,],
        [0, 0, 0, 0, 0, 0, 0, 0, 0, 0, 0, 0, 0, 0, 0, 0, 0, 0, 0, 0, 0, 0,],
        [0, 0, 0, 0, 0, 0, 0, 0, 0, 0, 0, 0, 0, 0, 0, 0, 0, 0, 0, 0, 0, 0,],
        [0, 0, 0, 0, 0, 0, 0, 0, 0, 0, 0, 0, 0, 0, 0, 0, 0, 0, 0, 0, 0, 0,],
        [0, 0, 0, 0, 0, 0, 0, 0, 0, 0, 0, 0, 0, 0, 0, 0, 0, 0, 0, 0, 0, 0,],
    ],
    [
        [0, 0, 0, 0, 0, 0, 0, 0, 0, 0, 0, 0, 0, 0, 0, 0, 0, 0, 0, 0, 0, 0,],
        [0, 0, 0, 0, 0, 0, 0, 0, 0, 0, 0, 0, 0, 0, 0, 0, 0, 0, 0, 3, 4, 4,],
        [0, 0, 0, 0, 0, 0, 0, 0, 0, 0, 0, 0, 0, 0, 0, 0, 3, 6, 8, 11, 12, 5,],
        [0, 0, 0, 0, 0, 0, 0, 0, 0, 0, 0, 0, 0, 1, 4, 8, 11, 13, 16, 18, 14, 6,],
        [0, 0, 0, 0, 0, 0, 0, 0, 0, 0, 0, 0, 5, 8, 12, 15, 18, 21, 24, 22, 14, 6,],
        [0, 0, 0, 0, 0, 0, 0, 0, 0, 0, 4, 8, 11, 15, 19, 22, 25, 28, 30, 22, 14, 6,],
        [0, 0, 0, 0, 0, 0, 0, 0, 0, 4, 10, 14, 18, 22, 26, 30, 33, 36, 31, 23, 15, 7,],
        [0, 0, 0, 0, 0, 0, 0, 0, 0, 3, 11, 19, 25, 29, 33, 37, 36, 34, 31, 23, 15, 7,],
        [0, 0, 0, 0, 0, 0, 0, 0, 0, 3, 11, 19, 27, 34, 32, 30, 28, 26, 25, 24, 16, 8,],
        [0, 0, 0, 0, 0, 0, 0, 0, 0, 3, 11, 19, 27, 27, 25, 23, 20, 19, 17, 16, 14, 8,],
        [0, 0, 0, 0, 0, 0, 0, 0, 0, 3, 11, 19, 22, 19, 17, 15, 13, 11, 9, 8, 6, 5,],
        [0, 0, 0, 0, 0, 0, 0, 0, 0, 3, 11, 17, 14, 12, 9, 7, 5, 3, 1, 0, 0, 0,],
        [0, 0, 0, 0, 0, 0, 0, 0, 0, 3, 11, 9, 7, 4, 1, 0, 0, 0, 0, 0, 0, 0,],
        [0, 0, 0, 0, 0, 0, 0, 0, 0, 3, 5, 2, 0, 0, 0, 0, 0, 0, 0, 0, 0, 0,],
        [0, 0, 0, 0, 0, 0, 0, 0, 0, 1, 0, 0, 0, 0, 0, 0, 0, 0, 0, 0, 0, 0,],
        [0, 0, 0, 0, 0, 0, 0, 0, 0, 0, 0, 0, 0, 0, 0, 0, 0, 0, 0, 0, 0, 0,],
        [0, 0, 0, 0, 0, 0, 0, 0, 0, 0, 0, 0, 0, 0, 0, 0, 0, 0, 0, 0, 0, 0,],
        [0, 0, 0, 0, 0, 0, 0, 0, 0, 0, 0, 0, 0, 0, 0, 0, 0, 0, 0, 0, 0, 0,],
        [0, 0, 0, 0, 0, 0, 0, 0, 0, 0, 0, 0, 0, 0, 0, 0, 0, 0, 0, 0, 0, 0,],
        [0, 0, 0, 0, 0, 0, 0, 0, 0, 0, 0, 0, 0, 0, 0, 0, 0, 0, 0, 0, 0, 0,],
        [0, 0, 0, 0, 0, 0, 0, 0, 0, 0, 0, 0, 0, 0, 0, 0, 0, 0, 0, 0, 0, 0,],
        [0, 0, 0, 0, 0, 0, 0, 0, 0, 0, 0, 0, 0, 0, 0, 0, 0, 0, 0, 0, 0, 0,],
    ],
    [
        [0, 0, 0, 0, 0, 0, 0, 0, 0, 0, 0, 0, 0, 0, 0, 0, 0, 0, 0, 0, 0, 0,],
        [0, 0, 0, 0, 0, 0, 0, 0, 0, 0, 0, 0, 0, 0, 0, 0, 0, 0, 0, 0, 0, 0,],
        [0, 0, 0, 0, 0, 0, 0, 0, 0, 0, 0, 0, 0, 0, 0, 0, 0, 0, 0, 0, 0, 0,],
        [0, 0, 0, 0, 0, 0, 0, 0, 0, 0, 0, 0, 0, 0, 0, 0, 0, 0, 0, 0, 0, 0,],
        [0, 0, 0, 0, 0, 0, 0, 0, 0, 0, 0, 0, 0, 0, 0, 0, 0, 0, 0, 0, 0, 0,],
        [0, 0, 0, 0, 0, 0, 0, 0, 0, 0, 0, 0, 0, 0, 0, 0, 0, 0, 0, 0, 0, 0,],
        [0, 0, 0, 0, 0, 0, 0, 0, 0, 0, 0, 0, 0, 0, 0, 0, 0, 0, 0, 0, 0, 0,],
        [0, 0, 0, 0, 0, 0, 0, 0, 0, 0, 0, 0, 0, 0, 0, 0, 0, 0, 0, 0, 0, 0,],
        [0, 0, 0, 0, 0, 0, 0, 0, 0, 0, 0, 0, 0, 0, 0, 0, 1, 2, 3, 3, 4, 4,],
        [0, 0, 0, 0, 0, 0, 0, 0, 0, 0, 0, 4, 5, 6, 7, 8, 7, 5, 3, 2, 0, 0,],
        [0, 0, 0, 0, 0, 0, 0, 0, 0, 0, 0, 7, 10, 7, 4, 2, 0, 0, 0, 0, 0, 0,],
        [0, 0, 0, 0, 0, 0, 0, 0, 0, 0, 0, 6, 2, 0, 0, 0, 0, 0, 0, 0, 0, 0,],
        [0, 0, 0, 0, 0, 0, 0, 0, 0, 0, 0, 0, 0, 0, 0, 0, 0, 0, 0, 0, 0, 0,],
        [0, 0, 0, 0, 0, 0, 0, 0, 0, 0, 0, 0, 0, 0, 0, 0, 0, 0, 0, 0, 0, 0,],
        [0, 0, 0, 0, 0, 0, 0, 0, 0, 0, 0, 0, 0, 0, 0, 0, 0, 0, 0, 0, 0, 0,],
        [0, 0, 0, 0, 0, 0, 0, 0, 0, 0, 0, 0, 0, 0, 0, 0, 0, 0, 0, 0, 0, 0,],
        [0, 0, 0, 0, 0, 0, 0, 0, 0, 0, 0, 0, 0, 0, 0, 0, 0, 0, 0, 0, 0, 0,],
        [0, 0, 0, 0, 0, 0, 0, 0, 0, 0, 0, 0, 0, 0, 0, 0, 0, 0, 0, 0, 0, 0,],
        [0, 0, 0, 0, 0, 0, 0, 0, 0, 0, 0, 0, 0, 0, 0, 0, 0, 0, 0, 0, 0, 0,],
        [0, 0, 0, 0, 0, 0, 0, 0, 0, 0, 0, 0, 0, 0, 0, 0, 0, 0, 0, 0, 0, 0,],
        [0, 0, 0, 0, 0, 0, 0, 0, 0, 0, 0, 0, 0, 0, 0, 0, 0, 0, 0, 0, 0, 0,],
        [0, 0, 0, 0, 0, 0, 0, 0, 0, 0, 0, 0, 0, 0, 0, 0, 0, 0, 0, 0, 0, 0,],
    ],
];

/// The gamma threshold table rises strictly from one entry to the next.
pub proof fn lemma_gamma_table_sorted()
    ensures
        forall|i: int|
            0 <= i < 255 ==> #[trigger] LINEAR_RGB_TO_SRGB@[i] < LINEAR_RGB_TO_SRGB@[i + 1],
{
    lemma_gamma_sorted_0();
    lemma_gamma_sorted_1();
    lemma_gamma_sorted_2();
    lemma_gamma_sorted_3();
}

proof fn lemma_gamma_sorted_0()
    ensures
        forall|i: int|
            0 <= i < 64 ==> #[trigger] LINEAR_RGB_TO_SRGB@[i] < LINEAR_RGB_TO_SRGB@[i + 1],
{
    assert(LINEAR_RGB_TO_SRGB@[0] < LINEAR_RGB_TO_SRGB@[1]);
    assert(LINEAR_RGB_TO_SRGB@[1] < LINEAR_RGB_TO_SRGB@[2]);
    assert(LINEAR_RGB_TO_SRGB@[2] < LINEAR_RGB_TO_SRGB@[3]);
    assert(LINEAR_RGB_TO_SRGB@[3] < LINEAR_RGB_TO_SRGB@[4]);
    assert(LINEAR_RGB_TO_SRGB@[4] < LINEAR_RGB_TO_SRGB@[5]);
    assert(LINEAR_RGB_TO_SRGB@[5] < LINEAR_RGB_TO_SRGB@[6]);
    assert(LINEAR_RGB_TO_SRGB@[6] < LINEAR_RGB_TO_SRGB@[7]);
    assert(LINEAR_RGB_TO_SRGB@[7] < LINEAR_RGB_TO_SRGB@[8]);
    assert(LINEAR_RGB_TO_SRGB@[8] < LINEAR_RGB_TO_SRGB@[9]);
    assert(LINEAR_RGB_TO_SRGB@[9] < LINEAR_RGB_TO_SRGB@[10]);
    assert(LINEAR_RGB_TO_SRGB@[10] < LINEAR_RGB_TO_SRGB@[11]);
    assert(LINEAR_RGB_TO_SRGB@[11] < LINEAR_RGB_TO_SRGB@[12]);
    assert(LINEAR_RGB_TO_SRGB@[12] < LINEAR_RGB_TO_SRGB@[13]);
    assert(LINEAR_RGB_TO_SRGB@[13] < LINEAR_RGB_TO_SRGB@[14]);
    assert(LINEAR_RGB_TO_SRGB@[14] < LINEAR_RGB_TO_SRGB@[15]);
    assert(LINEAR_RGB_TO_SRGB@[15] < LINEAR_RGB_TO_SRGB@[16]);
    assert(LINEAR_RGB_TO_SRGB@[16] < LINEAR_RGB_TO_SRGB@[17]);
    assert(LINEAR_RGB_TO_SRGB@[17] < LINEAR_RGB_TO_SRGB@[18]);
    assert(LINEAR_RGB_TO_SRGB@[18] < LINEAR_RGB_TO_SRGB@[19]);
    assert(LINEAR_RGB_TO_SRGB@[19] < LINEAR_RGB_TO_SRGB@[20]);
    assert(LINEAR_RGB_TO_SRGB@[20] < LINEAR_RGB_TO_SRGB@[21]);
    assert(LINEAR_RGB_TO_SRGB@[21] < LINEAR_RGB_TO_SRGB@[22]);
    assert(LINEAR_RGB_TO_SRGB@[22] < LINEAR_RGB_TO_SRGB@[23]);
    assert(LINEAR_RGB_TO_SRGB@[23] < LINEAR_RGB_TO_SRGB@[24]);
    assert(LINEAR_RGB_TO_SRGB@[24] < LINEAR_RGB_TO_SRGB@[25]);
    assert(LINEAR_RGB_TO_SRGB@[25] < LINEAR_RGB_TO_SRGB@[26]);
    assert(LINEAR_RGB_TO_SRGB@[26] < LINEAR_RGB_TO_SRGB@[27]);
    assert(LINEAR_RGB_TO_SRGB@[27] < LINEAR_RGB_TO_SRGB@[28]);
    assert(LINEAR_RGB_TO_SRGB@[28] < LINEAR_RGB_TO_SRGB@[29]);
    assert(LINEAR_RGB_TO_SRGB@[29] < LINEAR_RGB_TO_SRGB@[30]);
    assert(LINEAR_RGB_TO_SRGB@[30] < LINEAR_RGB_TO_SRGB@[31]);
    assert(LINEAR_RGB_TO_SRGB@[31] < LINEAR_RGB_TO_SRGB@[32]);
    assert(LINEAR_RGB_TO_SRGB@[32] < LINEAR_RGB_TO_SRGB@[33]);
    assert(LINEAR_RGB_TO_SRGB@[33] < LINEAR_RGB_TO_SRGB@[34]);
    assert(LINEAR_RGB_TO_SRGB@[34] < LINEAR_RGB_TO_SRGB@[35]);
    assert(LINEAR_RGB_TO_SRGB@[35] < LINEAR_RGB_TO_SRGB@[36]);
    assert(LINEAR_RGB_TO_SRGB@[36] < LINEAR_RGB_TO_SRGB@[37]);
    assert(LINEAR_RGB_TO_SRGB@[37] < LINEAR_RGB_TO_SRGB@[38]);
    assert(LINEAR_RGB_TO_SRGB@[38] < LINEAR_RGB_TO_SRGB@[39]);
    assert(LINEAR_RGB_TO_SRGB@[39] < LINEAR_RGB_TO_SRGB@[40]);
    assert(LINEAR_RGB_TO_SRGB@[40] < LINEAR_RGB_TO_SRGB@[41]);
    assert(LINEAR_RGB_TO_SRGB@[41] < LINEAR_RGB_TO_SRGB@[42]);
    assert(LINEAR_RGB_TO_SRGB@[42] < LINEAR_RGB_TO_SRGB@[43]);
    assert(LINEAR_RGB_TO_SRGB@[43] < LINEAR_RGB_TO_SRGB@[44]);
    assert(LINEAR_RGB_TO_SRGB@[44] < LINEAR_RGB_TO_SRGB@[45]);
    assert(LINEAR_RGB_TO_SRGB@[45] < LINEAR_RGB_TO_SRGB@[46]);
    assert(LINEAR_RGB_TO_SRGB@[46] < LINEAR_RGB_TO_SRGB@[47]);
    assert(LINEAR_RGB_TO_SRGB@[47] < LINEAR_RGB_TO_SRGB@[48]);
    assert(LINEAR_RGB_TO_SRGB@[48] < LINEAR_RGB_TO_SRGB@[49]);
    assert(LINEAR_RGB_TO_SRGB@[49] < LINEAR_RGB_TO_SRGB@[50]);
    assert(LINEAR_RGB_TO_SRGB@[50] < LINEAR_RGB_TO_SRGB@[51]);
    assert(LINEAR_RGB_TO_SRGB@[51] < LINEAR_RGB_TO_SRGB@[52]);
    assert(LINEAR_RGB_TO_SRGB@[52] < LINEAR_RGB_TO_SRGB@[53]);
    assert(LINEAR_RGB_TO_SRGB@[53] < LINEAR_RGB_TO_SRGB@[54]);
    assert(LINEAR_RGB_TO_SRGB@[54] < LINEAR_RGB_TO_SRGB@[55]);
    assert(LINEAR_RGB_TO_SRGB@[55] < LINEAR_RGB_TO_SRGB@[56]);
    assert(LINEAR_RGB_TO_SRGB@[56] < LINEAR_RGB_TO_SRGB@[57]);
    assert(LINEAR_RGB_TO_SRGB@[57] < LINEAR_RGB_TO_SRGB@[58]);
    assert(LINEAR_RGB_TO_SRGB@[58] < LINEAR_RGB_TO_SRGB@[59]);
    assert(LINEAR_RGB_TO_SRGB@[59] < LINEAR_RGB_TO_SRGB@[60]);
    assert(LINEAR_RGB_TO_SRGB@[60] < LINEAR_RGB_TO_SRGB@[61]);
    assert(LINEAR_RGB_TO_SRGB@[61] < LINEAR_RGB_TO_SRGB@[62]);
    assert(LINEAR_RGB_TO_SRGB@[62] < LINEAR_RGB_TO_SRGB@[63]);
    assert(LINEAR_RGB_TO_SRGB@[63] < LINEAR_RGB_TO_SRGB@[64]);
}

proof fn lemma_gamma_sorted_1()
    ensures
        forall|i: int|
            64 <= i < 128 ==> #[trigger] LINEAR_RGB_TO_SRGB@[i] < LINEAR_RGB_TO_SRGB@[i + 1],
{
    assert(LINEAR_RGB_TO_SRGB@[64] < LINEAR_RGB_TO_SRGB@[65]);
    assert(LINEAR_RGB_TO_SRGB@[65] < LINEAR_RGB_TO_SRGB@[66]);
    assert(LINEAR_RGB_TO_SRGB@[66] < LINEAR_RGB_TO_SRGB@[67]);
    assert(LINEAR_RGB_TO_SRGB@[67] < LINEAR_RGB_TO_SRGB@[68]);
    assert(LINEAR_RGB_TO_SRGB@[68] < LINEAR_RGB_TO_SRGB@[69]);
    assert(LINEAR_RGB_TO_SRGB@[69] < LINEAR_RGB_TO_SRGB@[70]);
    assert(LINEAR_RGB_TO_SRGB@[70] < LINEAR_RGB_TO_SRGB@[71]);
    assert(LINEAR_RGB_TO_SRGB@[71] < LINEAR_RGB_TO_SRGB@[72]);
    assert(LINEAR_RGB_TO_SRGB@[72] < LINEAR_RGB_TO_SRGB@[73]);
    assert(LINEAR_RGB_TO_SRGB@[73] < LINEAR_RGB_TO_SRGB@[74]);
    assert(LINEAR_RGB_TO_SRGB@[74] < LINEAR_RGB_TO_SRGB@[75]);
    assert(LINEAR_RGB_TO_SRGB@[75] < LINEAR_RGB_TO_SRGB@[76]);
    assert(LINEAR_RGB_TO_SRGB@[76] < LINEAR_RGB_TO_SRGB@[77]);
    assert(LINEAR_RGB_TO_SRGB@[77] < LINEAR_RGB_TO_SRGB@[78]);
    assert(LINEAR_RGB_TO_SRGB@[78] < LINEAR_RGB_TO_SRGB@[79]);
    assert(LINEAR_RGB_TO_SRGB@[79] < LINEAR_RGB_TO_SRGB@[80]);
    assert(LINEAR_RGB_TO_SRGB@[80] < LINEAR_RGB_TO_SRGB@[81]);
    assert(LINEAR_RGB_TO_SRGB@[81] < LINEAR_RGB_TO_SRGB@[82]);
    assert(LINEAR_RGB_TO_SRGB@[82] < LINEAR_RGB_TO_SRGB@[83]);
    assert(LINEAR_RGB_TO_SRGB@[83] < LINEAR_RGB_TO_SRGB@[84]);
    assert(LINEAR_RGB_TO_SRGB@[84] < LINEAR_RGB_TO_SRGB@[85]);
    assert(LINEAR_RGB_TO_SRGB@[85] < LINEAR_RGB_TO_SRGB@[86]);
    assert(LINEAR_RGB_TO_SRGB@[86] < LINEAR_RGB_TO_SRGB@[87]);
    assert(LINEAR_RGB_TO_SRGB@[87] < LINEAR_RGB_TO_SRGB@[88]);
    assert(LINEAR_RGB_TO_SRGB@[88] < LINEAR_RGB_TO_SRGB@[89]);
    assert(LINEAR_RGB_TO_SRGB@[89] < LINEAR_RGB_TO_SRGB@[90]);
    assert(LINEAR_RGB_TO_SRGB@[90] < LINEAR_RGB_TO_SRGB@[91]);
    assert(LINEAR_RGB_TO_SRGB@[91] < LINEAR_RGB_TO_SRGB@[92]);
    assert(LINEAR_RGB_TO_SRGB@[92] < LINEAR_RGB_TO_SRGB@[93]);
    assert(LINEAR_RGB_TO_SRGB@[93] < LINEAR_RGB_TO_SRGB@[94]);
    assert(LINEAR_RGB_TO_SRGB@[94] < LINEAR_RGB_TO_SRGB@[95]);
    assert(LINEAR_RGB_TO_SRGB@[95] < LINEAR_RGB_TO_SRGB@[96]);
    assert(LINEAR_RGB_TO_SRGB@[96] < LINEAR_RGB_TO_SRGB@[97]);
    assert(LINEAR_RGB_TO_SRGB@[97] < LINEAR_RGB_TO_SRGB@[98]);
    assert(LINEAR_RGB_TO_SRGB@[98] < LINEAR_RGB_TO_SRGB@[99]);
    assert(LINEAR_RGB_TO_SRGB@[99] < LINEAR_RGB_TO_SRGB@[100]);
    assert(LINEAR_RGB_TO_SRGB@[100] < LINEAR_RGB_TO_SRGB@[101]);
    assert(LINEAR_RGB_TO_SRGB@[101] < LINEAR_RGB_TO_SRGB@[102]);
    assert(LINEAR_RGB_TO_SRGB@[102] < LINEAR_RGB_TO_SRGB@[103]);
    assert(LINEAR_RGB_TO_SRGB@[103] < LINEAR_RGB_TO_SRGB@[104]);
    assert(LINEAR_RGB_TO_SRGB@[104] < LINEAR_RGB_TO_SRGB@[105]);
    assert(LINEAR_RGB_TO_SRGB@[105] < LINEAR_RGB_TO_SRGB@[106]);
    assert(LINEAR_RGB_TO_SRGB@[106] < LINEAR_RGB_TO_SRGB@[107]);
    assert(LINEAR_RGB_TO_SRGB@[107] < LINEAR_RGB_TO_SRGB@[108]);
    assert(LINEAR_RGB_TO_SRGB@[108] < LINEAR_RGB_TO_SRGB@[109]);
    assert(LINEAR_RGB_TO_SRGB@[109] < LINEAR_RGB_TO_SRGB@[110]);
    assert(LINEAR_RGB_TO_SRGB@[110] < LINEAR_RGB_TO_SRGB@[111]);
    assert(LINEAR_RGB_TO_SRGB@[111] < LINEAR_RGB_TO_SRGB@[112]);
    assert(LINEAR_RGB_TO_SRGB@[112] < LINEAR_RGB_TO_SRGB@[113]);
    assert(LINEAR_RGB_TO_SRGB@[113] < LINEAR_RGB_TO_SRGB@[114]);
    assert(LINEAR_RGB_TO_SRGB@[114] < LINEAR_RGB_TO_SRGB@[115]);
    assert(LINEAR_RGB_TO_SRGB@[115] < LINEAR_RGB_TO_SRGB@[116]);
    assert(LINEAR_RGB_TO_SRGB@[116] < LINEAR_RGB_TO_SRGB@[117]);
    assert(LINEAR_RGB_TO_SRGB@[117] < LINEAR_RGB_TO_SRGB@[118]);
    assert(LINEAR_RGB_TO_SRGB@[118] < LINEAR_RGB_TO_SRGB@[119]);
    assert(LINEAR_RGB_TO_SRGB@[119] < LINEAR_RGB_TO_SRGB@[120]);
    assert(LINEAR_RGB_TO_SRGB@[120] < LINEAR_RGB_TO_SRGB@[121]);
    assert(LINEAR_RGB_TO_SRGB@[121] < LINEAR_RGB_TO_SRGB@[122]);
    assert(LINEAR_RGB_TO_SRGB@[122] < LINEAR_RGB_TO_SRGB@[123]);
    assert(LINEAR_RGB_TO_SRGB@[123] < LINEAR_RGB_TO_SRGB@[124]);
    assert(LINEAR_RGB_TO_SRGB@[124] < LINEAR_RGB_TO_SRGB@[125]);
    assert(LINEAR_RGB_TO_SRGB@[125] < LINEAR_RGB_TO_SRGB@[126]);
    assert(LINEAR_RGB_TO_SRGB@[126] < LINEAR_RGB_TO_SRGB@[127]);
    assert(LINEAR_RGB_TO_SRGB@[127] < LINEAR_RGB_TO_SRGB@[128]);
}

proof fn lemma_gamma_sorted_2()
    ensures
        forall|i: int|
            128 <= i < 192 ==> #[trigger] LINEAR_RGB_TO_SRGB@[i] < LINEAR_RGB_TO_SRGB@[i + 1],
{
    assert(LINEAR_RGB_TO_SRGB@[128] < LINEAR_RGB_TO_SRGB@[129]);
    assert(LINEAR_RGB_TO_SRGB@[129] < LINEAR_RGB_TO_SRGB@[130]);
    assert(LINEAR_RGB_TO_SRGB@[130] < LINEAR_RGB_TO_SRGB@[131]);
    assert(LINEAR_RGB_TO_SRGB@[131] < LINEAR_RGB_TO_SRGB@[132]);
    assert(LINEAR_RGB_TO_SRGB@[132] < LINEAR_RGB_TO_SRGB@[133]);
    assert(LINEAR_RGB_TO_SRGB@[133] < LINEAR_RGB_TO_SRGB@[134]);
    assert(LINEAR_RGB_TO_SRGB@[134] < LINEAR_RGB_TO_SRGB@[135]);
    assert(LINEAR_RGB_TO_SRGB@[135] < LINEAR_RGB_TO_SRGB@[136]);
    assert(LINEAR_RGB_TO_SRGB@[136] < LINEAR_RGB_TO_SRGB@[137]);
    assert(LINEAR_RGB_TO_SRGB@[137] < LINEAR_RGB_TO_SRGB@[138]);
    assert(LINEAR_RGB_TO_SRGB@[138] < LINEAR_RGB_TO_SRGB@[139]);
    assert(LINEAR_RGB_TO_SRGB@[139] < LINEAR_RGB_TO_SRGB@[140]);
    assert(LINEAR_RGB_TO_SRGB@[140] < LINEAR_RGB_TO_SRGB@[141]);
    assert(LINEAR_RGB_TO_SRGB@[141] < LINEAR_RGB_TO_SRGB@[142]);
    assert(LINEAR_RGB_TO_SRGB@[142] < LINEAR_RGB_TO_SRGB@[143]);
    assert(LINEAR_RGB_TO_SRGB@[143] < LINEAR_RGB_TO_SRGB@[144]);
    assert(LINEAR_RGB_TO_SRGB@[144] < LINEAR_RGB_TO_SRGB@[145]);
    assert(LINEAR_RGB_TO_SRGB@[145] < LINEAR_RGB_TO_SRGB@[146]);
    assert(LINEAR_RGB_TO_SRGB@[146] < LINEAR_RGB_TO_SRGB@[147]);
    assert(LINEAR_RGB_TO_SRGB@[147] < LINEAR_RGB_TO_SRGB@[148]);
    assert(LINEAR_RGB_TO_SRGB@[148] < LINEAR_RGB_TO_SRGB@[149]);
    assert(LINEAR_RGB_TO_SRGB@[149] < LINEAR_RGB_TO_SRGB@[150]);
    assert(LINEAR_RGB_TO_SRGB@[150] < LINEAR_RGB_TO_SRGB@[151]);
    assert(LINEAR_RGB_TO_SRGB@[151] < LINEAR_RGB_TO_SRGB@[152]);
    assert(LINEAR_RGB_TO_SRGB@[152] < LINEAR_RGB_TO_SRGB@[153]);
    assert(LINEAR_RGB_TO_SRGB@[153] < LINEAR_RGB_TO_SRGB@[154]);
    assert(LINEAR_RGB_TO_SRGB@[154] < LINEAR_RGB_TO_SRGB@[155]);
    assert(LINEAR_RGB_TO_SRGB@[155] < LINEAR_RGB_TO_SRGB@[156]);
    assert(LINEAR_RGB_TO_SRGB@[156] < LINEAR_RGB_TO_SRGB@[157]);
    assert(LINEAR_RGB_TO_SRGB@[157] < LINEAR_RGB_TO_SRGB@[158]);
    assert(LINEAR_RGB_TO_SRGB@[158] < LINEAR_RGB_TO_SRGB@[159]);
    assert(LINEAR_RGB_TO_SRGB@[159] < LINEAR_RGB_TO_SRGB@[160]);
    assert(LINEAR_RGB_TO_SRGB@[160] < LINEAR_RGB_TO_SRGB@[161]);
    assert(LINEAR_RGB_TO_SRGB@[161] < LINEAR_RGB_TO_SRGB@[162]);
    assert(LINEAR_RGB_TO_SRGB@[162] < LINEAR_RGB_TO_SRGB@[163]);
    assert(LINEAR_RGB_TO_SRGB@[163] < LINEAR_RGB_TO_SRGB@[164]);
    assert(LINEAR_RGB_TO_SRGB@[164] < LINEAR_RGB_TO_SRGB@[165]);
    assert(LINEAR_RGB_TO_SRGB@[165] < LINEAR_RGB_TO_SRGB@[166]);
    assert(LINEAR_RGB_TO_SRGB@[166] < LINEAR_RGB_TO_SRGB@[167]);
    assert(LINEAR_RGB_TO_SRGB@[167] < LINEAR_RGB_TO_SRGB@[168]);
    assert(LINEAR_RGB_TO_SRGB@[168] < LINEAR_RGB_TO_SRGB@[169]);
    assert(LINEAR_RGB_TO_SRGB@[169] < LINEAR_RGB_TO_SRGB@[170]);
    assert(LINEAR_RGB_TO_SRGB@[170] < LINEAR_RGB_TO_SRGB@[171]);
    assert(LINEAR_RGB_TO_SRGB@[171] < LINEAR_RGB_TO_SRGB@[172]);
    assert(LINEAR_RGB_TO_SRGB@[172] < LINEAR_RGB_TO_SRGB@[173]);
    assert(LINEAR_RGB_TO_SRGB@[173] < LINEAR_RGB_TO_SRGB@[174]);
    assert(LINEAR_RGB_TO_SRGB@[174] < LINEAR_RGB_TO_SRGB@[175]);
    assert(LINEAR_RGB_TO_SRGB@[175] < LINEAR_RGB_TO_SRGB@[176]);
    assert(LINEAR_RGB_TO_SRGB@[176] < LINEAR_RGB_TO_SRGB@[177]);
    assert(LINEAR_RGB_TO_SRGB@[177] < LINEAR_RGB_TO_SRGB@[178]);
    assert(LINEAR_RGB_TO_SRGB@[178] < LINEAR_RGB_TO_SRGB@[179]);
    assert(LINEAR_RGB_TO_SRGB@[179] < LINEAR_RGB_TO_SRGB@[180]);
    assert(LINEAR_RGB_TO_SRGB@[180] < LINEAR_RGB_TO_SRGB@[181]);
    assert(LINEAR_RGB_TO_SRGB@[181] < LINEAR_RGB_TO_SRGB@[182]);
    assert(LINEAR_RGB_TO_SRGB@[182] < LINEAR_RGB_TO_SRGB@[183]);
    assert(LINEAR_RGB_TO_SRGB@[183] < LINEAR_RGB_TO_SRGB@[184]);
    assert(LINEAR_RGB_TO_SRGB@[184] < LINEAR_RGB_TO_SRGB@[185]);
    assert(LINEAR_RGB_TO_SRGB@[185] < LINEAR_RGB_TO_SRGB@[186]);
    assert(LINEAR_RGB_TO_SRGB@[186] < LINEAR_RGB_TO_SRGB@[187]);
    assert(LINEAR_RGB_TO_SRGB@[187] < LINEAR_RGB_TO_SRGB@[188]);
    assert(LINEAR_RGB_TO_SRGB@[188] < LINEAR_RGB_TO_SRGB@[189]);
    assert(LINEAR_RGB_TO_SRGB@[189] < LINEAR_RGB_TO_SRGB@[190]);
    assert(LINEAR_RGB_TO_SRGB@[190] < LINEAR_RGB_TO_SRGB@[191]);
    assert(LINEAR_RGB_TO_SRGB@[191] < LINEAR_RGB_TO_SRGB@[192]);
}

proof fn lemma_gamma_sorted_3()
    ensures
        forall|i: int|
            192 <= i < 255 ==> #[trigger] LINEAR_RGB_TO_SRGB@[i] < LINEAR_RGB_TO_SRGB@[i + 1],
{
    assert(LINEAR_RGB_TO_SRGB@[192] < LINEAR_RGB_TO_SRGB@[193]);
    assert(LINEAR_RGB_TO_SRGB@[193] < LINEAR_RGB_TO_SRGB@[194]);
    assert(LINEAR_RGB_TO_SRGB@[194] < LINEAR_RGB_TO_SRGB@[195]);
    assert(LINEAR_RGB_TO_SRGB@[195] < LINEAR_RGB_TO_SRGB@[196]);
    assert(LINEAR_RGB_TO_SRGB@[196] < LINEAR_RGB_TO_SRGB@[197]);
    assert(LINEAR_RGB_TO_SRGB@[197] < LINEAR_RGB_TO_SRGB@[198]);
    assert(LINEAR_RGB_TO_SRGB@[198] < LINEAR_RGB_TO_SRGB@[199]);
    assert(LINEAR_RGB_TO_SRGB@[199] < LINEAR_RGB_TO_SRGB@[200]);
    assert(LINEAR_RGB_TO_SRGB@[200] < LINEAR_RGB_TO_SRGB@[201]);
    assert(LINEAR_RGB_TO_SRGB@[201] < LINEAR_RGB_TO_SRGB@[202]);
    assert(LINEAR_RGB_TO_SRGB@[202] < LINEAR_RGB_TO_SRGB@[203]);
    assert(LINEAR_RGB_TO_SRGB@[203] < LINEAR_RGB_TO_SRGB@[204]);
    assert(LINEAR_RGB_TO_SRGB@[204] < LINEAR_RGB_TO_SRGB@[205]);
    assert(LINEAR_RGB_TO_SRGB@[205] < LINEAR_RGB_TO_SRGB@[206]);
    assert(LINEAR_RGB_TO_SRGB@[206] < LINEAR_RGB_TO_SRGB@[207]);
    assert(LINEAR_RGB_TO_SRGB@[207] < LINEAR_RGB_TO_SRGB@[208]);
    assert(LINEAR_RGB_TO_SRGB@[208] < LINEAR_RGB_TO_SRGB@[209]);
    assert(LINEAR_RGB_TO_SRGB@[209] < LINEAR_RGB_TO_SRGB@[210]);
    assert(LINEAR_RGB_TO_SRGB@[210] < LINEAR_RGB_TO_SRGB@[211]);
    assert(LINEAR_RGB_TO_SRGB@[211] < LINEAR_RGB_TO_SRGB@[212]);
    assert(LINEAR_RGB_TO_SRGB@[212] < LINEAR_RGB_TO_SRGB@[213]);
    assert(LINEAR_RGB_TO_SRGB@[213] < LINEAR_RGB_TO_SRGB@[214]);
    assert(LINEAR_RGB_TO_SRGB@[214] < LINEAR_RGB_TO_SRGB@[215]);
    assert(LINEAR_RGB_TO_SRGB@[215] < LINEAR_RGB_TO_SRGB@[216]);
    assert(LINEAR_RGB_TO_SRGB@[216] < LINEAR_RGB_TO_SRGB@[217]);
    assert(LINEAR_RGB_TO_SRGB@[217] < LINEAR_RGB_TO_SRGB@[218]);
    assert(LINEAR_RGB_TO_SRGB@[218] < LINEAR_RGB_TO_SRGB@[219]);
    assert(LINEAR_RGB_TO_SRGB@[219] < LINEAR_RGB_TO_SRGB@[220]);
    assert(LINEAR_RGB_TO_SRGB@[220] < LINEAR_RGB_TO_SRGB@[221]);
    assert(LINEAR_RGB_TO_SRGB@[221] < LINEAR_RGB_TO_SRGB@[222]);
    assert(LINEAR_RGB_TO_SRGB@[222] < LINEAR_RGB_TO_SRGB@[223]);
    assert(LINEAR_RGB_TO_SRGB@[223] < LINEAR_RGB_TO_SRGB@[224]);
    assert(LINEAR_RGB_TO_SRGB@[224] < LINEAR_RGB_TO_SRGB@[225]);
    assert(LINEAR_RGB_TO_SRGB@[225] < LINEAR_RGB_TO_SRGB@[226]);
    assert(LINEAR_RGB_TO_SRGB@[226] < LINEAR_RGB_TO_SRGB@[227]);
    assert(LINEAR_RGB_TO_SRGB@[227] < LINEAR_RGB_TO_SRGB@[228]);
    assert(LINEAR_RGB_TO_SRGB@[228] < LINEAR_RGB_TO_SRGB@[229]);
    assert(LINEAR_RGB_TO_SRGB@[229] < LINEAR_RGB_TO_SRGB@[230]);
    assert(LINEAR_RGB_TO_SRGB@[230] < LINEAR_RGB_TO_SRGB@[231]);
    assert(LINEAR_RGB_TO_SRGB@[231] < LINEAR_RGB_TO_SRGB@[232]);
    assert(LINEAR_RGB_TO_SRGB@[232] < LINEAR_RGB_TO_SRGB@[233]);
    assert(LINEAR_RGB_TO_SRGB@[233] < LINEAR_RGB_TO_SRGB@[234]);
    assert(LINEAR_RGB_TO_SRGB@[234] < LINEAR_RGB_TO_SRGB@[235]);
    assert(LINEAR_RGB_TO_SRGB@[235] < LINEAR_RGB_TO_SRGB@[236]);
    assert(LINEAR_RGB_TO_SRGB@[236] < LINEAR_RGB_TO_SRGB@[237]);
    assert(LINEAR_RGB_TO_SRGB@[237] < LINEAR_RGB_TO_SRGB@[238]);
    assert(LINEAR_RGB_TO_SRGB@[238] < LINEAR_RGB_TO_SRGB@[239]);
    assert(LINEAR_RGB_TO_SRGB@[239] < LINEAR_RGB_TO_SRGB@[240]);
    assert(LINEAR_RGB_TO_SRGB@[240] < LINEAR_RGB_TO_SRGB@[241]);
    assert(LINEAR_RGB_TO_SRGB@[241] < LINEAR_RGB_TO_SRGB@[242]);
    assert(LINEAR_RGB_TO_SRGB@[242] < LINEAR_RGB_TO_SRGB@[243]);
    assert(LINEAR_RGB_TO_SRGB@[243] < LINEAR_RGB_TO_SRGB@[244]);
    assert(LINEAR_RGB_TO_SRGB@[244] < LINEAR_RGB_TO_SRGB@[245]);
    assert(LINEAR_RGB_TO_SRGB@[245] < LINEAR_RGB_TO_SRGB@[246]);
    assert(LINEAR_RGB_TO_SRGB@[246] < LINEAR_RGB_TO_SRGB@[247]);
    assert(LINEAR_RGB_TO_SRGB@[247] < LINEAR_RGB_TO_SRGB@[248]);
    assert(LINEAR_RGB_TO_SRGB@[248] < LINEAR_RGB_TO_SRGB@[249]);
    assert(LINEAR_RGB_TO_SRGB@[249] < LINEAR_RGB_TO_SRGB@[250]);
    assert(LINEAR_RGB_TO_SRGB@[250] < LINEAR_RGB_TO_SRGB@[251]);
    assert(LINEAR_RGB_TO_SRGB@[251] < LINEAR_RGB_TO_SRGB@[252]);
    assert(LINEAR_RGB_TO_SRGB@[252] < LINEAR_RGB_TO_SRGB@[253]);
    assert(LINEAR_RGB_TO_SRGB@[253] < LINEAR_RGB_TO_SRGB@[254]);
    assert(LINEAR_RGB_TO_SRGB@[254] < LINEAR_RGB_TO_SRGB@[255]);
}

/// Every entry of the gamut-radius grid lies in `[0, 100]`.
pub proof fn lemma_radius_grid_bounds()
    ensures
        forall|i: int, j: int, k: int|
            0 <= i < 12 && 0 <= j < 22 && 0 <= k < 22 ==> 0 <= #[trigger] MAX_LAB_RADIUS@[i]@[j]@[k] <= 100,
{
    lemma_radius_plane_0();
    lemma_radius_plane_1();
    lemma_radius_plane_2();
    lemma_radius_plane_3();
    lemma_radius_plane_4();
    lemma_radius_plane_5();
    lemma_radius_plane_6();
    lemma_radius_plane_7();
    lemma_radius_plane_8();
    lemma_radius_plane_9();
    lemma_radius_plane_10();
    lemma_radius_plane_11();
}

#[verifier::rlimit(60)]
proof fn lemma_radius_plane_0()
    ensures
        forall|j: int, k: int|
            0 <= j < 22 && 0 <= k < 22 ==> 0 <= #[trigger] MAX_LAB_RADIUS@[0]@[j]@[k] <= 100,
{
    assert(forall|j: int, k: int|
        0 <= j < 22 && 0 <= k < 22 ==> 0 <= #[trigger] MAX_LAB_RADIUS@[0]@[j]@[k] <= 100);
}

#[verifier::rlimit(60)]
proof fn lemma_radius_plane_1()
    ensures
        forall|j: int, k: int|
            0 <= j < 22 && 0 <= k < 22 ==> 0 <= #[trigger] MAX_LAB_RADIUS@[1]@[j]@[k] <= 100,
{
    assert(forall|j: int, k: int|
        0 <= j < 22 && 0 <= k < 22 ==> 0 <= #[trigger] MAX_LAB_RADIUS@[1]@[j]@[k] <= 100);
}

#[verifier::rlimit(60)]
proof fn lemma_radius_plane_2()
    ensures
        forall|j: int, k: int|
            0 <= j < 22 && 0 <= k < 22 ==> 0 <= #[trigger] MAX_LAB_RADIUS@[2]@[j]@[k] <= 100,
{
    assert(forall|j: int, k: int|
        0 <= j < 22 && 0 <= k < 22 ==> 0 <= #[trigger] MAX_LAB_RADIUS@[2]@[j]@[k] <= 100);
}

#[verifier::rlimit(60)]
proof fn lemma_radius_plane_3()
    ensures
        forall|j: int, k: int|
            0 <= j < 22 && 0 <= k < 22 ==> 0 <= #[trigger] MAX_LAB_RADIUS@[3]@[j]@[k] <= 100,
{
    assert(forall|j: int, k: int|
        0 <= j < 22 && 0 <= k < 22 ==> 0 <= #[trigger] MAX_LAB_RADIUS@[3]@[j]@[k] <= 100);
}

#[verifier::rlimit(60)]
proof fn lemma_radius_plane_4()
    ensures
        forall|j: int, k: int|
            0 <= j < 22 && 0 <= k < 22 ==> 0 <= #[trigger] MAX_LAB_RADIUS@[4]@[j]@[k] <= 100,
{
    assert(forall|j: int, k: int|
        0 <= j < 22 && 0 <= k < 22 ==> 0 <= #[trigger] MAX_LAB_RADIUS@[4]@[j]@[k] <= 100);
}

#[verifier::rlimit(60)]
proof fn lemma_radius_plane_5()
    ensures
        forall|j: int, k: int|
            0 <= j < 22 && 0 <= k < 22 ==> 0 <= #[trigger] MAX_LAB_RADIUS@[5]@[j]@[k] <= 100,
{
    assert(forall|j: int, k: int|
        0 <= j < 22 && 0 <= k < 22 ==> 0 <= #[trigger] MAX_LAB_RADIUS@[5]@[j]@[k] <= 100);
}

#[verifier::rlimit(60)]
proof fn lemma_radius_plane_6()
    ensures
        forall|j: int, k: int|
            0 <= j < 22 && 0 <= k < 22 ==> 0 <= #[trigger] MAX_LAB_RADIUS@[6]@[j]@[k] <= 100,
{
    assert(forall|j: int, k: int|
        0 <= j < 22 && 0 <= k < 22 ==> 0 <= #[trigger] MAX_LAB_RADIUS@[6]@[j]@[k] <= 100);
}

#[verifier::rlimit(60)]
proof fn lemma_radius_plane_7()
    ensures
        forall|j: int, k: int|
            0 <= j < 22 && 0 <= k < 22 ==> 0 <= #[trigger] MAX_LAB_RADIUS@[7]@[j]@[k] <= 100,
{
    assert(forall|j: int, k: int|
        0 <= j < 22 && 0 <= k < 22 ==> 0 <= #[trigger] MAX_LAB_RADIUS@[7]@[j]@[k] <= 100);
}

#[verifier::rlimit(60)]
proof fn lemma_radius_plane_8()
    ensures
        forall|j: int, k: int|
            0 <= j < 22 && 0 <= k < 22 ==> 0 <= #[trigger] MAX_LAB_RADIUS@[8]@[j]@[k] <= 100,
{
    assert(forall|j: int, k: int|
        0 <= j < 22 && 0 <= k < 22 ==> 0 <= #[trigger] MAX_LAB_RADIUS@[8]@[j]@[k] <= 100);
}

#[verifier::rlimit(60)]
proof fn lemma_radius_plane_9()
    ensures
        forall|j: int, k: int|
            0 <= j < 22 && 0 <= k < 22 ==> 0 <= #[trigger] MAX_LAB_RADIUS@[9]@[j]@[k] <= 100,
{
    assert(forall|j: int, k: int|
        0 <= j < 22 && 0 <= k < 22 ==> 0 <= #[trigger] MAX_LAB_RADIUS@[9]@[j]@[k] <= 100);
}

#[verifier::rlimit(60)]
proof fn lemma_radius_plane_10()
    ensures
        forall|j: int, k: int|
            0 <= j < 22 && 0 <= k < 22 ==> 0 <= #[trigger] MAX_LAB_RADIUS@[10]@[j]@[k] <= 100,
{
    assert(forall|j: int, k: int|
        0 <= j < 22 && 0 <= k < 22 ==> 0 <= #[trigger] MAX_LAB_RADIUS@[10]@[j]@[k] <= 100);
}

#[verifier::rlimit(60)]
proof fn lemma_radius_plane_11()
    ensures
        forall|j: int, k: int|
            0 <= j < 22 && 0 <= k < 22 ==> 0 <= #[trigger] MAX_LAB_RADIUS@[11]@[j]@[k] <= 100,
{
    assert(forall|j: int, k: int|
        0 <= j < 22 && 0 <= k < 22 ==> 0 <= #[trigger] MAX_LAB_RADIUS@[11]@[j]@[k] <= 100);
}

} // verus!
