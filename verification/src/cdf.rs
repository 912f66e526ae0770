//! A fixed-point standard normal cumulative distribution function.
//!
//! Probabilities are integers at scale [`PROB_ONE`] (one billion = certainty).
//! The argument is a non-negative rational `num / den`; the value is read from
//! a table of increments of the CDF on a grid of 1/256 steps across [0, 6],
//! with linear interpolation inside a grid cell and saturation beyond the
//! grid. Storing increments instead of values makes monotonicity a property
//! of the construction: every increment is a non-negative `u32`. Interpolating
//! a table with this pitch tracks the real CDF within one part in a million,
//! and saturation at 6 gives up less than one part in a billion.

use vstd::prelude::*;
use vstd::arithmetic::div_mod::{
    lemma_div_is_ordered, lemma_div_pos_is_pos, lemma_fundamental_div_mod,
    lemma_div_by_multiple,
};
use vstd::arithmetic::mul::{lemma_mul_inequality, lemma_mul_left_inequality};

verus! {

/// Probability scale: this value stands for probability 1.
pub const PROB_ONE: u64 = 1_000_000_000;

/// Probability one half at scale [`PROB_ONE`].
pub const PROB_HALF: u64 = 500_000_000;

/// Grid cells per unit of the CDF argument.
pub const CDF_GRID_STEP: u64 = 256;

/// Number of grid cells: the table spans arguments 0 to 6.
pub const CDF_GRID_CELLS: usize = 1536;

/// Increments of the standard normal CDF, scaled by one billion, on a
/// grid of 1/256 steps across [0, 6]: entry `i` is
/// round(Phi((i+1)/256) * 10^9) - round(Phi(i/256) * 10^9).
pub const CDF_DELTAS: [u32; 1536] = [
    1558364, 1558341, 1558293, 1558221, 1558127, 1558008, 1557865, 1557698, 1557509, 1557295, 1557057, 1556795, 1556511, 1556202, 1555870, 1555513,
    1555134, 1554730, 1554304, 1553853, 1553378, 1552881, 1552360, 1551816, 1551247, 1550655, 1550040, 1549402, 1548740, 1548055, 1547346, 1546615,
    1545859, 1545082, 1544280, 1543455, 1542608, 1541737, 1540844, 1539927, 1538987, 1538025, 1537039, 1536031, 1535001, 1533946, 1532871, 1531771,
    1530650, 1529506, 1528339, 1527151, 1525939, 1524706, 1523450, 1522172, 1520872, 1519550, 1518205, 1516839, 1515452, 1514041, 1512609, 1511157,
    1509681, 1508185, 1506666, 1505127, 1503566, 1501984, 1500381, 1498755, 1497111, 1495443, 1493756, 1492047, 1490318, 1488569, 1486797, 1485006,
    1483195, 1481363, 1479510, 1477638, 1475745, 1473832, 1471900, 1469946, 1467975, 1465982, 1463970, 1461939, 1459888, 1457818, 1455728, 1453620,
    1451492, 1449345, 1447179, 1444995, 1442792, 1440570, 1438329, 1436071, 1433794, 1431498, 1429185, 1426854, 1424504, 1422136, 1419752, 1417349,
    1414929, 1412491, 1410037, 1407564, 1405075, 1402569, 1400046, 1397505, 1394950, 1392376, 1389787, 1387180, 1384559, 1381920, 1379266, 1376595,
    1373910, 1371208, 1368490, 1365758, 1363010, 1360246, 1357468, 1354675, 1351866, 1349043, 1346206, 1343353, 1340487, 1337605, 1334711, 1331801,
    1328878, 1325942, 1322991, 1320026, 1317049, 1314058, 1311054, 1308036, 1305006, 1301963, 1298908, 1295839, 1292758, 1289664, 1286559, 1283442,
    1280312, 1277171, 1274017, 1270853, 1267676, 1264489, 1261290, 1258080, 1254859, 1251627, 1248385, 1245131, 1241869, 1238594, 1235310, 1232016,
    1228711, 1225398, 1222074, 1218740, 1215398, 1212046, 1208684, 1205314, 1201935, 1198546, 1195150, 1191744, 1188331, 1184909, 1181478, 1178040,
    1174593, 1171140, 1167678, 1164209, 1160732, 1157248, 1153757, 1150259, 1146754, 1143243, 1139724, 1136199, 1132668, 1129131, 1125587, 1122037,
    1118481, 1114921, 1111353, 1107782, 1104203, 1100621, 1097032, 1093440, 1089841, 1086239, 1082631, 1079020, 1075404, 1071783, 1068159, 1064530,
    1060898, 1057262, 1053623, 1049979, 1046332, 1042683, 1039030, 1035374, 1031715, 1028054, 1024390, 1020723, 1017053, 1013383, 1009709, 1006033,
    1002356, 998677, 994995, 991314, 987629, 983944, 980258, 976570, 972881, 969192, 965502, 961811, 958120, 954428, 950737, 947044,
    943352, 939660, 935968, 932276, 928585, 924895, 921204, 917515, 913826, 910138, 906452, 902766, 899082, 895400, 891718, 888038,
    884360, 880684, 877010, 873337, 869667, 865999, 862333, 858670, 855009, 851351, 847695, 844043, 840393, 836746, 833103, 829462,
    825825, 822191, 818562, 814934, 811312, 807693, 804077, 800466, 796859, 793256, 789657, 786062, 782473, 778886, 775306, 771730,
    768158, 764591, 761030, 757473, 753921, 750375, 746835, 743298, 739768, 736244, 732724, 729211, 725703, 722202, 718705, 715216,
    711732, 708255, 704783, 701318, 697860, 694407, 690962, 687523, 684090, 680664, 677246, 673834, 670429, 667031, 663640, 660257,
    656880, 653511, 650149, 646795, 643448, 640109, 636777, 633453, 630136, 626828, 623528, 620235, 616950, 613673, 610404, 607145,
    603892, 600647, 597413, 594184, 590966, 587756, 584553, 581360, 578176, 574999, 571832, 568673, 565524, 562382, 559251, 556128,
    553013, 549909, 546813, 543726, 540648, 537580, 534521, 531471, 528430, 525400, 522378, 519365, 516363, 513370, 510386, 507412,
    504447, 501493, 498548, 495612, 492687, 489771, 486865, 483969, 481083, 478207, 475340, 472484, 469637, 466801, 463975, 461159,
    458353, 455556, 452771, 449995, 447230, 444474, 441729, 438995, 436270, 433556, 430851, 428159, 425475, 422802, 420140, 417488,
    414846, 412214, 409594, 406984, 404384, 401794, 399215, 396647, 394089, 391542, 389005, 386478, 383963, 381457, 378963, 376479,
    374005, 371543, 369090, 366648, 364217, 361796, 359387, 356987, 354599, 352220, 349853, 347496, 345150, 342814, 340489, 338174,
    335871, 333577, 331295, 329023, 326761, 324510, 322270, 320041, 317821, 315613, 313414, 311228, 309050, 306885, 304728, 302583,
    300448, 298325, 296210, 294107, 292015, 289932, 287860, 285799, 283748, 281707, 279677, 277658, 275648, 273649, 271660, 269682,
    267714, 265757, 263809, 261872, 259945, 258028, 256122, 254226, 252340, 250464, 248598, 246743, 244897, 243062, 241237, 239421,
    237617, 235821, 234036, 232260, 230496, 228740, 226995, 225259, 223533, 221818, 220111, 218416, 216728, 215052, 213385, 211728,
    210080, 208442, 206814, 205194, 203586, 201985, 200396, 198815, 197243, 195682, 194129, 192586, 191053, 189528, 188013, 186507,
    185011, 183523, 182045, 180576, 179116, 177666, 176223, 174791, 173367, 171952, 170547, 169149, 167762, 166382, 165012, 163651,
    162297, 160954, 159618, 158291, 156974, 155664, 154363, 153070, 151787, 150511, 149245, 147986, 146735, 145494, 144260, 143035,
    141818, 140610, 139408, 138216, 137032, 135855, 134687, 133527, 132375, 131230, 130094, 128965, 127845, 126732, 125626, 124529,
    123440, 122357, 121283, 120216, 119157, 118106, 117061, 116024, 114995, 113973, 112959, 111951, 110952, 109958, 108973, 107995,
    107024, 106060, 105103, 104152, 103210, 102274, 101345, 100423, 99508, 98600, 97698, 96803, 95915, 95033, 94159, 93291,
    92429, 91575, 90726, 89884, 89048, 88220, 87397, 86580, 85771, 84967, 84169, 83379, 82593, 81814, 81041, 80275,
    79514, 78759, 78010, 77268, 76531, 75800, 75074, 74356, 73641, 72934, 72232, 71535, 70844, 70159, 69480, 68805,
    68136, 67474, 66815, 66163, 65517, 64874, 64238, 63608, 62981, 62361, 61745, 61135, 60530, 59930, 59334, 58745,
    58159, 57579, 57004, 56434, 55868, 55308, 54752, 54200, 53655, 53112, 52576, 52043, 51515, 50993, 50473, 49960,
    49449, 48945, 48444, 47947, 47455, 46968, 46484, 46005, 45531, 45059, 44593, 44131, 43673, 43218, 42768, 42323,
    41880, 41443, 41008, 40579, 40152, 39729, 39312, 38896, 38486, 38078, 37676, 37275, 36879, 36487, 36099, 35713,
    35331, 34954, 34579, 34208, 33840, 33476, 33116, 32758, 32404, 32054, 31706, 31362, 31022, 30684, 30349, 30019,
    29690, 29366, 29044, 28725, 28410, 28097, 27787, 27481, 27178, 26876, 26579, 26285, 25992, 25703, 25417, 25134,
    24852, 24575, 24300, 24027, 23757, 23491, 23226, 22964, 22704, 22449, 22194, 21942, 21694, 21447, 21203, 20961,
    20722, 20486, 20251, 20019, 19790, 19562, 19338, 19114, 18895, 18676, 18460, 18247, 18035, 17826, 17618, 17414,
    17211, 17010, 16811, 16615, 16420, 16228, 16037, 15848, 15662, 15478, 15295, 15114, 14935, 14758, 14584, 14410,
    14238, 14069, 13902, 13735, 13572, 13409, 13248, 13089, 12932, 12777, 12623, 12470, 12320, 12171, 12024, 11878,
    11734, 11591, 11450, 11311, 11173, 11037, 10902, 10768, 10636, 10506, 10377, 10249, 10123, 9998, 9875, 9753,
    9632, 9512, 9395, 9278, 9163, 9048, 8936, 8825, 8714, 8605, 8497, 8391, 8285, 8181, 8078, 7977,
    7876, 7776, 7678, 7581, 7485, 7390, 7295, 7204, 7111, 7021, 6931, 6842, 6755, 6668, 6583, 6498,
    6415, 6332, 6251, 6170, 6090, 6012, 5933, 5857, 5781, 5706, 5631, 5558, 5486, 5414, 5343, 5274,
    5204, 5136, 5069, 5002, 4936, 4871, 4807, 4744, 4681, 4619, 4557, 4498, 4437, 4379, 4320, 4263,
    4206, 4149, 4094, 4040, 3985, 3932, 3879, 3827, 3776, 3724, 3674, 3625, 3576, 3527, 3480, 3432,
    3386, 3339, 3295, 3249, 3205, 3161, 3118, 3076, 3033, 2992, 2950, 2910, 2870, 2831, 2791, 2753,
    2715, 2677, 2640, 2604, 2568, 2531, 2497, 2462, 2427, 2394, 2360, 2327, 2295, 2262, 2231, 2199,
    2169, 2138, 2107, 2078, 2049, 2020, 1991, 1963, 1935, 1908, 1880, 1854, 1828, 1801, 1776, 1750,
    1725, 1701, 1676, 1652, 1628, 1605, 1582, 1559, 1537, 1515, 1492, 1471, 1450, 1428, 1408, 1388,
    1367, 1347, 1328, 1309, 1289, 1270, 1252, 1234, 1215, 1198, 1180, 1162, 1146, 1128, 1112, 1096,
    1079, 1064, 1047, 1032, 1017, 1002, 987, 972, 957, 944, 929, 915, 902, 888, 875, 862,
    848, 836, 824, 811, 799, 786, 775, 763, 752, 740, 729, 718, 707, 696, 685, 676,
    664, 655, 645, 634, 625, 616, 606, 597, 587, 579, 569, 561, 552, 544, 535, 527,
    518, 511, 503, 495, 487, 480, 472, 465, 457, 450, 444, 436, 430, 422, 416, 410,
    403, 397, 390, 385, 378, 372, 367, 360, 355, 350, 343, 338, 333, 328, 322, 317,
    312, 307, 303, 297, 293, 287, 284, 278, 275, 269, 266, 261, 257, 253, 248, 245,
    240, 237, 233, 229, 226, 221, 218, 215, 211, 208, 204, 201, 197, 194, 192, 187,
    185, 182, 179, 176, 173, 170, 167, 165, 161, 160, 156, 154, 151, 149, 146, 144,
    142, 139, 136, 135, 132, 130, 128, 125, 124, 121, 120, 117, 116, 113, 112, 109,
    108, 106, 104, 103, 100, 99, 98, 95, 94, 93, 90, 90, 87, 87, 84, 84,
    81, 81, 79, 78, 76, 75, 74, 72, 71, 70, 69, 68, 66, 65, 64, 63,
    62, 61, 60, 58, 58, 57, 56, 54, 54, 53, 52, 51, 50, 49, 48, 48,
    46, 46, 45, 44, 44, 42, 42, 41, 41, 39, 39, 39, 37, 37, 36, 36,
    35, 34, 34, 33, 33, 32, 31, 31, 30, 30, 29, 29, 28, 27, 28, 26,
    26, 26, 25, 25, 24, 24, 24, 23, 22, 22, 22, 21, 21, 21, 20, 20,
    19, 19, 19, 19, 18, 17, 18, 17, 17, 16, 16, 16, 16, 15, 15, 15,
    14, 14, 14, 14, 13, 13, 13, 13, 12, 13, 11, 12, 12, 11, 11, 11,
    11, 10, 10, 10, 10, 10, 10, 9, 9, 9, 9, 8, 9, 8, 8, 8,
    8, 8, 7, 8, 7, 7, 7, 7, 7, 6, 7, 6, 6, 7, 5, 6,
    6, 6, 5, 6, 5, 5, 5, 5, 5, 5, 5, 4, 5, 4, 5, 4,
    4, 4, 4, 4, 4, 4, 4, 3, 4, 4, 3, 3, 4, 3, 3, 3,
    3, 3, 3, 3, 3, 3, 2, 3, 3, 2, 3, 2, 3, 2, 2, 2,
    3, 2, 2, 2, 2, 2, 2, 2, 2, 2, 1, 2, 2, 2, 1, 2,
    2, 1, 2, 1, 2, 1, 1, 2, 1, 2, 1, 1, 1, 2, 1, 1,
    1, 1, 1, 1, 1, 1, 1, 1, 1, 1, 1, 1, 1, 1, 1, 1,
    1, 0, 1, 1, 1, 0, 1, 1, 1, 0, 1, 1, 0, 1, 0, 1,
    1, 0, 1, 0, 1, 0, 1, 0, 1, 0, 1, 0, 1, 0, 1, 0,
    0, 1, 0, 1, 0, 0, 1, 0, 0, 1, 0, 0, 1, 0, 0, 1,
    0, 0, 1, 0, 0, 0, 1, 0, 0, 0, 1, 0, 0, 0, 1, 0,
    0, 0, 0, 1, 0, 0, 0, 0, 0, 1, 0, 0, 0, 0, 0, 1,
    0, 0, 0, 0, 0, 0, 1, 0, 0, 0, 0, 0, 0, 0, 0, 1,
    0, 0, 0, 0, 0, 0, 0, 0, 0, 0, 1, 0, 0, 0, 0, 0,
    0, 0, 0, 0, 0, 0, 0, 0, 1, 0, 0, 0, 0, 0, 0, 0,
    0, 0, 0, 0, 0, 0, 0, 0, 0, 0, 0, 0, 0, 0, 1, 0,
    0, 0, 0, 0, 0, 0, 0, 0, 0, 0, 0, 0, 0, 0, 0, 0,
];

/// Sum of the first `n` table increments.
pub open spec fn prefix_total(s: Seq<u32>, n: int) -> int
    decreases n,
{
    if n <= 0 {
        0
    } else {
        prefix_total(s, n - 1) + s[n - 1]
    }
}

/// A prefix total of `u32` values lies between 0 and `n` times the `u32` cap.
pub proof fn lemma_prefix_total_bounds(s: Seq<u32>, n: int)
    requires
        0 <= n <= s.len(),
    ensures
        0 <= prefix_total(s, n) <= n * 0xffff_ffffu32,
    decreases n,
{
    if n > 0 {
        lemma_prefix_total_bounds(s, n - 1);
        assert((n - 1) * 0xffff_ffffu32 + 0xffff_ffffu32 == n * 0xffff_ffffu32) by (nonlinear_arith);
    }
}

/// Prefix totals of non-negative values grow with the prefix length.
pub proof fn lemma_prefix_total_monotone(s: Seq<u32>, m: int, n: int)
    requires
        0 <= m <= n <= s.len(),
    ensures
        prefix_total(s, m) <= prefix_total(s, n),
    decreases n,
{
    if m < n {
        lemma_prefix_total_monotone(s, m, n - 1);
    }
}

/// Value of the CDF at grid point `q` (capped at the grid's end and just
/// below certainty).
pub open spec fn grid_point(q: int) -> int {
    let qc = if q > 1536 {
        1536int
    } else {
        q
    };
    let sum = prefix_total(CDF_DELTAS@, qc);
    let capped = if sum > 499_999_999 {
        499_999_999int
    } else {
        sum
    };
    500_000_000 + capped
}

/// Grid points lie strictly between 0 and [`PROB_ONE`], from one half up.
pub proof fn lemma_grid_point_bounds(q: int)
    requires
        0 <= q,
    ensures
        PROB_HALF <= grid_point(q) <= PROB_ONE - 1,
{
    let qc: int = if q > 1536 {
        1536int
    } else {
        q
    };
    lemma_prefix_total_bounds(CDF_DELTAS@, qc);
}

/// Grid points never decrease along the grid.
pub proof fn lemma_grid_point_monotone(q1: int, q2: int)
    requires
        0 <= q1 <= q2,
    ensures
        grid_point(q1) <= grid_point(q2),
{
    let c1: int = if q1 > 1536 {
        1536int
    } else {
        q1
    };
    let c2: int = if q2 > 1536 {
        1536int
    } else {
        q2
    };
    lemma_prefix_total_monotone(CDF_DELTAS@, c1, c2);
}

/// The CDF at non-negative argument `num / den`, at scale [`PROB_ONE`]:
/// linear interpolation between the two grid points around the argument,
/// saturated at the end of the grid.
pub open spec fn cdf_frac_pos(num: int, den: int) -> int
    recommends
        0 <= num,
        0 < den,
{
    let scaled = num * 256;
    let q = scaled / den;
    let r = scaled % den;
    if q >= 1536 {
        grid_point(1536)
    } else {
        grid_point(q) + ((grid_point(q + 1) - grid_point(q)) * r) / den
    }
}

/// The CDF at the signed argument `diff / den`, by the mirror symmetry of
/// the standard normal distribution.
pub open spec fn cdf_frac(diff: int, den: int) -> int
    recommends
        0 < den,
{
    if diff >= 0 {
        cdf_frac_pos(diff, den)
    } else {
        PROB_ONE - cdf_frac_pos(-diff, den)
    }
}

/// The interpolation step stays within its grid cell.
proof fn lemma_interp_within_cell(g0: int, g1: int, r: int, den: int)
    requires
        0 <= g0 <= g1,
        0 <= r < den,
    ensures
        0 <= ((g1 - g0) * r) / den <= g1 - g0,
{
    let d = g1 - g0;
    lemma_mul_inequality(r, den, d);
    assert(d * r == r * d) by (nonlinear_arith);
    assert(d * den == den * d) by (nonlinear_arith);
    lemma_div_is_ordered(d * r, d * den, den);
    lemma_div_by_multiple(d, den);
    vstd::arithmetic::mul::lemma_mul_nonnegative(d, r);
    lemma_div_pos_is_pos(d * r, den);
}

/// `cdf_frac_pos` stays between one half and just below certainty.
pub proof fn lemma_cdf_frac_pos_bounds(num: int, den: int)
    requires
        0 <= num,
        0 < den,
    ensures
        PROB_HALF <= cdf_frac_pos(num, den) <= PROB_ONE - 1,
{
    let scaled = num * 256;
    let q = scaled / den;
    assert(0 <= scaled);
    lemma_div_pos_is_pos(scaled, den);
    lemma_grid_point_bounds(q);
    if q < 1536 {
        lemma_grid_point_bounds(q + 1);
        lemma_grid_point_monotone(q, q + 1);
        vstd::arithmetic::div_mod::lemma_remainder_lower(scaled, den);
        vstd::arithmetic::div_mod::lemma_remainder_upper(scaled, den);
        lemma_interp_within_cell(grid_point(q), grid_point(q + 1), scaled % den, den);
    }
}

/// The signed CDF stays strictly between 0 and [`PROB_ONE`], and is one
/// half exactly at argument zero.
pub proof fn lemma_cdf_frac_bounds(diff: int, den: int)
    requires
        0 < den,
    ensures
        1 <= cdf_frac(diff, den) <= PROB_ONE - 1,
        diff == 0 ==> cdf_frac(diff, den) == PROB_HALF,
{
    if diff >= 0 {
        lemma_cdf_frac_pos_bounds(diff, den);
        if diff == 0 {
            assert(0int * 256 == 0) by (nonlinear_arith);
            assert(0int / den == 0) by {
                vstd::arithmetic::div_mod::lemma_div_of0(den);
            }
            assert(0int % den == 0) by {
                vstd::arithmetic::div_mod::lemma_small_mod(0nat, den as nat);
            }
        }
    } else {
        lemma_cdf_frac_pos_bounds(-diff, den);
    }
}

/// Growing the argument never shrinks `cdf_frac_pos`.
pub proof fn lemma_cdf_frac_pos_monotone(n1: int, n2: int, den: int)
    requires
        0 <= n1 <= n2,
        0 < den,
    ensures
        cdf_frac_pos(n1, den) <= cdf_frac_pos(n2, den),
{
    let s1 = n1 * 256;
    let s2 = n2 * 256;
    assert(0 <= s1 <= s2);
    let q1 = s1 / den;
    let q2 = s2 / den;
    let r1 = s1 % den;
    let r2 = s2 % den;
    lemma_div_is_ordered(s1, s2, den);
    lemma_div_pos_is_pos(s1, den);
    vstd::arithmetic::div_mod::lemma_remainder_lower(s1, den);
    vstd::arithmetic::div_mod::lemma_remainder_upper(s1, den);
    vstd::arithmetic::div_mod::lemma_remainder_lower(s2, den);
    vstd::arithmetic::div_mod::lemma_remainder_upper(s2, den);
    if q1 >= 1536 {
        assert(cdf_frac_pos(n1, den) == cdf_frac_pos(n2, den));
    } else {
        lemma_grid_point_bounds(q1);
        lemma_grid_point_bounds(q1 + 1);
        lemma_grid_point_monotone(q1, q1 + 1);
        lemma_interp_within_cell(grid_point(q1), grid_point(q1 + 1), r1, den);
        if q2 >= 1536 {
            lemma_grid_point_monotone(q1 + 1, 1536);
        } else if q1 == q2 {
            lemma_fundamental_div_mod(s1, den);
            lemma_fundamental_div_mod(s2, den);
            assert(r1 <= r2);
            let d = grid_point(q1 + 1) - grid_point(q1);
            if d == 0 {
                assert(d * r1 == 0) by (nonlinear_arith)
                    requires
                        d == 0,
                ;
                assert(d * r2 == 0) by (nonlinear_arith)
                    requires
                        d == 0,
                ;
            } else {
                lemma_mul_left_inequality(d, r1, r2);
                lemma_div_is_ordered(d * r1, d * r2, den);
            }
        } else {
            lemma_grid_point_bounds(q2);
            lemma_grid_point_bounds(q2 + 1);
            lemma_grid_point_monotone(q2, q2 + 1);
            lemma_grid_point_monotone(q1 + 1, q2);
            lemma_interp_within_cell(grid_point(q2), grid_point(q2 + 1), r2, den);
        }
    }
}

/// Negating the argument mirrors the CDF around one half.
pub proof fn lemma_cdf_frac_mirror(diff: int, den: int)
    requires
        0 < den,
    ensures
        cdf_frac(-diff, den) == PROB_ONE - cdf_frac(diff, den),
{
    if diff == 0 {
        lemma_cdf_frac_bounds(0, den);
    }
}

/// Growing the argument never shrinks the signed CDF.
pub proof fn lemma_cdf_frac_monotone(d1: int, d2: int, den: int)
    requires
        d1 <= d2,
        0 < den,
    ensures
        cdf_frac(d1, den) <= cdf_frac(d2, den),
{
    if 0 <= d1 {
        lemma_cdf_frac_pos_monotone(d1, d2, den);
    } else if d2 < 0 {
        lemma_cdf_frac_pos_monotone(-d2, -d1, den);
    } else {
        lemma_cdf_frac_pos_bounds(-d1, den);
        lemma_cdf_frac_pos_bounds(d2, den);
    }
}

/// Sum of the first `n` table increments, computed.
fn table_prefix(n: usize) -> (s: u64)
    requires
        n <= 1536,
    ensures
        s == prefix_total(CDF_DELTAS@, n as int),
{
    let mut s: u64 = 0;
    let mut i: usize = 0;
    while i < n
        invariant
            i <= n <= 1536,
            s == prefix_total(CDF_DELTAS@, i as int),
            s <= i * 0xffff_ffffu32,
        decreases n - i,
    {
        s = s + CDF_DELTAS[i] as u64;
        i = i + 1;
        proof {
            lemma_prefix_total_bounds(CDF_DELTAS@, i as int);
        }
    }
    s
}

/// The CDF value at grid point `q`, computed.
fn grid_point_at(q: usize) -> (g: u64)
    requires
        q <= 1536,
    ensures
        g == grid_point(q as int),
        PROB_HALF <= g <= PROB_ONE - 1,
{
    let sum = table_prefix(q);
    proof {
        lemma_prefix_total_bounds(CDF_DELTAS@, q as int);
    }
    let capped: u64 = if sum > 499_999_999 {
        499_999_999
    } else {
        sum
    };
    500_000_000 + capped
}

/// The CDF at non-negative argument `num / den`, computed.
///
/// The bounds on `num` and `den` are what the rating formula supplies; they
/// keep every intermediate product inside `u64`.
pub fn cdf_positive(num: u64, den: u64) -> (p: u64)
    requires
        num <= 0x0010_0000_0000_0000,
        0 < den <= 4_000_000_000,
    ensures
        p == cdf_frac_pos(num as int, den as int),
        PROB_HALF <= p <= PROB_ONE - 1,
{
    proof {
        lemma_cdf_frac_pos_bounds(num as int, den as int);
    }
    let scaled: u64 = num * 256;
    let q: u64 = scaled / den;
    let r: u64 = scaled % den;
    if q >= 1536 {
        grid_point_at(1536)
    } else {
        let g0 = grid_point_at(q as usize);
        let g1 = grid_point_at(q as usize + 1);
        proof {
            lemma_grid_point_monotone(q as int, q as int + 1);
            lemma_interp_within_cell(g0 as int, g1 as int, r as int, den as int);
            assert((g1 - g0) as int * (r as int) <= 500_000_000int * 4_000_000_000int)
                by (nonlinear_arith)
                requires
                    0 <= (g1 - g0) as int <= 500_000_000,
                    0 <= r as int <= 4_000_000_000,
            ;
        }
        let add: u64 = ((g1 - g0) * r) / den;
        g0 + add
    }
}

} // verus!
