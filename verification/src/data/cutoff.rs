use vstd::prelude::*;

verus! {

/// Angular cutoff frequency, in the filter's fixed-point scale
/// (2*pi*f0*1.048576 truncated to an integer), for each of the 2048 cutoff
/// register values of the 6581 revision. Derived from the chip's measured
/// cutoff calibration curve.
#[verifier::opaque]
pub const W0_6581: [i32; 2048] = [
    1449, 1449, 1449, 1449, 1449, 1449, 1449, 1449, 1449, 1449, 1449, 1449,
    1449, 1449, 1449, 1449, 1449, 1456, 1456, 1456, 1456, 1456, 1456, 1456,
    1456, 1456, 1456, 1456, 1456, 1456, 1456, 1456, 1456, 1456, 1462, 1462,
    1462, 1462, 1462, 1462, 1462, 1462, 1462, 1462, 1462, 1462, 1462, 1462,
    1462, 1469, 1469, 1469, 1469, 1469, 1469, 1469, 1469, 1469, 1469, 1469,
    1469, 1469, 1469, 1469, 1475, 1475, 1475, 1475, 1475, 1475, 1475, 1475,
    1475, 1475, 1475, 1475, 1475, 1482, 1482, 1482, 1482, 1482, 1482, 1482,
    1482, 1482, 1482, 1482, 1482, 1488, 1488, 1488, 1488, 1488, 1488, 1488,
    1488, 1488, 1488, 1488, 1495, 1495, 1495, 1495, 1495, 1495, 1495, 1495,
    1495, 1495, 1502, 1502, 1502, 1502, 1502, 1502, 1502, 1502, 1502, 1502,
    1508, 1508, 1508, 1508, 1508, 1508, 1508, 1508, 1515, 1515, 1515, 1515,
    1515, 1515, 1515, 1515, 1515, 1521, 1521, 1521, 1521, 1521, 1521, 1521,
    1521, 1521, 1528, 1528, 1528, 1528, 1528, 1528, 1528, 1528, 1528, 1535,
    1535, 1535, 1535, 1535, 1535, 1535, 1535, 1535, 1541, 1541, 1541, 1541,
    1541, 1541, 1541, 1541, 1541, 1548, 1548, 1548, 1548, 1548, 1548, 1548,
    1548, 1554, 1554, 1554, 1554, 1554, 1554, 1554, 1554, 1561, 1561, 1561,
    1561, 1561, 1561, 1561, 1568, 1568, 1568, 1568, 1568, 1568, 1568, 1574,
    1574, 1574, 1574, 1574, 1574, 1581, 1581, 1581, 1581, 1581, 1581, 1587,
    1587, 1587, 1587, 1587, 1587, 1594, 1594, 1594, 1594, 1594, 1600, 1600,
    1600, 1600, 1600, 1607, 1607, 1607, 1607, 1607, 1614, 1614, 1614, 1614,
    1614, 1620, 1620, 1620, 1620, 1627, 1627, 1627, 1627, 1633, 1633, 1633,
    1633, 1640, 1640, 1640, 1647, 1647, 1647, 1647, 1653, 1653, 1653, 1653,
    1660, 1660, 1660, 1660, 1666, 1666, 1666, 1673, 1673, 1673, 1673, 1680,
    1680, 1680, 1680, 1686, 1686, 1686, 1693, 1693, 1693, 1693, 1699, 1699,
    1699, 1706, 1706, 1706, 1706, 1712, 1712, 1712, 1719, 1719, 1719, 1719,
    1726, 1726, 1726, 1732, 1732, 1732, 1739, 1739, 1739, 1745, 1745, 1745,
    1752, 1752, 1752, 1759, 1759, 1759, 1765, 1765, 1765, 1772, 1772, 1772,
    1778, 1778, 1778, 1785, 1785, 1792, 1792, 1792, 1798, 1798, 1798, 1805,
    1805, 1811, 1811, 1818, 1818, 1818, 1824, 1824, 1831, 1831, 1838, 1838,
    1838, 1844, 1844, 1851, 1851, 1857, 1857, 1864, 1864, 1871, 1871, 1877,
    1877, 1884, 1884, 1890, 1890, 1897, 1904, 1904, 1910, 1910, 1917, 1917,
    1923, 1930, 1930, 1936, 1936, 1943, 1950, 1950, 1956, 1963, 1963, 1969,
    1976, 1976, 1983, 1983, 1989, 1996, 1996, 2002, 2009, 2009, 2016, 2016,
    2022, 2029, 2029, 2035, 2042, 2042, 2048, 2048, 2055, 2055, 2062, 2068,
    2068, 2075, 2075, 2081, 2088, 2088, 2095, 2095, 2101, 2108, 2108, 2114,
    2114, 2121, 2128, 2128, 2134, 2134, 2141, 2147, 2147, 2154, 2160, 2160,
    2167, 2167, 2174, 2180, 2180, 2187, 2193, 2200, 2200, 2207, 2213, 2213,
    2220, 2226, 2233, 2233, 2240, 2246, 2253, 2253, 2259, 2266, 2272, 2279,
    2286, 2286, 2292, 2299, 2305, 2312, 2319, 2325, 2332, 2338, 2345, 2352,
    2358, 2365, 2371, 2378, 2384, 2391, 2398, 2404, 2411, 2417, 2431, 2437,
    2444, 2450, 2457, 2470, 2477, 2483, 2490, 2503, 2510, 2523, 2529, 2536,
    2549, 2556, 2569, 2576, 2589, 2595, 2609, 2615, 2628, 2635, 2648, 2661,
    2668, 2681, 2694, 2701, 2714, 2727, 2740, 2753, 2767, 2773, 2786, 2800,
    2813, 2826, 2839, 2852, 2865, 2872, 2885, 2898, 2912, 2925, 2938, 2951,
    2964, 2977, 2991, 3004, 3017, 3030, 3043, 3057, 3070, 3083, 3096, 3109,
    3122, 3136, 3149, 3162, 3175, 3188, 3201, 3215, 3228, 3241, 3261, 3274,
    3287, 3300, 3313, 3327, 3346, 3360, 3373, 3386, 3406, 3419, 3432, 3452,
    3465, 3478, 3498, 3511, 3531, 3544, 3564, 3577, 3597, 3610, 3630, 3643,
    3663, 3676, 3696, 3715, 3729, 3748, 3768, 3781, 3801, 3821, 3841, 3860,
    3880, 3893, 3913, 3933, 3953, 3972, 3992, 4012, 4032, 4051, 4078, 4097,
    4117, 4137, 4157, 4183, 4203, 4223, 4249, 4269, 4295, 4315, 4335, 4361,
    4387, 4407, 4433, 4453, 4480, 4506, 4532, 4552, 4578, 4605, 4631, 4657,
    4684, 4710, 4737, 4763, 4789, 4816, 4842, 4875, 4901, 4928, 4961, 4987,
    5013, 5046, 5073, 5106, 5138, 5165, 5198, 5224, 5257, 5290, 5323, 5356,
    5382, 5415, 5448, 5481, 5514, 5547, 5580, 5613, 5646, 5679, 5718, 5751,
    5784, 5817, 5857, 5890, 5922, 5962, 5995, 6028, 6067, 6100, 6140, 6179,
    6212, 6252, 6285, 6324, 6364, 6397, 6436, 6476, 6515, 6555, 6594, 6627,
    6667, 6706, 6746, 6786, 6825, 6865, 6904, 6950, 6990, 7029, 7069, 7108,
    7154, 7194, 7234, 7280, 7319, 7359, 7405, 7444, 7491, 7530, 7576, 7616,
    7662, 7701, 7747, 7794, 7833, 7879, 7925, 7965, 8011, 8057, 8103, 8149,
    8189, 8235, 8281, 8327, 8373, 8419, 8466, 8512, 8558, 8604, 8650, 8703,
    8749, 8795, 8841, 8887, 8940, 8986, 9032, 9078, 9131, 9177, 9223, 9276,
    9322, 9375, 9421, 9474, 9520, 9572, 9619, 9671, 9717, 9770, 9823, 9869,
    9922, 9974, 10020, 10073, 10126, 10179, 10225, 10277, 10330, 10383, 10436, 10488,
    10541, 10587, 10646, 10699, 10752, 10811, 10864, 10923, 10982, 11042, 11101, 11167,
    11226, 11285, 11351, 11417, 11483, 11549, 11615, 11681, 11747, 11812, 11885, 11951,
    12023, 12096, 12162, 12234, 12307, 12379, 12452, 12531, 12603, 12676, 12755, 12827,
    12906, 12979, 13058, 13137, 13209, 13288, 13367, 13446, 13525, 13605, 13684, 13763,
    13842, 13927, 14006, 14085, 14165, 14250, 14329, 14408, 14494, 14573, 14659, 14738,
    14823, 14902, 14988, 15067, 15153, 15232, 15318, 15397, 15482, 15568, 15647, 15733,
    15818, 15904, 15990, 16075, 16161, 16246, 16332, 16418, 16510, 16596, 16681, 16774,
    16859, 16951, 17037, 17129, 17222, 17307, 17399, 17492, 17584, 17676, 17762, 17854,
    17953, 18045, 18137, 18230, 18322, 18414, 18513, 18605, 18704, 18796, 18895, 18987,
    19086, 19178, 19277, 19376, 19475, 19574, 19672, 19771, 19870, 19969, 20068, 20167,
    20265, 20364, 20470, 20568, 20667, 20773, 20872, 20977, 21082, 21181, 21287, 21392,
    21491, 21596, 21702, 21807, 21913, 22018, 22123, 22229, 22341, 22446, 22552, 22657,
    22769, 22874, 22986, 23092, 23204, 23309, 23421, 23533, 23645, 23751, 23863, 23975,
    24087, 24199, 24311, 24423, 24541, 24653, 24765, 24877, 24996, 25108, 25226, 25338,
    25457, 25569, 25688, 25806, 25918, 26037, 26155, 26274, 26393, 26511, 26630, 26748,
    26867, 26986, 27104, 27229, 27348, 27467, 27592, 27710, 27835, 27954, 28079, 28204,
    28330, 28448, 28580, 28705, 28837, 28969, 29100, 29239, 29377, 29516, 29654, 29799,
    29937, 30082, 30227, 30379, 30524, 30668, 30820, 30972, 31117, 31268, 31420, 31571,
    31723, 31874, 32026, 32177, 32329, 32487, 32638, 32790, 32941, 33086, 33238, 33389,
    33548, 33699, 33857, 34015, 34174, 34338, 34503, 34668, 34846, 35017, 35201, 35386,
    35577, 35774, 35999, 36236, 36493, 36750, 37020, 37283, 37553, 37817, 38094, 38370,
    38654, 38944, 39233, 39530, 30306, 30477, 30649, 30827, 30991, 31156, 31321, 31472,
    31624, 31762, 31907, 32045, 32184, 32322, 32461, 32599, 32737, 32869, 33007, 33139,
    33277, 33409, 33548, 33679, 33818, 33950, 34088, 34220, 34358, 34496, 34635, 34773,
    34918, 35056, 35201, 35340, 35485, 35630, 35774, 35926, 36071, 36216, 36361, 36512,
    36657, 36809, 36954, 37105, 37250, 37395, 37547, 37692, 37837, 37982, 38127, 38272,
    38416, 38561, 38700, 38838, 38983, 39121, 39253, 39392, 39530, 39662, 39793, 39925,
    40050, 40182, 40307, 40432, 40564, 40689, 40808, 40933, 41058, 41177, 41302, 41421,
    41546, 41665, 41783, 41908, 42027, 42145, 42264, 42389, 42508, 42626, 42745, 42870,
    42989, 43114, 43233, 43358, 43483, 43602, 43727, 43852, 43977, 44102, 44227, 44346,
    44471, 44596, 44722, 44847, 44972, 45097, 45222, 45347, 45473, 45598, 45723, 45848,
    45967, 46092, 46217, 46342, 46461, 46586, 46705, 46830, 46948, 47074, 47192, 47311,
    47436, 47555, 47673, 47792, 47910, 48029, 48148, 48266, 48385, 48503, 48622, 48740,
    48859, 48978, 49096, 49215, 49333, 49445, 49564, 49683, 49801, 49920, 50038, 50157,
    50269, 50388, 50506, 50625, 50743, 50855, 50974, 51093, 51211, 51323, 51442, 51560,
    51679, 51791, 51909, 52028, 52140, 52259, 52377, 52496, 52608, 52726, 52845, 52957,
    53076, 53194, 53313, 53425, 53543, 53662, 53774, 53893, 54011, 54123, 54242, 54360,
    54479, 54591, 54710, 54828, 54947, 55059, 55177, 55296, 55408, 55527, 55645, 55764,
    55882, 55994, 56113, 56231, 56350, 56469, 56581, 56699, 56818, 56936, 57055, 57174,
    57292, 57411, 57523, 57641, 57760, 57879, 57997, 58116, 58234, 58353, 58472, 58590,
    58709, 58827, 58952, 59071, 59190, 59308, 59427, 59545, 59664, 59789, 59908, 60026,
    60145, 60270, 60389, 60507, 60633, 60751, 60870, 60995, 61113, 61239, 61357, 61482,
    61601, 61726, 61845, 61970, 62095, 62214, 62339, 62464, 62589, 62708, 62833, 62958,
    63083, 63209, 63327, 63452, 63578, 63703, 63828, 63953, 64078, 64203, 64329, 64454,
    64579, 64711, 64836, 64961, 65086, 65211, 65337, 65468, 65594, 65719, 65844, 65976,
    66101, 66226, 66358, 66483, 66608, 66740, 66865, 66997, 67122, 67254, 67379, 67504,
    67636, 67761, 67893, 68025, 68150, 68282, 68407, 68539, 68664, 68796, 68927, 69052,
    69184, 69309, 69441, 69573, 69698, 69830, 69962, 70087, 70219, 70350, 70482, 70607,
    70739, 70871, 70996, 71128, 71260, 71391, 71517, 71648, 71780, 71912, 72044, 72169,
    72301, 72432, 72564, 72689, 72821, 72953, 73085, 73216, 73342, 73473, 73605, 73737,
    73869, 73994, 74126, 74257, 74389, 74514, 74646, 74778, 74910, 75041, 75167, 75298,
    75430, 75562, 75687, 75819, 75951, 76082, 76207, 76339, 76471, 76603, 76728, 76860,
    76992, 77117, 77248, 77380, 77505, 77637, 77769, 77894, 78026, 78151, 78283, 78415,
    78540, 78672, 78797, 78928, 79060, 79185, 79317, 79442, 79574, 79706, 79838, 79969,
    80101, 80233, 80365, 80497, 80628, 80760, 80892, 81030, 81162, 81294, 81432, 81564,
    81696, 81834, 81966, 82104, 82242, 82374, 82513, 82644, 82783, 82921, 83053, 83191,
    83330, 83468, 83600, 83738, 83876, 84015, 84153, 84285, 84423, 84562, 84700, 84838,
    84977, 85108, 85247, 85385, 85523, 85662, 85800, 85932, 86070, 86209, 86347, 86479,
    86617, 86756, 86887, 87026, 87164, 87296, 87434, 87566, 87704, 87836, 87974, 88106,
    88244, 88376, 88508, 88646, 88778, 88910, 89042, 89173, 89305, 89437, 89569, 89701,
    89832, 89964, 90096, 90228, 90353, 90485, 90610, 90741, 90867, 90992, 91124, 91249,
    91374, 91499, 91624, 91750, 91875, 92000, 92118, 92244, 92362, 92487, 92606, 92725,
    92850, 92968, 93087, 93206, 93318, 93436, 93555, 93667, 93785, 93897, 94009, 94128,
    94240, 94352, 94457, 94569, 94681, 94787, 94899, 95004, 95110, 95215, 95320, 95426,
    95531, 95630, 95736, 95834, 95933, 96032, 96137, 96236, 96328, 96427, 96526, 96625,
    96717, 96816, 96908, 97000, 97099, 97192, 97284, 97376, 97468, 97554, 97646, 97738,
    97824, 97916, 98002, 98094, 98180, 98265, 98351, 98437, 98522, 98608, 98694, 98779,
    98858, 98944, 99030, 99109, 99194, 99273, 99353, 99432, 99517, 99596, 99675, 99754,
    99833, 99913, 99992, 100064, 100143, 100222, 100295, 100374, 100446, 100525, 100598, 100677,
    100749, 100822, 100901, 100973, 101046, 101118, 101191, 101263, 101336, 101408, 101481, 101553,
    101626, 101698, 101764, 101836, 101909, 101975, 102047, 102120, 102186, 102258, 102324, 102396,
    102462, 102535, 102601, 102666, 102739, 102805, 102877, 102943, 103009, 103075, 103147, 103213,
    103279, 103345, 103411, 103483, 103549, 103615, 103681, 103747, 103813, 103879, 103945, 104017,
    104083, 104149, 104215, 104281, 104347, 104412, 104478, 104544, 104610, 104676, 104742, 104808,
    104880, 104946, 105012, 105078, 105144, 105210, 105276, 105341, 105414, 105480, 105546, 105612,
    105677, 105743, 105809, 105875, 105941, 106007, 106073, 106139, 106204, 106270, 106336, 106402,
    106468, 106527, 106593, 106659, 106725, 106791, 106850, 106916, 106982, 107041, 107107, 107173,
    107232, 107298, 107357, 107423, 107483, 107548, 107608, 107674, 107733, 107799, 107858, 107917,
    107983, 108043, 108102, 108161, 108227, 108286, 108346, 108405, 108464, 108524, 108583, 108642,
    108708, 108767, 108820, 108879, 108939, 108998, 109057, 109117, 109176, 109235, 109288, 109347,
    109406, 109459, 109518, 109578, 109630, 109690, 109742, 109802, 109854, 109914, 109966, 110026,
    110078, 110131, 110190, 110243, 110296, 110349, 110408, 110461, 110513, 110566, 110619, 110671,
    110724, 110777, 110830, 110882, 110935, 110988, 111034, 111086, 111139, 111192, 111238, 111291,
    111343, 111390, 111442, 111488, 111541, 111587, 111640, 111686, 111739, 111785, 111831, 111877,
    111930, 111976, 112022, 112068, 112114, 112160, 112206, 112253, 112299, 112345, 112391, 112437,
    112483, 112523, 112569, 112615, 112661, 112701, 112747, 112786, 112832, 112872, 112918, 112958,
    112997, 113043, 113083, 113122, 113162, 113201, 113241, 113280, 113320, 113359, 113399, 113439,
    113478, 113518, 113557, 113590, 113630, 113669, 113702, 113742, 113781, 113814, 113854, 113887,
    113926, 113959, 113992, 114031, 114064, 114097, 114137, 114170, 114203, 114236, 114269, 114302,
    114335, 114367, 114400, 114433, 114466, 114499, 114532, 114565, 114598, 114624, 114657, 114690,
    114723, 114750, 114783, 114816, 114842, 114875, 114901, 114934, 114960, 114993, 115020, 115053,
    115079, 115105, 115138, 115165, 115191, 115224, 115250, 115277, 115303, 115336, 115362, 115389,
    115415, 115441, 115468, 115501, 115527, 115553, 115580, 115606, 115632, 115659, 115685, 115712,
    115738, 115758, 115784, 115810, 115837, 115863, 115889, 115916, 115936, 115962, 115988, 116015,
    116034, 116061, 116087, 116113, 116133, 116160, 116186, 116206, 116232, 116258, 116278, 116304,
    116331, 116351, 116377, 116397, 116423, 116449, 116469, 116496, 116515, 116542, 116561, 116588,
    116614, 116634, 116660, 116680, 116700, 116726, 116746, 116772, 116792, 116812, 116832, 116858,
    116878, 116897, 116917, 116937, 116963, 116983, 117003, 117023, 117042, 117062, 117082, 117102,
    117121, 117141, 117161, 117174, 117194, 117214, 117233, 117253, 117273, 117286, 117306, 117326,
    117339, 117359, 117378, 117392, 117411, 117431, 117444, 117464, 117477, 117497, 117510, 117530,
    117543, 117563, 117576, 117589, 117609, 117622, 117642, 117655, 117668, 117688, 117701, 117714,
    117728, 117747, 117761, 117774, 117787, 117807, 117820, 117833, 117846, 117859, 117873, 117892,
    117905, 117919, 117932, 117945, 117958, 117971, 117985, 117998, 118011, 118024, 118037, 118050,
    118064, 118077, 118090, 118103, 118116, 118129, 118143, 118156, 118169, 118182, 118195, 118202,
    118215, 118228, 118241, 118255, 118268, 118281, 118288, 118301, 118314, 118327, 118340, 118353,
    118360, 118373, 118386, 118400, 118413, 118426, 118433, 118446, 118459, 118472, 118479, 118492,
    118505, 118518, 118531, 118538, 118551, 118564, 118577, 118584,
];

/// Angular cutoff frequency for each cutoff register value of the 8580
/// revision, in the same fixed-point scale as the 6581 table.
#[verifier::opaque]
pub const W0_8580: [i32; 2048] = [
    0, 39, 79, 118, 164, 204, 243, 283, 329, 368, 408, 448,
    494, 533, 573, 612, 658, 698, 737, 777, 823, 863, 902, 942,
    988, 1027, 1067, 1106, 1152, 1192, 1232, 1271, 1317, 1357, 1396, 1436,
    1482, 1521, 1561, 1600, 1647, 1686, 1726, 1765, 1811, 1851, 1890, 1930,
    1976, 2016, 2055, 2095, 2141, 2180, 2220, 2259, 2305, 2345, 2384, 2424,
    2470, 2510, 2549, 2589, 2635, 2674, 2714, 2753, 2800, 2839, 2879, 2918,
    2964, 3004, 3043, 3083, 3129, 3169, 3208, 3248, 3294, 3333, 3373, 3412,
    3458, 3498, 3537, 3577, 3623, 3663, 3702, 3742, 3788, 3827, 3867, 3906,
    3953, 3992, 4032, 4071, 4117, 4157, 4196, 4236, 4282, 4321, 4361, 4401,
    4447, 4486, 4526, 4565, 4611, 4651, 4690, 4730, 4776, 4816, 4855, 4895,
    4941, 4980, 5020, 5059, 5106, 5145, 5185, 5224, 5270, 5310, 5349, 5389,
    5428, 5474, 5514, 5554, 5593, 5639, 5679, 5718, 5758, 5797, 5837, 5883,
    5922, 5962, 6002, 6041, 6081, 6127, 6166, 6206, 6245, 6285, 6324, 6364,
    6410, 6450, 6489, 6529, 6568, 6608, 6647, 6693, 6733, 6772, 6812, 6851,
    6891, 6930, 6970, 7016, 7056, 7095, 7135, 7174, 7214, 7253, 7293, 7332,
    7379, 7418, 7458, 7497, 7537, 7576, 7616, 7662, 7701, 7741, 7780, 7820,
    7859, 7899, 7945, 7985, 8024, 8064, 8103, 8143, 8189, 8228, 8268, 8307,
    8347, 8393, 8433, 8472, 8512, 8551, 8597, 8637, 8676, 8716, 8762, 8802,
    8841, 8881, 8927, 8966, 9006, 9052, 9091, 9131, 9171, 9217, 9256, 9296,
    9342, 9381, 9427, 9467, 9507, 9553, 9592, 9638, 9678, 9717, 9764, 9803,
    9849, 9889, 9935, 9974, 10020, 10060, 10106, 10146, 10192, 10231, 10277, 10317,
    10363, 10409, 10449, 10495, 10541, 10580, 10627, 10673, 10712, 10758, 10804, 10844,
    10890, 10936, 10982, 11028, 11068, 11114, 11160, 11206, 11252, 11299, 11345, 11391,
    11437, 11483, 11529, 11569, 11615, 11661, 11714, 11760, 11806, 11852, 11898, 11944,
    11990, 12037, 12083, 12129, 12175, 12221, 12267, 12320, 12366, 12412, 12458, 12504,
    12550, 12603, 12649, 12695, 12741, 12788, 12834, 12886, 12933, 12979, 13025, 13071,
    13124, 13170, 13216, 13262, 13315, 13361, 13407, 13453, 13506, 13552, 13598, 13644,
    13690, 13743, 13789, 13835, 13881, 13934, 13980, 14026, 14072, 14118, 14171, 14217,
    14263, 14309, 14356, 14402, 14454, 14501, 14547, 14593, 14639, 14685, 14738, 14784,
    14830, 14876, 14922, 14968, 15014, 15061, 15107, 15153, 15199, 15245, 15291, 15344,
    15390, 15436, 15476, 15522, 15568, 15614, 15660, 15706, 15752, 15798, 15845, 15891,
    15937, 15976, 16022, 16069, 16115, 16161, 16200, 16246, 16293, 16332, 16378, 16424,
    16470, 16510, 16556, 16596, 16642, 16688, 16727, 16774, 16813, 16859, 16899, 16945,
    16984, 17031, 17070, 17116, 17156, 17202, 17241, 17287, 17327, 17367, 17413, 17452,
    17498, 17538, 17577, 17623, 17663, 17709, 17749, 17788, 17834, 17874, 17913, 17953,
    17999, 18039, 18078, 18124, 18164, 18203, 18243, 18289, 18328, 18368, 18407, 18454,
    18493, 18533, 18572, 18612, 18658, 18697, 18737, 18776, 18816, 18862, 18902, 18941,
    18981, 19020, 19060, 19106, 19145, 19185, 19224, 19264, 19304, 19343, 19389, 19429,
    19468, 19508, 19547, 19587, 19626, 19672, 19712, 19752, 19791, 19831, 19870, 19910,
    19949, 19989, 20035, 20074, 20114, 20153, 20193, 20232, 20272, 20312, 20358, 20397,
    20437, 20476, 20516, 20555, 20595, 20641, 20680, 20720, 20760, 20799, 20839, 20878,
    20924, 20964, 21003, 21043, 21082, 21122, 21168, 21208, 21247, 21287, 21326, 21366,
    21412, 21451, 21491, 21530, 21577, 21616, 21656, 21695, 21741, 21781, 21820, 21860,
    21906, 21945, 21985, 22025, 22071, 22110, 22150, 22196, 22235, 22275, 22321, 22361,
    22400, 22446, 22486, 22525, 22571, 22611, 22650, 22697, 22736, 22776, 22822, 22861,
    22901, 22947, 22986, 23026, 23072, 23112, 23158, 23197, 23237, 23283, 23322, 23362,
    23408, 23448, 23494, 23533, 23573, 23619, 23658, 23705, 23744, 23784, 23830, 23869,
    23909, 23955, 23994, 24041, 24080, 24120, 24166, 24205, 24245, 24291, 24330, 24370,
    24416, 24456, 24495, 24541, 24581, 24620, 24666, 24706, 24746, 24792, 24831, 24871,
    24917, 24956, 24996, 25042, 25082, 25121, 25161, 25207, 25246, 25286, 25325, 25371,
    25411, 25450, 25490, 25536, 25576, 25615, 25655, 25694, 25740, 25780, 25819, 25859,
    25898, 25938, 25978, 26024, 26063, 26103, 26142, 26182, 26221, 26261, 26300, 26340,
    26379, 26419, 26459, 26498, 26538, 26577, 26617, 26656, 26696, 26735, 26775, 26814,
    26854, 26893, 26933, 26972, 27012, 27045, 27084, 27124, 27163, 27203, 27236, 27275,
    27315, 27355, 27387, 27427, 27467, 27499, 27539, 27579, 27611, 27651, 27691, 27723,
    27763, 27796, 27835, 27868, 27908, 27947, 27980, 28020, 28053, 28092, 28125, 28165,
    28198, 28231, 28270, 28303, 28343, 28376, 28415, 28448, 28481, 28521, 28554, 28593,
    28626, 28659, 28699, 28732, 28764, 28804, 28837, 28870, 28909, 28942, 28975, 29015,
    29048, 29081, 29120, 29153, 29186, 29226, 29259, 29292, 29331, 29364, 29397, 29430,
    29469, 29502, 29535, 29575, 29608, 29641, 29680, 29713, 29746, 29786, 29819, 29852,
    29891, 29924, 29957, 29990, 30029, 30062, 30095, 30135, 30168, 30207, 30240, 30273,
    30313, 30346, 30379, 30418, 30451, 30491, 30524, 30556, 30596, 30629, 30668, 30701,
    30741, 30774, 30807, 30846, 30879, 30919, 30952, 30991, 31024, 31064, 31103, 31136,
    31176, 31209, 31248, 31281, 31321, 31360, 31393, 31433, 31472, 31505, 31545, 31584,
    31624, 31657, 31696, 31736, 31775, 31815, 31848, 31887, 31927, 31966, 32006, 32045,
    32085, 32125, 32171, 32210, 32250, 32289, 32329, 32368, 32414, 32454, 32493, 32533,
    32579, 32619, 32658, 32704, 32744, 32783, 32829, 32869, 32909, 32955, 32994, 33040,
    33080, 33119, 33165, 33205, 33251, 33291, 33330, 33376, 33416, 33462, 33502, 33548,
    33587, 33627, 33673, 33712, 33758, 33798, 33838, 33884, 33923, 33963, 34009, 34048,
    34088, 34134, 34174, 34213, 34259, 34299, 34338, 34378, 34417, 34463, 34503, 34542,
    34582, 34622, 34661, 34701, 34747, 34786, 34826, 34865, 34905, 34944, 34984, 35023,
    35063, 35102, 35142, 35182, 35228, 35267, 35307, 35346, 35386, 35425, 35465, 35504,
    35544, 35583, 35630, 35669, 35709, 35748, 35788, 35827, 35873, 35913, 35952, 35992,
    36038, 36078, 36117, 36157, 36203, 36242, 36288, 36328, 36367, 36414, 36453, 36499,
    36539, 36585, 36624, 36671, 36717, 36756, 36802, 36848, 36895, 36934, 36980, 37026,
    37072, 37112, 37158, 37204, 37250, 37296, 37336, 37382, 37428, 37474, 37520, 37560,
    37606, 37652, 37698, 37744, 37784, 37830, 37876, 37922, 37968, 38015, 38054, 38100,
    38146, 38192, 38239, 38285, 38324, 38370, 38416, 38463, 38509, 38555, 38601, 38647,
    38687, 38733, 38779, 38825, 38871, 38917, 38963, 39009, 39056, 39102, 39148, 39194,
    39233, 39280, 39326, 39372, 39418, 39464, 39510, 39556, 39602, 39648, 39695, 39741,
    39787, 39833, 39879, 39925, 39971, 40017, 40064, 40110, 40156, 40202, 40248, 40294,
    40340, 40393, 40439, 40485, 40531, 40577, 40624, 40670, 40716, 40762, 40808, 40854,
    40907, 40953, 40999, 41045, 41091, 41137, 41190, 41236, 41282, 41329, 41375, 41421,
    41473, 41520, 41566, 41612, 41665, 41711, 41757, 41803, 41856, 41902, 41948, 41994,
    42047, 42093, 42139, 42192, 42238, 42284, 42337, 42383, 42429, 42481, 42528, 42574,
    42626, 42673, 42725, 42771, 42824, 42870, 42916, 42969, 43015, 43068, 43114, 43167,
    43213, 43266, 43318, 43364, 43417, 43463, 43516, 43569, 43615, 43667, 43720, 43766,
    43819, 43872, 43924, 43970, 44023, 44076, 44129, 44181, 44227, 44280, 44333, 44386,
    44438, 44491, 44544, 44590, 44642, 44695, 44748, 44801, 44853, 44906, 44959, 45011,
    45064, 45117, 45170, 45222, 45275, 45328, 45380, 45433, 45479, 45532, 45585, 45637,
    45690, 45743, 45795, 45848, 45901, 45954, 46006, 46059, 46118, 46171, 46224, 46276,
    46329, 46382, 46435, 46487, 46540, 46593, 46645, 46698, 46751, 46797, 46850, 46902,
    46955, 47008, 47060, 47113, 47166, 47219, 47271, 47324, 47377, 47429, 47482, 47535,
    47587, 47640, 47686, 47739, 47792, 47844, 47897, 47950, 48003, 48049, 48101, 48154,
    48207, 48260, 48306, 48358, 48411, 48464, 48510, 48563, 48615, 48661, 48714, 48767,
    48813, 48866, 48912, 48964, 49017, 49063, 49116, 49162, 49215, 49261, 49314, 49360,
    49412, 49459, 49505, 49557, 49604, 49656, 49702, 49748, 49801, 49847, 49893, 49946,
    49992, 50038, 50091, 50137, 50183, 50236, 50282, 50328, 50381, 50427, 50473, 50526,
    50572, 50618, 50664, 50717, 50763, 50809, 50855, 50908, 50954, 51000, 51046, 51099,
    51145, 51191, 51237, 51284, 51330, 51382, 51429, 51475, 51521, 51567, 51613, 51666,
    51712, 51758, 51804, 51850, 51896, 51942, 51989, 52035, 52087, 52133, 52180, 52226,
    52272, 52318, 52364, 52410, 52456, 52502, 52549, 52595, 52641, 52687, 52733, 52779,
    52825, 52871, 52918, 52964, 53010, 53056, 53102, 53148, 53194, 53240, 53286, 53326,
    53372, 53418, 53464, 53510, 53557, 53603, 53649, 53695, 53734, 53781, 53827, 53873,
    53919, 53965, 54011, 54051, 54097, 54143, 54189, 54235, 54275, 54321, 54367, 54413,
    54453, 54499, 54545, 54591, 54630, 54677, 54723, 54769, 54808, 54854, 54901, 54940,
    54986, 55032, 55079, 55118, 55164, 55210, 55250, 55296, 55342, 55382, 55428, 55467,
    55513, 55559, 55599, 55645, 55685, 55731, 55770, 55816, 55856, 55902, 55942, 55988,
    56027, 56073, 56113, 56159, 56199, 56238, 56284, 56324, 56370, 56409, 56449, 56495,
    56535, 56581, 56620, 56660, 56706, 56745, 56785, 56824, 56871, 56910, 56950, 56996,
    57035, 57075, 57114, 57160, 57200, 57239, 57279, 57325, 57365, 57404, 57444, 57483,
    57529, 57569, 57608, 57648, 57688, 57734, 57773, 57813, 57852, 57892, 57931, 57977,
    58017, 58056, 58096, 58136, 58175, 58215, 58261, 58300, 58340, 58379, 58419, 58458,
    58498, 58544, 58584, 58623, 58663, 58702, 58742, 58781, 58821, 58860, 58906, 58946,
    58985, 59025, 59064, 59104, 59144, 59183, 59229, 59269, 59308, 59348, 59387, 59427,
    59466, 59512, 59552, 59592, 59631, 59671, 59710, 59750, 59796, 59835, 59875, 59914,
    59954, 59993, 60040, 60079, 60119, 60158, 60198, 60237, 60283, 60323, 60362, 60402,
    60448, 60488, 60527, 60567, 60613, 60652, 60692, 60731, 60777, 60817, 60857, 60896,
    60942, 60982, 61021, 61061, 61107, 61146, 61186, 61232, 61272, 61311, 61351, 61397,
    61436, 61476, 61522, 61561, 61601, 61647, 61687, 61726, 61766, 61812, 61851, 61891,
    61937, 61977, 62016, 62062, 62102, 62141, 62187, 62227, 62266, 62306, 62352, 62392,
    62431, 62477, 62517, 62556, 62602, 62642, 62682, 62728, 62767, 62807, 62853, 62892,
    62932, 62971, 63018, 63057, 63097, 63143, 63182, 63222, 63268, 63307, 63347, 63393,
    63433, 63472, 63512, 63558, 63597, 63637, 63683, 63722, 63762, 63802, 63848, 63887,
    63927, 63966, 64012, 64052, 64091, 64131, 64177, 64217, 64256, 64296, 64342, 64381,
    64421, 64460, 64506, 64546, 64586, 64625, 64665, 64711, 64750, 64790, 64829, 64869,
    64915, 64955, 64994, 65034, 65073, 65113, 65159, 65198, 65238, 65277, 65317, 65356,
    65396, 65442, 65482, 65521, 65561, 65600, 65640, 65679, 65719, 65758, 65798, 65837,
    65883, 65923, 65963, 66002, 66042, 66081, 66121, 66160, 66200, 66239, 66279, 66318,
    66358, 66397, 66437, 66476, 66516, 66555, 66595, 66635, 66674, 66714, 66753, 66793,
    66832, 66872, 66911, 66951, 66990, 67030, 67069, 67109, 67148, 67188, 67228, 67267,
    67300, 67340, 67379, 67419, 67458, 67498, 67537, 67577, 67616, 67656, 67695, 67735,
    67774, 67814, 67847, 67886, 67926, 67965, 68005, 68044, 68084, 68124, 68163, 68196,
    68236, 68275, 68315, 68354, 68394, 68433, 68466, 68506, 68545, 68585, 68624, 68664,
    68703, 68736, 68776, 68815, 68855, 68894, 68927, 68967, 69006, 69046, 69085, 69125,
    69158, 69197, 69237, 69276, 69309, 69349, 69389, 69428, 69468, 69501, 69540, 69580,
    69619, 69652, 69692, 69731, 69771, 69804, 69843, 69883, 69922, 69955, 69995, 70034,
    70074, 70107, 70146, 70186, 70219, 70258, 70298, 70337, 70370, 70410, 70449, 70482,
    70522, 70561, 70594, 70634, 70673, 70706, 70746, 70785, 70825, 70858, 70897, 70930,
    70970, 71009, 71042, 71082, 71121, 71154, 71194, 71233, 71266, 71306, 71339, 71378,
    71418, 71451, 71490, 71530, 71563, 71602, 71635, 71675, 71714, 71747, 71787, 71820,
    71859, 71892, 71932, 71971, 72004, 72044, 72077, 72116, 72149, 72189, 72228, 72261,
    72301, 72334, 72373, 72406, 72446, 72478, 72518, 72551, 72590, 72623, 72663, 72696,
    72735, 72768, 72808, 72841, 72880, 72913, 72953, 72986, 73025, 73058, 73098, 73131,
    73170, 73203, 73243, 73276, 73315, 73348, 73388, 73421, 73454, 73493, 73526, 73566,
    73598, 73638, 73671, 73704, 73743, 73776, 73816, 73849, 73888, 73921, 73954, 73994,
    74027, 74066, 74099, 74132, 74172, 74205, 74238, 74277, 74310, 74350, 74383, 74415,
    74455, 74488, 74521, 74560, 74593, 74626, 74666, 74699, 74732, 74771, 74804, 74837,
    74877, 74910, 74943, 74982, 75015, 75048, 75087, 75120, 75153, 75193, 75226, 75259,
    75292, 75331, 75364, 75397, 75437, 75470, 75503, 75535, 75575, 75608, 75641, 75674,
    75713, 75746, 75779, 75812, 75852, 75885, 75918, 75951, 75983, 76023, 76056, 76089,
    76122, 76161, 76194, 76227, 76260, 76293, 76326, 76366, 76399, 76431, 76464, 76497,
    76537, 76570, 76603, 76636, 76669, 76702, 76741, 76774, 76807, 76840, 76873, 76906,
    76939, 76978, 77011, 77044, 77077, 77110, 77143, 77176, 77209, 77242, 77281, 77314,
    77347, 77380, 77413, 77446, 77479, 77512, 77545, 77578, 77611, 77650, 77683, 77716,
    77749, 77782, 77815, 77848, 77881, 77914, 77947, 77980, 78013, 78046, 78079, 78112,
    78144, 78177, 78210, 78243, 78276, 78309, 78342, 78375, 78408, 78441, 78474, 78507,
    78540, 78573, 78606, 78639, 78672, 78704, 78737, 78770, 78803, 78836, 78869, 78902,
    78935, 78968, 79001, 79034, 79067, 79100, 79133, 79166, 79199, 79232, 79265, 79297,
    79324, 79357, 79390, 79423, 79456, 79489, 79521, 79554, 79587, 79620, 79653, 79686,
    79719, 79745, 79778, 79811, 79844, 79877, 79910, 79943, 79976, 80002, 80035, 80068,
    80101, 80134, 80167, 80200, 80226, 80259, 80292, 80325, 80358, 80391, 80417, 80450,
    80483, 80516, 80549, 80576, 80609, 80641, 80674, 80707, 80734, 80767, 80800, 80833,
    80865, 80892, 80925, 80958, 80991, 81017, 81050, 81083, 81116, 81142, 81175, 81208,
    81241, 81267, 81300, 81333, 81366, 81393, 81426, 81458, 81485, 81518, 81551, 81584,
    81610, 81643, 81676, 81702, 81735, 81768, 81794, 81827, 81860, 81893, 81920, 81953,
    81986, 82012, 82045, 82078, 82104, 82137, 82170, 82196, 82229, 82262, 82289, 82322,
    82354, 82381, 82414, 82447, 82473, 82506, 82539, 82565, 82598, 82631, 82658, 82690,
    82723, 82750, 82783, 82816, 82842, 82875, 82908, 82934, 82967, 82994, 83026, 83059,
    83086, 83119, 83152, 83178, 83211, 83244, 83270, 83303, 83336, 83362, 83395, 83422,
    83455, 83488, 83514, 83547, 83580, 83606, 83639, 83672,
];

} // verus!
