use vstd::prelude::*;

verus! {

/// Largest value of the gamma table, reached at channel value 255.
pub open spec fn gamma_max() -> int {
    25211481
}

/// Fixed-point gamma expansion of an 8-bit channel value: the integer part
/// of `x^2.2 * 128`, with `x^2.2` taken exactly (the fifth root of `x^11`).
/// Every entry is exact; the table is strictly increasing in `x`.
#[verifier::opaque]
pub open spec fn gamma_expand_spec(x: int) -> int {
    if x <= 0 {
        0
    } else if x == 1 {
        128
    } else if x == 2 {
        588
    } else if x == 3 {
        1435
    } else if x == 4 {
        2702
    } else if x == 5 {
        4415
    } else if x == 6 {
        6593
    } else if x == 7 {
        9256
    } else if x == 8 {
        12416
    } else if x == 9 {
        16089
    } else if x == 10 {
        20286
    } else if x == 11 {
        25019
    } else if x == 12 {
        30297
    } else if x == 13 {
        36131
    } else if x == 14 {
        42529
    } else if x == 15 {
        49500
    } else if x == 16 {
        57052
    } else if x == 17 {
        65192
    } else if x == 18 {
        73928
    } else if x == 19 {
        83266
    } else if x == 20 {
        93212
    } else if x == 21 {
        103774
    } else if x == 22 {
        114958
    } else if x == 23 {
        126768
    } else if x == 24 {
        139211
    } else if x == 25 {
        152292
    } else if x == 26 {
        166016
    } else if x == 27 {
        180389
    } else if x == 28 {
        195414
    } else if x == 29 {
        211098
    } else if x == 30 {
        227445
    } else if x == 31 {
        244458
    } else if x == 32 {
        262144
    } else if x == 33 {
        280505
    } else if x == 34 {
        299546
    } else if x == 35 {
        319271
    } else if x == 36 {
        339684
    } else if x == 37 {
        360789
    } else if x == 38 {
        382590
    } else if x == 39 {
        405090
    } else if x == 40 {
        428293
    } else if x == 41 {
        452204
    } else if x == 42 {
        476824
    } else if x == 43 {
        502158
    } else if x == 44 {
        528209
    } else if x == 45 {
        554980
    } else if x == 46 {
        582474
    } else if x == 47 {
        610696
    } else if x == 48 {
        639647
    } else if x == 49 {
        669331
    } else if x == 50 {
        699751
    } else if x == 51 {
        730910
    } else if x == 52 {
        762811
    } else if x == 53 {
        795457
    } else if x == 54 {
        828850
    } else if x == 55 {
        862994
    } else if x == 56 {
        897891
    } else if x == 57 {
        933543
    } else if x == 58 {
        969954
    } else if x == 59 {
        1007127
    } else if x == 60 {
        1045063
    } else if x == 61 {
        1083766
    } else if x == 62 {
        1123237
    } else if x == 63 {
        1163480
    } else if x == 64 {
        1204497
    } else if x == 65 {
        1246290
    } else if x == 66 {
        1288862
    } else if x == 67 {
        1332215
    } else if x == 68 {
        1376352
    } else if x == 69 {
        1421274
    } else if x == 70 {
        1466984
    } else if x == 71 {
        1513485
    } else if x == 72 {
        1560779
    } else if x == 73 {
        1608867
    } else if x == 74 {
        1657752
    } else if x == 75 {
        1707437
    } else if x == 76 {
        1757923
    } else if x == 77 {
        1809212
    } else if x == 78 {
        1861307
    } else if x == 79 {
        1914209
    } else if x == 80 {
        1967922
    } else if x == 81 {
        2022446
    } else if x == 82 {
        2077784
    } else if x == 83 {
        2133937
    } else if x == 84 {
        2190909
    } else if x == 85 {
        2248700
    } else if x == 86 {
        2307313
    } else if x == 87 {
        2366749
    } else if x == 88 {
        2427011
    } else if x == 89 {
        2488100
    } else if x == 90 {
        2550019
    } else if x == 91 {
        2612769
    } else if x == 92 {
        2676351
    } else if x == 93 {
        2740769
    } else if x == 94 {
        2806023
    } else if x == 95 {
        2872115
    } else if x == 96 {
        2939048
    } else if x == 97 {
        3006822
    } else if x == 98 {
        3075440
    } else if x == 99 {
        3144904
    } else if x == 100 {
        3215214
    } else if x == 101 {
        3286374
    } else if x == 102 {
        3358383
    } else if x == 103 {
        3431246
    } else if x == 104 {
        3504962
    } else if x == 105 {
        3579533
    } else if x == 106 {
        3654962
    } else if x == 107 {
        3731249
    } else if x == 108 {
        3808397
    } else if x == 109 {
        3886406
    } else if x == 110 {
        3965280
    } else if x == 111 {
        4045018
    } else if x == 112 {
        4125623
    } else if x == 113 {
        4207097
    } else if x == 114 {
        4289440
    } else if x == 115 {
        4372655
    } else if x == 116 {
        4456742
    } else if x == 117 {
        4541704
    } else if x == 118 {
        4627542
    } else if x == 119 {
        4714257
    } else if x == 120 {
        4801851
    } else if x == 121 {
        4890325
    } else if x == 122 {
        4979681
    } else if x == 123 {
        5069921
    } else if x == 124 {
        5161045
    } else if x == 125 {
        5253055
    } else if x == 126 {
        5345953
    } else if x == 127 {
        5439740
    } else if x == 128 {
        5534417
    } else if x == 129 {
        5629986
    } else if x == 130 {
        5726448
    } else if x == 131 {
        5823804
    } else if x == 132 {
        5922057
    } else if x == 133 {
        6021207
    } else if x == 134 {
        6121255
    } else if x == 135 {
        6222204
    } else if x == 136 {
        6324053
    } else if x == 137 {
        6426806
    } else if x == 138 {
        6530462
    } else if x == 139 {
        6635024
    } else if x == 140 {
        6740492
    } else if x == 141 {
        6846868
    } else if x == 142 {
        6954154
    } else if x == 143 {
        7062350
    } else if x == 144 {
        7171457
    } else if x == 145 {
        7281478
    } else if x == 146 {
        7392413
    } else if x == 147 {
        7504264
    } else if x == 148 {
        7617031
    } else if x == 149 {
        7730716
    } else if x == 150 {
        7845321
    } else if x == 151 {
        7960846
    } else if x == 152 {
        8077293
    } else if x == 153 {
        8194663
    } else if x == 154 {
        8312957
    } else if x == 155 {
        8432176
    } else if x == 156 {
        8552322
    } else if x == 157 {
        8673396
    } else if x == 158 {
        8795399
    } else if x == 159 {
        8918332
    } else if x == 160 {
        9042196
    } else if x == 161 {
        9166992
    } else if x == 162 {
        9292723
    } else if x == 163 {
        9419388
    } else if x == 164 {
        9546989
    } else if x == 165 {
        9675527
    } else if x == 166 {
        9805003
    } else if x == 167 {
        9935419
    } else if x == 168 {
        10066775
    } else if x == 169 {
        10199073
    } else if x == 170 {
        10332314
    } else if x == 171 {
        10466498
    } else if x == 172 {
        10601627
    } else if x == 173 {
        10737703
    } else if x == 174 {
        10874725
    } else if x == 175 {
        11012696
    } else if x == 176 {
        11151616
    } else if x == 177 {
        11291487
    } else if x == 178 {
        11432309
    } else if x == 179 {
        11574084
    } else if x == 180 {
        11716812
    } else if x == 181 {
        11860495
    } else if x == 182 {
        12005134
    } else if x == 183 {
        12150729
    } else if x == 184 {
        12297283
    } else if x == 185 {
        12444795
    } else if x == 186 {
        12593268
    } else if x == 187 {
        12742701
    } else if x == 188 {
        12893096
    } else if x == 189 {
        13044454
    } else if x == 190 {
        13196777
    } else if x == 191 {
        13350064
    } else if x == 192 {
        13504318
    } else if x == 193 {
        13659539
    } else if x == 194 {
        13815728
    } else if x == 195 {
        13972885
    } else if x == 196 {
        14131013
    } else if x == 197 {
        14290113
    } else if x == 198 {
        14450184
    } else if x == 199 {
        14611228
    } else if x == 200 {
        14773247
    } else if x == 201 {
        14936240
    } else if x == 202 {
        15100209
    } else if x == 203 {
        15265156
    } else if x == 204 {
        15431080
    } else if x == 205 {
        15597983
    } else if x == 206 {
        15765866
    } else if x == 207 {
        15934730
    } else if x == 208 {
        16104576
    } else if x == 209 {
        16275404
    } else if x == 210 {
        16447216
    } else if x == 211 {
        16620013
    } else if x == 212 {
        16793795
    } else if x == 213 {
        16968564
    } else if x == 214 {
        17144320
    } else if x == 215 {
        17321064
    } else if x == 216 {
        17498798
    } else if x == 217 {
        17677521
    } else if x == 218 {
        17857236
    } else if x == 219 {
        18037943
    } else if x == 220 {
        18219643
    } else if x == 221 {
        18402336
    } else if x == 222 {
        18586024
    } else if x == 223 {
        18770708
    } else if x == 224 {
        18956388
    } else if x == 225 {
        19143066
    } else if x == 226 {
        19330742
    } else if x == 227 {
        19519417
    } else if x == 228 {
        19709092
    } else if x == 229 {
        19899768
    } else if x == 230 {
        20091446
    } else if x == 231 {
        20284127
    } else if x == 232 {
        20477811
    } else if x == 233 {
        20672499
    } else if x == 234 {
        20868193
    } else if x == 235 {
        21064893
    } else if x == 236 {
        21262600
    } else if x == 237 {
        21461315
    } else if x == 238 {
        21661038
    } else if x == 239 {
        21861771
    } else if x == 240 {
        22063514
    } else if x == 241 {
        22266269
    } else if x == 242 {
        22470036
    } else if x == 243 {
        22674816
    } else if x == 244 {
        22880609
    } else if x == 245 {
        23087417
    } else if x == 246 {
        23295240
    } else if x == 247 {
        23504080
    } else if x == 248 {
        23713937
    } else if x == 249 {
        23924811
    } else if x == 250 {
        24136705
    } else if x == 251 {
        24349618
    } else if x == 252 {
        24563551
    } else if x == 253 {
        24778505
    } else if x == 254 {
        24994482
    } else {
        25211481
    }
}

/// Gamma-expands one channel value through the fixed-point table.
pub fn gamma_expand(x: u8) -> (r: u64)
    ensures
        r == gamma_expand_spec(x as int),
        r <= gamma_max(),
{
    proof {
        reveal(gamma_expand_spec);
    }
    match x {
        0 => 0,
        1 => 128,
        2 => 588,
        3 => 1435,
        4 => 2702,
        5 => 4415,
        6 => 6593,
        7 => 9256,
        8 => 12416,
        9 => 16089,
        10 => 20286,
        11 => 25019,
        12 => 30297,
        13 => 36131,
        14 => 42529,
        15 => 49500,
        16 => 57052,
        17 => 65192,
        18 => 73928,
        19 => 83266,
        20 => 93212,
        21 => 103774,
        22 => 114958,
        23 => 126768,
        24 => 139211,
        25 => 152292,
        26 => 166016,
        27 => 180389,
        28 => 195414,
        29 => 211098,
        30 => 227445,
        31 => 244458,
        32 => 262144,
        33 => 280505,
        34 => 299546,
        35 => 319271,
        36 => 339684,
        37 => 360789,
        38 => 382590,
        39 => 405090,
        40 => 428293,
        41 => 452204,
        42 => 476824,
        43 => 502158,
        44 => 528209,
        45 => 554980,
        46 => 582474,
        47 => 610696,
        48 => 639647,
        49 => 669331,
        50 => 699751,
        51 => 730910,
        52 => 762811,
        53 => 795457,
        54 => 828850,
        55 => 862994,
        56 => 897891,
        57 => 933543,
        58 => 969954,
        59 => 1007127,
        60 => 1045063,
        61 => 1083766,
        62 => 1123237,
        63 => 1163480,
        64 => 1204497,
        65 => 1246290,
        66 => 1288862,
        67 => 1332215,
        68 => 1376352,
        69 => 1421274,
        70 => 1466984,
        71 => 1513485,
        72 => 1560779,
        73 => 1608867,
        74 => 1657752,
        75 => 1707437,
        76 => 1757923,
        77 => 1809212,
        78 => 1861307,
        79 => 1914209,
        80 => 1967922,
        81 => 2022446,
        82 => 2077784,
        83 => 2133937,
        84 => 2190909,
        85 => 2248700,
        86 => 2307313,
        87 => 2366749,
        88 => 2427011,
        89 => 2488100,
        90 => 2550019,
        91 => 2612769,
        92 => 2676351,
        93 => 2740769,
        94 => 2806023,
        95 => 2872115,
        96 => 2939048,
        97 => 3006822,
        98 => 3075440,
        99 => 3144904,
        100 => 3215214,
        101 => 3286374,
        102 => 3358383,
        103 => 3431246,
        104 => 3504962,
        105 => 3579533,
        106 => 3654962,
        107 => 3731249,
        108 => 3808397,
        109 => 3886406,
        110 => 3965280,
        111 => 4045018,
        112 => 4125623,
        113 => 4207097,
        114 => 4289440,
        115 => 4372655,
        116 => 4456742,
        117 => 4541704,
        118 => 4627542,
        119 => 4714257,
        120 => 4801851,
        121 => 4890325,
        122 => 4979681,
        123 => 5069921,
        124 => 5161045,
        125 => 5253055,
        126 => 5345953,
        127 => 5439740,
        128 => 5534417,
        129 => 5629986,
        130 => 5726448,
        131 => 5823804,
        132 => 5922057,
        133 => 6021207,
        134 => 6121255,
        135 => 6222204,
        136 => 6324053,
        137 => 6426806,
        138 => 6530462,
        139 => 6635024,
        140 => 6740492,
        141 => 6846868,
        142 => 6954154,
        143 => 7062350,
        144 => 7171457,
        145 => 7281478,
        146 => 7392413,
        147 => 7504264,
        148 => 7617031,
        149 => 7730716,
        150 => 7845321,
        151 => 7960846,
        152 => 8077293,
        153 => 8194663,
        154 => 8312957,
        155 => 8432176,
        156 => 8552322,
        157 => 8673396,
        158 => 8795399,
        159 => 8918332,
        160 => 9042196,
        161 => 9166992,
        162 => 9292723,
        163 => 9419388,
        164 => 9546989,
        165 => 9675527,
        166 => 9805003,
        167 => 9935419,
        168 => 10066775,
        169 => 10199073,
        170 => 10332314,
        171 => 10466498,
        172 => 10601627,
        173 => 10737703,
        174 => 10874725,
        175 => 11012696,
        176 => 11151616,
        177 => 11291487,
        178 => 11432309,
        179 => 11574084,
        180 => 11716812,
        181 => 11860495,
        182 => 12005134,
        183 => 12150729,
        184 => 12297283,
        185 => 12444795,
        186 => 12593268,
        187 => 12742701,
        188 => 12893096,
        189 => 13044454,
        190 => 13196777,
        191 => 13350064,
        192 => 13504318,
        193 => 13659539,
        194 => 13815728,
        195 => 13972885,
        196 => 14131013,
        197 => 14290113,
        198 => 14450184,
        199 => 14611228,
        200 => 14773247,
        201 => 14936240,
        202 => 15100209,
        203 => 15265156,
        204 => 15431080,
        205 => 15597983,
        206 => 15765866,
        207 => 15934730,
        208 => 16104576,
        209 => 16275404,
        210 => 16447216,
        211 => 16620013,
        212 => 16793795,
        213 => 16968564,
        214 => 17144320,
        215 => 17321064,
        216 => 17498798,
        217 => 17677521,
        218 => 17857236,
        219 => 18037943,
        220 => 18219643,
        221 => 18402336,
        222 => 18586024,
        223 => 18770708,
        224 => 18956388,
        225 => 19143066,
        226 => 19330742,
        227 => 19519417,
        228 => 19709092,
        229 => 19899768,
        230 => 20091446,
        231 => 20284127,
        232 => 20477811,
        233 => 20672499,
        234 => 20868193,
        235 => 21064893,
        236 => 21262600,
        237 => 21461315,
        238 => 21661038,
        239 => 21861771,
        240 => 22063514,
        241 => 22266269,
        242 => 22470036,
        243 => 22674816,
        244 => 22880609,
        245 => 23087417,
        246 => 23295240,
        247 => 23504080,
        248 => 23713937,
        249 => 23924811,
        250 => 24136705,
        251 => 24349618,
        252 => 24563551,
        253 => 24778505,
        254 => 24994482,
        _ => 25211481,
    }
}

/// Consecutive gamma table entries strictly increase.
pub proof fn lemma_gamma_step(x: int)
    requires
        0 <= x < 255,
    ensures
        gamma_expand_spec(x) < gamma_expand_spec(x + 1),
{
    reveal(gamma_expand_spec);
}

/// The gamma table is strictly increasing over the whole channel range.
pub proof fn lemma_gamma_strictly_increasing(x: int, y: int)
    requires
        0 <= x < y <= 255,
    ensures
        gamma_expand_spec(x) < gamma_expand_spec(y),
    decreases y - x,
{
    if x + 1 == y {
        lemma_gamma_step(x);
    } else {
        lemma_gamma_strictly_increasing(x, y - 1);
        lemma_gamma_step(y - 1);
    }
}

} // verus!
