//! # ΔT (Delta T) — the UT↔TT correction layer.
//!
//! ΔT = TT − UT in seconds, modelled piecewise over five disjoint epoch
//! ranges:
//!
//! * **before 948 CE** — quadratic in centuries (Stephenson & Houlden 1986);
//! * **948–1600** — a second quadratic, different coefficients;
//! * **1600–1992** — 3-point Newton-Gregory interpolation over a biennial
//!   table (Meeus ch. 9), with the index clamped at the table's edges;
//! * **1992–2026** — linear interpolation over annual observed values
//!   (IERS/USNO Bulletin A);
//! * **after 2026** — linear extrapolation from the last observed value at
//!   the recently observed, nearly flat rate (~0.02 s/yr), which stays
//!   physically plausible decades past the data cutoff where the older
//!   quadratic extrapolation diverged.
//!
//! All arithmetic is exact fixed-point over picoseconds; every function's
//! contract states its result as the piecewise model itself, so callers
//! reason about the model, not the code.

use vstd::prelude::*;

use crate::days::{
    div_floor, lemma_div_abs_bound, mod_floor, Days, MAX_SCALE_PS, PS_PER_DAY, PS_PER_HALF_DAY,
    PS_PER_SEC,
};
use crate::instant::Time;
use crate::scales::UT;

verus! {

/// Picoseconds per tenth of a second (the biennial table's resolution).
pub const DS_PS: i128 = 100_000_000_000;

/// Picoseconds per hundredth of a second (the observed table's resolution).
pub const CS_PS: i128 = 10_000_000_000;

/// The fraction scale of interpolation positions: one femto-unit.
pub const FEMTO: i128 = 1_000_000_000_000_000;

/// The fraction scale of year positions: `10^-14` Julian year.
pub const YEAR_FRAC: i128 = 100_000_000_000_000;

/// Picoseconds per `10^-15` Julian century (one femtocentury).
pub const CENT_FDIV: i128 = 3_155_760;

/// Picoseconds per `10^-14` Julian year.
pub const YEAR_FDIV: i128 = 315_576;

/// JD of 948 CE, the boundary between the two early quadratics.
pub const JD_948_PS: i128 = 2_067_314 * PS_PER_DAY + PS_PER_HALF_DAY;

/// Reference epoch of the medieval quadratic (1850 CE).
pub const JD_1850_PS: i128 = 2_396_758 * PS_PER_DAY + PS_PER_HALF_DAY;

/// JD of 1600 CE, where the biennial table's regime begins.
pub const JD_1600_PS: i128 = 2_305_447 * PS_PER_DAY + PS_PER_HALF_DAY;

/// Epoch of the biennial table's first entry (1620 CE).
pub const TABLE_START_PS: i128 = 2_312_752 * PS_PER_DAY + PS_PER_HALF_DAY;

/// The biennial table's step: 730.5 days.
pub const BIENNIAL_STEP_PS: i128 = 730 * PS_PER_DAY + PS_PER_HALF_DAY;

/// Start of the observed-annual regime (1992.0).
pub const JD_1992_PS: i128 = 2_448_622 * PS_PER_DAY + PS_PER_HALF_DAY;

/// Origin the fractional year count is measured from (1992.0 as
/// `J2000 - 8 x 365.25` days).
pub const OBS_BASE_PS: i128 = 2_448_623 * PS_PER_DAY;

/// Start of the extrapolated regime (2026.0 as `J2000 + 26 x 365.25` days).
pub const JD_2026_PS: i128 = 2_461_041 * PS_PER_DAY + PS_PER_HALF_DAY;

/// Extrapolation rate past the observed data: 0.02 s per year,
/// in picoseconds per year.
pub const EXTRAP_RATE_PS: i128 = 20_000_000_000;

/// The widest span of UT-axis day counts the ΔT model accepts.
pub const DT_DOMAIN_PS: i128 = 2 * MAX_SCALE_PS;

/// Over its whole domain the model stays below one year of correction.
pub const DT_BOUND_PS: i128 = 365 * PS_PER_DAY;

/// A UT-axis day count the ΔT model accepts.
pub open spec fn in_dt_domain(jd: int) -> bool {
    -DT_DOMAIN_PS <= jd <= DT_DOMAIN_PS
}

/// Biennial ΔT 1620–1992 in tenths of a second (Meeus ch. 9), entry `i` at year `1620 + 2 i`.
pub open spec fn biennial_entry(i: int) -> int {
    if i == 0 {
        1240
    } else
    if i == 1 {
        1150
    } else
    if i == 2 {
        1060
    } else
    if i == 3 {
        980
    } else
    if i == 4 {
        910
    } else
    if i == 5 {
        850
    } else
    if i == 6 {
        790
    } else
    if i == 7 {
        740
    } else
    if i == 8 {
        700
    } else
    if i == 9 {
        650
    } else
    if i == 10 {
        620
    } else
    if i == 11 {
        580
    } else
    if i == 12 {
        550
    } else
    if i == 13 {
        530
    } else
    if i == 14 {
        500
    } else
    if i == 15 {
        480
    } else
    if i == 16 {
        460
    } else
    if i == 17 {
        440
    } else
    if i == 18 {
        420
    } else
    if i == 19 {
        400
    } else
    if i == 20 {
        370
    } else
    if i == 21 {
        350
    } else
    if i == 22 {
        330
    } else
    if i == 23 {
        310
    } else
    if i == 24 {
        280
    } else
    if i == 25 {
        260
    } else
    if i == 26 {
        240
    } else
    if i == 27 {
        220
    } else
    if i == 28 {
        200
    } else
    if i == 29 {
        180
    } else
    if i == 30 {
        160
    } else
    if i == 31 {
        140
    } else
    if i == 32 {
        130
    } else
    if i == 33 {
        120
    } else
    if i == 34 {
        110
    } else
    if i == 35 {
        100
    } else
    if i == 36 {
        90
    } else
    if i == 37 {
        90
    } else
    if i == 38 {
        90
    } else
    if i == 39 {
        90
    } else
    if i == 40 {
        90
    } else
    if i == 41 {
        90
    } else
    if i == 42 {
        90
    } else
    if i == 43 {
        90
    } else
    if i == 44 {
        100
    } else
    if i == 45 {
        100
    } else
    if i == 46 {
        100
    } else
    if i == 47 {
        100
    } else
    if i == 48 {
        100
    } else
    if i == 49 {
        110
    } else
    if i == 50 {
        110
    } else
    if i == 51 {
        110
    } else
    if i == 52 {
        110
    } else
    if i == 53 {
        110
    } else
    if i == 54 {
        110
    } else
    if i == 55 {
        110
    } else
    if i == 56 {
        120
    } else
    if i == 57 {
        120
    } else
    if i == 58 {
        120
    } else
    if i == 59 {
        120
    } else
    if i == 60 {
        120
    } else
    if i == 61 {
        120
    } else
    if i == 62 {
        130
    } else
    if i == 63 {
        130
    } else
    if i == 64 {
        130
    } else
    if i == 65 {
        130
    } else
    if i == 66 {
        140
    } else
    if i == 67 {
        140
    } else
    if i == 68 {
        140
    } else
    if i == 69 {
        150
    } else
    if i == 70 {
        150
    } else
    if i == 71 {
        150
    } else
    if i == 72 {
        150
    } else
    if i == 73 {
        160
    } else
    if i == 74 {
        160
    } else
    if i == 75 {
        160
    } else
    if i == 76 {
        160
    } else
    if i == 77 {
        160
    } else
    if i == 78 {
        170
    } else
    if i == 79 {
        170
    } else
    if i == 80 {
        170
    } else
    if i == 81 {
        170
    } else
    if i == 82 {
        170
    } else
    if i == 83 {
        170
    } else
    if i == 84 {
        170
    } else
    if i == 85 {
        170
    } else
    if i == 86 {
        160
    } else
    if i == 87 {
        160
    } else
    if i == 88 {
        150
    } else
    if i == 89 {
        140
    } else
    if i == 90 {
        137
    } else
    if i == 91 {
        131
    } else
    if i == 92 {
        127
    } else
    if i == 93 {
        125
    } else
    if i == 94 {
        125
    } else
    if i == 95 {
        125
    } else
    if i == 96 {
        125
    } else
    if i == 97 {
        125
    } else
    if i == 98 {
        125
    } else
    if i == 99 {
        123
    } else
    if i == 100 {
        120
    } else
    if i == 101 {
        114
    } else
    if i == 102 {
        106
    } else
    if i == 103 {
        96
    } else
    if i == 104 {
        86
    } else
    if i == 105 {
        75
    } else
    if i == 106 {
        66
    } else
    if i == 107 {
        60
    } else
    if i == 108 {
        57
    } else
    if i == 109 {
        56
    } else
    if i == 110 {
        57
    } else
    if i == 111 {
        59
    } else
    if i == 112 {
        62
    } else
    if i == 113 {
        65
    } else
    if i == 114 {
        68
    } else
    if i == 115 {
        71
    } else
    if i == 116 {
        73
    } else
    if i == 117 {
        75
    } else
    if i == 118 {
        77
    } else
    if i == 119 {
        78
    } else
    if i == 120 {
        79
    } else
    if i == 121 {
        75
    } else
    if i == 122 {
        64
    } else
    if i == 123 {
        54
    } else
    if i == 124 {
        29
    } else
    if i == 125 {
        16
    } else
    if i == 126 {
        -10
    } else
    if i == 127 {
        -27
    } else
    if i == 128 {
        -36
    } else
    if i == 129 {
        -47
    } else
    if i == 130 {
        -54
    } else
    if i == 131 {
        -52
    } else
    if i == 132 {
        -55
    } else
    if i == 133 {
        -56
    } else
    if i == 134 {
        -58
    } else
    if i == 135 {
        -59
    } else
    if i == 136 {
        -62
    } else
    if i == 137 {
        -64
    } else
    if i == 138 {
        -61
    } else
    if i == 139 {
        -47
    } else
    if i == 140 {
        -27
    } else
    if i == 141 {
        0
    } else
    if i == 142 {
        26
    } else
    if i == 143 {
        54
    } else
    if i == 144 {
        77
    } else
    if i == 145 {
        105
    } else
    if i == 146 {
        134
    } else
    if i == 147 {
        160
    } else
    if i == 148 {
        182
    } else
    if i == 149 {
        202
    } else
    if i == 150 {
        212
    } else
    if i == 151 {
        224
    } else
    if i == 152 {
        235
    } else
    if i == 153 {
        239
    } else
    if i == 154 {
        243
    } else
    if i == 155 {
        240
    } else
    if i == 156 {
        239
    } else
    if i == 157 {
        239
    } else
    if i == 158 {
        237
    } else
    if i == 159 {
        240
    } else
    if i == 160 {
        243
    } else
    if i == 161 {
        253
    } else
    if i == 162 {
        262
    } else
    if i == 163 {
        273
    } else
    if i == 164 {
        282
    } else
    if i == 165 {
        291
    } else
    if i == 166 {
        300
    } else
    if i == 167 {
        307
    } else
    if i == 168 {
        314
    } else
    if i == 169 {
        322
    } else
    if i == 170 {
        331
    } else
    if i == 171 {
        340
    } else
    if i == 172 {
        350
    } else
    if i == 173 {
        365
    } else
    if i == 174 {
        383
    } else
    if i == 175 {
        402
    } else
    if i == 176 {
        422
    } else
    if i == 177 {
        445
    } else
    if i == 178 {
        465
    } else
    if i == 179 {
        485
    } else
    if i == 180 {
        505
    } else
    if i == 181 {
        522
    } else
    if i == 182 {
        538
    } else
    if i == 183 {
        549
    } else
    if i == 184 {
        558
    } else
    if i == 185 {
        569
    } else
    {
        583
    }
}

/// The biennial table entry, in tenths of a second.
pub fn biennial_entry_at(i: usize) -> (r: i64)
    requires
        i < 187,
    ensures
        r as int == biennial_entry(i as int),
        -70 <= r <= 1250,
{
    match i {
        0 => 1240,
        1 => 1150,
        2 => 1060,
        3 => 980,
        4 => 910,
        5 => 850,
        6 => 790,
        7 => 740,
        8 => 700,
        9 => 650,
        10 => 620,
        11 => 580,
        12 => 550,
        13 => 530,
        14 => 500,
        15 => 480,
        16 => 460,
        17 => 440,
        18 => 420,
        19 => 400,
        20 => 370,
        21 => 350,
        22 => 330,
        23 => 310,
        24 => 280,
        25 => 260,
        26 => 240,
        27 => 220,
        28 => 200,
        29 => 180,
        30 => 160,
        31 => 140,
        32 => 130,
        33 => 120,
        34 => 110,
        35 => 100,
        36 => 90,
        37 => 90,
        38 => 90,
        39 => 90,
        40 => 90,
        41 => 90,
        42 => 90,
        43 => 90,
        44 => 100,
        45 => 100,
        46 => 100,
        47 => 100,
        48 => 100,
        49 => 110,
        50 => 110,
        51 => 110,
        52 => 110,
        53 => 110,
        54 => 110,
        55 => 110,
        56 => 120,
        57 => 120,
        58 => 120,
        59 => 120,
        60 => 120,
        61 => 120,
        62 => 130,
        63 => 130,
        64 => 130,
        65 => 130,
        66 => 140,
        67 => 140,
        68 => 140,
        69 => 150,
        70 => 150,
        71 => 150,
        72 => 150,
        73 => 160,
        74 => 160,
        75 => 160,
        76 => 160,
        77 => 160,
        78 => 170,
        79 => 170,
        80 => 170,
        81 => 170,
        82 => 170,
        83 => 170,
        84 => 170,
        85 => 170,
        86 => 160,
        87 => 160,
        88 => 150,
        89 => 140,
        90 => 137,
        91 => 131,
        92 => 127,
        93 => 125,
        94 => 125,
        95 => 125,
        96 => 125,
        97 => 125,
        98 => 125,
        99 => 123,
        100 => 120,
        101 => 114,
        102 => 106,
        103 => 96,
        104 => 86,
        105 => 75,
        106 => 66,
        107 => 60,
        108 => 57,
        109 => 56,
        110 => 57,
        111 => 59,
        112 => 62,
        113 => 65,
        114 => 68,
        115 => 71,
        116 => 73,
        117 => 75,
        118 => 77,
        119 => 78,
        120 => 79,
        121 => 75,
        122 => 64,
        123 => 54,
        124 => 29,
        125 => 16,
        126 => -10,
        127 => -27,
        128 => -36,
        129 => -47,
        130 => -54,
        131 => -52,
        132 => -55,
        133 => -56,
        134 => -58,
        135 => -59,
        136 => -62,
        137 => -64,
        138 => -61,
        139 => -47,
        140 => -27,
        141 => 0,
        142 => 26,
        143 => 54,
        144 => 77,
        145 => 105,
        146 => 134,
        147 => 160,
        148 => 182,
        149 => 202,
        150 => 212,
        151 => 224,
        152 => 235,
        153 => 239,
        154 => 243,
        155 => 240,
        156 => 239,
        157 => 239,
        158 => 237,
        159 => 240,
        160 => 243,
        161 => 253,
        162 => 262,
        163 => 273,
        164 => 282,
        165 => 291,
        166 => 300,
        167 => 307,
        168 => 314,
        169 => 322,
        170 => 331,
        171 => 340,
        172 => 350,
        173 => 365,
        174 => 383,
        175 => 402,
        176 => 422,
        177 => 445,
        178 => 465,
        179 => 485,
        180 => 505,
        181 => 522,
        182 => 538,
        183 => 549,
        184 => 558,
        185 => 569,
        _ => 583,
    }
}

/// Annual observed ΔT 1992.0–2025.0 in hundredths of a second (IERS/USNO Bulletin A), entry `i` at year `1992 + i`.
pub open spec fn observed_entry(i: int) -> int {
    if i == 0 {
        5831
    } else
    if i == 1 {
        5912
    } else
    if i == 2 {
        5998
    } else
    if i == 3 {
        6078
    } else
    if i == 4 {
        6163
    } else
    if i == 5 {
        6230
    } else
    if i == 6 {
        6297
    } else
    if i == 7 {
        6347
    } else
    if i == 8 {
        6383
    } else
    if i == 9 {
        6409
    } else
    if i == 10 {
        6430
    } else
    if i == 11 {
        6447
    } else
    if i == 12 {
        6457
    } else
    if i == 13 {
        6469
    } else
    if i == 14 {
        6485
    } else
    if i == 15 {
        6515
    } else
    if i == 16 {
        6546
    } else
    if i == 17 {
        6578
    } else
    if i == 18 {
        6607
    } else
    if i == 19 {
        6632
    } else
    if i == 20 {
        6660
    } else
    if i == 21 {
        6691
    } else
    if i == 22 {
        6728
    } else
    if i == 23 {
        6764
    } else
    if i == 24 {
        6810
    } else
    if i == 25 {
        6859
    } else
    if i == 26 {
        6897
    } else
    if i == 27 {
        6922
    } else
    if i == 28 {
        6936
    } else
    if i == 29 {
        6936
    } else
    if i == 30 {
        6929
    } else
    if i == 31 {
        6918
    } else
    if i == 32 {
        6909
    } else
    {
        6936
    }
}

/// The observed annual entry, in hundredths of a second.
pub fn observed_entry_at(i: usize) -> (r: i64)
    requires
        i < 34,
    ensures
        r as int == observed_entry(i as int),
        5800 <= r <= 7000,
{
    match i {
        0 => 5831,
        1 => 5912,
        2 => 5998,
        3 => 6078,
        4 => 6163,
        5 => 6230,
        6 => 6297,
        7 => 6347,
        8 => 6383,
        9 => 6409,
        10 => 6430,
        11 => 6447,
        12 => 6457,
        13 => 6469,
        14 => 6485,
        15 => 6515,
        16 => 6546,
        17 => 6578,
        18 => 6607,
        19 => 6632,
        20 => 6660,
        21 => 6691,
        22 => 6728,
        23 => 6764,
        24 => 6810,
        25 => 6859,
        26 => 6897,
        27 => 6922,
        28 => 6936,
        29 => 6936,
        30 => 6929,
        31 => 6918,
        32 => 6909,
        _ => 6936,
    }
}

/// A quadratic `a0 + a1 c + a2 c^2` (coefficients in picoseconds) in the
/// Julian centuries `c` from `epoch`, held at femtocentury resolution.
pub open spec fn early_quadratic_model(jd: int, epoch: int, a0: int, a1: int, a2: int) -> int {
    let c = (jd - epoch) / CENT_FDIV as int;
    a0 + a1 * c / FEMTO as int + a2 * c / FEMTO as int * c / FEMTO as int
}

/// ΔT before 948 CE: `1830 - 405 c + 46.5 c^2` seconds, with `c` the
/// Julian centuries from the 948 epoch.
pub open spec fn delta_t_ancient_model(jd: int) -> int {
    early_quadratic_model(jd, JD_948_PS as int, 1_830 * PS_PER_SEC, -405 * PS_PER_SEC, 465 * DS_PS)
}

/// ΔT for 948–1600 CE: `22.5 c^2` seconds, with `c` the Julian centuries
/// from 1850.
pub open spec fn delta_t_medieval_model(jd: int) -> int {
    early_quadratic_model(jd, JD_1850_PS as int, 0, 0, 225 * DS_PS)
}

/// ΔT for 1600–1992: 3-point Newton-Gregory forward-difference
/// interpolation over the biennial table, the index clamped so that
/// `i + 2` stays inside the table.
pub open spec fn delta_t_table_model(jd: int) -> int {
    let raw = (jd - TABLE_START_PS) / BIENNIAL_STEP_PS as int;
    let i = if raw < 0 { 0int } else if raw > 184 { 184int } else { raw };
    let a = (biennial_entry(i + 1) - biennial_entry(i)) * DS_PS;
    let b = (biennial_entry(i + 2) - biennial_entry(i + 1)) * DS_PS;
    let cc = a - b;
    let n = (jd - (TABLE_START_PS + BIENNIAL_STEP_PS * i)) * FEMTO / BIENNIAL_STEP_PS as int;
    biennial_entry(i + 1) * DS_PS + n * (a + b + n * cc / FEMTO as int) / (2 * FEMTO) as int
}

/// The observed-annual interpolation as a function of the year position
/// (in `10^-14`-year units since 1992.0): linear between annual values,
/// held at the last entry from the table's end on.
pub open spec fn observed_at_year(y: int) -> int {
    let idx = if y < 0 { 0int } else { y / YEAR_FRAC as int };
    let frac = if y < 0 { y } else { y % YEAR_FRAC as int };
    if idx + 1 >= 34 {
        observed_entry(33) * CS_PS
    } else {
        observed_entry(idx) * CS_PS + frac * ((observed_entry(idx + 1) - observed_entry(idx))
            * CS_PS) / YEAR_FRAC as int
    }
}

/// ΔT for 1992–2026: linear interpolation between annual observed values,
/// the year position held at `10^-14`-year resolution.
pub open spec fn delta_t_observed_model(jd: int) -> int {
    observed_at_year((jd - OBS_BASE_PS) / YEAR_FDIV as int)
}

/// ΔT past 2026.0: the last observed value plus 0.02 s per year.
pub open spec fn delta_t_extrapolated_model(jd: int) -> int {
    let y = (jd - JD_2026_PS) / YEAR_FDIV as int;
    observed_entry(33) * CS_PS + y * EXTRAP_RATE_PS / YEAR_FRAC as int
}

/// The piecewise ΔT model, dispatched on the five epoch ranges.
pub open spec fn delta_t_model(jd: int) -> int {
    if jd < JD_948_PS {
        delta_t_ancient_model(jd)
    } else if jd < JD_1600_PS {
        delta_t_medieval_model(jd)
    } else if jd < JD_1992_PS {
        delta_t_table_model(jd)
    } else if jd < JD_2026_PS {
        delta_t_observed_model(jd)
    } else {
        delta_t_extrapolated_model(jd)
    }
}

/// The quadratic of the two early regimes, over an epoch and polynomial
/// coefficients in picoseconds: computes `a0 + a1 c + a2 c^2` at
/// femtocentury resolution, and shows the result stays within the model
/// bound.
fn early_quadratic(jd: Days, epoch: i128, a0: i128, a1: i128, a2: i128) -> (r: i128)
    requires
        in_dt_domain(jd@),
        -230_000_000_000_000_000_000_000 <= epoch <= 230_000_000_000_000_000_000_000,
        0 <= a0 <= 2_000 * PS_PER_SEC,
        -500 * PS_PER_SEC <= a1 <= 500 * PS_PER_SEC,
        0 <= a2 <= 50 * PS_PER_SEC,
    ensures
        r as int == early_quadratic_model(jd@, epoch as int, a0 as int, a1 as int, a2 as int),
        -DT_BOUND_PS < r < DT_BOUND_PS,
{
    proof {
        lemma_div_abs_bound(
            jd@ - epoch,
            CENT_FDIV as int,
            2_000_000_000_000_000_000_000_000,
            640_000_000_000_000_000,
        );
    }
    let c: i128 = div_floor(jd.ps() - epoch, CENT_FDIV);
    proof {
        assert(-320_000_000_000_000_000_000_000_000_000_000 <= a1 * c
            <= 320_000_000_000_000_000_000_000_000_000_000) by (nonlinear_arith)
            requires
                -500_000_000_000_000 <= a1 <= 500_000_000_000_000,
                -640_000_000_000_000_000 <= c <= 640_000_000_000_000_000,
        ;
        assert(-32_000_000_000_000_000_000_000_000_000_000 <= a2 * c
            <= 32_000_000_000_000_000_000_000_000_000_000) by (nonlinear_arith)
            requires
                0 <= a2 <= 50_000_000_000_000,
                -640_000_000_000_000_000 <= c <= 640_000_000_000_000_000,
        ;
        lemma_div_abs_bound(
            a1 * c,
            FEMTO as int,
            320_000_000_000_000_000_000_000_000_000_000,
            330_000_000_000_000_000,
        );
        lemma_div_abs_bound(
            a2 * c,
            FEMTO as int,
            32_000_000_000_000_000_000_000_000_000_000,
            33_000_000_000_000_000,
        );
    }
    let lin: i128 = div_floor(a1 * c, FEMTO);
    let q1: i128 = div_floor(a2 * c, FEMTO);
    proof {
        assert(-21_120_000_000_000_000_000_000_000_000_000_000 <= q1 * c
            <= 21_120_000_000_000_000_000_000_000_000_000_000) by (nonlinear_arith)
            requires
                -33_000_000_000_000_000 <= q1 <= 33_000_000_000_000_000,
                -640_000_000_000_000_000 <= c <= 640_000_000_000_000_000,
        ;
        lemma_div_abs_bound(
            q1 * c,
            FEMTO as int,
            21_120_000_000_000_000_000_000_000_000_000_000,
            21_200_000_000_000_000_000,
        );
    }
    let quad: i128 = div_floor(q1 * c, FEMTO);
    a0 + lin + quad
}

/// ΔT before 948 CE (Stephenson & Houlden 1986).
pub fn delta_t_ancient(jd: Days) -> (r: Days)
    requires
        in_dt_domain(jd@),
    ensures
        r@ == delta_t_ancient_model(jd@),
        -DT_BOUND_PS < r@ < DT_BOUND_PS,
{
    Days::from_ps(
        early_quadratic(jd, JD_948_PS, 1_830 * PS_PER_SEC, -405 * PS_PER_SEC, 465 * DS_PS),
    )
}

/// ΔT for 948–1600 CE (Stephenson & Houlden 1986).
pub fn delta_t_medieval(jd: Days) -> (r: Days)
    requires
        in_dt_domain(jd@),
    ensures
        r@ == delta_t_medieval_model(jd@),
        -DT_BOUND_PS < r@ < DT_BOUND_PS,
{
    Days::from_ps(early_quadratic(jd, JD_1850_PS, 0, 0, 225 * DS_PS))
}

/// ΔT for 1600–1992, interpolated from the biennial table.
pub fn delta_t_table(jd: Days) -> (r: Days)
    requires
        JD_1600_PS <= jd@ < JD_1992_PS,
    ensures
        r@ == delta_t_table_model(jd@),
        -DT_BOUND_PS < r@ < DT_BOUND_PS,
{
    proof {
        lemma_div_abs_bound(
            jd@ - TABLE_START_PS,
            BIENNIAL_STEP_PS as int,
            12_000_000_000_000_000_000_000,
            200,
        );
    }
    let raw: i128 = div_floor(jd.ps() - TABLE_START_PS, BIENNIAL_STEP_PS);
    let i: usize = if raw < 0 {
        0
    } else if raw > 184 {
        184
    } else {
        raw as usize
    };
    let t0: i64 = biennial_entry_at(i);
    let t1: i64 = biennial_entry_at(i + 1);
    let t2: i64 = biennial_entry_at(i + 2);
    let a: i128 = (t1 - t0) as i128 * DS_PS;
    let b: i128 = (t2 - t1) as i128 * DS_PS;
    let cc: i128 = a - b;
    let ii: i128 = i as i128;
    proof {
        assert(0 <= BIENNIAL_STEP_PS * ii <= 184 * 63_115_200_000_000_000_000) by (nonlinear_arith)
            requires
                0 <= ii <= 184,
                BIENNIAL_STEP_PS == 63_115_200_000_000_000_000,
        ;
    }
    let base: i128 = TABLE_START_PS + BIENNIAL_STEP_PS * ii;
    proof {
        lemma_div_abs_bound(
            (jd@ - base) * FEMTO,
            BIENNIAL_STEP_PS as int,
            13_000_000_000_000_000_000_000_000_000_000_000_000,
            210_000_000_000_000_000,
        );
    }
    let n: i128 = div_floor((jd.ps() - base) * FEMTO, BIENNIAL_STEP_PS);
    proof {
        assert(-56_000_000_000_000_000_000_000_000_000_000 <= n * cc
            <= 56_000_000_000_000_000_000_000_000_000_000) by (nonlinear_arith)
            requires
                -210_000_000_000_000_000 <= n <= 210_000_000_000_000_000,
                -264_000_000_000_000 <= cc <= 264_000_000_000_000,
        ;
        lemma_div_abs_bound(
            n * cc,
            FEMTO as int,
            56_000_000_000_000_000_000_000_000_000_000,
            57_000_000_000_000_000,
        );
    }
    let nc: i128 = div_floor(n * cc, FEMTO);
    let inner: i128 = a + b + nc;
    proof {
        assert(-12_100_000_000_000_000_000_000_000_000_000_000 <= n * inner
            <= 12_100_000_000_000_000_000_000_000_000_000_000) by (nonlinear_arith)
            requires
                -210_000_000_000_000_000 <= n <= 210_000_000_000_000_000,
                -57_528_000_000_000_000 <= inner <= 57_528_000_000_000_000,
        ;
        lemma_div_abs_bound(
            n * inner,
            (2 * FEMTO) as int,
            12_100_000_000_000_000_000_000_000_000_000_000,
            6_100_000_000_000_000_000,
        );
    }
    let half: i128 = div_floor(n * inner, 2 * FEMTO);
    Days::from_ps(t1 as i128 * DS_PS + half)
}

/// ΔT for 1992–2026, interpolated from the annual observed table.
pub fn delta_t_observed(jd: Days) -> (r: Days)
    requires
        JD_1992_PS <= jd@ < JD_2026_PS,
    ensures
        r@ == delta_t_observed_model(jd@),
        -DT_BOUND_PS < r@ < DT_BOUND_PS,
{
    proof {
        lemma_div_abs_bound(
            jd@ - OBS_BASE_PS,
            YEAR_FDIV as int,
            1_080_000_000_000_000_000_000,
            3_500_000_000_000_000,
        );
    }
    let y: i128 = div_floor(jd.ps() - OBS_BASE_PS, YEAR_FDIV);
    if y < 0 {
        let t0: i64 = observed_entry_at(0);
        let t1: i64 = observed_entry_at(1);
        let diff: i128 = (t1 - t0) as i128 * CS_PS;
        proof {
            assert(-42_350_000_000_000_000_000_000_000_000 <= y * diff
                <= 42_350_000_000_000_000_000_000_000_000) by (nonlinear_arith)
                requires
                    -3_500_000_000_000_000 <= y <= 0,
                    -12_100_000_000_000 <= diff <= 12_100_000_000_000,
            ;
            lemma_div_abs_bound(
                y * diff,
                YEAR_FRAC as int,
                42_350_000_000_000_000_000_000_000_000,
                430_000_000_000_000,
            );
        }
        let part: i128 = div_floor(y * diff, YEAR_FRAC);
        Days::from_ps(t0 as i128 * CS_PS + part)
    } else {
        let q: i128 = div_floor(y, YEAR_FRAC);
        let frac: i128 = mod_floor(y, YEAR_FRAC);
        if q + 1 >= 34 {
            Days::from_ps(observed_entry_at(33) as i128 * CS_PS)
        } else {
            proof {
                vstd::arithmetic::div_mod::lemma_div_is_ordered(0, y as int, YEAR_FRAC as int);
            }
            let idx: usize = q as usize;
            let t0: i64 = observed_entry_at(idx);
            let t1: i64 = observed_entry_at(idx + 1);
            let diff: i128 = (t1 - t0) as i128 * CS_PS;
            proof {
                assert(-1_210_000_000_000_000_000_000_000_000 <= frac * diff
                    <= 1_210_000_000_000_000_000_000_000_000) by (nonlinear_arith)
                    requires
                        0 <= frac <= 100_000_000_000_000,
                        -12_100_000_000_000 <= diff <= 12_100_000_000_000,
                ;
                lemma_div_abs_bound(
                    frac * diff,
                    YEAR_FRAC as int,
                    1_210_000_000_000_000_000_000_000_000,
                    12_200_000_000_000,
                );
            }
            let part: i128 = div_floor(frac * diff, YEAR_FRAC);
            Days::from_ps(t0 as i128 * CS_PS + part)
        }
    }
}

/// ΔT past 2026.0, extrapolated linearly.
pub fn delta_t_extrapolated(jd: Days) -> (r: Days)
    requires
        JD_2026_PS <= jd@,
        in_dt_domain(jd@),
    ensures
        r@ == delta_t_extrapolated_model(jd@),
        -DT_BOUND_PS < r@ < DT_BOUND_PS,
{
    proof {
        lemma_div_abs_bound(
            jd@ - JD_2026_PS,
            YEAR_FDIV as int,
            1_600_000_000_000_000_000_000_000,
            5_100_000_000_000_000_000,
        );
    }
    let y: i128 = div_floor(jd.ps() - JD_2026_PS, YEAR_FDIV);
    proof {
        lemma_div_abs_bound(
            y * EXTRAP_RATE_PS,
            YEAR_FRAC as int,
            102_000_000_000_000_000_000_000_000_000,
            1_100_000_000_000_000,
        );
    }
    let grow: i128 = div_floor(y * EXTRAP_RATE_PS, YEAR_FRAC);
    Days::from_ps(observed_entry_at(33) as i128 * CS_PS + grow)
}

/// Returns ΔT for a Julian Day on the **UT** axis, dispatching on the
/// five epoch regimes.
pub fn delta_t_seconds_from_ut(jd_ut: Days) -> (r: Days)
    requires
        in_dt_domain(jd_ut@),
    ensures
        r@ == delta_t_model(jd_ut@),
        -DT_BOUND_PS < r@ < DT_BOUND_PS,
{
    if jd_ut.ps() < JD_948_PS {
        delta_t_ancient(jd_ut)
    } else if jd_ut.ps() < JD_1600_PS {
        delta_t_medieval(jd_ut)
    } else if jd_ut.ps() < JD_1992_PS {
        delta_t_table(jd_ut)
    } else if jd_ut.ps() < JD_2026_PS {
        delta_t_observed(jd_ut)
    } else {
        delta_t_extrapolated(jd_ut)
    }
}

impl Time<UT> {
    /// Returns ΔT = TT − UT for this UT epoch; the same correction is
    /// applied by the conversion to any TT-based scale.
    pub fn delta_t(&self) -> (r: Days)
        requires
            in_dt_domain(self@),
        ensures
            r@ == delta_t_model(self@),
    {
        delta_t_seconds_from_ut(self.quantity())
    }
}

} // verus!
