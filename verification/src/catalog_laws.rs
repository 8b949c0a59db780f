//! Laws of the capability catalog: no id and no wire name occurs twice,
//! and looking an id up finds its entry.
//!
//! Each id is told apart by its length and three of its characters counted
//! from the end; each wire name by its length and one character. The tables
//! below give those features per catalog position, and the proofs read them
//! off the literals.

use vstd::prelude::*;

use crate::capabilities::{catalog_view, find_first, find_from, has_id, CapabilityView, CATALOG_LEN};

verus! {

/// The character `p` places before the end of `s`, as a number; -1 where
/// `s` is too short.
pub open spec fn char_from_end(s: Seq<char>, p: int) -> int {
    if 0 <= p < s.len() {
        s[s.len() - 1 - p] as int
    } else {
        -1
    }
}

/// Features that tell every catalog id apart.
pub open spec fn id_features(s: Seq<char>) -> (int, int, int, int) {
    (s.len() as int, char_from_end(s, 8), char_from_end(s, 1), char_from_end(s, 10))
}

/// Features that tell every wire name apart.
pub open spec fn wire_features(s: Seq<char>) -> (int, int) {
    (s.len() as int, char_from_end(s, 3))
}

/// The id features of the catalog entry at `i`.
spec fn id_features_at(i: int) -> (int, int, int, int) {
    if i == 0 {
        (13int, 46int, 97int, 115int)
    } else if i == 1 {
        (17int, 111int, 114int, 115int)
    } else if i == 2 {
        (19int, 115int, 115int, 111int)
    } else if i == 3 {
        (17int, 102int, 97int, 101int)
    } else if i == 4 {
        (18int, 105int, 116int, 46int)
    } else if i == 5 {
        (22int, 110int, 116int, 116int)
    } else if i == 6 {
        (18int, 117int, 97int, 46int)
    } else if i == 7 {
        (14int, 46int, 108int, 101int)
    } else if i == 8 {
        (13int, 115int, 110int, 99int)
    } else if i == 9 {
        (16int, 115int, 98int, 115int)
    } else if i == 10 {
        (18int, 115int, 98int, 117int)
    } else if i == 11 {
        (12int, 112int, 97int, 105int)
    } else if i == 12 {
        (13int, 97int, 115int, 46int)
    } else if i == 13 {
        (17int, 103int, 114int, 108int)
    } else if i == 14 {
        (13int, 112int, 122int, 95int)
    } else if i == 15 {
        (22int, 115int, 101int, 111int)
    } else if i == 16 {
        (16int, 115int, 101int, 99int)
    } else if i == 17 {
        (21int, 121int, 101int, 105int)
    } else if i == 18 {
        (18int, 101int, 101int, 97int)
    } else if i == 19 {
        (10int, 110int, 110int, -1int)
    } else if i == 20 {
        (9int, 111int, 109int, -1int)
    } else if i == 21 {
        (7int, -1int, 105int, -1int)
    } else if i == 22 {
        (13int, 111int, 114int, 95int)
    } else if i == 23 {
        (12int, 119int, 116int, 101int)
    } else if i == 24 {
        (20int, 116int, 97int, 99int)
    } else if i == 25 {
        (11int, 95int, 111int, 111int)
    } else if i == 26 {
        (18int, 105int, 115int, 97int)
    } else if i == 27 {
        (19int, 111int, 97int, 116int)
    } else if i == 28 {
        (25int, 115int, 115int, 115int)
    } else if i == 29 {
        (25int, 97int, 101int, 110int)
    } else if i == 30 {
        (21int, 111int, 97int, 112int)
    } else if i == 31 {
        (8int, -1int, 110int, -1int)
    } else if i == 32 {
        (14int, 99int, 103int, 105int)
    } else if i == 33 {
        (11int, 99int, 115int, 105int)
    } else if i == 34 {
        (14int, 99int, 115int, 105int)
    } else if i == 35 {
        (13int, 97int, 115int, 99int)
    } else if i == 36 {
        (25int, 97int, 97int, 115int)
    } else if i == 37 {
        (24int, 98int, 97int, 101int)
    } else if i == 38 {
        (21int, 112int, 97int, 109int)
    } else if i == 39 {
        (24int, 101int, 97int, 104int)
    } else if i == 40 {
        (23int, 114int, 97int, 116int)
    } else if i == 41 {
        (29int, 46int, 116int, 101int)
    } else if i == 42 {
        (22int, 118int, 97int, 46int)
    } else if i == 43 {
        (23int, 101int, 97int, 101int)
    } else if i == 44 {
        (26int, 105int, 97int, 97int)
    } else if i == 45 {
        (22int, 116int, 97int, 46int)
    } else if i == 46 {
        (25int, 105int, 97int, 99int)
    } else if i == 47 {
        (24int, 115int, 110int, 101int)
    } else if i == 48 {
        (25int, 97int, 108int, 115int)
    } else if i == 49 {
        (24int, 101int, 108int, 104int)
    } else if i == 50 {
        (24int, 115int, 105int, 101int)
    } else if i == 51 {
        (26int, 103int, 99int, 115int)
    } else if i == 52 {
        (27int, 109int, 110int, 99int)
    } else if i == 53 {
        (22int, 118int, 110int, 46int)
    } else if i == 54 {
        (22int, 97int, 116int, 98int)
    } else if i == 55 {
        (15int, 46int, 101int, 99int)
    } else if i == 56 {
        (17int, 105int, 99int, 46int)
    } else if i == 57 {
        (17int, 105int, 118int, 46int)
    } else if i == 58 {
        (24int, 99int, 114int, 112int)
    } else if i == 59 {
        (12int, 105int, 114int, 101int)
    } else if i == 60 {
        (17int, 104int, 108int, 46int)
    } else if i == 61 {
        (17int, 117int, 99int, 46int)
    } else if i == 62 {
        (21int, 105int, 97int, 109int)
    } else if i == 63 {
        (23int, 114int, 97int, 117int)
    } else if i == 64 {
        (29int, 118int, 97int, 108int)
    } else if i == 65 {
        (23int, 110int, 116int, 108int)
    } else if i == 66 {
        (26int, 115int, 97int, 99int)
    } else if i == 67 {
        (20int, 111int, 101int, 110int)
    } else if i == 68 {
        (22int, 100int, 101int, 101int)
    } else if i == 69 {
        (20int, 115int, 101int, 105int)
    } else if i == 70 {
        (19int, 102int, 97int, 114int)
    } else if i == 71 {
        (18int, 101int, 101int, 105int)
    } else if i == 72 {
        (16int, 105int, 97int, 101int)
    } else if i == 73 {
        (19int, 97int, 97int, 115int)
    } else if i == 74 {
        (18int, 107int, 101int, 111int)
    } else if i == 75 {
        (21int, 101int, 101int, 97int)
    } else if i == 76 {
        (21int, 97int, 114int, 101int)
    } else if i == 77 {
        (24int, 110int, 114int, 104int)
    } else if i == 78 {
        (26int, 118int, 97int, 100int)
    } else if i == 79 {
        (24int, 105int, 97int, 116int)
    } else if i == 80 {
        (24int, 100int, 97int, 116int)
    } else if i == 81 {
        (27int, 111int, 97int, 103int)
    } else if i == 82 {
        (23int, 97int, 101int, 97int)
    } else if i == 83 {
        (31int, 95int, 101int, 97int)
    } else if i == 84 {
        (25int, 118int, 101int, 46int)
    } else if i == 85 {
        (22int, 103int, 101int, 46int)
    } else if i == 86 {
        (25int, 97int, 116int, 46int)
    } else if i == 87 {
        (24int, 102int, 97int, 114int)
    } else if i == 88 {
        (19int, 114int, 110int, 115int)
    } else if i == 89 {
        (18int, 101int, 99int, 117int)
    } else if i == 90 {
        (25int, 101int, 97int, 101int)
    } else if i == 91 {
        (15int, 109int, 103int, 111int)
    } else if i == 92 {
        (23int, 101int, 101int, 97int)
    } else if i == 93 {
        (16int, 95int, 111int, 111int)
    } else if i == 94 {
        (13int, 111int, 110int, 95int)
    } else if i == 95 {
        (13int, 111int, 116int, 95int)
    } else if i == 96 {
        (14int, 111int, 110int, 114int)
    } else if i == 97 {
        (15int, 109int, 112int, 111int)
    } else if i == 98 {
        (23int, 115int, 101int, 101int)
    } else if i == 99 {
        (15int, 109int, 111int, 111int)
    } else if i == 100 {
        (27int, 111int, 108int, 116int)
    } else if i == 101 {
        (23int, 112int, 110int, 116int)
    } else if i == 102 {
        (24int, 101int, 110int, 101int)
    } else if i == 103 {
        (26int, 118int, 110int, 95int)
    } else if i == 104 {
        (26int, 118int, 97int, 95int)
    } else if i == 105 {
        (17int, 97int, 110int, 109int)
    } else if i == 106 {
        (19int, 109int, 101int, 111int)
    } else if i == 107 {
        (24int, 111int, 101int, 97int)
    } else if i == 108 {
        (28int, 111int, 101int, 114int)
    } else if i == 109 {
        (22int, 110int, 101int, 46int)
    } else if i == 110 {
        (22int, 116int, 110int, 46int)
    } else if i == 111 {
        (29int, 100int, 97int, 116int)
    } else if i == 112 {
        (30int, 97int, 116int, 95int)
    } else if i == 113 {
        (23int, 118int, 110int, 105int)
    } else if i == 114 {
        (21int, 46int, 97int, 105int)
    } else if i == 115 {
        (17int, 101int, 118int, 46int)
    } else if i == 116 {
        (18int, 100int, 114int, 109int)
    } else if i == 117 {
        (24int, 97int, 97int, 97int)
    } else if i == 118 {
        (29int, 118int, 97int, 114int)
    } else if i == 119 {
        (19int, 105int, 97int, 101int)
    } else if i == 120 {
        (18int, 95int, 115int, 97int)
    } else if i == 121 {
        (17int, 111int, 115int, 46int)
    } else if i == 122 {
        (19int, 109int, 99int, 111int)
    } else if i == 123 {
        (25int, 105int, 115int, 110int)
    } else if i == 124 {
        (25int, 118int, 97int, 114int)
    } else if i == 125 {
        (16int, 115int, 101int, 111int)
    } else if i == 126 {
        (18int, 95int, 101int, 116int)
    } else if i == 127 {
        (24int, 115int, 101int, 97int)
    } else if i == 128 {
        (22int, 105int, 97int, 115int)
    } else if i == 129 {
        (26int, 97int, 97int, 115int)
    } else if i == 130 {
        (16int, 115int, 103int, 111int)
    } else if i == 131 {
        (25int, 115int, 110int, 101int)
    } else if i == 132 {
        (17int, 111int, 105int, 46int)
    } else if i == 133 {
        (22int, 115int, 110int, 116int)
    } else if i == 134 {
        (19int, 114int, 101int, 115int)
    } else if i == 135 {
        (17int, 111int, 118int, 46int)
    } else if i == 136 {
        (19int, 109int, 116int, 111int)
    } else if i == 137 {
        (18int, 97int, 115int, 115int)
    } else if i == 138 {
        (22int, 105int, 97int, 101int)
    } else if i == 139 {
        (23int, 111int, 115int, 46int)
    } else if i == 140 {
        (16int, 101int, 101int, 97int)
    } else if i == 141 {
        (13int, 46int, 111int, 115int)
    } else if i == 142 {
        (14int, 110int, 110int, 116int)
    } else if i == 143 {
        (15int, 97int, 97int, 46int)
    } else if i == 144 {
        (13int, 46int, 101int, 115int)
    } else if i == 145 {
        (14int, 110int, 99int, 116int)
    } else if i == 146 {
        (15int, 97int, 101int, 46int)
    } else if i == 147 {
        (13int, 46int, 110int, 115int)
    } else if i == 148 {
        (12int, 116int, 112int, 111int)
    } else if i == 149 {
        (20int, 101int, 114int, 111int)
    } else if i == 150 {
        (22int, 46int, 116int, 101int)
    } else if i == 151 {
        (20int, 117int, 122int, 101int)
    } else if i == 152 {
        (16int, 46int, 100int, 110int)
    } else if i == 153 {
        (16int, 46int, 122int, 110int)
    } else if i == 154 {
        (17int, 98int, 117int, 101int)
    } else if i == 155 {
        (17int, 115int, 108int, 101int)
    } else if i == 156 {
        (17int, 115int, 103int, 101int)
    } else if i == 157 {
        (16int, 115int, 115int, 99int)
    } else if i == 158 {
        (15int, 114int, 97int, 46int)
    } else if i == 159 {
        (15int, 104int, 97int, 46int)
    } else if i == 160 {
        (16int, 115int, 101int, 101int)
    } else if i == 161 {
        (16int, 101int, 101int, 101int)
    } else if i == 162 {
        (22int, 109int, 101int, 111int)
    } else if i == 163 {
        (21int, 110int, 101int, 105int)
    } else if i == 164 {
        (9int, 111int, 99int, -1int)
    } else if i == 165 {
        (11int, 112int, 103int, 97int)
    } else if i == 166 {
        (18int, 97int, 118int, 115int)
    } else if i == 167 {
        (21int, 111int, 103int, 115int)
    } else if i == 168 {
        (18int, 111int, 118int, 114int)
    } else if i == 169 {
        (21int, 97int, 114int, 109int)
    } else if i == 170 {
        (33int, 99int, 114int, 100int)
    } else if i == 171 {
        (28int, 101int, 101int, 95int)
    } else if i == 172 {
        (17int, 112int, 101int, 111int)
    } else if i == 173 {
        (16int, 111int, 110int, 109int)
    } else if i == 174 {
        (14int, 112int, 101int, 116int)
    } else if i == 175 {
        (16int, 99int, 97int, 99int)
    } else if i == 176 {
        (18int, 99int, 111int, 46int)
    } else if i == 177 {
        (21int, 118int, 110int, 100int)
    } else if i == 178 {
        (25int, 112int, 101int, 46int)
    } else {
        (0int, 0int, 0int, 0int)
    }
}

/// The catalog position whose id has features `f`.
spec fn position_of_id_features(f: (int, int, int, int)) -> int {
    if f == (13int, 46int, 97int, 115int) {
        0
    } else if f == (17int, 111int, 114int, 115int) {
        1
    } else if f == (19int, 115int, 115int, 111int) {
        2
    } else if f == (17int, 102int, 97int, 101int) {
        3
    } else if f == (18int, 105int, 116int, 46int) {
        4
    } else if f == (22int, 110int, 116int, 116int) {
        5
    } else if f == (18int, 117int, 97int, 46int) {
        6
    } else if f == (14int, 46int, 108int, 101int) {
        7
    } else if f == (13int, 115int, 110int, 99int) {
        8
    } else if f == (16int, 115int, 98int, 115int) {
        9
    } else if f == (18int, 115int, 98int, 117int) {
        10
    } else if f == (12int, 112int, 97int, 105int) {
        11
    } else if f == (13int, 97int, 115int, 46int) {
        12
    } else if f == (17int, 103int, 114int, 108int) {
        13
    } else if f == (13int, 112int, 122int, 95int) {
        14
    } else if f == (22int, 115int, 101int, 111int) {
        15
    } else if f == (16int, 115int, 101int, 99int) {
        16
    } else if f == (21int, 121int, 101int, 105int) {
        17
    } else if f == (18int, 101int, 101int, 97int) {
        18
    } else if f == (10int, 110int, 110int, -1int) {
        19
    } else if f == (9int, 111int, 109int, -1int) {
        20
    } else if f == (7int, -1int, 105int, -1int) {
        21
    } else if f == (13int, 111int, 114int, 95int) {
        22
    } else if f == (12int, 119int, 116int, 101int) {
        23
    } else if f == (20int, 116int, 97int, 99int) {
        24
    } else if f == (11int, 95int, 111int, 111int) {
        25
    } else if f == (18int, 105int, 115int, 97int) {
        26
    } else if f == (19int, 111int, 97int, 116int) {
        27
    } else if f == (25int, 115int, 115int, 115int) {
        28
    } else if f == (25int, 97int, 101int, 110int) {
        29
    } else if f == (21int, 111int, 97int, 112int) {
        30
    } else if f == (8int, -1int, 110int, -1int) {
        31
    } else if f == (14int, 99int, 103int, 105int) {
        32
    } else if f == (11int, 99int, 115int, 105int) {
        33
    } else if f == (14int, 99int, 115int, 105int) {
        34
    } else if f == (13int, 97int, 115int, 99int) {
        35
    } else if f == (25int, 97int, 97int, 115int) {
        36
    } else if f == (24int, 98int, 97int, 101int) {
        37
    } else if f == (21int, 112int, 97int, 109int) {
        38
    } else if f == (24int, 101int, 97int, 104int) {
        39
    } else if f == (23int, 114int, 97int, 116int) {
        40
    } else if f == (29int, 46int, 116int, 101int) {
        41
    } else if f == (22int, 118int, 97int, 46int) {
        42
    } else if f == (23int, 101int, 97int, 101int) {
        43
    } else if f == (26int, 105int, 97int, 97int) {
        44
    } else if f == (22int, 116int, 97int, 46int) {
        45
    } else if f == (25int, 105int, 97int, 99int) {
        46
    } else if f == (24int, 115int, 110int, 101int) {
        47
    } else if f == (25int, 97int, 108int, 115int) {
        48
    } else if f == (24int, 101int, 108int, 104int) {
        49
    } else if f == (24int, 115int, 105int, 101int) {
        50
    } else if f == (26int, 103int, 99int, 115int) {
        51
    } else if f == (27int, 109int, 110int, 99int) {
        52
    } else if f == (22int, 118int, 110int, 46int) {
        53
    } else if f == (22int, 97int, 116int, 98int) {
        54
    } else if f == (15int, 46int, 101int, 99int) {
        55
    } else if f == (17int, 105int, 99int, 46int) {
        56
    } else if f == (17int, 105int, 118int, 46int) {
        57
    } else if f == (24int, 99int, 114int, 112int) {
        58
    } else if f == (12int, 105int, 114int, 101int) {
        59
    } else if f == (17int, 104int, 108int, 46int) {
        60
    } else if f == (17int, 117int, 99int, 46int) {
        61
    } else if f == (21int, 105int, 97int, 109int) {
        62
    } else if f == (23int, 114int, 97int, 117int) {
        63
    } else if f == (29int, 118int, 97int, 108int) {
        64
    } else if f == (23int, 110int, 116int, 108int) {
        65
    } else if f == (26int, 115int, 97int, 99int) {
        66
    } else if f == (20int, 111int, 101int, 110int) {
        67
    } else if f == (22int, 100int, 101int, 101int) {
        68
    } else if f == (20int, 115int, 101int, 105int) {
        69
    } else if f == (19int, 102int, 97int, 114int) {
        70
    } else if f == (18int, 101int, 101int, 105int) {
        71
    } else if f == (16int, 105int, 97int, 101int) {
        72
    } else if f == (19int, 97int, 97int, 115int) {
        73
    } else if f == (18int, 107int, 101int, 111int) {
        74
    } else if f == (21int, 101int, 101int, 97int) {
        75
    } else if f == (21int, 97int, 114int, 101int) {
        76
    } else if f == (24int, 110int, 114int, 104int) {
        77
    } else if f == (26int, 118int, 97int, 100int) {
        78
    } else if f == (24int, 105int, 97int, 116int) {
        79
    } else if f == (24int, 100int, 97int, 116int) {
        80
    } else if f == (27int, 111int, 97int, 103int) {
        81
    } else if f == (23int, 97int, 101int, 97int) {
        82
    } else if f == (31int, 95int, 101int, 97int) {
        83
    } else if f == (25int, 118int, 101int, 46int) {
        84
    } else if f == (22int, 103int, 101int, 46int) {
        85
    } else if f == (25int, 97int, 116int, 46int) {
        86
    } else if f == (24int, 102int, 97int, 114int) {
        87
    } else if f == (19int, 114int, 110int, 115int) {
        88
    } else if f == (18int, 101int, 99int, 117int) {
        89
    } else if f == (25int, 101int, 97int, 101int) {
        90
    } else if f == (15int, 109int, 103int, 111int) {
        91
    } else if f == (23int, 101int, 101int, 97int) {
        92
    } else if f == (16int, 95int, 111int, 111int) {
        93
    } else if f == (13int, 111int, 110int, 95int) {
        94
    } else if f == (13int, 111int, 116int, 95int) {
        95
    } else if f == (14int, 111int, 110int, 114int) {
        96
    } else if f == (15int, 109int, 112int, 111int) {
        97
    } else if f == (23int, 115int, 101int, 101int) {
        98
    } else if f == (15int, 109int, 111int, 111int) {
        99
    } else if f == (27int, 111int, 108int, 116int) {
        100
    } else if f == (23int, 112int, 110int, 116int) {
        101
    } else if f == (24int, 101int, 110int, 101int) {
        102
    } else if f == (26int, 118int, 110int, 95int) {
        103
    } else if f == (26int, 118int, 97int, 95int) {
        104
    } else if f == (17int, 97int, 110int, 109int) {
        105
    } else if f == (19int, 109int, 101int, 111int) {
        106
    } else if f == (24int, 111int, 101int, 97int) {
        107
    } else if f == (28int, 111int, 101int, 114int) {
        108
    } else if f == (22int, 110int, 101int, 46int) {
        109
    } else if f == (22int, 116int, 110int, 46int) {
        110
    } else if f == (29int, 100int, 97int, 116int) {
        111
    } else if f == (30int, 97int, 116int, 95int) {
        112
    } else if f == (23int, 118int, 110int, 105int) {
        113
    } else if f == (21int, 46int, 97int, 105int) {
        114
    } else if f == (17int, 101int, 118int, 46int) {
        115
    } else if f == (18int, 100int, 114int, 109int) {
        116
    } else if f == (24int, 97int, 97int, 97int) {
        117
    } else if f == (29int, 118int, 97int, 114int) {
        118
    } else if f == (19int, 105int, 97int, 101int) {
        119
    } else if f == (18int, 95int, 115int, 97int) {
        120
    } else if f == (17int, 111int, 115int, 46int) {
        121
    } else if f == (19int, 109int, 99int, 111int) {
        122
    } else if f == (25int, 105int, 115int, 110int) {
        123
    } else if f == (25int, 118int, 97int, 114int) {
        124
    } else if f == (16int, 115int, 101int, 111int) {
        125
    } else if f == (18int, 95int, 101int, 116int) {
        126
    } else if f == (24int, 115int, 101int, 97int) {
        127
    } else if f == (22int, 105int, 97int, 115int) {
        128
    } else if f == (26int, 97int, 97int, 115int) {
        129
    } else if f == (16int, 115int, 103int, 111int) {
        130
    } else if f == (25int, 115int, 110int, 101int) {
        131
    } else if f == (17int, 111int, 105int, 46int) {
        132
    } else if f == (22int, 115int, 110int, 116int) {
        133
    } else if f == (19int, 114int, 101int, 115int) {
        134
    } else if f == (17int, 111int, 118int, 46int) {
        135
    } else if f == (19int, 109int, 116int, 111int) {
        136
    } else if f == (18int, 97int, 115int, 115int) {
        137
    } else if f == (22int, 105int, 97int, 101int) {
        138
    } else if f == (23int, 111int, 115int, 46int) {
        139
    } else if f == (16int, 101int, 101int, 97int) {
        140
    } else if f == (13int, 46int, 111int, 115int) {
        141
    } else if f == (14int, 110int, 110int, 116int) {
        142
    } else if f == (15int, 97int, 97int, 46int) {
        143
    } else if f == (13int, 46int, 101int, 115int) {
        144
    } else if f == (14int, 110int, 99int, 116int) {
        145
    } else if f == (15int, 97int, 101int, 46int) {
        146
    } else if f == (13int, 46int, 110int, 115int) {
        147
    } else if f == (12int, 116int, 112int, 111int) {
        148
    } else if f == (20int, 101int, 114int, 111int) {
        149
    } else if f == (22int, 46int, 116int, 101int) {
        150
    } else if f == (20int, 117int, 122int, 101int) {
        151
    } else if f == (16int, 46int, 100int, 110int) {
        152
    } else if f == (16int, 46int, 122int, 110int) {
        153
    } else if f == (17int, 98int, 117int, 101int) {
        154
    } else if f == (17int, 115int, 108int, 101int) {
        155
    } else if f == (17int, 115int, 103int, 101int) {
        156
    } else if f == (16int, 115int, 115int, 99int) {
        157
    } else if f == (15int, 114int, 97int, 46int) {
        158
    } else if f == (15int, 104int, 97int, 46int) {
        159
    } else if f == (16int, 115int, 101int, 101int) {
        160
    } else if f == (16int, 101int, 101int, 101int) {
        161
    } else if f == (22int, 109int, 101int, 111int) {
        162
    } else if f == (21int, 110int, 101int, 105int) {
        163
    } else if f == (9int, 111int, 99int, -1int) {
        164
    } else if f == (11int, 112int, 103int, 97int) {
        165
    } else if f == (18int, 97int, 118int, 115int) {
        166
    } else if f == (21int, 111int, 103int, 115int) {
        167
    } else if f == (18int, 111int, 118int, 114int) {
        168
    } else if f == (21int, 97int, 114int, 109int) {
        169
    } else if f == (33int, 99int, 114int, 100int) {
        170
    } else if f == (28int, 101int, 101int, 95int) {
        171
    } else if f == (17int, 112int, 101int, 111int) {
        172
    } else if f == (16int, 111int, 110int, 109int) {
        173
    } else if f == (14int, 112int, 101int, 116int) {
        174
    } else if f == (16int, 99int, 97int, 99int) {
        175
    } else if f == (18int, 99int, 111int, 46int) {
        176
    } else if f == (21int, 118int, 110int, 100int) {
        177
    } else if f == (25int, 112int, 101int, 46int) {
        178
    } else {
        -1
    }
}

/// The wire features of the one wire name of the catalog entry at `i`.
spec fn wire_features_at(i: int) -> (int, int) {
    if i == 0 {
        (3int, -1int)
    } else if i == 1 {
        (17int, 117int)
    } else if i == 2 {
        (19int, 117int)
    } else if i == 14 {
        (13int, 115int)
    } else if i == 15 {
        (22int, 110int)
    } else if i == 24 {
        (12int, 46int)
    } else if i == 26 {
        (11int, 112int)
    } else if i == 27 {
        (12int, 108int)
    } else if i == 30 {
        (14int, 114int)
    } else if i == 31 {
        (8int, 115int)
    } else if i == 32 {
        (14int, 115int)
    } else if i == 36 {
        (20int, 97int)
    } else if i == 37 {
        (19int, 98int)
    } else if i == 38 {
        (20int, 101int)
    } else if i == 39 {
        (19int, 101int)
    } else if i == 47 {
        (19int, 115int)
    } else if i == 54 {
        (15int, 114int)
    } else if i == 55 {
        (8int, 111int)
    } else if i == 56 {
        (10int, 112int)
    } else if i == 57 {
        (10int, 115int)
    } else if i == 59 {
        (5int, 104int)
    } else if i == 61 {
        (10int, 104int)
    } else if i == 62 {
        (16int, 105int)
    } else if i == 70 {
        (14int, 102int)
    } else {
        (0int, 0int)
    }
}

/// The catalog position whose wire name has features `f`.
spec fn position_of_wire_features(f: (int, int)) -> int {
    if f == (3int, -1int) {
        0
    } else if f == (17int, 117int) {
        1
    } else if f == (19int, 117int) {
        2
    } else if f == (13int, 115int) {
        14
    } else if f == (22int, 110int) {
        15
    } else if f == (12int, 46int) {
        24
    } else if f == (11int, 112int) {
        26
    } else if f == (12int, 108int) {
        27
    } else if f == (14int, 114int) {
        30
    } else if f == (8int, 115int) {
        31
    } else if f == (14int, 115int) {
        32
    } else if f == (20int, 97int) {
        36
    } else if f == (19int, 98int) {
        37
    } else if f == (20int, 101int) {
        38
    } else if f == (19int, 101int) {
        39
    } else if f == (19int, 115int) {
        47
    } else if f == (15int, 114int) {
        54
    } else if f == (8int, 111int) {
        55
    } else if f == (10int, 112int) {
        56
    } else if f == (10int, 115int) {
        57
    } else if f == (5int, 104int) {
        59
    } else if f == (10int, 104int) {
        61
    } else if f == (16int, 105int) {
        62
    } else if f == (14int, 102int) {
        70
    } else {
        -1
    }
}

/// How many wire names the catalog entry at `i` has.
spec fn wire_count_at(i: int) -> int {
    if i == 0 || i == 1 || i == 2 || i == 14 || i == 15 || i == 24 || i == 26 || i == 27 || i == 30 || i == 31 || i == 32 || i == 36 || i == 37 || i == 38 || i == 39 || i == 47 || i == 54 || i == 55 || i == 56 || i == 57 || i == 59 || i == 61 || i == 62 || i == 70 {
        1
    } else {
        0
    }
}

proof fn lemma_id_features_0_20(i: int)
    requires
        0 <= i < 20,
    ensures
        id_features(catalog_view(i).id) == id_features_at(i),
        position_of_id_features(id_features_at(i)) == i,
{
    if i == 0 {
        reveal_strlit("host.env.read");
    } else if i == 1 {
        reveal_strlit("permissions.query");
    } else if i == 2 {
        reveal_strlit("permissions.request");
    } else if i == 3 {
        reveal_strlit("storage.file.read");
    } else if i == 4 {
        reveal_strlit("storage.file.write");
    } else if i == 5 {
        reveal_strlit("storage.instance.write");
    } else if i == 6 {
        reveal_strlit("storage.quota.read");
    } else if i == 7 {
        reveal_strlit("timer.schedule");
    } else if i == 8 {
        reveal_strlit("ipc.self.send");
    } else if i == 9 {
        reveal_strlit("events.subscribe");
    } else if i == 10 {
        reveal_strlit("events.unsubscribe");
    } else if i == 11 {
        reveal_strlit("ui.pane.read");
    } else if i == 12 {
        reveal_strlit("ui.pane.close");
    } else if i == 13 {
        reveal_strlit("ui.dialog.confirm");
    } else if i == 14 {
        reveal_strlit("on_app_resize");
    } else if i == 15 {
        reveal_strlit("on_permissions_changed");
    } else if i == 16 {
        reveal_strlit("on_focus_changed");
    } else if i == 17 {
        reveal_strlit("on_visibility_changed");
    } else if i == 18 {
        reveal_strlit("on_surface_changed");
    } else if i == 19 {
        reveal_strlit("on_suspend");
    }
}

proof fn lemma_id_features_20_40(i: int)
    requires
        20 <= i < 40,
    ensures
        id_features(catalog_view(i).id) == id_features_at(i),
        position_of_id_features(id_features_at(i)) == i,
{
    if i == 20 {
        reveal_strlit("on_resume");
    } else if i == 21 {
        reveal_strlit("on_quit");
    } else if i == 22 {
        reveal_strlit("on_low_memory");
    } else if i == 23 {
        reveal_strlit("network.http");
    } else if i == 24 {
        reveal_strlit("device.location.read");
    } else if i == 25 {
        reveal_strlit("on_location");
    } else if i == 26 {
        reveal_strlit("notifications.post");
    } else if i == 27 {
        reveal_strlit("notifications.clear");
    } else if i == 28 {
        reveal_strlit("notifications.system.post");
    } else if i == 29 {
        reveal_strlit("on_notification_activated");
    } else if i == 30 {
        reveal_strlit("device.clipboard.read");
    } else if i == 31 {
        reveal_strlit("ipc.send");
    } else if i == 32 {
        reveal_strlit("on_ipc_message");
    } else if i == 33 {
        reveal_strlit("ipc.request");
    } else if i == 34 {
        reveal_strlit("on_ipc_request");
    } else if i == 35 {
        reveal_strlit("ipc.apps.list");
    } else if i == 36 {
        reveal_strlit("matrix.room.messages.read");
    } else if i == 37 {
        reveal_strlit("matrix.room.members.read");
    } else if i == 38 {
        reveal_strlit("matrix.room.pins.read");
    } else if i == 39 {
        reveal_strlit("matrix.room.threads.read");
    }
}

proof fn lemma_id_features_40_60(i: int)
    requires
        40 <= i < 60,
    ensures
        id_features(catalog_view(i).id) == id_features_at(i),
        position_of_id_features(id_features_at(i)) == i,
{
    if i == 40 {
        reveal_strlit("matrix.room.thread.read");
    } else if i == 41 {
        reveal_strlit("matrix.room.messages.paginate");
    } else if i == 42 {
        reveal_strlit("matrix.room.event.read");
    } else if i == 43 {
        reveal_strlit("matrix.room.events.read");
    } else if i == 44 {
        reveal_strlit("matrix.room.relations.read");
    } else if i == 45 {
        reveal_strlit("matrix.room.state.read");
    } else if i == 46 {
        reveal_strlit("matrix.room.receipts.read");
    } else if i == 47 {
        reveal_strlit("matrix.room.message.send");
    } else if i == 48 {
        reveal_strlit("matrix.room.message.reply");
    } else if i == 49 {
        reveal_strlit("matrix.room.thread.reply");
    } else if i == 50 {
        reveal_strlit("matrix.room.message.edit");
    } else if i == 51 {
        reveal_strlit("matrix.room.message.redact");
    } else if i == 52 {
        reveal_strlit("matrix.room.attachment.send");
    } else if i == 53 {
        reveal_strlit("matrix.room.event.send");
    } else if i == 54 {
        reveal_strlit("device.clipboard.write");
    } else if i == 55 {
        reveal_strlit("device.url.open");
    } else if i == 56 {
        reveal_strlit("device.files.pick");
    } else if i == 57 {
        reveal_strlit("device.files.save");
    } else if i == 58 {
        reveal_strlit("device.files.pick_binary");
    } else if i == 59 {
        reveal_strlit("device.share");
    }
}

proof fn lemma_id_features_60_80(i: int)
    requires
        60 <= i < 80,
    ensures
        id_features(catalog_view(i).id) == id_features_at(i),
        position_of_id_features(id_features_at(i)) == i,
{
    if i == 60 {
        reveal_strlit("device.share.file");
    } else if i == 61 {
        reveal_strlit("device.auth.check");
    } else if i == 62 {
        reveal_strlit("matrix.room.info.read");
    } else if i == 63 {
        reveal_strlit("matrix.room.unread.read");
    } else if i == 64 {
        reveal_strlit("matrix.room.power_levels.read");
    } else if i == 65 {
        reveal_strlit("matrix.room.link.create");
    } else if i == 66 {
        reveal_strlit("matrix.room.successor.read");
    } else if i == 67 {
        reveal_strlit("on_room_info_changed");
    } else if i == 68 {
        reveal_strlit("on_room_unread_changed");
    } else if i == 69 {
        reveal_strlit("on_room_pins_changed");
    } else if i == 70 {
        reveal_strlit("matrix.profile.read");
    } else if i == 71 {
        reveal_strlit("on_profile_changed");
    } else if i == 72 {
        reveal_strlit("device.info.read");
    } else if i == 73 {
        reveal_strlit("network.status.read");
    } else if i == 74 {
        reveal_strlit("on_network_changed");
    } else if i == 75 {
        reveal_strlit("on_sync_state_changed");
    } else if i == 76 {
        reveal_strlit("device.camera.capture");
    } else if i == 77 {
        reveal_strlit("device.microphone.record");
    } else if i == 78 {
        reveal_strlit("matrix.account.device.read");
    } else if i == 79 {
        reveal_strlit("matrix.account.info.read");
    }
}

proof fn lemma_id_features_80_100(i: int)
    requires
        80 <= i < 100,
    ensures
        id_features(catalog_view(i).id) == id_features_at(i),
        position_of_id_features(id_features_at(i)) == i,
{
    if i == 80 {
        reveal_strlit("matrix.account.data.read");
    } else if i == 81 {
        reveal_strlit("matrix.account.ignored.read");
    } else if i == 82 {
        reveal_strlit("on_account_data_changed");
    } else if i == 83 {
        reveal_strlit("matrix.account.display_name.set");
    } else if i == 84 {
        reveal_strlit("matrix.account.avatar.set");
    } else if i == 85 {
        reveal_strlit("matrix.user.ignore.set");
    } else if i == 86 {
        reveal_strlit("matrix.account.data.write");
    } else if i == 87 {
        reveal_strlit("matrix.user.profile.read");
    } else if i == 88 {
        reveal_strlit("matrix.user.dm.find");
    } else if i == 89 {
        reveal_strlit("matrix.user.search");
    } else if i == 90 {
        reveal_strlit("matrix.user.presence.read");
    } else if i == 91 {
        reveal_strlit("on_room_message");
    } else if i == 92 {
        reveal_strlit("on_room_message_changed");
    } else if i == 93 {
        reveal_strlit("on_room_reaction");
    } else if i == 94 {
        reveal_strlit("on_room_event");
    } else if i == 95 {
        reveal_strlit("on_room_state");
    } else if i == 96 {
        reveal_strlit("on_room_typing");
    } else if i == 97 {
        reveal_strlit("on_room_receipt");
    } else if i == 98 {
        reveal_strlit("on_room_members_changed");
    } else if i == 99 {
        reveal_strlit("on_room_mention");
    }
}

proof fn lemma_id_features_100_120(i: int)
    requires
        100 <= i < 120,
    ensures
        id_features(catalog_view(i).id) == id_features_at(i),
        position_of_id_features(id_features_at(i)) == i,
{
    if i == 100 {
        reveal_strlit("matrix.room.reaction.toggle");
    } else if i == 101 {
        reveal_strlit("matrix.room.typing.send");
    } else if i == 102 {
        reveal_strlit("matrix.room.receipt.send");
    } else if i == 103 {
        reveal_strlit("matrix.room.app_event.send");
    } else if i == 104 {
        reveal_strlit("matrix.room.app_event.read");
    } else if i == 105 {
        reveal_strlit("on_room_app_event");
    } else if i == 106 {
        reveal_strlit("matrix.room.pin.set");
    } else if i == 107 {
        reveal_strlit("matrix.room.favorite.set");
    } else if i == 108 {
        reveal_strlit("matrix.room.low_priority.set");
    } else if i == 109 {
        reveal_strlit("matrix.room.unread.set");
    } else if i == 110 {
        reveal_strlit("matrix.room.state.send");
    } else if i == 111 {
        reveal_strlit("matrix.room.account_data.read");
    } else if i == 112 {
        reveal_strlit("matrix.room.account_data.write");
    } else if i == 113 {
        reveal_strlit("matrix.room.invite.send");
    } else if i == 114 {
        reveal_strlit("matrix.media.download");
    } else if i == 115 {
        reveal_strlit("matrix.media.save");
    } else if i == 116 {
        reveal_strlit("matrix.media.share");
    } else if i == 117 {
        reveal_strlit("matrix.media.avatar.read");
    } else if i == 118 {
        reveal_strlit("matrix.media.url_preview.read");
    } else if i == 119 {
        reveal_strlit("matrix.media.upload");
    }
}

proof fn lemma_id_features_120_140(i: int)
    requires
        120 <= i < 140,
    ensures
        id_features(catalog_view(i).id) == id_features_at(i),
        position_of_id_features(id_features_at(i)) == i,
{
    if i == 120 {
        reveal_strlit("on_upload_progress");
    } else if i == 121 {
        reveal_strlit("matrix.rooms.list");
    } else if i == 122 {
        reveal_strlit("matrix.rooms.search");
    } else if i == 123 {
        reveal_strlit("matrix.rooms.invites.list");
    } else if i == 124 {
        reveal_strlit("matrix.rooms.preview.read");
    } else if i == 125 {
        reveal_strlit("on_rooms_changed");
    } else if i == 126 {
        reveal_strlit("on_invite_received");
    } else if i == 127 {
        reveal_strlit("on_unread_totals_changed");
    } else if i == 128 {
        reveal_strlit("matrix.rooms.info.read");
    } else if i == 129 {
        reveal_strlit("matrix.rooms.messages.read");
    } else if i == 130 {
        reveal_strlit("on_rooms_message");
    } else if i == 131 {
        reveal_strlit("matrix.rooms.message.send");
    } else if i == 132 {
        reveal_strlit("matrix.rooms.join");
    } else if i == 133 {
        reveal_strlit("matrix.invites.respond");
    } else if i == 134 {
        reveal_strlit("matrix.user.dm.open");
    } else if i == 135 {
        reveal_strlit("matrix.room.leave");
    } else if i == 136 {
        reveal_strlit("matrix.rooms.create");
    } else if i == 137 {
        reveal_strlit("matrix.spaces.list");
    } else if i == 138 {
        reveal_strlit("matrix.space.info.read");
    } else if i == 139 {
        reveal_strlit("matrix.space.rooms.list");
    }
}

proof fn lemma_id_features_140_160(i: int)
    requires
        140 <= i < 160,
    ensures
        id_features(catalog_view(i).id) == id_features_at(i),
        position_of_id_features(id_features_at(i)) == i,
{
    if i == 140 {
        reveal_strlit("on_space_changed");
    } else if i == 141 {
        reveal_strlit("host.nav.room");
    } else if i == 142 {
        reveal_strlit("host.nav.event");
    } else if i == 143 {
        reveal_strlit("host.nav.thread");
    } else if i == 144 {
        reveal_strlit("host.nav.user");
    } else if i == 145 {
        reveal_strlit("host.nav.space");
    } else if i == 146 {
        reveal_strlit("host.nav.screen");
    } else if i == 147 {
        reveal_strlit("host.nav.link");
    } else if i == 148 {
        reveal_strlit("host.nav.app");
    } else if i == 149 {
        reveal_strlit("host.composer.insert");
    } else if i == 150 {
        reveal_strlit("host.composer.reply_to");
    } else if i == 151 {
        reveal_strlit("ui.pane.request_size");
    } else if i == 152 {
        reveal_strlit("ui.pane.set_side");
    } else if i == 153 {
        reveal_strlit("ui.pane.minimize");
    } else if i == 154 {
        reveal_strlit("ui.pane.break_out");
    } else if i == 155 {
        reveal_strlit("ui.pane.set_title");
    } else if i == 156 {
        reveal_strlit("ui.pane.set_badge");
    } else if i == 157 {
        reveal_strlit("ui.focus.request");
    } else if i == 158 {
        reveal_strlit("host.prefs.read");
    } else if i == 159 {
        reveal_strlit("host.theme.read");
    }
}

proof fn lemma_id_features_160_179(i: int)
    requires
        160 <= i < 179,
    ensures
        id_features(catalog_view(i).id) == id_features_at(i),
        position_of_id_features(id_features_at(i)) == i,
{
    if i == 160 {
        reveal_strlit("on_prefs_changed");
    } else if i == 161 {
        reveal_strlit("on_theme_changed");
    } else if i == 162 {
        reveal_strlit("on_active_room_changed");
    } else if i == 163 {
        reveal_strlit("on_navigation_changed");
    } else if i == 164 {
        reveal_strlit("on_launch");
    } else if i == 165 {
        reveal_strlit("apps.manage");
    } else if i == 166 {
        reveal_strlit("matrix.space.leave");
    } else if i == 167 {
        reveal_strlit("matrix.session.manage");
    } else if i == 168 {
        reveal_strlit("matrix.rooms.leave");
    } else if i == 169 {
        reveal_strlit("matrix.room.app.share");
    } else if i == 170 {
        reveal_strlit("matrix.room.message.redact_others");
    } else if i == 171 {
        reveal_strlit("matrix.room.power_levels.set");
    } else if i == 172 {
        reveal_strlit("host.composer.get");
    } else if i == 173 {
        reveal_strlit("on_composer_send");
    } else if i == 174 {
        reveal_strlit("host.prefs.set");
    } else if i == 175 {
        reveal_strlit("host.cache.clear");
    } else if i == 176 {
        reveal_strlit("host.ui.screenshot");
    } else if i == 177 {
        reveal_strlit("matrix.to_device.send");
    } else if i == 178 {
        reveal_strlit("matrix.account.openid.get");
    }
}

/// The id features of the entry at `i`, read off its literal.
proof fn lemma_id_features(i: int)
    requires
        0 <= i < CATALOG_LEN,
    ensures
        id_features(catalog_view(i).id) == id_features_at(i),
        position_of_id_features(id_features_at(i)) == i,
{
    if i < 20 {
        lemma_id_features_0_20(i);
    } else if i < 40 {
        lemma_id_features_20_40(i);
    } else if i < 60 {
        lemma_id_features_40_60(i);
    } else if i < 80 {
        lemma_id_features_60_80(i);
    } else if i < 100 {
        lemma_id_features_80_100(i);
    } else if i < 120 {
        lemma_id_features_100_120(i);
    } else if i < 140 {
        lemma_id_features_120_140(i);
    } else if i < 160 {
        lemma_id_features_140_160(i);
    } else if i < 179 {
        lemma_id_features_160_179(i);
    }
}

/// The wire names of the entry at `i`: at most one, with its features.
proof fn lemma_wire_features(i: int)
    requires
        0 <= i < CATALOG_LEN,
    ensures
        catalog_view(i).wire.len() == wire_count_at(i),
        wire_count_at(i) == 1 ==> wire_features(catalog_view(i).wire[0]) == wire_features_at(i),
        wire_count_at(i) == 1 ==> position_of_wire_features(wire_features_at(i)) == i,
{
    if i == 0 {
        reveal_strlit("env");
    } else if i == 1 {
        reveal_strlit("permissions.query");
    } else if i == 2 {
        reveal_strlit("permissions.request");
    } else if i == 14 {
        reveal_strlit("on_app_resize");
    } else if i == 15 {
        reveal_strlit("on_permissions_changed");
    } else if i == 24 {
        reveal_strlit("location.get");
    } else if i == 26 {
        reveal_strlit("notify.post");
    } else if i == 27 {
        reveal_strlit("notify.clear");
    } else if i == 30 {
        reveal_strlit("clipboard.read");
    } else if i == 31 {
        reveal_strlit("ipc.send");
    } else if i == 32 {
        reveal_strlit("on_ipc_message");
    } else if i == 36 {
        reveal_strlit("matrix.read_messages");
    } else if i == 37 {
        reveal_strlit("matrix.room_members");
    } else if i == 38 {
        reveal_strlit("matrix.pinned_events");
    } else if i == 39 {
        reveal_strlit("matrix.room_threads");
    } else if i == 47 {
        reveal_strlit("matrix.send_message");
    } else if i == 54 {
        reveal_strlit("clipboard.write");
    } else if i == 55 {
        reveal_strlit("url.open");
    } else if i == 56 {
        reveal_strlit("files.pick");
    } else if i == 57 {
        reveal_strlit("files.save");
    } else if i == 59 {
        reveal_strlit("share");
    } else if i == 61 {
        reveal_strlit("auth.check");
    } else if i == 62 {
        reveal_strlit("matrix.room_info");
    } else if i == 70 {
        reveal_strlit("matrix.profile");
    }
}

/// No two catalog entries share an id.
pub proof fn law_catalog_ids_are_unique(i: int, j: int)
    requires
        0 <= i < CATALOG_LEN,
        0 <= j < CATALOG_LEN,
        i != j,
    ensures
        catalog_view(i).id != catalog_view(j).id,
{
    lemma_id_features(i);
    lemma_id_features(j);
}

/// No wire name occurs twice in the catalog, within one entry or across
/// two.
pub proof fn law_catalog_wires_are_unique(i: int, a: int, j: int, b: int)
    requires
        0 <= i < CATALOG_LEN,
        0 <= j < CATALOG_LEN,
        0 <= a < catalog_view(i).wire.len(),
        0 <= b < catalog_view(j).wire.len(),
        i != j || a != b,
    ensures
        catalog_view(i).wire[a] != catalog_view(j).wire[b],
{
    lemma_wire_features(i);
    lemma_wire_features(j);
}

/// The search from `k` meets the first entry at or after `k` that `pred`
/// accepts.
proof fn lemma_find_from_first(pred: spec_fn(CapabilityView) -> bool, k: int, i: int)
    requires
        0 <= k <= i < CATALOG_LEN,
        pred(catalog_view(i)),
        forall|j: int| k <= j < i ==> !pred(#[trigger] catalog_view(j)),
    ensures
        find_from(pred, k) == Some(i),
    decreases i - k,
{
    if k < i {
        lemma_find_from_first(pred, k + 1, i);
    }
}

/// The search from `k` finds nothing when no entry at or after `k` passes.
proof fn lemma_find_from_none(pred: spec_fn(CapabilityView) -> bool, k: int)
    requires
        0 <= k,
        forall|j: int| k <= j < CATALOG_LEN ==> !pred(#[trigger] catalog_view(j)),
    ensures
        find_from(pred, k) is None,
    decreases CATALOG_LEN - k,
{
    if k < CATALOG_LEN {
        lemma_find_from_none(pred, k + 1);
    }
}

/// A search from `k` that finds nothing passes over the entry at `j`.
proof fn lemma_find_from_passes_over(pred: spec_fn(CapabilityView) -> bool, k: int, j: int)
    requires
        0 <= k <= j < CATALOG_LEN,
        find_from(pred, k) is None,
    ensures
        !pred(catalog_view(j)),
    decreases j - k,
{
    if k < j {
        lemma_find_from_passes_over(pred, k + 1, j);
    }
}

/// Looking up the id of any catalog entry finds that entry.
pub proof fn law_lookup_finds_every_entry(i: int)
    requires
        0 <= i < CATALOG_LEN,
    ensures
        find_first(has_id(catalog_view(i).id)) == Some(catalog_view(i)),
{
    let id = catalog_view(i).id;
    assert forall|j: int| 0 <= j < i implies !has_id(id)(#[trigger] catalog_view(j)) by {
        law_catalog_ids_are_unique(j, i);
    }
    lemma_find_from_first(has_id(id), 0, i);
}

/// Looking up an id finds nothing exactly when no catalog entry has it.
pub proof fn law_lookup_misses_only_unknown_ids(id: Seq<char>)
    ensures
        find_first(has_id(id)) is None <==> forall|j: int| 0 <= j < CATALOG_LEN ==> #[trigger] catalog_view(j).id != id,
{
    if find_first(has_id(id)) is None {
        assert forall|j: int| 0 <= j < CATALOG_LEN implies #[trigger] catalog_view(j).id != id by {
            lemma_find_from_passes_over(has_id(id), 0, j);
        }
    }
    if forall|j: int| 0 <= j < CATALOG_LEN ==> #[trigger] catalog_view(j).id != id {
        assert forall|j: int| 0 <= j < CATALOG_LEN implies !has_id(id)(#[trigger] catalog_view(j)) by {}
        lemma_find_from_none(has_id(id), 0);
    }
}

} // verus!
