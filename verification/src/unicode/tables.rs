//! Unicode code point classes (Unicode 14.0.0), generated from the Unicode
//! character database as sorted, disjoint, inclusive code point ranges. Each
//! class has a spec predicate (membership in one of the ranges, listed in
//! blocks of consecutive ranges) and an executable test that bisects the
//! sorted ranges.

use vstd::prelude::*;

verus! {

/// Ranges 0..16 of general category L (letters), `\p{L}`.
pub open spec fn letter_block_0(cp: u32) -> bool {
    (0x41 <= cp && cp <= 0x5A) || (0x61 <= cp && cp <= 0x7A) || cp == 0xAA || cp == 0xB5
    || cp == 0xBA || (0xC0 <= cp && cp <= 0xD6) || (0xD8 <= cp && cp <= 0xF6) || (0xF8 <= cp && cp <= 0x2C1)
    || (0x2C6 <= cp && cp <= 0x2D1) || (0x2E0 <= cp && cp <= 0x2E4) || cp == 0x2EC || cp == 0x2EE
    || (0x370 <= cp && cp <= 0x374) || (0x376 <= cp && cp <= 0x377) || (0x37A <= cp && cp <= 0x37D) || cp == 0x37F
}

/// Ranges 16..32 of general category L (letters), `\p{L}`.
pub open spec fn letter_block_1(cp: u32) -> bool {
    cp == 0x386 || (0x388 <= cp && cp <= 0x38A) || cp == 0x38C || (0x38E <= cp && cp <= 0x3A1)
    || (0x3A3 <= cp && cp <= 0x3F5) || (0x3F7 <= cp && cp <= 0x481) || (0x48A <= cp && cp <= 0x52F) || (0x531 <= cp && cp <= 0x556)
    || cp == 0x559 || (0x560 <= cp && cp <= 0x588) || (0x5D0 <= cp && cp <= 0x5EA) || (0x5EF <= cp && cp <= 0x5F2)
    || (0x620 <= cp && cp <= 0x64A) || (0x66E <= cp && cp <= 0x66F) || (0x671 <= cp && cp <= 0x6D3) || cp == 0x6D5
}

/// Ranges 32..48 of general category L (letters), `\p{L}`.
pub open spec fn letter_block_2(cp: u32) -> bool {
    (0x6E5 <= cp && cp <= 0x6E6) || (0x6EE <= cp && cp <= 0x6EF) || (0x6FA <= cp && cp <= 0x6FC) || cp == 0x6FF
    || cp == 0x710 || (0x712 <= cp && cp <= 0x72F) || (0x74D <= cp && cp <= 0x7A5) || cp == 0x7B1
    || (0x7CA <= cp && cp <= 0x7EA) || (0x7F4 <= cp && cp <= 0x7F5) || cp == 0x7FA || (0x800 <= cp && cp <= 0x815)
    || cp == 0x81A || cp == 0x824 || cp == 0x828 || (0x840 <= cp && cp <= 0x858)
}

/// Ranges 48..64 of general category L (letters), `\p{L}`.
pub open spec fn letter_block_3(cp: u32) -> bool {
    (0x860 <= cp && cp <= 0x86A) || (0x870 <= cp && cp <= 0x887) || (0x889 <= cp && cp <= 0x88E) || (0x8A0 <= cp && cp <= 0x8C9)
    || (0x904 <= cp && cp <= 0x939) || cp == 0x93D || cp == 0x950 || (0x958 <= cp && cp <= 0x961)
    || (0x971 <= cp && cp <= 0x980) || (0x985 <= cp && cp <= 0x98C) || (0x98F <= cp && cp <= 0x990) || (0x993 <= cp && cp <= 0x9A8)
    || (0x9AA <= cp && cp <= 0x9B0) || cp == 0x9B2 || (0x9B6 <= cp && cp <= 0x9B9) || cp == 0x9BD
}

/// Ranges 64..80 of general category L (letters), `\p{L}`.
pub open spec fn letter_block_4(cp: u32) -> bool {
    cp == 0x9CE || (0x9DC <= cp && cp <= 0x9DD) || (0x9DF <= cp && cp <= 0x9E1) || (0x9F0 <= cp && cp <= 0x9F1)
    || cp == 0x9FC || (0xA05 <= cp && cp <= 0xA0A) || (0xA0F <= cp && cp <= 0xA10) || (0xA13 <= cp && cp <= 0xA28)
    || (0xA2A <= cp && cp <= 0xA30) || (0xA32 <= cp && cp <= 0xA33) || (0xA35 <= cp && cp <= 0xA36) || (0xA38 <= cp && cp <= 0xA39)
    || (0xA59 <= cp && cp <= 0xA5C) || cp == 0xA5E || (0xA72 <= cp && cp <= 0xA74) || (0xA85 <= cp && cp <= 0xA8D)
}

/// Ranges 80..96 of general category L (letters), `\p{L}`.
pub open spec fn letter_block_5(cp: u32) -> bool {
    (0xA8F <= cp && cp <= 0xA91) || (0xA93 <= cp && cp <= 0xAA8) || (0xAAA <= cp && cp <= 0xAB0) || (0xAB2 <= cp && cp <= 0xAB3)
    || (0xAB5 <= cp && cp <= 0xAB9) || cp == 0xABD || cp == 0xAD0 || (0xAE0 <= cp && cp <= 0xAE1)
    || cp == 0xAF9 || (0xB05 <= cp && cp <= 0xB0C) || (0xB0F <= cp && cp <= 0xB10) || (0xB13 <= cp && cp <= 0xB28)
    || (0xB2A <= cp && cp <= 0xB30) || (0xB32 <= cp && cp <= 0xB33) || (0xB35 <= cp && cp <= 0xB39) || cp == 0xB3D
}

/// Ranges 96..112 of general category L (letters), `\p{L}`.
pub open spec fn letter_block_6(cp: u32) -> bool {
    (0xB5C <= cp && cp <= 0xB5D) || (0xB5F <= cp && cp <= 0xB61) || cp == 0xB71 || cp == 0xB83
    || (0xB85 <= cp && cp <= 0xB8A) || (0xB8E <= cp && cp <= 0xB90) || (0xB92 <= cp && cp <= 0xB95) || (0xB99 <= cp && cp <= 0xB9A)
    || cp == 0xB9C || (0xB9E <= cp && cp <= 0xB9F) || (0xBA3 <= cp && cp <= 0xBA4) || (0xBA8 <= cp && cp <= 0xBAA)
    || (0xBAE <= cp && cp <= 0xBB9) || cp == 0xBD0 || (0xC05 <= cp && cp <= 0xC0C) || (0xC0E <= cp && cp <= 0xC10)
}

/// Ranges 112..128 of general category L (letters), `\p{L}`.
pub open spec fn letter_block_7(cp: u32) -> bool {
    (0xC12 <= cp && cp <= 0xC28) || (0xC2A <= cp && cp <= 0xC39) || cp == 0xC3D || (0xC58 <= cp && cp <= 0xC5A)
    || cp == 0xC5D || (0xC60 <= cp && cp <= 0xC61) || cp == 0xC80 || (0xC85 <= cp && cp <= 0xC8C)
    || (0xC8E <= cp && cp <= 0xC90) || (0xC92 <= cp && cp <= 0xCA8) || (0xCAA <= cp && cp <= 0xCB3) || (0xCB5 <= cp && cp <= 0xCB9)
    || cp == 0xCBD || (0xCDD <= cp && cp <= 0xCDE) || (0xCE0 <= cp && cp <= 0xCE1) || (0xCF1 <= cp && cp <= 0xCF2)
}

/// Ranges 128..144 of general category L (letters), `\p{L}`.
pub open spec fn letter_block_8(cp: u32) -> bool {
    (0xD04 <= cp && cp <= 0xD0C) || (0xD0E <= cp && cp <= 0xD10) || (0xD12 <= cp && cp <= 0xD3A) || cp == 0xD3D
    || cp == 0xD4E || (0xD54 <= cp && cp <= 0xD56) || (0xD5F <= cp && cp <= 0xD61) || (0xD7A <= cp && cp <= 0xD7F)
    || (0xD85 <= cp && cp <= 0xD96) || (0xD9A <= cp && cp <= 0xDB1) || (0xDB3 <= cp && cp <= 0xDBB) || cp == 0xDBD
    || (0xDC0 <= cp && cp <= 0xDC6) || (0xE01 <= cp && cp <= 0xE30) || (0xE32 <= cp && cp <= 0xE33) || (0xE40 <= cp && cp <= 0xE46)
}

/// Ranges 144..160 of general category L (letters), `\p{L}`.
pub open spec fn letter_block_9(cp: u32) -> bool {
    (0xE81 <= cp && cp <= 0xE82) || cp == 0xE84 || (0xE86 <= cp && cp <= 0xE8A) || (0xE8C <= cp && cp <= 0xEA3)
    || cp == 0xEA5 || (0xEA7 <= cp && cp <= 0xEB0) || (0xEB2 <= cp && cp <= 0xEB3) || cp == 0xEBD
    || (0xEC0 <= cp && cp <= 0xEC4) || cp == 0xEC6 || (0xEDC <= cp && cp <= 0xEDF) || cp == 0xF00
    || (0xF40 <= cp && cp <= 0xF47) || (0xF49 <= cp && cp <= 0xF6C) || (0xF88 <= cp && cp <= 0xF8C) || (0x1000 <= cp && cp <= 0x102A)
}

/// Ranges 160..176 of general category L (letters), `\p{L}`.
pub open spec fn letter_block_10(cp: u32) -> bool {
    cp == 0x103F || (0x1050 <= cp && cp <= 0x1055) || (0x105A <= cp && cp <= 0x105D) || cp == 0x1061
    || (0x1065 <= cp && cp <= 0x1066) || (0x106E <= cp && cp <= 0x1070) || (0x1075 <= cp && cp <= 0x1081) || cp == 0x108E
    || (0x10A0 <= cp && cp <= 0x10C5) || cp == 0x10C7 || cp == 0x10CD || (0x10D0 <= cp && cp <= 0x10FA)
    || (0x10FC <= cp && cp <= 0x1248) || (0x124A <= cp && cp <= 0x124D) || (0x1250 <= cp && cp <= 0x1256) || cp == 0x1258
}

/// Ranges 176..192 of general category L (letters), `\p{L}`.
pub open spec fn letter_block_11(cp: u32) -> bool {
    (0x125A <= cp && cp <= 0x125D) || (0x1260 <= cp && cp <= 0x1288) || (0x128A <= cp && cp <= 0x128D) || (0x1290 <= cp && cp <= 0x12B0)
    || (0x12B2 <= cp && cp <= 0x12B5) || (0x12B8 <= cp && cp <= 0x12BE) || cp == 0x12C0 || (0x12C2 <= cp && cp <= 0x12C5)
    || (0x12C8 <= cp && cp <= 0x12D6) || (0x12D8 <= cp && cp <= 0x1310) || (0x1312 <= cp && cp <= 0x1315) || (0x1318 <= cp && cp <= 0x135A)
    || (0x1380 <= cp && cp <= 0x138F) || (0x13A0 <= cp && cp <= 0x13F5) || (0x13F8 <= cp && cp <= 0x13FD) || (0x1401 <= cp && cp <= 0x166C)
}

/// Ranges 192..208 of general category L (letters), `\p{L}`.
pub open spec fn letter_block_12(cp: u32) -> bool {
    (0x166F <= cp && cp <= 0x167F) || (0x1681 <= cp && cp <= 0x169A) || (0x16A0 <= cp && cp <= 0x16EA) || (0x16F1 <= cp && cp <= 0x16F8)
    || (0x1700 <= cp && cp <= 0x1711) || (0x171F <= cp && cp <= 0x1731) || (0x1740 <= cp && cp <= 0x1751) || (0x1760 <= cp && cp <= 0x176C)
    || (0x176E <= cp && cp <= 0x1770) || (0x1780 <= cp && cp <= 0x17B3) || cp == 0x17D7 || cp == 0x17DC
    || (0x1820 <= cp && cp <= 0x1878) || (0x1880 <= cp && cp <= 0x1884) || (0x1887 <= cp && cp <= 0x18A8) || cp == 0x18AA
}

/// Ranges 208..224 of general category L (letters), `\p{L}`.
pub open spec fn letter_block_13(cp: u32) -> bool {
    (0x18B0 <= cp && cp <= 0x18F5) || (0x1900 <= cp && cp <= 0x191E) || (0x1950 <= cp && cp <= 0x196D) || (0x1970 <= cp && cp <= 0x1974)
    || (0x1980 <= cp && cp <= 0x19AB) || (0x19B0 <= cp && cp <= 0x19C9) || (0x1A00 <= cp && cp <= 0x1A16) || (0x1A20 <= cp && cp <= 0x1A54)
    || cp == 0x1AA7 || (0x1B05 <= cp && cp <= 0x1B33) || (0x1B45 <= cp && cp <= 0x1B4C) || (0x1B83 <= cp && cp <= 0x1BA0)
    || (0x1BAE <= cp && cp <= 0x1BAF) || (0x1BBA <= cp && cp <= 0x1BE5) || (0x1C00 <= cp && cp <= 0x1C23) || (0x1C4D <= cp && cp <= 0x1C4F)
}

/// Ranges 224..240 of general category L (letters), `\p{L}`.
pub open spec fn letter_block_14(cp: u32) -> bool {
    (0x1C5A <= cp && cp <= 0x1C7D) || (0x1C80 <= cp && cp <= 0x1C88) || (0x1C90 <= cp && cp <= 0x1CBA) || (0x1CBD <= cp && cp <= 0x1CBF)
    || (0x1CE9 <= cp && cp <= 0x1CEC) || (0x1CEE <= cp && cp <= 0x1CF3) || (0x1CF5 <= cp && cp <= 0x1CF6) || cp == 0x1CFA
    || (0x1D00 <= cp && cp <= 0x1DBF) || (0x1E00 <= cp && cp <= 0x1F15) || (0x1F18 <= cp && cp <= 0x1F1D) || (0x1F20 <= cp && cp <= 0x1F45)
    || (0x1F48 <= cp && cp <= 0x1F4D) || (0x1F50 <= cp && cp <= 0x1F57) || cp == 0x1F59 || cp == 0x1F5B
}

/// Ranges 240..256 of general category L (letters), `\p{L}`.
pub open spec fn letter_block_15(cp: u32) -> bool {
    cp == 0x1F5D || (0x1F5F <= cp && cp <= 0x1F7D) || (0x1F80 <= cp && cp <= 0x1FB4) || (0x1FB6 <= cp && cp <= 0x1FBC)
    || cp == 0x1FBE || (0x1FC2 <= cp && cp <= 0x1FC4) || (0x1FC6 <= cp && cp <= 0x1FCC) || (0x1FD0 <= cp && cp <= 0x1FD3)
    || (0x1FD6 <= cp && cp <= 0x1FDB) || (0x1FE0 <= cp && cp <= 0x1FEC) || (0x1FF2 <= cp && cp <= 0x1FF4) || (0x1FF6 <= cp && cp <= 0x1FFC)
    || cp == 0x2071 || cp == 0x207F || (0x2090 <= cp && cp <= 0x209C) || cp == 0x2102
}

/// Ranges 256..272 of general category L (letters), `\p{L}`.
pub open spec fn letter_block_16(cp: u32) -> bool {
    cp == 0x2107 || (0x210A <= cp && cp <= 0x2113) || cp == 0x2115 || (0x2119 <= cp && cp <= 0x211D)
    || cp == 0x2124 || cp == 0x2126 || cp == 0x2128 || (0x212A <= cp && cp <= 0x212D)
    || (0x212F <= cp && cp <= 0x2139) || (0x213C <= cp && cp <= 0x213F) || (0x2145 <= cp && cp <= 0x2149) || cp == 0x214E
    || (0x2183 <= cp && cp <= 0x2184) || (0x2C00 <= cp && cp <= 0x2CE4) || (0x2CEB <= cp && cp <= 0x2CEE) || (0x2CF2 <= cp && cp <= 0x2CF3)
}

/// Ranges 272..288 of general category L (letters), `\p{L}`.
pub open spec fn letter_block_17(cp: u32) -> bool {
    (0x2D00 <= cp && cp <= 0x2D25) || cp == 0x2D27 || cp == 0x2D2D || (0x2D30 <= cp && cp <= 0x2D67)
    || cp == 0x2D6F || (0x2D80 <= cp && cp <= 0x2D96) || (0x2DA0 <= cp && cp <= 0x2DA6) || (0x2DA8 <= cp && cp <= 0x2DAE)
    || (0x2DB0 <= cp && cp <= 0x2DB6) || (0x2DB8 <= cp && cp <= 0x2DBE) || (0x2DC0 <= cp && cp <= 0x2DC6) || (0x2DC8 <= cp && cp <= 0x2DCE)
    || (0x2DD0 <= cp && cp <= 0x2DD6) || (0x2DD8 <= cp && cp <= 0x2DDE) || cp == 0x2E2F || (0x3005 <= cp && cp <= 0x3006)
}

/// Ranges 288..304 of general category L (letters), `\p{L}`.
pub open spec fn letter_block_18(cp: u32) -> bool {
    (0x3031 <= cp && cp <= 0x3035) || (0x303B <= cp && cp <= 0x303C) || (0x3041 <= cp && cp <= 0x3096) || (0x309D <= cp && cp <= 0x309F)
    || (0x30A1 <= cp && cp <= 0x30FA) || (0x30FC <= cp && cp <= 0x30FF) || (0x3105 <= cp && cp <= 0x312F) || (0x3131 <= cp && cp <= 0x318E)
    || (0x31A0 <= cp && cp <= 0x31BF) || (0x31F0 <= cp && cp <= 0x31FF) || (0x3400 <= cp && cp <= 0x4DBF) || (0x4E00 <= cp && cp <= 0xA48C)
    || (0xA4D0 <= cp && cp <= 0xA4FD) || (0xA500 <= cp && cp <= 0xA60C) || (0xA610 <= cp && cp <= 0xA61F) || (0xA62A <= cp && cp <= 0xA62B)
}

/// Ranges 304..320 of general category L (letters), `\p{L}`.
pub open spec fn letter_block_19(cp: u32) -> bool {
    (0xA640 <= cp && cp <= 0xA66E) || (0xA67F <= cp && cp <= 0xA69D) || (0xA6A0 <= cp && cp <= 0xA6E5) || (0xA717 <= cp && cp <= 0xA71F)
    || (0xA722 <= cp && cp <= 0xA788) || (0xA78B <= cp && cp <= 0xA7CA) || (0xA7D0 <= cp && cp <= 0xA7D1) || cp == 0xA7D3
    || (0xA7D5 <= cp && cp <= 0xA7D9) || (0xA7F2 <= cp && cp <= 0xA801) || (0xA803 <= cp && cp <= 0xA805) || (0xA807 <= cp && cp <= 0xA80A)
    || (0xA80C <= cp && cp <= 0xA822) || (0xA840 <= cp && cp <= 0xA873) || (0xA882 <= cp && cp <= 0xA8B3) || (0xA8F2 <= cp && cp <= 0xA8F7)
}

/// Ranges 320..336 of general category L (letters), `\p{L}`.
pub open spec fn letter_block_20(cp: u32) -> bool {
    cp == 0xA8FB || (0xA8FD <= cp && cp <= 0xA8FE) || (0xA90A <= cp && cp <= 0xA925) || (0xA930 <= cp && cp <= 0xA946)
    || (0xA960 <= cp && cp <= 0xA97C) || (0xA984 <= cp && cp <= 0xA9B2) || cp == 0xA9CF || (0xA9E0 <= cp && cp <= 0xA9E4)
    || (0xA9E6 <= cp && cp <= 0xA9EF) || (0xA9FA <= cp && cp <= 0xA9FE) || (0xAA00 <= cp && cp <= 0xAA28) || (0xAA40 <= cp && cp <= 0xAA42)
    || (0xAA44 <= cp && cp <= 0xAA4B) || (0xAA60 <= cp && cp <= 0xAA76) || cp == 0xAA7A || (0xAA7E <= cp && cp <= 0xAAAF)
}

/// Ranges 336..352 of general category L (letters), `\p{L}`.
pub open spec fn letter_block_21(cp: u32) -> bool {
    cp == 0xAAB1 || (0xAAB5 <= cp && cp <= 0xAAB6) || (0xAAB9 <= cp && cp <= 0xAABD) || cp == 0xAAC0
    || cp == 0xAAC2 || (0xAADB <= cp && cp <= 0xAADD) || (0xAAE0 <= cp && cp <= 0xAAEA) || (0xAAF2 <= cp && cp <= 0xAAF4)
    || (0xAB01 <= cp && cp <= 0xAB06) || (0xAB09 <= cp && cp <= 0xAB0E) || (0xAB11 <= cp && cp <= 0xAB16) || (0xAB20 <= cp && cp <= 0xAB26)
    || (0xAB28 <= cp && cp <= 0xAB2E) || (0xAB30 <= cp && cp <= 0xAB5A) || (0xAB5C <= cp && cp <= 0xAB69) || (0xAB70 <= cp && cp <= 0xABE2)
}

/// Ranges 352..368 of general category L (letters), `\p{L}`.
pub open spec fn letter_block_22(cp: u32) -> bool {
    (0xAC00 <= cp && cp <= 0xD7A3) || (0xD7B0 <= cp && cp <= 0xD7C6) || (0xD7CB <= cp && cp <= 0xD7FB) || (0xF900 <= cp && cp <= 0xFA6D)
    || (0xFA70 <= cp && cp <= 0xFAD9) || (0xFB00 <= cp && cp <= 0xFB06) || (0xFB13 <= cp && cp <= 0xFB17) || cp == 0xFB1D
    || (0xFB1F <= cp && cp <= 0xFB28) || (0xFB2A <= cp && cp <= 0xFB36) || (0xFB38 <= cp && cp <= 0xFB3C) || cp == 0xFB3E
    || (0xFB40 <= cp && cp <= 0xFB41) || (0xFB43 <= cp && cp <= 0xFB44) || (0xFB46 <= cp && cp <= 0xFBB1) || (0xFBD3 <= cp && cp <= 0xFD3D)
}

/// Ranges 368..384 of general category L (letters), `\p{L}`.
pub open spec fn letter_block_23(cp: u32) -> bool {
    (0xFD50 <= cp && cp <= 0xFD8F) || (0xFD92 <= cp && cp <= 0xFDC7) || (0xFDF0 <= cp && cp <= 0xFDFB) || (0xFE70 <= cp && cp <= 0xFE74)
    || (0xFE76 <= cp && cp <= 0xFEFC) || (0xFF21 <= cp && cp <= 0xFF3A) || (0xFF41 <= cp && cp <= 0xFF5A) || (0xFF66 <= cp && cp <= 0xFFBE)
    || (0xFFC2 <= cp && cp <= 0xFFC7) || (0xFFCA <= cp && cp <= 0xFFCF) || (0xFFD2 <= cp && cp <= 0xFFD7) || (0xFFDA <= cp && cp <= 0xFFDC)
    || (0x10000 <= cp && cp <= 0x1000B) || (0x1000D <= cp && cp <= 0x10026) || (0x10028 <= cp && cp <= 0x1003A) || (0x1003C <= cp && cp <= 0x1003D)
}

/// Ranges 384..400 of general category L (letters), `\p{L}`.
pub open spec fn letter_block_24(cp: u32) -> bool {
    (0x1003F <= cp && cp <= 0x1004D) || (0x10050 <= cp && cp <= 0x1005D) || (0x10080 <= cp && cp <= 0x100FA) || (0x10280 <= cp && cp <= 0x1029C)
    || (0x102A0 <= cp && cp <= 0x102D0) || (0x10300 <= cp && cp <= 0x1031F) || (0x1032D <= cp && cp <= 0x10340) || (0x10342 <= cp && cp <= 0x10349)
    || (0x10350 <= cp && cp <= 0x10375) || (0x10380 <= cp && cp <= 0x1039D) || (0x103A0 <= cp && cp <= 0x103C3) || (0x103C8 <= cp && cp <= 0x103CF)
    || (0x10400 <= cp && cp <= 0x1049D) || (0x104B0 <= cp && cp <= 0x104D3) || (0x104D8 <= cp && cp <= 0x104FB) || (0x10500 <= cp && cp <= 0x10527)
}

/// Ranges 400..416 of general category L (letters), `\p{L}`.
pub open spec fn letter_block_25(cp: u32) -> bool {
    (0x10530 <= cp && cp <= 0x10563) || (0x10570 <= cp && cp <= 0x1057A) || (0x1057C <= cp && cp <= 0x1058A) || (0x1058C <= cp && cp <= 0x10592)
    || (0x10594 <= cp && cp <= 0x10595) || (0x10597 <= cp && cp <= 0x105A1) || (0x105A3 <= cp && cp <= 0x105B1) || (0x105B3 <= cp && cp <= 0x105B9)
    || (0x105BB <= cp && cp <= 0x105BC) || (0x10600 <= cp && cp <= 0x10736) || (0x10740 <= cp && cp <= 0x10755) || (0x10760 <= cp && cp <= 0x10767)
    || (0x10780 <= cp && cp <= 0x10785) || (0x10787 <= cp && cp <= 0x107B0) || (0x107B2 <= cp && cp <= 0x107BA) || (0x10800 <= cp && cp <= 0x10805)
}

/// Ranges 416..432 of general category L (letters), `\p{L}`.
pub open spec fn letter_block_26(cp: u32) -> bool {
    cp == 0x10808 || (0x1080A <= cp && cp <= 0x10835) || (0x10837 <= cp && cp <= 0x10838) || cp == 0x1083C
    || (0x1083F <= cp && cp <= 0x10855) || (0x10860 <= cp && cp <= 0x10876) || (0x10880 <= cp && cp <= 0x1089E) || (0x108E0 <= cp && cp <= 0x108F2)
    || (0x108F4 <= cp && cp <= 0x108F5) || (0x10900 <= cp && cp <= 0x10915) || (0x10920 <= cp && cp <= 0x10939) || (0x10980 <= cp && cp <= 0x109B7)
    || (0x109BE <= cp && cp <= 0x109BF) || cp == 0x10A00 || (0x10A10 <= cp && cp <= 0x10A13) || (0x10A15 <= cp && cp <= 0x10A17)
}

/// Ranges 432..448 of general category L (letters), `\p{L}`.
pub open spec fn letter_block_27(cp: u32) -> bool {
    (0x10A19 <= cp && cp <= 0x10A35) || (0x10A60 <= cp && cp <= 0x10A7C) || (0x10A80 <= cp && cp <= 0x10A9C) || (0x10AC0 <= cp && cp <= 0x10AC7)
    || (0x10AC9 <= cp && cp <= 0x10AE4) || (0x10B00 <= cp && cp <= 0x10B35) || (0x10B40 <= cp && cp <= 0x10B55) || (0x10B60 <= cp && cp <= 0x10B72)
    || (0x10B80 <= cp && cp <= 0x10B91) || (0x10C00 <= cp && cp <= 0x10C48) || (0x10C80 <= cp && cp <= 0x10CB2) || (0x10CC0 <= cp && cp <= 0x10CF2)
    || (0x10D00 <= cp && cp <= 0x10D23) || (0x10E80 <= cp && cp <= 0x10EA9) || (0x10EB0 <= cp && cp <= 0x10EB1) || (0x10F00 <= cp && cp <= 0x10F1C)
}

/// Ranges 448..464 of general category L (letters), `\p{L}`.
pub open spec fn letter_block_28(cp: u32) -> bool {
    cp == 0x10F27 || (0x10F30 <= cp && cp <= 0x10F45) || (0x10F70 <= cp && cp <= 0x10F81) || (0x10FB0 <= cp && cp <= 0x10FC4)
    || (0x10FE0 <= cp && cp <= 0x10FF6) || (0x11003 <= cp && cp <= 0x11037) || (0x11071 <= cp && cp <= 0x11072) || cp == 0x11075
    || (0x11083 <= cp && cp <= 0x110AF) || (0x110D0 <= cp && cp <= 0x110E8) || (0x11103 <= cp && cp <= 0x11126) || cp == 0x11144
    || cp == 0x11147 || (0x11150 <= cp && cp <= 0x11172) || cp == 0x11176 || (0x11183 <= cp && cp <= 0x111B2)
}

/// Ranges 464..480 of general category L (letters), `\p{L}`.
pub open spec fn letter_block_29(cp: u32) -> bool {
    (0x111C1 <= cp && cp <= 0x111C4) || cp == 0x111DA || cp == 0x111DC || (0x11200 <= cp && cp <= 0x11211)
    || (0x11213 <= cp && cp <= 0x1122B) || (0x11280 <= cp && cp <= 0x11286) || cp == 0x11288 || (0x1128A <= cp && cp <= 0x1128D)
    || (0x1128F <= cp && cp <= 0x1129D) || (0x1129F <= cp && cp <= 0x112A8) || (0x112B0 <= cp && cp <= 0x112DE) || (0x11305 <= cp && cp <= 0x1130C)
    || (0x1130F <= cp && cp <= 0x11310) || (0x11313 <= cp && cp <= 0x11328) || (0x1132A <= cp && cp <= 0x11330) || (0x11332 <= cp && cp <= 0x11333)
}

/// Ranges 480..496 of general category L (letters), `\p{L}`.
pub open spec fn letter_block_30(cp: u32) -> bool {
    (0x11335 <= cp && cp <= 0x11339) || cp == 0x1133D || cp == 0x11350 || (0x1135D <= cp && cp <= 0x11361)
    || (0x11400 <= cp && cp <= 0x11434) || (0x11447 <= cp && cp <= 0x1144A) || (0x1145F <= cp && cp <= 0x11461) || (0x11480 <= cp && cp <= 0x114AF)
    || (0x114C4 <= cp && cp <= 0x114C5) || cp == 0x114C7 || (0x11580 <= cp && cp <= 0x115AE) || (0x115D8 <= cp && cp <= 0x115DB)
    || (0x11600 <= cp && cp <= 0x1162F) || cp == 0x11644 || (0x11680 <= cp && cp <= 0x116AA) || cp == 0x116B8
}

/// Ranges 496..512 of general category L (letters), `\p{L}`.
pub open spec fn letter_block_31(cp: u32) -> bool {
    (0x11700 <= cp && cp <= 0x1171A) || (0x11740 <= cp && cp <= 0x11746) || (0x11800 <= cp && cp <= 0x1182B) || (0x118A0 <= cp && cp <= 0x118DF)
    || (0x118FF <= cp && cp <= 0x11906) || cp == 0x11909 || (0x1190C <= cp && cp <= 0x11913) || (0x11915 <= cp && cp <= 0x11916)
    || (0x11918 <= cp && cp <= 0x1192F) || cp == 0x1193F || cp == 0x11941 || (0x119A0 <= cp && cp <= 0x119A7)
    || (0x119AA <= cp && cp <= 0x119D0) || cp == 0x119E1 || cp == 0x119E3 || cp == 0x11A00
}

/// Ranges 512..528 of general category L (letters), `\p{L}`.
pub open spec fn letter_block_32(cp: u32) -> bool {
    (0x11A0B <= cp && cp <= 0x11A32) || cp == 0x11A3A || cp == 0x11A50 || (0x11A5C <= cp && cp <= 0x11A89)
    || cp == 0x11A9D || (0x11AB0 <= cp && cp <= 0x11AF8) || (0x11C00 <= cp && cp <= 0x11C08) || (0x11C0A <= cp && cp <= 0x11C2E)
    || cp == 0x11C40 || (0x11C72 <= cp && cp <= 0x11C8F) || (0x11D00 <= cp && cp <= 0x11D06) || (0x11D08 <= cp && cp <= 0x11D09)
    || (0x11D0B <= cp && cp <= 0x11D30) || cp == 0x11D46 || (0x11D60 <= cp && cp <= 0x11D65) || (0x11D67 <= cp && cp <= 0x11D68)
}

/// Ranges 528..544 of general category L (letters), `\p{L}`.
pub open spec fn letter_block_33(cp: u32) -> bool {
    (0x11D6A <= cp && cp <= 0x11D89) || cp == 0x11D98 || (0x11EE0 <= cp && cp <= 0x11EF2) || cp == 0x11FB0
    || (0x12000 <= cp && cp <= 0x12399) || (0x12480 <= cp && cp <= 0x12543) || (0x12F90 <= cp && cp <= 0x12FF0) || (0x13000 <= cp && cp <= 0x1342E)
    || (0x14400 <= cp && cp <= 0x14646) || (0x16800 <= cp && cp <= 0x16A38) || (0x16A40 <= cp && cp <= 0x16A5E) || (0x16A70 <= cp && cp <= 0x16ABE)
    || (0x16AD0 <= cp && cp <= 0x16AED) || (0x16B00 <= cp && cp <= 0x16B2F) || (0x16B40 <= cp && cp <= 0x16B43) || (0x16B63 <= cp && cp <= 0x16B77)
}

/// Ranges 544..560 of general category L (letters), `\p{L}`.
pub open spec fn letter_block_34(cp: u32) -> bool {
    (0x16B7D <= cp && cp <= 0x16B8F) || (0x16E40 <= cp && cp <= 0x16E7F) || (0x16F00 <= cp && cp <= 0x16F4A) || cp == 0x16F50
    || (0x16F93 <= cp && cp <= 0x16F9F) || (0x16FE0 <= cp && cp <= 0x16FE1) || cp == 0x16FE3 || (0x17000 <= cp && cp <= 0x187F7)
    || (0x18800 <= cp && cp <= 0x18CD5) || (0x18D00 <= cp && cp <= 0x18D08) || (0x1AFF0 <= cp && cp <= 0x1AFF3) || (0x1AFF5 <= cp && cp <= 0x1AFFB)
    || (0x1AFFD <= cp && cp <= 0x1AFFE) || (0x1B000 <= cp && cp <= 0x1B122) || (0x1B150 <= cp && cp <= 0x1B152) || (0x1B164 <= cp && cp <= 0x1B167)
}

/// Ranges 560..576 of general category L (letters), `\p{L}`.
pub open spec fn letter_block_35(cp: u32) -> bool {
    (0x1B170 <= cp && cp <= 0x1B2FB) || (0x1BC00 <= cp && cp <= 0x1BC6A) || (0x1BC70 <= cp && cp <= 0x1BC7C) || (0x1BC80 <= cp && cp <= 0x1BC88)
    || (0x1BC90 <= cp && cp <= 0x1BC99) || (0x1D400 <= cp && cp <= 0x1D454) || (0x1D456 <= cp && cp <= 0x1D49C) || (0x1D49E <= cp && cp <= 0x1D49F)
    || cp == 0x1D4A2 || (0x1D4A5 <= cp && cp <= 0x1D4A6) || (0x1D4A9 <= cp && cp <= 0x1D4AC) || (0x1D4AE <= cp && cp <= 0x1D4B9)
    || cp == 0x1D4BB || (0x1D4BD <= cp && cp <= 0x1D4C3) || (0x1D4C5 <= cp && cp <= 0x1D505) || (0x1D507 <= cp && cp <= 0x1D50A)
}

/// Ranges 576..592 of general category L (letters), `\p{L}`.
pub open spec fn letter_block_36(cp: u32) -> bool {
    (0x1D50D <= cp && cp <= 0x1D514) || (0x1D516 <= cp && cp <= 0x1D51C) || (0x1D51E <= cp && cp <= 0x1D539) || (0x1D53B <= cp && cp <= 0x1D53E)
    || (0x1D540 <= cp && cp <= 0x1D544) || cp == 0x1D546 || (0x1D54A <= cp && cp <= 0x1D550) || (0x1D552 <= cp && cp <= 0x1D6A5)
    || (0x1D6A8 <= cp && cp <= 0x1D6C0) || (0x1D6C2 <= cp && cp <= 0x1D6DA) || (0x1D6DC <= cp && cp <= 0x1D6FA) || (0x1D6FC <= cp && cp <= 0x1D714)
    || (0x1D716 <= cp && cp <= 0x1D734) || (0x1D736 <= cp && cp <= 0x1D74E) || (0x1D750 <= cp && cp <= 0x1D76E) || (0x1D770 <= cp && cp <= 0x1D788)
}

/// Ranges 592..608 of general category L (letters), `\p{L}`.
pub open spec fn letter_block_37(cp: u32) -> bool {
    (0x1D78A <= cp && cp <= 0x1D7A8) || (0x1D7AA <= cp && cp <= 0x1D7C2) || (0x1D7C4 <= cp && cp <= 0x1D7CB) || (0x1DF00 <= cp && cp <= 0x1DF1E)
    || (0x1E100 <= cp && cp <= 0x1E12C) || (0x1E137 <= cp && cp <= 0x1E13D) || cp == 0x1E14E || (0x1E290 <= cp && cp <= 0x1E2AD)
    || (0x1E2C0 <= cp && cp <= 0x1E2EB) || (0x1E7E0 <= cp && cp <= 0x1E7E6) || (0x1E7E8 <= cp && cp <= 0x1E7EB) || (0x1E7ED <= cp && cp <= 0x1E7EE)
    || (0x1E7F0 <= cp && cp <= 0x1E7FE) || (0x1E800 <= cp && cp <= 0x1E8C4) || (0x1E900 <= cp && cp <= 0x1E943) || cp == 0x1E94B
}

/// Ranges 608..624 of general category L (letters), `\p{L}`.
pub open spec fn letter_block_38(cp: u32) -> bool {
    (0x1EE00 <= cp && cp <= 0x1EE03) || (0x1EE05 <= cp && cp <= 0x1EE1F) || (0x1EE21 <= cp && cp <= 0x1EE22) || cp == 0x1EE24
    || cp == 0x1EE27 || (0x1EE29 <= cp && cp <= 0x1EE32) || (0x1EE34 <= cp && cp <= 0x1EE37) || cp == 0x1EE39
    || cp == 0x1EE3B || cp == 0x1EE42 || cp == 0x1EE47 || cp == 0x1EE49
    || cp == 0x1EE4B || (0x1EE4D <= cp && cp <= 0x1EE4F) || (0x1EE51 <= cp && cp <= 0x1EE52) || cp == 0x1EE54
}

/// Ranges 624..640 of general category L (letters), `\p{L}`.
pub open spec fn letter_block_39(cp: u32) -> bool {
    cp == 0x1EE57 || cp == 0x1EE59 || cp == 0x1EE5B || cp == 0x1EE5D
    || cp == 0x1EE5F || (0x1EE61 <= cp && cp <= 0x1EE62) || cp == 0x1EE64 || (0x1EE67 <= cp && cp <= 0x1EE6A)
    || (0x1EE6C <= cp && cp <= 0x1EE72) || (0x1EE74 <= cp && cp <= 0x1EE77) || (0x1EE79 <= cp && cp <= 0x1EE7C) || cp == 0x1EE7E
    || (0x1EE80 <= cp && cp <= 0x1EE89) || (0x1EE8B <= cp && cp <= 0x1EE9B) || (0x1EEA1 <= cp && cp <= 0x1EEA3) || (0x1EEA5 <= cp && cp <= 0x1EEA9)
}

/// Ranges 640..648 of general category L (letters), `\p{L}`.
pub open spec fn letter_block_40(cp: u32) -> bool {
    (0x1EEAB <= cp && cp <= 0x1EEBB) || (0x20000 <= cp && cp <= 0x2A6DF) || (0x2A700 <= cp && cp <= 0x2B738) || (0x2B740 <= cp && cp <= 0x2B81D)
    || (0x2B820 <= cp && cp <= 0x2CEA1) || (0x2CEB0 <= cp && cp <= 0x2EBE0) || (0x2F800 <= cp && cp <= 0x2FA1D) || (0x30000 <= cp && cp <= 0x3134A)
}

/// Membership in general category L (letters), `\p{L}` (648 ranges).
pub open spec fn letter_class(cp: u32) -> bool {
    letter_block_0(cp) || letter_block_1(cp) || letter_block_2(cp) || letter_block_3(cp)
    || letter_block_4(cp) || letter_block_5(cp) || letter_block_6(cp) || letter_block_7(cp)
    || letter_block_8(cp) || letter_block_9(cp) || letter_block_10(cp) || letter_block_11(cp)
    || letter_block_12(cp) || letter_block_13(cp) || letter_block_14(cp) || letter_block_15(cp)
    || letter_block_16(cp) || letter_block_17(cp) || letter_block_18(cp) || letter_block_19(cp)
    || letter_block_20(cp) || letter_block_21(cp) || letter_block_22(cp) || letter_block_23(cp)
    || letter_block_24(cp) || letter_block_25(cp) || letter_block_26(cp) || letter_block_27(cp)
    || letter_block_28(cp) || letter_block_29(cp) || letter_block_30(cp) || letter_block_31(cp)
    || letter_block_32(cp) || letter_block_33(cp) || letter_block_34(cp) || letter_block_35(cp)
    || letter_block_36(cp) || letter_block_37(cp) || letter_block_38(cp) || letter_block_39(cp)
    || letter_block_40(cp)
}

/// Executable membership in general category L (letters), `\p{L}`.
pub fn letter_cp(cp: u32) -> (r: bool)
    ensures
        r == letter_class(cp),
{
    if cp < 0xA8FB {
        if cp < 0x103F {
            if cp < 0xA8F {
                if cp < 0x6E5 {
                    if cp < 0x386 {
                        (0x41 <= cp && cp <= 0x5A) || (0x61 <= cp && cp <= 0x7A) || cp == 0xAA || cp == 0xB5
                            || cp == 0xBA || (0xC0 <= cp && cp <= 0xD6) || (0xD8 <= cp && cp <= 0xF6) || (0xF8 <= cp && cp <= 0x2C1)
                            || (0x2C6 <= cp && cp <= 0x2D1) || (0x2E0 <= cp && cp <= 0x2E4) || cp == 0x2EC || cp == 0x2EE
                            || (0x370 <= cp && cp <= 0x374) || (0x376 <= cp && cp <= 0x377) || (0x37A <= cp && cp <= 0x37D) || cp == 0x37F
                    } else {
                        cp == 0x386 || (0x388 <= cp && cp <= 0x38A) || cp == 0x38C || (0x38E <= cp && cp <= 0x3A1)
                            || (0x3A3 <= cp && cp <= 0x3F5) || (0x3F7 <= cp && cp <= 0x481) || (0x48A <= cp && cp <= 0x52F) || (0x531 <= cp && cp <= 0x556)
                            || cp == 0x559 || (0x560 <= cp && cp <= 0x588) || (0x5D0 <= cp && cp <= 0x5EA) || (0x5EF <= cp && cp <= 0x5F2)
                            || (0x620 <= cp && cp <= 0x64A) || (0x66E <= cp && cp <= 0x66F) || (0x671 <= cp && cp <= 0x6D3) || cp == 0x6D5
                    }
                } else {
                    if cp < 0x860 {
                        (0x6E5 <= cp && cp <= 0x6E6) || (0x6EE <= cp && cp <= 0x6EF) || (0x6FA <= cp && cp <= 0x6FC) || cp == 0x6FF
                            || cp == 0x710 || (0x712 <= cp && cp <= 0x72F) || (0x74D <= cp && cp <= 0x7A5) || cp == 0x7B1
                            || (0x7CA <= cp && cp <= 0x7EA) || (0x7F4 <= cp && cp <= 0x7F5) || cp == 0x7FA || (0x800 <= cp && cp <= 0x815)
                            || cp == 0x81A || cp == 0x824 || cp == 0x828 || (0x840 <= cp && cp <= 0x858)
                    } else {
                        if cp < 0x9CE {
                            (0x860 <= cp && cp <= 0x86A) || (0x870 <= cp && cp <= 0x887) || (0x889 <= cp && cp <= 0x88E) || (0x8A0 <= cp && cp <= 0x8C9)
                                || (0x904 <= cp && cp <= 0x939) || cp == 0x93D || cp == 0x950 || (0x958 <= cp && cp <= 0x961)
                                || (0x971 <= cp && cp <= 0x980) || (0x985 <= cp && cp <= 0x98C) || (0x98F <= cp && cp <= 0x990) || (0x993 <= cp && cp <= 0x9A8)
                                || (0x9AA <= cp && cp <= 0x9B0) || cp == 0x9B2 || (0x9B6 <= cp && cp <= 0x9B9) || cp == 0x9BD
                        } else {
                            cp == 0x9CE || (0x9DC <= cp && cp <= 0x9DD) || (0x9DF <= cp && cp <= 0x9E1) || (0x9F0 <= cp && cp <= 0x9F1)
                                || cp == 0x9FC || (0xA05 <= cp && cp <= 0xA0A) || (0xA0F <= cp && cp <= 0xA10) || (0xA13 <= cp && cp <= 0xA28)
                                || (0xA2A <= cp && cp <= 0xA30) || (0xA32 <= cp && cp <= 0xA33) || (0xA35 <= cp && cp <= 0xA36) || (0xA38 <= cp && cp <= 0xA39)
                                || (0xA59 <= cp && cp <= 0xA5C) || cp == 0xA5E || (0xA72 <= cp && cp <= 0xA74) || (0xA85 <= cp && cp <= 0xA8D)
                        }
                    }
                }
            } else {
                if cp < 0xC12 {
                    if cp < 0xB5C {
                        (0xA8F <= cp && cp <= 0xA91) || (0xA93 <= cp && cp <= 0xAA8) || (0xAAA <= cp && cp <= 0xAB0) || (0xAB2 <= cp && cp <= 0xAB3)
                            || (0xAB5 <= cp && cp <= 0xAB9) || cp == 0xABD || cp == 0xAD0 || (0xAE0 <= cp && cp <= 0xAE1)
                            || cp == 0xAF9 || (0xB05 <= cp && cp <= 0xB0C) || (0xB0F <= cp && cp <= 0xB10) || (0xB13 <= cp && cp <= 0xB28)
                            || (0xB2A <= cp && cp <= 0xB30) || (0xB32 <= cp && cp <= 0xB33) || (0xB35 <= cp && cp <= 0xB39) || cp == 0xB3D
                    } else {
                        (0xB5C <= cp && cp <= 0xB5D) || (0xB5F <= cp && cp <= 0xB61) || cp == 0xB71 || cp == 0xB83
                            || (0xB85 <= cp && cp <= 0xB8A) || (0xB8E <= cp && cp <= 0xB90) || (0xB92 <= cp && cp <= 0xB95) || (0xB99 <= cp && cp <= 0xB9A)
                            || cp == 0xB9C || (0xB9E <= cp && cp <= 0xB9F) || (0xBA3 <= cp && cp <= 0xBA4) || (0xBA8 <= cp && cp <= 0xBAA)
                            || (0xBAE <= cp && cp <= 0xBB9) || cp == 0xBD0 || (0xC05 <= cp && cp <= 0xC0C) || (0xC0E <= cp && cp <= 0xC10)
                    }
                } else {
                    if cp < 0xD04 {
                        (0xC12 <= cp && cp <= 0xC28) || (0xC2A <= cp && cp <= 0xC39) || cp == 0xC3D || (0xC58 <= cp && cp <= 0xC5A)
                            || cp == 0xC5D || (0xC60 <= cp && cp <= 0xC61) || cp == 0xC80 || (0xC85 <= cp && cp <= 0xC8C)
                            || (0xC8E <= cp && cp <= 0xC90) || (0xC92 <= cp && cp <= 0xCA8) || (0xCAA <= cp && cp <= 0xCB3) || (0xCB5 <= cp && cp <= 0xCB9)
                            || cp == 0xCBD || (0xCDD <= cp && cp <= 0xCDE) || (0xCE0 <= cp && cp <= 0xCE1) || (0xCF1 <= cp && cp <= 0xCF2)
                    } else {
                        if cp < 0xE81 {
                            (0xD04 <= cp && cp <= 0xD0C) || (0xD0E <= cp && cp <= 0xD10) || (0xD12 <= cp && cp <= 0xD3A) || cp == 0xD3D
                                || cp == 0xD4E || (0xD54 <= cp && cp <= 0xD56) || (0xD5F <= cp && cp <= 0xD61) || (0xD7A <= cp && cp <= 0xD7F)
                                || (0xD85 <= cp && cp <= 0xD96) || (0xD9A <= cp && cp <= 0xDB1) || (0xDB3 <= cp && cp <= 0xDBB) || cp == 0xDBD
                                || (0xDC0 <= cp && cp <= 0xDC6) || (0xE01 <= cp && cp <= 0xE30) || (0xE32 <= cp && cp <= 0xE33) || (0xE40 <= cp && cp <= 0xE46)
                        } else {
                            (0xE81 <= cp && cp <= 0xE82) || cp == 0xE84 || (0xE86 <= cp && cp <= 0xE8A) || (0xE8C <= cp && cp <= 0xEA3)
                                || cp == 0xEA5 || (0xEA7 <= cp && cp <= 0xEB0) || (0xEB2 <= cp && cp <= 0xEB3) || cp == 0xEBD
                                || (0xEC0 <= cp && cp <= 0xEC4) || cp == 0xEC6 || (0xEDC <= cp && cp <= 0xEDF) || cp == 0xF00
                                || (0xF40 <= cp && cp <= 0xF47) || (0xF49 <= cp && cp <= 0xF6C) || (0xF88 <= cp && cp <= 0xF8C) || (0x1000 <= cp && cp <= 0x102A)
                        }
                    }
                }
            }
        } else {
            if cp < 0x1F5D {
                if cp < 0x166F {
                    if cp < 0x125A {
                        cp == 0x103F || (0x1050 <= cp && cp <= 0x1055) || (0x105A <= cp && cp <= 0x105D) || cp == 0x1061
                            || (0x1065 <= cp && cp <= 0x1066) || (0x106E <= cp && cp <= 0x1070) || (0x1075 <= cp && cp <= 0x1081) || cp == 0x108E
                            || (0x10A0 <= cp && cp <= 0x10C5) || cp == 0x10C7 || cp == 0x10CD || (0x10D0 <= cp && cp <= 0x10FA)
                            || (0x10FC <= cp && cp <= 0x1248) || (0x124A <= cp && cp <= 0x124D) || (0x1250 <= cp && cp <= 0x1256) || cp == 0x1258
                    } else {
                        (0x125A <= cp && cp <= 0x125D) || (0x1260 <= cp && cp <= 0x1288) || (0x128A <= cp && cp <= 0x128D) || (0x1290 <= cp && cp <= 0x12B0)
                            || (0x12B2 <= cp && cp <= 0x12B5) || (0x12B8 <= cp && cp <= 0x12BE) || cp == 0x12C0 || (0x12C2 <= cp && cp <= 0x12C5)
                            || (0x12C8 <= cp && cp <= 0x12D6) || (0x12D8 <= cp && cp <= 0x1310) || (0x1312 <= cp && cp <= 0x1315) || (0x1318 <= cp && cp <= 0x135A)
                            || (0x1380 <= cp && cp <= 0x138F) || (0x13A0 <= cp && cp <= 0x13F5) || (0x13F8 <= cp && cp <= 0x13FD) || (0x1401 <= cp && cp <= 0x166C)
                    }
                } else {
                    if cp < 0x18B0 {
                        (0x166F <= cp && cp <= 0x167F) || (0x1681 <= cp && cp <= 0x169A) || (0x16A0 <= cp && cp <= 0x16EA) || (0x16F1 <= cp && cp <= 0x16F8)
                            || (0x1700 <= cp && cp <= 0x1711) || (0x171F <= cp && cp <= 0x1731) || (0x1740 <= cp && cp <= 0x1751) || (0x1760 <= cp && cp <= 0x176C)
                            || (0x176E <= cp && cp <= 0x1770) || (0x1780 <= cp && cp <= 0x17B3) || cp == 0x17D7 || cp == 0x17DC
                            || (0x1820 <= cp && cp <= 0x1878) || (0x1880 <= cp && cp <= 0x1884) || (0x1887 <= cp && cp <= 0x18A8) || cp == 0x18AA
                    } else {
                        if cp < 0x1C5A {
                            (0x18B0 <= cp && cp <= 0x18F5) || (0x1900 <= cp && cp <= 0x191E) || (0x1950 <= cp && cp <= 0x196D) || (0x1970 <= cp && cp <= 0x1974)
                                || (0x1980 <= cp && cp <= 0x19AB) || (0x19B0 <= cp && cp <= 0x19C9) || (0x1A00 <= cp && cp <= 0x1A16) || (0x1A20 <= cp && cp <= 0x1A54)
                                || cp == 0x1AA7 || (0x1B05 <= cp && cp <= 0x1B33) || (0x1B45 <= cp && cp <= 0x1B4C) || (0x1B83 <= cp && cp <= 0x1BA0)
                                || (0x1BAE <= cp && cp <= 0x1BAF) || (0x1BBA <= cp && cp <= 0x1BE5) || (0x1C00 <= cp && cp <= 0x1C23) || (0x1C4D <= cp && cp <= 0x1C4F)
                        } else {
                            (0x1C5A <= cp && cp <= 0x1C7D) || (0x1C80 <= cp && cp <= 0x1C88) || (0x1C90 <= cp && cp <= 0x1CBA) || (0x1CBD <= cp && cp <= 0x1CBF)
                                || (0x1CE9 <= cp && cp <= 0x1CEC) || (0x1CEE <= cp && cp <= 0x1CF3) || (0x1CF5 <= cp && cp <= 0x1CF6) || cp == 0x1CFA
                                || (0x1D00 <= cp && cp <= 0x1DBF) || (0x1E00 <= cp && cp <= 0x1F15) || (0x1F18 <= cp && cp <= 0x1F1D) || (0x1F20 <= cp && cp <= 0x1F45)
                                || (0x1F48 <= cp && cp <= 0x1F4D) || (0x1F50 <= cp && cp <= 0x1F57) || cp == 0x1F59 || cp == 0x1F5B
                        }
                    }
                }
            } else {
                if cp < 0x2D00 {
                    if cp < 0x2107 {
                        cp == 0x1F5D || (0x1F5F <= cp && cp <= 0x1F7D) || (0x1F80 <= cp && cp <= 0x1FB4) || (0x1FB6 <= cp && cp <= 0x1FBC)
                            || cp == 0x1FBE || (0x1FC2 <= cp && cp <= 0x1FC4) || (0x1FC6 <= cp && cp <= 0x1FCC) || (0x1FD0 <= cp && cp <= 0x1FD3)
                            || (0x1FD6 <= cp && cp <= 0x1FDB) || (0x1FE0 <= cp && cp <= 0x1FEC) || (0x1FF2 <= cp && cp <= 0x1FF4) || (0x1FF6 <= cp && cp <= 0x1FFC)
                            || cp == 0x2071 || cp == 0x207F || (0x2090 <= cp && cp <= 0x209C) || cp == 0x2102
                    } else {
                        cp == 0x2107 || (0x210A <= cp && cp <= 0x2113) || cp == 0x2115 || (0x2119 <= cp && cp <= 0x211D)
                            || cp == 0x2124 || cp == 0x2126 || cp == 0x2128 || (0x212A <= cp && cp <= 0x212D)
                            || (0x212F <= cp && cp <= 0x2139) || (0x213C <= cp && cp <= 0x213F) || (0x2145 <= cp && cp <= 0x2149) || cp == 0x214E
                            || (0x2183 <= cp && cp <= 0x2184) || (0x2C00 <= cp && cp <= 0x2CE4) || (0x2CEB <= cp && cp <= 0x2CEE) || (0x2CF2 <= cp && cp <= 0x2CF3)
                    }
                } else {
                    if cp < 0x3031 {
                        (0x2D00 <= cp && cp <= 0x2D25) || cp == 0x2D27 || cp == 0x2D2D || (0x2D30 <= cp && cp <= 0x2D67)
                            || cp == 0x2D6F || (0x2D80 <= cp && cp <= 0x2D96) || (0x2DA0 <= cp && cp <= 0x2DA6) || (0x2DA8 <= cp && cp <= 0x2DAE)
                            || (0x2DB0 <= cp && cp <= 0x2DB6) || (0x2DB8 <= cp && cp <= 0x2DBE) || (0x2DC0 <= cp && cp <= 0x2DC6) || (0x2DC8 <= cp && cp <= 0x2DCE)
                            || (0x2DD0 <= cp && cp <= 0x2DD6) || (0x2DD8 <= cp && cp <= 0x2DDE) || cp == 0x2E2F || (0x3005 <= cp && cp <= 0x3006)
                    } else {
                        if cp < 0xA640 {
                            (0x3031 <= cp && cp <= 0x3035) || (0x303B <= cp && cp <= 0x303C) || (0x3041 <= cp && cp <= 0x3096) || (0x309D <= cp && cp <= 0x309F)
                                || (0x30A1 <= cp && cp <= 0x30FA) || (0x30FC <= cp && cp <= 0x30FF) || (0x3105 <= cp && cp <= 0x312F) || (0x3131 <= cp && cp <= 0x318E)
                                || (0x31A0 <= cp && cp <= 0x31BF) || (0x31F0 <= cp && cp <= 0x31FF) || (0x3400 <= cp && cp <= 0x4DBF) || (0x4E00 <= cp && cp <= 0xA48C)
                                || (0xA4D0 <= cp && cp <= 0xA4FD) || (0xA500 <= cp && cp <= 0xA60C) || (0xA610 <= cp && cp <= 0xA61F) || (0xA62A <= cp && cp <= 0xA62B)
                        } else {
                            (0xA640 <= cp && cp <= 0xA66E) || (0xA67F <= cp && cp <= 0xA69D) || (0xA6A0 <= cp && cp <= 0xA6E5) || (0xA717 <= cp && cp <= 0xA71F)
                                || (0xA722 <= cp && cp <= 0xA788) || (0xA78B <= cp && cp <= 0xA7CA) || (0xA7D0 <= cp && cp <= 0xA7D1) || cp == 0xA7D3
                                || (0xA7D5 <= cp && cp <= 0xA7D9) || (0xA7F2 <= cp && cp <= 0xA801) || (0xA803 <= cp && cp <= 0xA805) || (0xA807 <= cp && cp <= 0xA80A)
                                || (0xA80C <= cp && cp <= 0xA822) || (0xA840 <= cp && cp <= 0xA873) || (0xA882 <= cp && cp <= 0xA8B3) || (0xA8F2 <= cp && cp <= 0xA8F7)
                        }
                    }
                }
            }
        }
    } else {
        if cp < 0x11335 {
            if cp < 0x10530 {
                if cp < 0xAC00 {
                    if cp < 0xAAB1 {
                        cp == 0xA8FB || (0xA8FD <= cp && cp <= 0xA8FE) || (0xA90A <= cp && cp <= 0xA925) || (0xA930 <= cp && cp <= 0xA946)
                            || (0xA960 <= cp && cp <= 0xA97C) || (0xA984 <= cp && cp <= 0xA9B2) || cp == 0xA9CF || (0xA9E0 <= cp && cp <= 0xA9E4)
                            || (0xA9E6 <= cp && cp <= 0xA9EF) || (0xA9FA <= cp && cp <= 0xA9FE) || (0xAA00 <= cp && cp <= 0xAA28) || (0xAA40 <= cp && cp <= 0xAA42)
                            || (0xAA44 <= cp && cp <= 0xAA4B) || (0xAA60 <= cp && cp <= 0xAA76) || cp == 0xAA7A || (0xAA7E <= cp && cp <= 0xAAAF)
                    } else {
                        cp == 0xAAB1 || (0xAAB5 <= cp && cp <= 0xAAB6) || (0xAAB9 <= cp && cp <= 0xAABD) || cp == 0xAAC0
                            || cp == 0xAAC2 || (0xAADB <= cp && cp <= 0xAADD) || (0xAAE0 <= cp && cp <= 0xAAEA) || (0xAAF2 <= cp && cp <= 0xAAF4)
                            || (0xAB01 <= cp && cp <= 0xAB06) || (0xAB09 <= cp && cp <= 0xAB0E) || (0xAB11 <= cp && cp <= 0xAB16) || (0xAB20 <= cp && cp <= 0xAB26)
                            || (0xAB28 <= cp && cp <= 0xAB2E) || (0xAB30 <= cp && cp <= 0xAB5A) || (0xAB5C <= cp && cp <= 0xAB69) || (0xAB70 <= cp && cp <= 0xABE2)
                    }
                } else {
                    if cp < 0xFD50 {
                        (0xAC00 <= cp && cp <= 0xD7A3) || (0xD7B0 <= cp && cp <= 0xD7C6) || (0xD7CB <= cp && cp <= 0xD7FB) || (0xF900 <= cp && cp <= 0xFA6D)
                            || (0xFA70 <= cp && cp <= 0xFAD9) || (0xFB00 <= cp && cp <= 0xFB06) || (0xFB13 <= cp && cp <= 0xFB17) || cp == 0xFB1D
                            || (0xFB1F <= cp && cp <= 0xFB28) || (0xFB2A <= cp && cp <= 0xFB36) || (0xFB38 <= cp && cp <= 0xFB3C) || cp == 0xFB3E
                            || (0xFB40 <= cp && cp <= 0xFB41) || (0xFB43 <= cp && cp <= 0xFB44) || (0xFB46 <= cp && cp <= 0xFBB1) || (0xFBD3 <= cp && cp <= 0xFD3D)
                    } else {
                        if cp < 0x1003F {
                            (0xFD50 <= cp && cp <= 0xFD8F) || (0xFD92 <= cp && cp <= 0xFDC7) || (0xFDF0 <= cp && cp <= 0xFDFB) || (0xFE70 <= cp && cp <= 0xFE74)
                                || (0xFE76 <= cp && cp <= 0xFEFC) || (0xFF21 <= cp && cp <= 0xFF3A) || (0xFF41 <= cp && cp <= 0xFF5A) || (0xFF66 <= cp && cp <= 0xFFBE)
                                || (0xFFC2 <= cp && cp <= 0xFFC7) || (0xFFCA <= cp && cp <= 0xFFCF) || (0xFFD2 <= cp && cp <= 0xFFD7) || (0xFFDA <= cp && cp <= 0xFFDC)
                                || (0x10000 <= cp && cp <= 0x1000B) || (0x1000D <= cp && cp <= 0x10026) || (0x10028 <= cp && cp <= 0x1003A) || (0x1003C <= cp && cp <= 0x1003D)
                        } else {
                            (0x1003F <= cp && cp <= 0x1004D) || (0x10050 <= cp && cp <= 0x1005D) || (0x10080 <= cp && cp <= 0x100FA) || (0x10280 <= cp && cp <= 0x1029C)
                                || (0x102A0 <= cp && cp <= 0x102D0) || (0x10300 <= cp && cp <= 0x1031F) || (0x1032D <= cp && cp <= 0x10340) || (0x10342 <= cp && cp <= 0x10349)
                                || (0x10350 <= cp && cp <= 0x10375) || (0x10380 <= cp && cp <= 0x1039D) || (0x103A0 <= cp && cp <= 0x103C3) || (0x103C8 <= cp && cp <= 0x103CF)
                                || (0x10400 <= cp && cp <= 0x1049D) || (0x104B0 <= cp && cp <= 0x104D3) || (0x104D8 <= cp && cp <= 0x104FB) || (0x10500 <= cp && cp <= 0x10527)
                        }
                    }
                }
            } else {
                if cp < 0x10A19 {
                    if cp < 0x10808 {
                        (0x10530 <= cp && cp <= 0x10563) || (0x10570 <= cp && cp <= 0x1057A) || (0x1057C <= cp && cp <= 0x1058A) || (0x1058C <= cp && cp <= 0x10592)
                            || (0x10594 <= cp && cp <= 0x10595) || (0x10597 <= cp && cp <= 0x105A1) || (0x105A3 <= cp && cp <= 0x105B1) || (0x105B3 <= cp && cp <= 0x105B9)
                            || (0x105BB <= cp && cp <= 0x105BC) || (0x10600 <= cp && cp <= 0x10736) || (0x10740 <= cp && cp <= 0x10755) || (0x10760 <= cp && cp <= 0x10767)
                            || (0x10780 <= cp && cp <= 0x10785) || (0x10787 <= cp && cp <= 0x107B0) || (0x107B2 <= cp && cp <= 0x107BA) || (0x10800 <= cp && cp <= 0x10805)
                    } else {
                        cp == 0x10808 || (0x1080A <= cp && cp <= 0x10835) || (0x10837 <= cp && cp <= 0x10838) || cp == 0x1083C
                            || (0x1083F <= cp && cp <= 0x10855) || (0x10860 <= cp && cp <= 0x10876) || (0x10880 <= cp && cp <= 0x1089E) || (0x108E0 <= cp && cp <= 0x108F2)
                            || (0x108F4 <= cp && cp <= 0x108F5) || (0x10900 <= cp && cp <= 0x10915) || (0x10920 <= cp && cp <= 0x10939) || (0x10980 <= cp && cp <= 0x109B7)
                            || (0x109BE <= cp && cp <= 0x109BF) || cp == 0x10A00 || (0x10A10 <= cp && cp <= 0x10A13) || (0x10A15 <= cp && cp <= 0x10A17)
                    }
                } else {
                    if cp < 0x10F27 {
                        (0x10A19 <= cp && cp <= 0x10A35) || (0x10A60 <= cp && cp <= 0x10A7C) || (0x10A80 <= cp && cp <= 0x10A9C) || (0x10AC0 <= cp && cp <= 0x10AC7)
                            || (0x10AC9 <= cp && cp <= 0x10AE4) || (0x10B00 <= cp && cp <= 0x10B35) || (0x10B40 <= cp && cp <= 0x10B55) || (0x10B60 <= cp && cp <= 0x10B72)
                            || (0x10B80 <= cp && cp <= 0x10B91) || (0x10C00 <= cp && cp <= 0x10C48) || (0x10C80 <= cp && cp <= 0x10CB2) || (0x10CC0 <= cp && cp <= 0x10CF2)
                            || (0x10D00 <= cp && cp <= 0x10D23) || (0x10E80 <= cp && cp <= 0x10EA9) || (0x10EB0 <= cp && cp <= 0x10EB1) || (0x10F00 <= cp && cp <= 0x10F1C)
                    } else {
                        if cp < 0x111C1 {
                            cp == 0x10F27 || (0x10F30 <= cp && cp <= 0x10F45) || (0x10F70 <= cp && cp <= 0x10F81) || (0x10FB0 <= cp && cp <= 0x10FC4)
                                || (0x10FE0 <= cp && cp <= 0x10FF6) || (0x11003 <= cp && cp <= 0x11037) || (0x11071 <= cp && cp <= 0x11072) || cp == 0x11075
                                || (0x11083 <= cp && cp <= 0x110AF) || (0x110D0 <= cp && cp <= 0x110E8) || (0x11103 <= cp && cp <= 0x11126) || cp == 0x11144
                                || cp == 0x11147 || (0x11150 <= cp && cp <= 0x11172) || cp == 0x11176 || (0x11183 <= cp && cp <= 0x111B2)
                        } else {
                            (0x111C1 <= cp && cp <= 0x111C4) || cp == 0x111DA || cp == 0x111DC || (0x11200 <= cp && cp <= 0x11211)
                                || (0x11213 <= cp && cp <= 0x1122B) || (0x11280 <= cp && cp <= 0x11286) || cp == 0x11288 || (0x1128A <= cp && cp <= 0x1128D)
                                || (0x1128F <= cp && cp <= 0x1129D) || (0x1129F <= cp && cp <= 0x112A8) || (0x112B0 <= cp && cp <= 0x112DE) || (0x11305 <= cp && cp <= 0x1130C)
                                || (0x1130F <= cp && cp <= 0x11310) || (0x11313 <= cp && cp <= 0x11328) || (0x1132A <= cp && cp <= 0x11330) || (0x11332 <= cp && cp <= 0x11333)
                        }
                    }
                }
            }
        } else {
            if cp < 0x1B170 {
                if cp < 0x11A0B {
                    if cp < 0x11700 {
                        (0x11335 <= cp && cp <= 0x11339) || cp == 0x1133D || cp == 0x11350 || (0x1135D <= cp && cp <= 0x11361)
                            || (0x11400 <= cp && cp <= 0x11434) || (0x11447 <= cp && cp <= 0x1144A) || (0x1145F <= cp && cp <= 0x11461) || (0x11480 <= cp && cp <= 0x114AF)
                            || (0x114C4 <= cp && cp <= 0x114C5) || cp == 0x114C7 || (0x11580 <= cp && cp <= 0x115AE) || (0x115D8 <= cp && cp <= 0x115DB)
                            || (0x11600 <= cp && cp <= 0x1162F) || cp == 0x11644 || (0x11680 <= cp && cp <= 0x116AA) || cp == 0x116B8
                    } else {
                        (0x11700 <= cp && cp <= 0x1171A) || (0x11740 <= cp && cp <= 0x11746) || (0x11800 <= cp && cp <= 0x1182B) || (0x118A0 <= cp && cp <= 0x118DF)
                            || (0x118FF <= cp && cp <= 0x11906) || cp == 0x11909 || (0x1190C <= cp && cp <= 0x11913) || (0x11915 <= cp && cp <= 0x11916)
                            || (0x11918 <= cp && cp <= 0x1192F) || cp == 0x1193F || cp == 0x11941 || (0x119A0 <= cp && cp <= 0x119A7)
                            || (0x119AA <= cp && cp <= 0x119D0) || cp == 0x119E1 || cp == 0x119E3 || cp == 0x11A00
                    }
                } else {
                    if cp < 0x11D6A {
                        (0x11A0B <= cp && cp <= 0x11A32) || cp == 0x11A3A || cp == 0x11A50 || (0x11A5C <= cp && cp <= 0x11A89)
                            || cp == 0x11A9D || (0x11AB0 <= cp && cp <= 0x11AF8) || (0x11C00 <= cp && cp <= 0x11C08) || (0x11C0A <= cp && cp <= 0x11C2E)
                            || cp == 0x11C40 || (0x11C72 <= cp && cp <= 0x11C8F) || (0x11D00 <= cp && cp <= 0x11D06) || (0x11D08 <= cp && cp <= 0x11D09)
                            || (0x11D0B <= cp && cp <= 0x11D30) || cp == 0x11D46 || (0x11D60 <= cp && cp <= 0x11D65) || (0x11D67 <= cp && cp <= 0x11D68)
                    } else {
                        if cp < 0x16B7D {
                            (0x11D6A <= cp && cp <= 0x11D89) || cp == 0x11D98 || (0x11EE0 <= cp && cp <= 0x11EF2) || cp == 0x11FB0
                                || (0x12000 <= cp && cp <= 0x12399) || (0x12480 <= cp && cp <= 0x12543) || (0x12F90 <= cp && cp <= 0x12FF0) || (0x13000 <= cp && cp <= 0x1342E)
                                || (0x14400 <= cp && cp <= 0x14646) || (0x16800 <= cp && cp <= 0x16A38) || (0x16A40 <= cp && cp <= 0x16A5E) || (0x16A70 <= cp && cp <= 0x16ABE)
                                || (0x16AD0 <= cp && cp <= 0x16AED) || (0x16B00 <= cp && cp <= 0x16B2F) || (0x16B40 <= cp && cp <= 0x16B43) || (0x16B63 <= cp && cp <= 0x16B77)
                        } else {
                            (0x16B7D <= cp && cp <= 0x16B8F) || (0x16E40 <= cp && cp <= 0x16E7F) || (0x16F00 <= cp && cp <= 0x16F4A) || cp == 0x16F50
                                || (0x16F93 <= cp && cp <= 0x16F9F) || (0x16FE0 <= cp && cp <= 0x16FE1) || cp == 0x16FE3 || (0x17000 <= cp && cp <= 0x187F7)
                                || (0x18800 <= cp && cp <= 0x18CD5) || (0x18D00 <= cp && cp <= 0x18D08) || (0x1AFF0 <= cp && cp <= 0x1AFF3) || (0x1AFF5 <= cp && cp <= 0x1AFFB)
                                || (0x1AFFD <= cp && cp <= 0x1AFFE) || (0x1B000 <= cp && cp <= 0x1B122) || (0x1B150 <= cp && cp <= 0x1B152) || (0x1B164 <= cp && cp <= 0x1B167)
                        }
                    }
                }
            } else {
                if cp < 0x1EE00 {
                    if cp < 0x1D50D {
                        (0x1B170 <= cp && cp <= 0x1B2FB) || (0x1BC00 <= cp && cp <= 0x1BC6A) || (0x1BC70 <= cp && cp <= 0x1BC7C) || (0x1BC80 <= cp && cp <= 0x1BC88)
                            || (0x1BC90 <= cp && cp <= 0x1BC99) || (0x1D400 <= cp && cp <= 0x1D454) || (0x1D456 <= cp && cp <= 0x1D49C) || (0x1D49E <= cp && cp <= 0x1D49F)
                            || cp == 0x1D4A2 || (0x1D4A5 <= cp && cp <= 0x1D4A6) || (0x1D4A9 <= cp && cp <= 0x1D4AC) || (0x1D4AE <= cp && cp <= 0x1D4B9)
                            || cp == 0x1D4BB || (0x1D4BD <= cp && cp <= 0x1D4C3) || (0x1D4C5 <= cp && cp <= 0x1D505) || (0x1D507 <= cp && cp <= 0x1D50A)
                    } else {
                        if cp < 0x1D78A {
                            (0x1D50D <= cp && cp <= 0x1D514) || (0x1D516 <= cp && cp <= 0x1D51C) || (0x1D51E <= cp && cp <= 0x1D539) || (0x1D53B <= cp && cp <= 0x1D53E)
                                || (0x1D540 <= cp && cp <= 0x1D544) || cp == 0x1D546 || (0x1D54A <= cp && cp <= 0x1D550) || (0x1D552 <= cp && cp <= 0x1D6A5)
                                || (0x1D6A8 <= cp && cp <= 0x1D6C0) || (0x1D6C2 <= cp && cp <= 0x1D6DA) || (0x1D6DC <= cp && cp <= 0x1D6FA) || (0x1D6FC <= cp && cp <= 0x1D714)
                                || (0x1D716 <= cp && cp <= 0x1D734) || (0x1D736 <= cp && cp <= 0x1D74E) || (0x1D750 <= cp && cp <= 0x1D76E) || (0x1D770 <= cp && cp <= 0x1D788)
                        } else {
                            (0x1D78A <= cp && cp <= 0x1D7A8) || (0x1D7AA <= cp && cp <= 0x1D7C2) || (0x1D7C4 <= cp && cp <= 0x1D7CB) || (0x1DF00 <= cp && cp <= 0x1DF1E)
                                || (0x1E100 <= cp && cp <= 0x1E12C) || (0x1E137 <= cp && cp <= 0x1E13D) || cp == 0x1E14E || (0x1E290 <= cp && cp <= 0x1E2AD)
                                || (0x1E2C0 <= cp && cp <= 0x1E2EB) || (0x1E7E0 <= cp && cp <= 0x1E7E6) || (0x1E7E8 <= cp && cp <= 0x1E7EB) || (0x1E7ED <= cp && cp <= 0x1E7EE)
                                || (0x1E7F0 <= cp && cp <= 0x1E7FE) || (0x1E800 <= cp && cp <= 0x1E8C4) || (0x1E900 <= cp && cp <= 0x1E943) || cp == 0x1E94B
                        }
                    }
                } else {
                    if cp < 0x1EE57 {
                        (0x1EE00 <= cp && cp <= 0x1EE03) || (0x1EE05 <= cp && cp <= 0x1EE1F) || (0x1EE21 <= cp && cp <= 0x1EE22) || cp == 0x1EE24
                            || cp == 0x1EE27 || (0x1EE29 <= cp && cp <= 0x1EE32) || (0x1EE34 <= cp && cp <= 0x1EE37) || cp == 0x1EE39
                            || cp == 0x1EE3B || cp == 0x1EE42 || cp == 0x1EE47 || cp == 0x1EE49
                            || cp == 0x1EE4B || (0x1EE4D <= cp && cp <= 0x1EE4F) || (0x1EE51 <= cp && cp <= 0x1EE52) || cp == 0x1EE54
                    } else {
                        if cp < 0x1EEAB {
                            cp == 0x1EE57 || cp == 0x1EE59 || cp == 0x1EE5B || cp == 0x1EE5D
                                || cp == 0x1EE5F || (0x1EE61 <= cp && cp <= 0x1EE62) || cp == 0x1EE64 || (0x1EE67 <= cp && cp <= 0x1EE6A)
                                || (0x1EE6C <= cp && cp <= 0x1EE72) || (0x1EE74 <= cp && cp <= 0x1EE77) || (0x1EE79 <= cp && cp <= 0x1EE7C) || cp == 0x1EE7E
                                || (0x1EE80 <= cp && cp <= 0x1EE89) || (0x1EE8B <= cp && cp <= 0x1EE9B) || (0x1EEA1 <= cp && cp <= 0x1EEA3) || (0x1EEA5 <= cp && cp <= 0x1EEA9)
                        } else {
                            (0x1EEAB <= cp && cp <= 0x1EEBB) || (0x20000 <= cp && cp <= 0x2A6DF) || (0x2A700 <= cp && cp <= 0x2B738) || (0x2B740 <= cp && cp <= 0x2B81D)
                                || (0x2B820 <= cp && cp <= 0x2CEA1) || (0x2CEB0 <= cp && cp <= 0x2EBE0) || (0x2F800 <= cp && cp <= 0x2FA1D) || (0x30000 <= cp && cp <= 0x3134A)
                        }
                    }
                }
            }
        }
    }
}

/// Ranges 0..16 of general category N (numbers), `\p{N}`.
pub open spec fn number_block_0(cp: u32) -> bool {
    (0x30 <= cp && cp <= 0x39) || (0xB2 <= cp && cp <= 0xB3) || cp == 0xB9 || (0xBC <= cp && cp <= 0xBE)
    || (0x660 <= cp && cp <= 0x669) || (0x6F0 <= cp && cp <= 0x6F9) || (0x7C0 <= cp && cp <= 0x7C9) || (0x966 <= cp && cp <= 0x96F)
    || (0x9E6 <= cp && cp <= 0x9EF) || (0x9F4 <= cp && cp <= 0x9F9) || (0xA66 <= cp && cp <= 0xA6F) || (0xAE6 <= cp && cp <= 0xAEF)
    || (0xB66 <= cp && cp <= 0xB6F) || (0xB72 <= cp && cp <= 0xB77) || (0xBE6 <= cp && cp <= 0xBF2) || (0xC66 <= cp && cp <= 0xC6F)
}

/// Ranges 16..32 of general category N (numbers), `\p{N}`.
pub open spec fn number_block_1(cp: u32) -> bool {
    (0xC78 <= cp && cp <= 0xC7E) || (0xCE6 <= cp && cp <= 0xCEF) || (0xD58 <= cp && cp <= 0xD5E) || (0xD66 <= cp && cp <= 0xD78)
    || (0xDE6 <= cp && cp <= 0xDEF) || (0xE50 <= cp && cp <= 0xE59) || (0xED0 <= cp && cp <= 0xED9) || (0xF20 <= cp && cp <= 0xF33)
    || (0x1040 <= cp && cp <= 0x1049) || (0x1090 <= cp && cp <= 0x1099) || (0x1369 <= cp && cp <= 0x137C) || (0x16EE <= cp && cp <= 0x16F0)
    || (0x17E0 <= cp && cp <= 0x17E9) || (0x17F0 <= cp && cp <= 0x17F9) || (0x1810 <= cp && cp <= 0x1819) || (0x1946 <= cp && cp <= 0x194F)
}

/// Ranges 32..48 of general category N (numbers), `\p{N}`.
pub open spec fn number_block_2(cp: u32) -> bool {
    (0x19D0 <= cp && cp <= 0x19DA) || (0x1A80 <= cp && cp <= 0x1A89) || (0x1A90 <= cp && cp <= 0x1A99) || (0x1B50 <= cp && cp <= 0x1B59)
    || (0x1BB0 <= cp && cp <= 0x1BB9) || (0x1C40 <= cp && cp <= 0x1C49) || (0x1C50 <= cp && cp <= 0x1C59) || cp == 0x2070
    || (0x2074 <= cp && cp <= 0x2079) || (0x2080 <= cp && cp <= 0x2089) || (0x2150 <= cp && cp <= 0x2182) || (0x2185 <= cp && cp <= 0x2189)
    || (0x2460 <= cp && cp <= 0x249B) || (0x24EA <= cp && cp <= 0x24FF) || (0x2776 <= cp && cp <= 0x2793) || cp == 0x2CFD
}

/// Ranges 48..64 of general category N (numbers), `\p{N}`.
pub open spec fn number_block_3(cp: u32) -> bool {
    cp == 0x3007 || (0x3021 <= cp && cp <= 0x3029) || (0x3038 <= cp && cp <= 0x303A) || (0x3192 <= cp && cp <= 0x3195)
    || (0x3220 <= cp && cp <= 0x3229) || (0x3248 <= cp && cp <= 0x324F) || (0x3251 <= cp && cp <= 0x325F) || (0x3280 <= cp && cp <= 0x3289)
    || (0x32B1 <= cp && cp <= 0x32BF) || (0xA620 <= cp && cp <= 0xA629) || (0xA6E6 <= cp && cp <= 0xA6EF) || (0xA830 <= cp && cp <= 0xA835)
    || (0xA8D0 <= cp && cp <= 0xA8D9) || (0xA900 <= cp && cp <= 0xA909) || (0xA9D0 <= cp && cp <= 0xA9D9) || (0xA9F0 <= cp && cp <= 0xA9F9)
}

/// Ranges 64..80 of general category N (numbers), `\p{N}`.
pub open spec fn number_block_4(cp: u32) -> bool {
    (0xAA50 <= cp && cp <= 0xAA59) || (0xABF0 <= cp && cp <= 0xABF9) || (0xFF10 <= cp && cp <= 0xFF19) || (0x10107 <= cp && cp <= 0x10133)
    || (0x10140 <= cp && cp <= 0x10178) || (0x1018A <= cp && cp <= 0x1018B) || (0x102E1 <= cp && cp <= 0x102FB) || (0x10320 <= cp && cp <= 0x10323)
    || cp == 0x10341 || cp == 0x1034A || (0x103D1 <= cp && cp <= 0x103D5) || (0x104A0 <= cp && cp <= 0x104A9)
    || (0x10858 <= cp && cp <= 0x1085F) || (0x10879 <= cp && cp <= 0x1087F) || (0x108A7 <= cp && cp <= 0x108AF) || (0x108FB <= cp && cp <= 0x108FF)
}

/// Ranges 80..96 of general category N (numbers), `\p{N}`.
pub open spec fn number_block_5(cp: u32) -> bool {
    (0x10916 <= cp && cp <= 0x1091B) || (0x109BC <= cp && cp <= 0x109BD) || (0x109C0 <= cp && cp <= 0x109CF) || (0x109D2 <= cp && cp <= 0x109FF)
    || (0x10A40 <= cp && cp <= 0x10A48) || (0x10A7D <= cp && cp <= 0x10A7E) || (0x10A9D <= cp && cp <= 0x10A9F) || (0x10AEB <= cp && cp <= 0x10AEF)
    || (0x10B58 <= cp && cp <= 0x10B5F) || (0x10B78 <= cp && cp <= 0x10B7F) || (0x10BA9 <= cp && cp <= 0x10BAF) || (0x10CFA <= cp && cp <= 0x10CFF)
    || (0x10D30 <= cp && cp <= 0x10D39) || (0x10E60 <= cp && cp <= 0x10E7E) || (0x10F1D <= cp && cp <= 0x10F26) || (0x10F51 <= cp && cp <= 0x10F54)
}

/// Ranges 96..112 of general category N (numbers), `\p{N}`.
pub open spec fn number_block_6(cp: u32) -> bool {
    (0x10FC5 <= cp && cp <= 0x10FCB) || (0x11052 <= cp && cp <= 0x1106F) || (0x110F0 <= cp && cp <= 0x110F9) || (0x11136 <= cp && cp <= 0x1113F)
    || (0x111D0 <= cp && cp <= 0x111D9) || (0x111E1 <= cp && cp <= 0x111F4) || (0x112F0 <= cp && cp <= 0x112F9) || (0x11450 <= cp && cp <= 0x11459)
    || (0x114D0 <= cp && cp <= 0x114D9) || (0x11650 <= cp && cp <= 0x11659) || (0x116C0 <= cp && cp <= 0x116C9) || (0x11730 <= cp && cp <= 0x1173B)
    || (0x118E0 <= cp && cp <= 0x118F2) || (0x11950 <= cp && cp <= 0x11959) || (0x11C50 <= cp && cp <= 0x11C6C) || (0x11D50 <= cp && cp <= 0x11D59)
}

/// Ranges 112..128 of general category N (numbers), `\p{N}`.
pub open spec fn number_block_7(cp: u32) -> bool {
    (0x11DA0 <= cp && cp <= 0x11DA9) || (0x11FC0 <= cp && cp <= 0x11FD4) || (0x12400 <= cp && cp <= 0x1246E) || (0x16A60 <= cp && cp <= 0x16A69)
    || (0x16AC0 <= cp && cp <= 0x16AC9) || (0x16B50 <= cp && cp <= 0x16B59) || (0x16B5B <= cp && cp <= 0x16B61) || (0x16E80 <= cp && cp <= 0x16E96)
    || (0x1D2E0 <= cp && cp <= 0x1D2F3) || (0x1D360 <= cp && cp <= 0x1D378) || (0x1D7CE <= cp && cp <= 0x1D7FF) || (0x1E140 <= cp && cp <= 0x1E149)
    || (0x1E2F0 <= cp && cp <= 0x1E2F9) || (0x1E8C7 <= cp && cp <= 0x1E8CF) || (0x1E950 <= cp && cp <= 0x1E959) || (0x1EC71 <= cp && cp <= 0x1ECAB)
}

/// Ranges 128..134 of general category N (numbers), `\p{N}`.
pub open spec fn number_block_8(cp: u32) -> bool {
    (0x1ECAD <= cp && cp <= 0x1ECAF) || (0x1ECB1 <= cp && cp <= 0x1ECB4) || (0x1ED01 <= cp && cp <= 0x1ED2D) || (0x1ED2F <= cp && cp <= 0x1ED3D)
    || (0x1F100 <= cp && cp <= 0x1F10C) || (0x1FBF0 <= cp && cp <= 0x1FBF9)
}

/// Membership in general category N (numbers), `\p{N}` (134 ranges).
pub open spec fn number_class(cp: u32) -> bool {
    number_block_0(cp) || number_block_1(cp) || number_block_2(cp) || number_block_3(cp)
    || number_block_4(cp) || number_block_5(cp) || number_block_6(cp) || number_block_7(cp)
    || number_block_8(cp)
}

/// Executable membership in general category N (numbers), `\p{N}`.
pub fn number_cp(cp: u32) -> (r: bool)
    ensures
        r == number_class(cp),
{
    if cp < 0xAA50 {
        if cp < 0x19D0 {
            if cp < 0xC78 {
                (0x30 <= cp && cp <= 0x39) || (0xB2 <= cp && cp <= 0xB3) || cp == 0xB9 || (0xBC <= cp && cp <= 0xBE)
                    || (0x660 <= cp && cp <= 0x669) || (0x6F0 <= cp && cp <= 0x6F9) || (0x7C0 <= cp && cp <= 0x7C9) || (0x966 <= cp && cp <= 0x96F)
                    || (0x9E6 <= cp && cp <= 0x9EF) || (0x9F4 <= cp && cp <= 0x9F9) || (0xA66 <= cp && cp <= 0xA6F) || (0xAE6 <= cp && cp <= 0xAEF)
                    || (0xB66 <= cp && cp <= 0xB6F) || (0xB72 <= cp && cp <= 0xB77) || (0xBE6 <= cp && cp <= 0xBF2) || (0xC66 <= cp && cp <= 0xC6F)
            } else {
                (0xC78 <= cp && cp <= 0xC7E) || (0xCE6 <= cp && cp <= 0xCEF) || (0xD58 <= cp && cp <= 0xD5E) || (0xD66 <= cp && cp <= 0xD78)
                    || (0xDE6 <= cp && cp <= 0xDEF) || (0xE50 <= cp && cp <= 0xE59) || (0xED0 <= cp && cp <= 0xED9) || (0xF20 <= cp && cp <= 0xF33)
                    || (0x1040 <= cp && cp <= 0x1049) || (0x1090 <= cp && cp <= 0x1099) || (0x1369 <= cp && cp <= 0x137C) || (0x16EE <= cp && cp <= 0x16F0)
                    || (0x17E0 <= cp && cp <= 0x17E9) || (0x17F0 <= cp && cp <= 0x17F9) || (0x1810 <= cp && cp <= 0x1819) || (0x1946 <= cp && cp <= 0x194F)
            }
        } else {
            if cp < 0x3007 {
                (0x19D0 <= cp && cp <= 0x19DA) || (0x1A80 <= cp && cp <= 0x1A89) || (0x1A90 <= cp && cp <= 0x1A99) || (0x1B50 <= cp && cp <= 0x1B59)
                    || (0x1BB0 <= cp && cp <= 0x1BB9) || (0x1C40 <= cp && cp <= 0x1C49) || (0x1C50 <= cp && cp <= 0x1C59) || cp == 0x2070
                    || (0x2074 <= cp && cp <= 0x2079) || (0x2080 <= cp && cp <= 0x2089) || (0x2150 <= cp && cp <= 0x2182) || (0x2185 <= cp && cp <= 0x2189)
                    || (0x2460 <= cp && cp <= 0x249B) || (0x24EA <= cp && cp <= 0x24FF) || (0x2776 <= cp && cp <= 0x2793) || cp == 0x2CFD
            } else {
                cp == 0x3007 || (0x3021 <= cp && cp <= 0x3029) || (0x3038 <= cp && cp <= 0x303A) || (0x3192 <= cp && cp <= 0x3195)
                    || (0x3220 <= cp && cp <= 0x3229) || (0x3248 <= cp && cp <= 0x324F) || (0x3251 <= cp && cp <= 0x325F) || (0x3280 <= cp && cp <= 0x3289)
                    || (0x32B1 <= cp && cp <= 0x32BF) || (0xA620 <= cp && cp <= 0xA629) || (0xA6E6 <= cp && cp <= 0xA6EF) || (0xA830 <= cp && cp <= 0xA835)
                    || (0xA8D0 <= cp && cp <= 0xA8D9) || (0xA900 <= cp && cp <= 0xA909) || (0xA9D0 <= cp && cp <= 0xA9D9) || (0xA9F0 <= cp && cp <= 0xA9F9)
            }
        }
    } else {
        if cp < 0x10FC5 {
            if cp < 0x10916 {
                (0xAA50 <= cp && cp <= 0xAA59) || (0xABF0 <= cp && cp <= 0xABF9) || (0xFF10 <= cp && cp <= 0xFF19) || (0x10107 <= cp && cp <= 0x10133)
                    || (0x10140 <= cp && cp <= 0x10178) || (0x1018A <= cp && cp <= 0x1018B) || (0x102E1 <= cp && cp <= 0x102FB) || (0x10320 <= cp && cp <= 0x10323)
                    || cp == 0x10341 || cp == 0x1034A || (0x103D1 <= cp && cp <= 0x103D5) || (0x104A0 <= cp && cp <= 0x104A9)
                    || (0x10858 <= cp && cp <= 0x1085F) || (0x10879 <= cp && cp <= 0x1087F) || (0x108A7 <= cp && cp <= 0x108AF) || (0x108FB <= cp && cp <= 0x108FF)
            } else {
                (0x10916 <= cp && cp <= 0x1091B) || (0x109BC <= cp && cp <= 0x109BD) || (0x109C0 <= cp && cp <= 0x109CF) || (0x109D2 <= cp && cp <= 0x109FF)
                    || (0x10A40 <= cp && cp <= 0x10A48) || (0x10A7D <= cp && cp <= 0x10A7E) || (0x10A9D <= cp && cp <= 0x10A9F) || (0x10AEB <= cp && cp <= 0x10AEF)
                    || (0x10B58 <= cp && cp <= 0x10B5F) || (0x10B78 <= cp && cp <= 0x10B7F) || (0x10BA9 <= cp && cp <= 0x10BAF) || (0x10CFA <= cp && cp <= 0x10CFF)
                    || (0x10D30 <= cp && cp <= 0x10D39) || (0x10E60 <= cp && cp <= 0x10E7E) || (0x10F1D <= cp && cp <= 0x10F26) || (0x10F51 <= cp && cp <= 0x10F54)
            }
        } else {
            if cp < 0x11DA0 {
                (0x10FC5 <= cp && cp <= 0x10FCB) || (0x11052 <= cp && cp <= 0x1106F) || (0x110F0 <= cp && cp <= 0x110F9) || (0x11136 <= cp && cp <= 0x1113F)
                    || (0x111D0 <= cp && cp <= 0x111D9) || (0x111E1 <= cp && cp <= 0x111F4) || (0x112F0 <= cp && cp <= 0x112F9) || (0x11450 <= cp && cp <= 0x11459)
                    || (0x114D0 <= cp && cp <= 0x114D9) || (0x11650 <= cp && cp <= 0x11659) || (0x116C0 <= cp && cp <= 0x116C9) || (0x11730 <= cp && cp <= 0x1173B)
                    || (0x118E0 <= cp && cp <= 0x118F2) || (0x11950 <= cp && cp <= 0x11959) || (0x11C50 <= cp && cp <= 0x11C6C) || (0x11D50 <= cp && cp <= 0x11D59)
            } else {
                if cp < 0x1ECAD {
                    (0x11DA0 <= cp && cp <= 0x11DA9) || (0x11FC0 <= cp && cp <= 0x11FD4) || (0x12400 <= cp && cp <= 0x1246E) || (0x16A60 <= cp && cp <= 0x16A69)
                        || (0x16AC0 <= cp && cp <= 0x16AC9) || (0x16B50 <= cp && cp <= 0x16B59) || (0x16B5B <= cp && cp <= 0x16B61) || (0x16E80 <= cp && cp <= 0x16E96)
                        || (0x1D2E0 <= cp && cp <= 0x1D2F3) || (0x1D360 <= cp && cp <= 0x1D378) || (0x1D7CE <= cp && cp <= 0x1D7FF) || (0x1E140 <= cp && cp <= 0x1E149)
                        || (0x1E2F0 <= cp && cp <= 0x1E2F9) || (0x1E8C7 <= cp && cp <= 0x1E8CF) || (0x1E950 <= cp && cp <= 0x1E959) || (0x1EC71 <= cp && cp <= 0x1ECAB)
                } else {
                    (0x1ECAD <= cp && cp <= 0x1ECAF) || (0x1ECB1 <= cp && cp <= 0x1ECB4) || (0x1ED01 <= cp && cp <= 0x1ED2D) || (0x1ED2F <= cp && cp <= 0x1ED3D)
                        || (0x1F100 <= cp && cp <= 0x1F10C) || (0x1FBF0 <= cp && cp <= 0x1FBF9)
                }
            }
        }
    }
}

/// Ranges 0..10 of the White_Space property, `\s`.
pub open spec fn whitespace_block_0(cp: u32) -> bool {
    (0x9 <= cp && cp <= 0xD) || cp == 0x20 || cp == 0x85 || cp == 0xA0
    || cp == 0x1680 || (0x2000 <= cp && cp <= 0x200A) || (0x2028 <= cp && cp <= 0x2029) || cp == 0x202F
    || cp == 0x205F || cp == 0x3000
}

/// Membership in the White_Space property, `\s` (10 ranges).
pub open spec fn whitespace_class(cp: u32) -> bool {
    whitespace_block_0(cp)
}

/// Executable membership in the White_Space property, `\s`.
pub fn whitespace_cp(cp: u32) -> (r: bool)
    ensures
        r == whitespace_class(cp),
{
    (0x9 <= cp && cp <= 0xD) || cp == 0x20 || cp == 0x85 || cp == 0xA0
        || cp == 0x1680 || (0x2000 <= cp && cp <= 0x200A) || (0x2028 <= cp && cp <= 0x2029) || cp == 0x202F
        || cp == 0x205F || cp == 0x3000
}

/// Ranges 0..16 of `[\p{Lu}\p{Lt}\p{Lm}\p{Lo}\p{M}]`.
pub open spec fn o200k_upper_block_0(cp: u32) -> bool {
    (0x41 <= cp && cp <= 0x5A) || cp == 0xAA || cp == 0xBA || (0xC0 <= cp && cp <= 0xD6)
    || (0xD8 <= cp && cp <= 0xDE) || cp == 0x100 || cp == 0x102 || cp == 0x104
    || cp == 0x106 || cp == 0x108 || cp == 0x10A || cp == 0x10C
    || cp == 0x10E || cp == 0x110 || cp == 0x112 || cp == 0x114
}

/// Ranges 16..32 of `[\p{Lu}\p{Lt}\p{Lm}\p{Lo}\p{M}]`.
pub open spec fn o200k_upper_block_1(cp: u32) -> bool {
    cp == 0x116 || cp == 0x118 || cp == 0x11A || cp == 0x11C
    || cp == 0x11E || cp == 0x120 || cp == 0x122 || cp == 0x124
    || cp == 0x126 || cp == 0x128 || cp == 0x12A || cp == 0x12C
    || cp == 0x12E || cp == 0x130 || cp == 0x132 || cp == 0x134
}

/// Ranges 32..48 of `[\p{Lu}\p{Lt}\p{Lm}\p{Lo}\p{M}]`.
pub open spec fn o200k_upper_block_2(cp: u32) -> bool {
    cp == 0x136 || cp == 0x139 || cp == 0x13B || cp == 0x13D
    || cp == 0x13F || cp == 0x141 || cp == 0x143 || cp == 0x145
    || cp == 0x147 || cp == 0x14A || cp == 0x14C || cp == 0x14E
    || cp == 0x150 || cp == 0x152 || cp == 0x154 || cp == 0x156
}

/// Ranges 48..64 of `[\p{Lu}\p{Lt}\p{Lm}\p{Lo}\p{M}]`.
pub open spec fn o200k_upper_block_3(cp: u32) -> bool {
    cp == 0x158 || cp == 0x15A || cp == 0x15C || cp == 0x15E
    || cp == 0x160 || cp == 0x162 || cp == 0x164 || cp == 0x166
    || cp == 0x168 || cp == 0x16A || cp == 0x16C || cp == 0x16E
    || cp == 0x170 || cp == 0x172 || cp == 0x174 || cp == 0x176
}

/// Ranges 64..80 of `[\p{Lu}\p{Lt}\p{Lm}\p{Lo}\p{M}]`.
pub open spec fn o200k_upper_block_4(cp: u32) -> bool {
    (0x178 <= cp && cp <= 0x179) || cp == 0x17B || cp == 0x17D || (0x181 <= cp && cp <= 0x182)
    || cp == 0x184 || (0x186 <= cp && cp <= 0x187) || (0x189 <= cp && cp <= 0x18B) || (0x18E <= cp && cp <= 0x191)
    || (0x193 <= cp && cp <= 0x194) || (0x196 <= cp && cp <= 0x198) || (0x19C <= cp && cp <= 0x19D) || (0x19F <= cp && cp <= 0x1A0)
    || cp == 0x1A2 || cp == 0x1A4 || (0x1A6 <= cp && cp <= 0x1A7) || cp == 0x1A9
}

/// Ranges 80..96 of `[\p{Lu}\p{Lt}\p{Lm}\p{Lo}\p{M}]`.
pub open spec fn o200k_upper_block_5(cp: u32) -> bool {
    cp == 0x1AC || (0x1AE <= cp && cp <= 0x1AF) || (0x1B1 <= cp && cp <= 0x1B3) || cp == 0x1B5
    || (0x1B7 <= cp && cp <= 0x1B8) || (0x1BB <= cp && cp <= 0x1BC) || (0x1C0 <= cp && cp <= 0x1C5) || (0x1C7 <= cp && cp <= 0x1C8)
    || (0x1CA <= cp && cp <= 0x1CB) || cp == 0x1CD || cp == 0x1CF || cp == 0x1D1
    || cp == 0x1D3 || cp == 0x1D5 || cp == 0x1D7 || cp == 0x1D9
}

/// Ranges 96..112 of `[\p{Lu}\p{Lt}\p{Lm}\p{Lo}\p{M}]`.
pub open spec fn o200k_upper_block_6(cp: u32) -> bool {
    cp == 0x1DB || cp == 0x1DE || cp == 0x1E0 || cp == 0x1E2
    || cp == 0x1E4 || cp == 0x1E6 || cp == 0x1E8 || cp == 0x1EA
    || cp == 0x1EC || cp == 0x1EE || (0x1F1 <= cp && cp <= 0x1F2) || cp == 0x1F4
    || (0x1F6 <= cp && cp <= 0x1F8) || cp == 0x1FA || cp == 0x1FC || cp == 0x1FE
}

/// Ranges 112..128 of `[\p{Lu}\p{Lt}\p{Lm}\p{Lo}\p{M}]`.
pub open spec fn o200k_upper_block_7(cp: u32) -> bool {
    cp == 0x200 || cp == 0x202 || cp == 0x204 || cp == 0x206
    || cp == 0x208 || cp == 0x20A || cp == 0x20C || cp == 0x20E
    || cp == 0x210 || cp == 0x212 || cp == 0x214 || cp == 0x216
    || cp == 0x218 || cp == 0x21A || cp == 0x21C || cp == 0x21E
}

/// Ranges 128..144 of `[\p{Lu}\p{Lt}\p{Lm}\p{Lo}\p{M}]`.
pub open spec fn o200k_upper_block_8(cp: u32) -> bool {
    cp == 0x220 || cp == 0x222 || cp == 0x224 || cp == 0x226
    || cp == 0x228 || cp == 0x22A || cp == 0x22C || cp == 0x22E
    || cp == 0x230 || cp == 0x232 || (0x23A <= cp && cp <= 0x23B) || (0x23D <= cp && cp <= 0x23E)
    || cp == 0x241 || (0x243 <= cp && cp <= 0x246) || cp == 0x248 || cp == 0x24A
}

/// Ranges 144..160 of `[\p{Lu}\p{Lt}\p{Lm}\p{Lo}\p{M}]`.
pub open spec fn o200k_upper_block_9(cp: u32) -> bool {
    cp == 0x24C || cp == 0x24E || cp == 0x294 || (0x2B0 <= cp && cp <= 0x2C1)
    || (0x2C6 <= cp && cp <= 0x2D1) || (0x2E0 <= cp && cp <= 0x2E4) || cp == 0x2EC || cp == 0x2EE
    || (0x300 <= cp && cp <= 0x370) || cp == 0x372 || cp == 0x374 || cp == 0x376
    || cp == 0x37A || cp == 0x37F || cp == 0x386 || (0x388 <= cp && cp <= 0x38A)
}

/// Ranges 160..176 of `[\p{Lu}\p{Lt}\p{Lm}\p{Lo}\p{M}]`.
pub open spec fn o200k_upper_block_10(cp: u32) -> bool {
    cp == 0x38C || (0x38E <= cp && cp <= 0x38F) || (0x391 <= cp && cp <= 0x3A1) || (0x3A3 <= cp && cp <= 0x3AB)
    || cp == 0x3CF || (0x3D2 <= cp && cp <= 0x3D4) || cp == 0x3D8 || cp == 0x3DA
    || cp == 0x3DC || cp == 0x3DE || cp == 0x3E0 || cp == 0x3E2
    || cp == 0x3E4 || cp == 0x3E6 || cp == 0x3E8 || cp == 0x3EA
}

/// Ranges 176..192 of `[\p{Lu}\p{Lt}\p{Lm}\p{Lo}\p{M}]`.
pub open spec fn o200k_upper_block_11(cp: u32) -> bool {
    cp == 0x3EC || cp == 0x3EE || cp == 0x3F4 || cp == 0x3F7
    || (0x3F9 <= cp && cp <= 0x3FA) || (0x3FD <= cp && cp <= 0x42F) || cp == 0x460 || cp == 0x462
    || cp == 0x464 || cp == 0x466 || cp == 0x468 || cp == 0x46A
    || cp == 0x46C || cp == 0x46E || cp == 0x470 || cp == 0x472
}

/// Ranges 192..208 of `[\p{Lu}\p{Lt}\p{Lm}\p{Lo}\p{M}]`.
pub open spec fn o200k_upper_block_12(cp: u32) -> bool {
    cp == 0x474 || cp == 0x476 || cp == 0x478 || cp == 0x47A
    || cp == 0x47C || cp == 0x47E || cp == 0x480 || (0x483 <= cp && cp <= 0x48A)
    || cp == 0x48C || cp == 0x48E || cp == 0x490 || cp == 0x492
    || cp == 0x494 || cp == 0x496 || cp == 0x498 || cp == 0x49A
}

/// Ranges 208..224 of `[\p{Lu}\p{Lt}\p{Lm}\p{Lo}\p{M}]`.
pub open spec fn o200k_upper_block_13(cp: u32) -> bool {
    cp == 0x49C || cp == 0x49E || cp == 0x4A0 || cp == 0x4A2
    || cp == 0x4A4 || cp == 0x4A6 || cp == 0x4A8 || cp == 0x4AA
    || cp == 0x4AC || cp == 0x4AE || cp == 0x4B0 || cp == 0x4B2
    || cp == 0x4B4 || cp == 0x4B6 || cp == 0x4B8 || cp == 0x4BA
}

/// Ranges 224..240 of `[\p{Lu}\p{Lt}\p{Lm}\p{Lo}\p{M}]`.
pub open spec fn o200k_upper_block_14(cp: u32) -> bool {
    cp == 0x4BC || cp == 0x4BE || (0x4C0 <= cp && cp <= 0x4C1) || cp == 0x4C3
    || cp == 0x4C5 || cp == 0x4C7 || cp == 0x4C9 || cp == 0x4CB
    || cp == 0x4CD || cp == 0x4D0 || cp == 0x4D2 || cp == 0x4D4
    || cp == 0x4D6 || cp == 0x4D8 || cp == 0x4DA || cp == 0x4DC
}

/// Ranges 240..256 of `[\p{Lu}\p{Lt}\p{Lm}\p{Lo}\p{M}]`.
pub open spec fn o200k_upper_block_15(cp: u32) -> bool {
    cp == 0x4DE || cp == 0x4E0 || cp == 0x4E2 || cp == 0x4E4
    || cp == 0x4E6 || cp == 0x4E8 || cp == 0x4EA || cp == 0x4EC
    || cp == 0x4EE || cp == 0x4F0 || cp == 0x4F2 || cp == 0x4F4
    || cp == 0x4F6 || cp == 0x4F8 || cp == 0x4FA || cp == 0x4FC
}

/// Ranges 256..272 of `[\p{Lu}\p{Lt}\p{Lm}\p{Lo}\p{M}]`.
pub open spec fn o200k_upper_block_16(cp: u32) -> bool {
    cp == 0x4FE || cp == 0x500 || cp == 0x502 || cp == 0x504
    || cp == 0x506 || cp == 0x508 || cp == 0x50A || cp == 0x50C
    || cp == 0x50E || cp == 0x510 || cp == 0x512 || cp == 0x514
    || cp == 0x516 || cp == 0x518 || cp == 0x51A || cp == 0x51C
}

/// Ranges 272..288 of `[\p{Lu}\p{Lt}\p{Lm}\p{Lo}\p{M}]`.
pub open spec fn o200k_upper_block_17(cp: u32) -> bool {
    cp == 0x51E || cp == 0x520 || cp == 0x522 || cp == 0x524
    || cp == 0x526 || cp == 0x528 || cp == 0x52A || cp == 0x52C
    || cp == 0x52E || (0x531 <= cp && cp <= 0x556) || cp == 0x559 || (0x591 <= cp && cp <= 0x5BD)
    || cp == 0x5BF || (0x5C1 <= cp && cp <= 0x5C2) || (0x5C4 <= cp && cp <= 0x5C5) || cp == 0x5C7
}

/// Ranges 288..304 of `[\p{Lu}\p{Lt}\p{Lm}\p{Lo}\p{M}]`.
pub open spec fn o200k_upper_block_18(cp: u32) -> bool {
    (0x5D0 <= cp && cp <= 0x5EA) || (0x5EF <= cp && cp <= 0x5F2) || (0x610 <= cp && cp <= 0x61A) || (0x620 <= cp && cp <= 0x65F)
    || (0x66E <= cp && cp <= 0x6D3) || (0x6D5 <= cp && cp <= 0x6DC) || (0x6DF <= cp && cp <= 0x6E8) || (0x6EA <= cp && cp <= 0x6EF)
    || (0x6FA <= cp && cp <= 0x6FC) || cp == 0x6FF || (0x710 <= cp && cp <= 0x74A) || (0x74D <= cp && cp <= 0x7B1)
    || (0x7CA <= cp && cp <= 0x7F5) || cp == 0x7FA || cp == 0x7FD || (0x800 <= cp && cp <= 0x82D)
}

/// Ranges 304..320 of `[\p{Lu}\p{Lt}\p{Lm}\p{Lo}\p{M}]`.
pub open spec fn o200k_upper_block_19(cp: u32) -> bool {
    (0x840 <= cp && cp <= 0x85B) || (0x860 <= cp && cp <= 0x86A) || (0x870 <= cp && cp <= 0x887) || (0x889 <= cp && cp <= 0x88E)
    || (0x898 <= cp && cp <= 0x8E1) || (0x8E3 <= cp && cp <= 0x963) || (0x971 <= cp && cp <= 0x983) || (0x985 <= cp && cp <= 0x98C)
    || (0x98F <= cp && cp <= 0x990) || (0x993 <= cp && cp <= 0x9A8) || (0x9AA <= cp && cp <= 0x9B0) || cp == 0x9B2
    || (0x9B6 <= cp && cp <= 0x9B9) || (0x9BC <= cp && cp <= 0x9C4) || (0x9C7 <= cp && cp <= 0x9C8) || (0x9CB <= cp && cp <= 0x9CE)
}

/// Ranges 320..336 of `[\p{Lu}\p{Lt}\p{Lm}\p{Lo}\p{M}]`.
pub open spec fn o200k_upper_block_20(cp: u32) -> bool {
    cp == 0x9D7 || (0x9DC <= cp && cp <= 0x9DD) || (0x9DF <= cp && cp <= 0x9E3) || (0x9F0 <= cp && cp <= 0x9F1)
    || cp == 0x9FC || cp == 0x9FE || (0xA01 <= cp && cp <= 0xA03) || (0xA05 <= cp && cp <= 0xA0A)
    || (0xA0F <= cp && cp <= 0xA10) || (0xA13 <= cp && cp <= 0xA28) || (0xA2A <= cp && cp <= 0xA30) || (0xA32 <= cp && cp <= 0xA33)
    || (0xA35 <= cp && cp <= 0xA36) || (0xA38 <= cp && cp <= 0xA39) || cp == 0xA3C || (0xA3E <= cp && cp <= 0xA42)
}

/// Ranges 336..352 of `[\p{Lu}\p{Lt}\p{Lm}\p{Lo}\p{M}]`.
pub open spec fn o200k_upper_block_21(cp: u32) -> bool {
    (0xA47 <= cp && cp <= 0xA48) || (0xA4B <= cp && cp <= 0xA4D) || cp == 0xA51 || (0xA59 <= cp && cp <= 0xA5C)
    || cp == 0xA5E || (0xA70 <= cp && cp <= 0xA75) || (0xA81 <= cp && cp <= 0xA83) || (0xA85 <= cp && cp <= 0xA8D)
    || (0xA8F <= cp && cp <= 0xA91) || (0xA93 <= cp && cp <= 0xAA8) || (0xAAA <= cp && cp <= 0xAB0) || (0xAB2 <= cp && cp <= 0xAB3)
    || (0xAB5 <= cp && cp <= 0xAB9) || (0xABC <= cp && cp <= 0xAC5) || (0xAC7 <= cp && cp <= 0xAC9) || (0xACB <= cp && cp <= 0xACD)
}

/// Ranges 352..368 of `[\p{Lu}\p{Lt}\p{Lm}\p{Lo}\p{M}]`.
pub open spec fn o200k_upper_block_22(cp: u32) -> bool {
    cp == 0xAD0 || (0xAE0 <= cp && cp <= 0xAE3) || (0xAF9 <= cp && cp <= 0xAFF) || (0xB01 <= cp && cp <= 0xB03)
    || (0xB05 <= cp && cp <= 0xB0C) || (0xB0F <= cp && cp <= 0xB10) || (0xB13 <= cp && cp <= 0xB28) || (0xB2A <= cp && cp <= 0xB30)
    || (0xB32 <= cp && cp <= 0xB33) || (0xB35 <= cp && cp <= 0xB39) || (0xB3C <= cp && cp <= 0xB44) || (0xB47 <= cp && cp <= 0xB48)
    || (0xB4B <= cp && cp <= 0xB4D) || (0xB55 <= cp && cp <= 0xB57) || (0xB5C <= cp && cp <= 0xB5D) || (0xB5F <= cp && cp <= 0xB63)
}

/// Ranges 368..384 of `[\p{Lu}\p{Lt}\p{Lm}\p{Lo}\p{M}]`.
pub open spec fn o200k_upper_block_23(cp: u32) -> bool {
    cp == 0xB71 || (0xB82 <= cp && cp <= 0xB83) || (0xB85 <= cp && cp <= 0xB8A) || (0xB8E <= cp && cp <= 0xB90)
    || (0xB92 <= cp && cp <= 0xB95) || (0xB99 <= cp && cp <= 0xB9A) || cp == 0xB9C || (0xB9E <= cp && cp <= 0xB9F)
    || (0xBA3 <= cp && cp <= 0xBA4) || (0xBA8 <= cp && cp <= 0xBAA) || (0xBAE <= cp && cp <= 0xBB9) || (0xBBE <= cp && cp <= 0xBC2)
    || (0xBC6 <= cp && cp <= 0xBC8) || (0xBCA <= cp && cp <= 0xBCD) || cp == 0xBD0 || cp == 0xBD7
}

/// Ranges 384..400 of `[\p{Lu}\p{Lt}\p{Lm}\p{Lo}\p{M}]`.
pub open spec fn o200k_upper_block_24(cp: u32) -> bool {
    (0xC00 <= cp && cp <= 0xC0C) || (0xC0E <= cp && cp <= 0xC10) || (0xC12 <= cp && cp <= 0xC28) || (0xC2A <= cp && cp <= 0xC39)
    || (0xC3C <= cp && cp <= 0xC44) || (0xC46 <= cp && cp <= 0xC48) || (0xC4A <= cp && cp <= 0xC4D) || (0xC55 <= cp && cp <= 0xC56)
    || (0xC58 <= cp && cp <= 0xC5A) || cp == 0xC5D || (0xC60 <= cp && cp <= 0xC63) || (0xC80 <= cp && cp <= 0xC83)
    || (0xC85 <= cp && cp <= 0xC8C) || (0xC8E <= cp && cp <= 0xC90) || (0xC92 <= cp && cp <= 0xCA8) || (0xCAA <= cp && cp <= 0xCB3)
}

/// Ranges 400..416 of `[\p{Lu}\p{Lt}\p{Lm}\p{Lo}\p{M}]`.
pub open spec fn o200k_upper_block_25(cp: u32) -> bool {
    (0xCB5 <= cp && cp <= 0xCB9) || (0xCBC <= cp && cp <= 0xCC4) || (0xCC6 <= cp && cp <= 0xCC8) || (0xCCA <= cp && cp <= 0xCCD)
    || (0xCD5 <= cp && cp <= 0xCD6) || (0xCDD <= cp && cp <= 0xCDE) || (0xCE0 <= cp && cp <= 0xCE3) || (0xCF1 <= cp && cp <= 0xCF2)
    || (0xD00 <= cp && cp <= 0xD0C) || (0xD0E <= cp && cp <= 0xD10) || (0xD12 <= cp && cp <= 0xD44) || (0xD46 <= cp && cp <= 0xD48)
    || (0xD4A <= cp && cp <= 0xD4E) || (0xD54 <= cp && cp <= 0xD57) || (0xD5F <= cp && cp <= 0xD63) || (0xD7A <= cp && cp <= 0xD7F)
}

/// Ranges 416..432 of `[\p{Lu}\p{Lt}\p{Lm}\p{Lo}\p{M}]`.
pub open spec fn o200k_upper_block_26(cp: u32) -> bool {
    (0xD81 <= cp && cp <= 0xD83) || (0xD85 <= cp && cp <= 0xD96) || (0xD9A <= cp && cp <= 0xDB1) || (0xDB3 <= cp && cp <= 0xDBB)
    || cp == 0xDBD || (0xDC0 <= cp && cp <= 0xDC6) || cp == 0xDCA || (0xDCF <= cp && cp <= 0xDD4)
    || cp == 0xDD6 || (0xDD8 <= cp && cp <= 0xDDF) || (0xDF2 <= cp && cp <= 0xDF3) || (0xE01 <= cp && cp <= 0xE3A)
    || (0xE40 <= cp && cp <= 0xE4E) || (0xE81 <= cp && cp <= 0xE82) || cp == 0xE84 || (0xE86 <= cp && cp <= 0xE8A)
}

/// Ranges 432..448 of `[\p{Lu}\p{Lt}\p{Lm}\p{Lo}\p{M}]`.
pub open spec fn o200k_upper_block_27(cp: u32) -> bool {
    (0xE8C <= cp && cp <= 0xEA3) || cp == 0xEA5 || (0xEA7 <= cp && cp <= 0xEBD) || (0xEC0 <= cp && cp <= 0xEC4)
    || cp == 0xEC6 || (0xEC8 <= cp && cp <= 0xECD) || (0xEDC <= cp && cp <= 0xEDF) || cp == 0xF00
    || (0xF18 <= cp && cp <= 0xF19) || cp == 0xF35 || cp == 0xF37 || cp == 0xF39
    || (0xF3E <= cp && cp <= 0xF47) || (0xF49 <= cp && cp <= 0xF6C) || (0xF71 <= cp && cp <= 0xF84) || (0xF86 <= cp && cp <= 0xF97)
}

/// Ranges 448..464 of `[\p{Lu}\p{Lt}\p{Lm}\p{Lo}\p{M}]`.
pub open spec fn o200k_upper_block_28(cp: u32) -> bool {
    (0xF99 <= cp && cp <= 0xFBC) || cp == 0xFC6 || (0x1000 <= cp && cp <= 0x103F) || (0x1050 <= cp && cp <= 0x108F)
    || (0x109A <= cp && cp <= 0x109D) || (0x10A0 <= cp && cp <= 0x10C5) || cp == 0x10C7 || cp == 0x10CD
    || cp == 0x10FC || (0x1100 <= cp && cp <= 0x1248) || (0x124A <= cp && cp <= 0x124D) || (0x1250 <= cp && cp <= 0x1256)
    || cp == 0x1258 || (0x125A <= cp && cp <= 0x125D) || (0x1260 <= cp && cp <= 0x1288) || (0x128A <= cp && cp <= 0x128D)
}

/// Ranges 464..480 of `[\p{Lu}\p{Lt}\p{Lm}\p{Lo}\p{M}]`.
pub open spec fn o200k_upper_block_29(cp: u32) -> bool {
    (0x1290 <= cp && cp <= 0x12B0) || (0x12B2 <= cp && cp <= 0x12B5) || (0x12B8 <= cp && cp <= 0x12BE) || cp == 0x12C0
    || (0x12C2 <= cp && cp <= 0x12C5) || (0x12C8 <= cp && cp <= 0x12D6) || (0x12D8 <= cp && cp <= 0x1310) || (0x1312 <= cp && cp <= 0x1315)
    || (0x1318 <= cp && cp <= 0x135A) || (0x135D <= cp && cp <= 0x135F) || (0x1380 <= cp && cp <= 0x138F) || (0x13A0 <= cp && cp <= 0x13F5)
    || (0x1401 <= cp && cp <= 0x166C) || (0x166F <= cp && cp <= 0x167F) || (0x1681 <= cp && cp <= 0x169A) || (0x16A0 <= cp && cp <= 0x16EA)
}

/// Ranges 480..496 of `[\p{Lu}\p{Lt}\p{Lm}\p{Lo}\p{M}]`.
pub open spec fn o200k_upper_block_30(cp: u32) -> bool {
    (0x16F1 <= cp && cp <= 0x16F8) || (0x1700 <= cp && cp <= 0x1715) || (0x171F <= cp && cp <= 0x1734) || (0x1740 <= cp && cp <= 0x1753)
    || (0x1760 <= cp && cp <= 0x176C) || (0x176E <= cp && cp <= 0x1770) || (0x1772 <= cp && cp <= 0x1773) || (0x1780 <= cp && cp <= 0x17D3)
    || cp == 0x17D7 || (0x17DC <= cp && cp <= 0x17DD) || (0x180B <= cp && cp <= 0x180D) || cp == 0x180F
    || (0x1820 <= cp && cp <= 0x1878) || (0x1880 <= cp && cp <= 0x18AA) || (0x18B0 <= cp && cp <= 0x18F5) || (0x1900 <= cp && cp <= 0x191E)
}

/// Ranges 496..512 of `[\p{Lu}\p{Lt}\p{Lm}\p{Lo}\p{M}]`.
pub open spec fn o200k_upper_block_31(cp: u32) -> bool {
    (0x1920 <= cp && cp <= 0x192B) || (0x1930 <= cp && cp <= 0x193B) || (0x1950 <= cp && cp <= 0x196D) || (0x1970 <= cp && cp <= 0x1974)
    || (0x1980 <= cp && cp <= 0x19AB) || (0x19B0 <= cp && cp <= 0x19C9) || (0x1A00 <= cp && cp <= 0x1A1B) || (0x1A20 <= cp && cp <= 0x1A5E)
    || (0x1A60 <= cp && cp <= 0x1A7C) || cp == 0x1A7F || cp == 0x1AA7 || (0x1AB0 <= cp && cp <= 0x1ACE)
    || (0x1B00 <= cp && cp <= 0x1B4C) || (0x1B6B <= cp && cp <= 0x1B73) || (0x1B80 <= cp && cp <= 0x1BAF) || (0x1BBA <= cp && cp <= 0x1BF3)
}

/// Ranges 512..528 of `[\p{Lu}\p{Lt}\p{Lm}\p{Lo}\p{M}]`.
pub open spec fn o200k_upper_block_32(cp: u32) -> bool {
    (0x1C00 <= cp && cp <= 0x1C37) || (0x1C4D <= cp && cp <= 0x1C4F) || (0x1C5A <= cp && cp <= 0x1C7D) || (0x1C90 <= cp && cp <= 0x1CBA)
    || (0x1CBD <= cp && cp <= 0x1CBF) || (0x1CD0 <= cp && cp <= 0x1CD2) || (0x1CD4 <= cp && cp <= 0x1CFA) || (0x1D2C <= cp && cp <= 0x1D6A)
    || cp == 0x1D78 || (0x1D9B <= cp && cp <= 0x1E00) || cp == 0x1E02 || cp == 0x1E04
    || cp == 0x1E06 || cp == 0x1E08 || cp == 0x1E0A || cp == 0x1E0C
}

/// Ranges 528..544 of `[\p{Lu}\p{Lt}\p{Lm}\p{Lo}\p{M}]`.
pub open spec fn o200k_upper_block_33(cp: u32) -> bool {
    cp == 0x1E0E || cp == 0x1E10 || cp == 0x1E12 || cp == 0x1E14
    || cp == 0x1E16 || cp == 0x1E18 || cp == 0x1E1A || cp == 0x1E1C
    || cp == 0x1E1E || cp == 0x1E20 || cp == 0x1E22 || cp == 0x1E24
    || cp == 0x1E26 || cp == 0x1E28 || cp == 0x1E2A || cp == 0x1E2C
}

/// Ranges 544..560 of `[\p{Lu}\p{Lt}\p{Lm}\p{Lo}\p{M}]`.
pub open spec fn o200k_upper_block_34(cp: u32) -> bool {
    cp == 0x1E2E || cp == 0x1E30 || cp == 0x1E32 || cp == 0x1E34
    || cp == 0x1E36 || cp == 0x1E38 || cp == 0x1E3A || cp == 0x1E3C
    || cp == 0x1E3E || cp == 0x1E40 || cp == 0x1E42 || cp == 0x1E44
    || cp == 0x1E46 || cp == 0x1E48 || cp == 0x1E4A || cp == 0x1E4C
}

/// Ranges 560..576 of `[\p{Lu}\p{Lt}\p{Lm}\p{Lo}\p{M}]`.
pub open spec fn o200k_upper_block_35(cp: u32) -> bool {
    cp == 0x1E4E || cp == 0x1E50 || cp == 0x1E52 || cp == 0x1E54
    || cp == 0x1E56 || cp == 0x1E58 || cp == 0x1E5A || cp == 0x1E5C
    || cp == 0x1E5E || cp == 0x1E60 || cp == 0x1E62 || cp == 0x1E64
    || cp == 0x1E66 || cp == 0x1E68 || cp == 0x1E6A || cp == 0x1E6C
}

/// Ranges 576..592 of `[\p{Lu}\p{Lt}\p{Lm}\p{Lo}\p{M}]`.
pub open spec fn o200k_upper_block_36(cp: u32) -> bool {
    cp == 0x1E6E || cp == 0x1E70 || cp == 0x1E72 || cp == 0x1E74
    || cp == 0x1E76 || cp == 0x1E78 || cp == 0x1E7A || cp == 0x1E7C
    || cp == 0x1E7E || cp == 0x1E80 || cp == 0x1E82 || cp == 0x1E84
    || cp == 0x1E86 || cp == 0x1E88 || cp == 0x1E8A || cp == 0x1E8C
}

/// Ranges 592..608 of `[\p{Lu}\p{Lt}\p{Lm}\p{Lo}\p{M}]`.
pub open spec fn o200k_upper_block_37(cp: u32) -> bool {
    cp == 0x1E8E || cp == 0x1E90 || cp == 0x1E92 || cp == 0x1E94
    || cp == 0x1E9E || cp == 0x1EA0 || cp == 0x1EA2 || cp == 0x1EA4
    || cp == 0x1EA6 || cp == 0x1EA8 || cp == 0x1EAA || cp == 0x1EAC
    || cp == 0x1EAE || cp == 0x1EB0 || cp == 0x1EB2 || cp == 0x1EB4
}

/// Ranges 608..624 of `[\p{Lu}\p{Lt}\p{Lm}\p{Lo}\p{M}]`.
pub open spec fn o200k_upper_block_38(cp: u32) -> bool {
    cp == 0x1EB6 || cp == 0x1EB8 || cp == 0x1EBA || cp == 0x1EBC
    || cp == 0x1EBE || cp == 0x1EC0 || cp == 0x1EC2 || cp == 0x1EC4
    || cp == 0x1EC6 || cp == 0x1EC8 || cp == 0x1ECA || cp == 0x1ECC
    || cp == 0x1ECE || cp == 0x1ED0 || cp == 0x1ED2 || cp == 0x1ED4
}

/// Ranges 624..640 of `[\p{Lu}\p{Lt}\p{Lm}\p{Lo}\p{M}]`.
pub open spec fn o200k_upper_block_39(cp: u32) -> bool {
    cp == 0x1ED6 || cp == 0x1ED8 || cp == 0x1EDA || cp == 0x1EDC
    || cp == 0x1EDE || cp == 0x1EE0 || cp == 0x1EE2 || cp == 0x1EE4
    || cp == 0x1EE6 || cp == 0x1EE8 || cp == 0x1EEA || cp == 0x1EEC
    || cp == 0x1EEE || cp == 0x1EF0 || cp == 0x1EF2 || cp == 0x1EF4
}

/// Ranges 640..656 of `[\p{Lu}\p{Lt}\p{Lm}\p{Lo}\p{M}]`.
pub open spec fn o200k_upper_block_40(cp: u32) -> bool {
    cp == 0x1EF6 || cp == 0x1EF8 || cp == 0x1EFA || cp == 0x1EFC
    || cp == 0x1EFE || (0x1F08 <= cp && cp <= 0x1F0F) || (0x1F18 <= cp && cp <= 0x1F1D) || (0x1F28 <= cp && cp <= 0x1F2F)
    || (0x1F38 <= cp && cp <= 0x1F3F) || (0x1F48 <= cp && cp <= 0x1F4D) || cp == 0x1F59 || cp == 0x1F5B
    || cp == 0x1F5D || cp == 0x1F5F || (0x1F68 <= cp && cp <= 0x1F6F) || (0x1F88 <= cp && cp <= 0x1F8F)
}

/// Ranges 656..672 of `[\p{Lu}\p{Lt}\p{Lm}\p{Lo}\p{M}]`.
pub open spec fn o200k_upper_block_41(cp: u32) -> bool {
    (0x1F98 <= cp && cp <= 0x1F9F) || (0x1FA8 <= cp && cp <= 0x1FAF) || (0x1FB8 <= cp && cp <= 0x1FBC) || (0x1FC8 <= cp && cp <= 0x1FCC)
    || (0x1FD8 <= cp && cp <= 0x1FDB) || (0x1FE8 <= cp && cp <= 0x1FEC) || (0x1FF8 <= cp && cp <= 0x1FFC) || cp == 0x2071
    || cp == 0x207F || (0x2090 <= cp && cp <= 0x209C) || (0x20D0 <= cp && cp <= 0x20F0) || cp == 0x2102
    || cp == 0x2107 || (0x210B <= cp && cp <= 0x210D) || (0x2110 <= cp && cp <= 0x2112) || cp == 0x2115
}

/// Ranges 672..688 of `[\p{Lu}\p{Lt}\p{Lm}\p{Lo}\p{M}]`.
pub open spec fn o200k_upper_block_42(cp: u32) -> bool {
    (0x2119 <= cp && cp <= 0x211D) || cp == 0x2124 || cp == 0x2126 || cp == 0x2128
    || (0x212A <= cp && cp <= 0x212D) || (0x2130 <= cp && cp <= 0x2133) || (0x2135 <= cp && cp <= 0x2138) || (0x213E <= cp && cp <= 0x213F)
    || cp == 0x2145 || cp == 0x2183 || (0x2C00 <= cp && cp <= 0x2C2F) || cp == 0x2C60
    || (0x2C62 <= cp && cp <= 0x2C64) || cp == 0x2C67 || cp == 0x2C69 || cp == 0x2C6B
}

/// Ranges 688..704 of `[\p{Lu}\p{Lt}\p{Lm}\p{Lo}\p{M}]`.
pub open spec fn o200k_upper_block_43(cp: u32) -> bool {
    (0x2C6D <= cp && cp <= 0x2C70) || cp == 0x2C72 || cp == 0x2C75 || (0x2C7C <= cp && cp <= 0x2C80)
    || cp == 0x2C82 || cp == 0x2C84 || cp == 0x2C86 || cp == 0x2C88
    || cp == 0x2C8A || cp == 0x2C8C || cp == 0x2C8E || cp == 0x2C90
    || cp == 0x2C92 || cp == 0x2C94 || cp == 0x2C96 || cp == 0x2C98
}

/// Ranges 704..720 of `[\p{Lu}\p{Lt}\p{Lm}\p{Lo}\p{M}]`.
pub open spec fn o200k_upper_block_44(cp: u32) -> bool {
    cp == 0x2C9A || cp == 0x2C9C || cp == 0x2C9E || cp == 0x2CA0
    || cp == 0x2CA2 || cp == 0x2CA4 || cp == 0x2CA6 || cp == 0x2CA8
    || cp == 0x2CAA || cp == 0x2CAC || cp == 0x2CAE || cp == 0x2CB0
    || cp == 0x2CB2 || cp == 0x2CB4 || cp == 0x2CB6 || cp == 0x2CB8
}

/// Ranges 720..736 of `[\p{Lu}\p{Lt}\p{Lm}\p{Lo}\p{M}]`.
pub open spec fn o200k_upper_block_45(cp: u32) -> bool {
    cp == 0x2CBA || cp == 0x2CBC || cp == 0x2CBE || cp == 0x2CC0
    || cp == 0x2CC2 || cp == 0x2CC4 || cp == 0x2CC6 || cp == 0x2CC8
    || cp == 0x2CCA || cp == 0x2CCC || cp == 0x2CCE || cp == 0x2CD0
    || cp == 0x2CD2 || cp == 0x2CD4 || cp == 0x2CD6 || cp == 0x2CD8
}

/// Ranges 736..752 of `[\p{Lu}\p{Lt}\p{Lm}\p{Lo}\p{M}]`.
pub open spec fn o200k_upper_block_46(cp: u32) -> bool {
    cp == 0x2CDA || cp == 0x2CDC || cp == 0x2CDE || cp == 0x2CE0
    || cp == 0x2CE2 || cp == 0x2CEB || cp == 0x2CED || (0x2CEF <= cp && cp <= 0x2CF2)
    || (0x2D30 <= cp && cp <= 0x2D67) || cp == 0x2D6F || (0x2D7F <= cp && cp <= 0x2D96) || (0x2DA0 <= cp && cp <= 0x2DA6)
    || (0x2DA8 <= cp && cp <= 0x2DAE) || (0x2DB0 <= cp && cp <= 0x2DB6) || (0x2DB8 <= cp && cp <= 0x2DBE) || (0x2DC0 <= cp && cp <= 0x2DC6)
}

/// Ranges 752..768 of `[\p{Lu}\p{Lt}\p{Lm}\p{Lo}\p{M}]`.
pub open spec fn o200k_upper_block_47(cp: u32) -> bool {
    (0x2DC8 <= cp && cp <= 0x2DCE) || (0x2DD0 <= cp && cp <= 0x2DD6) || (0x2DD8 <= cp && cp <= 0x2DDE) || (0x2DE0 <= cp && cp <= 0x2DFF)
    || cp == 0x2E2F || (0x3005 <= cp && cp <= 0x3006) || (0x302A <= cp && cp <= 0x302F) || (0x3031 <= cp && cp <= 0x3035)
    || (0x303B <= cp && cp <= 0x303C) || (0x3041 <= cp && cp <= 0x3096) || (0x3099 <= cp && cp <= 0x309A) || (0x309D <= cp && cp <= 0x309F)
    || (0x30A1 <= cp && cp <= 0x30FA) || (0x30FC <= cp && cp <= 0x30FF) || (0x3105 <= cp && cp <= 0x312F) || (0x3131 <= cp && cp <= 0x318E)
}

/// Ranges 768..784 of `[\p{Lu}\p{Lt}\p{Lm}\p{Lo}\p{M}]`.
pub open spec fn o200k_upper_block_48(cp: u32) -> bool {
    (0x31A0 <= cp && cp <= 0x31BF) || (0x31F0 <= cp && cp <= 0x31FF) || (0x3400 <= cp && cp <= 0x4DBF) || (0x4E00 <= cp && cp <= 0xA48C)
    || (0xA4D0 <= cp && cp <= 0xA4FD) || (0xA500 <= cp && cp <= 0xA60C) || (0xA610 <= cp && cp <= 0xA61F) || (0xA62A <= cp && cp <= 0xA62B)
    || cp == 0xA640 || cp == 0xA642 || cp == 0xA644 || cp == 0xA646
    || cp == 0xA648 || cp == 0xA64A || cp == 0xA64C || cp == 0xA64E
}

/// Ranges 784..800 of `[\p{Lu}\p{Lt}\p{Lm}\p{Lo}\p{M}]`.
pub open spec fn o200k_upper_block_49(cp: u32) -> bool {
    cp == 0xA650 || cp == 0xA652 || cp == 0xA654 || cp == 0xA656
    || cp == 0xA658 || cp == 0xA65A || cp == 0xA65C || cp == 0xA65E
    || cp == 0xA660 || cp == 0xA662 || cp == 0xA664 || cp == 0xA666
    || cp == 0xA668 || cp == 0xA66A || cp == 0xA66C || (0xA66E <= cp && cp <= 0xA672)
}

/// Ranges 800..816 of `[\p{Lu}\p{Lt}\p{Lm}\p{Lo}\p{M}]`.
pub open spec fn o200k_upper_block_50(cp: u32) -> bool {
    (0xA674 <= cp && cp <= 0xA67D) || (0xA67F <= cp && cp <= 0xA680) || cp == 0xA682 || cp == 0xA684
    || cp == 0xA686 || cp == 0xA688 || cp == 0xA68A || cp == 0xA68C
    || cp == 0xA68E || cp == 0xA690 || cp == 0xA692 || cp == 0xA694
    || cp == 0xA696 || cp == 0xA698 || cp == 0xA69A || (0xA69C <= cp && cp <= 0xA6E5)
}

/// Ranges 816..832 of `[\p{Lu}\p{Lt}\p{Lm}\p{Lo}\p{M}]`.
pub open spec fn o200k_upper_block_51(cp: u32) -> bool {
    (0xA6F0 <= cp && cp <= 0xA6F1) || (0xA717 <= cp && cp <= 0xA71F) || cp == 0xA722 || cp == 0xA724
    || cp == 0xA726 || cp == 0xA728 || cp == 0xA72A || cp == 0xA72C
    || cp == 0xA72E || cp == 0xA732 || cp == 0xA734 || cp == 0xA736
    || cp == 0xA738 || cp == 0xA73A || cp == 0xA73C || cp == 0xA73E
}

/// Ranges 832..848 of `[\p{Lu}\p{Lt}\p{Lm}\p{Lo}\p{M}]`.
pub open spec fn o200k_upper_block_52(cp: u32) -> bool {
    cp == 0xA740 || cp == 0xA742 || cp == 0xA744 || cp == 0xA746
    || cp == 0xA748 || cp == 0xA74A || cp == 0xA74C || cp == 0xA74E
    || cp == 0xA750 || cp == 0xA752 || cp == 0xA754 || cp == 0xA756
    || cp == 0xA758 || cp == 0xA75A || cp == 0xA75C || cp == 0xA75E
}

/// Ranges 848..864 of `[\p{Lu}\p{Lt}\p{Lm}\p{Lo}\p{M}]`.
pub open spec fn o200k_upper_block_53(cp: u32) -> bool {
    cp == 0xA760 || cp == 0xA762 || cp == 0xA764 || cp == 0xA766
    || cp == 0xA768 || cp == 0xA76A || cp == 0xA76C || cp == 0xA76E
    || cp == 0xA770 || cp == 0xA779 || cp == 0xA77B || (0xA77D <= cp && cp <= 0xA77E)
    || cp == 0xA780 || cp == 0xA782 || cp == 0xA784 || cp == 0xA786
}

/// Ranges 864..880 of `[\p{Lu}\p{Lt}\p{Lm}\p{Lo}\p{M}]`.
pub open spec fn o200k_upper_block_54(cp: u32) -> bool {
    cp == 0xA788 || cp == 0xA78B || cp == 0xA78D || (0xA78F <= cp && cp <= 0xA790)
    || cp == 0xA792 || cp == 0xA796 || cp == 0xA798 || cp == 0xA79A
    || cp == 0xA79C || cp == 0xA79E || cp == 0xA7A0 || cp == 0xA7A2
    || cp == 0xA7A4 || cp == 0xA7A6 || cp == 0xA7A8 || (0xA7AA <= cp && cp <= 0xA7AE)
}

/// Ranges 880..896 of `[\p{Lu}\p{Lt}\p{Lm}\p{Lo}\p{M}]`.
pub open spec fn o200k_upper_block_55(cp: u32) -> bool {
    (0xA7B0 <= cp && cp <= 0xA7B4) || cp == 0xA7B6 || cp == 0xA7B8 || cp == 0xA7BA
    || cp == 0xA7BC || cp == 0xA7BE || cp == 0xA7C0 || cp == 0xA7C2
    || (0xA7C4 <= cp && cp <= 0xA7C7) || cp == 0xA7C9 || cp == 0xA7D0 || cp == 0xA7D6
    || cp == 0xA7D8 || (0xA7F2 <= cp && cp <= 0xA7F5) || (0xA7F7 <= cp && cp <= 0xA7F9) || (0xA7FB <= cp && cp <= 0xA827)
}

/// Ranges 896..912 of `[\p{Lu}\p{Lt}\p{Lm}\p{Lo}\p{M}]`.
pub open spec fn o200k_upper_block_56(cp: u32) -> bool {
    cp == 0xA82C || (0xA840 <= cp && cp <= 0xA873) || (0xA880 <= cp && cp <= 0xA8C5) || (0xA8E0 <= cp && cp <= 0xA8F7)
    || cp == 0xA8FB || (0xA8FD <= cp && cp <= 0xA8FF) || (0xA90A <= cp && cp <= 0xA92D) || (0xA930 <= cp && cp <= 0xA953)
    || (0xA960 <= cp && cp <= 0xA97C) || (0xA980 <= cp && cp <= 0xA9C0) || cp == 0xA9CF || (0xA9E0 <= cp && cp <= 0xA9EF)
    || (0xA9FA <= cp && cp <= 0xA9FE) || (0xAA00 <= cp && cp <= 0xAA36) || (0xAA40 <= cp && cp <= 0xAA4D) || (0xAA60 <= cp && cp <= 0xAA76)
}

/// Ranges 912..928 of `[\p{Lu}\p{Lt}\p{Lm}\p{Lo}\p{M}]`.
pub open spec fn o200k_upper_block_57(cp: u32) -> bool {
    (0xAA7A <= cp && cp <= 0xAAC2) || (0xAADB <= cp && cp <= 0xAADD) || (0xAAE0 <= cp && cp <= 0xAAEF) || (0xAAF2 <= cp && cp <= 0xAAF6)
    || (0xAB01 <= cp && cp <= 0xAB06) || (0xAB09 <= cp && cp <= 0xAB0E) || (0xAB11 <= cp && cp <= 0xAB16) || (0xAB20 <= cp && cp <= 0xAB26)
    || (0xAB28 <= cp && cp <= 0xAB2E) || (0xAB5C <= cp && cp <= 0xAB5F) || cp == 0xAB69 || (0xABC0 <= cp && cp <= 0xABEA)
    || (0xABEC <= cp && cp <= 0xABED) || (0xAC00 <= cp && cp <= 0xD7A3) || (0xD7B0 <= cp && cp <= 0xD7C6) || (0xD7CB <= cp && cp <= 0xD7FB)
}

/// Ranges 928..944 of `[\p{Lu}\p{Lt}\p{Lm}\p{Lo}\p{M}]`.
pub open spec fn o200k_upper_block_58(cp: u32) -> bool {
    (0xF900 <= cp && cp <= 0xFA6D) || (0xFA70 <= cp && cp <= 0xFAD9) || (0xFB1D <= cp && cp <= 0xFB28) || (0xFB2A <= cp && cp <= 0xFB36)
    || (0xFB38 <= cp && cp <= 0xFB3C) || cp == 0xFB3E || (0xFB40 <= cp && cp <= 0xFB41) || (0xFB43 <= cp && cp <= 0xFB44)
    || (0xFB46 <= cp && cp <= 0xFBB1) || (0xFBD3 <= cp && cp <= 0xFD3D) || (0xFD50 <= cp && cp <= 0xFD8F) || (0xFD92 <= cp && cp <= 0xFDC7)
    || (0xFDF0 <= cp && cp <= 0xFDFB) || (0xFE00 <= cp && cp <= 0xFE0F) || (0xFE20 <= cp && cp <= 0xFE2F) || (0xFE70 <= cp && cp <= 0xFE74)
}

/// Ranges 944..960 of `[\p{Lu}\p{Lt}\p{Lm}\p{Lo}\p{M}]`.
pub open spec fn o200k_upper_block_59(cp: u32) -> bool {
    (0xFE76 <= cp && cp <= 0xFEFC) || (0xFF21 <= cp && cp <= 0xFF3A) || (0xFF66 <= cp && cp <= 0xFFBE) || (0xFFC2 <= cp && cp <= 0xFFC7)
    || (0xFFCA <= cp && cp <= 0xFFCF) || (0xFFD2 <= cp && cp <= 0xFFD7) || (0xFFDA <= cp && cp <= 0xFFDC) || (0x10000 <= cp && cp <= 0x1000B)
    || (0x1000D <= cp && cp <= 0x10026) || (0x10028 <= cp && cp <= 0x1003A) || (0x1003C <= cp && cp <= 0x1003D) || (0x1003F <= cp && cp <= 0x1004D)
    || (0x10050 <= cp && cp <= 0x1005D) || (0x10080 <= cp && cp <= 0x100FA) || cp == 0x101FD || (0x10280 <= cp && cp <= 0x1029C)
}

/// Ranges 960..976 of `[\p{Lu}\p{Lt}\p{Lm}\p{Lo}\p{M}]`.
pub open spec fn o200k_upper_block_60(cp: u32) -> bool {
    (0x102A0 <= cp && cp <= 0x102D0) || cp == 0x102E0 || (0x10300 <= cp && cp <= 0x1031F) || (0x1032D <= cp && cp <= 0x10340)
    || (0x10342 <= cp && cp <= 0x10349) || (0x10350 <= cp && cp <= 0x1037A) || (0x10380 <= cp && cp <= 0x1039D) || (0x103A0 <= cp && cp <= 0x103C3)
    || (0x103C8 <= cp && cp <= 0x103CF) || (0x10400 <= cp && cp <= 0x10427) || (0x10450 <= cp && cp <= 0x1049D) || (0x104B0 <= cp && cp <= 0x104D3)
    || (0x10500 <= cp && cp <= 0x10527) || (0x10530 <= cp && cp <= 0x10563) || (0x10570 <= cp && cp <= 0x1057A) || (0x1057C <= cp && cp <= 0x1058A)
}

/// Ranges 976..992 of `[\p{Lu}\p{Lt}\p{Lm}\p{Lo}\p{M}]`.
pub open spec fn o200k_upper_block_61(cp: u32) -> bool {
    (0x1058C <= cp && cp <= 0x10592) || (0x10594 <= cp && cp <= 0x10595) || (0x10600 <= cp && cp <= 0x10736) || (0x10740 <= cp && cp <= 0x10755)
    || (0x10760 <= cp && cp <= 0x10767) || (0x10780 <= cp && cp <= 0x10785) || (0x10787 <= cp && cp <= 0x107B0) || (0x107B2 <= cp && cp <= 0x107BA)
    || (0x10800 <= cp && cp <= 0x10805) || cp == 0x10808 || (0x1080A <= cp && cp <= 0x10835) || (0x10837 <= cp && cp <= 0x10838)
    || cp == 0x1083C || (0x1083F <= cp && cp <= 0x10855) || (0x10860 <= cp && cp <= 0x10876) || (0x10880 <= cp && cp <= 0x1089E)
}

/// Ranges 992..1008 of `[\p{Lu}\p{Lt}\p{Lm}\p{Lo}\p{M}]`.
pub open spec fn o200k_upper_block_62(cp: u32) -> bool {
    (0x108E0 <= cp && cp <= 0x108F2) || (0x108F4 <= cp && cp <= 0x108F5) || (0x10900 <= cp && cp <= 0x10915) || (0x10920 <= cp && cp <= 0x10939)
    || (0x10980 <= cp && cp <= 0x109B7) || (0x109BE <= cp && cp <= 0x109BF) || (0x10A00 <= cp && cp <= 0x10A03) || (0x10A05 <= cp && cp <= 0x10A06)
    || (0x10A0C <= cp && cp <= 0x10A13) || (0x10A15 <= cp && cp <= 0x10A17) || (0x10A19 <= cp && cp <= 0x10A35) || (0x10A38 <= cp && cp <= 0x10A3A)
    || cp == 0x10A3F || (0x10A60 <= cp && cp <= 0x10A7C) || (0x10A80 <= cp && cp <= 0x10A9C) || (0x10AC0 <= cp && cp <= 0x10AC7)
}

/// Ranges 1008..1024 of `[\p{Lu}\p{Lt}\p{Lm}\p{Lo}\p{M}]`.
pub open spec fn o200k_upper_block_63(cp: u32) -> bool {
    (0x10AC9 <= cp && cp <= 0x10AE6) || (0x10B00 <= cp && cp <= 0x10B35) || (0x10B40 <= cp && cp <= 0x10B55) || (0x10B60 <= cp && cp <= 0x10B72)
    || (0x10B80 <= cp && cp <= 0x10B91) || (0x10C00 <= cp && cp <= 0x10C48) || (0x10C80 <= cp && cp <= 0x10CB2) || (0x10D00 <= cp && cp <= 0x10D27)
    || (0x10E80 <= cp && cp <= 0x10EA9) || (0x10EAB <= cp && cp <= 0x10EAC) || (0x10EB0 <= cp && cp <= 0x10EB1) || (0x10F00 <= cp && cp <= 0x10F1C)
    || cp == 0x10F27 || (0x10F30 <= cp && cp <= 0x10F50) || (0x10F70 <= cp && cp <= 0x10F85) || (0x10FB0 <= cp && cp <= 0x10FC4)
}

/// Ranges 1024..1040 of `[\p{Lu}\p{Lt}\p{Lm}\p{Lo}\p{M}]`.
pub open spec fn o200k_upper_block_64(cp: u32) -> bool {
    (0x10FE0 <= cp && cp <= 0x10FF6) || (0x11000 <= cp && cp <= 0x11046) || (0x11070 <= cp && cp <= 0x11075) || (0x1107F <= cp && cp <= 0x110BA)
    || cp == 0x110C2 || (0x110D0 <= cp && cp <= 0x110E8) || (0x11100 <= cp && cp <= 0x11134) || (0x11144 <= cp && cp <= 0x11147)
    || (0x11150 <= cp && cp <= 0x11173) || cp == 0x11176 || (0x11180 <= cp && cp <= 0x111C4) || (0x111C9 <= cp && cp <= 0x111CC)
    || (0x111CE <= cp && cp <= 0x111CF) || cp == 0x111DA || cp == 0x111DC || (0x11200 <= cp && cp <= 0x11211)
}

/// Ranges 1040..1056 of `[\p{Lu}\p{Lt}\p{Lm}\p{Lo}\p{M}]`.
pub open spec fn o200k_upper_block_65(cp: u32) -> bool {
    (0x11213 <= cp && cp <= 0x11237) || cp == 0x1123E || (0x11280 <= cp && cp <= 0x11286) || cp == 0x11288
    || (0x1128A <= cp && cp <= 0x1128D) || (0x1128F <= cp && cp <= 0x1129D) || (0x1129F <= cp && cp <= 0x112A8) || (0x112B0 <= cp && cp <= 0x112EA)
    || (0x11300 <= cp && cp <= 0x11303) || (0x11305 <= cp && cp <= 0x1130C) || (0x1130F <= cp && cp <= 0x11310) || (0x11313 <= cp && cp <= 0x11328)
    || (0x1132A <= cp && cp <= 0x11330) || (0x11332 <= cp && cp <= 0x11333) || (0x11335 <= cp && cp <= 0x11339) || (0x1133B <= cp && cp <= 0x11344)
}

/// Ranges 1056..1072 of `[\p{Lu}\p{Lt}\p{Lm}\p{Lo}\p{M}]`.
pub open spec fn o200k_upper_block_66(cp: u32) -> bool {
    (0x11347 <= cp && cp <= 0x11348) || (0x1134B <= cp && cp <= 0x1134D) || cp == 0x11350 || cp == 0x11357
    || (0x1135D <= cp && cp <= 0x11363) || (0x11366 <= cp && cp <= 0x1136C) || (0x11370 <= cp && cp <= 0x11374) || (0x11400 <= cp && cp <= 0x1144A)
    || (0x1145E <= cp && cp <= 0x11461) || (0x11480 <= cp && cp <= 0x114C5) || cp == 0x114C7 || (0x11580 <= cp && cp <= 0x115B5)
    || (0x115B8 <= cp && cp <= 0x115C0) || (0x115D8 <= cp && cp <= 0x115DD) || (0x11600 <= cp && cp <= 0x11640) || cp == 0x11644
}

/// Ranges 1072..1088 of `[\p{Lu}\p{Lt}\p{Lm}\p{Lo}\p{M}]`.
pub open spec fn o200k_upper_block_67(cp: u32) -> bool {
    (0x11680 <= cp && cp <= 0x116B8) || (0x11700 <= cp && cp <= 0x1171A) || (0x1171D <= cp && cp <= 0x1172B) || (0x11740 <= cp && cp <= 0x11746)
    || (0x11800 <= cp && cp <= 0x1183A) || (0x118A0 <= cp && cp <= 0x118BF) || (0x118FF <= cp && cp <= 0x11906) || cp == 0x11909
    || (0x1190C <= cp && cp <= 0x11913) || (0x11915 <= cp && cp <= 0x11916) || (0x11918 <= cp && cp <= 0x11935) || (0x11937 <= cp && cp <= 0x11938)
    || (0x1193B <= cp && cp <= 0x11943) || (0x119A0 <= cp && cp <= 0x119A7) || (0x119AA <= cp && cp <= 0x119D7) || (0x119DA <= cp && cp <= 0x119E1)
}

/// Ranges 1088..1104 of `[\p{Lu}\p{Lt}\p{Lm}\p{Lo}\p{M}]`.
pub open spec fn o200k_upper_block_68(cp: u32) -> bool {
    (0x119E3 <= cp && cp <= 0x119E4) || (0x11A00 <= cp && cp <= 0x11A3E) || cp == 0x11A47 || (0x11A50 <= cp && cp <= 0x11A99)
    || cp == 0x11A9D || (0x11AB0 <= cp && cp <= 0x11AF8) || (0x11C00 <= cp && cp <= 0x11C08) || (0x11C0A <= cp && cp <= 0x11C36)
    || (0x11C38 <= cp && cp <= 0x11C40) || (0x11C72 <= cp && cp <= 0x11C8F) || (0x11C92 <= cp && cp <= 0x11CA7) || (0x11CA9 <= cp && cp <= 0x11CB6)
    || (0x11D00 <= cp && cp <= 0x11D06) || (0x11D08 <= cp && cp <= 0x11D09) || (0x11D0B <= cp && cp <= 0x11D36) || cp == 0x11D3A
}

/// Ranges 1104..1120 of `[\p{Lu}\p{Lt}\p{Lm}\p{Lo}\p{M}]`.
pub open spec fn o200k_upper_block_69(cp: u32) -> bool {
    (0x11D3C <= cp && cp <= 0x11D3D) || (0x11D3F <= cp && cp <= 0x11D47) || (0x11D60 <= cp && cp <= 0x11D65) || (0x11D67 <= cp && cp <= 0x11D68)
    || (0x11D6A <= cp && cp <= 0x11D8E) || (0x11D90 <= cp && cp <= 0x11D91) || (0x11D93 <= cp && cp <= 0x11D98) || (0x11EE0 <= cp && cp <= 0x11EF6)
    || cp == 0x11FB0 || (0x12000 <= cp && cp <= 0x12399) || (0x12480 <= cp && cp <= 0x12543) || (0x12F90 <= cp && cp <= 0x12FF0)
    || (0x13000 <= cp && cp <= 0x1342E) || (0x14400 <= cp && cp <= 0x14646) || (0x16800 <= cp && cp <= 0x16A38) || (0x16A40 <= cp && cp <= 0x16A5E)
}

/// Ranges 1120..1136 of `[\p{Lu}\p{Lt}\p{Lm}\p{Lo}\p{M}]`.
pub open spec fn o200k_upper_block_70(cp: u32) -> bool {
    (0x16A70 <= cp && cp <= 0x16ABE) || (0x16AD0 <= cp && cp <= 0x16AED) || (0x16AF0 <= cp && cp <= 0x16AF4) || (0x16B00 <= cp && cp <= 0x16B36)
    || (0x16B40 <= cp && cp <= 0x16B43) || (0x16B63 <= cp && cp <= 0x16B77) || (0x16B7D <= cp && cp <= 0x16B8F) || (0x16E40 <= cp && cp <= 0x16E5F)
    || (0x16F00 <= cp && cp <= 0x16F4A) || (0x16F4F <= cp && cp <= 0x16F87) || (0x16F8F <= cp && cp <= 0x16F9F) || (0x16FE0 <= cp && cp <= 0x16FE1)
    || (0x16FE3 <= cp && cp <= 0x16FE4) || (0x16FF0 <= cp && cp <= 0x16FF1) || (0x17000 <= cp && cp <= 0x187F7) || (0x18800 <= cp && cp <= 0x18CD5)
}

/// Ranges 1136..1152 of `[\p{Lu}\p{Lt}\p{Lm}\p{Lo}\p{M}]`.
pub open spec fn o200k_upper_block_71(cp: u32) -> bool {
    (0x18D00 <= cp && cp <= 0x18D08) || (0x1AFF0 <= cp && cp <= 0x1AFF3) || (0x1AFF5 <= cp && cp <= 0x1AFFB) || (0x1AFFD <= cp && cp <= 0x1AFFE)
    || (0x1B000 <= cp && cp <= 0x1B122) || (0x1B150 <= cp && cp <= 0x1B152) || (0x1B164 <= cp && cp <= 0x1B167) || (0x1B170 <= cp && cp <= 0x1B2FB)
    || (0x1BC00 <= cp && cp <= 0x1BC6A) || (0x1BC70 <= cp && cp <= 0x1BC7C) || (0x1BC80 <= cp && cp <= 0x1BC88) || (0x1BC90 <= cp && cp <= 0x1BC99)
    || (0x1BC9D <= cp && cp <= 0x1BC9E) || (0x1CF00 <= cp && cp <= 0x1CF2D) || (0x1CF30 <= cp && cp <= 0x1CF46) || (0x1D165 <= cp && cp <= 0x1D169)
}

/// Ranges 1152..1168 of `[\p{Lu}\p{Lt}\p{Lm}\p{Lo}\p{M}]`.
pub open spec fn o200k_upper_block_72(cp: u32) -> bool {
    (0x1D16D <= cp && cp <= 0x1D172) || (0x1D17B <= cp && cp <= 0x1D182) || (0x1D185 <= cp && cp <= 0x1D18B) || (0x1D1AA <= cp && cp <= 0x1D1AD)
    || (0x1D242 <= cp && cp <= 0x1D244) || (0x1D400 <= cp && cp <= 0x1D419) || (0x1D434 <= cp && cp <= 0x1D44D) || (0x1D468 <= cp && cp <= 0x1D481)
    || cp == 0x1D49C || (0x1D49E <= cp && cp <= 0x1D49F) || cp == 0x1D4A2 || (0x1D4A5 <= cp && cp <= 0x1D4A6)
    || (0x1D4A9 <= cp && cp <= 0x1D4AC) || (0x1D4AE <= cp && cp <= 0x1D4B5) || (0x1D4D0 <= cp && cp <= 0x1D4E9) || (0x1D504 <= cp && cp <= 0x1D505)
}

/// Ranges 1168..1184 of `[\p{Lu}\p{Lt}\p{Lm}\p{Lo}\p{M}]`.
pub open spec fn o200k_upper_block_73(cp: u32) -> bool {
    (0x1D507 <= cp && cp <= 0x1D50A) || (0x1D50D <= cp && cp <= 0x1D514) || (0x1D516 <= cp && cp <= 0x1D51C) || (0x1D538 <= cp && cp <= 0x1D539)
    || (0x1D53B <= cp && cp <= 0x1D53E) || (0x1D540 <= cp && cp <= 0x1D544) || cp == 0x1D546 || (0x1D54A <= cp && cp <= 0x1D550)
    || (0x1D56C <= cp && cp <= 0x1D585) || (0x1D5A0 <= cp && cp <= 0x1D5B9) || (0x1D5D4 <= cp && cp <= 0x1D5ED) || (0x1D608 <= cp && cp <= 0x1D621)
    || (0x1D63C <= cp && cp <= 0x1D655) || (0x1D670 <= cp && cp <= 0x1D689) || (0x1D6A8 <= cp && cp <= 0x1D6C0) || (0x1D6E2 <= cp && cp <= 0x1D6FA)
}

/// Ranges 1184..1200 of `[\p{Lu}\p{Lt}\p{Lm}\p{Lo}\p{M}]`.
pub open spec fn o200k_upper_block_74(cp: u32) -> bool {
    (0x1D71C <= cp && cp <= 0x1D734) || (0x1D756 <= cp && cp <= 0x1D76E) || (0x1D790 <= cp && cp <= 0x1D7A8) || cp == 0x1D7CA
    || (0x1DA00 <= cp && cp <= 0x1DA36) || (0x1DA3B <= cp && cp <= 0x1DA6C) || cp == 0x1DA75 || cp == 0x1DA84
    || (0x1DA9B <= cp && cp <= 0x1DA9F) || (0x1DAA1 <= cp && cp <= 0x1DAAF) || cp == 0x1DF0A || (0x1E000 <= cp && cp <= 0x1E006)
    || (0x1E008 <= cp && cp <= 0x1E018) || (0x1E01B <= cp && cp <= 0x1E021) || (0x1E023 <= cp && cp <= 0x1E024) || (0x1E026 <= cp && cp <= 0x1E02A)
}

/// Ranges 1200..1216 of `[\p{Lu}\p{Lt}\p{Lm}\p{Lo}\p{M}]`.
pub open spec fn o200k_upper_block_75(cp: u32) -> bool {
    (0x1E100 <= cp && cp <= 0x1E12C) || (0x1E130 <= cp && cp <= 0x1E13D) || cp == 0x1E14E || (0x1E290 <= cp && cp <= 0x1E2AE)
    || (0x1E2C0 <= cp && cp <= 0x1E2EF) || (0x1E7E0 <= cp && cp <= 0x1E7E6) || (0x1E7E8 <= cp && cp <= 0x1E7EB) || (0x1E7ED <= cp && cp <= 0x1E7EE)
    || (0x1E7F0 <= cp && cp <= 0x1E7FE) || (0x1E800 <= cp && cp <= 0x1E8C4) || (0x1E8D0 <= cp && cp <= 0x1E8D6) || (0x1E900 <= cp && cp <= 0x1E921)
    || (0x1E944 <= cp && cp <= 0x1E94B) || (0x1EE00 <= cp && cp <= 0x1EE03) || (0x1EE05 <= cp && cp <= 0x1EE1F) || (0x1EE21 <= cp && cp <= 0x1EE22)
}

/// Ranges 1216..1232 of `[\p{Lu}\p{Lt}\p{Lm}\p{Lo}\p{M}]`.
pub open spec fn o200k_upper_block_76(cp: u32) -> bool {
    cp == 0x1EE24 || cp == 0x1EE27 || (0x1EE29 <= cp && cp <= 0x1EE32) || (0x1EE34 <= cp && cp <= 0x1EE37)
    || cp == 0x1EE39 || cp == 0x1EE3B || cp == 0x1EE42 || cp == 0x1EE47
    || cp == 0x1EE49 || cp == 0x1EE4B || (0x1EE4D <= cp && cp <= 0x1EE4F) || (0x1EE51 <= cp && cp <= 0x1EE52)
    || cp == 0x1EE54 || cp == 0x1EE57 || cp == 0x1EE59 || cp == 0x1EE5B
}

/// Ranges 1232..1248 of `[\p{Lu}\p{Lt}\p{Lm}\p{Lo}\p{M}]`.
pub open spec fn o200k_upper_block_77(cp: u32) -> bool {
    cp == 0x1EE5D || cp == 0x1EE5F || (0x1EE61 <= cp && cp <= 0x1EE62) || cp == 0x1EE64
    || (0x1EE67 <= cp && cp <= 0x1EE6A) || (0x1EE6C <= cp && cp <= 0x1EE72) || (0x1EE74 <= cp && cp <= 0x1EE77) || (0x1EE79 <= cp && cp <= 0x1EE7C)
    || cp == 0x1EE7E || (0x1EE80 <= cp && cp <= 0x1EE89) || (0x1EE8B <= cp && cp <= 0x1EE9B) || (0x1EEA1 <= cp && cp <= 0x1EEA3)
    || (0x1EEA5 <= cp && cp <= 0x1EEA9) || (0x1EEAB <= cp && cp <= 0x1EEBB) || (0x20000 <= cp && cp <= 0x2A6DF) || (0x2A700 <= cp && cp <= 0x2B738)
}

/// Ranges 1248..1254 of `[\p{Lu}\p{Lt}\p{Lm}\p{Lo}\p{M}]`.
pub open spec fn o200k_upper_block_78(cp: u32) -> bool {
    (0x2B740 <= cp && cp <= 0x2B81D) || (0x2B820 <= cp && cp <= 0x2CEA1) || (0x2CEB0 <= cp && cp <= 0x2EBE0) || (0x2F800 <= cp && cp <= 0x2FA1D)
    || (0x30000 <= cp && cp <= 0x3134A) || (0xE0100 <= cp && cp <= 0xE01EF)
}

/// Membership in `[\p{Lu}\p{Lt}\p{Lm}\p{Lo}\p{M}]` (1254 ranges).
pub open spec fn o200k_upper_class(cp: u32) -> bool {
    o200k_upper_block_0(cp) || o200k_upper_block_1(cp) || o200k_upper_block_2(cp) || o200k_upper_block_3(cp)
    || o200k_upper_block_4(cp) || o200k_upper_block_5(cp) || o200k_upper_block_6(cp) || o200k_upper_block_7(cp)
    || o200k_upper_block_8(cp) || o200k_upper_block_9(cp) || o200k_upper_block_10(cp) || o200k_upper_block_11(cp)
    || o200k_upper_block_12(cp) || o200k_upper_block_13(cp) || o200k_upper_block_14(cp) || o200k_upper_block_15(cp)
    || o200k_upper_block_16(cp) || o200k_upper_block_17(cp) || o200k_upper_block_18(cp) || o200k_upper_block_19(cp)
    || o200k_upper_block_20(cp) || o200k_upper_block_21(cp) || o200k_upper_block_22(cp) || o200k_upper_block_23(cp)
    || o200k_upper_block_24(cp) || o200k_upper_block_25(cp) || o200k_upper_block_26(cp) || o200k_upper_block_27(cp)
    || o200k_upper_block_28(cp) || o200k_upper_block_29(cp) || o200k_upper_block_30(cp) || o200k_upper_block_31(cp)
    || o200k_upper_block_32(cp) || o200k_upper_block_33(cp) || o200k_upper_block_34(cp) || o200k_upper_block_35(cp)
    || o200k_upper_block_36(cp) || o200k_upper_block_37(cp) || o200k_upper_block_38(cp) || o200k_upper_block_39(cp)
    || o200k_upper_block_40(cp) || o200k_upper_block_41(cp) || o200k_upper_block_42(cp) || o200k_upper_block_43(cp)
    || o200k_upper_block_44(cp) || o200k_upper_block_45(cp) || o200k_upper_block_46(cp) || o200k_upper_block_47(cp)
    || o200k_upper_block_48(cp) || o200k_upper_block_49(cp) || o200k_upper_block_50(cp) || o200k_upper_block_51(cp)
    || o200k_upper_block_52(cp) || o200k_upper_block_53(cp) || o200k_upper_block_54(cp) || o200k_upper_block_55(cp)
    || o200k_upper_block_56(cp) || o200k_upper_block_57(cp) || o200k_upper_block_58(cp) || o200k_upper_block_59(cp)
    || o200k_upper_block_60(cp) || o200k_upper_block_61(cp) || o200k_upper_block_62(cp) || o200k_upper_block_63(cp)
    || o200k_upper_block_64(cp) || o200k_upper_block_65(cp) || o200k_upper_block_66(cp) || o200k_upper_block_67(cp)
    || o200k_upper_block_68(cp) || o200k_upper_block_69(cp) || o200k_upper_block_70(cp) || o200k_upper_block_71(cp)
    || o200k_upper_block_72(cp) || o200k_upper_block_73(cp) || o200k_upper_block_74(cp) || o200k_upper_block_75(cp)
    || o200k_upper_block_76(cp) || o200k_upper_block_77(cp) || o200k_upper_block_78(cp)
}

/// Executable membership in `[\p{Lu}\p{Lt}\p{Lm}\p{Lo}\p{M}]`.
pub fn o200k_upper_cp(cp: u32) -> (r: bool)
    ensures
        r == o200k_upper_class(cp),
{
    if cp < 0x1ED6 {
        if cp < 0x840 {
            if cp < 0x24C {
                if cp < 0x178 {
                    if cp < 0x136 {
                        if cp < 0x116 {
                            (0x41 <= cp && cp <= 0x5A) || cp == 0xAA || cp == 0xBA || (0xC0 <= cp && cp <= 0xD6)
                                || (0xD8 <= cp && cp <= 0xDE) || cp == 0x100 || cp == 0x102 || cp == 0x104
                                || cp == 0x106 || cp == 0x108 || cp == 0x10A || cp == 0x10C
                                || cp == 0x10E || cp == 0x110 || cp == 0x112 || cp == 0x114
                        } else {
                            cp == 0x116 || cp == 0x118 || cp == 0x11A || cp == 0x11C
                                || cp == 0x11E || cp == 0x120 || cp == 0x122 || cp == 0x124
                                || cp == 0x126 || cp == 0x128 || cp == 0x12A || cp == 0x12C
                                || cp == 0x12E || cp == 0x130 || cp == 0x132 || cp == 0x134
                        }
                    } else {
                        if cp < 0x158 {
                            cp == 0x136 || cp == 0x139 || cp == 0x13B || cp == 0x13D
                                || cp == 0x13F || cp == 0x141 || cp == 0x143 || cp == 0x145
                                || cp == 0x147 || cp == 0x14A || cp == 0x14C || cp == 0x14E
                                || cp == 0x150 || cp == 0x152 || cp == 0x154 || cp == 0x156
                        } else {
                            cp == 0x158 || cp == 0x15A || cp == 0x15C || cp == 0x15E
                                || cp == 0x160 || cp == 0x162 || cp == 0x164 || cp == 0x166
                                || cp == 0x168 || cp == 0x16A || cp == 0x16C || cp == 0x16E
                                || cp == 0x170 || cp == 0x172 || cp == 0x174 || cp == 0x176
                        }
                    }
                } else {
                    if cp < 0x1DB {
                        if cp < 0x1AC {
                            (0x178 <= cp && cp <= 0x179) || cp == 0x17B || cp == 0x17D || (0x181 <= cp && cp <= 0x182)
                                || cp == 0x184 || (0x186 <= cp && cp <= 0x187) || (0x189 <= cp && cp <= 0x18B) || (0x18E <= cp && cp <= 0x191)
                                || (0x193 <= cp && cp <= 0x194) || (0x196 <= cp && cp <= 0x198) || (0x19C <= cp && cp <= 0x19D) || (0x19F <= cp && cp <= 0x1A0)
                                || cp == 0x1A2 || cp == 0x1A4 || (0x1A6 <= cp && cp <= 0x1A7) || cp == 0x1A9
                        } else {
                            cp == 0x1AC || (0x1AE <= cp && cp <= 0x1AF) || (0x1B1 <= cp && cp <= 0x1B3) || cp == 0x1B5
                                || (0x1B7 <= cp && cp <= 0x1B8) || (0x1BB <= cp && cp <= 0x1BC) || (0x1C0 <= cp && cp <= 0x1C5) || (0x1C7 <= cp && cp <= 0x1C8)
                                || (0x1CA <= cp && cp <= 0x1CB) || cp == 0x1CD || cp == 0x1CF || cp == 0x1D1
                                || cp == 0x1D3 || cp == 0x1D5 || cp == 0x1D7 || cp == 0x1D9
                        }
                    } else {
                        if cp < 0x200 {
                            cp == 0x1DB || cp == 0x1DE || cp == 0x1E0 || cp == 0x1E2
                                || cp == 0x1E4 || cp == 0x1E6 || cp == 0x1E8 || cp == 0x1EA
                                || cp == 0x1EC || cp == 0x1EE || (0x1F1 <= cp && cp <= 0x1F2) || cp == 0x1F4
                                || (0x1F6 <= cp && cp <= 0x1F8) || cp == 0x1FA || cp == 0x1FC || cp == 0x1FE
                        } else {
                            if cp < 0x220 {
                                cp == 0x200 || cp == 0x202 || cp == 0x204 || cp == 0x206
                                    || cp == 0x208 || cp == 0x20A || cp == 0x20C || cp == 0x20E
                                    || cp == 0x210 || cp == 0x212 || cp == 0x214 || cp == 0x216
                                    || cp == 0x218 || cp == 0x21A || cp == 0x21C || cp == 0x21E
                            } else {
                                cp == 0x220 || cp == 0x222 || cp == 0x224 || cp == 0x226
                                    || cp == 0x228 || cp == 0x22A || cp == 0x22C || cp == 0x22E
                                    || cp == 0x230 || cp == 0x232 || (0x23A <= cp && cp <= 0x23B) || (0x23D <= cp && cp <= 0x23E)
                                    || cp == 0x241 || (0x243 <= cp && cp <= 0x246) || cp == 0x248 || cp == 0x24A
                            }
                        }
                    }
                }
            } else {
                if cp < 0x4BC {
                    if cp < 0x3EC {
                        if cp < 0x38C {
                            cp == 0x24C || cp == 0x24E || cp == 0x294 || (0x2B0 <= cp && cp <= 0x2C1)
                                || (0x2C6 <= cp && cp <= 0x2D1) || (0x2E0 <= cp && cp <= 0x2E4) || cp == 0x2EC || cp == 0x2EE
                                || (0x300 <= cp && cp <= 0x370) || cp == 0x372 || cp == 0x374 || cp == 0x376
                                || cp == 0x37A || cp == 0x37F || cp == 0x386 || (0x388 <= cp && cp <= 0x38A)
                        } else {
                            cp == 0x38C || (0x38E <= cp && cp <= 0x38F) || (0x391 <= cp && cp <= 0x3A1) || (0x3A3 <= cp && cp <= 0x3AB)
                                || cp == 0x3CF || (0x3D2 <= cp && cp <= 0x3D4) || cp == 0x3D8 || cp == 0x3DA
                                || cp == 0x3DC || cp == 0x3DE || cp == 0x3E0 || cp == 0x3E2
                                || cp == 0x3E4 || cp == 0x3E6 || cp == 0x3E8 || cp == 0x3EA
                        }
                    } else {
                        if cp < 0x474 {
                            cp == 0x3EC || cp == 0x3EE || cp == 0x3F4 || cp == 0x3F7
                                || (0x3F9 <= cp && cp <= 0x3FA) || (0x3FD <= cp && cp <= 0x42F) || cp == 0x460 || cp == 0x462
                                || cp == 0x464 || cp == 0x466 || cp == 0x468 || cp == 0x46A
                                || cp == 0x46C || cp == 0x46E || cp == 0x470 || cp == 0x472
                        } else {
                            if cp < 0x49C {
                                cp == 0x474 || cp == 0x476 || cp == 0x478 || cp == 0x47A
                                    || cp == 0x47C || cp == 0x47E || cp == 0x480 || (0x483 <= cp && cp <= 0x48A)
                                    || cp == 0x48C || cp == 0x48E || cp == 0x490 || cp == 0x492
                                    || cp == 0x494 || cp == 0x496 || cp == 0x498 || cp == 0x49A
                            } else {
                                cp == 0x49C || cp == 0x49E || cp == 0x4A0 || cp == 0x4A2
                                    || cp == 0x4A4 || cp == 0x4A6 || cp == 0x4A8 || cp == 0x4AA
                                    || cp == 0x4AC || cp == 0x4AE || cp == 0x4B0 || cp == 0x4B2
                                    || cp == 0x4B4 || cp == 0x4B6 || cp == 0x4B8 || cp == 0x4BA
                            }
                        }
                    }
                } else {
                    if cp < 0x4FE {
                        if cp < 0x4DE {
                            cp == 0x4BC || cp == 0x4BE || (0x4C0 <= cp && cp <= 0x4C1) || cp == 0x4C3
                                || cp == 0x4C5 || cp == 0x4C7 || cp == 0x4C9 || cp == 0x4CB
                                || cp == 0x4CD || cp == 0x4D0 || cp == 0x4D2 || cp == 0x4D4
                                || cp == 0x4D6 || cp == 0x4D8 || cp == 0x4DA || cp == 0x4DC
                        } else {
                            cp == 0x4DE || cp == 0x4E0 || cp == 0x4E2 || cp == 0x4E4
                                || cp == 0x4E6 || cp == 0x4E8 || cp == 0x4EA || cp == 0x4EC
                                || cp == 0x4EE || cp == 0x4F0 || cp == 0x4F2 || cp == 0x4F4
                                || cp == 0x4F6 || cp == 0x4F8 || cp == 0x4FA || cp == 0x4FC
                        }
                    } else {
                        if cp < 0x51E {
                            cp == 0x4FE || cp == 0x500 || cp == 0x502 || cp == 0x504
                                || cp == 0x506 || cp == 0x508 || cp == 0x50A || cp == 0x50C
                                || cp == 0x50E || cp == 0x510 || cp == 0x512 || cp == 0x514
                                || cp == 0x516 || cp == 0x518 || cp == 0x51A || cp == 0x51C
                        } else {
                            if cp < 0x5D0 {
                                cp == 0x51E || cp == 0x520 || cp == 0x522 || cp == 0x524
                                    || cp == 0x526 || cp == 0x528 || cp == 0x52A || cp == 0x52C
                                    || cp == 0x52E || (0x531 <= cp && cp <= 0x556) || cp == 0x559 || (0x591 <= cp && cp <= 0x5BD)
                                    || cp == 0x5BF || (0x5C1 <= cp && cp <= 0x5C2) || (0x5C4 <= cp && cp <= 0x5C5) || cp == 0x5C7
                            } else {
                                (0x5D0 <= cp && cp <= 0x5EA) || (0x5EF <= cp && cp <= 0x5F2) || (0x610 <= cp && cp <= 0x61A) || (0x620 <= cp && cp <= 0x65F)
                                    || (0x66E <= cp && cp <= 0x6D3) || (0x6D5 <= cp && cp <= 0x6DC) || (0x6DF <= cp && cp <= 0x6E8) || (0x6EA <= cp && cp <= 0x6EF)
                                    || (0x6FA <= cp && cp <= 0x6FC) || cp == 0x6FF || (0x710 <= cp && cp <= 0x74A) || (0x74D <= cp && cp <= 0x7B1)
                                    || (0x7CA <= cp && cp <= 0x7F5) || cp == 0x7FA || cp == 0x7FD || (0x800 <= cp && cp <= 0x82D)
                            }
                        }
                    }
                }
            }
        } else {
            if cp < 0x1290 {
                if cp < 0xC00 {
                    if cp < 0xA47 {
                        if cp < 0x9D7 {
                            (0x840 <= cp && cp <= 0x85B) || (0x860 <= cp && cp <= 0x86A) || (0x870 <= cp && cp <= 0x887) || (0x889 <= cp && cp <= 0x88E)
                                || (0x898 <= cp && cp <= 0x8E1) || (0x8E3 <= cp && cp <= 0x963) || (0x971 <= cp && cp <= 0x983) || (0x985 <= cp && cp <= 0x98C)
                                || (0x98F <= cp && cp <= 0x990) || (0x993 <= cp && cp <= 0x9A8) || (0x9AA <= cp && cp <= 0x9B0) || cp == 0x9B2
                                || (0x9B6 <= cp && cp <= 0x9B9) || (0x9BC <= cp && cp <= 0x9C4) || (0x9C7 <= cp && cp <= 0x9C8) || (0x9CB <= cp && cp <= 0x9CE)
                        } else {
                            cp == 0x9D7 || (0x9DC <= cp && cp <= 0x9DD) || (0x9DF <= cp && cp <= 0x9E3) || (0x9F0 <= cp && cp <= 0x9F1)
                                || cp == 0x9FC || cp == 0x9FE || (0xA01 <= cp && cp <= 0xA03) || (0xA05 <= cp && cp <= 0xA0A)
                                || (0xA0F <= cp && cp <= 0xA10) || (0xA13 <= cp && cp <= 0xA28) || (0xA2A <= cp && cp <= 0xA30) || (0xA32 <= cp && cp <= 0xA33)
                                || (0xA35 <= cp && cp <= 0xA36) || (0xA38 <= cp && cp <= 0xA39) || cp == 0xA3C || (0xA3E <= cp && cp <= 0xA42)
                        }
                    } else {
                        if cp < 0xAD0 {
                            (0xA47 <= cp && cp <= 0xA48) || (0xA4B <= cp && cp <= 0xA4D) || cp == 0xA51 || (0xA59 <= cp && cp <= 0xA5C)
                                || cp == 0xA5E || (0xA70 <= cp && cp <= 0xA75) || (0xA81 <= cp && cp <= 0xA83) || (0xA85 <= cp && cp <= 0xA8D)
                                || (0xA8F <= cp && cp <= 0xA91) || (0xA93 <= cp && cp <= 0xAA8) || (0xAAA <= cp && cp <= 0xAB0) || (0xAB2 <= cp && cp <= 0xAB3)
                                || (0xAB5 <= cp && cp <= 0xAB9) || (0xABC <= cp && cp <= 0xAC5) || (0xAC7 <= cp && cp <= 0xAC9) || (0xACB <= cp && cp <= 0xACD)
                        } else {
                            if cp < 0xB71 {
                                cp == 0xAD0 || (0xAE0 <= cp && cp <= 0xAE3) || (0xAF9 <= cp && cp <= 0xAFF) || (0xB01 <= cp && cp <= 0xB03)
                                    || (0xB05 <= cp && cp <= 0xB0C) || (0xB0F <= cp && cp <= 0xB10) || (0xB13 <= cp && cp <= 0xB28) || (0xB2A <= cp && cp <= 0xB30)
                                    || (0xB32 <= cp && cp <= 0xB33) || (0xB35 <= cp && cp <= 0xB39) || (0xB3C <= cp && cp <= 0xB44) || (0xB47 <= cp && cp <= 0xB48)
                                    || (0xB4B <= cp && cp <= 0xB4D) || (0xB55 <= cp && cp <= 0xB57) || (0xB5C <= cp && cp <= 0xB5D) || (0xB5F <= cp && cp <= 0xB63)
                            } else {
                                cp == 0xB71 || (0xB82 <= cp && cp <= 0xB83) || (0xB85 <= cp && cp <= 0xB8A) || (0xB8E <= cp && cp <= 0xB90)
                                    || (0xB92 <= cp && cp <= 0xB95) || (0xB99 <= cp && cp <= 0xB9A) || cp == 0xB9C || (0xB9E <= cp && cp <= 0xB9F)
                                    || (0xBA3 <= cp && cp <= 0xBA4) || (0xBA8 <= cp && cp <= 0xBAA) || (0xBAE <= cp && cp <= 0xBB9) || (0xBBE <= cp && cp <= 0xBC2)
                                    || (0xBC6 <= cp && cp <= 0xBC8) || (0xBCA <= cp && cp <= 0xBCD) || cp == 0xBD0 || cp == 0xBD7
                            }
                        }
                    }
                } else {
                    if cp < 0xD81 {
                        if cp < 0xCB5 {
                            (0xC00 <= cp && cp <= 0xC0C) || (0xC0E <= cp && cp <= 0xC10) || (0xC12 <= cp && cp <= 0xC28) || (0xC2A <= cp && cp <= 0xC39)
                                || (0xC3C <= cp && cp <= 0xC44) || (0xC46 <= cp && cp <= 0xC48) || (0xC4A <= cp && cp <= 0xC4D) || (0xC55 <= cp && cp <= 0xC56)
                                || (0xC58 <= cp && cp <= 0xC5A) || cp == 0xC5D || (0xC60 <= cp && cp <= 0xC63) || (0xC80 <= cp && cp <= 0xC83)
                                || (0xC85 <= cp && cp <= 0xC8C) || (0xC8E <= cp && cp <= 0xC90) || (0xC92 <= cp && cp <= 0xCA8) || (0xCAA <= cp && cp <= 0xCB3)
                        } else {
                            (0xCB5 <= cp && cp <= 0xCB9) || (0xCBC <= cp && cp <= 0xCC4) || (0xCC6 <= cp && cp <= 0xCC8) || (0xCCA <= cp && cp <= 0xCCD)
                                || (0xCD5 <= cp && cp <= 0xCD6) || (0xCDD <= cp && cp <= 0xCDE) || (0xCE0 <= cp && cp <= 0xCE3) || (0xCF1 <= cp && cp <= 0xCF2)
                                || (0xD00 <= cp && cp <= 0xD0C) || (0xD0E <= cp && cp <= 0xD10) || (0xD12 <= cp && cp <= 0xD44) || (0xD46 <= cp && cp <= 0xD48)
                                || (0xD4A <= cp && cp <= 0xD4E) || (0xD54 <= cp && cp <= 0xD57) || (0xD5F <= cp && cp <= 0xD63) || (0xD7A <= cp && cp <= 0xD7F)
                        }
                    } else {
                        if cp < 0xE8C {
                            (0xD81 <= cp && cp <= 0xD83) || (0xD85 <= cp && cp <= 0xD96) || (0xD9A <= cp && cp <= 0xDB1) || (0xDB3 <= cp && cp <= 0xDBB)
                                || cp == 0xDBD || (0xDC0 <= cp && cp <= 0xDC6) || cp == 0xDCA || (0xDCF <= cp && cp <= 0xDD4)
                                || cp == 0xDD6 || (0xDD8 <= cp && cp <= 0xDDF) || (0xDF2 <= cp && cp <= 0xDF3) || (0xE01 <= cp && cp <= 0xE3A)
                                || (0xE40 <= cp && cp <= 0xE4E) || (0xE81 <= cp && cp <= 0xE82) || cp == 0xE84 || (0xE86 <= cp && cp <= 0xE8A)
                        } else {
                            if cp < 0xF99 {
                                (0xE8C <= cp && cp <= 0xEA3) || cp == 0xEA5 || (0xEA7 <= cp && cp <= 0xEBD) || (0xEC0 <= cp && cp <= 0xEC4)
                                    || cp == 0xEC6 || (0xEC8 <= cp && cp <= 0xECD) || (0xEDC <= cp && cp <= 0xEDF) || cp == 0xF00
                                    || (0xF18 <= cp && cp <= 0xF19) || cp == 0xF35 || cp == 0xF37 || cp == 0xF39
                                    || (0xF3E <= cp && cp <= 0xF47) || (0xF49 <= cp && cp <= 0xF6C) || (0xF71 <= cp && cp <= 0xF84) || (0xF86 <= cp && cp <= 0xF97)
                            } else {
                                (0xF99 <= cp && cp <= 0xFBC) || cp == 0xFC6 || (0x1000 <= cp && cp <= 0x103F) || (0x1050 <= cp && cp <= 0x108F)
                                    || (0x109A <= cp && cp <= 0x109D) || (0x10A0 <= cp && cp <= 0x10C5) || cp == 0x10C7 || cp == 0x10CD
                                    || cp == 0x10FC || (0x1100 <= cp && cp <= 0x1248) || (0x124A <= cp && cp <= 0x124D) || (0x1250 <= cp && cp <= 0x1256)
                                    || cp == 0x1258 || (0x125A <= cp && cp <= 0x125D) || (0x1260 <= cp && cp <= 0x1288) || (0x128A <= cp && cp <= 0x128D)
                            }
                        }
                    }
                }
            } else {
                if cp < 0x1E2E {
                    if cp < 0x1920 {
                        if cp < 0x16F1 {
                            (0x1290 <= cp && cp <= 0x12B0) || (0x12B2 <= cp && cp <= 0x12B5) || (0x12B8 <= cp && cp <= 0x12BE) || cp == 0x12C0
                                || (0x12C2 <= cp && cp <= 0x12C5) || (0x12C8 <= cp && cp <= 0x12D6) || (0x12D8 <= cp && cp <= 0x1310) || (0x1312 <= cp && cp <= 0x1315)
                                || (0x1318 <= cp && cp <= 0x135A) || (0x135D <= cp && cp <= 0x135F) || (0x1380 <= cp && cp <= 0x138F) || (0x13A0 <= cp && cp <= 0x13F5)
                                || (0x1401 <= cp && cp <= 0x166C) || (0x166F <= cp && cp <= 0x167F) || (0x1681 <= cp && cp <= 0x169A) || (0x16A0 <= cp && cp <= 0x16EA)
                        } else {
                            (0x16F1 <= cp && cp <= 0x16F8) || (0x1700 <= cp && cp <= 0x1715) || (0x171F <= cp && cp <= 0x1734) || (0x1740 <= cp && cp <= 0x1753)
                                || (0x1760 <= cp && cp <= 0x176C) || (0x176E <= cp && cp <= 0x1770) || (0x1772 <= cp && cp <= 0x1773) || (0x1780 <= cp && cp <= 0x17D3)
                                || cp == 0x17D7 || (0x17DC <= cp && cp <= 0x17DD) || (0x180B <= cp && cp <= 0x180D) || cp == 0x180F
                                || (0x1820 <= cp && cp <= 0x1878) || (0x1880 <= cp && cp <= 0x18AA) || (0x18B0 <= cp && cp <= 0x18F5) || (0x1900 <= cp && cp <= 0x191E)
                        }
                    } else {
                        if cp < 0x1C00 {
                            (0x1920 <= cp && cp <= 0x192B) || (0x1930 <= cp && cp <= 0x193B) || (0x1950 <= cp && cp <= 0x196D) || (0x1970 <= cp && cp <= 0x1974)
                                || (0x1980 <= cp && cp <= 0x19AB) || (0x19B0 <= cp && cp <= 0x19C9) || (0x1A00 <= cp && cp <= 0x1A1B) || (0x1A20 <= cp && cp <= 0x1A5E)
                                || (0x1A60 <= cp && cp <= 0x1A7C) || cp == 0x1A7F || cp == 0x1AA7 || (0x1AB0 <= cp && cp <= 0x1ACE)
                                || (0x1B00 <= cp && cp <= 0x1B4C) || (0x1B6B <= cp && cp <= 0x1B73) || (0x1B80 <= cp && cp <= 0x1BAF) || (0x1BBA <= cp && cp <= 0x1BF3)
                        } else {
                            if cp < 0x1E0E {
                                (0x1C00 <= cp && cp <= 0x1C37) || (0x1C4D <= cp && cp <= 0x1C4F) || (0x1C5A <= cp && cp <= 0x1C7D) || (0x1C90 <= cp && cp <= 0x1CBA)
                                    || (0x1CBD <= cp && cp <= 0x1CBF) || (0x1CD0 <= cp && cp <= 0x1CD2) || (0x1CD4 <= cp && cp <= 0x1CFA) || (0x1D2C <= cp && cp <= 0x1D6A)
                                    || cp == 0x1D78 || (0x1D9B <= cp && cp <= 0x1E00) || cp == 0x1E02 || cp == 0x1E04
                                    || cp == 0x1E06 || cp == 0x1E08 || cp == 0x1E0A || cp == 0x1E0C
                            } else {
                                cp == 0x1E0E || cp == 0x1E10 || cp == 0x1E12 || cp == 0x1E14
                                    || cp == 0x1E16 || cp == 0x1E18 || cp == 0x1E1A || cp == 0x1E1C
                                    || cp == 0x1E1E || cp == 0x1E20 || cp == 0x1E22 || cp == 0x1E24
                                    || cp == 0x1E26 || cp == 0x1E28 || cp == 0x1E2A || cp == 0x1E2C
                            }
                        }
                    }
                } else {
                    if cp < 0x1E6E {
                        if cp < 0x1E4E {
                            cp == 0x1E2E || cp == 0x1E30 || cp == 0x1E32 || cp == 0x1E34
                                || cp == 0x1E36 || cp == 0x1E38 || cp == 0x1E3A || cp == 0x1E3C
                                || cp == 0x1E3E || cp == 0x1E40 || cp == 0x1E42 || cp == 0x1E44
                                || cp == 0x1E46 || cp == 0x1E48 || cp == 0x1E4A || cp == 0x1E4C
                        } else {
                            cp == 0x1E4E || cp == 0x1E50 || cp == 0x1E52 || cp == 0x1E54
                                || cp == 0x1E56 || cp == 0x1E58 || cp == 0x1E5A || cp == 0x1E5C
                                || cp == 0x1E5E || cp == 0x1E60 || cp == 0x1E62 || cp == 0x1E64
                                || cp == 0x1E66 || cp == 0x1E68 || cp == 0x1E6A || cp == 0x1E6C
                        }
                    } else {
                        if cp < 0x1E8E {
                            cp == 0x1E6E || cp == 0x1E70 || cp == 0x1E72 || cp == 0x1E74
                                || cp == 0x1E76 || cp == 0x1E78 || cp == 0x1E7A || cp == 0x1E7C
                                || cp == 0x1E7E || cp == 0x1E80 || cp == 0x1E82 || cp == 0x1E84
                                || cp == 0x1E86 || cp == 0x1E88 || cp == 0x1E8A || cp == 0x1E8C
                        } else {
                            if cp < 0x1EB6 {
                                cp == 0x1E8E || cp == 0x1E90 || cp == 0x1E92 || cp == 0x1E94
                                    || cp == 0x1E9E || cp == 0x1EA0 || cp == 0x1EA2 || cp == 0x1EA4
                                    || cp == 0x1EA6 || cp == 0x1EA8 || cp == 0x1EAA || cp == 0x1EAC
                                    || cp == 0x1EAE || cp == 0x1EB0 || cp == 0x1EB2 || cp == 0x1EB4
                            } else {
                                cp == 0x1EB6 || cp == 0x1EB8 || cp == 0x1EBA || cp == 0x1EBC
                                    || cp == 0x1EBE || cp == 0x1EC0 || cp == 0x1EC2 || cp == 0x1EC4
                                    || cp == 0x1EC6 || cp == 0x1EC8 || cp == 0x1ECA || cp == 0x1ECC
                                    || cp == 0x1ECE || cp == 0x1ED0 || cp == 0x1ED2 || cp == 0x1ED4
                            }
                        }
                    }
                }
            }
        }
    } else {
        if cp < 0xFE76 {
            if cp < 0xA650 {
                if cp < 0x2C9A {
                    if cp < 0x1F98 {
                        if cp < 0x1EF6 {
                            cp == 0x1ED6 || cp == 0x1ED8 || cp == 0x1EDA || cp == 0x1EDC
                                || cp == 0x1EDE || cp == 0x1EE0 || cp == 0x1EE2 || cp == 0x1EE4
                                || cp == 0x1EE6 || cp == 0x1EE8 || cp == 0x1EEA || cp == 0x1EEC
                                || cp == 0x1EEE || cp == 0x1EF0 || cp == 0x1EF2 || cp == 0x1EF4
                        } else {
                            cp == 0x1EF6 || cp == 0x1EF8 || cp == 0x1EFA || cp == 0x1EFC
                                || cp == 0x1EFE || (0x1F08 <= cp && cp <= 0x1F0F) || (0x1F18 <= cp && cp <= 0x1F1D) || (0x1F28 <= cp && cp <= 0x1F2F)
                                || (0x1F38 <= cp && cp <= 0x1F3F) || (0x1F48 <= cp && cp <= 0x1F4D) || cp == 0x1F59 || cp == 0x1F5B
                                || cp == 0x1F5D || cp == 0x1F5F || (0x1F68 <= cp && cp <= 0x1F6F) || (0x1F88 <= cp && cp <= 0x1F8F)
                        }
                    } else {
                        if cp < 0x2119 {
                            (0x1F98 <= cp && cp <= 0x1F9F) || (0x1FA8 <= cp && cp <= 0x1FAF) || (0x1FB8 <= cp && cp <= 0x1FBC) || (0x1FC8 <= cp && cp <= 0x1FCC)
                                || (0x1FD8 <= cp && cp <= 0x1FDB) || (0x1FE8 <= cp && cp <= 0x1FEC) || (0x1FF8 <= cp && cp <= 0x1FFC) || cp == 0x2071
                                || cp == 0x207F || (0x2090 <= cp && cp <= 0x209C) || (0x20D0 <= cp && cp <= 0x20F0) || cp == 0x2102
                                || cp == 0x2107 || (0x210B <= cp && cp <= 0x210D) || (0x2110 <= cp && cp <= 0x2112) || cp == 0x2115
                        } else {
                            if cp < 0x2C6D {
                                (0x2119 <= cp && cp <= 0x211D) || cp == 0x2124 || cp == 0x2126 || cp == 0x2128
                                    || (0x212A <= cp && cp <= 0x212D) || (0x2130 <= cp && cp <= 0x2133) || (0x2135 <= cp && cp <= 0x2138) || (0x213E <= cp && cp <= 0x213F)
                                    || cp == 0x2145 || cp == 0x2183 || (0x2C00 <= cp && cp <= 0x2C2F) || cp == 0x2C60
                                    || (0x2C62 <= cp && cp <= 0x2C64) || cp == 0x2C67 || cp == 0x2C69 || cp == 0x2C6B
                            } else {
                                (0x2C6D <= cp && cp <= 0x2C70) || cp == 0x2C72 || cp == 0x2C75 || (0x2C7C <= cp && cp <= 0x2C80)
                                    || cp == 0x2C82 || cp == 0x2C84 || cp == 0x2C86 || cp == 0x2C88
                                    || cp == 0x2C8A || cp == 0x2C8C || cp == 0x2C8E || cp == 0x2C90
                                    || cp == 0x2C92 || cp == 0x2C94 || cp == 0x2C96 || cp == 0x2C98
                            }
                        }
                    }
                } else {
                    if cp < 0x2CDA {
                        if cp < 0x2CBA {
                            cp == 0x2C9A || cp == 0x2C9C || cp == 0x2C9E || cp == 0x2CA0
                                || cp == 0x2CA2 || cp == 0x2CA4 || cp == 0x2CA6 || cp == 0x2CA8
                                || cp == 0x2CAA || cp == 0x2CAC || cp == 0x2CAE || cp == 0x2CB0
                                || cp == 0x2CB2 || cp == 0x2CB4 || cp == 0x2CB6 || cp == 0x2CB8
                        } else {
                            cp == 0x2CBA || cp == 0x2CBC || cp == 0x2CBE || cp == 0x2CC0
                                || cp == 0x2CC2 || cp == 0x2CC4 || cp == 0x2CC6 || cp == 0x2CC8
                                || cp == 0x2CCA || cp == 0x2CCC || cp == 0x2CCE || cp == 0x2CD0
                                || cp == 0x2CD2 || cp == 0x2CD4 || cp == 0x2CD6 || cp == 0x2CD8
                        }
                    } else {
                        if cp < 0x2DC8 {
                            cp == 0x2CDA || cp == 0x2CDC || cp == 0x2CDE || cp == 0x2CE0
                                || cp == 0x2CE2 || cp == 0x2CEB || cp == 0x2CED || (0x2CEF <= cp && cp <= 0x2CF2)
                                || (0x2D30 <= cp && cp <= 0x2D67) || cp == 0x2D6F || (0x2D7F <= cp && cp <= 0x2D96) || (0x2DA0 <= cp && cp <= 0x2DA6)
                                || (0x2DA8 <= cp && cp <= 0x2DAE) || (0x2DB0 <= cp && cp <= 0x2DB6) || (0x2DB8 <= cp && cp <= 0x2DBE) || (0x2DC0 <= cp && cp <= 0x2DC6)
                        } else {
                            if cp < 0x31A0 {
                                (0x2DC8 <= cp && cp <= 0x2DCE) || (0x2DD0 <= cp && cp <= 0x2DD6) || (0x2DD8 <= cp && cp <= 0x2DDE) || (0x2DE0 <= cp && cp <= 0x2DFF)
                                    || cp == 0x2E2F || (0x3005 <= cp && cp <= 0x3006) || (0x302A <= cp && cp <= 0x302F) || (0x3031 <= cp && cp <= 0x3035)
                                    || (0x303B <= cp && cp <= 0x303C) || (0x3041 <= cp && cp <= 0x3096) || (0x3099 <= cp && cp <= 0x309A) || (0x309D <= cp && cp <= 0x309F)
                                    || (0x30A1 <= cp && cp <= 0x30FA) || (0x30FC <= cp && cp <= 0x30FF) || (0x3105 <= cp && cp <= 0x312F) || (0x3131 <= cp && cp <= 0x318E)
                            } else {
                                (0x31A0 <= cp && cp <= 0x31BF) || (0x31F0 <= cp && cp <= 0x31FF) || (0x3400 <= cp && cp <= 0x4DBF) || (0x4E00 <= cp && cp <= 0xA48C)
                                    || (0xA4D0 <= cp && cp <= 0xA4FD) || (0xA500 <= cp && cp <= 0xA60C) || (0xA610 <= cp && cp <= 0xA61F) || (0xA62A <= cp && cp <= 0xA62B)
                                    || cp == 0xA640 || cp == 0xA642 || cp == 0xA644 || cp == 0xA646
                                    || cp == 0xA648 || cp == 0xA64A || cp == 0xA64C || cp == 0xA64E
                            }
                        }
                    }
                }
            } else {
                if cp < 0xA788 {
                    if cp < 0xA6F0 {
                        if cp < 0xA674 {
                            cp == 0xA650 || cp == 0xA652 || cp == 0xA654 || cp == 0xA656
                                || cp == 0xA658 || cp == 0xA65A || cp == 0xA65C || cp == 0xA65E
                                || cp == 0xA660 || cp == 0xA662 || cp == 0xA664 || cp == 0xA666
                                || cp == 0xA668 || cp == 0xA66A || cp == 0xA66C || (0xA66E <= cp && cp <= 0xA672)
                        } else {
                            (0xA674 <= cp && cp <= 0xA67D) || (0xA67F <= cp && cp <= 0xA680) || cp == 0xA682 || cp == 0xA684
                                || cp == 0xA686 || cp == 0xA688 || cp == 0xA68A || cp == 0xA68C
                                || cp == 0xA68E || cp == 0xA690 || cp == 0xA692 || cp == 0xA694
                                || cp == 0xA696 || cp == 0xA698 || cp == 0xA69A || (0xA69C <= cp && cp <= 0xA6E5)
                        }
                    } else {
                        if cp < 0xA740 {
                            (0xA6F0 <= cp && cp <= 0xA6F1) || (0xA717 <= cp && cp <= 0xA71F) || cp == 0xA722 || cp == 0xA724
                                || cp == 0xA726 || cp == 0xA728 || cp == 0xA72A || cp == 0xA72C
                                || cp == 0xA72E || cp == 0xA732 || cp == 0xA734 || cp == 0xA736
                                || cp == 0xA738 || cp == 0xA73A || cp == 0xA73C || cp == 0xA73E
                        } else {
                            if cp < 0xA760 {
                                cp == 0xA740 || cp == 0xA742 || cp == 0xA744 || cp == 0xA746
                                    || cp == 0xA748 || cp == 0xA74A || cp == 0xA74C || cp == 0xA74E
                                    || cp == 0xA750 || cp == 0xA752 || cp == 0xA754 || cp == 0xA756
                                    || cp == 0xA758 || cp == 0xA75A || cp == 0xA75C || cp == 0xA75E
                            } else {
                                cp == 0xA760 || cp == 0xA762 || cp == 0xA764 || cp == 0xA766
                                    || cp == 0xA768 || cp == 0xA76A || cp == 0xA76C || cp == 0xA76E
                                    || cp == 0xA770 || cp == 0xA779 || cp == 0xA77B || (0xA77D <= cp && cp <= 0xA77E)
                                    || cp == 0xA780 || cp == 0xA782 || cp == 0xA784 || cp == 0xA786
                            }
                        }
                    }
                } else {
                    if cp < 0xA82C {
                        if cp < 0xA7B0 {
                            cp == 0xA788 || cp == 0xA78B || cp == 0xA78D || (0xA78F <= cp && cp <= 0xA790)
                                || cp == 0xA792 || cp == 0xA796 || cp == 0xA798 || cp == 0xA79A
                                || cp == 0xA79C || cp == 0xA79E || cp == 0xA7A0 || cp == 0xA7A2
                                || cp == 0xA7A4 || cp == 0xA7A6 || cp == 0xA7A8 || (0xA7AA <= cp && cp <= 0xA7AE)
                        } else {
                            (0xA7B0 <= cp && cp <= 0xA7B4) || cp == 0xA7B6 || cp == 0xA7B8 || cp == 0xA7BA
                                || cp == 0xA7BC || cp == 0xA7BE || cp == 0xA7C0 || cp == 0xA7C2
                                || (0xA7C4 <= cp && cp <= 0xA7C7) || cp == 0xA7C9 || cp == 0xA7D0 || cp == 0xA7D6
                                || cp == 0xA7D8 || (0xA7F2 <= cp && cp <= 0xA7F5) || (0xA7F7 <= cp && cp <= 0xA7F9) || (0xA7FB <= cp && cp <= 0xA827)
                        }
                    } else {
                        if cp < 0xAA7A {
                            cp == 0xA82C || (0xA840 <= cp && cp <= 0xA873) || (0xA880 <= cp && cp <= 0xA8C5) || (0xA8E0 <= cp && cp <= 0xA8F7)
                                || cp == 0xA8FB || (0xA8FD <= cp && cp <= 0xA8FF) || (0xA90A <= cp && cp <= 0xA92D) || (0xA930 <= cp && cp <= 0xA953)
                                || (0xA960 <= cp && cp <= 0xA97C) || (0xA980 <= cp && cp <= 0xA9C0) || cp == 0xA9CF || (0xA9E0 <= cp && cp <= 0xA9EF)
                                || (0xA9FA <= cp && cp <= 0xA9FE) || (0xAA00 <= cp && cp <= 0xAA36) || (0xAA40 <= cp && cp <= 0xAA4D) || (0xAA60 <= cp && cp <= 0xAA76)
                        } else {
                            if cp < 0xF900 {
                                (0xAA7A <= cp && cp <= 0xAAC2) || (0xAADB <= cp && cp <= 0xAADD) || (0xAAE0 <= cp && cp <= 0xAAEF) || (0xAAF2 <= cp && cp <= 0xAAF6)
                                    || (0xAB01 <= cp && cp <= 0xAB06) || (0xAB09 <= cp && cp <= 0xAB0E) || (0xAB11 <= cp && cp <= 0xAB16) || (0xAB20 <= cp && cp <= 0xAB26)
                                    || (0xAB28 <= cp && cp <= 0xAB2E) || (0xAB5C <= cp && cp <= 0xAB5F) || cp == 0xAB69 || (0xABC0 <= cp && cp <= 0xABEA)
                                    || (0xABEC <= cp && cp <= 0xABED) || (0xAC00 <= cp && cp <= 0xD7A3) || (0xD7B0 <= cp && cp <= 0xD7C6) || (0xD7CB <= cp && cp <= 0xD7FB)
                            } else {
                                (0xF900 <= cp && cp <= 0xFA6D) || (0xFA70 <= cp && cp <= 0xFAD9) || (0xFB1D <= cp && cp <= 0xFB28) || (0xFB2A <= cp && cp <= 0xFB36)
                                    || (0xFB38 <= cp && cp <= 0xFB3C) || cp == 0xFB3E || (0xFB40 <= cp && cp <= 0xFB41) || (0xFB43 <= cp && cp <= 0xFB44)
                                    || (0xFB46 <= cp && cp <= 0xFBB1) || (0xFBD3 <= cp && cp <= 0xFD3D) || (0xFD50 <= cp && cp <= 0xFD8F) || (0xFD92 <= cp && cp <= 0xFDC7)
                                    || (0xFDF0 <= cp && cp <= 0xFDFB) || (0xFE00 <= cp && cp <= 0xFE0F) || (0xFE20 <= cp && cp <= 0xFE2F) || (0xFE70 <= cp && cp <= 0xFE74)
                            }
                        }
                    }
                }
            }
        } else {
            if cp < 0x11D3C {
                if cp < 0x10FE0 {
                    if cp < 0x1058C {
                        if cp < 0x102A0 {
                            (0xFE76 <= cp && cp <= 0xFEFC) || (0xFF21 <= cp && cp <= 0xFF3A) || (0xFF66 <= cp && cp <= 0xFFBE) || (0xFFC2 <= cp && cp <= 0xFFC7)
                                || (0xFFCA <= cp && cp <= 0xFFCF) || (0xFFD2 <= cp && cp <= 0xFFD7) || (0xFFDA <= cp && cp <= 0xFFDC) || (0x10000 <= cp && cp <= 0x1000B)
                                || (0x1000D <= cp && cp <= 0x10026) || (0x10028 <= cp && cp <= 0x1003A) || (0x1003C <= cp && cp <= 0x1003D) || (0x1003F <= cp && cp <= 0x1004D)
                                || (0x10050 <= cp && cp <= 0x1005D) || (0x10080 <= cp && cp <= 0x100FA) || cp == 0x101FD || (0x10280 <= cp && cp <= 0x1029C)
                        } else {
                            (0x102A0 <= cp && cp <= 0x102D0) || cp == 0x102E0 || (0x10300 <= cp && cp <= 0x1031F) || (0x1032D <= cp && cp <= 0x10340)
                                || (0x10342 <= cp && cp <= 0x10349) || (0x10350 <= cp && cp <= 0x1037A) || (0x10380 <= cp && cp <= 0x1039D) || (0x103A0 <= cp && cp <= 0x103C3)
                                || (0x103C8 <= cp && cp <= 0x103CF) || (0x10400 <= cp && cp <= 0x10427) || (0x10450 <= cp && cp <= 0x1049D) || (0x104B0 <= cp && cp <= 0x104D3)
                                || (0x10500 <= cp && cp <= 0x10527) || (0x10530 <= cp && cp <= 0x10563) || (0x10570 <= cp && cp <= 0x1057A) || (0x1057C <= cp && cp <= 0x1058A)
                        }
                    } else {
                        if cp < 0x108E0 {
                            (0x1058C <= cp && cp <= 0x10592) || (0x10594 <= cp && cp <= 0x10595) || (0x10600 <= cp && cp <= 0x10736) || (0x10740 <= cp && cp <= 0x10755)
                                || (0x10760 <= cp && cp <= 0x10767) || (0x10780 <= cp && cp <= 0x10785) || (0x10787 <= cp && cp <= 0x107B0) || (0x107B2 <= cp && cp <= 0x107BA)
                                || (0x10800 <= cp && cp <= 0x10805) || cp == 0x10808 || (0x1080A <= cp && cp <= 0x10835) || (0x10837 <= cp && cp <= 0x10838)
                                || cp == 0x1083C || (0x1083F <= cp && cp <= 0x10855) || (0x10860 <= cp && cp <= 0x10876) || (0x10880 <= cp && cp <= 0x1089E)
                        } else {
                            if cp < 0x10AC9 {
                                (0x108E0 <= cp && cp <= 0x108F2) || (0x108F4 <= cp && cp <= 0x108F5) || (0x10900 <= cp && cp <= 0x10915) || (0x10920 <= cp && cp <= 0x10939)
                                    || (0x10980 <= cp && cp <= 0x109B7) || (0x109BE <= cp && cp <= 0x109BF) || (0x10A00 <= cp && cp <= 0x10A03) || (0x10A05 <= cp && cp <= 0x10A06)
                                    || (0x10A0C <= cp && cp <= 0x10A13) || (0x10A15 <= cp && cp <= 0x10A17) || (0x10A19 <= cp && cp <= 0x10A35) || (0x10A38 <= cp && cp <= 0x10A3A)
                                    || cp == 0x10A3F || (0x10A60 <= cp && cp <= 0x10A7C) || (0x10A80 <= cp && cp <= 0x10A9C) || (0x10AC0 <= cp && cp <= 0x10AC7)
                            } else {
                                (0x10AC9 <= cp && cp <= 0x10AE6) || (0x10B00 <= cp && cp <= 0x10B35) || (0x10B40 <= cp && cp <= 0x10B55) || (0x10B60 <= cp && cp <= 0x10B72)
                                    || (0x10B80 <= cp && cp <= 0x10B91) || (0x10C00 <= cp && cp <= 0x10C48) || (0x10C80 <= cp && cp <= 0x10CB2) || (0x10D00 <= cp && cp <= 0x10D27)
                                    || (0x10E80 <= cp && cp <= 0x10EA9) || (0x10EAB <= cp && cp <= 0x10EAC) || (0x10EB0 <= cp && cp <= 0x10EB1) || (0x10F00 <= cp && cp <= 0x10F1C)
                                    || cp == 0x10F27 || (0x10F30 <= cp && cp <= 0x10F50) || (0x10F70 <= cp && cp <= 0x10F85) || (0x10FB0 <= cp && cp <= 0x10FC4)
                            }
                        }
                    }
                } else {
                    if cp < 0x11347 {
                        if cp < 0x11213 {
                            (0x10FE0 <= cp && cp <= 0x10FF6) || (0x11000 <= cp && cp <= 0x11046) || (0x11070 <= cp && cp <= 0x11075) || (0x1107F <= cp && cp <= 0x110BA)
                                || cp == 0x110C2 || (0x110D0 <= cp && cp <= 0x110E8) || (0x11100 <= cp && cp <= 0x11134) || (0x11144 <= cp && cp <= 0x11147)
                                || (0x11150 <= cp && cp <= 0x11173) || cp == 0x11176 || (0x11180 <= cp && cp <= 0x111C4) || (0x111C9 <= cp && cp <= 0x111CC)
                                || (0x111CE <= cp && cp <= 0x111CF) || cp == 0x111DA || cp == 0x111DC || (0x11200 <= cp && cp <= 0x11211)
                        } else {
                            (0x11213 <= cp && cp <= 0x11237) || cp == 0x1123E || (0x11280 <= cp && cp <= 0x11286) || cp == 0x11288
                                || (0x1128A <= cp && cp <= 0x1128D) || (0x1128F <= cp && cp <= 0x1129D) || (0x1129F <= cp && cp <= 0x112A8) || (0x112B0 <= cp && cp <= 0x112EA)
                                || (0x11300 <= cp && cp <= 0x11303) || (0x11305 <= cp && cp <= 0x1130C) || (0x1130F <= cp && cp <= 0x11310) || (0x11313 <= cp && cp <= 0x11328)
                                || (0x1132A <= cp && cp <= 0x11330) || (0x11332 <= cp && cp <= 0x11333) || (0x11335 <= cp && cp <= 0x11339) || (0x1133B <= cp && cp <= 0x11344)
                        }
                    } else {
                        if cp < 0x11680 {
                            (0x11347 <= cp && cp <= 0x11348) || (0x1134B <= cp && cp <= 0x1134D) || cp == 0x11350 || cp == 0x11357
                                || (0x1135D <= cp && cp <= 0x11363) || (0x11366 <= cp && cp <= 0x1136C) || (0x11370 <= cp && cp <= 0x11374) || (0x11400 <= cp && cp <= 0x1144A)
                                || (0x1145E <= cp && cp <= 0x11461) || (0x11480 <= cp && cp <= 0x114C5) || cp == 0x114C7 || (0x11580 <= cp && cp <= 0x115B5)
                                || (0x115B8 <= cp && cp <= 0x115C0) || (0x115D8 <= cp && cp <= 0x115DD) || (0x11600 <= cp && cp <= 0x11640) || cp == 0x11644
                        } else {
                            if cp < 0x119E3 {
                                (0x11680 <= cp && cp <= 0x116B8) || (0x11700 <= cp && cp <= 0x1171A) || (0x1171D <= cp && cp <= 0x1172B) || (0x11740 <= cp && cp <= 0x11746)
                                    || (0x11800 <= cp && cp <= 0x1183A) || (0x118A0 <= cp && cp <= 0x118BF) || (0x118FF <= cp && cp <= 0x11906) || cp == 0x11909
                                    || (0x1190C <= cp && cp <= 0x11913) || (0x11915 <= cp && cp <= 0x11916) || (0x11918 <= cp && cp <= 0x11935) || (0x11937 <= cp && cp <= 0x11938)
                                    || (0x1193B <= cp && cp <= 0x11943) || (0x119A0 <= cp && cp <= 0x119A7) || (0x119AA <= cp && cp <= 0x119D7) || (0x119DA <= cp && cp <= 0x119E1)
                            } else {
                                (0x119E3 <= cp && cp <= 0x119E4) || (0x11A00 <= cp && cp <= 0x11A3E) || cp == 0x11A47 || (0x11A50 <= cp && cp <= 0x11A99)
                                    || cp == 0x11A9D || (0x11AB0 <= cp && cp <= 0x11AF8) || (0x11C00 <= cp && cp <= 0x11C08) || (0x11C0A <= cp && cp <= 0x11C36)
                                    || (0x11C38 <= cp && cp <= 0x11C40) || (0x11C72 <= cp && cp <= 0x11C8F) || (0x11C92 <= cp && cp <= 0x11CA7) || (0x11CA9 <= cp && cp <= 0x11CB6)
                                    || (0x11D00 <= cp && cp <= 0x11D06) || (0x11D08 <= cp && cp <= 0x11D09) || (0x11D0B <= cp && cp <= 0x11D36) || cp == 0x11D3A
                            }
                        }
                    }
                }
            } else {
                if cp < 0x1D71C {
                    if cp < 0x18D00 {
                        if cp < 0x16A70 {
                            (0x11D3C <= cp && cp <= 0x11D3D) || (0x11D3F <= cp && cp <= 0x11D47) || (0x11D60 <= cp && cp <= 0x11D65) || (0x11D67 <= cp && cp <= 0x11D68)
                                || (0x11D6A <= cp && cp <= 0x11D8E) || (0x11D90 <= cp && cp <= 0x11D91) || (0x11D93 <= cp && cp <= 0x11D98) || (0x11EE0 <= cp && cp <= 0x11EF6)
                                || cp == 0x11FB0 || (0x12000 <= cp && cp <= 0x12399) || (0x12480 <= cp && cp <= 0x12543) || (0x12F90 <= cp && cp <= 0x12FF0)
                                || (0x13000 <= cp && cp <= 0x1342E) || (0x14400 <= cp && cp <= 0x14646) || (0x16800 <= cp && cp <= 0x16A38) || (0x16A40 <= cp && cp <= 0x16A5E)
                        } else {
                            (0x16A70 <= cp && cp <= 0x16ABE) || (0x16AD0 <= cp && cp <= 0x16AED) || (0x16AF0 <= cp && cp <= 0x16AF4) || (0x16B00 <= cp && cp <= 0x16B36)
                                || (0x16B40 <= cp && cp <= 0x16B43) || (0x16B63 <= cp && cp <= 0x16B77) || (0x16B7D <= cp && cp <= 0x16B8F) || (0x16E40 <= cp && cp <= 0x16E5F)
                                || (0x16F00 <= cp && cp <= 0x16F4A) || (0x16F4F <= cp && cp <= 0x16F87) || (0x16F8F <= cp && cp <= 0x16F9F) || (0x16FE0 <= cp && cp <= 0x16FE1)
                                || (0x16FE3 <= cp && cp <= 0x16FE4) || (0x16FF0 <= cp && cp <= 0x16FF1) || (0x17000 <= cp && cp <= 0x187F7) || (0x18800 <= cp && cp <= 0x18CD5)
                        }
                    } else {
                        if cp < 0x1D16D {
                            (0x18D00 <= cp && cp <= 0x18D08) || (0x1AFF0 <= cp && cp <= 0x1AFF3) || (0x1AFF5 <= cp && cp <= 0x1AFFB) || (0x1AFFD <= cp && cp <= 0x1AFFE)
                                || (0x1B000 <= cp && cp <= 0x1B122) || (0x1B150 <= cp && cp <= 0x1B152) || (0x1B164 <= cp && cp <= 0x1B167) || (0x1B170 <= cp && cp <= 0x1B2FB)
                                || (0x1BC00 <= cp && cp <= 0x1BC6A) || (0x1BC70 <= cp && cp <= 0x1BC7C) || (0x1BC80 <= cp && cp <= 0x1BC88) || (0x1BC90 <= cp && cp <= 0x1BC99)
                                || (0x1BC9D <= cp && cp <= 0x1BC9E) || (0x1CF00 <= cp && cp <= 0x1CF2D) || (0x1CF30 <= cp && cp <= 0x1CF46) || (0x1D165 <= cp && cp <= 0x1D169)
                        } else {
                            if cp < 0x1D507 {
                                (0x1D16D <= cp && cp <= 0x1D172) || (0x1D17B <= cp && cp <= 0x1D182) || (0x1D185 <= cp && cp <= 0x1D18B) || (0x1D1AA <= cp && cp <= 0x1D1AD)
                                    || (0x1D242 <= cp && cp <= 0x1D244) || (0x1D400 <= cp && cp <= 0x1D419) || (0x1D434 <= cp && cp <= 0x1D44D) || (0x1D468 <= cp && cp <= 0x1D481)
                                    || cp == 0x1D49C || (0x1D49E <= cp && cp <= 0x1D49F) || cp == 0x1D4A2 || (0x1D4A5 <= cp && cp <= 0x1D4A6)
                                    || (0x1D4A9 <= cp && cp <= 0x1D4AC) || (0x1D4AE <= cp && cp <= 0x1D4B5) || (0x1D4D0 <= cp && cp <= 0x1D4E9) || (0x1D504 <= cp && cp <= 0x1D505)
                            } else {
                                (0x1D507 <= cp && cp <= 0x1D50A) || (0x1D50D <= cp && cp <= 0x1D514) || (0x1D516 <= cp && cp <= 0x1D51C) || (0x1D538 <= cp && cp <= 0x1D539)
                                    || (0x1D53B <= cp && cp <= 0x1D53E) || (0x1D540 <= cp && cp <= 0x1D544) || cp == 0x1D546 || (0x1D54A <= cp && cp <= 0x1D550)
                                    || (0x1D56C <= cp && cp <= 0x1D585) || (0x1D5A0 <= cp && cp <= 0x1D5B9) || (0x1D5D4 <= cp && cp <= 0x1D5ED) || (0x1D608 <= cp && cp <= 0x1D621)
                                    || (0x1D63C <= cp && cp <= 0x1D655) || (0x1D670 <= cp && cp <= 0x1D689) || (0x1D6A8 <= cp && cp <= 0x1D6C0) || (0x1D6E2 <= cp && cp <= 0x1D6FA)
                            }
                        }
                    }
                } else {
                    if cp < 0x1EE24 {
                        if cp < 0x1E100 {
                            (0x1D71C <= cp && cp <= 0x1D734) || (0x1D756 <= cp && cp <= 0x1D76E) || (0x1D790 <= cp && cp <= 0x1D7A8) || cp == 0x1D7CA
                                || (0x1DA00 <= cp && cp <= 0x1DA36) || (0x1DA3B <= cp && cp <= 0x1DA6C) || cp == 0x1DA75 || cp == 0x1DA84
                                || (0x1DA9B <= cp && cp <= 0x1DA9F) || (0x1DAA1 <= cp && cp <= 0x1DAAF) || cp == 0x1DF0A || (0x1E000 <= cp && cp <= 0x1E006)
                                || (0x1E008 <= cp && cp <= 0x1E018) || (0x1E01B <= cp && cp <= 0x1E021) || (0x1E023 <= cp && cp <= 0x1E024) || (0x1E026 <= cp && cp <= 0x1E02A)
                        } else {
                            (0x1E100 <= cp && cp <= 0x1E12C) || (0x1E130 <= cp && cp <= 0x1E13D) || cp == 0x1E14E || (0x1E290 <= cp && cp <= 0x1E2AE)
                                || (0x1E2C0 <= cp && cp <= 0x1E2EF) || (0x1E7E0 <= cp && cp <= 0x1E7E6) || (0x1E7E8 <= cp && cp <= 0x1E7EB) || (0x1E7ED <= cp && cp <= 0x1E7EE)
                                || (0x1E7F0 <= cp && cp <= 0x1E7FE) || (0x1E800 <= cp && cp <= 0x1E8C4) || (0x1E8D0 <= cp && cp <= 0x1E8D6) || (0x1E900 <= cp && cp <= 0x1E921)
                                || (0x1E944 <= cp && cp <= 0x1E94B) || (0x1EE00 <= cp && cp <= 0x1EE03) || (0x1EE05 <= cp && cp <= 0x1EE1F) || (0x1EE21 <= cp && cp <= 0x1EE22)
                        }
                    } else {
                        if cp < 0x1EE5D {
                            cp == 0x1EE24 || cp == 0x1EE27 || (0x1EE29 <= cp && cp <= 0x1EE32) || (0x1EE34 <= cp && cp <= 0x1EE37)
                                || cp == 0x1EE39 || cp == 0x1EE3B || cp == 0x1EE42 || cp == 0x1EE47
                                || cp == 0x1EE49 || cp == 0x1EE4B || (0x1EE4D <= cp && cp <= 0x1EE4F) || (0x1EE51 <= cp && cp <= 0x1EE52)
                                || cp == 0x1EE54 || cp == 0x1EE57 || cp == 0x1EE59 || cp == 0x1EE5B
                        } else {
                            if cp < 0x2B740 {
                                cp == 0x1EE5D || cp == 0x1EE5F || (0x1EE61 <= cp && cp <= 0x1EE62) || cp == 0x1EE64
                                    || (0x1EE67 <= cp && cp <= 0x1EE6A) || (0x1EE6C <= cp && cp <= 0x1EE72) || (0x1EE74 <= cp && cp <= 0x1EE77) || (0x1EE79 <= cp && cp <= 0x1EE7C)
                                    || cp == 0x1EE7E || (0x1EE80 <= cp && cp <= 0x1EE89) || (0x1EE8B <= cp && cp <= 0x1EE9B) || (0x1EEA1 <= cp && cp <= 0x1EEA3)
                                    || (0x1EEA5 <= cp && cp <= 0x1EEA9) || (0x1EEAB <= cp && cp <= 0x1EEBB) || (0x20000 <= cp && cp <= 0x2A6DF) || (0x2A700 <= cp && cp <= 0x2B738)
                            } else {
                                (0x2B740 <= cp && cp <= 0x2B81D) || (0x2B820 <= cp && cp <= 0x2CEA1) || (0x2CEB0 <= cp && cp <= 0x2EBE0) || (0x2F800 <= cp && cp <= 0x2FA1D)
                                    || (0x30000 <= cp && cp <= 0x3134A) || (0xE0100 <= cp && cp <= 0xE01EF)
                            }
                        }
                    }
                }
            }
        }
    }
}

/// Ranges 0..16 of `[\p{Ll}\p{Lm}\p{Lo}\p{M}]`.
pub open spec fn o200k_lower_block_0(cp: u32) -> bool {
    (0x61 <= cp && cp <= 0x7A) || cp == 0xAA || cp == 0xB5 || cp == 0xBA
    || (0xDF <= cp && cp <= 0xF6) || (0xF8 <= cp && cp <= 0xFF) || cp == 0x101 || cp == 0x103
    || cp == 0x105 || cp == 0x107 || cp == 0x109 || cp == 0x10B
    || cp == 0x10D || cp == 0x10F || cp == 0x111 || cp == 0x113
}

/// Ranges 16..32 of `[\p{Ll}\p{Lm}\p{Lo}\p{M}]`.
pub open spec fn o200k_lower_block_1(cp: u32) -> bool {
    cp == 0x115 || cp == 0x117 || cp == 0x119 || cp == 0x11B
    || cp == 0x11D || cp == 0x11F || cp == 0x121 || cp == 0x123
    || cp == 0x125 || cp == 0x127 || cp == 0x129 || cp == 0x12B
    || cp == 0x12D || cp == 0x12F || cp == 0x131 || cp == 0x133
}

/// Ranges 32..48 of `[\p{Ll}\p{Lm}\p{Lo}\p{M}]`.
pub open spec fn o200k_lower_block_2(cp: u32) -> bool {
    cp == 0x135 || (0x137 <= cp && cp <= 0x138) || cp == 0x13A || cp == 0x13C
    || cp == 0x13E || cp == 0x140 || cp == 0x142 || cp == 0x144
    || cp == 0x146 || (0x148 <= cp && cp <= 0x149) || cp == 0x14B || cp == 0x14D
    || cp == 0x14F || cp == 0x151 || cp == 0x153 || cp == 0x155
}

/// Ranges 48..64 of `[\p{Ll}\p{Lm}\p{Lo}\p{M}]`.
pub open spec fn o200k_lower_block_3(cp: u32) -> bool {
    cp == 0x157 || cp == 0x159 || cp == 0x15B || cp == 0x15D
    || cp == 0x15F || cp == 0x161 || cp == 0x163 || cp == 0x165
    || cp == 0x167 || cp == 0x169 || cp == 0x16B || cp == 0x16D
    || cp == 0x16F || cp == 0x171 || cp == 0x173 || cp == 0x175
}

/// Ranges 64..80 of `[\p{Ll}\p{Lm}\p{Lo}\p{M}]`.
pub open spec fn o200k_lower_block_4(cp: u32) -> bool {
    cp == 0x177 || cp == 0x17A || cp == 0x17C || (0x17E <= cp && cp <= 0x180)
    || cp == 0x183 || cp == 0x185 || cp == 0x188 || (0x18C <= cp && cp <= 0x18D)
    || cp == 0x192 || cp == 0x195 || (0x199 <= cp && cp <= 0x19B) || cp == 0x19E
    || cp == 0x1A1 || cp == 0x1A3 || cp == 0x1A5 || cp == 0x1A8
}

/// Ranges 80..96 of `[\p{Ll}\p{Lm}\p{Lo}\p{M}]`.
pub open spec fn o200k_lower_block_5(cp: u32) -> bool {
    (0x1AA <= cp && cp <= 0x1AB) || cp == 0x1AD || cp == 0x1B0 || cp == 0x1B4
    || cp == 0x1B6 || (0x1B9 <= cp && cp <= 0x1BB) || (0x1BD <= cp && cp <= 0x1C3) || cp == 0x1C6
    || cp == 0x1C9 || cp == 0x1CC || cp == 0x1CE || cp == 0x1D0
    || cp == 0x1D2 || cp == 0x1D4 || cp == 0x1D6 || cp == 0x1D8
}

/// Ranges 96..112 of `[\p{Ll}\p{Lm}\p{Lo}\p{M}]`.
pub open spec fn o200k_lower_block_6(cp: u32) -> bool {
    cp == 0x1DA || (0x1DC <= cp && cp <= 0x1DD) || cp == 0x1DF || cp == 0x1E1
    || cp == 0x1E3 || cp == 0x1E5 || cp == 0x1E7 || cp == 0x1E9
    || cp == 0x1EB || cp == 0x1ED || (0x1EF <= cp && cp <= 0x1F0) || cp == 0x1F3
    || cp == 0x1F5 || cp == 0x1F9 || cp == 0x1FB || cp == 0x1FD
}

/// Ranges 112..128 of `[\p{Ll}\p{Lm}\p{Lo}\p{M}]`.
pub open spec fn o200k_lower_block_7(cp: u32) -> bool {
    cp == 0x1FF || cp == 0x201 || cp == 0x203 || cp == 0x205
    || cp == 0x207 || cp == 0x209 || cp == 0x20B || cp == 0x20D
    || cp == 0x20F || cp == 0x211 || cp == 0x213 || cp == 0x215
    || cp == 0x217 || cp == 0x219 || cp == 0x21B || cp == 0x21D
}

/// Ranges 128..144 of `[\p{Ll}\p{Lm}\p{Lo}\p{M}]`.
pub open spec fn o200k_lower_block_8(cp: u32) -> bool {
    cp == 0x21F || cp == 0x221 || cp == 0x223 || cp == 0x225
    || cp == 0x227 || cp == 0x229 || cp == 0x22B || cp == 0x22D
    || cp == 0x22F || cp == 0x231 || (0x233 <= cp && cp <= 0x239) || cp == 0x23C
    || (0x23F <= cp && cp <= 0x240) || cp == 0x242 || cp == 0x247 || cp == 0x249
}

/// Ranges 144..160 of `[\p{Ll}\p{Lm}\p{Lo}\p{M}]`.
pub open spec fn o200k_lower_block_9(cp: u32) -> bool {
    cp == 0x24B || cp == 0x24D || (0x24F <= cp && cp <= 0x2C1) || (0x2C6 <= cp && cp <= 0x2D1)
    || (0x2E0 <= cp && cp <= 0x2E4) || cp == 0x2EC || cp == 0x2EE || (0x300 <= cp && cp <= 0x36F)
    || cp == 0x371 || (0x373 <= cp && cp <= 0x374) || cp == 0x377 || (0x37A <= cp && cp <= 0x37D)
    || cp == 0x390 || (0x3AC <= cp && cp <= 0x3CE) || (0x3D0 <= cp && cp <= 0x3D1) || (0x3D5 <= cp && cp <= 0x3D7)
}

/// Ranges 160..176 of `[\p{Ll}\p{Lm}\p{Lo}\p{M}]`.
pub open spec fn o200k_lower_block_10(cp: u32) -> bool {
    cp == 0x3D9 || cp == 0x3DB || cp == 0x3DD || cp == 0x3DF
    || cp == 0x3E1 || cp == 0x3E3 || cp == 0x3E5 || cp == 0x3E7
    || cp == 0x3E9 || cp == 0x3EB || cp == 0x3ED || (0x3EF <= cp && cp <= 0x3F3)
    || cp == 0x3F5 || cp == 0x3F8 || (0x3FB <= cp && cp <= 0x3FC) || (0x430 <= cp && cp <= 0x45F)
}

/// Ranges 176..192 of `[\p{Ll}\p{Lm}\p{Lo}\p{M}]`.
pub open spec fn o200k_lower_block_11(cp: u32) -> bool {
    cp == 0x461 || cp == 0x463 || cp == 0x465 || cp == 0x467
    || cp == 0x469 || cp == 0x46B || cp == 0x46D || cp == 0x46F
    || cp == 0x471 || cp == 0x473 || cp == 0x475 || cp == 0x477
    || cp == 0x479 || cp == 0x47B || cp == 0x47D || cp == 0x47F
}

/// Ranges 192..208 of `[\p{Ll}\p{Lm}\p{Lo}\p{M}]`.
pub open spec fn o200k_lower_block_12(cp: u32) -> bool {
    cp == 0x481 || (0x483 <= cp && cp <= 0x489) || cp == 0x48B || cp == 0x48D
    || cp == 0x48F || cp == 0x491 || cp == 0x493 || cp == 0x495
    || cp == 0x497 || cp == 0x499 || cp == 0x49B || cp == 0x49D
    || cp == 0x49F || cp == 0x4A1 || cp == 0x4A3 || cp == 0x4A5
}

/// Ranges 208..224 of `[\p{Ll}\p{Lm}\p{Lo}\p{M}]`.
pub open spec fn o200k_lower_block_13(cp: u32) -> bool {
    cp == 0x4A7 || cp == 0x4A9 || cp == 0x4AB || cp == 0x4AD
    || cp == 0x4AF || cp == 0x4B1 || cp == 0x4B3 || cp == 0x4B5
    || cp == 0x4B7 || cp == 0x4B9 || cp == 0x4BB || cp == 0x4BD
    || cp == 0x4BF || cp == 0x4C2 || cp == 0x4C4 || cp == 0x4C6
}

/// Ranges 224..240 of `[\p{Ll}\p{Lm}\p{Lo}\p{M}]`.
pub open spec fn o200k_lower_block_14(cp: u32) -> bool {
    cp == 0x4C8 || cp == 0x4CA || cp == 0x4CC || (0x4CE <= cp && cp <= 0x4CF)
    || cp == 0x4D1 || cp == 0x4D3 || cp == 0x4D5 || cp == 0x4D7
    || cp == 0x4D9 || cp == 0x4DB || cp == 0x4DD || cp == 0x4DF
    || cp == 0x4E1 || cp == 0x4E3 || cp == 0x4E5 || cp == 0x4E7
}

/// Ranges 240..256 of `[\p{Ll}\p{Lm}\p{Lo}\p{M}]`.
pub open spec fn o200k_lower_block_15(cp: u32) -> bool {
    cp == 0x4E9 || cp == 0x4EB || cp == 0x4ED || cp == 0x4EF
    || cp == 0x4F1 || cp == 0x4F3 || cp == 0x4F5 || cp == 0x4F7
    || cp == 0x4F9 || cp == 0x4FB || cp == 0x4FD || cp == 0x4FF
    || cp == 0x501 || cp == 0x503 || cp == 0x505 || cp == 0x507
}

/// Ranges 256..272 of `[\p{Ll}\p{Lm}\p{Lo}\p{M}]`.
pub open spec fn o200k_lower_block_16(cp: u32) -> bool {
    cp == 0x509 || cp == 0x50B || cp == 0x50D || cp == 0x50F
    || cp == 0x511 || cp == 0x513 || cp == 0x515 || cp == 0x517
    || cp == 0x519 || cp == 0x51B || cp == 0x51D || cp == 0x51F
    || cp == 0x521 || cp == 0x523 || cp == 0x525 || cp == 0x527
}

/// Ranges 272..288 of `[\p{Ll}\p{Lm}\p{Lo}\p{M}]`.
pub open spec fn o200k_lower_block_17(cp: u32) -> bool {
    cp == 0x529 || cp == 0x52B || cp == 0x52D || cp == 0x52F
    || cp == 0x559 || (0x560 <= cp && cp <= 0x588) || (0x591 <= cp && cp <= 0x5BD) || cp == 0x5BF
    || (0x5C1 <= cp && cp <= 0x5C2) || (0x5C4 <= cp && cp <= 0x5C5) || cp == 0x5C7 || (0x5D0 <= cp && cp <= 0x5EA)
    || (0x5EF <= cp && cp <= 0x5F2) || (0x610 <= cp && cp <= 0x61A) || (0x620 <= cp && cp <= 0x65F) || (0x66E <= cp && cp <= 0x6D3)
}

/// Ranges 288..304 of `[\p{Ll}\p{Lm}\p{Lo}\p{M}]`.
pub open spec fn o200k_lower_block_18(cp: u32) -> bool {
    (0x6D5 <= cp && cp <= 0x6DC) || (0x6DF <= cp && cp <= 0x6E8) || (0x6EA <= cp && cp <= 0x6EF) || (0x6FA <= cp && cp <= 0x6FC)
    || cp == 0x6FF || (0x710 <= cp && cp <= 0x74A) || (0x74D <= cp && cp <= 0x7B1) || (0x7CA <= cp && cp <= 0x7F5)
    || cp == 0x7FA || cp == 0x7FD || (0x800 <= cp && cp <= 0x82D) || (0x840 <= cp && cp <= 0x85B)
    || (0x860 <= cp && cp <= 0x86A) || (0x870 <= cp && cp <= 0x887) || (0x889 <= cp && cp <= 0x88E) || (0x898 <= cp && cp <= 0x8E1)
}

/// Ranges 304..320 of `[\p{Ll}\p{Lm}\p{Lo}\p{M}]`.
pub open spec fn o200k_lower_block_19(cp: u32) -> bool {
    (0x8E3 <= cp && cp <= 0x963) || (0x971 <= cp && cp <= 0x983) || (0x985 <= cp && cp <= 0x98C) || (0x98F <= cp && cp <= 0x990)
    || (0x993 <= cp && cp <= 0x9A8) || (0x9AA <= cp && cp <= 0x9B0) || cp == 0x9B2 || (0x9B6 <= cp && cp <= 0x9B9)
    || (0x9BC <= cp && cp <= 0x9C4) || (0x9C7 <= cp && cp <= 0x9C8) || (0x9CB <= cp && cp <= 0x9CE) || cp == 0x9D7
    || (0x9DC <= cp && cp <= 0x9DD) || (0x9DF <= cp && cp <= 0x9E3) || (0x9F0 <= cp && cp <= 0x9F1) || cp == 0x9FC
}

/// Ranges 320..336 of `[\p{Ll}\p{Lm}\p{Lo}\p{M}]`.
pub open spec fn o200k_lower_block_20(cp: u32) -> bool {
    cp == 0x9FE || (0xA01 <= cp && cp <= 0xA03) || (0xA05 <= cp && cp <= 0xA0A) || (0xA0F <= cp && cp <= 0xA10)
    || (0xA13 <= cp && cp <= 0xA28) || (0xA2A <= cp && cp <= 0xA30) || (0xA32 <= cp && cp <= 0xA33) || (0xA35 <= cp && cp <= 0xA36)
    || (0xA38 <= cp && cp <= 0xA39) || cp == 0xA3C || (0xA3E <= cp && cp <= 0xA42) || (0xA47 <= cp && cp <= 0xA48)
    || (0xA4B <= cp && cp <= 0xA4D) || cp == 0xA51 || (0xA59 <= cp && cp <= 0xA5C) || cp == 0xA5E
}

/// Ranges 336..352 of `[\p{Ll}\p{Lm}\p{Lo}\p{M}]`.
pub open spec fn o200k_lower_block_21(cp: u32) -> bool {
    (0xA70 <= cp && cp <= 0xA75) || (0xA81 <= cp && cp <= 0xA83) || (0xA85 <= cp && cp <= 0xA8D) || (0xA8F <= cp && cp <= 0xA91)
    || (0xA93 <= cp && cp <= 0xAA8) || (0xAAA <= cp && cp <= 0xAB0) || (0xAB2 <= cp && cp <= 0xAB3) || (0xAB5 <= cp && cp <= 0xAB9)
    || (0xABC <= cp && cp <= 0xAC5) || (0xAC7 <= cp && cp <= 0xAC9) || (0xACB <= cp && cp <= 0xACD) || cp == 0xAD0
    || (0xAE0 <= cp && cp <= 0xAE3) || (0xAF9 <= cp && cp <= 0xAFF) || (0xB01 <= cp && cp <= 0xB03) || (0xB05 <= cp && cp <= 0xB0C)
}

/// Ranges 352..368 of `[\p{Ll}\p{Lm}\p{Lo}\p{M}]`.
pub open spec fn o200k_lower_block_22(cp: u32) -> bool {
    (0xB0F <= cp && cp <= 0xB10) || (0xB13 <= cp && cp <= 0xB28) || (0xB2A <= cp && cp <= 0xB30) || (0xB32 <= cp && cp <= 0xB33)
    || (0xB35 <= cp && cp <= 0xB39) || (0xB3C <= cp && cp <= 0xB44) || (0xB47 <= cp && cp <= 0xB48) || (0xB4B <= cp && cp <= 0xB4D)
    || (0xB55 <= cp && cp <= 0xB57) || (0xB5C <= cp && cp <= 0xB5D) || (0xB5F <= cp && cp <= 0xB63) || cp == 0xB71
    || (0xB82 <= cp && cp <= 0xB83) || (0xB85 <= cp && cp <= 0xB8A) || (0xB8E <= cp && cp <= 0xB90) || (0xB92 <= cp && cp <= 0xB95)
}

/// Ranges 368..384 of `[\p{Ll}\p{Lm}\p{Lo}\p{M}]`.
pub open spec fn o200k_lower_block_23(cp: u32) -> bool {
    (0xB99 <= cp && cp <= 0xB9A) || cp == 0xB9C || (0xB9E <= cp && cp <= 0xB9F) || (0xBA3 <= cp && cp <= 0xBA4)
    || (0xBA8 <= cp && cp <= 0xBAA) || (0xBAE <= cp && cp <= 0xBB9) || (0xBBE <= cp && cp <= 0xBC2) || (0xBC6 <= cp && cp <= 0xBC8)
    || (0xBCA <= cp && cp <= 0xBCD) || cp == 0xBD0 || cp == 0xBD7 || (0xC00 <= cp && cp <= 0xC0C)
    || (0xC0E <= cp && cp <= 0xC10) || (0xC12 <= cp && cp <= 0xC28) || (0xC2A <= cp && cp <= 0xC39) || (0xC3C <= cp && cp <= 0xC44)
}

/// Ranges 384..400 of `[\p{Ll}\p{Lm}\p{Lo}\p{M}]`.
pub open spec fn o200k_lower_block_24(cp: u32) -> bool {
    (0xC46 <= cp && cp <= 0xC48) || (0xC4A <= cp && cp <= 0xC4D) || (0xC55 <= cp && cp <= 0xC56) || (0xC58 <= cp && cp <= 0xC5A)
    || cp == 0xC5D || (0xC60 <= cp && cp <= 0xC63) || (0xC80 <= cp && cp <= 0xC83) || (0xC85 <= cp && cp <= 0xC8C)
    || (0xC8E <= cp && cp <= 0xC90) || (0xC92 <= cp && cp <= 0xCA8) || (0xCAA <= cp && cp <= 0xCB3) || (0xCB5 <= cp && cp <= 0xCB9)
    || (0xCBC <= cp && cp <= 0xCC4) || (0xCC6 <= cp && cp <= 0xCC8) || (0xCCA <= cp && cp <= 0xCCD) || (0xCD5 <= cp && cp <= 0xCD6)
}

/// Ranges 400..416 of `[\p{Ll}\p{Lm}\p{Lo}\p{M}]`.
pub open spec fn o200k_lower_block_25(cp: u32) -> bool {
    (0xCDD <= cp && cp <= 0xCDE) || (0xCE0 <= cp && cp <= 0xCE3) || (0xCF1 <= cp && cp <= 0xCF2) || (0xD00 <= cp && cp <= 0xD0C)
    || (0xD0E <= cp && cp <= 0xD10) || (0xD12 <= cp && cp <= 0xD44) || (0xD46 <= cp && cp <= 0xD48) || (0xD4A <= cp && cp <= 0xD4E)
    || (0xD54 <= cp && cp <= 0xD57) || (0xD5F <= cp && cp <= 0xD63) || (0xD7A <= cp && cp <= 0xD7F) || (0xD81 <= cp && cp <= 0xD83)
    || (0xD85 <= cp && cp <= 0xD96) || (0xD9A <= cp && cp <= 0xDB1) || (0xDB3 <= cp && cp <= 0xDBB) || cp == 0xDBD
}

/// Ranges 416..432 of `[\p{Ll}\p{Lm}\p{Lo}\p{M}]`.
pub open spec fn o200k_lower_block_26(cp: u32) -> bool {
    (0xDC0 <= cp && cp <= 0xDC6) || cp == 0xDCA || (0xDCF <= cp && cp <= 0xDD4) || cp == 0xDD6
    || (0xDD8 <= cp && cp <= 0xDDF) || (0xDF2 <= cp && cp <= 0xDF3) || (0xE01 <= cp && cp <= 0xE3A) || (0xE40 <= cp && cp <= 0xE4E)
    || (0xE81 <= cp && cp <= 0xE82) || cp == 0xE84 || (0xE86 <= cp && cp <= 0xE8A) || (0xE8C <= cp && cp <= 0xEA3)
    || cp == 0xEA5 || (0xEA7 <= cp && cp <= 0xEBD) || (0xEC0 <= cp && cp <= 0xEC4) || cp == 0xEC6
}

/// Ranges 432..448 of `[\p{Ll}\p{Lm}\p{Lo}\p{M}]`.
pub open spec fn o200k_lower_block_27(cp: u32) -> bool {
    (0xEC8 <= cp && cp <= 0xECD) || (0xEDC <= cp && cp <= 0xEDF) || cp == 0xF00 || (0xF18 <= cp && cp <= 0xF19)
    || cp == 0xF35 || cp == 0xF37 || cp == 0xF39 || (0xF3E <= cp && cp <= 0xF47)
    || (0xF49 <= cp && cp <= 0xF6C) || (0xF71 <= cp && cp <= 0xF84) || (0xF86 <= cp && cp <= 0xF97) || (0xF99 <= cp && cp <= 0xFBC)
    || cp == 0xFC6 || (0x1000 <= cp && cp <= 0x103F) || (0x1050 <= cp && cp <= 0x108F) || (0x109A <= cp && cp <= 0x109D)
}

/// Ranges 448..464 of `[\p{Ll}\p{Lm}\p{Lo}\p{M}]`.
pub open spec fn o200k_lower_block_28(cp: u32) -> bool {
    (0x10D0 <= cp && cp <= 0x10FA) || (0x10FC <= cp && cp <= 0x1248) || (0x124A <= cp && cp <= 0x124D) || (0x1250 <= cp && cp <= 0x1256)
    || cp == 0x1258 || (0x125A <= cp && cp <= 0x125D) || (0x1260 <= cp && cp <= 0x1288) || (0x128A <= cp && cp <= 0x128D)
    || (0x1290 <= cp && cp <= 0x12B0) || (0x12B2 <= cp && cp <= 0x12B5) || (0x12B8 <= cp && cp <= 0x12BE) || cp == 0x12C0
    || (0x12C2 <= cp && cp <= 0x12C5) || (0x12C8 <= cp && cp <= 0x12D6) || (0x12D8 <= cp && cp <= 0x1310) || (0x1312 <= cp && cp <= 0x1315)
}

/// Ranges 464..480 of `[\p{Ll}\p{Lm}\p{Lo}\p{M}]`.
pub open spec fn o200k_lower_block_29(cp: u32) -> bool {
    (0x1318 <= cp && cp <= 0x135A) || (0x135D <= cp && cp <= 0x135F) || (0x1380 <= cp && cp <= 0x138F) || (0x13F8 <= cp && cp <= 0x13FD)
    || (0x1401 <= cp && cp <= 0x166C) || (0x166F <= cp && cp <= 0x167F) || (0x1681 <= cp && cp <= 0x169A) || (0x16A0 <= cp && cp <= 0x16EA)
    || (0x16F1 <= cp && cp <= 0x16F8) || (0x1700 <= cp && cp <= 0x1715) || (0x171F <= cp && cp <= 0x1734) || (0x1740 <= cp && cp <= 0x1753)
    || (0x1760 <= cp && cp <= 0x176C) || (0x176E <= cp && cp <= 0x1770) || (0x1772 <= cp && cp <= 0x1773) || (0x1780 <= cp && cp <= 0x17D3)
}

/// Ranges 480..496 of `[\p{Ll}\p{Lm}\p{Lo}\p{M}]`.
pub open spec fn o200k_lower_block_30(cp: u32) -> bool {
    cp == 0x17D7 || (0x17DC <= cp && cp <= 0x17DD) || (0x180B <= cp && cp <= 0x180D) || cp == 0x180F
    || (0x1820 <= cp && cp <= 0x1878) || (0x1880 <= cp && cp <= 0x18AA) || (0x18B0 <= cp && cp <= 0x18F5) || (0x1900 <= cp && cp <= 0x191E)
    || (0x1920 <= cp && cp <= 0x192B) || (0x1930 <= cp && cp <= 0x193B) || (0x1950 <= cp && cp <= 0x196D) || (0x1970 <= cp && cp <= 0x1974)
    || (0x1980 <= cp && cp <= 0x19AB) || (0x19B0 <= cp && cp <= 0x19C9) || (0x1A00 <= cp && cp <= 0x1A1B) || (0x1A20 <= cp && cp <= 0x1A5E)
}

/// Ranges 496..512 of `[\p{Ll}\p{Lm}\p{Lo}\p{M}]`.
pub open spec fn o200k_lower_block_31(cp: u32) -> bool {
    (0x1A60 <= cp && cp <= 0x1A7C) || cp == 0x1A7F || cp == 0x1AA7 || (0x1AB0 <= cp && cp <= 0x1ACE)
    || (0x1B00 <= cp && cp <= 0x1B4C) || (0x1B6B <= cp && cp <= 0x1B73) || (0x1B80 <= cp && cp <= 0x1BAF) || (0x1BBA <= cp && cp <= 0x1BF3)
    || (0x1C00 <= cp && cp <= 0x1C37) || (0x1C4D <= cp && cp <= 0x1C4F) || (0x1C5A <= cp && cp <= 0x1C7D) || (0x1C80 <= cp && cp <= 0x1C88)
    || (0x1CD0 <= cp && cp <= 0x1CD2) || (0x1CD4 <= cp && cp <= 0x1CFA) || (0x1D00 <= cp && cp <= 0x1DFF) || cp == 0x1E01
}

/// Ranges 512..528 of `[\p{Ll}\p{Lm}\p{Lo}\p{M}]`.
pub open spec fn o200k_lower_block_32(cp: u32) -> bool {
    cp == 0x1E03 || cp == 0x1E05 || cp == 0x1E07 || cp == 0x1E09
    || cp == 0x1E0B || cp == 0x1E0D || cp == 0x1E0F || cp == 0x1E11
    || cp == 0x1E13 || cp == 0x1E15 || cp == 0x1E17 || cp == 0x1E19
    || cp == 0x1E1B || cp == 0x1E1D || cp == 0x1E1F || cp == 0x1E21
}

/// Ranges 528..544 of `[\p{Ll}\p{Lm}\p{Lo}\p{M}]`.
pub open spec fn o200k_lower_block_33(cp: u32) -> bool {
    cp == 0x1E23 || cp == 0x1E25 || cp == 0x1E27 || cp == 0x1E29
    || cp == 0x1E2B || cp == 0x1E2D || cp == 0x1E2F || cp == 0x1E31
    || cp == 0x1E33 || cp == 0x1E35 || cp == 0x1E37 || cp == 0x1E39
    || cp == 0x1E3B || cp == 0x1E3D || cp == 0x1E3F || cp == 0x1E41
}

/// Ranges 544..560 of `[\p{Ll}\p{Lm}\p{Lo}\p{M}]`.
pub open spec fn o200k_lower_block_34(cp: u32) -> bool {
    cp == 0x1E43 || cp == 0x1E45 || cp == 0x1E47 || cp == 0x1E49
    || cp == 0x1E4B || cp == 0x1E4D || cp == 0x1E4F || cp == 0x1E51
    || cp == 0x1E53 || cp == 0x1E55 || cp == 0x1E57 || cp == 0x1E59
    || cp == 0x1E5B || cp == 0x1E5D || cp == 0x1E5F || cp == 0x1E61
}

/// Ranges 560..576 of `[\p{Ll}\p{Lm}\p{Lo}\p{M}]`.
pub open spec fn o200k_lower_block_35(cp: u32) -> bool {
    cp == 0x1E63 || cp == 0x1E65 || cp == 0x1E67 || cp == 0x1E69
    || cp == 0x1E6B || cp == 0x1E6D || cp == 0x1E6F || cp == 0x1E71
    || cp == 0x1E73 || cp == 0x1E75 || cp == 0x1E77 || cp == 0x1E79
    || cp == 0x1E7B || cp == 0x1E7D || cp == 0x1E7F || cp == 0x1E81
}

/// Ranges 576..592 of `[\p{Ll}\p{Lm}\p{Lo}\p{M}]`.
pub open spec fn o200k_lower_block_36(cp: u32) -> bool {
    cp == 0x1E83 || cp == 0x1E85 || cp == 0x1E87 || cp == 0x1E89
    || cp == 0x1E8B || cp == 0x1E8D || cp == 0x1E8F || cp == 0x1E91
    || cp == 0x1E93 || (0x1E95 <= cp && cp <= 0x1E9D) || cp == 0x1E9F || cp == 0x1EA1
    || cp == 0x1EA3 || cp == 0x1EA5 || cp == 0x1EA7 || cp == 0x1EA9
}

/// Ranges 592..608 of `[\p{Ll}\p{Lm}\p{Lo}\p{M}]`.
pub open spec fn o200k_lower_block_37(cp: u32) -> bool {
    cp == 0x1EAB || cp == 0x1EAD || cp == 0x1EAF || cp == 0x1EB1
    || cp == 0x1EB3 || cp == 0x1EB5 || cp == 0x1EB7 || cp == 0x1EB9
    || cp == 0x1EBB || cp == 0x1EBD || cp == 0x1EBF || cp == 0x1EC1
    || cp == 0x1EC3 || cp == 0x1EC5 || cp == 0x1EC7 || cp == 0x1EC9
}

/// Ranges 608..624 of `[\p{Ll}\p{Lm}\p{Lo}\p{M}]`.
pub open spec fn o200k_lower_block_38(cp: u32) -> bool {
    cp == 0x1ECB || cp == 0x1ECD || cp == 0x1ECF || cp == 0x1ED1
    || cp == 0x1ED3 || cp == 0x1ED5 || cp == 0x1ED7 || cp == 0x1ED9
    || cp == 0x1EDB || cp == 0x1EDD || cp == 0x1EDF || cp == 0x1EE1
    || cp == 0x1EE3 || cp == 0x1EE5 || cp == 0x1EE7 || cp == 0x1EE9
}

/// Ranges 624..640 of `[\p{Ll}\p{Lm}\p{Lo}\p{M}]`.
pub open spec fn o200k_lower_block_39(cp: u32) -> bool {
    cp == 0x1EEB || cp == 0x1EED || cp == 0x1EEF || cp == 0x1EF1
    || cp == 0x1EF3 || cp == 0x1EF5 || cp == 0x1EF7 || cp == 0x1EF9
    || cp == 0x1EFB || cp == 0x1EFD || (0x1EFF <= cp && cp <= 0x1F07) || (0x1F10 <= cp && cp <= 0x1F15)
    || (0x1F20 <= cp && cp <= 0x1F27) || (0x1F30 <= cp && cp <= 0x1F37) || (0x1F40 <= cp && cp <= 0x1F45) || (0x1F50 <= cp && cp <= 0x1F57)
}

/// Ranges 640..656 of `[\p{Ll}\p{Lm}\p{Lo}\p{M}]`.
pub open spec fn o200k_lower_block_40(cp: u32) -> bool {
    (0x1F60 <= cp && cp <= 0x1F67) || (0x1F70 <= cp && cp <= 0x1F7D) || (0x1F80 <= cp && cp <= 0x1F87) || (0x1F90 <= cp && cp <= 0x1F97)
    || (0x1FA0 <= cp && cp <= 0x1FA7) || (0x1FB0 <= cp && cp <= 0x1FB4) || (0x1FB6 <= cp && cp <= 0x1FB7) || cp == 0x1FBE
    || (0x1FC2 <= cp && cp <= 0x1FC4) || (0x1FC6 <= cp && cp <= 0x1FC7) || (0x1FD0 <= cp && cp <= 0x1FD3) || (0x1FD6 <= cp && cp <= 0x1FD7)
    || (0x1FE0 <= cp && cp <= 0x1FE7) || (0x1FF2 <= cp && cp <= 0x1FF4) || (0x1FF6 <= cp && cp <= 0x1FF7) || cp == 0x2071
}

/// Ranges 656..672 of `[\p{Ll}\p{Lm}\p{Lo}\p{M}]`.
pub open spec fn o200k_lower_block_41(cp: u32) -> bool {
    cp == 0x207F || (0x2090 <= cp && cp <= 0x209C) || (0x20D0 <= cp && cp <= 0x20F0) || cp == 0x210A
    || (0x210E <= cp && cp <= 0x210F) || cp == 0x2113 || cp == 0x212F || (0x2134 <= cp && cp <= 0x2139)
    || (0x213C <= cp && cp <= 0x213D) || (0x2146 <= cp && cp <= 0x2149) || cp == 0x214E || cp == 0x2184
    || (0x2C30 <= cp && cp <= 0x2C5F) || cp == 0x2C61 || (0x2C65 <= cp && cp <= 0x2C66) || cp == 0x2C68
}

/// Ranges 672..688 of `[\p{Ll}\p{Lm}\p{Lo}\p{M}]`.
pub open spec fn o200k_lower_block_42(cp: u32) -> bool {
    cp == 0x2C6A || cp == 0x2C6C || cp == 0x2C71 || (0x2C73 <= cp && cp <= 0x2C74)
    || (0x2C76 <= cp && cp <= 0x2C7D) || cp == 0x2C81 || cp == 0x2C83 || cp == 0x2C85
    || cp == 0x2C87 || cp == 0x2C89 || cp == 0x2C8B || cp == 0x2C8D
    || cp == 0x2C8F || cp == 0x2C91 || cp == 0x2C93 || cp == 0x2C95
}

/// Ranges 688..704 of `[\p{Ll}\p{Lm}\p{Lo}\p{M}]`.
pub open spec fn o200k_lower_block_43(cp: u32) -> bool {
    cp == 0x2C97 || cp == 0x2C99 || cp == 0x2C9B || cp == 0x2C9D
    || cp == 0x2C9F || cp == 0x2CA1 || cp == 0x2CA3 || cp == 0x2CA5
    || cp == 0x2CA7 || cp == 0x2CA9 || cp == 0x2CAB || cp == 0x2CAD
    || cp == 0x2CAF || cp == 0x2CB1 || cp == 0x2CB3 || cp == 0x2CB5
}

/// Ranges 704..720 of `[\p{Ll}\p{Lm}\p{Lo}\p{M}]`.
pub open spec fn o200k_lower_block_44(cp: u32) -> bool {
    cp == 0x2CB7 || cp == 0x2CB9 || cp == 0x2CBB || cp == 0x2CBD
    || cp == 0x2CBF || cp == 0x2CC1 || cp == 0x2CC3 || cp == 0x2CC5
    || cp == 0x2CC7 || cp == 0x2CC9 || cp == 0x2CCB || cp == 0x2CCD
    || cp == 0x2CCF || cp == 0x2CD1 || cp == 0x2CD3 || cp == 0x2CD5
}

/// Ranges 720..736 of `[\p{Ll}\p{Lm}\p{Lo}\p{M}]`.
pub open spec fn o200k_lower_block_45(cp: u32) -> bool {
    cp == 0x2CD7 || cp == 0x2CD9 || cp == 0x2CDB || cp == 0x2CDD
    || cp == 0x2CDF || cp == 0x2CE1 || (0x2CE3 <= cp && cp <= 0x2CE4) || cp == 0x2CEC
    || (0x2CEE <= cp && cp <= 0x2CF1) || cp == 0x2CF3 || (0x2D00 <= cp && cp <= 0x2D25) || cp == 0x2D27
    || cp == 0x2D2D || (0x2D30 <= cp && cp <= 0x2D67) || cp == 0x2D6F || (0x2D7F <= cp && cp <= 0x2D96)
}

/// Ranges 736..752 of `[\p{Ll}\p{Lm}\p{Lo}\p{M}]`.
pub open spec fn o200k_lower_block_46(cp: u32) -> bool {
    (0x2DA0 <= cp && cp <= 0x2DA6) || (0x2DA8 <= cp && cp <= 0x2DAE) || (0x2DB0 <= cp && cp <= 0x2DB6) || (0x2DB8 <= cp && cp <= 0x2DBE)
    || (0x2DC0 <= cp && cp <= 0x2DC6) || (0x2DC8 <= cp && cp <= 0x2DCE) || (0x2DD0 <= cp && cp <= 0x2DD6) || (0x2DD8 <= cp && cp <= 0x2DDE)
    || (0x2DE0 <= cp && cp <= 0x2DFF) || cp == 0x2E2F || (0x3005 <= cp && cp <= 0x3006) || (0x302A <= cp && cp <= 0x302F)
    || (0x3031 <= cp && cp <= 0x3035) || (0x303B <= cp && cp <= 0x303C) || (0x3041 <= cp && cp <= 0x3096) || (0x3099 <= cp && cp <= 0x309A)
}

/// Ranges 752..768 of `[\p{Ll}\p{Lm}\p{Lo}\p{M}]`.
pub open spec fn o200k_lower_block_47(cp: u32) -> bool {
    (0x309D <= cp && cp <= 0x309F) || (0x30A1 <= cp && cp <= 0x30FA) || (0x30FC <= cp && cp <= 0x30FF) || (0x3105 <= cp && cp <= 0x312F)
    || (0x3131 <= cp && cp <= 0x318E) || (0x31A0 <= cp && cp <= 0x31BF) || (0x31F0 <= cp && cp <= 0x31FF) || (0x3400 <= cp && cp <= 0x4DBF)
    || (0x4E00 <= cp && cp <= 0xA48C) || (0xA4D0 <= cp && cp <= 0xA4FD) || (0xA500 <= cp && cp <= 0xA60C) || (0xA610 <= cp && cp <= 0xA61F)
    || (0xA62A <= cp && cp <= 0xA62B) || cp == 0xA641 || cp == 0xA643 || cp == 0xA645
}

/// Ranges 768..784 of `[\p{Ll}\p{Lm}\p{Lo}\p{M}]`.
pub open spec fn o200k_lower_block_48(cp: u32) -> bool {
    cp == 0xA647 || cp == 0xA649 || cp == 0xA64B || cp == 0xA64D
    || cp == 0xA64F || cp == 0xA651 || cp == 0xA653 || cp == 0xA655
    || cp == 0xA657 || cp == 0xA659 || cp == 0xA65B || cp == 0xA65D
    || cp == 0xA65F || cp == 0xA661 || cp == 0xA663 || cp == 0xA665
}

/// Ranges 784..800 of `[\p{Ll}\p{Lm}\p{Lo}\p{M}]`.
pub open spec fn o200k_lower_block_49(cp: u32) -> bool {
    cp == 0xA667 || cp == 0xA669 || cp == 0xA66B || (0xA66D <= cp && cp <= 0xA672)
    || (0xA674 <= cp && cp <= 0xA67D) || cp == 0xA67F || cp == 0xA681 || cp == 0xA683
    || cp == 0xA685 || cp == 0xA687 || cp == 0xA689 || cp == 0xA68B
    || cp == 0xA68D || cp == 0xA68F || cp == 0xA691 || cp == 0xA693
}

/// Ranges 800..816 of `[\p{Ll}\p{Lm}\p{Lo}\p{M}]`.
pub open spec fn o200k_lower_block_50(cp: u32) -> bool {
    cp == 0xA695 || cp == 0xA697 || cp == 0xA699 || (0xA69B <= cp && cp <= 0xA6E5)
    || (0xA6F0 <= cp && cp <= 0xA6F1) || (0xA717 <= cp && cp <= 0xA71F) || cp == 0xA723 || cp == 0xA725
    || cp == 0xA727 || cp == 0xA729 || cp == 0xA72B || cp == 0xA72D
    || (0xA72F <= cp && cp <= 0xA731) || cp == 0xA733 || cp == 0xA735 || cp == 0xA737
}

/// Ranges 816..832 of `[\p{Ll}\p{Lm}\p{Lo}\p{M}]`.
pub open spec fn o200k_lower_block_51(cp: u32) -> bool {
    cp == 0xA739 || cp == 0xA73B || cp == 0xA73D || cp == 0xA73F
    || cp == 0xA741 || cp == 0xA743 || cp == 0xA745 || cp == 0xA747
    || cp == 0xA749 || cp == 0xA74B || cp == 0xA74D || cp == 0xA74F
    || cp == 0xA751 || cp == 0xA753 || cp == 0xA755 || cp == 0xA757
}

/// Ranges 832..848 of `[\p{Ll}\p{Lm}\p{Lo}\p{M}]`.
pub open spec fn o200k_lower_block_52(cp: u32) -> bool {
    cp == 0xA759 || cp == 0xA75B || cp == 0xA75D || cp == 0xA75F
    || cp == 0xA761 || cp == 0xA763 || cp == 0xA765 || cp == 0xA767
    || cp == 0xA769 || cp == 0xA76B || cp == 0xA76D || (0xA76F <= cp && cp <= 0xA778)
    || cp == 0xA77A || cp == 0xA77C || cp == 0xA77F || cp == 0xA781
}

/// Ranges 848..864 of `[\p{Ll}\p{Lm}\p{Lo}\p{M}]`.
pub open spec fn o200k_lower_block_53(cp: u32) -> bool {
    cp == 0xA783 || cp == 0xA785 || (0xA787 <= cp && cp <= 0xA788) || cp == 0xA78C
    || (0xA78E <= cp && cp <= 0xA78F) || cp == 0xA791 || (0xA793 <= cp && cp <= 0xA795) || cp == 0xA797
    || cp == 0xA799 || cp == 0xA79B || cp == 0xA79D || cp == 0xA79F
    || cp == 0xA7A1 || cp == 0xA7A3 || cp == 0xA7A5 || cp == 0xA7A7
}

/// Ranges 864..880 of `[\p{Ll}\p{Lm}\p{Lo}\p{M}]`.
pub open spec fn o200k_lower_block_54(cp: u32) -> bool {
    cp == 0xA7A9 || cp == 0xA7AF || cp == 0xA7B5 || cp == 0xA7B7
    || cp == 0xA7B9 || cp == 0xA7BB || cp == 0xA7BD || cp == 0xA7BF
    || cp == 0xA7C1 || cp == 0xA7C3 || cp == 0xA7C8 || cp == 0xA7CA
    || cp == 0xA7D1 || cp == 0xA7D3 || cp == 0xA7D5 || cp == 0xA7D7
}

/// Ranges 880..896 of `[\p{Ll}\p{Lm}\p{Lo}\p{M}]`.
pub open spec fn o200k_lower_block_55(cp: u32) -> bool {
    cp == 0xA7D9 || (0xA7F2 <= cp && cp <= 0xA7F4) || (0xA7F6 <= cp && cp <= 0xA827) || cp == 0xA82C
    || (0xA840 <= cp && cp <= 0xA873) || (0xA880 <= cp && cp <= 0xA8C5) || (0xA8E0 <= cp && cp <= 0xA8F7) || cp == 0xA8FB
    || (0xA8FD <= cp && cp <= 0xA8FF) || (0xA90A <= cp && cp <= 0xA92D) || (0xA930 <= cp && cp <= 0xA953) || (0xA960 <= cp && cp <= 0xA97C)
    || (0xA980 <= cp && cp <= 0xA9C0) || cp == 0xA9CF || (0xA9E0 <= cp && cp <= 0xA9EF) || (0xA9FA <= cp && cp <= 0xA9FE)
}

/// Ranges 896..912 of `[\p{Ll}\p{Lm}\p{Lo}\p{M}]`.
pub open spec fn o200k_lower_block_56(cp: u32) -> bool {
    (0xAA00 <= cp && cp <= 0xAA36) || (0xAA40 <= cp && cp <= 0xAA4D) || (0xAA60 <= cp && cp <= 0xAA76) || (0xAA7A <= cp && cp <= 0xAAC2)
    || (0xAADB <= cp && cp <= 0xAADD) || (0xAAE0 <= cp && cp <= 0xAAEF) || (0xAAF2 <= cp && cp <= 0xAAF6) || (0xAB01 <= cp && cp <= 0xAB06)
    || (0xAB09 <= cp && cp <= 0xAB0E) || (0xAB11 <= cp && cp <= 0xAB16) || (0xAB20 <= cp && cp <= 0xAB26) || (0xAB28 <= cp && cp <= 0xAB2E)
    || (0xAB30 <= cp && cp <= 0xAB5A) || (0xAB5C <= cp && cp <= 0xAB69) || (0xAB70 <= cp && cp <= 0xABEA) || (0xABEC <= cp && cp <= 0xABED)
}

/// Ranges 912..928 of `[\p{Ll}\p{Lm}\p{Lo}\p{M}]`.
pub open spec fn o200k_lower_block_57(cp: u32) -> bool {
    (0xAC00 <= cp && cp <= 0xD7A3) || (0xD7B0 <= cp && cp <= 0xD7C6) || (0xD7CB <= cp && cp <= 0xD7FB) || (0xF900 <= cp && cp <= 0xFA6D)
    || (0xFA70 <= cp && cp <= 0xFAD9) || (0xFB00 <= cp && cp <= 0xFB06) || (0xFB13 <= cp && cp <= 0xFB17) || (0xFB1D <= cp && cp <= 0xFB28)
    || (0xFB2A <= cp && cp <= 0xFB36) || (0xFB38 <= cp && cp <= 0xFB3C) || cp == 0xFB3E || (0xFB40 <= cp && cp <= 0xFB41)
    || (0xFB43 <= cp && cp <= 0xFB44) || (0xFB46 <= cp && cp <= 0xFBB1) || (0xFBD3 <= cp && cp <= 0xFD3D) || (0xFD50 <= cp && cp <= 0xFD8F)
}

/// Ranges 928..944 of `[\p{Ll}\p{Lm}\p{Lo}\p{M}]`.
pub open spec fn o200k_lower_block_58(cp: u32) -> bool {
    (0xFD92 <= cp && cp <= 0xFDC7) || (0xFDF0 <= cp && cp <= 0xFDFB) || (0xFE00 <= cp && cp <= 0xFE0F) || (0xFE20 <= cp && cp <= 0xFE2F)
    || (0xFE70 <= cp && cp <= 0xFE74) || (0xFE76 <= cp && cp <= 0xFEFC) || (0xFF41 <= cp && cp <= 0xFF5A) || (0xFF66 <= cp && cp <= 0xFFBE)
    || (0xFFC2 <= cp && cp <= 0xFFC7) || (0xFFCA <= cp && cp <= 0xFFCF) || (0xFFD2 <= cp && cp <= 0xFFD7) || (0xFFDA <= cp && cp <= 0xFFDC)
    || (0x10000 <= cp && cp <= 0x1000B) || (0x1000D <= cp && cp <= 0x10026) || (0x10028 <= cp && cp <= 0x1003A) || (0x1003C <= cp && cp <= 0x1003D)
}

/// Ranges 944..960 of `[\p{Ll}\p{Lm}\p{Lo}\p{M}]`.
pub open spec fn o200k_lower_block_59(cp: u32) -> bool {
    (0x1003F <= cp && cp <= 0x1004D) || (0x10050 <= cp && cp <= 0x1005D) || (0x10080 <= cp && cp <= 0x100FA) || cp == 0x101FD
    || (0x10280 <= cp && cp <= 0x1029C) || (0x102A0 <= cp && cp <= 0x102D0) || cp == 0x102E0 || (0x10300 <= cp && cp <= 0x1031F)
    || (0x1032D <= cp && cp <= 0x10340) || (0x10342 <= cp && cp <= 0x10349) || (0x10350 <= cp && cp <= 0x1037A) || (0x10380 <= cp && cp <= 0x1039D)
    || (0x103A0 <= cp && cp <= 0x103C3) || (0x103C8 <= cp && cp <= 0x103CF) || (0x10428 <= cp && cp <= 0x1049D) || (0x104D8 <= cp && cp <= 0x104FB)
}

/// Ranges 960..976 of `[\p{Ll}\p{Lm}\p{Lo}\p{M}]`.
pub open spec fn o200k_lower_block_60(cp: u32) -> bool {
    (0x10500 <= cp && cp <= 0x10527) || (0x10530 <= cp && cp <= 0x10563) || (0x10597 <= cp && cp <= 0x105A1) || (0x105A3 <= cp && cp <= 0x105B1)
    || (0x105B3 <= cp && cp <= 0x105B9) || (0x105BB <= cp && cp <= 0x105BC) || (0x10600 <= cp && cp <= 0x10736) || (0x10740 <= cp && cp <= 0x10755)
    || (0x10760 <= cp && cp <= 0x10767) || (0x10780 <= cp && cp <= 0x10785) || (0x10787 <= cp && cp <= 0x107B0) || (0x107B2 <= cp && cp <= 0x107BA)
    || (0x10800 <= cp && cp <= 0x10805) || cp == 0x10808 || (0x1080A <= cp && cp <= 0x10835) || (0x10837 <= cp && cp <= 0x10838)
}

/// Ranges 976..992 of `[\p{Ll}\p{Lm}\p{Lo}\p{M}]`.
pub open spec fn o200k_lower_block_61(cp: u32) -> bool {
    cp == 0x1083C || (0x1083F <= cp && cp <= 0x10855) || (0x10860 <= cp && cp <= 0x10876) || (0x10880 <= cp && cp <= 0x1089E)
    || (0x108E0 <= cp && cp <= 0x108F2) || (0x108F4 <= cp && cp <= 0x108F5) || (0x10900 <= cp && cp <= 0x10915) || (0x10920 <= cp && cp <= 0x10939)
    || (0x10980 <= cp && cp <= 0x109B7) || (0x109BE <= cp && cp <= 0x109BF) || (0x10A00 <= cp && cp <= 0x10A03) || (0x10A05 <= cp && cp <= 0x10A06)
    || (0x10A0C <= cp && cp <= 0x10A13) || (0x10A15 <= cp && cp <= 0x10A17) || (0x10A19 <= cp && cp <= 0x10A35) || (0x10A38 <= cp && cp <= 0x10A3A)
}

/// Ranges 992..1008 of `[\p{Ll}\p{Lm}\p{Lo}\p{M}]`.
pub open spec fn o200k_lower_block_62(cp: u32) -> bool {
    cp == 0x10A3F || (0x10A60 <= cp && cp <= 0x10A7C) || (0x10A80 <= cp && cp <= 0x10A9C) || (0x10AC0 <= cp && cp <= 0x10AC7)
    || (0x10AC9 <= cp && cp <= 0x10AE6) || (0x10B00 <= cp && cp <= 0x10B35) || (0x10B40 <= cp && cp <= 0x10B55) || (0x10B60 <= cp && cp <= 0x10B72)
    || (0x10B80 <= cp && cp <= 0x10B91) || (0x10C00 <= cp && cp <= 0x10C48) || (0x10CC0 <= cp && cp <= 0x10CF2) || (0x10D00 <= cp && cp <= 0x10D27)
    || (0x10E80 <= cp && cp <= 0x10EA9) || (0x10EAB <= cp && cp <= 0x10EAC) || (0x10EB0 <= cp && cp <= 0x10EB1) || (0x10F00 <= cp && cp <= 0x10F1C)
}

/// Ranges 1008..1024 of `[\p{Ll}\p{Lm}\p{Lo}\p{M}]`.
pub open spec fn o200k_lower_block_63(cp: u32) -> bool {
    cp == 0x10F27 || (0x10F30 <= cp && cp <= 0x10F50) || (0x10F70 <= cp && cp <= 0x10F85) || (0x10FB0 <= cp && cp <= 0x10FC4)
    || (0x10FE0 <= cp && cp <= 0x10FF6) || (0x11000 <= cp && cp <= 0x11046) || (0x11070 <= cp && cp <= 0x11075) || (0x1107F <= cp && cp <= 0x110BA)
    || cp == 0x110C2 || (0x110D0 <= cp && cp <= 0x110E8) || (0x11100 <= cp && cp <= 0x11134) || (0x11144 <= cp && cp <= 0x11147)
    || (0x11150 <= cp && cp <= 0x11173) || cp == 0x11176 || (0x11180 <= cp && cp <= 0x111C4) || (0x111C9 <= cp && cp <= 0x111CC)
}

/// Ranges 1024..1040 of `[\p{Ll}\p{Lm}\p{Lo}\p{M}]`.
pub open spec fn o200k_lower_block_64(cp: u32) -> bool {
    (0x111CE <= cp && cp <= 0x111CF) || cp == 0x111DA || cp == 0x111DC || (0x11200 <= cp && cp <= 0x11211)
    || (0x11213 <= cp && cp <= 0x11237) || cp == 0x1123E || (0x11280 <= cp && cp <= 0x11286) || cp == 0x11288
    || (0x1128A <= cp && cp <= 0x1128D) || (0x1128F <= cp && cp <= 0x1129D) || (0x1129F <= cp && cp <= 0x112A8) || (0x112B0 <= cp && cp <= 0x112EA)
    || (0x11300 <= cp && cp <= 0x11303) || (0x11305 <= cp && cp <= 0x1130C) || (0x1130F <= cp && cp <= 0x11310) || (0x11313 <= cp && cp <= 0x11328)
}

/// Ranges 1040..1056 of `[\p{Ll}\p{Lm}\p{Lo}\p{M}]`.
pub open spec fn o200k_lower_block_65(cp: u32) -> bool {
    (0x1132A <= cp && cp <= 0x11330) || (0x11332 <= cp && cp <= 0x11333) || (0x11335 <= cp && cp <= 0x11339) || (0x1133B <= cp && cp <= 0x11344)
    || (0x11347 <= cp && cp <= 0x11348) || (0x1134B <= cp && cp <= 0x1134D) || cp == 0x11350 || cp == 0x11357
    || (0x1135D <= cp && cp <= 0x11363) || (0x11366 <= cp && cp <= 0x1136C) || (0x11370 <= cp && cp <= 0x11374) || (0x11400 <= cp && cp <= 0x1144A)
    || (0x1145E <= cp && cp <= 0x11461) || (0x11480 <= cp && cp <= 0x114C5) || cp == 0x114C7 || (0x11580 <= cp && cp <= 0x115B5)
}

/// Ranges 1056..1072 of `[\p{Ll}\p{Lm}\p{Lo}\p{M}]`.
pub open spec fn o200k_lower_block_66(cp: u32) -> bool {
    (0x115B8 <= cp && cp <= 0x115C0) || (0x115D8 <= cp && cp <= 0x115DD) || (0x11600 <= cp && cp <= 0x11640) || cp == 0x11644
    || (0x11680 <= cp && cp <= 0x116B8) || (0x11700 <= cp && cp <= 0x1171A) || (0x1171D <= cp && cp <= 0x1172B) || (0x11740 <= cp && cp <= 0x11746)
    || (0x11800 <= cp && cp <= 0x1183A) || (0x118C0 <= cp && cp <= 0x118DF) || (0x118FF <= cp && cp <= 0x11906) || cp == 0x11909
    || (0x1190C <= cp && cp <= 0x11913) || (0x11915 <= cp && cp <= 0x11916) || (0x11918 <= cp && cp <= 0x11935) || (0x11937 <= cp && cp <= 0x11938)
}

/// Ranges 1072..1088 of `[\p{Ll}\p{Lm}\p{Lo}\p{M}]`.
pub open spec fn o200k_lower_block_67(cp: u32) -> bool {
    (0x1193B <= cp && cp <= 0x11943) || (0x119A0 <= cp && cp <= 0x119A7) || (0x119AA <= cp && cp <= 0x119D7) || (0x119DA <= cp && cp <= 0x119E1)
    || (0x119E3 <= cp && cp <= 0x119E4) || (0x11A00 <= cp && cp <= 0x11A3E) || cp == 0x11A47 || (0x11A50 <= cp && cp <= 0x11A99)
    || cp == 0x11A9D || (0x11AB0 <= cp && cp <= 0x11AF8) || (0x11C00 <= cp && cp <= 0x11C08) || (0x11C0A <= cp && cp <= 0x11C36)
    || (0x11C38 <= cp && cp <= 0x11C40) || (0x11C72 <= cp && cp <= 0x11C8F) || (0x11C92 <= cp && cp <= 0x11CA7) || (0x11CA9 <= cp && cp <= 0x11CB6)
}

/// Ranges 1088..1104 of `[\p{Ll}\p{Lm}\p{Lo}\p{M}]`.
pub open spec fn o200k_lower_block_68(cp: u32) -> bool {
    (0x11D00 <= cp && cp <= 0x11D06) || (0x11D08 <= cp && cp <= 0x11D09) || (0x11D0B <= cp && cp <= 0x11D36) || cp == 0x11D3A
    || (0x11D3C <= cp && cp <= 0x11D3D) || (0x11D3F <= cp && cp <= 0x11D47) || (0x11D60 <= cp && cp <= 0x11D65) || (0x11D67 <= cp && cp <= 0x11D68)
    || (0x11D6A <= cp && cp <= 0x11D8E) || (0x11D90 <= cp && cp <= 0x11D91) || (0x11D93 <= cp && cp <= 0x11D98) || (0x11EE0 <= cp && cp <= 0x11EF6)
    || cp == 0x11FB0 || (0x12000 <= cp && cp <= 0x12399) || (0x12480 <= cp && cp <= 0x12543) || (0x12F90 <= cp && cp <= 0x12FF0)
}

/// Ranges 1104..1120 of `[\p{Ll}\p{Lm}\p{Lo}\p{M}]`.
pub open spec fn o200k_lower_block_69(cp: u32) -> bool {
    (0x13000 <= cp && cp <= 0x1342E) || (0x14400 <= cp && cp <= 0x14646) || (0x16800 <= cp && cp <= 0x16A38) || (0x16A40 <= cp && cp <= 0x16A5E)
    || (0x16A70 <= cp && cp <= 0x16ABE) || (0x16AD0 <= cp && cp <= 0x16AED) || (0x16AF0 <= cp && cp <= 0x16AF4) || (0x16B00 <= cp && cp <= 0x16B36)
    || (0x16B40 <= cp && cp <= 0x16B43) || (0x16B63 <= cp && cp <= 0x16B77) || (0x16B7D <= cp && cp <= 0x16B8F) || (0x16E60 <= cp && cp <= 0x16E7F)
    || (0x16F00 <= cp && cp <= 0x16F4A) || (0x16F4F <= cp && cp <= 0x16F87) || (0x16F8F <= cp && cp <= 0x16F9F) || (0x16FE0 <= cp && cp <= 0x16FE1)
}

/// Ranges 1120..1136 of `[\p{Ll}\p{Lm}\p{Lo}\p{M}]`.
pub open spec fn o200k_lower_block_70(cp: u32) -> bool {
    (0x16FE3 <= cp && cp <= 0x16FE4) || (0x16FF0 <= cp && cp <= 0x16FF1) || (0x17000 <= cp && cp <= 0x187F7) || (0x18800 <= cp && cp <= 0x18CD5)
    || (0x18D00 <= cp && cp <= 0x18D08) || (0x1AFF0 <= cp && cp <= 0x1AFF3) || (0x1AFF5 <= cp && cp <= 0x1AFFB) || (0x1AFFD <= cp && cp <= 0x1AFFE)
    || (0x1B000 <= cp && cp <= 0x1B122) || (0x1B150 <= cp && cp <= 0x1B152) || (0x1B164 <= cp && cp <= 0x1B167) || (0x1B170 <= cp && cp <= 0x1B2FB)
    || (0x1BC00 <= cp && cp <= 0x1BC6A) || (0x1BC70 <= cp && cp <= 0x1BC7C) || (0x1BC80 <= cp && cp <= 0x1BC88) || (0x1BC90 <= cp && cp <= 0x1BC99)
}

/// Ranges 1136..1152 of `[\p{Ll}\p{Lm}\p{Lo}\p{M}]`.
pub open spec fn o200k_lower_block_71(cp: u32) -> bool {
    (0x1BC9D <= cp && cp <= 0x1BC9E) || (0x1CF00 <= cp && cp <= 0x1CF2D) || (0x1CF30 <= cp && cp <= 0x1CF46) || (0x1D165 <= cp && cp <= 0x1D169)
    || (0x1D16D <= cp && cp <= 0x1D172) || (0x1D17B <= cp && cp <= 0x1D182) || (0x1D185 <= cp && cp <= 0x1D18B) || (0x1D1AA <= cp && cp <= 0x1D1AD)
    || (0x1D242 <= cp && cp <= 0x1D244) || (0x1D41A <= cp && cp <= 0x1D433) || (0x1D44E <= cp && cp <= 0x1D454) || (0x1D456 <= cp && cp <= 0x1D467)
    || (0x1D482 <= cp && cp <= 0x1D49B) || (0x1D4B6 <= cp && cp <= 0x1D4B9) || cp == 0x1D4BB || (0x1D4BD <= cp && cp <= 0x1D4C3)
}

/// Ranges 1152..1168 of `[\p{Ll}\p{Lm}\p{Lo}\p{M}]`.
pub open spec fn o200k_lower_block_72(cp: u32) -> bool {
    (0x1D4C5 <= cp && cp <= 0x1D4CF) || (0x1D4EA <= cp && cp <= 0x1D503) || (0x1D51E <= cp && cp <= 0x1D537) || (0x1D552 <= cp && cp <= 0x1D56B)
    || (0x1D586 <= cp && cp <= 0x1D59F) || (0x1D5BA <= cp && cp <= 0x1D5D3) || (0x1D5EE <= cp && cp <= 0x1D607) || (0x1D622 <= cp && cp <= 0x1D63B)
    || (0x1D656 <= cp && cp <= 0x1D66F) || (0x1D68A <= cp && cp <= 0x1D6A5) || (0x1D6C2 <= cp && cp <= 0x1D6DA) || (0x1D6DC <= cp && cp <= 0x1D6E1)
    || (0x1D6FC <= cp && cp <= 0x1D714) || (0x1D716 <= cp && cp <= 0x1D71B) || (0x1D736 <= cp && cp <= 0x1D74E) || (0x1D750 <= cp && cp <= 0x1D755)
}

/// Ranges 1168..1184 of `[\p{Ll}\p{Lm}\p{Lo}\p{M}]`.
pub open spec fn o200k_lower_block_73(cp: u32) -> bool {
    (0x1D770 <= cp && cp <= 0x1D788) || (0x1D78A <= cp && cp <= 0x1D78F) || (0x1D7AA <= cp && cp <= 0x1D7C2) || (0x1D7C4 <= cp && cp <= 0x1D7C9)
    || cp == 0x1D7CB || (0x1DA00 <= cp && cp <= 0x1DA36) || (0x1DA3B <= cp && cp <= 0x1DA6C) || cp == 0x1DA75
    || cp == 0x1DA84 || (0x1DA9B <= cp && cp <= 0x1DA9F) || (0x1DAA1 <= cp && cp <= 0x1DAAF) || (0x1DF00 <= cp && cp <= 0x1DF1E)
    || (0x1E000 <= cp && cp <= 0x1E006) || (0x1E008 <= cp && cp <= 0x1E018) || (0x1E01B <= cp && cp <= 0x1E021) || (0x1E023 <= cp && cp <= 0x1E024)
}

/// Ranges 1184..1200 of `[\p{Ll}\p{Lm}\p{Lo}\p{M}]`.
pub open spec fn o200k_lower_block_74(cp: u32) -> bool {
    (0x1E026 <= cp && cp <= 0x1E02A) || (0x1E100 <= cp && cp <= 0x1E12C) || (0x1E130 <= cp && cp <= 0x1E13D) || cp == 0x1E14E
    || (0x1E290 <= cp && cp <= 0x1E2AE) || (0x1E2C0 <= cp && cp <= 0x1E2EF) || (0x1E7E0 <= cp && cp <= 0x1E7E6) || (0x1E7E8 <= cp && cp <= 0x1E7EB)
    || (0x1E7ED <= cp && cp <= 0x1E7EE) || (0x1E7F0 <= cp && cp <= 0x1E7FE) || (0x1E800 <= cp && cp <= 0x1E8C4) || (0x1E8D0 <= cp && cp <= 0x1E8D6)
    || (0x1E922 <= cp && cp <= 0x1E94B) || (0x1EE00 <= cp && cp <= 0x1EE03) || (0x1EE05 <= cp && cp <= 0x1EE1F) || (0x1EE21 <= cp && cp <= 0x1EE22)
}

/// Ranges 1200..1216 of `[\p{Ll}\p{Lm}\p{Lo}\p{M}]`.
pub open spec fn o200k_lower_block_75(cp: u32) -> bool {
    cp == 0x1EE24 || cp == 0x1EE27 || (0x1EE29 <= cp && cp <= 0x1EE32) || (0x1EE34 <= cp && cp <= 0x1EE37)
    || cp == 0x1EE39 || cp == 0x1EE3B || cp == 0x1EE42 || cp == 0x1EE47
    || cp == 0x1EE49 || cp == 0x1EE4B || (0x1EE4D <= cp && cp <= 0x1EE4F) || (0x1EE51 <= cp && cp <= 0x1EE52)
    || cp == 0x1EE54 || cp == 0x1EE57 || cp == 0x1EE59 || cp == 0x1EE5B
}

/// Ranges 1216..1232 of `[\p{Ll}\p{Lm}\p{Lo}\p{M}]`.
pub open spec fn o200k_lower_block_76(cp: u32) -> bool {
    cp == 0x1EE5D || cp == 0x1EE5F || (0x1EE61 <= cp && cp <= 0x1EE62) || cp == 0x1EE64
    || (0x1EE67 <= cp && cp <= 0x1EE6A) || (0x1EE6C <= cp && cp <= 0x1EE72) || (0x1EE74 <= cp && cp <= 0x1EE77) || (0x1EE79 <= cp && cp <= 0x1EE7C)
    || cp == 0x1EE7E || (0x1EE80 <= cp && cp <= 0x1EE89) || (0x1EE8B <= cp && cp <= 0x1EE9B) || (0x1EEA1 <= cp && cp <= 0x1EEA3)
    || (0x1EEA5 <= cp && cp <= 0x1EEA9) || (0x1EEAB <= cp && cp <= 0x1EEBB) || (0x20000 <= cp && cp <= 0x2A6DF) || (0x2A700 <= cp && cp <= 0x2B738)
}

/// Ranges 1232..1238 of `[\p{Ll}\p{Lm}\p{Lo}\p{M}]`.
pub open spec fn o200k_lower_block_77(cp: u32) -> bool {
    (0x2B740 <= cp && cp <= 0x2B81D) || (0x2B820 <= cp && cp <= 0x2CEA1) || (0x2CEB0 <= cp && cp <= 0x2EBE0) || (0x2F800 <= cp && cp <= 0x2FA1D)
    || (0x30000 <= cp && cp <= 0x3134A) || (0xE0100 <= cp && cp <= 0xE01EF)
}

/// Membership in `[\p{Ll}\p{Lm}\p{Lo}\p{M}]` (1238 ranges).
pub open spec fn o200k_lower_class(cp: u32) -> bool {
    o200k_lower_block_0(cp) || o200k_lower_block_1(cp) || o200k_lower_block_2(cp) || o200k_lower_block_3(cp)
    || o200k_lower_block_4(cp) || o200k_lower_block_5(cp) || o200k_lower_block_6(cp) || o200k_lower_block_7(cp)
    || o200k_lower_block_8(cp) || o200k_lower_block_9(cp) || o200k_lower_block_10(cp) || o200k_lower_block_11(cp)
    || o200k_lower_block_12(cp) || o200k_lower_block_13(cp) || o200k_lower_block_14(cp) || o200k_lower_block_15(cp)
    || o200k_lower_block_16(cp) || o200k_lower_block_17(cp) || o200k_lower_block_18(cp) || o200k_lower_block_19(cp)
    || o200k_lower_block_20(cp) || o200k_lower_block_21(cp) || o200k_lower_block_22(cp) || o200k_lower_block_23(cp)
    || o200k_lower_block_24(cp) || o200k_lower_block_25(cp) || o200k_lower_block_26(cp) || o200k_lower_block_27(cp)
    || o200k_lower_block_28(cp) || o200k_lower_block_29(cp) || o200k_lower_block_30(cp) || o200k_lower_block_31(cp)
    || o200k_lower_block_32(cp) || o200k_lower_block_33(cp) || o200k_lower_block_34(cp) || o200k_lower_block_35(cp)
    || o200k_lower_block_36(cp) || o200k_lower_block_37(cp) || o200k_lower_block_38(cp) || o200k_lower_block_39(cp)
    || o200k_lower_block_40(cp) || o200k_lower_block_41(cp) || o200k_lower_block_42(cp) || o200k_lower_block_43(cp)
    || o200k_lower_block_44(cp) || o200k_lower_block_45(cp) || o200k_lower_block_46(cp) || o200k_lower_block_47(cp)
    || o200k_lower_block_48(cp) || o200k_lower_block_49(cp) || o200k_lower_block_50(cp) || o200k_lower_block_51(cp)
    || o200k_lower_block_52(cp) || o200k_lower_block_53(cp) || o200k_lower_block_54(cp) || o200k_lower_block_55(cp)
    || o200k_lower_block_56(cp) || o200k_lower_block_57(cp) || o200k_lower_block_58(cp) || o200k_lower_block_59(cp)
    || o200k_lower_block_60(cp) || o200k_lower_block_61(cp) || o200k_lower_block_62(cp) || o200k_lower_block_63(cp)
    || o200k_lower_block_64(cp) || o200k_lower_block_65(cp) || o200k_lower_block_66(cp) || o200k_lower_block_67(cp)
    || o200k_lower_block_68(cp) || o200k_lower_block_69(cp) || o200k_lower_block_70(cp) || o200k_lower_block_71(cp)
    || o200k_lower_block_72(cp) || o200k_lower_block_73(cp) || o200k_lower_block_74(cp) || o200k_lower_block_75(cp)
    || o200k_lower_block_76(cp) || o200k_lower_block_77(cp)
}

/// Executable membership in `[\p{Ll}\p{Lm}\p{Lo}\p{M}]`.
pub fn o200k_lower_cp(cp: u32) -> (r: bool)
    ensures
        r == o200k_lower_class(cp),
{
    if cp < 0x1EEB {
        if cp < 0x8E3 {
            if cp < 0x24B {
                if cp < 0x177 {
                    if cp < 0x135 {
                        if cp < 0x115 {
                            (0x61 <= cp && cp <= 0x7A) || cp == 0xAA || cp == 0xB5 || cp == 0xBA
                                || (0xDF <= cp && cp <= 0xF6) || (0xF8 <= cp && cp <= 0xFF) || cp == 0x101 || cp == 0x103
                                || cp == 0x105 || cp == 0x107 || cp == 0x109 || cp == 0x10B
                                || cp == 0x10D || cp == 0x10F || cp == 0x111 || cp == 0x113
                        } else {
                            cp == 0x115 || cp == 0x117 || cp == 0x119 || cp == 0x11B
                                || cp == 0x11D || cp == 0x11F || cp == 0x121 || cp == 0x123
                                || cp == 0x125 || cp == 0x127 || cp == 0x129 || cp == 0x12B
                                || cp == 0x12D || cp == 0x12F || cp == 0x131 || cp == 0x133
                        }
                    } else {
                        if cp < 0x157 {
                            cp == 0x135 || (0x137 <= cp && cp <= 0x138) || cp == 0x13A || cp == 0x13C
                                || cp == 0x13E || cp == 0x140 || cp == 0x142 || cp == 0x144
                                || cp == 0x146 || (0x148 <= cp && cp <= 0x149) || cp == 0x14B || cp == 0x14D
                                || cp == 0x14F || cp == 0x151 || cp == 0x153 || cp == 0x155
                        } else {
                            cp == 0x157 || cp == 0x159 || cp == 0x15B || cp == 0x15D
                                || cp == 0x15F || cp == 0x161 || cp == 0x163 || cp == 0x165
                                || cp == 0x167 || cp == 0x169 || cp == 0x16B || cp == 0x16D
                                || cp == 0x16F || cp == 0x171 || cp == 0x173 || cp == 0x175
                        }
                    }
                } else {
                    if cp < 0x1DA {
                        if cp < 0x1AA {
                            cp == 0x177 || cp == 0x17A || cp == 0x17C || (0x17E <= cp && cp <= 0x180)
                                || cp == 0x183 || cp == 0x185 || cp == 0x188 || (0x18C <= cp && cp <= 0x18D)
                                || cp == 0x192 || cp == 0x195 || (0x199 <= cp && cp <= 0x19B) || cp == 0x19E
                                || cp == 0x1A1 || cp == 0x1A3 || cp == 0x1A5 || cp == 0x1A8
                        } else {
                            (0x1AA <= cp && cp <= 0x1AB) || cp == 0x1AD || cp == 0x1B0 || cp == 0x1B4
                                || cp == 0x1B6 || (0x1B9 <= cp && cp <= 0x1BB) || (0x1BD <= cp && cp <= 0x1C3) || cp == 0x1C6
                                || cp == 0x1C9 || cp == 0x1CC || cp == 0x1CE || cp == 0x1D0
                                || cp == 0x1D2 || cp == 0x1D4 || cp == 0x1D6 || cp == 0x1D8
                        }
                    } else {
                        if cp < 0x1FF {
                            cp == 0x1DA || (0x1DC <= cp && cp <= 0x1DD) || cp == 0x1DF || cp == 0x1E1
                                || cp == 0x1E3 || cp == 0x1E5 || cp == 0x1E7 || cp == 0x1E9
                                || cp == 0x1EB || cp == 0x1ED || (0x1EF <= cp && cp <= 0x1F0) || cp == 0x1F3
                                || cp == 0x1F5 || cp == 0x1F9 || cp == 0x1FB || cp == 0x1FD
                        } else {
                            if cp < 0x21F {
                                cp == 0x1FF || cp == 0x201 || cp == 0x203 || cp == 0x205
                                    || cp == 0x207 || cp == 0x209 || cp == 0x20B || cp == 0x20D
                                    || cp == 0x20F || cp == 0x211 || cp == 0x213 || cp == 0x215
                                    || cp == 0x217 || cp == 0x219 || cp == 0x21B || cp == 0x21D
                            } else {
                                cp == 0x21F || cp == 0x221 || cp == 0x223 || cp == 0x225
                                    || cp == 0x227 || cp == 0x229 || cp == 0x22B || cp == 0x22D
                                    || cp == 0x22F || cp == 0x231 || (0x233 <= cp && cp <= 0x239) || cp == 0x23C
                                    || (0x23F <= cp && cp <= 0x240) || cp == 0x242 || cp == 0x247 || cp == 0x249
                            }
                        }
                    }
                }
            } else {
                if cp < 0x4C8 {
                    if cp < 0x461 {
                        if cp < 0x3D9 {
                            cp == 0x24B || cp == 0x24D || (0x24F <= cp && cp <= 0x2C1) || (0x2C6 <= cp && cp <= 0x2D1)
                                || (0x2E0 <= cp && cp <= 0x2E4) || cp == 0x2EC || cp == 0x2EE || (0x300 <= cp && cp <= 0x36F)
                                || cp == 0x371 || (0x373 <= cp && cp <= 0x374) || cp == 0x377 || (0x37A <= cp && cp <= 0x37D)
                                || cp == 0x390 || (0x3AC <= cp && cp <= 0x3CE) || (0x3D0 <= cp && cp <= 0x3D1) || (0x3D5 <= cp && cp <= 0x3D7)
                        } else {
                            cp == 0x3D9 || cp == 0x3DB || cp == 0x3DD || cp == 0x3DF
                                || cp == 0x3E1 || cp == 0x3E3 || cp == 0x3E5 || cp == 0x3E7
                                || cp == 0x3E9 || cp == 0x3EB || cp == 0x3ED || (0x3EF <= cp && cp <= 0x3F3)
                                || cp == 0x3F5 || cp == 0x3F8 || (0x3FB <= cp && cp <= 0x3FC) || (0x430 <= cp && cp <= 0x45F)
                        }
                    } else {
                        if cp < 0x481 {
                            cp == 0x461 || cp == 0x463 || cp == 0x465 || cp == 0x467
                                || cp == 0x469 || cp == 0x46B || cp == 0x46D || cp == 0x46F
                                || cp == 0x471 || cp == 0x473 || cp == 0x475 || cp == 0x477
                                || cp == 0x479 || cp == 0x47B || cp == 0x47D || cp == 0x47F
                        } else {
                            if cp < 0x4A7 {
                                cp == 0x481 || (0x483 <= cp && cp <= 0x489) || cp == 0x48B || cp == 0x48D
                                    || cp == 0x48F || cp == 0x491 || cp == 0x493 || cp == 0x495
                                    || cp == 0x497 || cp == 0x499 || cp == 0x49B || cp == 0x49D
                                    || cp == 0x49F || cp == 0x4A1 || cp == 0x4A3 || cp == 0x4A5
                            } else {
                                cp == 0x4A7 || cp == 0x4A9 || cp == 0x4AB || cp == 0x4AD
                                    || cp == 0x4AF || cp == 0x4B1 || cp == 0x4B3 || cp == 0x4B5
                                    || cp == 0x4B7 || cp == 0x4B9 || cp == 0x4BB || cp == 0x4BD
                                    || cp == 0x4BF || cp == 0x4C2 || cp == 0x4C4 || cp == 0x4C6
                            }
                        }
                    }
                } else {
                    if cp < 0x509 {
                        if cp < 0x4E9 {
                            cp == 0x4C8 || cp == 0x4CA || cp == 0x4CC || (0x4CE <= cp && cp <= 0x4CF)
                                || cp == 0x4D1 || cp == 0x4D3 || cp == 0x4D5 || cp == 0x4D7
                                || cp == 0x4D9 || cp == 0x4DB || cp == 0x4DD || cp == 0x4DF
                                || cp == 0x4E1 || cp == 0x4E3 || cp == 0x4E5 || cp == 0x4E7
                        } else {
                            cp == 0x4E9 || cp == 0x4EB || cp == 0x4ED || cp == 0x4EF
                                || cp == 0x4F1 || cp == 0x4F3 || cp == 0x4F5 || cp == 0x4F7
                                || cp == 0x4F9 || cp == 0x4FB || cp == 0x4FD || cp == 0x4FF
                                || cp == 0x501 || cp == 0x503 || cp == 0x505 || cp == 0x507
                        }
                    } else {
                        if cp < 0x529 {
                            cp == 0x509 || cp == 0x50B || cp == 0x50D || cp == 0x50F
                                || cp == 0x511 || cp == 0x513 || cp == 0x515 || cp == 0x517
                                || cp == 0x519 || cp == 0x51B || cp == 0x51D || cp == 0x51F
                                || cp == 0x521 || cp == 0x523 || cp == 0x525 || cp == 0x527
                        } else {
                            if cp < 0x6D5 {
                                cp == 0x529 || cp == 0x52B || cp == 0x52D || cp == 0x52F
                                    || cp == 0x559 || (0x560 <= cp && cp <= 0x588) || (0x591 <= cp && cp <= 0x5BD) || cp == 0x5BF
                                    || (0x5C1 <= cp && cp <= 0x5C2) || (0x5C4 <= cp && cp <= 0x5C5) || cp == 0x5C7 || (0x5D0 <= cp && cp <= 0x5EA)
                                    || (0x5EF <= cp && cp <= 0x5F2) || (0x610 <= cp && cp <= 0x61A) || (0x620 <= cp && cp <= 0x65F) || (0x66E <= cp && cp <= 0x6D3)
                            } else {
                                (0x6D5 <= cp && cp <= 0x6DC) || (0x6DF <= cp && cp <= 0x6E8) || (0x6EA <= cp && cp <= 0x6EF) || (0x6FA <= cp && cp <= 0x6FC)
                                    || cp == 0x6FF || (0x710 <= cp && cp <= 0x74A) || (0x74D <= cp && cp <= 0x7B1) || (0x7CA <= cp && cp <= 0x7F5)
                                    || cp == 0x7FA || cp == 0x7FD || (0x800 <= cp && cp <= 0x82D) || (0x840 <= cp && cp <= 0x85B)
                                    || (0x860 <= cp && cp <= 0x86A) || (0x870 <= cp && cp <= 0x887) || (0x889 <= cp && cp <= 0x88E) || (0x898 <= cp && cp <= 0x8E1)
                            }
                        }
                    }
                }
            }
        } else {
            if cp < 0x1318 {
                if cp < 0xC46 {
                    if cp < 0xA70 {
                        if cp < 0x9FE {
                            (0x8E3 <= cp && cp <= 0x963) || (0x971 <= cp && cp <= 0x983) || (0x985 <= cp && cp <= 0x98C) || (0x98F <= cp && cp <= 0x990)
                                || (0x993 <= cp && cp <= 0x9A8) || (0x9AA <= cp && cp <= 0x9B0) || cp == 0x9B2 || (0x9B6 <= cp && cp <= 0x9B9)
                                || (0x9BC <= cp && cp <= 0x9C4) || (0x9C7 <= cp && cp <= 0x9C8) || (0x9CB <= cp && cp <= 0x9CE) || cp == 0x9D7
                                || (0x9DC <= cp && cp <= 0x9DD) || (0x9DF <= cp && cp <= 0x9E3) || (0x9F0 <= cp && cp <= 0x9F1) || cp == 0x9FC
                        } else {
                            cp == 0x9FE || (0xA01 <= cp && cp <= 0xA03) || (0xA05 <= cp && cp <= 0xA0A) || (0xA0F <= cp && cp <= 0xA10)
                                || (0xA13 <= cp && cp <= 0xA28) || (0xA2A <= cp && cp <= 0xA30) || (0xA32 <= cp && cp <= 0xA33) || (0xA35 <= cp && cp <= 0xA36)
                                || (0xA38 <= cp && cp <= 0xA39) || cp == 0xA3C || (0xA3E <= cp && cp <= 0xA42) || (0xA47 <= cp && cp <= 0xA48)
                                || (0xA4B <= cp && cp <= 0xA4D) || cp == 0xA51 || (0xA59 <= cp && cp <= 0xA5C) || cp == 0xA5E
                        }
                    } else {
                        if cp < 0xB0F {
                            (0xA70 <= cp && cp <= 0xA75) || (0xA81 <= cp && cp <= 0xA83) || (0xA85 <= cp && cp <= 0xA8D) || (0xA8F <= cp && cp <= 0xA91)
                                || (0xA93 <= cp && cp <= 0xAA8) || (0xAAA <= cp && cp <= 0xAB0) || (0xAB2 <= cp && cp <= 0xAB3) || (0xAB5 <= cp && cp <= 0xAB9)
                                || (0xABC <= cp && cp <= 0xAC5) || (0xAC7 <= cp && cp <= 0xAC9) || (0xACB <= cp && cp <= 0xACD) || cp == 0xAD0
                                || (0xAE0 <= cp && cp <= 0xAE3) || (0xAF9 <= cp && cp <= 0xAFF) || (0xB01 <= cp && cp <= 0xB03) || (0xB05 <= cp && cp <= 0xB0C)
                        } else {
                            if cp < 0xB99 {
                                (0xB0F <= cp && cp <= 0xB10) || (0xB13 <= cp && cp <= 0xB28) || (0xB2A <= cp && cp <= 0xB30) || (0xB32 <= cp && cp <= 0xB33)
                                    || (0xB35 <= cp && cp <= 0xB39) || (0xB3C <= cp && cp <= 0xB44) || (0xB47 <= cp && cp <= 0xB48) || (0xB4B <= cp && cp <= 0xB4D)
                                    || (0xB55 <= cp && cp <= 0xB57) || (0xB5C <= cp && cp <= 0xB5D) || (0xB5F <= cp && cp <= 0xB63) || cp == 0xB71
                                    || (0xB82 <= cp && cp <= 0xB83) || (0xB85 <= cp && cp <= 0xB8A) || (0xB8E <= cp && cp <= 0xB90) || (0xB92 <= cp && cp <= 0xB95)
                            } else {
                                (0xB99 <= cp && cp <= 0xB9A) || cp == 0xB9C || (0xB9E <= cp && cp <= 0xB9F) || (0xBA3 <= cp && cp <= 0xBA4)
                                    || (0xBA8 <= cp && cp <= 0xBAA) || (0xBAE <= cp && cp <= 0xBB9) || (0xBBE <= cp && cp <= 0xBC2) || (0xBC6 <= cp && cp <= 0xBC8)
                                    || (0xBCA <= cp && cp <= 0xBCD) || cp == 0xBD0 || cp == 0xBD7 || (0xC00 <= cp && cp <= 0xC0C)
                                    || (0xC0E <= cp && cp <= 0xC10) || (0xC12 <= cp && cp <= 0xC28) || (0xC2A <= cp && cp <= 0xC39) || (0xC3C <= cp && cp <= 0xC44)
                            }
                        }
                    }
                } else {
                    if cp < 0xDC0 {
                        if cp < 0xCDD {
                            (0xC46 <= cp && cp <= 0xC48) || (0xC4A <= cp && cp <= 0xC4D) || (0xC55 <= cp && cp <= 0xC56) || (0xC58 <= cp && cp <= 0xC5A)
                                || cp == 0xC5D || (0xC60 <= cp && cp <= 0xC63) || (0xC80 <= cp && cp <= 0xC83) || (0xC85 <= cp && cp <= 0xC8C)
                                || (0xC8E <= cp && cp <= 0xC90) || (0xC92 <= cp && cp <= 0xCA8) || (0xCAA <= cp && cp <= 0xCB3) || (0xCB5 <= cp && cp <= 0xCB9)
                                || (0xCBC <= cp && cp <= 0xCC4) || (0xCC6 <= cp && cp <= 0xCC8) || (0xCCA <= cp && cp <= 0xCCD) || (0xCD5 <= cp && cp <= 0xCD6)
                        } else {
                            (0xCDD <= cp && cp <= 0xCDE) || (0xCE0 <= cp && cp <= 0xCE3) || (0xCF1 <= cp && cp <= 0xCF2) || (0xD00 <= cp && cp <= 0xD0C)
                                || (0xD0E <= cp && cp <= 0xD10) || (0xD12 <= cp && cp <= 0xD44) || (0xD46 <= cp && cp <= 0xD48) || (0xD4A <= cp && cp <= 0xD4E)
                                || (0xD54 <= cp && cp <= 0xD57) || (0xD5F <= cp && cp <= 0xD63) || (0xD7A <= cp && cp <= 0xD7F) || (0xD81 <= cp && cp <= 0xD83)
                                || (0xD85 <= cp && cp <= 0xD96) || (0xD9A <= cp && cp <= 0xDB1) || (0xDB3 <= cp && cp <= 0xDBB) || cp == 0xDBD
                        }
                    } else {
                        if cp < 0xEC8 {
                            (0xDC0 <= cp && cp <= 0xDC6) || cp == 0xDCA || (0xDCF <= cp && cp <= 0xDD4) || cp == 0xDD6
                                || (0xDD8 <= cp && cp <= 0xDDF) || (0xDF2 <= cp && cp <= 0xDF3) || (0xE01 <= cp && cp <= 0xE3A) || (0xE40 <= cp && cp <= 0xE4E)
                                || (0xE81 <= cp && cp <= 0xE82) || cp == 0xE84 || (0xE86 <= cp && cp <= 0xE8A) || (0xE8C <= cp && cp <= 0xEA3)
                                || cp == 0xEA5 || (0xEA7 <= cp && cp <= 0xEBD) || (0xEC0 <= cp && cp <= 0xEC4) || cp == 0xEC6
                        } else {
                            if cp < 0x10D0 {
                                (0xEC8 <= cp && cp <= 0xECD) || (0xEDC <= cp && cp <= 0xEDF) || cp == 0xF00 || (0xF18 <= cp && cp <= 0xF19)
                                    || cp == 0xF35 || cp == 0xF37 || cp == 0xF39 || (0xF3E <= cp && cp <= 0xF47)
                                    || (0xF49 <= cp && cp <= 0xF6C) || (0xF71 <= cp && cp <= 0xF84) || (0xF86 <= cp && cp <= 0xF97) || (0xF99 <= cp && cp <= 0xFBC)
                                    || cp == 0xFC6 || (0x1000 <= cp && cp <= 0x103F) || (0x1050 <= cp && cp <= 0x108F) || (0x109A <= cp && cp <= 0x109D)
                            } else {
                                (0x10D0 <= cp && cp <= 0x10FA) || (0x10FC <= cp && cp <= 0x1248) || (0x124A <= cp && cp <= 0x124D) || (0x1250 <= cp && cp <= 0x1256)
                                    || cp == 0x1258 || (0x125A <= cp && cp <= 0x125D) || (0x1260 <= cp && cp <= 0x1288) || (0x128A <= cp && cp <= 0x128D)
                                    || (0x1290 <= cp && cp <= 0x12B0) || (0x12B2 <= cp && cp <= 0x12B5) || (0x12B8 <= cp && cp <= 0x12BE) || cp == 0x12C0
                                    || (0x12C2 <= cp && cp <= 0x12C5) || (0x12C8 <= cp && cp <= 0x12D6) || (0x12D8 <= cp && cp <= 0x1310) || (0x1312 <= cp && cp <= 0x1315)
                            }
                        }
                    }
                }
            } else {
                if cp < 0x1E43 {
                    if cp < 0x1A60 {
                        if cp < 0x17D7 {
                            (0x1318 <= cp && cp <= 0x135A) || (0x135D <= cp && cp <= 0x135F) || (0x1380 <= cp && cp <= 0x138F) || (0x13F8 <= cp && cp <= 0x13FD)
                                || (0x1401 <= cp && cp <= 0x166C) || (0x166F <= cp && cp <= 0x167F) || (0x1681 <= cp && cp <= 0x169A) || (0x16A0 <= cp && cp <= 0x16EA)
                                || (0x16F1 <= cp && cp <= 0x16F8) || (0x1700 <= cp && cp <= 0x1715) || (0x171F <= cp && cp <= 0x1734) || (0x1740 <= cp && cp <= 0x1753)
                                || (0x1760 <= cp && cp <= 0x176C) || (0x176E <= cp && cp <= 0x1770) || (0x1772 <= cp && cp <= 0x1773) || (0x1780 <= cp && cp <= 0x17D3)
                        } else {
                            cp == 0x17D7 || (0x17DC <= cp && cp <= 0x17DD) || (0x180B <= cp && cp <= 0x180D) || cp == 0x180F
                                || (0x1820 <= cp && cp <= 0x1878) || (0x1880 <= cp && cp <= 0x18AA) || (0x18B0 <= cp && cp <= 0x18F5) || (0x1900 <= cp && cp <= 0x191E)
                                || (0x1920 <= cp && cp <= 0x192B) || (0x1930 <= cp && cp <= 0x193B) || (0x1950 <= cp && cp <= 0x196D) || (0x1970 <= cp && cp <= 0x1974)
                                || (0x1980 <= cp && cp <= 0x19AB) || (0x19B0 <= cp && cp <= 0x19C9) || (0x1A00 <= cp && cp <= 0x1A1B) || (0x1A20 <= cp && cp <= 0x1A5E)
                        }
                    } else {
                        if cp < 0x1E03 {
                            (0x1A60 <= cp && cp <= 0x1A7C) || cp == 0x1A7F || cp == 0x1AA7 || (0x1AB0 <= cp && cp <= 0x1ACE)
                                || (0x1B00 <= cp && cp <= 0x1B4C) || (0x1B6B <= cp && cp <= 0x1B73) || (0x1B80 <= cp && cp <= 0x1BAF) || (0x1BBA <= cp && cp <= 0x1BF3)
                                || (0x1C00 <= cp && cp <= 0x1C37) || (0x1C4D <= cp && cp <= 0x1C4F) || (0x1C5A <= cp && cp <= 0x1C7D) || (0x1C80 <= cp && cp <= 0x1C88)
                                || (0x1CD0 <= cp && cp <= 0x1CD2) || (0x1CD4 <= cp && cp <= 0x1CFA) || (0x1D00 <= cp && cp <= 0x1DFF) || cp == 0x1E01
                        } else {
                            if cp < 0x1E23 {
                                cp == 0x1E03 || cp == 0x1E05 || cp == 0x1E07 || cp == 0x1E09
                                    || cp == 0x1E0B || cp == 0x1E0D || cp == 0x1E0F || cp == 0x1E11
                                    || cp == 0x1E13 || cp == 0x1E15 || cp == 0x1E17 || cp == 0x1E19
                                    || cp == 0x1E1B || cp == 0x1E1D || cp == 0x1E1F || cp == 0x1E21
                            } else {
                                cp == 0x1E23 || cp == 0x1E25 || cp == 0x1E27 || cp == 0x1E29
                                    || cp == 0x1E2B || cp == 0x1E2D || cp == 0x1E2F || cp == 0x1E31
                                    || cp == 0x1E33 || cp == 0x1E35 || cp == 0x1E37 || cp == 0x1E39
                                    || cp == 0x1E3B || cp == 0x1E3D || cp == 0x1E3F || cp == 0x1E41
                            }
                        }
                    }
                } else {
                    if cp < 0x1E83 {
                        if cp < 0x1E63 {
                            cp == 0x1E43 || cp == 0x1E45 || cp == 0x1E47 || cp == 0x1E49
                                || cp == 0x1E4B || cp == 0x1E4D || cp == 0x1E4F || cp == 0x1E51
                                || cp == 0x1E53 || cp == 0x1E55 || cp == 0x1E57 || cp == 0x1E59
                                || cp == 0x1E5B || cp == 0x1E5D || cp == 0x1E5F || cp == 0x1E61
                        } else {
                            cp == 0x1E63 || cp == 0x1E65 || cp == 0x1E67 || cp == 0x1E69
                                || cp == 0x1E6B || cp == 0x1E6D || cp == 0x1E6F || cp == 0x1E71
                                || cp == 0x1E73 || cp == 0x1E75 || cp == 0x1E77 || cp == 0x1E79
                                || cp == 0x1E7B || cp == 0x1E7D || cp == 0x1E7F || cp == 0x1E81
                        }
                    } else {
                        if cp < 0x1EAB {
                            cp == 0x1E83 || cp == 0x1E85 || cp == 0x1E87 || cp == 0x1E89
                                || cp == 0x1E8B || cp == 0x1E8D || cp == 0x1E8F || cp == 0x1E91
                                || cp == 0x1E93 || (0x1E95 <= cp && cp <= 0x1E9D) || cp == 0x1E9F || cp == 0x1EA1
                                || cp == 0x1EA3 || cp == 0x1EA5 || cp == 0x1EA7 || cp == 0x1EA9
                        } else {
                            if cp < 0x1ECB {
                                cp == 0x1EAB || cp == 0x1EAD || cp == 0x1EAF || cp == 0x1EB1
                                    || cp == 0x1EB3 || cp == 0x1EB5 || cp == 0x1EB7 || cp == 0x1EB9
                                    || cp == 0x1EBB || cp == 0x1EBD || cp == 0x1EBF || cp == 0x1EC1
                                    || cp == 0x1EC3 || cp == 0x1EC5 || cp == 0x1EC7 || cp == 0x1EC9
                            } else {
                                cp == 0x1ECB || cp == 0x1ECD || cp == 0x1ECF || cp == 0x1ED1
                                    || cp == 0x1ED3 || cp == 0x1ED5 || cp == 0x1ED7 || cp == 0x1ED9
                                    || cp == 0x1EDB || cp == 0x1EDD || cp == 0x1EDF || cp == 0x1EE1
                                    || cp == 0x1EE3 || cp == 0x1EE5 || cp == 0x1EE7 || cp == 0x1EE9
                            }
                        }
                    }
                }
            }
        }
    } else {
        if cp < 0xFD92 {
            if cp < 0xA647 {
                if cp < 0x2C97 {
                    if cp < 0x207F {
                        if cp < 0x1F60 {
                            cp == 0x1EEB || cp == 0x1EED || cp == 0x1EEF || cp == 0x1EF1
                                || cp == 0x1EF3 || cp == 0x1EF5 || cp == 0x1EF7 || cp == 0x1EF9
                                || cp == 0x1EFB || cp == 0x1EFD || (0x1EFF <= cp && cp <= 0x1F07) || (0x1F10 <= cp && cp <= 0x1F15)
                                || (0x1F20 <= cp && cp <= 0x1F27) || (0x1F30 <= cp && cp <= 0x1F37) || (0x1F40 <= cp && cp <= 0x1F45) || (0x1F50 <= cp && cp <= 0x1F57)
                        } else {
                            (0x1F60 <= cp && cp <= 0x1F67) || (0x1F70 <= cp && cp <= 0x1F7D) || (0x1F80 <= cp && cp <= 0x1F87) || (0x1F90 <= cp && cp <= 0x1F97)
                                || (0x1FA0 <= cp && cp <= 0x1FA7) || (0x1FB0 <= cp && cp <= 0x1FB4) || (0x1FB6 <= cp && cp <= 0x1FB7) || cp == 0x1FBE
                                || (0x1FC2 <= cp && cp <= 0x1FC4) || (0x1FC6 <= cp && cp <= 0x1FC7) || (0x1FD0 <= cp && cp <= 0x1FD3) || (0x1FD6 <= cp && cp <= 0x1FD7)
                                || (0x1FE0 <= cp && cp <= 0x1FE7) || (0x1FF2 <= cp && cp <= 0x1FF4) || (0x1FF6 <= cp && cp <= 0x1FF7) || cp == 0x2071
                        }
                    } else {
                        if cp < 0x2C6A {
                            cp == 0x207F || (0x2090 <= cp && cp <= 0x209C) || (0x20D0 <= cp && cp <= 0x20F0) || cp == 0x210A
                                || (0x210E <= cp && cp <= 0x210F) || cp == 0x2113 || cp == 0x212F || (0x2134 <= cp && cp <= 0x2139)
                                || (0x213C <= cp && cp <= 0x213D) || (0x2146 <= cp && cp <= 0x2149) || cp == 0x214E || cp == 0x2184
                                || (0x2C30 <= cp && cp <= 0x2C5F) || cp == 0x2C61 || (0x2C65 <= cp && cp <= 0x2C66) || cp == 0x2C68
                        } else {
                            cp == 0x2C6A || cp == 0x2C6C || cp == 0x2C71 || (0x2C73 <= cp && cp <= 0x2C74)
                                || (0x2C76 <= cp && cp <= 0x2C7D) || cp == 0x2C81 || cp == 0x2C83 || cp == 0x2C85
                                || cp == 0x2C87 || cp == 0x2C89 || cp == 0x2C8B || cp == 0x2C8D
                                || cp == 0x2C8F || cp == 0x2C91 || cp == 0x2C93 || cp == 0x2C95
                        }
                    }
                } else {
                    if cp < 0x2CD7 {
                        if cp < 0x2CB7 {
                            cp == 0x2C97 || cp == 0x2C99 || cp == 0x2C9B || cp == 0x2C9D
                                || cp == 0x2C9F || cp == 0x2CA1 || cp == 0x2CA3 || cp == 0x2CA5
                                || cp == 0x2CA7 || cp == 0x2CA9 || cp == 0x2CAB || cp == 0x2CAD
                                || cp == 0x2CAF || cp == 0x2CB1 || cp == 0x2CB3 || cp == 0x2CB5
                        } else {
                            cp == 0x2CB7 || cp == 0x2CB9 || cp == 0x2CBB || cp == 0x2CBD
                                || cp == 0x2CBF || cp == 0x2CC1 || cp == 0x2CC3 || cp == 0x2CC5
                                || cp == 0x2CC7 || cp == 0x2CC9 || cp == 0x2CCB || cp == 0x2CCD
                                || cp == 0x2CCF || cp == 0x2CD1 || cp == 0x2CD3 || cp == 0x2CD5
                        }
                    } else {
                        if cp < 0x2DA0 {
                            cp == 0x2CD7 || cp == 0x2CD9 || cp == 0x2CDB || cp == 0x2CDD
                                || cp == 0x2CDF || cp == 0x2CE1 || (0x2CE3 <= cp && cp <= 0x2CE4) || cp == 0x2CEC
                                || (0x2CEE <= cp && cp <= 0x2CF1) || cp == 0x2CF3 || (0x2D00 <= cp && cp <= 0x2D25) || cp == 0x2D27
                                || cp == 0x2D2D || (0x2D30 <= cp && cp <= 0x2D67) || cp == 0x2D6F || (0x2D7F <= cp && cp <= 0x2D96)
                        } else {
                            if cp < 0x309D {
                                (0x2DA0 <= cp && cp <= 0x2DA6) || (0x2DA8 <= cp && cp <= 0x2DAE) || (0x2DB0 <= cp && cp <= 0x2DB6) || (0x2DB8 <= cp && cp <= 0x2DBE)
                                    || (0x2DC0 <= cp && cp <= 0x2DC6) || (0x2DC8 <= cp && cp <= 0x2DCE) || (0x2DD0 <= cp && cp <= 0x2DD6) || (0x2DD8 <= cp && cp <= 0x2DDE)
                                    || (0x2DE0 <= cp && cp <= 0x2DFF) || cp == 0x2E2F || (0x3005 <= cp && cp <= 0x3006) || (0x302A <= cp && cp <= 0x302F)
                                    || (0x3031 <= cp && cp <= 0x3035) || (0x303B <= cp && cp <= 0x303C) || (0x3041 <= cp && cp <= 0x3096) || (0x3099 <= cp && cp <= 0x309A)
                            } else {
                                (0x309D <= cp && cp <= 0x309F) || (0x30A1 <= cp && cp <= 0x30FA) || (0x30FC <= cp && cp <= 0x30FF) || (0x3105 <= cp && cp <= 0x312F)
                                    || (0x3131 <= cp && cp <= 0x318E) || (0x31A0 <= cp && cp <= 0x31BF) || (0x31F0 <= cp && cp <= 0x31FF) || (0x3400 <= cp && cp <= 0x4DBF)
                                    || (0x4E00 <= cp && cp <= 0xA48C) || (0xA4D0 <= cp && cp <= 0xA4FD) || (0xA500 <= cp && cp <= 0xA60C) || (0xA610 <= cp && cp <= 0xA61F)
                                    || (0xA62A <= cp && cp <= 0xA62B) || cp == 0xA641 || cp == 0xA643 || cp == 0xA645
                            }
                        }
                    }
                }
            } else {
                if cp < 0xA783 {
                    if cp < 0xA695 {
                        if cp < 0xA667 {
                            cp == 0xA647 || cp == 0xA649 || cp == 0xA64B || cp == 0xA64D
                                || cp == 0xA64F || cp == 0xA651 || cp == 0xA653 || cp == 0xA655
                                || cp == 0xA657 || cp == 0xA659 || cp == 0xA65B || cp == 0xA65D
                                || cp == 0xA65F || cp == 0xA661 || cp == 0xA663 || cp == 0xA665
                        } else {
                            cp == 0xA667 || cp == 0xA669 || cp == 0xA66B || (0xA66D <= cp && cp <= 0xA672)
                                || (0xA674 <= cp && cp <= 0xA67D) || cp == 0xA67F || cp == 0xA681 || cp == 0xA683
                                || cp == 0xA685 || cp == 0xA687 || cp == 0xA689 || cp == 0xA68B
                                || cp == 0xA68D || cp == 0xA68F || cp == 0xA691 || cp == 0xA693
                        }
                    } else {
                        if cp < 0xA739 {
                            cp == 0xA695 || cp == 0xA697 || cp == 0xA699 || (0xA69B <= cp && cp <= 0xA6E5)
                                || (0xA6F0 <= cp && cp <= 0xA6F1) || (0xA717 <= cp && cp <= 0xA71F) || cp == 0xA723 || cp == 0xA725
                                || cp == 0xA727 || cp == 0xA729 || cp == 0xA72B || cp == 0xA72D
                                || (0xA72F <= cp && cp <= 0xA731) || cp == 0xA733 || cp == 0xA735 || cp == 0xA737
                        } else {
                            if cp < 0xA759 {
                                cp == 0xA739 || cp == 0xA73B || cp == 0xA73D || cp == 0xA73F
                                    || cp == 0xA741 || cp == 0xA743 || cp == 0xA745 || cp == 0xA747
                                    || cp == 0xA749 || cp == 0xA74B || cp == 0xA74D || cp == 0xA74F
                                    || cp == 0xA751 || cp == 0xA753 || cp == 0xA755 || cp == 0xA757
                            } else {
                                cp == 0xA759 || cp == 0xA75B || cp == 0xA75D || cp == 0xA75F
                                    || cp == 0xA761 || cp == 0xA763 || cp == 0xA765 || cp == 0xA767
                                    || cp == 0xA769 || cp == 0xA76B || cp == 0xA76D || (0xA76F <= cp && cp <= 0xA778)
                                    || cp == 0xA77A || cp == 0xA77C || cp == 0xA77F || cp == 0xA781
                            }
                        }
                    }
                } else {
                    if cp < 0xA7D9 {
                        if cp < 0xA7A9 {
                            cp == 0xA783 || cp == 0xA785 || (0xA787 <= cp && cp <= 0xA788) || cp == 0xA78C
                                || (0xA78E <= cp && cp <= 0xA78F) || cp == 0xA791 || (0xA793 <= cp && cp <= 0xA795) || cp == 0xA797
                                || cp == 0xA799 || cp == 0xA79B || cp == 0xA79D || cp == 0xA79F
                                || cp == 0xA7A1 || cp == 0xA7A3 || cp == 0xA7A5 || cp == 0xA7A7
                        } else {
                            cp == 0xA7A9 || cp == 0xA7AF || cp == 0xA7B5 || cp == 0xA7B7
                                || cp == 0xA7B9 || cp == 0xA7BB || cp == 0xA7BD || cp == 0xA7BF
                                || cp == 0xA7C1 || cp == 0xA7C3 || cp == 0xA7C8 || cp == 0xA7CA
                                || cp == 0xA7D1 || cp == 0xA7D3 || cp == 0xA7D5 || cp == 0xA7D7
                        }
                    } else {
                        if cp < 0xAA00 {
                            cp == 0xA7D9 || (0xA7F2 <= cp && cp <= 0xA7F4) || (0xA7F6 <= cp && cp <= 0xA827) || cp == 0xA82C
                                || (0xA840 <= cp && cp <= 0xA873) || (0xA880 <= cp && cp <= 0xA8C5) || (0xA8E0 <= cp && cp <= 0xA8F7) || cp == 0xA8FB
                                || (0xA8FD <= cp && cp <= 0xA8FF) || (0xA90A <= cp && cp <= 0xA92D) || (0xA930 <= cp && cp <= 0xA953) || (0xA960 <= cp && cp <= 0xA97C)
                                || (0xA980 <= cp && cp <= 0xA9C0) || cp == 0xA9CF || (0xA9E0 <= cp && cp <= 0xA9EF) || (0xA9FA <= cp && cp <= 0xA9FE)
                        } else {
                            if cp < 0xAC00 {
                                (0xAA00 <= cp && cp <= 0xAA36) || (0xAA40 <= cp && cp <= 0xAA4D) || (0xAA60 <= cp && cp <= 0xAA76) || (0xAA7A <= cp && cp <= 0xAAC2)
                                    || (0xAADB <= cp && cp <= 0xAADD) || (0xAAE0 <= cp && cp <= 0xAAEF) || (0xAAF2 <= cp && cp <= 0xAAF6) || (0xAB01 <= cp && cp <= 0xAB06)
                                    || (0xAB09 <= cp && cp <= 0xAB0E) || (0xAB11 <= cp && cp <= 0xAB16) || (0xAB20 <= cp && cp <= 0xAB26) || (0xAB28 <= cp && cp <= 0xAB2E)
                                    || (0xAB30 <= cp && cp <= 0xAB5A) || (0xAB5C <= cp && cp <= 0xAB69) || (0xAB70 <= cp && cp <= 0xABEA) || (0xABEC <= cp && cp <= 0xABED)
                            } else {
                                (0xAC00 <= cp && cp <= 0xD7A3) || (0xD7B0 <= cp && cp <= 0xD7C6) || (0xD7CB <= cp && cp <= 0xD7FB) || (0xF900 <= cp && cp <= 0xFA6D)
                                    || (0xFA70 <= cp && cp <= 0xFAD9) || (0xFB00 <= cp && cp <= 0xFB06) || (0xFB13 <= cp && cp <= 0xFB17) || (0xFB1D <= cp && cp <= 0xFB28)
                                    || (0xFB2A <= cp && cp <= 0xFB36) || (0xFB38 <= cp && cp <= 0xFB3C) || cp == 0xFB3E || (0xFB40 <= cp && cp <= 0xFB41)
                                    || (0xFB43 <= cp && cp <= 0xFB44) || (0xFB46 <= cp && cp <= 0xFBB1) || (0xFBD3 <= cp && cp <= 0xFD3D) || (0xFD50 <= cp && cp <= 0xFD8F)
                            }
                        }
                    }
                }
            }
        } else {
            if cp < 0x11D00 {
                if cp < 0x10F27 {
                    if cp < 0x10500 {
                        if cp < 0x1003F {
                            (0xFD92 <= cp && cp <= 0xFDC7) || (0xFDF0 <= cp && cp <= 0xFDFB) || (0xFE00 <= cp && cp <= 0xFE0F) || (0xFE20 <= cp && cp <= 0xFE2F)
                                || (0xFE70 <= cp && cp <= 0xFE74) || (0xFE76 <= cp && cp <= 0xFEFC) || (0xFF41 <= cp && cp <= 0xFF5A) || (0xFF66 <= cp && cp <= 0xFFBE)
                                || (0xFFC2 <= cp && cp <= 0xFFC7) || (0xFFCA <= cp && cp <= 0xFFCF) || (0xFFD2 <= cp && cp <= 0xFFD7) || (0xFFDA <= cp && cp <= 0xFFDC)
                                || (0x10000 <= cp && cp <= 0x1000B) || (0x1000D <= cp && cp <= 0x10026) || (0x10028 <= cp && cp <= 0x1003A) || (0x1003C <= cp && cp <= 0x1003D)
                        } else {
                            (0x1003F <= cp && cp <= 0x1004D) || (0x10050 <= cp && cp <= 0x1005D) || (0x10080 <= cp && cp <= 0x100FA) || cp == 0x101FD
                                || (0x10280 <= cp && cp <= 0x1029C) || (0x102A0 <= cp && cp <= 0x102D0) || cp == 0x102E0 || (0x10300 <= cp && cp <= 0x1031F)
                                || (0x1032D <= cp && cp <= 0x10340) || (0x10342 <= cp && cp <= 0x10349) || (0x10350 <= cp && cp <= 0x1037A) || (0x10380 <= cp && cp <= 0x1039D)
                                || (0x103A0 <= cp && cp <= 0x103C3) || (0x103C8 <= cp && cp <= 0x103CF) || (0x10428 <= cp && cp <= 0x1049D) || (0x104D8 <= cp && cp <= 0x104FB)
                        }
                    } else {
                        if cp < 0x1083C {
                            (0x10500 <= cp && cp <= 0x10527) || (0x10530 <= cp && cp <= 0x10563) || (0x10597 <= cp && cp <= 0x105A1) || (0x105A3 <= cp && cp <= 0x105B1)
                                || (0x105B3 <= cp && cp <= 0x105B9) || (0x105BB <= cp && cp <= 0x105BC) || (0x10600 <= cp && cp <= 0x10736) || (0x10740 <= cp && cp <= 0x10755)
                                || (0x10760 <= cp && cp <= 0x10767) || (0x10780 <= cp && cp <= 0x10785) || (0x10787 <= cp && cp <= 0x107B0) || (0x107B2 <= cp && cp <= 0x107BA)
                                || (0x10800 <= cp && cp <= 0x10805) || cp == 0x10808 || (0x1080A <= cp && cp <= 0x10835) || (0x10837 <= cp && cp <= 0x10838)
                        } else {
                            if cp < 0x10A3F {
                                cp == 0x1083C || (0x1083F <= cp && cp <= 0x10855) || (0x10860 <= cp && cp <= 0x10876) || (0x10880 <= cp && cp <= 0x1089E)
                                    || (0x108E0 <= cp && cp <= 0x108F2) || (0x108F4 <= cp && cp <= 0x108F5) || (0x10900 <= cp && cp <= 0x10915) || (0x10920 <= cp && cp <= 0x10939)
                                    || (0x10980 <= cp && cp <= 0x109B7) || (0x109BE <= cp && cp <= 0x109BF) || (0x10A00 <= cp && cp <= 0x10A03) || (0x10A05 <= cp && cp <= 0x10A06)
                                    || (0x10A0C <= cp && cp <= 0x10A13) || (0x10A15 <= cp && cp <= 0x10A17) || (0x10A19 <= cp && cp <= 0x10A35) || (0x10A38 <= cp && cp <= 0x10A3A)
                            } else {
                                cp == 0x10A3F || (0x10A60 <= cp && cp <= 0x10A7C) || (0x10A80 <= cp && cp <= 0x10A9C) || (0x10AC0 <= cp && cp <= 0x10AC7)
                                    || (0x10AC9 <= cp && cp <= 0x10AE6) || (0x10B00 <= cp && cp <= 0x10B35) || (0x10B40 <= cp && cp <= 0x10B55) || (0x10B60 <= cp && cp <= 0x10B72)
                                    || (0x10B80 <= cp && cp <= 0x10B91) || (0x10C00 <= cp && cp <= 0x10C48) || (0x10CC0 <= cp && cp <= 0x10CF2) || (0x10D00 <= cp && cp <= 0x10D27)
                                    || (0x10E80 <= cp && cp <= 0x10EA9) || (0x10EAB <= cp && cp <= 0x10EAC) || (0x10EB0 <= cp && cp <= 0x10EB1) || (0x10F00 <= cp && cp <= 0x10F1C)
                            }
                        }
                    }
                } else {
                    if cp < 0x1132A {
                        if cp < 0x111CE {
                            cp == 0x10F27 || (0x10F30 <= cp && cp <= 0x10F50) || (0x10F70 <= cp && cp <= 0x10F85) || (0x10FB0 <= cp && cp <= 0x10FC4)
                                || (0x10FE0 <= cp && cp <= 0x10FF6) || (0x11000 <= cp && cp <= 0x11046) || (0x11070 <= cp && cp <= 0x11075) || (0x1107F <= cp && cp <= 0x110BA)
                                || cp == 0x110C2 || (0x110D0 <= cp && cp <= 0x110E8) || (0x11100 <= cp && cp <= 0x11134) || (0x11144 <= cp && cp <= 0x11147)
                                || (0x11150 <= cp && cp <= 0x11173) || cp == 0x11176 || (0x11180 <= cp && cp <= 0x111C4) || (0x111C9 <= cp && cp <= 0x111CC)
                        } else {
                            (0x111CE <= cp && cp <= 0x111CF) || cp == 0x111DA || cp == 0x111DC || (0x11200 <= cp && cp <= 0x11211)
                                || (0x11213 <= cp && cp <= 0x11237) || cp == 0x1123E || (0x11280 <= cp && cp <= 0x11286) || cp == 0x11288
                                || (0x1128A <= cp && cp <= 0x1128D) || (0x1128F <= cp && cp <= 0x1129D) || (0x1129F <= cp && cp <= 0x112A8) || (0x112B0 <= cp && cp <= 0x112EA)
                                || (0x11300 <= cp && cp <= 0x11303) || (0x11305 <= cp && cp <= 0x1130C) || (0x1130F <= cp && cp <= 0x11310) || (0x11313 <= cp && cp <= 0x11328)
                        }
                    } else {
                        if cp < 0x115B8 {
                            (0x1132A <= cp && cp <= 0x11330) || (0x11332 <= cp && cp <= 0x11333) || (0x11335 <= cp && cp <= 0x11339) || (0x1133B <= cp && cp <= 0x11344)
                                || (0x11347 <= cp && cp <= 0x11348) || (0x1134B <= cp && cp <= 0x1134D) || cp == 0x11350 || cp == 0x11357
                                || (0x1135D <= cp && cp <= 0x11363) || (0x11366 <= cp && cp <= 0x1136C) || (0x11370 <= cp && cp <= 0x11374) || (0x11400 <= cp && cp <= 0x1144A)
                                || (0x1145E <= cp && cp <= 0x11461) || (0x11480 <= cp && cp <= 0x114C5) || cp == 0x114C7 || (0x11580 <= cp && cp <= 0x115B5)
                        } else {
                            if cp < 0x1193B {
                                (0x115B8 <= cp && cp <= 0x115C0) || (0x115D8 <= cp && cp <= 0x115DD) || (0x11600 <= cp && cp <= 0x11640) || cp == 0x11644
                                    || (0x11680 <= cp && cp <= 0x116B8) || (0x11700 <= cp && cp <= 0x1171A) || (0x1171D <= cp && cp <= 0x1172B) || (0x11740 <= cp && cp <= 0x11746)
                                    || (0x11800 <= cp && cp <= 0x1183A) || (0x118C0 <= cp && cp <= 0x118DF) || (0x118FF <= cp && cp <= 0x11906) || cp == 0x11909
                                    || (0x1190C <= cp && cp <= 0x11913) || (0x11915 <= cp && cp <= 0x11916) || (0x11918 <= cp && cp <= 0x11935) || (0x11937 <= cp && cp <= 0x11938)
                            } else {
                                (0x1193B <= cp && cp <= 0x11943) || (0x119A0 <= cp && cp <= 0x119A7) || (0x119AA <= cp && cp <= 0x119D7) || (0x119DA <= cp && cp <= 0x119E1)
                                    || (0x119E3 <= cp && cp <= 0x119E4) || (0x11A00 <= cp && cp <= 0x11A3E) || cp == 0x11A47 || (0x11A50 <= cp && cp <= 0x11A99)
                                    || cp == 0x11A9D || (0x11AB0 <= cp && cp <= 0x11AF8) || (0x11C00 <= cp && cp <= 0x11C08) || (0x11C0A <= cp && cp <= 0x11C36)
                                    || (0x11C38 <= cp && cp <= 0x11C40) || (0x11C72 <= cp && cp <= 0x11C8F) || (0x11C92 <= cp && cp <= 0x11CA7) || (0x11CA9 <= cp && cp <= 0x11CB6)
                            }
                        }
                    }
                }
            } else {
                if cp < 0x1D770 {
                    if cp < 0x16FE3 {
                        if cp < 0x13000 {
                            (0x11D00 <= cp && cp <= 0x11D06) || (0x11D08 <= cp && cp <= 0x11D09) || (0x11D0B <= cp && cp <= 0x11D36) || cp == 0x11D3A
                                || (0x11D3C <= cp && cp <= 0x11D3D) || (0x11D3F <= cp && cp <= 0x11D47) || (0x11D60 <= cp && cp <= 0x11D65) || (0x11D67 <= cp && cp <= 0x11D68)
                                || (0x11D6A <= cp && cp <= 0x11D8E) || (0x11D90 <= cp && cp <= 0x11D91) || (0x11D93 <= cp && cp <= 0x11D98) || (0x11EE0 <= cp && cp <= 0x11EF6)
                                || cp == 0x11FB0 || (0x12000 <= cp && cp <= 0x12399) || (0x12480 <= cp && cp <= 0x12543) || (0x12F90 <= cp && cp <= 0x12FF0)
                        } else {
                            (0x13000 <= cp && cp <= 0x1342E) || (0x14400 <= cp && cp <= 0x14646) || (0x16800 <= cp && cp <= 0x16A38) || (0x16A40 <= cp && cp <= 0x16A5E)
                                || (0x16A70 <= cp && cp <= 0x16ABE) || (0x16AD0 <= cp && cp <= 0x16AED) || (0x16AF0 <= cp && cp <= 0x16AF4) || (0x16B00 <= cp && cp <= 0x16B36)
                                || (0x16B40 <= cp && cp <= 0x16B43) || (0x16B63 <= cp && cp <= 0x16B77) || (0x16B7D <= cp && cp <= 0x16B8F) || (0x16E60 <= cp && cp <= 0x16E7F)
                                || (0x16F00 <= cp && cp <= 0x16F4A) || (0x16F4F <= cp && cp <= 0x16F87) || (0x16F8F <= cp && cp <= 0x16F9F) || (0x16FE0 <= cp && cp <= 0x16FE1)
                        }
                    } else {
                        if cp < 0x1BC9D {
                            (0x16FE3 <= cp && cp <= 0x16FE4) || (0x16FF0 <= cp && cp <= 0x16FF1) || (0x17000 <= cp && cp <= 0x187F7) || (0x18800 <= cp && cp <= 0x18CD5)
                                || (0x18D00 <= cp && cp <= 0x18D08) || (0x1AFF0 <= cp && cp <= 0x1AFF3) || (0x1AFF5 <= cp && cp <= 0x1AFFB) || (0x1AFFD <= cp && cp <= 0x1AFFE)
                                || (0x1B000 <= cp && cp <= 0x1B122) || (0x1B150 <= cp && cp <= 0x1B152) || (0x1B164 <= cp && cp <= 0x1B167) || (0x1B170 <= cp && cp <= 0x1B2FB)
                                || (0x1BC00 <= cp && cp <= 0x1BC6A) || (0x1BC70 <= cp && cp <= 0x1BC7C) || (0x1BC80 <= cp && cp <= 0x1BC88) || (0x1BC90 <= cp && cp <= 0x1BC99)
                        } else {
                            if cp < 0x1D4C5 {
                                (0x1BC9D <= cp && cp <= 0x1BC9E) || (0x1CF00 <= cp && cp <= 0x1CF2D) || (0x1CF30 <= cp && cp <= 0x1CF46) || (0x1D165 <= cp && cp <= 0x1D169)
                                    || (0x1D16D <= cp && cp <= 0x1D172) || (0x1D17B <= cp && cp <= 0x1D182) || (0x1D185 <= cp && cp <= 0x1D18B) || (0x1D1AA <= cp && cp <= 0x1D1AD)
                                    || (0x1D242 <= cp && cp <= 0x1D244) || (0x1D41A <= cp && cp <= 0x1D433) || (0x1D44E <= cp && cp <= 0x1D454) || (0x1D456 <= cp && cp <= 0x1D467)
                                    || (0x1D482 <= cp && cp <= 0x1D49B) || (0x1D4B6 <= cp && cp <= 0x1D4B9) || cp == 0x1D4BB || (0x1D4BD <= cp && cp <= 0x1D4C3)
                            } else {
                                (0x1D4C5 <= cp && cp <= 0x1D4CF) || (0x1D4EA <= cp && cp <= 0x1D503) || (0x1D51E <= cp && cp <= 0x1D537) || (0x1D552 <= cp && cp <= 0x1D56B)
                                    || (0x1D586 <= cp && cp <= 0x1D59F) || (0x1D5BA <= cp && cp <= 0x1D5D3) || (0x1D5EE <= cp && cp <= 0x1D607) || (0x1D622 <= cp && cp <= 0x1D63B)
                                    || (0x1D656 <= cp && cp <= 0x1D66F) || (0x1D68A <= cp && cp <= 0x1D6A5) || (0x1D6C2 <= cp && cp <= 0x1D6DA) || (0x1D6DC <= cp && cp <= 0x1D6E1)
                                    || (0x1D6FC <= cp && cp <= 0x1D714) || (0x1D716 <= cp && cp <= 0x1D71B) || (0x1D736 <= cp && cp <= 0x1D74E) || (0x1D750 <= cp && cp <= 0x1D755)
                            }
                        }
                    }
                } else {
                    if cp < 0x1EE24 {
                        if cp < 0x1E026 {
                            (0x1D770 <= cp && cp <= 0x1D788) || (0x1D78A <= cp && cp <= 0x1D78F) || (0x1D7AA <= cp && cp <= 0x1D7C2) || (0x1D7C4 <= cp && cp <= 0x1D7C9)
                                || cp == 0x1D7CB || (0x1DA00 <= cp && cp <= 0x1DA36) || (0x1DA3B <= cp && cp <= 0x1DA6C) || cp == 0x1DA75
                                || cp == 0x1DA84 || (0x1DA9B <= cp && cp <= 0x1DA9F) || (0x1DAA1 <= cp && cp <= 0x1DAAF) || (0x1DF00 <= cp && cp <= 0x1DF1E)
                                || (0x1E000 <= cp && cp <= 0x1E006) || (0x1E008 <= cp && cp <= 0x1E018) || (0x1E01B <= cp && cp <= 0x1E021) || (0x1E023 <= cp && cp <= 0x1E024)
                        } else {
                            (0x1E026 <= cp && cp <= 0x1E02A) || (0x1E100 <= cp && cp <= 0x1E12C) || (0x1E130 <= cp && cp <= 0x1E13D) || cp == 0x1E14E
                                || (0x1E290 <= cp && cp <= 0x1E2AE) || (0x1E2C0 <= cp && cp <= 0x1E2EF) || (0x1E7E0 <= cp && cp <= 0x1E7E6) || (0x1E7E8 <= cp && cp <= 0x1E7EB)
                                || (0x1E7ED <= cp && cp <= 0x1E7EE) || (0x1E7F0 <= cp && cp <= 0x1E7FE) || (0x1E800 <= cp && cp <= 0x1E8C4) || (0x1E8D0 <= cp && cp <= 0x1E8D6)
                                || (0x1E922 <= cp && cp <= 0x1E94B) || (0x1EE00 <= cp && cp <= 0x1EE03) || (0x1EE05 <= cp && cp <= 0x1EE1F) || (0x1EE21 <= cp && cp <= 0x1EE22)
                        }
                    } else {
                        if cp < 0x1EE5D {
                            cp == 0x1EE24 || cp == 0x1EE27 || (0x1EE29 <= cp && cp <= 0x1EE32) || (0x1EE34 <= cp && cp <= 0x1EE37)
                                || cp == 0x1EE39 || cp == 0x1EE3B || cp == 0x1EE42 || cp == 0x1EE47
                                || cp == 0x1EE49 || cp == 0x1EE4B || (0x1EE4D <= cp && cp <= 0x1EE4F) || (0x1EE51 <= cp && cp <= 0x1EE52)
                                || cp == 0x1EE54 || cp == 0x1EE57 || cp == 0x1EE59 || cp == 0x1EE5B
                        } else {
                            if cp < 0x2B740 {
                                cp == 0x1EE5D || cp == 0x1EE5F || (0x1EE61 <= cp && cp <= 0x1EE62) || cp == 0x1EE64
                                    || (0x1EE67 <= cp && cp <= 0x1EE6A) || (0x1EE6C <= cp && cp <= 0x1EE72) || (0x1EE74 <= cp && cp <= 0x1EE77) || (0x1EE79 <= cp && cp <= 0x1EE7C)
                                    || cp == 0x1EE7E || (0x1EE80 <= cp && cp <= 0x1EE89) || (0x1EE8B <= cp && cp <= 0x1EE9B) || (0x1EEA1 <= cp && cp <= 0x1EEA3)
                                    || (0x1EEA5 <= cp && cp <= 0x1EEA9) || (0x1EEAB <= cp && cp <= 0x1EEBB) || (0x20000 <= cp && cp <= 0x2A6DF) || (0x2A700 <= cp && cp <= 0x2B738)
                            } else {
                                (0x2B740 <= cp && cp <= 0x2B81D) || (0x2B820 <= cp && cp <= 0x2CEA1) || (0x2CEB0 <= cp && cp <= 0x2EBE0) || (0x2F800 <= cp && cp <= 0x2FA1D)
                                    || (0x30000 <= cp && cp <= 0x3134A) || (0xE0100 <= cp && cp <= 0xE01EF)
                            }
                        }
                    }
                }
            }
        }
    }
}

} // verus!
