//! The range tables that the classifier consults, and the proof that each
//! of them is ordered.
//!
//! The tables list the long-established ranges of each class. They are not
//! generated from one release of the Unicode Character Database and do not
//! claim to cover it: a codepoint that no table lists is classified as `One`.
//! Callers who need another data set hand their own tables to
//! `classify_with`.

use crate::ranges::{table_ordered, CodeRange};
use vstd::prelude::*;

verus! {

/// Printable ASCII. Most text is made of it, so it is consulted first.
pub const ASCII_TABLE: [CodeRange; 1] = [(0x00020, 0x0007E)];

/// The private-use areas.
pub const PRIVATE_TABLE: [CodeRange; 3] = [
    (0x0E000, 0x0F8FF),
    (0xF0000, 0xFFFFD),
    (0x100000, 0x10FFFD),
];

/// Controls, format characters and surrogates: nothing is printed for them.
pub const NONPRINT_TABLE: [CodeRange; 13] = [
    (0x00000, 0x0001F),
    (0x0007F, 0x0009F),
    (0x000AD, 0x000AD),
    (0x0070F, 0x0070F),
    (0x0180B, 0x0180E),
    (0x0200B, 0x0200F),
    (0x02028, 0x0202E),
    (0x0206A, 0x0206F),
    (0x0D800, 0x0DFFF),
    (0x0FEFF, 0x0FEFF),
    (0x0FFF9, 0x0FFFB),
    (0xE0001, 0xE0001),
    (0xE0020, 0xE007F),
];

/// The noncharacters: the block in the Arabic presentation forms and the
/// last two codepoints of every plane.
pub const NONCHAR_TABLE: [CodeRange; 18] = [
    (0x0FDD0, 0x0FDEF),
    (0x0FFFE, 0x0FFFF),
    (0x1FFFE, 0x1FFFF),
    (0x2FFFE, 0x2FFFF),
    (0x3FFFE, 0x3FFFF),
    (0x4FFFE, 0x4FFFF),
    (0x5FFFE, 0x5FFFF),
    (0x6FFFE, 0x6FFFF),
    (0x7FFFE, 0x7FFFF),
    (0x8FFFE, 0x8FFFF),
    (0x9FFFE, 0x9FFFF),
    (0xAFFFE, 0xAFFFF),
    (0xBFFFE, 0xBFFFF),
    (0xCFFFE, 0xCFFFF),
    (0xDFFFE, 0xDFFFF),
    (0xEFFFE, 0xEFFFF),
    (0xFFFFE, 0xFFFFF),
    (0x10FFFE, 0x10FFFF),
];

/// Zero-width combining marks.
pub const COMBINING_TABLE: [CodeRange; 29] = [
    (0x00300, 0x0036F),
    (0x00483, 0x00489),
    (0x00591, 0x005BD),
    (0x005BF, 0x005BF),
    (0x005C1, 0x005C2),
    (0x005C4, 0x005C5),
    (0x005C7, 0x005C7),
    (0x00610, 0x0061A),
    (0x0064B, 0x0065F),
    (0x00670, 0x00670),
    (0x006D6, 0x006DC),
    (0x006DF, 0x006E4),
    (0x006E7, 0x006E8),
    (0x006EA, 0x006ED),
    (0x00711, 0x00711),
    (0x00730, 0x0074A),
    (0x007A6, 0x007B0),
    (0x007EB, 0x007F3),
    (0x00E31, 0x00E31),
    (0x00E34, 0x00E3A),
    (0x00E47, 0x00E4E),
    (0x00EB1, 0x00EB1),
    (0x01DC0, 0x01DCA),
    (0x020D0, 0x020EF),
    (0x0302A, 0x0302D),
    (0x03099, 0x0309A),
    (0x0FE00, 0x0FE0F),
    (0x0FE20, 0x0FE23),
    (0xE0100, 0xE01EF),
];

/// Zero-width combining letters: the medial vowels and final consonants of
/// Hangul Jamo.
pub const COMBININGLETTERS_TABLE: [CodeRange; 2] = [(0x01160, 0x011FF), (0x0D7B0, 0x0D7FF)];

/// Double-wide characters.
pub const DOUBLEWIDE_TABLE: [CodeRange; 38] = [
    (0x01100, 0x0115F),
    (0x02329, 0x0232A),
    (0x02E80, 0x02E99),
    (0x02E9B, 0x02EF3),
    (0x02F00, 0x02FD5),
    (0x02FF0, 0x02FFB),
    (0x03000, 0x0303E),
    (0x03041, 0x03096),
    (0x03099, 0x030FF),
    (0x03105, 0x0312D),
    (0x03131, 0x0318E),
    (0x03190, 0x031BA),
    (0x031C0, 0x031E3),
    (0x031F0, 0x0321E),
    (0x03220, 0x03247),
    (0x03250, 0x032FE),
    (0x03300, 0x04DBF),
    (0x04E00, 0x0A48C),
    (0x0A490, 0x0A4C6),
    (0x0A960, 0x0A97C),
    (0x0AC00, 0x0D7A3),
    (0x0F900, 0x0FAFF),
    (0x0FE10, 0x0FE19),
    (0x0FE30, 0x0FE52),
    (0x0FE54, 0x0FE66),
    (0x0FE68, 0x0FE6B),
    (0x0FF01, 0x0FF60),
    (0x0FFE0, 0x0FFE6),
    (0x1B000, 0x1B001),
    (0x1F200, 0x1F200),
    (0x1F202, 0x1F202),
    (0x1F210, 0x1F219),
    (0x1F21B, 0x1F22E),
    (0x1F230, 0x1F231),
    (0x1F237, 0x1F237),
    (0x1F240, 0x1F248),
    (0x20000, 0x2FFFD),
    (0x30000, 0x3FFFD),
];

/// Characters of East-Asian ambiguous width.
pub const AMBIGUOUS_TABLE: [CodeRange; 158] = [
    (0x000A1, 0x000A1),
    (0x000A4, 0x000A4),
    (0x000A7, 0x000A8),
    (0x000AA, 0x000AA),
    (0x000AE, 0x000AE),
    (0x000B0, 0x000B4),
    (0x000B6, 0x000BA),
    (0x000BC, 0x000BF),
    (0x000C6, 0x000C6),
    (0x000D0, 0x000D0),
    (0x000D7, 0x000D8),
    (0x000DE, 0x000E1),
    (0x000E6, 0x000E6),
    (0x000E8, 0x000EA),
    (0x000EC, 0x000ED),
    (0x000F0, 0x000F0),
    (0x000F2, 0x000F3),
    (0x000F7, 0x000FA),
    (0x000FC, 0x000FC),
    (0x000FE, 0x000FE),
    (0x00101, 0x00101),
    (0x00111, 0x00111),
    (0x00113, 0x00113),
    (0x0011B, 0x0011B),
    (0x00126, 0x00127),
    (0x0012B, 0x0012B),
    (0x00131, 0x00133),
    (0x00138, 0x00138),
    (0x0013F, 0x00142),
    (0x00144, 0x00144),
    (0x00148, 0x0014B),
    (0x0014D, 0x0014D),
    (0x00152, 0x00153),
    (0x00166, 0x00167),
    (0x0016B, 0x0016B),
    (0x001CE, 0x001CE),
    (0x001D0, 0x001D0),
    (0x001D2, 0x001D2),
    (0x001D4, 0x001D4),
    (0x001D6, 0x001D6),
    (0x001D8, 0x001D8),
    (0x001DA, 0x001DA),
    (0x001DC, 0x001DC),
    (0x00251, 0x00251),
    (0x00261, 0x00261),
    (0x002C4, 0x002C4),
    (0x002C7, 0x002C7),
    (0x002C9, 0x002CB),
    (0x002CD, 0x002CD),
    (0x002D0, 0x002D0),
    (0x002D8, 0x002DB),
    (0x002DD, 0x002DD),
    (0x002DF, 0x002DF),
    (0x00300, 0x0036F),
    (0x00391, 0x003A1),
    (0x003A3, 0x003A9),
    (0x003B1, 0x003C1),
    (0x003C3, 0x003C9),
    (0x00401, 0x00401),
    (0x00410, 0x0044F),
    (0x00451, 0x00451),
    (0x02010, 0x02010),
    (0x02013, 0x02016),
    (0x02018, 0x02019),
    (0x0201C, 0x0201D),
    (0x02020, 0x02022),
    (0x02024, 0x02027),
    (0x02030, 0x02030),
    (0x02032, 0x02033),
    (0x02035, 0x02035),
    (0x0203B, 0x0203B),
    (0x0203E, 0x0203E),
    (0x02074, 0x02074),
    (0x0207F, 0x0207F),
    (0x02081, 0x02084),
    (0x020AC, 0x020AC),
    (0x02103, 0x02103),
    (0x02105, 0x02105),
    (0x02109, 0x02109),
    (0x02113, 0x02113),
    (0x02116, 0x02116),
    (0x02121, 0x02122),
    (0x02126, 0x02126),
    (0x0212B, 0x0212B),
    (0x02153, 0x02154),
    (0x0215B, 0x0215E),
    (0x02160, 0x0216B),
    (0x02170, 0x02179),
    (0x02190, 0x02199),
    (0x021B8, 0x021B9),
    (0x021D2, 0x021D2),
    (0x021D4, 0x021D4),
    (0x021E7, 0x021E7),
    (0x02200, 0x02200),
    (0x02202, 0x02203),
    (0x02207, 0x02208),
    (0x0220B, 0x0220B),
    (0x0220F, 0x0220F),
    (0x02211, 0x02211),
    (0x02215, 0x02215),
    (0x0221A, 0x0221A),
    (0x0221D, 0x02220),
    (0x02223, 0x02223),
    (0x02225, 0x02225),
    (0x02227, 0x0222C),
    (0x0222E, 0x0222E),
    (0x02234, 0x02237),
    (0x0223C, 0x0223D),
    (0x02248, 0x02248),
    (0x0224C, 0x0224C),
    (0x02252, 0x02252),
    (0x02260, 0x02261),
    (0x02264, 0x02267),
    (0x0226A, 0x0226B),
    (0x0226E, 0x0226F),
    (0x02282, 0x02283),
    (0x02286, 0x02287),
    (0x02295, 0x02295),
    (0x02299, 0x02299),
    (0x022A5, 0x022A5),
    (0x022BF, 0x022BF),
    (0x02312, 0x02312),
    (0x02460, 0x024E9),
    (0x024EB, 0x0254B),
    (0x02550, 0x02573),
    (0x02580, 0x0258F),
    (0x02592, 0x02595),
    (0x025A0, 0x025A1),
    (0x025A3, 0x025A9),
    (0x025B2, 0x025B3),
    (0x025B6, 0x025B7),
    (0x025BC, 0x025BD),
    (0x025C0, 0x025C1),
    (0x025C6, 0x025C8),
    (0x025CB, 0x025CB),
    (0x025CE, 0x025D1),
    (0x025E2, 0x025E5),
    (0x025EF, 0x025EF),
    (0x02605, 0x02606),
    (0x02609, 0x02609),
    (0x0260E, 0x0260F),
    (0x0261C, 0x0261C),
    (0x0261E, 0x0261E),
    (0x02640, 0x02640),
    (0x02642, 0x02642),
    (0x02660, 0x02661),
    (0x02663, 0x02665),
    (0x02667, 0x0266A),
    (0x0266C, 0x0266D),
    (0x0266F, 0x0266F),
    (0x0273D, 0x0273D),
    (0x02776, 0x0277F),
    (0x0E000, 0x0F8FF),
    (0x0FE00, 0x0FE0F),
    (0x0FFFD, 0x0FFFD),
    (0xE0100, 0xE01EF),
    (0xF0000, 0xFFFFD),
    (0x100000, 0x10FFFD),
];

/// Codepoints to which no character is assigned.
pub const UNASSIGNED_TABLE: [CodeRange; 15] = [
    (0x00378, 0x00379),
    (0x00380, 0x00383),
    (0x0038B, 0x0038B),
    (0x0038D, 0x0038D),
    (0x003A2, 0x003A2),
    (0x00530, 0x00530),
    (0x00557, 0x00558),
    (0x0058B, 0x0058C),
    (0x00590, 0x00590),
    (0x005C8, 0x005CF),
    (0x005F5, 0x005FF),
    (0x40000, 0xE0000),
    (0xE0002, 0xE001F),
    (0xE0080, 0xE00FF),
    (0xE01F0, 0xEFFFF),
];

/// Characters that were one column wide up to Unicode 8 and are two columns
/// wide from Unicode 9 on.
pub const WIDENED_TABLE: [CodeRange; 66] = [
    (0x0231A, 0x0231B),
    (0x023E9, 0x023EC),
    (0x023F0, 0x023F0),
    (0x023F3, 0x023F3),
    (0x025FD, 0x025FE),
    (0x02614, 0x02615),
    (0x02648, 0x02653),
    (0x0267F, 0x0267F),
    (0x02693, 0x02693),
    (0x026A1, 0x026A1),
    (0x026AA, 0x026AB),
    (0x026BD, 0x026BE),
    (0x026C4, 0x026C5),
    (0x026CE, 0x026CE),
    (0x026D4, 0x026D4),
    (0x026EA, 0x026EA),
    (0x026F2, 0x026F3),
    (0x026F5, 0x026F5),
    (0x026FA, 0x026FA),
    (0x026FD, 0x026FD),
    (0x02705, 0x02705),
    (0x0270A, 0x0270B),
    (0x02728, 0x02728),
    (0x0274C, 0x0274C),
    (0x0274E, 0x0274E),
    (0x02753, 0x02755),
    (0x02757, 0x02757),
    (0x02795, 0x02797),
    (0x027B0, 0x027B0),
    (0x027BF, 0x027BF),
    (0x02B1B, 0x02B1C),
    (0x02B50, 0x02B50),
    (0x02B55, 0x02B55),
    (0x1F004, 0x1F004),
    (0x1F0CF, 0x1F0CF),
    (0x1F18E, 0x1F18E),
    (0x1F191, 0x1F19A),
    (0x1F201, 0x1F201),
    (0x1F21A, 0x1F21A),
    (0x1F22F, 0x1F22F),
    (0x1F232, 0x1F236),
    (0x1F238, 0x1F23A),
    (0x1F250, 0x1F251),
    (0x1F300, 0x1F320),
    (0x1F32D, 0x1F335),
    (0x1F337, 0x1F37C),
    (0x1F37E, 0x1F393),
    (0x1F3A0, 0x1F3CA),
    (0x1F3CF, 0x1F3D3),
    (0x1F3E0, 0x1F3F0),
    (0x1F3F4, 0x1F3F4),
    (0x1F3F8, 0x1F43E),
    (0x1F440, 0x1F440),
    (0x1F442, 0x1F4FC),
    (0x1F4FF, 0x1F53D),
    (0x1F54B, 0x1F54E),
    (0x1F550, 0x1F567),
    (0x1F595, 0x1F596),
    (0x1F5FB, 0x1F64F),
    (0x1F680, 0x1F6C5),
    (0x1F6CC, 0x1F6CC),
    (0x1F6D0, 0x1F6D0),
    (0x1F6EB, 0x1F6EC),
    (0x1F910, 0x1F918),
    (0x1F980, 0x1F984),
    (0x1F9C0, 0x1F9C0),
];

/// Every table is ordered: its ranges are non-empty, strictly increasing and
/// do not overlap.
pub proof fn lemma_tables_ordered()
    ensures
        table_ordered(ASCII_TABLE@),
        table_ordered(PRIVATE_TABLE@),
        table_ordered(NONPRINT_TABLE@),
        table_ordered(NONCHAR_TABLE@),
        table_ordered(COMBINING_TABLE@),
        table_ordered(COMBININGLETTERS_TABLE@),
        table_ordered(DOUBLEWIDE_TABLE@),
        table_ordered(AMBIGUOUS_TABLE@),
        table_ordered(UNASSIGNED_TABLE@),
        table_ordered(WIDENED_TABLE@),
{
}

} // verus!
