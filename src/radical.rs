//! The Cangjie radical alphabet: 26 radicals, each with an ASCII letter
//! (the code stored in libcangjie's table) and a display glyph.

use vstd::prelude::*;

verus! {

/// Cangjie radical.
#[derive(Debug, PartialEq, Eq, Structural, PartialOrd, Ord, Clone, Copy, Hash)]
pub enum CangjieRadical {
    /// 日.
    A,
    /// 月.
    B,
    /// 金.
    C,
    /// 木.
    D,
    /// 水.
    E,
    /// 火.
    F,
    /// 土.
    G,
    /// 竹.
    H,
    /// 戈.
    I,
    /// 十.
    J,
    /// 大.
    K,
    /// 中.
    L,
    /// 一.
    M,
    /// 弓.
    N,
    /// 人.
    O,
    /// 心.
    P,
    /// 手.
    Q,
    /// 口.
    R,
    /// 尸.
    S,
    /// 廿.
    T,
    /// 山.
    U,
    /// 女.
    V,
    /// 田.
    W,
    /// 難.
    X,
    /// 卜.
    Y,
    /// Ｚ.
    ///
    /// This follows libcangjie's behaviour.
    Z,
}

/// A byte is a radical code when it is a lower-case ASCII letter (`a` is 97,
/// `z` is 122).
pub open spec fn is_radical_code(code: u8) -> bool {
    97 <= code <= 122
}

/// A character is a radical glyph when some radical displays as it.
pub open spec fn is_radical_glyph(c: char) -> bool {
    exists|r: CangjieRadical| r.glyph() == c
}

/// The radical whose code is `code` (meaningful for radical codes only).
pub open spec fn radical_of_code(code: u8) -> CangjieRadical {
    if code == 97 {
        CangjieRadical::A
    } else if code == 98 {
        CangjieRadical::B
    } else if code == 99 {
        CangjieRadical::C
    } else if code == 100 {
        CangjieRadical::D
    } else if code == 101 {
        CangjieRadical::E
    } else if code == 102 {
        CangjieRadical::F
    } else if code == 103 {
        CangjieRadical::G
    } else if code == 104 {
        CangjieRadical::H
    } else if code == 105 {
        CangjieRadical::I
    } else if code == 106 {
        CangjieRadical::J
    } else if code == 107 {
        CangjieRadical::K
    } else if code == 108 {
        CangjieRadical::L
    } else if code == 109 {
        CangjieRadical::M
    } else if code == 110 {
        CangjieRadical::N
    } else if code == 111 {
        CangjieRadical::O
    } else if code == 112 {
        CangjieRadical::P
    } else if code == 113 {
        CangjieRadical::Q
    } else if code == 114 {
        CangjieRadical::R
    } else if code == 115 {
        CangjieRadical::S
    } else if code == 116 {
        CangjieRadical::T
    } else if code == 117 {
        CangjieRadical::U
    } else if code == 118 {
        CangjieRadical::V
    } else if code == 119 {
        CangjieRadical::W
    } else if code == 120 {
        CangjieRadical::X
    } else if code == 121 {
        CangjieRadical::Y
    } else {
        CangjieRadical::Z
    }
}

/// The radical displayed as `c` (meaningful for radical glyphs only).
pub open spec fn radical_of_glyph(c: char) -> CangjieRadical {
    if c == '日' {
        CangjieRadical::A
    } else if c == '月' {
        CangjieRadical::B
    } else if c == '金' {
        CangjieRadical::C
    } else if c == '木' {
        CangjieRadical::D
    } else if c == '水' {
        CangjieRadical::E
    } else if c == '火' {
        CangjieRadical::F
    } else if c == '土' {
        CangjieRadical::G
    } else if c == '竹' {
        CangjieRadical::H
    } else if c == '戈' {
        CangjieRadical::I
    } else if c == '十' {
        CangjieRadical::J
    } else if c == '大' {
        CangjieRadical::K
    } else if c == '中' {
        CangjieRadical::L
    } else if c == '一' {
        CangjieRadical::M
    } else if c == '弓' {
        CangjieRadical::N
    } else if c == '人' {
        CangjieRadical::O
    } else if c == '心' {
        CangjieRadical::P
    } else if c == '手' {
        CangjieRadical::Q
    } else if c == '口' {
        CangjieRadical::R
    } else if c == '尸' {
        CangjieRadical::S
    } else if c == '廿' {
        CangjieRadical::T
    } else if c == '山' {
        CangjieRadical::U
    } else if c == '女' {
        CangjieRadical::V
    } else if c == '田' {
        CangjieRadical::W
    } else if c == '難' {
        CangjieRadical::X
    } else if c == '卜' {
        CangjieRadical::Y
    } else {
        CangjieRadical::Z
    }
}

impl CangjieRadical {
    /// The code used by libcangjie (abcdefg…wxyz, as ASCII bytes).
    pub open spec fn code(self) -> u8 {
        match self {
            CangjieRadical::A => 97,
            CangjieRadical::B => 98,
            CangjieRadical::C => 99,
            CangjieRadical::D => 100,
            CangjieRadical::E => 101,
            CangjieRadical::F => 102,
            CangjieRadical::G => 103,
            CangjieRadical::H => 104,
            CangjieRadical::I => 105,
            CangjieRadical::J => 106,
            CangjieRadical::K => 107,
            CangjieRadical::L => 108,
            CangjieRadical::M => 109,
            CangjieRadical::N => 110,
            CangjieRadical::O => 111,
            CangjieRadical::P => 112,
            CangjieRadical::Q => 113,
            CangjieRadical::R => 114,
            CangjieRadical::S => 115,
            CangjieRadical::T => 116,
            CangjieRadical::U => 117,
            CangjieRadical::V => 118,
            CangjieRadical::W => 119,
            CangjieRadical::X => 120,
            CangjieRadical::Y => 121,
            CangjieRadical::Z => 122,
        }
    }

    /// The display glyph (日月金木水火土…田難卜Ｚ).
    pub open spec fn glyph(self) -> char {
        match self {
            CangjieRadical::A => '日',
            CangjieRadical::B => '月',
            CangjieRadical::C => '金',
            CangjieRadical::D => '木',
            CangjieRadical::E => '水',
            CangjieRadical::F => '火',
            CangjieRadical::G => '土',
            CangjieRadical::H => '竹',
            CangjieRadical::I => '戈',
            CangjieRadical::J => '十',
            CangjieRadical::K => '大',
            CangjieRadical::L => '中',
            CangjieRadical::M => '一',
            CangjieRadical::N => '弓',
            CangjieRadical::O => '人',
            CangjieRadical::P => '心',
            CangjieRadical::Q => '手',
            CangjieRadical::R => '口',
            CangjieRadical::S => '尸',
            CangjieRadical::T => '廿',
            CangjieRadical::U => '山',
            CangjieRadical::V => '女',
            CangjieRadical::W => '田',
            CangjieRadical::X => '難',
            CangjieRadical::Y => '卜',
            CangjieRadical::Z => 'Ｚ',
        }
    }

    /// Parses the code used by libcangjie (abcdefg…wxyz).
    #[must_use]
    pub fn from_code(code: u8) -> (r: Self)
        requires
            is_radical_code(code),
        ensures
            r == radical_of_code(code),
            r.code() == code,
    {
        match code {
            97 => Self::A,
            98 => Self::B,
            99 => Self::C,
            100 => Self::D,
            101 => Self::E,
            102 => Self::F,
            103 => Self::G,
            104 => Self::H,
            105 => Self::I,
            106 => Self::J,
            107 => Self::K,
            108 => Self::L,
            109 => Self::M,
            110 => Self::N,
            111 => Self::O,
            112 => Self::P,
            113 => Self::Q,
            114 => Self::R,
            115 => Self::S,
            116 => Self::T,
            117 => Self::U,
            118 => Self::V,
            119 => Self::W,
            120 => Self::X,
            121 => Self::Y,
            122 => Self::Z,
            _ => Self::Z,
        }
    }

    /// Parses the radical glyph (日月金木水火土…田難卜Ｚ).
    ///
    /// Following libcangjie, the glyph of `Z` is "Ｚ", not "重".
    #[must_use]
    pub fn from_radical(radical: char) -> (r: Self)
        requires
            is_radical_glyph(radical),
        ensures
            r == radical_of_glyph(radical),
            r.glyph() == radical,
    {
        match radical {
            '日' => Self::A,
            '月' => Self::B,
            '金' => Self::C,
            '木' => Self::D,
            '水' => Self::E,
            '火' => Self::F,
            '土' => Self::G,
            '竹' => Self::H,
            '戈' => Self::I,
            '十' => Self::J,
            '大' => Self::K,
            '中' => Self::L,
            '一' => Self::M,
            '弓' => Self::N,
            '人' => Self::O,
            '心' => Self::P,
            '手' => Self::Q,
            '口' => Self::R,
            '尸' => Self::S,
            '廿' => Self::T,
            '山' => Self::U,
            '女' => Self::V,
            '田' => Self::W,
            '難' => Self::X,
            '卜' => Self::Y,
            'Ｚ' => Self::Z,
            _ => {
                proof {
                    let w = choose|w: CangjieRadical| w.glyph() == radical;
                    assert(w.glyph() == radical);
                }
                Self::Z
            },
        }
    }

    /// Returns the code used by libcangjie (abcdefg…wxyz).
    #[must_use]
    pub fn to_code(self) -> (r: u8)
        ensures
            r == self.code(),
    {
        match self {
            Self::A => 97,
            Self::B => 98,
            Self::C => 99,
            Self::D => 100,
            Self::E => 101,
            Self::F => 102,
            Self::G => 103,
            Self::H => 104,
            Self::I => 105,
            Self::J => 106,
            Self::K => 107,
            Self::L => 108,
            Self::M => 109,
            Self::N => 110,
            Self::O => 111,
            Self::P => 112,
            Self::Q => 113,
            Self::R => 114,
            Self::S => 115,
            Self::T => 116,
            Self::U => 117,
            Self::V => 118,
            Self::W => 119,
            Self::X => 120,
            Self::Y => 121,
            Self::Z => 122,
        }
    }

    /// Returns the radical glyph (日月金木水火土…田難卜Ｚ).
    ///
    /// Following libcangjie, the glyph of `Z` is "Ｚ", not "重".
    #[must_use]
    pub fn to_radical(self) -> (r: char)
        ensures
            r == self.glyph(),
    {
        match self {
            Self::A => '日',
            Self::B => '月',
            Self::C => '金',
            Self::D => '木',
            Self::E => '水',
            Self::F => '火',
            Self::G => '土',
            Self::H => '竹',
            Self::I => '戈',
            Self::J => '十',
            Self::K => '大',
            Self::L => '中',
            Self::M => '一',
            Self::N => '弓',
            Self::O => '人',
            Self::P => '心',
            Self::Q => '手',
            Self::R => '口',
            Self::S => '尸',
            Self::T => '廿',
            Self::U => '山',
            Self::V => '女',
            Self::W => '田',
            Self::X => '難',
            Self::Y => '卜',
            Self::Z => 'Ｚ',
        }
    }
}

impl CangjieRadical {
    /// Parses a radical code, or returns `None` where `code` is none.
    pub fn try_from_code(code: u8) -> (r: Option<Self>)
        ensures
            r is Some <==> is_radical_code(code),
            r matches Some(x) ==> x == radical_of_code(code),
    {
        if 97 <= code && code <= 122 {
            Some(CangjieRadical::from_code(code))
        } else {
            None
        }
    }

    /// Parses a radical glyph, or returns `None` where `radical` is none.
    pub fn try_from_radical(radical: char) -> (r: Option<Self>)
        ensures
            r is Some <==> is_radical_glyph(radical),
            r matches Some(x) ==> x == radical_of_glyph(radical),
    {
        let mut code: u8 = 97;
        while code <= 122
            invariant
                97 <= code <= 123,
                forall|b: u8| 97 <= b < code ==> (#[trigger] radical_of_code(b)).glyph() != radical,
            decreases 123 - code,
        {
            let r = CangjieRadical::from_code(code);
            if r.to_radical() == radical {
                proof {
                    lemma_glyph_round_trip(radical);
                    lemma_radical_round_trip(r);
                }
                return Some(r);
            }
            code = code + 1;
        }
        proof {
            if is_radical_glyph(radical) {
                let w = choose|w: CangjieRadical| w.glyph() == radical;
                lemma_radical_round_trip(w);
                assert(radical_of_code(w.code()).glyph() != radical);
            }
        }
        None
    }
}

/// Decoding a radical's code, or its glyph, gives the radical back.
pub proof fn lemma_radical_round_trip(r: CangjieRadical)
    ensures
        is_radical_code(r.code()),
        radical_of_code(r.code()) == r,
        is_radical_glyph(r.glyph()),
        radical_of_glyph(r.glyph()) == r,
{
}

/// Encoding the radical of a valid code gives the code back.
pub proof fn lemma_code_round_trip(code: u8)
    requires
        is_radical_code(code),
    ensures
        radical_of_code(code).code() == code,
{
}

/// Encoding the radical of a valid glyph gives the glyph back.
pub proof fn lemma_glyph_round_trip(c: char)
    requires
        is_radical_glyph(c),
    ensures
        radical_of_glyph(c).glyph() == c,
{
    let r = choose|r: CangjieRadical| r.glyph() == c;
    lemma_radical_round_trip(r);
}

/// No radical is encoded by a byte outside `a`..`z`, nor displayed as a
/// character outside the 26 glyphs: such inputs fail the domain checks that
/// `from_code` and `from_radical` require and that `try_from_code` and
/// `try_from_radical` test.
pub proof fn lemma_outside_alphabet(code: u8, c: char)
    ensures
        !is_radical_code(code) ==> forall|r: CangjieRadical| #[trigger] r.code() != code,
        !is_radical_glyph(c) ==> forall|r: CangjieRadical| #[trigger] r.glyph() != c,
{
}

/// Two radicals are equal exactly when their codes are equal, and exactly
/// when their glyphs are equal.
pub proof fn lemma_radical_encodings_injective(a: CangjieRadical, b: CangjieRadical)
    ensures
        a.code() == b.code() <==> a == b,
        a.glyph() == b.glyph() <==> a == b,
{
}

} // verus!
