use libcangjie_howtotype::CangjieRadical;

const CODES: &[u8] = b"abcdefghijklmnopqrstuvwxyz";
const GLYPHS: &str = "日月金木水火土竹戈十大中一弓人心手口尸廿山女田難卜Ｚ";

#[test]
fn radical_a() {
    assert_eq!(CangjieRadical::from_code(b'a'), CangjieRadical::A);
    assert_eq!(CangjieRadical::from_radical('日'), CangjieRadical::A);
    assert_eq!(CangjieRadical::A.to_code(), b'a');
    assert_eq!(CangjieRadical::A.to_radical(), '日');
}

#[test]
fn radical_z_glyph_is_full_width_letter() {
    assert_eq!(CangjieRadical::Z.to_radical(), 'Ｚ');
    assert_eq!(CangjieRadical::from_radical('Ｚ'), CangjieRadical::Z);
    assert_eq!(CangjieRadical::try_from_radical('重'), None);
}

#[test]
fn radical_round_trips_for_all() {
    for (code, glyph) in CODES.iter().copied().zip(GLYPHS.chars()) {
        let r = CangjieRadical::from_code(code);
        assert_eq!(r.to_code(), code);
        assert_eq!(r.to_radical(), glyph);
        assert_eq!(CangjieRadical::from_radical(r.to_radical()), r);
        assert_eq!(CangjieRadical::from_code(r.to_code()), r);
    }
}

#[test]
fn radical_order_follows_codes() {
    assert!(CangjieRadical::A < CangjieRadical::B);
    assert!(CangjieRadical::Y < CangjieRadical::Z);
    assert_eq!(CangjieRadical::from_code(b'r'), CangjieRadical::R);
    assert_eq!(CangjieRadical::from_radical('口'), CangjieRadical::R);
}

#[test]
fn radical_invalid_inputs_are_rejected() {
    assert_eq!(CangjieRadical::try_from_code(b'0'), None);
    assert_eq!(CangjieRadical::try_from_code(b'A'), None);
    assert_eq!(CangjieRadical::try_from_code(b'{'), None);
    assert_eq!(CangjieRadical::try_from_code(b'`'), None);
    assert_eq!(CangjieRadical::try_from_radical('重'), None);
    assert_eq!(CangjieRadical::try_from_radical('a'), None);
}

#[test]
fn radical_checked_parsers_accept_valid_inputs() {
    assert_eq!(CangjieRadical::try_from_code(b'a'), Some(CangjieRadical::A));
    assert_eq!(CangjieRadical::try_from_code(b'z'), Some(CangjieRadical::Z));
    assert_eq!(CangjieRadical::try_from_radical('卜'), Some(CangjieRadical::Y));
    assert_eq!(CangjieRadical::try_from_radical('日'), Some(CangjieRadical::A));
    assert_eq!(CangjieRadical::try_from_radical('Ｚ'), Some(CangjieRadical::Z));
}
