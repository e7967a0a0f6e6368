use shining_emulator::cheats::{parse_cheat_code, CheatCode, CheatCodeType, CheatTable};

fn rotate_right(n: u8, shift: u8) -> u8 {
    (n >> shift) | (n << (8 - shift))
}

fn gg6_decode(code: &str) -> (u16, u8) {
    let bytes: Vec<u8> = code
        .chars()
        .map(|c| c.to_digit(16).unwrap() as u8)
        .collect();
    let value = (bytes[0] << 4) | bytes[1];
    let addr = ((0xF - bytes[5]) as u16) << 12
        | (u16::from(bytes[2]) << 8)
        | (u16::from(bytes[3]) << 4)
        | u16::from(bytes[4]);
    (addr, value)
}

fn gg9_compare(code: &str) -> u8 {
    let bytes: Vec<u8> = code
        .chars()
        .map(|c| c.to_digit(16).unwrap() as u8)
        .collect();
    let raw = (bytes[6] << 4) | bytes[8];
    rotate_right(raw ^ 0xFF, 2) ^ 0x45
}

#[test]
fn parse_game_genie_6_char() {
    let code = parse_cheat_code("004-BCE", "test".into()).unwrap();
    let (addr, val) = gg6_decode("004BCE");
    assert_eq!(code.address, addr);
    assert_eq!(code.value, val);
    assert_eq!(code.compare, None);
    assert!(code.enabled);
}

#[test]
fn parse_game_genie_6_char_no_hyphen() {
    let code = parse_cheat_code("004BCE", "test".into()).unwrap();
    let (addr, val) = gg6_decode("004BCE");
    assert_eq!(code.address, addr);
    assert_eq!(code.value, val);
}

#[test]
fn parse_game_genie_9_char() {
    let code = parse_cheat_code("004-BCE-E66", "test".into()).unwrap();
    let (addr, val) = gg6_decode("004BCE");
    assert_eq!(code.address, addr);
    assert_eq!(code.value, val);
    assert_eq!(code.compare, Some(gg9_compare("004BCEE66")));
    assert!(code.enabled);
}

#[test]
fn parse_game_genie_9_char_no_hyphen() {
    let code = parse_cheat_code("004BCEE66", "test".into()).unwrap();
    let (addr, val) = gg6_decode("004BCE");
    assert_eq!(code.address, addr);
    assert_eq!(code.value, val);
    assert_eq!(code.compare, Some(gg9_compare("004BCEE66")));
}

#[test]
fn parse_game_shark_8_hex_standard() {
    let code = parse_cheat_code("010238CD", "test".into()).unwrap();
    assert_eq!(code.address, 0xCD38);
    assert_eq!(code.value, 0x02);
    assert_eq!(code.compare, None);
    assert!(code.enabled);
}

#[test]
fn parse_game_shark_8_hex_with_spaces() {
    let code = parse_cheat_code("01 02 38 CD", "test".into()).unwrap();
    assert_eq!(code.address, 0xCD38);
    assert_eq!(code.value, 0x02);
}

#[test]
fn parse_game_shark_10_hex_with_01_prefix() {
    let code = parse_cheat_code("01010238CD", "test".into()).unwrap();
    assert_eq!(code.address, 0xCD38);
    assert_eq!(code.value, 0x02);
}

#[test]
fn parse_game_shark_10_hex_with_spaces() {
    let code = parse_cheat_code("01 0102 38CD", "test".into()).unwrap();
    assert_eq!(code.address, 0xCD38);
    assert_eq!(code.value, 0x02);
}

#[test]
fn parse_rejects_invalid_input() {
    assert!(parse_cheat_code("", "test".into()).is_none());
    assert!(parse_cheat_code("XYZ", "test".into()).is_none());
    assert!(parse_cheat_code("AAAA", "test".into()).is_none());
    assert!(parse_cheat_code("01", "test".into()).is_none());
    assert!(parse_cheat_code("GGGGGG", "test".into()).is_none());
}

#[test]
fn parse_game_genie_known_example() {
    let code = parse_cheat_code("004-BCE-E66", "test".into()).unwrap();
    assert_eq!(code.address, 0x14BC);
    assert_eq!(code.value, 0x00);
    assert_eq!(code.compare, Some(0x03));
}

#[test]
fn parse_game_shark_known_example() {
    let code = parse_cheat_code("010238CD", "test".into()).unwrap();
    assert_eq!(code.address, 0xCD38);
    assert_eq!(code.value, 0x02);
}

#[test]
fn parsed_codes_keep_the_trimmed_text_and_description() {
    let code = parse_cheat_code("  01 02 38 CD \n", "infinite lives".into()).unwrap();
    assert_eq!(code.code, "01 02 38 CD");
    assert_eq!(code.description, "infinite lives");
    assert_eq!(code.code_type, CheatCodeType::GameShark);
    let code = parse_cheat_code("004-BCE", String::new()).unwrap();
    assert_eq!(code.code_type, CheatCodeType::GameGenie);
}

fn cheat(address: u16, value: u8, compare: Option<u8>, enabled: bool) -> CheatCode {
    CheatCode {
        description: String::new(),
        code: String::new(),
        code_type: CheatCodeType::GameShark,
        address,
        value,
        compare,
        enabled,
    }
}

#[test]
fn read_patch_uses_the_first_enabled_matching_code() {
    let mut table = CheatTable::default();
    assert!(table.is_empty());
    assert_eq!(table.read_patch(0xc000, 0x10), None);
    table.codes.push(cheat(0xc000, 0x11, None, false));
    table.codes.push(cheat(0xc000, 0x22, Some(0x05), true));
    table.codes.push(cheat(0xc000, 0x33, None, true));
    table.codes.push(cheat(0xc000, 0x44, None, true));
    assert!(!table.is_empty());
    assert_eq!(table.read_patch(0xc000, 0x05), Some(0x22));
    assert_eq!(table.read_patch(0xc000, 0x06), Some(0x33));
    assert_eq!(table.read_patch(0xc001, 0x05), None);

    table.toggle(0);
    assert!(table.codes[0].enabled);
    assert_eq!(table.read_patch(0xc000, 0x05), Some(0x11));
    table.toggle(9);
    table.remove(0);
    table.remove(9);
    assert_eq!(table.codes.len(), 3);
    assert_eq!(table.read_patch(0xc000, 0x05), Some(0x22));
}

#[test]
fn parsed_code_keeps_the_text_trimmed_of_surrounding_whitespace() {
    let code = parse_cheat_code(" \t004-BCE\u{3000}\n", "test".into()).unwrap();

    assert_eq!(code.code, "004-BCE");
}
