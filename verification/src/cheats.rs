use vstd::prelude::*;

verus! {

/// The cheat device a code was written for.
#[derive(Clone, Copy, Debug, PartialEq, Eq, Structural)]
pub enum CheatCodeType {
    GameGenie,
    GameShark,
}

/// A parsed cheat: the byte that reads of `address` give while it is enabled, only when the
/// byte there equals `compare` if that is given.
#[derive(Clone, Debug)]
pub struct CheatCode {
    pub description: String,
    pub code: String,
    pub code_type: CheatCodeType,
    pub address: u16,
    pub value: u8,
    pub compare: Option<u8>,
    pub enabled: bool,
}

/// The cheats that patch reads of the address space, in the order they were added.
#[derive(Clone, Debug)]
pub struct CheatTable {
    pub codes: Vec<CheatCode>,
}

/// Whether `code` patches a read of `address` that finds `current_value`.
pub open spec fn patches(code: CheatCode, address: u16, current_value: u8) -> bool {
    &&& code.enabled
    &&& code.address == address
    &&& match code.compare {
        Some(compare) => current_value == compare,
        None => true,
    }
}

/// The value of the first code from `start` on that patches the read, if any.
pub open spec fn first_patch(codes: Seq<CheatCode>, start: int, address: u16, current_value: u8) -> Option<u8>
    decreases codes.len() - start,
{
    if start < 0 || start >= codes.len() {
        None
    } else if patches(codes[start], address, current_value) {
        Some(codes[start].value)
    } else {
        first_patch(codes, start + 1, address, current_value)
    }
}

impl CheatTable {
    /// The state that `default` gives.
    pub open spec fn is_default(&self) -> bool {
        &&& self.codes@.len() == 0
    }
}

impl Default for CheatTable {
    fn default() -> (table: Self)
        ensures
            table.is_default(),
    {
        CheatTable { codes: Vec::new() }
    }
}

impl CheatTable {
    /// Whether the table holds no code.
    pub fn is_empty(&self) -> (empty: bool)
        ensures
            empty == (self.codes@.len() == 0),
    {
        self.codes.len() == 0
    }

    /// The byte that the first matching enabled code puts in place of `current_value` at
    /// `address`, or `None` where no code applies.
    pub fn read_patch(&self, address: u16, current_value: u8) -> (patch: Option<u8>)
        ensures
            patch == first_patch(self.codes@, 0, address, current_value),
    {
        let mut index: usize = 0;
        while index < self.codes.len()
            invariant
                index <= self.codes@.len(),
                first_patch(self.codes@, 0, address, current_value) == first_patch(
                    self.codes@,
                    index as int,
                    address,
                    current_value,
                ),
            decreases self.codes@.len() - index,
        {
            let code = &self.codes[index];
            let applies = code.enabled && code.address == address && match code.compare {
                Some(compare) => current_value == compare,
                None => true,
            };
            if applies {
                return Some(code.value);
            }
            index += 1;
        }
        None
    }

    /// Turns the code at `index` on or off; an index past the table changes nothing.
    pub fn toggle(&mut self, index: usize)
        ensures
            final(self).codes@.len() == old(self).codes@.len(),
            forall|i: int|
                0 <= i < old(self).codes@.len() && i != index ==> #[trigger] final(self).codes@[i] == old(
                    self,
                ).codes@[i],
            index < old(self).codes@.len() ==> final(self).codes@[index as int] == (CheatCode {
                enabled: !old(self).codes@[index as int].enabled,
                ..old(self).codes@[index as int]
            }),
    {
        if index < self.codes.len() {
            let mut code = self.codes.remove(index);
            code.enabled = !code.enabled;
            self.codes.insert(index, code);
            assert forall|i: int|
                0 <= i < old(self).codes@.len() && i != index implies #[trigger] self.codes@[i] == old(
                self,
            ).codes@[i] by {
                if i < index {
                } else {
                }
            }
        }
    }

    /// Removes the code at `index`; an index past the table changes nothing.
    pub fn remove(&mut self, index: usize)
        ensures
            index < old(self).codes@.len() ==> final(self).codes@ == old(self).codes@.remove(index as int),
            index >= old(self).codes@.len() ==> final(self).codes@ == old(self).codes@,
    {
        if index < self.codes.len() {
            self.codes.remove(index);
        }
    }
}

/// Whether `c` is an ASCII letter or digit.
pub open spec fn is_ascii_alphanumeric(c: char) -> bool {
    ('0' <= c && c <= '9') || ('a' <= c && c <= 'z') || ('A' <= c && c <= 'Z')
}

/// Whether `c` is an ASCII hexadecimal digit.
pub open spec fn is_hex_digit(c: char) -> bool {
    ('0' <= c && c <= '9') || ('a' <= c && c <= 'f') || ('A' <= c && c <= 'F')
}

/// The value of a hexadecimal digit.
pub open spec fn hex_value(c: char) -> u8 {
    if '0' <= c && c <= '9' {
        (c as u32 - '0' as u32) as u8
    } else if 'a' <= c && c <= 'f' {
        (c as u32 - 'a' as u32 + 10) as u8
    } else {
        (c as u32 - 'A' as u32 + 10) as u8
    }
}

/// Whether every character of `s` is a hexadecimal digit.
pub open spec fn all_hex(s: Seq<char>) -> bool {
    forall|i: int| 0 <= i < s.len() ==> #[trigger] is_hex_digit(s[i])
}

/// The letters and digits of `s`, in order: what remains of a code once separators go.
pub open spec fn cleaned_code(s: Seq<char>) -> Seq<char> {
    s.filter(|c: char| is_ascii_alphanumeric(c))
}

/// The byte that two hexadecimal digits spell, high digit first.
pub open spec fn hex_byte(s: Seq<char>, i: int) -> u8 {
    (hex_value(s[i]) * 16 + hex_value(s[i + 1])) as u8
}

/// The address and value of an eight-digit GameShark code: a type byte, the value, then the
/// address low byte first.
pub open spec fn spec_game_shark(s: Seq<char>) -> Option<(u16, u8)> {
    if all_hex(s) && s.len() == 8 {
        Some(((hex_byte(s, 6) * 256 + hex_byte(s, 4)) as u16, hex_byte(s, 2)))
    } else {
        None
    }
}

/// A byte rotated right by two bits.
pub open spec fn rotate_right_2(n: u8) -> u8 {
    (n / 4 + (n % 4) * 64) as u8
}

/// The address, value and compare byte of a six- or nine-digit Game Genie code. The value is
/// the first two digits; the address takes digits three to five and the complement of digit
/// six as its top nibble; the compare byte of a nine-digit code is digits seven and nine,
/// inverted, rotated right by two and XORed with 0x45.
pub open spec fn spec_game_genie(s: Seq<char>) -> Option<(u16, u8, Option<u8>)> {
    if all_hex(s) && (s.len() == 6 || s.len() == 9) {
        let value = hex_byte(s, 0);
        let address = ((15 - hex_value(s[5])) * 4096 + hex_value(s[2]) * 256 + hex_value(s[3]) * 16
            + hex_value(s[4])) as u16;
        if s.len() == 6 {
            Some((address, value, None))
        } else {
            let raw = (hex_value(s[6]) * 16 + hex_value(s[8])) as u8;
            Some((address, value, Some(rotate_right_2(raw ^ 0xff) ^ 0x45)))
        }
    } else {
        None
    }
}

/// What a cleaned code decodes to: a GameShark code, then a GameShark code behind an extra
/// `01`, then a Game Genie code, the first that fits winning.
pub open spec fn spec_decoded_cheat(cleaned: Seq<char>) -> Option<(CheatCodeType, u16, u8, Option<u8>)> {
    match spec_game_shark(cleaned) {
        Some((address, value)) => Some((CheatCodeType::GameShark, address, value, None)),
        None => {
            if cleaned.len() == 10 && cleaned[0] == '0' && cleaned[1] == '1' && spec_game_shark(
                cleaned.subrange(2, 10),
            ) is Some {
                let (address, value) = spec_game_shark(cleaned.subrange(2, 10))->0;
                Some((CheatCodeType::GameShark, address, value, None))
            } else {
                match spec_game_genie(cleaned) {
                    Some((address, value, compare)) => Some((CheatCodeType::GameGenie, address, value, compare)),
                    None => None,
                }
            }
        },
    }
}

/// Whether `c` is whitespace as Unicode's White_Space property has it, the property that
/// `char::is_whitespace` and `str::trim` follow.
pub open spec fn is_white_space(c: char) -> bool {
    let n = c as u32;
    ||| 0x09 <= n <= 0x0d
    ||| n == 0x20 || n == 0x85 || n == 0xa0 || n == 0x1680
    ||| 0x2000 <= n <= 0x200a
    ||| n == 0x2028 || n == 0x2029 || n == 0x202f || n == 0x205f || n == 0x3000
}

/// `s` without its leading whitespace.
pub open spec fn trimmed_start(s: Seq<char>) -> Seq<char>
    decreases s.len(),
{
    if s.len() > 0 && is_white_space(s[0]) {
        trimmed_start(s.drop_first())
    } else {
        s
    }
}

/// `s` without its trailing whitespace.
pub open spec fn trimmed_end(s: Seq<char>) -> Seq<char>
    decreases s.len(),
{
    if s.len() > 0 && is_white_space(s.last()) {
        trimmed_end(s.drop_last())
    } else {
        s
    }
}

/// `s` with whitespace trimmed from both ends.
pub open spec fn trimmed(s: Seq<char>) -> Seq<char> {
    trimmed_end(trimmed_start(s))
}

/// Calls `str::trim`, which std documents as returning the string slice with leading and
/// trailing whitespace removed, whitespace being what Unicode's White_Space property names.
#[verifier::external_body]
fn trim(input: &str) -> (result: &str)
    ensures
        result@ == trimmed(input@),
{
    input.trim()
}

/// Whether `c` is an ASCII letter or digit.
fn ascii_alphanumeric(c: char) -> (result: bool)
    ensures
        result == is_ascii_alphanumeric(c),
{
    ('0' <= c && c <= '9') || ('a' <= c && c <= 'z') || ('A' <= c && c <= 'Z')
}

/// The value of `c` as a hexadecimal digit, if it is one.
fn hex_digit_value(c: char) -> (value: Option<u8>)
    ensures
        value == if is_hex_digit(c) {
            Some(hex_value(c))
        } else {
            None::<u8>
        },
{
    if '0' <= c && c <= '9' {
        Some((c as u32 - '0' as u32) as u8)
    } else if 'a' <= c && c <= 'f' {
        Some((c as u32 - 'a' as u32 + 10) as u8)
    } else if 'A' <= c && c <= 'F' {
        Some((c as u32 - 'A' as u32 + 10) as u8)
    } else {
        None
    }
}

/// The digit values of `chars[start..]`, if every one of them is a hexadecimal digit.
fn hex_digits(chars: &[char], start: usize) -> (digits: Option<Vec<u8>>)
    requires
        start <= chars@.len(),
    ensures
        match digits {
            Some(d) => {
                &&& all_hex(chars@.subrange(start as int, chars@.len() as int))
                &&& d@.len() == chars@.len() - start
                &&& forall|i: int| 0 <= i < d@.len() ==> #[trigger] d@[i] == hex_value(chars@[start + i])
                &&& forall|i: int| 0 <= i < d@.len() ==> #[trigger] d@[i] < 16
            },
            None => !all_hex(chars@.subrange(start as int, chars@.len() as int)),
        },
{
    let mut digits: Vec<u8> = Vec::new();
    let mut index = start;
    while index < chars.len()
        invariant
            start <= index <= chars@.len(),
            digits@.len() == index - start,
            forall|i: int| 0 <= i < digits@.len() ==> #[trigger] digits@[i] == hex_value(chars@[start + i]),
            forall|i: int| 0 <= i < digits@.len() ==> #[trigger] digits@[i] < 16,
            forall|i: int| start <= i < index ==> #[trigger] is_hex_digit(chars@[i]),
        decreases chars@.len() - index,
    {
        match hex_digit_value(chars[index]) {
            Some(value) => digits.push(value),
            None => {
                assert(!is_hex_digit(chars@.subrange(start as int, chars@.len() as int)[index - start]));
                return None;
            },
        }
        index += 1;
    }
    assert forall|i: int| 0 <= i < chars@.len() - start implies #[trigger] is_hex_digit(
        chars@.subrange(start as int, chars@.len() as int)[i],
    ) by {
        assert(is_hex_digit(chars@[start + i]));
    }
    Some(digits)
}

/// Decodes an eight-digit GameShark code from `chars[start..]`.
fn parse_game_shark(chars: &[char], start: usize) -> (decoded: Option<(u16, u8)>)
    requires
        start <= chars@.len(),
    ensures
        decoded == spec_game_shark(chars@.subrange(start as int, chars@.len() as int)),
{
    let ghost s = chars@.subrange(start as int, chars@.len() as int);
    let digits = match hex_digits(chars, start) {
        Some(digits) => digits,
        None => return None,
    };
    if digits.len() != 8 {
        return None;
    }
    assert(digits@[2] == hex_value(s[2]) && digits@[3] == hex_value(s[3]));
    assert(digits@[4] == hex_value(s[4]) && digits@[5] == hex_value(s[5]));
    assert(digits@[6] == hex_value(s[6]) && digits@[7] == hex_value(s[7]));
    let value = digits[2] * 16 + digits[3];
    let address_low = (digits[4] * 16 + digits[5]) as u16;
    let address_high = (digits[6] * 16 + digits[7]) as u16;
    Some((address_high * 256 + address_low, value))
}

/// Decodes a six- or nine-digit Game Genie code.
fn parse_game_genie(chars: &[char]) -> (decoded: Option<(u16, u8, Option<u8>)>)
    ensures
        decoded == spec_game_genie(chars@),
{
    let digits = match hex_digits(chars, 0) {
        Some(digits) => digits,
        None => {
            assert(chars@.subrange(0, chars@.len() as int) =~= chars@);
            return None;
        },
    };
    assert(chars@.subrange(0, chars@.len() as int) =~= chars@);
    if digits.len() != 6 && digits.len() != 9 {
        return None;
    }
    assert(forall|i: int| 0 <= i < digits@.len() ==> digits@[i] < 16);
    let value = digits[0] * 16 + digits[1];
    let address = (15 - digits[5]) as u16 * 4096 + digits[2] as u16 * 256 + digits[3] as u16 * 16
        + digits[4] as u16;
    if digits.len() == 6 {
        Some((address, value, None))
    } else {
        let raw = digits[6] * 16 + digits[8];
        let inverted = raw ^ 0xff;
        let rotated = inverted / 4 + (inverted % 4) * 64;
        Some((address, value, Some(rotated ^ 0x45)))
    }
}

/// The letters and digits of `input`, in order.
fn alphanumeric_chars(input: &str) -> (cleaned: Vec<char>)
    ensures
        cleaned@ == cleaned_code(input@),
{
    let mut cleaned: Vec<char> = Vec::new();
    for c in it: input.chars()
        invariant
            it.seq() == input@,
            cleaned@ == cleaned_code(input@.subrange(0, it.index() as int)),
    {
        let ghost before = cleaned@;
        let ghost prefix = input@.subrange(0, it.index() as int + 1);
        if ascii_alphanumeric(c) {
            cleaned.push(c);
        }
        proof {
            assert(prefix.drop_last() =~= input@.subrange(0, it.index() as int));
            assert(prefix.last() == c);
            reveal(Seq::filter);
            assert(cleaned_code(prefix) == if is_ascii_alphanumeric(c) {
                before.push(c)
            } else {
                before
            });
        }
    }
    assert(input@.subrange(0, input@.len() as int) =~= input@);
    cleaned
}

/// Parses a GameShark or Game Genie code, ignoring spaces, dashes and other separators. The
/// code is kept trimmed as it was typed and starts enabled; `None` where no format fits.
pub fn parse_cheat_code(input: &str, description: String) -> (cheat: Option<CheatCode>)
    ensures
        match spec_decoded_cheat(cleaned_code(input@)) {
            Some((code_type, address, value, compare)) => cheat matches Some(c) && c.code_type == code_type
                && c.address == address && c.value == value && c.compare == compare && c.enabled
                && c.description@ == description@ && c.code@ == trimmed(input@),
            None => cheat is None,
        },
{
    let code = trim(input).to_owned();
    let cleaned = alphanumeric_chars(input);
    let ghost s = cleaned@;
    assert(cleaned@.subrange(0, cleaned@.len() as int) =~= cleaned@);
    if let Some((address, value)) = parse_game_shark(cleaned.as_slice(), 0) {
        return Some(
            CheatCode {
                description,
                code,
                code_type: CheatCodeType::GameShark,
                address,
                value,
                compare: None,
                enabled: true,
            },
        );
    }
    if cleaned.len() == 10 && cleaned[0] == '0' && cleaned[1] == '1' {
        assert(cleaned@.subrange(2, cleaned@.len() as int) =~= s.subrange(2, 10));
        if let Some((address, value)) = parse_game_shark(cleaned.as_slice(), 2) {
            return Some(
                CheatCode {
                    description,
                    code,
                    code_type: CheatCodeType::GameShark,
                    address,
                    value,
                    compare: None,
                    enabled: true,
                },
            );
        }
    }
    if let Some((address, value, compare)) = parse_game_genie(cleaned.as_slice()) {
        return Some(
            CheatCode {
                description,
                code,
                code_type: CheatCodeType::GameGenie,
                address,
                value,
                compare,
                enabled: true,
            },
        );
    }
    None
}

} // verus!
