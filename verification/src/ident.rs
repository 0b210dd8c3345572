//! The canonical text of a 128-bit identifier: thirty-two lowercase hex
//! digits with hyphens after the eighth, twelfth, sixteenth and twentieth
//! digit. Formatting and parsing are inverses, which `lemma_ident_round_trip`
//! states.

use vstd::prelude::*;

verus! {

/// The positions that hold a hyphen in the canonical text.
pub open spec fn is_hyphen_pos(i: int) -> bool {
    i == 8 || i == 13 || i == 18 || i == 23
}

/// The index of the hex digit that stands at text position `i`
/// (meaningful only where `i` is no hyphen position).
pub open spec fn digit_index(i: int) -> int {
    if i < 8 {
        i
    } else if i < 13 {
        i - 1
    } else if i < 18 {
        i - 2
    } else if i < 23 {
        i - 3
    } else {
        i - 4
    }
}

/// The `j`-th hex digit of `n`, most significant first.
pub open spec fn nibble_of(n: u128, j: int) -> u128 {
    (n >> (((31 - j) * 4) as u128)) & 0xf
}

/// The lowercase hex character for a digit value below sixteen.
pub open spec fn nibble_char(v: u128) -> char {
    if v == 0 {
        '0'
    } else if v == 1 {
        '1'
    } else if v == 2 {
        '2'
    } else if v == 3 {
        '3'
    } else if v == 4 {
        '4'
    } else if v == 5 {
        '5'
    } else if v == 6 {
        '6'
    } else if v == 7 {
        '7'
    } else if v == 8 {
        '8'
    } else if v == 9 {
        '9'
    } else if v == 10 {
        'a'
    } else if v == 11 {
        'b'
    } else if v == 12 {
        'c'
    } else if v == 13 {
        'd'
    } else if v == 14 {
        'e'
    } else {
        'f'
    }
}

/// The character of the canonical text of `n` at position `i`.
pub open spec fn id_char_at(n: u128, i: int) -> char {
    if is_hyphen_pos(i) {
        '-'
    } else {
        nibble_char(nibble_of(n, digit_index(i)))
    }
}

/// The canonical text of `n`: 36 characters.
pub open spec fn id_text(n: u128) -> Seq<char> {
    Seq::new(36, |i: int| id_char_at(n, i))
}

/// The value of a hex character, lowercase or uppercase; `None` where the
/// character is no hex digit.
pub open spec fn hex_val(c: char) -> Option<u128> {
    if c == '0' {
        Some(0)
    } else if c == '1' {
        Some(1)
    } else if c == '2' {
        Some(2)
    } else if c == '3' {
        Some(3)
    } else if c == '4' {
        Some(4)
    } else if c == '5' {
        Some(5)
    } else if c == '6' {
        Some(6)
    } else if c == '7' {
        Some(7)
    } else if c == '8' {
        Some(8)
    } else if c == '9' {
        Some(9)
    } else if c == 'a' || c == 'A' {
        Some(10)
    } else if c == 'b' || c == 'B' {
        Some(11)
    } else if c == 'c' || c == 'C' {
        Some(12)
    } else if c == 'd' || c == 'D' {
        Some(13)
    } else if c == 'e' || c == 'E' {
        Some(14)
    } else if c == 'f' || c == 'F' {
        Some(15)
    } else {
        None
    }
}

/// Whether `s` has the shape of a canonical identifier text.
pub open spec fn id_text_wf(s: Seq<char>) -> bool {
    &&& s.len() == 36
    &&& forall|i: int|
        0 <= i < 36 ==> (if is_hyphen_pos(i) {
            s[i] == '-'
        } else {
            hex_val(s[i]) is Some
        })
}

/// The value of the first `j` hex digits of a well-shaped text.
pub open spec fn assemble(s: Seq<char>, j: int) -> u128
    decreases j,
{
    if j <= 0 {
        0
    } else {
        match hex_val(s[digit_index_pos(j - 1)]) {
            Some(v) => (assemble(s, j - 1) << 4) | v,
            None => assemble(s, j - 1) << 4,
        }
    }
}

/// The text position of the `j`-th hex digit: the inverse of `digit_index`.
pub open spec fn digit_index_pos(j: int) -> int {
    if j < 8 {
        j
    } else if j < 12 {
        j + 1
    } else if j < 16 {
        j + 2
    } else if j < 20 {
        j + 3
    } else {
        j + 4
    }
}

/// What parsing a candidate identifier text yields.
pub open spec fn id_of_text(s: Seq<char>) -> Option<u128> {
    if id_text_wf(s) {
        Some(assemble(s, 32))
    } else {
        None
    }
}

/// The number of hex digits among the first `i` text positions.
pub open spec fn digits_before(i: int) -> int {
    if i <= 8 {
        i
    } else if i <= 13 {
        i - 1
    } else if i <= 18 {
        i - 2
    } else if i <= 23 {
        i - 3
    } else {
        i - 4
    }
}

/// A one-character text holding the lowercase hex digit of value `d`.
fn hex_str(d: u8) -> (r: &'static str)
    requires
        d < 16,
    ensures
        r@.len() == 1,
        r@[0] == nibble_char(d as u128),
{
    proof {
        reveal_strlit("0");
        reveal_strlit("1");
        reveal_strlit("2");
        reveal_strlit("3");
        reveal_strlit("4");
        reveal_strlit("5");
        reveal_strlit("6");
        reveal_strlit("7");
        reveal_strlit("8");
        reveal_strlit("9");
        reveal_strlit("a");
        reveal_strlit("b");
        reveal_strlit("c");
        reveal_strlit("d");
        reveal_strlit("e");
        reveal_strlit("f");
    }
    match d {
        0 => "0",
        1 => "1",
        2 => "2",
        3 => "3",
        4 => "4",
        5 => "5",
        6 => "6",
        7 => "7",
        8 => "8",
        9 => "9",
        10 => "a",
        11 => "b",
        12 => "c",
        13 => "d",
        14 => "e",
        _ => "f",
    }
}

/// Renders `n` as its canonical hyphenated text.
pub fn format_id(n: u128) -> (s: String)
    ensures
        s@ == id_text(n),
{
    let mut s = String::new();
    let mut i: usize = 0;
    while i < 36
        invariant
            i <= 36,
            s@.len() == i,
            forall|k: int| 0 <= k < i ==> s@[k] == id_char_at(n, k),
        decreases 36 - i,
    {
        if i == 8 || i == 13 || i == 18 || i == 23 {
            s.append("-");
            proof {
                reveal_strlit("-");
            }
        } else {
            let j: usize = if i < 8 {
                i
            } else if i < 13 {
                i - 1
            } else if i < 18 {
                i - 2
            } else if i < 23 {
                i - 3
            } else {
                i - 4
            };
            let nib: u128 = (n >> (((31 - j) * 4) as u128)) & 0xf;
            proof {
                assert(nib == nibble_of(n, j as int));
                lemma_nibble_bound(n, j as int);
            }
            s.append(hex_str(nib as u8));
        }
        i = i + 1;
    }
    proof {
        assert(s@ =~= id_text(n));
    }
    s
}

/// The value of a hex character, lowercase or uppercase.
fn hex_value(c: char) -> (r: Option<u8>)
    ensures
        match r {
            Some(v) => hex_val(c) == Some(v as u128),
            None => hex_val(c) is None,
        },
{
    if c == '0' {
        Some(0)
    } else if c == '1' {
        Some(1)
    } else if c == '2' {
        Some(2)
    } else if c == '3' {
        Some(3)
    } else if c == '4' {
        Some(4)
    } else if c == '5' {
        Some(5)
    } else if c == '6' {
        Some(6)
    } else if c == '7' {
        Some(7)
    } else if c == '8' {
        Some(8)
    } else if c == '9' {
        Some(9)
    } else if c == 'a' || c == 'A' {
        Some(10)
    } else if c == 'b' || c == 'B' {
        Some(11)
    } else if c == 'c' || c == 'C' {
        Some(12)
    } else if c == 'd' || c == 'D' {
        Some(13)
    } else if c == 'e' || c == 'E' {
        Some(14)
    } else if c == 'f' || c == 'F' {
        Some(15)
    } else {
        None
    }
}

/// Parses a canonical identifier text back into its 128-bit value;
/// returns `None` exactly where the text is malformed.
pub fn parse_id(s: &str) -> (r: Option<u128>)
    ensures
        r == id_of_text(s@),
{
    let len = s.unicode_len();
    if len != 36 {
        return None;
    }
    let mut acc: u128 = 0;
    let mut i: usize = 0;
    while i < 36
        invariant
            i <= 36,
            s@.len() == 36,
            acc == assemble(s@, digits_before(i as int)),
            forall|k: int|
                0 <= k < i ==> (if is_hyphen_pos(k) {
                    s@[k] == '-'
                } else {
                    hex_val(s@[k]) is Some
                }),
        decreases 36 - i,
    {
        let c = s.get_char(i);
        if i == 8 || i == 13 || i == 18 || i == 23 {
            proof {
                reveal_strlit("-");
            }
            if c != '-' {
                assert(!id_text_wf(s@));
                return None;
            }
        } else {
            match hex_value(c) {
                Some(v) => {
                    acc = (acc << 4) | (v as u128);
                    proof {
                        assert(digit_index_pos(digits_before(i as int)) == i);
                        assert(digits_before(i as int + 1) == digits_before(i as int) + 1);
                    }
                },
                None => {
                    assert(!id_text_wf(s@));
                    return None;
                },
            }
        }
        i = i + 1;
    }
    assert(id_text_wf(s@));
    Some(acc)
}

/// The canonical text of an identifier parses back to that identifier:
/// formatting then parsing loses nothing.
pub proof fn lemma_ident_round_trip(n: u128)
    ensures
        id_of_text(id_text(n)) == Some(n),
{
    lemma_id_text_wf(n);
    lemma_assemble_prefix(n, 32);
    assert(n >> (((32 - 32) * 4) as u128) == n) by (bit_vector);
}

/// The canonical text of an identifier is well shaped.
pub proof fn lemma_id_text_wf(n: u128)
    ensures
        id_text_wf(id_text(n)),
{
    assert forall|i: int| 0 <= i < 36 && !is_hyphen_pos(i) implies hex_val(
        id_text(n)[i],
    ) is Some by {
        let j = digit_index(i);
        lemma_nibble_bound(n, j);
        assert(hex_val(nibble_char(nibble_of(n, j))) == Some(nibble_of(n, j)));
    }
}

proof fn lemma_nibble_bound(n: u128, j: int)
    ensures
        nibble_of(n, j) < 16,
{
    let sh = ((31 - j) * 4) as u128;
    assert((n >> sh) & 0xf < 16) by (bit_vector);
}

/// The first `j` digits of the canonical text of `n` assemble to the top
/// `j` nibbles of `n`.
proof fn lemma_assemble_prefix(n: u128, j: int)
    requires
        0 <= j <= 32,
    ensures
        assemble(id_text(n), j) == n >> (((32 - j) * 4) as u128),
    decreases j,
{
    if j == 0 {
        assert(n >> 128u128 == 0) by (bit_vector);
    } else {
        lemma_assemble_prefix(n, j - 1);
        let p = digit_index_pos(j - 1);
        assert(digit_index(p) == j - 1);
        assert(!is_hyphen_pos(p));
        assert(id_text(n)[p] == nibble_char(nibble_of(n, j - 1)));
        lemma_nibble_bound(n, j - 1);
        assert(hex_val(id_text(n)[p]) == Some(nibble_of(n, j - 1)));
        let k = (32 - j) as u128;
        assert(((n >> (((k * 4) + 4) as u128)) << 4) | ((n >> ((k * 4) as u128)) & 0xf) == n >> ((k
            * 4) as u128)) by (bit_vector)
            requires
                k <= 31,
        ;
        assert(nibble_of(n, j - 1) == (n >> ((k * 4) as u128)) & 0xf);
        assert((((32 - (j - 1)) * 4) as u128) == ((k * 4) + 4) as u128);
        assert(((32 - j) * 4) as u128 == (k * 4) as u128);
    }
}

} // verus!
