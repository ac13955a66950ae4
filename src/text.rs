//! Mapping editor columns (UTF-16 code units) onto a line's characters and
//! bytes, and extracting the text a range selects.
use vstd::prelude::*;

use crate::selection::SelectionPosition;

verus! {

/// UTF-16 code units that encode `c`.
pub open spec fn utf16_width(c: char) -> nat {
    if (c as u32) <= 0xFFFF {
        1
    } else {
        2
    }
}

/// UTF-8 bytes that encode `c`.
pub open spec fn utf8_width(c: char) -> nat {
    if (c as u32) < 0x80 {
        1
    } else if (c as u32) < 0x800 {
        2
    } else if (c as u32) < 0x10000 {
        3
    } else {
        4
    }
}

/// Length of `s` in UTF-16 code units.
pub open spec fn utf16_len(s: Seq<char>) -> nat
    decreases s.len(),
{
    if s.len() == 0 {
        0
    } else {
        utf16_len(s.drop_last()) + utf16_width(s.last())
    }
}

/// Length of `s` in UTF-8 bytes.
pub open spec fn utf8_len(s: Seq<char>) -> nat
    decreases s.len(),
{
    if s.len() == 0 {
        0
    } else {
        utf8_len(s.drop_last()) + utf8_width(s.last())
    }
}

/// Index of the first character, at or after `k`, whose code units reach past
/// `unit`; the length of `s` when there is none.
pub open spec fn char_index_from(s: Seq<char>, unit: nat, k: nat) -> nat
    decreases s.len() - k,
{
    if k >= s.len() {
        s.len()
    } else if unit < utf16_len(s.take(k as int + 1)) {
        k
    } else {
        char_index_from(s, unit, k + 1)
    }
}

/// The character that code-unit offset `unit` falls in (or `s.len()` at the end).
pub open spec fn char_index_of_unit(s: Seq<char>, unit: nat) -> nat {
    char_index_from(s, unit, 0)
}

/// Character index for a code-unit offset: defined for offsets up to the
/// line's length in code units.
pub open spec fn char_offset(s: Seq<char>, unit: nat) -> Option<nat> {
    if unit <= utf16_len(s) {
        Some(char_index_of_unit(s, unit))
    } else {
        None
    }
}

/// Byte offset for a code-unit offset: the start of the character that the
/// offset falls in, the line's byte length at its end, none beyond.
pub open spec fn byte_offset(s: Seq<char>, unit: nat) -> Option<nat> {
    match char_offset(s, unit) {
        Some(k) => Some(utf8_len(s.take(k as int))),
        None => None,
    }
}

/// A line whose lengths in bytes and in code units are machine sizes.
pub open spec fn line_fits(s: Seq<char>) -> bool {
    utf8_len(s) <= usize::MAX && utf16_len(s) <= usize::MAX
}

/// A prefix is no longer than the whole, in code units and in bytes.
proof fn lemma_prefix_lens_le(s: Seq<char>, i: int)
    requires
        0 <= i <= s.len(),
    ensures
        utf16_len(s.take(i)) <= utf16_len(s),
        utf8_len(s.take(i)) <= utf8_len(s),
    decreases s.len() - i,
{
    if i < s.len() {
        lemma_prefix_lens_le(s, i + 1);
        assert(s.take(i + 1).drop_last() =~= s.take(i));
    } else {
        assert(s.take(i) =~= s);
    }
}

fn unit_width(c: char) -> (r: usize)
    ensures
        r == utf16_width(c),
{
    if (c as u32) <= 0xFFFF {
        1
    } else {
        2
    }
}

fn byte_width(c: char) -> (r: usize)
    ensures
        r == utf8_width(c),
{
    let v = c as u32;
    if v < 0x80 {
        1
    } else if v < 0x800 {
        2
    } else if v < 0x10000 {
        3
    } else {
        4
    }
}

/// Character index within `line` for the UTF-16 offset `utf16_pos`.
fn char_pos_to_char_index(line: &str, utf16_pos: usize) -> (r: Option<usize>)
    requires
        line_fits(line@),
    ensures
        r matches Some(k) ==> char_offset(line@, utf16_pos as nat) == Some(k as nat),
        r is None ==> char_offset(line@, utf16_pos as nat) is None,
{
    char_and_byte_pos(line, utf16_pos).0
}

/// Walks `line` once, giving the character index and the byte offset that a
/// UTF-16 offset maps to.
fn char_and_byte_pos(line: &str, utf16_pos: usize) -> (r: (Option<usize>, Option<usize>))
    requires
        line_fits(line@),
    ensures
        r.0 matches Some(k) ==> char_offset(line@, utf16_pos as nat) == Some(k as nat),
        r.0 is None ==> char_offset(line@, utf16_pos as nat) is None,
        r.1 matches Some(b) ==> byte_offset(line@, utf16_pos as nat) == Some(b as nat),
        r.1 is None ==> byte_offset(line@, utf16_pos as nat) is None,
{
    let ghost s = line@;
    let n = line.unicode_len();
    let mut i: usize = 0;
    let mut units: usize = 0;
    let mut bytes: usize = 0;
    proof {
        lemma_prefix_lens_le(s, 0);
    }
    while i < n
        invariant
            n == s.len(),
            line@ == s,
            line_fits(s),
            i <= n,
            units == utf16_len(s.take(i as int)),
            bytes == utf8_len(s.take(i as int)),
            units <= utf16_pos,
            char_index_of_unit(s, utf16_pos as nat) == char_index_from(s, utf16_pos as nat, i as nat),
        decreases n - i,
    {
        let c = line.get_char(i);
        let w16 = unit_width(c);
        let w8 = byte_width(c);
        proof {
            assert(s.take(i as int + 1).drop_last() =~= s.take(i as int));
            assert(s.take(i as int + 1).last() == c);
            lemma_prefix_lens_le(s, i as int + 1);
        }
        if utf16_pos < units + w16 {
            return (Some(i), Some(bytes));
        }
        units = units + w16;
        bytes = bytes + w8;
        i = i + 1;
    }
    proof {
        assert(s.take(n as int) =~= s);
    }
    if units == utf16_pos {
        (Some(n), Some(bytes))
    } else {
        (None, None)
    }
}

/// Convert an editor column (UTF-16 code units) to a byte offset in `line`.
///
/// The offset lands on the start of the character that the column falls in;
/// a column equal to the line's length maps to its byte length; a column past
/// the end has no byte offset.
pub fn char_pos_to_byte_pos(line: &str, utf16_pos: usize) -> (r: Option<usize>)
    requires
        line_fits(line@),
    ensures
        r matches Some(b) ==> byte_offset(line@, utf16_pos as nat) == Some(b as nat),
        r is None ==> byte_offset(line@, utf16_pos as nat) is None,
{
    char_and_byte_pos(line, utf16_pos).1
}


/// What line `k` contributes to a selection spanning several lines, before its
/// line break: the first line from the start column on, the last one up to
/// the end column, the lines between whole. An unmappable column contributes
/// nothing.
pub open spec fn multi_line_piece(lines: Seq<Seq<char>>, start: SelectionPosition, end: SelectionPosition, k: int) -> Seq<char> {
    let line = lines[k];
    if k == start.line {
        match char_offset(line, start.character as nat) {
            Some(a) => line.subrange(a as int, line.len() as int),
            None => Seq::empty(),
        }
    } else if k == end.line {
        match char_offset(line, end.character as nat) {
            Some(b) => line.take(b as int),
            None => Seq::empty(),
        }
    } else {
        line
    }
}

/// The text that lines `start.line .. upto` contribute: each existing line's
/// piece, followed by a line break unless it is the end line. Lines past the
/// end of the file contribute nothing.
pub open spec fn multi_line_text(lines: Seq<Seq<char>>, start: SelectionPosition, end: SelectionPosition, upto: int) -> Seq<char>
    decreases upto - start.line,
{
    if upto <= start.line {
        Seq::empty()
    } else {
        let k = upto - 1;
        let before = multi_line_text(lines, start, end, k);
        if k >= lines.len() {
            before
        } else if k < end.line {
            before + multi_line_piece(lines, start, end, k) + seq!['\n']
        } else {
            before + multi_line_piece(lines, start, end, k)
        }
    }
}

/// The text that the range from `start` to `end` selects in `lines`.
///
/// On one line: the characters between the two mapped columns, or nothing
/// when the line is missing, a column does not map, or the columns are
/// reversed. Over several lines: see `multi_line_text`. A range whose end line
/// comes before its start line selects nothing.
pub open spec fn range_text(lines: Seq<Seq<char>>, start: SelectionPosition, end: SelectionPosition) -> Seq<char> {
    if start.line == end.line {
        if start.line < lines.len() {
            let line = lines[start.line as int];
            match (char_offset(line, start.character as nat), char_offset(line, end.character as nat)) {
                (Some(a), Some(b)) => if a <= b {
                    line.subrange(a as int, b as int)
                } else {
                    Seq::empty()
                },
                _ => Seq::empty(),
            }
        } else {
            Seq::empty()
        }
    } else {
        multi_line_text(lines, start, end, end.line + 1)
    }
}

/// The views of a sequence of lines.
pub open spec fn lines_view(lines: Seq<String>) -> Seq<Seq<char>> {
    lines.map_values(|l: String| l@)
}

/// Every line has machine-sized lengths.
pub open spec fn lines_fit(lines: Seq<String>) -> bool {
    forall|i: int| 0 <= i < lines.len() ==> line_fits(#[trigger] lines[i]@)
}

proof fn lemma_missing_lines_add_nothing(lines: Seq<Seq<char>>, start: SelectionPosition, end: SelectionPosition, upto: int)
    requires
        lines.len() <= upto,
        start.line <= lines.len(),
    ensures
        multi_line_text(lines, start, end, upto) == multi_line_text(lines, start, end, lines.len() as int),
    decreases upto,
{
    if upto > lines.len() {
        lemma_missing_lines_add_nothing(lines, start, end, upto - 1);
    }
}

/// Extract the text that the range from `start` to `end` selects in `lines`
/// (a file's content split into lines, without their line breaks).
pub fn extract_range_text(lines: &Vec<String>, start: SelectionPosition, end: SelectionPosition) -> (r: String)
    requires
        lines_fit(lines@),
    ensures
        r@ == range_text(lines_view(lines@), start, end),
{
    let ghost ls = lines_view(lines@);
    if start.line == end.line {
        let l = start.line as usize;
        if l < lines.len() {
            let line = lines[l].as_str();
            assert(line@ == ls[l as int]);
            let a = char_pos_to_char_index(line, start.character as usize);
            let b = char_pos_to_char_index(line, end.character as usize);
            match (a, b) {
                (Some(a), Some(b)) => {
                    if a <= b {
                        proof {
                            lemma_char_offset_le_len(line@, start.character as nat);
                            lemma_char_offset_le_len(line@, end.character as nat);
                        }
                        let piece = line.substring_char(a, b);
                        return String::from_str(piece);
                    }
                },
                _ => {},
            }
        }
        return String::new();
    }
    let mut out = String::new();
    if start.line > end.line {
        assert(out@ =~= range_text(ls, start, end));
        return out;
    }
    let n = lines.len();
    let mut k: usize = start.line as usize;
    if k > n {
        proof {
            lemma_missing_lines_add_nothing_from_start(ls, start, end, end.line + 1);
        }
        return out;
    }
    while k <= end.line as usize && k < n
        invariant
            start.line < end.line,
            start.line <= k,
            k <= end.line as int + 1,
            k <= n,
            n == lines.len(),
            ls == lines_view(lines@),
            lines_fit(lines@),
            out@ == multi_line_text(ls, start, end, k as int),
        decreases n - k,
    {
        let line = lines[k].as_str();
        assert(line@ == ls[k as int]);
        assert(line_fits(line@));
        if k == start.line as usize {
            let a = char_pos_to_char_index(line, start.character as usize);
            if let Some(a) = a {
                proof {
                    lemma_char_offset_le_len(line@, start.character as nat);
                }
                let piece = line.substring_char(a, line.unicode_len());
                out.append(piece);
            }
        } else if k == end.line as usize {
            let b = char_pos_to_char_index(line, end.character as usize);
            if let Some(b) = b {
                proof {
                    lemma_char_offset_le_len(line@, end.character as nat);
                }
                let piece = line.substring_char(0, b);
                out.append(piece);
            }
        } else {
            out.append(line);
        }
        assert(out@ == multi_line_text(ls, start, end, k as int) + multi_line_piece(ls, start, end, k as int));
        if k < end.line as usize {
            out.append("\n");
            proof {
                reveal_strlit("\n");
            }
        }
        k = k + 1;
    }
    proof {
        if k <= end.line {
            lemma_missing_lines_add_nothing(ls, start, end, end.line + 1);
        }
    }
    out
}

proof fn lemma_missing_lines_add_nothing_from_start(lines: Seq<Seq<char>>, start: SelectionPosition, end: SelectionPosition, upto: int)
    requires
        lines.len() <= start.line,
    ensures
        multi_line_text(lines, start, end, upto) == Seq::<char>::empty(),
    decreases upto - start.line,
{
    if upto > start.line {
        lemma_missing_lines_add_nothing_from_start(lines, start, end, upto - 1);
    }
}

proof fn lemma_char_index_from_le_len(s: Seq<char>, unit: nat, k: nat)
    ensures
        char_index_from(s, unit, k) <= s.len(),
    decreases s.len() - k,
{
    if k < s.len() && !(unit < utf16_len(s.take(k as int + 1))) {
        lemma_char_index_from_le_len(s, unit, k + 1);
    }
}

proof fn lemma_char_offset_le_len(s: Seq<char>, unit: nat)
    ensures
        char_offset(s, unit) matches Some(k) ==> k <= s.len(),
{
    lemma_char_index_from_le_len(s, unit, 0);
}


proof fn lemma_longer_prefix_more_bytes(s: Seq<char>, a: int, b: int)
    requires
        0 <= a < b <= s.len(),
    ensures
        utf8_len(s.take(a)) < utf8_len(s.take(b)),
    decreases b - a,
{
    assert(s.take(b).drop_last() =~= s.take(b - 1));
    if a < b - 1 {
        lemma_longer_prefix_more_bytes(s, a, b - 1);
    }
}

/// Character offsets and the byte offsets they start at are ordered alike, so
/// comparing the mapped columns by character or by byte decides the same.
pub proof fn lemma_byte_offsets_ordered(s: Seq<char>, a: int, b: int)
    requires
        0 <= a <= s.len(),
        0 <= b <= s.len(),
    ensures
        (a <= b) == (utf8_len(s.take(a)) <= utf8_len(s.take(b))),
{
    if a < b {
        lemma_longer_prefix_more_bytes(s, a, b);
    } else if b < a {
        lemma_longer_prefix_more_bytes(s, b, a);
    }
}

/// Whether `a` and `b` hold the same characters.
pub fn text_eq(a: &str, b: &str) -> (r: bool)
    ensures
        r == (a@ == b@),
{
    let n = a.unicode_len();
    if n != b.unicode_len() {
        return false;
    }
    let mut i: usize = 0;
    while i < n
        invariant
            n == a@.len(),
            n == b@.len(),
            i <= n,
            a@.take(i as int) == b@.take(i as int),
        decreases n - i,
    {
        if a.get_char(i) != b.get_char(i) {
            assert(a@[i as int] != b@[i as int]);
            return false;
        }
        assert(a@.take(i as int + 1) =~= a@.take(i as int).push(a@[i as int]));
        assert(b@.take(i as int + 1) =~= b@.take(i as int).push(b@[i as int]));
        i = i + 1;
    }
    assert(a@ =~= a@.take(n as int));
    assert(b@ =~= b@.take(n as int));
    true
}

/// Whether `s` begins with `prefix`.
pub open spec fn has_prefix(s: Seq<char>, prefix: Seq<char>) -> bool {
    prefix.len() <= s.len() && s.take(prefix.len() as int) == prefix
}

/// Whether `s` begins with `prefix`.
pub fn starts_with_text(s: &str, prefix: &str) -> (r: bool)
    ensures
        r == has_prefix(s@, prefix@),
{
    let n = prefix.unicode_len();
    if n > s.unicode_len() {
        return false;
    }
    let mut i: usize = 0;
    while i < n
        invariant
            n == prefix@.len(),
            n <= s@.len(),
            i <= n,
            s@.take(i as int) == prefix@.take(i as int),
        decreases n - i,
    {
        if s.get_char(i) != prefix.get_char(i) {
            assert(s@.take(n as int)[i as int] != prefix@[i as int]);
            return false;
        }
        assert(s@.take(i as int + 1) =~= s@.take(i as int).push(s@[i as int]));
        assert(prefix@.take(i as int + 1) =~= prefix@.take(i as int).push(prefix@[i as int]));
        i = i + 1;
    }
    assert(prefix@ =~= prefix@.take(n as int));
    true
}

/// Whether `t` occurs in `s`.
pub open spec fn contains_text(s: Seq<char>, t: Seq<char>) -> bool {
    exists|i: int| 0 <= i && i + t.len() <= s.len() && #[trigger] s.subrange(i, i + t.len()) == t
}

fn occurs_at(s: &str, t: &str, i: usize) -> (r: bool)
    requires
        i + t@.len() <= s@.len(),
        s@.len() <= usize::MAX,
    ensures
        r == (s@.subrange(i as int, i + t@.len()) == t@),
{
    let m = t.unicode_len();
    let mut j: usize = 0;
    while j < m
        invariant
            m == t@.len(),
            i + m <= s@.len(),
            s@.len() <= usize::MAX,
            j <= m,
            s@.subrange(i as int, i + j) == t@.take(j as int),
        decreases m - j,
    {
        if s.get_char(i + j) != t.get_char(j) {
            assert(s@.subrange(i as int, i + m)[j as int] != t@[j as int]);
            return false;
        }
        assert(s@.subrange(i as int, i + j + 1) =~= s@.subrange(i as int, i + j).push(s@[i + j]));
        assert(t@.take(j as int + 1) =~= t@.take(j as int).push(t@[j as int]));
        j = j + 1;
    }
    assert(t@ =~= t@.take(m as int));
    true
}

/// Whether `t` occurs in `s`.
pub fn contains(s: &str, t: &str) -> (r: bool)
    ensures
        r == contains_text(s@, t@),
{
    let n = s.unicode_len();
    let m = t.unicode_len();
    if m > n {
        return false;
    }
    let mut i: usize = 0;
    while i < n - m
        invariant
            n == s@.len(),
            m == t@.len(),
            m <= n,
            i <= n - m,
            forall|k: int| 0 <= k < i ==> #[trigger] s@.subrange(k, k + m) != t@,
        decreases n - m - i,
    {
        if occurs_at(s, t, i) {
            return true;
        }
        i = i + 1;
    }
    occurs_at(s, t, i)
}

/// The scheme prefix of file URLs.
pub open spec fn file_scheme() -> Seq<char> {
    "file://"@
}

/// `path` without a leading `file://`.
pub open spec fn strip_file_scheme(path: Seq<char>) -> Seq<char> {
    if has_prefix(path, file_scheme()) {
        path.subrange(file_scheme().len() as int, path.len() as int)
    } else {
        path
    }
}

/// The filesystem path a document reference names: the text after a leading
/// `file://`, or the reference unchanged.
pub fn file_path_of(path: &str) -> (r: String)
    ensures
        r@ == strip_file_scheme(path@),
{
    proof {
        reveal_strlit("file://");
    }
    if starts_with_text(path, "file://") {
        let n = path.unicode_len();
        String::from_str(path.substring_char(7, n))
    } else {
        String::from_str(path)
    }
}

/// The decimal digit `d` as a character.
pub open spec fn digit_char(d: nat) -> char {
    if d == 0 { '0' } else if d == 1 { '1' } else if d == 2 { '2' } else if d == 3 { '3' } else if d
        == 4 { '4' } else if d == 5 { '5' } else if d == 6 { '6' } else if d == 7 { '7' } else if d
        == 8 { '8' } else { '9' }
}

/// `n` written in decimal, without leading zeros.
pub open spec fn decimal(n: nat) -> Seq<char>
    decreases n,
{
    if n < 10 {
        seq![digit_char(n)]
    } else {
        decimal(n / 10) + seq![digit_char(n % 10)]
    }
}

fn digit_str(d: u64) -> (r: &'static str)
    requires
        d < 10,
    ensures
        r@ == seq![digit_char(d as nat)],
{
    proof {
        reveal_strlit("0");
        reveal_strlit("1");
        reveal_strlit("2");
        reveal_strlit("3");
        reveal_strlit("4");
        reveal_strlit("5");
        reveal_strlit("6");
        reveal_strlit("7");
        reveal_strlit("8");
        reveal_strlit("9");
    }
    if d == 0 {
        "0"
    } else if d == 1 {
        "1"
    } else if d == 2 {
        "2"
    } else if d == 3 {
        "3"
    } else if d == 4 {
        "4"
    } else if d == 5 {
        "5"
    } else if d == 6 {
        "6"
    } else if d == 7 {
        "7"
    } else if d == 8 {
        "8"
    } else {
        "9"
    }
}

/// `n` in decimal.
pub fn decimal_string(n: u64) -> (r: String)
    ensures
        r@ == decimal(n as nat),
    decreases n,
{
    if n < 10 {
        String::from_str(digit_str(n))
    } else {
        let mut s = decimal_string(n / 10);
        s.append(digit_str(n % 10));
        s
    }
}

} // verus!
