use vstd::prelude::*;

verus! {

/// True of the characters that terminate a line: line feed, carriage return,
/// vertical tab, form feed, next line, line separator and paragraph separator.
pub open spec fn is_line_separator(c: char) -> bool {
    ||| c == '\n'
    ||| c == '\r'
    ||| c == '\u{0B}'
    ||| c == '\u{0C}'
    ||| c == '\u{85}'
    ||| c == '\u{2028}'
    ||| c == '\u{2029}'
}

/// The character at index `i` ends a line. A carriage return immediately followed
/// by a line feed does not end the line itself: the pair counts as one terminator,
/// closed by its line feed.
pub open spec fn ends_line(text: Seq<char>, i: int) -> bool {
    &&& 0 <= i < text.len()
    &&& is_line_separator(text[i])
    &&& !(text[i] == '\r' && i + 1 < text.len() && text[i + 1] == '\n')
}

/// A new line begins at character index `pos`: the character just before it ended a
/// line. No line begins at the very end of the text, so a position at the end of a
/// text with a trailing terminator still falls on the last line.
pub open spec fn line_starts_at(text: Seq<char>, pos: int) -> bool {
    &&& 0 < pos < text.len()
    &&& ends_line(text, pos - 1)
}

/// The 1-based line and column of character position `pos` within `text`,
/// for `0 <= pos <= text.len()`: position 0 is line 1, column 1; crossing a
/// character that ends a line moves to the next line's column 1 when more text
/// follows, and otherwise keeps counting columns on the same line.
pub open spec fn location_of(text: Seq<char>, pos: int) -> (int, int)
    decreases pos,
{
    if pos <= 0 {
        (1, 1)
    } else {
        let prev = location_of(text, pos - 1);
        if line_starts_at(text, pos) {
            (prev.0 + 1, 1)
        } else {
            (prev.0, prev.1 + 1)
        }
    }
}

/// Runtime test for `is_line_separator`.
pub fn is_line_separator_char(c: char) -> (r: bool)
    ensures
        r == is_line_separator(c),
{
    c == '\n' || c == '\r' || c == '\u{0B}' || c == '\u{0C}' || c == '\u{85}' || c == '\u{2028}'
        || c == '\u{2029}'
}

/// Maps a character offset in `text` to its 1-based line and column.
/// Returns `None` exactly when the offset lies beyond the end of the text;
/// spans produced against the same text always lie within it.
/// Pure: the result depends on `text` and `pos` alone.
pub fn line_col(text: &str, pos: usize) -> (r: Option<(usize, usize)>)
    requires
        pos < usize::MAX,
    ensures
        match r {
            Some(lc) => pos <= text@.len() && (lc.0 as int, lc.1 as int) == location_of(
                text@,
                pos as int,
            ),
            None => pos > text@.len(),
        },
{
    let len = text.unicode_len();
    if pos > len {
        return None;
    }
    let mut line: usize = 1;
    let mut col: usize = 1;
    let mut i: usize = 0;
    while i < pos
        invariant
            pos <= len,
            len == text@.len(),
            pos < usize::MAX,
            i <= pos,
            1 <= line <= i + 1,
            1 <= col <= i + 1,
            (line as int, col as int) == location_of(text@, i as int),
        decreases pos - i,
    {
        let c = text.get_char(i);
        let c_ends_line: bool = if is_line_separator_char(c) {
            if c == '\r' && i + 1 < len {
                text.get_char(i + 1) != '\n'
            } else {
                true
            }
        } else {
            false
        };
        if c_ends_line && i + 1 < len {
            line = line + 1;
            col = 1;
        } else {
            col = col + 1;
        }
        i = i + 1;
    }
    Some((line, col))
}

} // verus!
