//! Text as a JSON string.
//!
//! A JSON string stands between double quotes. In it a double quote, a
//! backslash and every character below U+0020 are written as escapes; every
//! other character stands as it is.

use vstd::prelude::*;
use vstd::string::*;

verus! {

/// Whether a character cannot stand in a JSON string as it is.
pub open spec fn needs_escape(c: char) -> bool {
    c == '"' || c == '\\' || (c as u32) < 0x20
}

/// The lower-case hexadecimal digit for a number below 16.
pub open spec fn hex_digit(n: int) -> char {
    if n < 10 {
        (('0' as int) + n) as char
    } else {
        (('a' as int) + (n - 10)) as char
    }
}

/// One character as it is written inside a JSON string: a double quote and a
/// backslash behind a backslash; backspace, tab, line feed, form feed and
/// carriage return by their letters; any other character below U+0020 as
/// `\u00` and its two hexadecimal digits; every other character as it is.
pub open spec fn escape(c: char) -> Seq<char> {
    if c == '"' {
        seq!['\\', '"']
    } else if c == '\\' {
        seq!['\\', '\\']
    } else if c == '\u{8}' {
        seq!['\\', 'b']
    } else if c == '\t' {
        seq!['\\', 't']
    } else if c == '\n' {
        seq!['\\', 'n']
    } else if c == '\u{c}' {
        seq!['\\', 'f']
    } else if c == '\r' {
        seq!['\\', 'r']
    } else if (c as u32) < 0x20 {
        seq!['\\', 'u', '0', '0', hex_digit((c as u32) as int / 16), hex_digit((c as u32) as int % 16)]
    } else {
        seq![c]
    }
}

/// A text with each of its characters written as [`escape`] writes it.
pub open spec fn escaped(text: Seq<char>) -> Seq<char>
    decreases text.len(),
{
    if text.len() == 0 {
        Seq::empty()
    } else {
        escape(text[0]) + escaped(text.skip(1))
    }
}

/// A text as a JSON string: the escaped text between double quotes.
pub open spec fn quoted(text: Seq<char>) -> Seq<char> {
    seq!['"'] + escaped(text) + seq!['"']
}

/// Escaping goes character by character: a text with one more character
/// behind it is written as the text, then the character.
pub proof fn lemma_escaped_push(text: Seq<char>, c: char)
    ensures
        escaped(text.push(c)) == escaped(text) + escape(c),
    decreases text.len(),
{
    if text.len() == 0 {
        assert(text.push(c).skip(1) =~= Seq::<char>::empty());
        assert(escaped(text.push(c)) =~= escape(c) + escaped(Seq::<char>::empty()));
        assert(escaped(text) + escape(c) =~= escape(c));
    } else {
        assert(text.push(c).skip(1) =~= text.skip(1).push(c));
        assert(text.push(c)[0] == text[0]);
        lemma_escaped_push(text.skip(1), c);
        assert(escaped(text.push(c)) =~= escape(text[0]) + (escaped(text.skip(1)) + escape(c)));
        assert(escaped(text) + escape(c) =~= escape(text[0]) + (escaped(text.skip(1)) + escape(
            c,
        )));
    }
}

/// The number that a hexadecimal digit stands for, in either case.
pub open spec fn hex_value(c: char) -> Option<int> {
    let code = (c as u32) as int;
    if '0' as int <= code <= '9' as int {
        Some(code - '0' as int)
    } else if 'a' as int <= code <= 'f' as int {
        Some(code - 'a' as int + 10)
    } else if 'A' as int <= code <= 'F' as int {
        Some(code - 'A' as int + 10)
    } else {
        None
    }
}

/// The number that four hexadecimal digits stand for.
pub open spec fn code_unit(digits: Seq<char>) -> Option<int> {
    if digits.len() != 4 {
        None
    } else {
        match (
            hex_value(digits[0]),
            hex_value(digits[1]),
            hex_value(digits[2]),
            hex_value(digits[3]),
        ) {
            (Some(a), Some(b), Some(c), Some(d)) => Some(4096 * a + 256 * b + 16 * c + d),
            _ => None,
        }
    }
}

/// The character that the letter behind a backslash stands for, where the
/// letter is not `u`.
pub open spec fn short_escape(letter: char) -> Option<char> {
    if letter == '"' || letter == '\\' || letter == '/' {
        Some(letter)
    } else if letter == 'b' {
        Some('\u{8}')
    } else if letter == 't' {
        Some('\t')
    } else if letter == 'n' {
        Some('\n')
    } else if letter == 'f' {
        Some('\u{c}')
    } else if letter == 'r' {
        Some('\r')
    } else {
        None
    }
}

/// A character in front of a text that was read, if it was read.
pub open spec fn read_after(c: char, rest: Option<Seq<char>>) -> Option<Seq<char>> {
    match rest {
        Some(rest) => Some(seq![c] + rest),
        None => None,
    }
}

/// What the inside of a JSON string reads as; `None` where it is not the
/// inside of a JSON string.
///
/// A double quote or a character below U+0020 cannot stand there bare. A
/// backslash begins an escape: one of the letters of [`short_escape`], or `u`
/// and four hexadecimal digits. Such digits give a character; two of them in
/// a row give one character above U+FFFF where the first is a high and the
/// second a low surrogate, and a surrogate without its partner is no text.
pub open spec fn unescaped(json: Seq<char>) -> Option<Seq<char>>
    decreases json.len(),
{
    if json.len() == 0 {
        Some(Seq::empty())
    } else if json[0] == '"' || (json[0] as u32) < 0x20 {
        None
    } else if json[0] != '\\' {
        read_after(json[0], unescaped(json.skip(1)))
    } else if json.len() < 2 {
        None
    } else if json[1] != 'u' {
        match short_escape(json[1]) {
            Some(c) => read_after(c, unescaped(json.skip(2))),
            None => None,
        }
    } else if json.len() < 6 {
        None
    } else {
        match code_unit(json.subrange(2, 6)) {
            None => None,
            Some(high) => {
                if high < 0xD800 || 0xDFFF < high {
                    read_after(high as char, unescaped(json.skip(6)))
                } else if 0xDC00 <= high || json.len() < 12 || json[6] != '\\' || json[7] != 'u' {
                    None
                } else {
                    match code_unit(json.subrange(8, 12)) {
                        Some(low) if 0xDC00 <= low <= 0xDFFF => read_after(
                            (0x10000 + (high - 0xD800) * 0x400 + (low - 0xDC00)) as char,
                            unescaped(json.skip(12)),
                        ),
                        _ => None,
                    }
                }
            },
        }
    }
}

/// What a JSON string reads as: what stands between its two double quotes,
/// read by [`unescaped`].
pub open spec fn unquoted(json: Seq<char>) -> Option<Seq<char>> {
    if json.len() >= 2 && json[0] == '"' && json[json.len() - 1] == '"' {
        unescaped(json.subrange(1, json.len() - 1))
    } else {
        None
    }
}

/// One escaped character in front of the inside of a JSON string reads as
/// that character in front of what the rest reads as.
pub proof fn lemma_escape_reads_back(c: char, rest: Seq<char>)
    ensures
        unescaped(escape(c) + rest) == read_after(c, unescaped(rest)),
{
    let json = escape(c) + rest;
    if c == '"' || c == '\\' || c == '\u{8}' || c == '\t' || c == '\n' || c == '\u{c}' || c
        == '\r' {
        assert(json.skip(2) =~= rest);
    } else if (c as u32) < 0x20 {
        let code = (c as u32) as int;
        assert(json.subrange(2, 6) =~= seq!['0', '0', hex_digit(code / 16), hex_digit(code % 16)]);
        assert(hex_value('0') == Some(0int));
        assert(hex_value(hex_digit(code / 16)) == Some(code / 16));
        assert(hex_value(hex_digit(code % 16)) == Some(code % 16));
        assert(code_unit(json.subrange(2, 6)) == Some(code));
        assert(code as char == c);
        assert(json.skip(6) =~= rest);
    } else {
        assert(json.skip(1) =~= rest);
    }
}

/// What [`escaped`] writes reads back as the text it was given: no character
/// of the text ends the string or begins an escape of its own.
pub proof fn lemma_escaped_reads_back(text: Seq<char>)
    ensures
        unescaped(escaped(text)) == Some(text),
    decreases text.len(),
{
    if text.len() > 0 {
        lemma_escaped_reads_back(text.skip(1));
        lemma_escape_reads_back(text[0], escaped(text.skip(1)));
        assert(seq![text[0]] + text.skip(1) =~= text);
    }
}

/// A text written as a JSON string reads back as the text, whatever it holds.
pub proof fn lemma_quoted_reads_back(text: Seq<char>)
    ensures
        unquoted(quoted(text)) == Some(text),
{
    let json = quoted(text);
    assert(json.subrange(1, json.len() - 1) =~= escaped(text));
    lemma_escaped_reads_back(text);
}

/// A text without a double quote, a backslash or a character below U+0020 is
/// written as it is.
pub proof fn lemma_plain_text_is_unchanged(text: Seq<char>)
    requires
        forall|i: int| 0 <= i < text.len() ==> !needs_escape(#[trigger] text[i]),
    ensures
        escaped(text) == text,
        quoted(text) == seq!['"'] + text + seq!['"'],
    decreases text.len(),
{
    if text.len() > 0 {
        assert(!needs_escape(text[0]));
        assert forall|i: int| 0 <= i < text.skip(1).len() implies !needs_escape(
            #[trigger] text.skip(1)[i],
        ) by {
            assert(text.skip(1)[i] == text[i + 1]);
        }
        lemma_plain_text_is_unchanged(text.skip(1));
        assert(seq![text[0]] + text.skip(1) =~= text);
    } else {
        assert(escaped(text) =~= text);
    }
}

/// The digit of [`hex_digit`], as a text of one character.
fn hex_digit_text(n: u32) -> (digit: &'static str)
    requires
        n < 16,
    ensures
        digit@ == seq![hex_digit(n as int)],
{
    let digits = "0123456789abcdef";
    proof {
        reveal_strlit("0123456789abcdef");
    }
    let digit = digits.substring_char(n as usize, n as usize + 1);
    assert(digit@ =~= seq![hex_digit(n as int)]);
    digit
}

/// Writes `text` as a JSON string.
///
/// The text is walked by the index of its characters, which takes time
/// quadratic in its length: this is meant for names, not for documents.
pub fn quote(text: &str) -> (json: String)
    ensures
        json@ == quoted(text@),
{
    let mut json = String::from_str("\"");
    proof {
        reveal_strlit("\"");
        reveal_strlit("\\\"");
        reveal_strlit("\\\\");
        reveal_strlit("\\b");
        reveal_strlit("\\t");
        reveal_strlit("\\n");
        reveal_strlit("\\f");
        reveal_strlit("\\r");
        reveal_strlit("\\u00");
        assert(text@.take(0) =~= Seq::<char>::empty());
        assert(json@ =~= seq!['"'] + escaped(text@.take(0)));
    }
    let length = text.unicode_len();
    let mut i: usize = 0;
    while i < length
        invariant
            i <= length,
            length == text@.len(),
            json@ == seq!['"'] + escaped(text@.take(i as int)),
            "\\\""@ == seq!['\\', '"'],
            "\\\\"@ == seq!['\\', '\\'],
            "\\b"@ == seq!['\\', 'b'],
            "\\t"@ == seq!['\\', 't'],
            "\\n"@ == seq!['\\', 'n'],
            "\\f"@ == seq!['\\', 'f'],
            "\\r"@ == seq!['\\', 'r'],
            "\\u00"@ == seq!['\\', 'u', '0', '0'],
        decreases length - i,
    {
        let c = text.get_char(i);
        proof {
            assert(text@.take(i as int + 1) =~= text@.take(i as int).push(c));
            lemma_escaped_push(text@.take(i as int), c);
        }
        if c == '"' {
            json.append("\\\"");
        } else if c == '\\' {
            json.append("\\\\");
        } else if c == '\u{8}' {
            json.append("\\b");
        } else if c == '\t' {
            json.append("\\t");
        } else if c == '\n' {
            json.append("\\n");
        } else if c == '\u{c}' {
            json.append("\\f");
        } else if c == '\r' {
            json.append("\\r");
        } else if (c as u32) < 0x20 {
            let code = c as u32;
            json.append("\\u00");
            json.append(hex_digit_text(code / 16));
            json.append(hex_digit_text(code % 16));
            assert(json@ =~= seq!['"'] + escaped(text@.take(i as int)) + escape(c));
        } else {
            json.append(text.substring_char(i, i + 1));
            assert(text@.subrange(i as int, i as int + 1) =~= seq![c]);
        }
        assert(json@ =~= seq!['"'] + escaped(text@.take(i as int + 1)));
        i = i + 1;
    }
    json.append("\"");
    proof {
        assert(text@.take(length as int) =~= text@);
    }
    json
}

} // verus!
