//! Setting the program up by hand: what an answer at the prompt means, and
//! the text of the settings file.

use vstd::prelude::*;

verus! {

/// Whether a character is white space, as Unicode's property `White_Space`
/// has it.
pub open spec fn is_space(c: char) -> bool {
    let n = c as u32;
    ||| 0x09 <= n <= 0x0D
    ||| n == 0x20
    ||| n == 0x85
    ||| n == 0xA0
    ||| n == 0x1680
    ||| 0x2000 <= n <= 0x200A
    ||| n == 0x2028
    ||| n == 0x2029
    ||| n == 0x202F
    ||| n == 0x205F
    ||| n == 0x3000
}

/// A text without the white space it begins with.
pub open spec fn skip_spaces(s: Seq<char>) -> Seq<char>
    decreases s.len(),
{
    if s.len() > 0 && is_space(s[0]) {
        skip_spaces(s.drop_first())
    } else {
        s
    }
}

/// A text without the white space it ends with.
pub open spec fn drop_trailing_spaces(s: Seq<char>) -> Seq<char>
    decreases s.len(),
{
    if s.len() > 0 && is_space(s.last()) {
        drop_trailing_spaces(s.drop_last())
    } else {
        s
    }
}

/// A text without the white space around it.
pub open spec fn trim_of(s: Seq<char>) -> Seq<char> {
    drop_trailing_spaces(skip_spaces(s))
}

fn space(c: char) -> (r: bool)
    ensures
        r == is_space(c),
{
    let n: u32 = c as u32;
    (0x09 <= n && n <= 0x0D) || n == 0x20 || n == 0x85 || n == 0xA0 || n == 0x1680 || (0x2000 <= n
        && n <= 0x200A) || n == 0x2028 || n == 0x2029 || n == 0x202F || n == 0x205F || n == 0x3000
}

/// A line without the white space around it.
pub fn trimmed(line: &str) -> (text: &str)
    ensures
        text@ == trim_of(line@),
{
    let len = line.unicode_len();
    let mut from: usize = 0;
    assert(line@.subrange(0, len as int) =~= line@);
    while from < len && space(line.get_char(from))
        invariant
            from <= len,
            len == line@.len(),
            skip_spaces(line@) == skip_spaces(line@.subrange(from as int, len as int)),
        decreases len - from,
    {
        proof {
            let rest = line@.subrange(from as int, len as int);
            assert(rest[0] == line@[from as int]);
            assert(rest.drop_first() =~= line@.subrange(from + 1, len as int));
        }
        from += 1;
    }
    proof {
        let rest = line@.subrange(from as int, len as int);
        if from < len {
            assert(rest[0] == line@[from as int]);
        }
        assert(skip_spaces(line@) == rest);
    }
    let mut to: usize = len;
    while to > from && space(line.get_char(to - 1))
        invariant
            from <= to <= len,
            len == line@.len(),
            trim_of(line@) == drop_trailing_spaces(line@.subrange(from as int, to as int)),
        decreases to - from,
    {
        proof {
            let rest = line@.subrange(from as int, to as int);
            assert(rest.last() == line@[to - 1]);
            assert(rest.drop_last() =~= line@.subrange(from as int, to - 1));
        }
        to -= 1;
    }
    proof {
        let rest = line@.subrange(from as int, to as int);
        if to > from {
            assert(rest.last() == line@[to - 1]);
        }
        assert(trim_of(line@) == rest);
    }
    line.substring_char(from, to)
}

/// What an answer at a prompt means.
#[derive(Debug, Clone, Copy, PartialEq, Eq)]
pub enum Answer {
    Yes,
    No,
    /// Neither: the prompt that wants a yes or a no asks again.
    Unclear,
}

/// The meaning of an answer that has no white space around it: `Y` or `y`
/// is a yes, `N` or `n` a no.
pub open spec fn answer_of(text: Seq<char>) -> Answer {
    if text == seq!['Y'] || text == seq!['y'] {
        Answer::Yes
    } else if text == seq!['N'] || text == seq!['n'] {
        Answer::No
    } else {
        Answer::Unclear
    }
}

/// What a line typed at a prompt means, white space around it aside.
pub fn read_answer(line: &str) -> (answer: Answer)
    ensures
        answer == answer_of(trim_of(line@)),
{
    let text = trimmed(line);
    if text.unicode_len() != 1 {
        return Answer::Unclear;
    }
    let c = text.get_char(0);
    assert(text@ =~= seq![c]);
    if c == 'Y' || c == 'y' {
        Answer::Yes
    } else if c == 'N' || c == 'n' {
        assert(seq![c] == seq!['N'] || seq![c] == seq!['n']);
        Answer::No
    } else {
        assert(seq![c][0] == c);
        Answer::Unclear
    }
}

/// Whether new settings are to be saved: only on a yes.
pub fn confirms(line: &str) -> (save: bool)
    ensures
        save == (answer_of(trim_of(line@)) == Answer::Yes),
{
    match read_answer(line) {
        Answer::Yes => true,
        _ => false,
    }
}

/// The text of the settings file for an address, a key and a city, each
/// without the white space around it.
pub open spec fn settings_text_of(server: Seq<char>, api_key: Seq<char>, location: Seq<char>) -> Seq<
    char,
> {
    "OPEN_WEATHER_URL="@ + trim_of(server) + "\nAPI_KEY="@ + trim_of(api_key) + "\nLOCATION_NAME="@
        + trim_of(location)
}

/// The text of the settings file for the three lines that were typed.
pub fn settings_text(server: &str, api_key: &str, location: &str) -> (text: String)
    ensures
        text@ == settings_text_of(server@, api_key@, location@),
{
    let mut text = String::from_str("OPEN_WEATHER_URL=");
    text.append(trimmed(server));
    text.append("\nAPI_KEY=");
    text.append(trimmed(api_key));
    text.append("\nLOCATION_NAME=");
    text.append(trimmed(location));
    text
}

} // verus!
