//! Styling of status text for a display that keeps one style letter beside
//! every byte of the text it shows.
//!
//! Colour escape sequences are taken out of the text and turned into style
//! letters: `A` is the default, `B` to `F` are red, green, blue, magenta and
//! cyan, `G` is gray.

use vstd::prelude::*;
use crate::text::{chars_of, push_char};

verus! {

/// The escape character that opens a colour sequence.
pub const ESCAPE: char = '\u{1b}';

/// `c` is an ASCII decimal digit.
pub open spec fn is_digit(c: char) -> bool {
    '0' <= c <= '9'
}

/// `c` is an ASCII control character.
pub open spec fn is_control(c: char) -> bool {
    c <= '\u{1f}' || c == '\u{7f}'
}

/// `c` is an ASCII character with a visible glyph.
pub open spec fn is_graphic(c: char) -> bool {
    '!' <= c <= '~'
}

/// How many bytes the UTF-8 encoding of `c` takes.
pub open spec fn utf8_len(c: char) -> nat {
    if (c as u32) < 0x80 {
        1
    } else if (c as u32) < 0x800 {
        2
    } else if (c as u32) < 0x10000 {
        3
    } else {
        4
    }
}

/// The style letter of a shown character under the colour in force: control
/// characters are gray, visible ASCII takes the colour, all else the default.
pub open spec fn style_for(c: char, colour: char) -> char {
    if is_control(c) {
        'G'
    } else if is_graphic(c) {
        colour
    } else {
        'A'
    }
}

/// How much of `rest`, the text after an opening `ESC [`, belongs to the
/// sequence: digits and semicolons up to and including the first `m`.
pub open spec fn code_len(rest: Seq<char>) -> nat
    decreases rest.len(),
{
    if rest.len() == 0 {
        0
    } else if rest[0] == 'm' {
        1
    } else if is_digit(rest[0]) || rest[0] == ';' {
        1 + code_len(rest.drop_first())
    } else {
        0
    }
}

/// The colour that the code `number` selects, if it selects one.
pub open spec fn colour_of(number: Seq<char>) -> Option<char> {
    if number == seq!['0'] {
        Some('A')
    } else if number == seq!['3', '1'] {
        Some('B')
    } else if number == seq!['3', '2'] {
        Some('C')
    } else if number == seq!['3', '4'] {
        Some('D')
    } else if number == seq!['3', '5'] {
        Some('E')
    } else if number == seq!['3', '6'] {
        Some('F')
    } else if number == seq!['9', '0'] {
        Some('G')
    } else {
        None
    }
}

/// The colour in force after the sequence body `code` was read up to
/// position `upto`, where `number` is the code being read and `colour` the
/// colour selected so far: the last code that selects a colour wins.
pub open spec fn colour_after(code: Seq<char>, colour: char, number: Seq<char>) -> char
    decreases code.len(),
{
    if code.len() == 0 {
        match colour_of(number) {
            Some(c) => c,
            None => colour,
        }
    } else if code[0] == ';' || code[0] == 'm' {
        colour_after(
            code.drop_first(),
            match colour_of(number) {
                Some(c) => c,
                None => colour,
            },
            Seq::empty(),
        )
    } else {
        colour_after(code.drop_first(), colour, number.push(code[0]))
    }
}

/// The colour that a sequence body selects; the default where it names none.
pub open spec fn sequence_colour(code: Seq<char>) -> char {
    colour_after(code, 'A', Seq::empty())
}

/// The style letter `letter`, once for every byte of `c`.
pub open spec fn letters(letter: char, c: char) -> Seq<char> {
    Seq::new(utf8_len(c), |i: int| letter)
}

/// The shown text and its style letters for `s` under the colour in force.
pub open spec fn render(s: Seq<char>, colour: char) -> (Seq<char>, Seq<char>)
    decreases s.len(),
{
    if s.len() == 0 {
        (Seq::empty(), Seq::empty())
    } else if s[0] == ESCAPE && s.len() > 1 && s[1] == '[' {
        let n = code_len(s.skip(2)) as int;
        if n <= s.skip(2).len() {
            render(s.skip(2 + n), sequence_colour(s.subrange(2, 2 + n)))
        } else {
            (Seq::empty(), Seq::empty())
        }
    } else {
        let rest = render(s.drop_first(), colour);
        (seq![s[0]] + rest.0, letters(style_for(s[0], colour), s[0]) + rest.1)
    }
}

/// A sequence never reaches beyond the text.
pub proof fn lemma_code_len_bounded(rest: Seq<char>)
    ensures
        code_len(rest) <= rest.len(),
    decreases rest.len(),
{
    if rest.len() > 0 && rest[0] != 'm' && (is_digit(rest[0]) || rest[0] == ';') {
        lemma_code_len_bounded(rest.drop_first());
    }
}

/// Text prepared for the display.
#[derive(Debug, Clone, PartialEq, Eq)]
pub struct StyledText {
    /// The text to show, without escape sequences.
    pub plain: String,
    /// One style letter for every byte of `plain`.
    pub styles: String,
}

fn colour_for(number: &Vec<char>) -> (r: Option<char>)
    ensures
        r == colour_of(number@),
{
    if number.len() == 1 {
        if number[0] == '0' {
            proof {
                assert(number@ =~= seq!['0']);
            }
            return Some('A');
        }
        proof {
            assert(number@ != seq!['0']) by {
                if number@ == seq!['0'] {
                    assert(number@[0] == seq!['0'][0]);
                }
            }
        }
        None
    } else if number.len() == 2 {
        let a = number[0];
        let b = number[1];
        proof {
            assert(number@ =~= seq![a, b]);
            assert(seq!['3', '1'][0] == '3' && seq!['3', '1'][1] == '1');
            assert(seq!['3', '2'][0] == '3' && seq!['3', '2'][1] == '2');
            assert(seq!['3', '4'][0] == '3' && seq!['3', '4'][1] == '4');
            assert(seq!['3', '5'][0] == '3' && seq!['3', '5'][1] == '5');
            assert(seq!['3', '6'][0] == '3' && seq!['3', '6'][1] == '6');
            assert(seq!['9', '0'][0] == '9' && seq!['9', '0'][1] == '0');
        }
        if a == '3' && b == '1' {
            Some('B')
        } else if a == '3' && b == '2' {
            Some('C')
        } else if a == '3' && b == '4' {
            Some('D')
        } else if a == '3' && b == '5' {
            Some('E')
        } else if a == '3' && b == '6' {
            Some('F')
        } else if a == '9' && b == '0' {
            Some('G')
        } else {
            None
        }
    } else {
        None
    }
}

/// Reads the sequence body that starts at `from` in `text`; returns where it
/// ends and the colour it selects.
fn read_sequence(text: &Vec<char>, from: usize) -> (r: (usize, char))
    requires
        from <= text.len(),
    ensures
        r.0 == from + code_len(text@.skip(from as int)),
        r.0 <= text.len(),
        r.1 == sequence_colour(text@.subrange(from as int, r.0 as int)),
{
    let mut i: usize = from;
    let mut colour = 'A';
    let mut number: Vec<char> = Vec::new();
    let ghost all = text@;
    proof {
        lemma_code_len_bounded(all.skip(from as int));
        assert(all.subrange(from as int, from as int) =~= Seq::<char>::empty());
    }
    loop
        invariant_except_break
            from + code_len(all.skip(from as int)) == i + code_len(all.skip(i as int)),
        invariant
            all == text@,
            from <= i <= text.len(),
            forall|tail: Seq<char>|
                #![trigger colour_after(all.subrange(from as int, i as int) + tail, 'A', Seq::empty())]
                colour_after(all.subrange(from as int, i as int) + tail, 'A', Seq::empty())
                    == colour_after(tail, colour, number@),
        ensures
            from <= i <= text.len(),
            i == from + code_len(all.skip(from as int)),
            colour_after(all.subrange(from as int, i as int), 'A', Seq::empty()) == colour_after(
                Seq::empty(),
                colour,
                number@,
            ),
        decreases text.len() - i,
    {
        let ghost done = all.subrange(from as int, i as int);
        if i >= text.len() {
            proof {
                assert(done + Seq::<char>::empty() =~= done);
            }
            break;
        }
        let c = text[i];
        proof {
            assert(all.skip(i as int)[0] == c);
            assert(all.skip(i as int).drop_first() =~= all.skip(i + 1));
        }
        let more = c == 'm' || c == ';' || ('0' <= c && c <= '9');
        if !more {
            proof {
                assert(done + Seq::<char>::empty() =~= done);
            }
            break;
        }
        let ghost old_colour = colour;
        let ghost old_number = number@;
        proof {
            if c == 'm' {
                assert(from + code_len(all.skip(from as int)) == i + 1);
            }
        }
        if c == ';' || c == 'm' {
            match colour_for(&number) {
                Some(found) => {
                    colour = found;
                },
                None => {},
            }
            number = Vec::new();
        } else {
            number.push(c);
        }
        i += 1;
        proof {
            let next = all.subrange(from as int, i as int);
            assert forall|tail: Seq<char>|
                #![trigger colour_after(next + tail, 'A', Seq::empty())]
                colour_after(next + tail, 'A', Seq::empty()) == colour_after(
                    tail,
                    colour,
                    number@,
                ) by {
                let longer = seq![c] + tail;
                assert(next + tail =~= done + longer);
                assert(longer[0] == c);
                assert(longer.drop_first() =~= tail);
                assert(colour_after(done + longer, 'A', Seq::empty()) == colour_after(
                    longer,
                    old_colour,
                    old_number,
                ));
            }
        }
        if c == 'm' {
            proof {
                let next = all.subrange(from as int, i as int);
                assert(next + Seq::<char>::empty() =~= next);
            }
            break;
        }
    }
    let last = match colour_for(&number) {
        Some(found) => found,
        None => colour,
    };
    (i, last)
}

fn byte_count(c: char) -> (n: usize)
    ensures
        n == utf8_len(c),
{
    let v = c as u32;
    if v < 0x80 {
        1
    } else if v < 0x800 {
        2
    } else if v < 0x10000 {
        3
    } else {
        4
    }
}

fn style_letter(c: char, colour: char) -> (r: char)
    ensures
        r == style_for(c, colour),
{
    if c <= '\u{1f}' || c == '\u{7f}' {
        'G'
    } else if '!' <= c && c <= '~' {
        colour
    } else {
        'A'
    }
}

/// Takes the colour escape sequences out of `text` and gives every byte of
/// what is left its style letter.
pub fn style_text(text: &str) -> (r: StyledText)
    ensures
        r.plain@ == render(text@, 'A').0,
        r.styles@ == render(text@, 'A').1,
{
    let all = chars_of(text);
    let mut plain = String::new();
    let mut styles = String::new();
    let mut colour = 'A';
    let mut i: usize = 0;
    proof {
        assert(all@.skip(0) =~= all@);
        assert(Seq::<char>::empty() + render(all@, 'A').0 =~= render(all@, 'A').0);
        assert(Seq::<char>::empty() + render(all@, 'A').1 =~= render(all@, 'A').1);
    }
    while i < all.len()
        invariant
            all@ == text@,
            i <= all.len(),
            render(all@, 'A').0 == plain@ + render(all@.skip(i as int), colour).0,
            render(all@, 'A').1 == styles@ + render(all@.skip(i as int), colour).1,
        decreases all.len() - i,
    {
        let ghost rest = all@.skip(i as int);
        let ghost shown = plain@;
        let ghost styled = styles@;
        let c = all[i];
        proof {
            assert(rest[0] == c);
        }
        if c == ESCAPE && i + 1 < all.len() && all[i + 1] == '[' {
            let (end, selected) = read_sequence(&all, i + 2);
            proof {
                assert(rest[1] == all@[i + 1]);
                assert(rest.skip(2) =~= all@.skip(i + 2));
                let n = code_len(rest.skip(2)) as int;
                assert(rest.subrange(2, 2 + n) =~= all@.subrange(i + 2, end as int));
                assert(rest.skip(2 + n) =~= all@.skip(end as int));
            }
            colour = selected;
            i = end;
        } else {
            let letter = style_letter(c, colour);
            let count = byte_count(c);
            push_char(&mut plain, c);
            let mut k: usize = 0;
            while k < count
                invariant
                    k <= count,
                    count == utf8_len(c),
                    styles@ == styled + Seq::new(k as nat, |j: int| letter),
                decreases count - k,
            {
                push_char(&mut styles, letter);
                proof {
                    assert(styles@ =~= styled + Seq::new((k + 1) as nat, |j: int| letter));
                }
                k += 1;
            }
            proof {
                assert(rest.drop_first() =~= all@.skip(i + 1));
                let tail = render(all@.skip(i + 1), colour);
                assert(shown + (seq![c] + tail.0) =~= shown.push(c) + tail.0);
                assert(styled + (letters(letter, c) + tail.1) =~= (styled + letters(letter, c))
                    + tail.1);
            }
            i += 1;
        }
    }
    proof {
        assert(all@.skip(all@.len() as int) =~= Seq::<char>::empty());
        assert(plain@ + Seq::<char>::empty() =~= plain@);
        assert(styles@ + Seq::<char>::empty() =~= styles@);
    }
    StyledText { plain, styles }
}

} // verus!
