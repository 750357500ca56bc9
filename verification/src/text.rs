//! Text helpers: numbers, quoting, trimming and splitting over characters.
use vstd::prelude::*;
use vstd::string::*;
use vstd::utf8::*;

verus! {

/// `String::push`: appends one character.
pub assume_specification[ String::push ](s: &mut String, c: char)
    ensures
        final(s)@ == old(s)@.push(c),
;

/// The characters that Unicode counts as white space.
pub open spec fn is_white(c: char) -> bool {
    ||| '\u{9}' <= c <= '\u{d}'
    ||| c == ' '
    ||| c == '\u{85}'
    ||| c == '\u{a0}'
    ||| c == '\u{1680}'
    ||| '\u{2000}' <= c <= '\u{200a}'
    ||| c == '\u{2028}'
    ||| c == '\u{2029}'
    ||| c == '\u{202f}'
    ||| c == '\u{205f}'
    ||| c == '\u{3000}'
}

/// Whether Unicode counts `c` as white space.
pub fn white(c: char) -> (r: bool)
    ensures
        r == is_white(c),
{
    ('\u{9}' <= c && c <= '\u{d}') || c == ' ' || c == '\u{85}' || c == '\u{a0}' || c == '\u{1680}'
        || ('\u{2000}' <= c && c <= '\u{200a}') || c == '\u{2028}' || c == '\u{2029}' || c
        == '\u{202f}' || c == '\u{205f}' || c == '\u{3000}'
}

/// What `String::from_utf8_lossy` makes of `bytes`: invalid sequences become U+FFFD.
pub uninterp spec fn lossy_text(bytes: Seq<u8>) -> Seq<char>;

/// Calls `String::from_utf8_lossy`. The text depends on the bytes alone, and
/// valid UTF-8 comes through unchanged; which replacement characters stand for
/// which invalid bytes is left to the name.
#[verifier::external_body]
pub(crate) fn from_utf8_lossy(bytes: &Vec<u8>) -> (r: String)
    ensures
        r@ == lossy_text(bytes@),
        valid_utf8(bytes@) ==> r@ == decode_utf8(bytes@),
{
    String::from_utf8_lossy(bytes).into_owned()
}

/// What `std::str::Utf8Error` says of `bytes` that are not valid UTF-8.
pub uninterp spec fn utf8_fault(bytes: Seq<u8>) -> Seq<char>;

/// Calls `std::str::from_utf8`: the text whose UTF-8 form is `bytes`, or the
/// error text if there is none. That text depends on the bytes alone.
#[verifier::external_body]
pub(crate) fn from_utf8(bytes: &Vec<u8>) -> (r: Result<String, String>)
    ensures
        (match r {
            Ok(text) => valid_utf8(bytes@) && text@ == decode_utf8(bytes@),
            Err(fault) => !valid_utf8(bytes@) && fault@ == utf8_fault(bytes@),
        }),
{
    std::str::from_utf8(bytes).map(|s| s.to_owned()).map_err(|e| e.to_string())
}

/// The characters of `s`, in order.
pub fn chars_of(s: &str) -> (r: Vec<char>)
    ensures
        r@ == s@,
{
    let mut out: Vec<char> = Vec::new();
    for c in it: s.chars()
        invariant
            it.seq() == s@,
            out@ == s@.take(it.index()),
    {
        out.push(c);
    }
    out
}

/// The text made of `chars[from..to]`.
pub fn text_of(chars: &Vec<char>, from: usize, to: usize) -> (r: String)
    requires
        from <= to <= chars@.len(),
    ensures
        r@ == chars@.subrange(from as int, to as int),
{
    let mut out = String::new();
    let mut i: usize = from;
    while i < to
        invariant
            from <= i <= to <= chars@.len(),
            out@ == chars@.subrange(from as int, i as int),
        decreases to - i,
    {
        out.push(chars[i]);
        i += 1;
        assert(chars@.subrange(from as int, i as int) =~= chars@.subrange(from as int, i - 1).push(
            chars@[i - 1],
        ));
    }
    out
}

/// The decimal digit with value `d`.
pub open spec fn digit_char(d: nat) -> char {
    if d == 0 {
        '0'
    } else if d == 1 {
        '1'
    } else if d == 2 {
        '2'
    } else if d == 3 {
        '3'
    } else if d == 4 {
        '4'
    } else if d == 5 {
        '5'
    } else if d == 6 {
        '6'
    } else if d == 7 {
        '7'
    } else if d == 8 {
        '8'
    } else {
        '9'
    }
}

/// `n` written in decimal, without leading zeros.
pub open spec fn decimal_text(n: nat) -> Seq<char>
    decreases n,
{
    if n < 10 {
        seq![digit_char(n)]
    } else {
        decimal_text(n / 10).push(digit_char(n % 10))
    }
}

fn digit(d: u64) -> (r: char)
    requires
        d < 10,
    ensures
        r == digit_char(d as nat),
{
    if d == 0 {
        '0'
    } else if d == 1 {
        '1'
    } else if d == 2 {
        '2'
    } else if d == 3 {
        '3'
    } else if d == 4 {
        '4'
    } else if d == 5 {
        '5'
    } else if d == 6 {
        '6'
    } else if d == 7 {
        '7'
    } else if d == 8 {
        '8'
    } else {
        '9'
    }
}

/// Writes `n` in decimal.
pub fn decimal(n: u64) -> (r: String)
    ensures
        r@ == decimal_text(n as nat),
    decreases n,
{
    if n < 10 {
        let mut out = String::new();
        out.push(digit(n));
        assert(out@ =~= decimal_text(n as nat));
        out
    } else {
        let mut out = decimal(n / 10);
        out.push(digit(n % 10));
        out
    }
}

/// `n` in decimal, with zeros in front where it has fewer than `width` digits.
pub open spec fn zero_filled(n: nat, width: nat) -> Seq<char> {
    let digits = decimal_text(n);
    if digits.len() < width {
        Seq::new((width - digits.len()) as nat, |i: int| '0') + digits
    } else {
        digits
    }
}

/// Writes `n` in decimal, with zeros in front up to `width` digits.
pub fn zero_fill(n: u64, width: usize) -> (r: String)
    ensures
        r@ == zero_filled(n as nat, width as nat),
{
    let digits = decimal(n);
    let len: usize = chars_of(digits.as_str()).len();
    if len >= width {
        return digits;
    }
    let missing: usize = width - len;
    let mut out = String::new();
    let mut i: usize = 0;
    while i < missing
        invariant
            0 <= i <= missing,
            out@ =~= Seq::new(i as nat, |j: int| '0'),
        decreases missing - i,
    {
        out.push('0');
        i += 1;
    }
    out.concat(digits.as_str())
}

/// Whether two texts hold the same characters.
pub fn same_text(a: &str, b: &str) -> (r: bool)
    ensures
        r == (a@ == b@),
{
    a.to_owned() == b.to_owned()
}

/// `s` with every `c` replaced by `with`.
pub open spec fn replaced(s: Seq<char>, c: char, with: Seq<char>) -> Seq<char>
    decreases s.len(),
{
    if s.len() == 0 {
        seq![]
    } else if s.last() == c {
        replaced(s.drop_last(), c, with) + with
    } else {
        replaced(s.drop_last(), c, with).push(s.last())
    }
}

/// Replaces every `c` in `s` by `with`.
pub fn replace_char(s: &str, c: char, with: &str) -> (r: String)
    ensures
        r@ == replaced(s@, c, with@),
{
    let chars = chars_of(s);
    let mut out = String::new();
    let mut i: usize = 0;
    while i < chars.len()
        invariant
            0 <= i <= chars@.len(),
            chars@ == s@,
            out@ == replaced(s@.take(i as int), c, with@),
        decreases chars@.len() - i,
    {
        assert(s@.take(i + 1).drop_last() =~= s@.take(i as int));
        if chars[i] == c {
            out.append(with);
        } else {
            out.push(chars[i]);
        }
        i += 1;
    }
    assert(s@.take(i as int) =~= s@);
    out
}

/// `s` without the whitespace it starts with.
pub open spec fn trimmed_start(s: Seq<char>) -> Seq<char>
    decreases s.len(),
{
    if s.len() > 0 && is_white(s.first()) {
        trimmed_start(s.drop_first())
    } else {
        s
    }
}

/// `s` without the whitespace it ends with.
pub open spec fn trimmed_end(s: Seq<char>) -> Seq<char>
    decreases s.len(),
{
    if s.len() > 0 && is_white(s.last()) {
        trimmed_end(s.drop_last())
    } else {
        s
    }
}

/// `s` without the whitespace around it.
pub open spec fn trimmed(s: Seq<char>) -> Seq<char> {
    trimmed_end(trimmed_start(s))
}

/// Removes the whitespace around `s`.
pub fn trim(s: &str) -> (r: String)
    ensures
        r@ == trimmed(s@),
{
    let chars = chars_of(s);
    let mut from: usize = 0;
    assert(chars@.skip(0) =~= chars@);
    while from < chars.len() && white(chars[from])
        invariant
            0 <= from <= chars@.len(),
            trimmed_start(chars@) == trimmed_start(chars@.skip(from as int)),
        decreases chars@.len() - from,
    {
        assert(chars@.skip(from as int).drop_first() =~= chars@.skip(from + 1));
        from += 1;
    }
    let ghost front = chars@.skip(from as int);
    assert(trimmed_start(chars@) == front);
    let mut to: usize = chars.len();
    assert(chars@.subrange(from as int, to as int) =~= front);
    while to > from && white(chars[to - 1])
        invariant
            from <= to <= chars@.len(),
            trimmed_end(front) == trimmed_end(chars@.subrange(from as int, to as int)),
        decreases to,
    {
        assert(chars@.subrange(from as int, to as int).drop_last() =~= chars@.subrange(
            from as int,
            to - 1,
        ));
        to -= 1;
    }
    text_of(&chars, from, to)
}

/// The pieces of `s` between the occurrences of `c`.
pub open spec fn split_at_char(s: Seq<char>, c: char) -> Seq<Seq<char>>
    decreases s.len(),
{
    if s.len() == 0 {
        seq![Seq::<char>::empty()]
    } else {
        let front = split_at_char(s.drop_last(), c);
        if s.last() == c {
            front.push(Seq::<char>::empty())
        } else {
            front.drop_last().push(front.last().push(s.last()))
        }
    }
}

/// Splits `s` at every `c`.
pub fn split(s: &str, c: char) -> (r: Vec<String>)
    ensures
        r.deep_view() == split_at_char(s@, c),
        r@.len() > 0,
{
    let chars = chars_of(s);
    let mut done: Vec<String> = Vec::new();
    let mut piece = String::new();
    let mut i: usize = 0;
    assert(done.deep_view().push(piece@) =~= split_at_char(s@.take(0), c));
    while i < chars.len()
        invariant
            0 <= i <= chars@.len(),
            chars@ == s@,
            done.deep_view().push(piece@) == split_at_char(s@.take(i as int), c),
        decreases chars@.len() - i,
    {
        let ghost before = done.deep_view().push(piece@);
        assert(s@.take(i + 1).drop_last() =~= s@.take(i as int));
        assert(before.drop_last() =~= done.deep_view());
        if chars[i] == c {
            done.push(piece);
            piece = String::new();
            assert(done.deep_view() =~= before);
        } else {
            piece.push(chars[i]);
        }
        i += 1;
    }
    assert(s@.take(i as int) =~= s@);
    let ghost before = done.deep_view().push(piece@);
    done.push(piece);
    assert(done.deep_view() =~= before);
    done
}

/// The last line of `s`; a final line break ends that line and starts no other.
pub open spec fn last_line_text(s: Seq<char>) -> Seq<char> {
    if s.len() > 0 && s.last() == '\n' {
        split_at_char(s.drop_last(), '\n').last()
    } else {
        split_at_char(s, '\n').last()
    }
}

/// The last line of `s`, empty for an empty text.
pub fn last_line(s: &str) -> (r: String)
    ensures
        r@ == last_line_text(s@),
{
    let chars = chars_of(s);
    let n: usize = chars.len();
    let body = if n > 0 && chars[n - 1] == '\n' {
        assert(chars@.subrange(0, n - 1) =~= s@.drop_last());
        text_of(&chars, 0, n - 1)
    } else {
        assert(chars@.subrange(0, n as int) =~= s@);
        text_of(&chars, 0, n)
    };
    let mut lines = split(body.as_str(), '\n');
    let ghost all = lines.deep_view();
    match lines.pop() {
        Some(line) => {
            assert(all.last() == line@);
            line
        },
        None => String::new(),
    }
}

/// What follows `prefix` in `s`, if `s` starts with it.
pub open spec fn after_prefix(s: Seq<char>, prefix: Seq<char>) -> Option<Seq<char>> {
    if prefix.is_prefix_of(s) {
        Some(s.skip(prefix.len() as int))
    } else {
        None
    }
}

/// Removes `prefix` from the start of `s`, if it is there.
pub fn strip_prefix(s: &str, prefix: &str) -> (r: Option<String>)
    ensures
        (match r {
            Some(rest) => after_prefix(s@, prefix@) == Some(rest@),
            None => after_prefix(s@, prefix@) is None,
        }),
{
    let a = chars_of(s);
    let b = chars_of(prefix);
    if b.len() > a.len() {
        return None;
    }
    let mut i: usize = 0;
    while i < b.len()
        invariant
            0 <= i <= b@.len() <= a@.len(),
            a@ == s@,
            b@ == prefix@,
            forall|j: int| 0 <= j < i ==> a@[j] == b@[j],
        decreases b@.len() - i,
    {
        if a[i] != b[i] {
            assert(s@.subrange(0, prefix@.len() as int)[i as int] != prefix@[i as int]);
            return None;
        }
        i += 1;
    }
    assert(prefix@ =~= s@.subrange(0, prefix@.len() as int));
    assert(a@.subrange(i as int, a@.len() as int) =~= s@.skip(prefix@.len() as int));
    Some(text_of(&a, b.len(), a.len()))
}

/// The number that a row of decimal digits stands for.
pub open spec fn digits_value(s: Seq<char>) -> int
    decreases s.len(),
{
    if s.len() == 0 {
        0
    } else {
        10 * digits_value(s.drop_last()) + (s.last() as int - 0x30)
    }
}

/// A number in decimal is a row of the digits `0` to `9`, without a zero in
/// front, that stands for the number.
pub proof fn law_decimal_reads_back(n: nat)
    ensures
        decimal_text(n).len() > 0,
        forall|i: int|
            0 <= i < decimal_text(n).len() ==> 0x30 <= (#[trigger] decimal_text(n)[i]) as int
                <= 0x39,
        decimal_text(n).len() > 1 ==> decimal_text(n)[0] != '0',
        digits_value(decimal_text(n)) == n,
    decreases n,
{
    if n >= 10 {
        law_decimal_reads_back(n / 10);
        let front = decimal_text(n / 10);
        assert(decimal_text(n).drop_last() =~= front);
        assert forall|i: int| 0 <= i < decimal_text(n).len() implies 0x30 <= (
        #[trigger] decimal_text(n)[i]) as int <= 0x39 by {
            if i < front.len() {
                assert(decimal_text(n)[i] == front[i]);
            }
        }
        if front.len() == 1 {
            reveal_with_fuel(digits_value, 3);
            assert(front.drop_last().len() == 0);
            assert(front[0] as int - 0x30 == n / 10);
        }
        assert(decimal_text(n)[0] == front[0]);
    } else {
        reveal_with_fuel(digits_value, 2);
        assert(decimal_text(n).drop_last().len() == 0);
    }
}

/// Filling with zeros keeps the digits at the end and puts nothing but zeros
/// in front, just as many as are missing.
pub proof fn law_zero_filling_keeps_the_digits(n: nat, width: nat)
    ensures
        ({
            let filled = zero_filled(n, width);
            let digits = decimal_text(n);
            let zeros = filled.len() - digits.len();
            &&& filled.len() == (if digits.len() < width {
                width
            } else {
                digits.len()
            })
            &&& filled.skip(zeros) == digits
            &&& forall|i: int| 0 <= i < zeros ==> #[trigger] filled[i] == '0'
        }),
{
    let filled = zero_filled(n, width);
    let digits = decimal_text(n);
    assert(filled.skip(filled.len() - digits.len()) =~= digits);
}

/// Replacing acts on each character by itself: `c` becomes `with`, any other
/// stays, and the pieces of a text are replaced one after the other.
pub proof fn law_replacing_acts_on_each_character(
    a: Seq<char>,
    b: Seq<char>,
    c: char,
    x: char,
    with: Seq<char>,
)
    ensures
        replaced(a + b, c, with) == replaced(a, c, with) + replaced(b, c, with),
        replaced(seq![c], c, with) == with,
        x != c ==> replaced(seq![x], c, with) == seq![x],
        replaced(Seq::empty(), c, with) == Seq::<char>::empty(),
    decreases b.len(),
{
    reveal_with_fuel(replaced, 2);
    assert(seq![c].drop_last() =~= Seq::<char>::empty());
    assert(seq![x].drop_last() =~= Seq::<char>::empty());
    assert(replaced(seq![c], c, with) =~= with);
    assert(replaced(seq![x], x, with) =~= with);
    if x != c {
        assert(replaced(seq![x], c, with) =~= seq![x]);
    }
    if b.len() == 0 {
        assert(a + b =~= a);
        assert(replaced(a, c, with) + replaced(b, c, with) =~= replaced(a, c, with));
    } else {
        law_replacing_acts_on_each_character(a, b.drop_last(), c, x, with);
        assert((a + b).drop_last() =~= a + b.drop_last());
        assert(replaced(a + b, c, with) =~= replaced(a, c, with) + replaced(b, c, with));
    }
}

proof fn lemma_trimmed_start(s: Seq<char>) -> (from: int)
    ensures
        0 <= from <= s.len(),
        trimmed_start(s) == s.skip(from),
        forall|i: int| 0 <= i < from ==> is_white(#[trigger] s[i]),
        from < s.len() ==> !is_white(s[from]),
    decreases s.len(),
{
    if s.len() > 0 && is_white(s.first()) {
        let rest = s.drop_first();
        let from = lemma_trimmed_start(rest);
        assert(rest.skip(from) =~= s.skip(from + 1));
        assert forall|i: int| 0 <= i < from + 1 implies is_white(#[trigger] s[i]) by {
            if i > 0 {
                assert(rest[i - 1] == s[i]);
            }
        }
        if from < rest.len() {
            assert(rest[from] == s[from + 1]);
        }
        from + 1
    } else {
        assert(s.skip(0) =~= s);
        0
    }
}

proof fn lemma_trimmed_end(s: Seq<char>) -> (to: int)
    ensures
        0 <= to <= s.len(),
        trimmed_end(s) == s.take(to),
        forall|i: int| to <= i < s.len() ==> is_white(#[trigger] s[i]),
        to > 0 ==> !is_white(s[to - 1]),
    decreases s.len(),
{
    if s.len() > 0 && is_white(s.last()) {
        let front = s.drop_last();
        let to = lemma_trimmed_end(front);
        assert(front.take(to) =~= s.take(to));
        assert forall|i: int| to <= i < s.len() implies is_white(#[trigger] s[i]) by {
            if i < front.len() {
                assert(front[i] == s[i]);
            }
        }
        to
    } else {
        assert(s.take(s.len() as int) =~= s);
        s.len() as int
    }
}

/// Trimming takes white space off both ends, and nothing else: what is left
/// stands in the text as it is, with nothing but white space around it, and
/// neither begins nor ends with white space.
pub proof fn law_trimming_takes_white_space_off_the_ends(s: Seq<char>)
    ensures
        exists|from: int, to: int|
            #![trigger s.subrange(from, to)]
            {
                &&& 0 <= from <= to <= s.len()
                &&& trimmed(s) == s.subrange(from, to)
                &&& forall|i: int| 0 <= i < from ==> is_white(#[trigger] s[i])
                &&& forall|i: int| to <= i < s.len() ==> is_white(#[trigger] s[i])
            },
        trimmed(s).len() > 0 ==> !is_white(trimmed(s).first()) && !is_white(trimmed(s).last()),
{
    let from = lemma_trimmed_start(s);
    let rest = s.skip(from);
    let to = lemma_trimmed_end(rest);
    assert(rest.take(to) =~= s.subrange(from, from + to));
    assert forall|i: int| from + to <= i < s.len() implies is_white(#[trigger] s[i]) by {
        assert(rest[i - from] == s[i]);
    }
    assert forall|i: int| 0 <= i < from implies is_white(#[trigger] s[i]) by {}
    if trimmed(s).len() > 0 {
        assert(trimmed(s).first() == s[from]);
        assert(trimmed(s).last() == rest[to - 1]);
    }
}

/// The pieces put together again, with `c` between them.
pub open spec fn rejoined(pieces: Seq<Seq<char>>, c: char) -> Seq<char>
    decreases pieces.len(),
{
    if pieces.len() == 0 {
        Seq::empty()
    } else if pieces.len() == 1 {
        pieces[0]
    } else {
        rejoined(pieces.drop_last(), c).push(c) + pieces.last()
    }
}

/// Splitting at a character gives pieces without it that make up the text
/// again when it is put between them.
pub proof fn law_split_pieces_make_up_the_text(s: Seq<char>, c: char)
    ensures
        split_at_char(s, c).len() > 0,
        rejoined(split_at_char(s, c), c) == s,
        forall|i: int|
            0 <= i < split_at_char(s, c).len() ==> !(#[trigger] split_at_char(s, c)[i]).contains(c),
    decreases s.len(),
{
    let pieces = split_at_char(s, c);
    if s.len() > 0 {
        law_split_pieces_make_up_the_text(s.drop_last(), c);
        let front = split_at_char(s.drop_last(), c);
        if s.last() == c {
            assert(pieces.drop_last() =~= front);
            assert(rejoined(pieces, c) =~= s);
            assert forall|i: int| 0 <= i < pieces.len() implies !(#[trigger] pieces[i]).contains(
                c,
            ) by {
                if i < front.len() {
                    assert(pieces[i] == front[i]);
                }
            }
        } else {
            let grown = front.last().push(s.last());
            assert(pieces.drop_last() =~= front.drop_last());
            assert(pieces.last() == grown);
            assert(pieces.len() == front.len());
            if front.len() == 1 {
                assert(front[0] == front.last());
            }
            assert(rejoined(pieces, c) =~= rejoined(front, c).push(s.last()));
            assert(s =~= s.drop_last().push(s.last()));
            assert forall|i: int| 0 <= i < pieces.len() implies !(#[trigger] pieces[i]).contains(
                c,
            ) by {
                if i < front.len() - 1 {
                    assert(pieces[i] == front[i]);
                } else {
                    assert(pieces[i] == grown);
                    assert(!front[front.len() - 1].contains(c));
                    if grown.contains(c) {
                        let k = choose|k: int| 0 <= k < grown.len() && grown[k] == c;
                        assert(k < front.last().len());
                        assert(front.last()[k] == c);
                    }
                }
            }
        }
    } else {
        assert(rejoined(pieces, c) =~= s);
    }
}

/// The last line has no line break in it, stands at the end of the text but
/// for a final line break, and follows a line break or nothing.
pub proof fn law_last_line_ends_the_text(s: Seq<char>)
    ensures
        ({
            let line = last_line_text(s);
            let body = if s.len() > 0 && s.last() == '\n' {
                s.drop_last()
            } else {
                s
            };
            let before = body.len() - line.len();
            &&& !line.contains('\n')
            &&& before >= 0
            &&& body.skip(before) == line
            &&& before > 0 ==> body[before - 1] == '\n'
        }),
{
    let body = if s.len() > 0 && s.last() == '\n' {
        s.drop_last()
    } else {
        s
    };
    law_split_pieces_make_up_the_text(body, '\n');
    let pieces = split_at_char(body, '\n');
    let line = pieces.last();
    assert(pieces[pieces.len() - 1] == line);
    let before = body.len() - line.len();
    if pieces.len() == 1 {
        assert(body.skip(before) =~= line);
    } else {
        let front = rejoined(pieces.drop_last(), '\n').push('\n');
        assert(body =~= front + line);
        assert(body.skip(before) =~= line);
        assert(body[before - 1] == front.last());
    }
}

/// What follows a prefix is what makes up the text together with it; without
/// the prefix there is no such thing.
pub proof fn law_prefix_and_rest_make_up_the_text(
    s: Seq<char>,
    prefix: Seq<char>,
    rest: Seq<char>,
)
    ensures
        after_prefix(s, prefix) == Some(rest) <==> s == prefix + rest,
{
    if s == prefix + rest {
        assert(s.take(prefix.len() as int) =~= prefix);
        assert(prefix.is_prefix_of(s));
        assert(s.skip(prefix.len() as int) =~= rest);
    }
    if after_prefix(s, prefix) == Some(rest) {
        assert(s =~= prefix + rest);
    }
}

/// White space is what Unicode counts as such: these 25 characters.
pub proof fn law_white_space_is_that_of_unicode(c: char)
    ensures
        is_white(c) <==> {
            let n = c as int;
            ||| 9 <= n <= 13
            ||| n == 32
            ||| n == 133
            ||| n == 160
            ||| n == 5760
            ||| 8192 <= n <= 8202
            ||| 8232 <= n <= 8233
            ||| n == 8239
            ||| n == 8287
            ||| n == 12288
        },
{
}

} // verus!
