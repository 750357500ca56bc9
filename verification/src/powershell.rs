//! Command lines for PowerShell, and texts quoted for its scripts.
use crate::text;
use crate::text::replace_char;
use vstd::prelude::*;
use vstd::string::*;

verus! {

/// The program that runs scripts.
pub const POWERSHELL: &'static str = "powershell.exe";

/// The words that have PowerShell run `script` without profile, logo or questions.
pub open spec fn script_words(script: Seq<char>) -> Seq<Seq<char>> {
    seq![
        "-NoLogo"@,
        "-NoProfile"@,
        "-NonInteractive"@,
        "-ExecutionPolicy"@,
        "Bypass"@,
        "-Command"@,
        script,
    ]
}

/// The words that have PowerShell run `script`.
pub fn run_powershell(script: String) -> (r: Vec<String>)
    ensures
        r.deep_view() == script_words(script@),
{
    let mut words: Vec<String> = Vec::new();
    words.push("-NoLogo".to_owned());
    words.push("-NoProfile".to_owned());
    words.push("-NonInteractive".to_owned());
    words.push("-ExecutionPolicy".to_owned());
    words.push("Bypass".to_owned());
    words.push("-Command".to_owned());
    words.push(script);
    assert(words.deep_view() =~= script_words(script@));
    words
}

/// `s` as a PowerShell literal: in single quotes, those inside doubled.
pub open spec fn quoted(s: Seq<char>) -> Seq<char> {
    "'"@ + text::replaced(s, '\'', "''"@) + "'"@
}

/// Writes `s` as a PowerShell literal.
pub fn ps_squote(s: &str) -> (r: String)
    ensures
        r@ == quoted(s@),
{
    "'".to_owned().concat(replace_char(s, '\'', "''").as_str()).concat("'")
}

/// What stands between the quotes of a literal, read from the front: two
/// quotes `q` mean one, and a single one would end the literal early.
pub open spec fn unescaped(s: Seq<char>, q: char) -> Option<Seq<char>>
    decreases s.len(),
{
    if s.len() == 0 {
        Some(Seq::empty())
    } else if s[0] != q {
        match unescaped(s.skip(1), q) {
            Some(rest) => Some(seq![s[0]] + rest),
            None => None,
        }
    } else if s.len() > 1 && s[1] == q {
        match unescaped(s.skip(2), q) {
            Some(rest) => Some(seq![q] + rest),
            None => None,
        }
    } else {
        None
    }
}

/// The value of a literal in single quotes.
pub open spec fn literal_value(s: Seq<char>) -> Option<Seq<char>> {
    if s.len() >= 2 && s[0] == '\'' && s.last() == '\'' {
        unescaped(s.subrange(1, s.len() - 1), '\'')
    } else {
        None
    }
}

proof fn lemma_replaced_front(s: Seq<char>, q: char, with: Seq<char>)
    requires
        s.len() > 0,
    ensures
        text::replaced(s, q, with) == (if s[0] == q {
            with
        } else {
            seq![s[0]]
        }) + text::replaced(s.skip(1), q, with),
    decreases s.len(),
{
    if s.len() == 1 {
        assert(s.drop_last() =~= Seq::<char>::empty());
        assert(s.skip(1) =~= Seq::<char>::empty());
        assert(text::replaced(s, q, with) =~= (if s[0] == q {
            with
        } else {
            seq![s[0]]
        }) + text::replaced(s.skip(1), q, with));
    } else {
        lemma_replaced_front(s.drop_last(), q, with);
        assert(s.drop_last().skip(1) =~= s.skip(1).drop_last());
        assert(text::replaced(s, q, with) =~= (if s[0] == q {
            with
        } else {
            seq![s[0]]
        }) + text::replaced(s.skip(1), q, with));
    }
}

/// Doubling the quotes of a text is undone by reading it between quotes.
pub proof fn law_doubled_quotes_are_read_back(s: Seq<char>, q: char)
    ensures
        unescaped(text::replaced(s, q, seq![q, q]), q) == Some(s),
    decreases s.len(),
{
    if s.len() == 0 {
        assert(s =~= Seq::<char>::empty());
    } else {
        let rest = s.skip(1);
        let after = text::replaced(rest, q, seq![q, q]);
        let whole = text::replaced(s, q, seq![q, q]);
        lemma_replaced_front(s, q, seq![q, q]);
        law_doubled_quotes_are_read_back(rest, q);
        if s[0] == q {
            assert(whole.skip(2) =~= after);
        } else {
            assert(whole.skip(1) =~= after);
        }
        assert(s =~= seq![s[0]] + rest);
    }
}

/// A quoted text is one literal with that text as its value, whatever it
/// holds: nothing in it can end the literal early.
pub proof fn law_quoted_text_is_one_literal(s: Seq<char>)
    ensures
        literal_value(quoted(s)) == Some(s),
{
    reveal_strlit("'");
    reveal_strlit("''");
    let inner = text::replaced(s, '\'', "''"@);
    assert("''"@ =~= seq!['\'', '\'']);
    law_doubled_quotes_are_read_back(s, '\'');
    assert(quoted(s).subrange(1, quoted(s).len() - 1) =~= inner);
}

/// A quoted text begins and ends with a quote and holds each character of the
/// text once, but each quote twice.
pub proof fn law_quoting_doubles_quotes_only(s: Seq<char>, x: char)
    ensures
        quoted(Seq::empty()) == seq!['\'', '\''],
        quoted(s.push('\'')) == quoted(s).drop_last() + seq!['\'', '\'', '\''],
        x != '\'' ==> quoted(s.push(x)) == quoted(s).drop_last() + seq![x, '\''],
{
    reveal_strlit("'");
    reveal_strlit("''");
    assert("'"@ =~= seq!['\'']);
    assert("''"@ =~= seq!['\'', '\'']);
    assert(quoted(Seq::empty()) =~= seq!['\'', '\'']);
    assert(s.push(x).drop_last() =~= s);
    assert(s.push('\'').drop_last() =~= s);
    assert(quoted(s.push('\'')) =~= quoted(s).drop_last() + seq!['\'', '\'', '\'']);
    if x != '\'' {
        assert(quoted(s.push(x)) =~= quoted(s).drop_last() + seq![x, '\'']);
    }
}

/// PowerShell is given six words of its own, in this order, and then the
/// script as it is.
pub proof fn law_script_is_the_last_word(script: Seq<char>)
    ensures
        script_words(script).len() == 7,
        script_words(script).take(6) == seq![
            "-NoLogo"@,
            "-NoProfile"@,
            "-NonInteractive"@,
            "-ExecutionPolicy"@,
            "Bypass"@,
            "-Command"@,
        ],
        script_words(script)[6] == script,
{
    assert(script_words(script).take(6) =~= seq![
        "-NoLogo"@,
        "-NoProfile"@,
        "-NonInteractive"@,
        "-ExecutionPolicy"@,
        "Bypass"@,
        "-Command"@,
    ]);
}

} // verus!
