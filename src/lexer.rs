//! What the lexer shares with the rest of the language: operator and
//! keyword kinds, positions in the source, and the reading of string
//! literals.

use vstd::prelude::*;

verus! {

/// A place in the source text: the text and a range of byte offsets in it.
#[derive(Debug, PartialEq, Eq)]
pub struct SourceLocation<'source> {
    pub code: &'source str,
    pub span: core::ops::Range<usize>,
}

/// The byte offsets where a token begins and ends.
#[derive(Debug, Clone, Copy, PartialEq, Eq, Structural)]
pub struct TokenPosition(pub usize, pub usize);

/// A binary operator.
#[derive(Debug, Clone, Copy, PartialEq, Eq, Structural)]
pub enum BinOp {
    Math(MathBinOp),
    Cmp(CmpOp),
}

/// An arithmetic operator.
#[derive(Debug, Clone, Copy, PartialEq, Eq, Structural)]
pub enum MathBinOp {
    Add,
    Sub,
    Mul,
    Div,
    Mod,
}

/// A comparison operator.
#[derive(Debug, Clone, Copy, PartialEq, Eq, Structural)]
pub enum CmpOp {
    Eq,
    Ne,
    Lt,
    Le,
    Gt,
    Ge,
}

/// A keyword.
#[derive(Debug, Clone, Copy, PartialEq, Eq, Structural)]
pub enum Keyword {
    // Basic keywords
    Fn,
    Mod,
    Struct,
    Enum,
    Let,
    Mut,
    // Access modifiers
    Pub,
    // Control flow
    If,
    Else,
    // Loop keywords
    Loop,
    For,
}

/// The character that an escape sequence `\c` stands for; a quote or a
/// backslash stands for itself.
pub open spec fn escaped_char(c: char) -> char {
    if c == 'n' {
        '\n'
    } else if c == 'r' {
        '\r'
    } else if c == 't' {
        '\t'
    } else if c == '0' {
        '\0'
    } else {
        c
    }
}

/// Whether `c` may follow a backslash in a string literal.
pub open spec fn is_known_escape(c: char) -> bool {
    c == 'n' || c == 'r' || c == 't' || c == '0' || c == '\\' || c == '"'
}

/// Every backslash in `cs` (but a last one) is followed by a known escape.
pub open spec fn escapes_known(cs: Seq<char>) -> bool
    decreases cs.len(),
{
    if cs.len() < 2 {
        true
    } else if cs[0] == '\\' {
        is_known_escape(cs[1]) && escapes_known(cs.subrange(2, cs.len() as int))
    } else {
        escapes_known(cs.drop_first())
    }
}

/// The text that the characters of a literal's body stand for: each escape
/// sequence becomes its character, quotes are dropped, and a backslash at
/// the very end stands for nothing.
pub open spec fn unescaped(cs: Seq<char>) -> Seq<char>
    decreases cs.len(),
{
    if cs.len() == 0 {
        Seq::empty()
    } else if cs[0] == '\\' {
        if cs.len() < 2 {
            Seq::empty()
        } else {
            seq![escaped_char(cs[1])] + unescaped(cs.subrange(2, cs.len() as int))
        }
    } else if cs[0] == '"' {
        unescaped(cs.drop_first())
    } else {
        seq![cs[0]] + unescaped(cs.drop_first())
    }
}

/// Whether a string literal's source text can be read: it opens with a
/// quote and every backslash in it is followed by a known escape.
pub fn string_literal_is_readable(literal: &str) -> (r: bool)
    ensures
        r == (literal@.len() >= 1 && literal@[0] == '"' && escapes_known(literal@.drop_first())),
{
    let n = literal.unicode_len();
    if n == 0 || literal.get_char(0) != '"' {
        return false;
    }
    let mut i: usize = 1;
    assert(literal@.subrange(1, n as int) =~= literal@.drop_first());
    while i < n
        invariant
            n == literal@.len(),
            1 <= i <= n,
            escapes_known(literal@.drop_first()) == escapes_known(
                literal@.subrange(i as int, n as int),
            ),
        decreases n - i,
    {
        let ghost rest = literal@.subrange(i as int, n as int);
        if literal.get_char(i) == '\\' && i + 1 < n {
            let e = literal.get_char(i + 1);
            if !(e == 'n' || e == 'r' || e == 't' || e == '0' || e == '\\' || e == '"') {
                return false;
            }
            assert(rest.subrange(2, rest.len() as int) =~= literal@.subrange(i + 2, n as int));
            i = i + 2;
        } else if literal.get_char(i) == '\\' {
            assert(rest.len() < 2);
            i = n;
        } else {
            assert(rest.drop_first() =~= literal@.subrange(i + 1, n as int));
            i = i + 1;
        }
    }
    true
}

/// Relies on `String::push`: appends the character.
#[verifier::external_body]
pub(crate) fn push_char(s: &mut String, c: char)
    ensures
        final(s)@ == old(s)@.push(c),
{
    s.push(c)
}

/// The text of a string literal, from its source text: the opening quote is
/// skipped and the rest read as `unescaped` says.
pub fn string_literal_value(literal: &str) -> (r: String)
    requires
        literal@.len() >= 1,
        literal@[0] == '"',
        escapes_known(literal@.drop_first()),
    ensures
        r@ == unescaped(literal@.drop_first()),
{
    let n = literal.unicode_len();
    let ghost body = literal@.drop_first();
    assert(literal@.subrange(1, n as int) =~= body);
    let mut out = String::new();
    let mut i: usize = 1;
    while i < n
        invariant
            n == literal@.len(),
            1 <= i <= n,
            body == literal@.drop_first(),
            escapes_known(literal@.subrange(i as int, n as int)),
            out@ + unescaped(literal@.subrange(i as int, n as int)) == unescaped(body),
        decreases n - i,
    {
        let ghost rest = literal@.subrange(i as int, n as int);
        let c = literal.get_char(i);
        if c == '\\' {
            if i + 1 < n {
                let e = literal.get_char(i + 1);
                let pushed = if e == 'n' {
                    '\n'
                } else if e == 'r' {
                    '\r'
                } else if e == 't' {
                    '\t'
                } else if e == '0' {
                    '\0'
                } else if e == '"' {
                    '"'
                } else {
                    '\\'
                };
                let ghost before = out@;
                push_char(&mut out, pushed);
                proof {
                    assert(rest.subrange(2, rest.len() as int) =~= literal@.subrange(
                        i + 2,
                        n as int,
                    ));
                    assert(before + (seq![pushed] + unescaped(rest.subrange(2, rest.len() as int)))
                        =~= before.push(pushed) + unescaped(rest.subrange(2, rest.len() as int)));
                }
                i = i + 2;
            } else {
                proof {
                    assert(out@ + Seq::<char>::empty() =~= out@);
                    assert(literal@.subrange(n as int, n as int) =~= Seq::<char>::empty());
                }
                i = n;
            }
        } else if c == '"' {
            proof {
                assert(rest.drop_first() =~= literal@.subrange(i + 1, n as int));
            }
            i = i + 1;
        } else {
            let ghost before = out@;
            push_char(&mut out, c);
            proof {
                assert(rest.drop_first() =~= literal@.subrange(i + 1, n as int));
                assert(before + (seq![c] + unescaped(rest.drop_first())) =~= before.push(c)
                    + unescaped(rest.drop_first()));
            }
            i = i + 1;
        }
    }
    proof {
        assert(literal@.subrange(i as int, n as int) =~= Seq::<char>::empty());
        assert(out@ + Seq::<char>::empty() =~= out@);
    }
    out
}

} // verus!
