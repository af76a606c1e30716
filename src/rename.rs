//! Rename rules: how a declared identifier becomes a schema name.
//!
//! An identifier is read as a sequence of words. A word ends at an underscore,
//! and before an uppercase ASCII letter that follows a lowercase ASCII letter or
//! an ASCII digit. Underscores are never part of a word. Letters outside ASCII
//! are kept as they are.
use vstd::prelude::*;

verus! {

/// A rule that derives a schema name from an identifier.
#[derive(Clone, Copy, Debug, PartialEq, Eq, Structural)]
pub enum RenameRule {
    /// `lowercase`: every letter lowercased, underscores kept.
    Lower,
    /// `UPPERCASE`: every letter uppercased, underscores kept.
    Upper,
    /// `PascalCase`: every word capitalized, joined without separator.
    Pascal,
    /// `camelCase`: like `PascalCase`, with the first word lowercased.
    Camel,
    /// `snake_case`: words lowercased, joined by underscores.
    Snake,
    /// `SCREAMING_SNAKE_CASE`: words uppercased, joined by underscores.
    ScreamingSnake,
}

pub open spec fn is_upper(c: char) -> bool {
    'A' <= c <= 'Z'
}

pub open spec fn is_lower(c: char) -> bool {
    'a' <= c <= 'z'
}

pub open spec fn is_digit(c: char) -> bool {
    '0' <= c <= '9'
}

pub open spec fn to_lower(c: char) -> char {
    if is_upper(c) {
        ((c as u32) + 32) as char
    } else {
        c
    }
}

pub open spec fn to_upper(c: char) -> char {
    if is_lower(c) {
        ((c as u32) - 32) as char
    } else {
        c
    }
}

/// Whether some character before position `i` of `s` belongs to a word.
pub open spec fn started(s: Seq<char>, i: int) -> bool {
    exists|j: int| 0 <= j < i && #[trigger] s[j] != '_'
}

/// Whether the character at `i` (not an underscore) begins a word other than
/// the first.
pub open spec fn begins_later_word(s: Seq<char>, i: int) -> bool {
    &&& started(s, i)
    &&& (s[i - 1] == '_' || (is_upper(s[i]) && (is_lower(s[i - 1]) || is_digit(s[i - 1]))))
}

/// What the character at `i` of `s` contributes to the renamed identifier.
pub open spec fn piece(rule: RenameRule, s: Seq<char>, i: int) -> Seq<char> {
    let c = s[i];
    match rule {
        RenameRule::Lower => seq![to_lower(c)],
        RenameRule::Upper => seq![to_upper(c)],
        _ => if c == '_' {
            Seq::empty()
        } else if !started(s, i) {
            match rule {
                RenameRule::Pascal | RenameRule::ScreamingSnake => seq![to_upper(c)],
                _ => seq![to_lower(c)],
            }
        } else if begins_later_word(s, i) {
            match rule {
                RenameRule::Snake => seq!['_', to_lower(c)],
                RenameRule::ScreamingSnake => seq!['_', to_upper(c)],
                _ => seq![to_upper(c)],
            }
        } else {
            match rule {
                RenameRule::ScreamingSnake => seq![to_upper(c)],
                _ => seq![to_lower(c)],
            }
        },
    }
}

/// The renaming of the first `n` characters of `s`.
pub open spec fn renamed_prefix(rule: RenameRule, s: Seq<char>, n: nat) -> Seq<char>
    decreases n,
{
    if n == 0 {
        Seq::empty()
    } else {
        renamed_prefix(rule, s, (n - 1) as nat) + piece(rule, s, n - 1)
    }
}

/// `rule` applied to the identifier `s`.
pub open spec fn renamed(rule: RenameRule, s: Seq<char>) -> Seq<char> {
    renamed_prefix(rule, s, s.len())
}

/// Relies on `String::push`: appends one character.
#[verifier::external_body]
fn push_char(s: &mut String, c: char)
    ensures
        final(s)@ == old(s)@.push(c),
{
    s.push(c)
}

fn lower_char(c: char) -> (r: char)
    ensures
        r == to_lower(c),
{
    if 'A' <= c && c <= 'Z' {
        ((c as u8) + 32) as char
    } else {
        c
    }
}

fn upper_char(c: char) -> (r: char)
    ensures
        r == to_upper(c),
{
    if 'a' <= c && c <= 'z' {
        ((c as u8) - 32) as char
    } else {
        c
    }
}

impl RenameRule {
    /// Applies the rule to an identifier.
    pub fn apply(&self, ident: &str) -> (r: String)
        ensures
            r@ == renamed(*self, ident@),
    {
        let n = ident.unicode_len();
        let mut out = String::new();
        let mut i: usize = 0;
        let mut seen_word = false;
        let mut prev: char = '_';
        while i < n
            invariant
                n == ident@.len(),
                i <= n,
                out@ == renamed_prefix(*self, ident@, i as nat),
                seen_word == started(ident@, i as int),
                i > 0 ==> prev == ident@[i - 1],
            decreases n - i,
        {
            let c = ident.get_char(i);
            proof {
                assert(renamed_prefix(*self, ident@, (i + 1) as nat) == renamed_prefix(
                    *self,
                    ident@,
                    i as nat,
                ) + piece(*self, ident@, i as int));
            }
            match self {
                RenameRule::Lower => push_char(&mut out, lower_char(c)),
                RenameRule::Upper => push_char(&mut out, upper_char(c)),
                _ => {
                    if c != '_' {
                        let later = seen_word && (prev == '_' || ('A' <= c && c <= 'Z' && (('a'
                            <= prev && prev <= 'z') || ('0' <= prev && prev <= '9'))));
                        let upper = match self {
                            RenameRule::ScreamingSnake => true,
                            RenameRule::Pascal => !seen_word || later,
                            RenameRule::Camel => later,
                            _ => false,
                        };
                        let separated = later && match self {
                            RenameRule::Snake | RenameRule::ScreamingSnake => true,
                            _ => false,
                        };
                        if separated {
                            push_char(&mut out, '_');
                        }
                        if upper {
                            push_char(&mut out, upper_char(c));
                        } else {
                            push_char(&mut out, lower_char(c));
                        }
                    }
                },
            }
            proof {
                if c != '_' {
                    assert(ident@[i as int] != '_');
                    assert(started(ident@, i + 1));
                } else if !seen_word {
                    assert forall|j: int| 0 <= j < i + 1 implies #[trigger] ident@[j] == '_' by {
                        if j < i {
                            assert(!(ident@[j] != '_'));
                        }
                    }
                }
                assert(out@ =~= renamed_prefix(*self, ident@, (i + 1) as nat));
            }
            if c != '_' {
                seen_word = true;
            }
            prev = c;
            i = i + 1;
        }
        out
    }
}

} // verus!
