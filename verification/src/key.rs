//! Keys: what a reader asks for.
//!
//! A key string is an identifier, optionally followed by a separator and a
//! rendering extension: `abc123` or `abc123.py`.

use crate::text::{borrow_opt, clone_opt, opt_str_view, opt_view};
use vstd::prelude::*;
use vstd::std_specs::iter::IteratorSpec;
use vstd::string::*;

verus! {

/// Why a key string was refused.
#[derive(Clone, Copy, Debug, PartialEq, Eq, Structural)]
pub enum ParseError {
    /// Nothing stands before the separator.
    EmptyIdentifier,
    /// The identifier holds a character outside the identifier alphabet.
    IllegalCharacter,
}

/// What a key is, mathematically: two keys are the same cache entry exactly
/// when both parts agree.
pub struct KeyView {
    pub id: Seq<char>,
    pub ext: Option<Seq<char>>,
}

/// Identifies a stored paste, and says how to render it.
#[derive(Debug, PartialEq, Eq, Hash)]
pub struct Key {
    id: String,
    ext: Option<String>,
}

/// The character between identifier and extension.
pub const SEPARATOR: char = '.';

/// The identifier alphabet: ASCII letters and digits, `-` and `+`.
pub open spec fn is_id_char(c: char) -> bool {
    ||| 'a' <= c <= 'z'
    ||| 'A' <= c <= 'Z'
    ||| '0' <= c <= '9'
    ||| c == '-'
    ||| c == '+'
}

/// A well-formed identifier is not empty and stays inside the alphabet.
pub open spec fn is_identifier(s: Seq<char>) -> bool {
    &&& s.len() > 0
    &&& forall|i: int| 0 <= i < s.len() ==> is_id_char(#[trigger] s[i])
}

/// The part of a key string before the first separator: all of it when
/// there is none.
pub open spec fn id_portion(s: Seq<char>) -> Seq<char> {
    match s.index_of_first(SEPARATOR) {
        Some(at) => s.take(at),
        None => s,
    }
}

/// The part of a key string behind the first separator, if there is one.
pub open spec fn ext_portion(s: Seq<char>) -> Option<Seq<char>> {
    match s.index_of_first(SEPARATOR) {
        Some(at) => Some(s.skip(at + 1)),
        None => None,
    }
}

/// What parsing a key string yields.
pub open spec fn parse_key(s: Seq<char>) -> Result<KeyView, ParseError> {
    let id = id_portion(s);
    if id.len() == 0 {
        Err(ParseError::EmptyIdentifier)
    } else if !is_identifier(id) {
        Err(ParseError::IllegalCharacter)
    } else {
        Ok(KeyView { id, ext: ext_portion(s) })
    }
}

/// Whether `r` is what parsing the key string `input` gives: the key or the
/// error of [`parse_key`].
pub open spec fn parses_to(input: Seq<char>, r: Result<Key, ParseError>) -> bool {
    match r {
        Ok(key) => parse_key(input) == Ok::<KeyView, ParseError>(key@),
        Err(e) => parse_key(input) == Err::<KeyView, ParseError>(e),
    }
}

/// Parsing is a function of the key string: two parses of one string give
/// equal keys, or the same error.
pub proof fn lemma_parse_is_deterministic(
    input: Seq<char>,
    first: Result<Key, ParseError>,
    second: Result<Key, ParseError>,
)
    requires
        parses_to(input, first),
        parses_to(input, second),
    ensures
        match (first, second) {
            (Ok(a), Ok(b)) => a@ == b@,
            (Err(e), Err(f)) => e == f,
            _ => false,
        },
{
}

/// The identifier portion is the longest prefix without a separator, and
/// the extension is what stands behind the separator that ends it.
pub proof fn lemma_portions(s: Seq<char>)
    ensures
        id_portion(s).len() <= s.len(),
        id_portion(s) == s.take(id_portion(s).len() as int),
        !id_portion(s).contains(SEPARATOR),
        match ext_portion(s) {
            Some(ext) => s == id_portion(s) + seq![SEPARATOR] + ext,
            None => s == id_portion(s),
        },
{
    s.index_of_first_ensures(SEPARATOR);
}

impl View for Key {
    type V = KeyView;

    closed spec fn view(&self) -> KeyView {
        KeyView { id: self.id@, ext: opt_view(self.ext) }
    }
}

/// A string whose first `at` characters are free of the separator keeps
/// them all in its identifier portion, and the next one too unless it is
/// the separator.
proof fn lemma_id_portion_reaches(s: Seq<char>, at: int)
    requires
        0 <= at < s.len(),
        forall|j: int| 0 <= j < at ==> #[trigger] s[j] != SEPARATOR,
        s[at] != SEPARATOR,
    ensures
        at < id_portion(s).len(),
        id_portion(s)[at] == s[at],
{
    s.index_of_first_ensures(SEPARATOR);
}

/// The identifier portion ends at the first separator, or with the string.
proof fn lemma_id_portion_ends(s: Seq<char>, at: int)
    requires
        0 <= at <= s.len(),
        forall|j: int| 0 <= j < at ==> #[trigger] s[j] != SEPARATOR,
        at == s.len() || s[at] == SEPARATOR,
    ensures
        id_portion(s) == s.take(at),
        ext_portion(s) == if at < s.len() {
            Some(s.skip(at + 1))
        } else {
            None
        },
{
    s.index_of_first_ensures(SEPARATOR);
}

fn id_char(c: char) -> (b: bool)
    ensures
        b == is_id_char(c),
{
    ('a' <= c && c <= 'z') || ('A' <= c && c <= 'Z') || ('0' <= c && c <= '9') || c == '-' || c
        == '+'
}

impl Key {
    #[verifier::type_invariant]
    spec fn well_formed(&self) -> bool {
        is_identifier(self.id@)
    }

    /// Parses a key string.
    pub fn parse(input: &str) -> (r: Result<Key, ParseError>)
        ensures
            parses_to(input@, r),
    {
        broadcast use vstd::string::group_string_axioms;

        let n = input.unicode_len();
        let mut rest = input.chars();
        let mut i: usize = 0;
        loop
            invariant_except_break
                rest.remaining() == input@.skip(i as int),
            invariant
                i <= n,
                n == input@.len(),
                rest.obeys_prophetic_iter_laws(),
                forall|j: int| 0 <= j < i ==> is_id_char(#[trigger] input@[j]),
            ensures
                i == n || input@[i as int] == SEPARATOR,
            decreases n - i,
        {
            match rest.next() {
                None => {
                    break;
                },
                Some(c) => {
                    if c == SEPARATOR {
                        break;
                    }
                    if !id_char(c) {
                        proof {
                            lemma_id_portion_reaches(input@, i as int);
                        }
                        return Err(ParseError::IllegalCharacter);
                    }
                    i += 1;
                },
            }
        }
        proof {
            lemma_id_portion_ends(input@, i as int);
        }
        if i == 0 {
            return Err(ParseError::EmptyIdentifier);
        }
        let id = input.substring_char(0, i).to_owned();
        let ext = if i < n {
            Some(input.substring_char(i + 1, n).to_owned())
        } else {
            None
        };
        Ok(Key { id, ext })
    }

    /// The identifier.
    pub fn id(&self) -> (s: &str)
        ensures
            s@ == self@.id,
            is_identifier(s@),
    {
        proof {
            use_type_invariant(self);
        }
        self.id.as_str()
    }

    /// The rendering extension, if the key names one.
    pub fn ext(&self) -> (s: Option<&str>)
        ensures
            opt_str_view(s) == self@.ext,
    {
        borrow_opt(&self.ext)
    }

    /// Whether two keys name the same cache entry: both parts agree.
    pub fn same(&self, other: &Key) -> (b: bool)
        ensures
            b == (self@ == other@),
    {
        let ext_same = match (&self.ext, &other.ext) {
            (Some(a), Some(b)) => *a == *b,
            (None, None) => true,
            _ => false,
        };
        self.id == other.id && ext_same
    }
}

impl Clone for Key {
    fn clone(&self) -> (key: Key)
        ensures
            key@ == self@,
    {
        proof {
            use_type_invariant(self);
        }
        Key { id: self.id.clone(), ext: clone_opt(&self.ext) }
    }
}

} // verus!
