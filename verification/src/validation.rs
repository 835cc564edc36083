//! String measurement for rule evaluation.
//!
//! A [`StringValidator`] carries an input string together with its grapheme
//! count; rules read lengths and character-class facts from it. Lengths are
//! counted by grapheme cluster, not by byte, so a multi-byte character counts
//! as one unit; character classes are counted by character.

pub mod string_rules;

use vstd::prelude::*;

use unicode_segmentation::UnicodeSegmentation;

use crate::locale::{MessageEntry, ValidateErrorCollector};

verus! {

/// Number of extended grapheme clusters of a character sequence, as
/// `unicode_segmentation` segments it. A function of the characters alone.
pub uninterp spec fn grapheme_count_of(s: Seq<char>) -> nat;

/// Relies on `unicode_segmentation::UnicodeSegmentation::graphemes`: the
/// iterator over the extended grapheme clusters of a string is determined by
/// the string's characters alone, and yields no cluster exactly when the
/// string is empty.
#[verifier::external_body]
fn count_grapheme_clusters(s: &str) -> (r: usize)
    ensures
        r as nat == grapheme_count_of(s@),
        (r == 0) == (s@.len() == 0),
{
    s.graphemes(true).count()
}

/// A character class that rules test for.
pub enum CharClass {
    Special,
    Upper,
    Lower,
    UpperOrLower,
    Digit,
    Alphanumeric,
}

/// The thirty characters that count as special characters.
pub open spec fn is_special_char(c: char) -> bool {
    ||| c == '!'
    ||| c == '@'
    ||| c == '#'
    ||| c == '$'
    ||| c == '%'
    ||| c == '^'
    ||| c == '&'
    ||| c == '*'
    ||| c == '('
    ||| c == ')'
    ||| c == '-'
    ||| c == '_'
    ||| c == '='
    ||| c == '+'
    ||| c == '['
    ||| c == ']'
    ||| c == '{'
    ||| c == '}'
    ||| c == '\\'
    ||| c == '|'
    ||| c == ';'
    ||| c == ':'
    ||| c == '\''
    ||| c == '"'
    ||| c == ','
    ||| c == '.'
    ||| c == '<'
    ||| c == '>'
    ||| c == '/'
    ||| c == '?'
}

/// Membership of a character in a class.
pub open spec fn char_in_class(k: CharClass, c: char) -> bool {
    match k {
        CharClass::Special => is_special_char(c),
        CharClass::Upper => 'A' <= c && c <= 'Z',
        CharClass::Lower => 'a' <= c && c <= 'z',
        CharClass::UpperOrLower => ('A' <= c && c <= 'Z') || ('a' <= c && c <= 'z'),
        CharClass::Digit => '0' <= c && c <= '9',
        CharClass::Alphanumeric => ('A' <= c && c <= 'Z') || ('a' <= c && c <= 'z') || ('0' <= c
            && c <= '9'),
    }
}

/// Some character of `s` lies in class `k`.
pub open spec fn class_present(k: CharClass, s: Seq<char>) -> bool {
    exists|i: int| 0 <= i < s.len() && char_in_class(k, #[trigger] s[i])
}

/// How many characters of `s` lie in class `k`.
pub open spec fn class_count(k: CharClass, s: Seq<char>) -> nat
    decreases s.len(),
{
    if s.len() == 0 {
        0
    } else {
        class_count(k, s.drop_last()) + if char_in_class(k, s.last()) {
            1nat
        } else {
            0nat
        }
    }
}

/// A class never counts more characters than the string holds.
pub proof fn lemma_class_count_le_len(k: CharClass, s: Seq<char>)
    ensures
        class_count(k, s) <= s.len(),
    decreases s.len(),
{
    if s.len() > 0 {
        lemma_class_count_le_len(k, s.drop_last());
    }
}

/// Uppercase and lowercase are disjoint, so their counts add up to the count
/// of the union class.
pub proof fn lemma_upper_lower_counts_add(s: Seq<char>)
    ensures
        class_count(CharClass::Upper, s) + class_count(CharClass::Lower, s) == class_count(
            CharClass::UpperOrLower,
            s,
        ),
    decreases s.len(),
{
    if s.len() > 0 {
        lemma_upper_lower_counts_add(s.drop_last());
    }
}

/// Decides membership of one character in a class.
fn check_char_class(k: &CharClass, c: char) -> (r: bool)
    ensures
        r == char_in_class(*k, c),
{
    match k {
        CharClass::Special => {
            c == '!' || c == '@' || c == '#' || c == '$' || c == '%' || c == '^' || c == '&' || c
                == '*' || c == '(' || c == ')' || c == '-' || c == '_' || c == '=' || c == '+' || c
                == '[' || c == ']' || c == '{' || c == '}' || c == '\\' || c == '|' || c == ';' || c
                == ':' || c == '\'' || c == '"' || c == ',' || c == '.' || c == '<' || c == '>' || c
                == '/' || c == '?'
        },
        CharClass::Upper => 'A' <= c && c <= 'Z',
        CharClass::Lower => 'a' <= c && c <= 'z',
        CharClass::UpperOrLower => ('A' <= c && c <= 'Z') || ('a' <= c && c <= 'z'),
        CharClass::Digit => '0' <= c && c <= '9',
        CharClass::Alphanumeric => ('A' <= c && c <= 'Z') || ('a' <= c && c <= 'z') || ('0' <= c
            && c <= '9'),
    }
}

/// Whether any character of `s` lies in class `k`.
fn str_has_class(s: &str, k: CharClass) -> (r: bool)
    ensures
        r == class_present(k, s@),
{
    let len = s.unicode_len();
    let mut i: usize = 0;
    while i < len
        invariant
            len == s@.len(),
            i <= len,
            forall|j: int| 0 <= j < i ==> !char_in_class(k, #[trigger] s@[j]),
        decreases len - i,
    {
        if check_char_class(&k, s.get_char(i)) {
            return true;
        }
        i = i + 1;
    }
    false
}

/// How many characters of `s` lie in class `k`.
fn str_count_class(s: &str, k: CharClass) -> (r: usize)
    ensures
        r as nat == class_count(k, s@),
{
    let len = s.unicode_len();
    let mut i: usize = 0;
    let mut count: usize = 0;
    while i < len
        invariant
            len == s@.len(),
            i <= len,
            count as nat == class_count(k, s@.subrange(0, i as int)),
            count <= i,
        decreases len - i,
    {
        proof {
            lemma_class_count_le_len(k, s@.subrange(0, i as int));
            assert(s@.subrange(0, i + 1).drop_last() =~= s@.subrange(0, i as int));
            assert(s@.subrange(0, i + 1).last() == s@[i as int]);
        }
        if check_char_class(&k, s.get_char(i)) {
            count = count + 1;
        }
        i = i + 1;
    }
    proof {
        assert(s@.subrange(0, len as int) =~= s@);
    }
    count
}

/// An input string pre-measured for rule evaluation: the string itself and
/// its grapheme count.
pub struct StringValidator<'a> {
    text: &'a str,
    graphemes: usize,
}

impl<'a> StringValidator<'a> {
    /// The characters of the measured string.
    pub closed spec fn text_spec(&self) -> Seq<char> {
        self.text@
    }

    /// The stored grapheme count is the count of the stored string.
    pub closed spec fn wf(&self) -> bool {
        self.graphemes as nat == grapheme_count_of(self.text@)
    }

    /// Measures a string. A string has no grapheme cluster exactly when it
    /// has no character.
    pub fn new(s: &'a str) -> (r: Self)
        ensures
            r.wf(),
            r.text_spec() == s@,
            (grapheme_count_of(s@) == 0) == (s@.len() == 0),
    {
        StringValidator { text: s, graphemes: count_grapheme_clusters(s) }
    }

    pub fn count_graphemes(&self) -> (r: usize)
        requires
            self.wf(),
        ensures
            r as nat == grapheme_count_of(self.text_spec()),
    {
        self.graphemes
    }

    /// Empty means: no grapheme cluster at all.
    pub fn is_empty(&self) -> (r: bool)
        requires
            self.wf(),
        ensures
            r == (grapheme_count_of(self.text_spec()) == 0),
    {
        self.graphemes == 0
    }

    pub fn has_special_chars(&self) -> (r: bool)
        ensures
            r == class_present(CharClass::Special, self.text_spec()),
    {
        str_has_class(self.text, CharClass::Special)
    }

    pub fn count_special_chars(&self) -> (r: usize)
        ensures
            r as nat == class_count(CharClass::Special, self.text_spec()),
    {
        str_count_class(self.text, CharClass::Special)
    }

    pub fn has_ascii_uppercase(&self) -> (r: bool)
        ensures
            r == class_present(CharClass::Upper, self.text_spec()),
    {
        str_has_class(self.text, CharClass::Upper)
    }

    pub fn count_ascii_uppercase(&self) -> (r: usize)
        ensures
            r as nat == class_count(CharClass::Upper, self.text_spec()),
    {
        str_count_class(self.text, CharClass::Upper)
    }

    pub fn has_ascii_lowercase(&self) -> (r: bool)
        ensures
            r == class_present(CharClass::Lower, self.text_spec()),
    {
        str_has_class(self.text, CharClass::Lower)
    }

    pub fn count_ascii_lowercase(&self) -> (r: usize)
        ensures
            r as nat == class_count(CharClass::Lower, self.text_spec()),
    {
        str_count_class(self.text, CharClass::Lower)
    }

    pub fn has_ascii_uppercase_and_lowercase(&self) -> (r: bool)
        ensures
            r == (class_present(CharClass::Upper, self.text_spec()) && class_present(
                CharClass::Lower,
                self.text_spec(),
            )),
    {
        self.has_ascii_uppercase() && self.has_ascii_lowercase()
    }

    pub fn count_ascii_uppercase_and_lowercase(&self) -> (r: usize)
        ensures
            r as nat == class_count(CharClass::Upper, self.text_spec()) + class_count(
                CharClass::Lower,
                self.text_spec(),
            ),
    {
        proof {
            lemma_upper_lower_counts_add(self.text@);
            lemma_class_count_le_len(CharClass::UpperOrLower, self.text@);
        }
        str_count_class(self.text, CharClass::UpperOrLower)
    }

    pub fn has_ascii_digit(&self) -> (r: bool)
        ensures
            r == class_present(CharClass::Digit, self.text_spec()),
    {
        str_has_class(self.text, CharClass::Digit)
    }

    pub fn count_ascii_digit(&self) -> (r: usize)
        ensures
            r as nat == class_count(CharClass::Digit, self.text_spec()),
    {
        str_count_class(self.text, CharClass::Digit)
    }

    pub fn has_ascii_alphanumeric(&self) -> (r: bool)
        ensures
            r == class_present(CharClass::Alphanumeric, self.text_spec()),
    {
        str_has_class(self.text, CharClass::Alphanumeric)
    }

    pub fn count_ascii_alphanumeric(&self) -> (r: usize)
        ensures
            r as nat == class_count(CharClass::Alphanumeric, self.text_spec()),
    {
        str_count_class(self.text, CharClass::Alphanumeric)
    }
}

/// Measuring a string-like value for validation.
pub trait StrValidationExtension: View<V = Seq<char>> {
    fn as_string_validator<'a>(&'a self) -> (r: StringValidator<'a>)
        ensures
            r.wf(),
            r.text_spec() == self@,
            (grapheme_count_of(self@) == 0) == (self@.len() == 0),
    ;
}

impl StrValidationExtension for str {
    fn as_string_validator<'a>(&'a self) -> (r: StringValidator<'a>) {
        StringValidator::new(self)
    }
}

impl StrValidationExtension for String {
    fn as_string_validator<'a>(&'a self) -> (r: StringValidator<'a>) {
        StringValidator::new(self.as_str())
    }
}

/// Turning a collected message set into a typed error: `Ok` exactly when no
/// message was collected, and the error keeps every message.
pub trait ValidationCheck: Sized {
    /// The message entries the error carries.
    spec fn store_spec(&self) -> Seq<MessageEntry>;

    fn validation_check(strings: ValidateErrorCollector) -> (r: Result<(), Self>)
        ensures
            (r is Ok) == (strings.0@.len() == 0),
            r matches Err(e) ==> e.store_spec() == strings.0@,
    ;
}

/// Records in `flag` whether any result of a group failed, without swallowing
/// the result: every sibling field is still evaluated.
pub fn error_flag<T, E>(flag: &mut bool, res: Result<T, E>) -> (r: Result<T, E>)
    ensures
        *final(flag) == (*old(flag) || res is Err),
        r == res,
{
    if res.is_err() {
        *flag = true;
    }
    res
}

} // verus!
