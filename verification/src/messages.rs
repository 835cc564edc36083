//! The abstract catalogue of rule violations, and the exact message entry
//! each violation produces.
//!
//! Contracts describe a failed parse as a sequence of [`Violation`]s; the
//! predicates here pin down, character for character, the text, locale key
//! and arguments of the entry that stands for each violation.

use vstd::prelude::*;

use crate::locale::{LocaleData, LocaleValue, MessageEntry};

verus! {

/// Entropy threshold, in bits, that a registration password must reach.
pub const PASSWORD_ENTROPY_MIN_BITS: usize = 60;

/// One rule violation, as the contracts speak of it.
pub ghost enum Violation {
    /// A mandatory field was empty.
    MandatoryEmpty,
    /// Fewer graphemes than the rule's minimum.
    TooShort { min: int },
    /// More graphemes than the rule's maximum.
    TooLong { max: int },
    /// No special character present.
    NeedSpecialChar,
    /// Neither-or-one of uppercase and lowercase present where both are
    /// required (one combined message, not two).
    NeedUpperAndLower,
    /// No uppercase letter present.
    NeedUpper,
    /// No lowercase letter present.
    NeedLower,
    /// No digit present.
    NeedDigit,
    /// The confirmation password differs from the primary password.
    PasswordMismatch,
    /// The username is already registered.
    UsernameTaken,
    /// The password's entropy score is below the required bits.
    LowEntropy,
}

/// The decimal digits of `n`, most significant first.
pub open spec fn spec_decimal(n: int) -> Seq<char>
    decreases n,
{
    if n < 10 {
        seq![spec_decimal_digit(n)]
    } else {
        spec_decimal(n / 10).push(spec_decimal_digit(n % 10))
    }
}

/// The character of one decimal digit.
pub open spec fn spec_decimal_digit(d: int) -> char {
    if d == 0 {
        '0'
    } else if d == 1 {
        '1'
    } else if d == 2 {
        '2'
    } else if d == 3 {
        '3'
    } else if d == 4 {
        '4'
    } else if d == 5 {
        '5'
    } else if d == 6 {
        '6'
    } else if d == 7 {
        '7'
    } else if d == 8 {
        '8'
    } else {
        '9'
    }
}

/// `e` carries no locale arguments.
pub open spec fn no_args(e: MessageEntry) -> bool {
    e.locale.args@.len() == 0
}

/// `e` carries exactly one numeric locale argument `key = n`.
pub open spec fn single_uint_arg(e: MessageEntry, key: Seq<char>, n: int) -> bool {
    &&& e.locale.args@.len() == 1
    &&& e.locale.args@[0].0@ == key
    &&& e.locale.args@[0].1 matches LocaleValue::UintVal(u) && u == n
}

/// The exact message entry that stands for a violation: its fallback text,
/// its locale key, and its locale arguments.
pub open spec fn entry_encodes(e: MessageEntry, v: Violation) -> bool {
    match v {
        Violation::MandatoryEmpty => {
            &&& e.text@ == "Cannot be empty"@
            &&& e.locale.name@ == "validate-cannot-be-empty"@
            &&& no_args(e)
        },
        Violation::TooShort { min } => {
            &&& e.text@ == "Must be at least "@ + spec_decimal(min) + " characters"@
            &&& e.locale.name@ == "validate-min-length"@
            &&& single_uint_arg(e, "min"@, min)
        },
        Violation::TooLong { max } => {
            &&& e.text@ == "Must be at most "@ + spec_decimal(max) + " characters"@
            &&& e.locale.name@ == "validate-max-length"@
            &&& single_uint_arg(e, "max"@, max)
        },
        Violation::NeedSpecialChar => {
            &&& e.text@ == "Must contain at least one special character"@
            &&& e.locale.name@ == "validate-must-have-special-chars"@
            &&& no_args(e)
        },
        Violation::NeedUpperAndLower => {
            &&& e.text@ == "Must contain at least one uppercase and lowercase letter"@
            &&& e.locale.name@ == "validate-must-have-uppercase-and-lowercase"@
            &&& no_args(e)
        },
        Violation::NeedUpper => {
            &&& e.text@ == "Must contain at least one uppercase letter"@
            &&& e.locale.name@ == "validate-must-have-uppercase"@
            &&& no_args(e)
        },
        Violation::NeedLower => {
            &&& e.text@ == "Must contain at least one lowercase letter"@
            &&& e.locale.name@ == "validate-must-have-lowercase"@
            &&& no_args(e)
        },
        Violation::NeedDigit => {
            &&& e.text@ == "Must contain at least one digit"@
            &&& e.locale.name@ == "validate-must-have-digit"@
            &&& no_args(e)
        },
        Violation::PasswordMismatch => {
            &&& e.text@ == "Does not match"@
            &&& e.locale.name@ == "validate-password-does-not-match"@
            &&& no_args(e)
        },
        Violation::UsernameTaken => {
            &&& e.text@ == "Already taken"@
            &&& e.locale.name@ == "validate-username-taken"@
            &&& no_args(e)
        },
        Violation::LowEntropy => {
            &&& e.text@ == "Password entropy score must be over "@ + spec_decimal(
                PASSWORD_ENTROPY_MIN_BITS as int,
            )
            &&& e.locale.name@ == "validate-password-entropy"@
            &&& single_uint_arg(e, "min"@, PASSWORD_ENTROPY_MIN_BITS as int)
        },
    }
}

/// `entries` is exactly the message list that stands for the violations `vs`,
/// in order.
pub open spec fn store_encodes(entries: Seq<MessageEntry>, vs: Seq<Violation>) -> bool {
    &&& entries.len() == vs.len()
    &&& forall|i: int| 0 <= i < vs.len() ==> entry_encodes(#[trigger] entries[i], vs[i])
}

/// A rule check extended `pre` to `post` by appending exactly the entries
/// that stand for the violations `vs`.
pub open spec fn appended(pre: Seq<MessageEntry>, post: Seq<MessageEntry>, vs: Seq<Violation>) -> bool {
    &&& post.len() == pre.len() + vs.len()
    &&& post.subrange(0, pre.len() as int) == pre
    &&& store_encodes(post.subrange(pre.len() as int, post.len() as int), vs)
}

/// Two successive appends compose.
pub proof fn lemma_appended_step(
    pre: Seq<MessageEntry>,
    mid: Seq<MessageEntry>,
    post: Seq<MessageEntry>,
    vs1: Seq<Violation>,
    vs2: Seq<Violation>,
)
    requires
        appended(pre, mid, vs1),
        appended(mid, post, vs2),
    ensures
        appended(pre, post, vs1 + vs2),
{
    assert(post.subrange(0, pre.len() as int) =~= mid.subrange(0, pre.len() as int));
    let tail = post.subrange(pre.len() as int, post.len() as int);
    let vs = vs1 + vs2;
    assert forall|i: int| 0 <= i < vs.len() implies entry_encodes(#[trigger] tail[i], vs[i]) by {
        if i < vs1.len() {
            assert(tail[i] == mid.subrange(pre.len() as int, mid.len() as int)[i]);
        } else {
            assert(tail[i] == post.subrange(mid.len() as int, post.len() as int)[i - vs1.len()]);
        }
    }
}

/// Appending nothing leaves the store unchanged.
pub proof fn lemma_appended_refl(entries: Seq<MessageEntry>)
    ensures
        appended(entries, entries, Seq::<Violation>::empty()),
{
    assert(entries.subrange(0, entries.len() as int) =~= entries);
}

/// An append of no violations changed nothing.
pub proof fn lemma_appended_empty_unchanged(pre: Seq<MessageEntry>, post: Seq<MessageEntry>)
    requires
        appended(pre, post, Seq::<Violation>::empty()),
    ensures
        post == pre,
{
    assert(post =~= post.subrange(0, post.len() as int));
}

/// A store appended to an empty one encodes the violations outright.
pub proof fn lemma_appended_from_empty(post: Seq<MessageEntry>, vs: Seq<Violation>)
    requires
        appended(Seq::<MessageEntry>::empty(), post, vs),
    ensures
        store_encodes(post, vs),
{
    assert(post =~= post.subrange(0, post.len() as int));
}

/// The literal of one decimal digit.
fn digit_str(d: usize) -> (r: &'static str)
    requires
        d < 10,
    ensures
        r@ == seq![spec_decimal_digit(d as int)],
{
    proof {
        reveal_strlit("0");
        reveal_strlit("1");
        reveal_strlit("2");
        reveal_strlit("3");
        reveal_strlit("4");
        reveal_strlit("5");
        reveal_strlit("6");
        reveal_strlit("7");
        reveal_strlit("8");
        reveal_strlit("9");
    }
    let r: &'static str = match d {
        0 => "0",
        1 => "1",
        2 => "2",
        3 => "3",
        4 => "4",
        5 => "5",
        6 => "6",
        7 => "7",
        8 => "8",
        _ => "9",
    };
    proof {
        assert(r@ =~= seq![spec_decimal_digit(d as int)]);
    }
    r
}

/// Renders `n` in decimal.
pub fn decimal_string(n: usize) -> (r: String)
    ensures
        r@ == spec_decimal(n as int),
    decreases n,
{
    if n < 10 {
        digit_str(n).to_owned()
    } else {
        let mut s = decimal_string(n / 10);
        s.append(digit_str(n % 10));
        proof {
            assert(s@ =~= spec_decimal(n as int));
        }
        s
    }
}

/// Locale data with a key and no arguments.
fn keyed_locale(key: &str) -> (r: LocaleData)
    ensures
        r.name@ == key@,
        r.args@.len() == 0,
{
    LocaleData { name: key.to_owned(), args: Vec::new() }
}

/// Locale data with a key and one numeric argument.
fn keyed_locale_uint(key: &str, arg_key: &str, n: usize) -> (r: LocaleData)
    ensures
        r.name@ == key@,
        r.args@.len() == 1,
        r.args@[0].0@ == arg_key@,
        r.args@[0].1 matches LocaleValue::UintVal(u) && u == n,
{
    let mut args: Vec<(String, LocaleValue)> = Vec::new();
    args.push((arg_key.to_owned(), LocaleValue::UintVal(n)));
    LocaleData { name: key.to_owned(), args }
}

/// The entry for an empty mandatory field.
pub fn mandatory_entry() -> (e: MessageEntry)
    ensures
        entry_encodes(e, Violation::MandatoryEmpty),
{
    MessageEntry {
        text: "Cannot be empty".to_owned(),
        locale: keyed_locale("validate-cannot-be-empty"),
    }
}

/// The entry for an input below the minimum grapheme count.
pub fn min_length_entry(min: usize) -> (e: MessageEntry)
    ensures
        entry_encodes(e, Violation::TooShort { min: min as int }),
{
    let mut text = "Must be at least ".to_owned();
    text.append(decimal_string(min).as_str());
    text.append(" characters");
    MessageEntry { text, locale: keyed_locale_uint("validate-min-length", "min", min) }
}

/// The entry for an input above the maximum grapheme count.
pub fn max_length_entry(max: usize) -> (e: MessageEntry)
    ensures
        entry_encodes(e, Violation::TooLong { max: max as int }),
{
    let mut text = "Must be at most ".to_owned();
    text.append(decimal_string(max).as_str());
    text.append(" characters");
    MessageEntry { text, locale: keyed_locale_uint("validate-max-length", "max", max) }
}

/// The entry for a missing special character.
pub fn special_char_entry() -> (e: MessageEntry)
    ensures
        entry_encodes(e, Violation::NeedSpecialChar),
{
    MessageEntry {
        text: "Must contain at least one special character".to_owned(),
        locale: keyed_locale("validate-must-have-special-chars"),
    }
}

/// The combined entry for missing uppercase-and-lowercase.
pub fn upper_and_lower_entry() -> (e: MessageEntry)
    ensures
        entry_encodes(e, Violation::NeedUpperAndLower),
{
    MessageEntry {
        text: "Must contain at least one uppercase and lowercase letter".to_owned(),
        locale: keyed_locale("validate-must-have-uppercase-and-lowercase"),
    }
}

/// The entry for a missing uppercase letter.
pub fn upper_entry() -> (e: MessageEntry)
    ensures
        entry_encodes(e, Violation::NeedUpper),
{
    MessageEntry {
        text: "Must contain at least one uppercase letter".to_owned(),
        locale: keyed_locale("validate-must-have-uppercase"),
    }
}

/// The entry for a missing lowercase letter.
pub fn lower_entry() -> (e: MessageEntry)
    ensures
        entry_encodes(e, Violation::NeedLower),
{
    MessageEntry {
        text: "Must contain at least one lowercase letter".to_owned(),
        locale: keyed_locale("validate-must-have-lowercase"),
    }
}

/// The entry for a missing digit.
pub fn digit_entry() -> (e: MessageEntry)
    ensures
        entry_encodes(e, Violation::NeedDigit),
{
    MessageEntry {
        text: "Must contain at least one digit".to_owned(),
        locale: keyed_locale("validate-must-have-digit"),
    }
}

/// The entry for a failed password confirmation.
pub fn mismatch_entry() -> (e: MessageEntry)
    ensures
        entry_encodes(e, Violation::PasswordMismatch),
{
    MessageEntry {
        text: "Does not match".to_owned(),
        locale: keyed_locale("validate-password-does-not-match"),
    }
}

/// The entry for an already-registered username.
pub fn taken_entry() -> (e: MessageEntry)
    ensures
        entry_encodes(e, Violation::UsernameTaken),
{
    MessageEntry {
        text: "Already taken".to_owned(),
        locale: keyed_locale("validate-username-taken"),
    }
}

/// The entry for a password whose entropy score is too low.
pub fn low_entropy_entry() -> (e: MessageEntry)
    ensures
        entry_encodes(e, Violation::LowEntropy),
{
    let mut text = "Password entropy score must be over ".to_owned();
    text.append(decimal_string(PASSWORD_ENTROPY_MIN_BITS).as_str());
    MessageEntry {
        text,
        locale: keyed_locale_uint("validate-password-entropy", "min", PASSWORD_ENTROPY_MIN_BITS),
    }
}

} // verus!
