//! The validated password type.
//!
//! The registration rule set demands mandatory presence, 8 to 64 graphemes,
//! and uppercase, lowercase, special-character and digit classes; the login
//! rule set deliberately only bounds the input's size before a credential
//! comparison. A confirmation parse compares literal equality against the
//! already-parsed primary password, and the registration pipeline runs an
//! entropy gate whose verdict the caller's entropy collaborator supplies.

use vstd::prelude::*;

use crate::locale::{MessageEntry, ValidateErrorCollector, ValidateErrorStore};
use crate::messages::{
    appended, lemma_appended_empty_unchanged, lemma_appended_from_empty, lemma_appended_step,
    low_entropy_entry, mismatch_entry, store_encodes, Violation,
};
use crate::validation::string_rules::{
    StringLengthRule, StringMandatoryRule, StringSpecialCharRule,
};
use crate::validation::{
    grapheme_count_of, StrValidationExtension, StringValidator, ValidationCheck,
};

verus! {

/// The rule set of a password field: mandatory presence, grapheme-length
/// bounds, and required character classes.
pub struct PasswordRule {
    pub is_mandatory: bool,
    pub must_have_uppercase: bool,
    pub must_have_lowercase: bool,
    pub must_have_special_chars: bool,
    pub must_have_digit: bool,
    pub min_length: Option<usize>,
    pub max_length: Option<usize>,
}

impl PasswordRule {
    /// The registration rule set: mandatory, 8 to 64 graphemes, all four
    /// character classes.
    pub open spec fn spec_default() -> Self {
        PasswordRule {
            is_mandatory: true,
            must_have_uppercase: true,
            must_have_lowercase: true,
            must_have_special_chars: true,
            must_have_digit: true,
            min_length: Some(8usize),
            max_length: Some(64usize),
        }
    }

    /// The login rule set: mandatory and bounded above, nothing more — login
    /// validation only bounds input size before a credential comparison.
    pub open spec fn spec_login() -> Self {
        PasswordRule {
            is_mandatory: true,
            must_have_uppercase: false,
            must_have_lowercase: false,
            must_have_special_chars: false,
            must_have_digit: false,
            min_length: None,
            max_length: Some(64usize),
        }
    }

    /// The violations of this rule set on the characters `s`: an empty
    /// mandatory input reports only its emptiness; otherwise the length
    /// bounds and the character classes are checked, in that order.
    pub open spec fn violations(&self, s: Seq<char>) -> Seq<Violation> {
        let g = grapheme_count_of(s);
        let m = StringMandatoryRule { is_mandatory: self.is_mandatory }.violations(g);
        if m.len() > 0 {
            m
        } else {
            StringLengthRule { min_length: self.min_length, max_length: self.max_length }
                .violations(g) + self.spec_char_rule().violations(s)
        }
    }

    /// The character-class part of this rule set.
    pub open spec fn spec_char_rule(&self) -> StringSpecialCharRule {
        StringSpecialCharRule {
            must_have_uppercase: self.must_have_uppercase,
            must_have_lowercase: self.must_have_lowercase,
            must_have_special_chars: self.must_have_special_chars,
            must_have_digit: self.must_have_digit,
        }
    }

    fn rules(&self) -> (r: (StringMandatoryRule, StringLengthRule, StringSpecialCharRule))
        ensures
            r.0.is_mandatory == self.is_mandatory,
            r.1.min_length == self.min_length,
            r.1.max_length == self.max_length,
            r.2 == self.spec_char_rule(),
    {
        (
            StringMandatoryRule { is_mandatory: self.is_mandatory },
            StringLengthRule { min_length: self.min_length, max_length: self.max_length },
            StringSpecialCharRule {
                must_have_uppercase: self.must_have_uppercase,
                must_have_lowercase: self.must_have_lowercase,
                must_have_special_chars: self.must_have_special_chars,
                must_have_digit: self.must_have_digit,
            },
        )
    }

    fn check(&self, msgs: &mut ValidateErrorCollector, subject: &StringValidator)
        requires
            subject.wf(),
            old(msgs).0@.len() == 0,
        ensures
            appended(old(msgs).0@, final(msgs).0@, self.violations(subject.text_spec())),
    {
        let ghost pre = msgs.0@;
        let ghost g = grapheme_count_of(subject.text_spec());
        let (mandatory, length, special_char) = self.rules();
        mandatory.check(msgs, subject);
        if !msgs.is_empty() {
            return ;
        }
        proof {
            lemma_appended_empty_unchanged(pre, msgs.0@);
        }
        length.check(msgs, subject);
        let ghost mid = msgs.0@;
        special_char.check(msgs, subject);
        proof {
            lemma_appended_step(
                pre,
                mid,
                msgs.0@,
                StringLengthRule { min_length: self.min_length, max_length: self.max_length }
                    .violations(g),
                self.spec_char_rule().violations(subject.text_spec()),
            );
        }
    }
}

impl Default for PasswordRule {
    /// The registration rule set.
    fn default() -> (r: Self)
        ensures
            r == Self::spec_default(),
    {
        PasswordRule {
            is_mandatory: true,
            must_have_uppercase: true,
            must_have_lowercase: true,
            must_have_special_chars: true,
            must_have_digit: true,
            min_length: Some(8),
            max_length: Some(64),
        }
    }
}

/// The full message set of a failed password validation. The default value
/// carries no message: it marks a field that failed only because a sibling
/// check failed first.
#[derive(Debug)]
pub struct PasswordError(pub ValidateErrorStore);

impl ValidationCheck for PasswordError {
    open spec fn store_spec(&self) -> Seq<MessageEntry> {
        self.0.0@
    }

    fn validation_check(strings: ValidateErrorCollector) -> (r: Result<(), Self>) {
        if strings.is_empty() {
            Ok(())
        } else {
            Err(PasswordError(strings.into_store()))
        }
    }
}

impl Default for PasswordError {
    /// An empty message set.
    fn default() -> (r: Self)
        ensures
            r.0.0@ == Seq::<MessageEntry>::empty(),
    {
        PasswordError(ValidateErrorStore(Vec::new()))
    }
}

/// A password that passed its rule chain. Its characters are exactly the raw
/// input's: parsing never normalizes.
#[derive(Debug)]
pub struct Password(String);

impl View for Password {
    type V = Seq<char>;

    closed spec fn view(&self) -> Seq<char> {
        self.0@
    }
}

impl Clone for Password {
    fn clone(&self) -> (r: Self)
        ensures
            r@ == self@,
    {
        Password(self.0.clone())
    }
}

impl Default for Password {
    /// The zero placeholder for error-path plumbing — never a valid instance.
    fn default() -> (r: Self)
        ensures
            r@ == Seq::<char>::empty(),
    {
        Password(String::new())
    }
}

impl Password {
    /// Runs the rule chain over `password`: returns the password verbatim
    /// when no rule fires, and the full violation set otherwise.
    pub fn parse_custom(password: String, password_rule: PasswordRule) -> (r: Result<
        Self,
        PasswordError,
    >)
        ensures
            ({
                let vs = password_rule.violations(password@);
                &&& vs.len() == 0 ==> (r matches Ok(p) && p@ == password@)
                &&& vs.len() > 0 ==> (r matches Err(e) && store_encodes(e.0.0@, vs))
            }),
    {
        let mut message = ValidateErrorCollector::new();
        let password_validator = password.as_string_validator();

        password_rule.check(&mut message, &password_validator);
        proof {
            lemma_appended_from_empty(message.0@, password_rule.violations(password@));
        }

        match PasswordError::validation_check(message) {
            Ok(_) => Ok(Password(password)),
            Err(e) => Err(e),
        }
    }

    /// Parses with the registration rule set.
    pub fn parse(password: String) -> (r: Result<Self, PasswordError>)
        ensures
            ({
                let vs = PasswordRule::spec_default().violations(password@);
                &&& vs.len() == 0 ==> (r matches Ok(p) && p@ == password@)
                &&& vs.len() > 0 ==> (r matches Err(e) && store_encodes(e.0.0@, vs))
            }),
    {
        Self::parse_custom(password, PasswordRule::default())
    }

    /// Parses with the weaker login rule set.
    pub fn parse_login(password: String) -> (r: Result<Self, PasswordError>)
        ensures
            ({
                let vs = PasswordRule::spec_login().violations(password@);
                &&& vs.len() == 0 ==> (r matches Ok(p) && p@ == password@)
                &&& vs.len() > 0 ==> (r matches Err(e) && store_encodes(e.0.0@, vs))
            }),
    {
        Self::parse_custom(
            password,
            PasswordRule {
                is_mandatory: true,
                must_have_uppercase: false,
                must_have_lowercase: false,
                must_have_special_chars: false,
                must_have_digit: false,
                min_length: None,
                max_length: Some(64),
            },
        )
    }

    /// Parses with the login rule set (the login form's entry point).
    pub fn parse_user_login(password: String) -> (r: Result<Self, PasswordError>)
        ensures
            ({
                let vs = PasswordRule::spec_login().violations(password@);
                &&& vs.len() == 0 ==> (r matches Ok(p) && p@ == password@)
                &&& vs.len() > 0 ==> (r matches Err(e) && store_encodes(e.0.0@, vs))
            }),
    {
        Self::parse_login(password)
    }

    /// Compares a confirmation input against this (already parsed) password:
    /// literal equality succeeds, anything else fails with exactly one
    /// mismatch message. The character-class rules are not re-run.
    pub fn parse_confirm(&self, password_confirm: String) -> (r: Result<Self, PasswordError>)
        ensures
            password_confirm@ == self@ ==> (r matches Ok(p) && p@ == password_confirm@),
            password_confirm@ != self@ ==> (r matches Err(e) && store_encodes(
                e.0.0@,
                seq![Violation::PasswordMismatch],
            )),
    {
        if password_confirm == self.0 {
            Ok(Password(password_confirm))
        } else {
            let mut entries: Vec<MessageEntry> = Vec::new();
            entries.push(mismatch_entry());
            Err(PasswordError(ValidateErrorStore(entries)))
        }
    }

    /// The registration pipeline for the password pair: structural
    /// validation of the primary password; then — only for a structurally
    /// valid one — the entropy gate, whose failure takes precedence over
    /// (and suppresses) the confirmation comparison; then the confirmation
    /// comparison. `entropy_acceptable` is the verdict of the caller's
    /// entropy collaborator on the raw password.
    pub fn parse_user_register(
        password: String,
        password_confirm: String,
        entropy_acceptable: bool,
    ) -> (r: (Result<Self, PasswordError>, Result<Self, PasswordError>))
        ensures
            ({
                let vs = PasswordRule::spec_default().violations(password@);
                &&& vs.len() > 0 ==> (r.0 matches Err(e) && store_encodes(e.0.0@, vs)) && (
                r.1 matches Err(e) && e.0.0@.len() == 0)
                &&& vs.len() == 0 && !entropy_acceptable ==> (r.0 matches Err(e)
                    && store_encodes(e.0.0@, seq![Violation::LowEntropy])) && (r.1 matches Err(e)
                    && e.0.0@.len() == 0)
                &&& vs.len() == 0 && entropy_acceptable && password_confirm@ == password@ ==> (
                r.0 matches Ok(p) && p@ == password@) && (r.1 matches Ok(p) && p@
                    == password_confirm@)
                &&& vs.len() == 0 && entropy_acceptable && password_confirm@ != password@ ==> (
                r.0 matches Ok(p) && p@ == password@) && (r.1 matches Err(e) && store_encodes(
                    e.0.0@,
                    seq![Violation::PasswordMismatch],
                ))
            }),
    {
        let password = Self::parse(password);
        match password {
            Ok(password_ref) => {
                match PasswordStatus::check(&password_ref, password_confirm, entropy_acceptable) {
                    PasswordStatus::ConfirmOk(password_confirm) => (
                        Ok(password_ref),
                        Ok(password_confirm),
                    ),
                    PasswordStatus::ConfirmError(err) => (Ok(password_ref), Err(err)),
                    PasswordStatus::EntropyError(err) => (Err(err), Err(PasswordError::default())),
                }
            },
            Err(e) => (Err(e), Err(PasswordError::default())),
        }
    }

    pub fn as_str(&self) -> (r: &str)
        ensures
            r@ == self@,
    {
        self.0.as_str()
    }
}

/// Outcome of the second stage of registration-password validation: the
/// entropy gate first, then the confirmation comparison.
enum PasswordStatus {
    ConfirmError(PasswordError),
    ConfirmOk(Password),
    EntropyError(PasswordError),
}

impl PasswordStatus {
    /// Entropy failure short-circuits the confirmation comparison; its one
    /// message set replaces both.
    fn check(password: &Password, password_confirm: String, entropy_acceptable: bool) -> (r: Self)
        ensures
            !entropy_acceptable ==> (r matches PasswordStatus::EntropyError(e) && store_encodes(
                e.0.0@,
                seq![Violation::LowEntropy],
            )),
            entropy_acceptable && password_confirm@ == password@ ==> (
            r matches PasswordStatus::ConfirmOk(p) && p@ == password_confirm@),
            entropy_acceptable && password_confirm@ != password@ ==> (
            r matches PasswordStatus::ConfirmError(e) && store_encodes(
                e.0.0@,
                seq![Violation::PasswordMismatch],
            )),
    {
        if !entropy_acceptable {
            let mut entries: Vec<MessageEntry> = Vec::new();
            entries.push(low_entropy_entry());
            return PasswordStatus::EntropyError(PasswordError(ValidateErrorStore(entries)));
        }
        match password.parse_confirm(password_confirm) {
            Ok(ok) => PasswordStatus::ConfirmOk(ok),
            Err(err) => PasswordStatus::ConfirmError(err),
        }
    }
}

/// For any non-empty input with fewer graphemes than the password rule's
/// minimum (and coherent bounds), validation reports the too-short message
/// exactly once, first, and no mandatory-violation message — the remaining
/// messages concern character classes only.
pub proof fn lemma_password_short_input_single_length_violation(
    rule: PasswordRule,
    s: Seq<char>,
    min: usize,
)
    requires
        rule.min_length == Some(min),
        0 < grapheme_count_of(s) < min,
        rule.max_length matches Some(max) ==> min <= max,
    ensures
        rule.violations(s).len() > 0,
        rule.violations(s)[0] == (Violation::TooShort { min: min as int }),
        forall|i: int| 0 < i < rule.violations(s).len() ==> !(#[trigger] rule.violations(
            s,
        )[i] matches Violation::TooShort { .. }) && !(rule.violations(
            s,
        )[i] matches Violation::TooLong { .. }) && !(rule.violations(
            s,
        )[i] matches Violation::MandatoryEmpty),
{
}

/// For an empty mandatory input, validation fails with exactly the
/// cannot-be-empty message: neither length nor character-class rules run.
pub proof fn lemma_password_empty_mandatory_single_violation(rule: PasswordRule, s: Seq<char>)
    requires
        rule.is_mandatory,
        grapheme_count_of(s) == 0,
    ensures
        rule.violations(s) =~= seq![Violation::MandatoryEmpty],
{
}

} // verus!
