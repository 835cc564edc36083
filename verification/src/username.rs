//! The validated username type.
//!
//! A [`Username`] can only be obtained by parsing: the rule chain (mandatory,
//! then length bounds) runs over the raw input, and every violation is
//! collected. An already-valid username can further be checked for uniqueness
//! against an injected lookup service.

use vstd::prelude::*;

use crate::locale::{LocaleData, MessageEntry, ValidateErrorCollector, ValidateErrorStore};
use crate::messages::{
    appended, lemma_appended_empty_unchanged, lemma_appended_from_empty, store_encodes,
    taken_entry, Violation,
};
use crate::validation::string_rules::{StringLengthRule, StringMandatoryRule};
use crate::validation::{
    grapheme_count_of, StrValidationExtension, StringValidator, ValidationCheck,
};

verus! {

/// The rule set of a username field: mandatory presence and grapheme-length
/// bounds.
pub struct UsernameRule {
    pub is_mandatory: bool,
    pub min_length: Option<usize>,
    pub max_length: Option<usize>,
}

impl UsernameRule {
    /// The registration rule set: mandatory, 5 to 30 graphemes.
    pub open spec fn spec_default() -> Self {
        UsernameRule { is_mandatory: true, min_length: Some(5usize), max_length: Some(30usize) }
    }

    /// The login rule set: deliberately weaker than the registration one — it
    /// only demands that something was entered.
    pub open spec fn spec_login() -> Self {
        UsernameRule { is_mandatory: true, min_length: None, max_length: None }
    }

    /// The violations of this rule set on the characters `s`: an empty
    /// mandatory input reports only its emptiness; otherwise the length
    /// bounds are checked.
    pub open spec fn violations(&self, s: Seq<char>) -> Seq<Violation> {
        let g = grapheme_count_of(s);
        let m = StringMandatoryRule { is_mandatory: self.is_mandatory }.violations(g);
        if m.len() > 0 {
            m
        } else {
            StringLengthRule { min_length: self.min_length, max_length: self.max_length }
                .violations(g)
        }
    }

    fn rules(&self) -> (r: (StringMandatoryRule, StringLengthRule))
        ensures
            r.0.is_mandatory == self.is_mandatory,
            r.1.min_length == self.min_length,
            r.1.max_length == self.max_length,
    {
        (
            StringMandatoryRule { is_mandatory: self.is_mandatory },
            StringLengthRule { min_length: self.min_length, max_length: self.max_length },
        )
    }

    fn check(&self, msgs: &mut ValidateErrorCollector, subject: &StringValidator)
        requires
            subject.wf(),
            old(msgs).0@.len() == 0,
        ensures
            appended(old(msgs).0@, final(msgs).0@, self.violations(subject.text_spec())),
    {
        let ghost pre = msgs.0@;
        let ghost g = grapheme_count_of(subject.text_spec());
        let (mandatory, length) = self.rules();
        mandatory.check(msgs, subject);
        if !msgs.is_empty() {
            return ;
        }
        proof {
            lemma_appended_empty_unchanged(pre, msgs.0@);
        }
        length.check(msgs, subject);
    }
}

impl Default for UsernameRule {
    /// The registration rule set.
    fn default() -> (r: Self)
        ensures
            r == Self::spec_default(),
    {
        UsernameRule { is_mandatory: true, min_length: Some(5), max_length: Some(30) }
    }
}

/// The full message set of a failed username validation.
#[derive(Debug)]
pub struct UsernameError(pub ValidateErrorStore);

impl ValidationCheck for UsernameError {
    open spec fn store_spec(&self) -> Seq<MessageEntry> {
        self.0.0@
    }

    fn validation_check(strings: ValidateErrorCollector) -> (r: Result<(), Self>) {
        if strings.is_empty() {
            Ok(())
        } else {
            Err(UsernameError(strings.into_store()))
        }
    }
}

/// A username that passed its rule chain. Its characters are exactly the raw
/// input's: parsing never normalizes.
#[derive(Debug)]
pub struct Username(String);

impl View for Username {
    type V = Seq<char>;

    closed spec fn view(&self) -> Seq<char> {
        self.0@
    }
}

impl Clone for Username {
    fn clone(&self) -> (r: Self)
        ensures
            r@ == self@,
    {
        Username(self.0.clone())
    }
}

impl Default for Username {
    /// The zero placeholder for error-path plumbing — never a valid instance.
    fn default() -> (r: Self)
        ensures
            r@ == Seq::<char>::empty(),
    {
        Username(String::new())
    }
}

/// Uniqueness lookup collaborator (storage layer): whether a candidate
/// username is already registered.
pub trait IsUsernameTaken {
    fn is_username_taken(&self, username: &str) -> bool;
}

/// Marker for the locale key of the "already taken" message.
pub struct UsernameTakenLocale;

impl UsernameTakenLocale {
    pub fn get_locale_data(&self) -> (r: LocaleData)
        ensures
            r.name@ == "validate-username-taken"@,
            r.args@.len() == 0,
    {
        LocaleData { name: "validate-username-taken".to_owned(), args: Vec::new() }
    }
}

impl Username {
    /// Runs the rule chain over `username`: returns the username verbatim
    /// when no rule fires, and the full violation set otherwise.
    pub fn parse_custom(username: String, username_rule: UsernameRule) -> (r: Result<
        Self,
        UsernameError,
    >)
        ensures
            ({
                let vs = username_rule.violations(username@);
                &&& vs.len() == 0 ==> (r matches Ok(u) && u@ == username@)
                &&& vs.len() > 0 ==> (r matches Err(e) && store_encodes(e.0.0@, vs))
            }),
    {
        let mut message = ValidateErrorCollector::new();
        let username_validator = username.as_string_validator();

        username_rule.check(&mut message, &username_validator);
        proof {
            lemma_appended_from_empty(message.0@, username_rule.violations(username@));
        }

        match UsernameError::validation_check(message) {
            Ok(_) => Ok(Username(username)),
            Err(e) => Err(e),
        }
    }

    /// Parses with the registration rule set.
    pub fn parse(username: String) -> (r: Result<Self, UsernameError>)
        ensures
            ({
                let vs = UsernameRule::spec_default().violations(username@);
                &&& vs.len() == 0 ==> (r matches Ok(u) && u@ == username@)
                &&& vs.len() > 0 ==> (r matches Err(e) && store_encodes(e.0.0@, vs))
            }),
    {
        Self::parse_custom(username, UsernameRule::default())
    }

    /// Parses with the weaker login rule set.
    pub fn parse_login(username: String) -> (r: Result<Self, UsernameError>)
        ensures
            ({
                let vs = UsernameRule::spec_login().violations(username@);
                &&& vs.len() == 0 ==> (r matches Ok(u) && u@ == username@)
                &&& vs.len() > 0 ==> (r matches Err(e) && store_encodes(e.0.0@, vs))
            }),
    {
        Self::parse_custom(
            username,
            UsernameRule { is_mandatory: true, min_length: None, max_length: None },
        )
    }

    /// Applies the outcome of a uniqueness lookup to this (already valid)
    /// username: taken means exactly one "already taken" message.
    pub fn apply_taken_check(&self, taken: bool) -> (r: Result<Self, UsernameError>)
        ensures
            !taken ==> (r matches Ok(u) && u@ == self@),
            taken ==> (r matches Err(e) && store_encodes(
                e.0.0@,
                seq![Violation::UsernameTaken],
            )),
    {
        if taken {
            let mut entries: Vec<MessageEntry> = Vec::new();
            entries.push(taken_entry());
            Err(UsernameError(ValidateErrorStore(entries)))
        } else {
            Ok(self.clone())
        }
    }

    /// Asks the lookup service whether this username is taken and applies the
    /// answer. Whatever the service answers, a success carries this
    /// username's characters unchanged, and a failure carries exactly the
    /// "already taken" message.
    pub fn check_if_username_taken<T: IsUsernameTaken>(&self, service: &T) -> (r: Result<
        Self,
        UsernameError,
    >)
        ensures
            r matches Ok(u) ==> u@ == self@,
            r matches Err(e) ==> store_encodes(e.0.0@, seq![Violation::UsernameTaken]),
    {
        let taken = service.is_username_taken(self.as_str());
        self.apply_taken_check(taken)
    }

    /// Structural validation with the registration rules, then — only for a
    /// structurally valid username — the uniqueness check.
    pub fn parse_user_register<T: IsUsernameTaken>(username: String, service: &T) -> (r: Result<
        Self,
        UsernameError,
    >)
        ensures
            ({
                let vs = UsernameRule::spec_default().violations(username@);
                &&& vs.len() > 0 ==> (r matches Err(e) && store_encodes(e.0.0@, vs))
                &&& vs.len() == 0 ==> (r matches Ok(u) ==> u@ == username@) && (
                r matches Err(e) ==> store_encodes(e.0.0@, seq![Violation::UsernameTaken]))
            }),
    {
        match Self::parse(username) {
            Ok(u) => u.check_if_username_taken(service),
            Err(e) => Err(e),
        }
    }

    /// Parses with the login rule set (the login form's entry point).
    pub fn parse_user_login(username: String) -> (r: Result<Self, UsernameError>)
        ensures
            ({
                let vs = UsernameRule::spec_login().violations(username@);
                &&& vs.len() == 0 ==> (r matches Ok(u) && u@ == username@)
                &&& vs.len() > 0 ==> (r matches Err(e) && store_encodes(e.0.0@, vs))
            }),
    {
        Self::parse_login(username)
    }

    pub fn as_str(&self) -> (r: &str)
        ensures
            r@ == self@,
    {
        self.0.as_str()
    }
}

/// For any non-empty input with fewer graphemes than the username rule's
/// minimum (and coherent bounds), validation fails with exactly one
/// too-short message — in particular no mandatory-violation message, since
/// the input is non-empty.
pub proof fn lemma_username_short_input_single_violation(rule: UsernameRule, s: Seq<char>, min: usize)
    requires
        rule.min_length == Some(min),
        0 < grapheme_count_of(s) < min,
        rule.max_length matches Some(max) ==> min <= max,
    ensures
        rule.violations(s) =~= seq![Violation::TooShort { min: min as int }],
{
}

/// For an empty mandatory input, validation fails with exactly the
/// cannot-be-empty message: the length rules are skipped.
pub proof fn lemma_username_empty_mandatory_single_violation(rule: UsernameRule, s: Seq<char>)
    requires
        rule.is_mandatory,
        grapheme_count_of(s) == 0,
    ensures
        rule.violations(s) =~= seq![Violation::MandatoryEmpty],
{
}

} // verus!
