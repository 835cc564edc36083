//! The validated name type of a bucket-list entry.

use vstd::prelude::*;

use crate::locale::{MessageEntry, ValidateErrorCollector, ValidateErrorStore};
use crate::messages::{
    appended, lemma_appended_empty_unchanged, lemma_appended_from_empty, store_encodes, Violation,
};
use crate::validation::string_rules::{StringLengthRule, StringMandatoryRule};
use crate::validation::{
    grapheme_count_of, StrValidationExtension, StringValidator, ValidationCheck,
};

verus! {

/// The rule set of a name field: mandatory presence and grapheme-length
/// bounds.
pub struct NameRule {
    pub is_mandatory: bool,
    pub min_length: Option<usize>,
    pub max_length: Option<usize>,
}

impl NameRule {
    /// The default rule set: mandatory, 5 to 20 graphemes.
    pub open spec fn spec_default() -> Self {
        NameRule { is_mandatory: true, min_length: Some(5usize), max_length: Some(20usize) }
    }

    /// The violations of this rule set on the characters `s`: an empty
    /// mandatory input reports only its emptiness; otherwise the length
    /// bounds are checked.
    pub open spec fn violations(&self, s: Seq<char>) -> Seq<Violation> {
        let g = grapheme_count_of(s);
        let m = StringMandatoryRule { is_mandatory: self.is_mandatory }.violations(g);
        if m.len() > 0 {
            m
        } else {
            StringLengthRule { min_length: self.min_length, max_length: self.max_length }
                .violations(g)
        }
    }

    fn rules(&self) -> (r: (StringMandatoryRule, StringLengthRule))
        ensures
            r.0.is_mandatory == self.is_mandatory,
            r.1.min_length == self.min_length,
            r.1.max_length == self.max_length,
    {
        (
            StringMandatoryRule { is_mandatory: self.is_mandatory },
            StringLengthRule { min_length: self.min_length, max_length: self.max_length },
        )
    }

    fn check(&self, msgs: &mut ValidateErrorCollector, subject: &StringValidator)
        requires
            subject.wf(),
            old(msgs).0@.len() == 0,
        ensures
            appended(old(msgs).0@, final(msgs).0@, self.violations(subject.text_spec())),
    {
        let ghost pre = msgs.0@;
        let (mandatory, length) = self.rules();
        mandatory.check(msgs, subject);
        if !msgs.is_empty() {
            return ;
        }
        proof {
            lemma_appended_empty_unchanged(pre, msgs.0@);
        }
        length.check(msgs, subject);
    }
}

impl Default for NameRule {
    /// The default rule set.
    fn default() -> (r: Self)
        ensures
            r == Self::spec_default(),
    {
        NameRule { is_mandatory: true, min_length: Some(5), max_length: Some(20) }
    }
}

/// The full message set of a failed name validation.
#[derive(Debug)]
pub struct NameError(pub ValidateErrorStore);

impl ValidationCheck for NameError {
    open spec fn store_spec(&self) -> Seq<MessageEntry> {
        self.0.0@
    }

    fn validation_check(strings: ValidateErrorCollector) -> (r: Result<(), Self>) {
        if strings.is_empty() {
            Ok(())
        } else {
            Err(NameError(strings.into_store()))
        }
    }
}

/// A name that passed its rule chain. Its characters are exactly the raw
/// input's: parsing never normalizes.
#[derive(Debug)]
pub struct Name(String);

impl View for Name {
    type V = Seq<char>;

    closed spec fn view(&self) -> Seq<char> {
        self.0@
    }
}

impl Clone for Name {
    fn clone(&self) -> (r: Self)
        ensures
            r@ == self@,
    {
        Name(self.0.clone())
    }
}

impl Default for Name {
    /// The zero placeholder for error-path plumbing — never a valid instance.
    fn default() -> (r: Self)
        ensures
            r@ == Seq::<char>::empty(),
    {
        Name(String::new())
    }
}

impl Name {
    /// Runs the rule chain over `name`: returns the name verbatim when no
    /// rule fires, and the full violation set otherwise.
    pub fn parse_custom(name: String, name_rule: NameRule) -> (r: Result<Self, NameError>)
        ensures
            ({
                let vs = name_rule.violations(name@);
                &&& vs.len() == 0 ==> (r matches Ok(n) && n@ == name@)
                &&& vs.len() > 0 ==> (r matches Err(e) && store_encodes(e.0.0@, vs))
            }),
    {
        let mut message = ValidateErrorCollector::new();
        let name_validator = name.as_string_validator();

        name_rule.check(&mut message, &name_validator);
        proof {
            lemma_appended_from_empty(message.0@, name_rule.violations(name@));
        }

        match NameError::validation_check(message) {
            Ok(_) => Ok(Name(name)),
            Err(e) => Err(e),
        }
    }

    /// Parses with the default rule set.
    pub fn parse(name: String) -> (r: Result<Self, NameError>)
        ensures
            ({
                let vs = NameRule::spec_default().violations(name@);
                &&& vs.len() == 0 ==> (r matches Ok(n) && n@ == name@)
                &&& vs.len() > 0 ==> (r matches Err(e) && store_encodes(e.0.0@, vs))
            }),
    {
        Self::parse_custom(name, NameRule::default())
    }

    pub fn as_str(&self) -> (r: &str)
        ensures
            r@ == self@,
    {
        self.0.as_str()
    }
}

/// For any non-empty input with fewer graphemes than the name rule's minimum
/// (and coherent bounds), validation fails with exactly one too-short
/// message — no mandatory-violation message, since the input is non-empty.
pub proof fn lemma_name_short_input_single_violation(rule: NameRule, s: Seq<char>, min: usize)
    requires
        rule.min_length == Some(min),
        0 < grapheme_count_of(s) < min,
        rule.max_length matches Some(max) ==> min <= max,
    ensures
        rule.violations(s) =~= seq![Violation::TooShort { min: min as int }],
{
}

/// For an empty mandatory input, validation fails with exactly the
/// cannot-be-empty message: the length rules are skipped.
pub proof fn lemma_name_empty_mandatory_single_violation(rule: NameRule, s: Seq<char>)
    requires
        rule.is_mandatory,
        grapheme_count_of(s) == 0,
    ensures
        rule.violations(s) =~= seq![Violation::MandatoryEmpty],
{
}

} // verus!
