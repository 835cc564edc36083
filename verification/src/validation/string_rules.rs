//! Rule primitives: mandatory presence, grapheme-length bounds, and
//! character-class composition.
//!
//! Each primitive is pure and order-independent; chaining (the mandatory rule
//! gating the rest) is the business of the composite rules of the value
//! types. Each `check` appends to the collector exactly the entries that
//! stand for the rule's violations, in declaration order.

use vstd::prelude::*;

use crate::locale::ValidateErrorCollector;
use crate::messages::{
    appended, digit_entry, lemma_appended_refl, lemma_appended_step, mandatory_entry,
    max_length_entry, min_length_entry, special_char_entry, upper_and_lower_entry, upper_entry,
    lower_entry, Violation,
};
use crate::validation::{class_present, grapheme_count_of, CharClass, StringValidator};

verus! {

/// Fails iff the field is mandatory and the input holds no grapheme at all.
pub struct StringMandatoryRule {
    pub is_mandatory: bool,
}

impl StringMandatoryRule {
    /// The violations of this rule on an input with `g` graphemes.
    pub open spec fn violations(&self, g: nat) -> Seq<Violation> {
        if self.is_mandatory && g == 0 {
            seq![Violation::MandatoryEmpty]
        } else {
            Seq::empty()
        }
    }

    pub fn check(&self, msgs: &mut ValidateErrorCollector, subject: &StringValidator)
        requires
            subject.wf(),
        ensures
            appended(
                old(msgs).0@,
                final(msgs).0@,
                self.violations(grapheme_count_of(subject.text_spec())),
            ),
    {
        if self.is_mandatory && subject.is_empty() {
            msgs.push(mandatory_entry());
            proof {
                let vs = self.violations(grapheme_count_of(subject.text_spec()));
                assert(msgs.0@.subrange(0, old(msgs).0@.len() as int) =~= old(msgs).0@);
                assert(msgs.0@.subrange(old(msgs).0@.len() as int, msgs.0@.len() as int)
                    =~= seq![msgs.0@.last()]);
            }
        } else {
            proof {
                lemma_appended_refl(msgs.0@);
            }
        }
    }
}

/// Fails per bound independently: too few graphemes against `min_length`,
/// too many against `max_length`.
pub struct StringLengthRule {
    pub min_length: Option<usize>,
    pub max_length: Option<usize>,
}

impl StringLengthRule {
    /// The violations concerning the minimum bound.
    pub open spec fn short_violations(&self, g: nat) -> Seq<Violation> {
        match self.min_length {
            Some(min) => if g < min {
                seq![Violation::TooShort { min: min as int }]
            } else {
                Seq::<Violation>::empty()
            },
            None => Seq::<Violation>::empty(),
        }
    }

    /// The violations concerning the maximum bound.
    pub open spec fn long_violations(&self, g: nat) -> Seq<Violation> {
        match self.max_length {
            Some(max) => if g > max {
                seq![Violation::TooLong { max: max as int }]
            } else {
                Seq::<Violation>::empty()
            },
            None => Seq::<Violation>::empty(),
        }
    }

    /// The violations of this rule on an input with `g` graphemes.
    pub open spec fn violations(&self, g: nat) -> Seq<Violation> {
        self.short_violations(g) + self.long_violations(g)
    }

    pub fn check(&self, msgs: &mut ValidateErrorCollector, subject: &StringValidator)
        requires
            subject.wf(),
        ensures
            appended(
                old(msgs).0@,
                final(msgs).0@,
                self.violations(grapheme_count_of(subject.text_spec())),
            ),
    {
        let ghost g = grapheme_count_of(subject.text_spec());
        let ghost pre = msgs.0@;
        let ghost short = self.short_violations(g);
        let ghost long = self.long_violations(g);
        if let Some(min_length) = self.min_length {
            if subject.count_graphemes() < min_length {
                msgs.push(min_length_entry(min_length));
                proof {
                    assert(msgs.0@.subrange(0, pre.len() as int) =~= pre);
                    assert(msgs.0@.subrange(pre.len() as int, msgs.0@.len() as int)
                        =~= seq![msgs.0@.last()]);
                }
            } else {
                proof {
                    lemma_appended_refl(msgs.0@);
                }
            }
        } else {
            proof {
                lemma_appended_refl(msgs.0@);
            }
        }
        assert(appended(pre, msgs.0@, short));
        let ghost mid = msgs.0@;
        if let Some(max_length) = self.max_length {
            if subject.count_graphemes() > max_length {
                msgs.push(max_length_entry(max_length));
                proof {
                    assert(msgs.0@.subrange(0, mid.len() as int) =~= mid);
                    assert(msgs.0@.subrange(mid.len() as int, msgs.0@.len() as int)
                        =~= seq![msgs.0@.last()]);
                }
            } else {
                proof {
                    lemma_appended_refl(msgs.0@);
                }
            }
        } else {
            proof {
                lemma_appended_refl(msgs.0@);
            }
        }
        proof {
            lemma_appended_step(pre, mid, msgs.0@, short, long);
        }
    }
}

/// Fails per missing character class; when both uppercase and lowercase are
/// required, one combined message stands for the pair. The rule does not
/// short-circuit: every unmet class is reported.
pub struct StringSpecialCharRule {
    pub must_have_uppercase: bool,
    pub must_have_lowercase: bool,
    pub must_have_special_chars: bool,
    pub must_have_digit: bool,
}

impl StringSpecialCharRule {
    /// The violations concerning uppercase and lowercase letters.
    pub open spec fn case_violations(&self, s: Seq<char>) -> Seq<Violation> {
        if self.must_have_uppercase && self.must_have_lowercase {
            if !(class_present(CharClass::Upper, s) && class_present(CharClass::Lower, s)) {
                seq![Violation::NeedUpperAndLower]
            } else {
                Seq::<Violation>::empty()
            }
        } else {
            (if self.must_have_uppercase && !class_present(CharClass::Upper, s) {
                seq![Violation::NeedUpper]
            } else {
                Seq::<Violation>::empty()
            }) + (if self.must_have_lowercase && !class_present(CharClass::Lower, s) {
                seq![Violation::NeedLower]
            } else {
                Seq::<Violation>::empty()
            })
        }
    }

    /// The violations of this rule on the characters `s`, in the order the
    /// rule declares its classes: the case violations first, then a missing
    /// special character, then a missing digit.
    pub open spec fn violations(&self, s: Seq<char>) -> Seq<Violation> {
        self.case_violations(s) + (if self.must_have_special_chars && !class_present(
            CharClass::Special,
            s,
        ) {
            seq![Violation::NeedSpecialChar]
        } else {
            Seq::<Violation>::empty()
        }) + (if self.must_have_digit && !class_present(CharClass::Digit, s) {
            seq![Violation::NeedDigit]
        } else {
            Seq::<Violation>::empty()
        })
    }

    pub fn check(&self, msgs: &mut ValidateErrorCollector, subject: &StringValidator)
        ensures
            appended(old(msgs).0@, final(msgs).0@, self.violations(subject.text_spec())),
    {
        let ghost s = subject.text_spec();
        let ghost pre = msgs.0@;
        let ghost special = if self.must_have_special_chars && !class_present(
            CharClass::Special,
            s,
        ) {
            seq![Violation::NeedSpecialChar]
        } else {
            Seq::<Violation>::empty()
        };
        let ghost digit = if self.must_have_digit && !class_present(CharClass::Digit, s) {
            seq![Violation::NeedDigit]
        } else {
            Seq::<Violation>::empty()
        };

        if self.must_have_uppercase && self.must_have_lowercase {
            if !subject.has_ascii_uppercase_and_lowercase() {
                msgs.push(upper_and_lower_entry());
                proof {
                    assert(msgs.0@.subrange(0, pre.len() as int) =~= pre);
                    assert(msgs.0@.subrange(pre.len() as int, msgs.0@.len() as int)
                        =~= seq![msgs.0@.last()]);
                }
            } else {
                proof {
                    lemma_appended_refl(msgs.0@);
                }
            }
        } else {
            let ghost upper = if self.must_have_uppercase && !class_present(CharClass::Upper, s) {
                seq![Violation::NeedUpper]
            } else {
                Seq::<Violation>::empty()
            };
            let ghost lower = if self.must_have_lowercase && !class_present(CharClass::Lower, s) {
                seq![Violation::NeedLower]
            } else {
                Seq::<Violation>::empty()
            };
            if self.must_have_uppercase && !subject.has_ascii_uppercase() {
                msgs.push(upper_entry());
                proof {
                    assert(msgs.0@.subrange(0, pre.len() as int) =~= pre);
                    assert(msgs.0@.subrange(pre.len() as int, msgs.0@.len() as int)
                        =~= seq![msgs.0@.last()]);
                }
            } else {
                proof {
                    lemma_appended_refl(msgs.0@);
                }
            }
            assert(appended(pre, msgs.0@, upper));
            let ghost mid_u = msgs.0@;
            if self.must_have_lowercase && !subject.has_ascii_lowercase() {
                msgs.push(lower_entry());
                proof {
                    assert(msgs.0@.subrange(0, mid_u.len() as int) =~= mid_u);
                    assert(msgs.0@.subrange(mid_u.len() as int, msgs.0@.len() as int)
                        =~= seq![msgs.0@.last()]);
                }
            } else {
                proof {
                    lemma_appended_refl(msgs.0@);
                }
            }
            proof {
                lemma_appended_step(pre, mid_u, msgs.0@, upper, lower);
            }
        }
        assert(appended(pre, msgs.0@, self.case_violations(s)));
        let ghost mid1 = msgs.0@;

        if self.must_have_special_chars && !subject.has_special_chars() {
            msgs.push(special_char_entry());
            proof {
                assert(msgs.0@.subrange(0, mid1.len() as int) =~= mid1);
                assert(msgs.0@.subrange(mid1.len() as int, msgs.0@.len() as int)
                    =~= seq![msgs.0@.last()]);
            }
        } else {
            proof {
                lemma_appended_refl(msgs.0@);
            }
        }
        assert(appended(mid1, msgs.0@, special));
        let ghost mid2 = msgs.0@;

        if self.must_have_digit && !subject.has_ascii_digit() {
            msgs.push(digit_entry());
            proof {
                assert(msgs.0@.subrange(0, mid2.len() as int) =~= mid2);
                assert(msgs.0@.subrange(mid2.len() as int, msgs.0@.len() as int)
                    =~= seq![msgs.0@.last()]);
            }
        } else {
            proof {
                lemma_appended_refl(msgs.0@);
            }
        }
        proof {
            lemma_appended_step(pre, mid1, mid2, self.case_violations(s), special);
            lemma_appended_step(pre, mid2, msgs.0@, self.case_violations(s) + special, digit);
        }
    }
}

} // verus!
