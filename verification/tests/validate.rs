use little_poem::bucket::AddToBucketList;
use little_poem::description::Description;
use little_poem::form::{UserLoginForm, UserRegisterForm};
use little_poem::locale::{LocaleData, MessageTranslator};
use little_poem::name::Name;
use little_poem::password::{Password, PasswordRule};
use little_poem::username::{IsUsernameTaken, Username, UsernameRule, UsernameTakenLocale};

struct FakeUsernameCheckService(String);

impl IsUsernameTaken for FakeUsernameCheckService {
    fn is_username_taken(&self, username: &str) -> bool {
        username == self.0.as_str()
    }
}

#[test]
fn test_password_parse_error_password_confirmation_mismatch() {
    let password = Password::parse_login("match".to_string()).unwrap();
    let password = password.parse_confirm("mismatch".to_string());
    assert!(password.is_err());
}

#[test]
fn test_password_parse_error_password_confirmation_match() {
    let password = Password::parse_login("match".to_string()).unwrap();
    let password = password.parse_confirm("match".to_string());
    assert!(password.is_ok());
}

#[test]
fn username_is_taken() {
    let username_result = Username::parse("taken".to_string()).unwrap();

    assert!(username_result
        .check_if_username_taken(&FakeUsernameCheckService("taken".to_string()))
        .is_err());
}

#[test]
fn username_is_not_taken() {
    let username_result = Username::parse("not_taken".to_string()).unwrap();

    assert!(username_result
        .check_if_username_taken(&FakeUsernameCheckService("taken".to_string()))
        .is_ok());
}

#[test]
fn short_input_reports_exactly_one_length_message() {
    let err = Username::parse("abc".to_string()).unwrap_err();
    let messages = err.0.as_original_message();
    assert_eq!(messages, vec!["Must be at least 5 characters".to_string()]);
}

#[test]
fn short_name_and_overlong_name_report_their_bounds() {
    let err = Name::parse("hi".to_string()).unwrap_err();
    assert_eq!(
        err.0.as_original_message(),
        vec!["Must be at least 5 characters".to_string()]
    );

    let err = Name::parse("a".repeat(21)).unwrap_err();
    assert_eq!(
        err.0.as_original_message(),
        vec!["Must be at most 20 characters".to_string()]
    );

    assert!(Description::parse("a".repeat(100)).is_ok());
    assert!(Description::parse("a".repeat(101)).is_err());
}

#[test]
fn empty_mandatory_input_reports_only_emptiness() {
    let err = Username::parse(String::new()).unwrap_err();
    let messages = err.0.as_original_message();
    assert_eq!(messages, vec!["Cannot be empty".to_string()]);

    let err = Password::parse(String::new()).unwrap_err();
    assert_eq!(
        err.0.as_original_message(),
        vec!["Cannot be empty".to_string()]
    );
}

#[test]
fn password_missing_classes_reports_each_in_declared_order() {
    let err = Password::parse("alllowercase".to_string()).unwrap_err();
    let messages = err.0.as_original_message();
    assert_eq!(
        messages,
        vec![
            "Must contain at least one uppercase and lowercase letter".to_string(),
            "Must contain at least one special character".to_string(),
            "Must contain at least one digit".to_string(),
        ]
    );
}

#[test]
fn confirm_password_matches_and_mismatches() {
    let primary = Password::parse("Secret1!".to_string()).unwrap();
    assert!(primary.parse_confirm("Secret1!".to_string()).is_ok());

    let err = primary.parse_confirm("secret1!".to_string()).unwrap_err();
    assert_eq!(
        err.0.as_original_message(),
        vec!["Does not match".to_string()]
    );
}

#[test]
fn taken_username_reports_already_taken() {
    let err = Username::parse("taken".to_string())
        .unwrap()
        .check_if_username_taken(&FakeUsernameCheckService("taken".to_string()))
        .unwrap_err();
    assert_eq!(err.0.as_original_message(), vec!["Already taken".to_string()]);
}

#[test]
fn grapheme_counting_treats_combining_sequences_as_one() {
    // Six characters, five grapheme clusters: within the 5..=30 bound.
    let username = "a\u{310}bcde".to_string();
    let parsed = Username::parse(username.clone()).unwrap();
    assert_eq!(parsed.as_str(), username.as_str());
}

#[test]
fn custom_rule_bound_appears_in_the_message() {
    let rule = UsernameRule {
        is_mandatory: true,
        min_length: Some(12),
        max_length: None,
    };
    let err = Username::parse_custom("shorty".to_string(), rule).unwrap_err();
    assert_eq!(
        err.0.as_original_message(),
        vec!["Must be at least 12 characters".to_string()]
    );
}

#[test]
fn login_rules_are_weaker_than_registration_rules() {
    // Too short and class-free for registration, fine for login.
    assert!(Password::parse("abc".to_string()).is_err());
    assert!(Password::parse_login("abc".to_string()).is_ok());
    assert!(Username::parse("abc".to_string()).is_err());
    assert!(Username::parse_login("abc".to_string()).is_ok());

    // Mandatory still holds at login time.
    assert!(Password::parse_login(String::new()).is_err());
    assert!(Username::parse_login(String::new()).is_err());

    // The login size bound still holds for passwords.
    assert!(Password::parse_login("a".repeat(65)).is_err());

    // A rule set without the mandatory requirement accepts emptiness.
    let relaxed = PasswordRule {
        is_mandatory: false,
        must_have_uppercase: false,
        must_have_lowercase: false,
        must_have_special_chars: false,
        must_have_digit: false,
        min_length: None,
        max_length: None,
    };
    assert!(Password::parse_custom(String::new(), relaxed).is_ok());
}

#[test]
fn validation_is_idempotent_bit_for_bit() {
    let raw = "Sécret1!x".to_string();
    let first = Password::parse(raw.clone()).unwrap();
    let second = Password::parse(raw.clone()).unwrap();
    assert_eq!(first.as_str(), second.as_str());
    assert_eq!(first.as_str().as_bytes(), raw.as_str().as_bytes());

    let name_first = Username::parse("alice".to_string()).unwrap();
    let name_second = Username::parse("alice".to_string()).unwrap();
    assert_eq!(name_first.as_str(), name_second.as_str());
}

#[test]
fn register_form_reports_every_failed_field() {
    let form = UserRegisterForm {
        username: "abc".to_string(),
        password: "Secret1!".to_string(),
        password_confirm: "different".to_string(),
        csrf_token: String::new(),
    };
    let result = form
        .as_validated(&FakeUsernameCheckService("other".to_string()), true)
        .0;
    let err = result.err().unwrap();
    let messages = err.as_original_message();
    assert_eq!(
        messages.username,
        vec!["Must be at least 5 characters".to_string()]
    );
    assert!(messages.password.is_empty());
    assert_eq!(
        messages.password_confirm,
        vec!["Does not match".to_string()]
    );
}

#[test]
fn register_form_accepts_a_fully_valid_submission() {
    let form = UserRegisterForm {
        username: "alice".to_string(),
        password: "Secret1!".to_string(),
        password_confirm: "Secret1!".to_string(),
        csrf_token: String::new(),
    };
    let result = form
        .as_validated(&FakeUsernameCheckService("other".to_string()), true)
        .0;
    let validated = result.ok().unwrap();
    assert_eq!(validated.username.as_str(), "alice");
    assert_eq!(validated.password.as_str(), "Secret1!");
    assert_eq!(validated.password_confirm.as_str(), "Secret1!");
}

#[test]
fn register_form_entropy_failure_takes_precedence_over_mismatch() {
    let form = UserRegisterForm {
        username: "alice".to_string(),
        password: "Secret1!".to_string(),
        password_confirm: "different".to_string(),
        csrf_token: String::new(),
    };
    let result = form
        .as_validated(&FakeUsernameCheckService("other".to_string()), false)
        .0;
    let err = result.err().unwrap();
    let messages = err.as_original_message();
    assert_eq!(
        messages.password,
        vec!["Password entropy score must be over 60".to_string()]
    );
    // The entropy failure suppresses the confirmation-mismatch message.
    assert!(messages.password_confirm.is_empty());
}

struct UnreachableLookup;

impl IsUsernameTaken for UnreachableLookup {
    fn is_username_taken(&self, _username: &str) -> bool {
        panic!("a structurally invalid username must never reach the uniqueness check");
    }
}

#[test]
fn register_form_invalid_username_never_reaches_the_lookup() {
    let form = UserRegisterForm {
        username: "abc".to_string(),
        password: "Secret1!".to_string(),
        password_confirm: "Secret1!".to_string(),
        csrf_token: String::new(),
    };
    let err = form.as_validated(&UnreachableLookup, true).0.err().unwrap();
    let messages = err.as_original_message();
    assert_eq!(
        messages.username,
        vec!["Must be at least 5 characters".to_string()]
    );
}

#[test]
fn login_form_evaluates_both_fields() {
    let form = UserLoginForm {
        username: String::new(),
        password: String::new(),
        csrf_token: String::new(),
    };
    let err = form.as_validated().0.err().unwrap();
    let messages = err.as_original_message();
    assert_eq!(messages.username, vec!["Cannot be empty".to_string()]);
    assert_eq!(messages.password, vec!["Cannot be empty".to_string()]);
    assert!(messages.password_confirm.is_empty());
}

#[test]
fn login_form_accepts_weak_but_present_credentials() {
    let form = UserLoginForm {
        username: "bob".to_string(),
        password: "pw".to_string(),
        csrf_token: String::new(),
    };
    let validated = form.as_validated().0.ok().unwrap();
    assert_eq!(validated.username.as_str(), "bob");
    assert_eq!(validated.password.as_str(), "pw");
}

#[test]
fn bucket_form_keeps_the_valid_field_beside_the_failed_one() {
    let form = AddToBucketList {
        name: "hi".to_string(),
        description: "a worthwhile thing to do".to_string(),
    };
    let err = form.as_validated().0.err().unwrap();
    assert_eq!(
        err.name.as_ref().err().unwrap().0.as_original_message(),
        vec!["Must be at least 5 characters".to_string()]
    );
    assert_eq!(
        err.description.as_ref().ok().unwrap().as_str(),
        "a worthwhile thing to do"
    );

    let response = err.as_original_message();
    assert_eq!(response.name.len(), 1);
    assert!(response.description.is_empty());
}

struct SingleKeyTranslator {
    key: String,
    replacement: String,
}

impl MessageTranslator for SingleKeyTranslator {
    fn translate(&self, data: &LocaleData, _original: &str) -> Option<String> {
        if data.name == self.key {
            Some(self.replacement.clone())
        } else {
            None
        }
    }
}

#[test]
fn translation_applies_by_key_and_falls_back_to_the_original() {
    let err = Username::parse("taken".to_string())
        .unwrap()
        .check_if_username_taken(&FakeUsernameCheckService("taken".to_string()))
        .unwrap_err();

    let translator = SingleKeyTranslator {
        key: "validate-username-taken".to_string(),
        replacement: "Bereits vergeben".to_string(),
    };
    assert_eq!(
        err.0.as_translated_message(&translator),
        vec!["Bereits vergeben".to_string()]
    );

    let other = SingleKeyTranslator {
        key: "validate-cannot-be-empty".to_string(),
        replacement: "unused".to_string(),
    };
    assert_eq!(
        err.0.as_translated_message(&other),
        vec!["Already taken".to_string()]
    );

    assert_eq!(
        UsernameTakenLocale.get_locale_data().name,
        "validate-username-taken"
    );
}
