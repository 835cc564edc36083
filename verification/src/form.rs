//! Form-level validation: every field is always evaluated, and a failed form
//! carries the complete per-field message sets — including the already-valid
//! fields, so the caller can redisplay what was typed.

use vstd::prelude::*;

use crate::locale::MessageTranslator;
use crate::messages::{store_encodes, Violation};
use crate::password::{Password, PasswordError, PasswordRule};
use crate::username::{IsUsernameTaken, Username, UsernameError, UsernameRule};
use crate::validation::error_flag;

verus! {

/// The raw registration form as the HTTP layer hands it over.
pub struct UserRegisterForm {
    pub username: String,
    pub password: String,
    pub password_confirm: String,
    pub csrf_token: String,
}

/// The raw login form as the HTTP layer hands it over.
pub struct UserLoginForm {
    pub username: String,
    pub password: String,
    pub csrf_token: String,
}

/// All fields of a registration form, validated.
pub struct UserRegisterFormValidated {
    pub username: Username,
    pub password: Password,
    pub password_confirm: Password,
}

/// All fields of a login form, validated.
pub struct UserLoginFormValidated {
    pub username: Username,
    pub password: Password,
}

/// The complete per-field outcome of a failed form validation: valid fields
/// are kept, failed fields carry their full message sets.
pub struct UserLoginFormValidationError {
    pub username: Result<Username, UsernameError>,
    pub password: Result<Password, PasswordError>,
    pub password_confirm: Result<Password, PasswordError>,
}

/// Aggregate result of validating a registration form.
pub struct UserRegisterFormResult(
    pub Result<UserRegisterFormValidated, UserLoginFormValidationError>,
);

/// Aggregate result of validating a login form.
pub struct UserLoginFormResult(pub Result<UserLoginFormValidated, UserLoginFormValidationError>);

/// The per-field message texts of a failed form validation, ready for the
/// response shaper.
pub struct UserLoginFormValidationErrorMessage {
    pub username: Vec<String>,
    pub password: Vec<String>,
    pub password_confirm: Vec<String>,
}

/// The abstract per-field outcome of a form validation: for each field,
/// either the accepted characters or the violations.
pub ghost struct RegisterFieldOutcomes {
    pub username: Result<Seq<char>, Seq<Violation>>,
    pub password: Result<Seq<char>, Seq<Violation>>,
    pub password_confirm: Result<Seq<char>, Seq<Violation>>,
}

/// What validating a registration form must produce, given the uniqueness
/// verdict `taken` and the entropy verdict `entropy_ok`. A structurally
/// invalid username never reaches the uniqueness check; an entropy failure
/// takes precedence over the confirmation comparison and suppresses its
/// message.
pub open spec fn spec_register_outcomes(
    u: Seq<char>,
    p: Seq<char>,
    c: Seq<char>,
    taken: bool,
    entropy_ok: bool,
) -> RegisterFieldOutcomes {
    let uv = UsernameRule::spec_default().violations(u);
    let pv = PasswordRule::spec_default().violations(p);
    RegisterFieldOutcomes {
        username: if uv.len() > 0 {
            Err(uv)
        } else if taken {
            Err(seq![Violation::UsernameTaken])
        } else {
            Ok(u)
        },
        password: if pv.len() > 0 {
            Err(pv)
        } else if !entropy_ok {
            Err(seq![Violation::LowEntropy])
        } else {
            Ok(p)
        },
        password_confirm: if pv.len() > 0 || !entropy_ok {
            Err(Seq::<Violation>::empty())
        } else if c == p {
            Ok(c)
        } else {
            Err(seq![Violation::PasswordMismatch])
        },
    }
}

/// Some field failed.
pub open spec fn outcomes_flagged(o: RegisterFieldOutcomes) -> bool {
    o.username is Err || o.password is Err || o.password_confirm is Err
}

/// A username field result carries exactly the abstract outcome.
pub open spec fn username_field_matches(
    f: Result<Username, UsernameError>,
    o: Result<Seq<char>, Seq<Violation>>,
) -> bool {
    match o {
        Ok(s) => f matches Ok(u) && u@ == s,
        Err(vs) => f matches Err(e) && store_encodes(e.0.0@, vs),
    }
}

/// A password field result carries exactly the abstract outcome.
pub open spec fn password_field_matches(
    f: Result<Password, PasswordError>,
    o: Result<Seq<char>, Seq<Violation>>,
) -> bool {
    match o {
        Ok(s) => f matches Ok(p) && p@ == s,
        Err(vs) => f matches Err(e) && store_encodes(e.0.0@, vs),
    }
}

/// A registration form result carries exactly the abstract outcomes: a
/// failed validation keeps every field's result, a successful one the three
/// accepted values.
pub open spec fn register_result_matches(
    r: UserRegisterFormResult,
    o: RegisterFieldOutcomes,
) -> bool {
    if outcomes_flagged(o) {
        &&& r.0 matches Err(e)
        &&& username_field_matches(r.0->Err_0.username, o.username)
        &&& password_field_matches(r.0->Err_0.password, o.password)
        &&& password_field_matches(r.0->Err_0.password_confirm, o.password_confirm)
    } else {
        &&& r.0 matches Ok(v)
        &&& username_field_matches(Ok(r.0->Ok_0.username), o.username)
        &&& password_field_matches(Ok(r.0->Ok_0.password), o.password)
        &&& password_field_matches(Ok(r.0->Ok_0.password_confirm), o.password_confirm)
    }
}

impl UserRegisterForm {
    /// Validates every field of the form — none is skipped, whatever fails —
    /// for some uniqueness verdict of the injected lookup service.
    /// `entropy_acceptable` is the entropy collaborator's verdict on the raw
    /// password.
    pub fn as_validated<T: IsUsernameTaken>(
        &self,
        service: &T,
        entropy_acceptable: bool,
    ) -> (r: UserRegisterFormResult)
        ensures
            exists|taken: bool|
                register_result_matches(
                    r,
                    #[trigger] spec_register_outcomes(
                        self.username@,
                        self.password@,
                        self.password_confirm@,
                        taken,
                        entropy_acceptable,
                    ),
                ),
    {
        let mut flag = false;

        let username = error_flag(
            &mut flag,
            Username::parse_user_register(self.username.clone(), service),
        );
        let (password, password_confirm) = Password::parse_user_register(
            self.password.clone(),
            self.password_confirm.clone(),
            entropy_acceptable,
        );
        let password = error_flag(&mut flag, password);
        let password_confirm = error_flag(&mut flag, password_confirm);

        let ghost username_failed = username is Err;
        let ghost witness: bool = if UsernameRule::spec_default().violations(self.username@).len()
            == 0 {
            username_failed
        } else {
            false
        };

        let result = if flag {
            UserRegisterFormResult(
                Err(UserLoginFormValidationError { username, password, password_confirm }),
            )
        } else {
            match (username, password, password_confirm) {
                (Ok(username), Ok(password), Ok(password_confirm)) => UserRegisterFormResult(
                    Ok(UserRegisterFormValidated { username, password, password_confirm }),
                ),
                _ => vstd::pervasive::unreached(),
            }
        };
        proof {
            assert(register_result_matches(
                result,
                spec_register_outcomes(
                    self.username@,
                    self.password@,
                    self.password_confirm@,
                    witness,
                    entropy_acceptable,
                ),
            ));
        }
        result
    }
}

/// The abstract per-field outcome of a login form validation.
pub ghost struct LoginFieldOutcomes {
    pub username: Result<Seq<char>, Seq<Violation>>,
    pub password: Result<Seq<char>, Seq<Violation>>,
}

/// What validating a login form must produce: both fields run their
/// deliberately weaker login rule sets; no uniqueness or entropy check.
pub open spec fn spec_login_outcomes(u: Seq<char>, p: Seq<char>) -> LoginFieldOutcomes {
    let uv = UsernameRule::spec_login().violations(u);
    let pv = PasswordRule::spec_login().violations(p);
    LoginFieldOutcomes {
        username: if uv.len() > 0 {
            Err(uv)
        } else {
            Ok(u)
        },
        password: if pv.len() > 0 {
            Err(pv)
        } else {
            Ok(p)
        },
    }
}

/// A login form result carries exactly the abstract outcomes. The
/// confirmation slot of the error shape stays an empty placeholder.
pub open spec fn login_result_matches(r: UserLoginFormResult, o: LoginFieldOutcomes) -> bool {
    if o.username is Err || o.password is Err {
        &&& r.0 matches Err(e)
        &&& username_field_matches(r.0->Err_0.username, o.username)
        &&& password_field_matches(r.0->Err_0.password, o.password)
        &&& r.0->Err_0.password_confirm matches Ok(p) && p@ == Seq::<char>::empty()
    } else {
        &&& r.0 matches Ok(v)
        &&& username_field_matches(Ok(r.0->Ok_0.username), o.username)
        &&& password_field_matches(Ok(r.0->Ok_0.password), o.password)
    }
}

impl UserLoginForm {
    /// Validates both fields of the form — the password is checked even when
    /// the username already failed.
    pub fn as_validated(&self) -> (r: UserLoginFormResult)
        ensures
            login_result_matches(r, spec_login_outcomes(self.username@, self.password@)),
    {
        let mut flag = false;

        let username = error_flag(&mut flag, Username::parse_user_login(self.username.clone()));
        let password = error_flag(&mut flag, Password::parse_user_login(self.password.clone()));

        if flag {
            UserLoginFormResult(
                Err(
                    UserLoginFormValidationError {
                        username,
                        password,
                        password_confirm: Ok(Password::default()),
                    },
                ),
            )
        } else {
            match (username, password) {
                (Ok(username), Ok(password)) => UserLoginFormResult(
                    Ok(UserLoginFormValidated { username, password }),
                ),
                _ => vstd::pervasive::unreached(),
            }
        }
    }
}

impl UserLoginFormValidationError {
    /// The untranslated message texts of each field; a field that passed
    /// contributes no message.
    pub fn as_original_message(&self) -> (r: UserLoginFormValidationErrorMessage)
        ensures
            ({
                match self.username {
                    Ok(_) => r.username@.len() == 0,
                    Err(e) => r.username@.len() == e.0.0@.len() && forall|i: int|
                        0 <= i < r.username@.len() ==> r.username@[i]@ == e.0.0@[i].text@,
                }
            }),
            ({
                match self.password {
                    Ok(_) => r.password@.len() == 0,
                    Err(e) => r.password@.len() == e.0.0@.len() && forall|i: int|
                        0 <= i < r.password@.len() ==> r.password@[i]@ == e.0.0@[i].text@,
                }
            }),
            ({
                match self.password_confirm {
                    Ok(_) => r.password_confirm@.len() == 0,
                    Err(e) => r.password_confirm@.len() == e.0.0@.len() && forall|i: int|
                        0 <= i < r.password_confirm@.len() ==> r.password_confirm@[i]@
                            == e.0.0@[i].text@,
                }
            }),
    {
        UserLoginFormValidationErrorMessage {
            username: match &self.username {
                Ok(_) => Vec::new(),
                Err(e) => e.0.as_original_message(),
            },
            password: match &self.password {
                Ok(_) => Vec::new(),
                Err(e) => e.0.as_original_message(),
            },
            password_confirm: match &self.password_confirm {
                Ok(_) => Vec::new(),
                Err(e) => e.0.as_original_message(),
            },
        }
    }

    /// The message texts of each field, rendered through the locale
    /// collaborator with fallback to the original texts.
    pub fn as_translated_message<T: MessageTranslator>(&self, translator: &T) -> (r:
        UserLoginFormValidationErrorMessage)
        ensures
            self.username matches Err(e) ==> r.username@.len() == e.0.0@.len(),
            self.username is Ok ==> r.username@.len() == 0,
            self.password matches Err(e) ==> r.password@.len() == e.0.0@.len(),
            self.password is Ok ==> r.password@.len() == 0,
            self.password_confirm matches Err(e) ==> r.password_confirm@.len() == e.0.0@.len(),
            self.password_confirm is Ok ==> r.password_confirm@.len() == 0,
    {
        UserLoginFormValidationErrorMessage {
            username: match &self.username {
                Ok(_) => Vec::new(),
                Err(e) => e.0.as_translated_message(translator),
            },
            password: match &self.password {
                Ok(_) => Vec::new(),
                Err(e) => e.0.as_translated_message(translator),
            },
            password_confirm: match &self.password_confirm {
                Ok(_) => Vec::new(),
                Err(e) => e.0.as_translated_message(translator),
            },
        }
    }
}

/// A registration form with an invalid username and a mismatched password
/// confirmation fails with messages for both fields: evaluating one field
/// never suppresses another field's messages. This holds whatever the
/// uniqueness lookup would have answered, since a structurally invalid
/// username never reaches it.
pub proof fn lemma_register_form_reports_all_fields(
    u: Seq<char>,
    p: Seq<char>,
    c: Seq<char>,
    taken: bool,
    entropy_ok: bool,
)
    requires
        UsernameRule::spec_default().violations(u).len() > 0,
        PasswordRule::spec_default().violations(p).len() == 0,
        entropy_ok,
        c != p,
    ensures
        ({
            let o = spec_register_outcomes(u, p, c, taken, entropy_ok);
            &&& outcomes_flagged(o)
            &&& o.username matches Err(vs) && vs.len() > 0
            &&& o.password_confirm == Err::<Seq<char>, Seq<Violation>>(
                seq![Violation::PasswordMismatch],
            )
            &&& o.password == Ok::<Seq<char>, Seq<Violation>>(p)
        }),
{
}

} // verus!
