//! Validation of the add-to-bucket-list form.

use vstd::prelude::*;

use crate::description::{Description, DescriptionError, DescriptionRule};
use crate::locale::MessageTranslator;
use crate::messages::{store_encodes, Violation};
use crate::name::{Name, NameError, NameRule};
use crate::validation::error_flag;

verus! {

/// The raw form as the HTTP layer hands it over.
pub struct AddToBucketList {
    pub name: String,
    pub description: String,
}

/// Both fields of the form, validated.
pub struct AddToBucketListValidated {
    pub name: Name,
    pub description: Description,
}

/// The complete per-field outcome of a failed validation: the valid field is
/// kept, the failed one carries its full message set.
pub struct AddToBucketListValidationError {
    pub name: Result<Name, NameError>,
    pub description: Result<Description, DescriptionError>,
}

/// Aggregate result of validating the form.
pub struct AddToBucketListResult(
    pub Result<AddToBucketListValidated, AddToBucketListValidationError>,
);

/// The per-field message texts of a failed validation, ready for the
/// response shaper.
pub struct AddToBucketListValidationErrorResponse {
    pub name: Vec<String>,
    pub description: Vec<String>,
}

/// The abstract per-field outcome of validating the form: both fields run
/// their default rule sets.
pub ghost struct BucketFieldOutcomes {
    pub name: Result<Seq<char>, Seq<Violation>>,
    pub description: Result<Seq<char>, Seq<Violation>>,
}

/// What validating the form must produce.
pub open spec fn spec_bucket_outcomes(n: Seq<char>, d: Seq<char>) -> BucketFieldOutcomes {
    let nv = NameRule::spec_default().violations(n);
    let dv = DescriptionRule::spec_default().violations(d);
    BucketFieldOutcomes {
        name: if nv.len() > 0 {
            Err(nv)
        } else {
            Ok(n)
        },
        description: if dv.len() > 0 {
            Err(dv)
        } else {
            Ok(d)
        },
    }
}

/// A form result carries exactly the abstract outcomes.
pub open spec fn bucket_result_matches(r: AddToBucketListResult, o: BucketFieldOutcomes) -> bool {
    if o.name is Err || o.description is Err {
        &&& r.0 matches Err(e)
        &&& (match o.name {
            Ok(s) => e.name matches Ok(n) && n@ == s,
            Err(vs) => e.name matches Err(err) && store_encodes(err.0.0@, vs),
        })
        &&& (match o.description {
            Ok(s) => e.description matches Ok(d) && d@ == s,
            Err(vs) => e.description matches Err(err) && store_encodes(err.0.0@, vs),
        })
    } else {
        &&& r.0 matches Ok(v)
        &&& o.name matches Ok(s) && r.0->Ok_0.name@ == s
        &&& o.description matches Ok(s) && r.0->Ok_0.description@ == s
    }
}

impl AddToBucketList {
    /// Validates both fields of the form — the description is checked even
    /// when the name already failed.
    pub fn as_validated(&self) -> (r: AddToBucketListResult)
        ensures
            bucket_result_matches(r, spec_bucket_outcomes(self.name@, self.description@)),
    {
        let mut flag = false;

        let name = error_flag(&mut flag, Name::parse(self.name.clone()));
        let description = error_flag(&mut flag, Description::parse(self.description.clone()));

        if flag {
            AddToBucketListResult(Err(AddToBucketListValidationError { name, description }))
        } else {
            match (name, description) {
                (Ok(name), Ok(description)) => AddToBucketListResult(
                    Ok(AddToBucketListValidated { name, description }),
                ),
                _ => vstd::pervasive::unreached(),
            }
        }
    }
}

impl AddToBucketListValidationError {
    /// The untranslated message texts of each field; a field that passed
    /// contributes no message.
    pub fn as_original_message(&self) -> (r: AddToBucketListValidationErrorResponse)
        ensures
            ({
                match self.name {
                    Ok(_) => r.name@.len() == 0,
                    Err(e) => r.name@.len() == e.0.0@.len() && forall|i: int|
                        0 <= i < r.name@.len() ==> r.name@[i]@ == e.0.0@[i].text@,
                }
            }),
            ({
                match self.description {
                    Ok(_) => r.description@.len() == 0,
                    Err(e) => r.description@.len() == e.0.0@.len() && forall|i: int|
                        0 <= i < r.description@.len() ==> r.description@[i]@ == e.0.0@[i].text@,
                }
            }),
    {
        AddToBucketListValidationErrorResponse {
            name: match &self.name {
                Ok(_) => Vec::new(),
                Err(e) => e.0.as_original_message(),
            },
            description: match &self.description {
                Ok(_) => Vec::new(),
                Err(e) => e.0.as_original_message(),
            },
        }
    }

    /// The message texts of each field, rendered through the locale
    /// collaborator with fallback to the original texts.
    pub fn as_translated_message<T: MessageTranslator>(&self, translator: &T) -> (r:
        AddToBucketListValidationErrorResponse)
        ensures
            self.name matches Err(e) ==> r.name@.len() == e.0.0@.len(),
            self.name is Ok ==> r.name@.len() == 0,
            self.description matches Err(e) ==> r.description@.len() == e.0.0@.len(),
            self.description is Ok ==> r.description@.len() == 0,
    {
        AddToBucketListValidationErrorResponse {
            name: match &self.name {
                Ok(_) => Vec::new(),
                Err(e) => e.0.as_translated_message(translator),
            },
            description: match &self.description {
                Ok(_) => Vec::new(),
                Err(e) => e.0.as_translated_message(translator),
            },
        }
    }
}

} // verus!
