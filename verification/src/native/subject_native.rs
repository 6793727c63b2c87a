use vstd::prelude::*;

use crate::attrs::{
    spec_string_attr, spec_opt_string_attr, spec_usize_attr, spec_req_datetime_attr, string_attr,
    opt_string_attr, usize_attr, req_datetime_attr,
};
use crate::datetime::DateTimeUtc;
use crate::errors::{Error, ErrorV};
use crate::native::common::{Form, FormV};

verus! {

/// One patient record of the subject dialect: identity attributes, a creation
/// timestamp, a form-count hint, and the parsed [`Form`]s in document order —
/// absent, never empty, when no form child was parsed.
#[derive(Clone, Debug, PartialEq, Eq)]
pub struct Patient {
    pub patient_id: String,
    pub unique_id: String,
    pub when_created: Option<DateTimeUtc>,
    pub creator: String,
    pub site_name: String,
    pub site_unique_id: String,
    pub last_language: Option<String>,
    pub number_of_forms: usize,
    pub forms: Option<Vec<Form>>,
}

/// The mathematical shadow of [`Patient`].
#[verifier::ext_equal]
pub struct PatientV {
    pub patient_id: Seq<char>,
    pub unique_id: Seq<char>,
    pub when_created: Option<DateTimeUtc>,
    pub creator: Seq<char>,
    pub site_name: Seq<char>,
    pub site_unique_id: Seq<char>,
    pub last_language: Option<Seq<char>>,
    pub number_of_forms: usize,
    pub forms: Option<Seq<FormV>>,
}

impl DeepView for Patient {
    type V = PatientV;

    open spec fn deep_view(&self) -> PatientV {
        PatientV {
            patient_id: self.patient_id.deep_view(),
            unique_id: self.unique_id.deep_view(),
            when_created: self.when_created.deep_view(),
            creator: self.creator.deep_view(),
            site_name: self.site_name.deep_view(),
            site_unique_id: self.site_unique_id.deep_view(),
            last_language: self.last_language.deep_view(),
            number_of_forms: self.number_of_forms,
            forms: self.forms.deep_view(),
        }
    }
}

/// What [`Patient::from_attributes`] builds: `whenCreated` is required-strict
/// — blank degrades to `None`, an unparsable non-empty value is fatal — and
/// `lastLanguage` is optional, so a blank one reads as `None`.
pub open spec fn spec_patient_from_attrs(a: Seq<(Seq<char>, Seq<char>)>) -> Result<
    PatientV,
    ErrorV,
> {
    match spec_req_datetime_attr(a, "whenCreated"@) {
        Ok(when_created) => Ok(
            PatientV {
                patient_id: spec_string_attr(a, "patientId"@),
                unique_id: spec_string_attr(a, "uniqueId"@),
                when_created,
                creator: spec_string_attr(a, "creator"@),
                site_name: spec_string_attr(a, "siteName"@),
                site_unique_id: spec_string_attr(a, "siteUniqueId"@),
                last_language: spec_opt_string_attr(a, "lastLanguage"@),
                number_of_forms: spec_usize_attr(a, "numberOfForms"@),
                forms: None,
            },
        ),
        Err(e) => Err(e),
    }
}

impl Patient {
    /// Builds a `Patient` from one tag's attributes, forms absent.
    pub fn from_attributes(attrs: &Vec<(String, String)>) -> (r: Result<Patient, Error>)
        ensures
            match r {
                Ok(p) => spec_patient_from_attrs(attrs.deep_view()) == Ok::<_, ErrorV>(
                    p.deep_view(),
                ),
                Err(e) => spec_patient_from_attrs(attrs.deep_view()) == Err::<PatientV, _>(
                    e.deep_view(),
                ),
            },
    {
        let when_created = match req_datetime_attr(attrs, "whenCreated") {
            Ok(w) => w,
            Err(e) => {
                return Err(e);
            },
        };
        Ok(
            Patient {
                patient_id: string_attr(attrs, "patientId"),
                unique_id: string_attr(attrs, "uniqueId"),
                when_created,
                creator: string_attr(attrs, "creator"),
                site_name: string_attr(attrs, "siteName"),
                site_unique_id: string_attr(attrs, "siteUniqueId"),
                last_language: opt_string_attr(attrs, "lastLanguage"),
                number_of_forms: usize_attr(attrs, "numberOfForms"),
                forms: None,
            },
        )
    }
}

/// The root of a parsed subject document: its patients in document order.
#[derive(Clone, Debug, PartialEq, Eq)]
pub struct SubjectNative {
    pub patients: Vec<Patient>,
}

/// The mathematical shadow of [`SubjectNative`].
#[verifier::ext_equal]
pub struct SubjectNativeV {
    pub patients: Seq<PatientV>,
}

impl DeepView for SubjectNative {
    type V = SubjectNativeV;

    open spec fn deep_view(&self) -> SubjectNativeV {
        SubjectNativeV { patients: self.patients.deep_view() }
    }
}

} // verus!
