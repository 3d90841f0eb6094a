//! Stored bills of materials and their validation.

use vstd::prelude::*;
use crate::model::bom::CdxBom;
use crate::text::copy_text;
use crate::util::message_util::{get_message, message_text, message_text_of, MessageLookup};
use crate::util::validation_util::{
    flatten_errors, lookups_fit, message_view, messages_view, validate_entity_recursive, Message, MessageView, ValidationErrors,
};

verus! {

/// A bill of materials to insert, inline or by its object-store id.
pub struct InsSbom {
    pub sbom: Option<CdxBom>,
    pub s3_uuid: Option<String>,
}

/// A stored bill of materials: the original as uploaded (CycloneDX or SPDX), and the
/// CycloneDX version enriched with vulnerabilities, each as JSON text or by object-store
/// id, with the SHA-256 of the upload.
pub struct EnSbom {
    pub id: i64,
    pub sbom_enriched: Option<String>,
    pub sbom_original: Option<String>,
    pub s3_uuid_enriched: Option<String>,
    pub s3_uuid_original: Option<String>,
    pub sha256: Option<String>,
}

/// The message a missing original is reported with: `original-sbom-required`, no arguments.
pub open spec fn original_required(m: MessageView) -> bool {
    m == ("original-sbom-required"@, None::<Seq<(Seq<char>, Seq<char>)>>)
}

impl EnSbom {
    /// An original is required: inline or by object-store id.
    pub fn validate_sbom_or_s3(&self) -> (res: Result<(), Message>)
        ensures
            (self.sbom_original is None && self.s3_uuid_original is None) <==> res is Err,
            res matches Err(m) ==> original_required(message_view(m)),
    {
        if self.sbom_original.is_none() && self.s3_uuid_original.is_none() {
            return Err((copy_text("original-sbom-required"), None));
        }
        Ok(())
    }

    /// All rules of a stored bill of materials (see `validate_sbom_or_s3`).
    pub fn validate_all(&self) -> (res: Result<(), Message>)
        ensures
            (self.sbom_original is None && self.s3_uuid_original is None) <==> res is Err,
            res matches Err(m) ==> original_required(message_view(m)),
    {
        self.validate_sbom_or_s3()?;
        Ok(())
    }

    /// The message to report for this bill of materials, translated, given the outcome
    /// of the declarative validation of its fields: the first message of that
    /// validation if it gave any, else the message of `validate_all`, else nothing.
    /// `lookups[i]` is what looking up the `i`-th message of the validation gave, and
    /// `original_lookup` what looking up `original-sbom-required` gave, in the caller's
    /// language.
    pub fn validate_and_get_message(
        &self,
        validation: &Result<(), ValidationErrors>,
        lookups: &Vec<MessageLookup>,
        original_lookup: MessageLookup,
    ) -> (res: Result<(), String>)
        requires
            lookups_fit(*validation, lookups@),
        ensures
            match *validation {
                Err(e) if flatten_errors(e).len() > 0 => res matches Err(t) && t@ == message_text(
                    flatten_errors(e)[0].0,
                    lookups@[0],
                ),
                _ => {
                    &&& (self.sbom_original is None && self.s3_uuid_original is None) <==> res is Err
                    &&& res matches Err(t) ==> t@ == message_text("original-sbom-required"@, original_lookup)
                },
            },
    {
        match validation {
            Ok(_) => {},
            Err(e) => {
                let mut validation_errors: Vec<Message> = Vec::new();
                assert(messages_view(validation_errors@) =~= Seq::<MessageView>::empty());
                validate_entity_recursive(e, &mut validation_errors);
                assert(messages_view(validation_errors@) =~= flatten_errors(*e));
                if validation_errors.len() > 0 {
                    assert(messages_view(validation_errors@)[0] == message_view(validation_errors@[0]));
                    return Err(message_text_of(validation_errors[0].0.as_str(), &lookups[0]));
                }
            },
        }
        match self.validate_all() {
            Ok(()) => Ok(()),
            Err(m) => {
                proof {
                    reveal_strlit("original-sbom-required");
                }
                Err(get_message(m.0.as_str(), original_lookup))
            },
        }
    }
}

} // verus!
