//! The request body of a direct message.
use vstd::prelude::*;
use crate::shared::validation::{
    Checker, ValidationErrors, ValidationKind, check_length, field_check, lemma_errors_are_push,
    length_ok, validated,
};

verus! {

#[derive(Debug)]
pub struct SendMessageRequest {
    pub content: String,
}

/// Content of 1 to 2000 characters.
pub open spec fn send_message_errors(r: SendMessageRequest) -> Seq<(Seq<char>, ValidationKind)> {
    field_check(
        length_ok(r.content@.len() as int, Some(1), Some(2000)),
        "content"@,
        ValidationKind::Length { min: Some(1), max: Some(2000) },
    )
}

impl SendMessageRequest {
    pub fn validate(&self) -> (r: Result<(), ValidationErrors>)
        ensures
            validated(r, send_message_errors(*self)),
    {
        let mut c = Checker::new();
        let ok = check_length(self.content.as_str(), Some(1), Some(2000));
        let kind = ValidationKind::Length { min: Some(1), max: Some(2000) };
        proof {
            lemma_errors_are_push(c.errors@, seq![], ok, "content", kind);
            assert(Seq::<(Seq<char>, ValidationKind)>::empty() + field_check(ok, "content"@, kind)
                =~= send_message_errors(*self));
        }
        c.check(ok, "content", kind);
        c.finish()
    }
}

} // verus!
