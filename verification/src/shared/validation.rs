//! Field validation of request bodies, and the message that reports a failure.
use vstd::prelude::*;
use crate::shared::text::{chars_of, string_from_chars};

verus! {

/// The rule that a field broke.
#[derive(Debug, Clone, Copy, PartialEq, Eq, Structural)]
pub enum ValidationKind {
    /// The length (in characters, or elements for a list) lies outside the bounds.
    Length { min: Option<u64>, max: Option<u64> },
    /// The text is not an email address.
    Email,
}

/// A field that failed its rule.
#[derive(Debug, Clone, Copy)]
pub struct FieldError {
    pub field: &'static str,
    pub kind: ValidationKind,
}

/// The failures of a request's validation, in the order of the request's fields.
#[derive(Debug)]
pub struct ValidationErrors {
    pub errors: Vec<FieldError>,
}

/// Whether a length lies within optional bounds.
pub open spec fn length_ok(len: int, min: Option<u64>, max: Option<u64>) -> bool {
    (match min {
        Some(m) => len >= m,
        None => true,
    }) && (match max {
        Some(m) => len <= m,
        None => true,
    })
}

/// Whether a text's length in characters lies within the bounds.
pub fn check_length(s: &str, min: Option<u64>, max: Option<u64>) -> (r: bool)
    ensures
        r == length_ok(s@.len() as int, min, max),
{
    let n = s.unicode_len();
    check_count(n, min, max)
}

/// Whether a count lies within the bounds.
pub fn check_count(n: usize, min: Option<u64>, max: Option<u64>) -> (r: bool)
    ensures
        r == length_ok(n as int, min, max),
{
    let n = n as u64;
    let above = match min {
        Some(m) => n >= m,
        None => true,
    };
    let below = match max {
        Some(m) => n <= m,
        None => true,
    };
    above && below
}

/// Whether the `validator` crate accepts a text as an email address.
pub uninterp spec fn email_valid(s: Seq<char>) -> bool;

/// Calls `validator::ValidateEmail::validate_email`. The contract names the answer
/// `email_valid(s)` and states the first check of its source: a text without `@`
/// is refused.
#[verifier::external_body]
pub fn check_email(s: &str) -> (r: bool)
    ensures
        r == email_valid(s@),
        !s@.contains('@') ==> !r,
{
    validator::ValidateEmail::validate_email(&s)
}

/// The failures that one field contributes: none when it holds, else its error.
pub open spec fn field_check(ok: bool, field: Seq<char>, kind: ValidationKind) -> Seq<(Seq<char>, ValidationKind)> {
    if ok {
        seq![]
    } else {
        seq![(field, kind)]
    }
}

/// Whether the errors are exactly the expected (field, rule) pairs, in order.
pub open spec fn errors_are(errs: Seq<FieldError>, expected: Seq<(Seq<char>, ValidationKind)>) -> bool {
    errs.len() == expected.len() && forall|i: int|
        0 <= i < errs.len() ==> (#[trigger] errs[i]).field@ == expected[i].0 && errs[i].kind
            == expected[i].1
}

/// The outcome of a validation whose expected failures are given.
pub open spec fn validated(r: Result<(), ValidationErrors>, expected: Seq<(Seq<char>, ValidationKind)>) -> bool {
    &&& (r is Ok <==> expected.len() == 0)
    &&& (r matches Err(e) ==> errors_are(e.errors@, expected))
}

/// Collects field errors, then turns them into the validation's outcome.
pub struct Checker {
    pub errors: Vec<FieldError>,
}

impl Checker {
    pub fn new() -> (r: Checker)
        ensures
            r.errors@.len() == 0,
    {
        Checker { errors: Vec::new() }
    }

    /// Records the field's error when its check failed.
    pub fn check(&mut self, ok: bool, field: &'static str, kind: ValidationKind)
        ensures
            final(self).errors@ == if ok {
                old(self).errors@
            } else {
                old(self).errors@.push(FieldError { field, kind })
            },
    {
        if !ok {
            self.errors.push(FieldError { field, kind });
        }
    }

    pub fn finish(self) -> (r: Result<(), ValidationErrors>)
        ensures
            r is Ok <==> self.errors@.len() == 0,
            r matches Err(e) ==> e.errors@ == self.errors@,
    {
        if self.errors.len() == 0 {
            Ok(())
        } else {
            Err(ValidationErrors { errors: self.errors })
        }
    }
}

/// Adding a field's check to errors that match the earlier fields keeps them matching.
pub proof fn lemma_errors_are_push(
    errs: Seq<FieldError>,
    expected: Seq<(Seq<char>, ValidationKind)>,
    ok: bool,
    field: &'static str,
    kind: ValidationKind,
)
    requires
        errors_are(errs, expected),
    ensures
        errors_are(
            if ok {
                errs
            } else {
                errs.push(FieldError { field, kind })
            },
            expected + field_check(ok, field@, kind),
        ),
{
    if ok {
        assert(expected + field_check(ok, field@, kind) =~= expected);
    } else {
        let e2 = expected + field_check(ok, field@, kind);
        let s2 = errs.push(FieldError { field, kind });
        assert forall|i: int| 0 <= i < s2.len() implies (#[trigger] s2[i]).field@ == e2[i].0
            && s2[i].kind == e2[i].1 by {
            if i < errs.len() {
                assert(s2[i] == errs[i]);
                assert(e2[i] == expected[i]);
            }
        }
    }
}

/// The decimal digits of a number.
pub open spec fn decimal(n: nat) -> Seq<char>
    decreases n,
{
    if n < 10 {
        seq![(n + 48) as char]
    } else {
        decimal(n / 10).push(((n % 10) + 48) as char)
    }
}

/// Appends the decimal digits of a number.
fn push_decimal(n: u64, out: &mut Vec<char>)
    ensures
        final(out)@ == old(out)@ + decimal(n as nat),
    decreases n,
{
    if n >= 10 {
        push_decimal(n / 10, out);
    }
    let c = (((n % 10) as u8) + 48) as char;
    out.push(c);
    proof {
        if n >= 10 {
            assert(decimal(n as nat) == decimal((n / 10) as nat).push(c));
        } else {
            assert(decimal(n as nat) == seq![c]);
        }
    }
}

/// Writes a number in decimal.
pub fn format_u64(n: u64) -> (r: String)
    ensures
        r@ == decimal(n as nat),
{
    let mut digits: Vec<char> = Vec::new();
    push_decimal(n, &mut digits);
    assert(Seq::<char>::empty() + decimal(n as nat) =~= decimal(n as nat));
    string_from_chars(&digits)
}

/// The uppercase mapping of a character (one or more characters).
pub uninterp spec fn uppercase_chars(c: char) -> Seq<char>;

/// Calls `char::to_uppercase`. The contract names the result `uppercase_chars(c)` and
/// states what the documentation gives for ASCII: a lowercase letter maps to its
/// capital, any other ASCII character to itself.
#[verifier::external_body]
fn char_to_uppercase(c: char) -> (r: String)
    ensures
        r@ == uppercase_chars(c),
        'a' <= c <= 'z' ==> r@ == seq![((c as u32) - 32) as char],
        (c as u32) < 128 && !('a' <= c <= 'z') ==> r@ == seq![c],
{
    c.to_uppercase().collect()
}

/// The text with every `_` turned into a space.
pub open spec fn underscores_to_spaces(s: Seq<char>) -> Seq<char> {
    s.map_values(|c: char| if c == '_' { ' ' } else { c })
}

/// The uppercase form of a character: for ASCII, a lowercase letter becomes its
/// capital and any other character stays as it is; beyond ASCII it is Unicode's
/// uppercase mapping.
pub open spec fn uppercase_of(c: char) -> Seq<char> {
    if 'a' <= c <= 'z' {
        seq![((c as u32) - 32) as char]
    } else if (c as u32) < 128 {
        seq![c]
    } else {
        uppercase_chars(c)
    }
}

/// A field name as a message shows it: underscores become spaces and the first
/// character is uppercased.
pub open spec fn capitalize_spec(s: Seq<char>) -> Seq<char> {
    let t = underscores_to_spaces(s);
    if t.len() == 0 {
        seq![]
    } else {
        uppercase_of(t[0]) + t.drop_first()
    }
}

/// Turns a field name into the words that start a message.
pub fn capitalize(s: &str) -> (r: String)
    ensures
        r@ == capitalize_spec(s@),
{
    let chars = chars_of(s);
    let mut rest: Vec<char> = Vec::new();
    let mut i: usize = 1;
    if chars.len() == 0 {
        assert(underscores_to_spaces(s@).len() == 0);
        return String::new();
    }
    let first = if chars[0] == '_' {
        ' '
    } else {
        chars[0]
    };
    while i < chars.len()
        invariant
            chars@ == s@,
            1 <= i <= chars@.len(),
            rest@ == underscores_to_spaces(s@).subrange(1, i as int),
        decreases chars@.len() - i,
    {
        let c = if chars[i] == '_' {
            ' '
        } else {
            chars[i]
        };
        rest.push(c);
        proof {
            assert(rest@ =~= underscores_to_spaces(s@).subrange(1, i + 1));
        }
        i = i + 1;
    }
    let mut out = char_to_uppercase(first);
    let tail = string_from_chars(&rest);
    out.append(tail.as_str());
    proof {
        let t = underscores_to_spaces(s@);
        assert(t.drop_first() =~= t.subrange(1, t.len() as int));
    }
    out
}

/// The message for one failed field.
pub open spec fn error_text(e: FieldError) -> Seq<char> {
    let f = capitalize_spec(e.field@);
    match e.kind {
        ValidationKind::Length { min: Some(a), max: Some(b) } => f + " must be between "@ + decimal(
            a as nat,
        ) + " and "@ + decimal(b as nat) + " characters"@,
        ValidationKind::Length { .. } => f + " has an invalid length"@,
        ValidationKind::Email => f + " must be a valid email address"@,
    }
}

/// The messages of all failed fields, joined by `; `.
pub open spec fn joined_messages(errs: Seq<FieldError>) -> Seq<char>
    decreases errs.len(),
{
    if errs.len() == 0 {
        seq![]
    } else if errs.len() == 1 {
        error_text(errs[0])
    } else {
        joined_messages(errs.drop_last()) + "; "@ + error_text(errs.last())
    }
}

/// The message for one failed field.
pub fn error_message(e: &FieldError) -> (r: String)
    ensures
        r@ == error_text(*e),
{
    let mut out = capitalize(e.field);
    match e.kind {
        ValidationKind::Length { min: Some(a), max: Some(b) } => {
            out.append(" must be between ");
            out.append(format_u64(a).as_str());
            out.append(" and ");
            out.append(format_u64(b).as_str());
            out.append(" characters");
        },
        ValidationKind::Length { .. } => {
            out.append(" has an invalid length");
        },
        ValidationKind::Email => {
            out.append(" must be a valid email address");
        },
    }
    out
}

/// The message that reports a failed validation: one sentence per failed field, in
/// field order, joined by `; `. It names the bounds that a field broke but never the
/// value that was sent.
pub fn validation_message(errors: &ValidationErrors) -> (r: String)
    ensures
        r@ == joined_messages(errors.errors@),
{
    let errs = &errors.errors;
    let mut out = String::new();
    let mut i: usize = 0;
    while i < errs.len()
        invariant
            i <= errs@.len(),
            out@ == joined_messages(errs@.subrange(0, i as int)),
        decreases errs@.len() - i,
    {
        let ghost before = errs@.subrange(0, i as int);
        let ghost after = errs@.subrange(0, i + 1);
        assert(after.drop_last() =~= before);
        assert(after.last() == errs@[i as int]);
        if i > 0 {
            out.append("; ");
        }
        let m = error_message(&errs[i]);
        out.append(m.as_str());
        proof {
            if i == 0 {
                assert(out@ =~= error_text(errs@[0]));
            }
        }
        i = i + 1;
    }
    assert(errs@.subrange(0, i as int) =~= errs@);
    out
}

} // verus!
