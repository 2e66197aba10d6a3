//! Rules on the fields of a request body, and the messages that report
//! their violations.

use vstd::prelude::*;
use crate::text::{decimal, decimal_text, texts};

verus! {

/// A constraint on one field's text.
#[derive(Clone, Copy, Debug)]
pub enum Rule {
    /// The text is not empty.
    Required,
    /// The text has the form of an email address.
    Email,
    /// The number of characters lies within the bounds that are given.
    Length { min: Option<u64>, max: Option<u64> },
}

/// One rule applied to one field's value.
#[derive(Debug)]
pub struct FieldCheck {
    pub field: String,
    pub rule: Rule,
    pub value: String,
}

pub struct FieldCheckView {
    pub field: Seq<char>,
    pub rule: Rule,
    pub value: Seq<char>,
}

impl View for FieldCheck {
    type V = FieldCheckView;

    open spec fn view(&self) -> FieldCheckView {
        FieldCheckView { field: self.field@, rule: self.rule, value: self.value@ }
    }
}

/// What a violated rule reports: its kind, with what the message is made
/// from.
#[derive(Debug)]
pub enum Violation {
    Length { min: Option<u64>, max: Option<u64>, value: String },
    Email { value: String },
    Other { message: Option<String> },
}

pub enum ViolationView {
    Length { min: Option<u64>, max: Option<u64>, value: Seq<char> },
    Email { value: Seq<char> },
    Other { message: Option<Seq<char>> },
}

impl View for Violation {
    type V = ViolationView;

    open spec fn view(&self) -> ViolationView {
        match *self {
            Violation::Length { min, max, value } => ViolationView::Length {
                min,
                max,
                value: value@,
            },
            Violation::Email { value } => ViolationView::Email { value: value@ },
            Violation::Other { message } => ViolationView::Other {
                message: match message {
                    Some(m) => Some(m@),
                    None => None,
                },
            },
        }
    }
}

/// A violation together with the field it was found in.
#[derive(Debug)]
pub struct FieldViolation {
    pub field: String,
    pub violation: Violation,
}

pub struct FieldViolationView {
    pub field: Seq<char>,
    pub violation: ViolationView,
}

impl View for FieldViolation {
    type V = FieldViolationView;

    open spec fn view(&self) -> FieldViolationView {
        FieldViolationView { field: self.field@, violation: self.violation@ }
    }
}

/// The views of a sequence of violations.
pub open spec fn violation_views(s: Seq<FieldViolation>) -> Seq<FieldViolationView> {
    Seq::new(s.len(), |i: int| s[i]@)
}

/// The views of a sequence of checks.
pub open spec fn check_views(s: Seq<FieldCheck>) -> Seq<FieldCheckView> {
    Seq::new(s.len(), |i: int| s[i]@)
}

/// Whether `validator` takes `value` for an email address
/// (`ValidateEmail::validate_email`).
pub uninterp spec fn email_format_ok(value: Seq<char>) -> bool;

/// Calls `validator`'s `ValidateEmail::validate_email` on the text.
/// Trusted: the outcome is a function of the text, named `email_format_ok`.
#[verifier::external_body]
fn is_email(value: &str) -> (ok: bool)
    ensures
        ok == email_format_ok(value@),
{
    validator::ValidateEmail::validate_email(&value)
}

/// The text as a JSON string, between quotes and with its escapes, as
/// `serde_json` writes it.
pub uninterp spec fn json_text(value: Seq<char>) -> Seq<char>;

/// Calls `to_string` on the `serde_json::Value` made of the text. Trusted:
/// the outcome is a function of the text, named `json_text`.
#[verifier::external_body]
fn json_quote(value: &str) -> (r: String)
    ensures
        r@ == json_text(value@),
{
    serde_json::Value::from(value).to_string()
}

/// Whether `value` meets `rule`.
pub open spec fn rule_holds(rule: Rule, value: Seq<char>) -> bool {
    match rule {
        Rule::Required => value.len() > 0,
        Rule::Email => email_format_ok(value),
        Rule::Length { min, max } => {
            &&& min matches Some(lo) ==> value.len() >= lo
            &&& max matches Some(hi) ==> value.len() <= hi
        },
    }
}

/// What a rule reports of a value that breaks it.
pub open spec fn violation_of(rule: Rule, value: Seq<char>) -> ViolationView {
    match rule {
        Rule::Required => ViolationView::Other { message: None },
        Rule::Email => ViolationView::Email { value },
        Rule::Length { min, max } => ViolationView::Length { min, max, value },
    }
}

/// The violations of a list of checks, in the order of the checks: one for
/// each rule that does not hold.
pub open spec fn violations_of(checks: Seq<FieldCheckView>) -> Seq<FieldViolationView>
    decreases checks.len(),
{
    if checks.len() == 0 {
        Seq::empty()
    } else {
        let before = violations_of(checks.drop_last());
        let c = checks.last();
        if rule_holds(c.rule, c.value) {
            before
        } else {
            before.push(
                FieldViolationView { field: c.field, violation: violation_of(c.rule, c.value) },
            )
        }
    }
}

/// No check is violated exactly if every rule holds.
pub proof fn lemma_no_violation(checks: Seq<FieldCheckView>)
    ensures
        violations_of(checks).len() == 0 <==> forall|i: int|
            0 <= i < checks.len() ==> rule_holds(#[trigger] checks[i].rule, checks[i].value),
        violations_of(checks).len() <= checks.len(),
    decreases checks.len(),
{
    if checks.len() > 0 {
        let shorter = checks.drop_last();
        lemma_no_violation(shorter);
        assert(forall|i: int| 0 <= i < shorter.len() ==> shorter[i] == checks[i]);
        if violations_of(checks).len() == 0 {
            assert(rule_holds(checks.last().rule, checks.last().value));
            assert forall|i: int| 0 <= i < checks.len() implies rule_holds(
                #[trigger] checks[i].rule,
                checks[i].value,
            ) by {
                if i < shorter.len() {
                    assert(shorter[i] == checks[i]);
                    assert(rule_holds(shorter[i].rule, shorter[i].value));
                }
            }
        } else if forall|i: int|
            0 <= i < checks.len() ==> rule_holds(#[trigger] checks[i].rule, checks[i].value) {
            assert(rule_holds(checks[checks.len() - 1].rule, checks[checks.len() - 1].value));
            assert forall|i: int| 0 <= i < shorter.len() implies rule_holds(
                #[trigger] shorter[i].rule,
                shorter[i].value,
            ) by {
                assert(rule_holds(checks[i].rule, checks[i].value));
            }
        }
    }
}

/// Applies one rule to one value.
pub fn check_rule(rule: &Rule, value: &str) -> (r: Option<Violation>)
    ensures
        r is None <==> rule_holds(*rule, value@),
        r matches Some(v) ==> v@ == violation_of(*rule, value@),
{
    match rule {
        Rule::Required => {
            if value.unicode_len() > 0 {
                None
            } else {
                Some(Violation::Other { message: None })
            }
        },
        Rule::Email => {
            if is_email(value) {
                None
            } else {
                Some(Violation::Email { value: String::from_str(value) })
            }
        },
        Rule::Length { min, max } => {
            let n: usize = value.unicode_len();
            let long_enough: bool = match min {
                Some(lo) => n as u64 >= *lo,
                None => true,
            };
            let short_enough: bool = match max {
                Some(hi) => n as u64 <= *hi,
                None => true,
            };
            if long_enough && short_enough {
                None
            } else {
                Some(Violation::Length { min: *min, max: *max, value: String::from_str(value) })
            }
        },
    }
}

/// Applies the checks in order and collects what they report.
pub fn run_checks(checks: &Vec<FieldCheck>) -> (r: Vec<FieldViolation>)
    ensures
        violation_views(r@) == violations_of(check_views(checks@)),
{
    let mut out: Vec<FieldViolation> = Vec::new();
    let n: usize = checks.len();
    let mut i: usize = 0;
    assert(check_views(checks@).subrange(0, 0) =~= Seq::empty());
    assert(violation_views(out@) =~= Seq::empty());
    while i < n
        invariant
            n == checks@.len(),
            i <= n,
            violation_views(out@) == violations_of(check_views(checks@).subrange(0, i as int)),
        decreases n - i,
    {
        let c: &FieldCheck = &checks[i];
        let ghost before = out@;
        let ghost prefix = check_views(checks@).subrange(0, i as int + 1);
        assert(prefix.drop_last() =~= check_views(checks@).subrange(0, i as int));
        assert(prefix.last() == c@);
        match check_rule(&c.rule, c.value.as_str()) {
            Some(violation) => {
                let v = FieldViolation { field: c.field.clone(), violation };
                out.push(v);
                assert(violation_views(out@) =~= violation_views(before).push(v@));
            },
            None => {},
        }
        i += 1;
    }
    assert(check_views(checks@).subrange(0, n as int) =~= check_views(checks@));
    out
}

/// The lower bound a length violation reports: the one given, or zero.
pub open spec fn bound_of(b: Option<u64>) -> u64 {
    match b {
        Some(n) => n,
        None => 0,
    }
}

/// The message for a value that is not an email address, given the value
/// as it is quoted.
pub open spec fn email_message_text(field: Seq<char>, quoted: Seq<char>) -> Seq<char> {
    field + ": "@ + quoted + " is not a valid email."@
}

/// The message for a length out of bounds. Which bound it names is decided
/// by the lower one alone: a value shorter than the minimum is told the
/// minimum, every other value the maximum.
pub open spec fn length_message_text(
    field: Seq<char>,
    min: Option<u64>,
    max: Option<u64>,
    value_len: nat,
) -> Seq<char> {
    if value_len < bound_of(min) {
        field + ": minimum length is "@ + decimal_text(bound_of(min) as nat) + " characters."@
    } else {
        field + ": maximum length is "@ + decimal_text(bound_of(max) as nat) + " characters."@
    }
}

/// The message for any other violation: the description it came with, or
/// nothing.
pub open spec fn other_message_text(field: Seq<char>, message: Option<Seq<char>>) -> Seq<char> {
    field + ": "@ + match message {
        Some(m) => m,
        None => Seq::empty(),
    }
}

/// The message that reports a violation, in the form `<field>: <description>`.
pub open spec fn message_of(v: FieldViolationView) -> Seq<char> {
    match v.violation {
        ViolationView::Length { min, max, value } => length_message_text(
            v.field,
            min,
            max,
            value.len(),
        ),
        ViolationView::Email { value } => email_message_text(v.field, json_text(value)),
        ViolationView::Other { message } => other_message_text(v.field, message),
    }
}

/// The messages of a list of violations, one each, in order.
pub open spec fn messages_of(errors: Seq<FieldViolationView>) -> Seq<Seq<char>> {
    Seq::new(errors.len(), |i: int| message_of(errors[i]))
}

/// Writes the message for a value that is not an email address.
pub fn email_message(field: &str, quoted: &str) -> (r: String)
    ensures
        r@ == email_message_text(field@, quoted@),
{
    String::from_str(field).concat(": ").concat(quoted).concat(" is not a valid email.")
}

/// Writes the message for a length out of bounds.
pub fn length_message(field: &str, min: Option<u64>, max: Option<u64>, value_len: usize) -> (r:
    String)
    ensures
        r@ == length_message_text(field@, min, max, value_len as nat),
{
    let lo: u64 = match min {
        Some(n) => n,
        None => 0,
    };
    let hi: u64 = match max {
        Some(n) => n,
        None => 0,
    };
    if (value_len as u64) < lo {
        let bound: String = decimal(lo);
        String::from_str(field).concat(": minimum length is ").concat(bound.as_str()).concat(
            " characters.",
        )
    } else {
        let bound: String = decimal(hi);
        String::from_str(field).concat(": maximum length is ").concat(bound.as_str()).concat(
            " characters.",
        )
    }
}

/// Writes the message for a violation of any other kind.
pub fn other_message(field: &str, message: &Option<String>) -> (r: String)
    ensures
        r@ == other_message_text(
            field@,
            match *message {
                Some(m) => Some(m@),
                None => None,
            },
        ),
{
    let head: String = String::from_str(field).concat(": ");
    match message {
        Some(m) => head.concat(m.as_str()),
        None => {
            assert(head@ + Seq::<char>::empty() =~= head@);
            head
        },
    }
}

/// Writes the message that reports one violation.
pub fn violation_message(v: &FieldViolation) -> (r: String)
    ensures
        r@ == message_of(v@),
{
    match &v.violation {
        Violation::Length { min, max, value } => length_message(
            v.field.as_str(),
            *min,
            *max,
            value.as_str().unicode_len(),
        ),
        Violation::Email { value } => {
            let quoted: String = json_quote(value.as_str());
            email_message(v.field.as_str(), quoted.as_str())
        },
        Violation::Other { message } => other_message(v.field.as_str(), message),
    }
}

/// Turns violations into their messages, one for each, in the same order.
pub fn error_transformer(errors: Vec<FieldViolation>) -> (messages: Vec<String>)
    ensures
        messages@.len() == errors@.len(),
        texts(messages@) == messages_of(violation_views(errors@)),
{
    let mut messages: Vec<String> = Vec::new();
    let n: usize = errors.len();
    let mut i: usize = 0;
    while i < n
        invariant
            n == errors@.len(),
            i <= n,
            messages@.len() == i,
            forall|j: int| 0 <= j < i ==> (#[trigger] messages@[j])@ == message_of(errors@[j]@),
        decreases n - i,
    {
        let m: String = violation_message(&errors[i]);
        messages.push(m);
        i += 1;
    }
    assert(texts(messages@) =~= messages_of(violation_views(errors@)));
    messages
}

/// A strategy that shapes the messages of an endpoint's validation
/// failures: one message for each violation, in the same order.
pub trait TransformValidationErrors: Sized {
    /// The messages this strategy gives for a list of violations.
    spec fn shaped(errors: Seq<FieldViolationView>) -> Seq<Seq<char>>;

    fn new() -> Self;

    fn transform_errors(&self, errors: Vec<FieldViolation>) -> (messages: Vec<String>)
        ensures
            messages@.len() == errors@.len(),
            texts(messages@) == Self::shaped(violation_views(errors@)),
    ;
}

/// A request body that carries its own rules.
pub trait Validate {
    /// The checks that the body has to pass, in the order in which they are
    /// reported.
    spec fn checks(&self) -> Seq<FieldCheckView>;

    /// Applies the body's rules to its fields.
    fn validate(&self) -> (errors: Vec<FieldViolation>)
        ensures
            violation_views(errors@) == violations_of(self.checks()),
    ;
}

} // verus!
