//! Violation trees: the structured report that validation produces when a
//! value does not satisfy a type, mirroring the constraint tree that
//! rejected it.

use crate::ion_path::IonPath;
use vstd::prelude::*;
use vstd::string::StringExecFns;

verus! {

/// The closed set of causes a violation can report.
#[derive(Debug, Clone, Copy, PartialEq, Eq, Structural)]
pub enum ViolationCode {
    AllTypesNotMatched,
    AnnotationMismatched,
    ElementMismatched,
    ElementNotDistinct,
    FieldNamesMismatched,
    FieldNamesNotDistinct,
    FieldsNotMatched,
    InvalidIeee754Float,
    InvalidLength,
    InvalidNull,
    InvalidOpenContent,
    InvalidValue,
    MissingAnnotation,
    MissingValue,
    MoreThanOneTypeMatched,
    NoTypesMatched,
    RegexMismatched,
    TypeConstraintsUnsatisfied,
    TypeMatched,
    TypeMismatched,
    UnexpectedAnnotation,
}

impl ViolationCode {
    /// The snake-case name under which the code appears in reports.
    pub open spec fn spec_name(&self) -> Seq<char> {
        match self {
            ViolationCode::AllTypesNotMatched => "all_types_not_matched"@,
            ViolationCode::AnnotationMismatched => "annotation_mismatched"@,
            ViolationCode::ElementMismatched => "element_mismatched"@,
            ViolationCode::ElementNotDistinct => "element_not_distinct"@,
            ViolationCode::FieldNamesMismatched => "field_names_mismatched"@,
            ViolationCode::FieldNamesNotDistinct => "field_names_not_distinct"@,
            ViolationCode::FieldsNotMatched => "fields_not_matched"@,
            ViolationCode::InvalidIeee754Float => "invalid_ieee754_float"@,
            ViolationCode::InvalidLength => "invalid_length"@,
            ViolationCode::InvalidNull => "invalid_null"@,
            ViolationCode::InvalidOpenContent => "invalid_open_content"@,
            ViolationCode::InvalidValue => "invalid_value"@,
            ViolationCode::MissingAnnotation => "missing_annotation"@,
            ViolationCode::MissingValue => "missing_value"@,
            ViolationCode::MoreThanOneTypeMatched => "more_than_one_type_matched"@,
            ViolationCode::NoTypesMatched => "no_types_matched"@,
            ViolationCode::RegexMismatched => "regex_mismatched"@,
            ViolationCode::TypeConstraintsUnsatisfied => "type_constraints_unsatisfied"@,
            ViolationCode::TypeMatched => "type_matched"@,
            ViolationCode::TypeMismatched => "type_mismatched"@,
            ViolationCode::UnexpectedAnnotation => "unexpected_annotation"@,
        }
    }

    /// The snake-case name under which the code appears in reports.
    pub fn name(&self) -> (r: String)
        ensures
            r@ == self.spec_name(),
    {
        let text: &str = match self {
            ViolationCode::AllTypesNotMatched => "all_types_not_matched",
            ViolationCode::AnnotationMismatched => "annotation_mismatched",
            ViolationCode::ElementMismatched => "element_mismatched",
            ViolationCode::ElementNotDistinct => "element_not_distinct",
            ViolationCode::FieldNamesMismatched => "field_names_mismatched",
            ViolationCode::FieldNamesNotDistinct => "field_names_not_distinct",
            ViolationCode::FieldsNotMatched => "fields_not_matched",
            ViolationCode::InvalidIeee754Float => "invalid_ieee754_float",
            ViolationCode::InvalidLength => "invalid_length",
            ViolationCode::InvalidNull => "invalid_null",
            ViolationCode::InvalidOpenContent => "invalid_open_content",
            ViolationCode::InvalidValue => "invalid_value",
            ViolationCode::MissingAnnotation => "missing_annotation",
            ViolationCode::MissingValue => "missing_value",
            ViolationCode::MoreThanOneTypeMatched => "more_than_one_type_matched",
            ViolationCode::NoTypesMatched => "no_types_matched",
            ViolationCode::RegexMismatched => "regex_mismatched",
            ViolationCode::TypeConstraintsUnsatisfied => "type_constraints_unsatisfied",
            ViolationCode::TypeMatched => "type_matched",
            ViolationCode::TypeMismatched => "type_mismatched",
            ViolationCode::UnexpectedAnnotation => "unexpected_annotation",
        };
        text.to_owned()
    }
}

/// One node of a violation report: the constraint that raised it, a cause
/// code, a message, the path to the offending value, and the nested
/// violations a composite constraint collected.
#[derive(Debug)]
pub struct Violation {
    pub constraint: String,
    pub code: ViolationCode,
    pub message: String,
    pub ion_path: IonPath,
    pub violations: Vec<Violation>,
}

/// The depth-first sequence of leaf violations under `v`; `v` itself when
/// it has no children.
pub open spec fn leaves(v: Violation) -> Seq<Violation>
    decreases v,
{
    if v.violations@.len() == 0 {
        seq![v]
    } else {
        leaves_of(v.violations@)
    }
}

/// The concatenated leaves of each violation in `s`, in order.
pub open spec fn leaves_of(s: Seq<Violation>) -> Seq<Violation>
    decreases s,
{
    if s.len() == 0 {
        Seq::empty()
    } else {
        leaves(s.first()) + leaves_of(s.drop_first())
    }
}

/// The violations that a sequence of references points at, in order.
pub open spec fn refs_to_values(s: Seq<&Violation>) -> Seq<Violation> {
    s.map_values(|p: &Violation| *p)
}

/// Concatenating violation sequences concatenates their leaves.
pub proof fn lemma_leaves_of_concat(a: Seq<Violation>, b: Seq<Violation>)
    ensures
        leaves_of(a + b) =~= leaves_of(a) + leaves_of(b),
    decreases a,
{
    if a.len() == 0 {
        assert(a + b =~= b);
    } else {
        assert((a + b).first() == a.first());
        assert((a + b).drop_first() =~= a.drop_first() + b);
        lemma_leaves_of_concat(a.drop_first(), b);
    }
}

/// A violation tree always has at least one leaf: an empty flattened
/// report can therefore only accompany a value that validated.
pub proof fn lemma_leaves_nonempty(v: Violation)
    ensures
        leaves(v).len() >= 1,
    decreases v,
{
    if v.violations@.len() > 0 {
        lemma_leaves_of_nonempty(v.violations@);
    }
}

/// A nonempty sequence of violations contributes at least one leaf.
pub proof fn lemma_leaves_of_nonempty(s: Seq<Violation>)
    requires
        s.len() >= 1,
    ensures
        leaves_of(s).len() >= 1,
    decreases s,
{
    lemma_leaves_nonempty(s.first());
}

impl Violation {
    /// A leaf violation: a terminal constraint check that failed.
    pub fn new(constraint: String, code: ViolationCode, message: String, ion_path: IonPath) -> (r:
        Violation)
        ensures
            r.constraint@ == constraint@,
            r.code == code,
            r.message@ == message@,
            r.ion_path == ion_path,
            r.violations@.len() == 0,
    {
        Violation { constraint, code, message, ion_path, violations: Vec::new() }
    }

    /// An interior violation: a composite constraint whose children carry
    /// the underlying causes.
    pub fn with_violations(
        constraint: String,
        code: ViolationCode,
        message: String,
        ion_path: IonPath,
        violations: Vec<Violation>,
    ) -> (r: Violation)
        ensures
            r.constraint@ == constraint@,
            r.code == code,
            r.message@ == message@,
            r.ion_path == ion_path,
            r.violations == violations,
    {
        Violation { constraint, code, message, ion_path, violations }
    }

    /// The path to the value this violation speaks about.
    pub fn ion_path(&self) -> (r: &IonPath)
        ensures
            *r == self.ion_path,
    {
        &self.ion_path
    }

    pub fn message(&self) -> (r: &String)
        ensures
            r@ == self.message@,
    {
        &self.message
    }

    pub fn code(&self) -> (r: &ViolationCode)
        ensures
            *r == self.code,
    {
        &self.code
    }

    /// The nested violations collected by a composite constraint.
    pub fn violations(&self) -> (r: &Vec<Violation>)
        ensures
            r@ == self.violations@,
    {
        &self.violations
    }

    /// The one-line description a report prints for this violation.
    pub fn description(&self) -> (r: String)
        ensures
            r@ == "A validation error occurred: "@ + self.message@,
    {
        let mut text: String = "A validation error occurred: ".to_owned();
        text.append(self.message.as_str());
        text
    }

    /// The depth-first list of leaf violations, which are the root causes
    /// of this violation. It is never empty.
    pub fn flattened_violations<'a>(&'a self) -> (r: Vec<&'a Violation>)
        ensures
            refs_to_values(r@) =~= leaves(*self),
            r@.len() >= 1,
    {
        let mut flattened: Vec<&'a Violation> = Vec::new();
        self.flatten_violations(&mut flattened);
        proof {
            lemma_leaves_nonempty(*self);
            assert(refs_to_values(flattened@).len() == flattened@.len());
        }
        flattened
    }

    /// Appends this violation's leaves to `flattened`, depth first.
    fn flatten_violations<'a>(&'a self, flattened: &mut Vec<&'a Violation>)
        ensures
            refs_to_values(final(flattened)@) =~= refs_to_values(old(flattened)@) + leaves(
                *self,
            ),
        decreases *self,
    {
        let ghost base = flattened@;
        if self.violations.len() == 0 {
            flattened.push(self);
            proof {
                assert(refs_to_values(flattened@) =~= refs_to_values(base) + leaves(*self));
            }
            return ;
        }
        let n = self.violations.len();
        let mut i: usize = 0;
        while i < n
            invariant
                i <= n,
                n == self.violations@.len(),
                n > 0,
                refs_to_values(flattened@) =~= refs_to_values(base) + leaves_of(
                    self.violations@.take(i as int),
                ),
            decreases n - i,
        {
            self.violations[i].flatten_violations(flattened);
            proof {
                let s = self.violations@;
                assert(s.take(i + 1) =~= s.take(i as int) + seq![s[i as int]]);
                lemma_leaves_of_concat(s.take(i as int), seq![s[i as int]]);
                let single = seq![s[i as int]];
                assert(single.first() == s[i as int]);
                assert(single.drop_first() =~= Seq::<Violation>::empty());
                assert(leaves_of(Seq::<Violation>::empty()) =~= Seq::<Violation>::empty());
                assert(leaves_of(single) =~= leaves(s[i as int]));
            }
            i += 1;
        }
        proof {
            assert(self.violations@.take(n as int) =~= self.violations@);
        }
    }
}

} // verus!
