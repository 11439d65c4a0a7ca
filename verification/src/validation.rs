//! Validation of submitted forms against a table of rules.
//!
//! A table names, for each field it knows, the checks the field's text must
//! pass and the message each failed check leaves behind. Every field is
//! looked at on its own and every failure is kept: one bad field never hides
//! another.

use crate::form_errors::{messages_of, FormErrors, FormErrorsView};
use validator::{ValidateEmail, ValidateLength, ValidateUrl};
use vstd::prelude::*;

verus! {

/// Whether the `validator` crate takes `text` for an e-mail address.
pub uninterp spec fn email_shape(text: Seq<char>) -> bool;

/// Whether the `validator` crate takes `text` for a URL.
pub uninterp spec fn url_shape(text: Seq<char>) -> bool;

/// `ValidateEmail::validate_email` on a string slice: the crate's judgement
/// of the text, which depends on the text alone.
#[verifier::external_body]
fn is_email(text: &str) -> (ok: bool)
    ensures
        ok == email_shape(text@),
{
    text.validate_email()
}

/// `ValidateUrl::validate_url` on a string slice: the crate's judgement of
/// the text, which depends on the text alone.
#[verifier::external_body]
fn is_url(text: &str) -> (ok: bool)
    ensures
        ok == url_shape(text@),
{
    text.validate_url()
}

/// `ValidateLength::validate_length` on a string slice with a lower bound
/// only: the text is long enough when it has at least `min` characters.
#[verifier::external_body]
fn has_min_length(text: &str, min: u64) -> (ok: bool)
    ensures
        ok == (text@.len() >= min),
{
    text.validate_length(Some(min), None, None)
}

/// One kind of check on a field's text.
#[derive(Copy, Clone, Debug)]
pub enum Check {
    /// The text is not empty.
    Required,
    /// The text has at least this many characters.
    MinLength(u64),
    /// The text has the shape of an e-mail address.
    Email,
    /// The text has the shape of a URL.
    Url,
}

/// A check together with the message it leaves when it fails.
pub struct Rule {
    pub check: Check,
    pub message: String,
}

/// The rules of one field. An optional field that is left empty passes
/// whatever its rules say.
pub struct FieldRules {
    pub field: String,
    pub optional: bool,
    pub rules: Vec<Rule>,
}

/// What a form holds under one field name: a text, or nothing.
pub struct FieldValue {
    pub field: String,
    pub value: Option<String>,
}

pub struct RuleView {
    pub check: Check,
    pub message: Seq<char>,
}

pub struct FieldRulesView {
    pub field: Seq<char>,
    pub optional: bool,
    pub rules: Seq<RuleView>,
}

pub struct FieldValueView {
    pub field: Seq<char>,
    pub value: Option<Seq<char>>,
}

impl View for Rule {
    type V = RuleView;

    open spec fn view(&self) -> RuleView {
        RuleView { check: self.check, message: self.message@ }
    }
}

impl View for FieldRules {
    type V = FieldRulesView;

    open spec fn view(&self) -> FieldRulesView {
        FieldRulesView {
            field: self.field@,
            optional: self.optional,
            rules: self.rules@.map_values(|r: Rule| r@),
        }
    }
}

impl View for FieldValue {
    type V = FieldValueView;

    open spec fn view(&self) -> FieldValueView {
        FieldValueView {
            field: self.field@,
            value: match self.value {
                Some(text) => Some(text@),
                None => None,
            },
        }
    }
}

/// The rows of a rule table, each by its view.
pub open spec fn table_view(table: Seq<FieldRules>) -> Seq<FieldRulesView> {
    table.map_values(|row: FieldRules| row@)
}

/// The entries of a form, each by its view.
pub open spec fn values_view(values: Seq<FieldValue>) -> Seq<FieldValueView> {
    values.map_values(|v: FieldValue| v@)
}

/// True when `text` fails `check`.
pub open spec fn violates(check: Check, text: Seq<char>) -> bool {
    match check {
        Check::Required => text.len() == 0,
        Check::MinLength(min) => text.len() < min,
        Check::Email => !email_shape(text),
        Check::Url => !url_shape(text),
    }
}

/// The messages of the rules that `text` fails, in the order of the rules.
pub open spec fn violations(rules: Seq<RuleView>, text: Seq<char>) -> Seq<Seq<char>>
    decreases rules.len(),
{
    if rules.len() == 0 {
        Seq::empty()
    } else {
        let earlier = violations(rules.drop_last(), text);
        if violates(rules.last().check, text) {
            earlier.push(rules.last().message)
        } else {
            earlier
        }
    }
}

/// True when the field's rules are not applied to `text`: the field is
/// optional and was left empty.
pub open spec fn exempt(row: FieldRulesView, text: Seq<char>) -> bool {
    row.optional && text.len() == 0
}

/// The errors that `text` earns under the rules of one field.
pub open spec fn row_errors(row: FieldRulesView, text: Seq<char>) -> Seq<(Seq<char>, Seq<char>)> {
    if exempt(row, text) {
        Seq::empty()
    } else {
        violations(row.rules, text).map_values(|message: Seq<char>| (row.field, message))
    }
}

/// The text a form holds under `field`: that of the first entry of that
/// name. A field that is missing, or present without a value, reads as empty.
pub open spec fn submitted(values: Seq<FieldValueView>, field: Seq<char>) -> Seq<char>
    decreases values.len(),
{
    if values.len() == 0 {
        Seq::empty()
    } else if values[0].field == field {
        match values[0].value {
            Some(text) => text,
            None => Seq::empty(),
        }
    } else {
        submitted(values.drop_first(), field)
    }
}

/// The errors of a form under a rule table: row after row, the errors that
/// the text submitted under the row's field earns under the row's rules.
pub open spec fn table_errors(table: Seq<FieldRulesView>, values: Seq<FieldValueView>) -> Seq<
    (Seq<char>, Seq<char>),
>
    decreases table.len(),
{
    if table.len() == 0 {
        Seq::empty()
    } else {
        table_errors(table.drop_last(), values) + row_errors(
            table.last(),
            submitted(values, table.last().field),
        )
    }
}

/// The error set that validation of `values` under `table` produces.
pub open spec fn validation_result(
    table: Seq<FieldRulesView>,
    values: Seq<FieldValueView>,
) -> FormErrorsView {
    FormErrorsView { entries: table_errors(table, values), base: Seq::empty() }
}

impl Check {
    /// True when `text` fails this check.
    pub fn violated_by(&self, text: &str) -> (bad: bool)
        ensures
            bad == violates(*self, text@),
    {
        match self {
            Check::Required => !has_min_length(text, 1),
            Check::MinLength(min) => !has_min_length(text, *min),
            Check::Email => !is_email(text),
            Check::Url => !is_url(text),
        }
    }
}

impl FieldRules {
    /// Applies the field's rules to `text` and records each failure in
    /// `errors`, after what `errors` already holds.
    pub fn check(&self, text: &str, errors: &mut FormErrors)
        ensures
            final(errors)@.entries == old(errors)@.entries + row_errors(self@, text@),
            final(errors)@.base == old(errors)@.base,
    {
        if self.optional && text.is_empty() {
            assert(errors@.entries + Seq::empty() =~= errors@.entries);
            return ;
        }
        let ghost stamp = |message: Seq<char>| (self.field@, message);
        let mut i: usize = 0;
        assert(self@.rules.take(0) =~= Seq::empty());
        assert(errors@.entries + Seq::<Seq<char>>::empty().map_values(stamp) =~= errors@.entries);
        while i < self.rules.len()
            invariant
                i <= self.rules.len(),
                stamp == |message: Seq<char>| (self.field@, message),
                errors@.entries == old(errors)@.entries + violations(
                    self@.rules.take(i as int),
                    text@,
                ).map_values(stamp),
                errors@.base == old(errors)@.base,
            decreases self.rules.len() - i,
        {
            let rule = &self.rules[i];
            let ghost before = errors@.entries;
            let ghost found = violations(self@.rules.take(i as int), text@);
            assert(self@.rules.take(i + 1).drop_last() =~= self@.rules.take(i as int));
            assert(self@.rules.take(i + 1).last() == rule@);
            if rule.check.violated_by(text) {
                errors.add(self.field.as_str(), rule.message.as_str());
                assert(found.push(rule.message@).map_values(stamp) =~= found.map_values(stamp).push(
                    (self.field@, rule.message@),
                ));
                assert(errors@.entries =~= old(errors)@.entries + found.push(
                    rule.message@,
                ).map_values(stamp));
            }
            i += 1;
        }
        assert(self@.rules.take(i as int) =~= self@.rules);
    }
}

/// The text that `values` holds under `field`, see [`submitted`].
pub fn lookup<'a>(values: &'a Vec<FieldValue>, field: &str) -> (text: &'a str)
    ensures
        text@ == submitted(values_view(values@), field@),
{
    proof {
        reveal_strlit("");
    }
    let wanted = String::from_str(field);
    let mut i: usize = 0;
    assert(values_view(values@).skip(0) =~= values_view(values@));
    while i < values.len()
        invariant
            i <= values.len(),
            wanted@ == field@,
            submitted(values_view(values@), field@) == submitted(
                values_view(values@).skip(i as int),
                field@,
            ),
        decreases values.len() - i,
    {
        let ghost rest = values_view(values@).skip(i as int);
        assert(rest[0] == values@[i as int]@);
        assert(rest.drop_first() =~= values_view(values@).skip(i + 1));
        if values[i].field == wanted {
            proof {
                reveal_strlit("");
                assert(""@ =~= Seq::<char>::empty());
            }
            return match &values[i].value {
                Some(text) => text.as_str(),
                None => "",
            };
        }
        i += 1;
    }
    assert(values_view(values@).skip(i as int).len() == 0);
    ""
}

/// Validates a form against a rule table. Every row of the table is applied
/// to the text submitted under its field; nothing stops at the first
/// failure. The result is empty exactly when no rule was failed.
pub fn validate(table: &Vec<FieldRules>, values: &Vec<FieldValue>) -> (errors: FormErrors)
    ensures
        errors@ == validation_result(table_view(table@), values_view(values@)),
{
    let mut errors = FormErrors::new();
    let mut i: usize = 0;
    assert(table_view(table@).take(0) =~= Seq::empty());
    while i < table.len()
        invariant
            i <= table.len(),
            errors@.entries == table_errors(table_view(table@).take(i as int), values_view(values@)),
            errors@.base == Seq::<Seq<char>>::empty(),
        decreases table.len() - i,
    {
        let row = &table[i];
        assert(table_view(table@).take(i + 1).drop_last() =~= table_view(table@).take(i as int));
        assert(table_view(table@).take(i + 1).last() == row@);
        let text = lookup(values, row.field.as_str());
        row.check(text, &mut errors);
        i += 1;
    }
    assert(table_view(table@).take(i as int) =~= table_view(table@));
    errors
}

/// True when `text` passes the rules of one field: the field is exempt, or
/// no rule of it is failed.
pub open spec fn row_passes(row: FieldRulesView, text: Seq<char>) -> bool {
    exempt(row, text) || forall|j: int|
        0 <= j < row.rules.len() ==> !violates((#[trigger] row.rules[j]).check, text)
}

/// True when no two rows of the table speak of the same field.
pub open spec fn distinct_fields(table: Seq<FieldRulesView>) -> bool {
    forall|i: int, j: int|
        0 <= i < table.len() && 0 <= j < table.len() && i != j ==> (#[trigger] table[i]).field
            != (#[trigger] table[j]).field
}

proof fn lemma_no_violations(rules: Seq<RuleView>, text: Seq<char>)
    requires
        forall|j: int| 0 <= j < rules.len() ==> !violates((#[trigger] rules[j]).check, text),
    ensures
        violations(rules, text) == Seq::<Seq<char>>::empty(),
    decreases rules.len(),
{
    if rules.len() > 0 {
        lemma_no_violations(rules.drop_last(), text);
    }
}

proof fn lemma_one_violation(rules: Seq<RuleView>, text: Seq<char>, j: int)
    requires
        0 <= j < rules.len(),
        violates(rules[j].check, text),
        forall|k: int|
            0 <= k < rules.len() && k != j ==> !violates((#[trigger] rules[k]).check, text),
    ensures
        violations(rules, text) == seq![rules[j].message],
    decreases rules.len(),
{
    if j == rules.len() - 1 {
        lemma_no_violations(rules.drop_last(), text);
        assert(Seq::<Seq<char>>::empty().push(rules[j].message) =~= seq![rules[j].message]);
    } else {
        lemma_one_violation(rules.drop_last(), text, j);
    }
}

proof fn lemma_messages_of_concat(
    a: Seq<(Seq<char>, Seq<char>)>,
    b: Seq<(Seq<char>, Seq<char>)>,
    field: Seq<char>,
)
    ensures
        messages_of(a + b, field) == messages_of(a, field) + messages_of(b, field),
    decreases b.len(),
{
    if b.len() == 0 {
        assert(a + b =~= a);
        assert(messages_of(a, field) + messages_of(b, field) =~= messages_of(a, field));
    } else {
        lemma_messages_of_concat(a, b.drop_last(), field);
        assert((a + b).drop_last() =~= a + b.drop_last());
        assert((a + b).last() == b.last());
        if b.last().0 == field {
            assert(messages_of(a, field) + messages_of(b.drop_last(), field).push(b.last().1)
                =~= (messages_of(a, field) + messages_of(b.drop_last(), field)).push(b.last().1));
        }
    }
}

proof fn lemma_messages_of_row(row: FieldRulesView, text: Seq<char>, field: Seq<char>)
    ensures
        messages_of(row_errors(row, text), field) == if row.field == field && !exempt(row, text) {
            violations(row.rules, text)
        } else {
            Seq::empty()
        },
{
    if !exempt(row, text) {
        lemma_messages_of_stamped(violations(row.rules, text), row.field, field);
    }
}

proof fn lemma_messages_of_stamped(messages: Seq<Seq<char>>, owner: Seq<char>, field: Seq<char>)
    ensures
        messages_of(messages.map_values(|message: Seq<char>| (owner, message)), field) == if owner
            == field {
            messages
        } else {
            Seq::empty()
        },
    decreases messages.len(),
{
    let stamped = messages.map_values(|message: Seq<char>| (owner, message));
    if messages.len() > 0 {
        lemma_messages_of_stamped(messages.drop_last(), owner, field);
        assert(stamped.drop_last() =~= messages.drop_last().map_values(
            |message: Seq<char>| (owner, message),
        ));
        if owner == field {
            assert(messages.drop_last().push(messages.last()) =~= messages);
        }
    }
}

/// A form that passes every row of the table yields the empty error set.
pub proof fn lemma_valid_form_has_no_errors(
    table: Seq<FieldRulesView>,
    values: Seq<FieldValueView>,
)
    requires
        forall|i: int|
            0 <= i < table.len() ==> row_passes(
                #[trigger] table[i],
                submitted(values, table[i].field),
            ),
    ensures
        validation_result(table, values).is_empty(),
        validation_result(table, values) == FormErrorsView::empty(),
    decreases table.len(),
{
    if table.len() > 0 {
        let row = table.last();
        let text = submitted(values, row.field);
        assert(row_passes(row, text));
        assert forall|i: int| 0 <= i < table.drop_last().len() implies row_passes(
            #[trigger] table.drop_last()[i],
            submitted(values, table.drop_last()[i].field),
        ) by {
            assert(table.drop_last()[i] == table[i]);
        }
        lemma_valid_form_has_no_errors(table.drop_last(), values);
        if !exempt(row, text) {
            lemma_no_violations(row.rules, text);
        }
        assert(row_errors(row, text) =~= Seq::empty());
    }
    assert(table_errors(table, values) =~= Seq::empty());
}

/// A form that fails exactly one rule of one field, and passes everything
/// else, yields exactly that rule's message against that field.
pub proof fn lemma_one_failure_one_message(
    table: Seq<FieldRulesView>,
    values: Seq<FieldValueView>,
    i: int,
    j: int,
)
    requires
        0 <= i < table.len(),
        0 <= j < table[i].rules.len(),
        !exempt(table[i], submitted(values, table[i].field)),
        violates(table[i].rules[j].check, submitted(values, table[i].field)),
        forall|k: int|
            0 <= k < table[i].rules.len() && k != j ==> !violates(
                (#[trigger] table[i].rules[k]).check,
                submitted(values, table[i].field),
            ),
        forall|r: int|
            0 <= r < table.len() && r != i ==> row_passes(
                #[trigger] table[r],
                submitted(values, table[r].field),
            ),
    ensures
        validation_result(table, values).entries == seq![(table[i].field, table[i].rules[j].message)],
        validation_result(table, values).base == Seq::<Seq<char>>::empty(),
    decreases table.len(),
{
    let row = table.last();
    let text = submitted(values, row.field);
    let rest = table.drop_last();
    if i == table.len() - 1 {
        assert forall|r: int| 0 <= r < rest.len() implies row_passes(
            #[trigger] rest[r],
            submitted(values, rest[r].field),
        ) by {
            assert(rest[r] == table[r]);
        }
        lemma_valid_form_has_no_errors(rest, values);
        lemma_one_violation(row.rules, text, j);
        assert(table_errors(table, values) =~= seq![(row.field, row.rules[j].message)]);
    } else {
        assert(rest[i] == table[i]);
        assert forall|r: int| 0 <= r < rest.len() && r != i implies row_passes(
            #[trigger] rest[r],
            submitted(values, rest[r].field),
        ) by {
            assert(rest[r] == table[r]);
        }
        lemma_one_failure_one_message(rest, values, i, j);
        assert(row_passes(row, text));
        if !exempt(row, text) {
            lemma_no_violations(row.rules, text);
        }
        assert(row_errors(row, text) =~= Seq::empty());
        assert(table_errors(table, values) =~= table_errors(rest, values));
    }
}

/// Errors accumulate: the errors under two tables put together are the
/// errors under the first followed by the errors under the second. No row
/// is skipped because an earlier one failed.
pub proof fn lemma_errors_accumulate(
    first: Seq<FieldRulesView>,
    second: Seq<FieldRulesView>,
    values: Seq<FieldValueView>,
)
    ensures
        table_errors(first + second, values) == table_errors(first, values) + table_errors(
            second,
            values,
        ),
    decreases second.len(),
{
    if second.len() == 0 {
        assert(first + second =~= first);
        assert(table_errors(first, values) + table_errors(second, values) =~= table_errors(
            first,
            values,
        ));
    } else {
        lemma_errors_accumulate(first, second.drop_last(), values);
        assert((first + second).drop_last() =~= first + second.drop_last());
        assert((first + second).last() == second.last());
        let tail = row_errors(second.last(), submitted(values, second.last().field));
        assert((table_errors(first, values) + table_errors(second.drop_last(), values)) + tail
            =~= table_errors(first, values) + (table_errors(second.drop_last(), values) + tail));
    }
}

proof fn lemma_unnamed_field_has_no_messages(
    table: Seq<FieldRulesView>,
    values: Seq<FieldValueView>,
    field: Seq<char>,
)
    requires
        forall|r: int| 0 <= r < table.len() ==> (#[trigger] table[r]).field != field,
    ensures
        messages_of(table_errors(table, values), field) == Seq::<Seq<char>>::empty(),
    decreases table.len(),
{
    if table.len() > 0 {
        let row = table.last();
        let rest = table.drop_last();
        assert forall|r: int| 0 <= r < rest.len() implies (#[trigger] rest[r]).field != field by {
            assert(rest[r] == table[r]);
        }
        lemma_unnamed_field_has_no_messages(rest, values, field);
        lemma_messages_of_concat(
            table_errors(rest, values),
            row_errors(row, submitted(values, row.field)),
            field,
        );
        lemma_messages_of_row(row, submitted(values, row.field), field);
    }
}

/// Under a table that names each field once, the messages against a field
/// are exactly those of the rules that the field's own text fails, in the
/// order of the rules; an exempt field has none. What other fields hold
/// plays no part.
pub proof fn lemma_field_messages(
    table: Seq<FieldRulesView>,
    values: Seq<FieldValueView>,
    i: int,
)
    requires
        distinct_fields(table),
        0 <= i < table.len(),
    ensures
        validation_result(table, values).messages(table[i].field) == if exempt(
            table[i],
            submitted(values, table[i].field),
        ) {
            Seq::empty()
        } else {
            violations(table[i].rules, submitted(values, table[i].field))
        },
    decreases table.len(),
{
    let field = table[i].field;
    let row = table.last();
    let rest = table.drop_last();
    let text = submitted(values, row.field);
    lemma_messages_of_concat(table_errors(rest, values), row_errors(row, text), field);
    lemma_messages_of_row(row, text, field);
    if i == table.len() - 1 {
        assert forall|r: int| 0 <= r < rest.len() implies (#[trigger] rest[r]).field != field by {
            assert(rest[r] == table[r]);
            assert(table[r].field != table[i].field);
        }
        lemma_unnamed_field_has_no_messages(rest, values, field);
        assert(Seq::<Seq<char>>::empty() + messages_of(row_errors(row, text), field)
            =~= messages_of(row_errors(row, text), field));
    } else {
        assert(rest[i] == table[i]);
        assert(distinct_fields(rest)) by {
            assert forall|a: int, b: int|
                0 <= a < rest.len() && 0 <= b < rest.len() && a != b implies (#[trigger] rest[a]).field
                != (#[trigger] rest[b]).field by {
                assert(rest[a] == table[a]);
                assert(rest[b] == table[b]);
            }
        }
        lemma_field_messages(rest, values, i);
        assert(table[table.len() - 1].field != table[i].field);
        assert(messages_of(table_errors(rest, values), field) + Seq::<Seq<char>>::empty()
            =~= messages_of(table_errors(rest, values), field));
    }
}

/// The messages against a field depend on the table and on the text
/// submitted under that field, and on nothing else in the form.
pub proof fn lemma_fields_are_independent(
    table: Seq<FieldRulesView>,
    values: Seq<FieldValueView>,
    others: Seq<FieldValueView>,
    field: Seq<char>,
)
    requires
        submitted(values, field) == submitted(others, field),
    ensures
        validation_result(table, values).messages(field) == validation_result(
            table,
            others,
        ).messages(field),
    decreases table.len(),
{
    if table.len() > 0 {
        let row = table.last();
        let rest = table.drop_last();
        lemma_fields_are_independent(rest, values, others, field);
        lemma_messages_of_concat(
            table_errors(rest, values),
            row_errors(row, submitted(values, row.field)),
            field,
        );
        lemma_messages_of_concat(
            table_errors(rest, others),
            row_errors(row, submitted(others, row.field)),
            field,
        );
        lemma_messages_of_row(row, submitted(values, row.field), field);
        lemma_messages_of_row(row, submitted(others, row.field), field);
    }
}

/// A table row with a single rule.
pub fn one_rule(field: &str, optional: bool, check: Check, message: &str) -> (row: FieldRules)
    ensures
        row@ == (FieldRulesView {
            field: field@,
            optional,
            rules: seq![RuleView { check, message: message@ }],
        }),
{
    let mut rules: Vec<Rule> = Vec::new();
    rules.push(Rule { check, message: String::from_str(message) });
    let row = FieldRules { field: String::from_str(field), optional, rules };
    assert(row@.rules =~= seq![RuleView { check, message: message@ }]);
    row
}

/// The errors of a row with one rule: that rule's message when the text
/// fails it and the row is not exempt, else none.
pub proof fn lemma_one_rule_row(row: FieldRulesView, text: Seq<char>)
    requires
        row.rules.len() == 1,
    ensures
        row_errors(row, text) == if !exempt(row, text) && violates(row.rules[0].check, text) {
            seq![(row.field, row.rules[0].message)]
        } else {
            Seq::empty()
        },
{
    reveal_with_fuel(violations, 2);
    assert(row.rules.drop_last() =~= Seq::empty());
    if !exempt(row, text) {
        if violates(row.rules[0].check, text) {
            assert(violations(row.rules, text) =~= seq![row.rules[0].message]);
            assert(row_errors(row, text) =~= seq![(row.field, row.rules[0].message)]);
        } else {
            assert(row_errors(row, text) =~= Seq::empty());
        }
    }
}

/// A form's entry is what the form holds under its name when no earlier
/// entry has that name.
pub proof fn lemma_submitted_at(values: Seq<FieldValueView>, i: int)
    requires
        0 <= i < values.len(),
        forall|k: int| 0 <= k < i ==> (#[trigger] values[k]).field != values[i].field,
    ensures
        submitted(values, values[i].field) == match values[i].value {
            Some(text) => text,
            None => Seq::empty(),
        },
    decreases i,
{
    if i > 0 {
        let rest = values.drop_first();
        assert(rest[i - 1] == values[i]);
        assert forall|k: int| 0 <= k < i - 1 implies (#[trigger] rest[k]).field != rest[i
            - 1].field by {
            assert(rest[k] == values[k + 1]);
        }
        lemma_submitted_at(rest, i - 1);
        assert(values[0].field != values[i].field);
    }
}

/// The errors under a table of three rows: those of the first row, then
/// those of the second, then those of the third.
pub proof fn lemma_three_rows(table: Seq<FieldRulesView>, values: Seq<FieldValueView>)
    requires
        table.len() == 3,
    ensures
        table_errors(table, values) == row_errors(table[0], submitted(values, table[0].field))
            + row_errors(table[1], submitted(values, table[1].field)) + row_errors(
            table[2],
            submitted(values, table[2].field),
        ),
{
    let first = seq![table[0]];
    let second = seq![table[0], table[1]];
    assert(first.drop_last() =~= Seq::empty());
    assert(second.drop_last() =~= first);
    assert(table.drop_last() =~= second);
    assert(table_errors(Seq::empty(), values) =~= Seq::empty());
    assert(first.last() == table[0] && second.last() == table[1] && table.last() == table[2]);
    let r0 = row_errors(table[0], submitted(values, table[0].field));
    let r1 = row_errors(table[1], submitted(values, table[1].field));
    let r2 = row_errors(table[2], submitted(values, table[2].field));
    assert(table_errors(first, values) =~= r0);
    assert(table_errors(second, values) =~= r0 + r1);
    assert(table_errors(table, values) =~= r0 + r1 + r2);
}

} // verus!
