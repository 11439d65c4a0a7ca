//! The set of errors found in a submitted form.

use vstd::prelude::*;

verus! {

/// One message recorded against one field.
pub struct FieldError {
    pub field: String,
    pub message: String,
}

/// The errors found in a form: messages keyed by field name, each field's in
/// the order they were found, and messages about the form as a whole. A form
/// is good exactly when this set is empty; there is no separate flag.
pub struct FormErrors {
    fields: Vec<FieldError>,
    base: Vec<String>,
}

/// The mathematical content of a [`FormErrors`].
pub struct FormErrorsView {
    /// Every field-level error as (field, message), in the order recorded.
    pub entries: Seq<(Seq<char>, Seq<char>)>,
    /// The form-level messages, in the order recorded.
    pub base: Seq<Seq<char>>,
}

/// The messages that `entries` holds for `field`, in their order.
pub open spec fn messages_of(entries: Seq<(Seq<char>, Seq<char>)>, field: Seq<char>) -> Seq<
    Seq<char>,
>
    decreases entries.len(),
{
    if entries.len() == 0 {
        Seq::empty()
    } else {
        let earlier = messages_of(entries.drop_last(), field);
        if entries.last().0 == field {
            earlier.push(entries.last().1)
        } else {
            earlier
        }
    }
}

impl FormErrorsView {
    /// The set with no errors.
    pub open spec fn empty() -> FormErrorsView {
        FormErrorsView { entries: Seq::empty(), base: Seq::empty() }
    }

    /// True when the set holds no error of either kind.
    pub open spec fn is_empty(self) -> bool {
        self.entries.len() == 0 && self.base.len() == 0
    }

    /// The messages recorded against `field`, in order.
    pub open spec fn messages(self, field: Seq<char>) -> Seq<Seq<char>> {
        messages_of(self.entries, field)
    }

    /// The set as a mapping from each field that has errors to its messages.
    pub open spec fn by_field(self) -> Map<Seq<char>, Seq<Seq<char>>> {
        Map::new(
            |field: Seq<char>| self.messages(field).len() > 0,
            |field: Seq<char>| self.messages(field),
        )
    }

    /// The set after one more message against `field`.
    pub open spec fn add(self, field: Seq<char>, message: Seq<char>) -> FormErrorsView {
        FormErrorsView { entries: self.entries.push((field, message)), base: self.base }
    }

    /// The set after one more form-level message.
    pub open spec fn add_base(self, message: Seq<char>) -> FormErrorsView {
        FormErrorsView { entries: self.entries, base: self.base.push(message) }
    }
}

/// A field error as a pair of texts.
pub open spec fn entry_view(e: FieldError) -> (Seq<char>, Seq<char>) {
    (e.field@, e.message@)
}

/// Each text of a list of strings.
pub open spec fn texts(list: Seq<String>) -> Seq<Seq<char>> {
    list.map_values(|s: String| s@)
}

impl View for FormErrors {
    type V = FormErrorsView;

    closed spec fn view(&self) -> FormErrorsView {
        FormErrorsView {
            entries: self.fields@.map_values(|e: FieldError| entry_view(e)),
            base: texts(self.base@),
        }
    }
}

impl FormErrors {
    /// A set with no errors.
    pub fn new() -> (errors: FormErrors)
        ensures
            errors@ == FormErrorsView::empty(),
    {
        let errors = FormErrors { fields: Vec::new(), base: Vec::new() };
        assert(errors@.entries =~= Seq::empty());
        assert(errors@.base =~= Seq::empty());
        errors
    }

    /// True when no error of either kind has been recorded.
    pub fn is_empty(&self) -> (empty: bool)
        ensures
            empty == self@.is_empty(),
    {
        self.fields.len() == 0 && self.base.len() == 0
    }

    /// Records `message` against `field`, after those already recorded.
    pub fn add(&mut self, field: &str, message: &str)
        ensures
            final(self)@ == old(self)@.add(field@, message@),
    {
        let entry = FieldError { field: String::from_str(field), message: String::from_str(message) };
        self.fields.push(entry);
        assert(self@.entries =~= old(self)@.entries.push((field@, message@)));
    }

    /// Records a message about the form as a whole.
    pub fn add_base(&mut self, message: &str)
        ensures
            final(self)@ == old(self)@.add_base(message@),
    {
        self.base.push(String::from_str(message));
        assert(self@.base =~= old(self)@.base.push(message@));
    }

    /// True when at least one message is recorded against `field`.
    pub fn has(&self, field: &str) -> (found: bool)
        ensures
            found == (self@.messages(field@).len() > 0),
    {
        self.get(field).len() > 0
    }

    /// The messages recorded against `field`, in the order recorded.
    pub fn get(&self, field: &str) -> (messages: Vec<String>)
        ensures
            texts(messages@) == self@.messages(field@),
    {
        let wanted = String::from_str(field);
        let mut messages: Vec<String> = Vec::new();
        let mut i: usize = 0;
        assert(self@.entries.take(0) =~= Seq::empty());
        assert(texts(messages@) =~= Seq::empty());
        while i < self.fields.len()
            invariant
                i <= self.fields.len(),
                wanted@ == field@,
                texts(messages@) == messages_of(self@.entries.take(i as int), field@),
            decreases self.fields.len() - i,
        {
            let ghost before = messages@;
            assert(self@.entries.take(i + 1).drop_last() =~= self@.entries.take(i as int));
            assert(self@.entries.take(i + 1).last() == entry_view(self.fields@[i as int]));
            if self.fields[i].field == wanted {
                messages.push(self.fields[i].message.clone());
                assert(texts(messages@) =~= texts(before).push(self.fields@[i as int].message@));
            }
            i += 1;
        }
        assert(self@.entries.take(i as int) =~= self@.entries);
        messages
    }

    /// The form-level messages, in the order recorded.
    pub fn base(&self) -> (messages: &Vec<String>)
        ensures
            texts(messages@) == self@.base,
    {
        &self.base
    }

    /// Every field-level error, in the order recorded.
    pub fn entries(&self) -> (list: &Vec<FieldError>)
        ensures
            list@.map_values(|e: FieldError| entry_view(e)) == self@.entries,
    {
        &self.fields
    }
}

/// Recording a message against a field adds it to that field's messages and
/// leaves every other field's as they were.
pub proof fn lemma_add_touches_one_field(
    errors: FormErrorsView,
    field: Seq<char>,
    message: Seq<char>,
    other: Seq<char>,
)
    ensures
        errors.add(field, message).messages(field) == errors.messages(field).push(message),
        other != field ==> errors.add(field, message).messages(other) == errors.messages(other),
        errors.add(field, message).base == errors.base,
        !errors.add(field, message).is_empty(),
{
    assert(errors.entries.push((field, message)).drop_last() =~= errors.entries);
}

/// A form-level message leaves every field's messages as they were.
pub proof fn lemma_add_base_touches_no_field(
    errors: FormErrorsView,
    message: Seq<char>,
    field: Seq<char>,
)
    ensures
        errors.add_base(message).messages(field) == errors.messages(field),
        errors.add_base(message).base == errors.base.push(message),
        !errors.add_base(message).is_empty(),
{
}

/// An empty set holds no message for any field.
pub proof fn lemma_empty_has_no_messages(field: Seq<char>)
    ensures
        FormErrorsView::empty().messages(field) == Seq::<Seq<char>>::empty(),
        FormErrorsView::empty().by_field() == Map::<Seq<char>, Seq<Seq<char>>>::empty(),
{
    assert(FormErrorsView::empty().by_field() =~= Map::<Seq<char>, Seq<Seq<char>>>::empty());
}

} // verus!
