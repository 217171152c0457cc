//! The client-side form-state registry: a mapping from field names to their
//! current value, error text and touched flag, with validators that run when
//! a value is set and on demand over the whole form.
//!
//! Validators are user-supplied rules, given through the `Validator` trait;
//! nothing is assumed of what they return, so the contracts here pin the
//! registry's bookkeeping — which entry each operation touches and what it
//! leaves alone — and say which outcomes a validation round can have.

use vstd::prelude::*;

use crate::models::opt_str_view;

verus! {

/// A user-supplied validation rule for one field.
pub trait Validator {
    /// Check a field value; `Some` carries the error text of a failing
    /// value, `None` passes it.
    fn validate(&self, value: &String) -> Option<String>;
}

/// One field's state: its current value, error text and touched flag.
pub struct FormField {
    pub value: String,
    pub error: Option<String>,
    pub touched: bool,
}

/// The abstract value of a field's state.
pub ghost struct FormFieldView {
    pub value: Seq<char>,
    pub error: Option<Seq<char>>,
    pub touched: bool,
}

impl View for FormField {
    type V = FormFieldView;

    open spec fn view(&self) -> FormFieldView {
        FormFieldView { value: self.value@, error: opt_str_view(self.error), touched: self.touched }
    }
}

/// The state a field has before anything touches it.
pub open spec fn default_field_view() -> FormFieldView {
    FormFieldView { value: Seq::empty(), error: None, touched: false }
}

impl FormField {
    /// An untouched field with an empty value and no error.
    pub fn new() -> (r: FormField)
        ensures
            r@ == default_field_view(),
    {
        FormField { value: String::new(), error: None, touched: false }
    }

    /// An untouched field holding the given value, with no error.
    pub fn with_value(value: String) -> (r: FormField)
        ensures
            r@ == (FormFieldView { value: value@, error: None, touched: false }),
    {
        FormField { value, error: None, touched: false }
    }
}

impl Default for FormField {
    /// An untouched field with an empty value and no error.
    fn default() -> (r: FormField)
        ensures
            r@ == default_field_view(),
    {
        FormField::new()
    }
}

/// Copy a field's state.
fn clone_form_field(f: &FormField) -> (r: FormField)
    ensures
        r@ == f@,
{
    FormField {
        value: f.value.clone(),
        error: crate::models::clone_opt_string(&f.error),
        touched: f.touched,
    }
}

/// Registry entries: each field name with its state.
pub open spec fn entry_has(es: Seq<(Seq<char>, FormFieldView)>, name: Seq<char>) -> bool {
    exists|i: int| 0 <= i < es.len() && (#[trigger] es[i]).0 == name
}

/// The state registered under a name, if any.
pub open spec fn entry_get(es: Seq<(Seq<char>, FormFieldView)>, name: Seq<char>) -> Option<
    FormFieldView,
> {
    if entry_has(es, name) {
        Some(es[choose|i: int| 0 <= i < es.len() && (#[trigger] es[i]).0 == name].1)
    } else {
        None
    }
}

/// No two entries carry the same name.
pub open spec fn entries_unique(es: Seq<(Seq<char>, FormFieldView)>) -> bool {
    forall|i: int, j: int| 0 <= i < j < es.len() ==> (#[trigger] es[i]).0 != (#[trigger] es[j]).0
}

/// In a registry with unique names, lookup under an entry's name finds that
/// entry.
pub proof fn lemma_entry_get_at(es: Seq<(Seq<char>, FormFieldView)>, i: int)
    requires
        entries_unique(es),
        0 <= i < es.len(),
    ensures
        entry_get(es, es[i].0) == Some(es[i].1),
{
    assert(entry_has(es, es[i].0));
    let j = choose|j: int| 0 <= j < es.len() && (#[trigger] es[j]).0 == es[i].0;
    if i != j {
        assert(es[i].0 != es[j].0 || es[j].0 != es[i].0);
    }
}

/// Replacing the state under one name leaves every other name's lookup
/// unchanged.
pub proof fn lemma_entry_get_update(es: Seq<(Seq<char>, FormFieldView)>, i: int, f: FormFieldView)
    requires
        entries_unique(es),
        0 <= i < es.len(),
    ensures
        entries_unique(es.update(i, (es[i].0, f))),
        entry_get(es.update(i, (es[i].0, f)), es[i].0) == Some(f),
        forall|k: Seq<char>|
            k != es[i].0 ==> #[trigger] entry_get(es.update(i, (es[i].0, f)), k) == entry_get(
                es,
                k,
            ),
{
    let es2 = es.update(i, (es[i].0, f));
    assert(entries_unique(es2)) by {
        assert(forall|t: int| 0 <= t < es.len() ==> (#[trigger] es2[t]).0 == es[t].0);
    }
    lemma_entry_get_at(es2, i);
    assert forall|k: Seq<char>| k != es[i].0 implies #[trigger] entry_get(es2, k) == entry_get(
        es,
        k,
    ) by {
        if entry_has(es, k) {
            let t = choose|t: int| 0 <= t < es.len() && (#[trigger] es[t]).0 == k;
            assert(es2[t].0 == k);
            lemma_entry_get_at(es, t);
            lemma_entry_get_at(es2, t);
        } else {
            assert(!entry_has(es2, k)) by {
                assert(forall|t: int| 0 <= t < es2.len() ==> (#[trigger] es2[t]).0 == es[t].0);
            }
        }
    }
}

/// Appending an entry under a fresh name leaves every other name's lookup
/// unchanged.
pub proof fn lemma_entry_get_push(
    es: Seq<(Seq<char>, FormFieldView)>,
    name: Seq<char>,
    f: FormFieldView,
)
    requires
        entries_unique(es),
        !entry_has(es, name),
    ensures
        entries_unique(es.push((name, f))),
        entry_get(es.push((name, f)), name) == Some(f),
        forall|k: Seq<char>|
            k != name ==> #[trigger] entry_get(es.push((name, f)), k) == entry_get(es, k),
{
    let es2 = es.push((name, f));
    assert(entries_unique(es2)) by {
        assert forall|i: int, j: int| 0 <= i < j < es2.len() implies (#[trigger] es2[i]).0
            != (#[trigger] es2[j]).0 by {
            if j == es.len() {
                assert(es2[i].0 == es[i].0);
                if es[i].0 == name {
                    assert(entry_has(es, name));
                }
            }
        }
    }
    lemma_entry_get_at(es2, es.len() as int);
    assert forall|k: Seq<char>| k != name implies #[trigger] entry_get(es2, k) == entry_get(
        es,
        k,
    ) by {
        if entry_has(es, k) {
            let t = choose|t: int| 0 <= t < es.len() && (#[trigger] es[t]).0 == k;
            assert(es2[t].0 == k);
            lemma_entry_get_at(es, t);
            lemma_entry_get_at(es2, t);
        } else {
            assert(!entry_has(es2, k)) by {
                assert(forall|t: int| 0 <= t < es.len() ==> (#[trigger] es2[t]).0 == es[t].0);
                assert(es2[es.len() as int].0 == name);
            }
        }
    }
}

/// The form registry: field states, and the validators registered by name.
pub struct FormState<V: Validator> {
    pub fields: Vec<(String, FormField)>,
    pub validators: Vec<(String, V)>,
}

impl<V: Validator> FormState<V> {
    /// The abstract field entries, in registration order.
    pub open spec fn field_entries(self) -> Seq<(Seq<char>, FormFieldView)> {
        self.fields@.map_values(|p: (String, FormField)| (p.0@, p.1@))
    }

    /// The names the validators are registered under, in order.
    pub open spec fn validator_names(self) -> Seq<Seq<char>> {
        self.validators@.map_values(|p: (String, V)| p.0@)
    }

    /// Field names and validator names are each unique.
    pub open spec fn wf(self) -> bool {
        &&& entries_unique(self.field_entries())
        &&& forall|i: int, j: int|
            0 <= i < j < self.validator_names().len() ==> self.validator_names()[i]
                != self.validator_names()[j]
    }

    /// The state registered under a field name, if any.
    pub open spec fn spec_get(self, name: Seq<char>) -> Option<FormFieldView> {
        entry_get(self.field_entries(), name)
    }

    /// The state registered under a field name, or the untouched default.
    pub open spec fn spec_get_or_default(self, name: Seq<char>) -> FormFieldView {
        match self.spec_get(name) {
            Some(f) => f,
            None => default_field_view(),
        }
    }

    /// Whether a validator is registered under a name.
    pub open spec fn has_validator(self, name: Seq<char>) -> bool {
        exists|i: int| 0 <= i < self.validator_names().len() && self.validator_names()[i] == name
    }

    /// A form with no fields and no validators.
    pub fn new() -> (r: FormState<V>)
        ensures
            r.wf(),
            r.field_entries() == Seq::<(Seq<char>, FormFieldView)>::empty(),
            r.validators@ == Seq::<(String, V)>::empty(),
    {
        let r = FormState { fields: Vec::new(), validators: Vec::new() };
        proof {
            assert(r.field_entries() =~= Seq::<(Seq<char>, FormFieldView)>::empty());
        }
        r
    }

    /// A form with no fields and the given validators, registered each under
    /// its own name.
    pub fn with_validators(validators: Vec<(String, V)>) -> (r: FormState<V>)
        requires
            forall|i: int, j: int|
                0 <= i < j < validators@.len() ==> (#[trigger] validators@[i]).0@
                    != (#[trigger] validators@[j]).0@,
        ensures
            r.wf(),
            r.field_entries() == Seq::<(Seq<char>, FormFieldView)>::empty(),
            r.validators == validators,
    {
        let r = FormState { fields: Vec::new(), validators };
        proof {
            assert(r.field_entries() =~= Seq::<(Seq<char>, FormFieldView)>::empty());
        }
        r
    }

    /// The index of a field's entry, if one is registered under the name.
    fn find_field_index(&self, name: &str) -> (r: Option<usize>)
        requires
            self.wf(),
        ensures
            match r {
                Some(i) => i < self.field_entries().len() && self.field_entries()[i as int].0
                    == name@ && self.spec_get(name@) == Some(self.field_entries()[i as int].1),
                None => self.spec_get(name@) is None,
            },
    {
        let mut i: usize = 0;
        while i < self.fields.len()
            invariant
                self.wf(),
                i <= self.fields.len(),
                forall|j: int| 0 <= j < i ==> (#[trigger] self.field_entries()[j]).0 != name@,
            decreases self.fields.len() - i,
        {
            if crate::codec::str_eq(self.fields[i].0.as_str(), name) {
                proof {
                    lemma_entry_get_at(self.field_entries(), i as int);
                }
                return Some(i);
            }
            i = i + 1;
        }
        proof {
            assert(!entry_has(self.field_entries(), name@));
        }
        None
    }

    /// The index of the validator registered under a name, if any.
    fn find_validator_index(&self, name: &str) -> (r: Option<usize>)
        ensures
            match r {
                Some(i) => i < self.validator_names().len() && self.validator_names()[i as int]
                    == name@,
                None => !self.has_validator(name@),
            },
    {
        let mut i: usize = 0;
        while i < self.validators.len()
            invariant
                i <= self.validators.len(),
                forall|j: int| 0 <= j < i ==> #[trigger] self.validator_names()[j] != name@,
            decreases self.validators.len() - i,
        {
            if crate::codec::str_eq(self.validators[i].0.as_str(), name) {
                return Some(i);
            }
            i = i + 1;
        }
        None
    }

    /// Register a state under a name, replacing the state already there or
    /// appending a fresh entry.
    fn put(&mut self, name: &str, f: FormField)
        requires
            old(self).wf(),
            old(self).fields@.len() < usize::MAX,
        ensures
            final(self).wf(),
            final(self).validators == old(self).validators,
            final(self).spec_get(name@) == Some(f@),
            final(self).field_entries().len() <= old(self).field_entries().len() + 1,
            forall|k: Seq<char>|
                k != name@ ==> #[trigger] final(self).spec_get(k) == old(self).spec_get(k),
    {
        let ghost es = self.field_entries();
        let ghost fv = f@;
        match self.find_field_index(name) {
            Some(i) => {
                let key = self.fields[i].0.clone();
                self.fields[i] = (key, f);
                proof {
                    assert(self.field_entries() =~= es.update(i as int, (es[i as int].0, fv)));
                    lemma_entry_get_update(es, i as int, fv);
                }
            },
            None => {
                self.fields.push((name.to_owned(), f));
                proof {
                    assert(self.field_entries() =~= es.push((name@, fv)));
                    lemma_entry_get_push(es, name@, fv);
                }
            },
        }
        proof {
            assert(self.validator_names() == old(self).validator_names());
        }
    }

    /// The state of a field: the registered one, or the untouched default
    /// for a name nothing has registered.
    pub fn get_field(&self, name: &str) -> (r: FormField)
        requires
            self.wf(),
        ensures
            r@ == self.spec_get_or_default(name@),
    {
        match self.find_field_index(name) {
            Some(i) => clone_form_field(&self.fields[i].1),
            None => FormField::new(),
        }
    }

    /// A field's current value; empty for a name nothing has registered.
    pub fn get_value(&self, name: &str) -> (r: String)
        requires
            self.wf(),
        ensures
            r@ == self.spec_get_or_default(name@).value,
    {
        self.get_field(name).value
    }

    /// A field's current error text, if any.
    pub fn get_error(&self, name: &str) -> (r: Option<String>)
        requires
            self.wf(),
        ensures
            opt_str_view(r) == self.spec_get_or_default(name@).error,
    {
        self.get_field(name).error
    }

    /// Set a field's value and mark it touched. Where a validator is
    /// registered under the name it re-runs on the new value and its answer
    /// becomes the field's error; elsewhere the error is kept as it was.
    pub fn set_value(&mut self, name: &str, value: String)
        requires
            old(self).wf(),
            old(self).fields@.len() < usize::MAX,
        ensures
            final(self).wf(),
            final(self).validators == old(self).validators,
            final(self).spec_get(name@) is Some,
            final(self).spec_get(name@)->Some_0.value == value@,
            final(self).spec_get(name@)->Some_0.touched,
            !old(self).has_validator(name@) ==> final(self).spec_get(name@)->Some_0.error == old(
                self,
            ).spec_get_or_default(name@).error,
            forall|k: Seq<char>|
                k != name@ ==> #[trigger] final(self).spec_get(k) == old(self).spec_get(k),
    {
        let vidx = self.find_validator_index(name);
        let mut f: FormField = match self.find_field_index(name) {
            Some(i) => clone_form_field(&self.fields[i].1),
            None => FormField::new(),
        };
        f.value = value;
        f.touched = true;
        if let Some(vi) = vidx {
            f.error = self.validators[vi].1.validate(&f.value);
        }
        self.put(name, f);
    }

    /// Set a field's error text explicitly, leaving its value and touched
    /// flag as they were.
    pub fn set_error(&mut self, name: &str, error: Option<String>)
        requires
            old(self).wf(),
            old(self).fields@.len() < usize::MAX,
        ensures
            final(self).wf(),
            final(self).validators == old(self).validators,
            final(self).spec_get(name@) == Some(
                FormFieldView {
                    error: opt_str_view(error),
                    ..old(self).spec_get_or_default(name@)
                },
            ),
            forall|k: Seq<char>|
                k != name@ ==> #[trigger] final(self).spec_get(k) == old(self).spec_get(k),
    {
        let mut f: FormField = match self.find_field_index(name) {
            Some(i) => clone_form_field(&self.fields[i].1),
            None => FormField::new(),
        };
        f.error = error;
        self.put(name, f);
    }

    /// Run every registered validator on its field's current value — the
    /// untouched default for a name nothing has registered — recording each
    /// failure as that field's error, and answer whether all passed.
    ///
    /// A passing round changes nothing, even where stale errors sit; a
    /// failing round leaves some validated field carrying an error. No
    /// field's value or touched flag changes; a failing validator whose
    /// field was missing registers it with an empty, untouched state.
    pub fn validate_all(&mut self) -> (ok: bool)
        requires
            old(self).wf(),
            old(self).fields@.len() + old(self).validators@.len() < usize::MAX,
        ensures
            final(self).wf(),
            final(self).validators == old(self).validators,
            ok ==> final(self).field_entries() == old(self).field_entries(),
            !ok ==> exists|k: int|
                0 <= k < final(self).validator_names().len() && ((#[trigger] final(self).spec_get(
                    final(self).validator_names()[k],
                )) matches Some(f) && f.error is Some),
            forall|k: Seq<char>|
                match old(self).spec_get(k) {
                    Some(f) => (#[trigger] final(self).spec_get(k)) matches Some(g) && g.value
                        == f.value && g.touched == f.touched,
                    None => final(self).spec_get(k) is None || (final(self).spec_get(
                        k,
                    ) matches Some(g) && g.value == Seq::<char>::empty() && !g.touched
                        && g.error is Some),
                },
            forall|k: Seq<char>|
                !final(self).validator_names().contains(k) ==> #[trigger] final(self).spec_get(k)
                    == old(self).spec_get(k),
    {
        let mut all_valid = true;
        let mut vi: usize = 0;
        while vi < self.validators.len()
            invariant
                self.wf(),
                self.validators == old(self).validators,
                self.fields@.len() <= old(self).fields@.len() + vi,
                old(self).fields@.len() + old(self).validators@.len() < usize::MAX,
                vi <= self.validators@.len(),
                all_valid ==> self.field_entries() == old(self).field_entries(),
                !all_valid ==> exists|k: int|
                    0 <= k < vi && ((#[trigger] self.spec_get(
                        self.validator_names()[k],
                    )) matches Some(f) && f.error is Some),
                forall|k: Seq<char>|
                    match old(self).spec_get(k) {
                        Some(f) => (#[trigger] self.spec_get(k)) matches Some(g) && g.value
                            == f.value && g.touched == f.touched,
                        None => self.spec_get(k) is None || (self.spec_get(
                            k,
                        ) matches Some(g) && g.value == Seq::<char>::empty() && !g.touched
                            && g.error is Some),
                    },
                forall|k: Seq<char>|
                    !self.validator_names().contains(k) ==> #[trigger] self.spec_get(k) == old(
                        self,
                    ).spec_get(k),
            decreases self.validators@.len() - vi,
        {
            let name_owned = self.validators[vi].0.clone();
            let name: &str = name_owned.as_str();
            let field: FormField = match self.find_field_index(name) {
                Some(i) => clone_form_field(&self.fields[i].1),
                None => FormField::new(),
            };
            let verdict = self.validators[vi].1.validate(&field.value);
            if let Some(err) = verdict {
                let mut updated = field;
                updated.error = Some(err);
                proof {
                    assert(self.validator_names()[vi as int] == name_owned@);
                    assert(self.validator_names().contains(name_owned@));
                }
                self.put(name, updated);
                all_valid = false;
                proof {
                    assert(self.spec_get(self.validator_names()[vi as int]) matches Some(f)
                        && f.error is Some);
                }
            }
            vi = vi + 1;
        }
        all_valid
    }

    /// Drop every field, keeping the registered validators.
    pub fn reset(&mut self)
        requires
            old(self).wf(),
        ensures
            final(self).wf(),
            final(self).validators == old(self).validators,
            final(self).field_entries() == Seq::<(Seq<char>, FormFieldView)>::empty(),
    {
        self.fields = Vec::new();
        proof {
            assert(self.field_entries() =~= Seq::<(Seq<char>, FormFieldView)>::empty());
            assert(self.validator_names() == old(self).validator_names());
        }
    }

    /// Whether any field currently carries an error.
    pub fn has_errors(&self) -> (r: bool)
        requires
            self.wf(),
        ensures
            r == exists|i: int|
                0 <= i < self.field_entries().len() && (#[trigger] self.field_entries()[i]).1.error
                    is Some,
    {
        let mut i: usize = 0;
        while i < self.fields.len()
            invariant
                i <= self.fields.len(),
                forall|j: int| 0 <= j < i ==> (#[trigger] self.field_entries()[j]).1.error is None,
            decreases self.fields.len() - i,
        {
            if self.fields[i].1.error.is_some() {
                proof {
                    assert(self.field_entries()[i as int].1.error is Some);
                }
                return true;
            }
            i = i + 1;
        }
        false
    }

    /// Whether a field currently carries no error; a name nothing has
    /// registered is valid.
    pub fn is_field_valid(&self, name: &str) -> (r: bool)
        requires
            self.wf(),
        ensures
            r == (self.spec_get_or_default(name@).error is None),
    {
        self.get_field(name).error.is_none()
    }
}

} // verus!
