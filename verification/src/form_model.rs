//! The form's field list as a mathematical value, and what holds of adding
//! and removing fields.

use vstd::prelude::*;

verus! {

/// One text field: its identifier and its current text.
pub struct FieldModel {
    pub id: nat,
    pub value: Seq<char>,
}

/// The field list in display order, and the identifier that the next new
/// field gets.
pub struct FormModel {
    pub fields: Seq<FieldModel>,
    pub next_id: nat,
}

impl FormModel {
    /// A form as it starts: one empty field with identifier 0.
    pub open spec fn initial() -> FormModel {
        FormModel { fields: seq![FieldModel { id: 0, value: Seq::empty() }], next_id: 1 }
    }

    /// Identifiers grow along the list, and every one has been handed out
    /// already: none occurs twice and none will be given again.
    pub open spec fn valid(self) -> bool {
        &&& forall|i: int, j: int|
            0 <= i < j < self.fields.len() ==> self.fields[i].id < self.fields[j].id
        &&& forall|i: int| 0 <= i < self.fields.len() ==> self.fields[i].id < self.next_id
    }

    /// Does a field with identifier `id` exist?
    pub open spec fn has(self, id: nat) -> bool {
        exists|i: int| 0 <= i < self.fields.len() && self.fields[i].id == id
    }

    /// The form with a new empty field at the end.
    pub open spec fn add_field(self) -> FormModel {
        FormModel {
            fields: self.fields.push(FieldModel { id: self.next_id, value: Seq::empty() }),
            next_id: self.next_id + 1,
        }
    }

    /// The form after `count` new fields.
    pub open spec fn add_fields(self, count: nat) -> FormModel
        decreases count,
    {
        if count == 0 {
            self
        } else {
            self.add_fields((count - 1) as nat).add_field()
        }
    }

    /// The form without the fields whose identifier is `id`.
    pub open spec fn remove_field(self, id: nat) -> FormModel {
        FormModel { fields: self.fields.filter(|field: FieldModel| field.id != id), ..self }
    }

    /// The form with `value` as the text of the fields whose identifier is
    /// `id`.
    pub open spec fn set_value(self, id: nat, value: Seq<char>) -> FormModel {
        FormModel {
            fields: self.fields.map_values(
                |field: FieldModel|
                    if field.id == id {
                        FieldModel { id, value }
                    } else {
                        field
                    },
            ),
            ..self
        }
    }

    /// The identifiers in display order.
    pub open spec fn ids(self) -> Seq<nat> {
        self.fields.map_values(|field: FieldModel| field.id)
    }

    /// The texts in display order.
    pub open spec fn values(self) -> Seq<Seq<char>> {
        self.fields.map_values(|field: FieldModel| field.value)
    }
}

/// Removing an identifier that no field has changes nothing.
pub proof fn lemma_remove_absent(form: FormModel, id: nat)
    requires
        !form.has(id),
    ensures
        form.remove_field(id) == form,
{
    let keep = |field: FieldModel| field.id != id;
    lemma_filter_all(form.fields, keep);
}

/// In a valid form, removing the identifier of the field at `index` deletes
/// that one field: the others stay, in their order.
pub proof fn lemma_remove_present(form: FormModel, index: int)
    requires
        form.valid(),
        0 <= index < form.fields.len(),
    ensures
        form.remove_field(form.fields[index].id).fields == form.fields.remove(index),
        form.remove_field(form.fields[index].id).next_id == form.next_id,
        form.remove_field(form.fields[index].id).valid(),
{
    let id = form.fields[index].id;
    let keep = |field: FieldModel| field.id != id;
    assert forall|i: int| 0 <= i < form.fields.len() && i != index implies keep(
        #[trigger] form.fields[i],
    ) by {
        if i < index {
            assert(form.fields[i].id < form.fields[index].id);
        } else {
            assert(form.fields[index].id < form.fields[i].id);
        }
    }
    lemma_filter_one_out(form.fields, keep, index);
    lemma_remove_keeps_valid(form, index);
}

/// Removing an identifier from a valid form leaves a valid form without
/// that identifier: one field fewer where a field had it, the same form
/// where none had.
pub proof fn lemma_remove_field(form: FormModel, id: nat)
    requires
        form.valid(),
    ensures
        form.remove_field(id).valid(),
        !form.remove_field(id).has(id),
        form.has(id) ==> form.remove_field(id).fields.len() == form.fields.len() - 1,
        !form.has(id) ==> form.remove_field(id) == form,
{
    if form.has(id) {
        let index = choose|i: int| 0 <= i < form.fields.len() && form.fields[i].id == id;
        lemma_remove_present(form, index);
        let left = form.fields.remove(index);
        assert forall|i: int| 0 <= i < left.len() implies left[i].id != id by {
            if i < index {
                assert(left[i] == form.fields[i]);
                assert(form.fields[i].id < form.fields[index].id);
            } else {
                assert(left[i] == form.fields[i + 1]);
                assert(form.fields[index].id < form.fields[i + 1].id);
            }
        }
    } else {
        lemma_remove_absent(form, id);
    }
}

/// Taking one field out of a valid form leaves a valid form.
proof fn lemma_remove_keeps_valid(form: FormModel, index: int)
    requires
        form.valid(),
        0 <= index < form.fields.len(),
    ensures
        (FormModel { fields: form.fields.remove(index), ..form }).valid(),
{
    let left = form.fields.remove(index);
    assert forall|i: int, j: int| 0 <= i < j < left.len() implies left[i].id < left[j].id by {
        let from_i = if i < index { i } else { i + 1 };
        let from_j = if j < index { j } else { j + 1 };
        assert(left[i] == form.fields[from_i]);
        assert(left[j] == form.fields[from_j]);
    }
    assert forall|i: int| 0 <= i < left.len() implies left[i].id < form.next_id by {
        let from_i = if i < index { i } else { i + 1 };
        assert(left[i] == form.fields[from_i]);
    }
}

/// Identifiers are not used twice: no field has the identifier that the next
/// new field gets, and removing fields does not bring an identifier back.
pub proof fn lemma_identifiers_are_fresh(form: FormModel, id: nat)
    requires
        form.valid(),
    ensures
        !form.has(form.next_id),
        form.remove_field(id).next_id == form.next_id,
        form.add_field().next_id > form.next_id,
{
}

/// A new text changes neither the identifiers nor their order, and no text
/// but that of the field it is meant for.
pub proof fn lemma_set_value_keeps_fields(form: FormModel, id: nat, value: Seq<char>)
    requires
        form.valid(),
    ensures
        form.set_value(id, value).valid(),
        form.set_value(id, value).ids() == form.ids(),
        forall|i: int|
            0 <= i < form.fields.len() ==> #[trigger] form.set_value(id, value).values()[i] == (
            if form.fields[i].id == id {
                value
            } else {
                form.fields[i].value
            }),
        !form.has(id) ==> form.set_value(id, value) == form,
{
    let changed = form.set_value(id, value);
    assert(changed.ids() =~= form.ids());
    assert forall|i: int, j: int| 0 <= i < j < changed.fields.len() implies changed.fields[i].id
        < changed.fields[j].id by {
        assert(changed.fields[i].id == form.fields[i].id);
        assert(changed.fields[j].id == form.fields[j].id);
    }
    assert forall|i: int| 0 <= i < changed.fields.len() implies changed.fields[i].id
        < changed.next_id by {
        assert(changed.fields[i].id == form.fields[i].id);
    }
    if !form.has(id) {
        assert(changed.fields =~= form.fields);
    }
}

/// A new field keeps a valid form valid.
pub proof fn lemma_add_field_valid(form: FormModel)
    requires
        form.valid(),
    ensures
        form.add_field().valid(),
{
    let added = form.add_field().fields;
    assert forall|i: int, j: int| 0 <= i < j < added.len() implies added[i].id < added[j].id by {
        assert(added[i] == form.fields[i]);
        if j < form.fields.len() {
            assert(added[j] == form.fields[j]);
        }
    }
}

/// Adding a field and then removing it gives the field list back as it was.
pub proof fn lemma_add_then_remove(form: FormModel)
    requires
        form.valid(),
    ensures
        form.add_field().remove_field(form.next_id).fields == form.fields,
{
    let added = form.add_field();
    let last = form.fields.len() as int;
    lemma_add_field_valid(form);
    assert(added.fields[last].id == form.next_id);
    lemma_remove_present(added, last);
    assert(added.fields.remove(last) =~= form.fields);
}

/// What `count` new fields do to a form: they follow the old ones in the
/// order in which they were added, with consecutive identifiers.
pub proof fn lemma_add_fields(form: FormModel, count: nat)
    requires
        form.valid(),
    ensures
        form.add_fields(count).valid(),
        form.add_fields(count).next_id == form.next_id + count,
        form.add_fields(count).fields.len() == form.fields.len() + count,
        form.add_fields(count).fields.take(form.fields.len() as int) == form.fields,
        forall|k: int|
            0 <= k < count ==> #[trigger] form.add_fields(count).fields[form.fields.len() + k]
                == (FieldModel { id: (form.next_id + k) as nat, value: Seq::empty() }),
    decreases count,
{
    if count == 0 {
        assert(form.fields.take(form.fields.len() as int) =~= form.fields);
    } else {
        let earlier = form.add_fields((count - 1) as nat);
        lemma_add_fields(form, (count - 1) as nat);
        let all = earlier.add_field();
        assert(all.fields.take(form.fields.len() as int) =~= earlier.fields.take(
            form.fields.len() as int,
        ));
        assert forall|k: int| 0 <= k < count implies #[trigger] all.fields[form.fields.len() + k]
            == (FieldModel { id: (form.next_id + k) as nat, value: Seq::empty() }) by {
            if k < count - 1 {
                assert(all.fields[form.fields.len() + k] == earlier.fields[form.fields.len() + k]);
            }
        }
    }
}

/// After `count` new fields, removing the one that was added as number
/// `which` (counting from 1) leaves one field fewer, and the list is the
/// list before the removal with that single field taken out.
pub proof fn lemma_add_many_remove_one(form: FormModel, count: nat, which: nat)
    requires
        form.valid(),
        1 <= which <= count,
    ensures
        ({
            let grown = form.add_fields(count);
            let left = grown.remove_field((form.next_id + which - 1) as nat);
            &&& left.fields.len() == form.fields.len() + count - 1
            &&& left.fields == grown.fields.remove(form.fields.len() + which - 1)
            &&& left.valid()
        }),
{
    lemma_add_fields(form, count);
    let grown = form.add_fields(count);
    let index = form.fields.len() + which - 1;
    assert(grown.fields[form.fields.len() + (which - 1)].id == form.next_id + (which - 1));
    lemma_remove_present(grown, index);
}

/// A filter that every element passes keeps the sequence.
proof fn lemma_filter_all<A>(s: Seq<A>, keep: spec_fn(A) -> bool)
    requires
        forall|i: int| 0 <= i < s.len() ==> keep(#[trigger] s[i]),
    ensures
        s.filter(keep) == s,
    decreases s.len(),
{
    reveal(Seq::filter);
    if s.len() > 0 {
        lemma_filter_all(s.drop_last(), keep);
        assert(s.drop_last().push(s.last()) =~= s);
    }
}

/// A filter that only the element at `index` fails removes that element.
proof fn lemma_filter_one_out<A>(s: Seq<A>, keep: spec_fn(A) -> bool, index: int)
    requires
        0 <= index < s.len(),
        !keep(s[index]),
        forall|i: int| 0 <= i < s.len() && i != index ==> keep(#[trigger] s[i]),
    ensures
        s.filter(keep) == s.remove(index),
    decreases s.len(),
{
    reveal(Seq::filter);
    let rest = s.drop_last();
    if index == s.len() - 1 {
        lemma_filter_all(rest, keep);
        assert(s.remove(index) =~= rest);
    } else {
        lemma_filter_one_out(rest, keep, index);
        assert(rest.remove(index).push(s.last()) =~= s.remove(index));
    }
}

} // verus!
