//! The form controller: an ordered list of text fields that grows and
//! shrinks, the request that a submission makes of it, and what the page
//! shows for the response.

use crate::dimension::{dimension_field, parse_dimension, DimensionField};
use crate::endpoint::{QRInfoType, RequestModel};
use crate::form_model::{
    lemma_add_field_valid, lemma_remove_absent, lemma_remove_present, FieldModel, FormModel,
};
use crate::payload::texts;
use vstd::prelude::*;
use vstd::utf8::encode_utf8;

verus! {

/// One text field of the form: its identifier and its current text.
#[derive(Clone, Debug)]
struct Field {
    id: u64,
    value: String,
}

impl View for Field {
    type V = FieldModel;

    closed spec fn view(&self) -> FieldModel {
        FieldModel { id: self.id as nat, value: self.value@ }
    }
}

/// What becomes of a submission.
#[derive(Clone, Debug)]
pub enum Submission {
    /// The request goes to the endpoint.
    Send(QRInfoType),
    /// The form could not be read: nothing is sent.
    Cancel,
}

impl View for Submission {
    type V = Option<RequestModel>;

    open spec fn view(&self) -> Option<RequestModel> {
        match self {
            Submission::Send(request) => Some(request@),
            Submission::Cancel => None,
        }
    }
}

/// The words shown in place of an image after a failure.
pub const FAILURE_NOTICE: &'static str = "Oh nooooo we had an issue! Try again";

/// What the page shows once a response has arrived.
#[derive(Clone, Debug, PartialEq, Eq)]
pub enum Shown {
    /// An image with the given source.
    Image { src: String },
    /// Words in place of an image.
    Notice { text: String },
}

/// What is shown for `response`: the image of the data URL, or the failure
/// notice. The notice is the same whatever the error.
pub fn show_response<E>(response: Result<String, E>) -> (shown: Shown)
    ensures
        match response {
            Ok(url) => shown == (Shown::Image { src: url }),
            Err(_) => shown matches Shown::Notice { text } && text@ == FAILURE_NOTICE@,
        },
{
    match response {
        Ok(url) => Shown::Image { src: url },
        Err(_) => Shown::Notice { text: FAILURE_NOTICE.to_owned() },
    }
}

/// The dimension that a well-formed field asks for.
pub open spec fn pixels_of(field: DimensionField) -> Option<u32> {
    match field {
        DimensionField::Pixels(pixels) => Some(pixels),
        _ => None,
    }
}

/// The request that a form makes when it is submitted with the given bytes
/// in its width and height fields; `None` where one of the two is malformed.
pub open spec fn submission(form: FormModel, width: Seq<u8>, height: Seq<u8>) -> Option<
    RequestModel,
> {
    if dimension_field(width) is Malformed || dimension_field(height) is Malformed {
        None
    } else {
        Some(
            RequestModel {
                contents: form.values(),
                width: pixels_of(dimension_field(width)),
                height: pixels_of(dimension_field(height)),
            },
        )
    }
}

/// The index of the first field with identifier `id`; the number of fields
/// where none has it.
fn position(fields: &Vec<Field>, id: u64) -> (index: usize)
    ensures
        index <= fields@.len(),
        forall|j: int| 0 <= j < index ==> fields@[j].id != id,
        index < fields@.len() ==> fields@[index as int].id == id,
{
    let n: usize = fields.len();
    let mut i: usize = 0;
    while i < n && fields[i].id != id
        invariant
            n == fields@.len(),
            i <= n,
            forall|j: int| 0 <= j < i ==> fields@[j].id != id,
        decreases n - i,
    {
        i = i + 1;
    }
    i
}

/// The fields of the form in display order, and the counter that names new
/// ones. No identifier occurs twice, and none is given a second time.
#[derive(Debug)]
pub struct FormController {
    fields: Vec<Field>,
    next_id: u64,
}

impl View for FormController {
    type V = FormModel;

    closed spec fn view(&self) -> FormModel {
        FormModel {
            fields: self.fields@.map_values(|field: Field| field@),
            next_id: self.next_id as nat,
        }
    }
}

impl Clone for FormController {
    /// A second form with the same fields and the same counter.
    fn clone(&self) -> (copy: Self)
        ensures
            copy@ == self@,
    {
        proof {
            use_type_invariant(self);
        }
        let mut fields: Vec<Field> = Vec::new();
        let n: usize = self.fields.len();
        let mut i: usize = 0;
        while i < n
            invariant
                n == self.fields@.len(),
                i <= n,
                fields@.len() == i,
                forall|j: int| 0 <= j < i ==> fields@[j]@ == self.fields@[j]@,
            decreases n - i,
        {
            fields.push(Field { id: self.fields[i].id, value: self.fields[i].value.clone() });
            i = i + 1;
        }
        assert(fields@.map_values(|field: Field| field@) =~= self@.fields);
        FormController { fields, next_id: self.next_id }
    }
}

impl FormController {
    #[verifier::type_invariant]
    spec fn well_formed(self) -> bool {
        self@.valid()
    }

    /// A form with one empty field.
    pub fn new() -> (form: Self)
        ensures
            form@ == FormModel::initial(),
            form@.valid(),
    {
        let mut fields: Vec<Field> = Vec::new();
        fields.push(Field { id: 0, value: String::new() });
        let form = FormController { fields, next_id: 1 };
        assert(form@.fields =~= FormModel::initial().fields);
        form
    }

    /// The identifier that the next new field gets.
    pub fn next_id(&self) -> (id: u64)
        ensures
            id == self@.next_id,
    {
        self.next_id
    }

    /// The number of fields.
    pub fn len(&self) -> (len: usize)
        ensures
            len == self@.fields.len(),
    {
        self.fields.len()
    }

    /// Appends a new empty field and returns its identifier.
    pub fn add_field(&mut self) -> (id: u64)
        requires
            old(self)@.next_id < u64::MAX,
        ensures
            final(self)@ == old(self)@.add_field(),
            final(self)@.valid(),
            id == old(self)@.next_id,
    {
        proof {
            use_type_invariant(&*self);
            lemma_add_field_valid(self@);
        }
        let id: u64 = self.next_id;
        let mut fields: Vec<Field> = Vec::new();
        std::mem::swap(&mut fields, &mut self.fields);
        fields.push(Field { id, value: String::new() });
        assert(fields@.map_values(|field: Field| field@) =~= old(self)@.add_field().fields);
        *self = FormController { fields, next_id: id + 1 };
        id
    }

    /// Removes the field with identifier `id`, if there is one.
    pub fn remove_field(&mut self, id: u64)
        ensures
            final(self)@ == old(self)@.remove_field(id as nat),
            final(self)@.valid(),
    {
        proof {
            use_type_invariant(&*self);
        }
        let next_id: u64 = self.next_id;
        let mut fields: Vec<Field> = Vec::new();
        std::mem::swap(&mut fields, &mut self.fields);
        let n: usize = fields.len();
        let i: usize = position(&fields, id);
        if i < n {
            proof {
                assert(old(self)@.fields[i as int].id == id);
                lemma_remove_present(old(self)@, i as int);
            }
            let _ = fields.remove(i);
            assert(fields@.map_values(|field: Field| field@) =~= old(self)@.fields.remove(
                i as int,
            ));
        } else {
            proof {
                assert(!old(self)@.has(id as nat));
                lemma_remove_absent(old(self)@, id as nat);
            }
        }
        *self = FormController { fields, next_id };
    }

    /// Gives the field with identifier `id` the text `value`, if there is
    /// such a field.
    pub fn set_value(&mut self, id: u64, value: String)
        ensures
            final(self)@ == old(self)@.set_value(id as nat, value@),
            final(self)@.valid(),
    {
        proof {
            use_type_invariant(&*self);
        }
        let next_id: u64 = self.next_id;
        let mut fields: Vec<Field> = Vec::new();
        std::mem::swap(&mut fields, &mut self.fields);
        let n: usize = fields.len();
        let i: usize = position(&fields, id);
        let ghost text = value@;
        if i < n {
            fields.set(i, Field { id, value });
        }
        proof {
            let before = old(self)@;
            let after = fields@.map_values(|field: Field| field@);
            assert(after.len() == before.fields.len());
            assert forall|j: int| 0 <= j < after.len() implies after[j] == before.set_value(
                id as nat,
                text,
            ).fields[j] by {
                if i < n && j != i {
                    if j < i {
                        assert(before.fields[j].id < before.fields[i as int].id);
                    } else {
                        assert(before.fields[i as int].id < before.fields[j].id);
                    }
                }
            }
            assert(after =~= before.set_value(id as nat, text).fields);
        }
        *self = FormController { fields, next_id };
    }

    /// The identifiers of the fields, in display order.
    pub fn ids(&self) -> (ids: Vec<u64>)
        ensures
            ids@.map_values(|id: u64| id as nat) == self@.ids(),
    {
        let mut ids: Vec<u64> = Vec::new();
        let n: usize = self.fields.len();
        let mut i: usize = 0;
        while i < n
            invariant
                n == self.fields@.len(),
                i <= n,
                ids@.len() == i,
                forall|j: int| 0 <= j < i ==> ids@[j] == self.fields@[j].id,
            decreases n - i,
        {
            ids.push(self.fields[i].id);
            i = i + 1;
        }
        assert(ids@.map_values(|id: u64| id as nat) =~= self@.ids());
        ids
    }

    /// The texts of the fields, in display order.
    pub fn contents(&self) -> (contents: Vec<String>)
        ensures
            texts(contents@) == self@.values(),
    {
        let mut contents: Vec<String> = Vec::new();
        let n: usize = self.fields.len();
        let mut i: usize = 0;
        while i < n
            invariant
                n == self.fields@.len(),
                i <= n,
                contents@.len() == i,
                forall|j: int| 0 <= j < i ==> contents@[j]@ == self.fields@[j].value@,
            decreases n - i,
        {
            contents.push(self.fields[i].value.clone());
            i = i + 1;
        }
        assert(texts(contents@) =~= self@.values());
        contents
    }

    /// Reads the form for submission: the texts in display order, and the
    /// width and height typed into their fields. Where one of the two is
    /// malformed nothing is to be sent.
    pub fn submit(&self, width: &str, height: &str) -> (outcome: Submission)
        ensures
            outcome@ == submission(self@, encode_utf8(width@), encode_utf8(height@)),
    {
        let width: Option<u32> = match parse_dimension(width) {
            DimensionField::Malformed => {
                return Submission::Cancel;
            },
            DimensionField::Pixels(pixels) => Some(pixels),
            DimensionField::Absent => None,
        };
        let height: Option<u32> = match parse_dimension(height) {
            DimensionField::Malformed => {
                return Submission::Cancel;
            },
            DimensionField::Pixels(pixels) => Some(pixels),
            DimensionField::Absent => None,
        };
        Submission::Send(QRInfoType { contents: self.contents(), width, height })
    }
}

} // verus!
