//! The student record, its settable fields, and partial updates of them.

use crate::object_id::StudentId;
use vstd::prelude::*;

verus! {

/// The settable fields of a student, as values.
pub struct StudentFields {
    pub name: Seq<char>,
    pub age: u8,
    pub subject: Seq<char>,
}

/// A student as values: the identifier's bytes when present, and the fields.
pub struct StudentView {
    pub id: Option<Seq<u8>>,
    pub fields: StudentFields,
}

/// A student. The identifier is absent on a record that is about to be
/// created and present on every record read back from a collection.
#[derive(Debug)]
pub struct Student {
    pub id: Option<StudentId>,
    pub name: String,
    pub age: u8,
    pub subject: String,
}

impl View for Student {
    type V = StudentView;

    open spec fn view(&self) -> StudentView {
        StudentView {
            id: match self.id {
                Some(i) => Some(i@),
                None => None,
            },
            fields: StudentFields { name: self.name@, age: self.age, subject: self.subject@ },
        }
    }
}

impl Student {
    /// A student without an identifier, as a create request carries it.
    pub fn new(name: String, age: u8, subject: String) -> (r: Student)
        ensures
            r@.id is None,
            r@.fields == (StudentFields { name: name@, age, subject: subject@ }),
    {
        Student { id: None, name, age, subject }
    }

    /// A copy of this record.
    pub fn duplicate(&self) -> (r: Student)
        ensures
            r@ == self@,
    {
        Student {
            id: self.id,
            name: self.name.clone(),
            age: self.age,
            subject: self.subject.clone(),
        }
    }

    /// The same fields under the given identifier.
    pub fn with_id(&self, id: StudentId) -> (r: Student)
        ensures
            r@.id == Some(id@),
            r@.fields == self@.fields,
    {
        Student { id: Some(id), name: self.name.clone(), age: self.age, subject: self.subject.clone() }
    }
}

/// A partial-set patch as values: the fields it sets.
pub struct PatchView {
    pub name: Option<Seq<char>>,
    pub age: Option<u8>,
    pub subject: Option<Seq<char>>,
}

/// A partial-set update: each present field replaces the stored one, each
/// absent field is left as it is. The identifier is never touched.
#[derive(Debug)]
pub struct StudentPatch {
    pub name: Option<String>,
    pub age: Option<u8>,
    pub subject: Option<String>,
}

impl View for StudentPatch {
    type V = PatchView;

    open spec fn view(&self) -> PatchView {
        PatchView {
            name: match &self.name {
                Some(n) => Some(n@),
                None => None,
            },
            age: self.age,
            subject: match &self.subject {
                Some(s) => Some(s@),
                None => None,
            },
        }
    }
}

/// The fields after `p` is applied to `f`.
pub open spec fn patched(f: StudentFields, p: PatchView) -> StudentFields {
    StudentFields {
        name: match p.name {
            Some(n) => n,
            None => f.name,
        },
        age: match p.age {
            Some(a) => a,
            None => f.age,
        },
        subject: match p.subject {
            Some(s) => s,
            None => f.subject,
        },
    }
}

/// The patch that sets every field to the given value.
pub open spec fn full_patch(f: StudentFields) -> PatchView {
    PatchView { name: Some(f.name), age: Some(f.age), subject: Some(f.subject) }
}

impl StudentPatch {
    /// The patch that sets all three fields to those of `s`; an update
    /// request body carries a whole student.
    pub fn from_student(s: &Student) -> (r: StudentPatch)
        ensures
            r@ == full_patch(s@.fields),
    {
        StudentPatch {
            name: Some(s.name.clone()),
            age: Some(s.age),
            subject: Some(s.subject.clone()),
        }
    }

    /// The patch that sets the age alone.
    pub fn age_only(age: u8) -> (r: StudentPatch)
        ensures
            r@ == (PatchView { name: None, age: Some(age), subject: None }),
    {
        StudentPatch { name: None, age: Some(age), subject: None }
    }

    /// Applies the patch to `s` in place, keeping its identifier.
    pub fn apply_to(&self, s: &mut Student)
        ensures
            final(s)@.id == old(s)@.id,
            final(s)@.fields == patched(old(s)@.fields, self@),
    {
        match &self.name {
            Some(n) => {
                s.name = n.clone();
            },
            None => {},
        }
        match self.age {
            Some(a) => {
                s.age = a;
            },
            None => {},
        }
        match &self.subject {
            Some(t) => {
                s.subject = t.clone();
            },
            None => {},
        }
    }
}

} // verus!
