use vstd::prelude::*;

use crate::value_objects::payer::{document::Document, email::Email, name::Name};

verus! {

/// Who pays: a name, an e-mail address and a taxpayer document.
#[allow(dead_code)]
pub struct Payer {
    name: Name,
    email: Email,
    document: Document,
}

impl Payer {
    pub closed spec fn spec_name(&self) -> Name {
        self.name
    }

    pub closed spec fn spec_email(&self) -> Email {
        self.email
    }

    pub closed spec fn spec_document(&self) -> Document {
        self.document
    }

    pub fn new(name: Name, email: Email, document: Document) -> (r: Self)
        ensures
            r.spec_name() == name,
            r.spec_email() == email,
            r.spec_document() == document,
    {
        Payer { name, email, document }
    }

    pub fn name(&self) -> (r: &Name)
        ensures
            *r == self.spec_name(),
    {
        &self.name
    }

    pub fn email(&self) -> (r: &Email)
        ensures
            *r == self.spec_email(),
    {
        &self.email
    }

    pub fn document(&self) -> (r: &Document)
        ensures
            *r == self.spec_document(),
    {
        &self.document
    }
}

} // verus!
