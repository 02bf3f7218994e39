use vstd::prelude::*;

use crate::value_objects::expiration::Expiration;
use crate::value_objects::payment_method::outcome::pix::text_ref;

verus! {

/// The boleto that a gateway issued: its barcode, the line of digits that a
/// payer types, the PDF where the gateway gives one, and its due moment.
pub struct BoletoData {
    barcode: String,
    digitable_line: String,
    pdf_url: Option<String>,
    expires_at: Expiration,
}

impl BoletoData {
    pub closed spec fn spec_barcode(&self) -> Seq<char> {
        self.barcode@
    }

    pub closed spec fn spec_digitable_line(&self) -> Seq<char> {
        self.digitable_line@
    }

    pub closed spec fn spec_pdf_url(&self) -> Option<Seq<char>> {
        match self.pdf_url {
            Some(s) => Some(s@),
            None => None,
        }
    }

    pub closed spec fn spec_expires_at(&self) -> Expiration {
        self.expires_at
    }

    pub fn new(barcode: &str, digitable_line: &str, pdf_url: Option<String>, expires_at: Expiration) -> (r:
        Self)
        ensures
            r.spec_barcode() == barcode@,
            r.spec_digitable_line() == digitable_line@,
            r.spec_pdf_url() == (match pdf_url {
                Some(s) => Some(s@),
                None => None,
            }),
            r.spec_expires_at() == expires_at,
    {
        BoletoData {
            barcode: barcode.to_owned(),
            digitable_line: digitable_line.to_owned(),
            pdf_url,
            expires_at,
        }
    }

    pub fn barcode(&self) -> (r: &str)
        ensures
            r@ == self.spec_barcode(),
    {
        self.barcode.as_str()
    }

    pub fn digitable_line(&self) -> (r: &str)
        ensures
            r@ == self.spec_digitable_line(),
    {
        self.digitable_line.as_str()
    }

    pub fn pdf_url(&self) -> (r: Option<&str>)
        ensures
            r is Some <==> self.spec_pdf_url() is Some,
            r matches Some(s) ==> Some(s@) == self.spec_pdf_url(),
    {
        text_ref(&self.pdf_url)
    }

    pub fn expires_at(&self) -> (r: &Expiration)
        ensures
            *r == self.spec_expires_at(),
    {
        &self.expires_at
    }
}

} // verus!
