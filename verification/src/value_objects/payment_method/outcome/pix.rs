use vstd::prelude::*;

use crate::value_objects::expiration::Expiration;

verus! {

/// The copy of an optional text, as an owned string.
pub(crate) fn owned_text(text: Option<&str>) -> (r: Option<String>)
    ensures
        r is Some <==> text is Some,
        r matches Some(s) ==> s@ == text->0@,
{
    match text {
        Some(t) => Some(t.to_owned()),
        None => None,
    }
}

/// A view of an optional string as an optional string slice.
pub(crate) fn text_ref(text: &Option<String>) -> (r: Option<&str>)
    ensures
        r is Some <==> text is Some,
        r matches Some(s) ==> s@ == text->0@,
{
    match text {
        Some(t) => Some(t.as_str()),
        None => None,
    }
}

/// The Pix charge that a gateway created: the copy-and-paste code, the QR
/// code as an image or a link where the gateway gives them, and when the
/// charge expires.
pub struct PixData {
    qr_code: String,
    qr_code_base64: Option<String>,
    qr_code_url: Option<String>,
    expires_at: Expiration,
}

impl PixData {
    pub closed spec fn spec_qr_code(&self) -> Seq<char> {
        self.qr_code@
    }

    pub closed spec fn spec_qr_code_base64(&self) -> Option<Seq<char>> {
        match self.qr_code_base64 {
            Some(s) => Some(s@),
            None => None,
        }
    }

    pub closed spec fn spec_qr_code_url(&self) -> Option<Seq<char>> {
        match self.qr_code_url {
            Some(s) => Some(s@),
            None => None,
        }
    }

    pub closed spec fn spec_expires_at(&self) -> Expiration {
        self.expires_at
    }

    pub fn new(
        qr_code: &str,
        qr_code_base64: Option<&str>,
        qr_code_url: Option<&str>,
        expires_at: Expiration,
    ) -> (r: Self)
        ensures
            r.spec_qr_code() == qr_code@,
            r.spec_qr_code_base64() == (match qr_code_base64 {
                Some(s) => Some(s@),
                None => None,
            }),
            r.spec_qr_code_url() == (match qr_code_url {
                Some(s) => Some(s@),
                None => None,
            }),
            r.spec_expires_at() == expires_at,
    {
        PixData {
            qr_code: qr_code.to_owned(),
            qr_code_base64: owned_text(qr_code_base64),
            qr_code_url: owned_text(qr_code_url),
            expires_at,
        }
    }

    pub fn qr_code(&self) -> (r: &str)
        ensures
            r@ == self.spec_qr_code(),
    {
        self.qr_code.as_str()
    }

    pub fn qr_code_base64(&self) -> (r: Option<&str>)
        ensures
            r is Some <==> self.spec_qr_code_base64() is Some,
            r matches Some(s) ==> Some(s@) == self.spec_qr_code_base64(),
    {
        text_ref(&self.qr_code_base64)
    }

    pub fn qr_code_url(&self) -> (r: Option<&str>)
        ensures
            r is Some <==> self.spec_qr_code_url() is Some,
            r matches Some(s) ==> Some(s@) == self.spec_qr_code_url(),
    {
        text_ref(&self.qr_code_url)
    }

    pub fn expires_at(&self) -> (r: &Expiration)
        ensures
            *r == self.spec_expires_at(),
    {
        &self.expires_at
    }
}

} // verus!
