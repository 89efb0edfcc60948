//! Contacts and their extraction from raw vCard records.

use vstd::prelude::*;

use crate::error::ExtractError;
use crate::extract::{collect_text_values, first_stamp, first_stamp_value, joined_multi,
    joined_multi_values, joined_text, joined_text_value, multi_texts, opt_view, single_text,
    single_text_value, strs_view, text_or, text_value_or};
use crate::markup::{parse_vcard_props, vcard_doc};
use crate::model::{Prop, PropV, props_view};

verus! {

/// One contact. All list fields keep source order and drop empty
/// strings; `uid` defaults to the empty string.
#[derive(Debug, Clone)]
pub struct Contact {
    pub full_name: Option<String>,
    pub name: Option<String>,
    pub nickname: Option<String>,
    pub emails: Vec<String>,
    pub phones: Vec<String>,
    pub impp: Vec<String>,
    pub addresses: Vec<String>,
    pub birthday: Option<i64>,
    pub anniversary: Option<i64>,
    pub organization: Option<String>,
    pub title: Option<String>,
    pub role: Option<String>,
    pub urls: Vec<String>,
    pub categories: Vec<String>,
    pub related: Vec<String>,
    pub gender: Option<String>,
    pub language: Option<String>,
    pub timezone: Option<String>,
    pub geo: Option<String>,
    pub note: Option<String>,
    pub uid: String,
}

/// Mathematical image of a `Contact`.
pub struct ContactV {
    pub full_name: Option<Seq<char>>,
    pub name: Option<Seq<char>>,
    pub nickname: Option<Seq<char>>,
    pub emails: Seq<Seq<char>>,
    pub phones: Seq<Seq<char>>,
    pub impp: Seq<Seq<char>>,
    pub addresses: Seq<Seq<char>>,
    pub birthday: Option<i64>,
    pub anniversary: Option<i64>,
    pub organization: Option<Seq<char>>,
    pub title: Option<Seq<char>>,
    pub role: Option<Seq<char>>,
    pub urls: Seq<Seq<char>>,
    pub categories: Seq<Seq<char>>,
    pub related: Seq<Seq<char>>,
    pub gender: Option<Seq<char>>,
    pub language: Option<Seq<char>>,
    pub timezone: Option<Seq<char>>,
    pub geo: Option<Seq<char>>,
    pub note: Option<Seq<char>>,
    pub uid: Seq<char>,
}

impl View for Contact {
    type V = ContactV;

    open spec fn view(&self) -> ContactV {
        ContactV {
            full_name: opt_view(self.full_name),
            name: opt_view(self.name),
            nickname: opt_view(self.nickname),
            emails: strs_view(self.emails@),
            phones: strs_view(self.phones@),
            impp: strs_view(self.impp@),
            addresses: strs_view(self.addresses@),
            birthday: self.birthday,
            anniversary: self.anniversary,
            organization: opt_view(self.organization),
            title: opt_view(self.title),
            role: opt_view(self.role),
            urls: strs_view(self.urls@),
            categories: strs_view(self.categories@),
            related: strs_view(self.related@),
            gender: opt_view(self.gender),
            language: opt_view(self.language),
            timezone: opt_view(self.timezone),
            geo: opt_view(self.geo),
            note: opt_view(self.note),
            uid: self.uid@,
        }
    }
}

/// What extraction yields for a given vCard property list. The
/// structured `N`, `ORG` and `ADR` fields keep their components joined
/// with semicolons.
pub open spec fn contact_of(props: Seq<PropV>) -> ContactV {
    ContactV {
        full_name: single_text(props, "FN"@),
        name: joined_text(props, "N"@),
        nickname: single_text(props, "NICKNAME"@),
        emails: multi_texts(props, "EMAIL"@),
        phones: multi_texts(props, "TEL"@),
        impp: multi_texts(props, "IMPP"@),
        addresses: joined_multi(props, "ADR"@),
        birthday: first_stamp(props, "BDAY"@),
        anniversary: first_stamp(props, "ANNIVERSARY"@),
        organization: joined_text(props, "ORG"@),
        title: single_text(props, "TITLE"@),
        role: single_text(props, "ROLE"@),
        urls: multi_texts(props, "URL"@),
        categories: multi_texts(props, "CATEGORIES"@),
        related: multi_texts(props, "RELATED"@),
        gender: single_text(props, "GENDER"@),
        language: single_text(props, "LANG"@),
        timezone: single_text(props, "TZ"@),
        geo: single_text(props, "GEO"@),
        note: single_text(props, "NOTE"@),
        uid: text_or(props, "UID"@, ""@),
    }
}

/// What `Contact::from_str` yields for a given raw record.
pub open spec fn contact_from_text(s: Seq<char>) -> Result<ContactV, ExtractError> {
    match vcard_doc(s) {
        None => Err(ExtractError::Syntax),
        Some(props) => Ok(contact_of(props)),
    }
}

impl Contact {
    /// Extract a contact from a parsed vCard property list, under the
    /// uniform field policy.
    pub fn from_props(props: &Vec<Prop>) -> (c: Contact)
        ensures
            c@ == contact_of(props_view(props@)),
    {
        Contact {
            full_name: single_text_value(props, "FN"),
            name: joined_text_value(props, "N"),
            nickname: single_text_value(props, "NICKNAME"),
            emails: collect_text_values(props, "EMAIL"),
            phones: collect_text_values(props, "TEL"),
            impp: collect_text_values(props, "IMPP"),
            addresses: joined_multi_values(props, "ADR"),
            birthday: first_stamp_value(props, "BDAY"),
            anniversary: first_stamp_value(props, "ANNIVERSARY"),
            organization: joined_text_value(props, "ORG"),
            title: single_text_value(props, "TITLE"),
            role: single_text_value(props, "ROLE"),
            urls: collect_text_values(props, "URL"),
            categories: collect_text_values(props, "CATEGORIES"),
            related: collect_text_values(props, "RELATED"),
            gender: single_text_value(props, "GENDER"),
            language: single_text_value(props, "LANG"),
            timezone: single_text_value(props, "TZ"),
            geo: single_text_value(props, "GEO"),
            note: single_text_value(props, "NOTE"),
            uid: text_value_or(props, "UID", ""),
        }
    }

    /// Parse a raw vCard record and extract its contact.
    ///
    /// Returns `Err(Syntax)` exactly when the text is no vCard, and
    /// the extracted contact otherwise.
    pub fn from_str(s: &str) -> (r: Result<Contact, ExtractError>)
        ensures
            (match contact_from_text(s@) {
                Ok(cv) => r matches Ok(c) && c@ == cv,
                Err(er) => r == Err::<Contact, ExtractError>(er),
            }),
    {
        match parse_vcard_props(s) {
            None => Err(ExtractError::Syntax),
            Some(props) => Ok(Contact::from_props(&props)),
        }
    }
}

/// Law: multi-value preservation — a contact's email list is exactly
/// the textual `EMAIL` values in the order the record gives them,
/// with the empty ones excluded, and so holds no empty string.
pub proof fn lemma_contact_emails_preserved(props: Seq<PropV>)
    ensures
        contact_of(props).emails == multi_texts(props, "EMAIL"@),
        forall|i: int|
            0 <= i < contact_of(props).emails.len() ==> #[trigger] contact_of(props).emails[
                i].len() > 0,
{
    crate::extract::lemma_multi_texts_nonempty(props, "EMAIL"@);
}

} // verus!
