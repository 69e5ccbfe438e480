//! The data of the e-mails the services send.

use vstd::prelude::*;

verus! {

/// What an e-mail says: a title, a message, and a button that opens a link.
#[derive(Debug, Clone)]
pub struct EmailTemplateData {
    pub title: String,
    pub message: String,
    pub button: String,
    pub link: String,
}

/// The values an e-mail template is filled with, borrowed from the e-mail
/// data.
#[derive(Debug, Clone, Copy)]
pub struct EmailTemplate<'a> {
    pub title: &'a str,
    pub message: &'a str,
    pub button: &'a str,
    pub link: &'a str,
}

impl<'a> EmailTemplate<'a> {
    /// The template values of an e-mail: each field of the data, unchanged.
    pub fn from_data(data: &'a EmailTemplateData) -> (t: EmailTemplate<'a>)
        ensures
            t.title@ == data.title@,
            t.message@ == data.message@,
            t.button@ == data.button@,
            t.link@ == data.link@,
    {
        EmailTemplate {
            title: data.title.as_str(),
            message: data.message.as_str(),
            button: data.button.as_str(),
            link: data.link.as_str(),
        }
    }
}

} // verus!
