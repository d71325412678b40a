use vstd::prelude::*;

verus! {

/// User-supplied intent for an upload session: retention duration in
/// days, optional password, message, download quota, language, and a
/// reserved (unused) recipient list.
#[derive(Debug, Clone)]
pub struct UploadParameters {
    pub duration: u64,
    pub author_email: String,
    pub password: String,
    pub message: String,
    pub number_of_download: u16,
    pub lang: String,
    pub recipients_emails: Vec<String>,
}

impl Default for UploadParameters {
    /// Thirty days of retention, 250 allowed downloads, British English
    /// language tag, and everything else empty.
    fn default() -> (d: Self)
        ensures
            d.duration == 30,
            d.author_email@ == Seq::<char>::empty(),
            d.password@ == Seq::<char>::empty(),
            d.message@ == Seq::<char>::empty(),
            d.number_of_download == 250,
            d.lang@ == "en_GB"@,
            d.recipients_emails@ == Seq::<String>::empty(),
    {
        Self {
            duration: 30,
            author_email: String::new(),
            password: String::new(),
            message: String::new(),
            number_of_download: 250,
            lang: "en_GB".to_owned(),
            recipients_emails: Vec::new(),
        }
    }
}

} // verus!
