use vstd::prelude::*;

verus! {

/// The text of an optional string.
pub open spec fn text_of(s: Option<String>) -> Option<Seq<char>> {
    match s {
        Some(t) => Some(t@),
        None => None,
    }
}

/// The credential that file contents stand for: none when the file is
/// missing or unreadable, and none when it is empty.
pub open spec fn loaded(contents: Option<Seq<char>>) -> Option<Seq<char>> {
    match contents {
        Some(text) => if text.len() == 0 { None } else { Some(text) },
        None => None,
    }
}

/// Reads a credential out of what the credential file held (`None` when it
/// could not be read). An empty file holds no credential.
pub fn load_credential(contents: Option<String>) -> (r: Option<String>)
    ensures
        text_of(r) == loaded(text_of(contents)),
{
    match contents {
        Some(text) => {
            if text.as_str().is_empty() {
                None
            } else {
                Some(text)
            }
        },
        None => None,
    }
}

/// The credential file as an in-memory image: `None` while there is no
/// readable file, else its raw text.
pub struct CredentialStore {
    contents: Option<String>,
}

impl CredentialStore {
    pub closed spec fn file(&self) -> Option<Seq<char>> {
        text_of(self.contents)
    }

    /// The store as found on disk: `contents` is the file's text, or `None`
    /// when the file is missing or unreadable.
    pub fn from_contents(contents: Option<String>) -> (r: CredentialStore)
        ensures
            r.file() == text_of(contents),
    {
        CredentialStore { contents }
    }

    /// The text to be written to the credential file, if there is any.
    pub fn contents(&self) -> (r: Option<String>)
        ensures
            text_of(r) == self.file(),
    {
        match &self.contents {
            Some(text) => Some(text.clone()),
            None => None,
        }
    }

    /// The stored credential; a missing and an empty file look alike.
    pub fn load(&self) -> (r: Option<String>)
        ensures
            text_of(r) == loaded(self.file()),
    {
        load_credential(self.contents())
    }

    /// Overwrites the file's content with the raw credential, in cleartext.
    pub fn save(&mut self, credential: &str)
        ensures
            final(self).file() == Some(credential@),
    {
        self.contents = Some(String::from_str(credential));
    }
}

/// Saving a non-empty credential and loading again gives that credential back.
pub proof fn lemma_load_after_save(credential: Seq<char>)
    requires
        credential.len() > 0,
    ensures
        loaded(Some(credential)) == Some(credential),
{
}

/// Saving the credential that was just loaded leaves what `load` returns
/// unchanged.
pub proof fn lemma_save_loaded_is_idempotent(file: Option<Seq<char>>, credential: Seq<char>)
    requires
        loaded(file) == Some(credential),
    ensures
        loaded(Some(credential)) == loaded(file),
{
}

/// An empty file and a missing one both yield no stored credential.
pub proof fn lemma_empty_and_missing_agree()
    ensures
        loaded(Some(Seq::<char>::empty())) == loaded(None),
        loaded(None) is None,
{
}

} // verus!
