use vstd::prelude::*;

verus! {

/// Why preparing the dictionary file failed.
#[derive(Debug, Clone, Copy, PartialEq, Eq, Structural)]
pub enum DictionaryError {
    PathError,
    ParseError,
    DownloadError,
}

impl DictionaryError {
    /// The sentence that names this error.
    pub open spec fn message_text(self) -> Seq<char> {
        match self {
            DictionaryError::PathError => "Dictionary Error: Path Error"@,
            DictionaryError::ParseError => "Dictionary Error: Parse Error"@,
            DictionaryError::DownloadError => "Dictionary Error: Download Error"@,
        }
    }

    /// Renders the error as text.
    pub fn message(&self) -> (text: String)
        ensures
            text@ == self.message_text(),
    {
        match self {
            DictionaryError::PathError => "Dictionary Error: Path Error".to_string(),
            DictionaryError::ParseError => "Dictionary Error: Parse Error".to_string(),
            DictionaryError::DownloadError => "Dictionary Error: Download Error".to_string(),
        }
    }
}

/// Why no word could be drawn from the dictionary.
#[derive(Debug, Clone, Copy, PartialEq, Eq, Structural)]
pub enum SelectionError {
    /// The dictionary holds no word of the requested length.
    EmptyDictionary,
    /// The word that was drawn has no entry in the dictionary.
    MissingDefinition,
}

impl SelectionError {
    /// The sentence that names this error.
    pub open spec fn message_text(self) -> Seq<char> {
        match self {
            SelectionError::EmptyDictionary => "The dictionary is empty."@,
            SelectionError::MissingDefinition => "The selected word does not have a definition."@,
        }
    }

    /// Renders the error as text.
    pub fn message(&self) -> (text: String)
        ensures
            text@ == self.message_text(),
    {
        match self {
            SelectionError::EmptyDictionary => "The dictionary is empty.".to_string(),
            SelectionError::MissingDefinition => "The selected word does not have a definition.".to_string(),
        }
    }
}

} // verus!
