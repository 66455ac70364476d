//! The files that ship with the library's user: the dictionary of the
//! Japanese tokenizer, and one list of stopwords for each language.

use crate::text::same_text;
use vstd::prelude::*;
use vstd::string::StringExecFns;

verus! {

/// A file that ships with the application.
#[derive(Debug, PartialEq, Eq)]
pub struct Asset {
    pub name: String,
    pub data: Vec<u8>,
}

/// The files that ship with the application, by name.
#[derive(Debug, PartialEq, Eq)]
pub struct Assets {
    pub files: Vec<Asset>,
}

/// The data of the first file of `files` with the name `name`.
pub open spec fn asset_named(files: Seq<Asset>, name: Seq<char>) -> Option<Seq<u8>>
    decreases files.len(),
{
    if files.len() == 0 {
        None
    } else if files[0].name@ == name {
        Some(files[0].data@)
    } else {
        asset_named(files.drop_first(), name)
    }
}

/// The name of the dictionary of the Japanese tokenizer.
pub open spec fn dictionary_name() -> Seq<char> {
    "system.dic"@
}

/// The name of the list of stopwords of the language `lang`.
pub open spec fn stopwords_name(lang: Seq<char>) -> Seq<char> {
    "stopwords/stopwords-"@ + lang + ".txt"@
}

fn copy_bytes(data: &Vec<u8>) -> (r: Vec<u8>)
    ensures
        r@ == data@,
{
    let mut out: Vec<u8> = Vec::new();
    let mut i: usize = 0;
    while i < data.len()
        invariant
            i <= data.len(),
            out@ == data@.take(i as int),
        decreases data.len() - i,
    {
        out.push(data[i]);
        i = i + 1;
    }
    out
}

impl Assets {
    /// The data of the file `name`.
    pub fn get(&self, name: &str) -> (r: Option<Vec<u8>>)
        ensures
            match r {
                Some(data) => asset_named(self.files@, name@) == Some(data@),
                None => asset_named(self.files@, name@) is None,
            },
    {
        let mut i: usize = 0;
        assert(self.files@.skip(0) =~= self.files@);
        while i < self.files.len()
            invariant
                i <= self.files.len(),
                asset_named(self.files@, name@) == asset_named(self.files@.skip(i as int), name@),
            decreases self.files.len() - i,
        {
            let ghost rest = self.files@.skip(i as int);
            assert(rest.drop_first() =~= self.files@.skip(i + 1));
            if same_text(self.files[i].name.as_str(), name) {
                return Some(copy_bytes(&self.files[i].data));
            }
            i = i + 1;
        }
        None
    }

    /// The dictionary of the Japanese tokenizer, which must be among the
    /// files.
    pub fn get_vibrato_dict_data(&self) -> (r: Vec<u8>)
        requires
            asset_named(self.files@, dictionary_name()) is Some,
        ensures
            asset_named(self.files@, dictionary_name()) == Some(r@),
    {
        match self.get("system.dic") {
            Some(data) => data,
            None => Vec::new(),
        }
    }

    /// The list of stopwords of the language `lang`, if it is among the
    /// files.
    pub fn get_stopwords_for_lang(&self, lang: &str) -> (r: Option<Vec<u8>>)
        ensures
            match r {
                Some(data) => asset_named(self.files@, stopwords_name(lang@)) == Some(data@),
                None => asset_named(self.files@, stopwords_name(lang@)) is None,
            },
    {
        let mut name = String::from_str("stopwords/stopwords-");
        name.append(lang);
        name.append(".txt");
        self.get(name.as_str())
    }
}

} // verus!
