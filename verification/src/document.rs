use crate::language_labels::{LangModule, LABEL_IMAGE, LABEL_TEXT};
use crate::paths::{extension_of, parent_of, path_extension, path_file_stem, path_parent, stem_of};
use vstd::prelude::*;
use vstd::string::StringExecFns;

verus! {

/// What a document holds: plain text or a bitmap image.
#[derive(Debug, Clone, Copy, PartialEq, Eq, Structural)]
pub enum DocumentKind {
    Text,
    Image,
}

impl Default for DocumentKind {
    fn default() -> (kind: Self)
        ensures
            kind == DocumentKind::Text,
    {
        DocumentKind::Text
    }
}

impl DocumentKind {
    /// The file suffix under which a document of this kind is stored.
    pub open spec fn suffix(self) -> Seq<char> {
        match self {
            DocumentKind::Text => "txt"@,
            DocumentKind::Image => "bmp"@,
        }
    }

    /// The position, in a label table, of the word for this kind.
    pub open spec fn label_role(self) -> int {
        match self {
            DocumentKind::Image => LABEL_IMAGE as int,
            DocumentKind::Text => LABEL_TEXT as int,
        }
    }

    /// Returns the file suffix of this kind.
    pub fn extension(&self) -> (ext: &'static str)
        ensures
            ext@ == self.suffix(),
    {
        match self {
            DocumentKind::Text => "txt",
            DocumentKind::Image => "bmp",
        }
    }

    /// Returns the word for this kind in the language that `lang` holds.
    pub fn fmt(&self, lang: &LangModule) -> (word: String)
        ensures
            word@ == lang.labels@[self.label_role()]@,
    {
        match self {
            DocumentKind::Image => lang.labels[LABEL_IMAGE].to_owned(),
            DocumentKind::Text => lang.labels[LABEL_TEXT].to_owned(),
        }
    }
}

/// The text of an optional string, if there is one.
pub open spec fn text_of(value: Option<String>) -> Option<Seq<char>> {
    match value {
        Some(s) => Some(s@),
        None => None,
    }
}

/// One open document as the rules see it.
pub struct DocumentView {
    pub init: bool,
    pub name: Seq<char>,
    pub kind: DocumentKind,
    pub path: Seq<char>,
}

impl DocumentView {
    /// The record of a document that nobody has filled in yet.
    pub open spec fn empty() -> DocumentView {
        DocumentView {
            init: false,
            name: Seq::<char>::empty(),
            kind: DocumentKind::Text,
            path: Seq::<char>::empty(),
        }
    }

    /// This record once its form is committed.
    pub open spec fn committed(self) -> DocumentView {
        DocumentView { init: true, ..self }
    }

    /// This record under another name.
    pub open spec fn named(self, name: Seq<char>) -> DocumentView {
        DocumentView { name, ..self }
    }

    /// This record after a folder picker answered with `picked`: a folder
    /// replaces the directory, a dismissed picker changes nothing.
    pub open spec fn with_directory(self, picked: Option<Seq<char>>) -> DocumentView {
        match picked {
            Some(path) => DocumentView { path, ..self },
            None => self,
        }
    }

    /// The kind that a file with the given extension has: `bmp` is an image,
    /// `txt` is text, and anything else leaves the kind as it was.
    pub open spec fn kind_for(self, extension: Option<Seq<char>>) -> DocumentKind {
        if extension == Some("txt"@) {
            DocumentKind::Text
        } else if extension == Some("bmp"@) {
            DocumentKind::Image
        } else {
            self.kind
        }
    }

    /// This record after it has taken what a file path shows: the parent as
    /// directory, the stem as name, the kind that goes with the extension.
    /// A part that the path lacks leaves its field as it was.
    pub open spec fn inferred(
        self,
        parent: Option<Seq<char>>,
        stem: Option<Seq<char>>,
        extension: Option<Seq<char>>,
    ) -> DocumentView {
        DocumentView {
            init: self.init,
            name: match stem {
                Some(name) => name,
                None => self.name,
            },
            kind: self.kind_for(extension),
            path: match parent {
                Some(path) => path,
                None => self.path,
            },
        }
    }

    /// This record after it has taken what the file path `file_path` shows.
    pub open spec fn inferred_from(self, file_path: Seq<char>) -> DocumentView {
        self.inferred(path_parent(file_path), path_file_stem(file_path), path_extension(file_path))
    }

    /// The name of the file that holds the document: its name, a dot, and
    /// the suffix of its kind.
    pub open spec fn file_name(self) -> Seq<char> {
        self.name + "."@ + self.kind.suffix()
    }

    /// Where the document's content lies: its directory, a slash, its file name.
    pub open spec fn file_path(self) -> Seq<char> {
        self.path + "/"@ + self.file_name()
    }
}

/// One open document: its name, its kind, the directory it lies in, and
/// whether its form has been committed.
#[derive(Debug, Clone, PartialEq, Eq)]
pub struct Document {
    pub init: bool,
    pub name: String,
    pub kind: DocumentKind,
    pub path: String,
}

impl View for Document {
    type V = DocumentView;

    open spec fn view(&self) -> DocumentView {
        DocumentView { init: self.init, name: self.name@, kind: self.kind, path: self.path@ }
    }
}

impl Default for Document {
    /// An empty record: not committed, no name, text, no directory.
    fn default() -> (doc: Self)
        ensures
            doc@ == DocumentView::empty(),
    {
        Document { init: false, name: String::new(), kind: DocumentKind::Text, path: String::new() }
    }
}

impl Document {
    /// Commits the document. Doing so again changes nothing.
    pub fn init_doc(&mut self)
        ensures
            final(self)@ == old(self)@.committed(),
    {
        self.init = true
    }

    /// Takes the answer of a folder picker as the document's directory.
    pub fn set_dir(&mut self, picked: Option<String>)
        ensures
            final(self)@ == old(self)@.with_directory(text_of(picked)),
    {
        match picked {
            Some(path) => {
                self.path = path;
            },
            None => {},
        }
    }

    /// Fills the record from the three parts of a file path.
    pub fn infer_from_parts(
        &mut self,
        parent: Option<String>,
        stem: Option<String>,
        extension: Option<String>,
    )
        ensures
            final(self)@ == old(self)@.inferred(text_of(parent), text_of(stem), text_of(extension)),
    {
        match parent {
            Some(path) => {
                self.path = path;
            },
            None => {},
        }
        match extension {
            Some(ext) => {
                if ext == String::from_str("txt") {
                    self.kind = DocumentKind::Text;
                } else if ext == String::from_str("bmp") {
                    self.kind = DocumentKind::Image;
                }
            },
            None => {},
        }
        match stem {
            Some(name) => {
                self.name = name;
            },
            None => {},
        }
    }

    /// Fills the record from a file path: directory, name and kind.
    pub fn infer_from_path(&mut self, file_path: &str)
        ensures
            final(self)@ == old(self)@.inferred_from(file_path@),
    {
        let parent = parent_of(file_path);
        let stem = stem_of(file_path);
        let extension = extension_of(file_path);
        self.infer_from_parts(parent, stem, extension);
    }

    /// Returns the name of the file that holds the document.
    pub fn file_name(&self) -> (name: String)
        ensures
            name@ == self@.file_name(),
    {
        let mut name = self.name.clone();
        name.append(".");
        name.append(self.kind.extension());
        name
    }

    /// Returns where the document's content lies.
    pub fn file_path(&self) -> (path: String)
        ensures
            path@ == self@.file_path(),
    {
        let mut path = self.path.clone();
        path.append("/");
        let name = self.file_name();
        path.append(name.as_str());
        path
    }
}

} // verus!
