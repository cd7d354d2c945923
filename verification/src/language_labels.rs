use vstd::prelude::*;

verus! {

/// How many labels the interface shows.
pub const LABEL_COUNT: usize = 10;

/// Position of the label of the Home button and tab.
pub const LABEL_HOME: usize = 0;

/// Position of the label of the button that adds an empty document.
pub const LABEL_NEW: usize = 1;

/// Position of the label of the button that opens a file.
pub const LABEL_OPEN: usize = 2;

/// Position of the label of the button that closes every tab.
pub const LABEL_CLOSE_ALL: usize = 3;

/// Position of the label of the button that commits a document's form.
pub const LABEL_SUBMIT: usize = 4;

/// Position of the word for an image document.
pub const LABEL_IMAGE: usize = 5;

/// Position of the word for a text document.
pub const LABEL_TEXT: usize = 6;

/// Position of the caption of the name field.
pub const LABEL_NAME: usize = 7;

/// Position of the caption of the directory field.
pub const LABEL_DIRECTORY: usize = 8;

/// Position of the caption of the kind field.
pub const LABEL_KIND: usize = 9;

/// The languages in which the interface can show its labels.
#[derive(Debug, Clone, Copy, PartialEq, Eq, Structural)]
pub enum LangProfile {
    English,
    Espanol,
}

impl Default for LangProfile {
    fn default() -> (profile: Self)
        ensures
            profile == LangProfile::English,
    {
        LangProfile::English
    }
}

/// The English wording of the label at position `role`.
pub open spec fn english_label(role: int) -> Seq<char> {
    if role == 0 {
        "Home"@
    } else if role == 1 {
        "New"@
    } else if role == 2 {
        "Open"@
    } else if role == 3 {
        "Close All"@
    } else if role == 4 {
        "Submit"@
    } else if role == 5 {
        "Image"@
    } else if role == 6 {
        "Text"@
    } else if role == 7 {
        "Name"@
    } else if role == 8 {
        "Directory"@
    } else {
        "Kind"@
    }
}

/// The Spanish wording of the label at position `role`.
pub open spec fn spanish_label(role: int) -> Seq<char> {
    if role == 0 {
        "Casa"@
    } else if role == 1 {
        "Nuevo"@
    } else if role == 2 {
        "Abierto"@
    } else if role == 3 {
        "Cerrar Todo"@
    } else if role == 4 {
        "Entregar"@
    } else if role == 5 {
        "Imagen"@
    } else if role == 6 {
        "Texto"@
    } else if role == 7 {
        "Nombre"@
    } else if role == 8 {
        "Directorio"@
    } else {
        "Clasificar"@
    }
}

/// The wording that `profile` gives to the label at position `role`.
pub open spec fn label_text(profile: LangProfile, role: int) -> Seq<char> {
    match profile {
        LangProfile::English => english_label(role),
        LangProfile::Espanol => spanish_label(role),
    }
}

/// Whether `labels` holds, position by position, the wording of `profile`.
pub open spec fn is_table_of(labels: [&'static str; 10], profile: LangProfile) -> bool {
    forall|role: int| 0 <= role < 10 ==> (#[trigger] labels@[role])@ == label_text(profile, role)
}

/// Returns the whole label table of `profile`.
pub fn labels_of(profile: LangProfile) -> (labels: [&'static str; 10])
    ensures
        is_table_of(labels, profile),
{
    match profile {
        LangProfile::English => [
            "Home",
            "New",
            "Open",
            "Close All",
            "Submit",
            "Image",
            "Text",
            "Name",
            "Directory",
            "Kind",
        ],
        LangProfile::Espanol => [
            "Casa",
            "Nuevo",
            "Abierto",
            "Cerrar Todo",
            "Entregar",
            "Imagen",
            "Texto",
            "Nombre",
            "Directorio",
            "Clasificar",
        ],
    }
}

/// The label table in use, with the language it was last asked to show.
#[derive(Debug, Clone)]
pub struct LangModule {
    pub labels: [&'static str; 10],
    pub lang_profile: LangProfile,
}

impl LangModule {
    /// Whether the table holds the wording of the language that is selected.
    pub open spec fn in_step(&self) -> bool {
        is_table_of(self.labels, self.lang_profile)
    }

    /// Returns a table that shows the wording of `profile`.
    pub fn new(profile: LangProfile) -> (module: LangModule)
        ensures
            module.lang_profile == profile,
            module.in_step(),
    {
        LangModule { labels: labels_of(profile), lang_profile: profile }
    }

    /// Fills the table again, wholesale, with the wording of the selected language.
    pub fn set_lang(&mut self)
        ensures
            final(self).lang_profile == old(self).lang_profile,
            final(self).in_step(),
    {
        self.labels = labels_of(self.lang_profile);
    }
}

impl Default for LangModule {
    /// A table of ten empty labels, with English selected but not yet loaded.
    fn default() -> (module: Self)
        ensures
            module.lang_profile == LangProfile::English,
            forall|role: int| 0 <= role < 10 ==> (#[trigger] module.labels@[role])@ == Seq::<char>::empty(),
    {
        proof {
            reveal_strlit("");
        }
        LangModule {
            labels: ["", "", "", "", "", "", "", "", "", ""],
            lang_profile: LangProfile::English,
        }
    }
}

} // verus!
