use tabbed_documents::language_labels::{
    labels_of, LangModule, LangProfile, LABEL_CLOSE_ALL, LABEL_COUNT, LABEL_DIRECTORY, LABEL_HOME,
    LABEL_IMAGE, LABEL_KIND, LABEL_NAME, LABEL_NEW, LABEL_OPEN, LABEL_SUBMIT, LABEL_TEXT,
};

#[test]
fn english_table_is_complete() {
    let labels = labels_of(LangProfile::English);
    assert_eq!(
        labels,
        [
            "Home",
            "New",
            "Open",
            "Close All",
            "Submit",
            "Image",
            "Text",
            "Name",
            "Directory",
            "Kind"
        ]
    );
}

#[test]
fn spanish_table_is_complete() {
    let labels = labels_of(LangProfile::Espanol);
    assert_eq!(
        labels,
        [
            "Casa",
            "Nuevo",
            "Abierto",
            "Cerrar Todo",
            "Entregar",
            "Imagen",
            "Texto",
            "Nombre",
            "Directorio",
            "Clasificar"
        ]
    );
}

#[test]
fn label_positions_name_their_roles() {
    let labels = labels_of(LangProfile::English);
    assert_eq!(LABEL_COUNT, labels.len());
    assert_eq!(labels[LABEL_HOME], "Home");
    assert_eq!(labels[LABEL_NEW], "New");
    assert_eq!(labels[LABEL_OPEN], "Open");
    assert_eq!(labels[LABEL_CLOSE_ALL], "Close All");
    assert_eq!(labels[LABEL_SUBMIT], "Submit");
    assert_eq!(labels[LABEL_IMAGE], "Image");
    assert_eq!(labels[LABEL_TEXT], "Text");
    assert_eq!(labels[LABEL_NAME], "Name");
    assert_eq!(labels[LABEL_DIRECTORY], "Directory");
    assert_eq!(labels[LABEL_KIND], "Kind");
}

#[test]
fn set_lang_swaps_the_whole_table() {
    let mut module = LangModule::new(LangProfile::English);
    assert_eq!(module.labels, labels_of(LangProfile::English));
    module.lang_profile = LangProfile::Espanol;
    assert_eq!(module.labels[0], "Home");
    module.set_lang();
    assert_eq!(module.lang_profile, LangProfile::Espanol);
    assert_eq!(module.labels, labels_of(LangProfile::Espanol));
    module.lang_profile = LangProfile::English;
    module.set_lang();
    assert_eq!(module.labels, labels_of(LangProfile::English));
}

#[test]
fn default_module_is_english_with_empty_labels() {
    let mut module = LangModule::default();
    assert_eq!(module.lang_profile, LangProfile::English);
    assert_eq!(LangProfile::default(), LangProfile::English);
    assert_eq!(module.labels, [""; 10]);
    module.set_lang();
    assert_eq!(module.labels[LABEL_SUBMIT], "Submit");
}
