use vstd::prelude::*;
use vstd::string::*;

verus! {

/// The document handed to a save.
pub enum Document {
    /// An already serialized document, stored verbatim.
    Raw(String),
    /// Scene elements and application state, each as JSON text.
    Structured { elements: String, app_state: String },
}

/// The mathematical value of a [`Document`].
pub enum DocumentModel {
    Raw(Seq<char>),
    Structured { elements: Seq<char>, app_state: Seq<char> },
}

impl View for Document {
    type V = DocumentModel;

    open spec fn view(&self) -> DocumentModel {
        match self {
            Document::Raw(s) => DocumentModel::Raw(s@),
            Document::Structured { elements, app_state } => DocumentModel::Structured {
                elements: elements@,
                app_state: app_state@,
            },
        }
    }
}

/// Opening of the structured form, up to the elements.
pub const ELEMENTS_KEY: &'static str = "{\"elements\":";

/// Between the elements and the application state.
pub const APP_STATE_KEY: &'static str = ",\"app_state\":";

/// Closing of the structured form.
pub const CLOSE: &'static str = "}";

/// The text stored for a document: a raw document verbatim; a structured one
/// as a JSON object with the two keys `elements` and `app_state`, in that
/// order.
pub open spec fn encode_spec(d: DocumentModel) -> Seq<char> {
    match d {
        DocumentModel::Raw(s) => s,
        DocumentModel::Structured { elements, app_state } =>
            ELEMENTS_KEY@ + elements + APP_STATE_KEY@ + app_state + CLOSE@,
    }
}

impl Document {
    /// The text to store for this document.
    pub fn encode(&self) -> (r: String)
        ensures
            r@ == encode_spec(self@),
    {
        match self {
            Document::Raw(s) => s.clone(),
            Document::Structured { elements, app_state } => {
                let mut r = String::from_str(ELEMENTS_KEY);
                r.append(elements.as_str());
                r.append(APP_STATE_KEY);
                r.append(app_state.as_str());
                r.append(CLOSE);
                r
            },
        }
    }
}

} // verus!
