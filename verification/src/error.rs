//! The one error kind the library surfaces: a document that does not
//! conform to the expected XML shape.
use vstd::prelude::*;

verus! {

/// Why a document was rejected. Raised only while parsing; the
/// normalization transform cannot fail.
#[derive(Clone, Debug, PartialEq, Eq)]
pub enum FormatError {
    /// The XML itself is malformed: bad nesting, a bad escape, a stray
    /// token, or no root element.
    Syntax,
    /// A required child element is absent; carries the element name.
    MissingElement(String),
    /// A required attribute is absent; carries the attribute name.
    MissingAttribute(String),
    /// An attribute or element holds a value outside its fixed set;
    /// carries the offending name.
    BadValue(String),
}

/// The mathematical shadow of `FormatError`.
pub ghost enum FormatErrorV {
    Syntax,
    MissingElement(Seq<char>),
    MissingAttribute(Seq<char>),
    BadValue(Seq<char>),
}

impl View for FormatError {
    type V = FormatErrorV;

    open spec fn view(&self) -> FormatErrorV {
        match self {
            FormatError::Syntax => FormatErrorV::Syntax,
            FormatError::MissingElement(n) => FormatErrorV::MissingElement(n@),
            FormatError::MissingAttribute(n) => FormatErrorV::MissingAttribute(n@),
            FormatError::BadValue(n) => FormatErrorV::BadValue(n@),
        }
    }
}

impl DeepView for FormatError {
    type V = FormatErrorV;

    open spec fn deep_view(&self) -> FormatErrorV {
        self.view()
    }
}


/// The shadow of a parse result.
pub open spec fn rv<T: DeepView>(r: Result<T, FormatError>) -> Result<T::V, FormatErrorV> {
    match r {
        Ok(v) => Ok(v.deep_view()),
        Err(e) => Err(e@),
    }
}

} // verus!
