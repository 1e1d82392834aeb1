//! References to source documents supporting transactions and entries.
use vstd::prelude::*;
use crate::text::{ascii_lower_seq, eq_ignore_ascii_case, hash_cuttable, short_hash};
use chrono::NaiveDateTime;

verus! {

/// The date and time at which a document was attached (`chrono::NaiveDateTime`).
#[verifier::external_type_specification]
#[verifier::external_body]
pub struct ExNaiveDateTime(NaiveDateTime);

/// The kind of source document attached to a transaction or entry.
#[derive(Debug, Clone, Copy, PartialEq, Eq, Structural, Hash)]
#[non_exhaustive]
pub enum DocumentType {
    /// A receipt for a purchase or payment.
    Receipt,
    /// An invoice issued or received.
    Invoice,
    /// A bank or financial statement.
    Statement,
    /// A legal or business contract.
    Contract,
    /// Any other document type.
    Other,
}

/// The lowercase name of a document type.
pub open spec fn document_type_name(t: DocumentType) -> Seq<char> {
    match t {
        DocumentType::Receipt => "receipt"@,
        DocumentType::Invoice => "invoice"@,
        DocumentType::Statement => "statement"@,
        DocumentType::Contract => "contract"@,
        DocumentType::Other => "other"@,
    }
}

/// The document type a text names, ignoring ASCII case.
pub open spec fn document_type_from_text(s: Seq<char>) -> Option<DocumentType> {
    let l = ascii_lower_seq(s);
    if l == "receipt"@ {
        Some(DocumentType::Receipt)
    } else if l == "invoice"@ {
        Some(DocumentType::Invoice)
    } else if l == "statement"@ {
        Some(DocumentType::Statement)
    } else if l == "contract"@ {
        Some(DocumentType::Contract)
    } else if l == "other"@ {
        Some(DocumentType::Other)
    } else {
        None
    }
}

/// Error type for parsing a [`DocumentType`] from a string.
#[derive(Debug, Clone, PartialEq, Eq)]
#[non_exhaustive]
pub enum DocumentTypeError {
    /// The string did not match any known document type.
    UnknownType {
        /// The unrecognised value.
        value: String,
    },
}

impl DocumentTypeError {
    /// The human-readable message for this error.
    pub fn to_string(&self) -> (s: String)
        ensures
            s@ == (match *self {
                DocumentTypeError::UnknownType { value } => "unknown document type: \""@ + value@
                    + "\" (expected receipt, invoice, statement, contract, or other)"@,
            }),
    {
        match self {
            DocumentTypeError::UnknownType { value } => {
                let mut s = "unknown document type: \"".to_string();
                s.append(value.as_str());
                s.append("\" (expected receipt, invoice, statement, contract, or other)");
                s
            },
        }
    }
}

impl DocumentType {
    /// The lowercase name, e.g. `"receipt"`.
    pub fn to_string(&self) -> (s: String)
        ensures
            s@ == document_type_name(*self),
    {
        match self {
            DocumentType::Receipt => "receipt".to_string(),
            DocumentType::Invoice => "invoice".to_string(),
            DocumentType::Statement => "statement".to_string(),
            DocumentType::Contract => "contract".to_string(),
            DocumentType::Other => "other".to_string(),
        }
    }

    /// Parses a document type name, ignoring ASCII case.
    pub fn parse(s: &str) -> (r: Result<DocumentType, DocumentTypeError>)
        ensures
            document_type_from_text(s@) matches Some(t) ==> r == Ok::<DocumentType, DocumentTypeError>(t),
            document_type_from_text(s@) is None ==> (r matches Err(DocumentTypeError::UnknownType { value })
                && value@ == s@),
    {
        proof {
            reveal_strlit("receipt");
            reveal_strlit("invoice");
            reveal_strlit("statement");
            reveal_strlit("contract");
            reveal_strlit("other");
        }
        let r = if eq_ignore_ascii_case(s, "receipt") {
            Ok(DocumentType::Receipt)
        } else if eq_ignore_ascii_case(s, "invoice") {
            Ok(DocumentType::Invoice)
        } else if eq_ignore_ascii_case(s, "statement") {
            Ok(DocumentType::Statement)
        } else if eq_ignore_ascii_case(s, "contract") {
            Ok(DocumentType::Contract)
        } else if eq_ignore_ascii_case(s, "other") {
            Ok(DocumentType::Other)
        } else {
            Err(DocumentTypeError::UnknownType { value: s.to_owned() })
        };
        proof {
            assert(ascii_lower_seq("receipt"@) =~= "receipt"@);
            assert(ascii_lower_seq("invoice"@) =~= "invoice"@);
            assert(ascii_lower_seq("statement"@) =~= "statement"@);
            assert(ascii_lower_seq("contract"@) =~= "contract"@);
            assert(ascii_lower_seq("other"@) =~= "other"@);
        }
        r
    }
}

impl core::str::FromStr for DocumentType {
    type Err = DocumentTypeError;

    fn from_str(s: &str) -> (r: Result<DocumentType, DocumentTypeError>)
        ensures
            document_type_from_text(s@) matches Some(t) ==> r == Ok::<DocumentType, DocumentTypeError>(t),
            document_type_from_text(s@) is None ==> (r matches Err(DocumentTypeError::UnknownType { value })
                && value@ == s@),
    {
        DocumentType::parse(s)
    }
}

/// Error type for constructing a [`SourceDocument`].
#[derive(Debug, Clone, PartialEq, Eq, Structural)]
#[non_exhaustive]
pub enum SourceDocumentError {
    /// The URI was empty.
    EmptyUri,
}

impl SourceDocumentError {
    /// The human-readable message for this error.
    pub fn to_string(&self) -> (s: String)
        ensures
            s@ == "source document URI cannot be empty"@,
    {
        match self {
            SourceDocumentError::EmptyUri => "source document URI cannot be empty".to_string(),
        }
    }
}

/// A reference to a source document supporting a transaction or entry.
/// The library carries the reference only; the URI may be a path, a URL
/// or a content-addressed identifier.
#[derive(Debug, PartialEq, Eq)]
pub struct SourceDocument {
    uri: String,
    document_type: DocumentType,
    hash: Option<String>,
    attached_at: NaiveDateTime,
}

impl SourceDocument {
    /// The document URI.
    pub closed spec fn spec_uri(&self) -> Seq<char> {
        self.uri@
    }

    /// The document type.
    pub closed spec fn spec_document_type(&self) -> DocumentType {
        self.document_type
    }

    /// The optional integrity hash.
    pub closed spec fn spec_hash(&self) -> Option<Seq<char>> {
        match self.hash {
            Some(h) => Some(h@),
            None => None,
        }
    }

    /// When the document was attached.
    pub closed spec fn spec_attached_at(&self) -> NaiveDateTime {
        self.attached_at
    }

    /// Creates a new source document reference; the URI must not be empty.
    pub fn new(uri: &str, document_type: DocumentType, attached_at: NaiveDateTime) -> (r: Result<SourceDocument, SourceDocumentError>)
        ensures
            uri@.len() == 0 ==> r == Err::<SourceDocument, SourceDocumentError>(SourceDocumentError::EmptyUri),
            uri@.len() > 0 ==> (r matches Ok(d) && d.spec_uri() == uri@ && d.spec_document_type() == document_type
                && d.spec_hash() is None && d.spec_attached_at() == attached_at),
    {
        if uri.is_empty() {
            return Err(SourceDocumentError::EmptyUri);
        }
        Ok(SourceDocument { uri: uri.to_owned(), document_type, hash: None, attached_at })
    }

    /// Creates a new source document reference with an integrity hash; the
    /// URI must not be empty.
    pub fn with_hash(uri: &str, document_type: DocumentType, hash: &str, attached_at: NaiveDateTime) -> (r: Result<SourceDocument, SourceDocumentError>)
        ensures
            uri@.len() == 0 ==> r == Err::<SourceDocument, SourceDocumentError>(SourceDocumentError::EmptyUri),
            uri@.len() > 0 ==> (r matches Ok(d) && d.spec_uri() == uri@ && d.spec_document_type() == document_type
                && d.spec_hash() == Some(hash@) && d.spec_attached_at() == attached_at),
    {
        if uri.is_empty() {
            return Err(SourceDocumentError::EmptyUri);
        }
        Ok(SourceDocument { uri: uri.to_owned(), document_type, hash: Some(hash.to_owned()), attached_at })
    }

    /// Returns the document URI.
    pub fn uri(&self) -> (u: &str)
        ensures
            u@ == self.spec_uri(),
    {
        self.uri.as_str()
    }

    /// Returns the document type.
    pub fn document_type(&self) -> (t: DocumentType)
        ensures
            t == self.spec_document_type(),
    {
        self.document_type
    }

    /// Returns the optional integrity hash.
    pub fn hash(&self) -> (h: Option<&str>)
        ensures
            match h {
                Some(t) => self.spec_hash() == Some(t@),
                None => self.spec_hash() is None,
            },
    {
        match &self.hash {
            Some(t) => Some(t.as_str()),
            None => None,
        }
    }

    /// Returns when the document was attached.
    pub fn attached_at(&self) -> (t: NaiveDateTime)
        ensures
            t == self.spec_attached_at(),
    {
        self.attached_at
    }

    /// The display form `"[<type>] <uri>"`, followed by `" (<hash prefix>)"`
    /// with the first twelve bytes of the hash when there is one (all of it
    /// when shorter); the cut must fall on a character boundary.
    pub fn to_string(&self) -> (s: String)
        requires
            self.spec_hash() matches Some(h) ==> hash_cuttable(h),
        ensures
            s@ == "["@ + document_type_name(self.spec_document_type()) + "] "@ + self.spec_uri()
                + match self.spec_hash() {
                Some(h) => " ("@ + short_hash(h) + ")"@,
                None => Seq::<char>::empty(),
            },
    {
        let mut s = "[".to_string();
        let t = self.document_type.to_string();
        s.append(t.as_str());
        s.append("] ");
        s.append(self.uri.as_str());
        match &self.hash {
            Some(h) => {
                let hs = h.as_str();
                let n = hs.as_bytes().len();
                let cut: usize = if n < 12 {
                    n
                } else {
                    12
                };
                proof {
                    vstd::utf8::encode_utf8_valid_utf8(hs@);
                    vstd::utf8::is_char_boundary_start_end_of_seq(vstd::utf8::encode_utf8(hs@));
                    assert(n as int == vstd::utf8::encode_utf8(hs@).len());
                }
                let (short, _) = hs.split_at(cut);
                proof {
                    vstd::utf8::encode_utf8_decode_utf8(short@);
                    assert(vstd::utf8::encode_utf8(short@) =~= vstd::utf8::encode_utf8(hs@).take(cut as int));
                }
                s.append(" (");
                s.append(short);
                s.append(")");
            },
            None => {},
        }
        s
    }
}


impl Clone for SourceDocument {
    fn clone(&self) -> (r: SourceDocument)
        ensures
            r.spec_uri() == self.spec_uri(),
            r.spec_document_type() == self.spec_document_type(),
            r.spec_hash() == self.spec_hash(),
            r.spec_attached_at() == self.spec_attached_at(),
    {
        SourceDocument {
            uri: self.uri.clone(),
            document_type: self.document_type,
            hash: match &self.hash {
                Some(h) => Some(h.clone()),
                None => None,
            },
            attached_at: self.attached_at,
        }
    }
}

} // verus!
