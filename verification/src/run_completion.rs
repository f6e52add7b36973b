//! Classify a run's completion-status document.
//!
//! The sequencing platform may leave a `RunCompletionStatus.xml` beside the
//! run: a small XML document whose `RunId`, `CompletionStatus` and
//! `ErrorDescription` elements say how the run ended.  This module turns the
//! document's text into a [`CompletionStatus`] carrying a [`Message`].
//!
//! The XML itself is read through `roxmltree`; everything from the extracted
//! element text to the classification is verified.

use vstd::prelude::*;
use vstd::string::StringExecFns;

use crate::pathstr;

verus! {

/// A completion-status message: the run's identifier and optional free text
/// from the document's error description.
#[derive(Clone, Debug, PartialEq)]
pub struct Message {
    pub run_id: String,
    pub message: Option<String>,
}

/// Spec-level value of a [`Message`].
pub struct MessageV {
    pub run_id: Seq<char>,
    pub message: Option<Seq<char>>,
}

impl View for Message {
    type V = MessageV;

    open spec fn view(&self) -> MessageV {
        MessageV {
            run_id: self.run_id@,
            message: match self.message {
                Some(m) => Some(m@),
                None => None,
            },
        }
    }
}

/// How a run ended, as classified by its completion-status document.
#[non_exhaustive]
#[derive(Clone, Debug, PartialEq)]
pub enum CompletionStatus {
    CompletedAsPlanned(Message),
    ExceptionEndedEarly(Message),
    UserEndedEarly(Message),
    Other(Message),
}

/// Spec-level value of a [`CompletionStatus`].
pub enum CompletionStatusV {
    CompletedAsPlanned(MessageV),
    ExceptionEndedEarly(MessageV),
    UserEndedEarly(MessageV),
    Other(MessageV),
}

impl View for CompletionStatus {
    type V = CompletionStatusV;

    open spec fn view(&self) -> CompletionStatusV {
        match self {
            CompletionStatus::CompletedAsPlanned(m) => CompletionStatusV::CompletedAsPlanned(m@),
            CompletionStatus::ExceptionEndedEarly(m) => CompletionStatusV::ExceptionEndedEarly(m@),
            CompletionStatus::UserEndedEarly(m) => CompletionStatusV::UserEndedEarly(m@),
            CompletionStatus::Other(m) => CompletionStatusV::Other(m@),
        }
    }
}

/// Why a completion-status document could not be classified.
#[derive(Clone, Copy, Debug, PartialEq, Eq, Structural)]
pub enum StatusParseError {
    /// The text is not well-formed XML.
    NotXml,
    /// The document has no `RunId` element.
    MissingRunId,
    /// The `RunId` element has no text.
    EmptyRunId,
    /// The document has no `CompletionStatus` element.
    MissingStatus,
    /// The `CompletionStatus` element has no text.
    EmptyStatus,
}

/// Whether `doc` parses as well-formed XML under `roxmltree`.
pub uninterp spec fn xml_well_formed(doc: Seq<char>) -> bool;

/// The text of the first element named `tag` in document `doc`, in document
/// order: `None` when no such element exists, `Some(None)` when the element
/// has no text, `Some(Some(t))` when its text is `t`.  Meaningful only when
/// `doc` is well-formed.
pub uninterp spec fn xml_tag_text(doc: Seq<char>, tag: Seq<char>) -> Option<Option<Seq<char>>>;

/// Outcome of looking one element's text up in a document.
enum TagLookup {
    NoDocument,
    Missing,
    Empty,
    Text(String),
}

/// Relies on `roxmltree::Document::parse` for well-formedness,
/// `Document::descendants` with `Node::has_tag_name` for the first element of
/// the given name in document order, and `Node::text` for that element's
/// text.  All of these depend only on the document text and the tag name.
#[verifier::external_body]
fn lookup_tag(contents: &str, tag: &str) -> (r: TagLookup)
    ensures
        (r is NoDocument) == !xml_well_formed(contents@),
        xml_well_formed(contents@) ==> match r {
            TagLookup::NoDocument => false,
            TagLookup::Missing => xml_tag_text(contents@, tag@) is None,
            TagLookup::Empty => xml_tag_text(contents@, tag@) == Some(Option::<Seq<char>>::None),
            TagLookup::Text(t) => xml_tag_text(contents@, tag@) == Some(Some(t@)),
        },
{
    match roxmltree::Document::parse(contents) {
        Err(_) => TagLookup::NoDocument,
        Ok(doc) => match doc.descendants().find(|e| e.has_tag_name(tag)) {
            None => TagLookup::Missing,
            Some(node) => match node.text() {
                None => TagLookup::Empty,
                Some(t) => TagLookup::Text(t.to_string()),
            },
        },
    }
}

/// The optional free text a well-formed document carries: the text of its
/// `ErrorDescription` element, with a literal `None` treated as no text.
pub open spec fn spec_error_text(doc: Seq<char>) -> Option<Seq<char>> {
    match xml_tag_text(doc, "ErrorDescription"@) {
        Some(Some(t)) => if t == "None"@ {
            None
        } else {
            Some(t)
        },
        _ => None,
    }
}

/// The classification a `CompletionStatus` element's text names.
pub open spec fn spec_status_of(tag: Seq<char>, m: MessageV) -> CompletionStatusV {
    if tag == "CompletedAsPlanned"@ {
        CompletionStatusV::CompletedAsPlanned(m)
    } else if tag == "ExceptionEndedEarly"@ {
        CompletionStatusV::ExceptionEndedEarly(m)
    } else if tag == "UserEndedEarly"@ {
        CompletionStatusV::UserEndedEarly(m)
    } else {
        CompletionStatusV::Other(m)
    }
}

/// What classifying the document text `doc` yields: the classification named
/// by its `CompletionStatus` element, carrying the run identifier from
/// `RunId` and the optional `ErrorDescription` text, or the first error in
/// the order the document is examined.
pub open spec fn spec_parse_run_completion(doc: Seq<char>) -> Result<
    CompletionStatusV,
    StatusParseError,
> {
    if !xml_well_formed(doc) {
        Err(StatusParseError::NotXml)
    } else {
        match xml_tag_text(doc, "RunId"@) {
            None => Err(StatusParseError::MissingRunId),
            Some(None) => Err(StatusParseError::EmptyRunId),
            Some(Some(id)) => match xml_tag_text(doc, "CompletionStatus"@) {
                None => Err(StatusParseError::MissingStatus),
                Some(None) => Err(StatusParseError::EmptyStatus),
                Some(Some(st)) => Ok(
                    spec_status_of(
                        st,
                        MessageV { run_id: id, message: spec_error_text(doc) },
                    ),
                ),
            },
        }
    }
}

/// Classifies the text of a completion-status document.
///
/// Returns the [`CompletionStatus`] named by the document's
/// `CompletionStatus` element, carrying the `RunId` text and any
/// `ErrorDescription` text, or a [`StatusParseError`] describing the first
/// defect found.
pub fn parse_run_completion(contents: &str) -> (r: Result<CompletionStatus, StatusParseError>)
    ensures
        r matches Ok(c) ==> spec_parse_run_completion(contents@) == Ok::<
            CompletionStatusV,
            StatusParseError,
        >(c@),
        r matches Err(e) ==> spec_parse_run_completion(contents@) == Err::<
            CompletionStatusV,
            StatusParseError,
        >(e),
{
    let run_id = match lookup_tag(contents, "RunId") {
        TagLookup::NoDocument => {
            return Err(StatusParseError::NotXml);
        },
        TagLookup::Missing => {
            return Err(StatusParseError::MissingRunId);
        },
        TagLookup::Empty => {
            return Err(StatusParseError::EmptyRunId);
        },
        TagLookup::Text(t) => t,
    };
    let message = match lookup_tag(contents, "ErrorDescription") {
        TagLookup::NoDocument => {
            return Err(StatusParseError::NotXml);
        },
        TagLookup::Missing => None,
        TagLookup::Empty => None,
        TagLookup::Text(t) => if pathstr::str_eq(t.as_str(), "None") {
            None
        } else {
            Some(t)
        },
    };
    let msg = Message { run_id, message };
    match lookup_tag(contents, "CompletionStatus") {
        TagLookup::NoDocument => Err(StatusParseError::NotXml),
        TagLookup::Missing => Err(StatusParseError::MissingStatus),
        TagLookup::Empty => Err(StatusParseError::EmptyStatus),
        TagLookup::Text(st) => {
            if pathstr::str_eq(st.as_str(), "CompletedAsPlanned") {
                Ok(CompletionStatus::CompletedAsPlanned(msg))
            } else if pathstr::str_eq(st.as_str(), "ExceptionEndedEarly") {
                Ok(CompletionStatus::ExceptionEndedEarly(msg))
            } else if pathstr::str_eq(st.as_str(), "UserEndedEarly") {
                Ok(CompletionStatus::UserEndedEarly(msg))
            } else {
                Ok(CompletionStatus::Other(msg))
            }
        },
    }
}

impl Message {
    /// The message as display text: the run identifier, a separator, then
    /// the free text or the word `None`.
    pub fn display(&self) -> (r: String)
        ensures
            r@ == self@.run_id + " : "@ + (match self@.message {
                Some(m) => m,
                None => "None"@,
            }),
    {
        let mut s = String::from_str(self.run_id.as_str());
        s.append(" : ");
        match &self.message {
            Some(m) => s.append(m.as_str()),
            None => s.append("None"),
        }
        s
    }
}

impl CompletionStatus {
    /// The message carried by any classification.
    pub fn message(&self) -> (r: &Message)
        ensures
            r@ == self@.spec_message(),
    {
        match self {
            CompletionStatus::CompletedAsPlanned(m) => m,
            CompletionStatus::ExceptionEndedEarly(m) => m,
            CompletionStatus::UserEndedEarly(m) => m,
            CompletionStatus::Other(m) => m,
        }
    }

    /// The classification as display text: the variant's name, a separator,
    /// then the message's display text.
    pub fn display(&self) -> (r: String)
        ensures
            r@ == self@.spec_variant_name() + " : "@ + self@.spec_message().run_id + " : "@ + (
            match self@.spec_message().message {
                Some(m) => m,
                None => "None"@,
            }),
    {
        let var_str: &str = match self {
            CompletionStatus::ExceptionEndedEarly(_) => "ExceptionEndedEarly",
            CompletionStatus::UserEndedEarly(_) => "UserEndedEarly",
            CompletionStatus::CompletedAsPlanned(_) => "CompletedAsPlanned",
            CompletionStatus::Other(_) => "Other",
        };
        let mut s = String::from_str(var_str);
        s.append(" : ");
        s.append(self.message().display().as_str());
        s
    }
}

impl CompletionStatusV {
    /// The message carried by any classification.
    pub open spec fn spec_message(self) -> MessageV {
        match self {
            CompletionStatusV::CompletedAsPlanned(m) => m,
            CompletionStatusV::ExceptionEndedEarly(m) => m,
            CompletionStatusV::UserEndedEarly(m) => m,
            CompletionStatusV::Other(m) => m,
        }
    }

    /// The variant's name.
    pub open spec fn spec_variant_name(self) -> Seq<char> {
        match self {
            CompletionStatusV::CompletedAsPlanned(_) => "CompletedAsPlanned"@,
            CompletionStatusV::ExceptionEndedEarly(_) => "ExceptionEndedEarly"@,
            CompletionStatusV::UserEndedEarly(_) => "UserEndedEarly"@,
            CompletionStatusV::Other(_) => "Other"@,
        }
    }
}

} // verus!
