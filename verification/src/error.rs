//! The one error type of the translator.

use crate::numerals::{decimal, hexadecimal, render_decimal, render_hexadecimal};
use crate::uasm::UasmDataAttributeSync;
use crate::wasm::{SectionKind, WasmValType};
use vstd::prelude::*;
use vstd::string::StringExecFns;

verus! {

/// The kinds of failure that a caller tells apart.
#[derive(Debug, Clone, Copy, PartialEq, Eq, Structural)]
pub enum ErrorKind {
    /// The module bytes are malformed or truncated.
    Decode,
    /// A well-formed section of a kind that has no mapping.
    UnsupportedSection,
    /// A well-formed operator that has no mapping.
    UnsupportedInstruction,
    /// A value type that has no mapping.
    UnsupportedType,
    /// A data attribute that has no text.
    UnsupportedAttribute,
    /// Something that cannot happen on well-formed input has happened.
    InternalConsistency,
}

/// An error as a mathematical value.
pub enum TranslateErrorView {
    Malformed { offset: u64, message: Seq<char> },
    MalformedEntry { index: usize, offset: u64, message: Seq<char> },
    Truncated { hint: usize },
    UnsupportedSection { kind: SectionKind },
    UnsupportedInstruction { name: Seq<char> },
    UnsupportedType { ty: WasmValType },
    UnsupportedAttribute { sync: UasmDataAttributeSync },
    UnexpectedNeedMoreData { hint: usize },
    Stalled { position: usize },
    AnnotationRendered,
}

/// Why a translation failed. Every failure ends the whole run.
#[derive(Debug)]
pub enum TranslateError {
    /// The framing of the module could not be decoded at `offset`.
    Malformed { offset: u64, message: String },
    /// The entry at `index` of a section could not be decoded.
    MalformedEntry { index: usize, offset: u64, message: String },
    /// The decoder needs about `hint` more bytes, and more input was not
    /// ruled out.
    Truncated { hint: usize },
    /// A section of a kind that has no mapping.
    UnsupportedSection { kind: SectionKind },
    /// An operator that has no mapping, by the text that identifies it.
    UnsupportedInstruction { name: String },
    /// A value type that has no mapping.
    UnsupportedType { ty: WasmValType },
    /// A sync attribute, which has no text.
    UnsupportedAttribute { sync: UasmDataAttributeSync },
    /// The decoder asked for more input after it was told that none will
    /// come.
    UnexpectedNeedMoreData { hint: usize },
    /// The decoder consumed nothing at `position` and did not reach the
    /// end of the module.
    Stalled { position: usize },
    /// An annotation was to be rendered, which has no text.
    AnnotationRendered,
}

impl View for TranslateError {
    type V = TranslateErrorView;

    open spec fn view(&self) -> TranslateErrorView {
        match self {
            TranslateError::Malformed { offset, message } => TranslateErrorView::Malformed {
                offset: *offset,
                message: message@,
            },
            TranslateError::MalformedEntry {
                index,
                offset,
                message,
            } => TranslateErrorView::MalformedEntry {
                index: *index,
                offset: *offset,
                message: message@,
            },
            TranslateError::Truncated { hint } => TranslateErrorView::Truncated { hint: *hint },
            TranslateError::UnsupportedSection { kind } => TranslateErrorView::UnsupportedSection {
                kind: *kind,
            },
            TranslateError::UnsupportedInstruction {
                name,
            } => TranslateErrorView::UnsupportedInstruction { name: name@ },
            TranslateError::UnsupportedType { ty } => TranslateErrorView::UnsupportedType {
                ty: *ty,
            },
            TranslateError::UnsupportedAttribute {
                sync,
            } => TranslateErrorView::UnsupportedAttribute { sync: *sync },
            TranslateError::UnexpectedNeedMoreData {
                hint,
            } => TranslateErrorView::UnexpectedNeedMoreData { hint: *hint },
            TranslateError::Stalled { position } => TranslateErrorView::Stalled {
                position: *position,
            },
            TranslateError::AnnotationRendered => TranslateErrorView::AnnotationRendered,
        }
    }
}

/// The kind of an error.
pub open spec fn kind_of_error(error: TranslateErrorView) -> ErrorKind {
    match error {
        TranslateErrorView::Malformed { .. } => ErrorKind::Decode,
        TranslateErrorView::MalformedEntry { .. } => ErrorKind::Decode,
        TranslateErrorView::Truncated { .. } => ErrorKind::Decode,
        TranslateErrorView::UnsupportedSection { .. } => ErrorKind::UnsupportedSection,
        TranslateErrorView::UnsupportedInstruction { .. } => ErrorKind::UnsupportedInstruction,
        TranslateErrorView::UnsupportedType { .. } => ErrorKind::UnsupportedType,
        TranslateErrorView::UnsupportedAttribute { .. } => ErrorKind::UnsupportedAttribute,
        TranslateErrorView::UnexpectedNeedMoreData { .. } => ErrorKind::InternalConsistency,
        TranslateErrorView::Stalled { .. } => ErrorKind::InternalConsistency,
        TranslateErrorView::AnnotationRendered => ErrorKind::InternalConsistency,
    }
}

/// How a section kind is written in a message.
pub open spec fn section_kind_text(kind: SectionKind) -> Seq<char> {
    match kind {
        SectionKind::Header => "header"@,
        SectionKind::Global => "global section"@,
        SectionKind::Other(id) => "section "@ + decimal(id as nat),
        SectionKind::Fragment => "section fragment"@,
        SectionKind::End => "end"@,
    }
}

/// How a value type is written in a message.
pub open spec fn val_type_text(ty: WasmValType) -> Seq<char> {
    match ty {
        WasmValType::I32 => "I32"@,
        WasmValType::I64 => "I64"@,
        WasmValType::F32 => "F32"@,
        WasmValType::F64 => "F64"@,
        WasmValType::V128 => "V128"@,
        WasmValType::Ref => "Ref"@,
    }
}

/// How a sync variation is written.
pub open spec fn sync_text(sync: UasmDataAttributeSync) -> Seq<char> {
    match sync {
        UasmDataAttributeSync::NoInterpolation => "none"@,
        UasmDataAttributeSync::Linear => "linear"@,
        UasmDataAttributeSync::Smooth => "smooth"@,
    }
}

/// Where in the module a failure lies, as written in a message.
pub open spec fn offset_text(offset: u64) -> Seq<char> {
    " (at offset 0x"@ + hexadecimal(offset as nat) + ")"@
}

/// The message of an error.
pub open spec fn message_text(error: TranslateErrorView) -> Seq<char> {
    match error {
        TranslateErrorView::Malformed { offset, message } => "Failed to parse wasm file: "@
            + message + offset_text(offset),
        TranslateErrorView::MalformedEntry {
            index,
            offset,
            message,
        } => "Failed to parse global section: entry "@ + decimal(index as nat) + ": "@ + message
            + offset_text(offset),
        TranslateErrorView::Truncated { hint } => "Failed to parse wasm file: "@ + decimal(
            hint as nat,
        ),
        TranslateErrorView::UnsupportedSection { kind } => "Unsupported section: "@
            + section_kind_text(kind),
        TranslateErrorView::UnsupportedInstruction { name } => "Unsupported instruction: "@ + name,
        TranslateErrorView::UnsupportedType { ty } => "Unsupported type: "@ + val_type_text(ty),
        TranslateErrorView::UnsupportedAttribute { sync } => "Unsupported attribute: sync "@
            + sync_text(sync),
        TranslateErrorView::UnexpectedNeedMoreData {
            hint,
        } => "Unexpected Error: need more data. Hint: "@ + decimal(hint as nat),
        TranslateErrorView::Stalled { position } => "Unexpected Error: no progress at byte "@
            + decimal(position as nat),
        TranslateErrorView::AnnotationRendered => "Unexpected Error: an annotation has no text"@,
    }
}

impl SectionKind {
    /// The kind as written in a message.
    pub fn to_string(&self) -> (text: String)
        ensures
            text@ == section_kind_text(*self),
    {
        match self {
            SectionKind::Header => String::from_str("header"),
            SectionKind::Global => String::from_str("global section"),
            SectionKind::Other(id) => {
                let mut text = String::from_str("section ");
                text.append(render_decimal(*id as u64).as_str());
                text
            },
            SectionKind::Fragment => String::from_str("section fragment"),
            SectionKind::End => String::from_str("end"),
        }
    }
}

impl WasmValType {
    /// The type as written in a message.
    pub fn to_string(&self) -> (text: String)
        ensures
            text@ == val_type_text(*self),
    {
        match self {
            WasmValType::I32 => String::from_str("I32"),
            WasmValType::I64 => String::from_str("I64"),
            WasmValType::F32 => String::from_str("F32"),
            WasmValType::F64 => String::from_str("F64"),
            WasmValType::V128 => String::from_str("V128"),
            WasmValType::Ref => String::from_str("Ref"),
        }
    }
}

impl UasmDataAttributeSync {
    /// The variation as written in assembly text.
    pub fn to_string(&self) -> (text: String)
        ensures
            text@ == sync_text(*self),
    {
        match self {
            UasmDataAttributeSync::NoInterpolation => String::from_str("none"),
            UasmDataAttributeSync::Linear => String::from_str("linear"),
            UasmDataAttributeSync::Smooth => String::from_str("smooth"),
        }
    }
}

/// Writes where in the module a failure lies.
fn render_offset(offset: u64) -> (text: String)
    ensures
        text@ == offset_text(offset),
{
    let mut text = String::from_str(" (at offset 0x");
    text.append(render_hexadecimal(offset).as_str());
    text.append(")");
    text
}

impl TranslateError {
    /// The kind of this error.
    pub fn kind(&self) -> (kind: ErrorKind)
        ensures
            kind == kind_of_error(self@),
    {
        match self {
            TranslateError::Malformed { .. } => ErrorKind::Decode,
            TranslateError::MalformedEntry { .. } => ErrorKind::Decode,
            TranslateError::Truncated { .. } => ErrorKind::Decode,
            TranslateError::UnsupportedSection { .. } => ErrorKind::UnsupportedSection,
            TranslateError::UnsupportedInstruction { .. } => ErrorKind::UnsupportedInstruction,
            TranslateError::UnsupportedType { .. } => ErrorKind::UnsupportedType,
            TranslateError::UnsupportedAttribute { .. } => ErrorKind::UnsupportedAttribute,
            TranslateError::UnexpectedNeedMoreData { .. } => ErrorKind::InternalConsistency,
            TranslateError::Stalled { .. } => ErrorKind::InternalConsistency,
            TranslateError::AnnotationRendered => ErrorKind::InternalConsistency,
        }
    }

    /// The message of this error, for a person to read.
    pub fn to_string(&self) -> (text: String)
        ensures
            text@ == message_text(self@),
    {
        match self {
            TranslateError::Malformed { offset, message } => {
                let mut text = String::from_str("Failed to parse wasm file: ");
                text.append(message.as_str());
                text.append(render_offset(*offset).as_str());
                assert(text@ =~= message_text(self@));
                text
            },
            TranslateError::MalformedEntry { index, offset, message } => {
                let mut text = String::from_str("Failed to parse global section: entry ");
                text.append(render_decimal(*index as u64).as_str());
                text.append(": ");
                text.append(message.as_str());
                text.append(render_offset(*offset).as_str());
                assert(text@ =~= message_text(self@));
                text
            },
            TranslateError::Truncated { hint } => {
                let mut text = String::from_str("Failed to parse wasm file: ");
                text.append(render_decimal(*hint as u64).as_str());
                text
            },
            TranslateError::UnsupportedSection { kind } => {
                let mut text = String::from_str("Unsupported section: ");
                text.append(kind.to_string().as_str());
                text
            },
            TranslateError::UnsupportedInstruction { name } => {
                let mut text = String::from_str("Unsupported instruction: ");
                text.append(name.as_str());
                text
            },
            TranslateError::UnsupportedType { ty } => {
                let mut text = String::from_str("Unsupported type: ");
                text.append(ty.to_string().as_str());
                text
            },
            TranslateError::UnsupportedAttribute { sync } => {
                let mut text = String::from_str("Unsupported attribute: sync ");
                text.append(sync.to_string().as_str());
                text
            },
            TranslateError::UnexpectedNeedMoreData { hint } => {
                let mut text = String::from_str("Unexpected Error: need more data. Hint: ");
                text.append(render_decimal(*hint as u64).as_str());
                text
            },
            TranslateError::Stalled { position } => {
                let mut text = String::from_str("Unexpected Error: no progress at byte ");
                text.append(render_decimal(*position as u64).as_str());
                text
            },
            TranslateError::AnnotationRendered => String::from_str(
                "Unexpected Error: an annotation has no text",
            ),
        }
    }
}

} // verus!
