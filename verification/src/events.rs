//! The events of a manifest, as the document reader yields them and the
//! document writer takes them.
//!
//! Documents are read and written by the `xml` crate. Its events are turned
//! into `ManifestEvent`s, on which the rest of the library works, and back.
//! What the reader makes of a document, and the writer of a sequence of
//! events, is not proved here: `parsed_manifest` and `emitted_manifest` stand
//! for it.

use crate::error::RewriteError;
use vstd::prelude::*;

verus! {

/// `xml::name::OwnedName`, a qualified name: a local name, and a namespace
/// and a prefix if any. Its fields are public and are read as they are
/// declared in the crate.
#[verifier::external_type_specification]
pub struct ExOwnedName(xml::name::OwnedName);

/// `xml::attribute::OwnedAttribute`, a qualified name with a value. Its
/// fields are public and are read as they are declared in the crate.
#[verifier::external_type_specification]
pub struct ExOwnedAttribute(xml::attribute::OwnedAttribute);

/// `xml::common::XmlVersion`, the version named in a document declaration:
/// one of two variants without fields.
#[verifier::external_type_specification]
pub struct ExXmlVersion(xml::common::XmlVersion);

/// `xml::namespace::Namespace`, the prefix bindings in force at a start tag.
/// Nothing is known of what it holds: it is carried from the reader to the
/// writer.
#[verifier::external_type_specification]
#[verifier::external_body]
pub struct ExNamespace(xml::namespace::Namespace);

/// `xml::reader::XmlEvent`, an event of the document reader. Its variants and
/// their fields are public and are read as they are declared in the crate.
#[verifier::external_type_specification]
pub struct ExReaderEvent(xml::reader::XmlEvent);

/// `xml::reader::Error`, the failure of the document reader. Nothing is known
/// of what it holds.
#[verifier::external_type_specification]
#[verifier::external_body]
pub struct ExReaderError(xml::reader::Error);

/// `xml::writer::Error`, the failure of the document writer. Nothing is known
/// of what it holds.
#[verifier::external_type_specification]
#[verifier::external_body]
pub struct ExWriterError(xml::writer::Error);

/// The text, if there is one, as a sequence of characters.
pub open spec fn opt_view(text: Option<String>) -> Option<Seq<char>> {
    match text {
        Some(t) => Some(t@),
        None => None,
    }
}

/// A qualified name: the local name, and the namespace and prefix if any.
#[derive(Debug, Clone, PartialEq, Eq)]
pub struct QName {
    pub local_name: String,
    pub namespace: Option<String>,
    pub prefix: Option<String>,
}

/// A qualified name with its texts as sequences of characters.
pub struct QNameView {
    pub local_name: Seq<char>,
    pub namespace: Option<Seq<char>>,
    pub prefix: Option<Seq<char>>,
}

impl View for QName {
    type V = QNameView;

    open spec fn view(&self) -> QNameView {
        QNameView {
            local_name: self.local_name@,
            namespace: opt_view(self.namespace),
            prefix: opt_view(self.prefix),
        }
    }
}

/// An attribute of a start tag.
#[derive(Debug, Clone, PartialEq, Eq)]
pub struct Attribute {
    pub name: QName,
    pub value: String,
}

/// An attribute with its texts as sequences of characters.
pub struct AttributeView {
    pub name: QNameView,
    pub value: Seq<char>,
}

impl View for Attribute {
    type V = AttributeView;

    open spec fn view(&self) -> AttributeView {
        AttributeView { name: self.name@, value: self.value@ }
    }
}

/// The views of the attributes, in their order.
pub open spec fn attribute_views(attributes: Seq<Attribute>) -> Seq<AttributeView> {
    attributes.map_values(|a: Attribute| a@)
}

/// The version named in a document declaration.
#[derive(Debug, Clone, Copy, PartialEq, Eq, Structural)]
pub enum DocumentVersion {
    Version10,
    Version11,
}

/// An event that is neither a tag nor text.
#[derive(Debug, Clone, PartialEq, Eq)]
pub enum OtherEvent {
    StartDocument { version: DocumentVersion, encoding: String, standalone: Option<bool> },
    EndDocument,
    ProcessingInstruction { name: String, data: Option<String> },
    CData(String),
    Comment(String),
    Whitespace(String),
}

/// An `OtherEvent` with its texts as sequences of characters.
pub enum OtherEventView {
    StartDocument { version: DocumentVersion, encoding: Seq<char>, standalone: Option<bool> },
    EndDocument,
    ProcessingInstruction { name: Seq<char>, data: Option<Seq<char>> },
    CData(Seq<char>),
    Comment(Seq<char>),
    Whitespace(Seq<char>),
}

impl View for OtherEvent {
    type V = OtherEventView;

    open spec fn view(&self) -> OtherEventView {
        match *self {
            OtherEvent::StartDocument { version, encoding, standalone } => OtherEventView::StartDocument {
                version,
                encoding: encoding@,
                standalone,
            },
            OtherEvent::EndDocument => OtherEventView::EndDocument,
            OtherEvent::ProcessingInstruction { name, data } => OtherEventView::ProcessingInstruction {
                name: name@,
                data: opt_view(data),
            },
            OtherEvent::CData(text) => OtherEventView::CData(text@),
            OtherEvent::Comment(text) => OtherEventView::Comment(text@),
            OtherEvent::Whitespace(text) => OtherEventView::Whitespace(text@),
        }
    }
}

/// One event of a manifest.
#[derive(Debug, PartialEq, Eq)]
pub enum ManifestEvent {
    StartElement { name: QName, attributes: Vec<Attribute>, namespace: xml::namespace::Namespace },
    EndElement { name: QName },
    Text(String),
    Other(OtherEvent),
}

/// A `ManifestEvent` with its texts as sequences of characters.
pub enum ManifestEventView {
    StartElement {
        name: QNameView,
        attributes: Seq<AttributeView>,
        namespace: xml::namespace::Namespace,
    },
    EndElement { name: QNameView },
    Text(Seq<char>),
    Other(OtherEventView),
}

impl View for ManifestEvent {
    type V = ManifestEventView;

    open spec fn view(&self) -> ManifestEventView {
        match *self {
            ManifestEvent::StartElement { name, attributes, namespace } => ManifestEventView::StartElement {
                name: name@,
                attributes: attribute_views(attributes@),
                namespace,
            },
            ManifestEvent::EndElement { name } => ManifestEventView::EndElement { name: name@ },
            ManifestEvent::Text(text) => ManifestEventView::Text(text@),
            ManifestEvent::Other(other) => ManifestEventView::Other(other@),
        }
    }
}

/// The views of the events, in their order.
pub open spec fn event_views(events: Seq<ManifestEvent>) -> Seq<ManifestEventView> {
    events.map_values(|e: ManifestEvent| e@)
}

/// What a name of the document reader is, as a qualified name.
pub open spec fn xml_name_view(name: xml::name::OwnedName) -> QNameView {
    QNameView {
        local_name: name.local_name@,
        namespace: opt_view(name.namespace),
        prefix: opt_view(name.prefix),
    }
}

/// What an attribute of the document reader is, as an attribute.
pub open spec fn xml_attribute_view(attribute: xml::attribute::OwnedAttribute) -> AttributeView {
    AttributeView { name: xml_name_view(attribute.name), value: attribute.value@ }
}

/// What the attributes of the document reader are, in their order.
pub open spec fn xml_attribute_views(
    attributes: Seq<xml::attribute::OwnedAttribute>,
) -> Seq<AttributeView> {
    attributes.map_values(|a: xml::attribute::OwnedAttribute| xml_attribute_view(a))
}

/// What a version of the document reader is, as a document version.
pub open spec fn xml_version_view(version: xml::common::XmlVersion) -> DocumentVersion {
    match version {
        xml::common::XmlVersion::Version10 => DocumentVersion::Version10,
        xml::common::XmlVersion::Version11 => DocumentVersion::Version11,
    }
}

/// What an event of the document reader is, as a manifest event.
pub open spec fn xml_event_view(event: xml::reader::XmlEvent) -> ManifestEventView {
    match event {
        xml::reader::XmlEvent::StartDocument { version, encoding, standalone } => ManifestEventView::Other(
            OtherEventView::StartDocument {
                version: xml_version_view(version),
                encoding: encoding@,
                standalone,
            },
        ),
        xml::reader::XmlEvent::EndDocument => ManifestEventView::Other(OtherEventView::EndDocument),
        xml::reader::XmlEvent::ProcessingInstruction { name, data } => ManifestEventView::Other(
            OtherEventView::ProcessingInstruction { name: name@, data: opt_view(data) },
        ),
        xml::reader::XmlEvent::StartElement { name, attributes, namespace } => ManifestEventView::StartElement {
            name: xml_name_view(name),
            attributes: xml_attribute_views(attributes@),
            namespace,
        },
        xml::reader::XmlEvent::EndElement { name } => ManifestEventView::EndElement {
            name: xml_name_view(name),
        },
        xml::reader::XmlEvent::CData(text) => ManifestEventView::Other(OtherEventView::CData(text@)),
        xml::reader::XmlEvent::Comment(text) => ManifestEventView::Other(
            OtherEventView::Comment(text@),
        ),
        xml::reader::XmlEvent::Characters(text) => ManifestEventView::Text(text@),
        xml::reader::XmlEvent::Whitespace(text) => ManifestEventView::Other(
            OtherEventView::Whitespace(text@),
        ),
    }
}

/// What the events of the document reader are, in their order.
pub open spec fn xml_event_views(events: Seq<xml::reader::XmlEvent>) -> Seq<ManifestEventView> {
    events.map_values(|e: xml::reader::XmlEvent| xml_event_view(e))
}

proof fn lemma_attribute_views_push(s: Seq<Attribute>, a: Attribute)
    ensures
        attribute_views(s.push(a)) == attribute_views(s).push(a@),
{
}

proof fn lemma_xml_attribute_views_push(
    s: Seq<xml::attribute::OwnedAttribute>,
    a: xml::attribute::OwnedAttribute,
)
    ensures
        xml_attribute_views(s.push(a)) == xml_attribute_views(s).push(xml_attribute_view(a)),
{
}

/// The views of a sequence of events grow with the sequence.
pub proof fn lemma_event_views_push(s: Seq<ManifestEvent>, e: ManifestEvent)
    ensures
        event_views(s.push(e)) == event_views(s).push(e@),
{
}

proof fn lemma_xml_event_views_push(s: Seq<xml::reader::XmlEvent>, e: xml::reader::XmlEvent)
    ensures
        xml_event_views(s.push(e)) == xml_event_views(s).push(xml_event_view(e)),
{
}

impl QName {
    /// A name without namespace and prefix.
    pub fn local(local_name: &str) -> (r: QName)
        ensures
            r@ == (QNameView { local_name: local_name@, namespace: None, prefix: None }),
    {
        QName { local_name: local_name.to_owned(), namespace: None, prefix: None }
    }

    /// The qualified name that a name of the document reader stands for.
    pub fn from_xml(name: xml::name::OwnedName) -> (r: QName)
        ensures
            r@ == xml_name_view(name),
    {
        QName { local_name: name.local_name, namespace: name.namespace, prefix: name.prefix }
    }

    /// The name of the document reader that stands for this qualified name.
    pub fn into_xml(self) -> (r: xml::name::OwnedName)
        ensures
            xml_name_view(r) == self@,
    {
        xml::name::OwnedName {
            local_name: self.local_name,
            namespace: self.namespace,
            prefix: self.prefix,
        }
    }
}

impl Attribute {
    /// An attribute whose name has neither namespace nor prefix.
    pub fn new(local_name: &str, value: &str) -> (r: Attribute)
        ensures
            r@ == (AttributeView {
                name: QNameView { local_name: local_name@, namespace: None, prefix: None },
                value: value@,
            }),
    {
        Attribute { name: QName::local(local_name), value: value.to_owned() }
    }

    /// The attribute that an attribute of the document reader stands for.
    pub fn from_xml(attribute: xml::attribute::OwnedAttribute) -> (r: Attribute)
        ensures
            r@ == xml_attribute_view(attribute),
    {
        Attribute { name: QName::from_xml(attribute.name), value: attribute.value }
    }

    /// The attribute of the document reader that stands for this attribute.
    pub fn into_xml(self) -> (r: xml::attribute::OwnedAttribute)
        ensures
            xml_attribute_view(r) == self@,
    {
        xml::attribute::OwnedAttribute { name: self.name.into_xml(), value: self.value }
    }
}

fn attributes_from_xml(attributes: Vec<xml::attribute::OwnedAttribute>) -> (r: Vec<Attribute>)
    ensures
        attribute_views(r@) == xml_attribute_views(attributes@),
{
    let mut r: Vec<Attribute> = Vec::new();
    for a in it: attributes.into_iter()
        invariant
            it.seq() == attributes@,
            attribute_views(r@) == xml_attribute_views(it.seq().take(it.index())),
    {
        let ghost before = r@;
        let converted = Attribute::from_xml(a);
        proof {
            lemma_attribute_views_push(before, converted);
            lemma_xml_attribute_views_push(it.seq().take(it.index()), a);
        }
        r.push(converted);
    }
    r
}

fn attributes_into_xml(attributes: Vec<Attribute>) -> (r: Vec<xml::attribute::OwnedAttribute>)
    ensures
        xml_attribute_views(r@) == attribute_views(attributes@),
{
    let mut r: Vec<xml::attribute::OwnedAttribute> = Vec::new();
    for a in it: attributes.into_iter()
        invariant
            it.seq() == attributes@,
            xml_attribute_views(r@) == attribute_views(it.seq().take(it.index())),
    {
        let ghost before = r@;
        let converted = a.into_xml();
        proof {
            lemma_attribute_views_push(it.seq().take(it.index()), a);
            lemma_xml_attribute_views_push(before, converted);
        }
        r.push(converted);
    }
    r
}

impl ManifestEvent {
    /// The manifest event that an event of the document reader stands for.
    pub fn from_xml(event: xml::reader::XmlEvent) -> (r: ManifestEvent)
        ensures
            r@ == xml_event_view(event),
    {
        match event {
            xml::reader::XmlEvent::StartDocument { version, encoding, standalone } => {
                let version = match version {
                    xml::common::XmlVersion::Version10 => DocumentVersion::Version10,
                    xml::common::XmlVersion::Version11 => DocumentVersion::Version11,
                };
                ManifestEvent::Other(OtherEvent::StartDocument { version, encoding, standalone })
            },
            xml::reader::XmlEvent::EndDocument => ManifestEvent::Other(OtherEvent::EndDocument),
            xml::reader::XmlEvent::ProcessingInstruction { name, data } => ManifestEvent::Other(
                OtherEvent::ProcessingInstruction { name, data },
            ),
            xml::reader::XmlEvent::StartElement { name, attributes, namespace } => {
                ManifestEvent::StartElement {
                    name: QName::from_xml(name),
                    attributes: attributes_from_xml(attributes),
                    namespace,
                }
            },
            xml::reader::XmlEvent::EndElement { name } => ManifestEvent::EndElement {
                name: QName::from_xml(name),
            },
            xml::reader::XmlEvent::CData(text) => ManifestEvent::Other(OtherEvent::CData(text)),
            xml::reader::XmlEvent::Comment(text) => ManifestEvent::Other(OtherEvent::Comment(text)),
            xml::reader::XmlEvent::Characters(text) => ManifestEvent::Text(text),
            xml::reader::XmlEvent::Whitespace(text) => ManifestEvent::Other(
                OtherEvent::Whitespace(text),
            ),
        }
    }

    /// The event of the document reader that stands for this manifest event.
    pub fn into_xml(self) -> (r: xml::reader::XmlEvent)
        ensures
            xml_event_view(r) == self@,
    {
        match self {
            ManifestEvent::StartElement { name, attributes, namespace } => {
                xml::reader::XmlEvent::StartElement {
                    name: name.into_xml(),
                    attributes: attributes_into_xml(attributes),
                    namespace,
                }
            },
            ManifestEvent::EndElement { name } => xml::reader::XmlEvent::EndElement {
                name: name.into_xml(),
            },
            ManifestEvent::Text(text) => xml::reader::XmlEvent::Characters(text),
            ManifestEvent::Other(OtherEvent::StartDocument { version, encoding, standalone }) => {
                let version = match version {
                    DocumentVersion::Version10 => xml::common::XmlVersion::Version10,
                    DocumentVersion::Version11 => xml::common::XmlVersion::Version11,
                };
                xml::reader::XmlEvent::StartDocument { version, encoding, standalone }
            },
            ManifestEvent::Other(OtherEvent::EndDocument) => xml::reader::XmlEvent::EndDocument,
            ManifestEvent::Other(OtherEvent::ProcessingInstruction { name, data }) => {
                xml::reader::XmlEvent::ProcessingInstruction { name, data }
            },
            ManifestEvent::Other(OtherEvent::CData(text)) => xml::reader::XmlEvent::CData(text),
            ManifestEvent::Other(OtherEvent::Comment(text)) => xml::reader::XmlEvent::Comment(text),
            ManifestEvent::Other(OtherEvent::Whitespace(text)) => xml::reader::XmlEvent::Whitespace(
                text,
            ),
        }
    }
}

/// The events that `xml::EventReader` yields for a document, the closing
/// end-of-document event included; `None` where the reader reports a
/// failure. The reader runs with its options `ignore_comments` and
/// `ignore_root_level_whitespace` switched off, and is otherwise as it comes.
pub uninterp spec fn parsed_manifest(document: Seq<u8>) -> Option<Seq<ManifestEventView>>;

/// The bytes that `xml::EventWriter` produces for a sequence of events;
/// `None` where the writer refuses one of them. The writer runs with its
/// options `write_document_declaration`, `pad_self_closing` and
/// `autopad_comments` switched off, and is otherwise as it comes.
pub uninterp spec fn emitted_manifest(events: Seq<ManifestEventView>) -> Option<Seq<u8>>;

/// Runs `xml::EventReader` over the whole document and collects the events
/// that its iterator yields: all of them up to the end-of-document event, or
/// the first failure. The reader reads nothing but the document, so that what
/// comes back is a function of the document: `parsed_manifest` of it. The
/// contract says nothing of a call that does not return.
#[verifier::external_body]
fn read_events(document: &[u8]) -> (r: Result<Vec<xml::reader::XmlEvent>, xml::reader::Error>)
    ensures
        match r {
            Ok(events) => parsed_manifest(document@) == Some(xml_event_views(events@)),
            Err(_) => parsed_manifest(document@) is None,
        },
{
    let config = xml::ParserConfig::new().ignore_comments(false).ignore_root_level_whitespace(false);
    xml::EventReader::new_with_config(document, config).into_iter().collect()
}

/// Hands the events one by one to `xml::EventWriter::write`, with an empty
/// buffer to write to, and returns the buffer, or the writer's first failure.
/// An event goes to the writer in the form that `XmlEvent::as_writer_event`
/// gives it; an end-of-document event has none and is passed over. The writer
/// reads nothing but the events, so that what comes back is a function of
/// them: `emitted_manifest` of the events.
#[verifier::external_body]
fn write_events(events: &Vec<xml::reader::XmlEvent>) -> (r: Result<Vec<u8>, xml::writer::Error>)
    ensures
        match r {
            Ok(bytes) => emitted_manifest(xml_event_views(events@)) == Some(bytes@),
            Err(_) => emitted_manifest(xml_event_views(events@)) is None,
        },
{
    let config = xml::EmitterConfig::new().write_document_declaration(false).pad_self_closing(
        false,
    ).autopad_comments(false);
    let mut writer = config.create_writer(Vec::new());
    for event in events {
        if let Some(out) = event.as_writer_event() {
            writer.write(out)?;
        }
    }
    Ok(writer.into_inner())
}

/// Reads a manifest into its events.
pub fn parse_manifest(document: &[u8]) -> (r: Result<Vec<ManifestEvent>, RewriteError>)
    ensures
        match r {
            Ok(events) => parsed_manifest(document@) == Some(event_views(events@)),
            Err(e) => e == RewriteError::MalformedInput && parsed_manifest(document@) is None,
        },
{
    match read_events(document) {
        Ok(raw) => {
            let mut events: Vec<ManifestEvent> = Vec::new();
            for e in it: raw.into_iter()
                invariant
                    it.seq() == raw@,
                    event_views(events@) == xml_event_views(it.seq().take(it.index())),
            {
                let ghost before = events@;
                let converted = ManifestEvent::from_xml(e);
                proof {
                    lemma_event_views_push(before, converted);
                    lemma_xml_event_views_push(it.seq().take(it.index()), e);
                }
                events.push(converted);
            }
            Ok(events)
        },
        Err(_) => Err(RewriteError::MalformedInput),
    }
}

/// Writes events as a document.
pub fn emit_manifest(events: Vec<ManifestEvent>) -> (r: Result<Vec<u8>, RewriteError>)
    ensures
        match r {
            Ok(bytes) => emitted_manifest(event_views(events@)) == Some(bytes@),
            Err(e) => e == RewriteError::MalformedInput && emitted_manifest(event_views(events@))
                is None,
        },
{
    let mut raw: Vec<xml::reader::XmlEvent> = Vec::new();
    for e in it: events.into_iter()
        invariant
            it.seq() == events@,
            xml_event_views(raw@) == event_views(it.seq().take(it.index())),
    {
        let ghost before = raw@;
        let converted = e.into_xml();
        proof {
            lemma_event_views_push(it.seq().take(it.index()), e);
            lemma_xml_event_views_push(before, converted);
        }
        raw.push(converted);
    }
    assert(events@.take(events@.len() as int) == events@);
    match write_events(&raw) {
        Ok(bytes) => Ok(bytes),
        Err(_) => Err(RewriteError::MalformedInput),
    }
}

} // verus!
