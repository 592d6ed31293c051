//! The trusted boundary around quick_xml's pull parser. The reader is
//! modeled by the input text and a step counter; what each step yields
//! is given a name (`token_at`, and `attrs_at` for a tag's attribute
//! walk), which is sound because the slice reader does no I/O and
//! reads no environment: its whole output is a function of the input
//! text alone. Everything downstream speaks of these names.
use crate::xmltree::XmlAttrV;
use quick_xml::events::attributes::{AttrError, Attribute, Attributes};
use quick_xml::events::{BytesStart, Event};
use quick_xml::Reader;
use vstd::prelude::*;

verus! {

#[verifier::external_type_specification]
#[verifier::external_body]
#[verifier::reject_recursive_types(R)]
pub struct ExReader<R>(Reader<R>);

#[verifier::external_type_specification]
#[verifier::external_body]
pub struct ExBytesStart<'i>(BytesStart<'i>);

#[verifier::external_type_specification]
#[verifier::external_body]
pub struct ExAttributes<'a>(Attributes<'a>);

#[verifier::external_type_specification]
#[verifier::external_body]
pub struct ExAttribute<'a>(Attribute<'a>);

#[verifier::external_type_specification]
#[verifier::external_body]
pub struct ExAttrError(AttrError);

/// One tokenizer step, as mathematics: tag names, character data and
/// reference names as plain character sequences. `Skip` stands for
/// markup the tree builder ignores (declarations, comments,
/// processing instructions, document type declarations), `Fail` for a
/// reader error.
pub ghost enum TokenV {
    Start(Seq<char>),
    Empty(Seq<char>),
    End,
    Text(Seq<char>),
    CData(Seq<char>),
    Ref(Seq<char>),
    Skip,
    Eof,
    Fail,
}

/// The attribute walk of the tag one tokenizer step opened: the
/// attributes yielded in order, each with its name and its resolved,
/// normalized value, and whether the walk ends cleanly rather than in
/// a malformed attribute or escape.
pub ghost struct AttrsV {
    pub list: Seq<XmlAttrV>,
    pub ok: bool,
}

/// The name for what the reader's step `i` on input `s` yields: the
/// tokenization of a string is a function of the string alone.
pub uninterp spec fn token_at(s: Seq<char>, i: int) -> TokenV;

/// The name for the attribute walk of the tag opened at step `i` on
/// input `s`.
pub uninterp spec fn attrs_at(s: Seq<char>, i: int) -> AttrsV;

/// What one event call hands back. Tag names are fetched separately
/// with `tag_name`; character data comes out as plain strings.
pub enum RawEvent {
    Start,
    Empty,
    End,
    Text(String),
    CData(String),
    Ref(String),
    Skip,
    Eof,
    Fail,
}

/// The event agrees with the token: same kind, and the same character
/// data where the event carries any.
pub open spec fn event_matches(e: RawEvent, t: TokenV) -> bool {
    match (e, t) {
        (RawEvent::Start, TokenV::Start(_)) => true,
        (RawEvent::Empty, TokenV::Empty(_)) => true,
        (RawEvent::End, TokenV::End) => true,
        (RawEvent::Text(x), TokenV::Text(m)) => x@ == m,
        (RawEvent::CData(x), TokenV::CData(m)) => x@ == m,
        (RawEvent::Ref(x), TokenV::Ref(m)) => x@ == m,
        (RawEvent::Skip, TokenV::Skip) => true,
        (RawEvent::Eof, TokenV::Eof) => true,
        (RawEvent::Fail, TokenV::Fail) => true,
        _ => false,
    }
}

/// The XML pull reader, modeled by its input text and the number of
/// events already pulled; it also keeps the last opened tag so its
/// name and attributes can be read.
pub struct XmlReader<'i> {
    inner: Reader<&'i [u8]>,
    tag: Option<BytesStart<'i>>,
    text: Ghost<Seq<char>>,
    pos: Ghost<int>,
}

impl<'i> XmlReader<'i> {
    /// The input text of the reader's model. The model fields are
    /// private, so only this module's trusted items speak for them.
    pub closed spec fn text(&self) -> Seq<char> {
        self.text@
    }

    /// How many events the reader has pulled.
    pub closed spec fn pos(&self) -> int {
        self.pos@
    }
}

/// Relies on quick_xml's Reader::from_str: a fresh pull reader over
/// the text.
#[verifier::external_body]
fn raw_reader<'i>(s: &'i str) -> Reader<&'i [u8]> {
    Reader::from_str(s)
}

/// A pull reader over the text, at step zero.
pub(crate) fn text_reader<'i>(s: &'i str) -> (r: XmlReader<'i>)
    ensures
        r.text() == s@,
        r.pos() == 0,
{
    XmlReader { inner: raw_reader(s), tag: None, text: Ghost(s@), pos: Ghost(0) }
}

/// Relies on quick_xml's Reader::read_event, whose result is a
/// function of the input text and the step count alone: the event is
/// the named `token_at` step. A `Start` or `Empty` tag is kept for
/// `tag_name` and `attr_iter`; character data is converted through
/// the xml10_content methods.
#[verifier::external_body]
pub(crate) fn next_event<'i>(r: &mut XmlReader<'i>) -> (e: RawEvent)
    ensures
        final(r).text() == old(r).text(),
        final(r).pos() == old(r).pos() + 1,
        event_matches(e, token_at(old(r).text(), old(r).pos())),
{
    match r.inner.read_event() {
        Ok(Event::Start(b)) => { r.tag = Some(b); RawEvent::Start },
        Ok(Event::Empty(b)) => { r.tag = Some(b); RawEvent::Empty },
        Ok(Event::End(_)) => RawEvent::End,
        Ok(Event::Text(t)) => RawEvent::Text(t.xml10_content().into_owned()),
        Ok(Event::CData(t)) => RawEvent::CData(t.xml10_content().into_owned()),
        Ok(Event::GeneralRef(g)) => RawEvent::Ref(g.xml10_content().into_owned()),
        Ok(Event::Eof) => RawEvent::Eof,
        Ok(_) => RawEvent::Skip,
        Err(_) => RawEvent::Fail,
    }
}

/// Relies on quick_xml's BytesStart::name, through the kept tag: the
/// name of the tag that the last `Start` or `Empty` event opened,
/// that is, of the token at the step before the reader's position.
#[verifier::external_body]
pub(crate) fn tag_name(r: &XmlReader<'_>) -> (n: Option<String>)
    requires
        r.pos() >= 1,
    ensures
        (match n {
            Some(nm) => (token_at(r.text(), r.pos() - 1) matches TokenV::Start(m) ==> nm@ == m) && (
            token_at(r.text(), r.pos() - 1) matches TokenV::Empty(m) ==> nm@ == m),
            None => !(token_at(r.text(), r.pos() - 1) matches TokenV::Start(_)) && !(token_at(
                r.text(),
                r.pos() - 1,
            ) matches TokenV::Empty(_)),
        }),
{
    match &r.tag {
        Some(b) => Some(String::from(b.name().into_inner())),
        None => None,
    }
}

/// The attribute walk in progress: the reader's text, the step whose
/// tag is walked, and how many attributes were yielded.
pub struct AttrIter<'b> {
    inner: Attributes<'b>,
    text: Ghost<Seq<char>>,
    idx: Ghost<int>,
    pos: Ghost<int>,
}

impl<'b> AttrIter<'b> {
    /// The input text of the walked reader's model.
    pub closed spec fn text(&self) -> Seq<char> {
        self.text@
    }

    /// The step whose tag is walked.
    pub closed spec fn idx(&self) -> int {
        self.idx@
    }

    /// How many attributes the walk has yielded.
    pub closed spec fn pos(&self) -> int {
        self.pos@
    }
}

/// One step of the attribute walk.
pub enum AttrStep {
    Item(String, String),
    Done,
    Fail,
}

/// Relies on quick_xml's BytesStart::attributes, through the kept
/// tag: the raw attribute iterator of the tag that the last `Start`
/// or `Empty` event opened, which is then present.
#[verifier::external_body]
fn raw_attrs<'b, 'i>(r: &'b XmlReader<'i>) -> (a: Option<Attributes<'b>>)
    requires
        token_at(r.text(), r.pos() - 1) matches TokenV::Start(_) || token_at(r.text(), r.pos() - 1)
            matches TokenV::Empty(_),
    ensures
        a is Some,
{
    match &r.tag {
        Some(b) => Some(b.attributes()),
        None => None,
    }
}

/// Starts the attribute walk of the tag that the last `Start` or
/// `Empty` event opened.
pub(crate) fn attr_iter<'b, 'i>(r: &'b XmlReader<'i>) -> (it: AttrIter<'b>)
    requires
        token_at(r.text(), r.pos() - 1) matches TokenV::Start(_) || token_at(r.text(), r.pos() - 1)
            matches TokenV::Empty(_),
    ensures
        it.text() == r.text(),
        it.idx() == r.pos() - 1,
        it.pos() == 0,
{
    let raw = raw_attrs(r);
    match raw {
        Some(a) => AttrIter { inner: a, text: Ghost(r.text()), idx: Ghost(r.pos() - 1), pos: Ghost(0) },
        None => {
            proof {
                assert(false);
            }
            unreached()
        },
    }
}

/// Relies on Attributes::next and Attribute::normalized_value: steps
/// the walk, yielding each attribute's name and its resolved,
/// normalized value as plain strings, exactly the named `attrs_at` of
/// the walked step; a malformed attribute or escape ends the walk
/// with `Fail`. Past the walk's end nothing more is promised: the
/// iterator recovers after an error and may yield further items.
#[verifier::external_body]
pub(crate) fn attr_next<'b>(it: &mut AttrIter<'b>) -> (s: AttrStep)
    ensures
        final(it).text() == old(it).text(),
        final(it).idx() == old(it).idx(),
        final(it).pos() == old(it).pos() + 1,
        ({
            let a = attrs_at(old(it).text(), old(it).idx());
            if old(it).pos() < a.list.len() {
                s matches AttrStep::Item(n, v) && n@ == a.list[old(it).pos()].name && v@
                    == a.list[old(it).pos()].value
            } else if old(it).pos() == a.list.len() {
                if a.ok {
                    s matches AttrStep::Done
                } else {
                    s matches AttrStep::Fail
                }
            } else {
                true
            }
        }),
{
    match it.inner.next() {
        Some(Ok(a)) => match a.normalized_value(quick_xml::XmlVersion::Implicit1_0) {
            Ok(v) => AttrStep::Item(String::from(a.key.into_inner()), v.into_owned()),
            Err(_) => AttrStep::Fail,
        },
        Some(Err(_)) => AttrStep::Fail,
        None => AttrStep::Done,
    }
}

} // verus!
